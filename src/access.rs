//! Request guards: what a request handler holds once the request's token has been checked
//! for the permission the handler needs.

use crate::auth::{ReadGrant, ReceiveGrant, SpendGrant};
use vstd::prelude::*;

verus! {

/// A request that may spend.
pub struct SpendGuard(SpendGrant);

/// A request that may receive.
pub struct ReceiveGuard(ReceiveGrant);

/// A request that may read.
pub struct ReadGuard(ReadGrant);

impl SpendGuard {
    pub fn new(grant: SpendGrant) -> (r: SpendGuard)
        ensures
            r.grant_spec() == grant,
    {
        SpendGuard(grant)
    }

    pub closed spec fn grant_spec(&self) -> SpendGrant {
        self.0
    }

    /// The grant the guard carries.
    pub fn grant(&self) -> (r: &SpendGrant)
        ensures
            *r == self.grant_spec(),
    {
        &self.0
    }
}

impl ReceiveGuard {
    pub fn new(grant: ReceiveGrant) -> (r: ReceiveGuard)
        ensures
            r.grant_spec() == grant,
    {
        ReceiveGuard(grant)
    }

    pub closed spec fn grant_spec(&self) -> ReceiveGrant {
        self.0
    }

    /// The grant the guard carries.
    pub fn grant(&self) -> (r: &ReceiveGrant)
        ensures
            *r == self.grant_spec(),
    {
        &self.0
    }
}

impl ReadGuard {
    pub fn new(grant: ReadGrant) -> (r: ReadGuard)
        ensures
            r.grant_spec() == grant,
    {
        ReadGuard(grant)
    }

    pub closed spec fn grant_spec(&self) -> ReadGrant {
        self.0
    }

    /// The grant the guard carries.
    pub fn grant(&self) -> (r: &ReadGrant)
        ensures
            *r == self.grant_spec(),
    {
        &self.0
    }
}

} // verus!
