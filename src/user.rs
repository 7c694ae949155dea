//! Users of the service.

use crate::btc;
use crate::sys::Timestamp;
use vstd::prelude::*;

verus! {

/// Identifies a user.
#[derive(Debug, Default, Clone, Copy, PartialEq, Eq, Structural, Hash)]
pub struct Id(pub u128);

/// A user's e-mail address.
#[derive(Debug)]
pub struct Email(pub String);

/// A user and their balance.
#[derive(Debug)]
pub struct User {
    pub id: Id,
    pub email: Email,
    pub balance: btc::MilliSats,
    pub created: Timestamp,
}

/// Why a user was not created.
#[derive(Debug, Clone, Copy, PartialEq, Eq, Structural)]
pub enum Error {
    UserAlreadyExists,
}

} // verus!
