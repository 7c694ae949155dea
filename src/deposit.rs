//! Deposits: a user sends bitcoin to an address generated for them; the output becomes a
//! deposit, and once it is mined the amount is credited to the user, exactly once.

use crate::auth;
use crate::balance::{credited, Balance, BalanceView};
use crate::btc::{self, fits_i64, TxOut};
use crate::sys::{self, Timestamp};
use crate::user;
use vstd::prelude::*;

verus! {

/// An on-chain address generated for a user to deposit to.
#[derive(Debug)]
pub struct Address {
    pub user_id: user::Id,
    pub token_id: auth::TokenId,
    pub address: btc::Address,
    pub created: Timestamp,
}

/// Identifies a deposit.
#[derive(Debug, Default, Clone, Copy, PartialEq, Eq, Structural)]
pub struct Id(pub u128);

/// An output paid to a deposit address.
#[derive(Debug)]
pub struct Deposit {
    pub id: Id,
    pub user_id: user::Id,
    pub tx_out: TxOut,
    pub created: Timestamp,
    pub confirmed: Option<Timestamp>,
}

impl Address {
    /// A deposit address for the grant's user, at the on-chain address the node generated.
    pub fn generate(grant: &auth::ReceiveGrant, address: btc::Address) -> (r: Address)
        ensures
            r.user_id == grant.user_id,
            r.token_id == grant.token_id,
            r.address == address,
    {
        Address {
            user_id: grant.user_id,
            token_id: grant.token_id,
            address,
            created: sys::now(),
        }
    }

    /// Starts a deposit for an output seen paying this address; it is unconfirmed until the
    /// output is mined and processed again.
    pub fn start_deposit(&self, tx_out: &TxOut) -> (r: Deposit)
        ensures
            r.user_id == self.user_id,
            r.tx_out == *tx_out,
            r.confirmed.is_none(),
            r.wf(),
    {
        Deposit {
            id: Id(sys::new_uuid()),
            user_id: self.user_id,
            tx_out: tx_out.copy(),
            created: sys::now(),
            confirmed: None,
        }
    }
}

/// `after` and `balance_after` follow from processing the output `t` for the deposit `before`:
/// a mined output confirms an unconfirmed deposit and credits its amount; anything else
/// changes nothing.
pub open spec fn processed(
    before: Deposit,
    balance_before: BalanceView,
    t: TxOut,
    after: Deposit,
    balance_after: BalanceView,
) -> bool {
    if t.tx.block_height.is_some() && before.confirmed.is_none() {
        &&& after.confirmed.is_some()
        &&& after == Deposit { tx_out: t, confirmed: after.confirmed, ..before }
        &&& credited(balance_before, t.amount.0 * 1000, balance_after)
    } else {
        after == before && balance_after == balance_before
    }
}

impl Deposit {
    /// A confirmed deposit holds its mined output.
    pub open spec fn wf(&self) -> bool {
        self.confirmed.is_some() ==> self.tx_out.tx.block_height.is_some()
    }

    pub fn is_confirmed(&self) -> (r: bool)
        ensures
            r == self.confirmed.is_some(),
    {
        self.confirmed.is_some()
    }

    /// Confirms the deposit with its mined output and credits the amount to the user.
    pub fn confirm(&mut self, tx_out: &TxOut, balance: &mut Balance)
        requires
            old(self).confirmed.is_none(),
            old(self).tx_out.tx.id.0@ == tx_out.tx.id.0@,
            old(self).user_id == old(balance)@.user_id,
            fits_i64(tx_out.amount.0 * 1000),
            fits_i64(old(balance)@.amount + tx_out.amount.0 * 1000),
        ensures
            final(self).confirmed.is_some(),
            *final(self) == (Deposit { tx_out: *tx_out, confirmed: final(self).confirmed, ..*old(self) }),
            credited(old(balance)@, tx_out.amount.0 * 1000, final(balance)@),
    {
        self.tx_out = tx_out.copy();
        self.confirmed = Some(sys::now());
        balance.credit(tx_out.amount.msats());
    }

    /// Processes an output that pays this deposit, as the chain listener sees it, maybe more
    /// than once: confirms the deposit when the output is mined and the deposit is not yet
    /// confirmed, and otherwise does nothing. Returns whether it confirmed.
    pub fn process(&mut self, tx_out: &TxOut, balance: &mut Balance) -> (r: bool)
        requires
            old(self).tx_out.tx.id.0@ == tx_out.tx.id.0@,
            old(self).user_id == old(balance)@.user_id,
            fits_i64(tx_out.amount.0 * 1000),
            fits_i64(old(balance)@.amount + tx_out.amount.0 * 1000),
        ensures
            processed(*old(self), old(balance)@, *tx_out, *final(self), final(balance)@),
            old(self).wf() ==> final(self).wf(),
            r == (tx_out.tx.block_height.is_some() && old(self).confirmed.is_none()),
    {
        if tx_out.tx.is_confirmed() && !self.is_confirmed() {
            self.confirm(tx_out, balance);
            true
        } else {
            false
        }
    }
}

/// Where an output the chain listener sees stands as a deposit.
#[derive(Debug)]
pub enum Tracking {
    /// The output already has its deposit.
    Existing(Deposit),
    /// The output pays a deposit address and has no deposit yet: this one is new and must be
    /// stored before it is processed.
    Started(Deposit),
    /// The output pays no deposit address.
    Ignored,
}

/// Decides how an output is tracked, given the deposit stored for it and the deposit address
/// it pays, as the store found them. A deposit is started only when none exists for the
/// output, so that each output has at most one.
pub fn tracking(existing: Option<Deposit>, address: Option<&Address>, tx_out: &TxOut) -> (r: Tracking)
    ensures
        existing matches Some(d) ==> r matches Tracking::Existing(e) && e == d,
        existing.is_none() && address.is_none() ==> r matches Tracking::Ignored,
        existing.is_none() ==> (address matches Some(a) ==> (r matches Tracking::Started(d)
            && d.user_id == a.user_id && d.tx_out == *tx_out && d.confirmed.is_none() && d.wf())),
{
    match existing {
        Some(d) => Tracking::Existing(d),
        None => match address {
            Some(a) => Tracking::Started(a.start_deposit(tx_out)),
            None => Tracking::Ignored,
        },
    }
}

/// Processing an output again after it confirmed the deposit changes nothing: the deposit is
/// credited once, by the amount of its mined output.
pub proof fn reprocessing_credits_once(
    d0: Deposit,
    b0: BalanceView,
    t: TxOut,
    d1: Deposit,
    b1: BalanceView,
    t2: TxOut,
    d2: Deposit,
    b2: BalanceView,
)
    requires
        processed(d0, b0, t, d1, b1),
        processed(d1, b1, t2, d2, b2),
        d0.confirmed.is_none(),
        t.tx.block_height.is_some(),
    ensures
        b1.amount == b0.amount + t.amount.0 * 1000,
        d1.confirmed.is_some(),
        d2 == d1,
        b2 == b1,
{
}

} // verus!
