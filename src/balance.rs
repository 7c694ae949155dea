//! User balances and the two-phase reservations through which every debit goes.
//!
//! Spending follows one protocol: reserve the funds (the balance drops at once and a pending
//! reservation records them), commit, perform the irrevocable action, then either debit the
//! reservation (the funds are gone) or refund it (the funds return to the balance). Both ends
//! are final.

use crate::btc::{fits_i64, MilliSats};
use crate::sys;
use crate::sys::Timestamp;
use crate::user;
use vstd::prelude::*;

verus! {

/// The balance does not cover the amount asked for.
#[derive(Debug, Clone, Copy, PartialEq, Eq, Structural)]
pub struct InsufficientBalance;

/// A user's balance as loaded, with the changes made to it since. A write of it succeeds only
/// while the stored balance still equals the amount that was loaded (compare and set).
#[derive(Debug, Clone, Default)]
pub struct Balance {
    user_id: user::Id,
    original_amount: MilliSats,
    amount: MilliSats,
}

/// What a [`Balance`] holds.
pub struct BalanceView {
    pub user_id: user::Id,
    pub original_amount: i64,
    pub amount: i64,
}

impl View for Balance {
    type V = BalanceView;

    closed spec fn view(&self) -> BalanceView {
        BalanceView {
            user_id: self.user_id,
            original_amount: self.original_amount.0,
            amount: self.amount.0,
        }
    }
}

/// Identifies a reservation.
#[derive(Debug, Default, Clone, Copy, PartialEq, Eq, Structural)]
pub struct ReservationId(pub u128);

/// Where a reservation stands. Created pending; debited and refunded are final.
#[derive(Debug, Clone, Copy, PartialEq, Eq, Structural)]
pub enum ReservationStatus {
    Pending,
    Debited,
    Refunded,
}

/// Funds taken from a balance until an irrevocable action succeeds or fails.
#[derive(Debug)]
pub struct Reservation {
    pub id: ReservationId,
    pub user_id: user::Id,
    pub amount: MilliSats,
    pub status: ReservationStatus,
    pub created: Timestamp,
}

/// `after` is `before` with `m` reserved into the pending reservation `r`.
pub open spec fn reserved(before: BalanceView, m: i64, after: BalanceView, r: Reservation) -> bool {
    &&& after.user_id == before.user_id
    &&& after.original_amount == before.original_amount
    &&& after.amount == before.amount - m
    &&& r.user_id == before.user_id
    &&& r.amount.0 == m
    &&& r.status == ReservationStatus::Pending
}

/// `after` is `before` with `m` credited.
pub open spec fn credited(before: BalanceView, m: int, after: BalanceView) -> bool {
    &&& after.user_id == before.user_id
    &&& after.original_amount == before.original_amount
    &&& after.amount == before.amount + m
}

/// `after` is the pending reservation `before`, debited.
pub open spec fn debited(before: Reservation, after: Reservation) -> bool {
    &&& before.status == ReservationStatus::Pending
    &&& after == Reservation { status: ReservationStatus::Debited, ..before }
}

/// `after` is the pending reservation `before`, refunded.
pub open spec fn refunded(before: Reservation, after: Reservation) -> bool {
    &&& before.status == ReservationStatus::Pending
    &&& after == Reservation { status: ReservationStatus::Refunded, ..before }
}

impl Balance {
    /// A balance as loaded from storage.
    pub fn new(user_id: user::Id, amount: MilliSats) -> (r: Balance)
        ensures
            r@ == (BalanceView { user_id, original_amount: amount.0, amount: amount.0 }),
    {
        Balance { user_id, original_amount: amount, amount }
    }

    pub fn user_id(&self) -> (r: user::Id)
        ensures
            r == self@.user_id,
    {
        self.user_id
    }

    /// The amount when loaded.
    pub fn original_amount(&self) -> (r: MilliSats)
        ensures
            r.0 == self@.original_amount,
    {
        self.original_amount
    }

    /// The amount now.
    pub fn amount(&self) -> (r: MilliSats)
        ensures
            r.0 == self@.amount,
    {
        self.amount
    }

    /// Whether the amount differs from the one loaded; an unchanged balance needs no write.
    pub fn changed(&self) -> (r: bool)
        ensures
            r == (self@.original_amount != self@.amount),
    {
        self.original_amount.0 != self.amount.0
    }

    /// Adds funds.
    pub fn credit(&mut self, amount: MilliSats)
        requires
            fits_i64(old(self)@.amount + amount.0),
        ensures
            credited(old(self)@, amount.0 as int, final(self)@),
    {
        self.amount = self.amount.plus(amount);
    }

    /// Takes `amount` out of the balance into a new pending reservation, or fails when the
    /// balance does not cover it.
    pub fn reserve(&mut self, amount: MilliSats) -> (r: Result<Reservation, InsufficientBalance>)
        requires
            fits_i64(old(self)@.amount - amount.0),
        ensures
            r.is_err() == (amount.0 > old(self)@.amount),
            r.is_err() ==> final(self)@ == old(self)@,
            r matches Ok(res) ==> reserved(old(self)@, amount.0, final(self)@, res),
    {
        if amount.0 > self.amount.0 {
            return Err(InsufficientBalance);
        }
        self.amount = self.amount.minus(amount);
        Ok(Reservation {
            id: ReservationId(sys::new_uuid()),
            user_id: self.user_id,
            amount,
            status: ReservationStatus::Pending,
            created: sys::now(),
        })
    }
}

impl ReservationStatus {
    /// The stored code: 0 pending, 1 debited, 2 refunded.
    pub fn code(&self) -> (r: i32)
        ensures
            r == status_code(*self),
    {
        match self {
            ReservationStatus::Pending => 0,
            ReservationStatus::Debited => 1,
            ReservationStatus::Refunded => 2,
        }
    }

    /// The status a stored code stands for; `None` for an unknown code.
    pub fn from_code(code: i32) -> (r: Option<ReservationStatus>)
        ensures
            r matches Some(s) ==> status_code(s) == code,
            r.is_none() == !(0 <= code <= 2),
    {
        match code {
            0 => Some(ReservationStatus::Pending),
            1 => Some(ReservationStatus::Debited),
            2 => Some(ReservationStatus::Refunded),
            _ => None,
        }
    }
}

/// The stored code of a status.
pub open spec fn status_code(s: ReservationStatus) -> i32 {
    match s {
        ReservationStatus::Pending => 0,
        ReservationStatus::Debited => 1,
        ReservationStatus::Refunded => 2,
    }
}

impl Reservation {
    /// Marks the funds as spent for good.
    pub fn debit(&mut self)
        requires
            old(self).status == ReservationStatus::Pending,
        ensures
            debited(*old(self), *final(self)),
    {
        self.status = ReservationStatus::Debited;
    }

    /// Returns the funds to `balance` and marks the reservation refunded.
    pub fn refund(&mut self, balance: &mut Balance)
        requires
            old(self).status == ReservationStatus::Pending,
            fits_i64(old(balance)@.amount + old(self).amount.0),
        ensures
            refunded(*old(self), *final(self)),
            credited(old(balance)@, old(self).amount.0 as int, final(balance)@),
    {
        self.status = ReservationStatus::Refunded;
        balance.credit(self.amount);
    }
}

} // verus!
