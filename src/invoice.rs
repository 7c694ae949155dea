//! Invoices: requests for Lightning payments to a user. Creating one checks the request and the
//! user's receive limits; settling one credits the amount received to the user's balance.

use crate::auth;
use crate::balance::{credited, Balance};
use crate::btc::{fits_i64, MilliSats};
use crate::cash_limits::{self, limits_verdict, Amounts, CashLimits};
use crate::ln::{RawInvoice, SettledInvoice};
use crate::seconds::Seconds;
use crate::sys::{self, Timestamp};
use crate::user;
use vstd::prelude::*;
use vstd::utf8::encode_utf8;

verus! {

/// The longest memo, in bytes of UTF-8.
pub const MAX_MEMO_BYTES: usize = 639;

/// The longest expiry: one year, in seconds.
pub const MAX_EXPIRY_SECONDS: i64 = 31536000;

/// What is wrong with an expiry.
#[derive(Debug, Clone, Copy, PartialEq, Eq, Structural)]
pub enum ExpiryProblem {
    /// It is zero or negative.
    NotPositive,
    /// It is longer than a year.
    TooLong,
}

/// Why an invoice was not created.
#[derive(Debug, Clone, Copy, PartialEq, Eq, Structural)]
pub enum Error {
    LimitsViolated(cash_limits::Error),
    AmountNotPositive,
    InvalidExpiry(ExpiryProblem),
    /// The memo is longer than 639 bytes.
    InvalidMemo,
}

/// Identifies an invoice.
#[derive(Debug, Default, Clone, Copy, PartialEq, Eq, Structural)]
pub struct Id(pub u128);

/// How an invoice was paid.
#[derive(Debug, Clone, Copy, PartialEq, Eq, Structural)]
pub struct Settlement {
    pub amount: MilliSats,
    pub timestamp: Timestamp,
    /// The node's settlement cursor: settlements are numbered in the order they happen, and the
    /// invoice stream resumes from the highest number recorded.
    pub settle_index: u64,
}

/// An invoice issued to a user.
#[derive(Debug)]
pub struct Invoice {
    pub id: Id,
    pub user_id: user::Id,
    pub token_id: auth::TokenId,
    pub amount: MilliSats,
    pub memo: Option<String>,
    pub raw: RawInvoice,
    pub created: Timestamp,
    pub settlement: Option<Settlement>,
    pub expiration: Timestamp,
}

/// The text of an optional memo.
pub open spec fn memo_view(memo: Option<String>) -> Option<Seq<char>> {
    match memo {
        None => None,
        Some(m) => Some(m@),
    }
}

/// The verdict on an invoice request, checked in this order: the amount is positive, the memo
/// has at most 639 bytes, the expiry lies from 1 second to a year, and the limits hold.
pub open spec fn create_verdict(
    amount: MilliSats,
    memo: Option<Seq<char>>,
    expiry: Seconds,
    limits: CashLimits,
    daily_total: MilliSats,
) -> Result<(), Error> {
    if amount.0 <= 0 {
        Err(Error::AmountNotPositive)
    } else if memo matches Some(m) && encode_utf8(m).len() > MAX_MEMO_BYTES {
        Err(Error::InvalidMemo)
    } else if expiry.0 <= 0 {
        Err(Error::InvalidExpiry(ExpiryProblem::NotPositive))
    } else if expiry.0 > MAX_EXPIRY_SECONDS {
        Err(Error::InvalidExpiry(ExpiryProblem::TooLong))
    } else {
        match limits_verdict(limits, Amounts { amount, daily_total }) {
            Err(e) => Err(Error::LimitsViolated(e)),
            Ok(()) => Ok(()),
        }
    }
}

/// The moment `secs` seconds after `t`, or the last representable moment.
pub open spec fn after_seconds(t: Timestamp, secs: i64) -> Timestamp {
    if fits_i64(t.0 + secs * 1000) {
        Timestamp((t.0 + secs * 1000) as i64)
    } else {
        Timestamp(i64::MAX)
    }
}

impl Settlement {
    /// The settlement of a stored invoice: present only when amount, time and index are all
    /// stored.
    pub fn from_row(amount: Option<i64>, timestamp: Option<Timestamp>, settle_index: Option<u64>) -> (r:
        Option<Settlement>)
        ensures
            r.is_some() == (amount.is_some() && timestamp.is_some() && settle_index.is_some()),
            r matches Some(s) ==> amount == Some(s.amount.0) && timestamp == Some(s.timestamp)
                && settle_index == Some(s.settle_index),
    {
        match (amount, timestamp, settle_index) {
            (Some(a), Some(t), Some(i)) => Some(
                Settlement { amount: MilliSats(a), timestamp: t, settle_index: i },
            ),
            _ => None,
        }
    }
}

/// `after` is `before`, settled by `s`.
pub open spec fn settled_by(before: Invoice, s: SettledInvoice, after: Invoice) -> bool {
    &&& before.settlement.is_none()
    &&& after.settlement matches Some(t) && t.amount == s.amount && t.settle_index
        == s.settle_index
    &&& after == Invoice { settlement: after.settlement, ..before }
}

impl Invoice {
    /// Checks an invoice request before the node is asked for one.
    pub fn validate(
        amount: MilliSats,
        memo: &Option<String>,
        expiry: Seconds,
        limits: &CashLimits,
        daily_total: MilliSats,
    ) -> (r: Result<(), Error>)
        ensures
            r == create_verdict(amount, memo_view(*memo), expiry, *limits, daily_total),
    {
        if amount.0 <= 0 {
            return Err(Error::AmountNotPositive);
        }
        match memo {
            Some(m) => {
                if m.as_str().as_bytes().len() > MAX_MEMO_BYTES {
                    return Err(Error::InvalidMemo);
                }
            },
            None => {},
        }
        if expiry.0 <= 0 {
            return Err(Error::InvalidExpiry(ExpiryProblem::NotPositive));
        }
        if expiry.0 > MAX_EXPIRY_SECONDS {
            return Err(Error::InvalidExpiry(ExpiryProblem::TooLong));
        }
        match limits.check(Amounts { amount, daily_total }) {
            Err(e) => Err(Error::LimitsViolated(e)),
            Ok(()) => Ok(()),
        }
    }

    /// Creates an invoice for the payment request `raw` that the node issued, unsettled, to
    /// expire `expiry` seconds from now; fails as [`Invoice::validate`] does.
    pub fn create(
        grant: &auth::ReceiveGrant,
        raw: RawInvoice,
        amount: MilliSats,
        memo: Option<String>,
        expiry: Seconds,
        limits: &CashLimits,
        daily_total: MilliSats,
    ) -> (r: Result<Invoice, Error>)
        ensures
            r.is_err() == create_verdict(amount, memo_view(memo), expiry, *limits, daily_total).is_err(),
            r matches Err(e) ==> create_verdict(amount, memo_view(memo), expiry, *limits, daily_total) == Err::<(), Error>(e),
            r matches Ok(inv) ==> {
                &&& inv.user_id == grant.user_id
                &&& inv.token_id == grant.token_id
                &&& inv.amount == amount
                &&& inv.memo == memo
                &&& inv.raw == raw
                &&& inv.settlement.is_none()
                &&& inv.expiration == after_seconds(inv.created, expiry.0)
            },
    {
        match Invoice::validate(amount, &memo, expiry, limits, daily_total) {
            Err(e) => return Err(e),
            Ok(()) => {},
        }
        let created = sys::now();
        let expiration = match created.0.checked_add(expiry.0 * 1000) {
            Some(t) => Timestamp(t),
            None => Timestamp(i64::MAX),
        };
        Ok(Invoice {
            id: Id(sys::new_uuid()),
            user_id: grant.user_id,
            token_id: grant.token_id,
            amount,
            memo,
            raw,
            created,
            settlement: None,
            expiration,
        })
    }

    pub fn is_settled(&self) -> (r: bool)
        ensures
            r == self.settlement.is_some(),
    {
        self.settlement.is_some()
    }

    /// Whether the invoice has expired at `now`.
    pub fn is_expired_at(&self, now: Timestamp) -> (r: bool)
        ensures
            r == (now.0 >= self.expiration.0),
    {
        now.0 >= self.expiration.0
    }

    /// Whether the invoice has expired by the clock. An expired invoice stays, unsettled.
    pub fn is_expired(&self) -> bool {
        self.is_expired_at(sys::now())
    }

    /// Records the settlement and credits the amount received to the user.
    pub fn settle(&mut self, balance: &mut Balance, settled_invoice: &SettledInvoice)
        requires
            old(self).settlement.is_none(),
            old(self).user_id == old(balance)@.user_id,
            old(self).raw.0@ == settled_invoice.raw.0@,
            fits_i64(old(balance)@.amount + settled_invoice.amount.0),
        ensures
            settled_by(*old(self), *settled_invoice, *final(self)),
            credited(old(balance)@, settled_invoice.amount.0 as int, final(balance)@),
    {
        self.settlement = Some(
            Settlement {
                amount: settled_invoice.amount,
                timestamp: sys::now(),
                settle_index: settled_invoice.settle_index,
            },
        );
        balance.credit(settled_invoice.amount);
    }

    /// Completes the invoice on a settlement the node reports: settles it, or does nothing if it
    /// is settled already, since a settlement may be delivered more than once.
    pub fn complete(&mut self, balance: &mut Balance, settled_invoice: &SettledInvoice)
        requires
            old(self).settlement.is_none() ==> {
                &&& old(self).user_id == old(balance)@.user_id
                &&& old(self).raw.0@ == settled_invoice.raw.0@
                &&& fits_i64(old(balance)@.amount + settled_invoice.amount.0)
            },
        ensures
            completed(*old(self), old(balance)@, *settled_invoice, *final(self), final(balance)@),
    {
        if !self.is_settled() {
            self.settle(balance, settled_invoice);
        }
    }
}

/// `after` and `balance_after` follow from completing `before` with `s`.
pub open spec fn completed(
    before: Invoice,
    balance_before: crate::balance::BalanceView,
    s: SettledInvoice,
    after: Invoice,
    balance_after: crate::balance::BalanceView,
) -> bool {
    if before.settlement.is_some() {
        after == before && balance_after == balance_before
    } else {
        settled_by(before, s, after) && credited(balance_before, s.amount.0 as int, balance_after)
    }
}

/// Delivering the same settlement again changes nothing: the invoice is settled by then.
pub proof fn redelivered_settlement_is_noop(
    i0: Invoice,
    b0: crate::balance::BalanceView,
    s: SettledInvoice,
    i1: Invoice,
    b1: crate::balance::BalanceView,
    i2: Invoice,
    b2: crate::balance::BalanceView,
)
    requires
        completed(i0, b0, s, i1, b1),
        completed(i1, b1, s, i2, b2),
    ensures
        i2 == i1,
        b2 == b1,
{
}

/// The settlement index to resume the node's invoice stream from: the highest recorded, or 0.
pub fn max_settle_index(indexes: &Vec<u64>) -> (r: u64)
    ensures
        forall|i: int| 0 <= i < indexes@.len() ==> indexes@[i] <= r,
        r == 0 || exists|i: int| 0 <= i < indexes@.len() && indexes@[i] == r,
{
    let mut best: u64 = 0;
    let mut i: usize = 0;
    while i < indexes.len()
        invariant
            i <= indexes@.len(),
            forall|j: int| 0 <= j < i ==> indexes@[j] <= best,
            best == 0 || exists|j: int| 0 <= j < i && indexes@[j] == best,
        decreases indexes@.len() - i,
    {
        if indexes[i] > best {
            best = indexes[i];
        }
        i = i + 1;
    }
    best
}

/// Resuming from the highest recorded index keeps settlements in order: a settlement that the
/// stream delivers after that index is numbered above every one settled before.
pub proof fn resumed_settlements_are_ordered(indexes: Seq<u64>, resume: u64, next: u64)
    requires
        forall|i: int| 0 <= i < indexes.len() ==> indexes[i] <= resume,
        next > resume,
    ensures
        forall|i: int| 0 <= i < indexes.len() ==> indexes[i] < next,
{
}

} // verus!
