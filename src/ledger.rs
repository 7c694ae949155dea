//! Laws of the reservation protocol, over a user's balance and reservations.

use crate::balance::{credited, debited, refunded, reserved, BalanceView, Reservation, ReservationStatus};
use vstd::prelude::*;

verus! {

/// The funds a reservation still holds out of the balance: its amount while pending or once
/// debited, nothing once refunded.
pub open spec fn held(r: Reservation) -> int {
    if r.status == ReservationStatus::Refunded {
        0
    } else {
        r.amount.0 as int
    }
}

/// The funds held by a sequence of reservations.
pub open spec fn held_total(rs: Seq<Reservation>) -> int
    decreases rs.len(),
{
    if rs.len() == 0 {
        0
    } else {
        held_total(rs.drop_last()) + held(rs.last())
    }
}

/// A user's balance plus what their pending and debited reservations hold.
pub open spec fn funds(b: BalanceView, rs: Seq<Reservation>) -> int {
    b.amount + held_total(rs)
}

proof fn lemma_held_total_update(rs: Seq<Reservation>, i: int, x: Reservation)
    requires
        0 <= i < rs.len(),
    ensures
        held_total(rs.update(i, x)) == held_total(rs) - held(rs[i]) + held(x),
    decreases rs.len(),
{
    let us = rs.update(i, x);
    if i == rs.len() - 1 {
        assert(us.drop_last() =~= rs.drop_last());
    } else {
        lemma_held_total_update(rs.drop_last(), i, x);
        assert(us.drop_last() =~= rs.drop_last().update(i, x));
    }
}

/// Reserving keeps a balance's funds: what leaves the balance is held by the new pending
/// reservation.
pub proof fn reserve_conserves_funds(
    before: BalanceView,
    m: i64,
    after: BalanceView,
    rs: Seq<Reservation>,
    r: Reservation,
)
    requires
        reserved(before, m, after, r),
    ensures
        funds(after, rs.push(r)) == funds(before, rs),
{
    assert(rs.push(r).drop_last() =~= rs);
}

/// Debiting a reservation keeps the funds: the amount stays held, now for good.
pub proof fn debit_conserves_funds(b: BalanceView, rs: Seq<Reservation>, i: int, r: Reservation)
    requires
        0 <= i < rs.len(),
        debited(rs[i], r),
    ensures
        funds(b, rs.update(i, r)) == funds(b, rs),
{
    lemma_held_total_update(rs, i, r);
}

/// Refunding a reservation keeps the funds: what it held returns to the balance.
pub proof fn refund_conserves_funds(
    before: BalanceView,
    after: BalanceView,
    rs: Seq<Reservation>,
    i: int,
    r: Reservation,
)
    requires
        0 <= i < rs.len(),
        refunded(rs[i], r),
        credited(before, rs[i].amount.0 as int, after),
    ensures
        funds(after, rs.update(i, r)) == funds(before, rs),
{
    lemma_held_total_update(rs, i, r);
}

/// A reservation that succeeds leaves a non-negative balance non-negative.
pub proof fn reserve_keeps_balance_nonnegative(
    before: BalanceView,
    m: i64,
    after: BalanceView,
    r: Reservation,
)
    requires
        before.amount >= 0,
        m <= before.amount,
        reserved(before, m, after, r),
    ensures
        after.amount >= 0,
{
}

/// Crediting a non-negative amount leaves a non-negative balance non-negative.
pub proof fn credit_keeps_balance_nonnegative(before: BalanceView, m: int, after: BalanceView)
    requires
        before.amount >= 0,
        m >= 0,
        credited(before, m, after),
    ensures
        after.amount >= 0,
{
}

} // verus!
