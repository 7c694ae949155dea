//! Withdrawals: funds leave the service to an on-chain address. Starting one reserves the
//! amount plus the estimated fee; the sender broadcasts it once, labelled with its id so that
//! a broadcast is found again after a crash; the mined output debits the reservation.

use crate::auth;
use crate::balance::{self, debited, reserved, Balance, BalanceView, Reservation, ReservationId, ReservationStatus};
use crate::btc::{self, MilliSats, Sats, TxOut};
use crate::concurrency::ConflictError;
use crate::sys::{self, uuid_text, Timestamp};
use crate::user;
use vstd::prelude::*;

verus! {

/// Why a withdrawal was not started.
#[derive(Debug, Clone, Copy, PartialEq, Eq, Structural)]
pub enum Error {
    InsufficientBalance(balance::InsufficientBalance),
    ConcurrencyConflict(ConflictError),
    AmountNotPositive,
}

/// Identifies a withdrawal.
#[derive(Debug, Default, Clone, Copy, PartialEq, Eq, Structural)]
pub struct Id(pub u128);

/// A withdrawal of a user's funds to an on-chain address.
#[derive(Debug)]
pub struct Withdrawal {
    pub id: Id,
    pub user_id: user::Id,
    pub token_id: auth::TokenId,
    pub reservation_id: ReservationId,
    pub address: btc::Address,
    pub fee: Sats,
    pub amount: Sats,
    /// The broadcast output, once sent.
    pub tx_out: Option<TxOut>,
    pub created: Timestamp,
    pub confirmed: Option<Timestamp>,
}

/// The funds a withdrawal of `amount` with `fee` reserves, in millisatoshis.
pub open spec fn withdrawal_total(amount: Sats, fee: Sats) -> int {
    (amount.0 + fee.0) * 1000
}

/// What the sender does for an unsent withdrawal.
#[derive(Debug, Clone)]
pub enum SendStep {
    /// The output was broadcast before: record it.
    Record(TxOut),
    /// Broadcast now.
    Broadcast,
}

/// `after` and `r1` follow from confirming the sent withdrawal `before` with its mined output
/// `t`, against its reservation `r0`.
pub open spec fn confirmed_by(before: Withdrawal, r0: Reservation, t: TxOut, after: Withdrawal, r1: Reservation) -> bool {
    &&& after.confirmed.is_some()
    &&& after == Withdrawal { tx_out: Some(t), confirmed: after.confirmed, ..before }
    &&& debited(r0, r1)
}

impl Withdrawal {
    /// A withdrawal is confirmed only once it has been sent.
    pub open spec fn wf(&self) -> bool {
        self.confirmed.is_some() ==> self.tx_out.is_some()
    }

    /// Checks the amount before a fee is estimated for it.
    pub fn validate(amount: Sats) -> (r: Result<(), Error>)
        ensures
            r is Err == (amount.0 <= 0),
            r matches Err(e) ==> e == Error::AmountNotPositive,
    {
        if amount.0 <= 0 {
            Err(Error::AmountNotPositive)
        } else {
            Ok(())
        }
    }

    /// Starts a withdrawal of `amount` to `address` with the estimated `fee`: reserves the
    /// amount plus fee, or fails when the amount is not positive or the balance falls short.
    pub fn start(
        grant: &auth::SpendGrant,
        balance: &mut Balance,
        address: btc::Address,
        amount: Sats,
        fee: Sats,
    ) -> (r: Result<(Withdrawal, Reservation), Error>)
        requires
            grant.user_id == old(balance)@.user_id,
            fee.0 >= 0,
        ensures
            amount.0 <= 0 ==> r == Err::<(Withdrawal, Reservation), Error>(Error::AmountNotPositive),
            amount.0 > 0 && withdrawal_total(amount, fee) > old(balance)@.amount ==> r == Err::<
                (Withdrawal, Reservation),
                Error,
            >(Error::InsufficientBalance(balance::InsufficientBalance)),
            r is Err ==> final(balance)@ == old(balance)@,
            amount.0 > 0 && withdrawal_total(amount, fee) <= old(balance)@.amount ==> (r matches Ok(
                (w, res),
            ) && reserved(old(balance)@, withdrawal_total(amount, fee) as i64, final(balance)@, res)
                && w.reservation_id == res.id && w.user_id == grant.user_id && w.token_id
                == grant.token_id && w.amount == amount && w.fee == fee && w.address == address
                && w.tx_out.is_none() && w.confirmed.is_none() && w.wf()),
    {
        match Withdrawal::validate(amount) {
            Err(e) => return Err(e),
            Ok(()) => {},
        }
        let total: i128 = (amount.0 as i128 + fee.0 as i128) * 1000;
        if total > balance.amount().0 as i128 {
            return Err(Error::InsufficientBalance(balance::InsufficientBalance));
        }
        let reservation = match balance.reserve(MilliSats(total as i64)) {
            Ok(res) => res,
            Err(e) => return Err(Error::InsufficientBalance(e)),
        };
        let w = Withdrawal {
            id: Id(sys::new_uuid()),
            token_id: grant.token_id,
            reservation_id: reservation.id,
            user_id: grant.user_id,
            amount,
            fee,
            address,
            tx_out: None,
            created: sys::now(),
            confirmed: None,
        };
        Ok((w, reservation))
    }

    pub fn is_sent(&self) -> (r: bool)
        ensures
            r == self.tx_out.is_some(),
    {
        self.tx_out.is_some()
    }

    pub fn is_confirmed(&self) -> (r: bool)
        ensures
            r == self.confirmed.is_some(),
    {
        self.confirmed.is_some()
    }

    /// The label the broadcast carries on the node: the withdrawal's id as text.
    pub fn label(&self) -> (r: String)
        ensures
            r@ == uuid_text(self.id.0),
    {
        sys::uuid_to_string(self.id.0)
    }

    /// Decides the sender's step from what a search of the node's wallet by this withdrawal's
    /// label found: an output found is recorded, and only when none is found is it broadcast.
    pub fn next_send_step(&self, found: Option<TxOut>) -> (r: SendStep)
        requires
            !self.tx_out.is_some(),
        ensures
            found matches Some(o) ==> r matches SendStep::Record(p) && p == o,
            found.is_none() ==> r matches SendStep::Broadcast,
    {
        match found {
            Some(o) => SendStep::Record(o),
            None => SendStep::Broadcast,
        }
    }

    /// Records the broadcast output.
    pub fn send(&mut self, tx_out: TxOut)
        requires
            old(self).tx_out.is_none(),
        ensures
            *final(self) == (Withdrawal { tx_out: Some(tx_out), ..*old(self) }),
            final(self).wf(),
    {
        self.tx_out = Some(tx_out);
    }

    /// Whether the chain listener should confirm this withdrawal with an output of its
    /// transaction: the output is mined and the withdrawal is not yet confirmed.
    pub fn should_confirm(&self, tx_out: &TxOut) -> (r: bool)
        ensures
            r == (tx_out.tx.block_height.is_some() && self.confirmed.is_none()),
    {
        tx_out.tx.is_confirmed() && !self.is_confirmed()
    }

    /// Confirms the withdrawal with its mined output and debits its reservation for good.
    pub fn confirm(&mut self, tx_out: &TxOut, reservation: &mut Reservation)
        requires
            old(self).tx_out matches Some(o) && o.tx.id.0@ == tx_out.tx.id.0@,
            old(self).confirmed.is_none(),
            tx_out.tx.block_height.is_some(),
            old(reservation).status == ReservationStatus::Pending,
            old(self).reservation_id == old(reservation).id,
        ensures
            confirmed_by(*old(self), *old(reservation), *tx_out, *final(self), *final(reservation)),
            final(self).wf(),
    {
        self.tx_out = Some(tx_out.copy());
        self.confirmed = Some(sys::now());
        reservation.debit();
    }
}

/// The broadcast output of a stored withdrawal: present only when both its transaction id
/// and its output index are stored. The output pays the withdrawal's address its amount.
pub fn stored_tx_out(
    tx_id: Option<String>,
    v_out: Option<i64>,
    block_height: Option<u32>,
    address: &btc::Address,
    amount: Sats,
) -> (r: Option<TxOut>)
    ensures
        r.is_some() == (tx_id.is_some() && v_out.is_some()),
        r matches Some(o) ==> tx_id matches Some(t) && v_out matches Some(v) && o.tx.id.0 == t
            && o.v_out == v && o.tx.block_height == block_height && o.address.0@ == address.0@
            && o.amount == amount,
{
    match (tx_id, v_out) {
        (Some(t), Some(v)) => Some(
            TxOut {
                tx: btc::Tx { id: btc::TxId(t), block_height },
                address: btc::Address(address.0.clone()),
                v_out: v,
                amount,
            },
        ),
        _ => None,
    }
}

/// A confirmed withdrawal's reservation is debited.
pub proof fn confirmed_withdrawal_is_debited(
    before: Withdrawal,
    r0: Reservation,
    t: TxOut,
    after: Withdrawal,
    r1: Reservation,
)
    requires
        confirmed_by(before, r0, t, after, r1),
    ensures
        after.confirmed.is_some(),
        r1.status == ReservationStatus::Debited,
        r1.id == after.reservation_id || r0.id != before.reservation_id,
{
}

} // verus!
