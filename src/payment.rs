//! Outgoing Lightning payments. A payment is created, then prepared (the route fee is probed
//! and the amount plus fee reserved), then sent; the reservation is debited on success,
//! refunded on a known failure, and left pending when the outcome is unknown.

use crate::auth;
use crate::balance::{self, credited, debited, refunded, reserved, Balance, BalanceView, Reservation, ReservationId, ReservationStatus};
use crate::btc::{fits_i64, MilliSats};
use crate::cash_limits::{self, limits_verdict, Amounts, CashLimits};
use crate::concurrency::ConflictError;
use crate::ln::{invoice_amount, InvoiceError, PaymentError, PaymentErrorKind, RawInvoice};
use crate::sys::{self, Timestamp};
use crate::user;
use vstd::prelude::*;

verus! {

/// Why a payment did not go through.
#[derive(Debug, Clone)]
pub enum Error {
    LimitsViolated(cash_limits::Error),
    InvalidInvoice(InvoiceError),
    /// Both the invoice and the request name an amount.
    AmountSpecifiedTwice,
    /// Neither the invoice nor the request names an amount.
    AmountNotSpecified,
    PaymentError(PaymentError),
    ConcurrencyConflict(ConflictError),
    InsufficientBalance(balance::InsufficientBalance),
}

/// Identifies a payment.
#[derive(Debug, Default, Clone, Copy, PartialEq, Eq, Structural)]
pub struct Id(pub u128);

/// Where a payment stands.
#[derive(Debug, Clone)]
pub enum Status {
    /// Created; the fee is not known yet.
    New,
    /// Fee known and funds reserved; ready to send.
    Ready,
    Failed { reason: String, timestamp: Timestamp },
    Succeeded { timestamp: Timestamp },
}

/// An outgoing Lightning payment.
#[derive(Debug)]
pub struct Payment {
    pub id: Id,
    pub token_id: auth::TokenId,
    pub user_id: user::Id,
    pub amount: MilliSats,
    pub invoice: RawInvoice,
    pub fee: Option<MilliSats>,
    pub reservation_id: Option<ReservationId>,
    pub created: Timestamp,
    pub status: Status,
}

/// The amount to pay, given what the invoice parser read and the amount the request names:
/// exactly one of the two must name it, and an invoice amount must fit in 64 bits.
pub open spec fn resolved_amount(parsed: Option<Option<u64>>, explicit: Option<MilliSats>) -> Option<i64> {
    match (parsed, explicit) {
        (Some(Some(a)), None) => if a <= i64::MAX as u64 { Some(a as i64) } else { None },
        (Some(None), Some(a)) => Some(a.0),
        _ => None,
    }
}

/// The canonical text of a failure reason.
pub open spec fn reason_text(k: PaymentErrorKind) -> Seq<char> {
    match k {
        PaymentErrorKind::Unknown => "UNKNOWN"@,
        PaymentErrorKind::InvoiceExpired => "INVOICE_EXPIRED"@,
        PaymentErrorKind::InvoiceAlreadyPaid => "INVOICE_ALREADY_PAID"@,
        PaymentErrorKind::TimedOut => "TIMED_OUT"@,
        PaymentErrorKind::NoRouteFound => "NO_ROUTE_FOUND"@,
        PaymentErrorKind::InvalidPaymentDetails => "INVALID_PAYMENT_DETAILS"@,
        PaymentErrorKind::InsufficientLiquidity => "INSUFFICIENT_LIQUIDITY"@,
    }
}

/// The canonical text of a payment error, as stored with a failed payment.
pub fn failure_reason(e: &PaymentError) -> (r: String)
    ensures
        r@ == reason_text(e.kind()),
{
    match e {
        PaymentError::Unknown => "UNKNOWN".to_owned(),
        PaymentError::InvoiceExpired => "INVOICE_EXPIRED".to_owned(),
        PaymentError::InvoiceAlreadyPaid => "INVOICE_ALREADY_PAID".to_owned(),
        PaymentError::TimedOut => "TIMED_OUT".to_owned(),
        PaymentError::NoRouteFound => "NO_ROUTE_FOUND".to_owned(),
        PaymentError::InvalidPaymentDetails(_) => "INVALID_PAYMENT_DETAILS".to_owned(),
        PaymentError::InsufficientLiquidity => "INSUFFICIENT_LIQUIDITY".to_owned(),
    }
}

/// The stored code of a status: 0 for new and ready alike, 2 succeeded, 3 failed.
pub open spec fn status_code(s: Status) -> i32 {
    match s {
        Status::New => 0,
        Status::Ready => 0,
        Status::Succeeded { .. } => 2,
        Status::Failed { .. } => 3,
    }
}

impl Status {
    /// The stored code of the status.
    pub fn code(&self) -> (r: i32)
        ensures
            r == status_code(*self),
    {
        match self {
            Status::New => 0,
            Status::Ready => 0,
            Status::Succeeded { .. } => 2,
            Status::Failed { .. } => 3,
        }
    }

    /// The status stored as `code`, with the failure reason and the timestamps stored beside
    /// it; `None` for an unknown code or a missing field.
    pub fn from_row(
        code: i32,
        failure_reason: Option<String>,
        failure_timestamp: Option<Timestamp>,
        success_timestamp: Option<Timestamp>,
    ) -> (r: Option<Status>)
        ensures
            code == 0 ==> r matches Some(Status::New),
            code == 1 ==> r matches Some(Status::Ready),
            code == 2 ==> match success_timestamp {
                Some(t) => r matches Some(Status::Succeeded { timestamp }) && timestamp == t,
                None => r.is_none(),
            },
            code == 3 ==> match (failure_reason, failure_timestamp) {
                (Some(reason), Some(t)) => r matches Some(Status::Failed { reason: s, timestamp })
                    && s@ == reason@ && timestamp == t,
                _ => r.is_none(),
            },
            !(0 <= code <= 3) ==> r.is_none(),
    {
        match code {
            0 => Some(Status::New),
            1 => Some(Status::Ready),
            2 => match success_timestamp {
                Some(t) => Some(Status::Succeeded { timestamp: t }),
                None => None,
            },
            3 => match (failure_reason, failure_timestamp) {
                (Some(reason), Some(t)) => Some(Status::Failed { reason, timestamp: t }),
                _ => None,
            },
            _ => None,
        }
    }
}

/// What sending a ready payment does, given the node's outcome (`None` for success):
/// success debits the reservation; an unknown outcome changes nothing, for an operator to
/// look into; any other failure refunds the reservation and fails the payment with its reason.
pub open spec fn send_effect(
    pay_before: Payment,
    b0: BalanceView,
    r0: Reservation,
    outcome: Option<PaymentErrorKind>,
    pay_after: Payment,
    b1: BalanceView,
    r1: Reservation,
) -> bool {
    match outcome {
        None => {
            &&& debited(r0, r1)
            &&& b1 == b0
            &&& pay_after.status matches Status::Succeeded { .. }
            &&& pay_after == Payment { status: pay_after.status, ..pay_before }
        },
        Some(PaymentErrorKind::Unknown) => pay_after == pay_before && b1 == b0 && r1 == r0,
        Some(k) => {
            &&& refunded(r0, r1)
            &&& credited(b0, r0.amount.0 as int, b1)
            &&& pay_after.status matches Status::Failed { reason, .. } && reason@ == reason_text(k)
            &&& pay_after == Payment { status: pay_after.status, ..pay_before }
        },
    }
}

impl Payment {
    /// A new payment has neither fee nor reservation; a ready one has both.
    pub open spec fn wf(&self) -> bool {
        &&& (self.status matches Status::New) ==> self.fee.is_none() && self.reservation_id.is_none()
        &&& (self.status matches Status::Ready) ==> self.fee.is_some() && self.reservation_id.is_some()
    }

    /// Creates a new payment of the amount that the invoice or the request names, within the
    /// limits. This cannot meet a concurrency conflict.
    pub fn create(
        grant: &auth::SpendGrant,
        invoice: RawInvoice,
        amount: Option<MilliSats>,
        limits: &CashLimits,
        daily_total: MilliSats,
    ) -> (r: Result<Payment, Error>)
        ensures
            invoice_amount(invoice.0@).is_none() ==> r matches Err(Error::InvalidInvoice(_)),
            invoice_amount(invoice.0@) matches Some(Some(_)) && amount.is_some() ==> r matches Err(
                Error::AmountSpecifiedTwice,
            ),
            invoice_amount(invoice.0@) matches Some(None) && amount.is_none() ==> r matches Err(
                Error::AmountNotSpecified,
            ),
            invoice_amount(invoice.0@) matches Some(Some(a)) && amount.is_none() && a > i64::MAX as u64
                ==> r matches Err(Error::InvalidInvoice(_)),
            resolved_amount(invoice_amount(invoice.0@), amount) matches Some(x) ==> match limits_verdict(
                *limits,
                Amounts { amount: MilliSats(x), daily_total },
            ) {
                Err(e) => r matches Err(Error::LimitsViolated(f)) && f == e,
                Ok(()) => r matches Ok(p) && p.amount.0 == x && p.user_id == grant.user_id
                    && p.token_id == grant.token_id && p.invoice == invoice && p.fee.is_none()
                    && p.reservation_id.is_none() && p.wf() && p.status matches Status::New,
            },
    {
        let parsed = match invoice.amount_msats() {
            Ok(a) => a,
            Err(e) => return Err(Error::InvalidInvoice(e)),
        };
        let amount = match (parsed, amount) {
            (Some(_), Some(_)) => return Err(Error::AmountSpecifiedTwice),
            (Some(a), None) => {
                if a > i64::MAX as u64 {
                    return Err(
                        Error::InvalidInvoice(
                            InvoiceError("invoice amount out of range".to_owned()),
                        ),
                    );
                }
                MilliSats(a as i64)
            },
            (None, Some(a)) => a,
            (None, None) => return Err(Error::AmountNotSpecified),
        };
        match limits.check(Amounts { amount, daily_total }) {
            Err(e) => return Err(Error::LimitsViolated(e)),
            Ok(()) => {},
        }
        Ok(Payment {
            id: Id(sys::new_uuid()),
            token_id: grant.token_id,
            user_id: grant.user_id,
            amount,
            invoice,
            reservation_id: None,
            fee: None,
            created: sys::now(),
            status: Status::New,
        })
    }

    /// Takes the fee probe's result: on a fee, reserves the amount plus fee and makes the
    /// payment ready. When no route was found the error is surfaced and the payment stays new;
    /// any other error fails the payment with the error's reason. The error is returned as given.
    pub fn prepare(&mut self, balance: &mut Balance, probe: Result<MilliSats, PaymentError>) -> (r:
        Result<Reservation, Error>)
        requires
            old(self).wf(),
            old(self).status matches Status::New,
            old(self).user_id == old(balance)@.user_id,
            old(self).amount.0 >= 0,
            probe matches Ok(f) ==> f.0 >= 0,
        ensures
            probe matches Ok(fee) ==> if old(self).amount.0 + fee.0 > old(balance)@.amount {
                &&& r matches Err(Error::InsufficientBalance(_))
                &&& *final(self) == *old(self)
                &&& final(balance)@ == old(balance)@
            } else {
                &&& r matches Ok(res) && reserved(
                    old(balance)@,
                    (old(self).amount.0 + fee.0) as i64,
                    final(balance)@,
                    res,
                ) && final(self).reservation_id == Some(res.id)
                &&& final(self).fee == Some(fee)
                &&& final(self).status matches Status::Ready
                &&& *final(self) == Payment {
                    fee: final(self).fee,
                    reservation_id: final(self).reservation_id,
                    status: final(self).status,
                    ..*old(self)
                }
            },
            final(self).wf(),
            probe matches Err(e) ==> {
                &&& r matches Err(Error::PaymentError(f)) && f == e
                &&& final(balance)@ == old(balance)@
                &&& if e.kind() == PaymentErrorKind::NoRouteFound {
                    *final(self) == *old(self)
                } else {
                    &&& final(self).status matches Status::Failed { reason, .. } && reason@
                        == reason_text(e.kind())
                    &&& *final(self) == Payment { status: final(self).status, ..*old(self) }
                }
            },
    {
        match probe {
            Ok(fee) => {
                let total = self.amount.0 as i128 + fee.0 as i128;
                if total > balance.amount().0 as i128 {
                    return Err(Error::InsufficientBalance(balance::InsufficientBalance));
                }
                let reservation = match balance.reserve(MilliSats(total as i64)) {
                    Ok(res) => res,
                    Err(e) => return Err(Error::InsufficientBalance(e)),
                };
                self.fee = Some(fee);
                self.reservation_id = Some(reservation.id);
                self.status = Status::Ready;
                Ok(reservation)
            },
            Err(PaymentError::NoRouteFound) => Err(Error::PaymentError(PaymentError::NoRouteFound)),
            Err(e) => {
                self.fail(&e);
                Err(Error::PaymentError(e))
            },
        }
    }

    /// The amount to hand the node when sending: none when the invoice names it, else the
    /// payment's amount.
    pub fn send_amount(&self) -> (r: Result<Option<MilliSats>, crate::ln::InvoiceError>)
        ensures
            r.is_ok() == invoice_amount(self.invoice.0@).is_some(),
            invoice_amount(self.invoice.0@) matches Some(Some(_)) ==> r matches Ok(None),
            invoice_amount(self.invoice.0@) matches Some(None) ==> r == Ok::<
                Option<MilliSats>,
                InvoiceError,
            >(Some(self.amount)),
    {
        match self.invoice.amount_msats() {
            Ok(Some(_)) => Ok(None),
            Ok(None) => Ok(Some(self.amount)),
            Err(e) => Err(e),
        }
    }

    /// Takes the node's outcome of sending a ready payment: debits the reservation on success,
    /// refunds it and fails the payment on a known failure, and on an unknown outcome changes
    /// nothing and reports it, since the payment may have gone through.
    pub fn send(
        &mut self,
        balance: &mut Balance,
        reservation: &mut Reservation,
        outcome: Result<(), PaymentError>,
    ) -> (r: Result<(), Error>)
        requires
            old(self).user_id == old(balance)@.user_id,
            old(self).wf(),
            old(self).status matches Status::Ready,
            old(reservation).status == ReservationStatus::Pending,
            old(self).reservation_id == Some(old(reservation).id),
            outcome matches Err(e) ==> (e.kind() != PaymentErrorKind::Unknown ==> fits_i64(
                old(balance)@.amount + old(reservation).amount.0,
            )),
        ensures
            send_effect(
                *old(self),
                old(balance)@,
                *old(reservation),
                match outcome {
                    Ok(()) => None,
                    Err(e) => Some(e.kind()),
                },
                *final(self),
                final(balance)@,
                *final(reservation),
            ),
            final(self).wf(),
            r.is_ok() == outcome.is_ok(),
            outcome matches Err(e) ==> r matches Err(Error::PaymentError(f)) && f == e,
    {
        match outcome {
            Ok(()) => {
                reservation.debit();
                self.status = Status::Succeeded { timestamp: sys::now() };
                Ok(())
            },
            Err(PaymentError::Unknown) => Err(Error::PaymentError(PaymentError::Unknown)),
            Err(e) => {
                reservation.refund(balance);
                self.fail(&e);
                Err(Error::PaymentError(e))
            },
        }
    }

    fn fail(&mut self, e: &PaymentError)
        ensures
            (final(self).status matches Status::Failed { reason, .. } && reason@ == reason_text(
                e.kind(),
            )),
            *final(self) == (Payment { status: final(self).status, ..*old(self) }),
    {
        self.status = Status::Failed { reason: failure_reason(e), timestamp: sys::now() };
    }
}

/// After a send, a succeeded payment's reservation is debited; a failed payment's is refunded,
/// its reason never being the unknown one; and when the outcome is unknown the reservation
/// stays pending.
pub proof fn send_settles_reservation(
    pay_before: Payment,
    b0: BalanceView,
    r0: Reservation,
    outcome: Option<PaymentErrorKind>,
    pay_after: Payment,
    b1: BalanceView,
    r1: Reservation,
)
    requires
        pay_before.status matches Status::Ready,
        send_effect(pay_before, b0, r0, outcome, pay_after, b1, r1),
    ensures
        pay_after.status matches Status::Succeeded { .. } ==> r1.status == ReservationStatus::Debited,
        pay_after.status matches Status::Failed { reason, .. } ==> r1.status == ReservationStatus::Refunded
            && reason@ != "UNKNOWN"@,
        outcome == Some(PaymentErrorKind::Unknown) ==> r1.status == r0.status,
{
    reveal_strlit("UNKNOWN");
    reveal_strlit("INVOICE_EXPIRED");
    reveal_strlit("INVOICE_ALREADY_PAID");
    reveal_strlit("TIMED_OUT");
    reveal_strlit("NO_ROUTE_FOUND");
    reveal_strlit("INVALID_PAYMENT_DETAILS");
    reveal_strlit("INSUFFICIENT_LIQUIDITY");
    assert("UNKNOWN"@.len() == 7);
    if let Some(k) = outcome {
        if k != PaymentErrorKind::Unknown {
            assert(reason_text(k).len() != 7);
        }
    }
}

} // verus!
