//! The Lightning node as the ledger sees it: invoices, payment outcomes, and the decisions
//! taken on what the node reports.

use crate::btc::{fits_i64, MilliSats};
use crate::text::{chars_of, digit_value, is_digit};
use vstd::prelude::*;
use vstd::string::*;

pub use crate::node::TransactionsQuery;

verus! {

/// An invoice the node could not parse, with the parser's message.
#[derive(Debug, Clone)]
pub struct InvoiceError(pub String);

/// An unparsed BOLT-11 invoice, also called a payment request.
#[derive(Debug, Clone)]
pub struct RawInvoice(pub String);

/// Where the human-readable part of an invoice ends: at its last `1`, the separator before
/// the data; 0 when there is none.
pub open spec fn hrp_end(s: Seq<char>) -> int
    decreases s.len(),
{
    if s.len() == 0 {
        0
    } else if s.last() == '1' {
        s.len() - 1
    } else {
        hrp_end(s.drop_last())
    }
}

/// The value of the digits that end a text, 0 when it ends in no digit.
pub open spec fn trailing_digits_value(s: Seq<char>) -> int
    decreases s.len(),
{
    if s.len() == 0 || !is_digit(s.last()) {
        0
    } else {
        trailing_digits_value(s.drop_last()) * 10 + digit_value(s.last())
    }
}

/// The largest amount an invoice may name without a multiplier suffix: such an amount is in
/// whole bitcoin, and the parser turns it into pico-bitcoin, 10^12 times more, in 64 bits.
pub const MAX_UNSUFFIXED_AMOUNT: u64 = 18446744;

/// Whether an amount without a multiplier suffix, if the invoice names one, can be turned into
/// pico-bitcoin in 64 bits. Such an amount is the run of digits that ends the human-readable
/// part; an amount with a suffix ends that part in a letter.
pub open spec fn amount_in_range(s: Seq<char>) -> bool {
    trailing_digits_value(s.subrange(0, hrp_end(s))) <= MAX_UNSUFFIXED_AMOUNT
}

/// What the BOLT-11 parser reads from a text: `None` when it is no valid invoice, else the
/// amount in millisatoshis that the invoice names, if it names one.
pub uninterp spec fn bolt11_amount(s: Seq<char>) -> Option<Option<u64>>;

/// What the library reads from an invoice text: nothing for an amount out of range, else what
/// the BOLT-11 parser reads.
pub open spec fn invoice_amount(s: Seq<char>) -> Option<Option<u64>> {
    if amount_in_range(s) {
        bolt11_amount(s)
    } else {
        None
    }
}

/// Relies on `lightning_invoice::Invoice::from_str` and `Invoice::amount_milli_satoshis`:
/// whether the text is a valid invoice and, if so, the amount it names. The parser multiplies
/// an amount without suffix by 10^12 unchecked, so such amounts must be in range.
#[verifier::external_body]
fn parse_bolt11_amount(s: &str) -> (r: Result<Option<u64>, InvoiceError>)
    requires
        amount_in_range(s@),
    ensures
        r.is_ok() == bolt11_amount(s@).is_some(),
        r matches Ok(a) ==> bolt11_amount(s@) == Some(a),
{
    match <lightning_invoice::Invoice as std::str::FromStr>::from_str(s) {
        Ok(invoice) => Ok(invoice.amount_milli_satoshis()),
        Err(e) => Err(InvoiceError(e.to_string())),
    }
}

proof fn lemma_hrp_end_bounds(s: Seq<char>)
    ensures
        0 <= hrp_end(s) <= s.len(),
    decreases s.len(),
{
    if s.len() > 0 && s.last() != '1' {
        lemma_hrp_end_bounds(s.drop_last());
    }
}

/// Checks that an amount without suffix in the invoice text is in range.
pub fn check_amount_in_range(s: &str) -> (r: bool)
    ensures
        r == amount_in_range(s@),
{
    let cs = chars_of(s);
    let n = cs.len();
    let mut e: usize = n;
    assert(cs@.subrange(0, n as int) =~= cs@);
    while e > 0 && cs[e - 1] != '1'
        invariant
            e <= n,
            n == cs@.len(),
            hrp_end(cs@.subrange(0, e as int)) == hrp_end(cs@),
        decreases e,
    {
        assert(cs@.subrange(0, e as int).drop_last() =~= cs@.subrange(0, e as int - 1));
        e = e - 1;
    }
    assert(cs@.subrange(0, n as int) =~= cs@);
    let h: usize = if e == 0 { 0 } else { e - 1 };
    assert(hrp_end(cs@) == h) by {
        if e > 0 {
            assert(cs@.subrange(0, e as int).last() == cs@[e - 1]);
        }
    }
    let ghost hrp = cs@.subrange(0, h as int);
    let mut b: usize = h;
    while b > 0 && (cs[b - 1] as u32) >= ('0' as u32) && (cs[b - 1] as u32) <= ('9' as u32)
        invariant
            b <= h < n || (b <= h && h == 0),
            h <= n,
            n == cs@.len(),
            forall|k: int| b <= k < h ==> is_digit(#[trigger] cs@[k]),
        decreases b,
    {
        b = b - 1;
    }
    assert(trailing_digits_value(cs@.subrange(0, b as int)) == 0) by {
        if b > 0 {
            assert(cs@.subrange(0, b as int).last() == cs@[b - 1]);
        }
    }
    let cap: u64 = MAX_UNSUFFIXED_AMOUNT;
    let mut v: u64 = 0;
    let mut j: usize = b;
    while j < h
        invariant
            b <= j <= h,
            h <= n,
            n == cs@.len(),
            cap == MAX_UNSUFFIXED_AMOUNT,
            forall|k: int| b <= k < h ==> is_digit(#[trigger] cs@[k]),
            v as int == (if trailing_digits_value(cs@.subrange(0, j as int)) <= cap {
                trailing_digits_value(cs@.subrange(0, j as int))
            } else {
                cap + 1
            }),
        decreases h - j,
    {
        let c = cs[j];
        let d: u64 = (c as u32 - '0' as u32) as u64;
        proof {
            let sub = cs@.subrange(0, j as int + 1);
            assert(sub.drop_last() =~= cs@.subrange(0, j as int));
            assert(sub.last() == cs@[j as int]);
            assert(is_digit(cs@[j as int]));
            assert(trailing_digits_value(cs@.subrange(0, j as int)) >= 0) by {
                lemma_trailing_nonneg(cs@.subrange(0, j as int));
            }
        }
        if v > cap {
            v = cap + 1;
        } else {
            let t = v * 10 + d;
            v = if t > cap { cap + 1 } else { t };
        }
        j = j + 1;
    }
    assert(hrp =~= cs@.subrange(0, h as int));
    v <= cap
}

proof fn lemma_trailing_nonneg(s: Seq<char>)
    ensures
        trailing_digits_value(s) >= 0,
    decreases s.len(),
{
    if s.len() > 0 && is_digit(s.last()) {
        lemma_trailing_nonneg(s.drop_last());
    }
}

impl RawInvoice {
    /// Parses the invoice and returns the amount it names, if any. An amount without suffix
    /// that is out of range makes the invoice invalid.
    pub fn amount_msats(&self) -> (r: Result<Option<u64>, InvoiceError>)
        ensures
            r.is_ok() == invoice_amount(self.0@).is_some(),
            r matches Ok(a) ==> invoice_amount(self.0@) == Some(a),
    {
        if !check_amount_in_range(self.0.as_str()) {
            return Err(InvoiceError("invoice amount out of range".to_owned()));
        }
        parse_bolt11_amount(self.0.as_str())
    }

    /// Whether two invoices are the same text.
    pub fn same(&self, other: &RawInvoice) -> (r: bool)
        ensures
            r == (self.0@ == other.0@),
    {
        self.0 == other.0
    }
}

/// Why a payment failed, as far as the node tells.
#[derive(Debug, Clone)]
pub enum PaymentError {
    /// The outcome is unknown; the payment may or may not have gone through.
    Unknown,
    InvoiceExpired,
    InvoiceAlreadyPaid,
    TimedOut,
    NoRouteFound,
    /// The receiver rejected the payment details; holds the fee of each attempted route, in
    /// millisatoshis (0 for an attempt without a route).
    InvalidPaymentDetails(Vec<i64>),
    InsufficientLiquidity,
}

/// The state of a payment on the node.
#[derive(Debug, Clone, Copy, PartialEq, Eq, Structural)]
pub enum NodePaymentStatus {
    Unknown,
    InFlight,
    Succeeded,
    Failed,
}

/// The node's reason for a failed payment.
#[derive(Debug, Clone, Copy, PartialEq, Eq, Structural)]
pub enum NodeFailureReason {
    NoReason,
    Timeout,
    NoRoute,
    Error,
    IncorrectPaymentDetails,
    InsufficientBalance,
}

/// A payment as the node reports it at its end.
#[derive(Debug, Clone)]
pub struct NodePayment {
    pub status: NodePaymentStatus,
    pub failure_reason: NodeFailureReason,
    /// The total fee of each attempt's route, 0 for an attempt without a route.
    pub htlc_fees: Vec<i64>,
}

/// The outcome a node report stands for, up to the fees carried by invalid payment details.
pub open spec fn outcome_kind(p: Option<NodePayment>) -> Option<PaymentErrorKind> {
    match p {
        None => Some(PaymentErrorKind::Unknown),
        Some(p) => match p.status {
            NodePaymentStatus::Succeeded => None,
            NodePaymentStatus::Failed => match p.failure_reason {
                NodeFailureReason::Timeout => Some(PaymentErrorKind::TimedOut),
                NodeFailureReason::NoRoute => Some(PaymentErrorKind::NoRouteFound),
                NodeFailureReason::IncorrectPaymentDetails => Some(
                    PaymentErrorKind::InvalidPaymentDetails,
                ),
                NodeFailureReason::InsufficientBalance => Some(PaymentErrorKind::InsufficientLiquidity),
                _ => Some(PaymentErrorKind::Unknown),
            },
            _ => Some(PaymentErrorKind::Unknown),
        },
    }
}

/// The variants of [`PaymentError`], without their data.
#[derive(Debug, Clone, Copy, PartialEq, Eq, Structural)]
pub enum PaymentErrorKind {
    Unknown,
    InvoiceExpired,
    InvoiceAlreadyPaid,
    TimedOut,
    NoRouteFound,
    InvalidPaymentDetails,
    InsufficientLiquidity,
}

impl PaymentError {
    /// The variant of the error.
    pub open spec fn kind(&self) -> PaymentErrorKind {
        match self {
            PaymentError::Unknown => PaymentErrorKind::Unknown,
            PaymentError::InvoiceExpired => PaymentErrorKind::InvoiceExpired,
            PaymentError::InvoiceAlreadyPaid => PaymentErrorKind::InvoiceAlreadyPaid,
            PaymentError::TimedOut => PaymentErrorKind::TimedOut,
            PaymentError::NoRouteFound => PaymentErrorKind::NoRouteFound,
            PaymentError::InvalidPaymentDetails(_) => PaymentErrorKind::InvalidPaymentDetails,
            PaymentError::InsufficientLiquidity => PaymentErrorKind::InsufficientLiquidity,
        }
    }

    /// The variant of the error.
    pub fn error_kind(&self) -> (r: PaymentErrorKind)
        ensures
            r == self.kind(),
    {
        match self {
            PaymentError::Unknown => PaymentErrorKind::Unknown,
            PaymentError::InvoiceExpired => PaymentErrorKind::InvoiceExpired,
            PaymentError::InvoiceAlreadyPaid => PaymentErrorKind::InvoiceAlreadyPaid,
            PaymentError::TimedOut => PaymentErrorKind::TimedOut,
            PaymentError::NoRouteFound => PaymentErrorKind::NoRouteFound,
            PaymentError::InvalidPaymentDetails(_) => PaymentErrorKind::InvalidPaymentDetails,
            PaymentError::InsufficientLiquidity => PaymentErrorKind::InsufficientLiquidity,
        }
    }
}

/// What a node's final report on a payment means: success only for a succeeded payment;
/// an in-flight, unknown or missing report is an unknown outcome.
pub fn payment_outcome(payment: Option<NodePayment>) -> (r: Result<(), PaymentError>)
    ensures
        r.is_ok() == outcome_kind(payment).is_none(),
        r matches Err(e) ==> Some(e.kind()) == outcome_kind(payment),
        r matches Err(PaymentError::InvalidPaymentDetails(fees)) ==> payment matches Some(p)
            && fees@ == p.htlc_fees@,
{
    match payment {
        None => Err(PaymentError::Unknown),
        Some(p) => match p.status {
            NodePaymentStatus::Succeeded => Ok(()),
            NodePaymentStatus::Failed => match p.failure_reason {
                NodeFailureReason::Timeout => Err(PaymentError::TimedOut),
                NodeFailureReason::NoRoute => Err(PaymentError::NoRouteFound),
                NodeFailureReason::IncorrectPaymentDetails => Err(
                    PaymentError::InvalidPaymentDetails(p.htlc_fees),
                ),
                NodeFailureReason::InsufficientBalance => Err(PaymentError::InsufficientLiquidity),
                NodeFailureReason::NoReason => Err(PaymentError::Unknown),
                NodeFailureReason::Error => Err(PaymentError::Unknown),
            },
            NodePaymentStatus::InFlight => Err(PaymentError::Unknown),
            NodePaymentStatus::Unknown => Err(PaymentError::Unknown),
        },
    }
}

/// The sum of a sequence of integers.
pub open spec fn seq_sum(s: Seq<i64>) -> int
    decreases s.len(),
{
    if s.len() == 0 {
        0
    } else {
        seq_sum(s.drop_last()) + s.last()
    }
}

/// The total of the route fees, or `None` when it does not fit in 64 bits.
pub fn total_fees(fees: &Vec<i64>) -> (r: Option<MilliSats>)
    ensures
        r.is_some() == fits_i64(seq_sum(fees@)),
        r matches Some(f) ==> f.0 == seq_sum(fees@),
{
    let mut acc: i128 = 0;
    let mut i: usize = 0;
    let n: usize = fees.len();
    while i < n
        invariant
            n == fees@.len(),
            i <= fees@.len(),
            acc == seq_sum(fees@.subrange(0, i as int)),
            -(i as int) * 0x8000_0000_0000_0000 <= acc <= (i as int) * 0x8000_0000_0000_0000,
        decreases fees@.len() - i,
    {
        proof {
            assert(fees@.subrange(0, i as int + 1).drop_last() =~= fees@.subrange(0, i as int));
            assert((i as int) * 0x8000_0000_0000_0000 + 0x8000_0000_0000_0000 <= 0x1_0000_0000_0000_0000 * 0x8000_0000_0000_0000) by (nonlinear_arith)
                requires i < 0x1_0000_0000_0000_0000;
            assert(i < n);
        }
        acc = acc + fees[i] as i128;
        i = i + 1;
    }
    assert(fees@.subrange(0, fees@.len() as int) =~= fees@);
    if acc < i64::MIN as i128 || acc > i64::MAX as i128 {
        None
    } else {
        Some(MilliSats(acc as i64))
    }
}

/// How many times a fee probe is tried while no route is found.
pub const MAX_PROBE_RETRIES: i32 = 5;

/// What a fee probe does after an attempt.
#[derive(Debug, Clone)]
pub enum ProbeStep {
    /// The fee is known.
    Fee(MilliSats),
    /// Wait and probe again.
    Retry,
    /// The probe failed with this error.
    Fail(PaymentError),
}

/// Decides a fee probe after attempt number `attempt` (from 1). The probe pays with a random
/// payment hash, so the receiver must reject it: invalid payment details are the expected
/// end, and carry the route fees. No route found is retried while attempts remain; any
/// other error ends the probe. Fees that do not fit in 64 bits count as an unknown outcome.
pub fn probe_step(attempt: i32, outcome: Result<(), PaymentError>) -> (r: ProbeStep)
    requires
        1 <= attempt <= MAX_PROBE_RETRIES,
        outcome.is_err(),
    ensures
        outcome matches Err(PaymentError::InvalidPaymentDetails(fees)) ==> (if fits_i64(
            seq_sum(fees@),
        ) {
            r matches ProbeStep::Fee(f) && f.0 == seq_sum(fees@)
        } else {
            r matches ProbeStep::Fail(PaymentError::Unknown)
        }),
        outcome matches Err(PaymentError::NoRouteFound) ==> (if attempt < MAX_PROBE_RETRIES {
            r matches ProbeStep::Retry
        } else {
            r matches ProbeStep::Fail(PaymentError::NoRouteFound)
        }),
        outcome matches Err(e) ==> ((e.kind() != PaymentErrorKind::InvalidPaymentDetails
            && e.kind() != PaymentErrorKind::NoRouteFound) ==> (r matches ProbeStep::Fail(f)
            && f.kind() == e.kind())),
{
    match outcome {
        Err(PaymentError::InvalidPaymentDetails(fees)) => match total_fees(&fees) {
            Some(fee) => ProbeStep::Fee(fee),
            None => ProbeStep::Fail(PaymentError::Unknown),
        },
        Err(PaymentError::NoRouteFound) => {
            if attempt < MAX_PROBE_RETRIES {
                ProbeStep::Retry
            } else {
                ProbeStep::Fail(PaymentError::NoRouteFound)
            }
        },
        Err(e) => ProbeStep::Fail(e),
        Ok(()) => ProbeStep::Fail(PaymentError::Unknown),
    }
}

/// Whether `needle` occurs in `hay` as a contiguous run.
pub open spec fn has_infix(hay: Seq<char>, needle: Seq<char>) -> bool {
    exists|i: int|
        0 <= i && i + needle.len() <= hay.len() && #[trigger] hay.subrange(i, i + needle.len())
            == needle
}

fn matches_at(hay: &Vec<char>, needle: &Vec<char>, at: usize) -> (r: bool)
    requires
        at + needle@.len() <= hay@.len(),
    ensures
        r == (hay@.subrange(at as int, at + needle@.len()) == needle@),
{
    let hl: usize = hay.len();
    let mut j: usize = 0;
    while j < needle.len()
        invariant
            hl == hay@.len(),
            at + needle@.len() <= hay@.len(),
            j <= needle@.len(),
            forall|k: int| 0 <= k < j ==> hay@[at + k] == needle@[k],
        decreases needle@.len() - j,
    {
        if hay[at + j] != needle[j] {
            assert(hay@.subrange(at as int, at + needle@.len())[j as int] != needle@[j as int]);
            return false;
        }
        j = j + 1;
    }
    assert(hay@.subrange(at as int, at + needle@.len()) =~= needle@);
    true
}

fn contains_chars(hay: &Vec<char>, needle: &Vec<char>) -> (r: bool)
    ensures
        r == has_infix(hay@, needle@),
{
    if needle.len() > hay.len() {
        return false;
    }
    let last = hay.len() - needle.len();
    let mut i: usize = 0;
    while i < last
        invariant
            i <= last,
            last + needle@.len() == hay@.len(),
            forall|k: int|
                0 <= k < i ==> #[trigger] hay@.subrange(k, k + needle@.len()) != needle@,
        decreases last - i,
    {
        if matches_at(hay, needle, i) {
            return true;
        }
        i = i + 1;
    }
    if matches_at(hay, needle, last) {
        return true;
    }
    assert forall|k: int| 0 <= k && k + needle@.len() <= hay@.len() implies #[trigger] hay@.subrange(
        k,
        k + needle@.len(),
    ) != needle@ by {
        if k < last {
        } else {
            assert(k == last);
        }
    }
    false
}

/// The lower-case form of a text, as std's Unicode case mapping gives it.
pub uninterp spec fn lower_of(s: Seq<char>) -> Seq<char>;

/// Relies on `str::to_lowercase`: the lower-case form of the text.
#[verifier::external_body]
fn to_lowercase(s: &str) -> (r: String)
    ensures
        r@ == lower_of(s@),
{
    s.to_lowercase()
}

/// What the node's refusal to send a payment means, read from its lower-cased message: an
/// invoice already paid, an expired invoice, or neither.
pub open spec fn refusal_kind(lowered: Seq<char>) -> Option<PaymentErrorKind> {
    if has_infix(lowered, "invoice is already paid"@) {
        Some(PaymentErrorKind::InvoiceAlreadyPaid)
    } else if has_infix(lowered, "invoice expired"@) {
        Some(PaymentErrorKind::InvoiceExpired)
    } else {
        None
    }
}

/// Reads a lower-cased refusal message of the node; `None` when it is neither of the
/// refusals that a payment can meet.
pub fn classify_refusal(lowered: &str) -> (r: Option<PaymentError>)
    ensures
        r matches Some(e) ==> refusal_kind(lowered@) == Some(e.kind()),
        r.is_none() ==> refusal_kind(lowered@).is_none(),
{
    let hay = chars_of(lowered);
    let paid = chars_of("invoice is already paid");
    if contains_chars(&hay, &paid) {
        return Some(PaymentError::InvoiceAlreadyPaid);
    }
    let expired = chars_of("invoice expired");
    if contains_chars(&hay, &expired) {
        return Some(PaymentError::InvoiceExpired);
    }
    None
}

/// Reads the node's refusal to send a payment, whatever the case of its message.
pub fn refusal_error(message: &str) -> (r: Option<PaymentError>)
    ensures
        r matches Some(e) ==> refusal_kind(lower_of(message@)) == Some(e.kind()),
        r.is_none() ==> refusal_kind(lower_of(message@)).is_none(),
{
    let lowered = to_lowercase(message);
    classify_refusal(lowered.as_str())
}

/// A settled invoice, as the node reports it.
#[derive(Debug, Clone)]
pub struct SettledInvoice {
    pub amount: MilliSats,
    pub settle_index: u64,
    pub raw: RawInvoice,
}

/// Whether the node has settled an invoice.
#[derive(Debug, Clone)]
pub enum InvoiceStatus {
    Pending,
    Settled(SettledInvoice),
}

/// An invoice as the node reports it.
#[derive(Debug, Clone)]
pub struct NodeInvoice {
    /// When it was settled, in seconds since the epoch; 0 while it is not.
    pub settle_date: i64,
    pub amt_paid_msat: i64,
    pub payment_request: String,
    pub settle_index: u64,
}

/// The settlement an invoice report carries, if it is settled: a non-zero settle date.
pub fn settlement_of(invoice: NodeInvoice) -> (r: Option<SettledInvoice>)
    ensures
        r.is_some() == (invoice.settle_date != 0),
        r matches Some(s) ==> s.amount.0 == invoice.amt_paid_msat && s.settle_index
            == invoice.settle_index && s.raw.0 == invoice.payment_request,
{
    if invoice.settle_date != 0 {
        Some(
            SettledInvoice {
                amount: MilliSats(invoice.amt_paid_msat),
                settle_index: invoice.settle_index,
                raw: RawInvoice(invoice.payment_request),
            },
        )
    } else {
        None
    }
}

/// The status an invoice report stands for.
pub fn invoice_status(invoice: NodeInvoice) -> (r: InvoiceStatus)
    ensures
        (r matches InvoiceStatus::Settled(_)) == (invoice.settle_date != 0),
        r matches InvoiceStatus::Settled(s) ==> s.amount.0 == invoice.amt_paid_msat
            && s.settle_index == invoice.settle_index && s.raw.0 == invoice.payment_request,
{
    match settlement_of(invoice) {
        Some(s) => InvoiceStatus::Settled(s),
        None => InvoiceStatus::Pending,
    }
}

} // verus!
