//! Fresh identifiers and the wall clock, the two things the ledger takes from its surroundings.

use crate::hex::hex_digits;
use vstd::arithmetic::power::pow;
use vstd::prelude::*;

verus! {

/// A point in time, in milliseconds since the Unix epoch (UTC).
#[derive(Debug, Clone, Copy, PartialEq, Eq, Structural)]
pub struct Timestamp(pub i64);

/// Relies on `uuid::Uuid::new_v4`: a random identifier, as its 128-bit value. Nothing is known
/// of the value.
#[verifier::external_body]
pub(crate) fn new_uuid() -> (r: u128) {
    uuid::Uuid::new_v4().as_u128()
}

/// Relies on `chrono::Utc::now`: the current time, in milliseconds since the epoch. Nothing is
/// known of the value.
#[verifier::external_body]
pub(crate) fn now() -> (r: Timestamp) {
    Timestamp(chrono::Utc::now().timestamp_millis())
}

/// The 32 lower-case hex digits of a 128-bit value, most significant first.
pub open spec fn uuid_digits(id: u128) -> Seq<char> {
    Seq::new(32, |k: int| hex_digits()[(id as int / pow(16, (31 - k) as nat)) % 16])
}

/// The hyphenated text of a 128-bit identifier: its 32 hex digits in groups of 8, 4, 4, 4
/// and 12, joined by hyphens.
pub open spec fn uuid_text(id: u128) -> Seq<char> {
    let d = uuid_digits(id);
    d.subrange(0, 8) + seq!['-'] + d.subrange(8, 12) + seq!['-'] + d.subrange(12, 16) + seq!['-']
        + d.subrange(16, 20) + seq!['-'] + d.subrange(20, 32)
}

/// Relies on `uuid::Uuid`'s `Display`: the hyphenated lower-case text of the identifier.
#[verifier::external_body]
pub(crate) fn uuid_to_string(id: u128) -> (r: String)
    ensures
        r@ == uuid_text(id),
{
    uuid::Uuid::from_u128(id).to_string()
}

} // verus!
