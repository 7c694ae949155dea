//! Paging of listings: how many records, from which offset.

use crate::btc::fits_i64;
use crate::text::{all_digits, digits_value};
use vstd::prelude::*;

verus! {

/// The smallest page a listing may ask for.
pub const MIN_LIMIT: i64 = 1;

/// The largest page a listing may ask for.
pub const MAX_LIMIT: i64 = 250;

/// The page size when none is given.
pub const DEFAULT_LIMIT: i64 = 100;

/// A page of a listing, newest records first.
#[derive(Debug, Clone, Copy, PartialEq, Eq, Structural)]
pub struct QueryRange {
    pub limit: i64,
    pub offset: i64,
}

/// Why a page request was refused.
#[derive(Debug, Clone, Copy, PartialEq, Eq, Structural)]
pub enum RangeError {
    /// The limit is no number, or lies outside 1 to 250.
    InvalidLimit,
    /// The offset is no number, or is negative.
    InvalidOffset,
}

/// A page request as it arrives: limit and offset as text, each optional.
#[derive(Debug, Clone)]
pub struct Range {
    pub limit: Option<String>,
    pub offset: Option<String>,
}

/// The value of a text as a decimal `i64`: an optional `+` or `-`, then one or more ASCII
/// digits, with no other character, and a value that fits in 64 bits; `None` otherwise.
pub open spec fn decimal_i64(s: Seq<char>) -> Option<i64> {
    let signed = s.len() > 0 && (s[0] == '+' || s[0] == '-');
    let body = if signed { s.drop_first() } else { s };
    let v = if signed && s[0] == '-' { -digits_value(body) } else { digits_value(body) };
    if body.len() > 0 && all_digits(body) && fits_i64(v) {
        Some(v as i64)
    } else {
        None
    }
}

/// Relies on `<i64 as FromStr>::from_str`: the text is read as an optional sign followed by
/// decimal digits, and a value out of range is an error.
#[verifier::external_body]
fn parse_i64(s: &str) -> (r: Option<i64>)
    ensures
        r == decimal_i64(s@),
{
    s.parse::<i64>().ok()
}

/// The verdict on a page size.
pub open spec fn limit_verdict(limit: i64) -> Result<i64, RangeError> {
    if MIN_LIMIT <= limit <= MAX_LIMIT {
        Ok(limit)
    } else {
        Err(RangeError::InvalidLimit)
    }
}

/// The verdict on an offset.
pub open spec fn offset_verdict(offset: i64) -> Result<i64, RangeError> {
    if offset >= 0 {
        Ok(offset)
    } else {
        Err(RangeError::InvalidOffset)
    }
}

/// The verdict on a page size given as text, or 100 when none is given.
pub open spec fn limit_text_verdict(s: Option<Seq<char>>) -> Result<i64, RangeError> {
    match s {
        None => Ok(DEFAULT_LIMIT),
        Some(t) => match decimal_i64(t) {
            None => Err(RangeError::InvalidLimit),
            Some(v) => limit_verdict(v),
        },
    }
}

/// The verdict on an offset given as text, or 0 when none is given.
pub open spec fn offset_text_verdict(s: Option<Seq<char>>) -> Result<i64, RangeError> {
    match s {
        None => Ok(0),
        Some(t) => match decimal_i64(t) {
            None => Err(RangeError::InvalidOffset),
            Some(v) => offset_verdict(v),
        },
    }
}

/// The text of an optional string.
pub open spec fn opt_view(s: Option<String>) -> Option<Seq<char>> {
    match s {
        None => None,
        Some(t) => Some(t@),
    }
}

/// Accepts a page size from 1 to 250.
pub fn check_limit(limit: i64) -> (r: Result<i64, RangeError>)
    ensures
        r == limit_verdict(limit),
{
    if limit < MIN_LIMIT || limit > MAX_LIMIT {
        Err(RangeError::InvalidLimit)
    } else {
        Ok(limit)
    }
}

/// Accepts an offset of zero or more.
pub fn check_offset(offset: i64) -> (r: Result<i64, RangeError>)
    ensures
        r == offset_verdict(offset),
{
    if offset < 0 {
        Err(RangeError::InvalidOffset)
    } else {
        Ok(offset)
    }
}

impl Range {
    /// Reads the page size: 100 when absent, else a number from 1 to 250.
    pub fn parse_limit(s: Option<String>) -> (r: Result<i64, RangeError>)
        ensures
            r == limit_text_verdict(opt_view(s)),
    {
        match s {
            None => Ok(DEFAULT_LIMIT),
            Some(t) => match parse_i64(t.as_str()) {
                None => Err(RangeError::InvalidLimit),
                Some(v) => check_limit(v),
            },
        }
    }

    /// Reads the offset: 0 when absent, else a number of zero or more.
    pub fn parse_offset(s: Option<String>) -> (r: Result<i64, RangeError>)
        ensures
            r == offset_text_verdict(opt_view(s)),
    {
        match s {
            None => Ok(0),
            Some(t) => match parse_i64(t.as_str()) {
                None => Err(RangeError::InvalidOffset),
                Some(v) => check_offset(v),
            },
        }
    }

    /// The page asked for, the limit checked first.
    pub fn query_range(self) -> (r: Result<QueryRange, RangeError>)
        ensures
            limit_text_verdict(opt_view(self.limit)) matches Err(e) ==> r == Err::<QueryRange, RangeError>(e),
            limit_text_verdict(opt_view(self.limit)) matches Ok(l) ==> match offset_text_verdict(opt_view(self.offset)) {
                Err(e) => r == Err::<QueryRange, RangeError>(e),
                Ok(o) => r == Ok::<QueryRange, RangeError>(QueryRange { limit: l, offset: o }),
            },
    {
        let limit = match Range::parse_limit(self.limit) {
            Ok(l) => l,
            Err(e) => return Err(e),
        };
        let offset = match Range::parse_offset(self.offset) {
            Ok(o) => o,
            Err(e) => return Err(e),
        };
        Ok(QueryRange { limit, offset })
    }
}

} // verus!
