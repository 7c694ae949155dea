//! Limits on the amounts a user may send or receive.

use crate::btc::MilliSats;
use vstd::prelude::*;

verus! {

/// Which limit an amount breaks.
#[derive(Debug, Clone, Copy, PartialEq, Eq, Structural)]
pub enum Error {
    AmountTooLow,
    AmountTooHigh,
    DailyLimitExceeded,
}

/// The smallest and largest single amount, and the most per day.
#[derive(Debug, Clone, Copy)]
pub struct CashLimits {
    pub min: MilliSats,
    pub max: MilliSats,
    pub daily: MilliSats,
}

/// An amount to check, with the total already moved in the last day.
#[derive(Debug, Clone, Copy)]
pub struct Amounts {
    /// The amount to send or receive.
    pub amount: MilliSats,
    /// The total sent or received in the last day.
    pub daily_total: MilliSats,
}

/// The verdict on `a` under `l`: the first limit broken, in the order minimum, maximum,
/// daily total.
pub open spec fn limits_verdict(l: CashLimits, a: Amounts) -> Result<(), Error> {
    if a.amount.0 < l.min.0 {
        Err(Error::AmountTooLow)
    } else if a.amount.0 > l.max.0 {
        Err(Error::AmountTooHigh)
    } else if a.daily_total.0 + a.amount.0 > l.daily.0 {
        Err(Error::DailyLimitExceeded)
    } else {
        Ok(())
    }
}

impl CashLimits {
    /// Fails with the first limit that the amounts break.
    pub fn check(&self, amounts: Amounts) -> (r: Result<(), Error>)
        ensures
            r == limits_verdict(*self, amounts),
    {
        if amounts.amount.0 < self.min.0 {
            Err(Error::AmountTooLow)
        } else if amounts.amount.0 > self.max.0 {
            Err(Error::AmountTooHigh)
        } else if (amounts.daily_total.0 as i128) + (amounts.amount.0 as i128)
            > self.daily.0 as i128 {
            Err(Error::DailyLimitExceeded)
        } else {
            Ok(())
        }
    }
}

} // verus!
