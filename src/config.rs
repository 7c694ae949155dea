//! Limits as configured, in satoshis, and as the flows use them, in millisatoshis.

use crate::btc::{fits_i64, Sats};
use crate::cash_limits;
use vstd::prelude::*;

verus! {

/// The limits of the two flows that move funds at a user's request.
#[derive(Debug, Clone, Copy)]
pub struct CashLimits {
    pub payment_limits: cash_limits::CashLimits,
    pub invoice_limits: cash_limits::CashLimits,
}

/// Configured limits, in satoshis.
#[derive(Debug, Clone, Copy)]
pub struct LimitsConfig {
    pub payment_min_sats: i64,
    pub payment_max_sats: i64,
    pub payment_daily_sats: i64,
    pub invoice_min_sats: i64,
    pub invoice_max_sats: i64,
    pub invoice_daily_sats: i64,
}

impl LimitsConfig {
    /// Whether every configured amount can be held in millisatoshis.
    pub open spec fn representable(&self) -> bool {
        &&& fits_i64(self.payment_min_sats * 1000)
        &&& fits_i64(self.payment_max_sats * 1000)
        &&& fits_i64(self.payment_daily_sats * 1000)
        &&& fits_i64(self.invoice_min_sats * 1000)
        &&& fits_i64(self.invoice_max_sats * 1000)
        &&& fits_i64(self.invoice_daily_sats * 1000)
    }

    /// The limits in millisatoshis.
    pub fn into_api_limits(self) -> (r: CashLimits)
        requires
            self.representable(),
        ensures
            r.payment_limits.min.0 == self.payment_min_sats * 1000,
            r.payment_limits.max.0 == self.payment_max_sats * 1000,
            r.payment_limits.daily.0 == self.payment_daily_sats * 1000,
            r.invoice_limits.min.0 == self.invoice_min_sats * 1000,
            r.invoice_limits.max.0 == self.invoice_max_sats * 1000,
            r.invoice_limits.daily.0 == self.invoice_daily_sats * 1000,
    {
        CashLimits {
            payment_limits: cash_limits::CashLimits {
                min: Sats(self.payment_min_sats).msats(),
                max: Sats(self.payment_max_sats).msats(),
                daily: Sats(self.payment_daily_sats).msats(),
            },
            invoice_limits: cash_limits::CashLimits {
                min: Sats(self.invoice_min_sats).msats(),
                max: Sats(self.invoice_max_sats).msats(),
                daily: Sats(self.invoice_daily_sats).msats(),
            },
        }
    }
}

} // verus!
