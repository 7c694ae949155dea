//! A custodial Bitcoin / Lightning funds ledger: balances, two-phase reservations, and the
//! deposit, withdrawal, invoice and payment state machines that move funds in and out.
//!
//! Every debit goes through a reservation; credits come from confirmed deposits and settled
//! invoices. The decisions taken on what the database and the Lightning node report are
//! functions here, so that the service around them only performs the I/O.

pub mod access;
pub mod auth;
pub mod balance;
pub mod btc;
pub mod cash_limits;
pub mod concurrency;
pub mod config;
pub mod deposit;
pub mod hex;
pub mod invoice;
pub mod ledger;
pub mod ln;
pub mod node;
pub mod payment;
pub mod range;
pub mod rate_limit;
pub mod seconds;
pub mod sys;
pub mod text;
pub mod user;
pub mod withdrawal;

pub use cash_limits::CashLimits;
pub use range::QueryRange;
