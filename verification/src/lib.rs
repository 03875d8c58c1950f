//! A continuous-flow payment grant: an admin deposits funds that accrue to a
//! grantee over time at a fixed per-second rate, withdrawable incrementally
//! and pausable by the admin.
//!
//! The library is the accounting core. The external collaborators — the token
//! ledger that moves funds, the authentication provider, the clock and the
//! durable store — stay outside it: operations take the current time, the
//! invoking principal and the outcome of the ledger transfer as arguments,
//! and their contracts state the resulting state and payout exactly.

pub mod accrual;
pub mod contract;
pub mod grant;
pub mod laws;
