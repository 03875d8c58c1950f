//! The persistent data model: a grant record, the storage keys the durable
//! store is organised by, and the errors an operation can end in.
//!
//! Principals (the admin and the grantee) and assets are identified by opaque
//! numeric identifiers; the library only ever compares them for equality.

use vstd::prelude::*;

verus! {

/// One grant: funds committed by `admin` to `grantee`, accruing at
/// `flow_rate` per second against the remaining `balance`.
#[derive(Clone, Copy, Debug, PartialEq, Eq, Structural)]
pub struct Grant {
    /// The principal that funded the grant and controls pausing.
    pub admin: u64,
    /// The principal entitled to withdraw accrued funds.
    pub grantee: u64,
    /// Amount accruing per second. Kept signed and unconstrained: a
    /// non-positive rate simply never accrues a positive payout.
    pub flow_rate: i128,
    /// Funds remaining; never negative.
    pub balance: i128,
    /// The last moment accrual was settled: creation or the last withdrawal
    /// that paid out. Never decreases over a grant's lifetime.
    pub last_claim_time: u64,
    /// While true, withdrawal is blocked.
    pub is_paused: bool,
    /// The fungible asset the grant is denominated in.
    pub token: u64,
}

impl Grant {
    /// A grant record is valid when its remaining balance is non-negative.
    pub open spec fn wf(self) -> bool {
        self.balance >= 0
    }
}

/// Keys of the durable store: one entry per grant, keyed by its identifier,
/// plus the single counter tracking the highest identifier handed out.
#[derive(Clone, Copy, Debug, PartialEq, Eq, Structural)]
pub enum DataKey {
    Grant(u64),
    Count,
}

/// Why an operation was aborted. Every failure leaves the registry exactly
/// as it was: no partial write survives any of these.
#[derive(Clone, Copy, Debug, PartialEq, Eq, Structural)]
pub enum Error {
    /// No grant exists under the given identifier.
    NotFound,
    /// The invoking principal is not the one the operation requires.
    Unauthorized,
    /// Withdrawal was attempted while the grant is paused.
    Paused,
    /// The elapsed-time subtraction or the accrual multiplication would
    /// overflow.
    ArithmeticOverflow,
    /// The token ledger rejected the transfer.
    TransferFailed,
}

} // verus!
