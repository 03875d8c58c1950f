//! The grant contract: a registry of grants plus the three operations —
//! create, withdraw, set-pause. Each operation authorizes itself against the
//! invoking principal, reads the grant, settles accrual where due, and writes
//! the updated record back; on any failure it leaves the registry untouched.
//!
//! The external collaborators enter as arguments: `now` is what the clock
//! read, `caller` is the principal the authentication provider verified the
//! invocation as, and `transfer_ok` is the outcome of the token-ledger
//! transfer the operation asked for. The contracts state what holds for every
//! value of each.

use vstd::prelude::*;
use crate::accrual;
use crate::grant::{Error, Grant};

verus! {

/// The registry: grant identifiers are handed out from 1 upwards, the grant
/// with identifier `id` lives at position `id - 1`, and a grant, once
/// created, is never removed. The highest identifier handed out so far is
/// the length of the sequence.
pub struct GrantContract {
    pub grants: Vec<Grant>,
}

/// The gates a withdrawal passes in order once the grant was found, and the
/// error the first failing one ends in: the caller must be the grantee, the
/// grant must not be paused, the elapsed time and the accrual must fit the
/// machine, and a positive payout needs the ledger transfer to go through.
pub open spec fn withdraw_gate_error(g: Grant, caller: u64, now: u64, transfer_ok: bool, e: Error) -> bool {
    if caller != g.grantee {
        e == Error::Unauthorized
    } else if g.is_paused {
        e == Error::Paused
    } else if now < g.last_claim_time || accrual::accrual_overflows(
        g.flow_rate as int,
        now - g.last_claim_time,
    ) {
        e == Error::ArithmeticOverflow
    } else if accrual::claim_payout(g, now) > 0 && !transfer_ok {
        e == Error::TransferFailed
    } else {
        false
    }
}

impl GrantContract {
    /// Every stored grant keeps a non-negative balance.
    pub open spec fn wf(self) -> bool {
        forall|i: int| 0 <= i < self.grants@.len() ==> (#[trigger] self.grants@[i]).wf()
    }

    /// Whether a grant exists under `id`.
    pub open spec fn has_grant(self, id: u64) -> bool {
        1 <= id <= self.grants@.len()
    }

    /// The grant stored under `id`.
    pub open spec fn spec_grant(self, id: u64) -> Grant {
        self.grants@[id - 1]
    }

    /// An empty registry: no grants, the next identifier is 1.
    pub fn new() -> (c: GrantContract)
        ensures
            c.wf(),
            c.grants@.len() == 0,
    {
        GrantContract { grants: Vec::new() }
    }

    /// The highest grant identifier handed out so far.
    pub fn grant_count(&self) -> (n: u64)
        requires
            self.grants@.len() <= u64::MAX,
        ensures
            n == self.grants@.len(),
    {
        self.grants.len() as u64
    }

    /// Looks a grant up, as the durable store would: `NotFound` exactly when
    /// no grant exists under `grant_id`.
    pub fn get_grant(&self, grant_id: u64) -> (r: Result<Grant, Error>)
        ensures
            match r {
                Ok(g) => self.has_grant(grant_id) && g == self.spec_grant(grant_id),
                Err(e) => e == Error::NotFound && !self.has_grant(grant_id),
            },
    {
        if grant_id == 0 || grant_id > self.grants.len() as u64 {
            return Err(Error::NotFound);
        }
        let idx: usize = (grant_id - 1) as usize;
        Ok(self.grants[idx])
    }

    /// Creates a grant funded by `admin` for `grantee`: the deposit becomes
    /// the opening balance, the clock reading becomes the first claim time,
    /// and the grant starts unpaused under the next unused identifier.
    ///
    /// `caller` must be `admin`, and the deposit must have reached the
    /// grant-holding account: `transfer_ok` is the ledger's outcome, and a
    /// negative deposit is a transfer the ledger never performs. Any failure
    /// registers nothing.
    pub fn create_grant(
        &mut self,
        caller: u64,
        admin: u64,
        grantee: u64,
        deposit: i128,
        flow_rate: i128,
        token: u64,
        now: u64,
        transfer_ok: bool,
    ) -> (r: Result<u64, Error>)
        requires
            old(self).wf(),
            old(self).grants@.len() < u64::MAX,
        ensures
            final(self).wf(),
            match r {
                Ok(id) => {
                    &&& caller == admin
                    &&& transfer_ok
                    &&& deposit >= 0
                    &&& id == old(self).grants@.len() + 1
                    &&& final(self).grants@ == old(self).grants@.push(
                        Grant {
                            admin,
                            grantee,
                            flow_rate,
                            balance: deposit,
                            last_claim_time: now,
                            is_paused: false,
                            token,
                        },
                    )
                },
                Err(e) => {
                    &&& *final(self) == *old(self)
                    &&& (if caller != admin {
                        e == Error::Unauthorized
                    } else {
                        e == Error::TransferFailed && (!transfer_ok || deposit < 0)
                    })
                },
            },
    {
        if caller != admin {
            return Err(Error::Unauthorized);
        }
        if deposit < 0 || !transfer_ok {
            return Err(Error::TransferFailed);
        }
        let grant = Grant {
            admin,
            grantee,
            flow_rate,
            balance: deposit,
            last_claim_time: now,
            is_paused: false,
            token,
        };
        self.grants.push(grant);
        Ok(self.grants.len() as u64)
    }

    /// Withdraws whatever has accrued to the grant since its last settled
    /// claim, capped at the remaining balance, and returns the amount paid.
    ///
    /// `caller` must be the grant's grantee and the grant must not be paused.
    /// A claim that pays nothing — no time elapsed, balance exhausted, or a
    /// non-positive flow rate — is a silent no-op: it succeeds with 0,
    /// requests no transfer and changes nothing. When something is due,
    /// `transfer_ok` is the ledger's outcome for paying it out; only a
    /// successful transfer commits the new balance and claim time.
    pub fn withdraw(&mut self, caller: u64, grant_id: u64, now: u64, transfer_ok: bool) -> (r:
        Result<i128, Error>)
        requires
            old(self).wf(),
        ensures
            final(self).wf(),
            match r {
                Ok(p) => {
                    let g = old(self).spec_grant(grant_id);
                    &&& old(self).has_grant(grant_id)
                    &&& caller == g.grantee
                    &&& !g.is_paused
                    &&& now >= g.last_claim_time
                    &&& !accrual::accrual_overflows(g.flow_rate as int, now - g.last_claim_time)
                    &&& p == accrual::claim_payout(g, now)
                    &&& (p > 0 ==> transfer_ok && final(self).grants@ == old(self).grants@.update(
                        grant_id - 1,
                        accrual::after_claim(g, now),
                    ))
                    &&& (p == 0 ==> *final(self) == *old(self))
                    &&& final(self).spec_grant(grant_id).last_claim_time
                        >= g.last_claim_time
                },
                Err(e) => {
                    &&& *final(self) == *old(self)
                    &&& (if old(self).has_grant(grant_id) {
                        withdraw_gate_error(
                            old(self).spec_grant(grant_id),
                            caller,
                            now,
                            transfer_ok,
                            e,
                        )
                    } else {
                        e == Error::NotFound
                    })
                },
            },
    {
        if grant_id == 0 || grant_id > self.grants.len() as u64 {
            return Err(Error::NotFound);
        }
        let idx: usize = (grant_id - 1) as usize;
        let g: Grant = self.grants[idx];
        if caller != g.grantee {
            return Err(Error::Unauthorized);
        }
        if g.is_paused {
            return Err(Error::Paused);
        }
        let s = match accrual::settle(g.flow_rate, g.balance, g.last_claim_time, now) {
            Ok(s) => s,
            Err(e) => {
                return Err(e);
            },
        };
        if s.payout > 0 {
            if !transfer_ok {
                return Err(Error::TransferFailed);
            }
            let updated = Grant { balance: s.balance, last_claim_time: s.last_claim_time, ..g };
            self.grants[idx] = updated;
            Ok(s.payout)
        } else {
            Ok(0)
        }
    }

    /// Sets the grant's pause flag to `pause_state` — unconditionally, even
    /// when it already has that value. `caller` must be the grant's admin.
    /// This is the only operation that changes the flag.
    pub fn set_pause(&mut self, caller: u64, grant_id: u64, pause_state: bool) -> (r: Result<
        (),
        Error,
    >)
        requires
            old(self).wf(),
        ensures
            final(self).wf(),
            match r {
                Ok(_) => {
                    let g = old(self).spec_grant(grant_id);
                    &&& old(self).has_grant(grant_id)
                    &&& caller == g.admin
                    &&& final(self).grants@ == old(self).grants@.update(
                        grant_id - 1,
                        Grant { is_paused: pause_state, ..g },
                    )
                },
                Err(e) => {
                    &&& *final(self) == *old(self)
                    &&& (if old(self).has_grant(grant_id) {
                        e == Error::Unauthorized && caller != old(self).spec_grant(grant_id).admin
                    } else {
                        e == Error::NotFound
                    })
                },
            },
    {
        if grant_id == 0 || grant_id > self.grants.len() as u64 {
            return Err(Error::NotFound);
        }
        let idx: usize = (grant_id - 1) as usize;
        let g: Grant = self.grants[idx];
        if caller != g.admin {
            return Err(Error::Unauthorized);
        }
        let updated = Grant { is_paused: pause_state, ..g };
        self.grants[idx] = updated;
        Ok(())
    }
}

} // verus!
