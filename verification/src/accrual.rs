//! The accrual engine: how much a grant owes after a span of time, and what
//! the grant record looks like once a claim has been settled.
//!
//! Accrual is lazy: nothing runs in the background, the payout is computed on
//! demand from the elapsed time since the last settled claim. The payout is
//! capped at the remaining balance, so a withdrawal never fails for lack of
//! funds — it pays out less, down to nothing, instead.

use vstd::prelude::*;
use crate::grant::{Error, Grant};

verus! {

/// The amount accrued over `elapsed` seconds at `flow_rate` per second.
pub open spec fn accrued(flow_rate: int, elapsed: int) -> int {
    flow_rate * elapsed
}

/// True when the accrual multiplication leaves the machine range.
pub open spec fn accrual_overflows(flow_rate: int, elapsed: int) -> bool {
    accrued(flow_rate, elapsed) > i128::MAX || accrued(flow_rate, elapsed) < i128::MIN
}

/// The raw amount a claim would settle: the accrued amount, capped at the
/// remaining balance. May be negative when the flow rate is negative; such a
/// claim pays nothing.
pub open spec fn capped_payout(flow_rate: int, balance: int, elapsed: int) -> int {
    if accrued(flow_rate, elapsed) <= balance {
        accrued(flow_rate, elapsed)
    } else {
        balance
    }
}

/// What a grant pays out when claimed at `now`: the capped accrual since the
/// last settled claim, or zero when nothing positive has accrued.
pub open spec fn claim_payout(g: Grant, now: u64) -> int {
    let raw = capped_payout(g.flow_rate as int, g.balance as int, now - g.last_claim_time);
    if raw > 0 {
        raw
    } else {
        0
    }
}

/// The grant record after a claim at `now`: the payout leaves the balance and
/// the claim clock advances. A claim that pays nothing changes nothing — not
/// even the clock.
pub open spec fn after_claim(g: Grant, now: u64) -> Grant {
    if claim_payout(g, now) > 0 {
        Grant {
            balance: (g.balance - claim_payout(g, now)) as i128,
            last_claim_time: now,
            ..g
        }
    } else {
        g
    }
}

/// The outcome of settling a claim: what to pay the grantee now, and the
/// grant's accounting fields afterwards.
#[derive(Clone, Copy, Debug, PartialEq, Eq, Structural)]
pub struct Settlement {
    /// The amount to transfer to the grantee; zero means no transfer.
    pub payout: i128,
    /// The balance remaining after the payout.
    pub balance: i128,
    /// The claim clock after the settlement: advanced to the claim time when
    /// something was paid, untouched otherwise.
    pub last_claim_time: u64,
}

/// Settles a claim against a grant's accounting fields: the payout is the
/// amount accrued since `last_claim_time`, capped at `balance`, and never
/// negative. Fails only when the clock ran backwards or the accrual
/// multiplication overflows; a settlement that pays nothing is not an error.
pub fn settle(flow_rate: i128, balance: i128, last_claim_time: u64, now: u64) -> (r: Result<
    Settlement,
    Error,
>)
    ensures
        match r {
            Ok(s) => {
                &&& now >= last_claim_time
                &&& !accrual_overflows(flow_rate as int, now - last_claim_time)
                &&& s.payout == ({
                    let raw = capped_payout(
                        flow_rate as int,
                        balance as int,
                        now - last_claim_time,
                    );
                    if raw > 0 {
                        raw
                    } else {
                        0
                    }
                })
                &&& s.balance == balance - s.payout
                &&& s.last_claim_time == (if s.payout > 0 {
                    now
                } else {
                    last_claim_time
                })
            },
            Err(e) => e == Error::ArithmeticOverflow && (now < last_claim_time
                || accrual_overflows(flow_rate as int, now - last_claim_time)),
        },
{
    if now < last_claim_time {
        return Err(Error::ArithmeticOverflow);
    }
    let elapsed: u64 = now - last_claim_time;
    let amount_due: i128 = match flow_rate.checked_mul(elapsed as i128) {
        Some(v) => v,
        None => {
            return Err(Error::ArithmeticOverflow);
        },
    };
    let payout: i128 = if balance >= amount_due {
        amount_due
    } else {
        balance
    };
    if payout > 0 {
        Ok(Settlement { payout, balance: balance - payout, last_claim_time: now })
    } else {
        Ok(Settlement { payout: 0, balance, last_claim_time })
    }
}

} // verus!
