//! Laws the accounting model obeys, proved over the spec functions the
//! operations' contracts are stated in.

use vstd::prelude::*;
use crate::accrual::{accrued, after_claim, capped_payout, claim_payout};
use crate::grant::Grant;

verus! {

/// A settled claim keeps the grant valid: the balance stays non-negative,
/// and the claim clock never moves backwards.
pub proof fn lemma_claim_keeps_grant_valid(g: Grant, now: u64)
    requires
        g.wf(),
        now >= g.last_claim_time,
    ensures
        after_claim(g, now).wf(),
        after_claim(g, now).last_claim_time >= g.last_claim_time,
{
}

/// Claiming is idempotent in time: immediately after a claim at `now`, a
/// second claim at the same `now` pays nothing and changes nothing.
pub proof fn lemma_claim_idempotent(g: Grant, now: u64)
    requires
        g.wf(),
        now >= g.last_claim_time,
    ensures
        claim_payout(after_claim(g, now), now) == 0,
        after_claim(after_claim(g, now), now) == after_claim(g, now),
{
    let g1 = after_claim(g, now);
    if claim_payout(g, now) > 0 {
        assert(g1.last_claim_time == now);
        assert(accrued(g1.flow_rate as int, 0) == 0) by {
            assert(g1.flow_rate as int * 0 == 0) by (nonlinear_arith);
        };
    }
}

/// Accrual correctness: a claim after `s` seconds against flow rate `r` and
/// balance `b` pays `r * s` capped at `b` (nothing when that is negative),
/// removes exactly the payout from the balance, and advances the claim clock
/// to the claim time whenever something was paid.
pub proof fn lemma_accrual_exact(g: Grant, s: u64)
    requires
        g.wf(),
        g.last_claim_time + s <= u64::MAX,
    ensures
        ({
            let now = (g.last_claim_time + s) as u64;
            let due = g.flow_rate as int * s as int;
            let capped = if due <= g.balance as int {
                due
            } else {
                g.balance as int
            };
            &&& claim_payout(g, now) == (if capped > 0 {
                capped
            } else {
                0
            })
            &&& after_claim(g, now).balance == g.balance - claim_payout(g, now)
            &&& (capped > 0 ==> after_claim(g, now).last_claim_time == now)
        }),
{
}

/// Pausing is orthogonal to accrual: changing the pause flag touches neither
/// the balance nor the claim clock, so once withdrawal resumes, a claim pays
/// the full amount accrued since the last settled claim — time spent paused
/// included.
pub proof fn lemma_unpaused_claim_pays_full_accrual(g: Grant, pause_state: bool, now: u64)
    requires
        g.wf(),
        now >= g.last_claim_time,
    ensures
        ({
            let toggled = Grant { is_paused: pause_state, ..g };
            &&& toggled.balance == g.balance
            &&& toggled.last_claim_time == g.last_claim_time
            &&& claim_payout(toggled, now) == claim_payout(g, now)
            &&& claim_payout(toggled, now) == (if capped_payout(
                g.flow_rate as int,
                g.balance as int,
                now - g.last_claim_time,
            ) > 0 {
                capped_payout(g.flow_rate as int, g.balance as int, now - g.last_claim_time)
            } else {
                0
            })
        }),
{
}

} // verus!
