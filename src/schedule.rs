//! Fixed-interval ticks with missed ticks skipped: after a cycle that ran
//! past one or more deadlines, the next cycle waits for the first deadline
//! of the fixed grid that is still ahead, so no backlog ever runs.
use vstd::prelude::*;

verus! {

/// Whether `next` is the deadline that follows a cycle due at `deadline`
/// which finished at `now`, no earlier: the first point of the grid
/// `deadline + k * period`, `k >= 1`, that lies after `now`.
pub open spec fn is_next_deadline(deadline: int, period: int, now: int, next: int) -> bool {
    &&& next > now
    &&& next >= deadline + period
    &&& (next - deadline) % period == 0
    &&& next - period <= now
}

/// The deadline after a cycle due at `deadline` that finished at `now`.
pub fn next_deadline(deadline: u64, period: u64, now: u64) -> (r: u64)
    requires
        period > 0,
        deadline <= now,
        now + period <= u64::MAX,
    ensures
        is_next_deadline(deadline as int, period as int, now as int, r as int),
{
    let elapsed = now - deadline;
    let missed = elapsed / period;
    proof {
        vstd::arithmetic::div_mod::lemma_fundamental_div_mod(elapsed as int, period as int);
        assert(missed * period <= elapsed) by (nonlinear_arith)
            requires
                missed == elapsed / period,
                period > 0,
                elapsed == period * (elapsed / period) + elapsed % period,
                0 <= elapsed % period < period,
        ;
        assert((missed + 1) * period == missed * period + period) by (nonlinear_arith);
        assert(((missed + 1) * period) % (period as int) == 0) by {
            vstd::arithmetic::div_mod::lemma_mod_multiples_basic((missed + 1) as int, period as int);
        }
    }
    deadline + (missed * period + period)
}

/// Ticks with skipping: over any run of cycles, where each cycle starts at
/// its deadline, finishes no earlier, and the next deadline follows as
/// above, the cycles never overlap and the `k`-th deadline is at least `k`
/// periods after the first. So no more than one cycle starts per elapsed
/// interval.
pub proof fn lemma_no_backlog(deadlines: Seq<int>, finished: Seq<int>, period: int)
    requires
        period > 0,
        deadlines.len() == finished.len() + 1,
        forall|i: int| 0 <= i < finished.len() ==> deadlines[i] <= #[trigger] finished[i],
        forall|i: int|
            0 <= i < finished.len() ==> is_next_deadline(
                deadlines[i],
                period,
                finished[i],
                #[trigger] deadlines[i + 1],
            ),
    ensures
        forall|i: int| 0 <= i < finished.len() ==> #[trigger] finished[i] < deadlines[i + 1],
        forall|k: int|
            0 <= k < deadlines.len() ==> #[trigger] deadlines[k] >= deadlines[0] + k * period,
    decreases finished.len(),
{
    if finished.len() > 0 {
        let n = finished.len() - 1;
        lemma_no_backlog(deadlines.drop_last(), finished.drop_last(), period);
        assert(deadlines.drop_last()[n] == deadlines[n]);
        assert forall|k: int| 0 <= k < deadlines.len() implies #[trigger] deadlines[k]
            >= deadlines[0] + k * period by {
            if k < deadlines.len() - 1 {
                assert(deadlines.drop_last()[k] == deadlines[k]);
            } else {
                assert(deadlines[n] >= deadlines[0] + n * period);
                assert(is_next_deadline(deadlines[n], period, finished[n], deadlines[n + 1]));
                assert(k * period == n * period + period) by (nonlinear_arith)
                    requires
                        k == n + 1,
                ;
            }
        }
        assert forall|i: int| 0 <= i < finished.len() implies #[trigger] finished[i]
            < deadlines[i + 1] by {
            assert(is_next_deadline(deadlines[i], period, finished[i], deadlines[i + 1]));
        }
    } else {
        assert forall|k: int| 0 <= k < deadlines.len() implies #[trigger] deadlines[k]
            >= deadlines[0] + k * period by {
            assert(k == 0);
            assert(k * period == 0) by (nonlinear_arith)
                requires
                    k == 0,
            ;
        }
    }
}

} // verus!
