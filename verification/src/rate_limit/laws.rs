//! What holds of every run of the limiter: no window gives out more permits
//! than the capacity, windows move by whole periods, a window that is used
//! up admits nobody before its end, and a caller that waits as told is
//! admitted, as long as the limiter's clock has not run out.

use vstd::prelude::*;
use vstd::arithmetic::div_mod::lemma_mod_add_multiples_vanish;
use crate::rate_limit::RateLimitView;

verus! {

/// The state after calls at `times`, taken in order from state `s`.
pub open spec fn state_after(s: RateLimitView, times: Seq<nat>) -> RateLimitView
    decreases times.len(),
{
    if times.len() == 0 {
        s
    } else {
        state_after(s, times.drop_last()).after(times.last())
    }
}

/// Whether call `i` of the run gets a permit.
pub open spec fn admitted(s: RateLimitView, times: Seq<nat>, i: int) -> bool
    recommends
        0 <= i < times.len(),
{
    state_after(s, times.take(i)).admits(times[i])
}

/// Whether call `i` of the run opens a new window.
pub open spec fn opens_window(s: RateLimitView, times: Seq<nat>, i: int) -> bool
    recommends
        0 <= i < times.len(),
{
    state_after(s, times.take(i)).advances(times[i])
}

/// The number of permits that the calls `from`, `from + 1`, .., `to - 1` of
/// the run get.
pub open spec fn permits(s: RateLimitView, times: Seq<nat>, from: int, to: int) -> nat
    decreases to - from,
{
    if to <= from {
        0
    } else {
        permits(s, times, from, to - 1) + if admitted(s, times, to - 1) {
            1nat
        } else {
            0nat
        }
    }
}

/// The number of windows that the calls of the run open.
pub open spec fn windows_opened(s: RateLimitView, times: Seq<nat>) -> nat
    decreases times.len(),
{
    if times.len() == 0 {
        0
    } else {
        windows_opened(s, times.drop_last()) + if opens_window(s, times, times.len() - 1) {
            1nat
        } else {
            0nat
        }
    }
}

/// Every call keeps the state well formed, and the capacity, the period and
/// the start as they are.
pub proof fn lemma_call_keeps_wf(s: RateLimitView, now: nat)
    requires
        s.wf(),
    ensures
        s.after(now).wf(),
        s.after(now).capacity == s.capacity,
        s.after(now).period == s.period,
        s.after(now).start == s.start,
{
    if s.advances(now) && s.period > 0 {
        lemma_mod_add_multiples_vanish(s.reset as int, s.period as int);
    }
}

/// Every run keeps the state well formed, and the capacity, the period and
/// the start as they are.
pub proof fn lemma_run_keeps_wf(s: RateLimitView, times: Seq<nat>)
    requires
        s.wf(),
    ensures
        state_after(s, times).wf(),
        state_after(s, times).capacity == s.capacity,
        state_after(s, times).period == s.period,
        state_after(s, times).start == s.start,
    decreases times.len(),
{
    if times.len() > 0 {
        lemma_run_keeps_wf(s, times.drop_last());
        lemma_call_keeps_wf(state_after(s, times.drop_last()), times.last());
    }
}

/// Within one window the permits taken are counted exactly: after the calls
/// `from` .. `to - 1`, of which none but the first opens a window, `used`
/// is what it was when the window began (0 where call `from` opened it) plus
/// the permits of those calls.
pub proof fn lemma_used_counts_permits(s: RateLimitView, times: Seq<nat>, from: int, to: int)
    requires
        s.wf(),
        0 <= from < to <= times.len(),
        forall|i: int| from < i < to ==> !opens_window(s, times, i),
    ensures
        state_after(s, times.take(to)).used == permits(s, times, from, to) + if opens_window(
            s,
            times,
            from,
        ) {
            0nat
        } else {
            state_after(s, times.take(from)).used
        },
    decreases to - from,
{
    let before = state_after(s, times.take(to - 1));
    assert(times.take(to).drop_last() =~= times.take(to - 1));
    assert(times.take(to).last() == times[to - 1]);
    assert(state_after(s, times.take(to)) == before.after(times[to - 1]));
    if to - 1 == from {
        assert(permits(s, times, from, from) == 0);
    } else {
        lemma_used_counts_permits(s, times, from, to - 1);
        assert(!opens_window(s, times, to - 1));
    }
}

/// The bound: among calls that fall in one window (none of them but the
/// first opens a new one), at most `capacity` get a permit, whatever the
/// times of the calls. Where the window began before these calls, the
/// permits taken in it earlier count too.
pub proof fn lemma_window_bound(s: RateLimitView, times: Seq<nat>, from: int, to: int)
    requires
        s.wf(),
        s.capacity >= 1,
        0 <= from <= to <= times.len(),
        forall|i: int| from < i < to ==> !opens_window(s, times, i),
    ensures
        permits(s, times, from, to) <= s.capacity,
        from < to && !opens_window(s, times, from) ==> state_after(s, times.take(from)).used
            + permits(s, times, from, to) <= s.capacity,
{
    if from < to {
        lemma_used_counts_permits(s, times, from, to);
        lemma_run_keeps_wf(s, times.take(to));
    }
}

/// Windows move in fixed steps: after any run the present window ends a
/// whole number of periods after the end of the window in which the run
/// began, one period for each window opened.
pub proof fn lemma_windows_move_by_whole_periods(s: RateLimitView, times: Seq<nat>)
    ensures
        state_after(s, times).reset == s.reset + windows_opened(s, times) * s.period,
        state_after(s, times).period == s.period,
    decreases times.len(),
{
    if times.len() > 0 {
        let init = times.drop_last();
        lemma_windows_move_by_whole_periods(s, init);
        assert(times.take(times.len() - 1) =~= init);
        let k = windows_opened(s, init);
        assert((k + 1) * s.period == k * s.period + s.period) by (nonlinear_arith);
    } else {
        assert(0 * s.period == 0) by (nonlinear_arith);
    }
}

/// Throttling: once the permits of the present window are taken, every call
/// up to the window's end is refused and changes nothing.
pub proof fn lemma_exhausted_window_refuses(s: RateLimitView, now: nat)
    requires
        s.used >= s.capacity,
        s.elapsed(now) <= s.reset,
    ensures
        !s.admits(now),
        s.after(now) == s,
{
}

/// A call past the end of the present window is always admitted.
pub proof fn lemma_admitted_past_reset(s: RateLimitView, now: nat)
    requires
        s.elapsed(now) > s.reset,
    ensures
        s.admits(now),
{
}

/// A refused caller is told to wait exactly until the end of the present
/// window (as long as that end lies within the clock's range).
pub proof fn lemma_wait_ends_at_reset(s: RateLimitView, now: nat)
    requires
        s.wf(),
        !s.admits(now),
        s.reset <= u64::MAX,
    ensures
        s.elapsed(now) + s.wait(now) == s.reset,
{
}

/// A free permit is given at once, whatever the time.
pub proof fn lemma_free_permit_is_given(s: RateLimitView, now: nat)
    requires
        s.used < s.capacity,
    ensures
        s.admits(now),
        s.after(now).used == s.used + 1,
        s.after(now).reset == s.reset,
{
}

/// Admission after waiting: a caller refused at `now` that sleeps as long as
/// it was told and asks again at any later instant gets a permit, if nobody
/// else has called meanwhile. The clock must not run behind the limiter's
/// start, and must not have run out: either the later instant lies within
/// the range of the limiter's clock, or the window ends within it.
pub proof fn lemma_admitted_after_wait(s: RateLimitView, now: nat, later: nat)
    requires
        s.wf(),
        !s.admits(now),
        s.start <= now,
        later > now + s.wait(now),
        later - s.start <= u64::MAX || s.reset < u64::MAX,
    ensures
        s.after(now) == s,
        s.admits(later),
{
}

/// While the window ends within the range of the limiter's clock, there is
/// always an instant at which a refused caller is admitted: the first one
/// after the wait that it was told.
pub proof fn lemma_admission_comes(s: RateLimitView, now: nat)
    requires
        s.wf(),
        !s.admits(now),
        s.start <= now,
        s.reset < u64::MAX,
    ensures
        s.admits(now + s.wait(now) + 1),
        s.elapsed(now + s.wait(now) + 1) == s.reset + 1,
{
}

/// The window ends within the range of the limiter's clock for as long as
/// every call comes more than one period before the clock's end, some 584
/// years after the start.
pub proof fn lemma_window_ends_within_clock(s: RateLimitView, times: Seq<nat>)
    requires
        s.reset < u64::MAX,
        forall|i: int|
            0 <= i < times.len() ==> s.elapsed(#[trigger] times[i]) + s.period < u64::MAX,
    ensures
        state_after(s, times).reset < u64::MAX,
        state_after(s, times).period == s.period,
        state_after(s, times).start == s.start,
    decreases times.len(),
{
    if times.len() > 0 {
        let init = times.drop_last();
        assert forall|i: int| 0 <= i < init.len() implies s.elapsed(#[trigger] init[i]) + s.period
            < u64::MAX by {
            assert(init[i] == times[i]);
        }
        lemma_window_ends_within_clock(s, init);
        let before = state_after(s, init);
        assert(s.elapsed(times[times.len() - 1]) + s.period < u64::MAX);
        assert(before.elapsed(times.last()) == s.elapsed(times.last()));
    }
}

} // verus!
