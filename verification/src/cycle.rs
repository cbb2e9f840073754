use vstd::prelude::*;

verus! {

use crate::timer::RepeatTimer;

/// The frame after `index` in a plain looping animation over
/// `frame_count` frames.
pub open spec fn spec_next_frame(index: u32, frame_count: u32) -> int {
    (index + 1) % (frame_count as int)
}

/// The frame reached from `index` after `n` steps of the loop.
pub open spec fn spec_frame_after(index: u32, frame_count: u32, n: nat) -> int
    decreases n,
{
    if n == 0 {
        index as int
    } else {
        spec_next_frame(spec_frame_after(index, frame_count, (n - 1) as nat) as u32, frame_count)
    }
}

/// Step a plain looping animation forward by one frame, wrapping back to
/// the first frame after the last.
pub fn next_frame(index: u32, frame_count: u32) -> (r: u32)
    requires
        1 <= frame_count,
        index < frame_count,
    ensures
        r == spec_next_frame(index, frame_count),
        r < frame_count,
{
    (index + 1) % frame_count
}

/// One animation tick for a plain looping sprite: advance the timer by
/// `delta`, and when at least one period completed, move to the next
/// frame; otherwise keep the current one.
pub fn cycle_tick(timer: &mut RepeatTimer, index: u32, frame_count: u32, delta: u64) -> (r: u32)
    requires
        old(timer).wf(),
        old(timer).elapsed + delta <= u64::MAX,
        1 <= frame_count,
        index < frame_count,
    ensures
        final(timer).wf(),
        final(timer).period == old(timer).period,
        final(timer).elapsed == (old(timer).elapsed + delta) % (old(timer).period as int),
        old(timer).elapsed + delta >= old(timer).period ==> r == spec_next_frame(
            index,
            frame_count,
        ),
        old(timer).elapsed + delta < old(timer).period ==> r == index,
        r < frame_count,
{
    let finished: u64 = timer.tick(delta);
    if finished >= 1 {
        next_frame(index, frame_count)
    } else {
        index
    }
}

/// After `n` steps the loop shows frame `(index + n) mod frame_count`.
pub proof fn lemma_frame_after_is_mod(index: u32, frame_count: u32, n: nat)
    requires
        1 <= frame_count,
        index < frame_count,
    ensures
        spec_frame_after(index, frame_count, n) == (index + n) % (frame_count as int),
    decreases n,
{
    let fc = frame_count as int;
    if n == 0 {
        vstd::arithmetic::div_mod::lemma_small_mod(index as nat, frame_count as nat);
    } else {
        lemma_frame_after_is_mod(index, frame_count, (n - 1) as nat);
        let prev = (index + n - 1) % fc;
        vstd::arithmetic::div_mod::lemma_mod_bound(index + n - 1, fc);
        assert(spec_frame_after(index, frame_count, n) == (prev + 1) % fc);
        vstd::arithmetic::div_mod::lemma_add_mod_noop_right(1, index + n - 1, fc);
        assert((1 + prev) % fc == (index + n) % fc);
    }
}

/// The loop is periodic: after as many steps as there are frames, it
/// shows the frame it started from.
pub proof fn lemma_cycle_returns(index: u32, frame_count: u32)
    requires
        1 <= frame_count,
        index < frame_count,
    ensures
        spec_frame_after(index, frame_count, frame_count as nat) == index,
{
    lemma_frame_after_is_mod(index, frame_count, frame_count as nat);
    vstd::arithmetic::div_mod::lemma_add_mod_noop(index as int, frame_count as int, frame_count as int);
    vstd::arithmetic::div_mod::lemma_mod_self_0(frame_count as int);
    vstd::arithmetic::div_mod::lemma_small_mod(index as nat, frame_count as nat);
}

} // verus!
