use vstd::prelude::*;

verus! {

use crate::input::ActionInput;
use crate::timer::RepeatTimer;

/// How many steps the idle cycle walks through before repeating.
pub const IDLE_STEPS: u32 = 8;

/// How many frames the charge animation has.
pub const CHARGE_STEPS: u32 = 7;

/// How many frames the movement animation has.
pub const MOVE_STEPS: u32 = 7;

/// Index of the first charge frame in the sprite sheet.
pub const CHARGE_BASE: u32 = 4;

/// Index of the first movement frame in the sprite sheet.
pub const MOVE_BASE: u32 = 12;

/// After this many animation steps every counter is back at its start:
/// the least common multiple of the three cycle lengths.
pub const CYCLE_PERIOD: u32 = 56;

/// The three counters that drive the animation. Each advances by one
/// whenever the animation timer completes a period, wrapping at its own
/// cycle length.
#[derive(Clone, Copy, PartialEq, Eq, Structural, Debug)]
pub struct StepCounters {
    /// Position in the idle cycle.
    pub idle: u32,
    /// Position in the charge cycle.
    pub charge: u32,
    /// Position in the movement cycle.
    pub movement: u32,
}

impl StepCounters {
    /// Each counter stays below its cycle length.
    pub open spec fn wf(self) -> bool {
        self.idle < IDLE_STEPS && self.charge < CHARGE_STEPS && self.movement < MOVE_STEPS
    }

    /// The counters after one animation step: each advances by one,
    /// wrapping at its own cycle length.
    pub open spec fn spec_advanced(self) -> StepCounters {
        StepCounters {
            idle: ((self.idle + 1) % (IDLE_STEPS as int)) as u32,
            charge: ((self.charge + 1) % (CHARGE_STEPS as int)) as u32,
            movement: ((self.movement + 1) % (MOVE_STEPS as int)) as u32,
        }
    }

    /// All three counters at the start of their cycles.
    pub fn new() -> (c: StepCounters)
        ensures
            c.idle == 0,
            c.charge == 0,
            c.movement == 0,
            c.wf(),
    {
        StepCounters { idle: 0, charge: 0, movement: 0 }
    }

    /// Step every counter forward by one, wrapping each at its own cycle
    /// length.
    pub fn advance(&mut self)
        requires
            old(self).wf(),
        ensures
            *final(self) == old(self).spec_advanced(),
            final(self).wf(),
    {
        self.idle = (self.idle + 1) % IDLE_STEPS;
        self.charge = (self.charge + 1) % CHARGE_STEPS;
        self.movement = (self.movement + 1) % MOVE_STEPS;
    }
}

/// The counters reached from `c` after `n` animation steps.
pub open spec fn spec_advanced_n(c: StepCounters, n: nat) -> StepCounters
    decreases n,
{
    if n == 0 {
        c
    } else {
        spec_advanced_n(c, (n - 1) as nat).spec_advanced()
    }
}

/// After `n` animation steps each counter sits `n` places further along
/// its own cycle.
pub proof fn lemma_counters_after_n(c: StepCounters, n: nat)
    requires
        c.wf(),
    ensures
        spec_advanced_n(c, n).idle == (c.idle + n) % (IDLE_STEPS as int),
        spec_advanced_n(c, n).charge == (c.charge + n) % (CHARGE_STEPS as int),
        spec_advanced_n(c, n).movement == (c.movement + n) % (MOVE_STEPS as int),
    decreases n,
{
    if n == 0 {
        vstd::arithmetic::div_mod::lemma_small_mod(c.idle as nat, IDLE_STEPS as nat);
        vstd::arithmetic::div_mod::lemma_small_mod(c.charge as nat, CHARGE_STEPS as nat);
        vstd::arithmetic::div_mod::lemma_small_mod(c.movement as nat, MOVE_STEPS as nat);
    } else {
        lemma_counters_after_n(c, (n - 1) as nat);
        vstd::arithmetic::div_mod::lemma_mod_bound(c.idle + n - 1, IDLE_STEPS as int);
        vstd::arithmetic::div_mod::lemma_mod_bound(c.charge + n - 1, CHARGE_STEPS as int);
        vstd::arithmetic::div_mod::lemma_mod_bound(c.movement + n - 1, MOVE_STEPS as int);
        vstd::arithmetic::div_mod::lemma_add_mod_noop_right(1, c.idle + n - 1, IDLE_STEPS as int);
        vstd::arithmetic::div_mod::lemma_add_mod_noop_right(
            1,
            c.charge + n - 1,
            CHARGE_STEPS as int,
        );
        vstd::arithmetic::div_mod::lemma_add_mod_noop_right(
            1,
            c.movement + n - 1,
            MOVE_STEPS as int,
        );
    }
}

/// The animation is periodic: after `CYCLE_PERIOD` steps the counters are
/// exactly where they started.
pub proof fn lemma_counters_period(c: StepCounters)
    requires
        c.wf(),
    ensures
        spec_advanced_n(c, CYCLE_PERIOD as nat) == c,
{
    lemma_counters_after_n(c, CYCLE_PERIOD as nat);
    vstd::arithmetic::div_mod::lemma_mod_multiples_vanish(7, c.idle as int, IDLE_STEPS as int);
    vstd::arithmetic::div_mod::lemma_mod_multiples_vanish(8, c.charge as int, CHARGE_STEPS as int);
    vstd::arithmetic::div_mod::lemma_mod_multiples_vanish(
        8,
        c.movement as int,
        MOVE_STEPS as int,
    );
    vstd::arithmetic::div_mod::lemma_small_mod(c.idle as nat, IDLE_STEPS as nat);
    vstd::arithmetic::div_mod::lemma_small_mod(c.charge as nat, CHARGE_STEPS as nat);
    vstd::arithmetic::div_mod::lemma_small_mod(c.movement as nat, MOVE_STEPS as nat);
}

/// The frame the idle animation shows at the given step: the first half
/// of the cycle walks forward through frames 0 to 3, the second half
/// walks back down from 3 to 0.
pub open spec fn spec_idle_frame(idle: u32) -> int {
    if idle >= 4 {
        3 - (idle - 4)
    } else {
        idle as int
    }
}

/// The frame and horizontal flip the sprite shows for the given counters
/// and input. Charging takes precedence, then moving right, then moving
/// left (drawn mirrored); with nothing pressed the idle cycle plays.
pub open spec fn spec_frame(c: StepCounters, input: ActionInput) -> (int, bool) {
    if input.charge {
        (CHARGE_BASE + c.charge, false)
    } else if input.right {
        (MOVE_BASE + c.movement, false)
    } else if input.left {
        (MOVE_BASE + c.movement, true)
    } else {
        (spec_idle_frame(c.idle), false)
    }
}

/// Whatever is pressed, the selected frame lies within the first
/// `MOVE_BASE + MOVE_STEPS` frames of the sheet, so a sheet with at least
/// that many frames always has it.
pub proof fn lemma_frame_in_sheet(c: StepCounters, input: ActionInput)
    requires
        c.wf(),
    ensures
        0 <= spec_frame(c, input).0,
        spec_frame(c, input).0 < MOVE_BASE + MOVE_STEPS,
{
}

/// Pick the sprite-sheet frame and horizontal flip for the current
/// counters and input.
pub fn select_frame(c: &StepCounters, input: &ActionInput) -> (r: (u32, bool))
    requires
        c.wf(),
    ensures
        (r.0 as int, r.1) == spec_frame(*c, *input),
{
    if input.charge {
        (CHARGE_BASE + c.charge, false)
    } else if input.right {
        (MOVE_BASE + c.movement, false)
    } else if input.left {
        (MOVE_BASE + c.movement, true)
    } else {
        if c.idle >= 4 {
            let back: u32 = c.idle - 4;
            (3 - back, false)
        } else {
            (c.idle, false)
        }
    }
}

/// One animation tick for one sprite: advance the timer by `delta`, and
/// when at least one period completed, step the counters once and pick
/// the frame to show. Returns the new frame and flip, or nothing when
/// the timer has not finished and the sprite stays as it is.
pub fn animation_tick(
    timer: &mut RepeatTimer,
    counters: &mut StepCounters,
    input: &ActionInput,
    delta: u64,
) -> (r: Option<(u32, bool)>)
    requires
        old(timer).wf(),
        old(counters).wf(),
        old(timer).elapsed + delta <= u64::MAX,
    ensures
        final(timer).wf(),
        final(timer).period == old(timer).period,
        final(timer).elapsed == (old(timer).elapsed + delta) % (old(timer).period as int),
        final(counters).wf(),
        r is Some <==> old(timer).elapsed + delta >= old(timer).period,
        r is None ==> *final(counters) == *old(counters),
        r is Some ==> *final(counters) == old(counters).spec_advanced(),
        r is Some ==> {
            let (frame, flip) = r->Some_0;
            (frame as int, flip) == spec_frame(*final(counters), *input)
        },
{
    let finished: u64 = timer.tick(delta);
    if finished >= 1 {
        counters.advance();
        Some(select_frame(counters, input))
    } else {
        None
    }
}

} // verus!
