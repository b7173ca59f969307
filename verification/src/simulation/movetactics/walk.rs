use crate::simulation::cycle::{lead_ticks, lemma_full_cycle, next_position, position_after, TwoPhase};
use crate::simulation::traits::{count_motion, move_after, Motion, MoveTactic};
use vstd::prelude::*;

verus! {

/// Timing of a target that moves forward along its heading for
/// `switch_time` ticks and then spends `switch_time` ticks on the spot, over
/// and over. On the spot it turns where `TURNS` holds, and stands still
/// where it does not.
pub struct Walk<const TURNS: bool> {
    switch_time: u32,
    clock: TwoPhase,
}

/// Timing of a rounded-square patrol: `switch_time` ticks forward, then
/// `switch_time` ticks of turning. Each turning tick rotates the heading
/// clockwise by a quarter turn divided by `switch_time`, so that one cycle
/// turns the target by a quarter turn.
pub type MoveSquares = Walk<true>;

/// Timing of a walk with pauses: `switch_time` ticks forward, then
/// `switch_time` ticks of standing still. The heading never changes.
pub type MoveStop = Walk<false>;

impl<const TURNS: bool> Walk<TURNS> {
    /// Length of each of the two phases, in ticks.
    pub closed spec fn switch_ticks(&self) -> nat {
        self.switch_time as nat
    }

    /// Ticks passed since the current cycle began.
    pub closed spec fn position(&self) -> nat {
        self.clock.position as nat
    }

    /// Length of one full cycle, in ticks.
    pub open spec fn period(&self) -> nat {
        2 * self.switch_ticks()
    }

    /// Both phases are timed with the one phase length.
    pub closed spec fn consistent(&self) -> bool {
        self.clock.lead == self.switch_time && self.clock.trail == self.switch_time
    }

    /// What a tick of the second phase does.
    pub open spec fn on_the_spot() -> Motion {
        if TURNS {
            Motion::Turn
        } else {
            Motion::Hold
        }
    }

    /// A walk at the start of its forward phase.
    pub fn new(switch_time: u32) -> (r: Self)
        requires
            2 * switch_time <= u32::MAX,
        ensures
            r.wf(),
            r.switch_ticks() == switch_time,
            r.position() == 0,
    {
        Walk { switch_time, clock: TwoPhase::new(switch_time as usize, switch_time as usize) }
    }

    /// Length of each of the two phases, in ticks.
    pub fn switch_time(&self) -> (r: u32)
        ensures
            r == self.switch_ticks(),
    {
        self.switch_time
    }

    /// Ticking moves the walk through its cycle and leaves the phase length
    /// alone.
    pub proof fn lemma_after(self, n: nat)
        requires
            self.wf(),
        ensures
            move_after(self, n).wf(),
            move_after(self, n).switch_ticks() == self.switch_ticks(),
            move_after(self, n).position() == position_after(self.position(), self.period(), n),
        decreases n,
    {
        if n > 0 {
            self.lemma_after((n - 1) as nat);
        }
    }

    /// Among any `n` ticks, the forward ticks are those on the leading half
    /// of the cycle and all others are spent on the spot. A walk that
    /// stands still there never turns: its heading is the same after any
    /// number of ticks.
    pub proof fn lemma_count(self, n: nat)
        requires
            self.wf(),
        ensures
            count_motion(self, n, Motion::Forward) == lead_ticks(
                self.position(),
                self.period(),
                self.switch_ticks(),
                n,
            ),
            count_motion(self, n, Motion::Forward) + count_motion(self, n, Self::on_the_spot())
                == n,
            count_motion(self, n, Motion::Drift) == 0,
            TURNS ==> count_motion(self, n, Motion::Hold) == 0,
            !TURNS ==> count_motion(self, n, Motion::Turn) == 0,
        decreases n,
    {
        if n > 0 {
            self.lemma_count((n - 1) as nat);
            self.lemma_after((n - 1) as nat);
        }
    }

    /// Phase symmetry: after exactly `2 * switch_time` ticks the walk is
    /// back in the state it started from, and it has spent as many ticks
    /// moving forward as on the spot, namely `switch_time` of each, wherever
    /// in its cycle it started.
    pub proof fn lemma_phase_symmetry(self)
        requires
            self.wf(),
        ensures
            move_after(self, self.period()) == self,
            count_motion(self, self.period(), Motion::Forward) == self.switch_ticks(),
            count_motion(self, self.period(), Self::on_the_spot()) == self.switch_ticks(),
    {
        self.lemma_after(self.period());
        self.lemma_count(self.period());
        if self.period() > 0 {
            lemma_full_cycle(self.position(), self.period(), self.switch_ticks());
        }
    }
}

impl<const TURNS: bool> MoveTactic for Walk<TURNS> {
    open spec fn wf(&self) -> bool {
        &&& self.consistent()
        &&& self.period() <= u32::MAX
        &&& self.position() < self.period() || self.position() == 0
    }

    open spec fn motion(&self) -> Motion {
        if self.position() < self.switch_ticks() {
            Motion::Forward
        } else {
            Self::on_the_spot()
        }
    }

    closed spec fn after(&self) -> Self {
        Walk { switch_time: self.switch_time, clock: self.clock.next() }
    }

    fn execute_move(&mut self) -> (m: Motion)
        ensures
            final(self).switch_ticks() == old(self).switch_ticks(),
            final(self).position() == next_position(old(self).position(), old(self).period()),
    {
        let (leads, _) = self.clock.tick();
        if leads {
            Motion::Forward
        } else if TURNS {
            Motion::Turn
        } else {
            Motion::Hold
        }
    }
}

} // verus!
