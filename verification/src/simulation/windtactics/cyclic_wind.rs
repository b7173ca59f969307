use crate::simulation::cycle::{
    lead_ticks, lemma_full_cycle, lemma_position_after, next_position, position_after, TwoPhase,
};
use crate::simulation::traits::{
    count_blowing, count_redraws, lemma_wind_split, wind_after, Gust, WindTactic,
};
use vstd::prelude::*;

verus! {

/// Timing of a wind that comes and goes: it pushes for the first `active`
/// ticks of each cycle and rests for the `inactive` ticks that follow. Where
/// `REDRAWS` holds, the tick that ends a cycle asks for a fresh direction,
/// so that every cycle blows from one direction of its own; where it does
/// not, the wind keeps its vector for good.
pub struct CyclicWind<const REDRAWS: bool> {
    clock: TwoPhase,
}

/// Timing of a wind that comes and goes with one fixed vector.
pub type PeriodicWind = CyclicWind<false>;

/// Timing of a wind that comes and goes from a direction that is drawn
/// afresh for every cycle. The direction of the first cycle is the
/// caller's to draw.
pub type RandomWind = CyclicWind<true>;

impl<const REDRAWS: bool> CyclicWind<REDRAWS> {
    /// Ticks per cycle on which the wind blows.
    pub closed spec fn active_ticks(&self) -> nat {
        self.clock.lead as nat
    }

    /// Ticks per cycle on which the air is calm.
    pub closed spec fn inactive_ticks(&self) -> nat {
        self.clock.trail as nat
    }

    /// Ticks passed since the current cycle began.
    pub closed spec fn position(&self) -> nat {
        self.clock.position as nat
    }

    /// Length of one full cycle, in ticks.
    pub open spec fn period(&self) -> nat {
        self.active_ticks() + self.inactive_ticks()
    }

    /// A wind at the start of its active phase.
    pub fn new(active: usize, inactive: usize) -> (r: Self)
        requires
            active + inactive <= usize::MAX,
        ensures
            r.wf(),
            r.active_ticks() == active,
            r.inactive_ticks() == inactive,
            r.position() == 0,
    {
        CyclicWind { clock: TwoPhase::new(active, inactive) }
    }

    /// Ticking moves the wind through its cycle and leaves the phase lengths
    /// alone.
    pub proof fn lemma_after(self, n: nat)
        requires
            self.wf(),
        ensures
            wind_after(self, n).wf(),
            wind_after(self, n).active_ticks() == self.active_ticks(),
            wind_after(self, n).inactive_ticks() == self.inactive_ticks(),
            wind_after(self, n).position() == position_after(self.position(), self.period(), n),
        decreases n,
    {
        if n > 0 {
            self.lemma_after((n - 1) as nat);
        }
    }

    /// Among any `n` ticks, those that blow are the ones on the leading part
    /// of the cycle.
    pub proof fn lemma_count(self, n: nat)
        requires
            self.wf(),
        ensures
            count_blowing(self, n) == lead_ticks(
                self.position(),
                self.period(),
                self.active_ticks(),
                n,
            ),
        decreases n,
    {
        if n > 0 {
            self.lemma_count((n - 1) as nat);
            self.lemma_after((n - 1) as nat);
        }
    }

    /// The ticks that ask for a fresh direction are those that lead back to
    /// the start of the cycle, where the wind redraws at all. Until the
    /// position returns to where it was, a cycle that is not empty asks at
    /// most once.
    pub proof fn lemma_redraws(self, n: nat)
        requires
            self.wf(),
            self.position() + n <= self.period(),
        ensures
            count_redraws(self, n) == if REDRAWS && n > 0 && self.position() + n == self.period() {
                1nat
            } else {
                0nat
            },
        decreases n,
    {
        if n > 0 {
            self.lemma_redraws((n - 1) as nat);
            self.lemma_after((n - 1) as nat);
            lemma_position_after(self.position(), self.period(), (n - 1) as nat);
            vstd::arithmetic::div_mod::lemma_small_mod(
                (self.position() + n - 1) as nat,
                self.period(),
            );
        }
    }

    /// The direction is drawn once per cycle, not once per tick: among the
    /// ticks of one full cycle, wherever it starts, exactly one asks for a
    /// fresh direction where the wind redraws, and none where it does not.
    pub proof fn lemma_redraws_per_cycle(self)
        requires
            self.wf(),
            self.period() > 0,
        ensures
            count_redraws(self, self.period()) == if REDRAWS {
                1nat
            } else {
                0nat
            },
    {
        let rest = (self.period() - self.position()) as nat;
        let restart = wind_after(self, rest);
        self.lemma_redraws(rest);
        self.lemma_after(rest);
        lemma_position_after(self.position(), self.period(), rest);
        vstd::arithmetic::div_mod::lemma_mod_self_0(self.period() as int);
        restart.lemma_redraws(self.position());
        lemma_wind_split(self, rest, self.position());
    }

    /// One full cycle of `active + inactive` ticks leads back to the state
    /// it started from and blows on exactly `active` of its ticks, wherever
    /// in the cycle it starts.
    pub proof fn lemma_full_cycle(self)
        requires
            self.wf(),
        ensures
            wind_after(self, self.period()) == self,
            count_blowing(self, self.period()) == self.active_ticks(),
    {
        self.lemma_after(self.period());
        self.lemma_count(self.period());
        if self.period() > 0 {
            lemma_full_cycle(self.position(), self.period(), self.active_ticks());
        }
    }
}

impl<const REDRAWS: bool> WindTactic for CyclicWind<REDRAWS> {
    open spec fn wf(&self) -> bool {
        &&& self.period() <= usize::MAX
        &&& self.position() < self.period() || self.position() == 0
    }

    open spec fn gust(&self) -> Gust {
        Gust {
            blowing: self.position() < self.active_ticks(),
            redraw: REDRAWS && self.position() + 1 >= self.period(),
        }
    }

    closed spec fn after(&self) -> Self {
        CyclicWind { clock: self.clock.next() }
    }

    fn get_wind(&mut self) -> (g: Gust)
        ensures
            final(self).active_ticks() == old(self).active_ticks(),
            final(self).inactive_ticks() == old(self).inactive_ticks(),
            final(self).position() == next_position(old(self).position(), old(self).period()),
    {
        let (blowing, wraps) = self.clock.tick();
        Gust { blowing, redraw: REDRAWS && wraps }
    }
}

} // verus!
