use crate::simulation::traits::{count_motion, move_after, Motion, MoveTactic};
use vstd::prelude::*;

verus! {

/// A target that turns on the spot, by the same angle on every tick.
pub struct StandTurn {}

impl StandTurn {
    pub fn new() -> (r: StandTurn)
        ensures
            r.wf(),
    {
        StandTurn {  }
    }

    /// Every tick turns.
    pub proof fn lemma_count(self, n: nat)
        ensures
            move_after(self, n) == self,
            count_motion(self, n, Motion::Turn) == n,
        decreases n,
    {
        if n > 0 {
            self.lemma_count((n - 1) as nat);
        }
    }
}

impl MoveTactic for StandTurn {
    open spec fn wf(&self) -> bool {
        true
    }

    open spec fn motion(&self) -> Motion {
        Motion::Turn
    }

    open spec fn after(&self) -> StandTurn {
        *self
    }

    fn execute_move(&mut self) -> (m: Motion) {
        Motion::Turn
    }
}

} // verus!
