use crate::simulation::traits::{count_motion, move_after, Motion, MoveTactic};
use vstd::prelude::*;

verus! {

/// A target that never moves.
pub struct StandStill {}

impl StandStill {
    pub fn new() -> (r: StandStill)
        ensures
            r.wf(),
    {
        StandStill {  }
    }

    /// Every tick holds the pose.
    pub proof fn lemma_count(self, n: nat)
        ensures
            move_after(self, n) == self,
            count_motion(self, n, Motion::Hold) == n,
        decreases n,
    {
        if n > 0 {
            self.lemma_count((n - 1) as nat);
        }
    }
}

impl MoveTactic for StandStill {
    open spec fn wf(&self) -> bool {
        true
    }

    open spec fn motion(&self) -> Motion {
        Motion::Hold
    }

    open spec fn after(&self) -> StandStill {
        *self
    }

    fn execute_move(&mut self) -> (m: Motion) {
        Motion::Hold
    }
}

} // verus!
