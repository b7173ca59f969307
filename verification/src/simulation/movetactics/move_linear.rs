use crate::simulation::traits::{count_motion, move_after, Motion, MoveTactic};
use vstd::prelude::*;

verus! {

/// A target that drifts by the same offset on every tick and keeps its
/// heading.
pub struct MoveLinear {}

impl MoveLinear {
    pub fn new() -> (r: MoveLinear)
        ensures
            r.wf(),
    {
        MoveLinear {  }
    }

    /// Every tick drifts.
    pub proof fn lemma_count(self, n: nat)
        ensures
            move_after(self, n) == self,
            count_motion(self, n, Motion::Drift) == n,
        decreases n,
    {
        if n > 0 {
            self.lemma_count((n - 1) as nat);
        }
    }
}

impl MoveTactic for MoveLinear {
    open spec fn wf(&self) -> bool {
        true
    }

    open spec fn motion(&self) -> Motion {
        Motion::Drift
    }

    open spec fn after(&self) -> MoveLinear {
        *self
    }

    fn execute_move(&mut self) -> (m: Motion) {
        Motion::Drift
    }
}

} // verus!
