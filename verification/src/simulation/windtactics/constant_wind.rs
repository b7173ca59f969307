use crate::simulation::traits::{count_blowing, count_redraws, wind_after, Gust, WindTactic};
use vstd::prelude::*;

verus! {

/// A wind that pushes with the same vector on every tick.
pub struct ConstantWind {}

impl ConstantWind {
    pub fn new() -> (r: ConstantWind)
        ensures
            r.wf(),
    {
        ConstantWind {  }
    }

    /// Every tick blows, and the vector is never drawn afresh.
    pub proof fn lemma_count(self, n: nat)
        ensures
            wind_after(self, n) == self,
            count_blowing(self, n) == n,
            count_redraws(self, n) == 0,
        decreases n,
    {
        if n > 0 {
            self.lemma_count((n - 1) as nat);
        }
    }
}

impl WindTactic for ConstantWind {
    open spec fn wf(&self) -> bool {
        true
    }

    open spec fn gust(&self) -> Gust {
        Gust { blowing: true, redraw: false }
    }

    open spec fn after(&self) -> ConstantWind {
        *self
    }

    fn get_wind(&mut self) -> (g: Gust) {
        Gust { blowing: true, redraw: false }
    }
}

} // verus!
