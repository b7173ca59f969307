use crate::simulation::traits::{count_blowing, count_redraws, wind_after, Gust, WindTactic};
use vstd::prelude::*;

verus! {

/// Still air.
pub struct NoWind {}

impl NoWind {
    pub fn new() -> (r: NoWind)
        ensures
            r.wf(),
    {
        NoWind {  }
    }

    /// No tick blows.
    pub proof fn lemma_count(self, n: nat)
        ensures
            wind_after(self, n) == self,
            count_blowing(self, n) == 0,
            count_redraws(self, n) == 0,
        decreases n,
    {
        if n > 0 {
            self.lemma_count((n - 1) as nat);
        }
    }
}

impl WindTactic for NoWind {
    open spec fn wf(&self) -> bool {
        true
    }

    open spec fn gust(&self) -> Gust {
        Gust { blowing: false, redraw: false }
    }

    open spec fn after(&self) -> NoWind {
        *self
    }

    fn get_wind(&mut self) -> (g: Gust) {
        Gust { blowing: false, redraw: false }
    }
}

} // verus!
