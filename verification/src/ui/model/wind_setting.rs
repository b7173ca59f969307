use vstd::prelude::*;

verus! {

/// How the simulated air moves.
#[derive(Debug, Clone, Copy, PartialEq, Eq, Structural)]
pub enum WindSetting {
    NoWind,
    PeriodicWind,
    RandomWind,
}

impl WindSetting {
    /// The name under which the setting is shown and stored.
    pub open spec fn label(self) -> Seq<char> {
        match self {
            WindSetting::NoWind => "NoWind"@,
            WindSetting::PeriodicWind => "PeriodicWind"@,
            WindSetting::RandomWind => "RandomWind"@,
        }
    }

    /// Every setting, in the order in which they are offered.
    pub fn all() -> (r: [WindSetting; 3])
        ensures
            r@ == seq![
            WindSetting::NoWind,
            WindSetting::PeriodicWind,
            WindSetting::RandomWind,
            ],
    {
        let r = [WindSetting::NoWind, WindSetting::PeriodicWind, WindSetting::RandomWind];
        assert(r@ =~= seq![
            WindSetting::NoWind,
            WindSetting::PeriodicWind,
            WindSetting::RandomWind,
        ]);
        r
    }

    /// The name under which the setting is shown and stored.
    pub fn name(&self) -> (r: String)
        ensures
            r@ == self.label(),
    {
        match self {
            WindSetting::NoWind => "NoWind".to_owned(),
            WindSetting::PeriodicWind => "PeriodicWind".to_owned(),
            WindSetting::RandomWind => "RandomWind".to_owned(),
        }
    }
}

} // verus!
