use vstd::prelude::*;

verus! {

/// How the simulated person moves.
#[derive(Debug, Clone, Copy, PartialEq, Eq, Structural)]
pub enum PersonSetting {
    StandStill,
    MoveStop,
    MoveSquares,
}

impl PersonSetting {
    /// The name under which the setting is shown and stored.
    pub open spec fn label(self) -> Seq<char> {
        match self {
            PersonSetting::StandStill => "StandStill"@,
            PersonSetting::MoveStop => "MoveStop"@,
            PersonSetting::MoveSquares => "MoveSquares"@,
        }
    }

    /// Every setting, in the order in which they are offered.
    pub fn all() -> (r: [PersonSetting; 3])
        ensures
            r@ == seq![
            PersonSetting::StandStill,
            PersonSetting::MoveStop,
            PersonSetting::MoveSquares,
            ],
    {
        let r = [PersonSetting::StandStill, PersonSetting::MoveStop, PersonSetting::MoveSquares];
        assert(r@ =~= seq![
            PersonSetting::StandStill,
            PersonSetting::MoveStop,
            PersonSetting::MoveSquares,
        ]);
        r
    }

    /// The name under which the setting is shown and stored.
    pub fn name(&self) -> (r: String)
        ensures
            r@ == self.label(),
    {
        match self {
            PersonSetting::StandStill => "StandStill".to_owned(),
            PersonSetting::MoveStop => "MoveStop".to_owned(),
            PersonSetting::MoveSquares => "MoveSquares".to_owned(),
        }
    }
}

} // verus!
