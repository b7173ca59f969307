use vstd::prelude::*;

verus! {

/// The kind of drone that a flight is run with.
#[derive(Debug, Clone, Copy, PartialEq, Eq, Structural)]
pub enum ControllerSetting {
    ParrotController,
    VirtualController,
}

impl ControllerSetting {
    /// The name under which the setting is shown and stored.
    pub open spec fn label(self) -> Seq<char> {
        match self {
            ControllerSetting::ParrotController => "ParrotController"@,
            ControllerSetting::VirtualController => "VirtualController"@,
        }
    }

    /// Every setting, in the order in which they are offered.
    pub fn all() -> (r: [ControllerSetting; 2])
        ensures
            r@ == seq![
            ControllerSetting::ParrotController,
            ControllerSetting::VirtualController,
            ],
    {
        let r = [ControllerSetting::ParrotController, ControllerSetting::VirtualController];
        assert(r@ =~= seq![
            ControllerSetting::ParrotController,
            ControllerSetting::VirtualController,
        ]);
        r
    }

    /// The name under which the setting is shown and stored.
    pub fn name(&self) -> (r: String)
        ensures
            r@ == self.label(),
    {
        match self {
            ControllerSetting::ParrotController => "ParrotController".to_owned(),
            ControllerSetting::VirtualController => "VirtualController".to_owned(),
        }
    }

    /// The setting that a stored name stands for: the real drone for its
    /// own name, the simulated one for every other text.
    pub open spec fn named(word: Seq<char>) -> ControllerSetting {
        if word == "ParrotController"@ {
            ControllerSetting::ParrotController
        } else {
            ControllerSetting::VirtualController
        }
    }

    /// The setting that a stored name stands for.
    pub fn from_name(word: &str) -> (r: ControllerSetting)
        ensures
            r == Self::named(word@),
    {
        let word = word.to_owned();
        if word == "ParrotController".to_owned() {
            ControllerSetting::ParrotController
        } else {
            ControllerSetting::VirtualController
        }
    }

    /// Every setting is found again from its name.
    pub proof fn lemma_name_round_trip(self)
        ensures
            Self::named(self.label()) == self,
    {
        reveal_strlit("ParrotController");
        reveal_strlit("VirtualController");
        assert("ParrotController"@.len() == 16 && "VirtualController"@.len() == 17);
    }
}

} // verus!
