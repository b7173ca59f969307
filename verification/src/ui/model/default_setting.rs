use vstd::prelude::*;

verus! {

/// How much a flight shows and records.
#[derive(Debug, Clone, Copy, PartialEq, Eq, Structural)]
pub enum DefaultSetting {
    Video,
    Debug,
    Silent,
}

impl DefaultSetting {
    /// The name under which the setting is shown and stored.
    pub open spec fn label(self) -> Seq<char> {
        match self {
            DefaultSetting::Video => "Video"@,
            DefaultSetting::Debug => "Debug"@,
            DefaultSetting::Silent => "Silent"@,
        }
    }

    /// Every setting, in the order in which they are offered.
    pub fn all() -> (r: [DefaultSetting; 3])
        ensures
            r@ == seq![
            DefaultSetting::Video,
            DefaultSetting::Debug,
            DefaultSetting::Silent,
            ],
    {
        let r = [DefaultSetting::Video, DefaultSetting::Debug, DefaultSetting::Silent];
        assert(r@ =~= seq![
            DefaultSetting::Video,
            DefaultSetting::Debug,
            DefaultSetting::Silent,
        ]);
        r
    }

    /// The name under which the setting is shown and stored.
    pub fn name(&self) -> (r: String)
        ensures
            r@ == self.label(),
    {
        match self {
            DefaultSetting::Video => "Video".to_owned(),
            DefaultSetting::Debug => "Debug".to_owned(),
            DefaultSetting::Silent => "Silent".to_owned(),
        }
    }

    /// The setting that a stored name stands for: `Video` and `Silent` for
    /// their own names, `Debug` for every other text.
    pub open spec fn named(word: Seq<char>) -> DefaultSetting {
        if word == "Video"@ {
            DefaultSetting::Video
        } else if word == "Silent"@ {
            DefaultSetting::Silent
        } else {
            DefaultSetting::Debug
        }
    }

    /// The setting that a stored name stands for.
    pub fn from_name(word: &str) -> (r: DefaultSetting)
        ensures
            r == Self::named(word@),
    {
        let word = word.to_owned();
        if word == "Video".to_owned() {
            DefaultSetting::Video
        } else if word == "Silent".to_owned() {
            DefaultSetting::Silent
        } else {
            DefaultSetting::Debug
        }
    }

    /// Every setting is found again from its name.
    pub proof fn lemma_name_round_trip(self)
        ensures
            Self::named(self.label()) == self,
    {
        reveal_strlit("Video");
        reveal_strlit("Debug");
        reveal_strlit("Silent");
        assert("Video"@.len() == 5 && "Debug"@.len() == 5 && "Silent"@.len() == 6);
        assert("Video"@[0] == 'V' && "Debug"@[0] == 'D');
    }
}

} // verus!
