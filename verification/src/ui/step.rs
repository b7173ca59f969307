use crate::ui::model::controller_setting::ControllerSetting;
use crate::ui::model::default_setting::DefaultSetting;
use crate::ui::model::person_setting::PersonSetting;
use crate::ui::model::step_message::StepMessage;
use crate::ui::model::wind_setting::WindSetting;
use crate::utils::picture_funcs::{color_from, get_color_from_strings, LabColor};
use vstd::prelude::*;

verus! {

/// One page of the set-up tour, with what the user has entered on it.
pub enum Step {
    Welcome,
    SetController { cs: Option<ControllerSetting>, ws: Option<WindSetting>, ps: Option<PersonSetting> },
    GetPicture {
        /// The drone is in the air and its camera is being recorded.
        airborne: bool,
    },
    SetHatColor {
        hls: String,
        has: String,
        hbs: String,
        lls: String,
        las: String,
        lbs: String,
        size: String,
        masked_img: String,
    },
    SetKalmanSettings { sigma_0: String, sigma_gain: String, est_v_loss: String },
    SetFollowerSettings { min_change: String, center_threshold: String, setting: Option<DefaultSetting> },
    Run {
        /// A flight is under way.
        running: bool,
    },
}

/// What is left to do outside once a page has taken a message.
#[derive(Clone, Copy, Debug, PartialEq, Eq, Structural)]
pub enum StepAction {
    /// Nothing.
    Nothing,
    /// Store the three choices of the controller page.
    SaveController { controller: ControllerSetting, wind: WindSetting, person: PersonSetting },
    /// Start the drone and the recording of its camera.
    Takeoff,
    /// Keep the picture that the camera shows.
    TakePicture,
    /// Stop the recording and land the drone.
    Land,
    /// Mask the picture with the two colours of the page, the lower and the
    /// upper bound of the hat's colour, and store them.
    SaveHat { low: LabColor, high: LabColor },
    /// Store the three values of the estimator page.
    SaveKalman,
    /// Store the values of the follower page under this setting.
    SaveFollower { setting: DefaultSetting },
    /// Start a flight.
    Start,
    /// Stop the flight.
    Stop,
}

impl Step {
    /// The page lets the user go on to the next one. Only the last page,
    /// from which flights are run, does not.
    pub open spec fn continues(self) -> bool {
        !(self is Run)
    }

    /// The heading of the page.
    pub open spec fn heading(self) -> Seq<char> {
        match self {
            Step::Welcome => "Welcome"@,
            Step::SetController { .. } => "Settings: Controller"@,
            Step::GetPicture { .. } => "Settings: Picture"@,
            Step::SetHatColor { .. } => "Settings: Color"@,
            Step::SetKalmanSettings { .. } => "Settings: Kalman filter"@,
            Step::SetFollowerSettings { .. } => "Settings: HatFollower"@,
            Step::Run { .. } => "Run"@,
        }
    }

    /// The page can take `msg`. The one message that a page cannot take is
    /// the request to store the controller page before all three of its
    /// choices are made.
    pub open spec fn accepts(self, msg: StepMessage) -> bool {
        (msg is SaveController) ==> match self {
            Step::SetController { cs, ws, ps } => cs.is_some() && ws.is_some() && ps.is_some(),
            _ => true,
        }
    }

    /// The page after it has taken `msg`. A message that belongs to another
    /// page leaves the page as it is.
    pub open spec fn updated(self, msg: StepMessage) -> Step {
        match (msg, self) {
            (StepMessage::SetController(c), Step::SetController { cs, ws, ps }) => {
                Step::SetController { cs: Some(c), ws, ps }
            },
            (StepMessage::SetWind(w), Step::SetController { cs, ws, ps }) => {
                Step::SetController { cs, ws: Some(w), ps }
            },
            (StepMessage::SetPerson(p), Step::SetController { cs, ws, ps }) => {
                Step::SetController { cs, ws, ps: Some(p) }
            },
            (StepMessage::Takeoff, Step::GetPicture { airborne }) => {
                Step::GetPicture { airborne: true }
            },
            (StepMessage::Land, Step::GetPicture { airborne }) => {
                Step::GetPicture { airborne: false }
            },
            (
                StepMessage::HighL(val),
                Step::SetHatColor { hls, has, hbs, lls, las, lbs, size, masked_img },
            ) => Step::SetHatColor { hls: val, has, hbs, lls, las, lbs, size, masked_img },
            (
                StepMessage::HighA(val),
                Step::SetHatColor { hls, has, hbs, lls, las, lbs, size, masked_img },
            ) => Step::SetHatColor { hls, has: val, hbs, lls, las, lbs, size, masked_img },
            (
                StepMessage::HighB(val),
                Step::SetHatColor { hls, has, hbs, lls, las, lbs, size, masked_img },
            ) => Step::SetHatColor { hls, has, hbs: val, lls, las, lbs, size, masked_img },
            (
                StepMessage::LowL(val),
                Step::SetHatColor { hls, has, hbs, lls, las, lbs, size, masked_img },
            ) => Step::SetHatColor { hls, has, hbs, lls: val, las, lbs, size, masked_img },
            (
                StepMessage::LowA(val),
                Step::SetHatColor { hls, has, hbs, lls, las, lbs, size, masked_img },
            ) => Step::SetHatColor { hls, has, hbs, lls, las: val, lbs, size, masked_img },
            (
                StepMessage::LowB(val),
                Step::SetHatColor { hls, has, hbs, lls, las, lbs, size, masked_img },
            ) => Step::SetHatColor { hls, has, hbs, lls, las, lbs: val, size, masked_img },
            (
                StepMessage::Size(val),
                Step::SetHatColor { hls, has, hbs, lls, las, lbs, size, masked_img },
            ) => Step::SetHatColor { hls, has, hbs, lls, las, lbs, size: val, masked_img },
            (StepMessage::Sigma0(val), Step::SetKalmanSettings { sigma_0, sigma_gain, est_v_loss }) => {
                Step::SetKalmanSettings { sigma_0: val, sigma_gain, est_v_loss }
            },
            (
                StepMessage::SigmaGain(val),
                Step::SetKalmanSettings { sigma_0, sigma_gain, est_v_loss },
            ) => Step::SetKalmanSettings { sigma_0, sigma_gain: val, est_v_loss },
            (StepMessage::VLose(val), Step::SetKalmanSettings { sigma_0, sigma_gain, est_v_loss }) => {
                Step::SetKalmanSettings { sigma_0, sigma_gain, est_v_loss: val }
            },
            (
                StepMessage::Center(val),
                Step::SetFollowerSettings { min_change, center_threshold, setting },
            ) => Step::SetFollowerSettings { min_change, center_threshold: val, setting },
            (
                StepMessage::MinChange(val),
                Step::SetFollowerSettings { min_change, center_threshold, setting },
            ) => Step::SetFollowerSettings { min_change: val, center_threshold, setting },
            (
                StepMessage::SettingChanged(val),
                Step::SetFollowerSettings { min_change, center_threshold, setting },
            ) => Step::SetFollowerSettings { min_change, center_threshold, setting: Some(val) },
            (StepMessage::Start, Step::Run { running }) => Step::Run { running: true },
            (StepMessage::Stop, Step::Run { running }) => Step::Run { running: false },
            _ => self,
        }
    }

    /// The page once the masked picture of the colour page is stored under
    /// `name`.
    pub open spec fn with_masked_image(self, name: String) -> Step {
        match self {
            Step::SetHatColor { hls, has, hbs, lls, las, lbs, size, masked_img } => {
                Step::SetHatColor { hls, has, hbs, lls, las, lbs, size, masked_img: name }
            },
            _ => self,
        }
    }

    /// What is left to do outside once the page has taken `msg`. A message
    /// that belongs to another page asks for nothing, and so does one that
    /// the page has already heeded: a take-off in the air, a landing or a
    /// picture on the ground, a start during a flight, a stop without one.
    /// Colours are stored only if all six of their coordinates are numbers.
    pub open spec fn action(self, msg: StepMessage) -> StepAction {
        match (msg, self) {
            (StepMessage::SaveController, Step::SetController { cs, ws, ps }) => {
                if cs.is_some() && ws.is_some() && ps.is_some() {
                    StepAction::SaveController {
                        controller: cs.unwrap(),
                        wind: ws.unwrap(),
                        person: ps.unwrap(),
                    }
                } else {
                    StepAction::Nothing
                }
            },
            (StepMessage::Takeoff, Step::GetPicture { airborne }) => if airborne {
                StepAction::Nothing
            } else {
                StepAction::Takeoff
            },
            (StepMessage::TakePicture, Step::GetPicture { airborne }) => if airborne {
                StepAction::TakePicture
            } else {
                StepAction::Nothing
            },
            (StepMessage::Land, Step::GetPicture { airborne }) => if airborne {
                StepAction::Land
            } else {
                StepAction::Nothing
            },
            (StepMessage::SaveHat, Step::SetHatColor { hls, has, hbs, lls, las, lbs, .. }) => {
                let low = color_from(lls@, las@, lbs@);
                let high = color_from(hls@, has@, hbs@);
                if low.is_ok() && high.is_ok() {
                    StepAction::SaveHat { low: low.unwrap(), high: high.unwrap() }
                } else {
                    StepAction::Nothing
                }
            },
            (StepMessage::SaveKalman, Step::SetKalmanSettings { .. }) => StepAction::SaveKalman,
            (StepMessage::SaveFollower, Step::SetFollowerSettings { setting, .. }) => {
                StepAction::SaveFollower {
                    setting: match setting {
                        Some(DefaultSetting::Video) => DefaultSetting::Video,
                        Some(DefaultSetting::Silent) => DefaultSetting::Silent,
                        _ => DefaultSetting::Debug,
                    },
                }
            },
            (StepMessage::Start, Step::Run { running }) => if running {
                StepAction::Nothing
            } else {
                StepAction::Start
            },
            (StepMessage::Stop, Step::Run { running }) => if running {
                StepAction::Stop
            } else {
                StepAction::Nothing
            },
            _ => StepAction::Nothing,
        }
    }

    /// Takes `msg`: changes what the page holds and says what is left to do
    /// outside.
    pub fn update(&mut self, msg: StepMessage) -> (r: StepAction)
        requires
            old(self).accepts(msg),
        ensures
            *final(self) == old(self).updated(msg),
            r == old(self).action(msg),
    {
        match msg {
            StepMessage::SetController(c) => {
                if let Step::SetController { cs, .. } = self {
                    *cs = Some(c);
                }
                StepAction::Nothing
            },
            StepMessage::SetWind(w) => {
                if let Step::SetController { ws, .. } = self {
                    *ws = Some(w);
                }
                StepAction::Nothing
            },
            StepMessage::SetPerson(p) => {
                if let Step::SetController { ps, .. } = self {
                    *ps = Some(p);
                }
                StepAction::Nothing
            },
            StepMessage::SaveController => {
                match self {
                    Step::SetController { cs: Some(c), ws: Some(w), ps: Some(p) } => {
                        StepAction::SaveController { controller: *c, wind: *w, person: *p }
                    },
                    _ => StepAction::Nothing,
                }
            },
            StepMessage::Takeoff => {
                if let Step::GetPicture { airborne } = self {
                    if !*airborne {
                        *airborne = true;
                        return StepAction::Takeoff;
                    }
                }
                StepAction::Nothing
            },
            StepMessage::TakePicture => {
                if let Step::GetPicture { airborne } = self {
                    if *airborne {
                        return StepAction::TakePicture;
                    }
                }
                StepAction::Nothing
            },
            StepMessage::Land => {
                if let Step::GetPicture { airborne } = self {
                    if *airborne {
                        *airborne = false;
                        return StepAction::Land;
                    }
                }
                StepAction::Nothing
            },
            StepMessage::HighL(val) => {
                if let Step::SetHatColor { hls, .. } = self {
                    *hls = val;
                }
                StepAction::Nothing
            },
            StepMessage::HighA(val) => {
                if let Step::SetHatColor { has, .. } = self {
                    *has = val;
                }
                StepAction::Nothing
            },
            StepMessage::HighB(val) => {
                if let Step::SetHatColor { hbs, .. } = self {
                    *hbs = val;
                }
                StepAction::Nothing
            },
            StepMessage::LowL(val) => {
                if let Step::SetHatColor { lls, .. } = self {
                    *lls = val;
                }
                StepAction::Nothing
            },
            StepMessage::LowA(val) => {
                if let Step::SetHatColor { las, .. } = self {
                    *las = val;
                }
                StepAction::Nothing
            },
            StepMessage::LowB(val) => {
                if let Step::SetHatColor { lbs, .. } = self {
                    *lbs = val;
                }
                StepAction::Nothing
            },
            StepMessage::Size(val) => {
                if let Step::SetHatColor { size, .. } = self {
                    *size = val;
                }
                StepAction::Nothing
            },
            StepMessage::SaveHat => {
                match self {
                    Step::SetHatColor { hls, has, hbs, lls, las, lbs, .. } => {
                        let low = get_color_from_strings(lls, las, lbs);
                        let high = get_color_from_strings(hls, has, hbs);
                        match (low, high) {
                            (Ok(low), Ok(high)) => StepAction::SaveHat { low, high },
                            _ => StepAction::Nothing,
                        }
                    },
                    _ => StepAction::Nothing,
                }
            },
            StepMessage::Sigma0(val) => {
                if let Step::SetKalmanSettings { sigma_0, .. } = self {
                    *sigma_0 = val;
                }
                StepAction::Nothing
            },
            StepMessage::SigmaGain(val) => {
                if let Step::SetKalmanSettings { sigma_gain, .. } = self {
                    *sigma_gain = val;
                }
                StepAction::Nothing
            },
            StepMessage::VLose(val) => {
                if let Step::SetKalmanSettings { est_v_loss, .. } = self {
                    *est_v_loss = val;
                }
                StepAction::Nothing
            },
            StepMessage::SaveKalman => {
                match self {
                    Step::SetKalmanSettings { .. } => StepAction::SaveKalman,
                    _ => StepAction::Nothing,
                }
            },
            StepMessage::SettingChanged(val) => {
                if let Step::SetFollowerSettings { setting, .. } = self {
                    *setting = Some(val);
                }
                StepAction::Nothing
            },
            StepMessage::MinChange(val) => {
                if let Step::SetFollowerSettings { min_change, .. } = self {
                    *min_change = val;
                }
                StepAction::Nothing
            },
            StepMessage::Center(val) => {
                if let Step::SetFollowerSettings { center_threshold, .. } = self {
                    *center_threshold = val;
                }
                StepAction::Nothing
            },
            StepMessage::SaveFollower => {
                match self {
                    Step::SetFollowerSettings { setting, .. } => {
                        let chosen = match setting {
                            Some(DefaultSetting::Video) => DefaultSetting::Video,
                            Some(DefaultSetting::Silent) => DefaultSetting::Silent,
                            _ => DefaultSetting::Debug,
                        };
                        StepAction::SaveFollower { setting: chosen }
                    },
                    _ => StepAction::Nothing,
                }
            },
            StepMessage::Start => {
                if let Step::Run { running } = self {
                    if !*running {
                        *running = true;
                        return StepAction::Start;
                    }
                }
                StepAction::Nothing
            },
            StepMessage::Stop => {
                if let Step::Run { running } = self {
                    if *running {
                        *running = false;
                        return StepAction::Stop;
                    }
                }
                StepAction::Nothing
            },
        }
    }

    /// Records under which name the masked picture of the colour page was
    /// stored. Other pages have no such picture and stay as they are.
    pub fn set_masked_image(&mut self, name: String)
        ensures
            *final(self) == old(self).with_masked_image(name),
    {
        if let Step::SetHatColor { masked_img, .. } = self {
            *masked_img = name;
        }
    }

    /// The heading of the page.
    pub fn title(&self) -> (r: &'static str)
        ensures
            r@ == self.heading(),
    {
        match self {
            Step::Welcome => "Welcome",
            Step::SetController { .. } => "Settings: Controller",
            Step::GetPicture { .. } => "Settings: Picture",
            Step::SetHatColor { .. } => "Settings: Color",
            Step::SetKalmanSettings { .. } => "Settings: Kalman filter",
            Step::SetFollowerSettings { .. } => "Settings: HatFollower",
            Step::Run { .. } => "Run",
        }
    }

    /// Whether the page lets the user go on to the next one.
    pub fn can_continue(&self) -> (r: bool)
        ensures
            r == self.continues(),
    {
        match self {
            Step::Run { .. } => false,
            _ => true,
        }
    }

    /// Whether the page can take `msg`.
    pub fn can_take(&self, msg: &StepMessage) -> (r: bool)
        ensures
            r == self.accepts(*msg),
    {
        match msg {
            StepMessage::SaveController => {
                match self {
                    Step::SetController { cs, ws, ps } => cs.is_some() && ws.is_some() && ps.is_some(),
                    _ => true,
                }
            },
            _ => true,
        }
    }
}

} // verus!
