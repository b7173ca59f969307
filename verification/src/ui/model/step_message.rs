use crate::ui::model::controller_setting::ControllerSetting;
use crate::ui::model::default_setting::DefaultSetting;
use crate::ui::model::person_setting::PersonSetting;
use crate::ui::model::wind_setting::WindSetting;
use vstd::prelude::*;

verus! {

/// What the user can do on one page of the set-up tour.
#[derive(Debug, Clone)]
pub enum StepMessage {
    SetController(ControllerSetting),
    SetWind(WindSetting),
    SetPerson(PersonSetting),
    SaveController,
    Takeoff,
    TakePicture,
    Land,
    LowL(String),
    LowA(String),
    LowB(String),
    HighL(String),
    HighA(String),
    HighB(String),
    Size(String),
    SaveHat,
    Sigma0(String),
    SigmaGain(String),
    VLose(String),
    SaveKalman,
    SettingChanged(DefaultSetting),
    MinChange(String),
    Center(String),
    SaveFollower,
    Start,
    Stop,
}

} // verus!
