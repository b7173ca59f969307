pub mod controller_setting;
pub mod default_setting;
pub mod person_setting;
pub mod step_message;
pub mod steps;
pub mod tour_message;
pub mod wind_setting;

pub use controller_setting::ControllerSetting;
pub use default_setting::DefaultSetting;
pub use person_setting::PersonSetting;
pub use step_message::StepMessage;
pub use steps::Steps;
pub use tour_message::TourMessage;
pub use wind_setting::WindSetting;
