use crate::ui::model::step_message::StepMessage;
use vstd::prelude::*;

verus! {

/// What the user can do on the set-up tour: move between its pages, or act
/// on the page that is open.
#[derive(Debug, Clone)]
pub enum TourMessage {
    StartPressed,
    BackPressed,
    NextPressed,
    EndPressed,
    StepMessage(StepMessage),
}

} // verus!
