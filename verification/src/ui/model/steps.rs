use crate::ui::model::step_message::StepMessage;
use crate::ui::step::{Step, StepAction};
use vstd::prelude::*;

verus! {

/// The pages of the set-up tour and the place of the page that is open.
pub struct Steps {
    steps: Vec<Step>,
    current: usize,
}

/// Whether the tour can go on from page `k` of `pages`: there is a page
/// after it, and page `k` lets the user leave.
pub open spec fn continues_at(pages: Seq<Step>, k: int) -> bool {
    k + 1 < pages.len() && pages[k].continues()
}

/// The page on which a tour ends that goes on from page `k` of `pages` for
/// as long as it can.
pub open spec fn end_from(pages: Seq<Step>, k: int) -> int
    decreases pages.len() - k,
{
    if 0 <= k && continues_at(pages, k) {
        end_from(pages, k + 1)
    } else {
        k
    }
}

impl Steps {
    /// The pages, in the order of the tour.
    pub closed spec fn pages(&self) -> Seq<Step> {
        self.steps@
    }

    /// The place of the page that is open.
    pub closed spec fn place(&self) -> int {
        self.current as int
    }

    /// There is a page that is open.
    pub open spec fn wf(&self) -> bool {
        0 <= self.place() < self.pages().len() <= usize::MAX
    }

    /// The page that is open.
    pub open spec fn page(&self) -> Step {
        self.pages()[self.place()]
    }

    /// A tour of seven empty pages, open at the first: the welcome, the
    /// controller, the picture, the colour of the hat, the estimator, the
    /// follower, and the flight.
    pub fn new() -> (r: Steps)
        ensures
            r.wf(),
            r.place() == 0,
            r.pages().len() == 7,
            r.pages()[0] is Welcome,
            r.pages()[1] is SetController,
            r.pages()[2] is GetPicture,
            r.pages()[3] is SetHatColor,
            r.pages()[4] is SetKalmanSettings,
            r.pages()[5] is SetFollowerSettings,
            r.pages()[6] is Run,
            forall|k: int| 0 <= k < 7 ==> is_blank(#[trigger] r.pages()[k]),
    {
        let mut steps: Vec<Step> = Vec::new();
        steps.push(Step::Welcome);
        steps.push(Step::SetController { cs: None, ws: None, ps: None });
        steps.push(Step::GetPicture { airborne: false });
        steps.push(
            Step::SetHatColor {
                hls: String::new(),
                has: String::new(),
                hbs: String::new(),
                lls: String::new(),
                las: String::new(),
                lbs: String::new(),
                size: String::new(),
                masked_img: String::new(),
            },
        );
        steps.push(
            Step::SetKalmanSettings {
                sigma_0: String::new(),
                sigma_gain: String::new(),
                est_v_loss: String::new(),
            },
        );
        steps.push(
            Step::SetFollowerSettings {
                min_change: String::new(),
                center_threshold: String::new(),
                setting: None,
            },
        );
        steps.push(Step::Run { running: false });
        Steps { steps, current: 0 }
    }

    /// Hands `msg` to the page that is open.
    pub fn update(&mut self, msg: StepMessage) -> (r: StepAction)
        requires
            old(self).wf(),
            old(self).page().accepts(msg),
        ensures
            final(self).wf(),
            final(self).place() == old(self).place(),
            final(self).pages() == old(self).pages().update(
                old(self).place(),
                old(self).page().updated(msg),
            ),
            r == old(self).page().action(msg),
    {
        let i: usize = self.current;
        let r = self.steps[i].update(msg);
        r
    }

    /// Records on the page that is open under which name the masked picture
    /// was stored.
    pub fn set_masked_image(&mut self, name: String)
        requires
            old(self).wf(),
        ensures
            final(self).wf(),
            final(self).place() == old(self).place(),
            final(self).pages() == old(self).pages().update(
                old(self).place(),
                old(self).page().with_masked_image(name),
            ),
    {
        let i: usize = self.current;
        self.steps[i].set_masked_image(name);
    }

    /// Opens the next page, if the tour can go on.
    pub fn advance(&mut self)
        requires
            old(self).wf(),
        ensures
            final(self).wf(),
            final(self).pages() == old(self).pages(),
            final(self).place() == if continues_at(old(self).pages(), old(self).place()) {
                old(self).place() + 1
            } else {
                old(self).place()
            },
    {
        if self.can_continue() {
            self.current = self.current + 1;
        }
    }

    /// Opens the page on which the tour ends: it goes on from page to page
    /// for as long as it can.
    pub fn skip_to_end(&mut self)
        requires
            old(self).wf(),
        ensures
            final(self).wf(),
            final(self).pages() == old(self).pages(),
            final(self).place() == end_from(old(self).pages(), old(self).place()),
            !continues_at(final(self).pages(), final(self).place()),
    {
        while self.can_continue()
            invariant
                self.wf(),
                self.pages() == old(self).pages(),
                end_from(self.pages(), self.place()) == end_from(
                    old(self).pages(),
                    old(self).place(),
                ),
            decreases self.pages().len() - self.place(),
        {
            self.current = self.current + 1;
        }
    }

    /// Opens the page before, if there is one.
    pub fn go_back(&mut self)
        requires
            old(self).wf(),
        ensures
            final(self).wf(),
            final(self).pages() == old(self).pages(),
            final(self).place() == if old(self).place() > 0 {
                old(self).place() - 1
            } else {
                0
            },
    {
        if self.has_previous() {
            self.current = self.current - 1;
        }
    }

    /// Opens the first page.
    pub fn go_to_start(&mut self)
        requires
            old(self).wf(),
        ensures
            final(self).wf(),
            final(self).pages() == old(self).pages(),
            final(self).place() == 0,
    {
        while self.has_previous()
            invariant
                self.wf(),
                self.pages() == old(self).pages(),
            decreases self.place(),
        {
            self.current = self.current - 1;
        }
    }

    /// Whether a page comes before the one that is open.
    pub fn has_previous(&self) -> (r: bool)
        ensures
            r == (self.place() > 0),
    {
        self.current > 0
    }

    /// Whether the tour can go on from the page that is open.
    pub fn can_continue(&self) -> (r: bool)
        requires
            self.wf(),
        ensures
            r == continues_at(self.pages(), self.place()),
    {
        self.current + 1 < self.steps.len() && self.steps[self.current].can_continue()
    }

    /// The heading of the page that is open.
    pub fn title(&self) -> (r: &'static str)
        requires
            self.wf(),
        ensures
            r@ == self.page().heading(),
    {
        self.steps[self.current].title()
    }

    /// The page that is open.
    pub fn current_step(&self) -> (r: &Step)
        requires
            self.wf(),
        ensures
            *r == self.page(),
    {
        &self.steps[self.current]
    }

    /// The place of the page that is open, counted from 0.
    pub fn position(&self) -> (r: usize)
        ensures
            r == self.place(),
    {
        self.current
    }
}

/// Nothing has been entered or chosen on `page`, and nothing is under way.
pub open spec fn is_blank(page: Step) -> bool {
    match page {
        Step::Welcome => true,
        Step::SetController { cs, ws, ps } => cs.is_none() && ws.is_none() && ps.is_none(),
        Step::GetPicture { airborne } => !airborne,
        Step::SetHatColor { hls, has, hbs, lls, las, lbs, size, masked_img } => {
            hls@.len() == 0 && has@.len() == 0 && hbs@.len() == 0 && lls@.len() == 0 && las@.len()
                == 0 && lbs@.len() == 0 && size@.len() == 0 && masked_img@.len() == 0
        },
        Step::SetKalmanSettings { sigma_0, sigma_gain, est_v_loss } => {
            sigma_0@.len() == 0 && sigma_gain@.len() == 0 && est_v_loss@.len() == 0
        },
        Step::SetFollowerSettings { min_change, center_threshold, setting } => {
            min_change@.len() == 0 && center_threshold@.len() == 0 && setting.is_none()
        },
        Step::Run { running } => !running,
    }
}

} // verus!
