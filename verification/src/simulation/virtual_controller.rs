use crate::geometry::{GeometricPoint, PointConverter};
use crate::simulation::scene::{
    crown_color, hat_color, tree_color, Color, Marker, CROWN_RADIUS, HAT_RADIUS, TREE_RADIUS,
};
use crate::simulation::movetactics::stand_still::StandStill;
use crate::simulation::traits::{
    lemma_move_split, lemma_wind_split, move_after, wind_after, Gust, Motion, MoveTactic,
    WindTactic,
};
use crate::simulation::windtactics::no_wind::NoWind;
use vstd::prelude::*;

verus! {

/// What one simulated tick does: the wind that pushes the observer and the
/// motion of the target.
#[derive(Clone, Copy, Debug, PartialEq, Eq, Structural)]
pub struct TickPlan {
    pub gust: Gust,
    pub motion: Motion,
}

/// The schedule of a simulated flight: it decides what happens on each tick
/// and where the scene is painted into the camera frame. The observer's and
/// the target's poses are the caller's, who moves them as each `TickPlan`
/// says.
pub struct VirtualController<M: MoveTactic, W: WindTactic> {
    p_c: PointConverter,
    move_tactic: M,
    wind_tactic: W,
    skip_frames: u32,
}

impl<M: MoveTactic, W: WindTactic> VirtualController<M, W> {
    /// The rule that moves the target.
    pub closed spec fn mover(&self) -> M {
        self.move_tactic
    }

    /// The rule that moves the air.
    pub closed spec fn wind(&self) -> W {
        self.wind_tactic
    }

    /// Ticks that pass unseen between two frames.
    pub closed spec fn skipped(&self) -> u32 {
        self.skip_frames
    }

    /// The converter between the observer's frame of reference and pixels.
    pub closed spec fn converter(&self) -> PointConverter {
        self.p_c
    }

    pub open spec fn wf(&self) -> bool {
        &&& self.mover().wf()
        &&& self.wind().wf()
        &&& self.converter().wf()
        &&& self.converter().frame_width() == 640
        &&& self.converter().frame_height() == 360
    }

    /// The plan of the `i`-th tick from now, counted from 0.
    pub open spec fn plan_at(&self, i: nat) -> TickPlan {
        TickPlan {
            gust: wind_after(self.wind(), i).gust(),
            motion: move_after(self.mover(), i).motion(),
        }
    }

    /// The plans of the next `n` ticks.
    pub open spec fn plans(&self, n: nat) -> Seq<TickPlan> {
        Seq::new(n, |i: int| self.plan_at(i as nat))
    }

    /// The simulation after `n` ticks.
    pub closed spec fn ticked(&self, n: nat) -> VirtualController<M, W> {
        VirtualController {
            p_c: self.p_c,
            move_tactic: move_after(self.move_tactic, n),
            wind_tactic: wind_after(self.wind_tactic, n),
            skip_frames: self.skip_frames,
        }
    }

    /// Ticking moves both tactics on and leaves the rest of the simulation
    /// alone.
    pub proof fn lemma_ticked(self, n: nat)
        ensures
            self.ticked(n).mover() == move_after(self.mover(), n),
            self.ticked(n).wind() == wind_after(self.wind(), n),
            self.ticked(n).skipped() == self.skipped(),
            self.ticked(n).converter() == self.converter(),
    {
    }

    /// Frames follow on one another without a gap: the plans of `a + b`
    /// ticks are the plans of `a` ticks and then the plans of `b` ticks of
    /// the simulation that the first `a` ticks leave behind.
    pub proof fn lemma_plans_split(self, a: nat, b: nat)
        ensures
            self.plans(a + b) == self.plans(a) + self.ticked(a).plans(b),
            self.ticked(a + b) == self.ticked(a).ticked(b),
    {
        let whole = self.plans(a + b);
        let parts = self.plans(a) + self.ticked(a).plans(b);
        assert forall|i: int| 0 <= i < a + b implies whole[i] == parts[i] by {
            if i >= a {
                lemma_move_split(self.mover(), a, (i - a) as nat, Motion::Hold);
                lemma_wind_split(self.wind(), a, (i - a) as nat);
                assert(a + (i - a) as nat == i);
            }
        }
        assert(whole =~= parts);
        lemma_move_split(self.mover(), a, b, Motion::Hold);
        lemma_wind_split(self.wind(), a, b);
    }

    /// The markers that show the trees which stand at `trees`, as seen from
    /// the observer.
    pub open spec fn background(&self, trees: Seq<GeometricPoint>) -> Seq<Marker> {
        Seq::new(
            trees.len(),
            |k: int|
                Marker {
                    center: self.converter().pixel_of(trees[k]),
                    radius: TREE_RADIUS,
                    color: tree_color(),
                },
        )
    }

    /// The markers that show a hat at `hat`, as seen from the observer, whose
    /// peak lies `peak_x` to the right of it and `peak_y` above it: the hat,
    /// then its peak, then the crown on top of the hat.
    pub open spec fn hat_markers(&self, hat: GeometricPoint, peak_x: i32, peak_y: i32) -> Seq<
        Marker,
    > {
        seq![
            Marker { center: self.converter().pixel_of(hat), radius: HAT_RADIUS, color: hat_color() },
            Marker {
                center: self.converter().pixel_of(hat.shifted(peak_x, peak_y)),
                radius: HAT_RADIUS,
                color: hat_color(),
            },
            Marker {
                center: self.converter().pixel_of(hat),
                radius: CROWN_RADIUS,
                color: crown_color(),
            },
        ]
    }

    /// A simulation before its first tick, with a camera frame of 640 by 360
    /// pixels.
    pub fn new(skip_frames: u32, move_tactic: M, wind_tactic: W) -> (r: VirtualController<M, W>)
        requires
            move_tactic.wf(),
            wind_tactic.wf(),
        ensures
            r.wf(),
            r.mover() == move_tactic,
            r.wind() == wind_tactic,
            r.skipped() == skip_frames,
    {
        VirtualController { p_c: PointConverter::new(640, 360), move_tactic, wind_tactic, skip_frames }
    }

    /// Height of the camera frame in pixels.
    pub fn get_video_height(&self) -> (r: usize)
        ensures
            r == 360,
    {
        360
    }

    /// Width of the camera frame in pixels.
    pub fn get_video_width(&self) -> (r: usize)
        ensures
            r == 640,
    {
        640
    }

    /// Ticks that pass unseen between two frames.
    pub fn skip_frames(&self) -> (r: u32)
        ensures
            r == self.skipped(),
    {
        self.skip_frames
    }

    /// The converter between the observer's frame of reference and pixels.
    pub fn point_converter(&self) -> (r: PointConverter)
        ensures
            r == self.converter(),
    {
        self.p_c
    }

    /// Performs `1 + skip_ticks` ticks in one go and reports, in order, what
    /// each of them does. On each tick the wind is asked first and the
    /// target second.
    pub fn advance(&mut self, skip_ticks: u32) -> (r: Vec<TickPlan>)
        requires
            old(self).wf(),
        ensures
            final(self).wf(),
            r@ == old(self).plans((1 + skip_ticks) as nat),
            *final(self) == old(self).ticked((1 + skip_ticks) as nat),
            final(self).mover() == move_after(old(self).mover(), (1 + skip_ticks) as nat),
            final(self).wind() == wind_after(old(self).wind(), (1 + skip_ticks) as nat),
            final(self).skipped() == old(self).skipped(),
            final(self).converter() == old(self).converter(),
    {
        let ticks: u64 = 1 + skip_ticks as u64;
        let mut r: Vec<TickPlan> = Vec::new();
        let mut i: u64 = 0;
        while i < ticks
            invariant
                i <= ticks,
                ticks == 1 + skip_ticks,
                self.wf(),
                r@ == old(self).plans(i as nat),
                self.mover() == move_after(old(self).mover(), i as nat),
                self.wind() == wind_after(old(self).wind(), i as nat),
                self.skipped() == old(self).skipped(),
                self.converter() == old(self).converter(),
            decreases ticks - i,
        {
            let gust = self.wind_tactic.get_wind();
            let motion = self.move_tactic.execute_move();
            r.push(TickPlan { gust, motion });
            i = i + 1;
            assert(r@ =~= old(self).plans(i as nat));
        }
        r
    }

    /// Performs the ticks that lead to the next frame: one, and those that
    /// pass unseen.
    pub fn get_next_frame(&mut self) -> (r: Vec<TickPlan>)
        requires
            old(self).wf(),
        ensures
            final(self).wf(),
            r@ == old(self).plans((1 + old(self).skipped()) as nat),
            *final(self) == old(self).ticked((1 + old(self).skipped()) as nat),
            final(self).mover() == move_after(
                old(self).mover(),
                (1 + old(self).skipped()) as nat,
            ),
            final(self).wind() == wind_after(old(self).wind(), (1 + old(self).skipped()) as nat),
            final(self).skipped() == old(self).skipped(),
            final(self).converter() == old(self).converter(),
    {
        let skip: u32 = self.skip_frames;
        self.advance(skip)
    }

    /// The markers that show the trees, one for each point of `trees`, which
    /// holds the trees' places as seen from the observer.
    pub fn draw_background(&self, trees: &Vec<GeometricPoint>) -> (r: Vec<Marker>)
        requires
            self.wf(),
        ensures
            r@ == self.background(trees@),
    {
        let mut r: Vec<Marker> = Vec::new();
        let mut k: usize = 0;
        while k < trees.len()
            invariant
                k <= trees.len(),
                self.wf(),
                r@ == self.background(trees@.subrange(0, k as int)),
            decreases trees.len() - k,
        {
            let center = self.p_c.to_pixel(&trees[k]);
            r.push(Marker { center, radius: TREE_RADIUS, color: Color { blue: 0, green: 255, red: 0 } });
            k = k + 1;
            assert(r@ =~= self.background(trees@.subrange(0, k as int)));
        }
        assert(trees@.subrange(0, k as int) =~= trees@);
        r
    }

    /// The markers that show the hat, which lies at `hat` as seen from the
    /// observer, with its peak `peak_x` to the right and `peak_y` above.
    pub fn draw_hat(&self, hat: &GeometricPoint, peak_x: i32, peak_y: i32) -> (r: Vec<Marker>)
        requires
            self.wf(),
        ensures
            r@ == self.hat_markers(*hat, peak_x, peak_y),
    {
        let base = self.p_c.to_pixel(hat);
        let front = self.p_c.to_pixel(&hat.offset(peak_x, peak_y));
        let red = Color { blue: 0, green: 0, red: 255 };
        let mut r: Vec<Marker> = Vec::new();
        r.push(Marker { center: base, radius: HAT_RADIUS, color: red });
        r.push(Marker { center: front, radius: HAT_RADIUS, color: red });
        r.push(Marker { center: base, radius: CROWN_RADIUS, color: Color { blue: 76, green: 76, red: 205 } });
        assert(r@ =~= self.hat_markers(*hat, peak_x, peak_y));
        r
    }

    /// The markers of a whole frame in the order in which they are painted:
    /// the trees first, the hat over them.
    pub fn render(
        &self,
        trees: &Vec<GeometricPoint>,
        hat: &GeometricPoint,
        peak_x: i32,
        peak_y: i32,
    ) -> (r: Vec<Marker>)
        requires
            self.wf(),
        ensures
            r@ == self.background(trees@) + self.hat_markers(*hat, peak_x, peak_y),
    {
        let mut r = self.draw_background(trees);
        let mut hat_markers = self.draw_hat(hat, peak_x, peak_y);
        r.append(&mut hat_markers);
        r
    }
}

impl VirtualController<StandStill, NoWind> {
    /// In still air a target that stands still leaves the scene at rest:
    /// every tick holds the target, and no tick pushes the observer.
    pub proof fn lemma_scene_at_rest(self, n: nat)
        ensures
            forall|i: int|
                0 <= i < n ==> #[trigger] self.plans(n)[i] == (TickPlan {
                    gust: Gust { blowing: false, redraw: false },
                    motion: Motion::Hold,
                }),
            self.ticked(n) == self,
    {
        assert forall|i: int| 0 <= i < n implies #[trigger] self.plans(n)[i] == (TickPlan {
            gust: Gust { blowing: false, redraw: false },
            motion: Motion::Hold,
        }) by {
            self.mover().lemma_count(i as nat);
            self.wind().lemma_count(i as nat);
        }
        self.mover().lemma_count(n);
        self.wind().lemma_count(n);
    }
}

} // verus!
