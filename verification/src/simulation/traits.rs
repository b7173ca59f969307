use vstd::prelude::*;

verus! {

/// What one simulated tick does to the target's pose.
#[derive(Clone, Copy, Debug, PartialEq, Eq, Structural)]
pub enum Motion {
    /// The pose stays as it is.
    Hold,
    /// The position shifts by the tactic's fixed per-tick offset; the heading
    /// is kept.
    Drift,
    /// The position moves along the current heading by the tactic's speed;
    /// the heading is kept.
    Forward,
    /// The heading rotates by the tactic's per-tick angle; the position is
    /// kept.
    Turn,
}

/// A rule that decides, tick by tick, how the target moves.
///
/// The rule owns only its timing. The caller owns the pose and applies each
/// `Motion` with the real-valued parameters of the tactic.
pub trait MoveTactic: Sized {
    /// The states that construction and ticking can produce.
    spec fn wf(&self) -> bool;

    /// The motion of the next tick.
    spec fn motion(&self) -> Motion;

    /// The tactic as it is once the next tick has passed.
    spec fn after(&self) -> Self;

    /// Performs one tick: reports its motion and advances the timing.
    fn execute_move(&mut self) -> (m: Motion)
        requires
            old(self).wf(),
        ensures
            final(self).wf(),
            m == old(self).motion(),
            *final(self) == old(self).after(),
    ;
}

/// The tactic `m` after `n` ticks.
pub open spec fn move_after<M: MoveTactic>(m: M, n: nat) -> M
    decreases n,
{
    if n == 0 {
        m
    } else {
        move_after(m, (n - 1) as nat).after()
    }
}

/// How many of the first `n` ticks of `m` have the motion `which`.
pub open spec fn count_motion<M: MoveTactic>(m: M, n: nat, which: Motion) -> nat
    decreases n,
{
    if n == 0 {
        0
    } else {
        let before = count_motion(m, (n - 1) as nat, which);
        if move_after(m, (n - 1) as nat).motion() == which {
            before + 1
        } else {
            before
        }
    }
}

/// Ticking `a + b` times is ticking `a` times and then `b` times, and the
/// motions of the two stretches add up.
pub proof fn lemma_move_split<M: MoveTactic>(m: M, a: nat, b: nat, which: Motion)
    ensures
        move_after(m, a + b) == move_after(move_after(m, a), b),
        count_motion(m, a + b, which) == count_motion(m, a, which) + count_motion(
            move_after(m, a),
            b,
            which,
        ),
    decreases b,
{
    if b > 0 {
        lemma_move_split(m, a, (b - 1) as nat, which);
        assert(a + b - 1 == a + (b - 1) as nat);
    }
}

/// What one simulated tick does with the wind.
#[derive(Clone, Copy, Debug, PartialEq, Eq, Structural)]
pub struct Gust {
    /// The tactic's current wind vector pushes the observer on this tick;
    /// otherwise the air is calm.
    pub blowing: bool,
    /// This tick ends a cycle: once it is over, the tactic's wind vector has
    /// to be drawn afresh for the cycle to come.
    pub redraw: bool,
}

/// A rule that decides, tick by tick, whether the wind pushes the observer.
///
/// The rule owns only its timing. The caller owns the wind vector, applies it
/// on the ticks that blow, and replaces it when a `Gust` asks for that.
pub trait WindTactic: Sized {
    /// The states that construction and ticking can produce.
    spec fn wf(&self) -> bool;

    /// The wind of the next tick.
    spec fn gust(&self) -> Gust;

    /// The tactic as it is once the next tick has passed.
    spec fn after(&self) -> Self;

    /// Performs one tick: reports its wind and advances the timing.
    fn get_wind(&mut self) -> (g: Gust)
        requires
            old(self).wf(),
        ensures
            final(self).wf(),
            g == old(self).gust(),
            *final(self) == old(self).after(),
    ;
}

/// The tactic `w` after `n` ticks.
pub open spec fn wind_after<W: WindTactic>(w: W, n: nat) -> W
    decreases n,
{
    if n == 0 {
        w
    } else {
        wind_after(w, (n - 1) as nat).after()
    }
}

/// How many of the first `n` ticks of `w` blow.
pub open spec fn count_blowing<W: WindTactic>(w: W, n: nat) -> nat
    decreases n,
{
    if n == 0 {
        0
    } else {
        let before = count_blowing(w, (n - 1) as nat);
        if wind_after(w, (n - 1) as nat).gust().blowing {
            before + 1
        } else {
            before
        }
    }
}

/// How many of the first `n` ticks of `w` ask for a fresh wind vector.
pub open spec fn count_redraws<W: WindTactic>(w: W, n: nat) -> nat
    decreases n,
{
    if n == 0 {
        0
    } else {
        let before = count_redraws(w, (n - 1) as nat);
        if wind_after(w, (n - 1) as nat).gust().redraw {
            before + 1
        } else {
            before
        }
    }
}

/// Ticking `a + b` times is ticking `a` times and then `b` times, and the
/// gusts of the two stretches add up.
pub proof fn lemma_wind_split<W: WindTactic>(w: W, a: nat, b: nat)
    ensures
        wind_after(w, a + b) == wind_after(wind_after(w, a), b),
        count_blowing(w, a + b) == count_blowing(w, a) + count_blowing(wind_after(w, a), b),
        count_redraws(w, a + b) == count_redraws(w, a) + count_redraws(wind_after(w, a), b),
    decreases b,
{
    if b > 0 {
        lemma_wind_split(w, a, (b - 1) as nat);
        assert(a + b - 1 == a + (b - 1) as nat);
    }
}

} // verus!
