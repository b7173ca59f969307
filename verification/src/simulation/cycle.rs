use vstd::prelude::*;

verus! {

/// The position that follows `position` in a cycle of `period` ticks: one
/// further, or back to 0 at the end of the cycle. A cycle of no ticks stays
/// at 0.
pub open spec fn next_position(position: nat, period: nat) -> nat {
    if position + 1 >= period {
        0
    } else {
        position + 1
    }
}

/// The position reached from `position` after `n` ticks.
pub open spec fn position_after(position: nat, period: nat, n: nat) -> nat
    decreases n,
{
    if n == 0 {
        position
    } else {
        next_position(position_after(position, period, (n - 1) as nat), period)
    }
}

/// How many of the `n` ticks that start at `position` fall into the leading
/// phase of the cycle, that is on a position below `lead`.
pub open spec fn lead_ticks(position: nat, period: nat, lead: nat, n: nat) -> nat
    decreases n,
{
    if n == 0 {
        0
    } else {
        let before = lead_ticks(position, period, lead, (n - 1) as nat);
        if position_after(position, period, (n - 1) as nat) < lead {
            before + 1
        } else {
            before
        }
    }
}

/// How many of the numbers `0, 1, .., x - 1` leave a remainder below `lead`
/// when divided by `period`.
pub open spec fn lead_below(x: nat, period: nat, lead: nat) -> nat
    recommends
        period > 0,
        lead <= period,
{
    let rest = x % period;
    (x / period) * lead + if rest < lead {
        rest
    } else {
        lead
    }
}

proof fn lemma_step_div_mod(x: nat, d: nat)
    requires
        d > 0,
    ensures
        x % d + 1 < d ==> (x + 1) % d == x % d + 1 && (x + 1) / d == x / d,
        x % d + 1 >= d ==> (x + 1) % d == 0 && (x + 1) / d == x / d + 1,
{
    let q = x / d;
    let r = x % d;
    assert(x == q * d + r && 0 <= r < d) by (nonlinear_arith)
        requires
            d > 0,
            q == x / d,
            r == x % d,
    ;
    if r + 1 < d {
        assert(x + 1 == q * d + (r + 1));
        vstd::arithmetic::div_mod::lemma_fundamental_div_mod_converse(
            (x + 1) as int,
            d as int,
            q as int,
            (r + 1) as int,
        );
    } else {
        assert(x + 1 == (q + 1) * d + 0) by (nonlinear_arith)
            requires
                x == q * d + r,
                r + 1 == d,
        ;
        vstd::arithmetic::div_mod::lemma_fundamental_div_mod_converse(
            (x + 1) as int,
            d as int,
            (q + 1) as int,
            0,
        );
    }
}

/// Ticking through a cycle is counting modulo its period.
pub proof fn lemma_position_after(position: nat, period: nat, n: nat)
    requires
        position < period,
    ensures
        position_after(position, period, n) == (position + n) % period,
        position_after(position, period, n) < period,
    decreases n,
{
    if n == 0 {
        vstd::arithmetic::div_mod::lemma_small_mod(position, period);
    } else {
        lemma_position_after(position, period, (n - 1) as nat);
        lemma_step_div_mod((position + n - 1) as nat, period);
    }
}

/// The ticks of the leading phase among `n` ticks, in closed form.
pub proof fn lemma_lead_ticks(position: nat, period: nat, lead: nat, n: nat)
    requires
        position < period,
        lead <= period,
    ensures
        lead_ticks(position, period, lead, n) + lead_below(position, period, lead) == lead_below(
            position + n,
            period,
            lead,
        ),
    decreases n,
{
    if n > 0 {
        let x = (position + n - 1) as nat;
        lemma_lead_ticks(position, period, lead, (n - 1) as nat);
        lemma_position_after(position, period, (n - 1) as nat);
        lemma_step_div_mod(x, period);
        let q = x / period;
        assert((q + 1) * lead == q * lead + lead) by (nonlinear_arith);
    }
}

/// One full cycle leads back to the position it started from, and exactly
/// `lead` of its ticks fall into the leading phase, wherever it starts.
pub proof fn lemma_full_cycle(position: nat, period: nat, lead: nat)
    requires
        position < period,
        lead <= period,
    ensures
        position_after(position, period, period) == position,
        lead_ticks(position, period, lead, period) == lead,
{
    lemma_position_after(position, period, period);
    lemma_lead_ticks(position, period, lead, period);
    vstd::arithmetic::div_mod::lemma_small_mod(position, period);
    vstd::arithmetic::div_mod::lemma_mod_add_multiples_vanish(position as int, period as int);
    vstd::arithmetic::div_mod::lemma_basic_div(position as int, period as int);
    vstd::arithmetic::div_mod::lemma_fundamental_div_mod_converse(
        (position + period) as int,
        period as int,
        1,
        position as int,
    );
    assert((position + period) / period == 1);
    assert(position / period == 0);
    assert(1 * lead == lead && 0 * lead == 0) by (nonlinear_arith);
}

/// The timing of a cycle of two phases: `lead` ticks of a leading phase,
/// then `trail` ticks of a trailing one, and `position` ticks passed since
/// the cycle began.
pub(crate) struct TwoPhase {
    pub(crate) lead: usize,
    pub(crate) trail: usize,
    pub(crate) position: usize,
}

impl TwoPhase {
    /// Length of one full cycle, in ticks.
    pub(crate) open spec fn period(self) -> nat {
        (self.lead + self.trail) as nat
    }

    /// The cycle can be counted, and the position lies in it.
    pub(crate) open spec fn wf(self) -> bool {
        &&& self.period() <= usize::MAX
        &&& self.position < self.period() || self.position == 0
    }

    /// The next tick falls into the leading phase.
    pub(crate) open spec fn leads(self) -> bool {
        self.position < self.lead
    }

    /// The next tick ends the cycle.
    pub(crate) open spec fn wraps(self) -> bool {
        self.position + 1 >= self.period()
    }

    /// The timing once the next tick has passed.
    pub(crate) open spec fn next(self) -> TwoPhase {
        TwoPhase {
            lead: self.lead,
            trail: self.trail,
            position: next_position(self.position as nat, self.period()) as usize,
        }
    }

    /// A cycle at its start.
    pub(crate) fn new(lead: usize, trail: usize) -> (r: TwoPhase)
        requires
            lead + trail <= usize::MAX,
        ensures
            r.wf(),
            r == (TwoPhase { lead, trail, position: 0 }),
    {
        TwoPhase { lead, trail, position: 0 }
    }

    /// Performs one tick and says whether it fell into the leading phase
    /// and whether it ended the cycle.
    pub(crate) fn tick(&mut self) -> (r: (bool, bool))
        requires
            old(self).wf(),
        ensures
            final(self).wf(),
            *final(self) == old(self).next(),
            r == (old(self).leads(), old(self).wraps()),
    {
        let leads = self.position < self.lead;
        let wraps = self.position + 1 >= self.lead + self.trail;
        if wraps {
            self.position = 0;
        } else {
            self.position = self.position + 1;
        }
        (leads, wraps)
    }
}

} // verus!
