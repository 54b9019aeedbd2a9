//! Potency levels and division outcomes read off the S/H inducer ledger.

use vstd::prelude::*;
use rand::rngs::StdRng;
use crate::components::CentriolarInducers;
use crate::random::{draw_falls_below, falls_below, next_draw, DRAW_RANGE, EVEN_CHANCE};

verus! {

/// Potency of a niche, by the share of somatic inducers it has left.
#[derive(Debug, Clone, Copy, PartialEq, Eq, Structural)]
pub enum MorphogeneticLevel {
    /// The whole stock is left.
    Null,
    /// More than three quarters are left.
    Pluripotent,
    /// More than half is left.
    Multipotent,
    /// More than a quarter is left.
    Oligopotent,
    /// At least one inducer is left.
    Unipotent,
    /// None is left, or there never was a stock.
    Terminal,
}

/// What one division of a stem cell produced.
#[derive(Debug, Clone, Copy, PartialEq, Eq, Structural)]
pub enum DivisionOutcome {
    /// One daughter stays a stem cell, the other released an inducer.
    Asymmetric {
        stem_daughter: CentriolarInducers,
        differentiating_daughter: CentriolarInducers,
    },
    /// Both daughters differentiate: the pool shrinks.
    SymmetricDifferentiation,
    /// Both daughters stay stem cells: the pool grows.
    SymmetricSelfRenewal,
    /// No somatic inducer was left: the cell leaves the cycle.
    TerminalDifferentiation,
}

/// The level for `s_count` inducers left out of `s_max`, by the exact
/// ratio of the two: the whole stock, then the open quarters above it.
pub open spec fn level_of(s_count: nat, s_max: nat) -> MorphogeneticLevel {
    if s_max == 0 {
        MorphogeneticLevel::Terminal
    } else if s_count >= s_max {
        MorphogeneticLevel::Null
    } else if 4 * s_count > 3 * s_max {
        MorphogeneticLevel::Pluripotent
    } else if 2 * s_count > s_max {
        MorphogeneticLevel::Multipotent
    } else if 4 * s_count > s_max {
        MorphogeneticLevel::Oligopotent
    } else if s_count > 0 {
        MorphogeneticLevel::Unipotent
    } else {
        MorphogeneticLevel::Terminal
    }
}

impl CentriolarInducers {
    /// The potency level of the ledger.
    pub open spec fn level(self) -> MorphogeneticLevel {
        level_of(self.s_count as nat, self.s_max as nat)
    }

    /// The ledger with one more division recorded and the counts as
    /// they were.
    pub open spec fn after_division(self) -> CentriolarInducers {
        CentriolarInducers {
            differentiation_divisions: (self.differentiation_divisions + 1) as u32,
            ..self
        }
    }

    /// Outcome of a division of the cell that holds this ledger. A
    /// faithful spindle gives an asymmetric division while a somatic
    /// inducer is left and a terminal one after; an unfaithful spindle
    /// gives a symmetric division, which is a differentiation where the
    /// draw falls below one half and a self-renewal otherwise.
    pub open spec fn division_outcome(self, spindle_ok: bool, rng_val: u32) -> DivisionOutcome {
        if spindle_ok {
            if self.s_count > 0 {
                DivisionOutcome::Asymmetric {
                    stem_daughter: self.after_division(),
                    differentiating_daughter: self.after_division().after_s_release(),
                }
            } else {
                DivisionOutcome::TerminalDifferentiation
            }
        } else if falls_below(rng_val, EVEN_CHANCE) {
            DivisionOutcome::SymmetricDifferentiation
        } else {
            DivisionOutcome::SymmetricSelfRenewal
        }
    }

    /// Potency level by the share of somatic inducers left.
    pub fn morphogenetic_level(&self) -> (level: MorphogeneticLevel)
        ensures
            level == self.level(),
    {
        let left: u64 = self.s_count as u64;
        let stock: u64 = self.s_max as u64;
        if stock == 0 {
            MorphogeneticLevel::Terminal
        } else if left >= stock {
            MorphogeneticLevel::Null
        } else if 4 * left > 3 * stock {
            MorphogeneticLevel::Pluripotent
        } else if 2 * left > stock {
            MorphogeneticLevel::Multipotent
        } else if 4 * left > stock {
            MorphogeneticLevel::Oligopotent
        } else if left > 0 {
            MorphogeneticLevel::Unipotent
        } else {
            MorphogeneticLevel::Terminal
        }
    }

    /// Divides the cell once. The division is recorded in this ledger,
    /// which stays with the stem daughter; its counts do not change.
    /// `spindle_ok` says whether the spindle was faithful; `rng_val` is
    /// the draw that decides between the two symmetric divisions.
    pub fn asymmetric_divide(&mut self, spindle_ok: bool, rng_val: u32) -> (outcome: DivisionOutcome)
        requires
            old(self).differentiation_divisions < u32::MAX,
            spindle_ok && old(self).s_count > 0 ==> old(self).differentiation_divisions < u32::MAX - 1,
        ensures
            *final(self) == old(self).after_division(),
            outcome == old(self).division_outcome(spindle_ok, rng_val),
            final(self).s_count == old(self).s_count,
            old(self).wf() ==> final(self).wf(),
    {
        self.differentiation_divisions += 1;
        if spindle_ok {
            if self.s_count > 0 {
                let stem_daughter = *self;
                let mut differentiating_daughter = *self;
                differentiating_daughter.consume_s_inducer();
                DivisionOutcome::Asymmetric { stem_daughter, differentiating_daughter }
            } else {
                DivisionOutcome::TerminalDifferentiation
            }
        } else if draw_falls_below(rng_val, EVEN_CHANCE) {
            DivisionOutcome::SymmetricDifferentiation
        } else {
            DivisionOutcome::SymmetricSelfRenewal
        }
    }

    /// The ledger after a step in which `draw` was drawn while
    /// `expected_events` pool exhaustion events were expected, in parts
    /// in 2^24: one somatic inducer released where the draw falls below
    /// the expectation, if any is left.
    pub open spec fn after_draw(self, draw: u32, expected_events: u32) -> CentriolarInducers {
        if falls_below(draw, expected_events) {
            self.after_s_release()
        } else {
            self
        }
    }
}

/// Settles the draw of one step on the ledger of a niche: where the
/// draw falls below the expected number of pool exhaustion events, one
/// somatic inducer is released, if any is left.
pub fn settle_inducer_draw(inducers: &mut CentriolarInducers, draw: u32, expected_events: u32)
    requires
        falls_below(draw, expected_events) && old(inducers).s_count > 0 ==> old(
            inducers,
        ).differentiation_divisions < u32::MAX,
    ensures
        *final(inducers) == old(inducers).after_draw(draw, expected_events),
        final(inducers).s_count <= old(inducers).s_count,
{
    if draw_falls_below(draw, expected_events) {
        inducers.consume_s_inducer();
    }
}

/// One step of the ledger in a niche, with `expected_events` pool
/// exhaustion events expected in the step, in parts in 2^24. An
/// exhausted ledger draws nothing and stays as it is. Any other draws
/// once from `rng` and releases one somatic inducer where the draw falls
/// below the expectation: never where none is expected, always where at
/// least one whole event is.
pub fn update_inducer_system(
    inducers: &mut CentriolarInducers,
    expected_events: u32,
    rng: &mut StdRng,
)
    requires
        expected_events > 0 && old(inducers).s_count > 0 ==> old(
            inducers,
        ).differentiation_divisions < u32::MAX,
    ensures
        exists|draw: u32| *final(inducers) == old(inducers).after_draw(draw, expected_events),
        expected_events == 0 ==> *final(inducers) == *old(inducers),
        expected_events >= DRAW_RANGE ==> *final(inducers) == old(inducers).after_s_release(),
        final(inducers).s_count <= old(inducers).s_count,
        old(inducers).wf() ==> final(inducers).wf(),
{
    if inducers.is_terminally_differentiated() {
        assert(*inducers == inducers.after_draw(0, expected_events));
        return ;
    }
    let draw = next_draw(rng);
    settle_inducer_draw(inducers, draw, expected_events);
}

/// `next` is what one operation of the ledger makes of `prev`.
pub open spec fn ledger_step(prev: CentriolarInducers, next: CentriolarInducers) -> bool {
    ||| next == prev
    ||| next == prev.after_s_release()
    ||| next == prev.after_h_release()
    ||| next == prev.after_division()
}

/// Every state of `history` but the first comes from the one before it
/// by one operation of the ledger.
pub open spec fn ledger_history(history: Seq<CentriolarInducers>) -> bool {
    forall|k: int| 0 < k < history.len() ==> ledger_step(#[trigger] history[k - 1], history[k])
}

/// Along any history of a ledger the somatic and the germline count
/// never grow, the stocks it started with stay what they were, and a ledger
/// that was well formed stays so.
pub proof fn lemma_counts_never_grow(history: Seq<CentriolarInducers>, i: int, j: int)
    requires
        ledger_history(history),
        0 <= i <= j < history.len(),
    ensures
        history[j].s_count <= history[i].s_count,
        history[j].h_count <= history[i].h_count,
        history[j].s_max == history[i].s_max,
        history[j].h_max == history[i].h_max,
        history[i].wf() ==> history[j].wf(),
    decreases j - i,
{
    if i < j {
        lemma_counts_never_grow(history, i, j - 1);
        assert(ledger_step(history[j - 1], history[j]));
    }
}

/// Once the somatic stock is exhausted it stays exhausted, whatever is
/// done with the ledger afterwards.
pub proof fn lemma_exhaustion_is_final(history: Seq<CentriolarInducers>, i: int, j: int)
    requires
        ledger_history(history),
        0 <= i <= j < history.len(),
        history[i].s_count == 0,
    ensures
        history[j].s_count == 0,
{
    lemma_counts_never_grow(history, i, j);
}

/// The ledger of a zygote is at the null level, provided that it has a
/// stock of somatic inducers at all.
pub proof fn lemma_fresh_ledger_is_null(s_max: u32, h_max: u32)
    requires
        s_max > 0,
    ensures
        CentriolarInducers::fresh(s_max, h_max).level() == MorphogeneticLevel::Null,
{
}

/// A ledger without a somatic inducer left is terminal, and so is one
/// that never had a stock; with a stock, only a ledger without an
/// inducer left is terminal.
pub proof fn lemma_spent_ledger_is_terminal(ledger: CentriolarInducers)
    ensures
        ledger.s_count == 0 || ledger.s_max == 0 ==> ledger.level() == MorphogeneticLevel::Terminal,
        ledger.s_max > 0 && ledger.level() == MorphogeneticLevel::Terminal ==> ledger.s_count == 0,
{
}

/// Rank of a level, from the null level (0) down to the terminal one (5).
pub open spec fn level_rank(level: MorphogeneticLevel) -> nat {
    match level {
        MorphogeneticLevel::Null => 0,
        MorphogeneticLevel::Pluripotent => 1,
        MorphogeneticLevel::Multipotent => 2,
        MorphogeneticLevel::Oligopotent => 3,
        MorphogeneticLevel::Unipotent => 4,
        MorphogeneticLevel::Terminal => 5,
    }
}

/// With a stock that stays the same, fewer inducers left never give a
/// higher potency.
pub proof fn lemma_level_falls_with_count(fewer: nat, more: nat, s_max: nat)
    requires
        fewer <= more,
    ensures
        level_rank(level_of(more, s_max)) <= level_rank(level_of(fewer, s_max)),
{
}

} // verus!
