//! One stem-cell niche, as far as its state is discrete: its stage, its
//! inducer ledger, its active phenotypes and whether it lives. A step
//! takes what the damage of the niche showed and decides the rest.

use vstd::prelude::*;
use rand::rngs::StdRng;
use crate::aging::{active_phenotypes, active_under, AgingPhenotype, PhenotypeSignals};
use crate::components::CentriolarInducers;
use crate::development::{update_stage, HumanDevelopmentalStage};
use crate::inducers::settle_inducer_draw;
use crate::random::{falls_below, next_draw, DRAW_RANGE};
use crate::tissues::HumanTissueType;

verus! {

/// The discrete state of a niche.
#[derive(Debug, Clone)]
pub struct NicheState {
    /// Stage of development by age.
    pub stage: HumanDevelopmentalStage,
    /// Anatomical tissue of the niche.
    pub tissue_type: HumanTissueType,
    /// Stock of S and H inducers.
    pub inducers: CentriolarInducers,
    /// Aging phenotypes that are active, in report order.
    pub active_phenotypes: Vec<AgingPhenotype>,
    /// Cleared at death and never set again.
    pub is_alive: bool,
}

/// A niche state with its list of phenotypes as a sequence.
pub struct NicheModel {
    pub stage: HumanDevelopmentalStage,
    pub tissue_type: HumanTissueType,
    pub inducers: CentriolarInducers,
    pub active_phenotypes: Seq<AgingPhenotype>,
    pub is_alive: bool,
}

impl View for NicheState {
    type V = NicheModel;

    open spec fn view(&self) -> NicheModel {
        NicheModel {
            stage: self.stage,
            tissue_type: self.tissue_type,
            inducers: self.inducers,
            active_phenotypes: self.active_phenotypes@,
            is_alive: self.is_alive,
        }
    }
}

/// What one step measured on a niche that was alive at its start.
#[derive(Debug, Clone, Copy, PartialEq, Eq, Structural)]
pub struct StepReading {
    /// Whole days of age that the niche has reached.
    pub age_days: u64,
    /// Pool exhaustion events expected in the step, in parts in 2^24.
    pub expected_events: u32,
    /// Thresholds that the damage has crossed.
    pub signals: PhenotypeSignals,
    /// The centriole is senescent.
    pub is_senescent: bool,
    /// The frailty of the tissue has reached the fatal level.
    pub frailty_critical: bool,
}

impl NicheModel {
    /// The niche that a step with `reading` and `draw` makes of this
    /// one. A dead niche stays as it is. A living one takes the stage of
    /// its age where morphogenesis is on; where aging is on it releases
    /// an inducer if the draw falls below the expected number of
    /// exhaustion events, lists its phenotypes anew, and dies where its
    /// centriole is senescent or its frailty fatal.
    pub open spec fn after_step(
        self,
        reading: StepReading,
        draw: u32,
        enable_morphogenesis: bool,
        enable_aging: bool,
    ) -> NicheModel {
        if !self.is_alive {
            self
        } else {
            NicheModel {
                stage: if enable_morphogenesis {
                    HumanDevelopmentalStage::on_day(reading.age_days as nat)
                } else {
                    self.stage
                },
                tissue_type: self.tissue_type,
                inducers: if enable_aging {
                    self.inducers.after_draw(draw, reading.expected_events)
                } else {
                    self.inducers
                },
                active_phenotypes: if enable_aging {
                    active_under(reading.signals)
                } else {
                    self.active_phenotypes
                },
                is_alive: !(enable_aging && (reading.is_senescent || reading.frailty_critical)),
            }
        }
    }
}

/// The tissues that niches are given in turn when a population is set
/// up.
pub open spec fn tissue_cycle() -> Seq<HumanTissueType> {
    seq![
        HumanTissueType::Neural,
        HumanTissueType::Blood,
        HumanTissueType::Epithelial,
        HumanTissueType::Muscle,
        HumanTissueType::Skin,
    ]
}

/// The tissue of the niche at place `index` of a population: the
/// tissues of the cycle in turn, starting over after the last.
pub fn assigned_tissue(index: usize) -> (tissue: HumanTissueType)
    ensures
        tissue == tissue_cycle()[(index % 5) as int],
{
    let turn: usize = index % 5;
    if turn == 0 {
        HumanTissueType::Neural
    } else if turn == 1 {
        HumanTissueType::Blood
    } else if turn == 2 {
        HumanTissueType::Epithelial
    } else if turn == 3 {
        HumanTissueType::Muscle
    } else {
        HumanTissueType::Skin
    }
}

impl NicheState {
    /// A living niche of a zygote in the given tissue: fifty somatic and
    /// four germline inducers, no phenotype active.
    pub fn for_tissue(tissue_type: HumanTissueType) -> (niche: NicheState)
        ensures
            niche@ == (NicheModel {
                stage: HumanDevelopmentalStage::Zygote,
                tissue_type,
                inducers: CentriolarInducers::fresh(50, 4),
                active_phenotypes: Seq::empty(),
                is_alive: true,
            }),
    {
        NicheState {
            stage: HumanDevelopmentalStage::Zygote,
            tissue_type,
            inducers: CentriolarInducers::zygote(50, 4),
            active_phenotypes: Vec::new(),
            is_alive: true,
        }
    }

    /// Takes the niche through one step in which `draw` was drawn.
    /// Returns the stage that the niche entered in this step, if it
    /// entered one.
    pub fn step_with_draw(
        &mut self,
        reading: &StepReading,
        draw: u32,
        enable_morphogenesis: bool,
        enable_aging: bool,
    ) -> (entered: Option<HumanDevelopmentalStage>)
        requires
            old(self).is_alive && enable_aging && falls_below(draw, reading.expected_events) && old(
                self,
            ).inducers.s_count > 0 ==> old(self).inducers.differentiation_divisions < u32::MAX,
        ensures
            final(self)@ == old(self)@.after_step(
                *reading,
                draw,
                enable_morphogenesis,
                enable_aging,
            ),
            entered == if final(self).stage == old(self).stage {
                None
            } else {
                Some(final(self).stage)
            },
            final(self).is_alive ==> old(self).is_alive,
            final(self).inducers.s_count <= old(self).inducers.s_count,
    {
        if !self.is_alive {
            return None;
        }
        let mut entered: Option<HumanDevelopmentalStage> = None;
        if enable_morphogenesis {
            entered = update_stage(self.stage, reading.age_days);
            if let Some(stage) = entered {
                self.stage = stage;
            }
        }
        if enable_aging {
            settle_inducer_draw(&mut self.inducers, draw, reading.expected_events);
            self.active_phenotypes = active_phenotypes(&reading.signals);
            if reading.is_senescent || reading.frailty_critical {
                self.is_alive = false;
            }
        }
        entered
    }

    /// Takes the niche through one step. A living niche that ages and
    /// has a somatic inducer left draws once from `rng`; no other niche
    /// draws. Returns the stage that the niche entered in this step, if
    /// it entered one.
    ///
    /// The niche is left as some draw leaves it. Where the draw cannot
    /// matter, the outcome is that of any draw: for a dead niche, without
    /// aging, with no inducer left, with no event expected, or with at
    /// least one whole event expected.
    pub fn step(
        &mut self,
        reading: &StepReading,
        enable_morphogenesis: bool,
        enable_aging: bool,
        rng: &mut StdRng,
    ) -> (entered: Option<HumanDevelopmentalStage>)
        requires
            old(self).is_alive && enable_aging && reading.expected_events > 0 && old(
                self,
            ).inducers.s_count > 0 ==> old(self).inducers.differentiation_divisions < u32::MAX,
        ensures
            exists|draw: u32|
                final(self)@ == old(self)@.after_step(
                    *reading,
                    draw,
                    enable_morphogenesis,
                    enable_aging,
                ),
            !old(self).is_alive || !enable_aging || old(self).inducers.s_count == 0
                || reading.expected_events == 0 || reading.expected_events >= DRAW_RANGE
                ==> forall|draw: u32|
                final(self)@ == old(self)@.after_step(
                    *reading,
                    draw,
                    enable_morphogenesis,
                    enable_aging,
                ),
            entered == if final(self).stage == old(self).stage {
                None
            } else {
                Some(final(self).stage)
            },
            final(self).is_alive ==> old(self).is_alive,
            final(self).inducers.s_count <= old(self).inducers.s_count,
    {
        let draws = self.is_alive && enable_aging && !self.inducers.is_terminally_differentiated();
        let draw: u32 = if draws {
            next_draw(rng)
        } else {
            0
        };
        self.step_with_draw(reading, draw, enable_morphogenesis, enable_aging)
    }
}

/// `next` is what one step makes of `prev`.
pub open spec fn niche_step(prev: NicheModel, next: NicheModel) -> bool {
    exists|reading: StepReading, draw: u32, enable_morphogenesis: bool, enable_aging: bool|
        next == prev.after_step(reading, draw, enable_morphogenesis, enable_aging)
}

/// Every state of `history` but the first comes from the one before it
/// by one step.
pub open spec fn niche_history(history: Seq<NicheModel>) -> bool {
    forall|k: int| 0 < k < history.len() ==> niche_step(#[trigger] history[k - 1], history[k])
}

/// Over the steps of a niche its tissue stays the same, its stock of
/// somatic inducers never grows, and a niche that is dead stays dead
/// and unchanged.
pub proof fn lemma_niche_history(history: Seq<NicheModel>, i: int, j: int)
    requires
        niche_history(history),
        0 <= i <= j < history.len(),
    ensures
        history[j].tissue_type == history[i].tissue_type,
        history[j].inducers.s_count <= history[i].inducers.s_count,
        history[j].inducers.s_max == history[i].inducers.s_max,
        history[j].is_alive ==> history[i].is_alive,
        !history[i].is_alive ==> history[j] == history[i],
    decreases j - i,
{
    if i < j {
        lemma_niche_history(history, i, j - 1);
        assert(niche_step(history[j - 1], history[j]));
    }
}

/// With morphogenesis on, a step at a later age never moves a niche to
/// an earlier stage than a step at an earlier age did.
pub proof fn lemma_stage_follows_age(
    before: NicheModel,
    first: StepReading,
    second: StepReading,
    first_draw: u32,
    second_draw: u32,
    enable_aging: bool,
)
    requires
        first.age_days <= second.age_days,
        before.is_alive,
    ensures
        before.after_step(first, first_draw, true, enable_aging).stage.rank() <= before.after_step(
            first,
            first_draw,
            true,
            enable_aging,
        ).after_step(second, second_draw, true, enable_aging).stage.rank(),
{
}

} // verus!
