//! The organism's stage of life and its two ways to die: reaching the
//! maximal lifespan, or a frailty beyond the fatal threshold. Death is
//! final.

use vstd::prelude::*;
use crate::components::DevelopmentalStage;
use crate::development::{stage_at, stage_for_age};

verus! {

/// Stage of life of an organism and whether it lives.
#[derive(Debug, Clone, Copy, PartialEq, Eq, Structural)]
pub struct OrganismStatus {
    /// Stage of life by age, `Death` once the organism has died.
    pub developmental_stage: DevelopmentalStage,
    /// Cleared at death and never set again.
    pub is_alive: bool,
}

impl OrganismStatus {
    /// The status of an organism that has died.
    pub open spec fn deceased() -> OrganismStatus {
        OrganismStatus { developmental_stage: DevelopmentalStage::Death, is_alive: false }
    }

    /// The status after the organism aged to `age_ticks` sixteenths of
    /// a day, where `lifespan_reached` says that its age is no longer
    /// below the maximal lifespan. A dead organism stays as it is.
    pub open spec fn after_advance(self, age_ticks: u64, lifespan_reached: bool) -> OrganismStatus {
        if !self.is_alive {
            self
        } else if lifespan_reached {
            Self::deceased()
        } else {
            OrganismStatus { developmental_stage: stage_at(age_ticks as nat), is_alive: true }
        }
    }

    /// The status after the tissues were read, where `frailty_fatal`
    /// says that the frailty index is no longer below the fatal
    /// threshold. A dead organism stays as it is.
    pub open spec fn after_frailty(self, frailty_fatal: bool) -> OrganismStatus {
        if self.is_alive && frailty_fatal {
            Self::deceased()
        } else {
            self
        }
    }

    /// A living zygote.
    pub fn new() -> (status: OrganismStatus)
        ensures
            status == (OrganismStatus {
                developmental_stage: DevelopmentalStage::Zygote,
                is_alive: true,
            }),
    {
        OrganismStatus { developmental_stage: DevelopmentalStage::Zygote, is_alive: true }
    }

    /// Moves a living organism to the stage of its new age of
    /// `age_ticks` sixteenths of a day, or to death where the maximal
    /// lifespan is reached. Returns whether the
    /// organism was alive to age at all.
    pub fn advance(&mut self, age_ticks: u64, lifespan_reached: bool) -> (aged: bool)
        ensures
            aged == old(self).is_alive,
            *final(self) == old(self).after_advance(age_ticks, lifespan_reached),
            final(self).is_alive ==> old(self).is_alive,
    {
        if !self.is_alive {
            return false;
        }
        self.developmental_stage = stage_for_age(age_ticks);
        if lifespan_reached {
            self.is_alive = false;
            self.developmental_stage = DevelopmentalStage::Death;
        }
        true
    }

    /// Lets a living organism die of frailty where the threshold is
    /// reached. Returns whether the organism was alive to be measured.
    pub fn integrate_frailty(&mut self, frailty_fatal: bool) -> (measured: bool)
        ensures
            measured == old(self).is_alive,
            *final(self) == old(self).after_frailty(frailty_fatal),
            final(self).is_alive ==> old(self).is_alive,
    {
        if !self.is_alive {
            return false;
        }
        if frailty_fatal {
            self.is_alive = false;
            self.developmental_stage = DevelopmentalStage::Death;
        }
        true
    }
}

impl Default for OrganismStatus {
    fn default() -> (status: OrganismStatus)
        ensures
            status == (OrganismStatus {
                developmental_stage: DevelopmentalStage::Zygote,
                is_alive: true,
            }),
    {
        OrganismStatus::new()
    }
}

/// `next` is what one update of the organism makes of `prev`.
pub open spec fn organism_step(prev: OrganismStatus, next: OrganismStatus) -> bool {
    ||| exists|age_ticks: u64, lifespan_reached: bool|
        next == prev.after_advance(age_ticks, lifespan_reached)
    ||| exists|frailty_fatal: bool| next == prev.after_frailty(frailty_fatal)
}

/// Every status of `history` but the first comes from the one before it
/// by one update of the organism.
pub open spec fn organism_history(history: Seq<OrganismStatus>) -> bool {
    forall|k: int| 0 < k < history.len() ==> organism_step(#[trigger] history[k - 1], history[k])
}

/// Reaching the maximal lifespan kills, at whatever stage, and so does a
/// fatal frailty; a dead organism is changed by neither update.
pub proof fn lemma_death_triggers(
    status: OrganismStatus,
    age_ticks: u64,
    lifespan_reached: bool,
    frailty_fatal: bool,
)
    ensures
        status.is_alive ==> status.after_advance(age_ticks, true) == OrganismStatus::deceased(),
        status.is_alive ==> status.after_frailty(true) == OrganismStatus::deceased(),
        !status.is_alive ==> status.after_advance(age_ticks, lifespan_reached) == status,
        !status.is_alive ==> status.after_frailty(frailty_fatal) == status,
{
}

/// A living organism is never in the stage of death, as long as it
/// started so: the stage of death is entered only by dying.
pub proof fn lemma_alive_is_not_death(history: Seq<OrganismStatus>, j: int)
    requires
        organism_history(history),
        0 <= j < history.len(),
        history[0].is_alive ==> history[0].developmental_stage != DevelopmentalStage::Death,
        history[j].is_alive,
    ensures
        history[j].developmental_stage != DevelopmentalStage::Death,
    decreases j,
{
    if 0 < j {
        assert(organism_step(history[j - 1], history[j]));
        if history[j - 1].is_alive {
            lemma_alive_is_not_death(history, j - 1);
        }
    }
}

/// Once an organism has aged to its maximal lifespan, aging it again,
/// to whatever age, leaves its stage and its death as they are.
pub proof fn lemma_advance_after_lifespan(
    status: OrganismStatus,
    age_ticks: u64,
    later_ticks: u64,
    lifespan_reached: bool,
)
    ensures
        !status.after_advance(age_ticks, true).is_alive,
        status.after_advance(age_ticks, true).after_advance(later_ticks, lifespan_reached)
            == status.after_advance(age_ticks, true),
{
}

/// Death is final: from the first status in which the organism is dead,
/// no update changes its stage or brings it back to life.
pub proof fn lemma_death_is_final(history: Seq<OrganismStatus>, i: int, j: int)
    requires
        organism_history(history),
        0 <= i <= j < history.len(),
        !history[i].is_alive,
    ensures
        history[j] == history[i],
    decreases j - i,
{
    if i < j {
        lemma_death_is_final(history, i, j - 1);
        assert(organism_step(history[j - 1], history[j]));
    }
}

} // verus!
