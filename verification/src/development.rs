//! Stages by age: the stage of life of an organism, and the
//! fine-grained stage of human development of a niche.
//!
//! Ages are whole numbers. The organism's age is counted in ticks of a
//! sixteenth of a day, the coarsest unit in which every boundary
//! between two of its stages is whole: a year of 365.25 days is 5844
//! ticks. The age of a niche is counted in whole days.

use vstd::prelude::*;
use crate::components::DevelopmentalStage;

verus! {

/// Ticks in a day.
pub const TICKS_PER_DAY: u64 = 16;

/// Ticks in a year of 365.25 days.
pub const TICKS_PER_YEAR: u64 = 5844;

/// The age in ticks at which a stage of life begins. Death begins at no
/// age: it is not reached by aging through the stages.
pub open spec fn first_tick(stage: DevelopmentalStage) -> Option<nat> {
    match stage {
        DevelopmentalStage::Zygote => Some(0),
        DevelopmentalStage::Cleavage => Some(1 * TICKS_PER_DAY as nat),
        DevelopmentalStage::Blastocyst => Some(4 * TICKS_PER_DAY as nat),
        DevelopmentalStage::Gastrulation => Some(14 * TICKS_PER_DAY as nat),
        DevelopmentalStage::Organogenesis => Some(28 * TICKS_PER_DAY as nat),
        DevelopmentalStage::Fetal => Some(56 * TICKS_PER_DAY as nat),
        DevelopmentalStage::Postnatal => Some((3 * TICKS_PER_YEAR / 4) as nat),
        DevelopmentalStage::Adult => Some(18 * TICKS_PER_YEAR as nat),
        DevelopmentalStage::MiddleAge => Some(40 * TICKS_PER_YEAR as nat),
        DevelopmentalStage::Senescent => Some(65 * TICKS_PER_YEAR as nat),
        DevelopmentalStage::Death => None,
    }
}

/// The stage has begun at an age of `ticks`.
pub open spec fn begun_at(stage: DevelopmentalStage, ticks: nat) -> bool {
    first_tick(stage) matches Some(first) && first <= ticks
}

/// The stage of life at an age of `ticks`: the embryonic stages by age
/// in days, below 1, 4, 14, 28 and 56; then the later stages by age in
/// years, below three quarters, 18, 40 and 65; the senescent stage from
/// there on.
pub open spec fn stage_at(ticks: nat) -> DevelopmentalStage {
    if ticks < 1 * TICKS_PER_DAY {
        DevelopmentalStage::Zygote
    } else if ticks < 4 * TICKS_PER_DAY {
        DevelopmentalStage::Cleavage
    } else if ticks < 14 * TICKS_PER_DAY {
        DevelopmentalStage::Blastocyst
    } else if ticks < 28 * TICKS_PER_DAY {
        DevelopmentalStage::Gastrulation
    } else if ticks < 56 * TICKS_PER_DAY {
        DevelopmentalStage::Organogenesis
    } else if 4 * ticks < 3 * TICKS_PER_YEAR {
        DevelopmentalStage::Fetal
    } else if ticks < 18 * TICKS_PER_YEAR {
        DevelopmentalStage::Postnatal
    } else if ticks < 40 * TICKS_PER_YEAR {
        DevelopmentalStage::Adult
    } else if ticks < 65 * TICKS_PER_YEAR {
        DevelopmentalStage::MiddleAge
    } else {
        DevelopmentalStage::Senescent
    }
}

/// The stage of life at an age of `age_ticks` sixteenths of a day: the
/// latest stage that has begun by then. An age between two ticks is in
/// the stage of the tick before it, as every stage begins on a tick.
pub fn stage_for_age(age_ticks: u64) -> (stage: DevelopmentalStage)
    ensures
        stage == stage_at(age_ticks as nat),
        begun_at(stage, age_ticks as nat),
        forall|other: DevelopmentalStage| #[trigger]
            begun_at(other, age_ticks as nat) ==> other.rank() <= stage.rank(),
{
    if age_ticks < TICKS_PER_DAY {
        DevelopmentalStage::Zygote
    } else if age_ticks < 4 * TICKS_PER_DAY {
        DevelopmentalStage::Cleavage
    } else if age_ticks < 14 * TICKS_PER_DAY {
        DevelopmentalStage::Blastocyst
    } else if age_ticks < 28 * TICKS_PER_DAY {
        DevelopmentalStage::Gastrulation
    } else if age_ticks < 56 * TICKS_PER_DAY {
        DevelopmentalStage::Organogenesis
    } else if age_ticks < 3 * TICKS_PER_YEAR / 4 {
        DevelopmentalStage::Fetal
    } else if age_ticks < 18 * TICKS_PER_YEAR {
        DevelopmentalStage::Postnatal
    } else if age_ticks < 40 * TICKS_PER_YEAR {
        DevelopmentalStage::Adult
    } else if age_ticks < 65 * TICKS_PER_YEAR {
        DevelopmentalStage::MiddleAge
    } else {
        DevelopmentalStage::Senescent
    }
}

/// The stage of an age is the one and only stage that has begun by that
/// age while no later stage has.
pub proof fn lemma_stage_at_is_latest_begun(ticks: nat, stage: DevelopmentalStage)
    ensures
        stage == stage_at(ticks) <==> (begun_at(stage, ticks) && forall|
            other: DevelopmentalStage,
        | #[trigger]
            begun_at(other, ticks) ==> other.rank() <= stage.rank()),
{
    let found = stage_at(ticks);
    assert(begun_at(found, ticks));
    if begun_at(stage, ticks) && (forall|other: DevelopmentalStage| #[trigger]
        begun_at(other, ticks) ==> other.rank() <= stage.rank()) {
        assert(found.rank() <= stage.rank());
    }
}

/// The stage of life only moves forward with age, and aging alone never
/// gives the stage of death.
pub proof fn lemma_stage_at_moves_forward(earlier: nat, later: nat)
    requires
        earlier <= later,
    ensures
        stage_at(earlier).rank() <= stage_at(later).rank(),
        stage_at(later) != DevelopmentalStage::Death,
{
}

/// Adulthood, middle age and the senescent stage begin at the whole
/// years that the stages report as their nominal start.
pub proof fn lemma_late_stages_begin_on_whole_years(stage: DevelopmentalStage)
    requires
        stage == DevelopmentalStage::Adult || stage == DevelopmentalStage::MiddleAge || stage
            == DevelopmentalStage::Senescent,
    ensures
        first_tick(stage) == Some(stage.start_years() * TICKS_PER_YEAR as nat),
{
}

/// Stage of human development, from the zygote to old age.
#[derive(Debug, Clone, Copy, PartialEq, Eq, Hash, Structural)]
pub enum HumanDevelopmentalStage {
    Zygote,
    Cleavage,
    Morula,
    Blastocyst,
    Implantation,
    Gastrulation,
    Neurulation,
    Organogenesis,
    Fetal,
    Newborn,
    Childhood,
    Adolescence,
    Adult,
    MiddleAge,
    Elderly,
}

impl HumanDevelopmentalStage {
    /// Position of the stage in the order of life, `Zygote` being 0 and
    /// `Elderly` 14.
    pub open spec fn rank(self) -> nat {
        match self {
            HumanDevelopmentalStage::Zygote => 0,
            HumanDevelopmentalStage::Cleavage => 1,
            HumanDevelopmentalStage::Morula => 2,
            HumanDevelopmentalStage::Blastocyst => 3,
            HumanDevelopmentalStage::Implantation => 4,
            HumanDevelopmentalStage::Gastrulation => 5,
            HumanDevelopmentalStage::Neurulation => 6,
            HumanDevelopmentalStage::Organogenesis => 7,
            HumanDevelopmentalStage::Fetal => 8,
            HumanDevelopmentalStage::Newborn => 9,
            HumanDevelopmentalStage::Childhood => 10,
            HumanDevelopmentalStage::Adolescence => 11,
            HumanDevelopmentalStage::Adult => 12,
            HumanDevelopmentalStage::MiddleAge => 13,
            HumanDevelopmentalStage::Elderly => 14,
        }
    }

    /// Number of whole days lived when the stage begins.
    pub open spec fn first_day(self) -> nat {
        match self {
            HumanDevelopmentalStage::Zygote => 0,
            HumanDevelopmentalStage::Cleavage => 1,
            HumanDevelopmentalStage::Morula => 3,
            HumanDevelopmentalStage::Blastocyst => 4,
            HumanDevelopmentalStage::Implantation => 7,
            HumanDevelopmentalStage::Gastrulation => 14,
            HumanDevelopmentalStage::Neurulation => 21,
            HumanDevelopmentalStage::Organogenesis => 28,
            HumanDevelopmentalStage::Fetal => 56,
            HumanDevelopmentalStage::Newborn => 280,
            HumanDevelopmentalStage::Childhood => 365,
            HumanDevelopmentalStage::Adolescence => 4380,
            HumanDevelopmentalStage::Adult => 6570,
            HumanDevelopmentalStage::MiddleAge => 18250,
            HumanDevelopmentalStage::Elderly => 25550,
        }
    }

    /// The stage has begun once `days` whole days were lived.
    pub open spec fn begun_by(self, days: nat) -> bool {
        self.first_day() <= days
    }

    /// The stage of a life of `days` whole days: the latest stage that
    /// has begun by then.
    pub open spec fn on_day(days: nat) -> HumanDevelopmentalStage {
        if days < 1 {
            HumanDevelopmentalStage::Zygote
        } else if days < 3 {
            HumanDevelopmentalStage::Cleavage
        } else if days < 4 {
            HumanDevelopmentalStage::Morula
        } else if days < 7 {
            HumanDevelopmentalStage::Blastocyst
        } else if days < 14 {
            HumanDevelopmentalStage::Implantation
        } else if days < 21 {
            HumanDevelopmentalStage::Gastrulation
        } else if days < 28 {
            HumanDevelopmentalStage::Neurulation
        } else if days < 56 {
            HumanDevelopmentalStage::Organogenesis
        } else if days < 280 {
            HumanDevelopmentalStage::Fetal
        } else if days < 365 {
            HumanDevelopmentalStage::Newborn
        } else if days < 4380 {
            HumanDevelopmentalStage::Childhood
        } else if days < 6570 {
            HumanDevelopmentalStage::Adolescence
        } else if days < 18250 {
            HumanDevelopmentalStage::Adult
        } else if days < 25550 {
            HumanDevelopmentalStage::MiddleAge
        } else {
            HumanDevelopmentalStage::Elderly
        }
    }

    /// The stage of a life of `age_days` whole days. An age with a
    /// fraction of a day is in the stage of its whole part, as every
    /// stage begins on a whole day.
    pub fn for_age_days(age_days: u64) -> (stage: HumanDevelopmentalStage)
        ensures
            stage == Self::on_day(age_days as nat),
            stage.begun_by(age_days as nat),
            forall|other: HumanDevelopmentalStage| #[trigger]
                other.begun_by(age_days as nat) ==> other.rank() <= stage.rank(),
    {
        if age_days < 1 {
            HumanDevelopmentalStage::Zygote
        } else if age_days < 3 {
            HumanDevelopmentalStage::Cleavage
        } else if age_days < 4 {
            HumanDevelopmentalStage::Morula
        } else if age_days < 7 {
            HumanDevelopmentalStage::Blastocyst
        } else if age_days < 14 {
            HumanDevelopmentalStage::Implantation
        } else if age_days < 21 {
            HumanDevelopmentalStage::Gastrulation
        } else if age_days < 28 {
            HumanDevelopmentalStage::Neurulation
        } else if age_days < 56 {
            HumanDevelopmentalStage::Organogenesis
        } else if age_days < 280 {
            HumanDevelopmentalStage::Fetal
        } else if age_days < 365 {
            HumanDevelopmentalStage::Newborn
        } else if age_days < 4380 {
            HumanDevelopmentalStage::Childhood
        } else if age_days < 6570 {
            HumanDevelopmentalStage::Adolescence
        } else if age_days < 18250 {
            HumanDevelopmentalStage::Adult
        } else if age_days < 25550 {
            HumanDevelopmentalStage::MiddleAge
        } else {
            HumanDevelopmentalStage::Elderly
        }
    }
}

/// The stage that a niche of stage `current` enters at `age_days` whole
/// days of age, or `None` where it stays in the stage it is in.
pub fn update_stage(current: HumanDevelopmentalStage, age_days: u64) -> (entered: Option<
    HumanDevelopmentalStage,
>)
    ensures
        entered == if HumanDevelopmentalStage::on_day(age_days as nat) == current {
            None
        } else {
            Some(HumanDevelopmentalStage::on_day(age_days as nat))
        },
{
    let stage = HumanDevelopmentalStage::for_age_days(age_days);
    if stage == current {
        None
    } else {
        Some(stage)
    }
}

/// The stage of a day is the one and only stage that has begun by that
/// day while no later stage has.
pub proof fn lemma_stage_is_latest_begun(days: nat, stage: HumanDevelopmentalStage)
    ensures
        stage == HumanDevelopmentalStage::on_day(days) <==> (stage.begun_by(days) && forall|
            other: HumanDevelopmentalStage,
        | #[trigger]
            other.begun_by(days) ==> other.rank() <= stage.rank()),
{
    let found = HumanDevelopmentalStage::on_day(days);
    assert(found.begun_by(days));
    if stage.begun_by(days) && (forall|other: HumanDevelopmentalStage| #[trigger]
        other.begun_by(days) ==> other.rank() <= stage.rank()) {
        assert(found.rank() <= stage.rank());
    }
}

/// Stages only move forward: a later day is never in an earlier stage.
pub proof fn lemma_stage_moves_forward(earlier: nat, later: nat)
    requires
        earlier <= later,
    ensures
        HumanDevelopmentalStage::on_day(earlier).rank() <= HumanDevelopmentalStage::on_day(
            later,
        ).rank(),
{
}

} // verus!
