//! Tissue kinds: the niche that stands for an anatomical tissue, the
//! damage profile of each niche and its division rate.
//!
//! Multipliers and rates are held in tenths, as whole numbers: a
//! multiplier of 1.3 is 13 tenths.

use vstd::prelude::*;
use crate::components::TissueType;

verus! {

/// Anatomical tissue that a niche belongs to.
#[derive(Debug, Clone, Copy, PartialEq, Eq, Hash, Structural)]
pub enum HumanTissueType {
    Neural,
    Blood,
    Epithelial,
    Liver,
    Kidney,
    Lung,
    Muscle,
    Heart,
    Skin,
}

/// The kind of stem-cell niche that renews an anatomical tissue.
pub open spec fn niche_of(human_type: HumanTissueType) -> TissueType {
    match human_type {
        HumanTissueType::Neural => TissueType::Neural,
        HumanTissueType::Blood => TissueType::Hematopoietic,
        HumanTissueType::Epithelial => TissueType::IntestinalCrypt,
        HumanTissueType::Liver => TissueType::IntestinalCrypt,
        HumanTissueType::Kidney => TissueType::IntestinalCrypt,
        HumanTissueType::Lung => TissueType::IntestinalCrypt,
        HumanTissueType::Muscle => TissueType::Muscle,
        HumanTissueType::Heart => TissueType::Muscle,
        HumanTissueType::Skin => TissueType::Skin,
    }
}

/// Maps an anatomical tissue to the kind of niche that renews it. No
/// anatomical tissue maps to the germline.
pub fn map_tissue_type(human_type: HumanTissueType) -> (kind: TissueType)
    ensures
        kind == niche_of(human_type),
        kind != TissueType::Germline,
{
    match human_type {
        HumanTissueType::Neural => TissueType::Neural,
        HumanTissueType::Blood => TissueType::Hematopoietic,
        HumanTissueType::Epithelial
        | HumanTissueType::Liver
        | HumanTissueType::Kidney
        | HumanTissueType::Lung => TissueType::IntestinalCrypt,
        HumanTissueType::Muscle | HumanTissueType::Heart => TissueType::Muscle,
        _ => TissueType::Skin,
    }
}

/// How strongly a kind of niche takes damage, in tenths.
#[derive(Debug, Clone, Copy, PartialEq, Eq, Structural)]
pub struct TissueProfile {
    /// Factor on the four molecular damage rates, in tenths.
    pub damage_multiplier: u32,
    /// Sensitivity to the loss of ciliary signalling, in tenths.
    pub ciliary_sensitivity: u32,
    /// Factor on the four appendage loss rates, in tenths.
    pub appendage_vulnerability: u32,
}

/// The profile of each kind of niche, in tenths.
pub open spec fn profile_of(tissue: TissueType) -> TissueProfile {
    match tissue {
        TissueType::Hematopoietic => TissueProfile {
            damage_multiplier: 13,
            ciliary_sensitivity: 9,
            appendage_vulnerability: 12,
        },
        TissueType::Neural => TissueProfile {
            damage_multiplier: 8,
            ciliary_sensitivity: 13,
            appendage_vulnerability: 11,
        },
        TissueType::IntestinalCrypt => TissueProfile {
            damage_multiplier: 12,
            ciliary_sensitivity: 7,
            appendage_vulnerability: 10,
        },
        TissueType::Muscle => TissueProfile {
            damage_multiplier: 9,
            ciliary_sensitivity: 8,
            appendage_vulnerability: 9,
        },
        TissueType::Skin => TissueProfile {
            damage_multiplier: 11,
            ciliary_sensitivity: 6,
            appendage_vulnerability: 10,
        },
        TissueType::Germline => TissueProfile {
            damage_multiplier: 5,
            ciliary_sensitivity: 10,
            appendage_vulnerability: 8,
        },
    }
}

/// Divisions per year of the stem cells of each kind of niche, in tenths.
pub open spec fn division_rate_of(tissue: TissueType) -> nat {
    match tissue {
        TissueType::IntestinalCrypt => 100,
        TissueType::Hematopoietic => 70,
        TissueType::Skin => 50,
        TissueType::Germline => 30,
        TissueType::Muscle => 20,
        TissueType::Neural => 8,
    }
}

/// The damage profile of a kind of niche, in tenths. Every entry is
/// positive, so each can divide.
pub fn profile_for(tissue: &TissueType) -> (profile: TissueProfile)
    ensures
        profile == profile_of(*tissue),
        profile.damage_multiplier > 0,
        profile.ciliary_sensitivity > 0,
        profile.appendage_vulnerability > 0,
{
    match tissue {
        TissueType::Hematopoietic => TissueProfile {
            damage_multiplier: 13,
            ciliary_sensitivity: 9,
            appendage_vulnerability: 12,
        },
        TissueType::Neural => TissueProfile {
            damage_multiplier: 8,
            ciliary_sensitivity: 13,
            appendage_vulnerability: 11,
        },
        TissueType::IntestinalCrypt => TissueProfile {
            damage_multiplier: 12,
            ciliary_sensitivity: 7,
            appendage_vulnerability: 10,
        },
        TissueType::Muscle => TissueProfile {
            damage_multiplier: 9,
            ciliary_sensitivity: 8,
            appendage_vulnerability: 9,
        },
        TissueType::Skin => TissueProfile {
            damage_multiplier: 11,
            ciliary_sensitivity: 6,
            appendage_vulnerability: 10,
        },
        TissueType::Germline => TissueProfile {
            damage_multiplier: 5,
            ciliary_sensitivity: 10,
            appendage_vulnerability: 8,
        },
    }
}

/// Divisions per year of the stem cells of a kind of niche, in tenths.
pub fn tissue_division_rate(tissue: &TissueType) -> (rate: u32)
    ensures
        rate == division_rate_of(*tissue),
        rate > 0,
{
    match tissue {
        TissueType::IntestinalCrypt => 100,
        TissueType::Hematopoietic => 70,
        TissueType::Skin => 50,
        TissueType::Muscle => 20,
        TissueType::Neural => 8,
        TissueType::Germline => 30,
    }
}

/// Blood-forming niches take molecular damage faster than neural ones,
/// and the germline takes it slowest of all.
pub proof fn lemma_damage_multiplier_order(tissue: TissueType)
    ensures
        profile_of(TissueType::Hematopoietic).damage_multiplier > profile_of(
            TissueType::Neural,
        ).damage_multiplier,
        profile_of(TissueType::Germline).damage_multiplier <= profile_of(tissue).damage_multiplier,
        profile_of(tissue).damage_multiplier <= profile_of(
            TissueType::Hematopoietic,
        ).damage_multiplier,
{
}

/// `kind` stands in `kinds` at `at` and nowhere before.
pub open spec fn first_of_kind(kinds: Seq<TissueType>, kind: TissueType, at: int) -> bool {
    &&& 0 <= at < kinds.len()
    &&& kinds[at] == kind
    &&& forall|k: int| 0 <= k < at ==> kinds[k] != kind
}

/// Index of the first tissue of the kind `tissue_type`, or `None` where
/// the organism has no such tissue.
pub fn find_tissue(tissues: &[TissueType], tissue_type: TissueType) -> (found: Option<usize>)
    ensures
        match found {
            Some(at) => first_of_kind(tissues@, tissue_type, at as int),
            None => !tissues@.contains(tissue_type),
        },
{
    let mut at: usize = 0;
    while at < tissues.len()
        invariant
            at <= tissues.len(),
            forall|k: int| 0 <= k < at ==> tissues@[k] != tissue_type,
        decreases tissues.len() - at,
    {
        if tissues[at] == tissue_type {
            return Some(at);
        }
        at += 1;
    }
    None
}

} // verus!
