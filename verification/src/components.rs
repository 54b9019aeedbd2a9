//! Component types shared by every part of the model: cell-cycle tags,
//! developmental stages, tissue kinds and the S/H inducer ledger.

use vstd::prelude::*;

verus! {

/// Phase of the cell cycle.
#[derive(Debug, Clone, Copy, PartialEq, Eq, Hash, Structural)]
pub enum Phase {
    G1,
    S,
    G2,
    M,
}

/// Cyclin family of a cyclin/CDK complex.
#[derive(Debug, Clone, Copy, PartialEq, Eq, Hash, Structural)]
pub enum CyclinType {
    CyclinD,
    CyclinE,
    CyclinA,
    CyclinB,
}

/// Kinase partner of a cyclin/CDK complex.
#[derive(Debug, Clone, Copy, PartialEq, Eq, Hash, Structural)]
pub enum CdkType {
    Cdk4,
    Cdk6,
    Cdk2,
    Cdk1,
}

/// Cell-cycle checkpoint.
#[derive(Debug, Clone, Copy, PartialEq, Eq, Hash, Structural)]
pub enum Checkpoint {
    G1SRestriction,
    G2MCheckpoint,
    SpindleAssembly,
    DNARepair,
}

/// Stage of the organism's life, from the fertilised egg to death.
#[derive(Debug, Clone, Copy, PartialEq, Eq, Hash, Structural)]
pub enum DevelopmentalStage {
    Zygote,
    Cleavage,
    Blastocyst,
    Gastrulation,
    Organogenesis,
    Fetal,
    Postnatal,
    Adult,
    MiddleAge,
    Senescent,
    Death,
}

impl DevelopmentalStage {
    /// Position of the stage in the order of life, `Zygote` being 0 and
    /// `Death` 10.
    pub open spec fn rank(self) -> nat {
        match self {
            DevelopmentalStage::Zygote => 0,
            DevelopmentalStage::Cleavage => 1,
            DevelopmentalStage::Blastocyst => 2,
            DevelopmentalStage::Gastrulation => 3,
            DevelopmentalStage::Organogenesis => 4,
            DevelopmentalStage::Fetal => 5,
            DevelopmentalStage::Postnatal => 6,
            DevelopmentalStage::Adult => 7,
            DevelopmentalStage::MiddleAge => 8,
            DevelopmentalStage::Senescent => 9,
            DevelopmentalStage::Death => 10,
        }
    }

    /// Whole years of age at which the stage nominally begins.
    pub open spec fn start_years(self) -> nat {
        match self {
            DevelopmentalStage::Adult => 18,
            DevelopmentalStage::MiddleAge => 40,
            DevelopmentalStage::Senescent => 65,
            DevelopmentalStage::Death => 80,
            _ => 0,
        }
    }

    /// Age, in whole years, at which the stage nominally begins. Every
    /// stage before adulthood starts within the first year and reports 0.
    pub fn age_start_years(&self) -> (years: u32)
        ensures
            years == self.start_years(),
    {
        match self {
            DevelopmentalStage::Adult => 18,
            DevelopmentalStage::MiddleAge => 40,
            DevelopmentalStage::Senescent => 65,
            DevelopmentalStage::Death => 80,
            _ => 0,
        }
    }

    /// The stage that follows this one; `Death` has no successor.
    pub fn next(&self) -> (succ: Option<DevelopmentalStage>)
        ensures
            succ is None <==> *self == DevelopmentalStage::Death,
            succ matches Some(s) ==> s.rank() == self.rank() + 1,
    {
        match self {
            DevelopmentalStage::Zygote => Some(DevelopmentalStage::Cleavage),
            DevelopmentalStage::Cleavage => Some(DevelopmentalStage::Blastocyst),
            DevelopmentalStage::Blastocyst => Some(DevelopmentalStage::Gastrulation),
            DevelopmentalStage::Gastrulation => Some(DevelopmentalStage::Organogenesis),
            DevelopmentalStage::Organogenesis => Some(DevelopmentalStage::Fetal),
            DevelopmentalStage::Fetal => Some(DevelopmentalStage::Postnatal),
            DevelopmentalStage::Postnatal => Some(DevelopmentalStage::Adult),
            DevelopmentalStage::Adult => Some(DevelopmentalStage::MiddleAge),
            DevelopmentalStage::MiddleAge => Some(DevelopmentalStage::Senescent),
            DevelopmentalStage::Senescent => Some(DevelopmentalStage::Death),
            DevelopmentalStage::Death => None,
        }
    }
}

/// Two stages of equal rank are the same stage, so a rank names a
/// stage; and a later stage never has an earlier nominal start.
pub proof fn lemma_rank_names_stage(a: DevelopmentalStage, b: DevelopmentalStage)
    ensures
        a.rank() <= 10,
        a.rank() == b.rank() ==> a == b,
        a.rank() <= b.rank() ==> a.start_years() <= b.start_years(),
{
}

/// Kind of stem-cell niche.
#[derive(Debug, Clone, Copy, PartialEq, Eq, Hash, Structural)]
pub enum TissueType {
    Neural,
    Hematopoietic,
    IntestinalCrypt,
    Muscle,
    Skin,
    Germline,
}

/// Ledger of differentiation inducers carried by one stem-cell niche.
///
/// The S structure counts the somatic inducers that are left, the H
/// structure the germline ones. Each differentiating division releases
/// one inducer for good, so the counts only ever fall.
#[derive(Debug, Clone, Copy, PartialEq, Eq, Structural)]
pub struct CentriolarInducers {
    /// Somatic inducers left.
    pub s_count: u32,
    /// Somatic inducers the lineage started with.
    pub s_max: u32,
    /// Germline inducers left.
    pub h_count: u32,
    /// Germline inducers the lineage started with.
    pub h_max: u32,
    /// Differentiating divisions completed so far.
    pub differentiation_divisions: u32,
}

impl CentriolarInducers {
    /// Neither count exceeds the stock it started from.
    pub open spec fn wf(&self) -> bool {
        &&& self.s_count <= self.s_max
        &&& self.h_count <= self.h_max
    }

    /// The ledger of a zygote: both stocks full, no division made.
    pub open spec fn fresh(s_max: u32, h_max: u32) -> CentriolarInducers {
        CentriolarInducers {
            s_count: s_max,
            s_max,
            h_count: h_max,
            h_max,
            differentiation_divisions: 0,
        }
    }

    /// The ledger after one somatic inducer was asked for: one fewer and
    /// one more division recorded while any is left, unchanged otherwise.
    pub open spec fn after_s_release(self) -> CentriolarInducers {
        if self.s_count > 0 {
            CentriolarInducers {
                s_count: (self.s_count - 1) as u32,
                differentiation_divisions: (self.differentiation_divisions + 1) as u32,
                ..self
            }
        } else {
            self
        }
    }

    /// The ledger after one germline inducer was asked for.
    pub open spec fn after_h_release(self) -> CentriolarInducers {
        if self.h_count > 0 {
            CentriolarInducers { h_count: (self.h_count - 1) as u32, ..self }
        } else {
            self
        }
    }

    /// Full stocks of `s_max` somatic and `h_max` germline inducers.
    pub fn zygote(s_max: u32, h_max: u32) -> (ledger: CentriolarInducers)
        ensures
            ledger == Self::fresh(s_max, h_max),
            ledger.wf(),
    {
        CentriolarInducers { s_count: s_max, s_max, h_count: h_max, h_max, differentiation_divisions: 0 }
    }

    /// Releases one somatic inducer and records the division. Returns
    /// whether an inducer was left to release; an exhausted ledger is
    /// left as it is.
    pub fn consume_s_inducer(&mut self) -> (released: bool)
        requires
            old(self).s_count > 0 ==> old(self).differentiation_divisions < u32::MAX,
        ensures
            released == (old(self).s_count > 0),
            *final(self) == old(self).after_s_release(),
            final(self).s_count <= old(self).s_count,
            old(self).wf() ==> final(self).wf(),
    {
        if self.s_count > 0 {
            self.s_count -= 1;
            self.differentiation_divisions += 1;
            true
        } else {
            false
        }
    }

    /// Releases one germline inducer. Returns whether one was left.
    pub fn consume_h_inducer(&mut self) -> (released: bool)
        ensures
            released == (old(self).h_count > 0),
            *final(self) == old(self).after_h_release(),
            final(self).h_count <= old(self).h_count,
            old(self).wf() ==> final(self).wf(),
    {
        if self.h_count > 0 {
            self.h_count -= 1;
            true
        } else {
            false
        }
    }

    /// The somatic stock is exhausted.
    pub fn is_terminally_differentiated(&self) -> (terminal: bool)
        ensures
            terminal <==> self.s_count == 0,
    {
        self.s_count == 0
    }

    /// A germline stock existed and is exhausted.
    pub fn is_ready_for_meiosis(&self) -> (ready: bool)
        ensures
            ready <==> (self.h_count == 0 && self.h_max > 0),
    {
        self.h_count == 0 && self.h_max > 0
    }
}

impl Default for CentriolarInducers {
    /// Fifty somatic and four germline inducers.
    fn default() -> (ledger: CentriolarInducers)
        ensures
            ledger == CentriolarInducers::fresh(50, 4),
    {
        CentriolarInducers::zygote(50, 4)
    }
}

} // verus!
