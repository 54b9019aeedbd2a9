//! Aging phenotypes of a niche and the list of those that are active.

use vstd::prelude::*;

verus! {

/// Age-related change that a niche can show.
#[derive(Debug, Clone, Copy, PartialEq, Eq, Hash, Structural)]
pub enum AgingPhenotype {
    ReducedProliferation,
    ProteinAggregation,
    MitochondrialDysfunction,
    TelomereShortening,
    EpigeneticChanges,
    SenescentAccumulation,
    SignalingDysregulation,
    ProteostasisLoss,
    StemCellExhaustion,
    AlteredCommunication,
}

/// Which of its thresholds the damage of a niche has crossed.
#[derive(Debug, Clone, Copy, PartialEq, Eq, Structural)]
pub struct PhenotypeSignals {
    /// Total damage above 0.1.
    pub reduced_proliferation: bool,
    /// Protein aggregates above 0.2.
    pub protein_aggregation: bool,
    /// ROS level above 0.3.
    pub mitochondrial_dysfunction: bool,
    /// Accumulated tubulin modifications above 0.15.
    pub epigenetic_changes: bool,
    /// Senescent fraction of the tissue above 0.3.
    pub senescent_accumulation: bool,
    /// Loss of cilia above 0.3.
    pub signaling_dysregulation: bool,
    /// Protein aggregates above 0.3.
    pub proteostasis_loss: bool,
    /// Stem-cell pool below one half.
    pub stem_cell_exhaustion: bool,
    /// Total damage above 0.5.
    pub altered_communication: bool,
}

impl PhenotypeSignals {
    /// The signals call for `phenotype`. Nothing in the damage of a
    /// centriole signals the shortening of telomeres.
    pub open spec fn shows(self, phenotype: AgingPhenotype) -> bool {
        match phenotype {
            AgingPhenotype::ReducedProliferation => self.reduced_proliferation,
            AgingPhenotype::ProteinAggregation => self.protein_aggregation,
            AgingPhenotype::MitochondrialDysfunction => self.mitochondrial_dysfunction,
            AgingPhenotype::TelomereShortening => false,
            AgingPhenotype::EpigeneticChanges => self.epigenetic_changes,
            AgingPhenotype::SenescentAccumulation => self.senescent_accumulation,
            AgingPhenotype::SignalingDysregulation => self.signaling_dysregulation,
            AgingPhenotype::ProteostasisLoss => self.proteostasis_loss,
            AgingPhenotype::StemCellExhaustion => self.stem_cell_exhaustion,
            AgingPhenotype::AlteredCommunication => self.altered_communication,
        }
    }

    /// `shows` as a predicate on phenotypes.
    pub open spec fn shown(self) -> spec_fn(AgingPhenotype) -> bool {
        |phenotype: AgingPhenotype| self.shows(phenotype)
    }

    /// Whether the signals call for `phenotype`.
    pub fn calls_for(&self, phenotype: AgingPhenotype) -> (called: bool)
        ensures
            called == self.shows(phenotype),
    {
        match phenotype {
            AgingPhenotype::ReducedProliferation => self.reduced_proliferation,
            AgingPhenotype::ProteinAggregation => self.protein_aggregation,
            AgingPhenotype::MitochondrialDysfunction => self.mitochondrial_dysfunction,
            AgingPhenotype::TelomereShortening => false,
            AgingPhenotype::EpigeneticChanges => self.epigenetic_changes,
            AgingPhenotype::SenescentAccumulation => self.senescent_accumulation,
            AgingPhenotype::SignalingDysregulation => self.signaling_dysregulation,
            AgingPhenotype::ProteostasisLoss => self.proteostasis_loss,
            AgingPhenotype::StemCellExhaustion => self.stem_cell_exhaustion,
            AgingPhenotype::AlteredCommunication => self.altered_communication,
        }
    }
}

/// The phenotypes that damage can signal, in the order in which they
/// are reported.
pub open spec fn report_order() -> Seq<AgingPhenotype> {
    seq![
        AgingPhenotype::ReducedProliferation,
        AgingPhenotype::ProteinAggregation,
        AgingPhenotype::MitochondrialDysfunction,
        AgingPhenotype::EpigeneticChanges,
        AgingPhenotype::SenescentAccumulation,
        AgingPhenotype::SignalingDysregulation,
        AgingPhenotype::ProteostasisLoss,
        AgingPhenotype::StemCellExhaustion,
        AgingPhenotype::AlteredCommunication,
    ]
}

/// The active phenotypes: those of the report order that the signals
/// call for, in that order.
pub open spec fn active_under(signals: PhenotypeSignals) -> Seq<AgingPhenotype> {
    report_order().filter(signals.shown())
}

/// The phenotype at place `at` of the report order.
fn reported_at(at: usize) -> (phenotype: AgingPhenotype)
    requires
        at < 9,
    ensures
        phenotype == report_order()[at as int],
{
    match at {
        0 => AgingPhenotype::ReducedProliferation,
        1 => AgingPhenotype::ProteinAggregation,
        2 => AgingPhenotype::MitochondrialDysfunction,
        3 => AgingPhenotype::EpigeneticChanges,
        4 => AgingPhenotype::SenescentAccumulation,
        5 => AgingPhenotype::SignalingDysregulation,
        6 => AgingPhenotype::ProteostasisLoss,
        7 => AgingPhenotype::StemCellExhaustion,
        _ => AgingPhenotype::AlteredCommunication,
    }
}

/// Lists the active phenotypes of a niche: each phenotype that the
/// signals call for, once, in the report order.
pub fn active_phenotypes(signals: &PhenotypeSignals) -> (active: Vec<AgingPhenotype>)
    ensures
        active@ == active_under(*signals),
        forall|phenotype: AgingPhenotype|
            active@.contains(phenotype) <==> signals.shows(phenotype),
        active@.no_duplicates(),
{
    let mut active: Vec<AgingPhenotype> = Vec::new();
    let mut at: usize = 0;
    while at < 9
        invariant
            at <= 9,
            report_order().len() == 9,
            active@ == report_order().take(at as int).filter(signals.shown()),
        decreases 9 - at,
    {
        let phenotype = reported_at(at);
        proof {
            let upto = report_order().take(at + 1);
            assert(upto.drop_last() == report_order().take(at as int));
            assert(upto.last() == phenotype);
            reveal(Seq::filter);
        }
        if signals.calls_for(phenotype) {
            active.push(phenotype);
        }
        at += 1;
    }
    proof {
        assert(report_order().take(9) == report_order());
        lemma_active_phenotypes(*signals);
    }
    active
}

/// What the filter keeps of the first `upto` places of the report
/// order: every phenotype among them that the signals call for, once.
proof fn lemma_filtered_prefix(signals: PhenotypeSignals, upto: int)
    requires
        0 <= upto <= 9,
    ensures
        forall|phenotype: AgingPhenotype| #[trigger]
            report_order().take(upto).filter(signals.shown()).contains(phenotype) <==> (
            signals.shows(phenotype) && report_order().take(upto).contains(phenotype)),
        report_order().take(upto).filter(signals.shown()).no_duplicates(),
    decreases upto,
{
    reveal(Seq::filter);
    let order = report_order();
    let shown = signals.shown();
    let prefix = order.take(upto);
    let kept = prefix.filter(shown);
    if upto > 0 {
        lemma_filtered_prefix(signals, upto - 1);
        let shorter = order.take(upto - 1);
        let kept_before = shorter.filter(shown);
        let last = order[upto - 1];
        assert(prefix.drop_last() == shorter);
        assert(prefix.last() == last);
        assert(prefix == shorter.push(last));
        assert(!shorter.contains(last));
        assert forall|phenotype: AgingPhenotype| #[trigger]
            kept.contains(phenotype) <==> (signals.shows(phenotype) && prefix.contains(
                phenotype,
            )) by {
            vstd::seq_lib::lemma_seq_contains_after_push(shorter, last, phenotype);
            if signals.shows(last) {
                vstd::seq_lib::lemma_seq_contains_after_push(kept_before, last, phenotype);
            }
        }
        if signals.shows(last) {
            assert(!kept_before.contains(last));
            assert(kept == kept_before.push(last));
            assert forall|i: int, j: int| 0 <= i < kept.len() && 0 <= j < kept.len() && i != j
                implies kept[i] != kept[j] by {
                if i < kept_before.len() && j < kept_before.len() {
                } else if i < kept_before.len() {
                    assert(kept_before.contains(kept[i]));
                } else {
                    assert(kept_before.contains(kept[j]));
                }
            }
        }
    } else {
        assert forall|phenotype: AgingPhenotype| !kept.contains(phenotype) by {}
    }
}

/// The list of active phenotypes holds exactly the phenotypes that the
/// signals call for, and none of them twice.
pub proof fn lemma_active_phenotypes(signals: PhenotypeSignals)
    ensures
        forall|phenotype: AgingPhenotype|
            active_under(signals).contains(phenotype) <==> signals.shows(phenotype),
        active_under(signals).no_duplicates(),
{
    let order = report_order();
    lemma_filtered_prefix(signals, 9);
    assert(order.take(9) == order);
    assert forall|phenotype: AgingPhenotype|
        active_under(signals).contains(phenotype) <==> signals.shows(phenotype) by {
        if signals.shows(phenotype) {
            let at: int = match phenotype {
                AgingPhenotype::ReducedProliferation => 0,
                AgingPhenotype::ProteinAggregation => 1,
                AgingPhenotype::MitochondrialDysfunction => 2,
                AgingPhenotype::EpigeneticChanges => 3,
                AgingPhenotype::SenescentAccumulation => 4,
                AgingPhenotype::SignalingDysregulation => 5,
                AgingPhenotype::ProteostasisLoss => 6,
                AgingPhenotype::StemCellExhaustion => 7,
                _ => 8,
            };
            assert(order[at] == phenotype);
            assert(order.contains(phenotype));
        }
    }
}

} // verus!
