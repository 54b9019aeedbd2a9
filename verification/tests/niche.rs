use cell_dt::aging::{active_phenotypes, AgingPhenotype, PhenotypeSignals};
use cell_dt::components::CentriolarInducers;
use cell_dt::development::HumanDevelopmentalStage;
use cell_dt::niche::{assigned_tissue, NicheState, StepReading};
use cell_dt::random::DRAW_RANGE;
use cell_dt::tissues::HumanTissueType;
use rand::rngs::StdRng;
use rand::SeedableRng;

fn quiet() -> PhenotypeSignals {
    PhenotypeSignals {
        reduced_proliferation: false,
        protein_aggregation: false,
        mitochondrial_dysfunction: false,
        epigenetic_changes: false,
        senescent_accumulation: false,
        signaling_dysregulation: false,
        proteostasis_loss: false,
        stem_cell_exhaustion: false,
        altered_communication: false,
    }
}

fn reading(age_days: u64) -> StepReading {
    StepReading {
        age_days,
        expected_events: 0,
        signals: quiet(),
        is_senescent: false,
        frailty_critical: false,
    }
}

#[test]
fn no_signal_gives_no_phenotype() {
    assert_eq!(active_phenotypes(&quiet()), Vec::<AgingPhenotype>::new());
}

#[test]
fn every_signal_gives_the_whole_report_in_order() {
    let all = PhenotypeSignals {
        reduced_proliferation: true,
        protein_aggregation: true,
        mitochondrial_dysfunction: true,
        epigenetic_changes: true,
        senescent_accumulation: true,
        signaling_dysregulation: true,
        proteostasis_loss: true,
        stem_cell_exhaustion: true,
        altered_communication: true,
    };
    assert_eq!(
        active_phenotypes(&all),
        vec![
            AgingPhenotype::ReducedProliferation,
            AgingPhenotype::ProteinAggregation,
            AgingPhenotype::MitochondrialDysfunction,
            AgingPhenotype::EpigeneticChanges,
            AgingPhenotype::SenescentAccumulation,
            AgingPhenotype::SignalingDysregulation,
            AgingPhenotype::ProteostasisLoss,
            AgingPhenotype::StemCellExhaustion,
            AgingPhenotype::AlteredCommunication,
        ]
    );
}

#[test]
fn signals_are_listed_in_report_order() {
    let mut signals = quiet();
    signals.altered_communication = true;
    signals.protein_aggregation = true;
    signals.stem_cell_exhaustion = true;
    assert_eq!(
        active_phenotypes(&signals),
        vec![
            AgingPhenotype::ProteinAggregation,
            AgingPhenotype::StemCellExhaustion,
            AgingPhenotype::AlteredCommunication,
        ]
    );
    assert!(!signals.calls_for(AgingPhenotype::TelomereShortening));
    assert!(signals.calls_for(AgingPhenotype::ProteinAggregation));
    assert!(!signals.calls_for(AgingPhenotype::ReducedProliferation));
}

#[test]
fn tissues_are_assigned_in_turn() {
    let cycle = [
        HumanTissueType::Neural,
        HumanTissueType::Blood,
        HumanTissueType::Epithelial,
        HumanTissueType::Muscle,
        HumanTissueType::Skin,
    ];
    for index in 0..23usize {
        assert_eq!(assigned_tissue(index), cycle[index % 5]);
    }
    assert_eq!(assigned_tissue(usize::MAX), cycle[usize::MAX % 5]);
}

#[test]
fn a_new_niche_is_a_living_zygote() {
    let niche = NicheState::for_tissue(HumanTissueType::Blood);
    assert_eq!(niche.stage, HumanDevelopmentalStage::Zygote);
    assert_eq!(niche.tissue_type, HumanTissueType::Blood);
    assert_eq!(niche.inducers, CentriolarInducers::zygote(50, 4));
    assert!(niche.active_phenotypes.is_empty());
    assert!(niche.is_alive);
}

#[test]
fn a_step_moves_the_stage_and_reports_it() {
    let mut rng = StdRng::seed_from_u64(1);
    let mut niche = NicheState::for_tissue(HumanTissueType::Neural);
    assert_eq!(niche.step(&reading(0), true, true, &mut rng), None);
    assert_eq!(
        niche.step(&reading(1), true, true, &mut rng),
        Some(HumanDevelopmentalStage::Cleavage)
    );
    assert_eq!(niche.step(&reading(2), true, true, &mut rng), None);
    assert_eq!(niche.stage, HumanDevelopmentalStage::Cleavage);
    assert_eq!(niche.step(&reading(400), false, true, &mut rng), None);
    assert_eq!(niche.stage, HumanDevelopmentalStage::Cleavage);
    assert_eq!(
        niche.step(&reading(400), true, false, &mut rng),
        Some(HumanDevelopmentalStage::Childhood)
    );
    assert!(niche.is_alive);
    assert_eq!(niche.inducers, CentriolarInducers::zygote(50, 4));
}

#[test]
fn a_certain_event_releases_one_inducer() {
    let mut rng = StdRng::seed_from_u64(3);
    let mut niche = NicheState::for_tissue(HumanTissueType::Skin);
    let mut event = reading(10_000);
    event.expected_events = DRAW_RANGE;
    event.signals.reduced_proliferation = true;
    niche.step(&event, true, false, &mut rng);
    assert_eq!(niche.inducers.s_count, 50);
    assert!(niche.active_phenotypes.is_empty());
    niche.step(&event, true, true, &mut rng);
    assert_eq!(niche.inducers.s_count, 49);
    assert_eq!(niche.inducers.differentiation_divisions, 1);
    assert_eq!(niche.active_phenotypes, vec![AgingPhenotype::ReducedProliferation]);
    niche.step(&reading(10_001), true, true, &mut rng);
    assert_eq!(niche.inducers.s_count, 49);
    assert!(niche.active_phenotypes.is_empty());
}

#[test]
fn a_step_with_a_given_draw_is_exact() {
    let mut niche = NicheState::for_tissue(HumanTissueType::Blood);
    let mut event = reading(7);
    event.expected_events = 100;
    assert_eq!(
        niche.step_with_draw(&event, 100 << 8, true, true),
        Some(HumanDevelopmentalStage::Implantation)
    );
    assert_eq!(niche.inducers.s_count, 50);
    assert_eq!(niche.step_with_draw(&event, 99 << 8, true, true), None);
    assert_eq!(niche.inducers.s_count, 49);
    assert_eq!(niche.step_with_draw(&event, 0, true, false), None);
    assert_eq!(niche.inducers.s_count, 49);
    assert!(niche.is_alive);
}

#[test]
fn niches_with_their_own_streams_repeat_under_the_same_seed() {
    let run = |seed: u64| {
        let mut rng = StdRng::seed_from_u64(seed);
        let mut niche = NicheState::for_tissue(HumanTissueType::Neural);
        let mut event = reading(0);
        event.expected_events = DRAW_RANGE / 3;
        for day in 0..300u64 {
            event.age_days = day;
            niche.step(&event, true, true, &mut rng);
        }
        niche.inducers
    };
    assert_eq!(run(1), run(1));
    let left = run(1).s_count;
    assert!(left < 50);
    assert_eq!(run(1).differentiation_divisions, 50 - left);
}

#[test]
fn senescence_or_fatal_frailty_kills_and_death_is_final() {
    let mut rng = StdRng::seed_from_u64(9);
    let untouched = StdRng::seed_from_u64(9);
    for by_frailty in [false, true] {
        let mut niche = NicheState::for_tissue(HumanTissueType::Muscle);
        let mut last = reading(28_000);
        last.is_senescent = !by_frailty;
        last.frailty_critical = by_frailty;
        last.signals.altered_communication = true;
        niche.step(&last, true, false, &mut rng);
        assert!(niche.is_alive);
        niche.step_with_draw(&last, 0, true, true);
        assert!(!niche.is_alive);
        assert_eq!(niche.stage, HumanDevelopmentalStage::Elderly);
        assert_eq!(niche.active_phenotypes, vec![AgingPhenotype::AlteredCommunication]);

        let mut later = reading(3);
        later.expected_events = DRAW_RANGE;
        assert_eq!(niche.step(&later, true, true, &mut rng), None);
        assert!(!niche.is_alive);
        assert_eq!(niche.stage, HumanDevelopmentalStage::Elderly);
        assert_eq!(niche.inducers, CentriolarInducers::zygote(50, 4));
        assert_eq!(niche.active_phenotypes, vec![AgingPhenotype::AlteredCommunication]);
    }
    assert_eq!(rng, untouched);
}
