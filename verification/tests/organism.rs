use cell_dt::components::DevelopmentalStage;
use cell_dt::development::{TICKS_PER_DAY, TICKS_PER_YEAR};
use cell_dt::organism::OrganismStatus;

fn deceased() -> OrganismStatus {
    OrganismStatus { developmental_stage: DevelopmentalStage::Death, is_alive: false }
}

#[test]
fn a_new_organism_is_a_living_zygote() {
    let status = OrganismStatus::new();
    assert_eq!(status.developmental_stage, DevelopmentalStage::Zygote);
    assert!(status.is_alive);
    assert_eq!(OrganismStatus::default(), status);
}

#[test]
fn a_living_organism_takes_the_stage_of_its_age() {
    let mut status = OrganismStatus::new();
    assert!(status.advance(20 * TICKS_PER_YEAR, false));
    assert_eq!(
        status,
        OrganismStatus { developmental_stage: DevelopmentalStage::Adult, is_alive: true }
    );
    assert!(status.integrate_frailty(false));
    assert_eq!(
        status,
        OrganismStatus { developmental_stage: DevelopmentalStage::Adult, is_alive: true }
    );
}

#[test]
fn reaching_the_lifespan_kills() {
    let mut status = OrganismStatus::new();
    assert!(status.advance(120 * TICKS_PER_YEAR, true));
    assert_eq!(status, deceased());
}

#[test]
fn fatal_frailty_kills() {
    let mut status = OrganismStatus::new();
    status.advance(50 * TICKS_PER_YEAR, false);
    assert_eq!(status.developmental_stage, DevelopmentalStage::MiddleAge);
    assert!(status.integrate_frailty(true));
    assert_eq!(status, deceased());
}

#[test]
fn death_is_final() {
    let mut status = OrganismStatus::new();
    status.advance(120 * TICKS_PER_YEAR, true);
    for age in [0, 20 * TICKS_PER_YEAR, 121 * TICKS_PER_YEAR] {
        for reached in [false, true] {
            assert!(!status.advance(age, reached));
            assert_eq!(status, deceased());
            assert!(!status.integrate_frailty(reached));
            assert_eq!(status, deceased());
        }
    }
}

#[test]
fn a_living_organism_moves_through_the_stages() {
    let mut status = OrganismStatus::new();
    let mut last = status.developmental_stage;
    for day in 0..25_000u64 {
        assert!(status.advance(day * TICKS_PER_DAY, false));
        assert!(status.is_alive);
        assert_ne!(status.developmental_stage, DevelopmentalStage::Death);
        if status.developmental_stage != last {
            assert_eq!(last.next(), Some(status.developmental_stage));
            last = status.developmental_stage;
        }
    }
    assert_eq!(last, DevelopmentalStage::Senescent);
}
