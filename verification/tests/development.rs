use cell_dt::components::DevelopmentalStage;
use cell_dt::development::{
    stage_for_age, update_stage, HumanDevelopmentalStage, TICKS_PER_DAY, TICKS_PER_YEAR,
};

const STARTS: [(u64, HumanDevelopmentalStage); 15] = [
    (0, HumanDevelopmentalStage::Zygote),
    (1, HumanDevelopmentalStage::Cleavage),
    (3, HumanDevelopmentalStage::Morula),
    (4, HumanDevelopmentalStage::Blastocyst),
    (7, HumanDevelopmentalStage::Implantation),
    (14, HumanDevelopmentalStage::Gastrulation),
    (21, HumanDevelopmentalStage::Neurulation),
    (28, HumanDevelopmentalStage::Organogenesis),
    (56, HumanDevelopmentalStage::Fetal),
    (280, HumanDevelopmentalStage::Newborn),
    (365, HumanDevelopmentalStage::Childhood),
    (4380, HumanDevelopmentalStage::Adolescence),
    (6570, HumanDevelopmentalStage::Adult),
    (18250, HumanDevelopmentalStage::MiddleAge),
    (25550, HumanDevelopmentalStage::Elderly),
];

#[test]
fn each_stage_begins_on_its_first_day() {
    for (at, (day, stage)) in STARTS.iter().enumerate() {
        assert_eq!(HumanDevelopmentalStage::for_age_days(*day), *stage);
        if at > 0 {
            assert_eq!(HumanDevelopmentalStage::for_age_days(*day - 1), STARTS[at - 1].1);
        }
    }
}

#[test]
fn stages_hold_between_their_bounds() {
    assert_eq!(HumanDevelopmentalStage::for_age_days(2), HumanDevelopmentalStage::Cleavage);
    assert_eq!(HumanDevelopmentalStage::for_age_days(100), HumanDevelopmentalStage::Fetal);
    assert_eq!(HumanDevelopmentalStage::for_age_days(10_000), HumanDevelopmentalStage::Adult);
    assert_eq!(HumanDevelopmentalStage::for_age_days(u64::MAX), HumanDevelopmentalStage::Elderly);
}

#[test]
fn stages_only_move_forward_with_age() {
    let mut last = 0usize;
    for day in 0..26_000u64 {
        let stage = HumanDevelopmentalStage::for_age_days(day);
        let place = STARTS.iter().position(|(_, s)| *s == stage).unwrap();
        assert!(place >= last);
        last = place;
    }
    assert_eq!(last, 14);
}

#[test]
fn a_stage_is_entered_only_when_it_differs() {
    assert_eq!(update_stage(HumanDevelopmentalStage::Zygote, 0), None);
    assert_eq!(
        update_stage(HumanDevelopmentalStage::Zygote, 1),
        Some(HumanDevelopmentalStage::Cleavage)
    );
    assert_eq!(update_stage(HumanDevelopmentalStage::Cleavage, 2), None);
    assert_eq!(
        update_stage(HumanDevelopmentalStage::Zygote, 30_000),
        Some(HumanDevelopmentalStage::Elderly)
    );
    assert_eq!(
        update_stage(HumanDevelopmentalStage::Elderly, 5),
        Some(HumanDevelopmentalStage::Blastocyst)
    );
}

#[test]
fn a_year_is_365_and_a_quarter_days() {
    assert_eq!(TICKS_PER_DAY, 16);
    assert_eq!(TICKS_PER_YEAR, 5844);
    assert_eq!(4 * TICKS_PER_YEAR, 1461 * TICKS_PER_DAY);
}

#[test]
fn stages_of_life_begin_at_their_boundaries() {
    let starts = [
        (0, DevelopmentalStage::Zygote),
        (TICKS_PER_DAY, DevelopmentalStage::Cleavage),
        (4 * TICKS_PER_DAY, DevelopmentalStage::Blastocyst),
        (14 * TICKS_PER_DAY, DevelopmentalStage::Gastrulation),
        (28 * TICKS_PER_DAY, DevelopmentalStage::Organogenesis),
        (56 * TICKS_PER_DAY, DevelopmentalStage::Fetal),
        (4383, DevelopmentalStage::Postnatal),
        (18 * TICKS_PER_YEAR, DevelopmentalStage::Adult),
        (40 * TICKS_PER_YEAR, DevelopmentalStage::MiddleAge),
        (65 * TICKS_PER_YEAR, DevelopmentalStage::Senescent),
    ];
    for (at, (ticks, stage)) in starts.iter().enumerate() {
        assert_eq!(stage_for_age(*ticks), *stage);
        if at > 0 {
            assert_eq!(stage_for_age(*ticks - 1), starts[at - 1].1);
        }
    }
    assert_eq!(stage_for_age(u64::MAX), DevelopmentalStage::Senescent);
}

#[test]
fn stage_of_life_at_given_ages() {
    assert_eq!(stage_for_age(8), DevelopmentalStage::Zygote);
    assert_eq!(stage_for_age(10 * TICKS_PER_DAY), DevelopmentalStage::Blastocyst);
    assert_eq!(stage_for_age(TICKS_PER_YEAR / 2), DevelopmentalStage::Fetal);
    assert_eq!(stage_for_age(10 * TICKS_PER_YEAR), DevelopmentalStage::Postnatal);
    assert_eq!(stage_for_age(45 * TICKS_PER_YEAR), DevelopmentalStage::MiddleAge);
    assert_eq!(stage_for_age(200 * TICKS_PER_YEAR), DevelopmentalStage::Senescent);
}
