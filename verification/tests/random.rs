use cell_dt::random::{draw_falls_below, DRAW_RANGE, EVEN_CHANCE};

#[test]
fn a_draw_stands_for_its_upper_24_bits() {
    assert_eq!(DRAW_RANGE, 1 << 24);
    assert_eq!(EVEN_CHANCE, 1 << 23);
    assert!(draw_falls_below(0, 1));
    assert!(draw_falls_below(255, 1));
    assert!(!draw_falls_below(256, 1));
    assert!(draw_falls_below(256, 2));
    assert!(draw_falls_below((1 << 31) - 1, EVEN_CHANCE));
    assert!(!draw_falls_below(1 << 31, EVEN_CHANCE));
}

#[test]
fn no_draw_falls_below_zero_and_every_draw_below_the_range() {
    for draw in [0u32, 1, 255, 256, 1 << 16, 1 << 31, u32::MAX - 1, u32::MAX] {
        assert!(!draw_falls_below(draw, 0));
        assert!(draw_falls_below(draw, DRAW_RANGE));
        assert!(draw_falls_below(draw, u32::MAX));
    }
    assert!(!draw_falls_below(u32::MAX, DRAW_RANGE - 1));
    assert!(draw_falls_below(u32::MAX - 256, DRAW_RANGE - 1));
}

#[test]
fn the_point_of_a_draw_is_below_a_probability_exactly_where_the_draw_is_below_its_level() {
    let scale = DRAW_RANGE as f32;
    for probability in [0.0f32, 1.0e-7, 0.001, 0.25, 0.5, 0.75, 0.999_999, 1.0] {
        let level = (probability * scale).ceil() as u32;
        for draw in [0u32, 1 << 8, 1 << 20, 1 << 30, 1 << 31, 3 << 30, u32::MAX] {
            let point = (draw >> 8) as f32 / scale;
            assert_eq!(draw_falls_below(draw, level), point < probability);
        }
    }
}
