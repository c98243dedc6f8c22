use virtual_joystick::geometry::{
    circular_delta, clamp_to_circle, Rect, Vec2, COORD_MAX, DELTA_ONE, OFFSET_MAX,
};
use virtual_joystick::math::{divide_toward_zero, integer_sqrt};

#[test]
fn integer_sqrt_of_small_numbers() {
    assert_eq!(integer_sqrt(0), 0);
    assert_eq!(integer_sqrt(1), 1);
    assert_eq!(integer_sqrt(2), 1);
    assert_eq!(integer_sqrt(3), 1);
    assert_eq!(integer_sqrt(4), 2);
    assert_eq!(integer_sqrt(15), 3);
    assert_eq!(integer_sqrt(16), 4);
    assert_eq!(integer_sqrt(17), 4);
    assert_eq!(integer_sqrt(2500), 50);
}

#[test]
fn integer_sqrt_of_large_numbers() {
    assert_eq!(integer_sqrt(u128::MAX), u64::MAX);
    assert_eq!(integer_sqrt(1u128 << 126), 1u64 << 63);
    assert_eq!(integer_sqrt((1u128 << 126) - 1), (1u64 << 63) - 1);
    assert_eq!(integer_sqrt(1_000_000_000_000_000_000_000_000), 1_000_000_000_000);
}

#[test]
fn integer_sqrt_brackets_its_argument() {
    for n in 0u128..2000 {
        let r = integer_sqrt(n) as u128;
        assert!(r * r <= n);
        assert!(n < (r + 1) * (r + 1));
    }
}

#[test]
fn division_rounds_toward_zero() {
    assert_eq!(divide_toward_zero(7, 2), 3);
    assert_eq!(divide_toward_zero(-7, 2), -3);
    assert_eq!(divide_toward_zero(7, -2), -3);
    assert_eq!(divide_toward_zero(-7, -2), 3);
    assert_eq!(divide_toward_zero(0, 5), 0);
    assert_eq!(divide_toward_zero(6, 3), 2);
}

#[test]
fn division_by_zero_is_zero() {
    assert_eq!(divide_toward_zero(5, 0), 0);
    assert_eq!(divide_toward_zero(-5, 0), 0);
    assert_eq!(divide_toward_zero(0, 0), 0);
}

#[test]
fn constants_have_their_documented_values() {
    assert_eq!(DELTA_ONE, 1000);
    assert_eq!(COORD_MAX, 1 << 24);
    assert_eq!(OFFSET_MAX, 1 << 27);
}

#[test]
fn vectors_are_built_from_coordinates() {
    let v = Vec2::new(3, -4);
    assert_eq!(v.x, 3);
    assert_eq!(v.y, -4);
    assert_eq!(Vec2::zero(), Vec2::new(0, 0));
    assert_eq!(Vec2::default(), Vec2::new(0, 0));
}

#[test]
fn vectors_add_and_subtract() {
    let a = Vec2::new(10, 20);
    let b = Vec2::new(3, -4);
    assert_eq!(a.offset_from(b), Vec2::new(7, 24));
    assert_eq!(a.moved_by(b), Vec2::new(13, 16));
    assert_eq!(a.offset_from(a), Vec2::zero());
}

#[test]
fn fits_compares_magnitudes() {
    assert!(Vec2::new(5, -5).fits(5));
    assert!(!Vec2::new(6, 0).fits(5));
    assert!(!Vec2::new(0, -6).fits(5));
    assert!(Vec2::new(COORD_MAX, -COORD_MAX).fits(COORD_MAX));
    assert!(!Vec2::new(COORD_MAX + 1, 0).fits(COORD_MAX));
    assert!(!Vec2::new(0, 0).fits(-1));
    assert!(Vec2::new(i32::MIN, i32::MAX).fits(i32::MAX) == false);
}

#[test]
fn rect_contains_its_edges() {
    let rect = Rect::from_center_half_size(Vec2::new(100, 100), Vec2::new(50, 50));
    assert!(rect.contains(Vec2::new(100, 100)));
    assert!(rect.contains(Vec2::new(50, 50)));
    assert!(rect.contains(Vec2::new(150, 150)));
    assert!(rect.contains(Vec2::new(50, 150)));
    assert!(!rect.contains(Vec2::new(151, 100)));
    assert!(!rect.contains(Vec2::new(49, 100)));
    assert!(!rect.contains(Vec2::new(100, 151)));
    assert!(!rect.contains(Vec2::new(100, 49)));
}

#[test]
fn empty_rect_contains_only_its_center() {
    let rect = Rect::from_center_half_size(Vec2::new(7, 9), Vec2::zero());
    assert!(rect.contains(Vec2::new(7, 9)));
    assert!(!rect.contains(Vec2::new(8, 9)));
    assert!(!rect.contains(Vec2::new(7, 8)));
}

#[test]
fn rect_contains_does_not_overflow() {
    let rect = Rect::from_center_half_size(Vec2::new(i32::MAX, i32::MIN), Vec2::new(i32::MAX, i32::MAX));
    assert!(rect.contains(Vec2::new(i32::MAX, i32::MIN)));
    assert!(rect.contains(Vec2::new(0, -1)));
    assert!(!rect.contains(Vec2::new(-1, 0)));
}

#[test]
fn rect_corners() {
    let rect = Rect::from_center_half_size(Vec2::new(100, 200), Vec2::new(50, 20));
    assert_eq!(rect.min(), Vec2::new(50, 180));
    assert_eq!(rect.max(), Vec2::new(150, 220));
    assert_eq!(rect.center, Vec2::new(100, 200));
    assert_eq!(rect.half_size, Vec2::new(50, 20));
}

#[test]
fn rect_from_size_halves_toward_zero() {
    let rect = Rect::from_center_size(Vec2::new(1, 2), Vec2::new(101, 100));
    assert_eq!(rect.center, Vec2::new(1, 2));
    assert_eq!(rect.half_size, Vec2::new(50, 50));
    let odd = Rect::from_center_size(Vec2::zero(), Vec2::new(1, 3));
    assert_eq!(odd.half_size, Vec2::new(0, 1));
}

#[test]
fn rect_well_formedness_is_checked() {
    assert!(Rect::from_center_half_size(Vec2::new(0, 0), Vec2::new(0, 0)).is_wf());
    assert!(Rect::from_center_half_size(Vec2::new(COORD_MAX, -COORD_MAX), Vec2::new(COORD_MAX, 1)).is_wf());
    assert!(!Rect::from_center_half_size(Vec2::new(COORD_MAX + 1, 0), Vec2::new(1, 1)).is_wf());
    assert!(!Rect::from_center_half_size(Vec2::new(0, 0), Vec2::new(-1, 1)).is_wf());
    assert!(!Rect::from_center_half_size(Vec2::new(0, 0), Vec2::new(1, COORD_MAX + 1)).is_wf());
}

#[test]
fn offset_within_the_circle_is_kept() {
    assert_eq!(clamp_to_circle(Vec2::new(0, 0), 50), Vec2::new(0, 0));
    assert_eq!(clamp_to_circle(Vec2::new(10, -20), 50), Vec2::new(10, -20));
    assert_eq!(clamp_to_circle(Vec2::new(30, 40), 50), Vec2::new(30, 40));
    assert_eq!(clamp_to_circle(Vec2::new(-50, 0), 50), Vec2::new(-50, 0));
}

#[test]
fn offset_beyond_the_circle_is_scaled_to_the_rim() {
    assert_eq!(clamp_to_circle(Vec2::new(75, 0), 50), Vec2::new(50, 0));
    assert_eq!(clamp_to_circle(Vec2::new(-75, 0), 50), Vec2::new(-50, 0));
    assert_eq!(clamp_to_circle(Vec2::new(0, 1000), 50), Vec2::new(0, 50));
    assert_eq!(clamp_to_circle(Vec2::new(60, 80), 50), Vec2::new(30, 40));
    assert_eq!(clamp_to_circle(Vec2::new(-60, 80), 50), Vec2::new(-30, 40));
    assert_eq!(clamp_to_circle(Vec2::new(60, -80), 50), Vec2::new(30, -40));
}

#[test]
fn clamped_coordinates_round_toward_zero() {
    // 50 / sqrt(2) is 35.35..
    assert_eq!(clamp_to_circle(Vec2::new(60, 60), 50), Vec2::new(35, 35));
    assert_eq!(clamp_to_circle(Vec2::new(-60, -60), 50), Vec2::new(-35, -35));
    // (1, 2) scaled to length 1 is (0.44.., 0.89..)
    assert_eq!(clamp_to_circle(Vec2::new(1, 2), 1), Vec2::new(0, 0));
    // (100, 1) scaled to length 10 is (9.99.., 0.09..)
    assert_eq!(clamp_to_circle(Vec2::new(100, 1), 10), Vec2::new(9, 0));
}

#[test]
fn clamp_to_a_point_and_to_a_negative_radius() {
    assert_eq!(clamp_to_circle(Vec2::new(3, 4), 0), Vec2::new(0, 0));
    assert_eq!(clamp_to_circle(Vec2::new(75, 0), -50), Vec2::new(50, 0));
}

#[test]
fn clamp_of_extreme_offsets() {
    assert_eq!(clamp_to_circle(Vec2::new(i32::MAX, 0), 7), Vec2::new(7, 0));
    assert_eq!(clamp_to_circle(Vec2::new(i32::MIN, 0), 7), Vec2::new(-7, 0));
    assert_eq!(clamp_to_circle(Vec2::new(0, i32::MIN), i32::MAX), Vec2::new(0, -i32::MAX));
    assert_eq!(clamp_to_circle(Vec2::new(i32::MIN, i32::MIN), i32::MIN), Vec2::new(-1518500249, -1518500249));
}

#[test]
fn clamped_offset_never_leaves_the_circle() {
    let radius: i64 = 13;
    for x in -40i32..=40 {
        for y in -40i32..=40 {
            let c = clamp_to_circle(Vec2::new(x, y), radius as i32);
            let len_sq = (c.x as i64) * (c.x as i64) + (c.y as i64) * (c.y as i64);
            assert!(len_sq <= radius * radius);
            assert!(c.x.abs() <= x.abs() && c.y.abs() <= y.abs());
            assert!(c.x == 0 || (c.x > 0) == (x > 0));
            assert!(c.y == 0 || (c.y > 0) == (y > 0));
            let far = (x as i64) * (x as i64) + (y as i64) * (y as i64) > radius * radius;
            if far {
                let grown = (c.x.abs() as i64 + 1) * (c.x.abs() as i64 + 1)
                    + (c.y.abs() as i64 + 1) * (c.y.abs() as i64 + 1);
                assert!(grown > radius * radius);
            } else {
                assert_eq!(c, Vec2::new(x, y));
            }
        }
    }
}

#[test]
fn circular_delta_of_a_far_pointer_is_one() {
    let half = Vec2::new(50, 50);
    assert_eq!(circular_delta(Vec2::new(75, 0), half, half), Vec2::new(DELTA_ONE, 0));
    assert_eq!(circular_delta(Vec2::new(-75, 0), half, half), Vec2::new(-DELTA_ONE, 0));
    assert_eq!(circular_delta(Vec2::new(50, 0), half, half), Vec2::new(DELTA_ONE, 0));
    assert_eq!(circular_delta(Vec2::new(1_000_000, 0), half, half), Vec2::new(DELTA_ONE, 0));
}

#[test]
fn circular_delta_points_up_for_a_pointer_above() {
    let half = Vec2::new(50, 50);
    assert_eq!(circular_delta(Vec2::new(0, -25), half, half), Vec2::new(0, 500));
    assert_eq!(circular_delta(Vec2::new(0, 25), half, half), Vec2::new(0, -500));
    assert_eq!(circular_delta(Vec2::new(0, 75), half, half), Vec2::new(0, -DELTA_ONE));
    assert_eq!(circular_delta(Vec2::new(0, -75), half, half), Vec2::new(0, DELTA_ONE));
}

#[test]
fn circular_delta_inside_the_base_is_proportional() {
    let half = Vec2::new(50, 50);
    assert_eq!(circular_delta(Vec2::new(0, 0), half, half), Vec2::new(0, 0));
    assert_eq!(circular_delta(Vec2::new(10, -20), half, half), Vec2::new(200, 400));
    assert_eq!(circular_delta(Vec2::new(30, 40), half, half), Vec2::new(600, -800));
    assert_eq!(circular_delta(Vec2::new(60, 80), half, half), Vec2::new(600, -800));
    assert_eq!(circular_delta(Vec2::new(60, 60), half, half), Vec2::new(700, -700));
}

#[test]
fn circular_delta_rounds_toward_zero() {
    let half = Vec2::new(3, 3);
    assert_eq!(circular_delta(Vec2::new(1, 0), half, half), Vec2::new(333, 0));
    assert_eq!(circular_delta(Vec2::new(-1, 0), half, half), Vec2::new(-333, 0));
    assert_eq!(circular_delta(Vec2::new(2, -2), half, half), Vec2::new(666, 666));
}

#[test]
fn circular_delta_scales_each_axis_by_its_normalizer() {
    let half = Vec2::new(50, 100);
    assert_eq!(circular_delta(Vec2::new(30, 40), half, half), Vec2::new(600, -400));
    let uniform = Vec2::new(50, 50);
    assert_eq!(circular_delta(Vec2::new(30, 40), half, uniform), Vec2::new(600, -800));
}

#[test]
fn circular_delta_is_limited_by_axis() {
    let half = Vec2::new(50, 10);
    assert_eq!(circular_delta(Vec2::new(0, 30), half, half), Vec2::new(0, -DELTA_ONE));
    assert_eq!(circular_delta(Vec2::new(0, -30), half, half), Vec2::new(0, DELTA_ONE));
    assert_eq!(circular_delta(Vec2::new(40, 30), half, half), Vec2::new(800, -DELTA_ONE));
}

#[test]
fn circular_delta_of_a_base_without_width_is_zero() {
    let half = Vec2::new(0, 50);
    assert_eq!(circular_delta(Vec2::new(30, 40), half, half), Vec2::new(0, 0));
    assert_eq!(circular_delta(Vec2::new(0, 0), half, half), Vec2::new(0, 0));
}

#[test]
fn circular_delta_of_a_base_without_height_has_no_vertical_part() {
    let half = Vec2::new(50, 0);
    assert_eq!(circular_delta(Vec2::new(25, 10), half, half), Vec2::new(500, 0));
}

#[test]
fn uniform_circular_delta_stays_in_the_unit_circle() {
    let half = Vec2::new(17, 5);
    let uniform = Vec2::new(17, 17);
    for x in -60i32..=60 {
        for y in -60i32..=60 {
            let d = circular_delta(Vec2::new(x, y), half, uniform);
            let len_sq = (d.x as i64) * (d.x as i64) + (d.y as i64) * (d.y as i64);
            assert!(len_sq <= (DELTA_ONE as i64) * (DELTA_ONE as i64));
        }
    }
}
