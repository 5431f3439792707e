use raytracer_rs::pixel::Pixel;

fn scale_pixel(p: Pixel, factor: f32) -> Pixel {
    Pixel::clamped(
        (p.red as f32 * factor) as i64,
        (p.green as f32 * factor) as i64,
        (p.blue as f32 * factor) as i64,
    )
}

#[test]
fn new_keeps_the_three_channels() {
    let p = Pixel::new(1, 2, 3);
    assert_eq!(p.red, 1);
    assert_eq!(p.green, 2);
    assert_eq!(p.blue, 3);
    assert_eq!(p, Pixel { red: 1, green: 2, blue: 3 });
}

#[test]
fn add_saturates_every_channel() {
    let sum = Pixel::new(200, 200, 200).add(Pixel::new(100, 100, 100));
    assert_eq!(sum, Pixel::new(255, 255, 255));
}

#[test]
fn add_is_exact_while_the_sum_fits() {
    assert_eq!(Pixel::new(1, 2, 3).add(Pixel::new(4, 5, 6)), Pixel::new(5, 7, 9));
    assert_eq!(Pixel::new(0, 0, 0).add(Pixel::new(0, 0, 0)), Pixel::new(0, 0, 0));
    assert_eq!(Pixel::new(200, 254, 0).add(Pixel::new(55, 1, 255)), Pixel::new(255, 255, 255));
}

#[test]
fn add_saturates_channels_one_by_one() {
    assert_eq!(Pixel::new(200, 10, 255).add(Pixel::new(56, 20, 255)), Pixel::new(255, 30, 255));
    assert_eq!(Pixel::new(255, 0, 128).add(Pixel::new(1, 0, 128)), Pixel::new(255, 0, 255));
}

#[test]
fn add_never_wraps_for_any_pair_of_channel_values() {
    for a in 0..=255u16 {
        for b in 0..=255u16 {
            let sum = Pixel::new(a as u8, 0, 255).add(Pixel::new(b as u8, b as u8, a as u8));
            assert_eq!(sum.red as u16, (a + b).min(255));
            assert_eq!(sum.green as u16, b);
            assert_eq!(sum.blue, 255);
        }
    }
}

#[test]
fn add_does_not_depend_on_operand_order() {
    let a = Pixel::new(12, 250, 99);
    let b = Pixel::new(200, 9, 156);
    assert_eq!(a.add(b), b.add(a));
    assert_eq!(a.add(b), Pixel::new(212, 255, 255));
}

#[test]
fn clamped_keeps_values_in_range() {
    assert_eq!(Pixel::clamped(0, 128, 255), Pixel::new(0, 128, 255));
}

#[test]
fn clamped_cuts_off_below_and_above() {
    assert_eq!(Pixel::clamped(-1, 256, 400), Pixel::new(0, 255, 255));
    assert_eq!(Pixel::clamped(i64::MIN, i64::MAX, 1), Pixel::new(0, 255, 1));
}

#[test]
fn scale_by_two_clamps_red_and_doubles_green() {
    assert_eq!(scale_pixel(Pixel::new(200, 10, 0), 2.0), Pixel::new(255, 20, 0));
}

#[test]
fn scale_by_a_negative_factor_is_black() {
    assert_eq!(scale_pixel(Pixel::new(200, 10, 1), -1.5), Pixel::new(0, 0, 0));
}

#[test]
fn scale_truncates_towards_zero() {
    assert_eq!(scale_pixel(Pixel::new(25, 127, 255), 0.5), Pixel::new(12, 63, 127));
    assert_eq!(scale_pixel(Pixel::new(255, 255, 255), 0.0), Pixel::new(0, 0, 0));
    assert_eq!(scale_pixel(Pixel::new(3, 7, 9), 1.0), Pixel::new(3, 7, 9));
}

#[test]
fn scale_by_a_huge_or_undefined_factor_stays_in_range() {
    assert_eq!(scale_pixel(Pixel::new(1, 0, 255), f32::INFINITY).red, 255);
    assert_eq!(scale_pixel(Pixel::new(1, 1, 1), f32::NAN), Pixel::new(0, 0, 0));
    assert_eq!(scale_pixel(Pixel::new(1, 2, 3), 1.0e30), Pixel::new(255, 255, 255));
}
