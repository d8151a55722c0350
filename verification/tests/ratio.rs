use css_colors::{percent, Ratio};

fn from_f32(float: f32) -> Ratio {
    assert!(float >= 0.0, "Invalid ratio for type f32");
    assert!(float <= 1.0, "Invalid ratio for type f32");
    Ratio::from_u8((float * 255.0).round() as u8)
}

fn as_f32(ratio: Ratio) -> f32 {
    ratio.as_u8() as f32 / 255.0
}

#[test]
#[should_panic]
fn ratio_handles_invalid_percentage() {
    Ratio::checked_from_percentage(101).unwrap();
}

#[test]
#[should_panic]
fn mod_handles_invalid_percentage() {
    Ratio::checked_from_percentage(101).unwrap();
}

#[test]
fn can_clamp_percentage() {
    assert_eq!(
        Ratio::from_percentage(50) + Ratio::from_percentage(55),
        Ratio::from_percentage(100)
    );
    assert_eq!(
        Ratio::from_percentage(50) - Ratio::from_percentage(55),
        Ratio::from_percentage(0)
    );
    assert_eq!(
        Ratio::from_percentage(55) / Ratio::from_percentage(50),
        Ratio::from_percentage(100)
    );
}

#[test]
fn can_clamp_f32() {
    assert_eq!(from_f32(0.75) + from_f32(0.75), from_f32(1.0));
    assert_eq!(from_f32(0.25) - from_f32(0.75), from_f32(0.0));
    assert_eq!(from_f32(0.75) / from_f32(0.25), from_f32(1.0));
}

#[test]
fn ratio_adds_percentage() {
    let a = Ratio::from_percentage(55);
    let b = Ratio::from_percentage(45);
    let c = Ratio::from_percentage(10);

    assert_eq!(a + b, Ratio::from_percentage(100));
    assert_eq!(a + c, Ratio::from_percentage(65));
}

#[test]
fn ratio_subtracts_percentage() {
    let a = Ratio::from_percentage(45);
    let b = Ratio::from_percentage(10);
    let c = Ratio::from_percentage(1);

    assert_eq!(a - b, Ratio::from_percentage(35));
    assert_eq!(b - c, Ratio::from_percentage(9));
}

#[test]
fn ratio_multiplies_percentage() {
    let a = Ratio::from_percentage(100);
    let b = Ratio::from_percentage(50);
    let c = Ratio::from_percentage(20);

    assert_eq!(a * a, Ratio::from_percentage(100));
    assert_eq!(b * b, Ratio::from_percentage(25));
    assert_eq!(c * c, Ratio::from_percentage(4));

    assert_eq!(a * b, Ratio::from_percentage(50));
    assert_eq!(b * a, Ratio::from_percentage(50));

    assert_eq!(a * c, Ratio::from_percentage(20));
    assert_eq!(c * a, Ratio::from_percentage(20));

    assert_eq!(b * c, Ratio::from_percentage(10));
    assert_eq!(c * b, Ratio::from_percentage(10));
}

#[test]
fn ratio_divides_percentage() {
    let a = Ratio::from_percentage(100);
    let b = Ratio::from_percentage(50);
    let c = Ratio::from_percentage(20);

    assert_eq!(a / a, Ratio::from_percentage(100));
    assert_eq!(b / b, Ratio::from_percentage(100));
    assert_eq!(c / c, Ratio::from_percentage(100));

    assert_eq!(b / a, Ratio::from_percentage(50));
    assert_eq!(c / a, Ratio::from_percentage(20));
    assert_eq!(c / b, Ratio::from_percentage(40));
}

#[test]
fn ratio_adds_f32() {
    let a = from_f32(0.55);
    let b = from_f32(0.45);
    let c = from_f32(0.10);

    assert_eq!(a + b, from_f32(1.0));
    assert_eq!(c + c, Ratio::from_u8(52));
    assert_eq!(b + c, Ratio::from_u8(141));
}

#[test]
fn ratio_subtracts_f32() {
    let a = from_f32(0.55);
    let b = from_f32(0.45);
    let c = from_f32(0.10);

    assert_eq!(b - c, from_f32(0.35));
    assert_eq!(a - b, Ratio::from_u8(25));
    assert_eq!(a - c, Ratio::from_u8(114));
}

#[test]
fn ratio_multiplies_f32() {
    let a = from_f32(0.5);
    let b = from_f32(0.25);

    assert_eq!(a * b, from_f32(0.125));
    assert_eq!(a * a, from_f32(0.25));
    assert_eq!(b * b, from_f32(0.0625));
}

#[test]
fn ratio_divides_f32() {
    let a = from_f32(0.25);
    let b = from_f32(0.50);
    let c = from_f32(1.00);

    assert_eq!(a / b, from_f32(0.5));
    assert_eq!(a / c, from_f32(0.25));
    assert_eq!(b / c, from_f32(0.5));
}

#[test]
fn mod_adds_percentage() {
    let a = Ratio::from_percentage(55);
    let b = Ratio::from_percentage(45);
    let c = Ratio::from_percentage(10);

    assert_eq!(a + b, Ratio::from_percentage(100));
    assert_eq!(a + c, Ratio::from_percentage(65));
}

#[test]
fn mod_subtracts_percentage() {
    let a = Ratio::from_percentage(45);
    let b = Ratio::from_percentage(10);
    let c = Ratio::from_percentage(1);

    assert_eq!(a - b, Ratio::from_percentage(35));
    assert_eq!(b - c, Ratio::from_percentage(9));
}

#[test]
fn mod_adds_f32() {
    let a = from_f32(0.55);
    let b = from_f32(0.45);
    let c = from_f32(0.10);

    assert_eq!(a + b, from_f32(1.0));
    assert_eq!(c + c, Ratio::from_u8(52));
}

#[test]
fn mod_subtracts_f32() {
    let a = from_f32(0.55);
    let b = from_f32(0.45);
    let c = from_f32(0.10);

    assert_eq!(b - c, from_f32(0.35));
    assert_eq!(a - b, Ratio::from_u8(25));
}

#[test]
fn percentages_are_rejected_above_the_whole() {
    assert_eq!(Ratio::checked_from_percentage(100), Some(Ratio::from_u8(255)));
    assert_eq!(Ratio::checked_from_percentage(0), Some(Ratio::from_u8(0)));
    assert_eq!(Ratio::checked_from_percentage(101), None);
    assert_eq!(Ratio::checked_from_percentage(255), None);
}

#[test]
fn percentages_round_to_the_nearest_byte() {
    assert_eq!(percent(0).as_u8(), 0);
    assert_eq!(percent(1).as_u8(), 3);
    assert_eq!(percent(2).as_u8(), 5);
    assert_eq!(percent(10).as_u8(), 26);
    assert_eq!(percent(25).as_u8(), 64);
    assert_eq!(percent(50).as_u8(), 128);
    assert_eq!(percent(93).as_u8(), 237);
    assert_eq!(percent(71).as_u8(), 181);
    assert_eq!(percent(100).as_u8(), 255);
}

#[test]
fn percentages_agree_with_the_fractions_they_stand_for() {
    for p in 0u8..=100 {
        let expected = ((p as f32 / 100.0) * 255.0).round() as u8;
        assert_eq!(Ratio::from_percentage(p).as_u8(), expected);
        assert_eq!(Ratio::from_percentage(p).as_percentage(), p);
    }
    for m in 0u8..=255 {
        let expected = (m as f32 / 255.0 * 100.0).round() as u8;
        assert_eq!(Ratio::from_u8(m).as_percentage(), expected);
        assert_eq!(Ratio::from_u8(m).as_u8(), m);
    }
}

#[test]
fn sums_and_differences_stay_in_range() {
    for x in 0u8..=255 {
        for y in 0u8..=255 {
            let a = Ratio::from_u8(x);
            let b = Ratio::from_u8(y);
            assert!(as_f32(a + b) <= 1.0);
            assert!(as_f32(a - b) >= 0.0);
            assert_eq!((a + b).as_u8(), x.saturating_add(y));
            assert_eq!((a - b).as_u8(), x.saturating_sub(y));
        }
    }
}

#[test]
fn products_round_to_the_nearest_byte() {
    assert_eq!((Ratio::from_u8(3) * Ratio::from_u8(5)).as_u8(), 0);
    assert_eq!((Ratio::from_u8(128) * Ratio::from_u8(128)).as_u8(), 64);
    assert_eq!((Ratio::from_u8(255) * Ratio::from_u8(77)).as_u8(), 77);
    assert_eq!((Ratio::from_u8(0) * Ratio::from_u8(255)).as_u8(), 0);
    assert_eq!((Ratio::from_u8(200) * Ratio::from_u8(100)).as_u8(), 78);
    for x in 0u8..=255 {
        for y in 0u8..=255 {
            let expected = ((x as f32 / 255.0) * (y as f32 / 255.0) * 255.0).round() as u8;
            assert_eq!((Ratio::from_u8(x) * Ratio::from_u8(y)).as_u8(), expected);
        }
    }
}

#[test]
fn quotients_round_and_clamp() {
    assert_eq!((Ratio::from_u8(0) / Ratio::from_u8(0)).as_u8(), 0);
    assert_eq!((Ratio::from_u8(1) / Ratio::from_u8(0)).as_u8(), 255);
    assert_eq!((Ratio::from_u8(0) / Ratio::from_u8(9)).as_u8(), 0);
    assert_eq!((Ratio::from_u8(9) / Ratio::from_u8(9)).as_u8(), 255);
    assert_eq!((Ratio::from_u8(200) / Ratio::from_u8(100)).as_u8(), 255);
    assert_eq!((Ratio::from_u8(1) / Ratio::from_u8(2)).as_u8(), 128);
    assert_eq!((Ratio::from_u8(1) / Ratio::from_u8(3)).as_u8(), 85);
    assert_eq!((Ratio::from_u8(3) / Ratio::from_u8(10)).as_u8(), 77);
    assert_eq!((Ratio::from_u8(100) / Ratio::from_u8(200)).as_u8(), 128);
    assert_eq!((Ratio::from_u8(51) / Ratio::from_u8(128)).as_u8(), 102);
}

#[test]
fn ratios_are_ordered_by_magnitude() {
    assert!(Ratio::from_u8(3) < Ratio::from_u8(4));
    assert!(percent(50) > percent(49));
    assert_eq!(percent(100), Ratio::from_u8(255));
    assert_ne!(percent(50), Ratio::from_u8(127));
}

#[test]
fn ratios_print_as_percentages() {
    assert_eq!(percent(0).to_string(), "0%");
    assert_eq!(percent(25).to_string(), "25%");
    assert_eq!(percent(100).to_string(), "100%");
    assert_eq!(Ratio::from_u8(128).to_string(), "50%");
    assert_eq!(Ratio::from_u8(1).to_string(), "0%");
    assert_eq!(Ratio::from_u8(2).to_string(), "1%");
}
