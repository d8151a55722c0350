use css_colors::{deg, hsla, rgba, Angle, Ratio, HSLA, RGBA};

// The conversions and the mix written out in floating point, as fractions of
// one, to hold the library's integer results against.

fn fraction(ratio: Ratio) -> f64 {
    ratio.as_u8() as f64 / 255.0
}

fn byte(fraction: f64) -> i32 {
    (fraction * 255.0).round() as i32
}

fn close(x: i32, y: i32) -> bool {
    (x - y).abs() <= 1
}

fn close_on_the_circle(x: i32, y: i32) -> bool {
    let apart = (x - y).rem_euclid(360);
    apart <= 1 || apart >= 359
}

fn hsl_by_formula(c: RGBA) -> (i32, i32, i32) {
    let (r, g, b) = (fraction(c.r), fraction(c.g), fraction(c.b));
    if c.r == c.g && c.g == c.b {
        return (0, 0, c.r.as_u8() as i32);
    }
    let max = r.max(g).max(b);
    let min = r.min(g).min(b);
    let luminosity = (max + min) / 2.0;
    let saturation = if luminosity < 0.5 {
        (max - min) / (max + min)
    } else {
        (max - min) / (2.0 - (max + min))
    };
    let hue = if max == r {
        60.0 * (g - b) / (max - min)
    } else if max == g {
        120.0 + 60.0 * (b - r) / (max - min)
    } else {
        240.0 + 60.0 * (r - g) / (max - min)
    };
    (
        (hue.round() as i32).rem_euclid(360),
        byte(saturation),
        byte(luminosity),
    )
}

fn channel_by_formula(degrees: u16, temp_1: f64, temp_2: f64) -> f64 {
    let value = degrees as f64 / 360.0;
    if degrees > 240 {
        temp_2
    } else if degrees > 180 {
        temp_2 + (temp_1 - temp_2) * ((2.0 / 3.0) - value) * 6.0
    } else if degrees > 60 {
        temp_1
    } else {
        temp_2 + (temp_1 - temp_2) * value * 6.0
    }
}

fn rgb_by_formula(c: HSLA) -> (i32, i32, i32) {
    if c.s.as_u8() == 0 {
        let l = c.l.as_u8() as i32;
        return (l, l, l);
    }
    let (s, l) = (fraction(c.s), fraction(c.l));
    let temp_1 = if c.l.as_u8() < 128 {
        l * (1.0 + s)
    } else {
        (l + s) - (l * s)
    };
    let temp_2 = 2.0 * l - temp_1;
    let third = Angle::new(120);
    (
        byte(channel_by_formula((c.h + third).degrees(), temp_1, temp_2)),
        byte(channel_by_formula(c.h.degrees(), temp_1, temp_2)),
        byte(channel_by_formula((c.h - third).degrees(), temp_1, temp_2)),
    )
}

fn weight_by_formula(weight: Ratio, left: Ratio, right: Ratio) -> i32 {
    let w = fraction(weight) * 2.0 - 1.0;
    let a = fraction(left) - fraction(right);
    let opposite = (weight.as_u8() == 255 && left.as_u8() == 0 && right.as_u8() == 255)
        || (weight.as_u8() == 0 && left.as_u8() == 255 && right.as_u8() == 0);
    let combined = if opposite {
        w
    } else {
        (w + a) / (1.0 + w * a)
    };
    byte((combined + 1.0) / 2.0)
}

#[test]
fn rgb_to_hsl_follows_the_formula() {
    for r in (0u8..=255).step_by(5) {
        for g in (0u8..=255).step_by(3) {
            for b in (0u8..=255).step_by(7) {
                let c = rgba(r, g, b, r);
                let got = c.to_hsla();
                let (h, s, l) = hsl_by_formula(c);
                assert!(close_on_the_circle(got.h.degrees() as i32, h), "{:?}", c);
                assert!(close(got.s.as_u8() as i32, s), "{:?}", c);
                assert!(close(got.l.as_u8() as i32, l), "{:?}", c);
                assert_eq!(got.a, c.a);
            }
        }
    }
}

#[test]
fn hsl_to_rgb_follows_the_formula() {
    for h in (0i32..360).step_by(7) {
        for s in (0u8..=255).step_by(5) {
            for l in (0u8..=255).step_by(3) {
                let c = HSLA {
                    h: deg(h),
                    s: Ratio::from_u8(s),
                    l: Ratio::from_u8(l),
                    a: Ratio::from_u8(s),
                };
                let got = c.to_rgba();
                let (r, g, b) = rgb_by_formula(c);
                assert!(close(got.r.as_u8() as i32, r), "{:?}", c);
                assert!(close(got.g.as_u8() as i32, g), "{:?}", c);
                assert!(close(got.b.as_u8() as i32, b), "{:?}", c);
                assert_eq!(got.a, c.a);
            }
        }
    }
}

#[test]
fn hsl_to_rgb_at_the_edges_of_the_sectors() {
    for h in [0, 59, 60, 61, 119, 120, 121, 179, 180, 181, 239, 240, 241, 299, 300, 301, 359] {
        let c = hsla(h, 100, 50, 255);
        let got = c.to_rgba();
        let (r, g, b) = rgb_by_formula(c);
        assert!(close(got.r.as_u8() as i32, r), "{:?}", c);
        assert!(close(got.g.as_u8() as i32, g), "{:?}", c);
        assert!(close(got.b.as_u8() as i32, b), "{:?}", c);
    }
    assert_eq!(hsla(60, 100, 50, 255).to_rgba(), rgba(255, 255, 1, 255));
    assert_eq!(hsla(180, 100, 50, 255).to_rgba(), rgba(1, 255, 255, 255));
    assert_eq!(hsla(300, 100, 50, 255).to_rgba(), rgba(255, 1, 255, 255));
    assert_eq!(hsla(30, 100, 50, 255).to_rgba(), rgba(255, 128, 1, 255));
    assert_eq!(hsla(210, 100, 50, 255).to_rgba(), rgba(1, 128, 255, 255));
}

#[test]
fn mix_follows_the_formula() {
    let levels: [u8; 9] = [0, 1, 64, 127, 128, 191, 200, 254, 255];
    for w in levels {
        for la in levels {
            for ra in levels {
                let left = rgba(255, 128, 0, la);
                let right = rgba(0, 0, 0, ra);
                let weight = Ratio::from_u8(w);
                let got = left.mix(right, weight);
                // Against black the red channel shows the weight itself.
                let expected = weight_by_formula(weight, left.a, right.a);
                assert!(close(got.r.as_u8() as i32, expected), "{} {} {}", w, la, ra);
                assert_eq!(got.b.as_u8(), 0);
                // The alpha is weighed by the weight alone.
                let alpha = fraction(left.a) * fraction(weight)
                    + fraction(right.a) * (1.0 - fraction(weight));
                assert!((got.a.as_u8() as i32 - byte(alpha)).abs() <= 1);
            }
        }
    }
}
