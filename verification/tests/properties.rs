use css_colors::{deg, hsl, hsla, percent, rgb, rgba, Angle, Ratio, HSLA, RGBA};

fn near(x: Ratio, y: Ratio) -> bool {
    let (x, y) = (x.as_u8() as i32, y.as_u8() as i32);
    (x - y).abs() <= 1
}

#[test]
fn tomato_is_a_light_red() {
    assert_eq!(rgb(255, 99, 71).to_hsl(), hsl(9, 100, 64));
    assert_eq!(rgba(255, 99, 71, 128).to_hsl(), hsl(9, 100, 64));
    assert_eq!(rgb(255, 99, 71).to_hsla(), hsla(9, 100, 64, 255));
    assert_eq!(rgba(255, 99, 71, 128).to_hsla(), hsla(9, 100, 64, 128));
}

#[test]
fn spinning_adds_to_the_hue() {
    assert_eq!(hsl(10, 90, 50).spin(deg(30)), hsl(40, 90, 50));
    assert_eq!(hsl(350, 90, 50).spin(deg(30)), hsl(20, 90, 50));
    assert_eq!(hsla(10, 90, 50, 3).spin(deg(-30)), hsla(340, 90, 50, 3));
    assert_eq!(rgb(243, 13, 90).spin(deg(-30)), rgb(243, 13, 205));
}

#[test]
fn saturating_brown() {
    let got = rgba(172, 96, 83, 255).saturate(percent(20));
    let want = rgba(197, 78, 57, 255);
    assert!(near(got.r, want.r) && near(got.g, want.g) && near(got.b, want.b));
    assert_eq!(got.a, want.a);
    assert_eq!(got, rgba(198, 79, 58, 255));
}

#[test]
fn black_and_white_have_no_hue() {
    assert_eq!(rgb(0, 0, 0).to_hsl(), hsl(0, 0, 0));
    assert_eq!(rgb(255, 255, 255).to_hsl(), hsl(0, 0, 100));
    assert_eq!(hsl(123, 0, 0).to_rgb(), rgb(0, 0, 0));
    assert_eq!(hsl(321, 0, 100).to_rgb(), rgb(255, 255, 255));
    assert_eq!(hsl(77, 100, 100).to_rgb(), rgb(255, 255, 255));
    assert_eq!(hsl(77, 100, 0).to_rgb(), rgb(0, 0, 0));
}

#[test]
fn fading_in_raises_the_alpha() {
    let got = hsla(9, 35, 50, 128).fadein(percent(25));
    assert_eq!(got, hsla(9, 35, 50, 192));
    assert_eq!(got.a.as_u8(), 128 + 64);
    assert_eq!(hsla(9, 35, 50, 250).fadein(percent(25)).a.as_u8(), 255);
    assert_eq!(hsla(9, 35, 50, 10).fadeout(percent(25)).a.as_u8(), 0);
    assert_eq!(rgba(1, 2, 3, 100).fadeout(percent(25)), rgba(1, 2, 3, 36));
}

#[test]
fn the_primary_colors_stand_a_third_of_a_turn_apart() {
    assert_eq!(rgb(255, 0, 0).to_hsl(), hsl(0, 100, 50));
    assert_eq!(rgb(0, 255, 0).to_hsl(), hsl(120, 100, 50));
    assert_eq!(rgb(0, 0, 255).to_hsl(), hsl(240, 100, 50));
    assert_eq!(rgb(255, 255, 0).to_hsl(), hsl(60, 100, 50));
    assert_eq!(rgb(0, 255, 255).to_hsl(), hsl(180, 100, 50));
    assert_eq!(rgb(255, 0, 255).to_hsl(), hsl(300, 100, 50));
    assert_eq!(hsl(0, 100, 50).to_rgb(), rgb(255, 1, 1));
    assert_eq!(hsl(120, 100, 50).to_rgb(), rgb(1, 255, 1));
    assert_eq!(hsl(240, 100, 50).to_rgb(), rgb(1, 1, 255));
}

#[test]
fn a_hue_before_red_comes_out_of_the_last_sixth() {
    assert_eq!(rgb(255, 0, 1).to_hsl().h, Angle::new(0));
    assert_eq!(rgb(255, 0, 3).to_hsl().h, Angle::new(359));
    assert_eq!(rgb(255, 0, 128).to_hsl().h, Angle::new(330));
    assert_eq!(rgb(230, 25, 60).to_hsl().h, Angle::new(350));
}

#[test]
fn the_saturation_is_measured_in_the_half_the_color_lies_in() {
    // Darker half: spread over sum.
    assert_eq!(rgb(100, 50, 50).to_hsl().s.as_u8(), 85);
    assert_eq!(rgb(100, 50, 50).to_hsl().l.as_u8(), 75);
    // Lighter half: spread over what the sum leaves of twice the whole.
    assert_eq!(rgb(250, 200, 200).to_hsl().s.as_u8(), 213);
    assert_eq!(rgb(250, 200, 200).to_hsl().l.as_u8(), 225);
    // The middle, where both agree.
    assert_eq!(rgb(200, 55, 100).to_hsl().s.as_u8(), 145);
    // A half rounds up.
    assert_eq!(rgb(0, 0, 1).to_hsl().l.as_u8(), 1);
}

#[test]
fn grey_round_trips_exactly() {
    for m in 0u8..=255 {
        let grey = rgba(m, m, m, m);
        assert_eq!(grey.to_hsla().to_rgba(), grey);
        assert_eq!(grey.to_hsla().h, Angle::new(0));
        assert_eq!(grey.to_hsla().s, Ratio::from_u8(0));
        assert_eq!(grey.to_hsla().l, Ratio::from_u8(m));
    }
}

#[test]
fn alpha_projection_round_trips_exactly() {
    for m in (0u8..=255).step_by(5) {
        let c = rgb(m, 255 - m, m / 2);
        assert_eq!(c.to_rgba().to_rgb(), c);
        assert_eq!(c.to_rgba().a, Ratio::from_u8(255));
        assert_eq!(c.to_rgb().to_rgb(), c.to_rgb());
        let d = hsl(m as i32, m % 101, (255 - m) % 101);
        assert_eq!(d.to_hsla().to_hsl(), d);
        assert_eq!(d.to_hsla().a, Ratio::from_u8(255));
        let e = rgba(m, 255 - m, m / 2, m);
        assert_eq!(e.to_rgb().to_rgb(), e.to_rgb());
        assert_eq!(e.to_rgba(), e);
    }
}

#[test]
fn round_trips_through_hsl_stay_close() {
    for r in (0u8..=255).step_by(15) {
        for g in (0u8..=255).step_by(17) {
            for b in (0u8..=255).step_by(5) {
                let c = rgba(r, g, b, g);
                let d = c.to_hsla().to_rgba();
                assert_eq!(d.a, c.a);
                let high = r.max(g).max(b);
                let low = r.min(g).min(b);
                for (x, y) in [(c.r, d.r), (c.g, d.g), (c.b, d.b)] {
                    let (x, y) = (x.as_u8() as i32, y.as_u8() as i32);
                    assert!(x - 2 <= y && y <= x + 3);
                    if x == high as i32 || x == low as i32 {
                        assert!(x <= y && y <= x + 1);
                    }
                }
                assert_eq!(c.to_rgb().to_hsl().to_rgb(), d.to_rgb());
            }
        }
    }
    // The hue is kept in whole degrees, so a channel between the greatest and
    // the least may come back up to three units higher or two units lower.
    assert_eq!(rgb(244, 1, 238).to_hsl().to_rgb(), rgb(245, 1, 241));
    assert_eq!(rgb(214, 209, 18).to_hsl().to_rgb(), rgb(214, 207, 18));
}

#[test]
fn greyscale_and_fade_are_idempotent() {
    for (r, g, b, a) in [(128u8, 242u8, 13u8, 255u8), (1, 2, 3, 4), (255, 99, 71, 0), (9, 9, 9, 9)] {
        let c = rgba(r, g, b, a);
        assert_eq!(c.greyscale().greyscale(), c.greyscale());
        assert_eq!(c.to_rgb().greyscale().greyscale(), c.to_rgb().greyscale());
        assert_eq!(c.to_hsla().greyscale().greyscale(), c.to_hsla().greyscale());
        assert_eq!(c.to_hsl().greyscale().greyscale(), c.to_hsl().greyscale());
        let x = Ratio::from_u8(g);
        assert_eq!(c.fade(x).fade(x), c.fade(x));
        assert_eq!(c.to_hsla().fade(x).fade(x), c.to_hsla().fade(x));
        assert_eq!(c.fade(x).a, x);
        assert_eq!(c.greyscale().a, c.a);
    }
}

#[test]
fn mixing_at_the_ends_gives_one_of_the_two() {
    let colors: [RGBA; 5] = [
        rgba(100, 0, 0, 255),
        rgba(0, 100, 0, 128),
        rgba(7, 8, 9, 0),
        rgba(255, 255, 255, 255),
        rgba(200, 100, 50, 1),
    ];
    for a in colors {
        for b in colors {
            assert_eq!(a.mix(b, percent(100)), a);
            assert_eq!(a.mix(b, percent(0)), b);
            assert_eq!(a.to_rgb().mix(b, percent(100)), a.to_rgb().to_rgba());
            assert_eq!(a.mix(b.to_rgb(), percent(0)), b.to_rgb().to_rgba());
        }
    }
    let x: HSLA = hsla(120, 100, 20, 255);
    let y: HSLA = hsla(0, 100, 20, 128);
    assert_eq!(x.mix(y, percent(100)), x.to_rgba().to_hsla());
    assert_eq!(x.mix(y, percent(0)), y.to_rgba().to_hsla());
}

#[test]
fn mixing_weighs_colors_by_alpha_and_alphas_by_weight() {
    // Equal alphas: the weight alone decides.
    assert_eq!(
        rgba(100, 0, 0, 255).mix(rgba(0, 100, 0, 255), percent(50)),
        rgba(50, 50, 0, 255)
    );
    // The more opaque color weighs more, the alpha is the plain mean.
    assert_eq!(
        rgba(100, 0, 0, 255).mix(rgba(0, 100, 0, 128), percent(50)),
        rgba(75, 25, 0, 192)
    );
    // Opposite alphas at the ends of the weight: the weight stands as it is.
    assert_eq!(
        rgba(10, 20, 30, 0).mix(rgba(40, 50, 60, 255), percent(100)),
        rgba(10, 20, 30, 0)
    );
    assert_eq!(
        rgba(10, 20, 30, 255).mix(rgba(40, 50, 60, 0), percent(0)),
        rgba(40, 50, 60, 0)
    );
    assert_eq!(
        rgb(243, 166, 13).mix(rgba(0, 0, 80, 255), percent(25)),
        rgba(61, 42, 63, 255)
    );
    assert_eq!(
        hsl(10, 90, 50).mix(rgba(0, 0, 80, 255), percent(50)).to_css(),
        "hsla(347, 65%, 29%, 1.00)"
    );
}

#[test]
fn tint_and_shade_mix_with_white_and_black() {
    let c = rgba(0, 0, 255, 128);
    assert_eq!(c.tint(percent(50)), c.mix(rgb(255, 255, 255), percent(50)));
    assert_eq!(c.shade(percent(50)), c.mix(rgb(0, 0, 0), percent(50)));
    assert_eq!(rgb(243, 166, 13).tint(percent(25)), rgb(252, 233, 194));
    assert_eq!(rgb(243, 166, 13).shade(percent(25)), rgb(61, 42, 3));
    assert_eq!(hsl(10, 90, 50).tint(percent(10)), hsl(10, 92, 95));
    assert_eq!(hsl(10, 90, 50).shade(percent(10)), hsl(10, 92, 5));
}

#[test]
fn lightness_and_saturation_clamp() {
    assert_eq!(hsla(6, 93, 71, 255).saturate(percent(7)), hsla(6, 100, 71, 255));
    assert_eq!(hsl(6, 93, 71).saturate(percent(100)), hsl(6, 100, 71));
    assert_eq!(hsl(6, 93, 71).desaturate(percent(100)), hsl(6, 0, 71));
    assert_eq!(hsl(6, 93, 71).lighten(percent(100)), hsl(6, 93, 100));
    assert_eq!(hsl(6, 93, 71).darken(percent(100)), hsl(6, 93, 0));
    assert_eq!(rgb(100, 149, 237).saturate(percent(10)), rgb(92, 146, 246));
    assert_eq!(rgb(100, 149, 237).desaturate(percent(33)), rgb(129, 157, 209));
    assert_eq!(rgba(255, 99, 71, 255).desaturate(percent(10)), rgba(246, 105, 80, 255));
    assert_eq!(rgba(255, 99, 71, 255).lighten(percent(20)), rgba(255, 185, 173, 255));
    assert_eq!(rgb(100, 149, 237).lighten(percent(33)), rgb(251, 253, 255));
    assert_eq!(rgba(255, 99, 71, 255).darken(percent(20)), rgba(224, 34, 0, 255));
    assert_eq!(rgb(100, 149, 237).darken(percent(33)), rgb(18, 65, 152));
    assert_eq!(rgba(255, 99, 71, 255).greyscale(), rgba(163, 163, 163, 255));
    assert_eq!(rgb(100, 149, 237).greyscale(), rgb(169, 169, 169));
}

#[test]
fn css_text_prints_rounded_values() {
    assert_eq!(rgb(0, 0, 0).to_css(), "rgb(0, 0, 0)");
    assert_eq!(rgb(9, 10, 100).to_css(), "rgb(9, 10, 100)");
    assert_eq!(rgba(250, 128, 114, 128).to_css(), "rgba(250, 128, 114, 0.50)");
    assert_eq!(rgba(1, 2, 3, 0).to_css(), "rgba(1, 2, 3, 0.00)");
    assert_eq!(rgba(1, 2, 3, 2).to_css(), "rgba(1, 2, 3, 0.01)");
    assert_eq!(rgba(1, 2, 3, 254).to_css(), "rgba(1, 2, 3, 1.00)");
    assert_eq!(rgba(1, 2, 3, 199).to_css(), "rgba(1, 2, 3, 0.78)");
    assert_eq!(hsl(359, 0, 100).to_css(), "hsl(359, 0%, 100%)");
    assert_eq!(hsl(-1, 5, 10).to_css(), "hsl(359, 5%, 10%)");
    assert_eq!(hsla(6, 93, 71, 128).to_css(), "hsla(6, 93%, 71%, 0.50)");
    for m in 0u8..=255 {
        let expected = format!("rgba(0, 0, 0, {:.02})", m as f32 / 255.0);
        assert_eq!(rgba(0, 0, 0, m).to_css(), expected);
    }
}
