use beat_strip::color::Rgb;
use beat_strip::error::PatternError;
use beat_strip::util::random::{from_range, Rng, DEFAULT_SEED};

#[test]
fn color_scale_truncates() {
    let mut c = Rgb { r: 255, g: 10, b: 1 };
    c.scale(50);
    assert_eq!(c, Rgb { r: 127, g: 5, b: 0 });
}

#[test]
fn color_scale_by_hundred_is_identity() {
    let c = Rgb { r: 1, g: 128, b: 255 };
    assert_eq!(c.scaled(100), c);
}

#[test]
fn color_scale_by_zero_is_black() {
    let c = Rgb { r: 1, g: 128, b: 255 };
    assert_eq!(c.scaled(0), Rgb { r: 0, g: 0, b: 0 });
}

#[test]
fn color_scale_above_hundred_saturates() {
    let c = Rgb { r: 200, g: 100, b: 1 };
    assert_eq!(c.scaled(200), Rgb { r: 255, g: 200, b: 2 });
    assert_eq!(c.scaled(255), Rgb { r: 255, g: 255, b: 2 });
}

#[test]
fn color_scaled_leaves_the_colour_untouched() {
    let c = Rgb { r: 90, g: 60, b: 30 };
    let d = c.scaled(33);
    assert_eq!(c, Rgb { r: 90, g: 60, b: 30 });
    assert_eq!(d, Rgb { r: 29, g: 19, b: 9 });
}

#[test]
fn color_add_saturates() {
    let mut c = Rgb { r: 200, g: 100, b: 0 };
    c.add(&Rgb { r: 100, g: 100, b: 0 });
    assert_eq!(c, Rgb { r: 255, g: 200, b: 0 });
    c.add(&Rgb { r: 255, g: 55, b: 255 });
    assert_eq!(c, Rgb { r: 255, g: 255, b: 255 });
}

#[test]
fn color_default_is_black() {
    assert_eq!(Rgb::default(), Rgb { r: 0, g: 0, b: 0 });
}

#[test]
fn color_from_hex() {
    assert_eq!(Rgb::from("ff8000"), Ok(Rgb { r: 255, g: 128, b: 0 }));
    assert_eq!(Rgb::from("0A0b1C"), Ok(Rgb { r: 10, g: 11, b: 28 }));
    assert_eq!(Rgb::from("401010"), Ok(Rgb { r: 0x40, g: 0x10, b: 0x10 }));
}

#[test]
fn color_from_other_length_is_an_error() {
    assert_eq!(Rgb::from(""), Err(PatternError::InvalidColor));
    assert_eq!(Rgb::from("fff"), Err(PatternError::InvalidColor));
    assert_eq!(Rgb::from("ff80001"), Err(PatternError::InvalidColor));
    assert_eq!(Rgb::from("#ff8000"), Err(PatternError::InvalidColor));
    assert_eq!(Rgb::from("000000"), Ok(Rgb { r: 0, g: 0, b: 0 }));
}

#[test]
fn color_from_rejects_what_is_not_hex() {
    assert_eq!(Rgb::from("ff80zz"), Err(PatternError::InvalidColor));
    assert_eq!(Rgb::from("+f+f+f"), Err(PatternError::InvalidColor));
    assert_eq!(Rgb::from("gg0000"), Err(PatternError::InvalidColor));
}

#[test]
fn color_generator_is_xorshift() {
    let mut rng = Rng::new(1);
    assert_eq!(rng.state(), 1);
    assert_eq!(rng.random(), 270369);
    assert_eq!(rng.random(), 67634689);
    assert_eq!(rng.random(), 2647435461);
    assert_eq!(rng.state(), 2647435461);
}

#[test]
fn color_zero_seed_is_replaced() {
    let mut rng = Rng::new(0);
    assert_eq!(rng.state(), DEFAULT_SEED);
    assert_eq!(rng.state(), 2654435769);
    assert_eq!(rng.random(), 1359758873);
}

#[test]
fn color_same_seed_same_draws() {
    let mut a = Rng::new(77);
    let mut b = Rng::new(77);
    for _ in 0..100 {
        assert_eq!(a.random(), b.random());
    }
}

#[test]
fn color_from_range_picks_within() {
    let mut rng = Rng::new(5);
    assert_eq!(from_range((10, 20), &mut rng), 15);
    assert_eq!(rng.state(), 1351845);
    for _ in 0..200 {
        let v: usize = from_range((3, 7), &mut rng);
        assert!(3 <= v && v < 7);
    }
}

#[test]
fn color_from_range_of_one_value_costs_no_draw() {
    let mut rng = Rng::new(5);
    assert_eq!(from_range((9, 9), &mut rng), 9);
    assert_eq!(rng.state(), 5);
}

#[test]
fn color_random_color_takes_three_draws() {
    let mut rng = Rng::new(42);
    assert_eq!(Rgb::random(&mut rng, 30), Rgb { r: 10, g: 22, b: 3 });
    assert_eq!(rng.state(), 476557059);
}

#[test]
fn color_fill_random_overwrites() {
    let mut rng = Rng::new(42);
    let mut c = Rgb { r: 200, g: 200, b: 200 };
    c.fill_random(&mut rng, 30);
    assert_eq!(c, Rgb { r: 10, g: 22, b: 3 });
}

#[test]
fn color_random_color_stays_below_the_bound() {
    let mut rng = Rng::new(1234);
    for max in [1u8, 2, 30, 255] {
        for _ in 0..50 {
            let c = Rgb::random(&mut rng, max);
            assert!(c.r < max && c.g < max && c.b < max);
        }
    }
}

#[test]
fn color_random_color_with_bound_zero_is_black() {
    let mut rng = Rng::new(9);
    assert_eq!(Rgb::random(&mut rng, 0), Rgb { r: 0, g: 0, b: 0 });
}

#[test]
fn color_variation_moves_each_channel() {
    let mut rng = Rng::new(7);
    let head = Rgb::random_with_variation(
        &Rgb { r: 0x40, g: 0x10, b: 0x10 },
        &Rgb { r: 0x30, g: 0x10, b: 0x10 },
        &mut rng,
    );
    assert_eq!(head, Rgb { r: 95, g: 17, b: 3 });
    let body = Rgb::random_with_variation(
        &Rgb { r: 0x10, g: 0x50, b: 0x10 },
        &Rgb { r: 0x10, g: 0x20, b: 0x10 },
        &mut rng,
    );
    assert_eq!(body, Rgb { r: 15, g: 90, b: 17 });
}

#[test]
fn color_variation_stays_within_reach() {
    let mut rng = Rng::new(99);
    let base = Rgb { r: 5, g: 128, b: 250 };
    let var = Rgb { r: 20, g: 0, b: 20 };
    for _ in 0..200 {
        let c = Rgb::random_with_variation(&base, &var, &mut rng);
        assert!(c.r <= 25);
        assert_eq!(c.g, 128);
        assert!(c.b >= 230);
    }
}
