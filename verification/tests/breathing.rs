use beat_strip::beat::BeatCount;
use beat_strip::color::Rgb;
use beat_strip::error::PatternError;
use beat_strip::patterns::breathing::{parse_mode, Breathing, BreathingMode, PEAK_INTENSITY};
use beat_strip::patterns::{LedPattern, PatternCommand};
use beat_strip::util::random::Rng;

#[test]
fn breathing_colours_are_drawn_at_the_start() {
    let b = Breathing::new(2, BreathingMode::Single, 60, Rng::new(5), 5000);
    assert_eq!(b.size(), 2);
    assert_eq!(b.rgbs().to_vec(), vec![Rgb { r: 45, g: 5, b: 13 }, Rgb { r: 7, g: 49, b: 3 }]);
    assert_eq!(b.intensity(), (0, true));
}

#[test]
fn breathing_brightness_rises_by_the_speed() {
    let mut b = Breathing::new(2, BreathingMode::Single, 60, Rng::new(5), 5000);
    assert_eq!(b.next().to_vec(), vec![Rgb { r: 2, g: 0, b: 0 }, Rgb { r: 0, g: 2, b: 0 }]);
    assert_eq!(b.next().to_vec(), vec![Rgb { r: 4, g: 0, b: 1 }, Rgb { r: 0, g: 4, b: 0 }]);
    assert_eq!(b.next().to_vec(), vec![Rgb { r: 6, g: 0, b: 1 }, Rgb { r: 1, g: 7, b: 0 }]);
    assert_eq!(b.intensity(), (15000, true));
}

#[test]
fn breathing_brightness_turns_at_the_peak_and_at_zero() {
    let mut b = Breathing::new(1, BreathingMode::Single, 60, Rng::new(5), 10_000);
    let mut seen: Vec<(u32, bool)> = Vec::new();
    for _ in 0..8 {
        b.next();
        seen.push(b.intensity());
    }
    assert_eq!(
        seen,
        vec![
            (10_000, true),
            (20_000, true),
            (PEAK_INTENSITY, false),
            (15_000, false),
            (5_000, false),
            (0, true),
            (10_000, true),
            (20_000, true),
        ]
    );
}

#[test]
fn breathing_mixed_mode_draws_new_colours_at_the_bottom() {
    let mut b = Breathing::new(1, BreathingMode::Mixed, 60, Rng::new(5), 12_500);
    assert_eq!(b.next().to_vec(), vec![Rgb { r: 5, g: 0, b: 1 }]);
    assert_eq!(b.next().to_vec(), vec![Rgb { r: 11, g: 1, b: 3 }]);
    assert_eq!(b.next().to_vec(), vec![Rgb { r: 5, g: 0, b: 1 }]);
    assert_eq!(b.next().to_vec(), vec![Rgb { r: 0, g: 0, b: 0 }]);
    assert_eq!(b.intensity(), (0, true));
    assert_eq!(b.next().to_vec(), vec![Rgb { r: 0, g: 5, b: 0 }]);
}

#[test]
fn breathing_other_modes_keep_their_colours() {
    for mode in [BreathingMode::Single, BreathingMode::Double] {
        let mut b = Breathing::new(1, mode, 60, Rng::new(5), 12_500);
        let first = b.next().to_vec();
        for _ in 0..3 {
            b.next();
        }
        assert_eq!(b.next().to_vec(), first);
    }
}

#[test]
fn breathing_speed_zero_stays_dark() {
    let mut b = Breathing::new(3, BreathingMode::Mixed, 60, Rng::new(5), 0);
    b.next();
    for _ in 0..5 {
        assert_eq!(b.next().to_vec(), vec![Rgb { r: 0, g: 0, b: 0 }; 3]);
    }
}

#[test]
fn breathing_a_huge_speed_does_not_overflow() {
    let mut b = Breathing::new(2, BreathingMode::Mixed, 255, Rng::new(5), u32::MAX);
    let mut seen: Vec<(u32, bool)> = Vec::new();
    for _ in 0..4 {
        b.next();
        seen.push(b.intensity());
    }
    assert_eq!(seen, vec![(25_000, false), (0, true), (25_000, false), (0, true)]);
}

#[test]
fn breathing_beat_is_ignored() {
    let mut a = Breathing::new(4, BreathingMode::Mixed, 60, Rng::new(6), 7000);
    let mut b = Breathing::new(4, BreathingMode::Mixed, 60, Rng::new(6), 7000);
    let beat = BeatCount::default();
    for _ in 0..40 {
        a.beat(&beat);
        assert_eq!(a.next().to_vec(), b.next().to_vec());
    }
}

#[test]
fn breathing_from_str_reads_four_arguments() {
    let b = Breathing::from_str("10,m,60,0.5", 5).unwrap();
    assert_eq!(b.size(), 10);
    assert_eq!(b.mode(), BreathingMode::Mixed);
    assert_eq!(b.max_intensity(), 60);
    assert_eq!(b.speed(), 500);
    let b = Breathing::from_str("10,m,200,2", 5).unwrap();
    assert_eq!(b.speed(), 2000);
    assert_eq!(b.max_intensity(), 200);
    assert_eq!(Breathing::from_str("1,s,1,1", 5).unwrap().mode(), BreathingMode::Single);
    assert_eq!(Breathing::from_str("1,double,1,1", 5).unwrap().mode(), BreathingMode::Double);
}

#[test]
fn breathing_from_str_builds_what_new_builds() {
    let mut a = Breathing::from_str("2,s,60,5", 5).unwrap();
    let mut b = Breathing::new(2, BreathingMode::Single, 60, Rng::new(5), 5000);
    for _ in 0..30 {
        assert_eq!(a.next().to_vec(), b.next().to_vec());
    }
}

#[test]
fn breathing_from_str_rejects_bad_arguments() {
    for bad in ["", "10", "10,m", "10,m,60", "10,m,60,", "10,m,256,1", "10,m,60,x", "x,m,60,1"] {
        assert!(matches!(Breathing::from_str(bad, 5), Err(PatternError::InvalidArgs)));
    }
    assert!(matches!(Breathing::from_str("10,,60,1", 5), Err(PatternError::InvalidMode)));
    assert!(matches!(Breathing::from_str("10,x,60,1", 5), Err(PatternError::InvalidMode)));
}

#[test]
fn breathing_parse_mode_reads_the_first_letter() {
    assert_eq!(parse_mode(b"s"), Some(BreathingMode::Single));
    assert_eq!(parse_mode(b"d"), Some(BreathingMode::Double));
    assert_eq!(parse_mode(b"m"), Some(BreathingMode::Mixed));
    assert_eq!(parse_mode(b"q"), None);
    assert_eq!(parse_mode(b""), None);
}

#[test]
fn breathing_commands_change_parameters() {
    let mut b = Breathing::new(2, BreathingMode::Single, 60, Rng::new(5), 5000);
    assert_eq!(b.execute_command("s0.25"), Ok(()));
    assert_eq!(b.speed(), 250);
    assert_eq!(b.execute_command("I30,mm"), Ok(()));
    assert_eq!(b.max_intensity(), 30);
    assert_eq!(b.mode(), BreathingMode::Mixed);
    assert_eq!(b.execute_command("md"), Ok(()));
    assert_eq!(b.mode(), BreathingMode::Double);
}

#[test]
fn breathing_a_failed_command_changes_nothing() {
    let mut b = Breathing::new(2, BreathingMode::Single, 60, Rng::new(5), 5000);
    assert_eq!(b.execute_command("s1,I30,mq"), Err(PatternError::InvalidMode));
    assert_eq!(b.speed(), 5000);
    assert_eq!(b.max_intensity(), 60);
    assert_eq!(b.mode(), BreathingMode::Single);
}

#[test]
fn breathing_malformed_commands_are_errors() {
    let mut b = Breathing::new(2, BreathingMode::Single, 60, Rng::new(5), 5000);
    assert_eq!(b.execute_command(""), Err(PatternError::EmptyCommand));
    assert_eq!(b.execute_command("s"), Err(PatternError::InvalidNumber));
    assert_eq!(b.execute_command("s-1"), Err(PatternError::InvalidNumber));
    assert_eq!(b.execute_command("I999"), Err(PatternError::InvalidNumber));
    assert_eq!(b.execute_command("m"), Err(PatternError::InvalidMode));
    assert_eq!(b.execute_command("mss"), Err(PatternError::InvalidMode));
    assert_eq!(b.execute_command("b1"), Err(PatternError::InvalidCommand { letter: b'b' }));
}

#[test]
fn breathing_intensity_zero_draws_black() {
    let mut b = Breathing::new(2, BreathingMode::Mixed, 0, Rng::new(5), 25_000);
    for _ in 0..6 {
        assert_eq!(b.next().to_vec(), vec![Rgb { r: 0, g: 0, b: 0 }; 2]);
    }
}
