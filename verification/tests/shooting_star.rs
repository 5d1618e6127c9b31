use beat_strip::beat::BeatCount;
use beat_strip::color::Rgb;
use beat_strip::error::PatternError;
use beat_strip::patterns::shooting_star::{ShootingStar, Star, MAX_INTENSITY, MAX_SPEED, MAX_STARS};
use beat_strip::patterns::{LedPattern, PatternCommand, PatternSpeed};
use beat_strip::util::random::Rng;

const OFF: Rgb = Rgb { r: 0, g: 0, b: 0 };

fn grey(v: u8) -> Rgb {
    Rgb { r: v, g: v, b: v }
}

#[test]
fn shooting_star_a_new_pattern_has_an_empty_pool() {
    let s = ShootingStar::new(8, 500, Rng::new(2));
    assert_eq!(s.size(), 8);
    assert_eq!(MAX_STARS, 16);
    for i in 0..MAX_STARS {
        assert_eq!(s.star(i).unwrap().speed, 0);
    }
    assert_eq!(s.star(MAX_STARS), None);
    let cfg = s.settings();
    assert_eq!(cfg.speed, 500);
    assert_eq!(cfg.max_intensity, MAX_INTENSITY);
    assert_eq!(cfg.tail_length, 5);
    assert_eq!(cfg.star_steps_per_move, 2);
    assert_eq!(cfg.shoot_interval, PatternSpeed::N4);
}

#[test]
fn shooting_star_a_star_moves_when_the_count_is_reached() {
    assert_eq!(MAX_SPEED, 1000);
    let mut s = ShootingStar::new(8, 500, Rng::new(2));
    let color = Rgb { r: 100, g: 50, b: 200 };
    s.shoot(color, 2, 4);
    assert_eq!(s.star(0), Some(Star { color, position: 0, speed: 2, tail_length: 4 }));
    assert_eq!(s.next().to_vec(), vec![OFF; 8]);
    assert_eq!(s.star(0).unwrap().position, 0);
    let moved = vec![
        Rgb { r: 50, g: 25, b: 100 },
        Rgb { r: 75, g: 37, b: 150 },
        Rgb { r: 100, g: 50, b: 200 },
        OFF,
        OFF,
        OFF,
        OFF,
        OFF,
    ];
    assert_eq!(s.next().to_vec(), moved);
    assert_eq!(s.star(0).unwrap().position, 2);
    assert_eq!(s.next().to_vec(), moved);
    let frame = s.next().to_vec();
    assert_eq!(
        frame,
        vec![
            OFF,
            Rgb { r: 25, g: 12, b: 50 },
            Rgb { r: 50, g: 25, b: 100 },
            Rgb { r: 75, g: 37, b: 150 },
            Rgb { r: 100, g: 50, b: 200 },
            OFF,
            OFF,
            OFF
        ]
    );
}

#[test]
fn shooting_star_a_star_that_has_left_frees_its_slot() {
    let mut s = ShootingStar::new(8, 1000, Rng::new(2));
    let color = Rgb { r: 100, g: 50, b: 200 };
    s.shoot(color, 2, 4);
    for expected in [2usize, 4, 6, 8, 10] {
        s.next();
        let star = s.star(0).unwrap();
        assert_eq!(star.position, expected);
        assert_eq!(star.speed, 2);
    }
    assert_eq!(s.rgbs()[7], Rgb { r: 25, g: 12, b: 50 });
    s.next();
    let star = s.star(0).unwrap();
    assert_eq!(star.position, 12);
    assert_eq!(star.speed, 0);
    assert_eq!(s.rgbs().to_vec(), vec![OFF; 8]);
    for _ in 0..50 {
        s.next();
        assert_eq!(s.star(0).unwrap().position, 12);
        assert_eq!(s.star(0).unwrap().speed, 0);
    }
    s.shoot(grey(9), 1, 1);
    assert_eq!(s.star(0), Some(Star { color: grey(9), position: 0, speed: 1, tail_length: 1 }));
}

#[test]
fn shooting_star_light_of_overlapping_stars_adds_up() {
    let mut s = ShootingStar::new(6, 1000, Rng::new(2));
    s.shoot(grey(200), 1, 3);
    s.next();
    s.shoot(grey(100), 1, 3);
    assert_eq!(s.next().to_vec(), vec![grey(135), grey(234), grey(200), OFF, OFF, OFF]);
    assert_eq!(s.star(0).unwrap().position, 2);
    assert_eq!(s.star(1).unwrap().position, 1);
}

#[test]
fn shooting_star_added_light_saturates() {
    let mut s = ShootingStar::new(3, 1000, Rng::new(2));
    s.shoot(grey(200), 1, 1);
    s.shoot(grey(200), 1, 1);
    assert_eq!(s.next().to_vec(), vec![OFF, grey(255), OFF]);
}

#[test]
fn shooting_star_a_full_pool_evicts_the_star_that_is_furthest() {
    let mut s = ShootingStar::new(100, 1000, Rng::new(2));
    for i in 0..16u8 {
        s.shoot(grey(i), 1, 2);
        s.next();
    }
    for i in 0..16usize {
        assert_eq!(s.star(i).unwrap().position, 16 - i);
    }
    s.shoot(grey(77), 3, 2);
    assert_eq!(s.star(0), Some(Star { color: grey(77), position: 0, speed: 3, tail_length: 2 }));
    assert_eq!(s.star(1).unwrap().position, 15);
    s.shoot(grey(78), 3, 2);
    assert_eq!(s.star(1).unwrap().color, grey(78));
}

#[test]
fn shooting_star_the_first_free_slot_is_taken() {
    let mut s = ShootingStar::new(100, 1000, Rng::new(2));
    s.shoot(grey(1), 1, 2);
    s.shoot(grey(2), 1, 2);
    s.shoot(grey(3), 0, 2);
    s.shoot(grey(4), 1, 2);
    assert_eq!(s.star(0).unwrap().color, grey(1));
    assert_eq!(s.star(1).unwrap().color, grey(2));
    assert_eq!(s.star(2).unwrap().color, grey(4));
    assert_eq!(s.star(3).unwrap().speed, 0);
}

#[test]
fn shooting_star_speed_zero_never_moves() {
    let mut s = ShootingStar::new(8, 0, Rng::new(2));
    s.shoot(grey(9), 1, 2);
    for _ in 0..100 {
        assert_eq!(s.next().to_vec(), vec![OFF; 8]);
    }
    assert_eq!(s.star(0).unwrap().position, 0);
}

#[test]
fn shooting_star_a_tail_of_zero_shows_nothing() {
    let mut s = ShootingStar::new(4, 1000, Rng::new(2));
    s.shoot(grey(9), 1, 0);
    assert_eq!(s.next().to_vec(), vec![OFF; 4]);
    assert_eq!(s.star(0).unwrap().position, 1);
}

#[test]
fn shooting_star_a_beat_shoots_a_random_star() {
    let mut s = ShootingStar::new(8, 1000, Rng::new(2));
    s.beat(&BeatCount::default());
    assert_eq!(
        s.star(0),
        Some(Star { color: Rgb { r: 6, g: 2, b: 10 }, position: 0, speed: 2, tail_length: 5 })
    );
    let mut off_beat = BeatCount::default();
    off_beat.increment();
    s.beat(&off_beat);
    assert_eq!(s.star(1).unwrap().speed, 0);
}

#[test]
fn shooting_star_frames_repeat_for_the_same_seed() {
    let mut a = ShootingStar::new(20, 400, Rng::new(99));
    let mut b = ShootingStar::new(20, 400, Rng::new(99));
    let mut beat = BeatCount::default();
    for _ in 0..200 {
        a.beat(&beat);
        b.beat(&beat);
        beat.increment();
        assert_eq!(a.next().to_vec(), b.next().to_vec());
    }
}

#[test]
fn shooting_star_from_str_reads_pixels_and_speed() {
    let s = ShootingStar::from_str("44,200", 1).unwrap();
    assert_eq!(s.size(), 44);
    assert_eq!(s.settings().speed, 200);
    let s = ShootingStar::from_str("44,200,400", 1).unwrap();
    assert_eq!(s.settings().speed, 200);
}

#[test]
fn shooting_star_from_str_rejects_bad_arguments() {
    for bad in ["", "44", "44,", ",200", "44 200", "a,b", "44,x"] {
        assert!(matches!(ShootingStar::from_str(bad, 1), Err(PatternError::InvalidArgs)));
    }
}

#[test]
fn shooting_star_commands_change_parameters() {
    let mut s = ShootingStar::new(8, 500, Rng::new(2));
    assert_eq!(s.execute_command("s250,I99,b0"), Ok(()));
    let cfg = s.settings();
    assert_eq!(cfg.speed, 250);
    assert_eq!(cfg.max_intensity, 99);
    assert_eq!(cfg.shoot_interval, PatternSpeed::N1);
}

#[test]
fn shooting_star_star_commands_reach_the_stars_in_the_pool() {
    let mut s = ShootingStar::new(8, 500, Rng::new(2));
    s.shoot(grey(9), 1, 2);
    assert_eq!(s.execute_command("S3,l7"), Ok(()));
    let star = s.star(0).unwrap();
    assert_eq!((star.speed, star.tail_length), (3, 7));
    assert_eq!(s.settings().star_steps_per_move, 3);
    assert_eq!(s.settings().tail_length, 7);
}

#[test]
fn shooting_star_the_star_speed_command_leaves_free_slots_free() {
    let mut s = ShootingStar::new(10, 1000, Rng::new(2));
    s.shoot(grey(9), 1, 2);
    assert_eq!(s.execute_command("S3"), Ok(()));
    assert_eq!(s.star(0).unwrap().speed, 3);
    for i in 1..MAX_STARS {
        assert_eq!(s.star(i).unwrap().speed, 0);
    }
    s.shoot(grey(7), 1, 2);
    assert_eq!(s.star(0).unwrap().color, grey(9));
    assert_eq!(s.star(1).unwrap().color, grey(7));
}

#[test]
fn shooting_star_a_star_that_left_stays_free_after_a_speed_command() {
    let mut s = ShootingStar::new(4, 1000, Rng::new(2));
    s.shoot(grey(9), 3, 1);
    s.next();
    s.next();
    let gone = s.star(0).unwrap();
    assert_eq!((gone.position, gone.speed), (6, 0));
    assert_eq!(s.execute_command("S2"), Ok(()));
    for _ in 0..5 {
        s.next();
        assert_eq!(s.star(0).unwrap(), gone);
    }
}

#[test]
fn shooting_star_star_speed_zero_frees_the_stars() {
    let mut s = ShootingStar::new(10, 1000, Rng::new(2));
    s.shoot(grey(9), 1, 2);
    s.next();
    assert_eq!(s.execute_command("S0"), Ok(()));
    assert_eq!(s.star(0).unwrap().speed, 0);
    s.next();
    assert_eq!(s.star(0).unwrap().position, 1);
}

#[test]
fn shooting_star_a_star_past_the_strip_does_not_advance() {
    let mut s = ShootingStar::new(8, 1000, Rng::new(2));
    s.shoot(grey(9), 2, 4);
    for _ in 0..5 {
        s.next();
    }
    let star = s.star(0).unwrap();
    assert_eq!((star.position, star.speed), (10, 2));
    assert_eq!(s.execute_command("l1"), Ok(()));
    s.next();
    let star = s.star(0).unwrap();
    assert_eq!((star.position, star.speed, star.tail_length), (10, 0, 1));
    s.next();
    assert_eq!(s.star(0).unwrap().position, 10);
}

#[test]
fn shooting_star_a_failed_command_changes_nothing() {
    let mut s = ShootingStar::new(8, 500, Rng::new(2));
    s.shoot(grey(9), 1, 2);
    assert_eq!(s.execute_command("S3,l7,sx"), Err(PatternError::InvalidNumber));
    let star = s.star(0).unwrap();
    assert_eq!((star.speed, star.tail_length), (1, 2));
    assert_eq!(s.settings().speed, 500);
    assert_eq!(s.settings().star_steps_per_move, 2);
}

#[test]
fn shooting_star_malformed_commands_are_errors() {
    let mut s = ShootingStar::new(8, 500, Rng::new(2));
    assert_eq!(s.execute_command(""), Err(PatternError::EmptyCommand));
    assert_eq!(s.execute_command("b"), Err(PatternError::InvalidSpeed));
    assert_eq!(s.execute_command("b7"), Err(PatternError::InvalidSpeed));
    assert_eq!(s.execute_command("S"), Err(PatternError::InvalidNumber));
    assert_eq!(s.execute_command("I256"), Err(PatternError::InvalidNumber));
    assert_eq!(s.execute_command("l-1"), Err(PatternError::InvalidNumber));
    assert_eq!(s.execute_command("z"), Err(PatternError::InvalidCommand { letter: b'z' }));
}

#[test]
fn shooting_star_huge_values_do_not_overflow() {
    let mut s = ShootingStar::new(8, usize::MAX, Rng::new(2));
    s.shoot(grey(9), usize::MAX, usize::MAX);
    s.next();
    assert_eq!(s.star(0).unwrap().position, usize::MAX);
    s.next();
    assert_eq!(s.star(0).unwrap().position, usize::MAX);
    s.shoot(grey(9), usize::MAX, 1);
    s.next();
    assert_eq!(s.star(1).unwrap().speed, 0);
}
