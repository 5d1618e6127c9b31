use beat_strip::beat::BeatCount;
use beat_strip::color::Rgb;
use beat_strip::error::PatternError;
use beat_strip::patterns::background::Background;
use beat_strip::patterns::breathing::{Breathing, BreathingMode};
use beat_strip::patterns::partitioned::PartitionedPatterns;
use beat_strip::patterns::strobe::{Strobe, StrobeMode};
use beat_strip::patterns::{LedPattern, Pattern, PatternCommand, PatternKind};
use beat_strip::util::random::Rng;

const ON: Rgb = Rgb { r: 50, g: 50, b: 50 };
const OFF: Rgb = Rgb { r: 0, g: 0, b: 0 };

fn unison(n: usize, speed: usize) -> Pattern {
    Pattern::Strobe(Strobe::new(n, StrobeMode::Unison, Rng::new(1), speed))
}

fn strip() -> PartitionedPatterns {
    let mut rgbs = PartitionedPatterns::new(30);
    rgbs.add(unison(20, 10), None);
    rgbs
}

fn speed_of(rgbs: &PartitionedPatterns, index: usize) -> usize {
    match rgbs.pattern(index) {
        Some(Pattern::Strobe(s)) => s.speed(),
        _ => panic!("entry {} is no strobe", index),
    }
}

#[test]
fn partitioned_a_new_compositor_is_dark_and_empty() {
    let mut rgbs = PartitionedPatterns::new(5);
    assert_eq!(rgbs.size(), 5);
    assert_eq!(rgbs.len(), 0);
    assert_eq!(rgbs.entry(0), None);
    assert!(rgbs.pattern(0).is_none());
    assert_eq!(rgbs.next().to_vec(), vec![OFF; 5]);
}

#[test]
fn partitioned_add_puts_entries_one_behind_the_other() {
    let mut rgbs = PartitionedPatterns::new(30);
    rgbs.add(unison(20, 10), None);
    assert_eq!(rgbs.entry(0), Some(((0, 20), true, true)));
    rgbs.add(unison(4, 10), None);
    assert_eq!(rgbs.entry(1), Some(((20, 24), true, true)));
    rgbs.add(unison(6, 10), Some((2, 5)));
    assert_eq!(rgbs.entry(2), Some(((2, 5), true, true)));
    rgbs.add(unison(6, 10), None);
    assert_eq!(rgbs.entry(3), Some(((5, 11), true, true)));
    assert_eq!(rgbs.len(), 4);
}

#[test]
fn partitioned_appended_entry_starts_where_the_last_ends() {
    let mut rgbs = strip();
    assert_eq!(rgbs.execute_command("a n,str(4,u,10)"), Ok(()));
    assert_eq!(rgbs.len(), 2);
    assert_eq!(rgbs.entry(1), Some(((20, 24), true, true)));
    match rgbs.pattern(1) {
        Some(Pattern::Strobe(s)) => {
            assert_eq!(s.size(), 4);
            assert_eq!(s.mode(), StrobeMode::Unison);
            assert_eq!(s.speed(), 10);
        },
        _ => panic!("the new entry is no strobe"),
    }
}

#[test]
fn partitioned_append_takes_the_range_in_several_spellings() {
    let mut rgbs = strip();
    assert_eq!(rgbs.execute_command("anstr(4,u,10)"), Ok(()));
    assert_eq!(rgbs.entry(1), Some(((20, 24), true, true)));
    assert_eq!(rgbs.execute_command("a0..2str(3,u,10)"), Ok(()));
    assert_eq!(rgbs.entry(2), Some(((0, 2), true, true)));
    assert_eq!(rgbs.execute_command("a 25..30,str(5,u,10)"), Ok(()));
    assert_eq!(rgbs.entry(3), Some(((25, 30), true, true)));
    assert_eq!(rgbs.execute_command("a   n,str(0,u,10)"), Ok(()));
    assert_eq!(rgbs.entry(4), Some(((30, 30), true, true)));
}

#[test]
fn partitioned_an_explicit_range_is_taken_as_it_is() {
    let mut rgbs = strip();
    assert_eq!(rgbs.execute_command("a22..25,str(8,u,50)"), Ok(()));
    assert_eq!(rgbs.entry(1), Some(((22, 25), true, true)));
    assert_eq!(rgbs.execute_command("a26..26,str(8,u,50)"), Ok(()));
    assert_eq!(rgbs.entry(2), Some(((26, 26), true, true)));
    assert_eq!(rgbs.execute_command("a22..30,str(8,u,50)"), Ok(()));
    assert_eq!(rgbs.entry(3), Some(((22, 30), true, true)));
    let frame = rgbs.next().to_vec();
    assert_eq!(frame[21], OFF);
    assert_eq!(frame[22..30].to_vec(), vec![ON; 8]);
    assert_eq!(rgbs.execute_command("an,str(1,u,50)"), Err(PatternError::RangeOutOfBounds));
}

#[test]
fn partitioned_a_range_must_be_n_or_start_and_end() {
    let mut rgbs = strip();
    let bad_ranges =
        ["a25,str(5,u,10)", "a5..3,str(5,u,10)", "a1..2..3,str(5,u,10)", "a..5,str(5,u,10)"];
    for bad in bad_ranges {
        assert_eq!(rgbs.execute_command(bad), Err(PatternError::InvalidRange), "{:?}", bad);
    }
    assert_eq!(rgbs.len(), 1);
}

#[test]
fn partitioned_append_into_an_empty_compositor_starts_at_zero() {
    let mut rgbs = PartitionedPatterns::new(10);
    assert_eq!(rgbs.execute_command("a n,shst(10,200)"), Ok(()));
    assert_eq!(rgbs.entry(0), Some(((0, 10), true, true)));
    assert!(matches!(rgbs.pattern(0), Some(Pattern::ShootingStar(_))));
}

#[test]
fn partitioned_an_entry_that_does_not_fit_is_refused() {
    let mut rgbs = strip();
    assert_eq!(rgbs.execute_command("a27..31,str(4,u,10)"), Err(PatternError::RangeOutOfBounds));
    assert_eq!(rgbs.execute_command("a n,str(11,u,10)"), Err(PatternError::RangeOutOfBounds));
    assert_eq!(
        rgbs.execute_command("a0..4294967295,str(4,u,10)"),
        Err(PatternError::RangeOutOfBounds)
    );
    assert_eq!(rgbs.execute_command("a0..5,str(4,u,10)"), Err(PatternError::PatternTooSmall));
    assert_eq!(rgbs.len(), 1);
    assert_eq!(rgbs.execute_command("a n,str(10,u,10)"), Ok(()));
    assert_eq!(rgbs.entry(1), Some(((20, 30), true, true)));
}

#[test]
fn partitioned_an_index_out_of_range_changes_nothing() {
    let mut rgbs = strip();
    rgbs.add(unison(4, 10), None);
    for cmd in ["p2s", "p5b", "p9R", "p2cs1", "p2Cstr(4,u,10)", "p3"] {
        let index: usize = (cmd.as_bytes()[1] - b'0') as usize;
        assert_eq!(rgbs.execute_command(cmd), Err(PatternError::IndexOutOfRange { index, len: 2 }));
        assert_eq!(rgbs.len(), 2);
        assert_eq!(rgbs.entry(0), Some(((0, 20), true, true)));
        assert_eq!(rgbs.entry(1), Some(((20, 24), true, true)));
        assert_eq!(speed_of(&rgbs, 0), 10);
        assert_eq!(speed_of(&rgbs, 1), 10);
    }
    let mut empty = PartitionedPatterns::new(3);
    assert_eq!(
        empty.execute_command("p0s"),
        Err(PatternError::IndexOutOfRange { index: 0, len: 0 })
    );
}

#[test]
fn partitioned_switches_are_set_by_letter() {
    let mut rgbs = strip();
    assert_eq!(rgbs.execute_command("p0s"), Ok(()));
    assert_eq!(rgbs.entry(0), Some(((0, 20), false, true)));
    assert_eq!(rgbs.execute_command("p0b"), Ok(()));
    assert_eq!(rgbs.entry(0), Some(((0, 20), false, false)));
    assert_eq!(rgbs.execute_command("p0S"), Ok(()));
    assert_eq!(rgbs.entry(0), Some(((0, 20), true, false)));
    assert_eq!(rgbs.execute_command("p0B"), Ok(()));
    assert_eq!(rgbs.entry(0), Some(((0, 20), true, true)));
}

#[test]
fn partitioned_a_batch_stops_at_the_first_failure() {
    let mut rgbs = strip();
    assert_eq!(
        rgbs.execute_command("p0s;p7s;p0S"),
        Err(PatternError::IndexOutOfRange { index: 7, len: 1 })
    );
    assert_eq!(rgbs.entry(0), Some(((0, 20), false, true)));
    assert_eq!(rgbs.execute_command("p0S;p0b;g;r"), Ok(()));
    assert_eq!(rgbs.entry(0), Some(((0, 20), true, false)));
    assert_eq!(rgbs.execute_command("p0B;"), Err(PatternError::EmptyCommand));
    assert_eq!(rgbs.entry(0), Some(((0, 20), true, true)));
}

#[test]
fn partitioned_commands_are_handed_to_the_pattern() {
    let mut rgbs = strip();
    assert_eq!(rgbs.execute_command("p0cs25"), Ok(()));
    assert_eq!(speed_of(&rgbs, 0), 25);
    assert_eq!(rgbs.execute_command("p0cs7,I9"), Ok(()));
    assert_eq!(speed_of(&rgbs, 0), 7);
    assert_eq!(
        rgbs.execute_command("p0cs8,x"),
        Err(PatternError::InvalidCommand { letter: b'x' })
    );
    assert_eq!(speed_of(&rgbs, 0), 7);
    assert_eq!(rgbs.execute_command("p0c"), Err(PatternError::EmptyCommand));
}

#[test]
fn partitioned_remove_takes_the_entry_out() {
    let mut rgbs = strip();
    rgbs.add(unison(4, 7), None);
    assert_eq!(rgbs.execute_command("p0R"), Ok(()));
    assert_eq!(rgbs.len(), 1);
    assert_eq!(rgbs.entry(0), Some(((20, 24), true, true)));
    assert_eq!(speed_of(&rgbs, 0), 7);
    assert_eq!(rgbs.execute_command("p0R"), Ok(()));
    assert_eq!(rgbs.len(), 0);
}

#[test]
fn partitioned_replace_keeps_the_range() {
    let mut rgbs = strip();
    assert_eq!(rgbs.execute_command("p0s;p0Cbr(25,m,60,0.5)"), Ok(()));
    assert_eq!(rgbs.entry(0), Some(((0, 20), false, true)));
    match rgbs.pattern(0) {
        Some(Pattern::Breathing(b)) => {
            assert_eq!(b.size(), 25);
            assert_eq!(b.speed(), 500);
        },
        _ => panic!("the entry is no breathing pattern"),
    }
}

#[test]
fn partitioned_a_replacement_that_is_too_small_is_refused() {
    let mut rgbs = strip();
    assert_eq!(rgbs.execute_command("p0Cstr(3,s,25)"), Err(PatternError::PatternTooSmall));
    assert_eq!(speed_of(&rgbs, 0), 10);
    assert!(matches!(rgbs.pattern(0), Some(Pattern::Strobe(_))));
}

#[test]
fn partitioned_malformed_commands_are_errors() {
    let mut rgbs = strip();
    let cases = [
        ("", PatternError::EmptyCommand),
        ("p", PatternError::Truncated),
        ("p0", PatternError::Truncated),
        ("px", PatternError::InvalidNumber),
        ("p/s", PatternError::InvalidNumber),
        ("p0z", PatternError::InvalidSubcommand { letter: b'z' }),
        ("q", PatternError::InvalidCommand { letter: b'q' }),
        ("P0s", PatternError::InvalidCommand { letter: b'P' }),
        ("a", PatternError::InvalidRange),
        ("astr(4,u,10)", PatternError::InvalidRange),
        ("ann,str(4,u,10)", PatternError::InvalidRange),
        ("a5..,str(4,u,10)", PatternError::InvalidRange),
        ("an", PatternError::MalformedSpec),
        ("anstr", PatternError::MalformedSpec),
        ("anstr(4,u,10", PatternError::MalformedSpec),
        ("an,,str(4,u,10)", PatternError::InvalidKind),
        ("anxx(4,u,10)", PatternError::InvalidKind),
        ("anstr(4)", PatternError::InvalidArgs),
        ("anstr(4,q,1)", PatternError::InvalidMode),
        ("anba(str(3,u,25),#102030)", PatternError::MalformedSpec),
        ("p0C", PatternError::MalformedSpec),
        ("p0Cnope(1)", PatternError::InvalidKind),
        ("p0Ccat()", PatternError::InvalidArgs),
    ];
    for (cmd, expected) in cases {
        assert_eq!(rgbs.execute_command(cmd), Err(expected), "{:?}", cmd);
        assert_eq!(rgbs.len(), 1);
        assert_eq!(rgbs.entry(0), Some(((0, 20), true, true)));
    }
}

#[test]
fn partitioned_entries_render_into_their_ranges() {
    let mut rgbs = PartitionedPatterns::new(8);
    rgbs.add(unison(3, 25), None);
    rgbs.add(
        Pattern::Breathing(Breathing::new(2, BreathingMode::Single, 60, Rng::new(5), 5000)),
        None,
    );
    let b1 = [Rgb { r: 2, g: 0, b: 0 }, Rgb { r: 0, g: 2, b: 0 }];
    let b2 = [Rgb { r: 4, g: 0, b: 1 }, Rgb { r: 0, g: 4, b: 0 }];
    assert_eq!(rgbs.next().to_vec(), vec![OFF, OFF, OFF, b1[0], b1[1], OFF, OFF, OFF]);
    assert_eq!(rgbs.next().to_vec(), vec![ON, ON, ON, b2[0], b2[1], OFF, OFF, OFF]);
    assert_eq!(rgbs.rgbs().to_vec(), vec![ON, ON, ON, b2[0], b2[1], OFF, OFF, OFF]);
}

#[test]
fn partitioned_a_short_range_takes_the_front_of_the_frame() {
    let mut rgbs = PartitionedPatterns::new(8);
    rgbs.add(
        Pattern::Breathing(Breathing::new(2, BreathingMode::Single, 60, Rng::new(5), 5000)),
        Some((6, 7)),
    );
    assert_eq!(rgbs.next()[6], Rgb { r: 2, g: 0, b: 0 });
    assert_eq!(rgbs.rgbs()[7], OFF);
}

#[test]
fn partitioned_a_later_entry_is_copied_over_an_earlier_one() {
    let mut rgbs = PartitionedPatterns::new(4);
    rgbs.add(unison(4, 50), Some((0, 4)));
    rgbs.add(unison(2, 0), Some((1, 3)));
    assert_eq!(rgbs.next().to_vec(), vec![ON, OFF, OFF, ON]);
}

#[test]
fn partitioned_a_disabled_entry_keeps_its_last_frame() {
    let mut rgbs = PartitionedPatterns::new(4);
    rgbs.add(unison(4, 10), None);
    for _ in 0..4 {
        assert_eq!(rgbs.next().to_vec(), vec![OFF; 4]);
    }
    assert_eq!(rgbs.next().to_vec(), vec![ON; 4]);
    assert_eq!(rgbs.execute_command("p0s"), Ok(()));
    for _ in 0..10 {
        assert_eq!(rgbs.next().to_vec(), vec![ON; 4]);
    }
    assert_eq!(rgbs.execute_command("p0S"), Ok(()));
    assert_eq!(rgbs.next().to_vec(), vec![ON; 4]);
    assert_eq!(rgbs.next().to_vec(), vec![ON; 4]);
    assert_eq!(rgbs.next().to_vec(), vec![OFF; 4]);
}

#[test]
fn partitioned_beats_reach_the_entries_that_listen() {
    let mut rgbs = PartitionedPatterns::new(4);
    rgbs.add(unison(2, 0), None);
    rgbs.add(unison(2, 0), None);
    assert_eq!(rgbs.execute_command("p1b"), Ok(()));
    rgbs.beat(&BeatCount::default());
    assert_eq!(rgbs.next().to_vec(), vec![ON, ON, OFF, OFF]);
}

#[test]
fn partitioned_created_patterns_are_seeded_by_the_compositor() {
    let mut rgbs = PartitionedPatterns::new(4);
    assert_eq!(rgbs.execute_command("a n,br(2,s,60,5)"), Ok(()));
    assert_eq!(
        rgbs.next().to_vec(),
        vec![Rgb { r: 0, g: 2, b: 0 }, Rgb { r: 1, g: 2, b: 1 }, OFF, OFF]
    );
    let mut other = PartitionedPatterns::new(4);
    other.reseed(5);
    assert_eq!(other.execute_command("a n,br(2,s,60,5)"), Ok(()));
    let mut direct = Breathing::new(2, BreathingMode::Single, 60, Rng::new(1351845), 5000);
    assert_eq!(other.next()[..2].to_vec(), direct.next().to_vec());
}

#[test]
fn partitioned_a_failed_creation_costs_no_draw() {
    let mut a = PartitionedPatterns::new(4);
    let mut b = PartitionedPatterns::new(4);
    assert_eq!(a.execute_command("a n,br(2,s,60)"), Err(PatternError::InvalidArgs));
    assert_eq!(a.execute_command("a n,br(9,s,60,5)"), Err(PatternError::RangeOutOfBounds));
    assert_eq!(a.execute_command("a n,br(2,s,60,5)"), Ok(()));
    assert_eq!(b.execute_command("a n,br(2,s,60,5)"), Ok(()));
    assert_eq!(a.next().to_vec(), b.next().to_vec());
}

#[test]
fn partitioned_compositors_nest() {
    let mut rgbs = strip();
    assert_eq!(rgbs.execute_command("a n,pt(5)"), Ok(()));
    assert_eq!(rgbs.entry(1), Some(((20, 25), true, true)));
    assert_eq!(rgbs.execute_command("p1ca n,str(2,u,50)"), Ok(()));
    match rgbs.pattern(1) {
        Some(Pattern::Partitioned(inner)) => {
            assert_eq!(inner.size(), 5);
            assert_eq!(inner.len(), 1);
            assert_eq!(inner.entry(0), Some(((0, 2), true, true)));
        },
        _ => panic!("the entry is no compositor"),
    }
    let frame = rgbs.next().to_vec();
    assert_eq!(frame[20..25].to_vec(), vec![ON, ON, OFF, OFF, OFF]);
    assert_eq!(
        rgbs.execute_command("p1cp0s;p1cp4s"),
        Err(PatternError::IndexOutOfRange { index: 4, len: 1 })
    );
}

#[test]
fn partitioned_from_str_reads_the_size() {
    let p = PartitionedPatterns::from_str("10", 3).unwrap();
    assert_eq!((p.size(), p.len()), (10, 0));
    let p = PartitionedPatterns::from_str("7,and,more", 3).unwrap();
    assert_eq!(p.size(), 7);
    assert!(matches!(PartitionedPatterns::from_str("", 3), Err(PatternError::InvalidNumber)));
    assert!(matches!(PartitionedPatterns::from_str("x", 3), Err(PatternError::InvalidNumber)));
    assert!(matches!(PartitionedPatterns::from_str(",7", 3), Err(PatternError::InvalidNumber)));
}

#[test]
fn partitioned_a_background_fills_the_dark_pixels() {
    let mut b = Background::from_str("str(3,u,25),#102030", 7).unwrap();
    let fill = Rgb { r: 0x10, g: 0x20, b: 0x30 };
    assert_eq!(b.size(), 3);
    assert_eq!(b.rgbs().to_vec(), vec![OFF; 3]);
    let expected: [u8; 6] = [0, 1, 1, 1, 0, 1];
    for e in expected {
        let want = if e == 1 { ON } else { fill };
        assert_eq!(b.next().to_vec(), vec![want; 3]);
    }
}

#[test]
fn partitioned_a_background_hands_on_beats_and_commands() {
    let mut b = Background::new(Box::new(unison(2, 0)), Rgb { r: 1, g: 1, b: 1 });
    b.beat(&BeatCount::default());
    assert_eq!(b.next().to_vec(), vec![ON; 2]);
    assert_eq!(b.execute_command("I7"), Ok(()));
    assert_eq!(b.next().to_vec(), vec![Rgb { r: 7, g: 7, b: 7 }; 2]);
    assert_eq!(b.execute_command("I"), Err(PatternError::InvalidNumber));
}

#[test]
fn partitioned_a_background_wants_a_pattern_and_a_colour() {
    let cases = [
        ("", PatternError::MalformedSpec),
        ("str(3,u,25)", PatternError::MissingComma),
        ("str(3,u,25);#102030", PatternError::MissingComma),
        ("str(3,u,25),102030", PatternError::MissingHash),
        ("str(3,u,25),#1020", PatternError::InvalidColor),
        ("str(3,u,25),#10203g", PatternError::InvalidColor),
        ("nope(3),#102030", PatternError::InvalidKind),
        ("str(3),#102030", PatternError::InvalidArgs),
    ];
    for (text, expected) in cases {
        match Background::from_str(text, 7) {
            Err(e) => assert_eq!(e, expected, "{:?}", text),
            Ok(_) => panic!("{:?} was accepted", text),
        }
    }
}

#[test]
fn partitioned_patterns_are_built_from_descriptions() {
    let cases = [
        ("str(4,u,10)", PatternKind::Strobe, 4usize),
        ("br(10,m,200,2)", PatternKind::Breathing, 10),
        ("shst(44,200,400)", PatternKind::ShootingStar, 44),
        ("cat(9,,120)", PatternKind::Caterpillar, 9),
        ("pt(12)", PatternKind::Partitioned, 12),
    ];
    for (text, kind, size) in cases {
        let p = match Pattern::from_str(text, 1) {
            Ok(p) => p,
            Err(e) => panic!("{:?} was refused: {:?}", text, e),
        };
        assert_eq!(p.size(), size);
        let found = match p {
            Pattern::Background(_) => PatternKind::Background,
            Pattern::Breathing(_) => PatternKind::Breathing,
            Pattern::Caterpillar(_) => PatternKind::Caterpillar,
            Pattern::Partitioned(_) => PatternKind::Partitioned,
            Pattern::ShootingStar(_) => PatternKind::ShootingStar,
            Pattern::Strobe(_) => PatternKind::Strobe,
        };
        assert_eq!(found, kind);
    }
}

#[test]
fn partitioned_to_pattern_reads_the_arguments_of_its_kind() {
    let p = PatternKind::Strobe.to_pattern(b"4,u,10", 1);
    assert!(matches!(p, Ok(Pattern::Strobe(_))));
    let p = PatternKind::Breathing.to_pattern(b"4,u,10", 1);
    assert!(matches!(p, Err(PatternError::InvalidArgs)));
    let p = PatternKind::Background.to_pattern(b"str(3,u,25),#102030", 1);
    assert!(matches!(p, Ok(Pattern::Background(_))));
    let p = PatternKind::Partitioned.to_pattern(b"", 1);
    assert!(matches!(p, Err(PatternError::InvalidNumber)));
}

#[test]
fn partitioned_a_pattern_renders_as_its_variant_does() {
    let mut p = Pattern::from_str("str(5,s,25)", 3).unwrap_or_else(|_| panic!("refused"));
    let mut s = Strobe::new(5, StrobeMode::Single, Rng::new(3), 25);
    for _ in 0..40 {
        assert_eq!(p.next().to_vec(), s.next().to_vec());
    }
    assert_eq!(p.execute_command("s1"), Ok(()));
    assert_eq!(p.execute_command("zz"), Err(PatternError::InvalidCommand { letter: b'z' }));
    p.beat(&BeatCount::default());
    assert_eq!(p.rgbs().len(), 5);
}

#[test]
fn partitioned_frames_repeat_for_the_same_seed() {
    let build = || {
        let mut rgbs = PartitionedPatterns::from_str("40", 77).unwrap_or_else(|_| panic!());
        let cmd = "a n,cat(10,,5);a n,br(10,m,60,3.5);a n,str(10,i,20);a n,shst(10,500)";
        assert_eq!(rgbs.execute_command(cmd), Ok(()));
        rgbs
    };
    let mut a = build();
    let mut b = build();
    for _ in 0..300 {
        assert_eq!(a.next().to_vec(), b.next().to_vec());
    }
}
