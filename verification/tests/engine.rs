use beat_strip::beat::tapping::TapInfo;
use beat_strip::beat::BeatCount;
use beat_strip::color::Rgb;
use beat_strip::error::PatternError;
use beat_strip::patterns::partitioned::PartitionedPatterns;
use beat_strip::patterns::strobe::{Strobe, StrobeMode};
use beat_strip::patterns::{LedPattern, Pattern};
use beat_strip::render::{init_rgbs, render_delay, rgbs_issue_beat, N_LEDS, RENDER_INTERVAL};
use beat_strip::transmit::{encode, PulseCode, T0_HIGH, T1_HIGH, T_LOW_GAP, T_LOW_RESET};
use beat_strip::util::ble::{next_notification, INFO_PACKET_LENGTH};
use beat_strip::patterns::command::same_bytes;
use beat_strip::util::commands::{change_speed, handle_wireless_input, InputOutcome};
use beat_strip::util::random::Rng;

const OFF: Rgb = Rgb { r: 0, g: 0, b: 0 };

fn bit(high: bool) -> PulseCode {
    PulseCode {
        level1: true,
        length1: if high { T1_HIGH } else { T0_HIGH },
        level2: false,
        length2: T_LOW_GAP,
    }
}

#[test]
fn engine_pulse_lengths_are_in_clock_cycles() {
    assert_eq!(T0_HIGH, 29);
    assert_eq!(T1_HIGH, 58);
    assert_eq!(T_LOW_GAP, 50);
    assert_eq!(T_LOW_RESET, 500);
}

#[test]
fn engine_a_pixel_is_sent_green_red_blue_high_bit_first() {
    let train = encode(&[Rgb { r: 0x80, g: 0x01, b: 0xff }]);
    assert_eq!(train.len(), 24);
    let mut expected: Vec<PulseCode> = Vec::new();
    for k in 0..8 {
        expected.push(bit(k == 7));
    }
    for k in 0..8 {
        expected.push(bit(k == 0));
    }
    for _ in 0..8 {
        expected.push(bit(true));
    }
    expected[23].length2 = 0;
    assert_eq!(train, expected);
}

#[test]
fn engine_only_the_last_pulse_ends_the_train() {
    let train = encode(&[Rgb { r: 1, g: 2, b: 3 }, Rgb { r: 0xaa, g: 0x55, b: 0 }]);
    assert_eq!(train.len(), 48);
    for (k, pulse) in train.iter().enumerate() {
        assert_eq!(pulse.length2, if k == 47 { 0 } else { T_LOW_GAP });
        assert!(pulse.level1);
        assert!(!pulse.level2);
    }
    let green: Vec<bool> = train[24..32].iter().map(|p| p.length1 == T1_HIGH).collect();
    assert_eq!(green, vec![false, true, false, true, false, true, false, true]);
    let red: Vec<bool> = train[32..40].iter().map(|p| p.length1 == T1_HIGH).collect();
    assert_eq!(red, vec![true, false, true, false, true, false, true, false]);
}

#[test]
fn engine_an_empty_frame_has_no_pulses() {
    assert_eq!(encode(&[]), Vec::new());
}

#[test]
fn engine_a_reply_is_cut_into_packets() {
    assert_eq!(INFO_PACKET_LENGTH, 20);
    let mut reply: Vec<u8> = (0..45u8).collect();
    assert_eq!(next_notification(&mut reply), (0..20u8).collect::<Vec<u8>>());
    assert_eq!(next_notification(&mut reply), (20..40u8).collect::<Vec<u8>>());
    assert_eq!(next_notification(&mut reply), (40..45u8).collect::<Vec<u8>>());
    assert!(reply.is_empty());
    assert_eq!(next_notification(&mut reply), Vec::<u8>::new());
}

#[test]
fn engine_a_reply_of_exactly_one_packet_leaves_nothing() {
    let mut reply: Vec<u8> = vec![7; 20];
    assert_eq!(next_notification(&mut reply), vec![7; 20]);
    assert!(reply.is_empty());
    let mut reply: Vec<u8> = vec![7; 19];
    assert_eq!(next_notification(&mut reply), vec![7; 19]);
    assert!(reply.is_empty());
}

#[test]
fn engine_same_bytes_compares() {
    assert!(same_bytes(b"beat", b"beat"));
    assert!(!same_bytes(b"beat", b"bear"));
    assert!(!same_bytes(b"beat", b"beats"));
    assert!(same_bytes(b"", b""));
}

#[test]
fn engine_render_delay_is_the_rest_of_the_interval() {
    assert_eq!(RENDER_INTERVAL, 20);
    assert_eq!(render_delay(0), Some(20));
    assert_eq!(render_delay(5), Some(15));
    assert_eq!(render_delay(19), Some(1));
    assert_eq!(render_delay(20), None);
    assert_eq!(render_delay(u64::MAX), None);
}

#[test]
fn engine_the_strip_starts_with_three_patterns() {
    assert_eq!(N_LEDS, 67);
    let mut rgbs = init_rgbs(1);
    assert_eq!(rgbs.size(), 67);
    assert_eq!(rgbs.len(), 3);
    assert_eq!(rgbs.entry(0), Some(((0, 44), true, true)));
    assert_eq!(rgbs.entry(1), Some(((44, 54), true, true)));
    assert_eq!(rgbs.entry(2), Some(((54, 66), true, true)));
    assert!(matches!(rgbs.pattern(0), Some(Pattern::Caterpillar(_))));
    assert!(matches!(rgbs.pattern(1), Some(Pattern::Breathing(_))));
    assert!(matches!(rgbs.pattern(2), Some(Pattern::Strobe(_))));
    let frame = rgbs.next().to_vec();
    assert_eq!(frame.len(), 67);
    assert_eq!(frame[66], OFF);
}

#[test]
fn engine_the_strip_repeats_for_the_same_seed() {
    let mut a = init_rgbs(2024);
    let mut b = init_rgbs(2024);
    let mut beat = BeatCount::default();
    for _ in 0..300 {
        assert_eq!(rgbs_issue_beat(&mut a, &beat), rgbs_issue_beat(&mut b, &beat));
        beat.increment();
        assert_eq!(a.next().to_vec(), b.next().to_vec());
    }
}

#[test]
fn engine_issuing_a_beat_sets_the_led_on_quarters() {
    let mut rgbs = PartitionedPatterns::new(2);
    rgbs.add(Pattern::Strobe(Strobe::new(2, StrobeMode::Unison, Rng::new(1), 0)), None);
    let mut beat = BeatCount::default();
    beat.increment();
    assert_eq!(rgbs_issue_beat(&mut rgbs, &beat), None);
    assert_eq!(rgbs.next().to_vec(), vec![OFF; 2]);
    let beat = BeatCount::default();
    assert_eq!(rgbs_issue_beat(&mut rgbs, &beat), Some(true));
    assert_eq!(rgbs.next().to_vec(), vec![Rgb { r: 50, g: 50, b: 50 }; 2]);
}

#[test]
fn engine_beat_input_records_a_tap() {
    let mut taps: Option<TapInfo> = None;
    let mut rgbs = init_rgbs(1);
    assert_eq!(handle_wireless_input("beat", &mut taps, &mut rgbs, 5), Ok(InputOutcome::Tap));
    assert_eq!(taps.unwrap().last_time, Some(5));
    assert_eq!(
        handle_wireless_input("beat", &mut taps, &mut rgbs, 400_005),
        Ok(InputOutcome::Tap)
    );
    assert_eq!(taps.unwrap().interval, Some(400_000));
}

#[test]
fn engine_half_and_double_change_the_interval() {
    let mut taps: Option<TapInfo> = None;
    let mut rgbs = init_rgbs(1);
    handle_wireless_input("beat", &mut taps, &mut rgbs, 0).unwrap();
    handle_wireless_input("beat", &mut taps, &mut rgbs, 500_001).unwrap();
    assert_eq!(
        handle_wireless_input("half", &mut taps, &mut rgbs, 0),
        Ok(InputOutcome::TempoChanged)
    );
    assert_eq!(taps.unwrap().interval, Some(1_000_002));
    assert_eq!(
        handle_wireless_input("double", &mut taps, &mut rgbs, 0),
        Ok(InputOutcome::TempoChanged)
    );
    assert_eq!(taps.unwrap().interval, Some(500_001));
    handle_wireless_input("double", &mut taps, &mut rgbs, 0).unwrap();
    assert_eq!(taps.unwrap().interval, Some(250_000));
}

#[test]
fn engine_half_saturates() {
    let mut info = TapInfo::new();
    info.interval = Some(u64::MAX - 1);
    let mut taps = Some(info);
    assert_eq!(change_speed(&mut taps, false), Ok(()));
    assert_eq!(taps.unwrap().interval, Some(u64::MAX));
}

#[test]
fn engine_tempo_commands_need_a_tempo() {
    let mut taps: Option<TapInfo> = None;
    let mut rgbs = init_rgbs(1);
    for word in ["half", "double", "stop"] {
        assert_eq!(
            handle_wireless_input(word, &mut taps, &mut rgbs, 0),
            Err(PatternError::NoTempo)
        );
        assert!(taps.is_none());
    }
    handle_wireless_input("beat", &mut taps, &mut rgbs, 0).unwrap();
    assert_eq!(
        handle_wireless_input("half", &mut taps, &mut rgbs, 0),
        Err(PatternError::NoTempo)
    );
    assert_eq!(taps.unwrap().interval, None);
}

#[test]
fn engine_stop_sets_the_flag() {
    let mut taps: Option<TapInfo> = None;
    let mut rgbs = init_rgbs(1);
    handle_wireless_input("beat", &mut taps, &mut rgbs, 0).unwrap();
    assert_eq!(
        handle_wireless_input("stop", &mut taps, &mut rgbs, 0),
        Ok(InputOutcome::Stopped)
    );
    assert!(taps.unwrap().is_stopped);
    assert_eq!(taps.unwrap().last_time, Some(0));
}

#[test]
fn engine_other_input_is_a_command_for_the_compositor() {
    let mut taps: Option<TapInfo> = None;
    let mut rgbs = init_rgbs(1);
    assert_eq!(
        handle_wireless_input("p0s;p1b", &mut taps, &mut rgbs, 0),
        Ok(InputOutcome::Command)
    );
    assert_eq!(rgbs.entry(0), Some(((0, 44), false, true)));
    assert_eq!(rgbs.entry(1), Some(((44, 54), true, false)));
    assert_eq!(
        handle_wireless_input("Beat", &mut taps, &mut rgbs, 0),
        Err(PatternError::InvalidCommand { letter: b'B' })
    );
    assert_eq!(
        handle_wireless_input("p7s", &mut taps, &mut rgbs, 0),
        Err(PatternError::IndexOutOfRange { index: 7, len: 3 })
    );
    assert_eq!(
        handle_wireless_input("", &mut taps, &mut rgbs, 0),
        Err(PatternError::EmptyCommand)
    );
    assert!(taps.is_none());
}
