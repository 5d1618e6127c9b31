use beat_strip::color::Rgb;
use beat_strip::error::PatternError;
use beat_strip::patterns::command::{
    explicit_range, hex_color, hex_rgb, parse, parse_bytes, parse_digits, parse_milli,
    parse_milli_all,
    parse_number, parse_rgb, parse_tuple, parse_u8, range_tuple, scan, CharClass,
};
use beat_strip::patterns::{invalid_cmd, pattern_with_args_from_command, PatternKind};

#[test]
fn command_parse_reads_a_whole_number() {
    assert_eq!(parse("0"), Ok(0));
    assert_eq!(parse("120"), Ok(120));
    assert_eq!(parse("+7"), Ok(7));
    assert_eq!(parse("007"), Ok(7));
}

#[test]
fn command_parse_rejects_anything_else() {
    for bad in ["", "+", "-1", " 1", "1 ", "1a", "a", "1.5", "++1"] {
        assert_eq!(parse(bad), Err(PatternError::InvalidNumber));
    }
}

#[test]
fn command_parse_rejects_what_does_not_fit() {
    let max = usize::MAX.to_string();
    assert_eq!(parse(&max), Ok(usize::MAX));
    let mut too_big = max.clone();
    too_big.push('0');
    assert_eq!(parse(&too_big), Err(PatternError::InvalidNumber));
    assert_eq!(parse("340282366920938463463374607431768211456"), Err(PatternError::InvalidNumber));
}

#[test]
fn command_parse_u8_stops_at_255() {
    assert_eq!(parse_u8(b"255"), Ok(255));
    assert_eq!(parse_u8(b"256"), Err(PatternError::InvalidNumber));
    assert_eq!(parse_u8(b"0"), Ok(0));
    assert_eq!(parse_u8(b""), Err(PatternError::InvalidNumber));
}

#[test]
fn command_parse_number_takes_any_bound() {
    assert_eq!(parse_number(b"1000", 1000), Some(1000));
    assert_eq!(parse_number(b"1001", 1000), None);
    assert_eq!(parse_bytes(b"42"), Ok(42));
}

#[test]
fn command_parse_digits_reads_a_prefix() {
    assert_eq!(parse_digits(b"12,34", 0, 1000), Some((12, 2)));
    assert_eq!(parse_digits(b"12,34", 3, 1000), Some((34, 5)));
    assert_eq!(parse_digits(b"12,34", 2, 1000), None);
    assert_eq!(parse_digits(b"12", 2, 1000), None);
    assert_eq!(parse_digits(b"4294967295x", 0, u32::MAX as u64), Some((4294967295, 10)));
    assert_eq!(parse_digits(b"4294967296x", 0, u32::MAX as u64), None);
}

#[test]
fn command_parse_digits_needs_no_care_from_the_caller() {
    assert_eq!(parse_digits(b"5", 0, 3), None);
    assert_eq!(parse_digits(b"3", 0, 3), Some((3, 1)));
    assert_eq!(parse_digits(b"0", 0, 0), Some((0, 1)));
    assert_eq!(parse_digits(b"10", 0, 9), None);
    assert_eq!(parse_digits(b"12", 5, 100), None);
    assert_eq!(parse_number(b"7", 6), None);
    assert_eq!(parse_milli(b"1.5", 9), None);
    assert_eq!(scan(b"ab", 9, CharClass::Alpha), 9);
}

#[test]
fn command_scan_finds_the_end_of_a_run() {
    assert_eq!(scan(b"abc123", 0, CharClass::Alpha), 3);
    assert_eq!(scan(b"abc123", 3, CharClass::Digit), 6);
    assert_eq!(scan(b"abc123", 0, CharClass::Digit), 0);
    assert_eq!(scan(b"a;b", 0, CharClass::Except(b';')), 1);
    assert_eq!(scan(b"  n", 0, CharClass::Only(b' ')), 2);
    assert_eq!(scan(b"10..20str", 0, CharClass::RangeChar), 6);
    assert_eq!(scan(b"4,u,1.5)", 0, CharClass::ArgChar), 7);
    assert_eq!(scan(b"", 0, CharClass::Alpha), 0);
}

#[test]
fn command_parse_tuple_reads_one_or_two_numbers() {
    assert_eq!(parse_tuple("5"), Ok((5, 5)));
    assert_eq!(parse_tuple("5..15"), Ok((5, 15)));
    assert_eq!(parse_tuple("15..5"), Ok((15, 5)));
    assert_eq!(parse_tuple("1..2..3"), Ok((1, 2)));
}

#[test]
fn command_parse_tuple_rejects_bad_numbers() {
    for bad in ["", "..", "1..", "..2", "a..2", "1..b", "1...2", "1,2"] {
        assert_eq!(parse_tuple(bad), Err(PatternError::InvalidNumber));
    }
}

#[test]
fn command_range_tuple_reads_from_the_front() {
    assert_eq!(range_tuple(b"20..24"), Ok((6, (20, 24))));
    assert_eq!(range_tuple(b"20"), Ok((2, (20, 20))));
    assert_eq!(range_tuple(b"20..24str"), Ok((6, (20, 24))));
    assert_eq!(range_tuple(b"20.5"), Ok((2, (20, 20))));
}

#[test]
fn command_range_tuple_rejects_what_is_no_range() {
    assert_eq!(range_tuple(b""), Err(PatternError::InvalidRange));
    assert_eq!(range_tuple(b"n"), Err(PatternError::InvalidRange));
    assert_eq!(range_tuple(b"20..x"), Err(PatternError::InvalidRange));
    assert_eq!(range_tuple(b"20.."), Err(PatternError::InvalidRange));
    assert_eq!(range_tuple(b"99999999999"), Err(PatternError::InvalidRange));
}

#[test]
fn command_explicit_range_wants_start_and_end() {
    assert_eq!(explicit_range(b"20..24"), Ok((20, 24)));
    assert_eq!(explicit_range(b"0..0"), Ok((0, 0)));
    assert_eq!(explicit_range(b"0..4294967295"), Ok((0, 4294967295)));
    let bad_ranges =
        [&b""[..], b"20", b"n", b"20..", b"..24", b"24..20", b"20..24x", b"1..2..3", b"20.24"];
    for bad in bad_ranges {
        assert_eq!(explicit_range(bad), Err(PatternError::InvalidRange));
    }
}

#[test]
fn command_hex_rgb_wants_a_hash_and_six_digits() {
    assert_eq!(hex_rgb(b"#ff0080"), Ok((7, Rgb { r: 255, g: 0, b: 128 })));
    assert_eq!(hex_rgb(b"#ff0080rest"), Ok((7, Rgb { r: 255, g: 0, b: 128 })));
    assert_eq!(hex_rgb(b"ff0080"), Err(PatternError::MissingHash));
    assert_eq!(hex_rgb(b""), Err(PatternError::MissingHash));
    assert_eq!(hex_rgb(b"#ff00"), Err(PatternError::InvalidColor));
    assert_eq!(hex_rgb(b"#ff00zz"), Err(PatternError::InvalidColor));
}

#[test]
fn command_hex_color_reads_six_digits() {
    assert_eq!(hex_color(b"000000"), Some(Rgb { r: 0, g: 0, b: 0 }));
    assert_eq!(hex_color(b"FFFFFF"), Some(Rgb { r: 255, g: 255, b: 255 }));
    assert_eq!(hex_color(b"12aBcD"), Some(Rgb { r: 0x12, g: 0xab, b: 0xcd }));
    assert_eq!(hex_color(b"12aBc"), None);
    assert_eq!(hex_color(b"12aBcG"), None);
}

#[test]
fn command_parse_rgb_wants_six_hex_digits() {
    assert_eq!(parse_rgb("105010"), Ok(Rgb { r: 0x10, g: 0x50, b: 0x10 }));
    assert_eq!(parse_rgb("fff"), Err(PatternError::InvalidColor));
    assert_eq!(parse_rgb("1050"), Err(PatternError::InvalidColor));
    assert_eq!(parse_rgb(""), Err(PatternError::InvalidColor));
    assert_eq!(parse_rgb("1050100"), Err(PatternError::InvalidColor));
    assert_eq!(parse_rgb("10501x"), Err(PatternError::InvalidColor));
}

#[test]
fn command_milli_reads_thousandths() {
    assert_eq!(parse_milli_all(b"0.5"), Ok(500));
    assert_eq!(parse_milli_all(b"2"), Ok(2000));
    assert_eq!(parse_milli_all(b"2."), Ok(2000));
    assert_eq!(parse_milli_all(b"1.25"), Ok(1250));
    assert_eq!(parse_milli_all(b"1.2345"), Ok(1234));
    assert_eq!(parse_milli_all(b"0.001"), Ok(1));
    assert_eq!(parse_milli_all(b"0.0009"), Ok(0));
    assert_eq!(parse_milli_all(b"4294966.999"), Ok(4294966999));
}

#[test]
fn command_milli_rejects_what_is_no_decimal() {
    for bad in [&b""[..], b".5", b"-1", b"1e3", b"1.5x", b"4294967", b"+1"] {
        assert_eq!(parse_milli_all(bad), Err(PatternError::InvalidNumber));
    }
}

#[test]
fn command_milli_reads_a_prefix() {
    assert_eq!(parse_milli(b"60,0.5)", 3), Some((500, 6)));
    assert_eq!(parse_milli(b"60,2,x", 3), Some((2000, 4)));
    assert_eq!(parse_milli(b"60,", 3), None);
}

#[test]
fn command_description_is_cut_at_the_parentheses() {
    let spec = pattern_with_args_from_command(b"str(4,u,10)").unwrap();
    assert_eq!(spec.kind, b"str");
    assert_eq!(spec.args, b"4,u,10");
    assert_eq!(spec.rest, b"");
    let spec = pattern_with_args_from_command(b"br(10,m,60,0.5),#ff0000").unwrap();
    assert_eq!(spec.kind, b"br");
    assert_eq!(spec.args, b"10,m,60,0.5");
    assert_eq!(spec.rest, b",#ff0000");
    let spec = pattern_with_args_from_command(b"()").unwrap();
    assert_eq!(spec.kind, b"");
    assert_eq!(spec.args, b"");
}

#[test]
fn command_description_without_parentheses_is_malformed() {
    for bad in [&b""[..], b"str", b"str(4,u,10", b"str 4)", b"str(4 u)", b"str(a(b))", b"str(#)"] {
        assert!(matches!(
            pattern_with_args_from_command(bad),
            Err(PatternError::MalformedSpec)
        ));
    }
}

#[test]
fn command_kinds_have_abbreviations() {
    assert_eq!(PatternKind::try_from(b"br"), Ok(PatternKind::Breathing));
    assert_eq!(PatternKind::try_from(b"ba"), Ok(PatternKind::Background));
    assert_eq!(PatternKind::try_from(b"cat"), Ok(PatternKind::Caterpillar));
    assert_eq!(PatternKind::try_from(b"pt"), Ok(PatternKind::Partitioned));
    assert_eq!(PatternKind::try_from(b"shst"), Ok(PatternKind::ShootingStar));
    assert_eq!(PatternKind::try_from(b"str"), Ok(PatternKind::Strobe));
}

#[test]
fn command_unknown_kinds_are_refused() {
    for bad in [&b""[..], b"b", b"brr", b"BR", b"strobe", b",str", b" str"] {
        assert_eq!(PatternKind::try_from(bad), Err(PatternError::InvalidKind));
    }
}

#[test]
fn command_invalid_cmd_names_the_letter() {
    assert_eq!(invalid_cmd(b"x12"), Err(PatternError::InvalidCommand { letter: b'x' }));
    assert_eq!(invalid_cmd(b""), Err(PatternError::EmptyCommand));
}
