//! The small text grammar of commands and pattern descriptions, on bytes.
//!
//! Every function here reads a byte string and either returns what it
//! found or an error; none of them indexes past the end of its input.

use vstd::prelude::*;
use vstd::slice::slice_subrange;
use vstd::string::StringSliceAdditionalSpecFns;

use crate::color::Rgb;
use crate::error::PatternError;
use crate::patterns::ascii::{
    COMMA, DIGIT_0, DIGIT_9, DOT, HASH, LOWER_A, LOWER_F, LOWER_N, LOWER_Z, PLUS, UPPER_A, UPPER_F,
    UPPER_Z,
};

verus! {

/// A set of bytes that a scan accepts.
#[derive(Copy, Clone, Debug, PartialEq, Eq, Structural)]
pub enum CharClass {
    /// `0` to `9`.
    Digit,
    /// ASCII letters.
    Alpha,
    /// What may stand between the parentheses of a pattern description:
    /// ASCII letters, digits, `,` and `.`.
    ArgChar,
    /// What a pixel range is made of: digits, `n` and `.`.
    RangeChar,
    /// Every byte but the given one.
    Except(u8),
    /// The given byte alone.
    Only(u8),
}

/// `0` to `9`.
pub open spec fn is_digit(b: u8) -> bool {
    DIGIT_0 <= b <= DIGIT_9
}

/// An ASCII letter.
pub open spec fn is_alpha(b: u8) -> bool {
    (UPPER_A <= b <= UPPER_Z) || (LOWER_A <= b <= LOWER_Z)
}

impl CharClass {
    /// Whether the class holds the byte.
    pub open spec fn holds(self, b: u8) -> bool {
        match self {
            CharClass::Digit => is_digit(b),
            CharClass::Alpha => is_alpha(b),
            CharClass::ArgChar => is_digit(b) || is_alpha(b) || b == COMMA || b == DOT,
            CharClass::RangeChar => is_digit(b) || b == LOWER_N || b == DOT,
            CharClass::Except(x) => b != x,
            CharClass::Only(x) => b == x,
        }
    }

    /// Tests one byte against the class.
    pub fn test(self, b: u8) -> (out: bool)
        ensures
            out == self.holds(b),
    {
        match self {
            CharClass::Digit => DIGIT_0 <= b && b <= DIGIT_9,
            CharClass::Alpha => (UPPER_A <= b && b <= UPPER_Z) || (LOWER_A <= b && b <= LOWER_Z),
            CharClass::ArgChar => (DIGIT_0 <= b && b <= DIGIT_9) || (UPPER_A <= b && b
                <= UPPER_Z) || (LOWER_A <= b && b <= LOWER_Z) || b == COMMA || b == DOT,
            CharClass::RangeChar => (DIGIT_0 <= b && b <= DIGIT_9) || b == LOWER_N || b == DOT,
            CharClass::Except(x) => b != x,
            CharClass::Only(x) => b == x,
        }
    }
}

/// The index at which the longest run of bytes of `class` that starts at
/// `from` ends: the first index at or after `from` whose byte is outside
/// the class, or the length of `s`.
pub open spec fn run_end(s: Seq<u8>, from: int, class: CharClass) -> int
    decreases s.len() - from,
{
    if 0 <= from < s.len() && class.holds(s[from]) {
        run_end(s, from + 1, class)
    } else {
        from
    }
}

/// A run ends within the string, every byte before its end is in the
/// class, and the byte at its end, if there is one, is not.
pub proof fn lemma_run_end(s: Seq<u8>, from: int, class: CharClass)
    requires
        0 <= from <= s.len(),
    ensures
        from <= run_end(s, from, class) <= s.len(),
        forall|i: int| from <= i < run_end(s, from, class) ==> class.holds(#[trigger] s[i]),
        run_end(s, from, class) < s.len() ==> !class.holds(s[run_end(s, from, class)]),
    decreases s.len() - from,
{
    if from < s.len() && class.holds(s[from]) {
        lemma_run_end(s, from + 1, class);
    }
}

/// The first index at or after `start` whose byte is outside `class`.
pub fn scan(bytes: &[u8], start: usize, class: CharClass) -> (end: usize)
    ensures
        end == run_end(bytes@, start as int, class),
        start <= end,
        start <= bytes.len() ==> end <= bytes.len(),
{
    let mut i: usize = start;
    while i < bytes.len() && class.test(bytes[i])
        invariant
            start <= i,
            start <= bytes.len() ==> i <= bytes.len(),
            run_end(bytes@, i as int, class) == run_end(bytes@, start as int, class),
        decreases bytes.len() - i,
    {
        i += 1;
    }
    i
}

/// The index of the first `b` in `s`, or the length of `s` if it has none.
pub open spec fn find_byte(s: Seq<u8>, b: u8) -> int {
    run_end(s, 0, CharClass::Except(b))
}

/// The number that the decimal digits `s[from..to)` write.
pub open spec fn decimal_value(s: Seq<u8>, from: int, to: int) -> nat
    decreases to - from,
{
    if to <= from {
        0
    } else {
        decimal_value(s, from, to - 1) * 10 + (s[to - 1] - DIGIT_0) as nat
    }
}

proof fn lemma_decimal_value_grows(s: Seq<u8>, from: int, mid: int, to: int)
    requires
        0 <= from <= mid <= to <= s.len(),
        forall|i: int| from <= i < to ==> is_digit(#[trigger] s[i]),
    ensures
        decimal_value(s, from, mid) <= decimal_value(s, from, to),
    decreases to - mid,
{
    if mid < to {
        lemma_decimal_value_grows(s, from, mid, to - 1);
    }
}

/// The number written by the digits that start at `from`, with the index
/// just behind them: `None` where no digit stands at `from` or the number
/// is above `max`.
pub open spec fn spec_parse_digits(s: Seq<u8>, from: int, max: nat) -> Option<(u64, usize)> {
    let end = run_end(s, from, CharClass::Digit);
    if end == from || decimal_value(s, from, end) > max {
        None
    } else {
        Some((decimal_value(s, from, end) as u64, end as usize))
    }
}

/// Reads the longest run of decimal digits at `start` as a number of at
/// most `max`.
pub fn parse_digits(bytes: &[u8], start: usize, max: u64) -> (out: Option<(u64, usize)>)
    ensures
        out == spec_parse_digits(bytes@, start as int, max as nat),
        out matches Some((v, end)) ==> start < end <= bytes.len() && v <= max,
{
    let end: usize = scan(bytes, start, CharClass::Digit);
    if end == start {
        return None;
    }
    proof {
        lemma_run_end(bytes@, start as int, CharClass::Digit);
    }
    let mut acc: u64 = 0;
    let mut i: usize = start;
    while i < end
        invariant
            start <= i <= end <= bytes.len(),
            start < end,
            end == run_end(bytes@, start as int, CharClass::Digit),
            acc == decimal_value(bytes@, start as int, i as int),
            acc <= max,
            forall|k: int| start <= k < end ==> is_digit(#[trigger] bytes@[k]),
        decreases end - i,
    {
        let d: u64 = (bytes[i] - DIGIT_0) as u64;
        if d > max || acc > (max - d) / 10 {
            proof {
                assert(decimal_value(bytes@, start as int, i as int + 1) == acc * 10 + d);
                assert(acc * 10 + d > max);
                lemma_decimal_value_grows(bytes@, start as int, i as int + 1, end as int);
            }
            return None;
        }
        acc = acc * 10 + d;
        i += 1;
    }
    Some((acc, end))
}

/// The number that the whole of `s` writes: an optional `+`, then one or
/// more decimal digits and nothing else, the number at most `max`.
pub open spec fn spec_parse_number(s: Seq<u8>, max: nat) -> Option<u64> {
    let from: int = if s.len() > 0 && s[0] == PLUS {
        1
    } else {
        0
    };
    match spec_parse_digits(s, from, max) {
        Some((v, end)) => if end == s.len() {
            Some(v)
        } else {
            None
        },
        None => None,
    }
}

/// Reads the whole of `bytes` as a decimal number of at most `max`.
pub fn parse_number(bytes: &[u8], max: u64) -> (out: Option<u64>)
    ensures
        out == spec_parse_number(bytes@, max as nat),
        out matches Some(v) ==> v <= max,
{
    let from: usize = if bytes.len() > 0 && bytes[0] == PLUS {
        1
    } else {
        0
    };
    match parse_digits(bytes, from, max) {
        Some((v, end)) => if end == bytes.len() {
            Some(v)
        } else {
            None
        },
        None => None,
    }
}

/// What `parse_bytes` returns for `s`.
pub open spec fn spec_parse(s: Seq<u8>) -> Result<usize, PatternError> {
    match spec_parse_number(s, usize::MAX as nat) {
        Some(v) => Ok(v as usize),
        None => Err(PatternError::InvalidNumber),
    }
}

/// Reads the whole of `arg` as a `usize`.
pub fn parse_bytes(arg: &[u8]) -> (out: Result<usize, PatternError>)
    ensures
        out == spec_parse(arg@),
{
    match parse_number(arg, usize::MAX as u64) {
        Some(v) => Ok(v as usize),
        None => Err(PatternError::InvalidNumber),
    }
}

/// Reads the whole of `arg` as a `usize`: an optional `+` and decimal
/// digits, nothing before or after.
pub fn parse(arg: &str) -> (out: Result<usize, PatternError>)
    ensures
        out == spec_parse(arg.spec_bytes()),
{
    parse_bytes(arg.as_bytes())
}

/// What `parse_u8` returns for `s`.
pub open spec fn spec_parse_u8(s: Seq<u8>) -> Result<u8, PatternError> {
    match spec_parse_number(s, 255) {
        Some(v) => Ok(v as u8),
        None => Err(PatternError::InvalidNumber),
    }
}

/// Reads the whole of `arg` as a `u8`.
pub fn parse_u8(arg: &[u8]) -> (out: Result<u8, PatternError>)
    ensures
        out == spec_parse_u8(arg@),
{
    match parse_number(arg, 255) {
        Some(v) => Ok(v as u8),
        None => Err(PatternError::InvalidNumber),
    }
}

/// The index at which the first `..` in `s` at or after `from` starts, or
/// the length of `s` if there is none.
pub open spec fn find_dots(s: Seq<u8>, from: int) -> int
    decreases s.len() - from,
{
    if from < 0 || from >= s.len() {
        s.len() as int
    } else if from + 1 < s.len() && s[from] == DOT && s[from + 1] == DOT {
        from
    } else {
        find_dots(s, from + 1)
    }
}

proof fn lemma_find_dots(s: Seq<u8>, from: int)
    requires
        0 <= from <= s.len(),
    ensures
        from <= find_dots(s, from) <= s.len(),
        find_dots(s, from) < s.len() ==> find_dots(s, from) + 2 <= s.len(),
    decreases s.len() - from,
{
    if from < s.len() && !(from + 1 < s.len() && s[from] == DOT && s[from + 1] == DOT) {
        lemma_find_dots(s, from + 1);
    }
}

fn scan_dots(bytes: &[u8], start: usize) -> (at: usize)
    requires
        start <= bytes.len(),
    ensures
        at == find_dots(bytes@, start as int),
        start <= at <= bytes.len(),
        at < bytes.len() ==> at + 2 <= bytes.len(),
{
    proof {
        lemma_find_dots(bytes@, start as int);
    }
    let mut i: usize = start;
    while i < bytes.len()
        invariant
            start <= i <= bytes.len(),
            find_dots(bytes@, i as int) == find_dots(bytes@, start as int),
        decreases bytes.len() - i,
    {
        if i + 1 < bytes.len() && bytes[i] == DOT && bytes[i + 1] == DOT {
            return i;
        }
        i += 1;
    }
    i
}

/// What `parse_tuple_bytes` returns for `s`: the text is cut at each
/// `..`; one piece gives its number twice, more pieces give the numbers
/// of the first two.
pub open spec fn spec_parse_tuple(s: Seq<u8>) -> Result<(usize, usize), PatternError> {
    let cut = find_dots(s, 0);
    if cut >= s.len() {
        match spec_parse(s) {
            Ok(v) => Ok((v, v)),
            Err(e) => Err(e),
        }
    } else {
        let rest = s.skip(cut + 2);
        match spec_parse(s.take(cut)) {
            Err(e) => Err(e),
            Ok(a) => match spec_parse(rest.take(find_dots(rest, 0))) {
                Err(e) => Err(e),
                Ok(b) => Ok((a, b)),
            },
        }
    }
}

/// Reads `a..b` as a pair, or a single number as the pair of it twice.
pub fn parse_tuple_bytes(command: &[u8]) -> (out: Result<(usize, usize), PatternError>)
    ensures
        out == spec_parse_tuple(command@),
{
    let cut: usize = scan_dots(command, 0);
    if cut >= command.len() {
        let v: usize = parse_bytes(command)?;
        Ok((v, v))
    } else {
        let head = slice_subrange(command, 0, cut);
        let rest = slice_subrange(command, cut + 2, command.len());
        let second_end: usize = scan_dots(rest, 0);
        let second = slice_subrange(rest, 0, second_end);
        let a: usize = parse_bytes(head)?;
        let b: usize = parse_bytes(second)?;
        Ok((a, b))
    }
}

/// Reads `a..b` as a pair, or a single number as the pair of it twice.
pub fn parse_tuple(command: &str) -> (out: Result<(usize, usize), PatternError>)
    ensures
        out == spec_parse_tuple(command.spec_bytes()),
{
    parse_tuple_bytes(command.as_bytes())
}

/// What `range_tuple` returns for `s`: a number, then optionally `..`
/// and a second number; with the pair, the index just behind what was
/// read. A single number gives the pair of it twice.
pub open spec fn spec_range_tuple(s: Seq<u8>) -> Result<(usize, (u32, u32)), PatternError> {
    match spec_parse_digits(s, 0, u32::MAX as nat) {
        None => Err(PatternError::InvalidRange),
        Some((first, end)) => if end + 1 < s.len() && s[end as int] == DOT && s[end + 1] == DOT {
            match spec_parse_digits(s, end + 2, u32::MAX as nat) {
                None => Err(PatternError::InvalidRange),
                Some((second, end2)) => Ok((end2, (first as u32, second as u32))),
            }
        } else {
            Ok((end, (first as u32, first as u32)))
        },
    }
}

/// Reads `start..end`, or `start` alone, from the front of `input`.
pub fn range_tuple(input: &[u8]) -> (out: Result<(usize, (u32, u32)), PatternError>)
    ensures
        out == spec_range_tuple(input@),
        out matches Ok((used, _)) ==> used <= input.len(),
{
    match parse_digits(input, 0, u32::MAX as u64) {
        None => Err(PatternError::InvalidRange),
        Some((first, end)) => {
            if input.len() - end >= 2 && input[end] == DOT && input[end + 1] == DOT {
                match parse_digits(input, end + 2, u32::MAX as u64) {
                    None => Err(PatternError::InvalidRange),
                    Some((second, end2)) => Ok((end2, (first as u32, second as u32))),
                }
            } else {
                Ok((end, (first as u32, first as u32)))
            }
        },
    }
}

/// The pixel range that the whole of `s` writes as `start..end`, the
/// start not behind the end. A single number, text behind the end and an
/// end before the start are refused.
pub open spec fn spec_explicit_range(s: Seq<u8>) -> Result<(u32, u32), PatternError> {
    match spec_range_tuple(s) {
        Err(e) => Err(e),
        Ok((used, (start, end))) => if used == s.len() && find_dots(s, 0) < s.len() && start
            <= end {
            Ok((start, end))
        } else {
            Err(PatternError::InvalidRange)
        },
    }
}

/// Reads the whole of `input` as `start..end`.
pub fn explicit_range(input: &[u8]) -> (out: Result<(u32, u32), PatternError>)
    ensures
        out == spec_explicit_range(input@),
        out matches Ok((start, end)) ==> start <= end,
{
    let (used, (start, end)) = range_tuple(input)?;
    let dots: usize = scan_dots(input, 0);
    if used == input.len() && dots < input.len() && start <= end {
        Ok((start, end))
    } else {
        Err(PatternError::InvalidRange)
    }
}

/// A decimal digit or a letter from `a` to `f`, in either case.
pub open spec fn is_hex_digit(b: u8) -> bool {
    is_digit(b) || (UPPER_A <= b <= UPPER_F) || (LOWER_A <= b <= LOWER_F)
}

/// The value of one hexadecimal digit.
pub open spec fn hex_value(b: u8) -> nat {
    if is_digit(b) {
        (b - DIGIT_0) as nat
    } else if UPPER_A <= b <= UPPER_F {
        (b - UPPER_A + 10) as nat
    } else {
        (b - LOWER_A + 10) as nat
    }
}

/// The byte that the two hexadecimal digits at `at` write.
pub open spec fn hex_pair(s: Seq<u8>, at: int) -> u8 {
    (hex_value(s[at]) * 16 + hex_value(s[at + 1])) as u8
}

/// What six bytes give as a colour: `None` where one is no hexadecimal
/// digit.
pub open spec fn spec_hex_color(s: Seq<u8>) -> Option<Rgb> {
    if s.len() == 6 && (forall|i: int| 0 <= i < 6 ==> is_hex_digit(#[trigger] s[i])) {
        Some(Rgb { r: hex_pair(s, 0), g: hex_pair(s, 2), b: hex_pair(s, 4) })
    } else {
        None
    }
}

fn hex_digit(b: u8) -> (out: Option<u8>)
    ensures
        out is Some <==> is_hex_digit(b),
        out matches Some(v) ==> v == hex_value(b) && v < 16,
{
    if DIGIT_0 <= b && b <= DIGIT_9 {
        Some(b - DIGIT_0)
    } else if UPPER_A <= b && b <= UPPER_F {
        Some(b - UPPER_A + 10)
    } else if LOWER_A <= b && b <= LOWER_F {
        Some(b - LOWER_A + 10)
    } else {
        None
    }
}

/// Reads six hexadecimal digits as a colour.
pub fn hex_color(bytes: &[u8]) -> (out: Option<Rgb>)
    ensures
        out == spec_hex_color(bytes@),
{
    if bytes.len() != 6 {
        return None;
    }
    let mut channels: [u8; 3] = [0, 0, 0];
    let mut k: usize = 0;
    while k < 3
        invariant
            k <= 3,
            bytes.len() == 6,
            forall|i: int| 0 <= i < 2 * k ==> is_hex_digit(#[trigger] bytes@[i]),
            forall|j: int| 0 <= j < k ==> #[trigger] channels@[j] == hex_pair(bytes@, 2 * j),
        decreases 3 - k,
    {
        let hi = hex_digit(bytes[2 * k]);
        let lo = hex_digit(bytes[2 * k + 1]);
        match (hi, lo) {
            (Some(h), Some(l)) => {
                channels[k] = h * 16 + l;
            },
            _ => {
                return None;
            },
        }
        k += 1;
    }
    Some(Rgb { r: channels[0], g: channels[1], b: channels[2] })
}

/// What `hex_rgb` returns for `s`: `#` and six hexadecimal digits give the
/// colour and the index behind them, 7.
pub open spec fn spec_hex_rgb(s: Seq<u8>) -> Result<(usize, Rgb), PatternError> {
    if s.len() == 0 || s[0] != HASH {
        Err(PatternError::MissingHash)
    } else if s.len() < 7 {
        Err(PatternError::InvalidColor)
    } else {
        match spec_hex_color(s.subrange(1, 7)) {
            Some(c) => Ok((7, c)),
            None => Err(PatternError::InvalidColor),
        }
    }
}

/// Reads `#RRGGBB` from the front of `input`.
pub fn hex_rgb(input: &[u8]) -> (out: Result<(usize, Rgb), PatternError>)
    ensures
        out == spec_hex_rgb(input@),
{
    if input.len() == 0 || input[0] != HASH {
        Err(PatternError::MissingHash)
    } else if input.len() < 7 {
        Err(PatternError::InvalidColor)
    } else {
        match hex_color(slice_subrange(input, 1, 7)) {
            Some(c) => Ok((7, c)),
            None => Err(PatternError::InvalidColor),
        }
    }
}

/// What `parse_rgb` returns for `s`: six hexadecimal digits are their
/// colour, and any other text is an error.
pub open spec fn spec_parse_rgb(s: Seq<u8>) -> Result<Rgb, PatternError> {
    match spec_hex_color(s) {
        Some(c) => Ok(c),
        None => Err(PatternError::InvalidColor),
    }
}

/// Reads `RRGGBB` as a colour.
pub fn parse_rgb_bytes(command: &[u8]) -> (out: Result<Rgb, PatternError>)
    ensures
        out == spec_parse_rgb(command@),
{
    match hex_color(command) {
        Some(c) => Ok(c),
        None => Err(PatternError::InvalidColor),
    }
}

/// Reads `RRGGBB` as a colour.
pub fn parse_rgb(command: &str) -> (out: Result<Rgb, PatternError>)
    ensures
        out == spec_parse_rgb(command.spec_bytes()),
{
    parse_rgb_bytes(command.as_bytes())
}

/// The largest whole part that a number in thousandths may have.
pub const MAX_MILLI_WHOLE: u64 = 4_294_966;

/// The digit at `at`, or 0 where `at` is not before `end`.
pub open spec fn digit_or_zero(s: Seq<u8>, at: int, end: int) -> nat {
    if 0 <= at < end {
        (s[at] - DIGIT_0) as nat
    } else {
        0
    }
}

/// The number in thousandths that stands at `from`, with the index behind
/// it: one or more digits, then optionally `.` and any number of digits,
/// of which the first three count. `None` where no digit stands at `from`
/// or the whole part is above `MAX_MILLI_WHOLE`.
pub open spec fn spec_parse_milli(s: Seq<u8>, from: int) -> Option<(u32, usize)> {
    match spec_parse_digits(s, from, MAX_MILLI_WHOLE as nat) {
        None => None,
        Some((whole, dot)) => if dot < s.len() && s[dot as int] == DOT {
            let end = run_end(s, dot + 1, CharClass::Digit);
            Some(
                (
                    (whole * 1000 + digit_or_zero(s, dot + 1, end) * 100 + digit_or_zero(
                        s,
                        dot + 2,
                        end,
                    ) * 10 + digit_or_zero(s, dot + 3, end)) as u32,
                    end as usize,
                ),
            )
        } else {
            Some(((whole * 1000) as u32, dot))
        },
    }
}

fn digit_at(bytes: &[u8], at: usize, end: usize) -> (out: u32)
    requires
        end <= bytes.len(),
        forall|i: int| at <= i < end ==> is_digit(#[trigger] bytes@[i]),
    ensures
        out == digit_or_zero(bytes@, at as int, end as int),
        out <= 9,
{
    if at < end {
        (bytes[at] - DIGIT_0) as u32
    } else {
        0
    }
}

/// Reads a decimal number with up to three counted fractional digits as
/// thousandths.
pub fn parse_milli(bytes: &[u8], from: usize) -> (out: Option<(u32, usize)>)
    ensures
        out == spec_parse_milli(bytes@, from as int),
        out matches Some((_, end)) ==> from < end <= bytes.len(),
{
    match parse_digits(bytes, from, MAX_MILLI_WHOLE) {
        None => None,
        Some((whole, dot)) => {
            if dot < bytes.len() && bytes[dot] == DOT {
                let end: usize = scan(bytes, dot + 1, CharClass::Digit);
                proof {
                    lemma_run_end(bytes@, dot + 1, CharClass::Digit);
                }
                let d1: u32 = digit_at(bytes, dot + 1, end);
                let d2: u32 = if end - dot > 2 {
                    digit_at(bytes, dot + 2, end)
                } else {
                    0
                };
                let d3: u32 = if end - dot > 3 {
                    digit_at(bytes, dot + 3, end)
                } else {
                    0
                };
                Some((whole as u32 * 1000 + d1 * 100 + d2 * 10 + d3, end))
            } else {
                Some((whole as u32 * 1000, dot))
            }
        },
    }
}

/// What the whole of `s` gives as a number in thousandths.
pub open spec fn spec_parse_milli_all(s: Seq<u8>) -> Result<u32, PatternError> {
    match spec_parse_milli(s, 0) {
        Some((v, end)) => if end == s.len() {
            Ok(v)
        } else {
            Err(PatternError::InvalidNumber)
        },
        None => Err(PatternError::InvalidNumber),
    }
}

/// Reads the whole of `bytes` as a number in thousandths.
pub fn parse_milli_all(bytes: &[u8]) -> (out: Result<u32, PatternError>)
    ensures
        out == spec_parse_milli_all(bytes@),
{
    match parse_milli(bytes, 0) {
        Some((v, end)) => if end == bytes.len() {
            Ok(v)
        } else {
            Err(PatternError::InvalidNumber)
        },
        None => Err(PatternError::InvalidNumber),
    }
}

/// Whether two byte strings are the same.
pub fn same_bytes(a: &[u8], b: &[u8]) -> (out: bool)
    ensures
        out == (a@ == b@),
{
    if a.len() != b.len() {
        return false;
    }
    let n: usize = a.len();
    let mut i: usize = 0;
    while i < n
        invariant
            i <= n,
            a@.len() == n,
            b@.len() == n,
            forall|j: int| 0 <= j < i ==> a@[j] == b@[j],
        decreases n - i,
    {
        if a[i] != b[i] {
            return false;
        }
        i += 1;
    }
    assert(a@ =~= b@);
    true
}

/// The index behind the byte `b` where it stands at `at`.
pub open spec fn spec_expect(s: Seq<u8>, at: int, b: u8) -> Option<usize> {
    if 0 <= at < s.len() && s[at] == b {
        Some((at + 1) as usize)
    } else {
        None
    }
}

/// Steps over the byte `b` at `at`, if it stands there.
pub fn expect(bytes: &[u8], at: usize, b: u8) -> (out: Option<usize>)
    ensures
        out == spec_expect(bytes@, at as int, b),
        out matches Some(next) ==> next == at + 1 && next <= bytes.len(),
{
    if at < bytes.len() && bytes[at] == b {
        Some(at + 1)
    } else {
        None
    }
}

/// Parameters that a comma-separated list of command tokens changes one
/// token at a time.
pub trait Settings: Sized + Copy {
    /// The parameters after one token, or why the token is refused.
    spec fn spec_apply(self, token: Seq<u8>) -> Result<Self, PatternError>;

    /// Applies one token.
    fn apply(self, token: &[u8]) -> (out: Result<Self, PatternError>)
        ensures
            out == self.spec_apply(token@),
    ;
}

/// The parameters after every token of the comma-separated list `s`, in
/// order, or the error of the first token that is refused. Text without a
/// comma is one token, also where it is empty.
pub open spec fn spec_apply_all<S: Settings>(cfg: S, s: Seq<u8>) -> Result<S, PatternError>
    decreases s.len(),
{
    let end = find_byte(s, COMMA);
    match cfg.spec_apply(s.take(end)) {
        Err(e) => Err(e),
        Ok(next) => if 0 <= end < s.len() {
            spec_apply_all(next, s.skip(end + 1))
        } else {
            Ok(next)
        },
    }
}

/// Applies every token of a comma-separated list, stopping at the first
/// that is refused.
pub fn apply_all<S: Settings>(cfg: S, bytes: &[u8]) -> (out: Result<S, PatternError>)
    ensures
        out == spec_apply_all(cfg, bytes@),
{
    let mut current: S = cfg;
    let mut rest: &[u8] = bytes;
    loop
        invariant
            spec_apply_all(cfg, bytes@) == spec_apply_all(current, rest@),
        decreases rest.len(),
    {
        let end: usize = scan(rest, 0, CharClass::Except(COMMA));
        let token = slice_subrange(rest, 0, end);
        assert(token@ == rest@.take(end as int));
        match current.apply(token) {
            Err(e) => {
                return Err(e);
            },
            Ok(next) => {
                if end >= rest.len() {
                    return Ok(next);
                }
                let tail = slice_subrange(rest, end + 1, rest.len());
                assert(tail@ == rest@.skip(end + 1));
                current = next;
                rest = tail;
            },
        }
    }
}

} // verus!
