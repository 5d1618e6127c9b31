//! Animation patterns for an LED strip.
//!
//! A pattern owns a buffer of colours, one per pixel. `next` renders the
//! next frame into it, `beat` tells the pattern that a beat fired, and
//! `execute_command` changes its parameters from text. Each pattern has a
//! view, a plain mathematical value, and its methods are specified as
//! functions on that view.

use vstd::prelude::*;
use vstd::slice::slice_subrange;
use vstd::string::StringSliceAdditionalSpecFns;

use crate::beat::BeatCount;
use crate::color::Rgb;
use crate::error::PatternError;
use crate::patterns::ascii::{
    CLOSE_PAREN, COMMA, DIGIT_0, LOWER_A, LOWER_B, LOWER_C, LOWER_G, LOWER_N, LOWER_P, LOWER_R,
    LOWER_S, OPEN_PAREN, SEMICOLON, SPACE, UPPER_B, UPPER_C, UPPER_R, UPPER_S,
};
use crate::patterns::background::Background;
use crate::patterns::breathing::{Breathing, BreathingView};
use crate::patterns::caterpillar::{CaterPillars, CaterPillarsView};
use crate::patterns::command::{
    CharClass, find_byte, is_digit, run_end, same_bytes, scan, spec_explicit_range,
    spec_hex_rgb, spec_parse,
};
use crate::patterns::partitioned::PartitionedPatterns;
use crate::patterns::shooting_star::{ShootingStar, ShootingStarView};
use crate::patterns::strobe::{Strobe, StrobeView};
use crate::util::random::{Rng, rng_step};

pub mod ascii;
pub mod background;
pub mod breathing;
pub mod caterpillar;
pub mod command;
pub mod partitioned;
pub mod shooting_star;
pub mod strobe;

verus! {

/// How many frames are rendered per second.
pub const RENDERS_PER_SECOND: usize = 50;

/// The commands that a pattern takes at run time.
pub trait PatternCommand {
    /// The pattern's buffers agree in length and its counters are in range.
    spec fn wf(&self) -> bool;

    /// The colours of the pixels as last rendered.
    spec fn frame(&self) -> Seq<Rgb>;

    /// Changes parameters from a textual command.
    fn execute_command(&mut self, command: &str) -> (out: Result<(), PatternError>)
        requires
            old(self).wf(),
        ensures
            final(self).wf(),
            final(self).frame().len() == old(self).frame().len(),
    ;

    /// `execute_command` on the bytes of the text.
    fn execute_bytes(&mut self, command: &[u8]) -> (out: Result<(), PatternError>)
        requires
            old(self).wf(),
        ensures
            final(self).wf(),
            final(self).frame().len() == old(self).frame().len(),
    ;
}

/// A unit of animation.
pub trait LedPattern: PatternCommand + Sized {
    /// Renders the next frame and returns it.
    fn next(&mut self) -> (out: &[Rgb])
        requires
            old(self).wf(),
        ensures
            final(self).wf(),
            out@ == final(self).frame(),
            final(self).frame().len() == old(self).frame().len(),
    ;

    /// The frame as last rendered.
    fn rgbs(&self) -> (out: &[Rgb])
        ensures
            out@ == self.frame(),
    ;

    /// Reacts to a beat. The rendered frame stays as it is until `next`.
    fn beat(&mut self, beat_info: &BeatCount)
        requires
            old(self).wf(),
        ensures
            final(self).wf(),
            final(self).frame() == old(self).frame(),
    ;

    /// The number of pixels.
    fn size(&self) -> (out: usize)
        ensures
            out == self.frame().len(),
    ;

    /// Builds the pattern from the arguments of its description; `seed`
    /// starts its random generator.
    fn from_str(args: &str, seed: u32) -> (out: Result<Self, PatternError>)
        ensures
            out matches Ok(p) ==> p.wf(),
    ;

    /// `from_str` on the bytes of the text.
    fn from_bytes(args: &[u8], seed: u32) -> (out: Result<Self, PatternError>)
        ensures
            out matches Ok(p) ==> p.wf(),
    ;
}

/// On which notes of the bar a pattern reacts.
#[derive(Copy, Clone, Debug, PartialEq, Eq, Structural)]
pub enum PatternSpeed {
    N32,
    N16,
    N8,
    N4,
    N2,
    N1,
}

impl PatternSpeed {
    /// The place in the order from fastest to slowest: 0 for every
    /// thirty-second note, 5 for whole notes.
    pub open spec fn rank(self) -> int {
        match self {
            PatternSpeed::N32 => 0,
            PatternSpeed::N16 => 1,
            PatternSpeed::N8 => 2,
            PatternSpeed::N4 => 3,
            PatternSpeed::N2 => 4,
            PatternSpeed::N1 => 5,
        }
    }

    /// The subdivision with the given place in the order.
    pub open spec fn of_rank(rank: int) -> PatternSpeed {
        if rank <= 0 {
            PatternSpeed::N32
        } else if rank == 1 {
            PatternSpeed::N16
        } else if rank == 2 {
            PatternSpeed::N8
        } else if rank == 3 {
            PatternSpeed::N4
        } else if rank == 4 {
            PatternSpeed::N2
        } else {
            PatternSpeed::N1
        }
    }

    /// One step faster, staying at the fastest.
    pub open spec fn spec_faster(self) -> PatternSpeed {
        Self::of_rank(self.rank() - 1)
    }

    /// One step slower, staying at the slowest.
    pub open spec fn spec_slower(self) -> PatternSpeed {
        Self::of_rank(self.rank() + 1)
    }

    /// Whether the beat fires the subdivision: its field is present.
    pub open spec fn spec_is_triggered(self, beat_info: BeatCount) -> bool {
        match self {
            PatternSpeed::N32 => true,
            PatternSpeed::N16 => beat_info.n16th is Some,
            PatternSpeed::N8 => beat_info.n8th is Some,
            PatternSpeed::N4 => beat_info.n_quarter is Some,
            PatternSpeed::N2 => beat_info.n_half is Some,
            PatternSpeed::N1 => beat_info.n_full is Some,
        }
    }

    /// The subdivision that a digit selects: `0` whole notes up to `5`
    /// thirty-second notes.
    pub open spec fn spec_try_from(value: char) -> Result<PatternSpeed, PatternError> {
        if value == '0' {
            Ok(PatternSpeed::N1)
        } else if value == '1' {
            Ok(PatternSpeed::N2)
        } else if value == '2' {
            Ok(PatternSpeed::N4)
        } else if value == '3' {
            Ok(PatternSpeed::N8)
        } else if value == '4' {
            Ok(PatternSpeed::N16)
        } else if value == '5' {
            Ok(PatternSpeed::N32)
        } else {
            Err(PatternError::InvalidSpeed)
        }
    }

    /// What `change` makes of the subdivision: `f` one step faster, `s`
    /// one step slower, a digit from `0` to `5` that subdivision.
    pub open spec fn spec_change(self, command: char) -> Result<PatternSpeed, PatternError> {
        if command == 'f' {
            Ok(self.spec_faster())
        } else if command == 's' {
            Ok(self.spec_slower())
        } else {
            Self::spec_try_from(command)
        }
    }

    /// Steps to the next faster subdivision.
    pub fn faster(&mut self)
        ensures
            *final(self) == old(self).spec_faster(),
    {
        *self = match self {
            PatternSpeed::N32 => PatternSpeed::N32,
            PatternSpeed::N16 => PatternSpeed::N32,
            PatternSpeed::N8 => PatternSpeed::N16,
            PatternSpeed::N4 => PatternSpeed::N8,
            PatternSpeed::N2 => PatternSpeed::N4,
            PatternSpeed::N1 => PatternSpeed::N2,
        }
    }

    /// Steps to the next slower subdivision.
    pub fn slower(&mut self)
        ensures
            *final(self) == old(self).spec_slower(),
    {
        *self = match self {
            PatternSpeed::N32 => PatternSpeed::N16,
            PatternSpeed::N16 => PatternSpeed::N8,
            PatternSpeed::N8 => PatternSpeed::N4,
            PatternSpeed::N4 => PatternSpeed::N2,
            PatternSpeed::N2 => PatternSpeed::N1,
            PatternSpeed::N1 => PatternSpeed::N1,
        }
    }

    /// Whether this beat fires the subdivision.
    pub fn is_triggered(&self, beat_info: &BeatCount) -> (out: bool)
        ensures
            out == self.spec_is_triggered(*beat_info),
    {
        match self {
            PatternSpeed::N32 => true,
            PatternSpeed::N16 => beat_info.n16th.is_some(),
            PatternSpeed::N8 => beat_info.n8th.is_some(),
            PatternSpeed::N4 => beat_info.n_quarter.is_some(),
            PatternSpeed::N2 => beat_info.n_half.is_some(),
            PatternSpeed::N1 => beat_info.n_full.is_some(),
        }
    }

    /// Changes the subdivision by a one-character command; an unknown
    /// character leaves it as it is.
    pub fn change(&mut self, command: char) -> (out: Result<(), PatternError>)
        ensures
            match old(self).spec_change(command) {
                Ok(speed) => out is Ok && *final(self) == speed,
                Err(e) => out == Err::<(), PatternError>(e) && *final(self) == *old(self),
            },
    {
        if command == 'f' {
            self.faster();
            Ok(())
        } else if command == 's' {
            self.slower();
            Ok(())
        } else {
            match Self::try_from(command) {
                Ok(speed) => {
                    *self = speed;
                    Ok(())
                },
                Err(e) => Err(e),
            }
        }
    }

    /// The subdivision that a digit from `0` to `5` selects.
    pub fn try_from(value: char) -> (out: Result<PatternSpeed, PatternError>)
        ensures
            out == Self::spec_try_from(value),
    {
        if value == '0' {
            Ok(PatternSpeed::N1)
        } else if value == '1' {
            Ok(PatternSpeed::N2)
        } else if value == '2' {
            Ok(PatternSpeed::N4)
        } else if value == '3' {
            Ok(PatternSpeed::N8)
        } else if value == '4' {
            Ok(PatternSpeed::N16)
        } else if value == '5' {
            Ok(PatternSpeed::N32)
        } else {
            Err(PatternError::InvalidSpeed)
        }
    }

    /// A coarser subdivision fires only on beats on which every finer one
    /// fires too.
    pub proof fn lemma_coarser_fires_less(self, other: PatternSpeed, beat_info: BeatCount)
        requires
            beat_info.wf(),
            self.rank() <= other.rank(),
            other.spec_is_triggered(beat_info),
        ensures
            self.spec_is_triggered(beat_info),
    {
    }

    /// Stepping never leaves the order, and `faster` undoes `slower`
    /// everywhere but at the slowest subdivision.
    pub proof fn lemma_steps(self)
        ensures
            self.spec_faster().rank() == (if self.rank() == 0 {
                0
            } else {
                self.rank() - 1
            }),
            self.spec_slower().rank() == (if self.rank() == 5 {
                5
            } else {
                self.rank() + 1
            }),
            self.rank() < 5 ==> self.spec_slower().spec_faster() == self,
            self.rank() > 0 ==> self.spec_faster().spec_slower() == self,
    {
    }
}

impl Default for PatternSpeed {
    /// Quarter notes.
    fn default() -> (out: PatternSpeed)
        ensures
            out == PatternSpeed::N4,
    {
        PatternSpeed::N4
    }
}

/// What `invalid_cmd` returns for the command token `cmd`.
pub open spec fn spec_invalid_cmd(cmd: Seq<u8>) -> PatternError {
    if cmd.len() == 0 {
        PatternError::EmptyCommand
    } else {
        PatternError::InvalidCommand { letter: cmd[0] }
    }
}

/// The error for a command token that the addressed pattern does not
/// know: it names the token's selector letter.
pub fn invalid_cmd(cmd: &[u8]) -> (out: Result<(), PatternError>)
    ensures
        out == Err::<(), PatternError>(spec_invalid_cmd(cmd@)),
{
    if cmd.len() == 0 {
        Err(PatternError::EmptyCommand)
    } else {
        Err(PatternError::InvalidCommand { letter: cmd[0] })
    }
}

/// The pieces of `kind(args)rest`.
pub struct PatternSpec<'a> {
    /// What stands before the opening parenthesis.
    pub kind: &'a [u8],
    /// What stands between the parentheses.
    pub args: &'a [u8],
    /// What follows the closing parenthesis.
    pub rest: &'a [u8],
}

/// Where the pieces of `kind(args)rest` lie in `s`: the index of `(` and
/// the index of `)`. The arguments are the longest run of letters,
/// digits, `,` and `.` after `(`, and `)` must follow them directly.
pub open spec fn spec_pattern_with_args(s: Seq<u8>) -> Result<(int, int), PatternError> {
    let open = find_byte(s, OPEN_PAREN);
    let close = run_end(s, open + 1, CharClass::ArgChar);
    if open >= s.len() || close >= s.len() || s[close] != CLOSE_PAREN {
        Err(PatternError::MalformedSpec)
    } else {
        Ok((open, close))
    }
}

/// Cuts `kind(args)rest` into its pieces.
pub fn pattern_with_args_from_command<'a>(input: &'a [u8]) -> (out: Result<
    PatternSpec<'a>,
    PatternError,
>)
    ensures
        match spec_pattern_with_args(input@) {
            Ok((open, close)) => out matches Ok(spec) && spec.kind@ == input@.take(open)
                && spec.args@ == input@.subrange(open + 1, close) && spec.rest@ == input@.skip(
                close + 1,
            ) && 0 <= open < close < input@.len(),
            Err(e) => out matches Err(err) && err == e,
        },
{
    let open: usize = scan(input, 0, CharClass::Except(OPEN_PAREN));
    if open >= input.len() {
        return Err(PatternError::MalformedSpec);
    }
    let close: usize = scan(input, open + 1, CharClass::ArgChar);
    if close >= input.len() || input[close] != CLOSE_PAREN {
        return Err(PatternError::MalformedSpec);
    }
    Ok(
        PatternSpec {
            kind: slice_subrange(input, 0, open),
            args: slice_subrange(input, open + 1, close),
            rest: slice_subrange(input, close + 1, input.len()),
        },
    )
}

/// The kinds of pattern that a description can name.
#[derive(Copy, Clone, Debug, PartialEq, Eq, Structural)]
pub enum PatternKind {
    Background,
    Breathing,
    Caterpillar,
    Partitioned,
    ShootingStar,
    Strobe,
}

impl PatternKind {
    /// The kind that an abbreviation names: `br` breathing, `ba`
    /// background, `cat` caterpillars, `pt` partitioned, `shst` shooting
    /// stars, `str` strobe.
    pub open spec fn spec_try_from(value: Seq<u8>) -> Result<PatternKind, PatternError> {
        if value == "br".spec_bytes() {
            Ok(PatternKind::Breathing)
        } else if value == "ba".spec_bytes() {
            Ok(PatternKind::Background)
        } else if value == "cat".spec_bytes() {
            Ok(PatternKind::Caterpillar)
        } else if value == "pt".spec_bytes() {
            Ok(PatternKind::Partitioned)
        } else if value == "shst".spec_bytes() {
            Ok(PatternKind::ShootingStar)
        } else if value == "str".spec_bytes() {
            Ok(PatternKind::Strobe)
        } else {
            Err(PatternError::InvalidKind)
        }
    }

    /// Reads the abbreviation of a kind.
    pub fn try_from(value: &[u8]) -> (out: Result<PatternKind, PatternError>)
        ensures
            out == Self::spec_try_from(value@),
    {
        if same_bytes(value, "br".as_bytes()) {
            Ok(PatternKind::Breathing)
        } else if same_bytes(value, "ba".as_bytes()) {
            Ok(PatternKind::Background)
        } else if same_bytes(value, "cat".as_bytes()) {
            Ok(PatternKind::Caterpillar)
        } else if same_bytes(value, "pt".as_bytes()) {
            Ok(PatternKind::Partitioned)
        } else if same_bytes(value, "shst".as_bytes()) {
            Ok(PatternKind::ShootingStar)
        } else if same_bytes(value, "str".as_bytes()) {
            Ok(PatternKind::Strobe)
        } else {
            Err(PatternError::InvalidKind)
        }
    }

    /// The pattern of this kind that the arguments `args` describe, its
    /// generator started from `seed`.
    pub open spec fn spec_to_pattern(self, args: Seq<u8>, seed: u32) -> Result<
        PatternView,
        PatternError,
    >
        decreases args.len(), 1int,
    {
        match self {
            PatternKind::Background => match spec_background_from(args, seed) {
                Ok(v) => Ok(PatternView::Background(v)),
                Err(e) => Err(e),
            },
            PatternKind::Breathing => match Breathing::spec_from_bytes(args, seed) {
                Ok(v) => Ok(PatternView::Breathing(v)),
                Err(e) => Err(e),
            },
            PatternKind::Caterpillar => match CaterPillars::spec_from_bytes(args, seed) {
                Ok(v) => Ok(PatternView::Caterpillar(v)),
                Err(e) => Err(e),
            },
            PatternKind::Partitioned => match spec_partitioned_from(args, seed) {
                Ok(v) => Ok(PatternView::Partitioned(v)),
                Err(e) => Err(e),
            },
            PatternKind::ShootingStar => match ShootingStar::spec_from_bytes(args, seed) {
                Ok(v) => Ok(PatternView::ShootingStar(v)),
                Err(e) => Err(e),
            },
            PatternKind::Strobe => match Strobe::spec_from_bytes(args, seed) {
                Ok(v) => Ok(PatternView::Strobe(v)),
                Err(e) => Err(e),
            },
        }
    }

    /// Builds the pattern of this kind from its arguments.
    pub fn to_pattern(&self, args: &[u8], seed: u32) -> (out: Result<Pattern, PatternError>)
        ensures
            match self.spec_to_pattern(args@, seed) {
                Ok(v) => out matches Ok(p) && p@ == v && p.wf(),
                Err(e) => out matches Err(err) && err == e,
            },
        decreases args@.len(), 1int,
    {
        match self {
            PatternKind::Background => match Background::from_bytes(args, seed) {
                Ok(p) => Ok(Pattern::Background(p)),
                Err(e) => Err(e),
            },
            PatternKind::Breathing => match Breathing::from_bytes(args, seed) {
                Ok(p) => Ok(Pattern::Breathing(p)),
                Err(e) => Err(e),
            },
            PatternKind::Caterpillar => match CaterPillars::from_bytes(args, seed) {
                Ok(p) => Ok(Pattern::Caterpillar(p)),
                Err(e) => Err(e),
            },
            PatternKind::Partitioned => match PartitionedPatterns::from_bytes(args, seed) {
                Ok(p) => Ok(Pattern::Partitioned(p)),
                Err(e) => Err(e),
            },
            PatternKind::ShootingStar => match ShootingStar::from_bytes(args, seed) {
                Ok(p) => Ok(Pattern::ShootingStar(p)),
                Err(e) => Err(e),
            },
            PatternKind::Strobe => match Strobe::from_bytes(args, seed) {
                Ok(p) => Ok(Pattern::Strobe(p)),
                Err(e) => Err(e),
            },
        }
    }
}

/// The pattern that the description `kind(args)` at the front of `text`
/// gives, its generator started from `seed`, with the index of the
/// closing parenthesis.
pub open spec fn spec_pattern_from(text: Seq<u8>, seed: u32) -> Result<
    (PatternView, int),
    PatternError,
>
    decreases text.len(), 2int,
{
    match spec_pattern_with_args(text) {
        Err(e) => Err(e),
        Ok((open, close)) => if !(0 <= open < close < text.len()) {
            Err(PatternError::MalformedSpec)
        } else {
            match PatternKind::spec_try_from(text.take(open)) {
                Err(e) => Err(e),
                Ok(kind) => match kind.spec_to_pattern(text.subrange(open + 1, close), seed) {
                    Err(e) => Err(e),
                    Ok(v) => Ok((v, close)),
                },
            }
        },
    }
}

/// The background that the arguments `kind(args),#RRGGBB` give: the
/// described pattern in front, dark until the first frame.
pub open spec fn spec_background_from(args: Seq<u8>, seed: u32) -> Result<
    BackgroundView,
    PatternError,
>
    decreases args.len(), 0int,
{
    match spec_pattern_with_args(args) {
        Err(e) => Err(e),
        Ok((open, close)) => if !(0 <= open < close < args.len()) {
            Err(PatternError::MalformedSpec)
        } else {
            match PatternKind::spec_try_from(args.take(open)) {
                Err(e) => Err(e),
                Ok(kind) => match kind.spec_to_pattern(args.subrange(open + 1, close), seed) {
                    Err(e) => Err(e),
                    Ok(inner) => if close + 1 >= args.len() || args[close + 1] != COMMA {
                        Err(PatternError::MissingComma)
                    } else {
                        match spec_hex_rgb(args.skip(close + 2)) {
                            Err(e) => Err(e),
                            Ok((_, color)) => Ok(
                                BackgroundView {
                                    rgbs: Seq::new(inner.frame().len(), |i: int| Rgb::black()),
                                    color,
                                    pattern: Box::new(inner),
                                },
                            ),
                        }
                    },
                },
            }
        },
    }
}

/// The compositor that the arguments give: what stands before the first
/// comma is the number of pixels. It has no entries yet.
pub open spec fn spec_partitioned_from(args: Seq<u8>, seed: u32) -> Result<
    PartitionedView,
    PatternError,
> {
    match spec_parse(args.take(find_byte(args, COMMA))) {
        Err(e) => Err(e),
        Ok(size) => Ok(
            PartitionedView {
                rgbs: Seq::new(size as nat, |i: int| Rgb::black()),
                patterns: Seq::empty(),
                rng: Rng::seed_state(seed),
            },
        ),
    }
}

/// Any of the patterns.
pub enum Pattern {
    Background(Background),
    Breathing(Breathing),
    Caterpillar(CaterPillars),
    Partitioned(PartitionedPatterns),
    ShootingStar(ShootingStar),
    Strobe(Strobe),
}

/// Any of the patterns as a mathematical value.
pub enum PatternView {
    Background(BackgroundView),
    Breathing(BreathingView),
    Caterpillar(CaterPillarsView),
    Partitioned(PartitionedView),
    ShootingStar(ShootingStarView),
    Strobe(StrobeView),
}

/// A background as a mathematical value: a pattern whose dark pixels are
/// shown in a colour.
pub struct BackgroundView {
    /// The frame as last rendered.
    pub rgbs: Seq<Rgb>,
    /// The colour that stands in for black.
    pub color: Rgb,
    /// The pattern in front.
    pub pattern: Box<PatternView>,
}

/// One entry of a compositor as a mathematical value.
pub struct EntryView {
    /// The pixels `[start, end)` of the shared buffer that the entry
    /// renders into.
    pub range: (usize, usize),
    pub pattern: PatternView,
    /// Whether `next` renders the entry.
    pub render: bool,
    /// Whether `beat` reaches the entry.
    pub beat: bool,
}

/// A compositor as a mathematical value.
pub struct PartitionedView {
    /// The shared buffer.
    pub rgbs: Seq<Rgb>,
    /// The entries, in the order in which they render.
    pub patterns: Seq<EntryView>,
    /// The generator that seeds the patterns that commands create.
    pub rng: u32,
}

/// `buf` with the pixels from `start` up to `end` taken from the front of
/// `frame`.
pub open spec fn blit(buf: Seq<Rgb>, start: int, end: int, frame: Seq<Rgb>) -> Seq<Rgb> {
    Seq::new(
        buf.len(),
        |q: int|
            if start <= q < end {
                frame[q - start]
            } else {
                buf[q]
            },
    )
}

/// `frame` with `color` in place of every black pixel.
pub open spec fn backed(frame: Seq<Rgb>, color: Rgb) -> Seq<Rgb> {
    Seq::new(
        frame.len(),
        |q: int|
            if frame[q] == Rgb::black() {
                color
            } else {
                frame[q]
            },
    )
}

/// `buf` after the first `k` entries have copied their frames into their
/// ranges, in order; entries that do not render leave it as it is.
pub open spec fn composed(buf: Seq<Rgb>, entries: Seq<EntryView>, k: int) -> Seq<Rgb>
    decreases k,
{
    if k <= 0 {
        buf
    } else if entries[k - 1].render {
        blit(
            composed(buf, entries, k - 1),
            entries[k - 1].range.0 as int,
            entries[k - 1].range.1 as int,
            entries[k - 1].pattern.frame(),
        )
    } else {
        composed(buf, entries, k - 1)
    }
}

impl EntryView {
    /// The range lies within a buffer of `n` pixels and is no longer than
    /// the pattern's frame.
    pub open spec fn fits(self, n: nat) -> bool {
        &&& self.range.0 <= self.range.1 <= n
        &&& self.range.1 - self.range.0 <= self.pattern.frame().len()
    }
}

impl PatternView {
    /// The frame as last rendered.
    pub open spec fn frame(self) -> Seq<Rgb> {
        match self {
            PatternView::Background(v) => v.rgbs,
            PatternView::Breathing(v) => v.rgbs_current,
            PatternView::Caterpillar(v) => v.rgbs,
            PatternView::Partitioned(v) => v.rgbs,
            PatternView::ShootingStar(v) => v.rgbs,
            PatternView::Strobe(v) => v.rgbs,
        }
    }

    /// Every pattern is well formed, a background is as long as the
    /// pattern in front of it, and every entry of a compositor fits.
    pub open spec fn wf(self) -> bool
        decreases self,
    {
        match self {
            PatternView::Background(v) => v.pattern.wf() && v.rgbs.len()
                == v.pattern.frame().len(),
            PatternView::Breathing(v) => v.wf(),
            PatternView::Caterpillar(v) => true,
            PatternView::Partitioned(v) => forall|i: int|
                0 <= i < v.patterns.len() ==> (#[trigger] v.patterns[i]).pattern.wf()
                    && v.patterns[i].fits(v.rgbs.len()),
            PatternView::ShootingStar(v) => v.wf(),
            PatternView::Strobe(v) => v.wf(),
        }
    }

    /// The pattern after one frame. A background renders the pattern in
    /// front and fills its dark pixels; a compositor renders the entries
    /// that are enabled, in order, each into its range.
    pub open spec fn next(self) -> PatternView
        decreases self,
    {
        match self {
            PatternView::Background(v) => PatternView::Background(
                BackgroundView {
                    rgbs: backed(v.pattern.next().frame(), v.color),
                    color: v.color,
                    pattern: Box::new(v.pattern.next()),
                },
            ),
            PatternView::Breathing(v) => PatternView::Breathing(v.next()),
            PatternView::Caterpillar(v) => PatternView::Caterpillar(v.next()),
            PatternView::Partitioned(v) => {
                let entries = Seq::new(
                    v.patterns.len(),
                    |i: int|
                        if 0 <= i < v.patterns.len() && v.patterns[i].render {
                            EntryView { pattern: v.patterns[i].pattern.next(), ..v.patterns[i] }
                        } else {
                            v.patterns[i]
                        },
                );
                PatternView::Partitioned(
                    PartitionedView {
                        rgbs: composed(v.rgbs, entries, entries.len() as int),
                        patterns: entries,
                        rng: v.rng,
                    },
                )
            },
            PatternView::ShootingStar(v) => PatternView::ShootingStar(v.next()),
            PatternView::Strobe(v) => PatternView::Strobe(v.next()),
        }
    }

    /// The pattern after a beat. A background hands the beat on; a
    /// compositor hands it to the entries that listen.
    pub open spec fn beat(self, beat_info: BeatCount) -> PatternView
        decreases self,
    {
        match self {
            PatternView::Background(v) => PatternView::Background(
                BackgroundView { pattern: Box::new(v.pattern.beat(beat_info)), ..v },
            ),
            PatternView::Breathing(v) => PatternView::Breathing(v),
            PatternView::Caterpillar(v) => PatternView::Caterpillar(v.beat(beat_info)),
            PatternView::Partitioned(v) => PatternView::Partitioned(
                PartitionedView {
                    patterns: Seq::new(
                        v.patterns.len(),
                        |i: int|
                            if 0 <= i < v.patterns.len() && v.patterns[i].beat {
                                EntryView {
                                    pattern: v.patterns[i].pattern.beat(beat_info),
                                    ..v.patterns[i]
                                }
                            } else {
                                v.patterns[i]
                            },
                    ),
                    ..v
                },
            ),
            PatternView::ShootingStar(v) => PatternView::ShootingStar(v.beat(beat_info)),
            PatternView::Strobe(v) => PatternView::Strobe(v.beat(beat_info)),
        }
    }
}

impl PartitionedView {
    /// The compositor with the pattern of entry `index` replaced.
    pub open spec fn with_pattern(self, index: int, pattern: PatternView) -> PartitionedView {
        PartitionedView {
            patterns: self.patterns.update(index, EntryView { pattern, ..self.patterns[index] }),
            ..self
        }
    }

    /// The compositor with entry `index` replaced.
    pub open spec fn with_entry(self, index: int, entry: EntryView) -> PartitionedView {
        PartitionedView { patterns: self.patterns.update(index, entry), ..self }
    }

    /// Where an entry without a given start begins: where the last entry
    /// ends, or at pixel 0.
    pub open spec fn next_start(self) -> usize {
        if self.patterns.len() == 0 {
            0
        } else {
            self.patterns.last().range.1
        }
    }

    /// The compositor with one more entry, switched on.
    pub open spec fn added(self, pattern: PatternView, range: (usize, usize)) -> PartitionedView {
        PartitionedView {
            patterns: self.patterns.push(
                EntryView { range, pattern, render: true, beat: true },
            ),
            ..self
        }
    }

    /// The text of the range in what follows the `a` of an append: the run
    /// of digits, `n` and `.` behind the leading blanks.
    pub open spec fn range_text(input: Seq<u8>) -> Seq<u8> {
        let from = run_end(input, 0, CharClass::Only(SPACE));
        input.subrange(from, run_end(input, from, CharClass::RangeChar))
    }

    /// The range that an append names: `None` for `n`, the two numbers of
    /// `start..end` otherwise.
    pub open spec fn named_range(input: Seq<u8>) -> Result<
        Option<(usize, usize)>,
        PatternError,
    > {
        if Self::range_text(input) == seq![LOWER_N] {
            Ok(None)
        } else {
            match spec_explicit_range(Self::range_text(input)) {
                Ok((start, end)) => Ok(Some((start as usize, end as usize))),
                Err(e) => Err(e),
            }
        }
    }

    /// The pixels that a new entry takes, or why it is refused. Without a
    /// named range it lies behind the last entry and is as long as its
    /// pattern of `size` pixels. A named range is taken as it is; it must
    /// not be longer than the pattern. Either way the entry must end
    /// within the buffer.
    pub open spec fn placed(self, range: Option<(usize, usize)>, size: nat) -> Result<
        (usize, usize),
        PatternError,
    > {
        match range {
            None => if self.next_start() + size > self.rgbs.len() {
                Err(PatternError::RangeOutOfBounds)
            } else {
                Ok((self.next_start(), (self.next_start() + size) as usize))
            },
            Some((start, end)) => if end > self.rgbs.len() {
                Err(PatternError::RangeOutOfBounds)
            } else if end - start > size {
                Err(PatternError::PatternTooSmall)
            } else {
                Ok((start, end))
            },
        }
    }

    /// What the command `a<range><spec>` does, `input` being what follows
    /// the `a`. Blanks before the range and one comma behind it are
    /// skipped. The range is `n`, for the pixels behind the last entry, as
    /// many as the new pattern has, or `start..end`. The pattern's
    /// generator is seeded by a draw of the compositor's. A range that is
    /// neither, an entry that would reach past the buffer and a range
    /// longer than the pattern are refused, and nothing changes.
    pub open spec fn append(self, input: Seq<u8>) -> (PartitionedView, Result<(), PatternError>) {
        let from = run_end(input, 0, CharClass::Only(SPACE));
        let range_end = run_end(input, from, CharClass::RangeChar);
        let spec_at = if 0 <= range_end < input.len() && input[range_end] == COMMA {
            range_end + 1
        } else {
            range_end
        };
        match Self::named_range(input) {
            Err(e) => (self, Err(e)),
            Ok(named) => match spec_pattern_from(input.skip(spec_at), rng_step(self.rng)) {
                Err(e) => (self, Err(e)),
                Ok((pattern, _)) => match self.placed(named, pattern.frame().len()) {
                    Err(e) => (self, Err(e)),
                    Ok(range) => (
                        (PartitionedView { rng: rng_step(self.rng), ..self }).added(
                            pattern,
                            range,
                        ),
                        Ok(()),
                    ),
                },
            },
        }
    }

    /// What the command `p<index>C<spec>` does to entry `index`: a new
    /// pattern takes the place of the old one in the same range, if it
    /// has pixels enough for it.
    pub open spec fn replace(self, index: int, text: Seq<u8>) -> (PartitionedView, Result<
        (),
        PatternError,
    >) {
        match spec_pattern_from(text, rng_step(self.rng)) {
            Err(e) => (self, Err(e)),
            Ok((pattern, _)) => if pattern.frame().len() < self.patterns[index].range.1
                - self.patterns[index].range.0 {
                (self, Err(PatternError::PatternTooSmall))
            } else {
                (
                    (PartitionedView { rng: rng_step(self.rng), ..self }).with_pattern(
                        index,
                        pattern,
                    ),
                    Ok(()),
                )
            },
        }
    }

    /// What one command does to the compositor.
    ///
    /// `p<index><sub>` addresses an entry by one decimal digit: `c<rest>`
    /// hands `rest` to the entry's pattern, `s` and `S` switch rendering
    /// off and on, `b` and `B` the listening to beats, `R` removes the
    /// entry and `C<spec>` replaces its pattern. `a<range><spec>` appends
    /// an entry. `g` and `r` are accepted and do nothing.
    pub open spec fn execute_one(self, c: Seq<u8>) -> (PartitionedView, Result<(), PatternError>)
        decreases c.len(), self, 0int,
    {
        if c.len() == 0 {
            (self, Err(PatternError::EmptyCommand))
        } else if c[0] == LOWER_P {
            if c.len() < 2 {
                (self, Err(PatternError::Truncated))
            } else if !is_digit(c[1]) {
                (self, Err(PatternError::InvalidNumber))
            } else if c[1] - DIGIT_0 >= self.patterns.len() {
                (
                    self,
                    Err(
                        PatternError::IndexOutOfRange {
                            index: (c[1] - DIGIT_0) as usize,
                            len: self.patterns.len() as usize,
                        },
                    ),
                )
            } else if c.len() < 3 {
                (self, Err(PatternError::Truncated))
            } else {
                let index = c[1] - DIGIT_0;
                let entry = self.patterns[index];
                if c[2] == LOWER_C {
                    let (inner, result) = entry.pattern.execute(c.skip(3));
                    (self.with_pattern(index, inner), result)
                } else if c[2] == LOWER_S {
                    (self.with_entry(index, EntryView { render: false, ..entry }), Ok(()))
                } else if c[2] == UPPER_S {
                    (self.with_entry(index, EntryView { render: true, ..entry }), Ok(()))
                } else if c[2] == LOWER_B {
                    (self.with_entry(index, EntryView { beat: false, ..entry }), Ok(()))
                } else if c[2] == UPPER_B {
                    (self.with_entry(index, EntryView { beat: true, ..entry }), Ok(()))
                } else if c[2] == UPPER_R {
                    (PartitionedView { patterns: self.patterns.remove(index), ..self }, Ok(()))
                } else if c[2] == UPPER_C {
                    self.replace(index, c.skip(3))
                } else {
                    (self, Err(PatternError::InvalidSubcommand { letter: c[2] }))
                }
            }
        } else if c[0] == LOWER_G || c[0] == LOWER_R {
            (self, Ok(()))
        } else if c[0] == LOWER_A {
            self.append(c.skip(1))
        } else {
            (self, Err(PatternError::InvalidCommand { letter: c[0] }))
        }
    }

    /// What a list of commands separated by `;` does: each in turn, up to
    /// the first that fails. What the commands before it did stays done.
    pub open spec fn execute(self, command: Seq<u8>) -> (PartitionedView, Result<(), PatternError>)
        decreases command.len(), self, 1int,
    {
        let end = find_byte(command, SEMICOLON);
        if !(0 <= end <= command.len()) {
            (self, Ok(()))
        } else {
            let (next, result) = self.execute_one(command.take(end));
            if result is Err || end >= command.len() {
                (next, result)
            } else {
                next.execute(command.skip(end + 1))
            }
        }
    }

    /// An append that succeeds adds one entry behind the others and
    /// leaves those as they were. The new entry renders and listens to
    /// beats, lies within the buffer and is no longer than its pattern.
    /// Where the range is `n`, it starts where the last entry ends and is
    /// as long as its pattern; where the range is `start..end`, it takes
    /// just those pixels.
    pub proof fn lemma_append_adds_one_entry(self, input: Seq<u8>)
        requires
            self.rgbs.len() <= usize::MAX,
            self.append(input).1 is Ok,
        ensures
            self.append(input).0.patterns.len() == self.patterns.len() + 1,
            self.append(input).0.patterns.drop_last() == self.patterns,
            self.append(input).0.rgbs == self.rgbs,
            self.append(input).0.patterns.last().render,
            self.append(input).0.patterns.last().beat,
            self.append(input).0.patterns.last().fits(self.rgbs.len()),
            Self::named_range(input) is Ok,
            Self::named_range(input) matches Ok(None) ==> {
                let entry = self.append(input).0.patterns.last();
                &&& entry.range.0 == self.next_start()
                &&& entry.range.1 == self.next_start() + entry.pattern.frame().len()
            },
            Self::named_range(input) matches Ok(Some(range)) ==> self.append(
                input,
            ).0.patterns.last().range == range,
    {
        let after = self.append(input).0;
        assert(after.patterns.drop_last() =~= self.patterns);
        match Self::named_range(input) {
            Ok(Some((start, end))) => {
                assert(spec_explicit_range(Self::range_text(input)) is Ok);
                assert(start <= end);
            },
            _ => {},
        }
    }

    /// A command that names an entry that is not there fails and changes
    /// nothing.
    pub proof fn lemma_bad_index_changes_nothing(self, c: Seq<u8>)
        requires
            c.len() >= 2,
            c[0] == LOWER_P,
            is_digit(c[1]),
            c[1] - DIGIT_0 >= self.patterns.len(),
        ensures
            self.execute_one(c) == (
                self,
                Err::<(), PatternError>(
                    PatternError::IndexOutOfRange {
                        index: (c[1] - DIGIT_0) as usize,
                        len: self.patterns.len() as usize,
                    },
                ),
            ),
    {
    }

    /// A single command that fails changes nothing, unless it is one that
    /// hands text on to the pattern of an entry.
    pub proof fn lemma_failure_changes_nothing(self, c: Seq<u8>)
        requires
            self.execute_one(c).1 is Err,
            !(c.len() >= 3 && c[0] == LOWER_P && c[2] == LOWER_C),
        ensures
            self.execute_one(c).0 == self,
    {
    }
}

impl PatternView {
    /// The pattern after `k` frames with no beat between them.
    pub open spec fn after(self, k: nat) -> PatternView
        decreases k,
    {
        if k == 0 {
            self
        } else {
            self.after((k - 1) as nat).next()
        }
    }

    /// Two patterns built from the same description with the same seed
    /// start in the same state and, with no beat and no command between,
    /// show the same frames: after any number of frames their states and
    /// their buffers are equal.
    pub proof fn lemma_same_seed_same_frames(
        text: Seq<u8>,
        seed: u32,
        first: PatternView,
        second: PatternView,
        k: nat,
    )
        requires
            spec_pattern_from(text, seed) matches Ok((built, _)) && built == first,
            spec_pattern_from(text, seed) matches Ok((built, _)) && built == second,
        ensures
            first == second,
            first.after(k) == second.after(k),
            first.after(k).frame() == second.after(k).frame(),
    {
    }

    /// What a command does to the pattern, and whether it succeeds. A
    /// background hands the command to the pattern in front.
    pub open spec fn execute(self, command: Seq<u8>) -> (PatternView, Result<(), PatternError>)
        decreases command.len(), self, 0int,
    {
        match self {
            PatternView::Background(v) => {
                let (inner, result) = v.pattern.execute(command);
                (
                    PatternView::Background(BackgroundView { pattern: Box::new(inner), ..v }),
                    result,
                )
            },
            PatternView::Breathing(v) => (
                PatternView::Breathing(Breathing::spec_execute(v, command).0),
                Breathing::spec_execute(v, command).1,
            ),
            PatternView::Caterpillar(v) => (
                PatternView::Caterpillar(CaterPillars::spec_execute(v, command).0),
                CaterPillars::spec_execute(v, command).1,
            ),
            PatternView::Partitioned(v) => (
                PatternView::Partitioned(v.execute(command).0),
                v.execute(command).1,
            ),
            PatternView::ShootingStar(v) => (
                PatternView::ShootingStar(ShootingStar::spec_execute(v, command).0),
                ShootingStar::spec_execute(v, command).1,
            ),
            PatternView::Strobe(v) => (
                PatternView::Strobe(Strobe::spec_execute(v, command).0),
                Strobe::spec_execute(v, command).1,
            ),
        }
    }
}

impl Pattern {
    /// The pattern as a mathematical value.
    pub open spec fn model(&self) -> PatternView
        decreases self,
    {
        match self {
            Pattern::Background(p) => PatternView::Background(p.model()),
            Pattern::Breathing(p) => PatternView::Breathing(p@),
            Pattern::Caterpillar(p) => PatternView::Caterpillar(p@),
            Pattern::Partitioned(p) => PatternView::Partitioned(p.model()),
            Pattern::ShootingStar(p) => PatternView::ShootingStar(p@),
            Pattern::Strobe(p) => PatternView::Strobe(p@),
        }
    }
}

impl View for Pattern {
    type V = PatternView;

    open spec fn view(&self) -> PatternView {
        self.model()
    }
}

impl PatternCommand for Pattern {
    open spec fn wf(&self) -> bool {
        self@.wf()
    }

    open spec fn frame(&self) -> Seq<Rgb> {
        self@.frame()
    }

    fn execute_command(&mut self, command: &str) -> (out: Result<(), PatternError>)
        ensures
            (final(self)@, out) == old(self)@.execute(command.spec_bytes()),
    {
        self.execute_bytes(command.as_bytes())
    }

    fn execute_bytes(&mut self, command: &[u8]) -> (out: Result<(), PatternError>)
        ensures
            (final(self)@, out) == old(self)@.execute(command@),
        decreases command@.len(), *old(self), 0int,
    {
        match self {
            Pattern::Background(p) => p.execute_bytes(command),
            Pattern::Breathing(p) => p.execute_bytes(command),
            Pattern::Caterpillar(p) => p.execute_bytes(command),
            Pattern::Partitioned(p) => p.execute_bytes(command),
            Pattern::ShootingStar(p) => p.execute_bytes(command),
            Pattern::Strobe(p) => p.execute_bytes(command),
        }
    }
}

impl LedPattern for Pattern {
    fn next(&mut self) -> (out: &[Rgb])
        ensures
            final(self)@ == old(self)@.next(),
        decreases *old(self),
    {
        match self {
            Pattern::Background(p) => p.next(),
            Pattern::Breathing(p) => p.next(),
            Pattern::Caterpillar(p) => p.next(),
            Pattern::Partitioned(p) => p.next(),
            Pattern::ShootingStar(p) => p.next(),
            Pattern::Strobe(p) => p.next(),
        }
    }

    fn rgbs(&self) -> (out: &[Rgb]) {
        match self {
            Pattern::Background(p) => p.rgbs(),
            Pattern::Breathing(p) => p.rgbs(),
            Pattern::Caterpillar(p) => p.rgbs(),
            Pattern::Partitioned(p) => p.rgbs(),
            Pattern::ShootingStar(p) => p.rgbs(),
            Pattern::Strobe(p) => p.rgbs(),
        }
    }

    fn beat(&mut self, beat_info: &BeatCount)
        ensures
            final(self)@ == old(self)@.beat(*beat_info),
        decreases *old(self),
    {
        match self {
            Pattern::Background(p) => p.beat(beat_info),
            Pattern::Breathing(p) => p.beat(beat_info),
            Pattern::Caterpillar(p) => p.beat(beat_info),
            Pattern::Partitioned(p) => p.beat(beat_info),
            Pattern::ShootingStar(p) => p.beat(beat_info),
            Pattern::Strobe(p) => p.beat(beat_info),
        }
    }

    fn size(&self) -> (out: usize) {
        match self {
            Pattern::Background(p) => p.size(),
            Pattern::Breathing(p) => p.size(),
            Pattern::Caterpillar(p) => p.size(),
            Pattern::Partitioned(p) => p.size(),
            Pattern::ShootingStar(p) => p.size(),
            Pattern::Strobe(p) => p.size(),
        }
    }

    /// Builds the pattern that a description `kind(args)` names. What
    /// follows the closing parenthesis is not read.
    fn from_str(args: &str, seed: u32) -> (out: Result<Self, PatternError>)
        ensures
            match spec_pattern_from(args.spec_bytes(), seed) {
                Ok((v, _)) => out matches Ok(p) && p@ == v,
                Err(e) => out matches Err(err) && err == e,
            },
    {
        Self::from_bytes(args.as_bytes(), seed)
    }

    fn from_bytes(args: &[u8], seed: u32) -> (out: Result<Self, PatternError>)
        ensures
            match spec_pattern_from(args@, seed) {
                Ok((v, _)) => out matches Ok(p) && p@ == v,
                Err(e) => out matches Err(err) && err == e,
            },
    {
        let spec = pattern_with_args_from_command(args)?;
        let kind = PatternKind::try_from(spec.kind)?;
        kind.to_pattern(spec.args, seed)
    }
}

} // verus!
