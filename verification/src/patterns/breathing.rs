//! Breathing: every pixel fades in and out of a colour of its own.
//!
//! The brightness follows a triangle wave between zero and a peak. It is
//! kept in thousandths of a percent step, so that speeds below one step
//! per frame need no floating point.

use vstd::prelude::*;
use vstd::string::StringSliceAdditionalSpecFns;

use crate::beat::BeatCount;
use crate::color::Rgb;
use crate::error::PatternError;
use crate::patterns::{LedPattern, PatternCommand, invalid_cmd, spec_invalid_cmd};
use crate::patterns::ascii::{COMMA, LOWER_D, LOWER_M, LOWER_S, UPPER_I};
use crate::patterns::command::{
    CharClass, Settings, apply_all, expect, parse_digits, parse_milli, parse_milli_all, parse_u8,
    run_end, scan, spec_apply_all, spec_expect, spec_parse_digits, spec_parse_milli,
    spec_parse_milli_all, spec_parse_u8,
};
use crate::util::fill::{colors, copy_colors};
use crate::util::random::{Rng, lemma_rng_after_add, rng_after};

verus! {

/// The brightness at the top of the wave, in thousandths: half the frame
/// rate, as a percentage.
pub const PEAK_INTENSITY: u32 = 25_000;

/// What the commands of a breathing pattern are.
pub const COMMAND_HELP: &'static str =
    "s<decimal> - speed (frequency 1/s); I<u8> - max intensity; m[s,d,m] - mode";

/// How the colours change over time.
#[derive(Copy, Clone, Debug, PartialEq, Eq, Structural)]
pub enum BreathingMode {
    Single,
    Double,
    /// New colours are drawn each time the brightness has come down.
    Mixed,
}

/// The breathing pattern.
pub struct Breathing {
    rgbs_max: Vec<Rgb>,
    rgbs_current: Vec<Rgb>,
    current_intensity: u32,
    direction_up: bool,
    speed: u32,
    max_intensity: u8,
    mode: BreathingMode,
    rng: Rng,
}

/// A breathing pattern as a mathematical value.
pub struct BreathingView {
    /// The colour that each pixel has at full brightness.
    pub rgbs_max: Seq<Rgb>,
    /// The frame as last rendered.
    pub rgbs_current: Seq<Rgb>,
    /// The brightness in thousandths of a percent step.
    pub current_intensity: u32,
    pub direction_up: bool,
    /// By how many thousandths the brightness moves per frame.
    pub speed: u32,
    /// The bound below which colour channels are drawn.
    pub max_intensity: u8,
    pub mode: BreathingMode,
    pub rng: u32,
}

/// The parameters that commands change.
#[derive(Copy, Clone, Debug, PartialEq, Eq, Structural)]
pub struct BreathingSettings {
    pub speed: u32,
    pub max_intensity: u8,
    pub mode: BreathingMode,
}

/// `n` random colours below `max`: pixel `i` takes draws `3i + 1` to
/// `3i + 3`.
pub open spec fn random_colors(n: nat, rng: u32, max: u8) -> Seq<Rgb> {
    Seq::new(n, |i: int| Rgb::spec_random(rng_after(rng, (3 * i) as nat), max))
}

/// Each colour of `colors` at `pct` percent.
pub open spec fn scaled_colors(colors: Seq<Rgb>, pct: u8) -> Seq<Rgb> {
    Seq::new(colors.len(), |i: int| colors[i].spec_scaled(pct))
}

fn draw_colors(rgbs: &mut Vec<Rgb>, rng: &mut Rng, max: u8)
    ensures
        final(rgbs)@ == random_colors(old(rgbs)@.len(), old(rng)@, max),
        final(rng)@ == rng_after(old(rng)@, 3 * old(rgbs)@.len()),
{
    let n: usize = rgbs.len();
    let mut i: usize = 0;
    while i < n
        invariant
            i <= n,
            rgbs@.len() == n,
            rng@ == rng_after(old(rng)@, (3 * i) as nat),
            forall|j: int|
                0 <= j < i ==> rgbs@[j] == Rgb::spec_random(
                    rng_after(old(rng)@, (3 * j) as nat),
                    max,
                ),
        decreases n - i,
    {
        proof {
            lemma_rng_after_add(old(rng)@, (3 * i) as nat, 3);
        }
        let c = Rgb::random(rng, max);
        rgbs[i] = c;
        i += 1;
    }
    assert(rgbs@ =~= random_colors(n as nat, old(rng)@, max));
}

fn scale_colors(dst: &mut Vec<Rgb>, src: &Vec<Rgb>, pct: u8)
    requires
        old(dst)@.len() == src@.len(),
    ensures
        final(dst)@ == scaled_colors(src@, pct),
{
    let n: usize = src.len();
    let mut i: usize = 0;
    while i < n
        invariant
            i <= n,
            src@.len() == n,
            dst@.len() == n,
            forall|j: int| 0 <= j < i ==> dst@[j] == src@[j].spec_scaled(pct),
        decreases n - i,
    {
        dst[i] = src[i].scaled(pct);
        i += 1;
    }
    assert(dst@ =~= scaled_colors(src@, pct));
}

impl BreathingView {
    /// The number of pixels.
    pub open spec fn len(self) -> nat {
        self.rgbs_current.len()
    }

    /// The two buffers are equally long and the brightness is at most the
    /// peak.
    pub open spec fn wf(self) -> bool {
        &&& self.rgbs_max.len() == self.rgbs_current.len()
        &&& self.current_intensity <= PEAK_INTENSITY
    }

    /// The pattern with freshly drawn colours, shown at full brightness.
    pub open spec fn switched(self) -> BreathingView {
        BreathingView {
            rgbs_max: random_colors(self.rgbs_max.len(), self.rng, self.max_intensity),
            rgbs_current: random_colors(self.rgbs_max.len(), self.rng, self.max_intensity),
            rng: rng_after(self.rng, 3 * self.rgbs_max.len()),
            ..self
        }
    }

    /// The pattern after the brightness has moved by one frame: up to the
    /// peak, then down to zero, where it turns and, in mixed mode, draws
    /// new colours.
    pub open spec fn stepped(self) -> BreathingView {
        if self.direction_up {
            if self.current_intensity + self.speed >= PEAK_INTENSITY {
                BreathingView {
                    direction_up: false,
                    current_intensity: PEAK_INTENSITY,
                    ..self
                }
            } else {
                BreathingView {
                    current_intensity: (self.current_intensity + self.speed) as u32,
                    ..self
                }
            }
        } else {
            if self.speed >= self.current_intensity {
                let turned = BreathingView { direction_up: true, current_intensity: 0, ..self };
                if self.mode == BreathingMode::Mixed {
                    turned.switched()
                } else {
                    turned
                }
            } else {
                BreathingView {
                    current_intensity: (self.current_intensity - self.speed) as u32,
                    ..self
                }
            }
        }
    }

    /// The percentage at which the colours are shown.
    pub open spec fn percent(self) -> u8 {
        (self.current_intensity / 1000) as u8
    }

    /// The pattern after one frame.
    pub open spec fn next(self) -> BreathingView {
        let moved = self.stepped();
        BreathingView { rgbs_current: scaled_colors(moved.rgbs_max, moved.percent()), ..moved }
    }

    /// The parameters that commands change.
    pub open spec fn settings(self) -> BreathingSettings {
        BreathingSettings {
            speed: self.speed,
            max_intensity: self.max_intensity,
            mode: self.mode,
        }
    }

    /// The pattern with its parameters replaced.
    pub open spec fn with_settings(self, cfg: BreathingSettings) -> BreathingView {
        BreathingView {
            speed: cfg.speed,
            max_intensity: cfg.max_intensity,
            mode: cfg.mode,
            ..self
        }
    }

    /// A new pattern of `n` pixels with drawn colours, dark and rising.
    pub open spec fn create(
        n: usize,
        mode: BreathingMode,
        max_intensity: u8,
        rng: u32,
        speed: u32,
    ) -> BreathingView {
        (BreathingView {
            rgbs_max: Seq::new(n as nat, |i: int| Rgb::black()),
            rgbs_current: Seq::new(n as nat, |i: int| Rgb::black()),
            current_intensity: 0,
            direction_up: true,
            speed,
            max_intensity,
            mode,
            rng,
        }).switched()
    }
}

/// The mode that a letter names.
pub open spec fn spec_mode(letter: u8) -> Option<BreathingMode> {
    if letter == LOWER_S {
        Some(BreathingMode::Single)
    } else if letter == LOWER_D {
        Some(BreathingMode::Double)
    } else if letter == LOWER_M {
        Some(BreathingMode::Mixed)
    } else {
        None
    }
}

/// Reads a mode from the first letter of `input`: `s`, `d` or `m`.
pub fn parse_mode(input: &[u8]) -> (out: Option<BreathingMode>)
    ensures
        out == (if input@.len() == 0 {
            None
        } else {
            spec_mode(input@[0])
        }),
{
    if input.len() == 0 {
        None
    } else if input[0] == LOWER_S {
        Some(BreathingMode::Single)
    } else if input[0] == LOWER_D {
        Some(BreathingMode::Double)
    } else if input[0] == LOWER_M {
        Some(BreathingMode::Mixed)
    } else {
        None
    }
}

impl Settings for BreathingSettings {
    /// `s<decimal>` sets the speed, `I<u8>` the bound of the colours that
    /// are drawn next, `m<letter>` the mode.
    open spec fn spec_apply(self, token: Seq<u8>) -> Result<Self, PatternError> {
        if token.len() == 0 {
            Err(PatternError::EmptyCommand)
        } else if token[0] == LOWER_S {
            match spec_parse_milli_all(token.skip(1)) {
                Ok(speed) => Ok(BreathingSettings { speed, ..self }),
                Err(e) => Err(e),
            }
        } else if token[0] == UPPER_I {
            match spec_parse_u8(token.skip(1)) {
                Ok(max_intensity) => Ok(BreathingSettings { max_intensity, ..self }),
                Err(e) => Err(e),
            }
        } else if token[0] == LOWER_M {
            if token.len() != 2 {
                Err(PatternError::InvalidMode)
            } else {
                match spec_mode(token[1]) {
                    Some(mode) => Ok(BreathingSettings { mode, ..self }),
                    None => Err(PatternError::InvalidMode),
                }
            }
        } else {
            Err(spec_invalid_cmd(token))
        }
    }

    fn apply(self, token: &[u8]) -> (out: Result<Self, PatternError>) {
        if token.len() == 0 {
            return Err(PatternError::EmptyCommand);
        }
        let arg = vstd::slice::slice_subrange(token, 1, token.len());
        assert(arg@ == token@.skip(1));
        let letter: u8 = token[0];
        if letter == LOWER_S {
            let speed: u32 = parse_milli_all(arg)?;
            Ok(BreathingSettings { speed, ..self })
        } else if letter == UPPER_I {
            let max_intensity: u8 = parse_u8(arg)?;
            Ok(BreathingSettings { max_intensity, ..self })
        } else if letter == LOWER_M {
            if token.len() != 2 {
                return Err(PatternError::InvalidMode);
            }
            match parse_mode(arg) {
                Some(mode) => Ok(BreathingSettings { mode, ..self }),
                None => Err(PatternError::InvalidMode),
            }
        } else {
            match invalid_cmd(token) {
                Err(e) => Err(e),
                Ok(_) => Err(PatternError::EmptyCommand),
            }
        }
    }
}

/// What the arguments `pixels,mode,intensity,speed` give: the mode is
/// named by the first of a run of letters, the speed is a decimal number
/// read in thousandths. What follows the speed is not read.
pub open spec fn spec_breathing_args(s: Seq<u8>) -> Result<
    (usize, BreathingMode, u8, u32),
    PatternError,
> {
    match spec_parse_digits(s, 0, u32::MAX as nat) {
        None => Err(PatternError::InvalidArgs),
        Some((n, after_n)) => match spec_expect(s, after_n as int, COMMA) {
            None => Err(PatternError::InvalidArgs),
            Some(mode_at) => {
                let mode_end = run_end(s, mode_at as int, CharClass::Alpha);
                match spec_expect(s, mode_end, COMMA) {
                    None => Err(PatternError::InvalidArgs),
                    Some(max_at) => match spec_parse_digits(s, max_at as int, 255) {
                        None => Err(PatternError::InvalidArgs),
                        Some((max, after_max)) => match spec_expect(s, after_max as int, COMMA) {
                            None => Err(PatternError::InvalidArgs),
                            Some(speed_at) => match spec_parse_milli(s, speed_at as int) {
                                None => Err(PatternError::InvalidArgs),
                                Some((speed, _)) => if mode_end == mode_at {
                                    Err(PatternError::InvalidMode)
                                } else {
                                    match spec_mode(s[mode_at as int]) {
                                        None => Err(PatternError::InvalidMode),
                                        Some(mode) => Ok((n as usize, mode, max as u8, speed)),
                                    }
                                },
                            },
                        },
                    },
                }
            },
        },
    }
}

fn breathing_args(args: &[u8]) -> (out: Result<(usize, BreathingMode, u8, u32), PatternError>)
    ensures
        out == spec_breathing_args(args@),
{
    let (n, after_n) = match parse_digits(args, 0, u32::MAX as u64) {
        Some(found) => found,
        None => {
            return Err(PatternError::InvalidArgs);
        },
    };
    let mode_at: usize = match expect(args, after_n, COMMA) {
        Some(at) => at,
        None => {
            return Err(PatternError::InvalidArgs);
        },
    };
    let mode_end: usize = scan(args, mode_at, CharClass::Alpha);
    let max_at: usize = match expect(args, mode_end, COMMA) {
        Some(at) => at,
        None => {
            return Err(PatternError::InvalidArgs);
        },
    };
    let (max, after_max) = match parse_digits(args, max_at, 255) {
        Some(found) => found,
        None => {
            return Err(PatternError::InvalidArgs);
        },
    };
    let speed_at: usize = match expect(args, after_max, COMMA) {
        Some(at) => at,
        None => {
            return Err(PatternError::InvalidArgs);
        },
    };
    let (speed, _) = match parse_milli(args, speed_at) {
        Some(found) => found,
        None => {
            return Err(PatternError::InvalidArgs);
        },
    };
    let mode = match parse_mode(vstd::slice::slice_subrange(args, mode_at, mode_end)) {
        Some(mode) => mode,
        None => {
            return Err(PatternError::InvalidMode);
        },
    };
    Ok((n as usize, mode, max as u8, speed))
}

impl View for Breathing {
    type V = BreathingView;

    closed spec fn view(&self) -> BreathingView {
        BreathingView {
            rgbs_max: self.rgbs_max@,
            rgbs_current: self.rgbs_current@,
            current_intensity: self.current_intensity,
            direction_up: self.direction_up,
            speed: self.speed,
            max_intensity: self.max_intensity,
            mode: self.mode,
            rng: self.rng@,
        }
    }
}

impl Breathing {
    /// What `from_bytes` builds from `args` and `seed`.
    pub open spec fn spec_from_bytes(args: Seq<u8>, seed: u32) -> Result<
        BreathingView,
        PatternError,
    > {
        match spec_breathing_args(args) {
            Ok((n, mode, max, speed)) => Ok(
                BreathingView::create(n, mode, max, Rng::seed_state(seed), speed),
            ),
            Err(e) => Err(e),
        }
    }

    /// What `execute_bytes` makes of the pattern: the parameters after all
    /// tokens, or the pattern as it was and the first error.
    pub open spec fn spec_execute(v: BreathingView, command: Seq<u8>) -> (
        BreathingView,
        Result<(), PatternError>,
    ) {
        match spec_apply_all(v.settings(), command) {
            Ok(cfg) => (v.with_settings(cfg), Ok(())),
            Err(e) => (v, Err(e)),
        }
    }

    /// A breathing pattern of `n_leds` pixels. `speed` is in thousandths
    /// of a percent step per frame: 1000 reaches the peak in 25 frames.
    pub fn new(n_leds: usize, mode: BreathingMode, max_intensity: u8, rng: Rng, speed: u32) -> (out:
        Breathing)
        ensures
            out@ == BreathingView::create(n_leds, mode, max_intensity, rng@, speed),
            out@.wf(),
    {
        let mut res = Breathing {
            rgbs_max: colors(n_leds, Rgb { r: 0, g: 0, b: 0 }),
            rgbs_current: colors(n_leds, Rgb { r: 0, g: 0, b: 0 }),
            current_intensity: 0,
            direction_up: true,
            speed,
            max_intensity,
            mode,
            rng,
        };
        res.switch_colors();
        res
    }

    /// Thousandths of a percent step per frame.
    pub fn speed(&self) -> (out: u32)
        ensures
            out == self@.speed,
    {
        self.speed
    }

    /// The bound below which colour channels are drawn.
    pub fn max_intensity(&self) -> (out: u8)
        ensures
            out == self@.max_intensity,
    {
        self.max_intensity
    }

    /// How the colours change over time.
    pub fn mode(&self) -> (out: BreathingMode)
        ensures
            out == self@.mode,
    {
        self.mode
    }

    /// The brightness in thousandths and whether it is rising.
    pub fn intensity(&self) -> (out: (u32, bool))
        ensures
            out == (self@.current_intensity, self@.direction_up),
    {
        (self.current_intensity, self.direction_up)
    }

    fn switch_colors(&mut self)
        requires
            old(self)@.wf(),
        ensures
            final(self)@ == old(self)@.switched(),
            final(self)@.wf(),
    {
        draw_colors(&mut self.rgbs_max, &mut self.rng, self.max_intensity);
        copy_colors(&mut self.rgbs_current, &self.rgbs_max);
    }

    fn step(&mut self)
        requires
            old(self)@.wf(),
        ensures
            final(self)@ == old(self)@.stepped(),
            final(self)@.wf(),
    {
        if self.direction_up {
            if self.speed >= PEAK_INTENSITY - self.current_intensity {
                self.direction_up = false;
                self.current_intensity = PEAK_INTENSITY;
            } else {
                self.current_intensity = self.current_intensity + self.speed;
            }
        } else {
            if self.speed >= self.current_intensity {
                self.direction_up = true;
                self.current_intensity = 0;
                match self.mode {
                    BreathingMode::Mixed => {
                        self.switch_colors();
                    },
                    _ => {},
                }
            } else {
                self.current_intensity = self.current_intensity - self.speed;
            }
        }
    }
}

impl PatternCommand for Breathing {
    open spec fn wf(&self) -> bool {
        self@.wf()
    }

    open spec fn frame(&self) -> Seq<Rgb> {
        self@.rgbs_current
    }

    fn execute_command(&mut self, command: &str) -> (out: Result<(), PatternError>)
        ensures
            (final(self)@, out) == Breathing::spec_execute(old(self)@, command.spec_bytes()),
    {
        self.execute_bytes(command.as_bytes())
    }

    fn execute_bytes(&mut self, command: &[u8]) -> (out: Result<(), PatternError>)
        ensures
            (final(self)@, out) == Breathing::spec_execute(old(self)@, command@),
    {
        let cfg = BreathingSettings {
            speed: self.speed,
            max_intensity: self.max_intensity,
            mode: self.mode,
        };
        match apply_all(cfg, command) {
            Ok(next) => {
                self.speed = next.speed;
                self.max_intensity = next.max_intensity;
                self.mode = next.mode;
                Ok(())
            },
            Err(e) => Err(e),
        }
    }
}

impl LedPattern for Breathing {
    fn next(&mut self) -> (out: &[Rgb])
        ensures
            final(self)@ == old(self)@.next(),
    {
        self.step();
        let pct: u8 = (self.current_intensity / 1000) as u8;
        scale_colors(&mut self.rgbs_current, &self.rgbs_max, pct);
        self.rgbs_current.as_slice()
    }

    fn rgbs(&self) -> (out: &[Rgb]) {
        self.rgbs_current.as_slice()
    }

    /// A breathing pattern does not react to the beat.
    fn beat(&mut self, beat_info: &BeatCount)
        ensures
            final(self)@ == old(self)@,
    {
    }

    fn size(&self) -> (out: usize) {
        self.rgbs_current.len()
    }

    fn from_str(args: &str, seed: u32) -> (out: Result<Self, PatternError>)
        ensures
            match Breathing::spec_from_bytes(args.spec_bytes(), seed) {
                Ok(v) => out matches Ok(p) && p@ == v,
                Err(e) => out matches Err(err) && err == e,
            },
    {
        Self::from_bytes(args.as_bytes(), seed)
    }

    fn from_bytes(args: &[u8], seed: u32) -> (out: Result<Self, PatternError>)
        ensures
            match Breathing::spec_from_bytes(args@, seed) {
                Ok(v) => out matches Ok(p) && p@ == v,
                Err(e) => out matches Err(err) && err == e,
            },
    {
        let (n_leds, mode, max, speed) = breathing_args(args)?;
        Ok(Breathing::new(n_leds, mode, max, Rng::new(seed), speed))
    }
}

} // verus!
