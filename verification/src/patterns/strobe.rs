//! Strobe: pixels that flash, one at a time, each for itself, or all
//! together.
//!
//! A strobe is driven either by its own switching frequency or, when that
//! is zero, by the beat.

use vstd::prelude::*;
use vstd::string::StringSliceAdditionalSpecFns;

use crate::beat::BeatCount;
use crate::color::Rgb;
use crate::error::PatternError;
use crate::patterns::{
    LedPattern, PatternCommand, PatternSpeed, RENDERS_PER_SECOND, invalid_cmd, spec_invalid_cmd,
};
use crate::patterns::ascii::{COMMA, LOWER_B, LOWER_I, LOWER_S, LOWER_U, UPPER_I};
use crate::patterns::command::{
    CharClass, Settings, apply_all, expect, parse_bytes, parse_digits, parse_u8, run_end, scan,
    spec_apply_all, spec_expect, spec_parse, spec_parse_digits, spec_parse_u8,
};
use crate::util::fill::{colors, flags, zeros};
use crate::util::random::{Rng, rng_after, rng_step};

verus! {

/// For how many frames the pixels stay on after a flash in unison.
pub const MAX_STROBE_ON_DURATION: usize = 3;

/// The brightness of a lit pixel until a command changes it.
pub const DEFAULT_STROBE_INTENSITY: u8 = 50;

/// What the commands of a strobe are.
pub const COMMAND_HELP: &'static str =
    "b<char> - Beat reaction; s<int> - speed; I<u8> - intensity";

/// Which pixels flash together.
#[derive(Copy, Clone, Debug, PartialEq, Eq, Structural)]
pub enum StrobeMode {
    /// Exactly one pixel is lit; it hops on each trigger.
    Single,
    /// Every pixel toggles for itself.
    Individual,
    /// All pixels flash together and go out after a few frames.
    Unison,
}

/// The strobe pattern.
pub struct Strobe {
    rgbs: Vec<Rgb>,
    status: Vec<bool>,
    counters: Vec<usize>,
    cursor: usize,
    phase: usize,
    on_ticks: usize,
    speed: usize,
    mode: StrobeMode,
    rng: Rng,
    max_intensity: u8,
    beat_reaction: PatternSpeed,
}

/// A strobe as a mathematical value.
pub struct StrobeView {
    /// The frame as last rendered.
    pub rgbs: Seq<Rgb>,
    /// Which pixels are on.
    pub status: Seq<bool>,
    /// Per pixel, the frames counted towards its next toggle.
    pub counters: Seq<usize>,
    /// In single mode, the pixel that is lit.
    pub cursor: usize,
    /// In single and unison mode, the speed summed up since the last
    /// trigger.
    pub phase: usize,
    /// In unison mode, the frames since the pixels went on.
    pub on_ticks: usize,
    /// Switches per second; 0 hands the strobe over to the beat.
    pub speed: usize,
    pub mode: StrobeMode,
    /// The state of the random generator.
    pub rng: u32,
    pub max_intensity: u8,
    pub beat_reaction: PatternSpeed,
}

/// The parameters that commands change.
#[derive(Copy, Clone, Debug, PartialEq, Eq, Structural)]
pub struct StrobeSettings {
    pub beat_reaction: PatternSpeed,
    pub speed: usize,
    pub max_intensity: u8,
}

/// Whether a pixel toggles on a beat: its counter has reached 2, or the
/// draw is even.
pub open spec fn beat_flips(counter: usize, draw: u32) -> bool {
    counter + 1 >= 2 || draw % 2 == 0
}

/// Whether a pixel toggles in a frame: its counter, with the speed added,
/// has reached the frame rate.
pub open spec fn tick_flips(counter: usize, speed: usize) -> bool {
    counter + speed >= RENDERS_PER_SECOND
}

/// The flags after a beat: pixel `i` toggles where `beat_flips` says so
/// of its counter and of draw `i + 1`.
pub open spec fn beat_status(status: Seq<bool>, counters: Seq<usize>, rng: u32) -> Seq<bool> {
    Seq::new(
        status.len(),
        |i: int|
            if beat_flips(counters[i], rng_after(rng, (i + 1) as nat)) {
                !status[i]
            } else {
                status[i]
            },
    )
}

/// The counters after a beat: back to zero where the pixel toggles, one
/// more where it does not.
pub open spec fn beat_counters(counters: Seq<usize>, rng: u32) -> Seq<usize> {
    Seq::new(
        counters.len(),
        |i: int|
            if beat_flips(counters[i], rng_after(rng, (i + 1) as nat)) {
                0usize
            } else {
                (counters[i] + 1) as usize
            },
    )
}

/// The flags after a frame at `speed`: pixel `i` toggles where its
/// counter wraps.
pub open spec fn tick_status(status: Seq<bool>, counters: Seq<usize>, speed: usize) -> Seq<bool> {
    Seq::new(
        status.len(),
        |i: int|
            if tick_flips(counters[i], speed) {
                !status[i]
            } else {
                status[i]
            },
    )
}

/// The counters after a frame at `speed`: where one wraps, draw `i + 1`
/// modulo the frame rate; elsewhere the speed is added.
pub open spec fn tick_counters(counters: Seq<usize>, speed: usize, rng: u32) -> Seq<usize> {
    Seq::new(
        counters.len(),
        |i: int|
            if tick_flips(counters[i], speed) {
                (rng_after(rng, (i + 1) as nat) as usize % RENDERS_PER_SECOND) as usize
            } else {
                (counters[i] + speed) as usize
            },
    )
}

/// The frame that shows which pixels are on.
pub open spec fn lit_frame(status: Seq<bool>, lit: Rgb) -> Seq<Rgb> {
    Seq::new(
        status.len(),
        |i: int|
            if status[i] {
                lit
            } else {
                Rgb::black()
            },
    )
}

fn set_all(status: &mut Vec<bool>, value: bool)
    ensures
        final(status)@ == Seq::new(old(status)@.len(), |i: int| value),
{
    let n: usize = status.len();
    let mut i: usize = 0;
    while i < n
        invariant
            i <= n,
            status@.len() == n,
            forall|j: int| 0 <= j < i ==> status@[j] == value,
        decreases n - i,
    {
        status[i] = value;
        i += 1;
    }
    assert(status@ =~= Seq::new(n as nat, |i: int| value));
}

fn light_only(status: &mut Vec<bool>, target: usize)
    ensures
        final(status)@ == Seq::new(old(status)@.len(), |i: int| i == target),
{
    let n: usize = status.len();
    let mut i: usize = 0;
    while i < n
        invariant
            i <= n,
            status@.len() == n,
            forall|j: int| 0 <= j < i ==> status@[j] == (j == target),
        decreases n - i,
    {
        status[i] = i == target;
        i += 1;
    }
    assert(status@ =~= Seq::new(n as nat, |i: int| i == target));
}

fn flip_on_beat(status: &mut Vec<bool>, counters: &mut Vec<usize>, rng: &mut Rng)
    requires
        old(status)@.len() == old(counters)@.len(),
        forall|i: int|
            0 <= i < old(counters)@.len() ==> #[trigger] old(counters)@[i] < RENDERS_PER_SECOND,
    ensures
        final(status)@ == beat_status(old(status)@, old(counters)@, old(rng)@),
        final(counters)@ == beat_counters(old(counters)@, old(rng)@),
        final(rng)@ == rng_after(old(rng)@, old(status)@.len()),
{
    let n: usize = status.len();
    let mut i: usize = 0;
    while i < n
        invariant
            i <= n,
            status@.len() == n,
            counters@.len() == n,
            old(status)@.len() == n,
            old(counters)@.len() == n,
            rng@ == rng_after(old(rng)@, i as nat),
            forall|j: int| 0 <= j < n ==> #[trigger] old(counters)@[j] < RENDERS_PER_SECOND,
            forall|j: int|
                0 <= j < i ==> status@[j] == beat_status(
                    old(status)@,
                    old(counters)@,
                    old(rng)@,
                )[j],
            forall|j: int|
                0 <= j < i ==> counters@[j] == beat_counters(old(counters)@, old(rng)@)[j],
            forall|j: int| i <= j < n ==> status@[j] == old(status)@[j],
            forall|j: int| i <= j < n ==> counters@[j] == old(counters)@[j],
        decreases n - i,
    {
        let draw: u32 = rng.random();
        assert(counters@[i as int] == old(counters)@[i as int]);
        let c: usize = counters[i] + 1;
        if c >= 2 || draw % 2 == 0 {
            counters[i] = 0;
            let s: bool = status[i];
            status[i] = !s;
        } else {
            counters[i] = c;
        }
        i += 1;
    }
    assert(status@ =~= beat_status(old(status)@, old(counters)@, old(rng)@));
    assert(counters@ =~= beat_counters(old(counters)@, old(rng)@));
}

fn flip_on_tick(status: &mut Vec<bool>, counters: &mut Vec<usize>, rng: &mut Rng, speed: usize)
    requires
        old(status)@.len() == old(counters)@.len(),
        forall|i: int|
            0 <= i < old(counters)@.len() ==> #[trigger] old(counters)@[i] < RENDERS_PER_SECOND,
    ensures
        final(status)@ == tick_status(old(status)@, old(counters)@, speed),
        final(counters)@ == tick_counters(old(counters)@, speed, old(rng)@),
        final(rng)@ == rng_after(old(rng)@, old(status)@.len()),
{
    let n: usize = status.len();
    let mut i: usize = 0;
    while i < n
        invariant
            i <= n,
            status@.len() == n,
            counters@.len() == n,
            old(status)@.len() == n,
            old(counters)@.len() == n,
            rng@ == rng_after(old(rng)@, i as nat),
            forall|j: int| 0 <= j < n ==> #[trigger] old(counters)@[j] < RENDERS_PER_SECOND,
            forall|j: int|
                0 <= j < i ==> status@[j] == tick_status(old(status)@, old(counters)@, speed)[j],
            forall|j: int|
                0 <= j < i ==> counters@[j] == tick_counters(old(counters)@, speed, old(rng)@)[j],
            forall|j: int| i <= j < n ==> status@[j] == old(status)@[j],
            forall|j: int| i <= j < n ==> counters@[j] == old(counters)@[j],
        decreases n - i,
    {
        let draw: u32 = rng.random();
        assert(counters@[i as int] == old(counters)@[i as int]);
        let c: usize = counters[i];
        if speed >= RENDERS_PER_SECOND - c {
            counters[i] = draw as usize % RENDERS_PER_SECOND;
            let s: bool = status[i];
            status[i] = !s;
        } else {
            counters[i] = c + speed;
        }
        i += 1;
    }
    assert(status@ =~= tick_status(old(status)@, old(counters)@, speed));
    assert(counters@ =~= tick_counters(old(counters)@, speed, old(rng)@));
}

fn draw_status(status: &mut Vec<bool>, rng: &mut Rng)
    ensures
        final(status)@ == Seq::new(
            old(status)@.len(),
            |i: int| rng_after(old(rng)@, (i + 1) as nat) % 2 == 1,
        ),
        final(rng)@ == rng_after(old(rng)@, old(status)@.len()),
{
    let n: usize = status.len();
    let mut i: usize = 0;
    while i < n
        invariant
            i <= n,
            status@.len() == n,
            rng@ == rng_after(old(rng)@, i as nat),
            forall|j: int|
                0 <= j < i ==> status@[j] == (rng_after(old(rng)@, (j + 1) as nat) % 2 == 1),
        decreases n - i,
    {
        let on: bool = rng.random() % 2 == 1;
        status[i] = on;
        i += 1;
    }
    assert(status@ =~= Seq::new(
        n as nat,
        |i: int| rng_after(old(rng)@, (i + 1) as nat) % 2 == 1,
    ));
}

fn draw_counters(counters: &mut Vec<usize>, rng: &mut Rng)
    ensures
        final(counters)@ == Seq::new(
            old(counters)@.len(),
            |i: int| (rng_after(old(rng)@, (i + 1) as nat) as usize % RENDERS_PER_SECOND) as usize,
        ),
        final(rng)@ == rng_after(old(rng)@, old(counters)@.len()),
{
    let n: usize = counters.len();
    let mut i: usize = 0;
    while i < n
        invariant
            i <= n,
            counters@.len() == n,
            rng@ == rng_after(old(rng)@, i as nat),
            forall|j: int|
                0 <= j < i ==> counters@[j] == rng_after(old(rng)@, (j + 1) as nat) as usize
                    % RENDERS_PER_SECOND,
        decreases n - i,
    {
        let c: usize = rng.random() as usize % RENDERS_PER_SECOND;
        counters[i] = c;
        i += 1;
    }
    assert(counters@ =~= Seq::new(
        n as nat,
        |i: int| (rng_after(old(rng)@, (i + 1) as nat) as usize % RENDERS_PER_SECOND) as usize,
    ));
}

fn paint_frame(rgbs: &mut Vec<Rgb>, status: &Vec<bool>, lit: Rgb)
    requires
        old(rgbs)@.len() == status@.len(),
    ensures
        final(rgbs)@ == lit_frame(status@, lit),
{
    let n: usize = status.len();
    let mut i: usize = 0;
    while i < n
        invariant
            i <= n,
            status@.len() == n,
            rgbs@.len() == n,
            forall|j: int| 0 <= j < i ==> rgbs@[j] == lit_frame(status@, lit)[j],
        decreases n - i,
    {
        if status[i] {
            rgbs[i] = lit;
        } else {
            rgbs[i] = Rgb { r: 0, g: 0, b: 0 };
        }
        i += 1;
    }
    assert(rgbs@ =~= lit_frame(status@, lit));
}

impl StrobeView {
    /// The number of pixels.
    pub open spec fn len(self) -> nat {
        self.rgbs.len()
    }

    /// The buffers are equally long, the counters are below their
    /// limits, and in single mode exactly the pixel under the cursor is
    /// on.
    pub open spec fn wf(self) -> bool {
        &&& self.status.len() == self.rgbs.len()
        &&& self.counters.len() == self.rgbs.len()
        &&& forall|i: int|
            0 <= i < self.counters.len() ==> #[trigger] self.counters[i] < RENDERS_PER_SECOND
        &&& self.phase < RENDERS_PER_SECOND
        &&& self.on_ticks <= MAX_STROBE_ON_DURATION
        &&& (self.mode == StrobeMode::Single && self.len() > 0 ==> self.cursor < self.len()
            && self.status == Seq::new(self.len(), |i: int| i == self.cursor))
    }

    /// The colour of a lit pixel.
    pub open spec fn lit(self) -> Rgb {
        Rgb { r: self.max_intensity, g: self.max_intensity, b: self.max_intensity }
    }

    /// The frame that shows which pixels are on.
    pub open spec fn render(self) -> Seq<Rgb> {
        lit_frame(self.status, self.lit())
    }

    /// The pixel that the light hops to: a different one, picked by the
    /// next draw, where there are at least two.
    pub open spec fn hop(self) -> usize {
        if self.len() < 2 {
            0
        } else {
            ((self.cursor + 1 + rng_step(self.rng) as int % (self.len() - 1)) % (
            self.len() as int)) as usize
        }
    }

    /// With two pixels or more, the light hops to a pixel that it was not
    /// on.
    pub proof fn lemma_hop_moves(self)
        requires
            self.len() >= 2,
            self.len() <= usize::MAX,
            self.cursor < self.len(),
        ensures
            self.hop() < self.len(),
            self.hop() != self.cursor,
    {
        let n = self.len() as int;
        let c = self.cursor as int;
        let step = 1 + rng_step(self.rng) as int % (n - 1);
        assert(1 <= step <= n - 1);
        if c + step >= n {
            assert((c + step) % n == c + step - n) by (nonlinear_arith)
                requires
                    n <= c + step < 2 * n,
                    n > 0,
            ;
        } else {
            assert((c + step) % n == c + step) by (nonlinear_arith)
                requires
                    0 <= c + step < n,
            ;
        }
    }

    /// The strobe after a trigger.
    pub open spec fn triggered(self) -> StrobeView {
        match self.mode {
            StrobeMode::Single => if self.len() < 2 {
                StrobeView { phase: 0, ..self }
            } else {
                StrobeView {
                    status: Seq::new(self.len(), |i: int| i == self.hop()),
                    cursor: self.hop(),
                    phase: 0,
                    rng: rng_step(self.rng),
                    ..self
                }
            },
            StrobeMode::Individual => StrobeView {
                status: beat_status(self.status, self.counters, self.rng),
                counters: beat_counters(self.counters, self.rng),
                rng: rng_after(self.rng, self.len()),
                ..self
            },
            StrobeMode::Unison => StrobeView {
                status: Seq::new(self.len(), |i: int| true),
                phase: 0,
                ..self
            },
        }
    }

    /// The strobe after the part of a frame that its own frequency drives.
    pub open spec fn ticked(self) -> StrobeView {
        if self.speed == 0 {
            self
        } else {
            match self.mode {
                StrobeMode::Individual => StrobeView {
                    status: tick_status(self.status, self.counters, self.speed),
                    counters: tick_counters(self.counters, self.speed, self.rng),
                    rng: rng_after(self.rng, self.len()),
                    ..self
                },
                _ => if self.phase + self.speed >= RENDERS_PER_SECOND {
                    self.triggered()
                } else {
                    StrobeView { phase: (self.phase + self.speed) as usize, ..self }
                },
            }
        }
    }

    /// In unison mode, lit pixels go out once they have been on for more
    /// than `MAX_STROBE_ON_DURATION` frames.
    pub open spec fn faded(self) -> StrobeView {
        if self.mode == StrobeMode::Unison && self.len() > 0 && self.status[0] {
            if self.on_ticks + 1 > MAX_STROBE_ON_DURATION {
                StrobeView {
                    on_ticks: 0,
                    status: Seq::new(self.len(), |i: int| false),
                    ..self
                }
            } else {
                StrobeView { on_ticks: (self.on_ticks + 1) as usize, ..self }
            }
        } else {
            self
        }
    }

    /// The strobe after one frame.
    pub open spec fn next(self) -> StrobeView {
        let moved = self.ticked().faded();
        StrobeView { rgbs: moved.render(), ..moved }
    }

    /// The strobe after a beat: a trigger, where the speed is zero and the
    /// beat fires the chosen subdivision.
    pub open spec fn beat(self, beat_info: BeatCount) -> StrobeView {
        if self.speed == 0 && self.beat_reaction.spec_is_triggered(beat_info) {
            self.triggered()
        } else {
            self
        }
    }

    /// The parameters that commands change.
    pub open spec fn settings(self) -> StrobeSettings {
        StrobeSettings {
            beat_reaction: self.beat_reaction,
            speed: self.speed,
            max_intensity: self.max_intensity,
        }
    }

    /// The strobe with its parameters replaced.
    pub open spec fn with_settings(self, cfg: StrobeSettings) -> StrobeView {
        StrobeView {
            beat_reaction: cfg.beat_reaction,
            speed: cfg.speed,
            max_intensity: cfg.max_intensity,
            ..self
        }
    }

    /// A new strobe of `n` dark pixels: in single mode a drawn pixel is
    /// on; in individual mode every pixel draws whether it is on, and then
    /// every pixel draws its counter.
    pub open spec fn create(n: usize, mode: StrobeMode, rng: u32, speed: usize) -> StrobeView {
        let base = StrobeView {
            rgbs: Seq::new(n as nat, |i: int| Rgb::black()),
            status: Seq::new(n as nat, |i: int| false),
            counters: Seq::new(n as nat, |i: int| 0usize),
            cursor: 0,
            phase: 0,
            on_ticks: 0,
            speed,
            mode,
            rng,
            max_intensity: DEFAULT_STROBE_INTENSITY,
            beat_reaction: PatternSpeed::N4,
        };
        match mode {
            StrobeMode::Single => if n == 0 {
                base
            } else {
                StrobeView {
                    status: Seq::new(n as nat, |i: int| i == rng_step(rng) as usize % n),
                    cursor: (rng_step(rng) as usize % n) as usize,
                    rng: rng_step(rng),
                    ..base
                }
            },
            StrobeMode::Individual => StrobeView {
                status: Seq::new(n as nat, |i: int| rng_after(rng, (i + 1) as nat) % 2 == 1),
                counters: Seq::new(
                    n as nat,
                    |i: int|
                        (rng_after(rng_after(rng, n as nat), (i + 1) as nat) as usize
                            % RENDERS_PER_SECOND) as usize,
                ),
                rng: rng_after(rng_after(rng, n as nat), n as nat),
                ..base
            },
            StrobeMode::Unison => base,
        }
    }
}

impl Settings for StrobeSettings {
    /// `b<char>` changes the beat reaction and sets the speed to zero,
    /// `s<int>` sets the speed, `I<u8>` the intensity.
    open spec fn spec_apply(self, token: Seq<u8>) -> Result<Self, PatternError> {
        if token.len() == 0 {
            Err(PatternError::EmptyCommand)
        } else if token[0] == LOWER_B {
            if token.len() != 2 {
                Err(PatternError::InvalidSpeed)
            } else {
                match self.beat_reaction.spec_change(token[1] as char) {
                    Ok(speed) => Ok(StrobeSettings { beat_reaction: speed, speed: 0, ..self }),
                    Err(e) => Err(e),
                }
            }
        } else if token[0] == LOWER_S {
            match spec_parse(token.skip(1)) {
                Ok(speed) => Ok(StrobeSettings { speed, ..self }),
                Err(e) => Err(e),
            }
        } else if token[0] == UPPER_I {
            match spec_parse_u8(token.skip(1)) {
                Ok(max_intensity) => Ok(StrobeSettings { max_intensity, ..self }),
                Err(e) => Err(e),
            }
        } else {
            Err(spec_invalid_cmd(token))
        }
    }

    fn apply(self, token: &[u8]) -> (out: Result<Self, PatternError>) {
        if token.len() == 0 {
            return Err(PatternError::EmptyCommand);
        }
        let arg = vstd::slice::slice_subrange(token, 1, token.len());
        assert(arg@ == token@.skip(1));
        let letter: u8 = token[0];
        if letter == LOWER_B {
            if token.len() != 2 {
                return Err(PatternError::InvalidSpeed);
            }
            let mut reaction = self.beat_reaction;
            reaction.change(token[1] as char)?;
            Ok(StrobeSettings { beat_reaction: reaction, speed: 0, ..self })
        } else if letter == LOWER_S {
            let speed: usize = parse_bytes(arg)?;
            Ok(StrobeSettings { speed, ..self })
        } else if letter == UPPER_I {
            let max_intensity: u8 = parse_u8(arg)?;
            Ok(StrobeSettings { max_intensity, ..self })
        } else {
            match invalid_cmd(token) {
                Err(e) => Err(e),
                Ok(_) => Err(PatternError::EmptyCommand),
            }
        }
    }
}

/// The mode that a letter names.
pub open spec fn spec_mode(letter: u8) -> Option<StrobeMode> {
    if letter == LOWER_S {
        Some(StrobeMode::Single)
    } else if letter == LOWER_I {
        Some(StrobeMode::Individual)
    } else if letter == LOWER_U {
        Some(StrobeMode::Unison)
    } else {
        None
    }
}

/// Reads a mode from the first letter of `input`: `s`, `i` or `u`.
pub fn parse_mode(input: &[u8]) -> (out: Option<StrobeMode>)
    ensures
        out == (if input@.len() == 0 {
            None
        } else {
            spec_mode(input@[0])
        }),
{
    if input.len() == 0 {
        None
    } else if input[0] == LOWER_S {
        Some(StrobeMode::Single)
    } else if input[0] == LOWER_I {
        Some(StrobeMode::Individual)
    } else if input[0] == LOWER_U {
        Some(StrobeMode::Unison)
    } else {
        None
    }
}

/// What the arguments `pixels,mode,speed` of a strobe give: two numbers
/// with a run of letters between them, of which the first names the mode.
/// What follows the speed is not read.
pub open spec fn spec_strobe_args(s: Seq<u8>) -> Result<(usize, StrobeMode, usize), PatternError> {
    match spec_parse_digits(s, 0, u32::MAX as nat) {
        None => Err(PatternError::InvalidArgs),
        Some((n, after_n)) => match spec_expect(s, after_n as int, COMMA) {
            None => Err(PatternError::InvalidArgs),
            Some(mode_at) => {
                let mode_end = run_end(s, mode_at as int, CharClass::Alpha);
                if mode_end == mode_at {
                    Err(PatternError::InvalidArgs)
                } else {
                    match spec_expect(s, mode_end, COMMA) {
                        None => Err(PatternError::InvalidArgs),
                        Some(speed_at) => match spec_parse_digits(
                            s,
                            speed_at as int,
                            u32::MAX as nat,
                        ) {
                            None => Err(PatternError::InvalidArgs),
                            Some((speed, _)) => match spec_mode(s[mode_at as int]) {
                                None => Err(PatternError::InvalidMode),
                                Some(mode) => Ok((n as usize, mode, speed as usize)),
                            },
                        },
                    }
                }
            },
        },
    }
}

fn strobe_args(args: &[u8]) -> (out: Result<(usize, StrobeMode, usize), PatternError>)
    ensures
        out == spec_strobe_args(args@),
{
    let (n, after_n) = match parse_digits(args, 0, u32::MAX as u64) {
        Some(found) => found,
        None => {
            return Err(PatternError::InvalidArgs);
        },
    };
    let mode_at: usize = match expect(args, after_n, COMMA) {
        Some(at) => at,
        None => {
            return Err(PatternError::InvalidArgs);
        },
    };
    let mode_end: usize = scan(args, mode_at, CharClass::Alpha);
    if mode_end == mode_at {
        return Err(PatternError::InvalidArgs);
    }
    let speed_at: usize = match expect(args, mode_end, COMMA) {
        Some(at) => at,
        None => {
            return Err(PatternError::InvalidArgs);
        },
    };
    let (speed, _) = match parse_digits(args, speed_at, u32::MAX as u64) {
        Some(found) => found,
        None => {
            return Err(PatternError::InvalidArgs);
        },
    };
    let mode = match parse_mode(vstd::slice::slice_subrange(args, mode_at, mode_end)) {
        Some(mode) => mode,
        None => {
            return Err(PatternError::InvalidMode);
        },
    };
    Ok((n as usize, mode, speed as usize))
}

impl View for Strobe {
    type V = StrobeView;

    closed spec fn view(&self) -> StrobeView {
        StrobeView {
            rgbs: self.rgbs@,
            status: self.status@,
            counters: self.counters@,
            cursor: self.cursor,
            phase: self.phase,
            on_ticks: self.on_ticks,
            speed: self.speed,
            mode: self.mode,
            rng: self.rng@,
            max_intensity: self.max_intensity,
            beat_reaction: self.beat_reaction,
        }
    }
}

impl Strobe {
    /// What `from_bytes` builds from `args` and `seed`.
    pub open spec fn spec_from_bytes(args: Seq<u8>, seed: u32) -> Result<StrobeView, PatternError> {
        match spec_strobe_args(args) {
            Ok((n, mode, speed)) => Ok(StrobeView::create(n, mode, Rng::seed_state(seed), speed)),
            Err(e) => Err(e),
        }
    }

    /// What `execute_bytes` makes of the strobe: the parameters after all
    /// tokens, or the strobe as it was and the first error.
    pub open spec fn spec_execute(v: StrobeView, command: Seq<u8>) -> (StrobeView, Result<
        (),
        PatternError,
    >) {
        match spec_apply_all(v.settings(), command) {
            Ok(cfg) => (v.with_settings(cfg), Ok(())),
            Err(e) => (v, Err(e)),
        }
    }

    /// A strobe of `n_leds` pixels that switches `speed` times per second,
    /// or on the beat where `speed` is zero.
    pub fn new(n_leds: usize, mode: StrobeMode, rng: Rng, speed: usize) -> (out: Strobe)
        ensures
            out@ == StrobeView::create(n_leds, mode, rng@, speed),
            out@.wf(),
    {
        let mut ret = Strobe {
            rgbs: colors(n_leds, Rgb { r: 0, g: 0, b: 0 }),
            status: flags(n_leds, false),
            counters: zeros(n_leds),
            cursor: 0,
            phase: 0,
            on_ticks: 0,
            speed,
            mode,
            rng,
            max_intensity: DEFAULT_STROBE_INTENSITY,
            beat_reaction: PatternSpeed::N4,
        };
        match mode {
            StrobeMode::Single => {
                if n_leds > 0 {
                    let first: usize = ret.rng.random() as usize % n_leds;
                    light_only(&mut ret.status, first);
                    ret.cursor = first;
                }
            },
            StrobeMode::Individual => {
                draw_status(&mut ret.status, &mut ret.rng);
                draw_counters(&mut ret.counters, &mut ret.rng);
            },
            StrobeMode::Unison => {},
        }
        ret
    }

    /// Switches per second; zero while the beat drives the strobe.
    pub fn speed(&self) -> (out: usize)
        ensures
            out == self@.speed,
    {
        self.speed
    }

    /// The brightness of a lit pixel.
    pub fn max_intensity(&self) -> (out: u8)
        ensures
            out == self@.max_intensity,
    {
        self.max_intensity
    }

    /// The subdivision that triggers the strobe while the beat drives it.
    pub fn beat_reaction(&self) -> (out: PatternSpeed)
        ensures
            out == self@.beat_reaction,
    {
        self.beat_reaction
    }

    /// Which pixels flash together.
    pub fn mode(&self) -> (out: StrobeMode)
        ensures
            out == self@.mode,
    {
        self.mode
    }

    fn trigger(&mut self)
        requires
            old(self)@.wf(),
        ensures
            final(self)@ == old(self)@.triggered(),
            final(self)@.wf(),
    {
        let n: usize = self.status.len();
        match self.mode {
            StrobeMode::Single => {
                self.phase = 0;
                if n >= 2 {
                    let draw: u32 = self.rng.random();
                    let step: usize = 1 + draw as usize % (n - 1);
                    let target: usize = if self.cursor >= n - step {
                        self.cursor - (n - step)
                    } else {
                        self.cursor + step
                    };
                    assert(target == old(self)@.hop()) by {
                        let c = self.cursor as int;
                        let m = n as int;
                        let s = step as int;
                        assert(draw as usize % ((n - 1) as usize) == draw as int % (m - 1));
                        if c >= m - s {
                            assert((c + s) % m == c + s - m) by (nonlinear_arith)
                                requires
                                    m <= c + s < 2 * m,
                                    m > 0,
                            ;
                        } else {
                            assert((c + s) % m == c + s) by (nonlinear_arith)
                                requires
                                    0 <= c + s < m,
                            ;
                        }
                    }
                    light_only(&mut self.status, target);
                    self.cursor = target;
                }
            },
            StrobeMode::Individual => {
                flip_on_beat(&mut self.status, &mut self.counters, &mut self.rng);
            },
            StrobeMode::Unison => {
                set_all(&mut self.status, true);
                self.phase = 0;
            },
        }
    }

    fn tick(&mut self)
        requires
            old(self)@.wf(),
        ensures
            final(self)@ == old(self)@.ticked(),
            final(self)@.wf(),
    {
        if self.speed == 0 {
            return ;
        }
        match self.mode {
            StrobeMode::Individual => {
                flip_on_tick(&mut self.status, &mut self.counters, &mut self.rng, self.speed);
            },
            _ => {
                if self.speed >= RENDERS_PER_SECOND - self.phase {
                    self.trigger();
                } else {
                    self.phase = self.phase + self.speed;
                }
            },
        }
    }

    fn fade(&mut self)
        requires
            old(self)@.wf(),
        ensures
            final(self)@ == old(self)@.faded(),
            final(self)@.wf(),
    {
        let n: usize = self.status.len();
        match self.mode {
            StrobeMode::Unison => {
                if n > 0 && self.status[0] {
                    if self.on_ticks + 1 > MAX_STROBE_ON_DURATION {
                        self.on_ticks = 0;
                        set_all(&mut self.status, false);
                    } else {
                        self.on_ticks = self.on_ticks + 1;
                    }
                }
            },
            _ => {},
        }
    }
}

impl PatternCommand for Strobe {
    open spec fn wf(&self) -> bool {
        self@.wf()
    }

    open spec fn frame(&self) -> Seq<Rgb> {
        self@.rgbs
    }

    fn execute_command(&mut self, command: &str) -> (out: Result<(), PatternError>)
        ensures
            (final(self)@, out) == Strobe::spec_execute(old(self)@, command.spec_bytes()),
    {
        self.execute_bytes(command.as_bytes())
    }

    fn execute_bytes(&mut self, command: &[u8]) -> (out: Result<(), PatternError>)
        ensures
            (final(self)@, out) == Strobe::spec_execute(old(self)@, command@),
    {
        let cfg = StrobeSettings {
            beat_reaction: self.beat_reaction,
            speed: self.speed,
            max_intensity: self.max_intensity,
        };
        match apply_all(cfg, command) {
            Ok(next) => {
                self.beat_reaction = next.beat_reaction;
                self.speed = next.speed;
                self.max_intensity = next.max_intensity;
                Ok(())
            },
            Err(e) => Err(e),
        }
    }
}

impl LedPattern for Strobe {
    fn next(&mut self) -> (out: &[Rgb])
        ensures
            final(self)@ == old(self)@.next(),
    {
        self.tick();
        self.fade();
        let lit = Rgb { r: self.max_intensity, g: self.max_intensity, b: self.max_intensity };
        paint_frame(&mut self.rgbs, &self.status, lit);
        self.rgbs.as_slice()
    }

    fn rgbs(&self) -> (out: &[Rgb]) {
        self.rgbs.as_slice()
    }

    fn beat(&mut self, beat_info: &BeatCount)
        ensures
            final(self)@ == old(self)@.beat(*beat_info),
    {
        if self.speed != 0 {
            return ;
        }
        if !self.beat_reaction.is_triggered(beat_info) {
            return ;
        }
        self.trigger();
    }

    fn size(&self) -> (out: usize) {
        self.rgbs.len()
    }

    fn from_str(args: &str, seed: u32) -> (out: Result<Self, PatternError>)
        ensures
            match Strobe::spec_from_bytes(args.spec_bytes(), seed) {
                Ok(v) => out matches Ok(p) && p@ == v,
                Err(e) => out matches Err(err) && err == e,
            },
    {
        Self::from_bytes(args.as_bytes(), seed)
    }

    fn from_bytes(args: &[u8], seed: u32) -> (out: Result<Self, PatternError>)
        ensures
            match Strobe::spec_from_bytes(args@, seed) {
                Ok(v) => out matches Ok(p) && p@ == v,
                Err(e) => out matches Err(err) && err == e,
            },
    {
        let (n_leds, mode, speed) = strobe_args(args)?;
        Ok(Strobe::new(n_leds, mode, Rng::new(seed), speed))
    }
}

} // verus!
