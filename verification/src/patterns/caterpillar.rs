//! Caterpillars: bodies that crawl along the strip by stretching their
//! head forward and then pulling their tail after it.

use vstd::prelude::*;
use vstd::string::StringSliceAdditionalSpecFns;

use crate::beat::BeatCount;
use crate::color::Rgb;
use crate::error::PatternError;
use crate::patterns::{LedPattern, PatternCommand, PatternSpeed};
use crate::patterns::ascii::{
    COMMA, LOWER_B, LOWER_H, LOWER_S, LOWER_T, UPPER_H, UPPER_L, UPPER_S, UPPER_T, UPPER_W,
};
use crate::patterns::command::{
    CharClass, Settings, apply_all, expect, parse_bytes, parse_digits, parse_rgb_bytes,
    parse_tuple_bytes, run_end, scan, spec_apply_all, spec_expect, spec_parse, spec_parse_digits,
    spec_parse_rgb, spec_parse_tuple,
};
use crate::util::fill::{colors, paint_all};
use crate::util::random::{Rng, lemma_rng_after_add, rng_after};

verus! {

/// What the commands of a caterpillar pattern are.
pub const COMMAND_HELP: &'static str =
    "b<char> - Beat reaction; s<int> - spawn rate; L<a>..<b> - lengths; S<a>..<b> - speeds; \
     W<int> - waiting time; H/h<hex> - head colour and its variation; \
     T/t<hex> - body colour and its variation";

/// `a + b`, or the largest value where that does not fit.
pub open spec fn sat_add(a: usize, b: usize) -> usize {
    if a + b > usize::MAX {
        usize::MAX
    } else {
        (a + b) as usize
    }
}

/// `a - b`, or zero where `b` is the larger.
pub open spec fn sat_sub(a: usize, b: usize) -> usize {
    if a < b {
        0
    } else {
        (a - b) as usize
    }
}

/// A single caterpillar.
#[derive(Debug, Copy, Clone)]
pub struct CaterPillar {
    /// The pixels of the head and of the tail end.
    pub pos: (usize, usize),
    /// Where the part that moves is headed.
    pub goal: usize,
    /// The shortest and the longest length of the body.
    pub lengths: (usize, usize),
    /// Frames per step of the head and of the tail.
    pub speeds: (usize, usize),
    /// Frames to rest between two moves.
    pub waiting_time: usize,
    pub head_color: Rgb,
    pub body_color: Rgb,
    /// Whether the head is the part that moves; otherwise the tail.
    pub head_moving: bool,
    /// While resting, the frames rested so far.
    pub wait_counter: Option<usize>,
}

/// What new caterpillars are made from.
#[derive(Debug, Copy, Clone)]
pub struct CreationParams {
    pub lengths: (usize, usize),
    pub speeds: (usize, usize),
    pub waiting_time: usize,
    pub head_color: Rgb,
    pub head_color_variation: Rgb,
    pub body_color: Rgb,
    pub body_color_variation: Rgb,
}

/// The parameters that commands change.
#[derive(Debug, Copy, Clone)]
pub struct CaterPillarSettings {
    pub beat_reaction: Option<PatternSpeed>,
    pub spawn_rate: usize,
    pub params: CreationParams,
}

/// The caterpillar pattern.
pub struct CaterPillars {
    rgbs: Vec<Rgb>,
    caterpillars: Vec<CaterPillar>,
    beat_reaction: Option<PatternSpeed>,
    needs_to_finish: bool,
    step_counter: usize,
    spawn_rate: usize,
    new_pillar_params: CreationParams,
    rng: Rng,
}

/// A caterpillar pattern as a mathematical value.
pub struct CaterPillarsView {
    /// The frame as last rendered.
    pub rgbs: Seq<Rgb>,
    pub caterpillars: Seq<CaterPillar>,
    /// With a beat reaction the caterpillars move on the beat only.
    pub beat_reaction: Option<PatternSpeed>,
    /// A beat has come that the next frame acts on.
    pub needs_to_finish: bool,
    /// The frames rendered, wrapping at the largest count.
    pub step_counter: usize,
    /// A caterpillar is spawned every so many frames; never where zero.
    pub spawn_rate: usize,
    pub params: CreationParams,
    pub rng: u32,
}

impl CreationParams {
    /// The parameters that a new pattern starts with.
    pub open spec fn initial() -> CreationParams {
        CreationParams {
            lengths: (5, 15),
            speeds: (2, 8),
            waiting_time: 2,
            head_color: Rgb { r: 0x40, g: 0x10, b: 0x10 },
            head_color_variation: Rgb { r: 0x30, g: 0x10, b: 0x10 },
            body_color: Rgb { r: 0x10, g: 0x50, b: 0x10 },
            body_color_variation: Rgb { r: 0x10, g: 0x20, b: 0x10 },
        }
    }

    /// The caterpillar that is spawned with a generator in state `rng`:
    /// at the start of the strip, its head about to stretch, its colours
    /// varied by six draws.
    pub open spec fn hatch(self, rng: u32) -> CaterPillar {
        (CaterPillar {
            pos: (0, 0),
            goal: 0,
            lengths: self.lengths,
            speeds: self.speeds,
            waiting_time: self.waiting_time,
            head_color: Rgb::spec_varied(self.head_color, self.head_color_variation, rng),
            body_color: Rgb::spec_varied(
                self.body_color,
                self.body_color_variation,
                rng_after(rng, 3),
            ),
            head_moving: false,
            wait_counter: None,
        }).next_move()
    }
}

impl CaterPillar {
    /// The caterpillar with its current move brought to its goal.
    pub open spec fn finished(self) -> CaterPillar {
        if self.head_moving {
            CaterPillar { pos: (self.goal, self.pos.1), ..self }
        } else {
            CaterPillar { pos: (self.pos.0, self.goal), ..self }
        }
    }

    /// The caterpillar with the other part set to move: the head to the
    /// longest length before the tail, or the tail to the shortest length
    /// behind the head.
    pub open spec fn next_move(self) -> CaterPillar {
        CaterPillar {
            head_moving: !self.head_moving,
            goal: if !self.head_moving {
                sat_add(self.pos.1, self.lengths.1)
            } else {
                sat_sub(self.pos.0, self.lengths.0)
            },
            ..self
        }
    }

    /// The frames per step of the part that moves.
    pub open spec fn current_speed(self) -> usize {
        if self.head_moving {
            self.speeds.0
        } else {
            self.speeds.1
        }
    }

    /// Whether the part that moves takes a step in frame `counter`.
    pub open spec fn steps_in(self, counter: usize) -> bool {
        self.current_speed() != 0 && counter % self.current_speed() == 0
    }

    /// The caterpillar after frame `counter`, the part that moves one
    /// pixel further where it takes a step.
    pub open spec fn maybe_moved(self, counter: usize) -> CaterPillar {
        if !self.steps_in(counter) {
            self
        } else if self.head_moving {
            CaterPillar { pos: (sat_add(self.pos.0, 1), self.pos.1), ..self }
        } else {
            CaterPillar { pos: (self.pos.0, sat_add(self.pos.1, 1)), ..self }
        }
    }

    /// Whether the step of frame `counter` brings the move to its goal.
    pub open spec fn arrives_in(self, counter: usize) -> bool {
        self.steps_in(counter) && (if self.head_moving {
            self.maybe_moved(counter).pos.0
        } else {
            self.maybe_moved(counter).pos.1
        }) == self.goal
    }

    /// The caterpillar after frame `counter` on a strip of `n_leds`
    /// pixels, moving at its own speeds: one that has left the strip
    /// stays as it is, one that rests counts the frame and starts its
    /// next move when it has rested enough, and one that moves begins to
    /// rest when it arrives.
    pub open spec fn stepped(self, counter: usize, n_leds: usize) -> CaterPillar {
        if self.pos.1 >= n_leds {
            self
        } else {
            match self.wait_counter {
                Some(c) => if sat_add(c, 1) >= self.waiting_time {
                    (CaterPillar { wait_counter: None, ..self }).next_move()
                } else {
                    CaterPillar { wait_counter: Some(sat_add(c, 1)), ..self }
                },
                None => if self.arrives_in(counter) {
                    CaterPillar { wait_counter: Some(0), ..self.maybe_moved(counter) }
                } else {
                    self.maybe_moved(counter)
                },
            }
        }
    }

    /// The colour of pixel `q` once the caterpillar is drawn over
    /// `under`: the head colour on the head, the body colour from the
    /// tail end up to the head, as far as the strip of `n` pixels
    /// reaches.
    pub open spec fn pixel(self, q: int, n: int, under: Rgb) -> Rgb {
        if q == self.pos.0 && q < n {
            self.head_color
        } else if self.pos.1 <= q < self.pos.0 && q < n {
            self.body_color
        } else {
            under
        }
    }

    /// `frame` with the caterpillar drawn over it.
    pub open spec fn drawn_on(self, frame: Seq<Rgb>) -> Seq<Rgb> {
        Seq::new(frame.len(), |q: int| self.pixel(q, frame.len() as int, frame[q]))
    }

    /// Brings the current move to its goal at once.
    pub fn finish_current_move(&mut self)
        ensures
            *final(self) == old(self).finished(),
    {
        if self.head_moving {
            self.pos.0 = self.goal;
        } else {
            self.pos.1 = self.goal;
        }
    }

    /// Sets the other part to move and its goal.
    pub fn init_next_move(&mut self)
        ensures
            *final(self) == old(self).next_move(),
    {
        self.head_moving = !self.head_moving;
        self.goal = if self.head_moving {
            self.pos.1.saturating_add(self.lengths.1)
        } else {
            self.pos.0.saturating_sub(self.lengths.0)
        };
    }

    /// Takes the step of frame `counter`, if one is due, and says whether
    /// the move has arrived at its goal. A speed of zero never steps.
    pub fn maybe_move(&mut self, counter: usize) -> (arrived: bool)
        ensures
            *final(self) == old(self).maybe_moved(counter),
            arrived == old(self).arrives_in(counter),
    {
        let current_speed: usize = if self.head_moving {
            self.speeds.0
        } else {
            self.speeds.1
        };
        if current_speed != 0 && counter % current_speed == 0 {
            if self.head_moving {
                self.pos.0 = self.pos.0.saturating_add(1);
                return self.pos.0 == self.goal;
            } else {
                self.pos.1 = self.pos.1.saturating_add(1);
                return self.pos.1 == self.goal;
            }
        }
        false
    }

    fn step(&mut self, counter: usize, n_leds: usize)
        ensures
            *final(self) == old(self).stepped(counter, n_leds),
    {
        if self.pos.1 >= n_leds {
            return ;
        }
        match self.wait_counter {
            Some(c) => {
                let rested: usize = c.saturating_add(1);
                if rested >= self.waiting_time {
                    self.wait_counter = None;
                    self.init_next_move();
                } else {
                    self.wait_counter = Some(rested);
                }
            },
            None => {
                let arrived: bool = self.maybe_move(counter);
                if arrived {
                    self.wait_counter = Some(0);
                }
            },
        }
    }
}

/// The frame of `n` pixels with the first `k` of `cats` drawn over black,
/// in order, a later one over an earlier one.
pub open spec fn drawn(n: nat, cats: Seq<CaterPillar>, k: int) -> Seq<Rgb>
    decreases k,
{
    if k <= 0 {
        Seq::new(n, |q: int| Rgb::black())
    } else {
        cats[k - 1].drawn_on(drawn(n, cats, k - 1))
    }
}

/// The first caterpillar at or after `from` whose tail end has left the
/// strip of `n` pixels, or the length of `cats`.
pub open spec fn first_gone(cats: Seq<CaterPillar>, n: nat, from: int) -> int
    decreases cats.len() - from,
{
    if from < 0 || from >= cats.len() {
        cats.len() as int
    } else if cats[from].pos.1 >= n {
        from
    } else {
        first_gone(cats, n, from + 1)
    }
}

/// `cats` with `fresh` in the slot of the first caterpillar that has left
/// the strip, or at the end where none has.
pub open spec fn placed(cats: Seq<CaterPillar>, n: nat, fresh: CaterPillar) -> Seq<CaterPillar> {
    if first_gone(cats, n, 0) < cats.len() {
        cats.update(first_gone(cats, n, 0), fresh)
    } else {
        cats.push(fresh)
    }
}

fn place(cats: &mut Vec<CaterPillar>, n: usize, fresh: CaterPillar)
    ensures
        final(cats)@ == placed(old(cats)@, n as nat, fresh),
{
    let len: usize = cats.len();
    let mut i: usize = 0;
    while i < len
        invariant
            i <= len,
            len == cats@.len(),
            cats@ == old(cats)@,
            first_gone(cats@, n as nat, i as int) == first_gone(cats@, n as nat, 0),
        decreases len - i,
    {
        if cats[i].pos.1 >= n {
            cats[i] = fresh;
            return ;
        }
        i += 1;
    }
    cats.push(fresh);
}

fn step_all(cats: &mut Vec<CaterPillar>, counter: usize, n: usize)
    ensures
        final(cats)@ == Seq::new(old(cats)@.len(), |i: int| old(cats)@[i].stepped(counter, n)),
{
    let len: usize = cats.len();
    let mut i: usize = 0;
    while i < len
        invariant
            i <= len,
            cats@.len() == len,
            old(cats)@.len() == len,
            forall|j: int| 0 <= j < i ==> cats@[j] == old(cats)@[j].stepped(counter, n),
            forall|j: int| i <= j < len ==> cats@[j] == old(cats)@[j],
        decreases len - i,
    {
        let mut cp = cats[i];
        cp.step(counter, n);
        cats[i] = cp;
        i += 1;
    }
    assert(cats@ =~= Seq::new(len as nat, |i: int| old(cats)@[i].stepped(counter, n)));
}

fn finish_all(cats: &mut Vec<CaterPillar>)
    ensures
        final(cats)@ == Seq::new(old(cats)@.len(), |i: int| old(cats)@[i].finished().next_move()),
{
    let len: usize = cats.len();
    let mut i: usize = 0;
    while i < len
        invariant
            i <= len,
            cats@.len() == len,
            old(cats)@.len() == len,
            forall|j: int| 0 <= j < i ==> cats@[j] == old(cats)@[j].finished().next_move(),
            forall|j: int| i <= j < len ==> cats@[j] == old(cats)@[j],
        decreases len - i,
    {
        let mut cp = cats[i];
        cp.finish_current_move();
        cp.init_next_move();
        cats[i] = cp;
        i += 1;
    }
    assert(cats@ =~= Seq::new(len as nat, |i: int| old(cats)@[i].finished().next_move()));
}

fn draw_one(rgbs: &mut Vec<Rgb>, cp: CaterPillar)
    ensures
        final(rgbs)@ == cp.drawn_on(old(rgbs)@),
{
    let n: usize = rgbs.len();
    let mut q: usize = 0;
    while q < n
        invariant
            q <= n,
            rgbs@.len() == n,
            old(rgbs)@.len() == n,
            forall|j: int| 0 <= j < q ==> rgbs@[j] == cp.pixel(j, n as int, old(rgbs)@[j]),
            forall|j: int| q <= j < n ==> rgbs@[j] == old(rgbs)@[j],
        decreases n - q,
    {
        if q == cp.pos.0 {
            rgbs[q] = cp.head_color;
        } else if cp.pos.1 <= q && q < cp.pos.0 {
            rgbs[q] = cp.body_color;
        }
        q += 1;
    }
    assert(rgbs@ =~= cp.drawn_on(old(rgbs)@));
}

fn draw_all(rgbs: &mut Vec<Rgb>, cats: &Vec<CaterPillar>)
    ensures
        final(rgbs)@ == drawn(old(rgbs)@.len(), cats@, cats@.len() as int),
        final(rgbs)@.len() == old(rgbs)@.len(),
{
    let n: usize = rgbs.len();
    paint_all(rgbs, Rgb { r: 0, g: 0, b: 0 });
    let len: usize = cats.len();
    let mut i: usize = 0;
    while i < len
        invariant
            i <= len,
            cats@.len() == len,
            rgbs@.len() == n,
            rgbs@ == drawn(n as nat, cats@, i as int),
        decreases len - i,
    {
        draw_one(rgbs, cats[i]);
        i += 1;
    }
}

impl CaterPillarsView {
    /// The number of pixels.
    pub open spec fn len(self) -> nat {
        self.rgbs.len()
    }

    /// The count of the next frame.
    pub open spec fn counter(self) -> usize {
        if self.step_counter == usize::MAX {
            0
        } else {
            (self.step_counter + 1) as usize
        }
    }

    /// Whether the next frame spawns a caterpillar.
    pub open spec fn spawns(self) -> bool {
        self.spawn_rate != 0 && self.counter() % self.spawn_rate == 0
    }

    /// The pattern with a new caterpillar: six draws vary its colours, and
    /// it takes the slot of one that has left the strip, if there is one.
    pub open spec fn spawned(self) -> CaterPillarsView {
        CaterPillarsView {
            caterpillars: placed(self.caterpillars, self.len(), self.params.hatch(self.rng)),
            rng: rng_after(self.rng, 6),
            ..self
        }
    }

    /// The caterpillars after a frame in which those of `cats` move.
    pub open spec fn crawl(self, cats: Seq<CaterPillar>) -> Seq<CaterPillar> {
        if self.beat_reaction is None {
            Seq::new(cats.len(), |i: int| cats[i].stepped(self.counter(), self.len() as usize))
        } else if self.needs_to_finish {
            Seq::new(cats.len(), |i: int| cats[i].finished().next_move())
        } else {
            cats
        }
    }

    /// The pattern after one frame: the frame is counted, a caterpillar
    /// is spawned where one is due, and the caterpillars move, at their
    /// own speeds or, with a beat reaction, to their goals if a beat has
    /// come since the last frame. Then all are drawn.
    pub open spec fn next(self) -> CaterPillarsView {
        let base = if self.spawns() {
            self.spawned()
        } else {
            self
        };
        let cats = self.crawl(base.caterpillars);
        CaterPillarsView {
            rgbs: drawn(self.len(), cats, cats.len() as int),
            caterpillars: cats,
            needs_to_finish: if self.beat_reaction is Some {
                false
            } else {
                self.needs_to_finish
            },
            step_counter: self.counter(),
            ..base
        }
    }

    /// The pattern after a beat: where it fires the beat reaction, the
    /// next frame brings every move to its goal.
    pub open spec fn beat(self, beat_info: BeatCount) -> CaterPillarsView {
        match self.beat_reaction {
            Some(reaction) => if reaction.spec_is_triggered(beat_info) {
                CaterPillarsView { needs_to_finish: true, ..self }
            } else {
                self
            },
            None => self,
        }
    }

    /// The parameters that commands change.
    pub open spec fn settings(self) -> CaterPillarSettings {
        CaterPillarSettings {
            beat_reaction: self.beat_reaction,
            spawn_rate: self.spawn_rate,
            params: self.params,
        }
    }

    /// The pattern with its parameters replaced.
    pub open spec fn with_settings(self, cfg: CaterPillarSettings) -> CaterPillarsView {
        CaterPillarsView {
            beat_reaction: cfg.beat_reaction,
            spawn_rate: cfg.spawn_rate,
            params: cfg.params,
            ..self
        }
    }

    /// A new pattern of `n` dark pixels without caterpillars.
    pub open spec fn create(
        n: usize,
        beat_reaction: Option<PatternSpeed>,
        spawn_rate: usize,
        rng: u32,
    ) -> CaterPillarsView {
        CaterPillarsView {
            rgbs: Seq::new(n as nat, |i: int| Rgb::black()),
            caterpillars: Seq::empty(),
            beat_reaction,
            needs_to_finish: false,
            step_counter: 0,
            spawn_rate,
            params: CreationParams::initial(),
            rng,
        }
    }
}

impl Settings for CaterPillarSettings {
    /// `b<char>` changes the beat reaction, starting from quarter notes
    /// where there was none; `s<int>` sets the spawn rate, `L<a>..<b>` the
    /// lengths, `S<a>..<b>` the speeds, `W<int>` the waiting time,
    /// `H<hex>` and `h<hex>` the head colour and its variation, `T<hex>`
    /// and `t<hex>` those of the body.
    open spec fn spec_apply(self, token: Seq<u8>) -> Result<Self, PatternError> {
        if token.len() == 0 {
            Err(PatternError::EmptyCommand)
        } else if token[0] == LOWER_B {
            if token.len() < 2 {
                Err(PatternError::InvalidSpeed)
            } else {
                let reaction = match self.beat_reaction {
                    Some(r) => r,
                    None => PatternSpeed::N4,
                };
                match reaction.spec_change(token[1] as char) {
                    Ok(r) => Ok(CaterPillarSettings { beat_reaction: Some(r), ..self }),
                    Err(e) => Err(e),
                }
            }
        } else if token[0] == LOWER_S {
            match spec_parse(token.skip(1)) {
                Ok(spawn_rate) => Ok(CaterPillarSettings { spawn_rate, ..self }),
                Err(e) => Err(e),
            }
        } else if token[0] == UPPER_L {
            match spec_parse_tuple(token.skip(1)) {
                Ok(lengths) => Ok(
                    CaterPillarSettings {
                        params: CreationParams { lengths, ..self.params },
                        ..self
                    },
                ),
                Err(e) => Err(e),
            }
        } else if token[0] == UPPER_S {
            match spec_parse_tuple(token.skip(1)) {
                Ok(speeds) => Ok(
                    CaterPillarSettings {
                        params: CreationParams { speeds, ..self.params },
                        ..self
                    },
                ),
                Err(e) => Err(e),
            }
        } else if token[0] == UPPER_W {
            match spec_parse(token.skip(1)) {
                Ok(waiting_time) => Ok(
                    CaterPillarSettings {
                        params: CreationParams { waiting_time, ..self.params },
                        ..self
                    },
                ),
                Err(e) => Err(e),
            }
        } else if token[0] == UPPER_H {
            match spec_parse_rgb(token.skip(1)) {
                Ok(head_color) => Ok(
                    CaterPillarSettings {
                        params: CreationParams { head_color, ..self.params },
                        ..self
                    },
                ),
                Err(e) => Err(e),
            }
        } else if token[0] == LOWER_H {
            match spec_parse_rgb(token.skip(1)) {
                Ok(head_color_variation) => Ok(
                    CaterPillarSettings {
                        params: CreationParams { head_color_variation, ..self.params },
                        ..self
                    },
                ),
                Err(e) => Err(e),
            }
        } else if token[0] == UPPER_T {
            match spec_parse_rgb(token.skip(1)) {
                Ok(body_color) => Ok(
                    CaterPillarSettings {
                        params: CreationParams { body_color, ..self.params },
                        ..self
                    },
                ),
                Err(e) => Err(e),
            }
        } else if token[0] == LOWER_T {
            match spec_parse_rgb(token.skip(1)) {
                Ok(body_color_variation) => Ok(
                    CaterPillarSettings {
                        params: CreationParams { body_color_variation, ..self.params },
                        ..self
                    },
                ),
                Err(e) => Err(e),
            }
        } else {
            Err(PatternError::InvalidCommand { letter: token[0] })
        }
    }

    fn apply(self, token: &[u8]) -> (out: Result<Self, PatternError>) {
        if token.len() == 0 {
            return Err(PatternError::EmptyCommand);
        }
        let arg = vstd::slice::slice_subrange(token, 1, token.len());
        assert(arg@ == token@.skip(1));
        let letter: u8 = token[0];
        let mut next = self;
        if letter == LOWER_B {
            if token.len() < 2 {
                return Err(PatternError::InvalidSpeed);
            }
            let mut reaction = match self.beat_reaction {
                Some(r) => r,
                None => PatternSpeed::N4,
            };
            reaction.change(token[1] as char)?;
            next.beat_reaction = Some(reaction);
        } else if letter == LOWER_S {
            next.spawn_rate = parse_bytes(arg)?;
        } else if letter == UPPER_L {
            next.params.lengths = parse_tuple_bytes(arg)?;
        } else if letter == UPPER_S {
            next.params.speeds = parse_tuple_bytes(arg)?;
        } else if letter == UPPER_W {
            next.params.waiting_time = parse_bytes(arg)?;
        } else if letter == UPPER_H {
            next.params.head_color = parse_rgb_bytes(arg)?;
        } else if letter == LOWER_H {
            next.params.head_color_variation = parse_rgb_bytes(arg)?;
        } else if letter == UPPER_T {
            next.params.body_color = parse_rgb_bytes(arg)?;
        } else if letter == LOWER_T {
            next.params.body_color_variation = parse_rgb_bytes(arg)?;
        } else {
            return Err(PatternError::InvalidCommand { letter });
        }
        Ok(next)
    }
}

/// What the arguments `pixels,reaction,rate` give: two numbers with a
/// run of letters between them, which may be empty and then means no beat
/// reaction; the first of the letters is otherwise read as a beat
/// reaction. What follows the rate is not read.
pub open spec fn spec_caterpillar_args(s: Seq<u8>) -> Result<
    (usize, Option<PatternSpeed>, usize),
    PatternError,
> {
    match spec_parse_digits(s, 0, u32::MAX as nat) {
        None => Err(PatternError::InvalidArgs),
        Some((n, after_n)) => match spec_expect(s, after_n as int, COMMA) {
            None => Err(PatternError::InvalidArgs),
            Some(reaction_at) => {
                let reaction_end = run_end(s, reaction_at as int, CharClass::Alpha);
                match spec_expect(s, reaction_end, COMMA) {
                    None => Err(PatternError::InvalidArgs),
                    Some(rate_at) => match spec_parse_digits(s, rate_at as int, u32::MAX as nat) {
                        None => Err(PatternError::InvalidArgs),
                        Some((rate, _)) => if reaction_end == reaction_at {
                            Ok((n as usize, None, rate as usize))
                        } else {
                            match PatternSpeed::spec_try_from(s[reaction_at as int] as char) {
                                Ok(r) => Ok((n as usize, Some(r), rate as usize)),
                                Err(e) => Err(e),
                            }
                        },
                    },
                }
            },
        },
    }
}

fn caterpillar_args(args: &[u8]) -> (out: Result<
    (usize, Option<PatternSpeed>, usize),
    PatternError,
>)
    ensures
        out == spec_caterpillar_args(args@),
{
    let (n, after_n) = match parse_digits(args, 0, u32::MAX as u64) {
        Some(found) => found,
        None => {
            return Err(PatternError::InvalidArgs);
        },
    };
    let reaction_at: usize = match expect(args, after_n, COMMA) {
        Some(at) => at,
        None => {
            return Err(PatternError::InvalidArgs);
        },
    };
    let reaction_end: usize = scan(args, reaction_at, CharClass::Alpha);
    let rate_at: usize = match expect(args, reaction_end, COMMA) {
        Some(at) => at,
        None => {
            return Err(PatternError::InvalidArgs);
        },
    };
    let (rate, _) = match parse_digits(args, rate_at, u32::MAX as u64) {
        Some(found) => found,
        None => {
            return Err(PatternError::InvalidArgs);
        },
    };
    if reaction_end == reaction_at {
        Ok((n as usize, None, rate as usize))
    } else {
        let reaction = PatternSpeed::try_from(args[reaction_at] as char)?;
        Ok((n as usize, Some(reaction), rate as usize))
    }
}

impl View for CaterPillars {
    type V = CaterPillarsView;

    closed spec fn view(&self) -> CaterPillarsView {
        CaterPillarsView {
            rgbs: self.rgbs@,
            caterpillars: self.caterpillars@,
            beat_reaction: self.beat_reaction,
            needs_to_finish: self.needs_to_finish,
            step_counter: self.step_counter,
            spawn_rate: self.spawn_rate,
            params: self.new_pillar_params,
            rng: self.rng@,
        }
    }
}

impl CaterPillars {
    /// What `from_bytes` builds from `args` and `seed`.
    pub open spec fn spec_from_bytes(args: Seq<u8>, seed: u32) -> Result<
        CaterPillarsView,
        PatternError,
    > {
        match spec_caterpillar_args(args) {
            Ok((n, reaction, rate)) => Ok(
                CaterPillarsView::create(n, reaction, rate, Rng::seed_state(seed)),
            ),
            Err(e) => Err(e),
        }
    }

    /// What `execute_bytes` makes of the pattern: the parameters after all
    /// tokens, or the pattern as it was and the first error.
    pub open spec fn spec_execute(v: CaterPillarsView, command: Seq<u8>) -> (
        CaterPillarsView,
        Result<(), PatternError>,
    ) {
        match spec_apply_all(v.settings(), command) {
            Ok(cfg) => (v.with_settings(cfg), Ok(())),
            Err(e) => (v, Err(e)),
        }
    }

    /// A pattern of `n_leds` pixels that spawns a caterpillar every
    /// `spawn_rate` frames.
    pub fn new(
        n_leds: usize,
        beat_reaction: Option<PatternSpeed>,
        spawn_rate: usize,
        rng: Rng,
    ) -> (out: CaterPillars)
        ensures
            out@ == CaterPillarsView::create(n_leds, beat_reaction, spawn_rate, rng@),
    {
        CaterPillars {
            rgbs: colors(n_leds, Rgb { r: 0, g: 0, b: 0 }),
            caterpillars: Vec::new(),
            beat_reaction,
            needs_to_finish: false,
            step_counter: 0,
            spawn_rate,
            new_pillar_params: CreationParams {
                lengths: (5, 15),
                speeds: (2, 8),
                waiting_time: 2,
                head_color: Rgb { r: 0x40, g: 0x10, b: 0x10 },
                head_color_variation: Rgb { r: 0x30, g: 0x10, b: 0x10 },
                body_color: Rgb { r: 0x10, g: 0x50, b: 0x10 },
                body_color_variation: Rgb { r: 0x10, g: 0x20, b: 0x10 },
            },
            rng,
        }
    }

    /// The number of caterpillars, those that have left the strip
    /// included.
    pub fn count(&self) -> (out: usize)
        ensures
            out == self@.caterpillars.len(),
    {
        self.caterpillars.len()
    }

    /// Caterpillar `index`, or `None` where there is no such one.
    pub fn caterpillar(&self, index: usize) -> (out: Option<CaterPillar>)
        ensures
            out == (if index < self@.caterpillars.len() {
                Some(self@.caterpillars[index as int])
            } else {
                None
            }),
    {
        if index < self.caterpillars.len() {
            Some(self.caterpillars[index])
        } else {
            None
        }
    }

    /// The parameters that commands change.
    pub fn settings(&self) -> (out: CaterPillarSettings)
        ensures
            out == self@.settings(),
    {
        CaterPillarSettings {
            beat_reaction: self.beat_reaction,
            spawn_rate: self.spawn_rate,
            params: self.new_pillar_params,
        }
    }

    fn add_new_caterpillar(&mut self)
        ensures
            final(self)@ == old(self)@.spawned(),
    {
        let p = self.new_pillar_params;
        proof {
            lemma_rng_after_add(self.rng@, 3, 3);
        }
        let head_color = Rgb::random_with_variation(
            &p.head_color,
            &p.head_color_variation,
            &mut self.rng,
        );
        let body_color = Rgb::random_with_variation(
            &p.body_color,
            &p.body_color_variation,
            &mut self.rng,
        );
        let mut new_cp = CaterPillar {
            pos: (0, 0),
            goal: 0,
            lengths: p.lengths,
            speeds: p.speeds,
            waiting_time: p.waiting_time,
            head_color,
            body_color,
            head_moving: false,
            wait_counter: None,
        };
        new_cp.init_next_move();
        let n: usize = self.rgbs.len();
        place(&mut self.caterpillars, n, new_cp);
    }
}

impl PatternCommand for CaterPillars {
    open spec fn wf(&self) -> bool {
        true
    }

    open spec fn frame(&self) -> Seq<Rgb> {
        self@.rgbs
    }

    fn execute_command(&mut self, command: &str) -> (out: Result<(), PatternError>)
        ensures
            (final(self)@, out) == CaterPillars::spec_execute(old(self)@, command.spec_bytes()),
    {
        self.execute_bytes(command.as_bytes())
    }

    fn execute_bytes(&mut self, command: &[u8]) -> (out: Result<(), PatternError>)
        ensures
            (final(self)@, out) == CaterPillars::spec_execute(old(self)@, command@),
    {
        let cfg = CaterPillarSettings {
            beat_reaction: self.beat_reaction,
            spawn_rate: self.spawn_rate,
            params: self.new_pillar_params,
        };
        match apply_all(cfg, command) {
            Ok(next) => {
                self.beat_reaction = next.beat_reaction;
                self.spawn_rate = next.spawn_rate;
                self.new_pillar_params = next.params;
                Ok(())
            },
            Err(e) => Err(e),
        }
    }
}

impl LedPattern for CaterPillars {
    fn next(&mut self) -> (out: &[Rgb])
        ensures
            final(self)@ == old(self)@.next(),
    {
        self.step_counter = if self.step_counter == usize::MAX {
            0
        } else {
            self.step_counter + 1
        };
        let n_leds: usize = self.rgbs.len();
        if self.spawn_rate != 0 && self.step_counter % self.spawn_rate == 0 {
            self.add_new_caterpillar();
        }
        if self.beat_reaction.is_none() {
            step_all(&mut self.caterpillars, self.step_counter, n_leds);
        } else if self.needs_to_finish {
            self.needs_to_finish = false;
            finish_all(&mut self.caterpillars);
        }
        draw_all(&mut self.rgbs, &self.caterpillars);
        self.rgbs.as_slice()
    }

    fn rgbs(&self) -> (out: &[Rgb]) {
        self.rgbs.as_slice()
    }

    fn beat(&mut self, beat_info: &BeatCount)
        ensures
            final(self)@ == old(self)@.beat(*beat_info),
    {
        match self.beat_reaction {
            Some(reaction) => {
                if reaction.is_triggered(beat_info) {
                    self.needs_to_finish = true;
                }
            },
            None => {},
        }
    }

    fn size(&self) -> (out: usize) {
        self.rgbs.len()
    }

    fn from_str(args: &str, seed: u32) -> (out: Result<Self, PatternError>)
        ensures
            match CaterPillars::spec_from_bytes(args.spec_bytes(), seed) {
                Ok(v) => out matches Ok(p) && p@ == v,
                Err(e) => out matches Err(err) && err == e,
            },
    {
        Self::from_bytes(args.as_bytes(), seed)
    }

    fn from_bytes(args: &[u8], seed: u32) -> (out: Result<Self, PatternError>)
        ensures
            match CaterPillars::spec_from_bytes(args@, seed) {
                Ok(v) => out matches Ok(p) && p@ == v,
                Err(e) => out matches Err(err) && err == e,
            },
    {
        let (n_leds, reaction, rate) = caterpillar_args(args)?;
        Ok(CaterPillars::new(n_leds, reaction, rate, Rng::new(seed)))
    }
}

} // verus!
