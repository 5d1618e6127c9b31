//! Shooting stars: lights that run along the strip with a fading tail.
//!
//! The stars live in a pool of fixed size. A slot whose star has speed
//! zero is free; a star that has left the strip, tail and all, frees its
//! slot.

use vstd::prelude::*;
use vstd::string::StringSliceAdditionalSpecFns;

use crate::beat::BeatCount;
use crate::color::Rgb;
use crate::error::PatternError;
use crate::patterns::{LedPattern, PatternCommand, PatternSpeed, invalid_cmd, spec_invalid_cmd};
use crate::patterns::ascii::{COMMA, LOWER_B, LOWER_L, LOWER_S, UPPER_I, UPPER_S};
use crate::patterns::command::{
    Settings, apply_all, expect, parse_bytes, parse_digits, parse_u8, spec_apply_all, spec_expect,
    spec_parse, spec_parse_digits, spec_parse_u8,
};
use crate::util::fill::{colors, paint_all};
use crate::util::random::{Rng, rng_after};

verus! {

/// The stars move in a frame once the frames since their last move,
/// times the speed, reach this.
pub const MAX_SPEED: usize = 1000;

/// The number of slots in the pool.
pub const MAX_STARS: usize = 16;

/// The bound below which the channels of a star's colour are drawn,
/// until a command changes it.
pub const MAX_INTENSITY: u8 = 30;

/// What the commands of a shooting-star pattern are.
pub const COMMAND_HELP: &'static str =
    "b<char> - Beat reaction; s<int> - speed; I<u8> - intensity; S<int> - star speed; \
     l<int> - tail length";

/// One star.
#[derive(Copy, Clone, Debug, PartialEq, Eq, Structural)]
pub struct Star {
    pub color: Rgb,
    /// The pixel of the head.
    pub position: usize,
    /// Pixels per move; zero marks the slot as free.
    pub speed: usize,
    pub tail_length: usize,
}

/// The shooting-star pattern.
pub struct ShootingStar {
    rgbs_current: Vec<Rgb>,
    speed: usize,
    stars: Vec<Star>,
    shoot_interval: PatternSpeed,
    step_counter: usize,
    rng: Rng,
    max_intensity: u8,
    tail_length: usize,
    star_steps_per_move: usize,
}

/// A shooting-star pattern as a mathematical value.
pub struct ShootingStarView {
    /// The frame as last rendered.
    pub rgbs: Seq<Rgb>,
    /// How fast the frames since the last move add up to a move.
    pub speed: usize,
    /// The pool.
    pub stars: Seq<Star>,
    /// On which beats a star is shot.
    pub shoot_interval: PatternSpeed,
    /// Frames since the last move.
    pub step_counter: usize,
    pub rng: u32,
    /// The bound of the colours of stars shot on a beat.
    pub max_intensity: u8,
    /// The tail length of stars shot on a beat.
    pub tail_length: usize,
    /// The speed of stars shot on a beat.
    pub star_steps_per_move: usize,
}

/// The parameters that commands change. `retime` says that the stars
/// under way take the new speed too, `retail` that every slot of the pool
/// takes the new tail length.
#[derive(Copy, Clone, Debug, PartialEq, Eq, Structural)]
pub struct ShootingStarSettings {
    pub shoot_interval: PatternSpeed,
    pub speed: usize,
    pub max_intensity: u8,
    pub tail_length: usize,
    pub star_steps_per_move: usize,
    pub retime: bool,
    pub retail: bool,
}

impl Star {
    /// A free slot.
    pub open spec fn free() -> Star {
        Star { color: Rgb::black(), position: 0, speed: 0, tail_length: 0 }
    }

    /// The star is off the strip, tail and all.
    pub open spec fn is_past(self, size: nat) -> bool {
        self.position - self.tail_length >= size
    }

    /// The star after a move on a strip of `size` pixels: a free slot
    /// stays as it is; a star that is off the strip already frees its slot
    /// and stays where it is; any other star advances by its speed,
    /// stopping at the largest position there is, and frees its slot where
    /// that takes it off the strip.
    pub open spec fn moved(self, size: nat) -> Star {
        if self.speed == 0 {
            self
        } else if self.is_past(size) {
            Star { speed: 0, ..self }
        } else {
            let position = if self.position + self.speed > usize::MAX {
                usize::MAX
            } else {
                (self.position + self.speed) as usize
            };
            Star {
                position,
                speed: if position - self.tail_length >= size {
                    0
                } else {
                    self.speed
                },
                ..self
            }
        }
    }

    /// The percentage at which the star lights a pixel `distance` behind
    /// its head: 100 at the head, falling linearly to nothing at the end
    /// of the tail.
    pub open spec fn fade(self, distance: int) -> u8 {
        (100 - (100 * distance) / (self.tail_length as int)) as u8
    }

    /// What the star adds to pixel `pixel`.
    pub open spec fn glow(self, pixel: int) -> Rgb {
        if 0 <= self.position - pixel < self.tail_length {
            self.color.spec_scaled(self.fade(self.position - pixel))
        } else {
            Rgb::black()
        }
    }

    /// `frame` with the star's light added.
    pub open spec fn shine_on(self, frame: Seq<Rgb>) -> Seq<Rgb> {
        Seq::new(frame.len(), |q: int| frame[q].spec_add(self.glow(q)))
    }
}

/// The frame after the first `k` stars of `stars` have moved: the stars
/// that moved, and only those, shine where they now are. The light of
/// stars that overlap adds up.
pub open spec fn painted(size: nat, stars: Seq<Star>, k: int) -> Seq<Rgb>
    decreases k,
{
    if k <= 0 {
        Seq::new(size, |q: int| Rgb::black())
    } else if stars[k - 1].speed != 0 {
        stars[k - 1].moved(size).shine_on(painted(size, stars, k - 1))
    } else {
        painted(size, stars, k - 1)
    }
}

/// The first free slot at or after `from`, or the length of `stars`.
pub open spec fn first_free(stars: Seq<Star>, from: int) -> int
    decreases stars.len() - from,
{
    if from < 0 || from >= stars.len() {
        stars.len() as int
    } else if stars[from].speed == 0 {
        from
    } else {
        first_free(stars, from + 1)
    }
}

/// The star among the first `k` that has travelled furthest, the first of
/// them where several have.
pub open spec fn furthest(stars: Seq<Star>, k: int) -> int
    decreases k,
{
    if k <= 1 {
        0
    } else if stars[k - 1].position > stars[furthest(stars, k - 1)].position {
        k - 1
    } else {
        furthest(stars, k - 1)
    }
}

proof fn lemma_furthest_in_range(stars: Seq<Star>, k: int)
    requires
        1 <= k <= stars.len(),
    ensures
        0 <= furthest(stars, k) < k,
    decreases k,
{
    if k > 1 {
        lemma_furthest_in_range(stars, k - 1);
    }
}

/// The slot that the next star takes: the first free one, or that of the
/// star that has travelled furthest.
pub open spec fn slot(stars: Seq<Star>) -> int {
    if first_free(stars, 0) < stars.len() {
        first_free(stars, 0)
    } else {
        furthest(stars, stars.len() as int)
    }
}

fn find_slot(stars: &Vec<Star>) -> (out: usize)
    requires
        stars@.len() > 0,
    ensures
        out == slot(stars@),
        out < stars@.len(),
{
    let n: usize = stars.len();
    let mut i: usize = 0;
    while i < n
        invariant
            i <= n,
            n == stars@.len(),
            first_free(stars@, i as int) == first_free(stars@, 0),
        decreases n - i,
    {
        if stars[i].speed == 0 {
            return i;
        }
        i += 1;
    }
    let mut best: usize = 0;
    let mut k: usize = 1;
    while k < n
        invariant
            1 <= k <= n,
            n == stars@.len(),
            best == furthest(stars@, k as int),
            best < k,
        decreases n - k,
    {
        if stars[k].position > stars[best].position {
            best = k;
        }
        k += 1;
    }
    best
}

fn fade_percent(distance: usize, tail_length: usize) -> (out: u8)
    requires
        distance < tail_length,
    ensures
        out == (100 - (100 * distance) / (tail_length as int)) as u8,
        1 <= out <= 100,
{
    let d: u128 = distance as u128;
    let t: u128 = tail_length as u128;
    assert(0 <= (100 * d) / (t as int) < 100) by (nonlinear_arith)
        requires
            0 <= d < t,
    ;
    (100 - (100 * d) / t) as u8
}

fn shine(rgbs: &mut Vec<Rgb>, star: Star)
    ensures
        final(rgbs)@ == star.shine_on(old(rgbs)@),
{
    let n: usize = rgbs.len();
    let mut q: usize = 0;
    while q < n
        invariant
            q <= n,
            rgbs@.len() == n,
            old(rgbs)@.len() == n,
            forall|j: int| 0 <= j < q ==> rgbs@[j] == old(rgbs)@[j].spec_add(star.glow(j)),
            forall|j: int| q <= j < n ==> rgbs@[j] == old(rgbs)@[j],
        decreases n - q,
    {
        if q <= star.position && star.position - q < star.tail_length {
            let pct: u8 = fade_percent(star.position - q, star.tail_length);
            let light = star.color.scaled(pct);
            let mut pixel = rgbs[q];
            pixel.add(&light);
            rgbs[q] = pixel;
        }
        q += 1;
    }
    assert(rgbs@ =~= star.shine_on(old(rgbs)@));
}

fn move_star(star: Star, size: usize) -> (out: Star)
    ensures
        out == star.moved(size as nat),
{
    if star.speed == 0 {
        star
    } else if star.position >= star.tail_length && star.position - star.tail_length >= size {
        Star { speed: 0, ..star }
    } else {
        let position: usize = star.position.saturating_add(star.speed);
        let past: bool = position >= star.tail_length && position - star.tail_length >= size;
        Star {
            color: star.color,
            position,
            speed: if past {
                0
            } else {
                star.speed
            },
            tail_length: star.tail_length,
        }
    }
}

fn advance(stars: &mut Vec<Star>, rgbs: &mut Vec<Rgb>)
    ensures
        final(stars)@ == Seq::new(
            old(stars)@.len(),
            |i: int| old(stars)@[i].moved(old(rgbs)@.len()),
        ),
        final(rgbs)@ == painted(old(rgbs)@.len(), old(stars)@, old(stars)@.len() as int),
        final(rgbs)@.len() == old(rgbs)@.len(),
{
    let size: usize = rgbs.len();
    let n: usize = stars.len();
    paint_all(rgbs, Rgb { r: 0, g: 0, b: 0 });
    let mut i: usize = 0;
    while i < n
        invariant
            i <= n,
            stars@.len() == n,
            old(stars)@.len() == n,
            rgbs@.len() == size,
            old(rgbs)@.len() == size,
            rgbs@ == painted(size as nat, old(stars)@, i as int),
            forall|j: int| 0 <= j < i ==> stars@[j] == old(stars)@[j].moved(size as nat),
            forall|j: int| i <= j < n ==> stars@[j] == old(stars)@[j],
        decreases n - i,
    {
        let before = stars[i];
        let after = move_star(before, size);
        stars[i] = after;
        if before.speed != 0 {
            shine(rgbs, after);
        }
        i += 1;
    }
    assert(stars@ =~= Seq::new(n as nat, |i: int| old(stars)@[i].moved(size as nat)));
}

/// The pool with the speed of every star set to `speed`. Free slots stay
/// free.
pub open spec fn retimed(stars: Seq<Star>, speed: usize) -> Seq<Star> {
    Seq::new(
        stars.len(),
        |i: int|
            if stars[i].speed == 0 {
                stars[i]
            } else {
                Star { speed, ..stars[i] }
            },
    )
}

/// The pool with every star's tail length set to `tail_length`.
pub open spec fn retailed(stars: Seq<Star>, tail_length: usize) -> Seq<Star> {
    Seq::new(stars.len(), |i: int| Star { tail_length, ..stars[i] })
}

fn retime(stars: &mut Vec<Star>, speed: usize)
    ensures
        final(stars)@ == retimed(old(stars)@, speed),
{
    let n: usize = stars.len();
    let mut i: usize = 0;
    while i < n
        invariant
            i <= n,
            stars@.len() == n,
            old(stars)@.len() == n,
            forall|j: int| 0 <= j < i ==> stars@[j] == retimed(old(stars)@, speed)[j],
            forall|j: int| i <= j < n ==> stars@[j] == old(stars)@[j],
        decreases n - i,
    {
        let star = stars[i];
        if star.speed != 0 {
            stars[i] = Star { speed, ..star };
        }
        i += 1;
    }
    assert(stars@ =~= retimed(old(stars)@, speed));
}

fn retail(stars: &mut Vec<Star>, tail_length: usize)
    ensures
        final(stars)@ == retailed(old(stars)@, tail_length),
{
    let n: usize = stars.len();
    let mut i: usize = 0;
    while i < n
        invariant
            i <= n,
            stars@.len() == n,
            old(stars)@.len() == n,
            forall|j: int| 0 <= j < i ==> stars@[j] == (Star { tail_length, ..old(stars)@[j] }),
            forall|j: int| i <= j < n ==> stars@[j] == old(stars)@[j],
        decreases n - i,
    {
        let star = stars[i];
        stars[i] = Star { tail_length, ..star };
        i += 1;
    }
    assert(stars@ =~= retailed(old(stars)@, tail_length));
}

fn empty_pool() -> (out: Vec<Star>)
    ensures
        out@ == Seq::new(MAX_STARS as nat, |i: int| Star::free()),
{
    let mut out: Vec<Star> = Vec::new();
    while out.len() < MAX_STARS
        invariant
            out.len() <= MAX_STARS,
            forall|i: int| 0 <= i < out.len() ==> out@[i] == Star::free(),
        decreases MAX_STARS - out.len(),
    {
        out.push(Star { color: Rgb { r: 0, g: 0, b: 0 }, position: 0, speed: 0, tail_length: 0 });
    }
    assert(out@ =~= Seq::new(MAX_STARS as nat, |i: int| Star::free()));
    out
}

impl ShootingStarView {
    /// The number of pixels.
    pub open spec fn len(self) -> nat {
        self.rgbs.len()
    }

    /// The pool has `MAX_STARS` slots.
    pub open spec fn wf(self) -> bool {
        self.stars.len() == MAX_STARS
    }

    /// Whether the stars move in the next frame.
    pub open spec fn should_move(self) -> bool {
        self.ticks() * self.speed >= MAX_SPEED
    }

    /// The frames since the last move, the next one counted.
    pub open spec fn ticks(self) -> usize {
        if self.step_counter == usize::MAX {
            usize::MAX
        } else {
            (self.step_counter + 1) as usize
        }
    }

    /// The pattern after one frame: the frame is counted; where the count
    /// times the speed has reached `MAX_SPEED`, every star moves, the frame
    /// is painted anew and the count starts over.
    pub open spec fn next(self) -> ShootingStarView {
        if self.should_move() {
            ShootingStarView {
                stars: Seq::new(self.stars.len(), |i: int| self.stars[i].moved(self.len())),
                rgbs: painted(self.len(), self.stars, self.stars.len() as int),
                step_counter: 0,
                ..self
            }
        } else {
            ShootingStarView { step_counter: self.ticks(), ..self }
        }
    }

    /// The pattern after `k` frames.
    pub open spec fn after(self, k: nat) -> ShootingStarView
        decreases k,
    {
        if k == 0 {
            self
        } else {
            self.after((k - 1) as nat).next()
        }
    }

    /// The pattern with a new star at the start of the strip, in the slot
    /// that `slot` picks.
    pub open spec fn shot(self, color: Rgb, speed: usize, tail_length: usize) -> ShootingStarView {
        ShootingStarView {
            stars: self.stars.update(
                slot(self.stars),
                Star { color, position: 0, speed, tail_length },
            ),
            ..self
        }
    }

    /// The pattern after a beat: where the beat fires the chosen
    /// subdivision, a star of a drawn colour is shot.
    pub open spec fn beat(self, beat_info: BeatCount) -> ShootingStarView {
        if self.shoot_interval.spec_is_triggered(beat_info) {
            (ShootingStarView { rng: rng_after(self.rng, 3), ..self }).shot(
                Rgb::spec_random(self.rng, self.max_intensity),
                self.star_steps_per_move,
                self.tail_length,
            )
        } else {
            self
        }
    }

    /// The parameters that commands change, with no star in the pool
    /// touched yet.
    pub open spec fn settings(self) -> ShootingStarSettings {
        ShootingStarSettings {
            shoot_interval: self.shoot_interval,
            speed: self.speed,
            max_intensity: self.max_intensity,
            tail_length: self.tail_length,
            star_steps_per_move: self.star_steps_per_move,
            retime: false,
            retail: false,
        }
    }

    /// The pattern with its parameters replaced and, where the settings
    /// say so, the speed of the stars under way and the tail length of
    /// every slot. A free slot stays free.
    pub open spec fn with_settings(self, cfg: ShootingStarSettings) -> ShootingStarView {
        let timed = if cfg.retime {
            retimed(self.stars, cfg.star_steps_per_move)
        } else {
            self.stars
        };
        ShootingStarView {
            shoot_interval: cfg.shoot_interval,
            speed: cfg.speed,
            max_intensity: cfg.max_intensity,
            tail_length: cfg.tail_length,
            star_steps_per_move: cfg.star_steps_per_move,
            stars: if cfg.retail {
                retailed(timed, cfg.tail_length)
            } else {
                timed
            },
            ..self
        }
    }

    /// A new pattern of `n` dark pixels with an empty pool.
    pub open spec fn create(n: usize, speed: usize, rng: u32) -> ShootingStarView {
        ShootingStarView {
            rgbs: Seq::new(n as nat, |i: int| Rgb::black()),
            speed,
            stars: Seq::new(MAX_STARS as nat, |i: int| Star::free()),
            shoot_interval: PatternSpeed::N4,
            step_counter: 0,
            rng,
            max_intensity: MAX_INTENSITY,
            tail_length: 5,
            star_steps_per_move: 2,
        }
    }

    /// A move leaves no star that is off the strip in a slot that is not
    /// free.
    pub proof fn lemma_past_stars_are_free(self, i: int)
        requires
            self.should_move(),
            0 <= i < self.stars.len(),
            self.next().stars[i].is_past(self.len()),
        ensures
            self.next().stars[i].speed == 0,
    {
    }

    /// A star that is off the strip, tail and all, stays where it is
    /// through any number of frames, whether its slot is free yet or not.
    pub proof fn lemma_past_star_rests(self, i: int, k: nat)
        requires
            0 <= i < self.stars.len(),
            self.stars[i].is_past(self.len()),
        ensures
            self.after(k).len() == self.len(),
            self.after(k).stars.len() == self.stars.len(),
            self.after(k).stars[i].position == self.stars[i].position,
            self.after(k).stars[i].tail_length == self.stars[i].tail_length,
            self.after(k).stars[i].is_past(self.len()),
        decreases k,
    {
        if k > 0 {
            self.lemma_past_star_rests(i, (k - 1) as nat);
            let before = self.after((k - 1) as nat);
            lemma_painted_len(before.len(), before.stars, before.stars.len() as int);
        }
    }

    /// A star whose slot is free, as it is once the star has left the
    /// strip, stays where it is through any number of frames, and its
    /// slot stays free.
    pub proof fn lemma_free_star_rests(self, i: int, k: nat)
        requires
            0 <= i < self.stars.len(),
            self.stars[i].speed == 0,
        ensures
            self.after(k).stars.len() == self.stars.len(),
            self.after(k).stars[i] == self.stars[i],
        decreases k,
    {
        if k > 0 {
            self.lemma_free_star_rests(i, (k - 1) as nat);
        }
    }

    /// A shot never fails: the new star is in the pool afterwards, in the
    /// slot that `slot` picks, and the other slots are as they were.
    pub proof fn lemma_shot_lands(self, color: Rgb, speed: usize, tail_length: usize)
        requires
            self.wf(),
        ensures
            0 <= slot(self.stars) < self.stars.len(),
            self.shot(color, speed, tail_length).stars[slot(self.stars)] == (Star {
                color,
                position: 0,
                speed,
                tail_length,
            }),
            forall|i: int|
                0 <= i < self.stars.len() && i != slot(self.stars) ==> self.shot(
                    color,
                    speed,
                    tail_length,
                ).stars[i] == self.stars[i],
    {
        lemma_furthest_in_range(self.stars, self.stars.len() as int);
        lemma_first_free_in_range(self.stars, 0);
    }

    /// The next star that is shot takes a free slot if there is one, the
    /// first of them.
    pub proof fn lemma_shot_reuses_free_slot(
        self,
        i: int,
        color: Rgb,
        speed: usize,
        tail_length: usize,
    )
        requires
            0 <= i < self.stars.len(),
            self.stars[i].speed == 0,
        ensures
            0 <= slot(self.stars) <= i,
            self.stars[slot(self.stars)].speed == 0,
            self.shot(color, speed, tail_length).stars[slot(self.stars)] == (Star {
                color,
                position: 0,
                speed,
                tail_length,
            }),
    {
        lemma_first_free(self.stars, 0, i);
    }
}

proof fn lemma_painted_len(size: nat, stars: Seq<Star>, k: int)
    ensures
        painted(size, stars, k).len() == size,
    decreases k,
{
    if k > 0 {
        lemma_painted_len(size, stars, k - 1);
    }
}

proof fn lemma_first_free_in_range(stars: Seq<Star>, from: int)
    requires
        0 <= from <= stars.len(),
    ensures
        from <= first_free(stars, from) <= stars.len(),
    decreases stars.len() - from,
{
    if from < stars.len() && stars[from].speed != 0 {
        lemma_first_free_in_range(stars, from + 1);
    }
}

proof fn lemma_first_free(stars: Seq<Star>, from: int, i: int)
    requires
        0 <= from <= i < stars.len(),
        stars[i].speed == 0,
    ensures
        from <= first_free(stars, from) <= i,
        stars[first_free(stars, from)].speed == 0,
    decreases i - from,
{
    if stars[from].speed != 0 {
        lemma_first_free(stars, from + 1, i);
    }
}

impl Settings for ShootingStarSettings {
    /// `b<char>` changes the beat reaction, `s<int>` sets the speed,
    /// `S<int>` the speed of new stars and of those under way, `I<u8>` the
    /// bound of their colours, `l<int>` the tail length.
    open spec fn spec_apply(self, token: Seq<u8>) -> Result<Self, PatternError> {
        if token.len() == 0 {
            Err(PatternError::EmptyCommand)
        } else if token[0] == LOWER_B {
            if token.len() != 2 {
                Err(PatternError::InvalidSpeed)
            } else {
                match self.shoot_interval.spec_change(token[1] as char) {
                    Ok(speed) => Ok(ShootingStarSettings { shoot_interval: speed, ..self }),
                    Err(e) => Err(e),
                }
            }
        } else if token[0] == LOWER_S {
            match spec_parse(token.skip(1)) {
                Ok(speed) => Ok(ShootingStarSettings { speed, ..self }),
                Err(e) => Err(e),
            }
        } else if token[0] == UPPER_S {
            match spec_parse(token.skip(1)) {
                Ok(star_speed) => Ok(
                    ShootingStarSettings { star_steps_per_move: star_speed, retime: true, ..self },
                ),
                Err(e) => Err(e),
            }
        } else if token[0] == UPPER_I {
            match spec_parse_u8(token.skip(1)) {
                Ok(max_intensity) => Ok(ShootingStarSettings { max_intensity, ..self }),
                Err(e) => Err(e),
            }
        } else if token[0] == LOWER_L {
            match spec_parse(token.skip(1)) {
                Ok(tail_length) => Ok(ShootingStarSettings { tail_length, retail: true, ..self }),
                Err(e) => Err(e),
            }
        } else {
            Err(spec_invalid_cmd(token))
        }
    }

    fn apply(self, token: &[u8]) -> (out: Result<Self, PatternError>) {
        if token.len() == 0 {
            return Err(PatternError::EmptyCommand);
        }
        let arg = vstd::slice::slice_subrange(token, 1, token.len());
        assert(arg@ == token@.skip(1));
        let letter: u8 = token[0];
        if letter == LOWER_B {
            if token.len() != 2 {
                return Err(PatternError::InvalidSpeed);
            }
            let mut interval = self.shoot_interval;
            interval.change(token[1] as char)?;
            Ok(ShootingStarSettings { shoot_interval: interval, ..self })
        } else if letter == LOWER_S {
            let speed: usize = parse_bytes(arg)?;
            Ok(ShootingStarSettings { speed, ..self })
        } else if letter == UPPER_S {
            let star_speed: usize = parse_bytes(arg)?;
            Ok(ShootingStarSettings { star_steps_per_move: star_speed, retime: true, ..self })
        } else if letter == UPPER_I {
            let max_intensity: u8 = parse_u8(arg)?;
            Ok(ShootingStarSettings { max_intensity, ..self })
        } else if letter == LOWER_L {
            let tail_length: usize = parse_bytes(arg)?;
            Ok(ShootingStarSettings { tail_length, retail: true, ..self })
        } else {
            match invalid_cmd(token) {
                Err(e) => Err(e),
                Ok(_) => Err(PatternError::EmptyCommand),
            }
        }
    }
}

/// What the arguments `pixels,speed` give. What follows the speed is not
/// read.
pub open spec fn spec_star_args(s: Seq<u8>) -> Result<(usize, usize), PatternError> {
    match spec_parse_digits(s, 0, u32::MAX as nat) {
        None => Err(PatternError::InvalidArgs),
        Some((n, after_n)) => match spec_expect(s, after_n as int, COMMA) {
            None => Err(PatternError::InvalidArgs),
            Some(speed_at) => match spec_parse_digits(s, speed_at as int, u32::MAX as nat) {
                None => Err(PatternError::InvalidArgs),
                Some((speed, _)) => Ok((n as usize, speed as usize)),
            },
        },
    }
}

fn star_args(args: &[u8]) -> (out: Result<(usize, usize), PatternError>)
    ensures
        out == spec_star_args(args@),
{
    let (n, after_n) = match parse_digits(args, 0, u32::MAX as u64) {
        Some(found) => found,
        None => {
            return Err(PatternError::InvalidArgs);
        },
    };
    let speed_at: usize = match expect(args, after_n, COMMA) {
        Some(at) => at,
        None => {
            return Err(PatternError::InvalidArgs);
        },
    };
    let (speed, _) = match parse_digits(args, speed_at, u32::MAX as u64) {
        Some(found) => found,
        None => {
            return Err(PatternError::InvalidArgs);
        },
    };
    Ok((n as usize, speed as usize))
}

impl View for ShootingStar {
    type V = ShootingStarView;

    closed spec fn view(&self) -> ShootingStarView {
        ShootingStarView {
            rgbs: self.rgbs_current@,
            speed: self.speed,
            stars: self.stars@,
            shoot_interval: self.shoot_interval,
            step_counter: self.step_counter,
            rng: self.rng@,
            max_intensity: self.max_intensity,
            tail_length: self.tail_length,
            star_steps_per_move: self.star_steps_per_move,
        }
    }
}

impl ShootingStar {
    /// What `from_bytes` builds from `args` and `seed`.
    pub open spec fn spec_from_bytes(args: Seq<u8>, seed: u32) -> Result<
        ShootingStarView,
        PatternError,
    > {
        match spec_star_args(args) {
            Ok((n, speed)) => Ok(ShootingStarView::create(n, speed, Rng::seed_state(seed))),
            Err(e) => Err(e),
        }
    }

    /// What `execute_bytes` makes of the pattern: the parameters after all
    /// tokens, or the pattern as it was and the first error.
    pub open spec fn spec_execute(v: ShootingStarView, command: Seq<u8>) -> (
        ShootingStarView,
        Result<(), PatternError>,
    ) {
        match spec_apply_all(v.settings(), command) {
            Ok(cfg) => (v.with_settings(cfg), Ok(())),
            Err(e) => (v, Err(e)),
        }
    }

    /// A pattern of `n_leds` pixels whose stars move once every
    /// `MAX_SPEED / speed` frames.
    pub fn new(n_leds: usize, speed: usize, rng: Rng) -> (out: ShootingStar)
        ensures
            out@ == ShootingStarView::create(n_leds, speed, rng@),
            out@.wf(),
    {
        ShootingStar {
            rgbs_current: colors(n_leds, Rgb { r: 0, g: 0, b: 0 }),
            speed,
            shoot_interval: PatternSpeed::N4,
            stars: empty_pool(),
            step_counter: 0,
            rng,
            max_intensity: MAX_INTENSITY,
            tail_length: 5,
            star_steps_per_move: 2,
        }
    }

    /// The star in slot `index` of the pool, or `None` where the pool has
    /// no such slot.
    pub fn star(&self, index: usize) -> (out: Option<Star>)
        ensures
            out == (if index < self@.stars.len() {
                Some(self@.stars[index as int])
            } else {
                None
            }),
    {
        if index < self.stars.len() {
            Some(self.stars[index])
        } else {
            None
        }
    }

    /// The parameters that commands change.
    pub fn settings(&self) -> (out: ShootingStarSettings)
        ensures
            out == self@.settings(),
    {
        ShootingStarSettings {
            shoot_interval: self.shoot_interval,
            speed: self.speed,
            max_intensity: self.max_intensity,
            tail_length: self.tail_length,
            star_steps_per_move: self.star_steps_per_move,
            retime: false,
            retail: false,
        }
    }

    /// Puts a new star at the start of the strip. It takes the first free
    /// slot or, where none is free, that of the star that has travelled
    /// furthest.
    pub fn shoot(&mut self, color: Rgb, speed: usize, tail_length: usize)
        requires
            old(self)@.wf(),
        ensures
            final(self)@ == old(self)@.shot(color, speed, tail_length),
            final(self)@.wf(),
    {
        let index: usize = find_slot(&self.stars);
        self.stars[index] = Star { color, position: 0, speed, tail_length };
    }
}

impl PatternCommand for ShootingStar {
    open spec fn wf(&self) -> bool {
        self@.wf()
    }

    open spec fn frame(&self) -> Seq<Rgb> {
        self@.rgbs
    }

    fn execute_command(&mut self, command: &str) -> (out: Result<(), PatternError>)
        ensures
            (final(self)@, out) == ShootingStar::spec_execute(old(self)@, command.spec_bytes()),
    {
        self.execute_bytes(command.as_bytes())
    }

    fn execute_bytes(&mut self, command: &[u8]) -> (out: Result<(), PatternError>)
        ensures
            (final(self)@, out) == ShootingStar::spec_execute(old(self)@, command@),
    {
        let cfg = ShootingStarSettings {
            shoot_interval: self.shoot_interval,
            speed: self.speed,
            max_intensity: self.max_intensity,
            tail_length: self.tail_length,
            star_steps_per_move: self.star_steps_per_move,
            retime: false,
            retail: false,
        };
        match apply_all(cfg, command) {
            Ok(next) => {
                self.shoot_interval = next.shoot_interval;
                self.speed = next.speed;
                self.max_intensity = next.max_intensity;
                self.tail_length = next.tail_length;
                self.star_steps_per_move = next.star_steps_per_move;
                if next.retime {
                    retime(&mut self.stars, next.star_steps_per_move);
                }
                if next.retail {
                    retail(&mut self.stars, next.tail_length);
                }
                Ok(())
            },
            Err(e) => Err(e),
        }
    }
}

impl LedPattern for ShootingStar {
    fn next(&mut self) -> (out: &[Rgb])
        ensures
            final(self)@ == old(self)@.next(),
    {
        if self.step_counter < usize::MAX {
            self.step_counter = self.step_counter + 1;
        }
        let ticks: u128 = self.step_counter as u128;
        let speed: u128 = self.speed as u128;
        assert(ticks * speed <= 0xffff_ffff_ffff_ffff * 0xffff_ffff_ffff_ffff) by (nonlinear_arith)
            requires
                0 <= ticks <= 0xffff_ffff_ffff_ffff,
                0 <= speed <= 0xffff_ffff_ffff_ffff,
        ;
        if ticks * speed >= MAX_SPEED as u128 {
            advance(&mut self.stars, &mut self.rgbs_current);
            self.step_counter = 0;
        }
        self.rgbs_current.as_slice()
    }

    fn rgbs(&self) -> (out: &[Rgb]) {
        self.rgbs_current.as_slice()
    }

    fn beat(&mut self, beat_info: &BeatCount)
        ensures
            final(self)@ == old(self)@.beat(*beat_info),
    {
        if !self.shoot_interval.is_triggered(beat_info) {
            return ;
        }
        let color = Rgb::random(&mut self.rng, self.max_intensity);
        self.shoot(color, self.star_steps_per_move, self.tail_length)
    }

    fn size(&self) -> (out: usize) {
        self.rgbs_current.len()
    }

    fn from_str(args: &str, seed: u32) -> (out: Result<Self, PatternError>)
        ensures
            match ShootingStar::spec_from_bytes(args.spec_bytes(), seed) {
                Ok(v) => out matches Ok(p) && p@ == v,
                Err(e) => out matches Err(err) && err == e,
            },
    {
        Self::from_bytes(args.as_bytes(), seed)
    }

    fn from_bytes(args: &[u8], seed: u32) -> (out: Result<Self, PatternError>)
        ensures
            match ShootingStar::spec_from_bytes(args@, seed) {
                Ok(v) => out matches Ok(p) && p@ == v,
                Err(e) => out matches Err(err) && err == e,
            },
    {
        let (n_leds, speed) = star_args(args)?;
        Ok(ShootingStar::new(n_leds, speed, Rng::new(seed)))
    }
}

} // verus!
