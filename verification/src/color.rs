//! RGB colour values with saturating arithmetic.

use vstd::prelude::*;
use vstd::string::StringSliceAdditionalSpecFns;

use crate::error::PatternError;
use crate::patterns::command::{parse_rgb_bytes, spec_parse_rgb};
use crate::util::random::{Rng, rng_after};

verus! {

/// One pixel: three 8-bit channel intensities.
#[derive(Copy, Clone, Debug, PartialEq, Eq, Structural)]
pub struct Rgb {
    pub r: u8,
    pub g: u8,
    pub b: u8,
}

/// `value * pct / 100`, truncated, and capped at the channel maximum.
pub open spec fn scale_channel(value: u8, pct: u8) -> u8 {
    if value * pct / 100 > 255 {
        255u8
    } else {
        (value * pct / 100) as u8
    }
}

/// Sum of two channel values, capped at the channel maximum.
pub open spec fn add_channel(a: u8, b: u8) -> u8 {
    if a + b > 255 {
        255u8
    } else {
        (a + b) as u8
    }
}

/// A channel value below `max` taken from one draw: the draw's low byte
/// modulo `max`, and 0 where `max` is 0.
pub open spec fn random_channel(draw: u32, max: u8) -> u8 {
    if max == 0 {
        0u8
    } else {
        ((draw % 256) % (max as u32)) as u8
    }
}

/// `base` moved by up to `var` either way: the draw modulo 100 picks the
/// offset `(d - 50) * var / 50`, rounded towards zero, and the result is
/// kept within the channel's range.
pub open spec fn vary_channel(base: u8, var: u8, draw: u32) -> u8 {
    let d = draw % 100;
    if d >= 50 {
        let up = (d - 50) * var / 50;
        if base + up > 255 {
            255u8
        } else {
            (base + up) as u8
        }
    } else {
        let down = (50 - d) * var / 50;
        if down > base {
            0u8
        } else {
            (base - down) as u8
        }
    }
}

fn pick_channel(draw: u32, max: u8) -> (out: u8)
    ensures
        out == random_channel(draw, max),
{
    if max == 0 {
        0
    } else {
        ((draw % 256) % (max as u32)) as u8
    }
}

fn vary_one(base: u8, var: u8, draw: u32) -> (out: u8)
    ensures
        out == vary_channel(base, var, draw),
{
    let d: u32 = draw % 100;
    if d >= 50 {
        assert((d - 50) * var <= 49 * 255) by (nonlinear_arith)
            requires
                50 <= d < 100,
                var <= 255,
        ;
        let up: u32 = (d - 50) * (var as u32) / 50;
        if base as u32 + up > 255 {
            255
        } else {
            (base as u32 + up) as u8
        }
    } else {
        assert((50 - d) * var <= 50 * 255) by (nonlinear_arith)
            requires
                0 <= d < 50,
                var <= 255,
        ;
        let down: u32 = (50 - d) * (var as u32) / 50;
        if down > base as u32 {
            0
        } else {
            (base as u32 - down) as u8
        }
    }
}

fn scale_one(value: u8, pct: u8) -> (out: u8)
    ensures
        out == scale_channel(value, pct),
{
    assert(value as u32 * pct as u32 <= 255 * 255) by (nonlinear_arith)
        requires
            value <= 255,
            pct <= 255,
    ;
    let wide: u32 = (value as u32 * pct as u32) / 100;
    if wide > 255 {
        255
    } else {
        wide as u8
    }
}

impl Rgb {
    /// The colour with every channel scaled by `pct` percent.
    pub open spec fn spec_scaled(self, pct: u8) -> Rgb {
        Rgb {
            r: scale_channel(self.r, pct),
            g: scale_channel(self.g, pct),
            b: scale_channel(self.b, pct),
        }
    }

    /// Channel-wise saturating sum.
    pub open spec fn spec_add(self, rhs: Rgb) -> Rgb {
        Rgb {
            r: add_channel(self.r, rhs.r),
            g: add_channel(self.g, rhs.g),
            b: add_channel(self.b, rhs.b),
        }
    }

    /// Black: all channels off.
    pub open spec fn black() -> Rgb {
        Rgb { r: 0, g: 0, b: 0 }
    }

    /// The colour that three draws from a generator in state `state` give,
    /// each channel below `max`.
    pub open spec fn spec_random(state: u32, max: u8) -> Rgb {
        Rgb {
            r: random_channel(rng_after(state, 1), max),
            g: random_channel(rng_after(state, 2), max),
            b: random_channel(rng_after(state, 3), max),
        }
    }

    /// `base` with each channel moved by up to the same channel of
    /// `variation`, by three draws from a generator in state `state`.
    pub open spec fn spec_varied(base: Rgb, variation: Rgb, state: u32) -> Rgb {
        Rgb {
            r: vary_channel(base.r, variation.r, rng_after(state, 1)),
            g: vary_channel(base.g, variation.g, rng_after(state, 2)),
            b: vary_channel(base.b, variation.b, rng_after(state, 3)),
        }
    }

    /// A random colour with every channel below `max_intensity`.
    pub fn random(rng: &mut Rng, max_intensity: u8) -> (out: Rgb)
        ensures
            out == Self::spec_random(old(rng)@, max_intensity),
            final(rng)@ == rng_after(old(rng)@, 3),
    {
        let mut res = Rgb { r: 0, g: 0, b: 0 };
        res.fill_random(rng, max_intensity);
        res
    }

    /// Overwrites the colour with a random one below `max_intensity`.
    pub fn fill_random(&mut self, rng: &mut Rng, max_intensity: u8)
        ensures
            *final(self) == Self::spec_random(old(rng)@, max_intensity),
            final(rng)@ == rng_after(old(rng)@, 3),
    {
        proof {
            reveal_with_fuel(rng_after, 4);
        }
        self.r = pick_channel(rng.random(), max_intensity);
        self.g = pick_channel(rng.random(), max_intensity);
        self.b = pick_channel(rng.random(), max_intensity);
    }

    /// A colour near `base_color`, each channel off by at most the same
    /// channel of `variation`.
    pub fn random_with_variation(base_color: &Rgb, variation: &Rgb, rng: &mut Rng) -> (out: Rgb)
        ensures
            out == Self::spec_varied(*base_color, *variation, old(rng)@),
            final(rng)@ == rng_after(old(rng)@, 3),
    {
        proof {
            reveal_with_fuel(rng_after, 4);
        }
        let r: u8 = vary_one(base_color.r, variation.r, rng.random());
        let g: u8 = vary_one(base_color.g, variation.g, rng.random());
        let b: u8 = vary_one(base_color.b, variation.b, rng.random());
        Rgb { r, g, b }
    }

    /// Reads `RRGGBB`: six hexadecimal digits. Any other text is an error.
    pub fn from(hex_str: &str) -> (out: Result<Rgb, PatternError>)
        ensures
            out == spec_parse_rgb(hex_str.spec_bytes()),
    {
        parse_rgb_bytes(hex_str.as_bytes())
    }

    /// Scales every channel in place by `scale` percent.
    pub fn scale(&mut self, scale: u8)
        ensures
            *final(self) == old(self).spec_scaled(scale),
    {
        self.r = scale_one(self.r, scale);
        self.g = scale_one(self.g, scale);
        self.b = scale_one(self.b, scale);
    }

    /// A copy with every channel scaled by `scale` percent.
    pub fn scaled(&self, scale: u8) -> (out: Rgb)
        ensures
            out == self.spec_scaled(scale),
    {
        let mut copy = *self;
        copy.scale(scale);
        copy
    }

    /// Adds `rhs` channel by channel, saturating at 255.
    pub fn add(&mut self, rhs: &Rgb)
        ensures
            *final(self) == old(self).spec_add(*rhs),
    {
        self.r = self.r.saturating_add(rhs.r);
        self.g = self.g.saturating_add(rhs.g);
        self.b = self.b.saturating_add(rhs.b);
    }
}

impl Default for Rgb {
    fn default() -> (out: Rgb)
        ensures
            out == Rgb::black(),
    {
        Rgb { r: 0, g: 0, b: 0 }
    }
}

} // verus!
