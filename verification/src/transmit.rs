//! The pulse train that an LED strip of the WS2812 family reads a frame
//! from.
//!
//! Each pixel is sent as green, red, blue, each channel most significant
//! bit first, each bit as a high pulse of one of two lengths followed by a
//! low gap. Lengths are in cycles of an 80 MHz clock.

use vstd::prelude::*;

use crate::color::Rgb;

verus! {

/// Nanoseconds per clock cycle, rounded down.
pub const NS_PER_CLOCK_CYCLE: u16 = 12;

/// The high time of a zero bit.
pub const T0_HIGH: u16 = 350 / NS_PER_CLOCK_CYCLE;

/// The high time of a one bit.
pub const T1_HIGH: u16 = 700 / NS_PER_CLOCK_CYCLE;

/// The low time behind every bit.
pub const T_LOW_GAP: u16 = 600 / NS_PER_CLOCK_CYCLE;

/// The low time that ends a frame.
pub const T_LOW_RESET: u16 = 6000 / NS_PER_CLOCK_CYCLE;

/// Two levels with the cycles that each is held.
#[derive(Copy, Clone, Debug, PartialEq, Eq, Structural)]
pub struct PulseCode {
    pub level1: bool,
    pub length1: u16,
    pub level2: bool,
    pub length2: u16,
}

/// Whether bit `bit_pos` of `value` is set.
pub open spec fn bit_is_high(value: u8, bit_pos: u8) -> bool {
    (value >> bit_pos) & 1 == 1
}

/// The pulse for one bit.
pub open spec fn bit_code(high: bool) -> PulseCode {
    PulseCode {
        level1: true,
        length1: if high {
            T1_HIGH
        } else {
            T0_HIGH
        },
        level2: false,
        length2: T_LOW_GAP,
    }
}

/// The channel of `rgb` that is sent as number `j`: green, red, blue.
pub open spec fn wire_channel(rgb: Rgb, j: int) -> u8 {
    if j == 0 {
        rgb.g
    } else if j == 1 {
        rgb.r
    } else {
        rgb.b
    }
}

/// Pulse `k` of the train for `data`, before the train is ended.
pub open spec fn pulse_at(data: Seq<Rgb>, k: int) -> PulseCode {
    bit_code(bit_is_high(wire_channel(data[k / 24], (k % 24) / 8), (7 - k % 8) as u8))
}

/// The pulse train for `data`: 24 pulses per pixel, the last of all with
/// no second length, which ends the transmission.
pub open spec fn encoded(data: Seq<Rgb>) -> Seq<PulseCode> {
    Seq::new(
        24 * data.len(),
        |k: int|
            if k == 24 * data.len() - 1 {
                PulseCode { length2: 0, ..pulse_at(data, k) }
            } else {
                pulse_at(data, k)
            },
    )
}

fn push_channel(out: &mut Vec<PulseCode>, value: u8)
    ensures
        final(out)@.len() == old(out)@.len() + 8,
        forall|k: int| 0 <= k < old(out)@.len() ==> final(out)@[k] == old(out)@[k],
        forall|p: int|
            0 <= p < 8 ==> #[trigger] final(out)@[old(out)@.len() + p] == bit_code(
                bit_is_high(value, (7 - p) as u8),
            ),
{
    let mut p: u8 = 0;
    while p < 8
        invariant
            p <= 8,
            out@.len() == old(out)@.len() + p,
            forall|k: int| 0 <= k < old(out)@.len() ==> out@[k] == old(out)@[k],
            forall|q: int|
                0 <= q < p ==> #[trigger] out@[old(out)@.len() + q] == bit_code(
                    bit_is_high(value, (7 - q) as u8),
                ),
        decreases 8 - p,
    {
        let bit_pos: u8 = 7 - p;
        let high: bool = (value >> bit_pos) & 1 == 1;
        out.push(
            PulseCode {
                level1: true,
                length1: if high {
                    T1_HIGH
                } else {
                    T0_HIGH
                },
                level2: false,
                length2: T_LOW_GAP,
            },
        );
        p += 1;
    }
}

/// Encodes a frame as the pulse train that sends it.
pub fn encode(data: &[Rgb]) -> (out: Vec<PulseCode>)
    ensures
        out@ == encoded(data@),
{
    let n: usize = data.len();
    let mut out: Vec<PulseCode> = Vec::new();
    let mut i: usize = 0;
    while i < n
        invariant
            i <= n,
            n == data@.len(),
            out@.len() == 24 * i,
            forall|k: int| 0 <= k < 24 * i ==> #[trigger] out@[k] == pulse_at(data@, k),
        decreases n - i,
    {
        let rgb = data[i];
        let ghost base = out@;
        push_channel(&mut out, rgb.g);
        let ghost with_g = out@;
        push_channel(&mut out, rgb.r);
        let ghost with_r = out@;
        push_channel(&mut out, rgb.b);
        assert forall|k: int| 0 <= k < 24 * (i + 1) implies #[trigger] out@[k] == pulse_at(
            data@,
            k,
        ) by {
            if k < 24 * i {
                assert(out@[k] == with_r[k]);
                assert(with_r[k] == with_g[k]);
                assert(with_g[k] == base[k]);
            } else if k < 24 * i + 8 {
                let p = k - 24 * i;
                assert(with_g[base.len() + p] == bit_code(bit_is_high(rgb.g, (7 - p) as u8)));
                assert(out@[k] == with_r[k]);
                assert(with_r[k] == with_g[k]);
            } else if k < 24 * i + 16 {
                let p = k - 24 * i - 8;
                assert(with_r[with_g.len() + p] == bit_code(bit_is_high(rgb.r, (7 - p) as u8)));
                assert(out@[k] == with_r[k]);
            } else {
                let p = k - 24 * i - 16;
                assert(out@[with_r.len() + p] == bit_code(bit_is_high(rgb.b, (7 - p) as u8)));
            }
        }
        i += 1;
    }
    let len: usize = out.len();
    if len > 0 {
        let last = out[len - 1];
        out[len - 1] = PulseCode { length2: 0, ..last };
    }
    assert(out@ =~= encoded(data@));
    out
}

} // verus!
