//! An infrared remote control: from received commands to actions.

use vstd::prelude::*;

pub mod executor;
pub mod remotes;

verus! {

/// The divider of the receiving channel's clock: a measured pulse length
/// times this is the length in cycles of the undivided clock.
pub const RMT_CLOCK_DIVIDER: u8 = 255;

/// What a button of a remote control asks for.
#[derive(Copy, Clone, Debug, PartialEq, Eq, Structural)]
pub enum Actions {
    Power,
    Up,
    Down,
    Sound,
    Next,
    Previous,
    Mute,
    VolUp,
    VolDown,
    Light1,
    Light2,
    LightMixed,
    Button1,
    Button2,
    Button3,
    Beat,
    Time1,
    Time2,
    Time3,
    Time4,
    Shift,
    Fade,
    Unknown,
}

/// A pulse length as the decoder counts it: in cycles of the undivided
/// clock.
pub fn coerce(value: u16) -> (out: u32)
    ensures
        out == value * RMT_CLOCK_DIVIDER,
{
    assert(value * RMT_CLOCK_DIVIDER <= 0xffff * 255) by (nonlinear_arith)
        requires
            value <= 0xffff,
            RMT_CLOCK_DIVIDER == 255,
    ;
    value as u32 * RMT_CLOCK_DIVIDER as u32
}

} // verus!
