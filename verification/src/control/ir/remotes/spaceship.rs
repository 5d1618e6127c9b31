//! The remote control that comes with a star projector lamp.

use vstd::prelude::*;

use crate::control::ir::Actions;
use crate::control::ir::remotes::RemoteControlVariant;

verus! {

/// The remote control of the star projector.
pub struct SpaceShipRemote {}

impl RemoteControlVariant for SpaceShipRemote {
    /// The buttons of the remote; a code that no button sends is
    /// `Unknown`.
    open spec fn action_of(cmd: u8) -> Actions {
        if cmd == 31 {
            Actions::Power
        } else if cmd == 0 {
            Actions::Up
        } else if cmd == 8 {
            Actions::Down
        } else if cmd == 2 {
            Actions::VolUp
        } else if cmd == 10 {
            Actions::VolDown
        } else if cmd == 5 {
            Actions::Previous
        } else if cmd == 7 {
            Actions::Next
        } else if cmd == 6 {
            Actions::Sound
        } else if cmd == 4 {
            Actions::Shift
        } else if cmd == 11 {
            Actions::Beat
        } else if cmd == 12 {
            Actions::Fade
        } else if cmd == 14 {
            Actions::Light1
        } else if cmd == 15 {
            Actions::Light2
        } else if cmd == 13 {
            Actions::LightMixed
        } else if cmd == 16 {
            Actions::Mute
        } else if cmd == 17 {
            Actions::Button1
        } else if cmd == 18 {
            Actions::Button2
        } else if cmd == 19 {
            Actions::Button3
        } else if cmd == 20 {
            Actions::Time1
        } else if cmd == 21 {
            Actions::Time2
        } else if cmd == 22 {
            Actions::Time3
        } else if cmd == 23 {
            Actions::Time4
        } else {
            Actions::Unknown
        }
    }

    fn cmd_to_action(cmd: u8) -> (out: Actions) {
        match cmd {
            31 => Actions::Power,
            0 => Actions::Up,
            8 => Actions::Down,
            2 => Actions::VolUp,
            10 => Actions::VolDown,
            5 => Actions::Previous,
            7 => Actions::Next,
            6 => Actions::Sound,
            4 => Actions::Shift,
            11 => Actions::Beat,
            12 => Actions::Fade,
            14 => Actions::Light1,
            15 => Actions::Light2,
            13 => Actions::LightMixed,
            16 => Actions::Mute,
            17 => Actions::Button1,
            18 => Actions::Button2,
            19 => Actions::Button3,
            20 => Actions::Time1,
            21 => Actions::Time2,
            22 => Actions::Time3,
            23 => Actions::Time4,
            _ => Actions::Unknown,
        }
    }
}

} // verus!
