//! The remote controls that are known, by their address.

use vstd::prelude::*;

use crate::control::ir::Actions;
use crate::control::ir::remotes::spaceship::SpaceShipRemote;

pub mod spaceship;

verus! {

/// The address that the remote of the star projector sends.
pub const SPACESHIP_ADDRESS: u16 = 61184;

/// One model of remote control: which command code means which action.
pub trait RemoteControlVariant {
    /// The action that a command code means.
    spec fn action_of(cmd: u8) -> Actions;

    /// Looks a command code up.
    fn cmd_to_action(cmd: u8) -> (out: Actions)
        ensures
            out == Self::action_of(cmd),
    ;
}

/// The action that a received command means: that of the remote with the
/// command's address, or `None` where the address is not known.
pub fn get_action_from_command(addr: u16, cmd: u8) -> (out: Option<Actions>)
    ensures
        out == (if addr == SPACESHIP_ADDRESS {
            Some(SpaceShipRemote::action_of(cmd))
        } else {
            None
        }),
{
    if addr == SPACESHIP_ADDRESS {
        Some(SpaceShipRemote::cmd_to_action(cmd))
    } else {
        None
    }
}

} // verus!
