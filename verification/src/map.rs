//! What there is to do in a room besides moving on.

use vstd::prelude::*;

verus! {

/// Something the player can do in one particular room.
#[derive(Debug)]
pub struct RoomAction {
    /// How the action is offered to the player.
    pub prompt: &'static str,
    /// What the player is told once it is done.
    pub message: &'static str,
}

} // verus!
