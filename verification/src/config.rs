//! The numbers the game starts from.

use vstd::prelude::*;

verus! {

/// The hit points a fresh player has.
pub const PLAYER_START_HEALTH: u32 = 10;

/// The most hit points a fresh player can be healed to.
pub const PLAYER_START_MAX_HEALTH: u32 = 10;

/// The enemy commits to a straight thrust on every turn whose number is a
/// multiple of this.
pub const THRUST_PERIOD: u64 = 4;

} // verus!
