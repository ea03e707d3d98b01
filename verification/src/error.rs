//! What can go wrong while the game is played.

use vstd::prelude::*;

verus! {

/// The ways in which a requested move can be refused.
#[derive(Clone, Copy, Debug, PartialEq, Eq, Structural)]
pub enum GameError {
    /// The action names an item that is not there, or that is of the wrong
    /// kind for it. The turn is rejected and nothing has changed.
    InvalidAction,
    /// The front end answered an option list with an index that was not on
    /// offer. This is a defect of the front end, not a mistake of the player.
    InvalidChoiceIndex,
}

impl GameError {
    /// A short sentence for whoever has to read the error.
    pub fn message(&self) -> (text: &'static str)
        ensures
            text@ == match self {
                GameError::InvalidAction => "That cannot be done with that item"@,
                GameError::InvalidChoiceIndex => "The menu returned a choice that was not offered"@,
            },
    {
        match self {
            GameError::InvalidAction => "That cannot be done with that item",
            GameError::InvalidChoiceIndex => "The menu returned a choice that was not offered",
        }
    }
}

} // verus!
