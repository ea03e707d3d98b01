//! The moves a combatant can make on a turn, and which of them a combatant
//! is in a position to make.

use vstd::prelude::*;
use crate::items::Item;

verus! {

/// Where a blow is aimed.
#[derive(Clone, Copy, Debug, PartialEq, Eq, Structural)]
pub enum Direction {
    /// To the left.
    Left,
    /// Straight ahead: a thrust that cannot be sidestepped.
    Straight,
    /// To the right.
    Right,
}

/// One move of one combatant. The number in an attack or in `EatFood` is a
/// position in the inventory of whoever makes the move.
#[derive(Clone, Copy, Debug, PartialEq, Eq, Structural)]
pub enum Action {
    /// Strike to the left with the weapon at the given position.
    AttackLeft(usize),
    /// Thrust straight ahead with the weapon at the given position.
    AttackStraight(usize),
    /// Strike to the right with the weapon at the given position.
    AttackRight(usize),
    /// Eat the food at the given position.
    EatFood(usize),
    /// Step aside to the left.
    DodgeLeft,
    /// Step aside to the right.
    DodgeRight,
    /// Stand still.
    Nothing,
}

impl Action {
    /// Where the move strikes, if it is an attack.
    pub open spec fn aim(self) -> Option<Direction> {
        match self {
            Action::AttackLeft(_) => Some(Direction::Left),
            Action::AttackStraight(_) => Some(Direction::Straight),
            Action::AttackRight(_) => Some(Direction::Right),
            _ => None,
        }
    }

    /// The inventory position that the move refers to, if it refers to one.
    pub open spec fn item(self) -> Option<usize> {
        match self {
            Action::AttackLeft(i) => Some(i),
            Action::AttackStraight(i) => Some(i),
            Action::AttackRight(i) => Some(i),
            Action::EatFood(i) => Some(i),
            _ => None,
        }
    }

    /// Whether the move takes its maker out of the way of a blow aimed at
    /// `direction`: a dodge does so for a blow to its own side, and nothing
    /// does so for a straight thrust.
    pub open spec fn evades(self, direction: Direction) -> bool {
        ||| self == Action::DodgeLeft && direction == Direction::Left
        ||| self == Action::DodgeRight && direction == Direction::Right
    }

    /// Whether the move is an attack that lands on an opponent who answers
    /// it with `defence` on the same turn.
    pub open spec fn lands_on(self, defence: Action) -> bool {
        match self.aim() {
            Some(direction) => !defence.evades(direction),
            None => false,
        }
    }

    /// The attack with the weapon at position `weapon`, aimed at
    /// `direction`.
    pub fn attack(direction: Direction, weapon: usize) -> (action: Action)
        ensures
            action.aim() == Some(direction),
            action.item() == Some(weapon),
    {
        match direction {
            Direction::Left => Action::AttackLeft(weapon),
            Direction::Straight => Action::AttackStraight(weapon),
            Direction::Right => Action::AttackRight(weapon),
        }
    }

    /// Where the move strikes, if it is an attack.
    pub fn direction(&self) -> (aim: Option<Direction>)
        ensures
            aim == self.aim(),
    {
        match self {
            Action::AttackLeft(_) => Some(Direction::Left),
            Action::AttackStraight(_) => Some(Direction::Straight),
            Action::AttackRight(_) => Some(Direction::Right),
            _ => None,
        }
    }

    /// The inventory position that the move refers to, if it refers to one.
    pub fn item_index(&self) -> (index: Option<usize>)
        ensures
            index == self.item(),
    {
        match self {
            Action::AttackLeft(i) => Some(*i),
            Action::AttackStraight(i) => Some(*i),
            Action::AttackRight(i) => Some(*i),
            Action::EatFood(i) => Some(*i),
            _ => None,
        }
    }

    /// Whether the move is an attack that lands on an opponent who answers
    /// it with `defence` on the same turn.
    pub fn hits(&self, defence: Action) -> (landed: bool)
        ensures
            landed == self.lands_on(defence),
    {
        match self.direction() {
            Some(Direction::Left) => defence != Action::DodgeLeft,
            Some(Direction::Right) => defence != Action::DodgeRight,
            Some(Direction::Straight) => true,
            None => false,
        }
    }
}

/// Whether a player who carries `inventory` can make the move: an attack
/// needs a weapon at its position, eating needs food at its position, and
/// the other moves are always possible.
pub open spec fn player_may(inventory: Seq<Item>, action: Action) -> bool {
    match action {
        Action::EatFood(i) => i < inventory.len() && inventory[i as int] is Food,
        Action::AttackLeft(i) | Action::AttackStraight(i) | Action::AttackRight(i) => i
            < inventory.len() && inventory[i as int] is Weapon,
        _ => true,
    }
}

/// Whether an enemy can make the move. An enemy carries nothing: it cannot
/// eat, and it strikes with the one attack it has, which is at position 0.
pub open spec fn enemy_may(action: Action) -> bool {
    match action {
        Action::EatFood(_) => false,
        Action::AttackLeft(i) | Action::AttackStraight(i) | Action::AttackRight(i) => i == 0,
        _ => true,
    }
}

/// Whether a player who carries `inventory` can make the move.
pub fn player_can(inventory: &Vec<Item>, action: Action) -> (possible: bool)
    ensures
        possible == player_may(inventory@, action),
{
    match action {
        Action::EatFood(i) => i < inventory.len() && inventory[i].is_food(),
        Action::AttackLeft(i) | Action::AttackStraight(i) | Action::AttackRight(i) => i
            < inventory.len() && !inventory[i].is_food(),
        _ => true,
    }
}

/// Whether an enemy can make the move.
pub fn enemy_can(action: Action) -> (possible: bool)
    ensures
        possible == enemy_may(action),
{
    match action {
        Action::EatFood(_) => false,
        Action::AttackLeft(i) | Action::AttackStraight(i) | Action::AttackRight(i) => i == 0,
        _ => true,
    }
}

} // verus!
