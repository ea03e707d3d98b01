//! The enemy and the way it makes up its mind.
//!
//! The enemy's move is a function of what it can see: its own health, the
//! player's health and the number of the turn. Chance enters only through
//! the seed the enemy was made with, so a duel can be replayed move by move.
//! The enemy grows bolder as the player weakens and more careful as it
//! weakens itself, and on every fourth turn it commits to a straight thrust.

use vstd::prelude::*;
use vstd::string::StringExecFns;
use crate::combat::action::{enemy_may, Action};
use crate::combat::health::Health;
use crate::config::THRUST_PERIOD;

verus! {

/// The multiplier of the seed in the enemy's draw.
pub const DRAW_MULTIPLIER: u128 = 6364136223846793005;

/// What each turn adds to the enemy's draw.
pub const DRAW_STEP: u128 = 1442695040888963407;

/// A crew member who stands in the player's way.
#[derive(Debug)]
pub struct Enemy {
    /// What the enemy is called.
    pub name: &'static str,
    /// The hit points the enemy has left.
    pub health: Health,
    /// The hit points the enemy started with.
    pub max_health: Health,
    /// The hit points that a landed blow of the enemy takes.
    pub attack: u32,
    /// How much the enemy is inclined to dodge even when unhurt.
    pub defense: u32,
    /// Where the enemy's sequence of draws starts.
    pub seed: u64,
}

/// How far `health` is below `max`.
pub open spec fn missing(health: nat, max: nat) -> nat {
    if health >= max {
        0
    } else {
        (max - health) as nat
    }
}

/// Whether a combatant is visibly in a bad way: at a quarter of its full
/// health or less.
pub open spec fn clearly_low(health: nat, max: nat) -> bool {
    4 * health <= max
}

/// The weight the enemy gives to each of its three attacks, against a
/// player with `health` hit points out of `max`.
pub open spec fn attack_weight(health: nat, max: nat) -> nat {
    if clearly_low(health, max) {
        2 * (1 + missing(health, max))
    } else {
        1 + missing(health, max)
    }
}

/// The weight an enemy with `health` hit points out of `max` gives to each
/// of its two dodges.
pub open spec fn dodge_weight(defense: nat, health: nat, max: nat) -> nat {
    defense + missing(health, max)
}

/// The number the enemy draws on turn `turn`.
#[verifier::opaque]
pub open spec fn draw(seed: u64, turn: u64) -> u64 {
    let mixed = ((seed * DRAW_MULTIPLIER + turn * DRAW_STEP + 1) % 0x1_0000_0000_0000_0000) as u64;
    mixed ^ (mixed >> 29)
}

/// The move that the number `drawn` selects when each attack weighs
/// `attack` and each dodge weighs `dodge`: the five moves lie side by side
/// on a line, each as long as its weight, and the draw points at one.
#[verifier::opaque]
pub open spec fn weighted_pick(drawn: nat, attack: nat, dodge: nat) -> Action {
    let point = drawn % (3 * attack + 2 * dodge);
    if point < attack {
        Action::AttackLeft(0)
    } else if point < 2 * attack {
        Action::AttackStraight(0)
    } else if point < 3 * attack {
        Action::AttackRight(0)
    } else if point < 3 * attack + dodge {
        Action::DodgeLeft
    } else {
        Action::DodgeRight
    }
}

/// The move on turn `turn` of an enemy made with `seed` and `defense` that
/// has `enemy_health` hit points out of `enemy_max`, against a player with
/// `player_health` hit points out of `player_max`: a straight thrust on
/// every turn whose number is a multiple of the thrust period, and else
/// the move that the enemy's draw selects by the weights.
pub open spec fn policy_move(
    seed: u64,
    defense: nat,
    enemy_health: nat,
    enemy_max: nat,
    player_health: nat,
    player_max: nat,
    turn: u64,
) -> Action {
    if turn % THRUST_PERIOD == 0 {
        Action::AttackStraight(0)
    } else {
        weighted_pick(
            draw(seed, turn) as nat,
            attack_weight(player_health, player_max),
            dodge_weight(defense, enemy_health, enemy_max),
        )
    }
}

impl Enemy {
    /// An enemy is fit for a duel when its health is within its maximum and
    /// its blows take at least one hit point.
    pub open spec fn wf(self) -> bool {
        &&& self.health@ <= self.max_health@
        &&& self.attack > 0
    }

    /// Whether the enemy is fit for a duel.
    pub fn in_order(&self) -> (ok: bool)
        ensures
            ok == self.wf(),
    {
        self.health.points() <= self.max_health.points() && self.attack > 0
    }

    /// The move of the enemy on turn `turn` against a player with
    /// `player_health` hit points out of `player_max`.
    pub open spec fn policy(self, player_health: nat, player_max: nat, turn: u64) -> Action {
        policy_move(
            self.seed,
            self.defense as nat,
            self.health@,
            self.max_health@,
            player_health,
            player_max,
            turn,
        )
    }

    /// What the player is told when the enemy makes a move.
    pub open spec fn description(self, action: Action) -> Seq<char> {
        "The "@ + self.name@ + match action {
            Action::AttackLeft(_) => " attacks to the left"@,
            Action::AttackStraight(_) => " attacks in front of them"@,
            Action::AttackRight(_) => " attacks to the right"@,
            Action::DodgeLeft => " dodges to the left"@,
            Action::DodgeRight => " dodges to the right"@,
            _ => " does nothing"@,
        }
    }

    /// Get a [`String`] describing the enemy performing a move.
    pub fn describe_combat_action(&self, action: Action) -> (text: String)
        ensures
            text@ == self.description(action),
    {
        let mut text = String::from_str("The ");
        text.append(self.name);
        text.append(
            match action {
                Action::AttackLeft(_) => " attacks to the left",
                Action::AttackStraight(_) => " attacks in front of them",
                Action::AttackRight(_) => " attacks to the right",
                Action::DodgeLeft => " dodges to the left",
                Action::DodgeRight => " dodges to the right",
                _ => " does nothing",
            },
        );
        assert(text@ =~= self.description(action));
        text
    }

    /// An unhurt enemy with `max_health` hit points.
    pub fn new(name: &'static str, max_health: u32, attack: u32, defense: u32, seed: u64) -> (enemy:
        Enemy)
        ensures
            enemy.name == name,
            enemy.health@ == max_health,
            enemy.max_health@ == max_health,
            enemy.attack == attack,
            enemy.defense == defense,
            enemy.seed == seed,
    {
        Enemy {
            name,
            health: Health::new(max_health),
            max_health: Health::new(max_health),
            attack,
            defense,
            seed,
        }
    }

    /// Picks the enemy's move for turn `turn`.
    pub fn choose_action(&self, player_health: Health, player_max_health: Health, turn: u64) -> (action:
        Action)
        ensures
            action == self.policy(player_health@, player_max_health@, turn),
            enemy_may(action),
    {
        if turn % THRUST_PERIOD == 0 {
            return Action::AttackStraight(0);
        }
        proof {
            reveal(weighted_pick);
        }
        let attack = weigh_attack(player_health, player_max_health);
        let dodge = weigh_dodge(self.defense, self.health, self.max_health);
        let drawn = draw_number(self.seed, turn);
        let point = drawn % (3 * attack + 2 * dodge);
        if point < attack {
            Action::AttackLeft(0)
        } else if point < 2 * attack {
            Action::AttackStraight(0)
        } else if point < 3 * attack {
            Action::AttackRight(0)
        } else if point < 3 * attack + dodge {
            Action::DodgeLeft
        } else {
            Action::DodgeRight
        }
    }
}

fn lacking(health: Health, max: Health) -> (gap: u64)
    ensures
        gap == missing(health@, max@),
        gap <= u32::MAX,
{
    if health.points() >= max.points() {
        0
    } else {
        (max.points() - health.points()) as u64
    }
}

fn weigh_attack(health: Health, max: Health) -> (weight: u64)
    ensures
        weight == attack_weight(health@, max@),
        1 <= weight <= 0x2_0000_0000,
{
    let base: u64 = 1 + lacking(health, max);
    if 4 * (health.points() as u64) <= max.points() as u64 {
        2 * base
    } else {
        base
    }
}

fn weigh_dodge(defense: u32, health: Health, max: Health) -> (weight: u64)
    ensures
        weight == dodge_weight(defense as nat, health@, max@),
        weight <= 0x2_0000_0000,
{
    defense as u64 + lacking(health, max)
}

fn draw_number(seed: u64, turn: u64) -> (drawn: u64)
    ensures
        drawn == draw(seed, turn),
{
    proof {
        reveal(draw);
    }
    let sum: u128 = seed as u128 * DRAW_MULTIPLIER + turn as u128 * DRAW_STEP + 1;
    let mixed: u64 = (sum % 0x1_0000_0000_0000_0000) as u64;
    mixed ^ (mixed >> 29)
}

} // verus!
