//! The rules of one turn.
//!
//! Both combatants choose their move without seeing the other's. The turn is
//! then resolved in one go: food is eaten first, and then each attack is
//! held against the other side's move of the same turn. A dodge takes its
//! maker out of the way of a blow to the same side and of no other; whoever
//! eats or stands still is hit by any blow.

use vstd::prelude::*;
use crate::combat::action::{enemy_can, enemy_may, player_can, player_may, Action};
use crate::combat::enemy::Enemy;
use crate::combat::health::{damaged, healed};
use crate::error::GameError;
use crate::items::Item;
use crate::player::Player;

verus! {

/// A duel as the rules see it: the health of both sides, what the player
/// carries and how hard the enemy hits.
pub struct Duel {
    /// The player's health
    pub player_health: nat,
    /// The most the player can be healed to
    pub player_max: nat,
    /// What the player carries
    pub inventory: Seq<Item>,
    /// The enemy's health
    pub enemy_health: nat,
    /// The hit points that a landed blow of the enemy takes
    pub enemy_attack: nat,
}

/// What a turn did, in hit points. A side that was not hit has `None`; a
/// side that was hit has the hit points it lost, which is less than the
/// blow's strength where the blow took the last of them.
#[derive(Clone, Copy, Debug, PartialEq, Eq)]
pub struct TurnEffects {
    /// The hit points the player gained by eating, if they ate
    pub player_healed: Option<u32>,
    /// The hit points the player lost to the enemy's blow, if it landed
    pub player_hit: Option<u32>,
    /// The hit points the enemy lost to the player's blow, if it landed
    pub enemy_hit: Option<u32>,
}

/// The duel between `player` and `enemy`.
pub open spec fn duel_of(player: Player, enemy: Enemy) -> Duel {
    Duel {
        player_health: player.health@,
        player_max: player.max_health@,
        inventory: player.inventory@,
        enemy_health: enemy.health@,
        enemy_attack: enemy.attack as nat,
    }
}

impl Duel {
    /// Whether both moves can be made: the player's with what the player
    /// carries, the enemy's by an enemy.
    pub open spec fn allows(self, player_action: Action, enemy_action: Action) -> bool {
        player_may(self.inventory, player_action) && enemy_may(enemy_action)
    }

    /// The player's health once the player's own move is made: raised by
    /// the food eaten, as far as the maximum allows, and unchanged by any
    /// other move.
    pub open spec fn fed(self, player_action: Action) -> nat {
        match player_action {
            Action::EatFood(i) => healed(
                self.player_health,
                self.inventory[i as int].healing(),
                self.player_max,
            ),
            _ => self.player_health,
        }
    }

    /// What the player carries once the player's own move is made: the food
    /// eaten is gone.
    pub open spec fn carried(self, player_action: Action) -> Seq<Item> {
        match player_action {
            Action::EatFood(i) => self.inventory.remove(i as int),
            _ => self.inventory,
        }
    }

    /// The strength of the blow that the player lands on the enemy: that of
    /// the weapon used if the attack lands, and nothing otherwise.
    pub open spec fn player_blow(self, player_action: Action, enemy_action: Action) -> nat {
        match player_action.item() {
            Some(i) if player_action.lands_on(enemy_action) => self.inventory[i as int].striking(),
            _ => 0,
        }
    }

    /// The strength of the blow that the enemy lands on the player.
    pub open spec fn enemy_blow(self, player_action: Action, enemy_action: Action) -> nat {
        if enemy_action.lands_on(player_action) {
            self.enemy_attack
        } else {
            0
        }
    }

    /// The duel after a turn on which both moves could be made.
    pub open spec fn resolve(self, player_action: Action, enemy_action: Action) -> Duel {
        Duel {
            player_health: damaged(
                self.fed(player_action),
                self.enemy_blow(player_action, enemy_action),
            ),
            player_max: self.player_max,
            inventory: self.carried(player_action),
            enemy_health: damaged(
                self.enemy_health,
                self.player_blow(player_action, enemy_action),
            ),
            enemy_attack: self.enemy_attack,
        }
    }

    /// What the turn did to both sides, in hit points.
    pub open spec fn effects(self, player_action: Action, enemy_action: Action) -> TurnEffects {
        let after = self.resolve(player_action, enemy_action);
        TurnEffects {
            player_healed: if player_action is EatFood {
                Some((self.fed(player_action) - self.player_health) as u32)
            } else {
                None
            },
            player_hit: if enemy_action.lands_on(player_action) {
                Some((self.fed(player_action) - after.player_health) as u32)
            } else {
                None
            },
            enemy_hit: if player_action.lands_on(enemy_action) {
                Some((self.enemy_health - after.enemy_health) as u32)
            } else {
                None
            },
        }
    }
}

/// Resolves one turn: applies both moves to both combatants and reports
/// what they did.
///
/// Where one of the moves cannot be made (it names an item that is not
/// there, or one of the wrong kind), the turn is rejected with
/// [`GameError::InvalidAction`] and nothing changes.
pub fn resolve_turn(
    player: &mut Player,
    enemy: &mut Enemy,
    player_action: Action,
    enemy_action: Action,
) -> (result: Result<TurnEffects, GameError>)
    requires
        old(player).health@ <= old(player).max_health@,
    ensures
        result is Ok <==> duel_of(*old(player), *old(enemy)).allows(player_action, enemy_action),
        result matches Err(error) ==> error == GameError::InvalidAction && *final(player) == *old(
            player,
        ) && *final(enemy) == *old(enemy),
        result matches Ok(effects) ==> {
            &&& duel_of(*final(player), *final(enemy)) == duel_of(*old(player), *old(enemy)).resolve(
                player_action,
                enemy_action,
            )
            &&& effects == duel_of(*old(player), *old(enemy)).effects(player_action, enemy_action)
            &&& final(player).health@ <= final(player).max_health@
            &&& final(player).room == old(player).room
            &&& final(player).room_graph == old(player).room_graph
            &&& final(player).max_health == old(player).max_health
            &&& final(enemy).name == old(enemy).name
            &&& final(enemy).max_health == old(enemy).max_health
            &&& final(enemy).attack == old(enemy).attack
            &&& final(enemy).defense == old(enemy).defense
            &&& final(enemy).seed == old(enemy).seed
        },
{
    if !player_can(&player.inventory, player_action) || !enemy_can(enemy_action) {
        return Err(GameError::InvalidAction);
    }
    let ghost before = duel_of(*player, *enemy);
    let player_blow: u32 = match player_action.item_index() {
        Some(i) if player_action.hits(enemy_action) => match &player.inventory[i] {
            Item::Weapon(weapon) => weapon.damage,
            Item::Food(_) => 0,
        },
        _ => 0,
    };
    let enemy_blow: u32 = if enemy_action.hits(player_action) {
        enemy.attack
    } else {
        0
    };
    let start = player.health.points();
    let mut player_healed: Option<u32> = None;
    if let Action::EatFood(i) = player_action {
        let amount: u32 = match &player.inventory[i] {
            Item::Food(food) => food.heals_for,
            Item::Weapon(_) => 0,
        };
        let max = player.max_health;
        player.health.heal_to_max(amount, max);
        player.inventory.remove(i);
        player_healed = Some(player.health.points() - start);
    }
    assert(player.health@ == before.fed(player_action));
    assert(player.inventory@ =~= before.carried(player_action));
    let fed = player.health.points();
    let enemy_start = enemy.health.points();
    player.health.damage(enemy_blow);
    enemy.health.damage(player_blow);
    let player_hit: Option<u32> = if enemy_action.hits(player_action) {
        Some(fed - player.health.points())
    } else {
        None
    };
    let enemy_hit: Option<u32> = if player_action.hits(enemy_action) {
        Some(enemy_start - enemy.health.points())
    } else {
        None
    };
    Ok(TurnEffects { player_healed, player_hit, enemy_hit })
}

} // verus!
