//! What holds of every duel, whatever the moves.

use vstd::prelude::*;
use crate::combat::action::{enemy_may, Action, Direction};
use crate::combat::battle::{play, BattleState};
use crate::combat::enemy::{attack_weight, dodge_weight, weighted_pick, Enemy};
use crate::combat::health::{damaged, healed};
use crate::combat::resolve::Duel;
use crate::config::THRUST_PERIOD;
use crate::items::{lemma_reserve_without, Item};

verus! {

/// Damage never raises health and never takes it below zero: what is left
/// is the difference where the damage is less than the health, and nothing
/// otherwise.
pub proof fn law_damage_floors_at_zero(health: nat, amount: nat)
    ensures
        0 <= damaged(health, amount) <= health,
        damaged(health, amount) == if health - amount > 0 {
            health - amount
        } else {
            0
        },
{
}

/// Healing a health that is within its maximum never lowers it and never
/// takes it beyond the maximum: the result is the sum where that is within
/// the maximum, and the maximum otherwise.
pub proof fn law_healing_stops_at_max(health: nat, amount: nat, max: nat)
    requires
        health <= max,
    ensures
        health <= healed(health, amount, max) <= max,
        healed(health, amount, max) == if health + amount < max {
            health + amount
        } else {
            max
        },
{
}

/// A dodge to the side that a blow is aimed at takes all of the blow: the
/// side that dodged keeps the health it had.
pub proof fn law_same_side_dodge_negates(duel: Duel, player_action: Action, enemy_action: Action)
    requires
        duel.allows(player_action, enemy_action),
    ensures
        enemy_action.aim() == Some(Direction::Left) && player_action == Action::DodgeLeft
            ==> duel.resolve(player_action, enemy_action).player_health == duel.player_health,
        enemy_action.aim() == Some(Direction::Right) && player_action == Action::DodgeRight
            ==> duel.resolve(player_action, enemy_action).player_health == duel.player_health,
        player_action.aim() == Some(Direction::Left) && enemy_action == Action::DodgeLeft
            ==> duel.resolve(player_action, enemy_action).enemy_health == duel.enemy_health,
        player_action.aim() == Some(Direction::Right) && enemy_action == Action::DodgeRight
            ==> duel.resolve(player_action, enemy_action).enemy_health == duel.enemy_health,
{
}

/// A blow that is not answered by a dodge to its own side lands in full: a
/// straight thrust whatever the answer, and a blow to one side when the
/// other side dodges the other way, eats, attacks or stands still. The
/// player loses the enemy's strength from the health they have after their
/// own move, and the enemy loses the strength of the weapon used.
pub proof fn law_undodged_blow_lands_in_full(
    duel: Duel,
    player_action: Action,
    enemy_action: Action,
)
    requires
        duel.allows(player_action, enemy_action),
    ensures
        enemy_action.aim() matches Some(direction) && !player_action.evades(direction)
            ==> duel.resolve(player_action, enemy_action).player_health == damaged(
            duel.fed(player_action),
            duel.enemy_attack,
        ),
        player_action.aim() matches Some(direction) && !enemy_action.evades(direction)
            ==> duel.resolve(player_action, enemy_action).enemy_health == damaged(
            duel.enemy_health,
            duel.inventory[player_action.item()->Some_0 as int].striking(),
        ),
        forall|answer: Action| !(#[trigger] answer.evades(Direction::Straight)),
        forall|answer: Action|
            answer != Action::DodgeLeft ==> !(#[trigger] answer.evades(Direction::Left)),
        forall|answer: Action|
            answer != Action::DodgeRight ==> !(#[trigger] answer.evades(Direction::Right)),
{
}

/// Whether every weapon among `items` takes at least one hit point.
pub open spec fn weapons_bite(items: Seq<Item>) -> bool {
    forall|i: int| 0 <= i < items.len() && items[i] is Weapon ==> (#[trigger] items[i]).striking() > 0
}

/// Whether a blow lands on every turn of `script`.
pub open spec fn blow_on_every_turn(script: Seq<(Action, Action)>) -> bool {
    forall|k: int|
        0 <= k < script.len() ==> (#[trigger] script[k]).0.lands_on(script[k].1) || script[k].1.lands_on(
            script[k].0,
        )
}

/// The hit points that can still be lost in a duel, on both sides.
pub open spec fn hit_points_at_stake(duel: Duel) -> nat {
    duel.stamina() + duel.enemy_health
}

/// No battle goes on for ever while blows land. Where the enemy's blows and
/// every weapon of the player take at least one hit point, a script on
/// every turn of which a blow lands can be played for no more turns than
/// there are hit points at stake, and one more: each turn after the first
/// starts with both sides standing and costs one of them a hit point.
pub proof fn law_battle_ends(duel: Duel, script: Seq<(Action, Action)>)
    requires
        duel.enemy_attack > 0,
        weapons_bite(duel.inventory),
        blow_on_every_turn(script),
        play(duel, script) is Some,
    ensures
        script.len() + hit_points_at_stake(play(duel, script)->Some_0) <= hit_points_at_stake(duel)
            + 1,
        script.len() <= hit_points_at_stake(duel) + 1,
        weapons_bite(play(duel, script)->Some_0.inventory),
        play(duel, script)->Some_0.enemy_attack == duel.enemy_attack,
    decreases script.len(),
{
    if script.len() > 0 {
        let earlier = script.drop_last();
        let (player_action, enemy_action) = script.last();
        assert(blow_on_every_turn(earlier)) by {
            assert forall|k: int| 0 <= k < earlier.len() implies (#[trigger] earlier[k]).0.lands_on(
                earlier[k].1,
            ) || earlier[k].1.lands_on(earlier[k].0) by {
                assert(earlier[k] == script[k]);
            }
        }
        law_battle_ends(duel, earlier);
        let before = play(duel, earlier)->Some_0;
        let after = before.resolve(player_action, enemy_action);
        assert(script[script.len() - 1] == script.last());
        if let Action::EatFood(i) = player_action {
            lemma_reserve_without(before.inventory, i as int);
            assert forall|j: int|
                0 <= j < after.inventory.len() && after.inventory[j] is Weapon implies (
            #[trigger] after.inventory[j]).striking() > 0 by {
                if j < i {
                    assert(after.inventory[j] == before.inventory[j]);
                } else {
                    assert(after.inventory[j] == before.inventory[j + 1]);
                }
            }
        }
        if script.len() > 1 {
            assert(before.status() is Ongoing);
            if player_action.lands_on(enemy_action) {
                let i = player_action.item()->Some_0;
                assert(before.inventory[i as int].striking() > 0);
            }
        }
    }
}

/// The weaker the player, the more the enemy is inclined to attack.
pub proof fn law_enemy_presses_the_weak(weaker: nat, stronger: nat, max: nat)
    requires
        weaker < stronger <= max,
    ensures
        attack_weight(weaker, max) > attack_weight(stronger, max),
{
}

/// The weaker the enemy, the more it is inclined to dodge.
pub proof fn law_enemy_guards_when_hurt(defense: nat, weaker: nat, stronger: nat, max: nat)
    requires
        weaker < stronger <= max,
    ensures
        dodge_weight(defense, weaker, max) > dodge_weight(defense, stronger, max),
{
}

/// The enemy only ever attacks or dodges, with moves that an enemy can
/// make, and on every turn whose number is a multiple of the thrust period
/// it thrusts straight ahead.
pub proof fn law_enemy_policy(enemy: Enemy, player_health: nat, player_max: nat, turn: u64)
    ensures
        enemy_may(enemy.policy(player_health, player_max, turn)),
        enemy.policy(player_health, player_max, turn) !is Nothing,
        enemy.policy(player_health, player_max, turn) !is EatFood,
        turn % THRUST_PERIOD == 0 ==> enemy.policy(player_health, player_max, turn)
            == Action::AttackStraight(0),
{
    reveal(weighted_pick);
}

/// A battle is lost as soon as the player is down, whatever became of the
/// enemy, and won only while the player stands.
pub proof fn law_loss_comes_first(duel: Duel)
    ensures
        duel.player_health == 0 ==> duel.status() == BattleState::PlayerLoss,
        duel.status() == BattleState::PlayerWin ==> duel.player_health > 0 && duel.enemy_health == 0,
        duel.status() == BattleState::Ongoing <==> duel.player_health > 0 && duel.enemy_health > 0,
{
}

} // verus!
