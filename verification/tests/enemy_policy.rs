use text_adventure::combat::action::{enemy_can, Action};
use text_adventure::combat::enemy::Enemy;
use text_adventure::combat::health::Health;
use text_adventure::config::THRUST_PERIOD;

fn moves(enemy: &Enemy, player: u32, player_max: u32, turns: std::ops::RangeInclusive<u64>) -> Vec<Action> {
    turns.map(|turn| enemy.choose_action(Health::new(player), Health::new(player_max), turn)).collect()
}

#[test]
fn new_enemy_is_unhurt() {
    let enemy = Enemy::new("Guard", 8, 3, 1, 42);
    assert_eq!(enemy.name, "Guard");
    assert_eq!(enemy.health.points(), 8);
    assert_eq!(enemy.max_health.points(), 8);
    assert_eq!(enemy.attack, 3);
    assert_eq!(enemy.defense, 1);
    assert_eq!(enemy.seed, 42);
}

#[test]
fn policy_is_reproducible() {
    let first = Enemy::new("Guard", 8, 3, 1, 42);
    let second = Enemy::new("Guard", 8, 3, 1, 42);
    assert_eq!(moves(&first, 10, 10, 1..=40), moves(&second, 10, 10, 1..=40));
}

#[test]
fn policy_of_an_even_match() {
    let enemy = Enemy::new("Guard", 8, 3, 1, 42);
    assert_eq!(
        moves(&enemy, 10, 10, 1..=12),
        vec![
            Action::AttackLeft(0),
            Action::DodgeLeft,
            Action::DodgeLeft,
            Action::AttackStraight(0),
            Action::DodgeRight,
            Action::DodgeLeft,
            Action::AttackStraight(0),
            Action::AttackStraight(0),
            Action::AttackStraight(0),
            Action::DodgeRight,
            Action::DodgeLeft,
            Action::AttackStraight(0),
        ]
    );
}

#[test]
fn policy_depends_on_the_seed() {
    let enemy = Enemy::new("Soldier", 6, 2, 1, 7);
    assert_eq!(
        moves(&enemy, 10, 10, 1..=12),
        vec![
            Action::DodgeRight,
            Action::DodgeLeft,
            Action::AttackLeft(0),
            Action::AttackStraight(0),
            Action::AttackStraight(0),
            Action::AttackLeft(0),
            Action::AttackRight(0),
            Action::AttackStraight(0),
            Action::AttackRight(0),
            Action::DodgeRight,
            Action::AttackStraight(0),
            Action::AttackStraight(0),
        ]
    );
}

#[test]
fn hurt_enemy_dodges_more() {
    let mut enemy = Enemy::new("Guard", 8, 3, 5, 42);
    enemy.health = Health::new(1);
    assert_eq!(
        moves(&enemy, 10, 10, 1..=12),
        vec![
            Action::DodgeLeft,
            Action::DodgeRight,
            Action::DodgeLeft,
            Action::AttackStraight(0),
            Action::DodgeLeft,
            Action::DodgeLeft,
            Action::DodgeLeft,
            Action::AttackStraight(0),
            Action::DodgeLeft,
            Action::DodgeRight,
            Action::DodgeRight,
            Action::AttackStraight(0),
        ]
    );
}

#[test]
fn weak_player_is_attacked() {
    let enemy = Enemy::new("Guard", 8, 3, 0, 42);
    assert_eq!(
        moves(&enemy, 1, 10, 1..=12),
        vec![
            Action::AttackStraight(0),
            Action::AttackStraight(0),
            Action::AttackLeft(0),
            Action::AttackStraight(0),
            Action::AttackLeft(0),
            Action::AttackStraight(0),
            Action::AttackRight(0),
            Action::AttackStraight(0),
            Action::AttackStraight(0),
            Action::AttackRight(0),
            Action::AttackRight(0),
            Action::AttackStraight(0),
        ]
    );
}

#[test]
fn thrust_on_every_fourth_turn() {
    assert_eq!(THRUST_PERIOD, 4);
    for seed in [0u64, 1, 42, u64::MAX] {
        let mut enemy = Enemy::new("Guard", 9, 1, 3, seed);
        enemy.health = Health::new(2);
        for turn in [0u64, 4, 8, 400, u64::MAX - 3] {
            assert_eq!(
                enemy.choose_action(Health::new(10), Health::new(10), turn),
                Action::AttackStraight(0)
            );
        }
    }
}

#[test]
fn enemy_only_attacks_or_dodges() {
    for seed in 0..20u64 {
        let mut enemy = Enemy::new("Guard", 9, 1, seed as u32 % 3, seed);
        enemy.health = Health::new((seed % 10) as u32);
        for turn in 0..60u64 {
            let action = enemy.choose_action(Health::new((turn % 11) as u32), Health::new(10), turn);
            assert!(enemy_can(action));
            assert!(matches!(
                action,
                Action::AttackLeft(0)
                    | Action::AttackStraight(0)
                    | Action::AttackRight(0)
                    | Action::DodgeLeft
                    | Action::DodgeRight
            ));
        }
    }
}

#[test]
fn policy_takes_extreme_values() {
    let mut enemy = Enemy::new("Guard", u32::MAX, u32::MAX, u32::MAX, u64::MAX);
    enemy.health = Health::new(0);
    let action = enemy.choose_action(Health::new(0), Health::new(u32::MAX), u64::MAX);
    assert!(enemy_can(action));
}

#[test]
fn enemy_moves_are_described() {
    let enemy = Enemy::new("Guard", 8, 3, 1, 42);
    assert_eq!(enemy.describe_combat_action(Action::AttackLeft(0)), "The Guard attacks to the left");
    assert_eq!(
        enemy.describe_combat_action(Action::AttackStraight(0)),
        "The Guard attacks in front of them"
    );
    assert_eq!(enemy.describe_combat_action(Action::AttackRight(0)), "The Guard attacks to the right");
    assert_eq!(enemy.describe_combat_action(Action::DodgeLeft), "The Guard dodges to the left");
    assert_eq!(enemy.describe_combat_action(Action::DodgeRight), "The Guard dodges to the right");
    assert_eq!(enemy.describe_combat_action(Action::Nothing), "The Guard does nothing");
    assert_eq!(enemy.describe_combat_action(Action::EatFood(0)), "The Guard does nothing");
}

#[test]
fn enemy_in_order_is_told_from_one_that_is_not() {
    assert!(Enemy::new("Guard", 8, 3, 1, 42).in_order());
    assert!(!Enemy::new("Guard", 8, 0, 1, 42).in_order());
    let mut swollen = Enemy::new("Guard", 8, 3, 1, 42);
    swollen.health = Health::new(9);
    assert!(!swollen.in_order());
}
