use text_adventure::combat::action::Action;
use text_adventure::combat::battle::{
    battle, battle_state, battle_turn, result_screen, turn_limit, turn_screen, BattleOutcome,
    BattleResult, BattleState,
};
use text_adventure::combat::enemy::Enemy;
use text_adventure::combat::health::Health;
use text_adventure::combat::resolve::{resolve_turn, TurnEffects};
use text_adventure::error::GameError;
use text_adventure::items::{Food, Item, Weapon};
use text_adventure::menu::{Console, Menu, OptionList, Screen};
use text_adventure::player::Player;
use text_adventure::rooms::Room;

struct Replay {
    answers: Vec<usize>,
    repeat: usize,
    asked: usize,
    shown: Vec<(String, String)>,
}

fn answering(answers: &[usize]) -> Console<Replay> {
    Console::new(Replay { answers: answers.to_vec(), repeat: 0, asked: 0, shown: Vec::new() })
}

fn always(answer: usize) -> Console<Replay> {
    Console::new(Replay { answers: Vec::new(), repeat: answer, asked: 0, shown: Vec::new() })
}

impl Menu for Replay {
    fn show_screen(&mut self, screen: Screen) {
        self.shown.push((screen.title, screen.content));
    }

    fn show_option_list(&mut self, list: OptionList) -> usize {
        assert!(!list.options.is_empty());
        self.asked += 1;
        if self.answers.is_empty() {
            self.repeat
        } else {
            self.answers.remove(0)
        }
    }
}

fn player_with(health: u32, max: u32, inventory: Vec<Item>) -> Player {
    let mut player = Player::init();
    player.health = Health::new(health);
    player.max_health = Health::new(max);
    player.inventory = inventory;
    player
}

fn enemy_with(health: u32, max: u32, attack: u32, seed: u64) -> Enemy {
    let mut enemy = Enemy::new("Guard", max, attack, 1, seed);
    enemy.health = Health::new(health);
    enemy
}

fn sword(damage: u32) -> Item {
    Item::Weapon(Weapon { name: "Sword", damage })
}

fn apple(heals_for: u32) -> Item {
    Item::Food(Food { name: "Apple", heals_for })
}

fn page(title: &str, content: &str) -> (String, String) {
    (title.to_string(), content.to_string())
}

#[test]
fn same_side_dodge_takes_no_damage() {
    let mut player = player_with(10, 10, vec![sword(5)]);
    let mut enemy = enemy_with(8, 8, 3, 1);
    let effects =
        resolve_turn(&mut player, &mut enemy, Action::DodgeLeft, Action::AttackLeft(0)).unwrap();
    assert_eq!(player.health.points(), 10);
    assert_eq!(effects, TurnEffects { player_healed: None, player_hit: None, enemy_hit: None });
    let effects =
        resolve_turn(&mut player, &mut enemy, Action::DodgeRight, Action::AttackRight(0)).unwrap();
    assert_eq!(player.health.points(), 10);
    assert_eq!(effects.player_hit, None);
    let effects =
        resolve_turn(&mut player, &mut enemy, Action::AttackLeft(0), Action::DodgeLeft).unwrap();
    assert_eq!(enemy.health.points(), 8);
    assert_eq!(effects.enemy_hit, None);
    let effects =
        resolve_turn(&mut player, &mut enemy, Action::AttackRight(0), Action::DodgeRight).unwrap();
    assert_eq!(enemy.health.points(), 8);
    assert_eq!(effects.enemy_hit, None);
}

#[test]
fn opposite_side_dodge_takes_full_damage() {
    let mut player = player_with(10, 10, vec![sword(5)]);
    let mut enemy = enemy_with(8, 8, 3, 1);
    let effects =
        resolve_turn(&mut player, &mut enemy, Action::DodgeRight, Action::AttackLeft(0)).unwrap();
    assert_eq!(player.health.points(), 7);
    assert_eq!(effects.player_hit, Some(3));
    let effects =
        resolve_turn(&mut player, &mut enemy, Action::AttackRight(0), Action::DodgeLeft).unwrap();
    assert_eq!(enemy.health.points(), 3);
    assert_eq!(effects.enemy_hit, Some(5));
}

#[test]
fn straight_thrust_lands_on_a_dodging_player() {
    let mut player = player_with(10, 10, Vec::new());
    let mut enemy = enemy_with(8, 8, 3, 1);
    for dodge in [Action::DodgeLeft, Action::DodgeRight] {
        let effects = resolve_turn(&mut player, &mut enemy, dodge, Action::AttackStraight(0)).unwrap();
        assert_eq!(effects.player_hit, Some(3));
    }
    assert_eq!(player.health.points(), 4);
}

#[test]
fn both_sides_can_hit_on_one_turn() {
    let mut player = player_with(10, 10, vec![sword(5)]);
    let mut enemy = enemy_with(8, 8, 3, 1);
    let effects =
        resolve_turn(&mut player, &mut enemy, Action::AttackLeft(0), Action::AttackRight(0)).unwrap();
    assert_eq!(player.health.points(), 7);
    assert_eq!(enemy.health.points(), 3);
    assert_eq!(
        effects,
        TurnEffects { player_healed: None, player_hit: Some(3), enemy_hit: Some(5) }
    );
}

#[test]
fn effects_report_the_hit_points_lost() {
    let mut player = player_with(2, 10, vec![sword(50)]);
    let mut enemy = enemy_with(8, 8, 3, 1);
    let effects =
        resolve_turn(&mut player, &mut enemy, Action::AttackStraight(0), Action::AttackStraight(0))
            .unwrap();
    assert_eq!(
        effects,
        TurnEffects { player_healed: None, player_hit: Some(2), enemy_hit: Some(8) }
    );
}

#[test]
fn eating_removes_only_the_food_eaten() {
    let mut player = player_with(9, 10, vec![sword(5), apple(4), apple(2)]);
    let mut enemy = enemy_with(8, 8, 3, 1);
    let effects = resolve_turn(&mut player, &mut enemy, Action::EatFood(1), Action::Nothing).unwrap();
    assert_eq!(
        effects,
        TurnEffects { player_healed: Some(1), player_hit: None, enemy_hit: None }
    );
    assert_eq!(player.health.points(), 10);
    assert_eq!(player.inventory.len(), 2);
    assert_eq!(player.inventory[0].get_name(), "Sword");
    assert_eq!(player.inventory[1].get_description(), "Restores 2 HP when eaten");
}

#[test]
fn every_kind_of_invalid_move_is_rejected() {
    let mut player = player_with(5, 10, vec![sword(5), apple(4)]);
    let mut enemy = enemy_with(8, 8, 3, 1);
    let rejected = [
        (Action::EatFood(0), Action::Nothing),
        (Action::EatFood(2), Action::Nothing),
        (Action::AttackLeft(1), Action::Nothing),
        (Action::AttackStraight(1), Action::Nothing),
        (Action::AttackRight(2), Action::Nothing),
        (Action::Nothing, Action::EatFood(0)),
        (Action::Nothing, Action::AttackLeft(1)),
        (Action::EatFood(1), Action::AttackStraight(3)),
    ];
    for (player_action, enemy_action) in rejected {
        assert_eq!(
            resolve_turn(&mut player, &mut enemy, player_action, enemy_action),
            Err(GameError::InvalidAction)
        );
        assert_eq!(
            battle_turn(&mut player, &mut enemy, 5, player_action, enemy_action).err(),
            Some(GameError::InvalidAction)
        );
        assert_eq!(player.health.points(), 5);
        assert_eq!(player.inventory.len(), 2);
        assert_eq!(enemy.health.points(), 8);
    }
}

#[test]
fn turn_counter_goes_up_by_one_per_turn() {
    let mut player = player_with(10, 10, Vec::new());
    let mut enemy = enemy_with(8, 8, 1, 1);
    let mut turn = 41;
    for _ in 0..5 {
        let report =
            battle_turn(&mut player, &mut enemy, turn, Action::Nothing, Action::DodgeLeft).unwrap();
        assert_eq!(report.turn_number, turn + 1);
        assert_eq!(report.state, BattleState::Ongoing);
        turn = report.turn_number;
    }
    assert_eq!(turn, 46);
}

#[test]
fn state_looks_at_the_player_first() {
    let enemy = enemy_with(0, 8, 1, 1);
    assert_eq!(battle_state(&player_with(0, 10, Vec::new()), &enemy), BattleState::PlayerLoss);
    assert_eq!(battle_state(&player_with(1, 10, Vec::new()), &enemy), BattleState::PlayerWin);
    let standing = enemy_with(1, 8, 1, 1);
    assert_eq!(battle_state(&player_with(1, 10, Vec::new()), &standing), BattleState::Ongoing);
    assert_eq!(battle_state(&player_with(0, 10, Vec::new()), &standing), BattleState::PlayerLoss);
}

#[test]
fn turn_screen_tells_everything() {
    let effects = TurnEffects { player_healed: Some(4), player_hit: Some(5), enemy_hit: Some(12) };
    let screen = turn_screen(
        7,
        "You do nothing",
        "The Guard waits",
        "Guard",
        &effects,
        Health::new(2),
        Health::new(10),
    );
    assert_eq!(screen.title, "Turn 7");
    assert_eq!(
        screen.content,
        "You do nothing\nThe Guard waits\nYou are healed by 4 HP.\nYou take 5 damage.\nThe Guard takes 12 damage.\nYou are now at 2/10 HP."
    );
}

#[test]
fn turn_screen_leaves_out_what_did_not_happen() {
    let effects = TurnEffects { player_healed: None, player_hit: None, enemy_hit: None };
    let screen = turn_screen(
        120,
        "You dodge to the left",
        "The Guard attacks to the left",
        "Guard",
        &effects,
        Health::new(10),
        Health::new(10),
    );
    assert_eq!(screen.title, "Turn 120");
    assert_eq!(
        screen.content,
        "You dodge to the left\nThe Guard attacks to the left\nYou are now at 10/10 HP."
    );
}

#[test]
fn result_screens() {
    let won = result_screen(BattleResult::PlayerWin, "Guard");
    assert_eq!(won.title, "You defeated the Guard");
    assert_eq!(won.content, "The way is clear.");
    let lost = result_screen(BattleResult::PlayerLoss, "Guard");
    assert_eq!(lost.title, "You were defeated by the Guard");
    assert_eq!(lost.content, "Everything goes dark.");
}

#[test]
fn turn_limit_counts_health_and_food() {
    assert_eq!(turn_limit(&player_with(10, 10, Vec::new())), Some(44));
    assert_eq!(turn_limit(&player_with(10, 10, vec![apple(4), sword(9), apple(1)])), Some(64));
    assert_eq!(turn_limit(&player_with(0, 10, Vec::new())), Some(4));
}

#[test]
fn turn_limit_beyond_the_counter() {
    let food: Vec<Item> = (0..3).map(|_| apple(u32::MAX)).collect();
    assert_eq!(
        turn_limit(&player_with(u32::MAX, u32::MAX, food)),
        Some(4 * (4 * (u32::MAX as u64)) + 4)
    );
}

#[test]
fn battle_won_on_the_first_turn() {
    let mut player = player_with(10, 10, vec![sword(5)]);
    let mut menu = answering(&[3, 1]);
    let outcome = battle(&mut player, enemy_with(5, 5, 3, 42), 0, &mut menu);
    assert_eq!(outcome, Ok(BattleOutcome { result: BattleResult::PlayerWin, turn_number: 1 }));
    assert_eq!(player.health.points(), 7);
    assert_eq!(player.room, Room::Bridge);
    assert_eq!(
        menu.inner().shown,
        vec![
            page(
                "Turn 1",
                "You attack in front of you with your Sword\nThe Guard attacks to the left\nYou take 3 damage.\nThe Guard takes 5 damage.\nYou are now at 7/10 HP."
            ),
            page("You defeated the Guard", "The way is clear."),
        ]
    );
}

#[test]
fn battle_lost_by_a_player_who_only_dodges() {
    let mut player = player_with(5, 5, Vec::new());
    let mut menu = always(1);
    let outcome = battle(&mut player, enemy_with(8, 8, 2, 42), 0, &mut menu);
    assert_eq!(outcome, Ok(BattleOutcome { result: BattleResult::PlayerLoss, turn_number: 7 }));
    assert_eq!(player.health.points(), 0);
    assert_eq!(menu.inner().asked, 7);
    assert_eq!(menu.inner().shown.len(), 8);
    assert_eq!(
        menu.inner().shown[0],
        page("Turn 1", "You dodge to the left\nThe Guard attacks to the left\nYou are now at 5/5 HP.")
    );
    assert_eq!(
        menu.inner().shown[3],
        page(
            "Turn 4",
            "You dodge to the left\nThe Guard attacks in front of them\nYou take 2 damage.\nYou are now at 3/5 HP."
        )
    );
    assert_eq!(menu.inner().shown[7], page("You were defeated by the Guard", "Everything goes dark."));
}

#[test]
fn battle_with_a_meal_and_three_blows() {
    let mut player = player_with(3, 10, vec![apple(4), sword(3)]);
    let mut menu = answering(&[3, 3, 1, 3, 0]);
    let mut enemy = Enemy::new("Soldier", 6, 2, 1, 7);
    enemy.health = Health::new(6);
    let outcome = battle(&mut player, enemy, 10, &mut menu);
    assert_eq!(outcome, Ok(BattleOutcome { result: BattleResult::PlayerWin, turn_number: 13 }));
    assert_eq!(player.health.points(), 1);
    assert_eq!(player.inventory.len(), 1);
    assert_eq!(player.inventory[0].get_name(), "Sword");
    assert_eq!(menu.inner().asked, 5);
    assert_eq!(
        menu.inner().shown[0],
        page(
            "Turn 11",
            "You attempt to eat your Apple\nThe Soldier attacks to the right\nYou are healed by 4 HP.\nYou take 2 damage.\nYou are now at 5/10 HP."
        )
    );
    assert_eq!(
        menu.inner().shown[2],
        page(
            "Turn 13",
            "You attack to the left with your Sword\nThe Soldier attacks to the left\nYou take 2 damage.\nThe Soldier takes 3 damage.\nYou are now at 1/10 HP."
        )
    );
}

#[test]
fn battle_ends_within_the_turn_limit() {
    for seed in 0..30u64 {
        for choice in 0..3usize {
            let mut player = player_with(6, 6, Vec::new());
            let limit = turn_limit(&player).unwrap();
            let mut menu = always(choice);
            let outcome = battle(&mut player, enemy_with(4, 4, 1, seed), 100, &mut menu).unwrap();
            assert_eq!(outcome.result, BattleResult::PlayerLoss);
            assert!(outcome.turn_number > 100);
            assert!(outcome.turn_number <= 100 + limit);
            assert_eq!(player.health.points(), 0);
        }
    }
}

#[test]
fn battle_stops_at_a_menu_that_answers_out_of_range() {
    let mut player = player_with(10, 10, vec![sword(5)]);
    let mut menu = answering(&[4]);
    assert_eq!(
        battle(&mut player, enemy_with(5, 5, 3, 42), 0, &mut menu),
        Err(GameError::InvalidChoiceIndex)
    );
    assert_eq!(player.health.points(), 10);
    assert!(menu.inner().shown.is_empty());
    let mut menu = answering(&[3, 3]);
    assert_eq!(
        battle(&mut player, enemy_with(5, 5, 3, 42), 0, &mut menu),
        Err(GameError::InvalidChoiceIndex)
    );
}
