use text_adventure::combat::action::Action;
use text_adventure::combat::health::Health;
use text_adventure::config::{PLAYER_START_HEALTH, PLAYER_START_MAX_HEALTH};
use text_adventure::error::GameError;
use text_adventure::items::{Food, Item, Weapon};
use text_adventure::menu::{Console, Menu, OptionList, Screen};
use text_adventure::player::{aim_attack, offered_action, offered_passive_action, PassiveAction, Player};
use text_adventure::rooms::{Occupant, Room};

struct Script {
    answers: Vec<usize>,
    asked: Vec<(Vec<String>, String)>,
    shown: Vec<(String, String)>,
}

fn console(answers: &[usize]) -> Console<Script> {
    Console::new(Script { answers: answers.to_vec(), asked: Vec::new(), shown: Vec::new() })
}

impl Menu for Script {
    fn show_screen(&mut self, screen: Screen) {
        self.shown.push((screen.title, screen.content));
    }

    fn show_option_list(&mut self, list: OptionList) -> usize {
        self.asked.push((list.options, list.prompt));
        self.answers.remove(0)
    }
}

fn apple() -> Item {
    Item::Food(Food { name: "Apple", heals_for: 4 })
}

fn sword() -> Item {
    Item::Weapon(Weapon { name: "Sword", damage: 5 })
}

fn strings(words: &[&str]) -> Vec<String> {
    words.iter().map(|word| word.to_string()).collect()
}

#[test]
fn player_starts_on_the_bridge() {
    let player = Player::init();
    assert_eq!(player.room, Room::Bridge);
    assert!(player.inventory.is_empty());
    assert_eq!(player.health.points(), PLAYER_START_HEALTH);
    assert_eq!(player.max_health.points(), PLAYER_START_MAX_HEALTH);
    assert_eq!(player.get_room_state().room, Room::Bridge);
    assert!(matches!(player.get_room_state().enemy, Occupant::Empty));
}

#[test]
fn room_screen_names_the_room() {
    let player = Player::init();
    let screen = player.room_screen();
    assert_eq!(screen.title, "You are in the Bridge.");
    assert_eq!(screen.content, Room::Bridge.get_description());
    let mut console = console(&[]);
    player.print_room(&mut console);
    assert_eq!(
        console.inner().shown,
        vec![("You are in the Bridge.".to_string(), Room::Bridge.get_description().to_string())]
    );
}

#[test]
fn state_screen_shows_the_health() {
    let mut player = Player::init();
    player.health = Health::new(7);
    player.max_health = Health::new(12);
    let screen = player.state_screen();
    assert_eq!(screen.title, "You take a moment to rest and check your body for injuries");
    assert_eq!(screen.content, "You are at 7/12 HP");
    let mut console = console(&[]);
    player.print_state(&mut console);
    let front = console.into_inner();
    assert_eq!(front.shown.len(), 1);
    assert_eq!(
        front.shown[0].0,
        "You take a moment to rest and check your body for injuries"
    );
    assert_eq!(front.shown[0].1, "You are at 7/12 HP");
}

#[test]
fn room_state_can_be_changed_in_place() {
    let mut player = Player::init();
    player.room = Room::Kitchen;
    let taken = player.get_room_state_mut().items.remove(0);
    assert_eq!(taken.get_name(), "Kitchen Knife");
    assert_eq!(player.get_room_state().items.len(), 1);
    assert_eq!(player.room, Room::Kitchen);
}

#[test]
fn pick_up_item_appends() {
    let mut player = Player::init();
    player.pick_up_item(apple());
    player.pick_up_item(sword());
    assert_eq!(player.inventory.len(), 2);
    assert_eq!(player.inventory[0].get_name(), "Apple");
    assert_eq!(player.inventory[1].get_name(), "Sword");
}

#[test]
fn passive_options_in_order() {
    let mut player = Player::init();
    player.room = Room::Kitchen;
    player.inventory = vec![sword(), apple(), sword(), apple()];
    let (options, labels) = player.passive_options();
    assert_eq!(
        options,
        vec![
            PassiveAction::CheckState,
            PassiveAction::GoToRoom(0),
            PassiveAction::PickUpItem(0),
            PassiveAction::PickUpItem(1),
            PassiveAction::UseItem(1),
            PassiveAction::UseItem(3),
        ]
    );
    assert_eq!(
        labels,
        strings(&[
            "Check how you're doing",
            "Go to the Mess Hall",
            "Pick up the Kitchen Knife - Deals 3 damage",
            "Pick up the Leftover Stew - Restores 5 HP when eaten",
            "Eat your Apple",
            "Eat your Apple",
        ])
    );
}

#[test]
fn passive_options_use_the_prompt_of_a_way() {
    let mut player = Player::init();
    player.room = Room::EscapePod;
    let (options, labels) = player.passive_options();
    assert_eq!(
        options,
        vec![PassiveAction::CheckState, PassiveAction::GoToRoom(0), PassiveAction::GoToRoom(1)]
    );
    assert_eq!(
        labels,
        strings(&["Check how you're doing", "Go to the Lower Corridor", "Launch the escape pod"])
    );
}

#[test]
fn passive_options_always_offer_something() {
    let mut player = Player::init();
    player.room = Room::Escape;
    let (options, labels) = player.passive_options();
    assert_eq!(options, vec![PassiveAction::CheckState]);
    assert_eq!(labels, strings(&["Check how you're doing"]));
}

#[test]
fn choose_passive_action_returns_the_pick() {
    let mut player = Player::init();
    player.room = Room::Kitchen;
    let mut menu = console(&[2]);
    assert_eq!(player.choose_passive_action(&mut menu), Ok(PassiveAction::PickUpItem(0)));
    assert_eq!(menu.inner().asked.len(), 1);
    assert_eq!(menu.inner().asked[0].1, "What do you do?");
    assert_eq!(menu.inner().asked[0].0.len(), 4);
}

#[test]
fn choose_passive_action_rejects_a_pick_that_was_not_offered() {
    let player = Player::init();
    let mut menu = console(&[2]);
    assert_eq!(player.choose_passive_action(&mut menu), Err(GameError::InvalidChoiceIndex));
    let mut menu = console(&[usize::MAX]);
    assert_eq!(player.choose_passive_action(&mut menu), Err(GameError::InvalidChoiceIndex));
}

#[test]
fn offered_actions_are_picked_by_position() {
    let options = vec![Action::Nothing, Action::DodgeLeft];
    assert_eq!(offered_action(&options, 1), Ok(Action::DodgeLeft));
    assert_eq!(offered_action(&options, 2), Err(GameError::InvalidChoiceIndex));
    let passive = vec![PassiveAction::CheckState];
    assert_eq!(offered_passive_action(&passive, 0), Ok(PassiveAction::CheckState));
    assert_eq!(offered_passive_action(&passive, 1), Err(GameError::InvalidChoiceIndex));
}

#[test]
fn eating_heals_and_uses_up_the_food() {
    let mut player = Player::init();
    player.health = Health::new(3);
    player.inventory = vec![sword(), apple()];
    let screen = player.eat_item(1).unwrap();
    assert_eq!(player.health.points(), 7);
    assert_eq!(player.inventory.len(), 1);
    assert_eq!(player.inventory[0].get_name(), "Sword");
    assert_eq!(screen.title, "You ate your Apple");
    assert_eq!(screen.content, "You are healed by 4 HP.\nYou are now at 7/10 HP.");
}

#[test]
fn eating_heals_no_further_than_the_maximum() {
    let mut player = Player::init();
    player.health = Health::new(8);
    player.inventory = vec![apple()];
    let screen = player.eat_item(0).unwrap();
    assert_eq!(player.health.points(), 10);
    assert_eq!(screen.content, "You are healed by 2 HP.\nYou are now at 10/10 HP.");
}

#[test]
fn a_weapon_cannot_be_eaten() {
    let mut player = Player::init();
    player.health = Health::new(3);
    player.inventory = vec![sword(), apple()];
    assert_eq!(player.eat_item(0).err(), Some(GameError::InvalidAction));
    assert_eq!(player.eat_item(2).err(), Some(GameError::InvalidAction));
    assert_eq!(player.health.points(), 3);
    assert_eq!(player.inventory.len(), 2);
}

#[test]
fn use_item_shows_the_meal() {
    let mut player = Player::init();
    player.health = Health::new(3);
    player.inventory = vec![apple()];
    let mut menu = console(&[]);
    assert_eq!(player.use_item(&mut menu, 0), Ok(()));
    assert_eq!(
        menu.inner().shown,
        vec![(
            "You ate your Apple".to_string(),
            "You are healed by 4 HP.\nYou are now at 7/10 HP.".to_string()
        )]
    );
    assert_eq!(player.use_item(&mut menu, 0), Err(GameError::InvalidAction));
    assert_eq!(menu.inner().shown.len(), 1);
}

#[test]
fn use_item_refuses_a_weapon() {
    let mut player = Player::init();
    player.inventory = vec![sword()];
    let mut menu = console(&[]);
    assert_eq!(player.use_item(&mut menu, 0), Err(GameError::InvalidAction));
    assert!(menu.inner().shown.is_empty());
    assert_eq!(player.inventory.len(), 1);
}

#[test]
fn picking_up_moves_the_item() {
    let mut player = Player::init();
    player.room = Room::Kitchen;
    assert_eq!(player.pick_up_item_from_room(1), Ok(()));
    assert_eq!(player.inventory.len(), 1);
    assert_eq!(player.inventory[0].get_name(), "Leftover Stew");
    assert_eq!(player.get_room_state().items.len(), 1);
    assert_eq!(player.get_room_state().items[0].get_name(), "Kitchen Knife");
    assert_eq!(player.pick_up_item_from_room(1), Err(GameError::InvalidAction));
    assert_eq!(player.inventory.len(), 1);
}

#[test]
fn performing_each_passive_action() {
    let mut player = Player::init();
    player.health = Health::new(6);
    let page = player.perform_passive_action(PassiveAction::CheckState).unwrap().unwrap();
    assert_eq!(page.content, "You are at 6/10 HP");

    assert!(player.perform_passive_action(PassiveAction::GoToRoom(0)).unwrap().is_none());
    assert_eq!(player.room, Room::UpperCorridor);
    assert_eq!(player.health.points(), 6);
    assert!(player.inventory.is_empty());

    player.room = Room::MessHall;
    assert!(player.perform_passive_action(PassiveAction::PickUpItem(0)).unwrap().is_none());
    assert_eq!(player.inventory[0].get_name(), "Ration Bar");

    let page = player.perform_passive_action(PassiveAction::UseItem(0)).unwrap().unwrap();
    assert_eq!(page.title, "You ate your Ration Bar");
    assert_eq!(page.content, "You are healed by 3 HP.\nYou are now at 9/10 HP.");
    assert!(player.inventory.is_empty());
}

#[test]
fn passive_actions_that_cannot_be_performed() {
    let mut player = Player::init();
    player.inventory = vec![sword()];
    assert_eq!(
        player.perform_passive_action(PassiveAction::GoToRoom(1)).err(),
        Some(GameError::InvalidAction)
    );
    assert_eq!(
        player.perform_passive_action(PassiveAction::PickUpItem(0)).err(),
        Some(GameError::InvalidAction)
    );
    assert_eq!(
        player.perform_passive_action(PassiveAction::UseItem(0)).err(),
        Some(GameError::InvalidAction)
    );
    assert_eq!(
        player.perform_passive_action(PassiveAction::UseItem(1)).err(),
        Some(GameError::InvalidAction)
    );
    assert_eq!(player.room, Room::Bridge);
    assert_eq!(player.inventory.len(), 1);
}

#[test]
fn take_passive_action_moves_the_player() {
    let mut player = Player::init();
    let mut menu = console(&[1]);
    assert_eq!(player.take_passive_action(&mut menu), Ok(()));
    assert_eq!(player.room, Room::UpperCorridor);
    assert_eq!(player.get_room_state().room, Room::UpperCorridor);
    assert!(menu.inner().shown.is_empty());
    assert_eq!(menu.inner().asked.len(), 1);
    assert!(player.inventory.is_empty());
    assert_eq!(player.health.points(), 10);
    assert!(player.in_order());
}

#[test]
fn take_passive_action_reports_a_bad_menu() {
    let mut player = Player::init();
    let mut menu = console(&[9]);
    assert_eq!(player.take_passive_action(&mut menu), Err(GameError::InvalidChoiceIndex));
    assert_eq!(player.room, Room::Bridge);
    assert!(menu.inner().shown.is_empty());
}

#[test]
fn the_way_out_can_be_walked() {
    let mut player = Player::init();
    let mut menu = console(&[1, 5, 2, 3, 5, 2]);
    for _ in 0..6 {
        assert_eq!(player.take_passive_action(&mut menu), Ok(()));
    }
    assert_eq!(player.room, Room::Escape);
}

#[test]
fn combat_options_in_order() {
    let mut player = Player::init();
    player.inventory = vec![sword(), apple()];
    let (options, labels) = player.combat_options();
    assert_eq!(
        options,
        vec![
            Action::Nothing,
            Action::DodgeLeft,
            Action::DodgeRight,
            Action::AttackStraight(0),
            Action::EatFood(1),
        ]
    );
    assert_eq!(
        labels,
        strings(&[
            "Do nothing",
            "Dodge to the left",
            "Dodge to the right",
            "Attack with your Sword",
            "Eat your Apple",
        ])
    );
}

#[test]
fn combat_options_of_empty_hands() {
    let player = Player::init();
    let (options, labels) = player.combat_options();
    assert_eq!(options, vec![Action::Nothing, Action::DodgeLeft, Action::DodgeRight]);
    assert_eq!(labels.len(), 3);
}

#[test]
fn aim_follows_the_direction_list() {
    assert_eq!(aim_attack(4, 0), Ok(Action::AttackLeft(4)));
    assert_eq!(aim_attack(4, 1), Ok(Action::AttackStraight(4)));
    assert_eq!(aim_attack(4, 2), Ok(Action::AttackRight(4)));
    assert_eq!(aim_attack(4, 3), Err(GameError::InvalidChoiceIndex));
}

#[test]
fn choosing_a_move_that_is_no_attack() {
    let mut player = Player::init();
    player.inventory = vec![sword(), apple()];
    let mut menu = console(&[4]);
    assert_eq!(player.choose_combat_action(&mut menu), Ok(Action::EatFood(1)));
    assert_eq!(menu.inner().asked.len(), 1);
    let mut menu = console(&[0]);
    assert_eq!(player.choose_combat_action(&mut menu), Ok(Action::Nothing));
    let mut menu = console(&[2]);
    assert_eq!(player.choose_combat_action(&mut menu), Ok(Action::DodgeRight));
}

#[test]
fn choosing_an_attack_asks_for_the_direction() {
    let mut player = Player::init();
    player.inventory = vec![apple(), sword()];
    let mut menu = console(&[4, 2]);
    assert_eq!(player.choose_combat_action(&mut menu), Ok(Action::AttackRight(1)));
    assert_eq!(menu.inner().asked.len(), 2);
    assert_eq!(menu.inner().asked[0].1, "What do you do?");
    assert_eq!(menu.inner().asked[1].0, strings(&["Attack Left", "Attack Straight", "Attack Right"]));
    assert_eq!(menu.inner().asked[1].1, "Which way do you attack?");
    let mut menu = console(&[4, 0]);
    assert_eq!(player.choose_combat_action(&mut menu), Ok(Action::AttackLeft(1)));
    let mut menu = console(&[4, 1]);
    assert_eq!(player.choose_combat_action(&mut menu), Ok(Action::AttackStraight(1)));
}

#[test]
fn choosing_what_was_not_offered() {
    let mut player = Player::init();
    player.inventory = vec![sword()];
    let mut menu = console(&[4]);
    assert_eq!(player.choose_combat_action(&mut menu), Err(GameError::InvalidChoiceIndex));
    let mut menu = console(&[3, 3]);
    assert_eq!(player.choose_combat_action(&mut menu), Err(GameError::InvalidChoiceIndex));
}

#[test]
fn describing_moves() {
    let mut player = Player::init();
    player.inventory = vec![sword(), apple()];
    let describe = |action| player.describe_combat_action(action);
    assert_eq!(describe(Action::AttackLeft(0)).unwrap(), "You attack to the left with your Sword");
    assert_eq!(describe(Action::AttackRight(0)).unwrap(), "You attack to the right with your Sword");
    assert_eq!(
        describe(Action::AttackStraight(0)).unwrap(),
        "You attack in front of you with your Sword"
    );
    assert_eq!(describe(Action::EatFood(1)).unwrap(), "You attempt to eat your Apple");
    assert_eq!(describe(Action::EatFood(0)).unwrap(), "You attempt to eat your Sword");
    assert_eq!(describe(Action::DodgeLeft).unwrap(), "You dodge to the left");
    assert_eq!(describe(Action::DodgeRight).unwrap(), "You dodge to the right");
    assert_eq!(describe(Action::Nothing).unwrap(), "You do nothing");
    assert_eq!(describe(Action::EatFood(2)), Err(GameError::InvalidAction));
    assert_eq!(describe(Action::AttackLeft(9)), Err(GameError::InvalidAction));
}

#[test]
fn player_in_order_is_told_from_one_that_is_not() {
    let mut player = Player::init();
    assert!(player.in_order());
    player.health = Health::new(11);
    assert!(!player.in_order());
    player.health = Health::new(10);
    player.room_graph.rooms.pop();
    assert!(!player.in_order());
}

#[test]
fn print_room_shows_the_room_the_player_is_in() {
    let mut player = Player::init();
    player.room = Room::EngineRoom;
    let mut console = console(&[]);
    player.print_room(&mut console);
    player.room = Room::Escape;
    player.print_room(&mut console);
    assert_eq!(
        console.inner().shown,
        vec![
            (
                "You are in the Engine Room.".to_string(),
                Room::EngineRoom.get_description().to_string()
            ),
            ("You are in the .".to_string(), String::new()),
        ]
    );
    assert!(console.inner().asked.is_empty());
}

#[test]
fn console_passes_everything_on() {
    let mut player = Player::init();
    player.health = Health::new(4);
    let mut console = console(&[0, 1]);
    assert_eq!(player.take_passive_action(&mut console), Ok(()));
    player.print_state(&mut console);
    assert_eq!(player.take_passive_action(&mut console), Ok(()));
    assert_eq!(player.room, Room::UpperCorridor);
    let front = console.into_inner();
    assert_eq!(front.asked.len(), 2);
    assert!(front.answers.is_empty());
    assert_eq!(
        front.shown,
        vec![
            (
                "You take a moment to rest and check your body for injuries".to_string(),
                "You are at 4/10 HP".to_string()
            ),
            (
                "You take a moment to rest and check your body for injuries".to_string(),
                "You are at 4/10 HP".to_string()
            ),
        ]
    );
}

#[test]
fn first_combat_question_lists_every_move() {
    let mut player = Player::init();
    player.inventory = vec![apple(), sword(), sword(), apple()];
    let mut menu = console(&[0]);
    assert_eq!(player.choose_combat_action(&mut menu), Ok(Action::Nothing));
    assert_eq!(menu.inner().asked.len(), 1);
    assert_eq!(
        menu.inner().asked[0].0,
        strings(&[
            "Do nothing",
            "Dodge to the left",
            "Dodge to the right",
            "Eat your Apple",
            "Attack with your Sword",
            "Attack with your Sword",
            "Eat your Apple",
        ])
    );
    assert_eq!(menu.inner().asked[0].1, "What do you do?");
    assert!(menu.inner().shown.is_empty());
}

#[test]
fn every_weapon_can_be_aimed_every_way() {
    let mut player = Player::init();
    player.inventory = vec![apple(), sword(), sword()];
    for weapon in 1..3usize {
        let expected = [
            Action::AttackLeft(weapon),
            Action::AttackStraight(weapon),
            Action::AttackRight(weapon),
        ];
        for (direction, action) in expected.iter().enumerate() {
            let mut menu = console(&[3 + weapon, direction]);
            assert_eq!(player.choose_combat_action(&mut menu), Ok(*action));
            assert_eq!(menu.inner().asked.len(), 2);
        }
    }
}

#[test]
fn passive_question_carries_the_prompt() {
    let mut player = Player::init();
    player.room = Room::UpperCorridor;
    let mut menu = console(&[3]);
    assert_eq!(player.choose_passive_action(&mut menu), Ok(PassiveAction::GoToRoom(2)));
    assert_eq!(menu.inner().asked.len(), 1);
    assert_eq!(menu.inner().asked[0].1, "What do you do?");
    assert_eq!(
        menu.inner().asked[0].0,
        strings(&[
            "Check how you're doing",
            "Go to the Bridge",
            "Go to the Strategy Room",
            "Go to the Cells",
            "Go to the Mess Hall",
            "Go to the Stairwell",
        ])
    );
    assert!(menu.inner().shown.is_empty());
}

#[test]
fn printing_puts_no_question() {
    let player = Player::init();
    let mut menu = console(&[]);
    player.print_room(&mut menu);
    player.print_state(&mut menu);
    assert!(menu.inner().asked.is_empty());
    assert_eq!(menu.inner().shown.len(), 2);
}

#[test]
fn a_player_is_steady_with_an_unfit_enemy_aboard() {
    let mut player = Player::init();
    assert!(player.is_steady());
    player.room = Room::CrewArea;
    if let Occupant::Occupied(enemy) = &mut player.get_room_state_mut().enemy {
        enemy.attack = 0;
    }
    assert!(player.is_steady());
    assert!(!player.in_order());
    assert_eq!(player.get_room_state().room, Room::CrewArea);
    assert_eq!(player.perform_passive_action(PassiveAction::GoToRoom(0)).unwrap().is_none(), true);
    assert_eq!(player.room, Room::Stairwell);
    player.health = Health::new(11);
    assert!(!player.is_steady());
    player.health = Health::new(10);
    player.room_graph.rooms.swap(0, 1);
    assert!(!player.is_steady());
}
