//! The player: where they are, what they carry and how they are doing.

use vstd::prelude::*;
use vstd::string::StringExecFns;
use crate::combat::action::{player_may, Action, Direction};
use crate::combat::health::{healed, Health};
use crate::config::{PLAYER_START_HEALTH, PLAYER_START_MAX_HEALTH};
use crate::error::GameError;
use crate::items::Item;
use crate::menu::{words, Console, Menu, OptionList, Page, Question, Screen};
use crate::rooms::{init, Room, RoomGraph, RoomState};
use crate::text::{decimal, push_decimal};

verus! {

/// The state of the player
#[derive(Debug)]
pub struct Player {
    /// Which [`Room`] the [`Player`] is in
    pub room: Room,
    /// The [`Player`]'s inventory
    pub inventory: Vec<Item>,
    /// The [`Player`]'s current health
    pub health: Health,
    /// The maximum health the [`Player`] can reach
    pub max_health: Health,
    /// The current state of the rooms
    pub room_graph: RoomGraph,
}

impl Player {
    /// The player is in order when their health is within its maximum and
    /// the ship around them is in order.
    pub open spec fn wf(self) -> bool {
        &&& self.health@ <= self.max_health@
        &&& self.room_graph.wf()
    }

    /// The player can act: their health is within its maximum and every
    /// room of the ship stands at its place.
    pub open spec fn steady(self) -> bool {
        &&& self.health@ <= self.max_health@
        &&& self.room_graph.placed()
    }

    /// Whether the player can act.
    pub fn is_steady(&self) -> (ok: bool)
        ensures
            ok == self.steady(),
    {
        self.health.points() <= self.max_health.points() && self.room_graph.in_place()
    }

    /// Whether the player is in order. A front end that builds or changes a
    /// player by hand asks this before it hands the player back to the game.
    pub fn in_order(&self) -> (ok: bool)
        ensures
            ok == self.wf(),
    {
        self.health.points() <= self.max_health.points() && self.room_graph.in_order()
    }

    /// The state of the room that the player is in.
    pub open spec fn room_state(self) -> RoomState {
        self.room_graph.state(self.room)
    }

    /// Gets a shared reference to the current [`RoomState`]
    pub fn get_room_state(&self) -> (state: &RoomState)
        requires
            self.room_graph.placed(),
        ensures
            *state == self.room_state(),
            state.room == self.room,
            self.room_graph.wf() ==> state.wf(),
    {
        self.room_graph.get_state(self.room)
    }

    /// Gets a mutable reference to the current [`RoomState`]. What is
    /// written through the reference becomes the state of the room that the
    /// player is in; nothing else about the player changes.
    pub fn get_room_state_mut(&mut self) -> (state: &mut RoomState)
        requires
            old(self).room_graph.placed(),
        ensures
            *state == old(self).room_state(),
            state.room == old(self).room,
            old(self).room_graph.wf() ==> state.wf(),
            final(self).room_graph.rooms@ == old(self).room_graph.rooms@.update(
                old(self).room.number() as int,
                *final(state),
            ),
            final(self).room == old(self).room,
            final(self).inventory == old(self).inventory,
            final(self).health == old(self).health,
            final(self).max_health == old(self).max_health,
    {
        let room = self.room;
        self.room_graph.get_state_mut(room)
    }

    /// Add an item to the [player's inventory][Player::inventory], behind
    /// what the player carries already.
    pub fn pick_up_item(&mut self, item: Item)
        ensures
            final(self).inventory@ == old(self).inventory@.push(item),
            final(self).room == old(self).room,
            final(self).health == old(self).health,
            final(self).max_health == old(self).max_health,
            final(self).room_graph == old(self).room_graph,
    {
        self.inventory.push(item);
    }

    /// Initialise a new [`Player`]: on the bridge, with empty hands and at
    /// the health that the game starts with.
    pub fn init() -> (player: Player)
        ensures
            player.wf(),
            player.room == Room::Bridge,
            player.inventory@.len() == 0,
            player.health@ == PLAYER_START_HEALTH,
            player.max_health@ == PLAYER_START_MAX_HEALTH,
            player.room_state().enemy is Empty,
    {
        Player {
            room: Room::Bridge,
            inventory: Vec::new(),
            health: Health::new(PLAYER_START_HEALTH),
            max_health: Health::new(PLAYER_START_MAX_HEALTH),
            room_graph: init(),
        }
    }
}

/// The moves that a player who carries `inventory` is offered in a duel:
/// standing still and the two dodges, and then one move for each item, in
/// the order of the inventory. Food can be eaten; a weapon can be attacked
/// with, and where it is aimed is asked afterwards.
pub open spec fn combat_menu(inventory: Seq<Item>) -> Seq<Action> {
    seq![Action::Nothing, Action::DodgeLeft, Action::DodgeRight] + Seq::new(
        inventory.len(),
        |i: int|
            if inventory[i] is Food {
                Action::EatFood(i as usize)
            } else {
                Action::AttackStraight(i as usize)
            },
    )
}

/// How a move is offered to a player who carries `inventory`.
pub open spec fn combat_label(inventory: Seq<Item>, action: Action) -> Seq<char> {
    match action {
        Action::Nothing => "Do nothing"@,
        Action::DodgeLeft => "Dodge to the left"@,
        Action::DodgeRight => "Dodge to the right"@,
        Action::EatFood(i) => "Eat your "@ + inventory[i as int].name()@,
        Action::AttackLeft(i) | Action::AttackStraight(i) | Action::AttackRight(i) =>
            "Attack with your "@ + inventory[i as int].name()@,
    }
}

/// What the player is told when a player who carries `inventory` makes a
/// move.
pub open spec fn combat_description(inventory: Seq<Item>, action: Action) -> Seq<char> {
    match action {
        Action::AttackLeft(i) => "You attack to the left with your "@ + inventory[i as int].name()@,
        Action::AttackRight(i) => "You attack to the right with your "@
            + inventory[i as int].name()@,
        Action::AttackStraight(i) => "You attack in front of you with your "@
            + inventory[i as int].name()@,
        Action::EatFood(i) => "You attempt to eat your "@ + inventory[i as int].name()@,
        Action::DodgeLeft => "You dodge to the left"@,
        Action::DodgeRight => "You dodge to the right"@,
        Action::Nothing => "You do nothing"@,
    }
}

/// The words by which the moves of [`combat_menu`] are offered, in the same
/// order.
pub open spec fn combat_words(inventory: Seq<Item>) -> Seq<Seq<char>> {
    Seq::new(
        combat_menu(inventory).len(),
        |k: int| combat_label(inventory, combat_menu(inventory)[k]),
    )
}

/// The words by which the three directions of an attack are offered.
pub open spec fn direction_words() -> Seq<Seq<char>> {
    seq!["Attack Left"@, "Attack Straight"@, "Attack Right"@]
}

/// Whether the pick at position `choice` of [`combat_menu`] is an attack,
/// so that the direction has to be asked for.
pub open spec fn asks_direction(inventory: Seq<Item>, choice: usize) -> bool {
    choice < combat_menu(inventory).len() && combat_menu(inventory)[choice as int] is AttackStraight
}

/// The move that the two answers stand for: the pick at position `choice`
/// of [`combat_menu`], and for an attack the direction at position
/// `direction` of left, straight, right. Where either answer was not on
/// offer the outcome is [`GameError::InvalidChoiceIndex`]. The second
/// answer counts for an attack only.
pub open spec fn combat_choice(inventory: Seq<Item>, choice: usize, direction: usize) -> Result<
    Action,
    GameError,
> {
    if choice >= combat_menu(inventory).len() {
        Err(GameError::InvalidChoiceIndex)
    } else {
        match combat_menu(inventory)[choice as int] {
            Action::AttackStraight(weapon) => if direction == 0 {
                Ok(Action::AttackLeft(weapon))
            } else if direction == 1 {
                Ok(Action::AttackStraight(weapon))
            } else if direction == 2 {
                Ok(Action::AttackRight(weapon))
            } else {
                Err(GameError::InvalidChoiceIndex)
            },
            action => Ok(action),
        }
    }
}

/// The questions that choosing a move puts to the player: which move, and
/// after the pick of an attack which way.
pub open spec fn combat_questions(inventory: Seq<Item>, choice: usize, direction: usize) -> Seq<
    Question,
> {
    if asks_direction(inventory, choice) {
        seq![
            (combat_words(inventory), "What do you do?"@, choice),
            (direction_words(), "Which way do you attack?"@, direction),
        ]
    } else {
        seq![(combat_words(inventory), "What do you do?"@, choice)]
    }
}

/// The attack with the weapon at position `weapon` in the direction that
/// the player picked from the list left, straight, right.
pub fn aim_attack(weapon: usize, direction: usize) -> (result: Result<Action, GameError>)
    ensures
        result == (if direction == 0 {
            Ok::<Action, GameError>(Action::AttackLeft(weapon))
        } else if direction == 1 {
            Ok(Action::AttackStraight(weapon))
        } else if direction == 2 {
            Ok(Action::AttackRight(weapon))
        } else {
            Err(GameError::InvalidChoiceIndex)
        }),
{
    let aimed = if direction == 0 {
        Direction::Left
    } else if direction == 1 {
        Direction::Straight
    } else if direction == 2 {
        Direction::Right
    } else {
        return Err(GameError::InvalidChoiceIndex);
    };
    Ok(Action::attack(aimed, weapon))
}

/// The move at position `choice` of the moves on offer, or
/// [`GameError::InvalidChoiceIndex`] where nothing was offered at that
/// position.
pub fn offered_action(options: &Vec<Action>, choice: usize) -> (result: Result<Action, GameError>)
    ensures
        result == (if choice < options.len() {
            Ok::<Action, GameError>(options[choice as int])
        } else {
            Err(GameError::InvalidChoiceIndex)
        }),
{
    if choice < options.len() {
        Ok(options[choice])
    } else {
        Err(GameError::InvalidChoiceIndex)
    }
}

impl Player {
    /// The page that tells the player where they are.
    pub fn room_screen(&self) -> (screen: Screen)
        ensures
            screen.title@ == "You are in the "@ + self.room.name()@ + "."@,
            screen.content@ == self.room.description()@,
    {
        let mut title = String::from_str("You are in the ");
        title.append(self.room.get_name());
        title.append(".");
        Screen { title, content: String::from_str(self.room.get_description()) }
    }

    /// Prints a screen describing the current [`RoomState`]: the page of
    /// [`room_screen`](Self::room_screen) is shown on the console, and
    /// nothing else is.
    pub fn print_room<M: Menu>(&self, menu: &mut Console<M>)
        ensures
            final(menu).shown() == old(menu).shown().push(
                ("You are in the "@ + self.room.name()@ + "."@, self.room.description()@),
            ),
            final(menu).asked() == old(menu).asked(),
    {
        menu.show_screen(self.room_screen());
    }

    /// The page that tells the player how they are doing.
    pub fn state_screen(&self) -> (screen: Screen)
        ensures
            screen.title@ == "You take a moment to rest and check your body for injuries"@,
            screen.content@ == "You are at "@ + decimal(self.health@) + "/"@ + decimal(
                self.max_health@,
            ) + " HP"@,
    {
        let mut content = String::from_str("You are at ");
        push_decimal(&mut content, self.health.points() as u64);
        content.append("/");
        push_decimal(&mut content, self.max_health.points() as u64);
        content.append(" HP");
        Screen {
            title: String::from_str("You take a moment to rest and check your body for injuries"),
            content,
        }
    }

    /// Prints the [`Player`]'s health: the page of
    /// [`state_screen`](Self::state_screen) is shown on the console, and
    /// nothing else is.
    pub fn print_state<M: Menu>(&self, menu: &mut Console<M>)
        ensures
            final(menu).shown() == old(menu).shown().push(
                (
                    "You take a moment to rest and check your body for injuries"@,
                    "You are at "@ + decimal(self.health@) + "/"@ + decimal(self.max_health@)
                        + " HP"@,
                ),
            ),
            final(menu).asked() == old(menu).asked(),
    {
        menu.show_screen(self.state_screen());
    }

    /// The moves on offer in a duel, each with the words by which it is
    /// offered.
    pub fn combat_options(&self) -> (offer: (Vec<Action>, Vec<String>))
        ensures
            offer.0@ == combat_menu(self.inventory@),
            offer.1@.len() == offer.0@.len(),
            forall|k: int|
                0 <= k < offer.0@.len() ==> (#[trigger] offer.1@[k])@ == combat_label(
                    self.inventory@,
                    offer.0@[k],
                ),
    {
        let mut options: Vec<Action> = Vec::new();
        let mut labels: Vec<String> = Vec::new();
        options.push(Action::Nothing);
        labels.push(String::from_str("Do nothing"));
        options.push(Action::DodgeLeft);
        labels.push(String::from_str("Dodge to the left"));
        options.push(Action::DodgeRight);
        labels.push(String::from_str("Dodge to the right"));
        let mut i: usize = 0;
        while i < self.inventory.len()
            invariant
                i <= self.inventory.len(),
                options@ =~= combat_menu(self.inventory@.take(i as int)),
                labels@.len() == options@.len(),
                forall|k: int|
                    0 <= k < options@.len() ==> (#[trigger] labels@[k])@ == combat_label(
                        self.inventory@,
                        options@[k],
                    ),
            decreases self.inventory.len() - i,
        {
            match &self.inventory[i] {
                Item::Food(food) => {
                    options.push(Action::EatFood(i));
                    let mut label = String::from_str("Eat your ");
                    label.append(food.name);
                    labels.push(label);
                },
                Item::Weapon(weapon) => {
                    options.push(Action::AttackStraight(i));
                    let mut label = String::from_str("Attack with your ");
                    label.append(weapon.name);
                    labels.push(label);
                },
            }
            i += 1;
        }
        assert(self.inventory@.take(i as int) =~= self.inventory@);
        (options, labels)
    }

    /// Get the user to choose a [combat action][Action] to perform: first
    /// the move, from the list of [`combat_options`](Self::combat_options),
    /// and for an attack then the direction, from left, straight, right.
    /// No page is shown. The move that comes back is the one that the
    /// answers stand for, and so one that the player can make; an answer
    /// that was not on offer is reported as
    /// [`GameError::InvalidChoiceIndex`].
    pub fn choose_combat_action<M: Menu>(&self, menu: &mut Console<M>) -> (result: Result<
        Action,
        GameError,
    >)
        ensures
            final(menu).shown() == old(menu).shown(),
            exists|choice: usize, direction: usize|
                #![trigger combat_choice(self.inventory@, choice, direction)]
                {
                    &&& result == combat_choice(self.inventory@, choice, direction)
                    &&& final(menu).asked() == old(menu).asked() + combat_questions(
                        self.inventory@,
                        choice,
                        direction,
                    )
                },
            result matches Ok(action) ==> player_may(self.inventory@, action),
            result matches Err(error) ==> error == GameError::InvalidChoiceIndex,
    {
        let (options, labels) = self.combat_options();
        assert(words(labels@) =~= combat_words(self.inventory@));
        let choice = menu.show_option_list(OptionList::new(labels, "What do you do?"));
        let chosen = match offered_action(&options, choice) {
            Ok(action) => action,
            Err(error) => {
                assert(menu.asked() =~= old(menu).asked() + combat_questions(
                    self.inventory@,
                    choice,
                    0,
                ));
                assert(Err::<Action, GameError>(error) == combat_choice(self.inventory@, choice, 0));
                return Err(error);
            },
        };
        if let Action::AttackStraight(weapon) = chosen {
            let mut directions: Vec<String> = Vec::new();
            directions.push(String::from_str("Attack Left"));
            directions.push(String::from_str("Attack Straight"));
            directions.push(String::from_str("Attack Right"));
            assert(words(directions@) =~= direction_words());
            let direction = menu.show_option_list(
                OptionList::new(directions, "Which way do you attack?"),
            );
            let aimed = aim_attack(weapon, direction);
            assert(menu.asked() =~= old(menu).asked() + combat_questions(
                self.inventory@,
                choice,
                direction,
            ));
            assert(aimed == combat_choice(self.inventory@, choice, direction));
            aimed
        } else {
            assert(menu.asked() =~= old(menu).asked() + combat_questions(
                self.inventory@,
                choice,
                0,
            ));
            assert(Ok::<Action, GameError>(chosen) == combat_choice(self.inventory@, choice, 0));
            Ok(chosen)
        }
    }

    /// Get a [`String`] describing the [`Player`] performing a
    /// [combat action][Action]. A move that names a position at which the
    /// player carries nothing cannot be described.
    pub fn describe_combat_action(&self, action: Action) -> (result: Result<String, GameError>)
        ensures
            match action.item() {
                Some(i) if i >= self.inventory@.len() => result == Err::<String, GameError>(
                    GameError::InvalidAction,
                ),
                _ => result is Ok && result->Ok_0@ == combat_description(self.inventory@, action),
            },
    {
        match action {
            Action::DodgeLeft => Ok(String::from_str("You dodge to the left")),
            Action::DodgeRight => Ok(String::from_str("You dodge to the right")),
            Action::Nothing => Ok(String::from_str("You do nothing")),
            Action::AttackLeft(i) | Action::AttackRight(i) | Action::AttackStraight(i)
            | Action::EatFood(i) => {
                if i >= self.inventory.len() {
                    return Err(GameError::InvalidAction);
                }
                let mut text = String::from_str(
                    match action {
                        Action::AttackLeft(_) => "You attack to the left with your ",
                        Action::AttackRight(_) => "You attack to the right with your ",
                        Action::AttackStraight(_) => "You attack in front of you with your ",
                        _ => "You attempt to eat your ",
                    },
                );
                text.append(self.inventory[i].get_name());
                Ok(text)
            },
        }
    }
}

/// An action the [`Player`] can take outside of a battle. The numbers are
/// positions: of a way out among the ways out of the room, of an item among
/// what the player carries, of an item among what lies in the room.
#[derive(Clone, Copy, Debug, PartialEq, Eq, Structural)]
pub enum PassiveAction {
    /// Look at the [`Player`]'s health
    CheckState,
    /// Leave by the way out at the given position
    GoToRoom(usize),
    /// Use the [`Item`] at the given position of the
    /// [player's inventory][Player::inventory]
    UseItem(usize),
    /// Pick up the [`Item`] at the given position of what lies in the room
    PickUpItem(usize),
}

/// The food among `inventory`, as the offers to eat it, in the order of the
/// inventory.
pub open spec fn meals(inventory: Seq<Item>) -> Seq<PassiveAction>
    decreases inventory.len(),
{
    if inventory.len() == 0 {
        Seq::empty()
    } else if inventory.last() is Food {
        meals(inventory.drop_last()).push(PassiveAction::UseItem((inventory.len() - 1) as usize))
    } else {
        meals(inventory.drop_last())
    }
}

/// What a player who carries `inventory` is offered in a room in the state
/// `state`: a look at their health, then each way out, then each item that
/// lies in the room, then each piece of food that they carry.
pub open spec fn passive_menu(state: RoomState, inventory: Seq<Item>) -> Seq<PassiveAction> {
    seq![PassiveAction::CheckState] + Seq::new(
        state.connections@.len(),
        |i: int| PassiveAction::GoToRoom(i as usize),
    ) + Seq::new(state.items@.len(), |i: int| PassiveAction::PickUpItem(i as usize)) + meals(
        inventory,
    )
}

/// How an action is offered to a player who carries `inventory` in a room
/// in the state `state`.
pub open spec fn passive_label(state: RoomState, inventory: Seq<Item>, action: PassiveAction) -> Seq<
    char,
> {
    match action {
        PassiveAction::CheckState => "Check how you're doing"@,
        PassiveAction::GoToRoom(i) => state.connections@[i as int].offer(),
        PassiveAction::PickUpItem(i) => "Pick up the "@ + state.items@[i as int].name()@ + " - "@
            + state.items@[i as int].description(),
        PassiveAction::UseItem(i) => "Eat your "@ + inventory[i as int].name()@,
    }
}

/// Whether the action can be carried out by a player who carries
/// `inventory` in a room in the state `state`.
pub open spec fn passive_may(state: RoomState, inventory: Seq<Item>, action: PassiveAction) -> bool {
    match action {
        PassiveAction::CheckState => true,
        PassiveAction::GoToRoom(i) => i < state.connections@.len(),
        PassiveAction::PickUpItem(i) => i < state.items@.len(),
        PassiveAction::UseItem(i) => i < inventory.len() && inventory[i as int] is Food,
    }
}

/// The words by which the actions of [`passive_menu`] are offered, in the
/// same order.
pub open spec fn passive_words(state: RoomState, inventory: Seq<Item>) -> Seq<Seq<char>> {
    Seq::new(
        passive_menu(state, inventory).len(),
        |k: int| passive_label(state, inventory, passive_menu(state, inventory)[k]),
    )
}

/// The question that is put outside of a battle, with the answer `choice`.
pub open spec fn passive_question(state: RoomState, inventory: Seq<Item>, choice: usize) -> Question {
    (passive_words(state, inventory), "What do you do?"@, choice)
}

/// The action that the answer stands for: the one at position `choice` of
/// [`passive_menu`], or [`GameError::InvalidChoiceIndex`] where nothing was
/// offered at that position.
pub open spec fn passive_choice(state: RoomState, inventory: Seq<Item>, choice: usize) -> Result<
    PassiveAction,
    GameError,
> {
    if choice < passive_menu(state, inventory).len() {
        Ok(passive_menu(state, inventory)[choice as int])
    } else {
        Err(GameError::InvalidChoiceIndex)
    }
}

/// Every offer to eat names a position at which there is food.
pub proof fn lemma_meals_are_food(inventory: Seq<Item>, k: int)
    requires
        inventory.len() <= usize::MAX,
        0 <= k < meals(inventory).len(),
    ensures
        meals(inventory)[k] matches PassiveAction::UseItem(i) && i < inventory.len()
            && inventory[i as int] is Food,
    decreases inventory.len(),
{
    if inventory.len() > 0 {
        if k < meals(inventory.drop_last()).len() {
            lemma_meals_are_food(inventory.drop_last(), k);
        }
    }
}

/// Everything on offer can be carried out.
pub proof fn lemma_offers_can_be_taken(state: RoomState, inventory: Seq<Item>, k: int)
    requires
        inventory.len() <= usize::MAX,
        0 <= k < passive_menu(state, inventory).len(),
    ensures
        passive_may(state, inventory, passive_menu(state, inventory)[k]),
{
    let fixed = 1 + state.connections@.len() + state.items@.len();
    if k >= fixed {
        lemma_meals_are_food(inventory, k - fixed);
    }
}

/// The action at position `choice` of the actions on offer, or
/// [`GameError::InvalidChoiceIndex`] where nothing was offered at that
/// position.
pub fn offered_passive_action(options: &Vec<PassiveAction>, choice: usize) -> (result: Result<
    PassiveAction,
    GameError,
>)
    ensures
        result == (if choice < options.len() {
            Ok::<PassiveAction, GameError>(options[choice as int])
        } else {
            Err(GameError::InvalidChoiceIndex)
        }),
{
    if choice < options.len() {
        Ok(options[choice])
    } else {
        Err(GameError::InvalidChoiceIndex)
    }
}

impl Player {
    /// The actions on offer outside of a battle, each with the words by
    /// which it is offered.
    pub fn passive_options(&self) -> (offer: (Vec<PassiveAction>, Vec<String>))
        requires
            self.room_graph.placed(),
        ensures
            offer.0@ == passive_menu(self.room_state(), self.inventory@),
            offer.1@.len() == offer.0@.len(),
            forall|k: int|
                0 <= k < offer.0@.len() ==> (#[trigger] offer.1@[k])@ == passive_label(
                    self.room_state(),
                    self.inventory@,
                    offer.0@[k],
                ),
    {
        let state = self.get_room_state();
        let mut options: Vec<PassiveAction> = Vec::new();
        let mut labels: Vec<String> = Vec::new();
        options.push(PassiveAction::CheckState);
        labels.push(String::from_str("Check how you're doing"));
        let mut i: usize = 0;
        while i < state.connections.len()
            invariant
                i <= state.connections.len(),
                options@ =~= seq![PassiveAction::CheckState] + Seq::new(
                    i as nat,
                    |j: int| PassiveAction::GoToRoom(j as usize),
                ),
                labels@.len() == options@.len(),
                forall|k: int|
                    0 <= k < options@.len() ==> (#[trigger] labels@[k])@ == passive_label(
                        *state,
                        self.inventory@,
                        options@[k],
                    ),
            decreases state.connections.len() - i,
        {
            options.push(PassiveAction::GoToRoom(i));
            labels.push(state.connections[i].prompt());
            i += 1;
        }
        let ghost ways = options@;
        let mut i: usize = 0;
        while i < state.items.len()
            invariant
                i <= state.items.len(),
                options@ =~= ways + Seq::new(i as nat, |j: int| PassiveAction::PickUpItem(j as usize)),
                labels@.len() == options@.len(),
                forall|k: int|
                    0 <= k < options@.len() ==> (#[trigger] labels@[k])@ == passive_label(
                        *state,
                        self.inventory@,
                        options@[k],
                    ),
            decreases state.items.len() - i,
        {
            let item = &state.items[i];
            options.push(PassiveAction::PickUpItem(i));
            let mut label = String::from_str("Pick up the ");
            label.append(item.get_name());
            label.append(" - ");
            label.append(item.get_description().as_str());
            labels.push(label);
            i += 1;
        }
        let ghost finds = options@;
        let mut i: usize = 0;
        while i < self.inventory.len()
            invariant
                i <= self.inventory.len(),
                options@ =~= finds + meals(self.inventory@.take(i as int)),
                labels@.len() == options@.len(),
                forall|k: int|
                    0 <= k < options@.len() ==> (#[trigger] labels@[k])@ == passive_label(
                        *state,
                        self.inventory@,
                        options@[k],
                    ),
            decreases self.inventory.len() - i,
        {
            let item = &self.inventory[i];
            proof {
                let next = self.inventory@.take(i + 1);
                assert(next.drop_last() =~= self.inventory@.take(i as int));
                assert(next.last() == self.inventory@[i as int]);
            }
            if item.is_food() {
                options.push(PassiveAction::UseItem(i));
                let mut label = String::from_str("Eat your ");
                label.append(item.get_name());
                labels.push(label);
            }
            i += 1;
        }
        assert(self.inventory@.take(i as int) =~= self.inventory@);
        (options, labels)
    }

    /// Asks the user what [`PassiveAction`] to perform given the
    /// [`Player`]'s inventory and the current [`RoomState`]: one question,
    /// with the list of [`passive_options`](Self::passive_options). No page
    /// is shown. The action that comes back is the one that the answer
    /// stands for, and so one that can be carried out; an answer that was
    /// not on offer is reported as [`GameError::InvalidChoiceIndex`].
    pub fn choose_passive_action<M: Menu>(&self, menu: &mut Console<M>) -> (result: Result<
        PassiveAction,
        GameError,
    >)
        requires
            self.room_graph.placed(),
        ensures
            final(menu).shown() == old(menu).shown(),
            exists|choice: usize|
                #![trigger passive_choice(self.room_state(), self.inventory@, choice)]
                {
                    &&& result == passive_choice(self.room_state(), self.inventory@, choice)
                    &&& final(menu).asked() == old(menu).asked().push(
                        passive_question(self.room_state(), self.inventory@, choice),
                    )
                },
            result matches Ok(action) ==> passive_menu(self.room_state(), self.inventory@).contains(
                action,
            ) && passive_may(self.room_state(), self.inventory@, action),
            result matches Err(error) ==> error == GameError::InvalidChoiceIndex,
    {
        let (options, labels) = self.passive_options();
        assert(words(labels@) =~= passive_words(self.room_state(), self.inventory@));
        let choice = menu.show_option_list(OptionList::new(labels, "What do you do?"));
        proof {
            if choice < options.len() {
                assert(self.inventory.len() <= usize::MAX);
                lemma_offers_can_be_taken(self.room_state(), self.inventory@, choice as int);
            }
        }
        let picked = offered_passive_action(&options, choice);
        assert(picked == passive_choice(self.room_state(), self.inventory@, choice));
        picked
    }
}

/// `after` is `before` once the player has eaten the food at position `i`
/// of what they carried: healed by what the food restores, as far as the
/// maximum allows, and without the food.
pub open spec fn ate(before: Player, after: Player, i: usize) -> bool {
    &&& after.health@ == healed(
        before.health@,
        before.inventory@[i as int].healing(),
        before.max_health@,
    )
    &&& after.inventory@ == before.inventory@.remove(i as int)
    &&& after.max_health == before.max_health
    &&& after.room == before.room
    &&& after.room_graph == before.room_graph
}

/// `after` is `before` once the player has picked up the item at position
/// `i` of what lay in the room: the item is the last of what they carry,
/// and it lies in the room no more. No other room has changed.
pub open spec fn picked_up(before: Player, after: Player, i: usize) -> bool {
    &&& after.inventory@ == before.inventory@.push(before.room_state().items@[i as int])
    &&& after.room_state().items@ == before.room_state().items@.remove(i as int)
    &&& after.room_state().room == before.room_state().room
    &&& after.room_state().enemy == before.room_state().enemy
    &&& after.room_state().connections == before.room_state().connections
    &&& after.room_state().actions == before.room_state().actions
    &&& after.room_graph.rooms@ == before.room_graph.rooms@.update(
        before.room.number() as int,
        after.room_state(),
    )
    &&& after.room == before.room
    &&& after.health == before.health
    &&& after.max_health == before.max_health
}

/// `after` is `before` once the player has left by the way out at position
/// `i`: they are in the room that the way leads to, and nothing else has
/// changed.
pub open spec fn moved(before: Player, after: Player, i: usize) -> bool {
    &&& after.room == before.room_state().connections@[i as int].to
    &&& after.inventory == before.inventory
    &&& after.health == before.health
    &&& after.max_health == before.max_health
    &&& after.room_graph == before.room_graph
}

/// `after` is `before` once the action has been carried out.
pub open spec fn passive_outcome(before: Player, after: Player, action: PassiveAction) -> bool {
    match action {
        PassiveAction::CheckState => after == before,
        PassiveAction::GoToRoom(i) => moved(before, after, i),
        PassiveAction::UseItem(i) => ate(before, after, i),
        PassiveAction::PickUpItem(i) => picked_up(before, after, i),
    }
}

/// What the player is told after a meal that took them from `before` to
/// `after` hit points out of `max`.
pub open spec fn meal_report(before: nat, after: nat, max: nat) -> Seq<char> {
    "You are healed by "@ + decimal((after - before) as nat) + " HP.\nYou are now at "@ + decimal(
        after,
    ) + "/"@ + decimal(max) + " HP."@
}

/// The pages that stand for `page`: the one page, or none.
pub open spec fn pages_of(page: Option<Screen>) -> Seq<Page> {
    match page {
        Some(screen) => seq![(screen.title@, screen.content@)],
        None => Seq::empty(),
    }
}

/// The page that tells of the meal that took the player from `before` to
/// `after`, of the food at position `i` of what they carried.
pub open spec fn meal_page(before: Player, after: Player, i: usize) -> Page {
    (
        "You ate your "@ + before.inventory@[i as int].name()@,
        meal_report(before.health@, after.health@, before.max_health@),
    )
}

/// The pages that carrying out `action` shows, where it took the player
/// from `before` to `after`: their health for a look at it, the report of
/// the meal for a meal, and nothing for a move or for picking something
/// up.
pub open spec fn passive_pages(before: Player, after: Player, action: PassiveAction) -> Seq<Page> {
    match action {
        PassiveAction::CheckState => seq![
            (
                "You take a moment to rest and check your body for injuries"@,
                "You are at "@ + decimal(before.health@) + "/"@ + decimal(before.max_health@)
                    + " HP"@,
            ),
        ],
        PassiveAction::GoToRoom(_) => Seq::empty(),
        PassiveAction::UseItem(i) => seq![meal_page(before, after, i)],
        PassiveAction::PickUpItem(_) => Seq::empty(),
    }
}

impl Player {
    /// Eats the food at position `i` of the inventory and returns the page
    /// that tells the player how that went. Where there is no food at that
    /// position the player is unchanged and the error is
    /// [`GameError::InvalidAction`]: a weapon cannot be eaten.
    pub fn eat_item(&mut self, i: usize) -> (result: Result<Screen, GameError>)
        requires
            old(self).health@ <= old(self).max_health@,
        ensures
            result is Ok <==> i < old(self).inventory@.len() && old(self).inventory@[i as int] is Food,
            result matches Err(error) ==> error == GameError::InvalidAction && *final(self) == *old(self),
            result matches Ok(screen) ==> {
                &&& ate(*old(self), *final(self), i)
                &&& final(self).health@ <= final(self).max_health@
                &&& screen.title@ == "You ate your "@ + old(self).inventory@[i as int].name()@
                &&& screen.content@ == meal_report(
                    old(self).health@,
                    final(self).health@,
                    old(self).max_health@,
                )
            },
    {
        if i >= self.inventory.len() {
            return Err(GameError::InvalidAction);
        }
        let (name, amount) = match &self.inventory[i] {
            Item::Food(food) => (food.name, food.heals_for),
            Item::Weapon(_) => {
                return Err(GameError::InvalidAction);
            },
        };
        let before = self.health.points();
        let max = self.max_health;
        self.health.heal_to_max(amount, max);
        self.inventory.remove(i);
        let mut title = String::from_str("You ate your ");
        title.append(name);
        let mut content = String::from_str("You are healed by ");
        push_decimal(&mut content, (self.health.points() - before) as u64);
        content.append(" HP.\nYou are now at ");
        push_decimal(&mut content, self.health.points() as u64);
        content.append("/");
        push_decimal(&mut content, max.points() as u64);
        content.append(" HP.");
        Ok(Screen { title, content })
    }

    /// Uses the [`Item`] at the given index into the [`Player`]'s inventory
    /// and shows the player the page of the meal. Only food can be used
    /// outside of a battle: for anything else nothing is shown and nothing
    /// changes.
    pub fn use_item<M: Menu>(&mut self, menu: &mut Console<M>, i: usize) -> (result: Result<
        (),
        GameError,
    >)
        requires
            old(self).health@ <= old(self).max_health@,
        ensures
            result is Ok <==> i < old(self).inventory@.len() && old(self).inventory@[i as int] is Food,
            result is Err ==> result == Err::<(), GameError>(GameError::InvalidAction) && *final(self) == *old(self) && final(menu).shown() == old(menu).shown(),
            result is Ok ==> ate(*old(self), *final(self), i) && final(self).health@ <= final(self).max_health@ && final(menu).shown() == old(menu).shown().push(
                meal_page(*old(self), *final(self), i),
            ),
            final(menu).asked() == old(menu).asked(),
    {
        match self.eat_item(i) {
            Ok(screen) => {
                menu.show_screen(screen);
                Ok(())
            },
            Err(error) => Err(error),
        }
    }

    /// Removes an [`Item`] from the current [`RoomState`] at the specified
    /// index and adds it to the [player's inventory][Player::inventory].
    /// Where nothing lies at that position the player is unchanged and the
    /// error is [`GameError::InvalidAction`].
    pub fn pick_up_item_from_room(&mut self, i: usize) -> (result: Result<(), GameError>)
        requires
            old(self).room_graph.placed(),
        ensures
            result is Ok <==> i < old(self).room_state().items@.len(),
            result is Err ==> result == Err::<(), GameError>(GameError::InvalidAction) && *final(self) == *old(self),
            result is Ok ==> picked_up(*old(self), *final(self), i),
            final(self).room_graph.placed(),
            old(self).room_graph.wf() ==> final(self).room_graph.wf(),
    {
        if i >= self.get_room_state().items.len() {
            return Err(GameError::InvalidAction);
        }
        let state = self.get_room_state_mut();
        let item = state.items.remove(i);
        self.pick_up_item(item);
        Ok(())
    }

    /// Carries out `action` and returns the page to show the player, if
    /// there is one. An action that cannot be carried out leaves the player
    /// unchanged and is reported as [`GameError::InvalidAction`].
    pub fn perform_passive_action(&mut self, action: PassiveAction) -> (result: Result<
        Option<Screen>,
        GameError,
    >)
        requires
            old(self).steady(),
        ensures
            result is Ok <==> passive_may(old(self).room_state(), old(self).inventory@, action),
            result matches Err(error) ==> error == GameError::InvalidAction && *final(self) == *old(self),
            result is Ok ==> passive_outcome(*old(self), *final(self), action),
            final(self).steady(),
            old(self).wf() ==> final(self).wf(),
            result matches Ok(page) ==> pages_of(page) == passive_pages(
                *old(self),
                *final(self),
                action,
            ),
    {
        match action {
            PassiveAction::CheckState => Ok(Some(self.state_screen())),
            PassiveAction::GoToRoom(i) => {
                let state = self.get_room_state();
                if i >= state.connections.len() {
                    return Err(GameError::InvalidAction);
                }
                let to = state.connections[i].to;
                self.room = to;
                Ok(None)
            },
            PassiveAction::UseItem(i) => match self.eat_item(i) {
                Ok(screen) => Ok(Some(screen)),
                Err(error) => Err(error),
            },
            PassiveAction::PickUpItem(i) => match self.pick_up_item_from_room(i) {
                Ok(()) => Ok(None),
                Err(error) => Err(error),
            },
        }
    }

    /// Gets a [`PassiveAction`] from the user and carries it out: one
    /// question is put, and the action that the answer stands for is
    /// carried out and its page shown. An answer that was not on offer
    /// changes nothing, shows nothing and is reported as
    /// [`GameError::InvalidChoiceIndex`].
    pub fn take_passive_action<M: Menu>(&mut self, menu: &mut Console<M>) -> (result: Result<
        (),
        GameError,
    >)
        requires
            old(self).steady(),
        ensures
            final(self).steady(),
            old(self).wf() ==> final(self).wf(),
            exists|choice: usize|
                #![trigger passive_choice(old(self).room_state(), old(self).inventory@, choice)]
                {
                    &&& final(menu).asked() == old(menu).asked().push(
                        passive_question(old(self).room_state(), old(self).inventory@, choice),
                    )
                    &&& match passive_choice(old(self).room_state(), old(self).inventory@, choice) {
                        Ok(action) => {
                            &&& result == Ok::<(), GameError>(())
                            &&& passive_outcome(*old(self), *final(self), action)
                            &&& final(menu).shown() == old(menu).shown() + passive_pages(
                                *old(self),
                                *final(self),
                                action,
                            )
                        },
                        Err(error) => {
                            &&& result == Err::<(), GameError>(error)
                            &&& *final(self) == *old(self)
                            &&& final(menu).shown() == old(menu).shown()
                        },
                    }
                },
    {
        let ghost before = menu.shown();
        let action = match self.choose_passive_action(menu) {
            Ok(action) => action,
            Err(error) => {
                return Err(error);
            },
        };
        match self.perform_passive_action(action) {
            Ok(Some(screen)) => {
                menu.show_screen(screen);
                assert(menu.shown() =~= before + passive_pages(*old(self), *self, action));
                Ok(())
            },
            Ok(None) => {
                assert(menu.shown() =~= before + passive_pages(*old(self), *self, action));
                Ok(())
            },
            Err(error) => Err(error),
        }
    }
}

} // verus!
