//! The rooms of the ship and what is in them.

use vstd::prelude::*;
use vstd::string::StringExecFns;
use crate::combat::enemy::Enemy;
use crate::items::{Food, Item, Weapon};
use crate::map::RoomAction;

verus! {

/// How many rooms the ship has.
pub const ROOM_COUNT: usize = 15;

pub const BRIDGE_NAME: &'static str = "Bridge";

pub const UPPER_CORRIDOR_NAME: &'static str = "Upper Corridor";

pub const STRATEGY_ROOM_NAME: &'static str = "Strategy Room";

pub const CELLS_NAME: &'static str = "Cells";

pub const MESS_HALL_NAME: &'static str = "Mess Hall";

pub const KITCHEN_NAME: &'static str = "Kitchen";

pub const STAIRWELL_NAME: &'static str = "Stairwell";

pub const CREW_AREA_NAME: &'static str = "Crew Area";

pub const STORE_ROOM_NAME: &'static str = "Store Room";

pub const LOWER_CORRIDOR_NAME: &'static str = "Lower Corridor";

pub const WASH_ROOM_NAME: &'static str = "Wash Room";

pub const BUNKS_NAME: &'static str = "Bunks";

pub const ENGINE_ROOM_NAME: &'static str = "Engine Room";

pub const ESCAPE_POD_NAME: &'static str = "Escape Pod";

pub const ESCAPE_NAME: &'static str = "";

pub const BRIDGE_TEXT: &'static str =
    "The control centre of the ship. Through the front window you can see into the darkness of space.";

pub const UPPER_CORRIDOR_TEXT: &'static str =
    "A corridor connecting the bridge to the rest of the ship.";

pub const STRATEGY_ROOM_TEXT: &'static str =
    "Where important tactical decisions are made. Before you arrived, the most important decision since since leaving the front lines had been what galactic time zone to use.";

pub const CELLS_TEXT: &'static str =
    "Where they keep prisoners such as yourself. The ship is on a skeleton crew on its way to pick up troops and the security isn't up to scratch, so you managed to force open the door.";

pub const MESS_HALL_TEXT: &'static str =
    "Where the crew eat their meals. A holo-screen in the corner is playing a game of half-G volleyball.";

pub const KITCHEN_TEXT: &'static str =
    "An immaculately clean kitchen area. All the appliances are electric - no open flames are allowed on the ship.";

pub const STAIRWELL_TEXT: &'static str =
    "A stairwell. There's not much to do, but out the window you can see the ship's engines pushing you forward into your captors' grip.";

pub const CREW_AREA_TEXT: &'static str =
    "Where the soldiers relax after a long cycle. If there were any, that is. There's a dart board on the wall, but no darts anywhere.";

pub const STORE_ROOM_TEXT: &'static str =
    "A small room with many shelves containing various things. The light is broken so you can only make out shapes close to the door.";

pub const LOWER_CORRIDOR_TEXT: &'static str =
    "A corridor connecting the crew area to the engine room.";

pub const WASH_ROOM_TEXT: &'static str =
    "A spotless wash room containing a few showers and a few toilets. This is a military vessel, so there's no need for privacy.";

pub const BUNKS_TEXT: &'static str = "The soldiers will sleep here when they are on board";

pub const ENGINE_ROOM_TEXT: &'static str =
    "Where the ship's internals are serviced from. The actual engines are at the back of the ship, but this is where the boiler and the electrical breakers are.";

pub const ESCAPE_POD_TEXT: &'static str =
    "A pod big enough for only two people. It has enough fuel to get you to safety, but only just.";

pub const ESCAPE_TEXT: &'static str = "";

/// One of the rooms of the ship. This is the name of a room only: what is in
/// the room is its [`RoomState`].
#[derive(Debug, Clone, Copy, PartialEq, Eq, Hash, Structural)]
pub enum Room {
    /// The bridge
    Bridge,
    /// The corridor on the upper floor
    UpperCorridor,
    /// The strategy room
    StrategyRoom,
    /// The cells where prisoners are kept
    Cells,
    /// The mess hall
    MessHall,
    /// The kitchen
    Kitchen,
    /// The stairwell connecting the two floors
    Stairwell,
    /// The crew area
    CrewArea,
    /// The store room
    StoreRoom,
    /// The corridor on the lower floor
    LowerCorridor,
    /// The wash room
    WashRoom,
    /// The crew's bunks
    Bunks,
    /// The engine room
    EngineRoom,
    /// The escape pod
    EscapePod,
    /// The room that, once reached, wins the game
    Escape,
}

impl Room {
    /// The place of the room among the rooms of the ship, counted from 0.
    pub open spec fn number(self) -> nat {
        match self {
            Room::Bridge => 0,
            Room::UpperCorridor => 1,
            Room::StrategyRoom => 2,
            Room::Cells => 3,
            Room::MessHall => 4,
            Room::Kitchen => 5,
            Room::Stairwell => 6,
            Room::CrewArea => 7,
            Room::StoreRoom => 8,
            Room::LowerCorridor => 9,
            Room::WashRoom => 10,
            Room::Bunks => 11,
            Room::EngineRoom => 12,
            Room::EscapePod => 13,
            Room::Escape => 14,
        }
    }

    /// What the room is called.
    pub open spec fn name(self) -> &'static str {
        match self {
            Room::Bridge => BRIDGE_NAME,
            Room::UpperCorridor => UPPER_CORRIDOR_NAME,
            Room::StrategyRoom => STRATEGY_ROOM_NAME,
            Room::Cells => CELLS_NAME,
            Room::MessHall => MESS_HALL_NAME,
            Room::Kitchen => KITCHEN_NAME,
            Room::Stairwell => STAIRWELL_NAME,
            Room::CrewArea => CREW_AREA_NAME,
            Room::StoreRoom => STORE_ROOM_NAME,
            Room::LowerCorridor => LOWER_CORRIDOR_NAME,
            Room::WashRoom => WASH_ROOM_NAME,
            Room::Bunks => BUNKS_NAME,
            Room::EngineRoom => ENGINE_ROOM_NAME,
            Room::EscapePod => ESCAPE_POD_NAME,
            Room::Escape => ESCAPE_NAME,
        }
    }

    /// What the player is told on entering the room.
    pub open spec fn description(self) -> &'static str {
        match self {
            Room::Bridge => BRIDGE_TEXT,
            Room::UpperCorridor => UPPER_CORRIDOR_TEXT,
            Room::StrategyRoom => STRATEGY_ROOM_TEXT,
            Room::Cells => CELLS_TEXT,
            Room::MessHall => MESS_HALL_TEXT,
            Room::Kitchen => KITCHEN_TEXT,
            Room::Stairwell => STAIRWELL_TEXT,
            Room::CrewArea => CREW_AREA_TEXT,
            Room::StoreRoom => STORE_ROOM_TEXT,
            Room::LowerCorridor => LOWER_CORRIDOR_TEXT,
            Room::WashRoom => WASH_ROOM_TEXT,
            Room::Bunks => BUNKS_TEXT,
            Room::EngineRoom => ENGINE_ROOM_TEXT,
            Room::EscapePod => ESCAPE_POD_TEXT,
            Room::Escape => ESCAPE_TEXT,
        }
    }

    /// The place of the room among the rooms of the ship, counted from 0.
    pub fn index(self) -> (index: usize)
        ensures
            index == self.number(),
            index < ROOM_COUNT,
    {
        match self {
            Room::Bridge => 0,
            Room::UpperCorridor => 1,
            Room::StrategyRoom => 2,
            Room::Cells => 3,
            Room::MessHall => 4,
            Room::Kitchen => 5,
            Room::Stairwell => 6,
            Room::CrewArea => 7,
            Room::StoreRoom => 8,
            Room::LowerCorridor => 9,
            Room::WashRoom => 10,
            Room::Bunks => 11,
            Room::EngineRoom => 12,
            Room::EscapePod => 13,
            Room::Escape => 14,
        }
    }

    /// Get the name of a room
    pub fn get_name(self) -> (name: &'static str)
        ensures
            name == self.name(),
    {
        match self {
            Room::Bridge => BRIDGE_NAME,
            Room::UpperCorridor => UPPER_CORRIDOR_NAME,
            Room::StrategyRoom => STRATEGY_ROOM_NAME,
            Room::Cells => CELLS_NAME,
            Room::MessHall => MESS_HALL_NAME,
            Room::Kitchen => KITCHEN_NAME,
            Room::Stairwell => STAIRWELL_NAME,
            Room::CrewArea => CREW_AREA_NAME,
            Room::StoreRoom => STORE_ROOM_NAME,
            Room::LowerCorridor => LOWER_CORRIDOR_NAME,
            Room::WashRoom => WASH_ROOM_NAME,
            Room::Bunks => BUNKS_NAME,
            Room::EngineRoom => ENGINE_ROOM_NAME,
            Room::EscapePod => ESCAPE_POD_NAME,
            Room::Escape => ESCAPE_NAME,
        }
    }

    /// Get a short description of a room
    pub fn get_description(self) -> (text: &'static str)
        ensures
            text == self.description(),
    {
        match self {
            Room::Bridge => BRIDGE_TEXT,
            Room::UpperCorridor => UPPER_CORRIDOR_TEXT,
            Room::StrategyRoom => STRATEGY_ROOM_TEXT,
            Room::Cells => CELLS_TEXT,
            Room::MessHall => MESS_HALL_TEXT,
            Room::Kitchen => KITCHEN_TEXT,
            Room::Stairwell => STAIRWELL_TEXT,
            Room::CrewArea => CREW_AREA_TEXT,
            Room::StoreRoom => STORE_ROOM_TEXT,
            Room::LowerCorridor => LOWER_CORRIDOR_TEXT,
            Room::WashRoom => WASH_ROOM_TEXT,
            Room::Bunks => BUNKS_TEXT,
            Room::EngineRoom => ENGINE_ROOM_TEXT,
            Room::EscapePod => ESCAPE_POD_TEXT,
            Room::Escape => ESCAPE_TEXT,
        }
    }
}

/// A way out of a room.
#[derive(Debug)]
pub struct RoomTransition {
    /// What the player is told on the way
    pub message: &'static str,
    /// Which [`Room`] the way leads to
    pub to: Room,
    /// How the way is offered to the player. Without one, the offer names
    /// the room that the way leads to.
    pub prompt_text: Option<&'static str>,
}

impl RoomTransition {
    /// How the way is offered to the player.
    pub open spec fn offer(self) -> Seq<char> {
        match self.prompt_text {
            Some(text) => text@,
            None => "Go to the "@ + self.to.name()@,
        }
    }

    /// How the way is offered to the player.
    pub fn prompt(&self) -> (text: String)
        ensures
            text@ == self.offer(),
    {
        match self.prompt_text {
            Some(text) => String::from_str(text),
            None => {
                let mut text = String::from_str("Go to the ");
                text.append(self.to.get_name());
                text
            },
        }
    }
}

/// Who stands in a room.
#[derive(Debug)]
pub enum Occupant {
    /// Nobody.
    Empty,
    /// An enemy who has not been fought yet.
    Occupied(Enemy),
}

/// What is in a room. A state is made with [`new`](Self::new) and filled
/// with [`add_item`](Self::add_item), [`add_action`](Self::add_action) and
/// [`with_enemy`](Self::with_enemy).
#[derive(Debug)]
pub struct RoomState {
    /// Which room this is the state of
    pub room: Room,
    /// The items that lie in the room for the player to pick up
    pub items: Vec<Item>,
    /// Who stands in the room
    pub enemy: Occupant,
    /// The ways out of the room
    pub connections: Vec<RoomTransition>,
    /// What can be done in the room
    pub actions: Vec<RoomAction>,
}

impl RoomState {
    /// A room is in order when the enemy in it, if there is one, is fit for
    /// a duel.
    pub open spec fn wf(self) -> bool {
        self.enemy matches Occupant::Occupied(enemy) ==> enemy.wf()
    }

    /// Whether the room is in order.
    pub fn in_order(&self) -> (ok: bool)
        ensures
            ok == self.wf(),
    {
        match &self.enemy {
            Occupant::Occupied(enemy) => enemy.in_order(),
            Occupant::Empty => true,
        }
    }

    /// The state of `room` with the ways out `connections`, and with no
    /// items, no actions and nobody in it.
    pub fn new(room: Room, connections: Vec<RoomTransition>) -> (state: RoomState)
        ensures
            state.room == room,
            state.connections == connections,
            state.items@ == Seq::<Item>::empty(),
            state.actions@ == Seq::<RoomAction>::empty(),
            state.enemy is Empty,
    {
        RoomState {
            room,
            items: Vec::new(),
            enemy: Occupant::Empty,
            connections,
            actions: Vec::new(),
        }
    }

    /// The same state with `item` lying in the room, behind the items that
    /// were there.
    pub fn add_item(self, item: Item) -> (state: RoomState)
        ensures
            state.items@ == self.items@.push(item),
            state.room == self.room,
            state.enemy == self.enemy,
            state.connections == self.connections,
            state.actions == self.actions,
    {
        let mut state = self;
        state.items.push(item);
        state
    }

    /// The same state with `action` added to what can be done in the room.
    pub fn add_action(self, action: RoomAction) -> (state: RoomState)
        ensures
            state.actions@ == self.actions@.push(action),
            state.room == self.room,
            state.enemy == self.enemy,
            state.connections == self.connections,
            state.items == self.items,
    {
        let mut state = self;
        state.actions.push(action);
        state
    }

    /// The same state with `enemy` standing in the room. The room must be
    /// empty: two enemies do not share a room.
    pub fn with_enemy(self, enemy: Enemy) -> (state: RoomState)
        requires
            self.enemy is Empty,
        ensures
            state.enemy == Occupant::Occupied(enemy),
            state.room == self.room,
            state.items == self.items,
            state.connections == self.connections,
            state.actions == self.actions,
    {
        let mut state = self;
        state.enemy = Occupant::Occupied(enemy);
        state
    }

    /// Takes the enemy out of the room, if there is one. The room is empty
    /// afterwards.
    pub fn take_enemy(&mut self) -> (enemy: Option<Enemy>)
        ensures
            final(self).enemy is Empty,
            match enemy {
                Some(enemy) => old(self).enemy == Occupant::Occupied(enemy),
                None => old(self).enemy is Empty,
            },
            final(self).room == old(self).room,
            final(self).items == old(self).items,
            final(self).connections == old(self).connections,
            final(self).actions == old(self).actions,
    {
        let mut occupant = Occupant::Empty;
        core::mem::swap(&mut self.enemy, &mut occupant);
        match occupant {
            Occupant::Occupied(enemy) => Some(enemy),
            Occupant::Empty => None,
        }
    }
}

/// The state of all rooms: the state of each room stands at the place that
/// the room's number gives.
#[derive(Debug)]
pub struct RoomGraph {
    /// The states of the rooms, in the order of [`Room::number`]
    pub rooms: Vec<RoomState>,
}

impl RoomGraph {
    /// The graph holds every room once, at the place that the room's number
    /// gives. This is what it takes to look a room up.
    pub open spec fn placed(self) -> bool {
        &&& self.rooms.len() == ROOM_COUNT
        &&& forall|i: int|
            0 <= i < self.rooms.len() ==> (#[trigger] self.rooms[i]).room.number() == i
    }

    /// The graph holds every room at its place, and every room is in order.
    pub open spec fn wf(self) -> bool {
        &&& self.placed()
        &&& forall|i: int| 0 <= i < self.rooms.len() ==> (#[trigger] self.rooms[i]).wf()
    }

    /// Whether the graph holds every room at its place.
    pub fn in_place(&self) -> (ok: bool)
        ensures
            ok == self.placed(),
    {
        if self.rooms.len() != ROOM_COUNT {
            return false;
        }
        let mut i: usize = 0;
        while i < self.rooms.len()
            invariant
                i <= self.rooms.len(),
                forall|j: int| 0 <= j < i ==> (#[trigger] self.rooms[j]).room.number() == j,
            decreases self.rooms.len() - i,
        {
            if self.rooms[i].room.index() != i {
                return false;
            }
            i += 1;
        }
        true
    }

    /// Whether the graph is in order.
    pub fn in_order(&self) -> (ok: bool)
        ensures
            ok == self.wf(),
    {
        if !self.in_place() {
            return false;
        }
        let mut i: usize = 0;
        while i < self.rooms.len()
            invariant
                i <= self.rooms.len(),
                self.placed(),
                forall|j: int| 0 <= j < i ==> (#[trigger] self.rooms[j]).wf(),
            decreases self.rooms.len() - i,
        {
            if !self.rooms[i].in_order() {
                return false;
            }
            i += 1;
        }
        true
    }

    /// The state of `room`.
    pub open spec fn state(self, room: Room) -> RoomState {
        self.rooms[room.number() as int]
    }

    /// Get a shared reference to the [`RoomState`] for a given [`Room`]
    pub fn get_state(&self, room: Room) -> (state: &RoomState)
        requires
            self.placed(),
        ensures
            *state == self.state(room),
            state.room == room,
            self.wf() ==> state.wf(),
    {
        &self.rooms[room.index()]
    }

    /// Get a mutable reference to the [`RoomState`] for a given [`Room`].
    /// What is written through the reference takes the place of that room's
    /// state, and no other room changes.
    pub fn get_state_mut(&mut self, room: Room) -> (state: &mut RoomState)
        requires
            old(self).placed(),
        ensures
            *state == old(self).state(room),
            state.room == room,
            old(self).wf() ==> state.wf(),
            final(self).rooms@ == old(self).rooms@.update(room.number() as int, *final(state)),
    {
        let index = room.index();
        &mut self.rooms[index]
    }
}

fn passage(to: Room, message: &'static str) -> (way: RoomTransition)
    ensures
        way.to == to,
        way.message == message,
        way.prompt_text is None,
{
    RoomTransition { message, to, prompt_text: None }
}

fn food(name: &'static str, heals_for: u32) -> (item: Item)
    ensures
        item == Item::Food(Food { name, heals_for }),
{
    Item::Food(Food { name, heals_for })
}

fn weapon(name: &'static str, damage: u32) -> (item: Item)
    ensures
        item == Item::Weapon(Weapon { name, damage }),
{
    Item::Weapon(Weapon { name, damage })
}

/// The ship as the player finds it at the start of a run: every room with
/// its ways out, the items that lie in it and the enemy that guards it.
pub fn init() -> (graph: RoomGraph)
    ensures
        graph.wf(),
        graph.state(Room::Bridge).enemy is Empty,
        graph.state(Room::Escape).connections@.len() == 0,
{
    let mut rooms: Vec<RoomState> = Vec::new();
    rooms.push(
        RoomState::new(
            Room::Bridge,
            vec![passage(Room::UpperCorridor, "You slip out through the sliding door.")],
        ).add_action(
            RoomAction {
                prompt: "Look at the star chart",
                message: "The nearest friendly outpost is a short pod flight away.",
            },
        ),
    );
    rooms.push(
        RoomState::new(
            Room::UpperCorridor,
            vec![
                passage(Room::Bridge, "The door to the bridge slides open."),
                passage(Room::StrategyRoom, "You push open the heavy door."),
                passage(Room::Cells, "You walk back towards the cells."),
                passage(Room::MessHall, "You follow the smell of food."),
                passage(Room::Stairwell, "You head for the stairs."),
            ],
        ),
    );
    rooms.push(
        RoomState::new(
            Room::StrategyRoom,
            vec![passage(Room::UpperCorridor, "You step back into the corridor.")],
        ).add_item(weapon("Letter Opener", 2)),
    );
    rooms.push(
        RoomState::new(
            Room::Cells,
            vec![passage(Room::UpperCorridor, "You leave the cells behind.")],
        ),
    );
    rooms.push(
        RoomState::new(
            Room::MessHall,
            vec![
                passage(Room::UpperCorridor, "You step back into the corridor."),
                passage(Room::Kitchen, "You duck through the serving hatch."),
            ],
        ).add_item(food("Ration Bar", 3)),
    );
    rooms.push(
        RoomState::new(
            Room::Kitchen,
            vec![passage(Room::MessHall, "You climb back through the serving hatch.")],
        ).add_item(weapon("Kitchen Knife", 3)).add_item(food("Leftover Stew", 5)),
    );
    rooms.push(
        RoomState::new(
            Room::Stairwell,
            vec![
                passage(Room::UpperCorridor, "You climb the stairs."),
                passage(Room::CrewArea, "You descend the stairs."),
            ],
        ),
    );
    rooms.push(
        RoomState::new(
            Room::CrewArea,
            vec![
                passage(Room::Stairwell, "You return to the stairwell."),
                passage(Room::StoreRoom, "You feel your way into the dark."),
                passage(Room::LowerCorridor, "You walk on towards the engines."),
            ],
        ).with_enemy(Enemy::new("Off-duty Soldier", 6, 2, 1, 7)),
    );
    rooms.push(
        RoomState::new(
            Room::StoreRoom,
            vec![passage(Room::CrewArea, "You step back into the light.")],
        ).add_item(food("Tinned Fruit", 4)).add_item(weapon("Crowbar", 4)),
    );
    rooms.push(
        RoomState::new(
            Room::LowerCorridor,
            vec![
                passage(Room::CrewArea, "You walk back to the crew area."),
                passage(Room::WashRoom, "You open the door marked with a droplet."),
                passage(Room::Bunks, "You tiptoe in between the beds."),
                passage(Room::EngineRoom, "You follow the hum of the machines."),
                passage(Room::EscapePod, "You squeeze through the round hatch."),
            ],
        ),
    );
    rooms.push(
        RoomState::new(
            Room::WashRoom,
            vec![passage(Room::LowerCorridor, "You step back into the corridor.")],
        ),
    );
    rooms.push(
        RoomState::new(
            Room::Bunks,
            vec![passage(Room::LowerCorridor, "You step back into the corridor.")],
        ).add_item(food("Energy Drink", 2)),
    );
    rooms.push(
        RoomState::new(
            Room::EngineRoom,
            vec![passage(Room::LowerCorridor, "You leave the machines behind.")],
        ).add_item(weapon("Wrench", 5)).with_enemy(Enemy::new("Engineer", 8, 3, 2, 11)),
    );
    rooms.push(
        RoomState::new(
            Room::EscapePod,
            vec![
                passage(Room::LowerCorridor, "You climb back out of the pod."),
                RoomTransition {
                    message: "The pod shudders, detaches and falls away from the ship.",
                    to: Room::Escape,
                    prompt_text: Some("Launch the escape pod"),
                },
            ],
        ),
    );
    rooms.push(RoomState::new(Room::Escape, Vec::new()));
    RoomGraph { rooms }
}

} // verus!
