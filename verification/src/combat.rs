//! The duel between the player and one enemy.

pub mod action;
pub mod battle;
pub mod enemy;
pub mod health;
pub mod laws;
pub mod resolve;

pub use action::{Action, Direction};
pub use battle::{battle, battle_turn, BattleOutcome, BattleResult, BattleState, TurnReport};
pub use enemy::Enemy;
pub use health::Health;
pub use resolve::{resolve_turn, Duel, TurnEffects};
