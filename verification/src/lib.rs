//! A turn-based text adventure aboard a starship: a prisoner finds their way
//! through the rooms of the ship, picks up food and weapons, and duels the
//! crew members met on the way.
//!
//! The heart of the crate is the combat engine in [`combat`]: bounded health
//! arithmetic, the directional attack and dodge rules, the enemy's decision
//! policy and the battle state machine. Everything the player sees goes
//! through the [`menu::Menu`] trait, so the game runs on any front end.

pub mod combat;
pub mod config;
pub mod error;
pub mod items;
pub mod map;
pub mod menu;
pub mod player;
pub mod rooms;
pub mod text;
