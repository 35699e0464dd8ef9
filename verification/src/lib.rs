//! Game rules of a first-person arena shooter: the kinds of bots, weapons,
//! projectiles, items and effects with their stable save-file ids, weapon
//! selection of a character, the player's input controller, key bindings,
//! item pick-up effects and the HUD clock.

pub mod text;
pub mod bot;
pub mod collision;
pub mod effects;
pub mod handle;
pub mod item;
pub mod projectile;
pub mod weapon;
pub mod character;
pub mod control_scheme;
pub mod player;
pub mod chance;
pub mod level;
pub mod hud;
pub mod options;
