//! The player: stat sheets, the recordable gameplay events the player emits,
//! and the pure decisions of the player-facing systems.

pub mod data;
pub mod events;
pub mod systems;
