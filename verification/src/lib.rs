//! Event history and ghost-replay engine for a top-down arcade game.
//!
//! The library records timestamped gameplay events per play attempt and
//! deterministically replays them against spawned "ghost" entities on later
//! attempts. The host engine (rendering, physics, input polling, entity
//! allocation) sits outside: it hands the library plain values — an elapsed
//! clock in microseconds, per-tick deltas, entity handles — and performs the
//! spawn/despawn/emit actions that the library decides on.

pub mod character;
pub mod collision;
pub mod ennemy;
pub mod game;
pub mod level_history;
pub mod levels;
pub mod player;
