//! Collision-layer bookkeeping: which layer each kind of entity lives on,
//! and which layers it collides with. The physics engine consumes the two
//! bit masks as-is.

use vstd::prelude::*;

verus! {

pub const PLAYER_CHARACTER_COLLISION_LAYER: u32 = 1 << 0;

pub const ENEMY_CHARACTER_COLLISION_LAYER: u32 = 1 << 1;

pub const PLAYER_PROJECTILE_COLLISION_LAYER: u32 = 1 << 2;

pub const ENEMY_PROJECTILE_COLLISION_LAYER: u32 = 1 << 3;

pub const WALL_COLLISION_LAYER: u32 = 1 << 4;

/// Membership and filter bit masks of one collision layer assignment.
#[derive(Clone, Copy, PartialEq, Eq, Structural, Debug)]
pub struct CollisionLayers {
    /// The layers the entity is a member of.
    pub memberships: u32,
    /// The layers the entity collides with.
    pub filters: u32,
}

/// The filter mask paired with each membership layer: characters collide
/// with the opposing side's characters and projectiles and with walls;
/// projectiles also with each other; walls with everything but walls. An
/// unknown layer collides with everything.
pub open spec fn spec_collision_filters(layer: u32) -> u32 {
    if layer == PLAYER_CHARACTER_COLLISION_LAYER {
        ENEMY_PROJECTILE_COLLISION_LAYER | ENEMY_CHARACTER_COLLISION_LAYER | WALL_COLLISION_LAYER
    } else if layer == ENEMY_CHARACTER_COLLISION_LAYER {
        PLAYER_PROJECTILE_COLLISION_LAYER | PLAYER_CHARACTER_COLLISION_LAYER | WALL_COLLISION_LAYER
    } else if layer == PLAYER_PROJECTILE_COLLISION_LAYER {
        ENEMY_CHARACTER_COLLISION_LAYER | ENEMY_PROJECTILE_COLLISION_LAYER | WALL_COLLISION_LAYER
    } else if layer == ENEMY_PROJECTILE_COLLISION_LAYER {
        PLAYER_CHARACTER_COLLISION_LAYER | PLAYER_PROJECTILE_COLLISION_LAYER | WALL_COLLISION_LAYER
    } else if layer == WALL_COLLISION_LAYER {
        PLAYER_CHARACTER_COLLISION_LAYER | ENEMY_CHARACTER_COLLISION_LAYER
            | PLAYER_PROJECTILE_COLLISION_LAYER | ENEMY_PROJECTILE_COLLISION_LAYER
    } else {
        u32::MAX
    }
}

/// The collision layer assignment of an entity on the given layer.
pub fn get_collision_layers(layer: u32) -> (layers: CollisionLayers)
    ensures
        layers.memberships == layer,
        layers.filters == spec_collision_filters(layer),
{
    let filters: u32 = if layer == PLAYER_CHARACTER_COLLISION_LAYER {
        ENEMY_PROJECTILE_COLLISION_LAYER | ENEMY_CHARACTER_COLLISION_LAYER | WALL_COLLISION_LAYER
    } else if layer == ENEMY_CHARACTER_COLLISION_LAYER {
        PLAYER_PROJECTILE_COLLISION_LAYER | PLAYER_CHARACTER_COLLISION_LAYER | WALL_COLLISION_LAYER
    } else if layer == PLAYER_PROJECTILE_COLLISION_LAYER {
        ENEMY_CHARACTER_COLLISION_LAYER | ENEMY_PROJECTILE_COLLISION_LAYER | WALL_COLLISION_LAYER
    } else if layer == ENEMY_PROJECTILE_COLLISION_LAYER {
        PLAYER_CHARACTER_COLLISION_LAYER | PLAYER_PROJECTILE_COLLISION_LAYER | WALL_COLLISION_LAYER
    } else if layer == WALL_COLLISION_LAYER {
        PLAYER_CHARACTER_COLLISION_LAYER | ENEMY_CHARACTER_COLLISION_LAYER
            | PLAYER_PROJECTILE_COLLISION_LAYER | ENEMY_PROJECTILE_COLLISION_LAYER
    } else {
        u32::MAX
    };
    CollisionLayers { memberships: layer, filters }
}

} // verus!
