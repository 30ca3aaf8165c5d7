//! The recordable gameplay events the player emits. Each carries a target
//! entity and a provenance tag, and implements the capability traits that
//! wire it into the recorder/replayer pair.

use vstd::prelude::*;
use crate::level_history::data::{
    DebugColor, EntityHandle, EventRecordDebug, EventSource, EventSourceMethods, GhostIdentifier,
    SetEntity,
};
use crate::player::data::Vec2Fixed;

verus! {

/// The player moved: a displacement for this tick, in thousandths of a
/// world unit.
#[derive(Clone, Copy, PartialEq, Eq, Structural, Debug)]
pub struct PlayerMoveEvent {
    pub entity: EntityHandle,
    pub source: EventSource,
    pub delta: Vec2Fixed,
}

/// The player turned to face a direction: the target rotation about the
/// screen axis, in milliradians.
#[derive(Clone, Copy, PartialEq, Eq, Structural, Debug)]
pub struct PlayerRotateEvent {
    pub entity: EntityHandle,
    pub source: EventSource,
    pub to: i64,
}

/// The player fired the equipped weapon.
#[derive(Clone, Copy, PartialEq, Eq, Structural, Debug)]
pub struct PlayerAttackEvent {
    pub entity: EntityHandle,
    pub source: EventSource,
}

/// The player was hit and died.
#[derive(Clone, Copy, PartialEq, Eq, Structural, Debug)]
pub struct PlayerKilledEvent {
    pub entity: EntityHandle,
    pub source: EventSource,
}

impl SetEntity for PlayerMoveEvent {
    open spec fn spec_set_entity(self, entity: EntityHandle) -> PlayerMoveEvent {
        PlayerMoveEvent { entity, source: self.source, delta: self.delta }
    }

    fn set_entity(&mut self, entity: EntityHandle) {
        self.entity = entity;
    }
}

impl EventSourceMethods for PlayerMoveEvent {
    open spec fn spec_source(self) -> EventSource {
        self.source
    }

    open spec fn spec_set_source(self, source: EventSource) -> PlayerMoveEvent {
        PlayerMoveEvent { entity: self.entity, source, delta: self.delta }
    }

    proof fn lemma_set_source(self, source: EventSource) {
    }

    fn get_source(&self) -> EventSource {
        self.source
    }

    fn set_source(&mut self, source: EventSource) {
        self.source = source;
    }
}

impl EventRecordDebug for PlayerMoveEvent {
    open spec fn spec_debug_color(self, identifier: GhostIdentifier) -> DebugColor {
        DebugColor { red: 0, green: 0, blue: 255, alpha: 51 }
    }

    fn get_debug_color(&self, identifier: GhostIdentifier) -> DebugColor {
        DebugColor { red: 0, green: 0, blue: 255, alpha: 51 }
    }
}

impl SetEntity for PlayerRotateEvent {
    open spec fn spec_set_entity(self, entity: EntityHandle) -> PlayerRotateEvent {
        PlayerRotateEvent { entity, source: self.source, to: self.to }
    }

    fn set_entity(&mut self, entity: EntityHandle) {
        self.entity = entity;
    }
}

impl EventSourceMethods for PlayerRotateEvent {
    open spec fn spec_source(self) -> EventSource {
        self.source
    }

    open spec fn spec_set_source(self, source: EventSource) -> PlayerRotateEvent {
        PlayerRotateEvent { entity: self.entity, source, to: self.to }
    }

    proof fn lemma_set_source(self, source: EventSource) {
    }

    fn get_source(&self) -> EventSource {
        self.source
    }

    fn set_source(&mut self, source: EventSource) {
        self.source = source;
    }
}

impl EventRecordDebug for PlayerRotateEvent {
    open spec fn spec_debug_color(self, identifier: GhostIdentifier) -> DebugColor {
        DebugColor { red: 0, green: 255, blue: 0, alpha: 51 }
    }

    fn get_debug_color(&self, identifier: GhostIdentifier) -> DebugColor {
        DebugColor { red: 0, green: 255, blue: 0, alpha: 51 }
    }
}

impl SetEntity for PlayerAttackEvent {
    open spec fn spec_set_entity(self, entity: EntityHandle) -> PlayerAttackEvent {
        PlayerAttackEvent { entity, source: self.source }
    }

    fn set_entity(&mut self, entity: EntityHandle) {
        self.entity = entity;
    }
}

impl EventSourceMethods for PlayerAttackEvent {
    open spec fn spec_source(self) -> EventSource {
        self.source
    }

    open spec fn spec_set_source(self, source: EventSource) -> PlayerAttackEvent {
        PlayerAttackEvent { entity: self.entity, source }
    }

    proof fn lemma_set_source(self, source: EventSource) {
    }

    fn get_source(&self) -> EventSource {
        self.source
    }

    fn set_source(&mut self, source: EventSource) {
        self.source = source;
    }
}

impl EventRecordDebug for PlayerAttackEvent {
    open spec fn spec_debug_color(self, identifier: GhostIdentifier) -> DebugColor {
        DebugColor { red: 255, green: 0, blue: 255, alpha: 128 }
    }

    fn get_debug_color(&self, identifier: GhostIdentifier) -> DebugColor {
        DebugColor { red: 255, green: 0, blue: 255, alpha: 128 }
    }
}

impl SetEntity for PlayerKilledEvent {
    open spec fn spec_set_entity(self, entity: EntityHandle) -> PlayerKilledEvent {
        PlayerKilledEvent { entity, source: self.source }
    }

    fn set_entity(&mut self, entity: EntityHandle) {
        self.entity = entity;
    }
}

impl EventSourceMethods for PlayerKilledEvent {
    open spec fn spec_source(self) -> EventSource {
        self.source
    }

    open spec fn spec_set_source(self, source: EventSource) -> PlayerKilledEvent {
        PlayerKilledEvent { entity: self.entity, source }
    }

    proof fn lemma_set_source(self, source: EventSource) {
    }

    fn get_source(&self) -> EventSource {
        self.source
    }

    fn set_source(&mut self, source: EventSource) {
        self.source = source;
    }
}

impl EventRecordDebug for PlayerKilledEvent {
    open spec fn spec_debug_color(self, identifier: GhostIdentifier) -> DebugColor {
        DebugColor { red: 255, green: 0, blue: 255, alpha: 128 }
    }

    fn get_debug_color(&self, identifier: GhostIdentifier) -> DebugColor {
        DebugColor { red: 255, green: 0, blue: 255, alpha: 128 }
    }
}

} // verus!
