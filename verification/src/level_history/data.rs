//! Data model of the history subsystem: provenance tags, ghost slots, the
//! per-event-type log, and the capability traits a recordable event type
//! provides.

use vstd::prelude::*;
use crate::player::data::PlayerStats;

verus! {

/// An opaque handle standing for an engine-managed entity. The engine
/// allocates these; the library only stores and compares them.
#[derive(Clone, Copy, PartialEq, Eq, Structural, Debug, Hash)]
pub struct EntityHandle(pub u64);

/// Provenance of a recordable event: genuinely caused by player input, or
/// synthetically re-emitted by the replayer.
#[derive(Clone, Copy, PartialEq, Eq, Structural, Debug)]
pub enum EventSource {
    Replay,
    Input,
}

/// Index of a slot in the ghost registry. Stable for the lifetime of one
/// attempt's history.
#[derive(Clone, Copy, PartialEq, Eq, Structural, Debug, Hash)]
pub struct GhostIdentifier(pub usize);

/// An RGBA colour with 8-bit channels, used by the timeline visualization.
#[derive(Clone, Copy, PartialEq, Eq, Structural, Debug)]
pub struct DebugColor {
    pub red: u8,
    pub green: u8,
    pub blue: u8,
    pub alpha: u8,
}

/// The engine clock value (microseconds) at which the current play attempt
/// began. All stored timestamps are relative to it.
#[derive(Clone, Copy, PartialEq, Eq, Structural, Debug)]
pub struct LevelStartTime(pub u64);

impl Default for LevelStartTime {
    /// An attempt that starts at clock zero.
    fn default() -> (start: LevelStartTime)
        ensures
            start.0 == 0,
    {
        LevelStartTime(0)
    }
}

/// One stored event: which ghost slot caused it, when (microseconds since
/// attempt start), and the event payload itself. Immutable once stored.
#[derive(Clone, Copy, Debug)]
pub struct EventRecord<E> {
    /// The ghost slot the event is attributed to.
    pub ghost_slot: GhostIdentifier,
    /// Microseconds since the attempt started.
    pub timestamp: u64,
    /// The stored payload, already re-tagged as `Replay`.
    pub event: E,
}

/// The append-only, per-event-type log of one level attempt. Records are
/// only ever appended or wholesale cleared, never reordered or mutated.
#[derive(Debug)]
pub struct LevelHistory<E> {
    pub events: Vec<EventRecord<E>>,
}

impl<E> Default for LevelHistory<E> {
    /// An empty log.
    fn default() -> (history: LevelHistory<E>)
        ensures
            history.events@ == Seq::<EventRecord<E>>::empty(),
    {
        LevelHistory { events: Vec::new() }
    }
}

/// One ghost slot: the spawned replay entity, if any, and the frozen stat
/// sheet the live player had when the slot was recorded.
#[derive(Clone, Copy, PartialEq, Eq, Structural, Debug)]
pub struct PlayerGhost {
    /// `None` until the ghost is spawned for a replaying attempt.
    pub entity: Option<EntityHandle>,
    /// Frozen snapshot of the stats at death/restart time.
    pub stats: PlayerStats,
}

/// The ghost registry: slot index is the `GhostIdentifier`. Grows by one
/// each time the live player dies without a clear; cleared wholesale on
/// level change or selection.
#[derive(Debug)]
pub struct PlayerGhostList {
    pub ghosts: Vec<PlayerGhost>,
}

impl Default for PlayerGhostList {
    /// An empty registry.
    fn default() -> (list: PlayerGhostList)
        ensures
            list.ghosts@ == Seq::<PlayerGhost>::empty(),
    {
        PlayerGhostList { ghosts: Vec::new() }
    }
}

impl PlayerGhostList {
    /// The ghost in the given slot, or `None` when the slot is out of range.
    pub fn get_ghost(&self, identifier: GhostIdentifier) -> (ghost_ref: Option<&PlayerGhost>)
        ensures
            identifier.0 < self.ghosts@.len() ==> ghost_ref == Some(
                &self.ghosts@[identifier.0 as int],
            ),
            identifier.0 >= self.ghosts@.len() ==> ghost_ref is None,
    {
        if identifier.0 < self.ghosts.len() {
            Some(&self.ghosts[identifier.0])
        } else {
            None
        }
    }
}

/// Capability of a recordable event: retargeting it at another entity. The
/// replayer uses it to aim a stored record at the spawned ghost.
pub trait SetEntity: Sized {
    /// The same event, aimed at `entity`.
    spec fn spec_set_entity(self, entity: EntityHandle) -> Self;

    /// Retargets the event at `entity`.
    fn set_entity(&mut self, entity: EntityHandle)
        ensures
            *final(self) == old(self).spec_set_entity(entity),
    ;
}

/// Capability of a recordable event: reading and writing its provenance
/// tag. The recorder uses it to filter replayed events out and to re-tag
/// stored ones.
pub trait EventSourceMethods: Sized {
    /// The event's provenance tag.
    spec fn spec_source(self) -> EventSource;

    /// The same event, tagged with `source`.
    spec fn spec_set_source(self, source: EventSource) -> Self;

    /// Writing a tag really changes the tag: re-reading a re-tagged event
    /// observes the new tag.
    proof fn lemma_set_source(self, source: EventSource)
        ensures
            self.spec_set_source(source).spec_source() == source,
    ;

    /// Reads the provenance tag.
    fn get_source(&self) -> (source: EventSource)
        ensures
            source == self.spec_source(),
    ;

    /// Writes the provenance tag.
    fn set_source(&mut self, source: EventSource)
        ensures
            *final(self) == old(self).spec_set_source(source),
    ;
}

/// Capability of a recordable event: a fixed colour for the timeline
/// visualization.
pub trait EventRecordDebug: Sized {
    /// The colour a record of this event draws with.
    spec fn spec_debug_color(self, identifier: GhostIdentifier) -> DebugColor;

    /// Reads the debug colour.
    fn get_debug_color(&self, identifier: GhostIdentifier) -> (color: DebugColor)
        ensures
            color == self.spec_debug_color(identifier),
    ;
}

} // verus!
