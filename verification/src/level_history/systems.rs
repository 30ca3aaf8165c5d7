//! The record and replay passes and the registry lifecycle operations. Each
//! runs once per simulation tick or state transition, over state that the
//! session owns; contracts describe the new state and the emitted events
//! exactly.

use vstd::prelude::*;
use crate::level_history::data::{
    EntityHandle, EventRecord, EventSource, EventSourceMethods, GhostIdentifier, LevelHistory,
    LevelStartTime, PlayerGhost, PlayerGhostList, SetEntity,
};
use crate::player::data::PlayerStats;

verus! {

/// The records that one recording pass appends for an incoming batch:
/// every event whose tag is `Input`, re-tagged `Replay`, attributed to
/// `slot` and stamped `timestamp`; events already tagged `Replay` are
/// filtered out.
pub open spec fn recorded_records<E: EventSourceMethods>(
    events: Seq<E>,
    slot: GhostIdentifier,
    timestamp: u64,
) -> Seq<EventRecord<E>>
    decreases events.len(),
{
    if events.len() == 0 {
        Seq::empty()
    } else {
        let rest = recorded_records(events.drop_last(), slot, timestamp);
        if events.last().spec_source() == EventSource::Input {
            rest.push(
                EventRecord {
                    ghost_slot: slot,
                    timestamp,
                    event: events.last().spec_set_source(EventSource::Replay),
                },
            )
        } else {
            rest
        }
    }
}

/// Appends the qualifying events of one tick's batch to the history.
///
/// Only events tagged `Input` are stored; each is re-tagged `Replay` first,
/// so that a stored event re-read by the recorder is filtered out. Every
/// record of one batch carries the slot one past the last ghost — the slot
/// of the current live player — and the elapsed time since the attempt
/// started.
pub fn record_event<E: EventSourceMethods + Copy>(
    history: &mut LevelHistory<E>,
    ghost_list: &PlayerGhostList,
    start_time: &LevelStartTime,
    now: u64,
    events: &Vec<E>,
)
    requires
        start_time.0 <= now,
    ensures
        final(history).events@ == old(history).events@ + recorded_records(
            events@,
            GhostIdentifier(ghost_list.ghosts@.len() as usize),
            (now - start_time.0) as u64,
        ),
{
    let slot = GhostIdentifier(ghost_list.ghosts.len());
    let timestamp: u64 = now - start_time.0;
    let mut i: usize = 0;
    while i < events.len()
        invariant
            i <= events@.len(),
            history.events@ == old(history).events@ + recorded_records(
                events@.take(i as int),
                slot,
                timestamp,
            ),
        decreases events@.len() - i,
    {
        let event = events[i];
        if event.get_source() == EventSource::Input {
            let mut recorded = event;
            recorded.set_source(EventSource::Replay);
            history.events.push(EventRecord { ghost_slot: slot, timestamp, event: recorded });
        }
        proof {
            assert(events@.take(i + 1).drop_last() =~= events@.take(i as int));
            assert(events@.take(i + 1).last() == events@[i as int]);
        }
        i = i + 1;
    }
    proof {
        assert(events@.take(events@.len() as int) =~= events@);
    }
}

/// Whether a record stamped `timestamp` falls in the half-open window
/// `(end - delta, end]` of the tick that ends at `end`.
pub open spec fn due(timestamp: u64, end: int, delta: int) -> bool {
    timestamp <= end && end < timestamp + delta
}

/// The entity a ghost slot resolves to: the spawned entity of that slot, or
/// `None` when the slot is out of range or not yet spawned.
pub open spec fn resolved_entity(ghosts: Seq<PlayerGhost>, slot: GhostIdentifier) -> Option<
    EntityHandle,
> {
    if slot.0 < ghosts.len() {
        ghosts[slot.0 as int].entity
    } else {
        None
    }
}

/// The events one replay pass emits: for each stored record, in store
/// order, the record's payload retargeted at its ghost's entity — provided
/// the record is due in the tick's window and its slot resolves to a
/// spawned entity. Unresolvable records are skipped silently.
pub open spec fn replayed_events<E: SetEntity>(
    records: Seq<EventRecord<E>>,
    ghosts: Seq<PlayerGhost>,
    end: int,
    delta: int,
) -> Seq<E>
    decreases records.len(),
{
    if records.len() == 0 {
        Seq::empty()
    } else {
        let rest = replayed_events(records.drop_last(), ghosts, end, delta);
        let record = records.last();
        if due(record.timestamp, end, delta) && resolved_entity(ghosts, record.ghost_slot) is Some {
            rest.push(
                record.event.spec_set_entity(resolved_entity(ghosts, record.ghost_slot)->0),
            )
        } else {
            rest
        }
    }
}

/// Emits the stored records whose timestamp falls in the just-elapsed
/// window `(now - start - delta, now - start]`, each aimed at the live
/// entity its ghost slot resolves to. A record whose ghost is not spawned
/// is skipped for this tick, not re-queued.
///
/// The emitted sequence is a function of the store, the registry and the
/// two clock values alone, so the same attempt replayed with the same
/// frame deltas re-emits exactly the same events.
pub fn replay_event<E: SetEntity + Copy>(
    history: &LevelHistory<E>,
    start_time: &LevelStartTime,
    ghost_list: &PlayerGhostList,
    now: u64,
    delta: u64,
) -> (emitted: Vec<E>)
    requires
        start_time.0 <= now,
    ensures
        emitted@ == replayed_events(
            history.events@,
            ghost_list.ghosts@,
            now - start_time.0,
            delta as int,
        ),
{
    let end: u64 = now - start_time.0;
    let mut emitted: Vec<E> = Vec::new();
    let mut i: usize = 0;
    while i < history.events.len()
        invariant
            i <= history.events@.len(),
            end == now - start_time.0,
            emitted@ == replayed_events(
                history.events@.take(i as int),
                ghost_list.ghosts@,
                end as int,
                delta as int,
            ),
        decreases history.events@.len() - i,
    {
        let record = &history.events[i];
        let is_due = record.timestamp <= end && end - record.timestamp < delta;
        if is_due {
            match ghost_list.get_ghost(record.ghost_slot) {
                Some(ghost_ref) => match ghost_ref.entity {
                    Some(entity) => {
                        let mut event = record.event;
                        event.set_entity(entity);
                        emitted.push(event);
                    },
                    None => {},
                },
                None => {},
            }
        }
        proof {
            assert(history.events@.take(i + 1).drop_last() =~= history.events@.take(i as int));
            assert(history.events@.take(i + 1).last() == history.events@[i as int]);
        }
        i = i + 1;
    }
    proof {
        assert(history.events@.take(history.events@.len() as int) =~= history.events@);
    }
    emitted
}

/// Truncates the event log for one event type. Run on entering level
/// selection and on level change.
pub fn clear_history<E>(history: &mut LevelHistory<E>)
    ensures
        final(history).events@ == Seq::<EventRecord<E>>::empty(),
{
    history.events.clear();
}

/// Stores the engine clock value at which the current attempt begins. Must
/// run before the first record or replay pass of the attempt, after ghosts
/// are spawned.
pub fn reset_level_start_time(start_time: &mut LevelStartTime, now: u64)
    ensures
        final(start_time).0 == now,
{
    start_time.0 = now;
}

/// The spawned entities of a registry, in slot order: the handles of the
/// slots whose ghost is currently spawned.
pub open spec fn live_entities(ghosts: Seq<PlayerGhost>) -> Seq<EntityHandle>
    decreases ghosts.len(),
{
    if ghosts.len() == 0 {
        Seq::empty()
    } else {
        let rest = live_entities(ghosts.drop_last());
        match ghosts.last().entity {
            Some(entity) => rest.push(entity),
            None => rest,
        }
    }
}

/// Assigns a freshly created entity to every ghost slot, in slot order:
/// slot `i` receives `fresh[i]`. Returns the stale entities that were still
/// assigned — an entity left over indicates a stale state and must be
/// despawned by the caller before the fresh ones appear.
pub fn spawn_ghosts(ghost_list: &mut PlayerGhostList, fresh: &Vec<EntityHandle>) -> (stale: Vec<
    EntityHandle,
>)
    requires
        fresh@.len() == old(ghost_list).ghosts@.len(),
    ensures
        final(ghost_list).ghosts@.len() == old(ghost_list).ghosts@.len(),
        forall|i: int|
            0 <= i < old(ghost_list).ghosts@.len() ==> final(ghost_list).ghosts@[i]
                == (PlayerGhost {
                entity: Some(fresh@[i]),
                stats: old(ghost_list).ghosts@[i].stats,
            }),
        stale@ == live_entities(old(ghost_list).ghosts@),
{
    let mut stale: Vec<EntityHandle> = Vec::new();
    let mut i: usize = 0;
    while i < ghost_list.ghosts.len()
        invariant
            i <= ghost_list.ghosts@.len(),
            ghost_list.ghosts@.len() == old(ghost_list).ghosts@.len(),
            fresh@.len() == old(ghost_list).ghosts@.len(),
            forall|j: int|
                0 <= j < i ==> ghost_list.ghosts@[j] == (PlayerGhost {
                    entity: Some(fresh@[j]),
                    stats: old(ghost_list).ghosts@[j].stats,
                }),
            forall|j: int|
                i <= j < ghost_list.ghosts@.len() ==> ghost_list.ghosts@[j] == old(
                    ghost_list,
                ).ghosts@[j],
            stale@ == live_entities(old(ghost_list).ghosts@.take(i as int)),
        decreases ghost_list.ghosts@.len() - i,
    {
        let current = ghost_list.ghosts[i];
        match current.entity {
            Some(entity) => stale.push(entity),
            None => {},
        }
        ghost_list.ghosts[i] = PlayerGhost { entity: Some(fresh[i]), stats: current.stats };
        proof {
            assert(old(ghost_list).ghosts@.take(i + 1).drop_last() =~= old(
                ghost_list,
            ).ghosts@.take(i as int));
            assert(old(ghost_list).ghosts@.take(i + 1).last() == old(ghost_list).ghosts@[i as int]);
        }
        i = i + 1;
    }
    proof {
        assert(old(ghost_list).ghosts@.take(old(ghost_list).ghosts@.len() as int) =~= old(
            ghost_list,
        ).ghosts@);
    }
    stale
}

/// Despawns every tracked ghost entity: returns the entities to destroy,
/// in slot order, and resets every slot's entity to `None`. Run on leaving
/// the play state.
pub fn ghost_despawn(ghost_list: &mut PlayerGhostList) -> (despawned: Vec<EntityHandle>)
    ensures
        final(ghost_list).ghosts@.len() == old(ghost_list).ghosts@.len(),
        forall|i: int|
            0 <= i < old(ghost_list).ghosts@.len() ==> final(ghost_list).ghosts@[i]
                == (PlayerGhost { entity: None, stats: old(ghost_list).ghosts@[i].stats }),
        despawned@ == live_entities(old(ghost_list).ghosts@),
{
    let mut despawned: Vec<EntityHandle> = Vec::new();
    let mut i: usize = 0;
    while i < ghost_list.ghosts.len()
        invariant
            i <= ghost_list.ghosts@.len(),
            ghost_list.ghosts@.len() == old(ghost_list).ghosts@.len(),
            forall|j: int|
                0 <= j < i ==> ghost_list.ghosts@[j] == (PlayerGhost {
                    entity: None,
                    stats: old(ghost_list).ghosts@[j].stats,
                }),
            forall|j: int|
                i <= j < ghost_list.ghosts@.len() ==> ghost_list.ghosts@[j] == old(
                    ghost_list,
                ).ghosts@[j],
            despawned@ == live_entities(old(ghost_list).ghosts@.take(i as int)),
        decreases ghost_list.ghosts@.len() - i,
    {
        let current = ghost_list.ghosts[i];
        match current.entity {
            Some(entity) => despawned.push(entity),
            None => {},
        }
        ghost_list.ghosts[i] = PlayerGhost { entity: None, stats: current.stats };
        proof {
            assert(old(ghost_list).ghosts@.take(i + 1).drop_last() =~= old(
                ghost_list,
            ).ghosts@.take(i as int));
            assert(old(ghost_list).ghosts@.take(i + 1).last() == old(ghost_list).ghosts@[i as int]);
        }
        i = i + 1;
    }
    proof {
        assert(old(ghost_list).ghosts@.take(old(ghost_list).ghosts@.len() as int) =~= old(
            ghost_list,
        ).ghosts@);
    }
    despawned
}

/// Appends a fresh, unspawned ghost slot carrying the live player's current
/// stat snapshot. With no live player to read (`None`), the save is skipped
/// and the registry is left unchanged — history is best-effort and never
/// blocks the game flow.
pub fn save_player_ghost(
    ghost_list: &mut PlayerGhostList,
    player_stats: Option<PlayerStats>,
) -> (saved: bool)
    ensures
        player_stats matches Some(stats) ==> saved && final(ghost_list).ghosts@ == old(
            ghost_list,
        ).ghosts@.push(PlayerGhost { entity: None, stats }),
        player_stats is None ==> !saved && final(ghost_list).ghosts@ == old(ghost_list).ghosts@,
{
    match player_stats {
        Some(stats) => {
            ghost_list.ghosts.push(PlayerGhost { entity: None, stats });
            true
        },
        None => false,
    }
}

} // verus!
