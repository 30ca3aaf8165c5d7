//! The event history and replay subsystem: an append-only store of
//! timestamped event records per event type, a registry of ghost slots, and
//! the record/replay passes that run once per simulation tick.

pub mod data;
pub mod laws;
pub mod systems;

use vstd::prelude::*;
use crate::level_history::data::{
    EntityHandle, EventRecord, GhostIdentifier, LevelHistory, LevelStartTime, PlayerGhost,
    PlayerGhostList,
};
use crate::level_history::systems::{
    clear_history, ghost_despawn, live_entities, record_event, recorded_records, replay_event,
    replayed_events, reset_level_start_time, save_player_ghost, spawn_ghosts,
};
use crate::player::data::PlayerStats;
use crate::player::events::{PlayerAttackEvent, PlayerMoveEvent, PlayerRotateEvent};

verus! {

/// Everything one replay pass emits, one list per recordable event type.
#[derive(Debug)]
pub struct ReplayBatch {
    pub moves: Vec<PlayerMoveEvent>,
    pub rotates: Vec<PlayerRotateEvent>,
    pub attacks: Vec<PlayerAttackEvent>,
}

/// The whole history state of one play session: one log per recordable
/// event type, the ghost registry, and the attempt's start time. Owned by
/// the session and handed by reference into each tick; there is no other
/// copy and no concurrent access.
#[derive(Debug)]
pub struct LevelHistorySession {
    pub move_history: LevelHistory<PlayerMoveEvent>,
    pub rotate_history: LevelHistory<PlayerRotateEvent>,
    pub attack_history: LevelHistory<PlayerAttackEvent>,
    pub ghost_list: PlayerGhostList,
    pub start_time: LevelStartTime,
}

impl Default for LevelHistorySession {
    /// A fresh session: empty logs, no ghosts, attempt clock at zero.
    fn default() -> (session: LevelHistorySession)
        ensures
            session.move_history.events@ == Seq::<EventRecord<PlayerMoveEvent>>::empty(),
            session.rotate_history.events@ == Seq::<EventRecord<PlayerRotateEvent>>::empty(),
            session.attack_history.events@ == Seq::<EventRecord<PlayerAttackEvent>>::empty(),
            session.ghost_list.ghosts@ == Seq::<PlayerGhost>::empty(),
            session.start_time.0 == 0,
    {
        LevelHistorySession {
            move_history: LevelHistory { events: Vec::new() },
            rotate_history: LevelHistory { events: Vec::new() },
            attack_history: LevelHistory { events: Vec::new() },
            ghost_list: PlayerGhostList { ghosts: Vec::new() },
            start_time: LevelStartTime(0),
        }
    }
}

impl LevelHistorySession {
    /// Starts a new attempt: every ghost slot receives one of the freshly
    /// created entities, and only then is the attempt clock reset, so that
    /// every replay target is valid before the first replay pass. Returns
    /// the stale entities that were still assigned; the caller despawns
    /// them.
    pub fn enter_play(&mut self, now: u64, fresh: &Vec<EntityHandle>) -> (stale: Vec<EntityHandle>)
        requires
            fresh@.len() == old(self).ghost_list.ghosts@.len(),
        ensures
            final(self).ghost_list.ghosts@.len() == old(self).ghost_list.ghosts@.len(),
            forall|i: int|
                0 <= i < old(self).ghost_list.ghosts@.len() ==> final(self).ghost_list.ghosts@[i]
                    == (PlayerGhost {
                    entity: Some(fresh@[i]),
                    stats: old(self).ghost_list.ghosts@[i].stats,
                }),
            stale@ == live_entities(old(self).ghost_list.ghosts@),
            final(self).start_time.0 == now,
            final(self).move_history.events@ == old(self).move_history.events@,
            final(self).rotate_history.events@ == old(self).rotate_history.events@,
            final(self).attack_history.events@ == old(self).attack_history.events@,
    {
        let stale = spawn_ghosts(&mut self.ghost_list, fresh);
        reset_level_start_time(&mut self.start_time, now);
        stale
    }

    /// Leaves play for the level-selection screen: every tracked ghost
    /// entity is handed back for despawning, and the registry and all three
    /// logs are cleared.
    pub fn enter_level_selection(&mut self) -> (despawned: Vec<EntityHandle>)
        ensures
            despawned@ == live_entities(old(self).ghost_list.ghosts@),
            final(self).ghost_list.ghosts@ == Seq::<PlayerGhost>::empty(),
            final(self).move_history.events@ == Seq::<EventRecord<PlayerMoveEvent>>::empty(),
            final(self).rotate_history.events@ == Seq::<EventRecord<PlayerRotateEvent>>::empty(),
            final(self).attack_history.events@ == Seq::<EventRecord<PlayerAttackEvent>>::empty(),
            final(self).start_time == old(self).start_time,
    {
        let despawned = ghost_despawn(&mut self.ghost_list);
        self.ghost_list.ghosts.clear();
        self.clear_histories();
        despawned
    }

    /// Clears the three event logs, as a level change demands; the ghost
    /// registry and the attempt clock stay.
    pub fn clear_histories(&mut self)
        ensures
            final(self).move_history.events@ == Seq::<EventRecord<PlayerMoveEvent>>::empty(),
            final(self).rotate_history.events@ == Seq::<EventRecord<PlayerRotateEvent>>::empty(),
            final(self).attack_history.events@ == Seq::<EventRecord<PlayerAttackEvent>>::empty(),
            final(self).ghost_list.ghosts@ == old(self).ghost_list.ghosts@,
            final(self).start_time == old(self).start_time,
    {
        clear_history(&mut self.move_history);
        clear_history(&mut self.rotate_history);
        clear_history(&mut self.attack_history);
    }

    /// Saves a ghost of the live player on death: appends an unspawned slot
    /// with the given stat snapshot, or skips the save when no live player
    /// was there to read.
    pub fn player_died(&mut self, player_stats: Option<PlayerStats>) -> (saved: bool)
        ensures
            player_stats matches Some(stats) ==> saved && final(self).ghost_list.ghosts@ == old(
                self,
            ).ghost_list.ghosts@.push(PlayerGhost { entity: None, stats }),
            player_stats is None ==> !saved && final(self).ghost_list.ghosts@ == old(
                self,
            ).ghost_list.ghosts@,
            final(self).move_history.events@ == old(self).move_history.events@,
            final(self).rotate_history.events@ == old(self).rotate_history.events@,
            final(self).attack_history.events@ == old(self).attack_history.events@,
            final(self).start_time == old(self).start_time,
    {
        save_player_ghost(&mut self.ghost_list, player_stats)
    }

    /// One recording pass: appends the qualifying events of this tick's
    /// batches to the corresponding logs.
    pub fn record_tick(
        &mut self,
        now: u64,
        moves: &Vec<PlayerMoveEvent>,
        rotates: &Vec<PlayerRotateEvent>,
        attacks: &Vec<PlayerAttackEvent>,
    )
        requires
            old(self).start_time.0 <= now,
        ensures
            final(self).move_history.events@ == old(self).move_history.events@ + recorded_records(
                moves@,
                GhostIdentifier(old(self).ghost_list.ghosts@.len() as usize),
                (now - old(self).start_time.0) as u64,
            ),
            final(self).rotate_history.events@ == old(self).rotate_history.events@
                + recorded_records(
                rotates@,
                GhostIdentifier(old(self).ghost_list.ghosts@.len() as usize),
                (now - old(self).start_time.0) as u64,
            ),
            final(self).attack_history.events@ == old(self).attack_history.events@
                + recorded_records(
                attacks@,
                GhostIdentifier(old(self).ghost_list.ghosts@.len() as usize),
                (now - old(self).start_time.0) as u64,
            ),
            final(self).ghost_list.ghosts@ == old(self).ghost_list.ghosts@,
            final(self).start_time == old(self).start_time,
    {
        record_event(&mut self.move_history, &self.ghost_list, &self.start_time, now, moves);
        record_event(&mut self.rotate_history, &self.ghost_list, &self.start_time, now, rotates);
        record_event(&mut self.attack_history, &self.ghost_list, &self.start_time, now, attacks);
    }

    /// One replay pass: emits every stored record whose timestamp falls in
    /// the just-elapsed window and whose ghost is spawned, aimed at the
    /// ghost's entity.
    pub fn replay_tick(&self, now: u64, delta: u64) -> (batch: ReplayBatch)
        requires
            self.start_time.0 <= now,
        ensures
            batch.moves@ == replayed_events(
                self.move_history.events@,
                self.ghost_list.ghosts@,
                now - self.start_time.0,
                delta as int,
            ),
            batch.rotates@ == replayed_events(
                self.rotate_history.events@,
                self.ghost_list.ghosts@,
                now - self.start_time.0,
                delta as int,
            ),
            batch.attacks@ == replayed_events(
                self.attack_history.events@,
                self.ghost_list.ghosts@,
                now - self.start_time.0,
                delta as int,
            ),
    {
        ReplayBatch {
            moves: replay_event(&self.move_history, &self.start_time, &self.ghost_list, now, delta),
            rotates: replay_event(
                &self.rotate_history,
                &self.start_time,
                &self.ghost_list,
                now,
                delta,
            ),
            attacks: replay_event(
                &self.attack_history,
                &self.start_time,
                &self.ghost_list,
                now,
                delta,
            ),
        }
    }
}

} // verus!
