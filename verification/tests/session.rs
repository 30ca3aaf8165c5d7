//! End-to-end scenarios driving the whole session: record on one attempt,
//! die, spawn ghosts, replay on the next attempt.

use cycle_of_the_fallen::level_history::data::{EntityHandle, EventSource};
use cycle_of_the_fallen::level_history::LevelHistorySession;
use cycle_of_the_fallen::player::data::{Class, PlayerStats, Vec2Fixed};
use cycle_of_the_fallen::player::events::{PlayerAttackEvent, PlayerMoveEvent, PlayerRotateEvent};

#[test]
fn scenario_record_die_respawn_replay() {
    let mut session = LevelHistorySession::default();
    let player = EntityHandle(1);

    // attempt 1 begins at engine clock 0 with no ghosts to spawn
    let stale = session.enter_play(0, &Vec::new());
    assert!(stale.is_empty());

    // the player moves right at attempt-clock 0
    let moves = vec![PlayerMoveEvent {
        entity: player,
        source: EventSource::Input,
        delta: Vec2Fixed { x: 1000, y: 0 },
    }];
    session.record_tick(0, &moves, &Vec::new(), &Vec::new());
    assert_eq!(session.move_history.events.len(), 1);
    assert_eq!(session.move_history.events[0].timestamp, 0);

    // the player dies: a ghost with the attempt's stats is saved
    let stats = PlayerStats::new(Class::Knight);
    assert!(session.player_died(Some(stats)));
    assert_eq!(session.ghost_list.ghosts.len(), 1);
    assert_eq!(session.ghost_list.ghosts[0].stats, stats);
    assert_eq!(session.ghost_list.ghosts[0].entity, None);

    // attempt 2 begins five seconds later; the ghost gets a fresh entity
    let ghost_entity = EntityHandle(42);
    let stale = session.enter_play(5_000_000, &vec![ghost_entity]);
    assert!(stale.is_empty());
    assert_eq!(session.ghost_list.ghosts[0].entity, Some(ghost_entity));

    // the first replay pass, at attempt-clock 0, re-emits the move aimed
    // at the ghost
    let batch = session.replay_tick(5_000_000, 16_666);
    assert_eq!(batch.moves.len(), 1);
    assert_eq!(batch.moves[0].entity, ghost_entity);
    assert_eq!(batch.moves[0].source, EventSource::Replay);
    assert_eq!(batch.moves[0].delta, Vec2Fixed { x: 1000, y: 0 });
    assert!(batch.rotates.is_empty());
    assert!(batch.attacks.is_empty());

    // replayed events that reach the recorder again are filtered out
    session.record_tick(5_000_000, &batch.moves, &Vec::new(), &Vec::new());
    assert_eq!(session.move_history.events.len(), 1);
}

#[test]
fn two_deaths_then_level_selection_clears_ghosts() {
    let mut session = LevelHistorySession::default();
    session.enter_play(0, &Vec::new());
    let stats = PlayerStats::new(Class::Ranger);
    assert!(session.player_died(Some(stats)));
    assert!(session.player_died(Some(stats)));
    assert_eq!(session.ghost_list.ghosts.len(), 2);

    let despawned = session.enter_level_selection();
    assert!(despawned.is_empty());
    assert_eq!(session.ghost_list.ghosts.len(), 0);
    assert_eq!(session.move_history.events.len(), 0);
    assert_eq!(session.rotate_history.events.len(), 0);
    assert_eq!(session.attack_history.events.len(), 0);
}

#[test]
fn level_selection_despawns_spawned_ghosts() {
    let mut session = LevelHistorySession::default();
    let stats = PlayerStats::new(Class::Knight);
    session.player_died(Some(stats));
    session.player_died(Some(stats));
    session.enter_play(100, &vec![EntityHandle(8), EntityHandle(9)]);
    let despawned = session.enter_level_selection();
    assert_eq!(despawned, vec![EntityHandle(8), EntityHandle(9)]);
    assert_eq!(session.ghost_list.ghosts.len(), 0);
}

#[test]
fn respawning_over_stale_ghosts_reports_them() {
    let mut session = LevelHistorySession::default();
    let stats = PlayerStats::new(Class::Knight);
    session.player_died(Some(stats));
    session.enter_play(0, &vec![EntityHandle(3)]);
    // a second spawn without a despawn in between: the old entity is stale
    let stale = session.enter_play(1000, &vec![EntityHandle(4)]);
    assert_eq!(stale, vec![EntityHandle(3)]);
    assert_eq!(session.ghost_list.ghosts[0].entity, Some(EntityHandle(4)));
}

#[test]
fn clear_histories_keeps_ghosts() {
    let mut session = LevelHistorySession::default();
    let stats = PlayerStats::new(Class::Wizard);
    session.player_died(Some(stats));
    session.enter_play(0, &vec![EntityHandle(2)]);
    let moves = vec![PlayerMoveEvent {
        entity: EntityHandle(1),
        source: EventSource::Input,
        delta: Vec2Fixed { x: 1, y: 1 },
    }];
    session.record_tick(10, &moves, &Vec::new(), &Vec::new());
    session.clear_histories();
    assert_eq!(session.move_history.events.len(), 0);
    assert_eq!(session.ghost_list.ghosts.len(), 1);
    assert_eq!(session.ghost_list.ghosts[0].entity, Some(EntityHandle(2)));
}

#[test]
fn session_records_all_three_event_types() {
    let mut session = LevelHistorySession::default();
    session.enter_play(1000, &Vec::new());
    let moves = vec![PlayerMoveEvent {
        entity: EntityHandle(1),
        source: EventSource::Input,
        delta: Vec2Fixed { x: 1, y: 2 },
    }];
    let rotates =
        vec![PlayerRotateEvent { entity: EntityHandle(1), source: EventSource::Input, to: 99 }];
    let attacks = vec![PlayerAttackEvent { entity: EntityHandle(1), source: EventSource::Input }];
    session.record_tick(1500, &moves, &rotates, &attacks);
    assert_eq!(session.move_history.events.len(), 1);
    assert_eq!(session.rotate_history.events.len(), 1);
    assert_eq!(session.attack_history.events.len(), 1);
    assert_eq!(session.rotate_history.events[0].timestamp, 500);
    assert_eq!(session.attack_history.events[0].event.source, EventSource::Replay);
}
