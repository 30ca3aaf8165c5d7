//! Player stats, attack gating, event capabilities, collisions and enemies.

use cycle_of_the_fallen::collision::{
    get_collision_layers, CollisionLayers, ENEMY_CHARACTER_COLLISION_LAYER,
    ENEMY_PROJECTILE_COLLISION_LAYER, PLAYER_CHARACTER_COLLISION_LAYER,
    PLAYER_PROJECTILE_COLLISION_LAYER, WALL_COLLISION_LAYER,
};
use cycle_of_the_fallen::ennemy::{AttackSpeed, AttackSpeedType, EnnemyKind};
use cycle_of_the_fallen::level_history::data::{
    DebugColor, EntityHandle, EventRecordDebug, EventSource, EventSourceMethods, GhostIdentifier,
    SetEntity,
};
use cycle_of_the_fallen::player::data::{
    Class, PlayerStats, PlayerType, Team, Timer, Vec2Fixed, Weapon,
};
use cycle_of_the_fallen::player::events::{
    PlayerAttackEvent, PlayerKilledEvent, PlayerMoveEvent, PlayerRotateEvent,
};
use cycle_of_the_fallen::player::systems::{
    player_attack_write, player_killed_outcome, projectile_hit_outcome, HitOutcome,
};
use cycle_of_the_fallen::game::GameState;

#[test]
fn stats_follow_class_weapons() {
    let knight = PlayerStats::new(Class::Knight);
    assert_eq!(knight.attack.size, Vec2Fixed { x: 12000, y: 12000 });
    assert_eq!(knight.attack.speed, 0);
    assert_eq!(knight.attack.range, 10);
    assert_eq!(knight.attack.attack_speed.duration, 300_000);

    let ranger = PlayerStats::new(Class::Ranger);
    assert_eq!(ranger.attack.size, Vec2Fixed { x: 3000, y: 8000 });
    assert_eq!(ranger.attack.speed, 30);
    assert_eq!(ranger.attack.range, 600);
    assert_eq!(ranger.attack.attack_speed.duration, 100_000);

    let wizard = PlayerStats::new(Class::Wizard);
    assert_eq!(wizard.attack.size, Vec2Fixed { x: 8000, y: 8000 });
    assert_eq!(wizard.attack.speed, 15);
    assert_eq!(wizard.attack.range, 400);
    assert_eq!(wizard.attack.attack_speed.duration, 300_000);
    let _ = Weapon::Staff;
}

#[test]
fn timer_ticks_saturating_and_resets() {
    let mut timer = Timer::new(100);
    assert!(!timer.finished());
    timer.tick(40);
    assert_eq!(timer.elapsed, 40);
    timer.tick(70);
    assert_eq!(timer.elapsed, 100);
    assert!(timer.finished());
    timer.reset();
    assert_eq!(timer.elapsed, 0);
    assert!(!timer.finished());
}

#[test]
fn attack_fires_only_when_cooldown_ran_out() {
    let mut stats = PlayerStats::new(Class::Knight);
    let player = EntityHandle(1);
    // cooldown fresh: held mouse does not fire yet
    let attack = player_attack_write(&mut stats, player, true, 100_000);
    assert!(attack.is_none());
    assert_eq!(stats.attack.attack_speed.elapsed, 100_000);
    // cooldown ran out but the mouse is up
    let attack = player_attack_write(&mut stats, player, false, 200_000);
    assert!(attack.is_none());
    // cooldown ran out and the mouse is held: fire, and rewind
    let attack = player_attack_write(&mut stats, player, true, 0);
    assert_eq!(attack, Some(PlayerAttackEvent { entity: player, source: EventSource::Input }));
    assert_eq!(stats.attack.attack_speed.elapsed, 0);
}

#[test]
fn projectile_hits_classify_targets() {
    assert_eq!(
        projectile_hit_outcome(Some((Team::Player, Some(PlayerType::Alive)))),
        HitOutcome::KillPlayer
    );
    assert_eq!(
        projectile_hit_outcome(Some((Team::Player, Some(PlayerType::Replay)))),
        HitOutcome::DespawnTarget
    );
    assert_eq!(projectile_hit_outcome(Some((Team::Enemy, None))), HitOutcome::DespawnTarget);
    assert_eq!(projectile_hit_outcome(None), HitOutcome::Ignore);
}

#[test]
fn killed_live_player_saves_ghost_and_changes_state() {
    let (save, next) = player_killed_outcome(Some((PlayerType::Alive, Class::Wizard)));
    assert_eq!(save, Some(Class::Wizard));
    assert_eq!(next, Some(GameState::CharacterSelection));
    let (save, next) = player_killed_outcome(Some((PlayerType::Replay, Class::Knight)));
    assert_eq!(save, None);
    assert_eq!(next, None);
    let (save, next) = player_killed_outcome(None);
    assert_eq!(save, None);
    assert_eq!(next, None);
}

#[test]
fn event_capabilities_read_and_write() {
    let mut event = PlayerMoveEvent {
        entity: EntityHandle(1),
        source: EventSource::Input,
        delta: Vec2Fixed { x: 5, y: -5 },
    };
    assert_eq!(event.get_source(), EventSource::Input);
    event.set_source(EventSource::Replay);
    assert_eq!(event.get_source(), EventSource::Replay);
    event.set_entity(EntityHandle(77));
    assert_eq!(event.entity, EntityHandle(77));
    assert_eq!(event.delta, Vec2Fixed { x: 5, y: -5 });
}

#[test]
fn debug_colors_are_fixed_per_event_type() {
    let move_event = PlayerMoveEvent {
        entity: EntityHandle(1),
        source: EventSource::Input,
        delta: Vec2Fixed { x: 0, y: 0 },
    };
    let rotate_event =
        PlayerRotateEvent { entity: EntityHandle(1), source: EventSource::Input, to: 1570 };
    let attack_event = PlayerAttackEvent { entity: EntityHandle(1), source: EventSource::Input };
    assert_eq!(
        move_event.get_debug_color(GhostIdentifier(0)),
        DebugColor { red: 0, green: 0, blue: 255, alpha: 51 }
    );
    assert_eq!(
        rotate_event.get_debug_color(GhostIdentifier(1)),
        DebugColor { red: 0, green: 255, blue: 0, alpha: 51 }
    );
    assert_eq!(
        attack_event.get_debug_color(GhostIdentifier(2)),
        DebugColor { red: 255, green: 0, blue: 255, alpha: 128 }
    );
}

#[test]
fn collision_layers_pair_each_side() {
    let player = get_collision_layers(PLAYER_CHARACTER_COLLISION_LAYER);
    assert_eq!(
        player,
        CollisionLayers {
            memberships: PLAYER_CHARACTER_COLLISION_LAYER,
            filters: ENEMY_PROJECTILE_COLLISION_LAYER | ENEMY_CHARACTER_COLLISION_LAYER
                | WALL_COLLISION_LAYER,
        }
    );
    let wall = get_collision_layers(WALL_COLLISION_LAYER);
    assert_eq!(
        wall.filters,
        PLAYER_CHARACTER_COLLISION_LAYER | ENEMY_CHARACTER_COLLISION_LAYER
            | PLAYER_PROJECTILE_COLLISION_LAYER | ENEMY_PROJECTILE_COLLISION_LAYER
    );
    let unknown = get_collision_layers(1 << 9);
    assert_eq!(unknown.memberships, 1 << 9);
    assert_eq!(unknown.filters, u32::MAX);
}

#[test]
fn enemy_cooldown_and_radius() {
    assert_eq!(EnnemyKind::Dummy.radius(), 15);
    assert_eq!(EnnemyKind::Turret.radius(), 15);
    let mut speed = AttackSpeed::from_type(AttackSpeedType::Regular);
    assert_eq!(speed.0.duration, 2_000_000);
    assert!(!speed.finished());
    speed.tick(2_000_000);
    assert!(speed.finished());
    speed.reset();
    assert!(!speed.finished());
    let wrapped = AttackSpeed::new(Timer::new(5));
    assert_eq!(wrapped.0.duration, 5);
}

#[test]
fn rotate_and_killed_events_carry_capabilities() {
    let mut rotate =
        PlayerRotateEvent { entity: EntityHandle(3), source: EventSource::Input, to: -3141 };
    rotate.set_entity(EntityHandle(4));
    rotate.set_source(EventSource::Replay);
    assert_eq!(rotate.entity, EntityHandle(4));
    assert_eq!(rotate.get_source(), EventSource::Replay);
    assert_eq!(rotate.to, -3141);

    let mut killed =
        PlayerKilledEvent { entity: EntityHandle(5), source: EventSource::Replay };
    killed.set_source(EventSource::Input);
    killed.set_entity(EntityHandle(6));
    assert_eq!(killed.get_source(), EventSource::Input);
    assert_eq!(killed.entity, EntityHandle(6));
    assert_eq!(
        killed.get_debug_color(GhostIdentifier(0)),
        DebugColor { red: 255, green: 0, blue: 255, alpha: 128 }
    );
}
