//! Pure decisions of the player-facing systems: attack gating against the
//! cooldown, classifying projectile hits, reacting to a player kill, and
//! level completion. The engine performs the resulting actions — spawning,
//! despawning, state switches — and hands back plain values.

use vstd::prelude::*;
use crate::game::{has_level, level_index, lemma_level_index_props, lemma_level_index_same_ids, CurrentLevel, GameState, Levels};
use crate::level_history::data::{EntityHandle, EventSource};
use crate::player::data::{Class, PlayerStats, PlayerType, Team, Timer};
use crate::player::events::PlayerAttackEvent;

verus! {

/// Gates an attack on the weapon cooldown.
///
/// The cooldown always advances by the tick's `delta`. When the mouse is
/// held and the advanced cooldown has run out, it rewinds and an attack
/// event for the live player is emitted, tagged as genuine input; otherwise
/// nothing is emitted.
pub fn player_attack_write(
    stats: &mut PlayerStats,
    entity: EntityHandle,
    mouse_pressed: bool,
    delta: u64,
) -> (attack: Option<PlayerAttackEvent>)
    ensures
        final(stats).attack.size == old(stats).attack.size,
        final(stats).attack.speed == old(stats).attack.speed,
        final(stats).attack.range == old(stats).attack.range,
        mouse_pressed && old(stats).attack.attack_speed.spec_ticked(delta).spec_finished()
            ==> attack == Some(PlayerAttackEvent { entity, source: EventSource::Input })
            && final(stats).attack.attack_speed == (Timer {
            elapsed: 0,
            duration: old(stats).attack.attack_speed.duration,
        }),
        !(mouse_pressed && old(stats).attack.attack_speed.spec_ticked(delta).spec_finished())
            ==> attack is None && final(stats).attack.attack_speed == old(
            stats,
        ).attack.attack_speed.spec_ticked(delta),
{
    stats.attack.attack_speed.tick(delta);
    if !mouse_pressed {
        return None;
    }
    if stats.attack.attack_speed.finished() {
        stats.attack.attack_speed.reset();
        Some(PlayerAttackEvent { entity, source: EventSource::Input })
    } else {
        None
    }
}

/// What to do about one entity a projectile collided with.
#[derive(Clone, Copy, PartialEq, Eq, Structural, Debug)]
pub enum HitOutcome {
    /// The live player was hit: emit a player-killed event.
    KillPlayer,
    /// Some other combatant was hit: despawn it.
    DespawnTarget,
    /// The entity is no combatant: nothing to do.
    Ignore,
}

/// Classifies a projectile hit from the target's team and player type, as
/// the collision pass queries them: hitting the live player kills it;
/// hitting any other combatant (an enemy, or a ghost) despawns the target;
/// an entity without a team is ignored.
pub fn projectile_hit_outcome(target: Option<(Team, Option<PlayerType>)>) -> (outcome: HitOutcome)
    ensures
        target == Some((Team::Player, Some(PlayerType::Alive))) ==> outcome
            == HitOutcome::KillPlayer,
        target is Some && target != Some((Team::Player, Some(PlayerType::Alive))) ==> outcome
            == HitOutcome::DespawnTarget,
        target is None ==> outcome == HitOutcome::Ignore,
{
    match target {
        Some((Team::Player, Some(PlayerType::Alive))) => HitOutcome::KillPlayer,
        Some(_) => HitOutcome::DespawnTarget,
        None => HitOutcome::Ignore,
    }
}

/// Reacts to a player-killed event, given the victim's player type and
/// class as the kill pass queries them. Only the death of the live player
/// saves a ghost of its class and sends the game back to character
/// selection; the victim is despawned by the caller in every case.
pub fn player_killed_outcome(victim: Option<(PlayerType, Class)>) -> (reaction: (
    Option<Class>,
    Option<GameState>,
))
    ensures
        (victim matches Some((kind, class)) && kind == PlayerType::Alive) ==> reaction == (
            Some((victim->0).1),
            Some(GameState::CharacterSelection),
        ),
        !(victim matches Some((kind, _)) && kind == PlayerType::Alive) ==> reaction == (
            None::<Class>,
            None::<GameState>,
        ),
{
    match victim {
        Some((PlayerType::Alive, class)) => (Some(class), Some(GameState::CharacterSelection)),
        _ => (None, None),
    }
}

/// Decides level completion once a combat tick counted the remaining
/// enemies.
///
/// With enemies left, or no level selected, nothing changes. Otherwise the
/// run is complete: the next level — if the table has one — is unlocked,
/// the cleared level's score is set to the number of attempts the run took
/// (one more than the ghosts it left behind), the selection is cleared, and
/// the game moves back to level selection.
pub fn check_for_level_complete(
    enemy_count: usize,
    levels: &mut Levels,
    current_level: &mut CurrentLevel,
    ghost_count: usize,
) -> (next: Option<GameState>)
    requires
        old(current_level).0 matches Some(level) ==> has_level(old(levels).0@, level.id),
        old(current_level).0 matches Some(level) ==> level.id < usize::MAX,
        ghost_count < usize::MAX,
    ensures
        !(enemy_count == 0 && old(current_level).0 is Some) ==> next is None
            && final(levels).0@ == old(levels).0@
            && final(current_level).0 == old(current_level).0,
        (enemy_count == 0 && old(current_level).0 is Some) ==> ({
            let base = old(levels).0@;
            let cleared_id = old(current_level).0->0.id;
            let score_at = level_index(base, cleared_id);
            &&& next == Some(GameState::LevelSelection)
            &&& final(current_level).0 is None
            &&& final(levels).0@.len() == base.len()
            &&& final(levels).0@[score_at].id == base[score_at].id
            &&& final(levels).0@[score_at].unlocked == base[score_at].unlocked
            &&& final(levels).0@[score_at].cycles == Some((ghost_count + 1) as usize)
            &&& final(levels).0@[score_at].characters == base[score_at].characters
            &&& (has_level(base, (cleared_id + 1) as usize) ==> ({
                let unlock_at = level_index(base, (cleared_id + 1) as usize);
                &&& final(levels).0@[unlock_at].id == base[unlock_at].id
                &&& final(levels).0@[unlock_at].unlocked
                &&& final(levels).0@[unlock_at].cycles == base[unlock_at].cycles
                &&& final(levels).0@[unlock_at].characters == base[unlock_at].characters
                &&& forall|k: int|
                    0 <= k < base.len() && k != score_at && k != unlock_at
                        ==> final(levels).0@[k] == base[k]
            }))
            &&& (!has_level(base, (cleared_id + 1) as usize) ==> forall|k: int|
                0 <= k < base.len() && k != score_at ==> final(levels).0@[k] == base[k])
        }),
{
    if enemy_count != 0 {
        return None;
    }
    let cleared_id: usize = match &current_level.0 {
        Some(level) => level.id,
        None => { return None; },
    };
    proof {
        lemma_level_index_props(levels.0@, cleared_id);
    }
    let next_id = cleared_id + 1;
    if levels.contains_id(next_id) {
        levels.unlock_level(next_id);
        proof {
            lemma_level_index_props(old(levels).0@, next_id);
            lemma_level_index_same_ids(old(levels).0@, levels.0@, cleared_id);
            lemma_level_index_props(levels.0@, cleared_id);
        }
    }
    levels.set_next_score(cleared_id, ghost_count + 1);
    current_level.0 = None;
    Some(GameState::LevelSelection)
}

} // verus!
