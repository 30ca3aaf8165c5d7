//! The level table, level completion, and the selection screens.

use cycle_of_the_fallen::character::SelectedCharacter;
use cycle_of_the_fallen::game::{CurrentLevel, GameState, Level, Levels};
use cycle_of_the_fallen::levels::LevelSelectionButton;
use cycle_of_the_fallen::player::data::Class;
use cycle_of_the_fallen::player::systems::check_for_level_complete;

fn three_level_table() -> Levels {
    Levels(vec![
        Level { id: 1, unlocked: true, cycles: None, characters: vec![Class::Knight] },
        Level { id: 2, unlocked: false, cycles: None, characters: vec![Class::Knight] },
        Level { id: 3, unlocked: false, cycles: None, characters: vec![Class::Wizard] },
    ])
}

#[test]
fn default_table_has_three_unlocked_levels() {
    let levels = Levels::default();
    assert_eq!(levels.0.len(), 3);
    assert_eq!(levels.0[0].id, 1);
    assert_eq!(levels.0[1].id, 2);
    assert_eq!(levels.0[2].id, 3);
    assert!(levels.0.iter().all(|level| level.unlocked));
    assert!(levels.0.iter().all(|level| level.cycles.is_none()));
    assert_eq!(levels.0[0].characters, vec![Class::Knight]);
    assert_eq!(levels.0[2].characters, vec![Class::Wizard, Class::Knight]);
}

#[test]
fn id_returns_matching_level() {
    let levels = three_level_table();
    let level = levels.id(2);
    assert_eq!(level.id, 2);
    assert!(!level.unlocked);
    assert_eq!(level.characters, vec![Class::Knight]);
}

#[test]
fn set_next_score_touches_only_its_level() {
    let mut levels = three_level_table();
    levels.set_next_score(2, 7);
    assert_eq!(levels.0[1].cycles, Some(7));
    assert_eq!(levels.0[0].cycles, None);
    assert_eq!(levels.0[2].cycles, None);
    assert!(!levels.0[1].unlocked);
}

#[test]
fn unlock_level_touches_only_its_level() {
    let mut levels = three_level_table();
    levels.unlock_level(3);
    assert!(levels.0[2].unlocked);
    assert!(!levels.0[1].unlocked);
    assert_eq!(levels.0[2].cycles, None);
}

#[test]
fn select_level_requires_unlocked() {
    let levels = three_level_table();
    let picked = levels.select_level(1).expect("level 1 is unlocked");
    assert_eq!(picked.id, 1);
    assert!(levels.select_level(2).is_none());
}

#[test]
fn contains_id_matches_table() {
    let levels = three_level_table();
    assert!(levels.contains_id(3));
    assert!(!levels.contains_id(4));
    assert!(!levels.contains_id(0));
}

#[test]
fn completing_level_one_unlocks_level_two_and_scores() {
    let mut levels = three_level_table();
    let mut current = CurrentLevel(Some(levels.id(1)));
    let next = check_for_level_complete(0, &mut levels, &mut current, 1);
    assert_eq!(next, Some(GameState::LevelSelection));
    assert!(current.0.is_none());
    assert!(levels.0[1].unlocked);
    assert_eq!(levels.0[0].cycles, Some(2));
    assert!(!levels.0[2].unlocked);
}

#[test]
fn completing_last_level_scores_without_unlock() {
    let mut levels = three_level_table();
    let mut current = CurrentLevel(Some(levels.id(3)));
    let next = check_for_level_complete(0, &mut levels, &mut current, 0);
    assert_eq!(next, Some(GameState::LevelSelection));
    assert!(current.0.is_none());
    assert_eq!(levels.0[2].cycles, Some(1));
    assert!(!levels.0[1].unlocked);
}

#[test]
fn enemies_left_means_no_completion() {
    let mut levels = three_level_table();
    let mut current = CurrentLevel(Some(levels.id(1)));
    let next = check_for_level_complete(4, &mut levels, &mut current, 1);
    assert_eq!(next, None);
    assert!(current.0.is_some());
    assert_eq!(levels.0[0].cycles, None);
}

#[test]
fn no_current_level_means_no_completion() {
    let mut levels = three_level_table();
    let mut current = CurrentLevel(None);
    let next = check_for_level_complete(0, &mut levels, &mut current, 1);
    assert_eq!(next, None);
    assert_eq!(levels.0[0].cycles, None);
}

#[test]
fn game_starts_at_level_selection() {
    assert_eq!(GameState::default(), GameState::LevelSelection);
    assert!(CurrentLevel::default().0.is_none());
}

#[test]
fn selection_button_mirrors_level() {
    let levels = three_level_table();
    let button = LevelSelectionButton::from(&levels.0[1]);
    assert_eq!(button.level, 2);
    assert!(!button.unlocked);
    let default_button = LevelSelectionButton::default();
    assert_eq!(default_button.level, 0);
    assert!(!default_button.unlocked);
}

#[test]
fn selected_character_defaults_to_knight() {
    let mut selected = SelectedCharacter::default();
    assert_eq!(selected.0, Class::Knight);
    selected.set(Class::Wizard);
    assert_eq!(selected.0, Class::Wizard);
}
