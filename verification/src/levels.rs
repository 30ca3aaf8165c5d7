//! The level-selection screen's data: what one selection button remembers
//! of the level it stands for.

use vstd::prelude::*;
use crate::game::Level;

verus! {

/// What a selection button holds of its level: which level it is and
/// whether it is unlocked.
#[derive(Clone, Copy, PartialEq, Eq, Structural, Debug)]
pub struct LevelSelectionButton {
    pub level: usize,
    pub unlocked: bool,
}

impl Default for LevelSelectionButton {
    /// A button for no level, locked.
    fn default() -> (button: LevelSelectionButton)
        ensures
            button.level == 0,
            !button.unlocked,
    {
        LevelSelectionButton { level: 0, unlocked: false }
    }
}

impl<'a> From<&'a Level> for LevelSelectionButton {
    /// The button describing a table entry.
    fn from(value: &'a Level) -> (button: LevelSelectionButton) {
        LevelSelectionButton { level: value.id, unlocked: value.unlocked }
    }
}

impl<'a> vstd::std_specs::convert::FromSpecImpl<&'a Level> for LevelSelectionButton {
    open spec fn obeys_from_spec() -> bool {
        true
    }

    open spec fn from_spec(value: &'a Level) -> LevelSelectionButton {
        LevelSelectionButton { level: value.id, unlocked: value.unlocked }
    }
}

} // verus!
