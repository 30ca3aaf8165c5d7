//! The character-selection screen's data: which class the player picked.

use vstd::prelude::*;
use crate::player::data::Class;

verus! {

/// The class the player has picked for the next attempt.
#[derive(Clone, Copy, PartialEq, Eq, Structural, Debug)]
pub struct SelectedCharacter(pub Class);

impl Default for SelectedCharacter {
    /// The knight, until the player picks otherwise.
    fn default() -> (selected: SelectedCharacter)
        ensures
            selected.0 == Class::Knight,
    {
        SelectedCharacter(Class::Knight)
    }
}

impl SelectedCharacter {
    /// Picks a class.
    pub fn set(&mut self, class: Class)
        ensures
            final(self).0 == class,
    {
        self.0 = class;
    }
}

} // verus!
