//! Game-wide state: the phase the game is in, the level table with its
//! unlock/score bookkeeping, and the currently selected level.

use vstd::prelude::*;
use crate::player::data::Class;

verus! {

/// The phases of the game.
#[derive(Clone, Copy, PartialEq, Eq, Structural, Debug, Hash)]
pub enum GameState {
    LevelSelection,
    CharacterSelection,
    Play,
}

impl Default for GameState {
    /// The game starts at the level-selection screen.
    fn default() -> (state: GameState)
        ensures
            state == GameState::LevelSelection,
    {
        GameState::LevelSelection
    }
}

/// One entry of the level table.
#[derive(Debug)]
pub struct Level {
    pub id: usize,
    /// Whether the level is available to play.
    pub unlocked: bool,
    /// The best score: how many attempts (ghosts plus the final one) the
    /// clearing run took. `None` until the level is first cleared.
    pub cycles: Option<usize>,
    /// The classes available on this level.
    pub characters: Vec<Class>,
}

impl Level {
    /// Field-wise sameness; the character list is compared by contents.
    pub open spec fn same_level(self, other: Level) -> bool {
        self.id == other.id && self.unlocked == other.unlocked && self.cycles == other.cycles
            && self.characters@ == other.characters@
    }
}

impl Clone for Level {
    fn clone(&self) -> (other: Level)
        ensures
            other.same_level(*self),
    {
        let mut characters: Vec<Class> = Vec::new();
        let mut i: usize = 0;
        while i < self.characters.len()
            invariant
                i <= self.characters@.len(),
                characters@ == self.characters@.take(i as int),
            decreases self.characters@.len() - i,
        {
            characters.push(self.characters[i]);
            proof {
                assert(self.characters@.take(i + 1) =~= self.characters@.take(i as int).push(
                    self.characters@[i as int],
                ));
            }
            i = i + 1;
        }
        proof {
            assert(self.characters@.take(self.characters@.len() as int) =~= self.characters@);
        }
        Level { id: self.id, unlocked: self.unlocked, cycles: self.cycles, characters }
    }
}

/// The currently selected level, if any.
#[derive(Debug)]
pub struct CurrentLevel(pub Option<Level>);

impl Default for CurrentLevel {
    /// No level selected.
    fn default() -> (current: CurrentLevel)
        ensures
            current.0 is None,
    {
        CurrentLevel(None)
    }
}

/// Whether the table holds a level with the given id.
pub open spec fn has_level(levels: Seq<Level>, id: usize) -> bool {
    exists|i: int| 0 <= i < levels.len() && levels[i].id == id
}

/// The first index of the level with the given id; meaningful only when
/// `has_level` holds.
pub open spec fn level_index(levels: Seq<Level>, id: usize) -> int
    decreases levels.len(),
{
    if levels.len() == 0 {
        0
    } else if levels[0].id == id {
        0
    } else {
        1 + level_index(levels.drop_first(), id)
    }
}

/// `level_index` finds exactly the first matching position.
pub proof fn lemma_level_index_first(levels: Seq<Level>, id: usize, i: int)
    requires
        0 <= i < levels.len(),
        levels[i].id == id,
        forall|j: int| 0 <= j < i ==> levels[j].id != id,
    ensures
        has_level(levels, id),
        level_index(levels, id) == i,
    decreases i,
{
    if i == 0 {
    } else {
        assert(levels[0].id != id);
        lemma_level_index_first(levels.drop_first(), id, i - 1);
    }
}

/// On a table that holds the id, `level_index` is in range, matches the id,
/// and nothing before it matches.
pub proof fn lemma_level_index_props(levels: Seq<Level>, id: usize)
    requires
        has_level(levels, id),
    ensures
        0 <= level_index(levels, id) < levels.len(),
        levels[level_index(levels, id)].id == id,
        forall|j: int| 0 <= j < level_index(levels, id) ==> levels[j].id != id,
    decreases levels.len(),
{
    if levels.len() == 0 {
    } else if levels[0].id == id {
    } else {
        let witness = choose|i: int| 0 <= i < levels.len() && levels[i].id == id;
        assert(levels.drop_first()[witness - 1].id == id);
        lemma_level_index_props(levels.drop_first(), id);
        assert forall|j: int| 0 <= j < level_index(levels, id) implies levels[j].id != id by {
            if j > 0 {
                assert(levels.drop_first()[j - 1].id != id);
            }
        }
    }
}

/// Updating one level in place keeps every id, so lookups in the updated
/// table land on the same positions.
pub proof fn lemma_level_index_same_ids(before: Seq<Level>, after: Seq<Level>, id: usize)
    requires
        before.len() == after.len(),
        forall|i: int| 0 <= i < before.len() ==> before[i].id == after[i].id,
    ensures
        has_level(before, id) == has_level(after, id),
        level_index(before, id) == level_index(after, id),
    decreases before.len(),
{
    if before.len() == 0 {
    } else if before[0].id == id {
        assert(has_level(before, id));
        assert(has_level(after, id));
    } else {
        lemma_level_index_same_ids(before.drop_first(), after.drop_first(), id);
        assert(has_level(before, id) ==> has_level(before.drop_first(), id)) by {
            if has_level(before, id) {
                let witness = choose|i: int|
                    0 <= i < before.len() && before[i].id == id;
                assert(before.drop_first()[witness - 1].id == id);
            }
        }
        assert(has_level(after, id) ==> has_level(after.drop_first(), id)) by {
            if has_level(after, id) {
                let witness = choose|i: int| 0 <= i < after.len() && after[i].id == id;
                assert(after.drop_first()[witness - 1].id == id);
            }
        }
        assert(has_level(before.drop_first(), id) ==> has_level(before, id)) by {
            if has_level(before.drop_first(), id) {
                let witness = choose|i: int|
                    0 <= i < before.drop_first().len() && before.drop_first()[i].id == id;
                assert(before[witness + 1].id == id);
            }
        }
        assert(has_level(after.drop_first(), id) ==> has_level(after, id)) by {
            if has_level(after.drop_first(), id) {
                let witness = choose|i: int|
                    0 <= i < after.drop_first().len() && after.drop_first()[i].id == id;
                assert(after[witness + 1].id == id);
            }
        }
    }
}

/// The level table. Looking an id up that the table lacks is a corrupted
/// configuration — callers must establish `has_level` first.
#[derive(Debug)]
pub struct Levels(pub Vec<Level>);

impl Levels {
    /// A copy of the first level with the given id.
    pub fn id(&self, id: usize) -> (level: Level)
        requires
            has_level(self.0@, id),
        ensures
            level.same_level(self.0@[level_index(self.0@, id)]),
    {
        proof {
            lemma_level_index_props(self.0@, id);
        }
        let mut i: usize = 0;
        while i < self.0.len()
            invariant
                has_level(self.0@, id),
                i <= self.0@.len(),
                forall|j: int| 0 <= j < i ==> self.0@[j].id != id,
            decreases self.0@.len() - i,
        {
            if self.0[i].id == id {
                proof {
                    lemma_level_index_first(self.0@, id, i as int);
                }
                return self.0[i].clone();
            }
            i = i + 1;
        }
        proof {
            lemma_level_index_props(self.0@, id);
            assert(false);
        }
        unreached()
    }

    /// Records the score of the level with the given id: how many cycles
    /// (attempts) the clearing run took. The rest of the table is unchanged.
    pub fn set_next_score(&mut self, id: usize, cycles: usize)
        requires
            has_level(old(self).0@, id),
        ensures
            final(self).0@ == old(self).0@.update(
                level_index(old(self).0@, id),
                Level {
                    id: old(self).0@[level_index(old(self).0@, id)].id,
                    unlocked: old(self).0@[level_index(old(self).0@, id)].unlocked,
                    cycles: Some(cycles),
                    characters: old(self).0@[level_index(old(self).0@, id)].characters,
                },
            ),
    {
        proof {
            lemma_level_index_props(self.0@, id);
        }
        let mut i: usize = 0;
        while i < self.0.len()
            invariant
                has_level(self.0@, id),
                i <= self.0@.len(),
                forall|j: int| 0 <= j < i ==> self.0@[j].id != id,
                self.0@ == old(self).0@,
            decreases self.0@.len() - i,
        {
            if self.0[i].id == id {
                proof {
                    lemma_level_index_first(self.0@, id, i as int);
                }
                let level_ref = &mut self.0[i];
                level_ref.cycles = Some(cycles);
                return ;
            }
            i = i + 1;
        }
        proof {
            lemma_level_index_props(self.0@, id);
            assert(false);
        }
    }

    /// Marks the level with the given id as available to play. The rest of
    /// the table is unchanged.
    pub fn unlock_level(&mut self, id: usize)
        requires
            has_level(old(self).0@, id),
        ensures
            final(self).0@ == old(self).0@.update(
                level_index(old(self).0@, id),
                Level {
                    id: old(self).0@[level_index(old(self).0@, id)].id,
                    unlocked: true,
                    cycles: old(self).0@[level_index(old(self).0@, id)].cycles,
                    characters: old(self).0@[level_index(old(self).0@, id)].characters,
                },
            ),
    {
        proof {
            lemma_level_index_props(self.0@, id);
        }
        let mut i: usize = 0;
        while i < self.0.len()
            invariant
                has_level(self.0@, id),
                i <= self.0@.len(),
                forall|j: int| 0 <= j < i ==> self.0@[j].id != id,
                self.0@ == old(self).0@,
            decreases self.0@.len() - i,
        {
            if self.0[i].id == id {
                proof {
                    lemma_level_index_first(self.0@, id, i as int);
                }
                let level_ref = &mut self.0[i];
                level_ref.unlocked = true;
                return ;
            }
            i = i + 1;
        }
        proof {
            lemma_level_index_props(self.0@, id);
            assert(false);
        }
    }

    /// Whether the table holds a level with the given id.
    pub fn contains_id(&self, id: usize) -> (found: bool)
        ensures
            found == has_level(self.0@, id),
    {
        let mut i: usize = 0;
        while i < self.0.len()
            invariant
                i <= self.0@.len(),
                forall|j: int| 0 <= j < i ==> self.0@[j].id != id,
            decreases self.0@.len() - i,
        {
            if self.0[i].id == id {
                return true;
            }
            i = i + 1;
        }
        false
    }

    /// The level a selection screen press picks: a copy of the level with
    /// the given id when it is unlocked, `None` when it is still locked.
    pub fn select_level(&self, id: usize) -> (selected: Option<Level>)
        requires
            has_level(self.0@, id),
        ensures
            self.0@[level_index(self.0@, id)].unlocked ==> (selected matches Some(level)
                && level.same_level(self.0@[level_index(self.0@, id)])),
            !self.0@[level_index(self.0@, id)].unlocked ==> selected is None,
    {
        let level = self.id(id);
        if level.unlocked {
            Some(level)
        } else {
            None
        }
    }
}

impl Default for Levels {
    /// The shipped three-level table: all unlocked, no scores yet; the
    /// knight everywhere, the wizard also on the last level.
    fn default() -> (levels: Levels)
        ensures
            levels.0@.len() == 3,
            levels.0@[0].id == 1 && levels.0@[0].unlocked && levels.0@[0].cycles is None
                && levels.0@[0].characters@ == seq![Class::Knight],
            levels.0@[1].id == 2 && levels.0@[1].unlocked && levels.0@[1].cycles is None
                && levels.0@[1].characters@ == seq![Class::Knight],
            levels.0@[2].id == 3 && levels.0@[2].unlocked && levels.0@[2].cycles is None
                && levels.0@[2].characters@ == seq![Class::Wizard, Class::Knight],
    {
        let mut table: Vec<Level> = Vec::new();
        let mut first: Vec<Class> = Vec::new();
        first.push(Class::Knight);
        table.push(Level { id: 1, unlocked: true, cycles: None, characters: first });
        let mut second: Vec<Class> = Vec::new();
        second.push(Class::Knight);
        table.push(Level { id: 2, unlocked: true, cycles: None, characters: second });
        let mut third: Vec<Class> = Vec::new();
        third.push(Class::Wizard);
        third.push(Class::Knight);
        table.push(Level { id: 3, unlocked: true, cycles: None, characters: third });
        proof {
            assert(table@[0].characters@ =~= seq![Class::Knight]);
            assert(table@[1].characters@ =~= seq![Class::Knight]);
            assert(table@[2].characters@ =~= seq![Class::Wizard, Class::Knight]);
        }
        Levels(table)
    }
}

} // verus!
