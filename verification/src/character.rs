//! Character-level data: experience level, defenses, and the errors a
//! character build can report.

use vstd::prelude::*;

verus! {

/// A character's experience level.
#[derive(Clone, Copy, Debug, PartialEq, Eq, Structural)]
pub struct Level(pub usize);

impl Level {
    /// Combat mastery is half the level, rounded up.
    pub fn calc_combat_mastery(&self) -> (r: usize)
        ensures
            r == (self.0 + 1) / 2,
    {
        self.0 / 2 + self.0 % 2
    }
}

impl Default for Level {
    /// A fresh character starts at level 1.
    fn default() -> (r: Self)
        ensures
            r == Level(1usize),
    {
        Level(1)
    }
}

/// A named defense score, with how much damage it absorbs.
#[derive(Clone, Debug, PartialEq)]
pub struct Defense {
    pub name: String,
    pub score: usize,
    pub reduction: usize,
}

impl Defense {
    /// The threshold a heavy hit must reach: five over the score.
    pub fn heavy(&self) -> (r: usize)
        requires
            self.score + 5 <= usize::MAX,
        ensures
            r == self.score + 5,
    {
        self.score + 5
    }

    /// The threshold a brutal hit must reach: ten over the score.
    pub fn brutal(&self) -> (r: usize)
        requires
            self.score + 10 <= usize::MAX,
        ensures
            r == self.score + 10,
    {
        self.score + 10
    }
}

/// Why a character cannot be built.
#[derive(Clone, Debug, PartialEq)]
pub enum CharacterBuildError {
    FieldMissing(Vec<&'static str>),
}

/// How well a character speaks a language.
#[derive(Clone, Copy, Debug, PartialEq, Eq, Structural)]
pub enum Fluency {
    Limited,
    Fluent,
}

} // verus!
