//! Attributes: the five named ability scores of a character, the defenses
//! derived from them, and the per-attribute levelling data.

use crate::character::{Defense, Level};
use crate::skill::Skill;
use vstd::prelude::*;

verus! {

/// The five attribute names.
#[derive(Clone, Copy, Debug, PartialEq, Eq, Hash, Structural)]
pub enum AttributeName {
    Prime,
    Might,
    Agility,
    Charisma,
    Intelligence,
}

/// The error reported when a string names no attribute.
#[derive(Clone, Debug)]
pub struct AttributeNameParseError();

/// Relies on `str` equality from core: two string slices compare equal iff
/// their characters do.
#[verifier::external_body]
fn str_eq(a: &str, b: &str) -> (r: bool)
    ensures
        r == (a@ == b@),
{
    a == b
}

impl core::str::FromStr for AttributeName {
    type Err = AttributeNameParseError;

    fn from_str(s: &str) -> Result<Self, AttributeNameParseError> {
        if str_eq(s, "Prime") {
            Ok(AttributeName::Prime)
        } else if str_eq(s, "Might") {
            Ok(AttributeName::Might)
        } else if str_eq(s, "Agility") {
            Ok(AttributeName::Agility)
        } else if str_eq(s, "Charisma") {
            Ok(AttributeName::Charisma)
        } else if str_eq(s, "Intelligence") {
            Ok(AttributeName::Intelligence)
        } else {
            Err(AttributeNameParseError())
        }
    }
}

/// A character's five attribute scores.
#[derive(Clone, Debug, PartialEq)]
pub struct Attributes {
    pub prime: i64,
    pub might: i64,
    pub agility: i64,
    pub charisma: i64,
    pub intelligence: i64,
}

impl Attributes {
    pub fn prime(&self) -> (r: i64)
        ensures
            r == self.prime,
    {
        self.prime
    }

    pub fn might(&self) -> (r: i64)
        ensures
            r == self.might,
    {
        self.might
    }

    pub fn agility(&self) -> (r: i64)
        ensures
            r == self.agility,
    {
        self.agility
    }

    pub fn charisma(&self) -> (r: i64)
        ensures
            r == self.charisma,
    {
        self.charisma
    }

    pub fn intelligence(&self) -> (r: i64)
        ensures
            r == self.intelligence,
    {
        self.intelligence
    }

    /// The defense against precise attacks: a base of 8 plus combat
    /// mastery, agility and intelligence.
    pub fn precision_defense(&self, combat_mastery: usize) -> (r: Defense)
        requires
            0 <= self.agility,
            0 <= self.intelligence,
            8 + combat_mastery + self.agility + self.intelligence <= usize::MAX,
        ensures
            r.score == 8 + combat_mastery + self.agility + self.intelligence,
            r.reduction == 0,
            r.name@ == Seq::<char>::empty(),
    {
        let agility = self.agility as usize;
        let intelligence = self.intelligence as usize;
        Defense { name: String::new(), score: 8 + combat_mastery + agility + intelligence, reduction: 0 }
    }

    /// The defense against area attacks: a base of 8 plus combat mastery,
    /// might and charisma.
    pub fn area_defense(&self, combat_mastery: usize) -> (r: Defense)
        requires
            0 <= self.might,
            0 <= self.charisma,
            8 + combat_mastery + self.might + self.charisma <= usize::MAX,
        ensures
            r.score == 8 + combat_mastery + self.might + self.charisma,
            r.reduction == 0,
            r.name@ == Seq::<char>::empty(),
    {
        let might = self.might as usize;
        let charisma = self.charisma as usize;
        Defense { name: String::new(), score: 8 + combat_mastery + might + charisma, reduction: 0 }
    }
}

/// One attribute as levelled by a character: its base score, whether the
/// character is proficient in saves with it, and the skills under it.
#[derive(Clone, Debug, PartialEq)]
pub struct AttributeLevel {
    pub base_score: isize,
    pub save_proficiency: bool,
    pub skills: Vec<Skill>,
}

impl AttributeLevel {
    /// Base score zero, no save proficiency, no skills.
    pub fn new() -> (r: Self)
        ensures
            r.base_score == 0,
            r.save_proficiency == false,
            r.skills@ == Seq::<Skill>::empty(),
    {
        AttributeLevel { base_score: 0, save_proficiency: false, skills: Vec::new() }
    }

    pub fn with_base_score(self, score: isize) -> (r: Self)
        ensures
            r == (AttributeLevel { base_score: score, ..self }),
    {
        let mut s = self;
        s.base_score = score;
        s
    }

    pub fn with_save_proficiency(self) -> (r: Self)
        ensures
            r == (AttributeLevel { save_proficiency: true, ..self }),
    {
        let mut s = self;
        s.save_proficiency = true;
        s
    }

    pub fn with_skill(self, skill: Skill) -> (r: Self)
        ensures
            r.base_score == self.base_score,
            r.save_proficiency == self.save_proficiency,
            r.skills@ == self.skills@.push(skill),
    {
        let mut s = self;
        s.skills.push(skill);
        s
    }

    /// The save bonus: the base score, plus combat mastery when the
    /// character is proficient in saves with this attribute.
    pub fn calc_save(&self, level: Level) -> (r: isize)
        requires
            self.save_proficiency ==> (level.0 + 1) / 2 <= isize::MAX,
            self.save_proficiency ==> self.base_score + (level.0 + 1) / 2 <= isize::MAX,
        ensures
            r == if self.save_proficiency {
                self.base_score + (level.0 + 1) / 2
            } else {
                self.base_score as int
            },
    {
        if self.save_proficiency {
            let mastery = level.calc_combat_mastery();
            self.base_score + (mastery as isize)
        } else {
            self.base_score
        }
    }
}

} // verus!
