//! A skill: a named proficiency tied to one attribute.

use vstd::prelude::*;

verus! {

/// A skill record: its identifier, its name, and the identifier of the
/// attribute it falls under.
#[derive(Clone, Debug, PartialEq)]
pub struct Skill {
    pub id: uuid::Uuid,
    pub name: String,
    pub attribute_id: uuid::Uuid,
}

} // verus!
