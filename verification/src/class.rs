//! Class data: progression table columns and the spell families a casting
//! class may draw from.

use vstd::prelude::*;

verus! {

/// One column of a class progression table: one value for each of the ten
/// levels.
#[derive(Clone, Copy, Debug, PartialEq, Eq)]
pub struct ClassTableColumn(pub [usize; 10]);

impl ClassTableColumn {
    /// The column's value at `level`, counted from one.
    pub fn get(&self, level: usize) -> (r: usize)
        requires
            1 <= level <= 10,
        ensures
            r == self.0@[level - 1],
    {
        self.0[level - 1]
    }
}

impl From<[usize; 10]> for ClassTableColumn {
    fn from(value: [usize; 10]) -> (r: Self) {
        ClassTableColumn(value)
    }
}

impl vstd::std_specs::convert::FromSpecImpl<[usize; 10]> for ClassTableColumn {
    open spec fn obeys_from_spec() -> bool {
        true
    }

    open spec fn from_spec(value: [usize; 10]) -> Self {
        ClassTableColumn(value)
    }
}

/// The families a spell can belong to.
#[derive(Clone, Copy, Debug, PartialEq, Eq, Structural)]
pub enum SpellFamily {
    Conjuration,
    Divination,
    Enchantment,
    Illusion,
    Restoration,
}

} // verus!
