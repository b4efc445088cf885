//! A small propositional AND/OR tree over an arbitrary item type, used to
//! express requirements such as "style A or style B".

use vstd::prelude::*;

verus! {

/// A propositional formula over items of type `T`: a single item, the
/// disjunction of two sub-formulas, or the conjunction of two sub-formulas.
#[derive(Debug, PartialEq)]
pub enum Logical<T> {
    Unit(T),
    Or(Box<Logical<T>>, Box<Logical<T>>),
    And(Box<Logical<T>>, Box<Logical<T>>),
}

impl<T> Logical<T> {
    /// The disjunction of `self` and `other`.
    pub fn or(self, other: Self) -> (r: Self)
        ensures
            r == Logical::Or(Box::new(self), Box::new(other)),
    {
        Logical::Or(Box::new(self), Box::new(other))
    }

    /// The conjunction of `self` and `other`.
    pub fn and(self, other: Self) -> (r: Self)
        ensures
            r == Logical::And(Box::new(self), Box::new(other)),
    {
        Logical::And(Box::new(self), Box::new(other))
    }
}

} // verus!
