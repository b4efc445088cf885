//! A small accumulator that collects the names of unset fields, so that a
//! builder can report every missing field at once instead of stopping at the
//! first.

use vstd::prelude::*;

verus! {

/// Collects the names of the fields found unset so far; `None` until the
/// first unset field is seen.
#[derive(Clone, Debug)]
pub struct FieldAggregator(pub Option<Vec<&'static str>>);

/// A sequence of field names as their character sequences.
pub open spec fn field_names_view(names: Seq<&'static str>) -> Seq<Seq<char>> {
    names.map_values(|s: &'static str| s@)
}

/// The names collected so far, as sequences of characters; empty while no
/// field has been found unset.
pub open spec fn collected_names(fa: FieldAggregator) -> Seq<Seq<char>> {
    match fa.0 {
        None => Seq::empty(),
        Some(v) => field_names_view(v@),
    }
}

impl FieldAggregator {
    /// A fresh aggregator with nothing collected.
    pub fn new() -> (r: Self)
        ensures
            r.0 is None,
            collected_names(r) == Seq::<Seq<char>>::empty(),
    {
        FieldAggregator(None)
    }

    /// Records `field_name` if `field` is unset; otherwise leaves the
    /// aggregator as it is.
    pub fn field_check<T>(&mut self, field: &Option<T>, field_name: &'static str)
        ensures
            field is None ==> collected_names(*final(self)) == collected_names(*old(self)).push(
                field_name@,
            ),
            field is None ==> final(self).0 is Some,
            field is Some ==> *final(self) == *old(self),
    {
        if field.is_none() {
            match &mut self.0 {
                Some(v) => {
                    v.push(field_name);
                    assert(collected_names(*self) =~= collected_names(*old(self)).push(
                        field_name@,
                    ));
                },
                opt => {
                    let mut v: Vec<&'static str> = Vec::new();
                    v.push(field_name);
                    *opt = Some(v);
                    assert(collected_names(*self) =~= collected_names(*old(self)).push(
                        field_name@,
                    ));
                },
            }
        }
    }
}

} // verus!
