//! Shared measurement vocabulary: the range of an effect and how long it
//! lasts.

use vstd::prelude::*;

verus! {

/// How far an effect reaches: the caster themself, a touched target, or a
/// number of spaces.
#[derive(Clone, Copy, Debug, Default, PartialEq, Eq, Structural)]
pub enum Range {
    #[default]
    Caster,
    Spaces(u64),
    Touch,
}

/// How long an effect lasts.
#[derive(Clone, Copy, Debug, Default, PartialEq, Eq, Structural)]
pub enum Duration {
    #[default]
    Instant,
    Minutes(u64),
    Hours(u64),
    Rounds(u64),
}

} // verus!
