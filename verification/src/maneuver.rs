//! Combat maneuvers.

use vstd::prelude::*;

verus! {

/// The kinds of combat maneuver.
#[derive(Clone, Copy, Debug, PartialEq, Eq, Structural)]
pub enum ManeuverKind {
    Attack,
    Save,
    Grapple,
    Defense,
}

} // verus!
