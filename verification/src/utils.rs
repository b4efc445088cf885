//! Small general-purpose helpers.

use vstd::prelude::*;

verus! {

/// Exchanging the success and failure sides of a `Result`.
pub trait SwapResult<T, E>: Sized {
    /// The value with its sides exchanged.
    spec fn swapped(self) -> Result<E, T>;

    /// Exchanges `Ok` and `Err`.
    fn swap(self) -> (r: Result<E, T>)
        ensures
            r == self.swapped(),
    ;
}

impl<T, E> SwapResult<T, E> for Result<T, E> {
    open spec fn swapped(self) -> Result<E, T> {
        match self {
            Ok(t) => Err(t),
            Err(e) => Ok(e),
        }
    }

    fn swap(self) -> (r: Result<E, T>) {
        match self {
            Ok(t) => Err(t),
            Err(e) => Ok(e),
        }
    }
}

} // verus!
