//! A nullable, reseatable, reference-counted handle: an explicit
//! Empty/Occupied shell around a reference-counted smart pointer, in two
//! backends with one contract — `rc` for a single owner thread and `arc`
//! for cross-thread sharing.

use vstd::prelude::*;

pub mod arc;
pub mod rc;

verus! {

/// A weak handle that can be reset to a canonical "no target" value,
/// whatever backend it came from. After a reset, upgrading always fails.
pub trait ISetNullWeak {
    /// Holds once the handle has been reset (or was created detached).
    spec fn is_reset(&self) -> bool;

    /// Resets the handle; from then on it points at nothing.
    fn set_null(&mut self)
        ensures
            final(self).is_reset(),
    ;
}

} // verus!
