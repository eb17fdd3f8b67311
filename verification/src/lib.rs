//! Scoped use of an owned resource.
//!
//! A resource is any owned value. [`Use::use_with`] hands it, by value, to a
//! single-use operation and returns what the operation returns. The resource
//! is moved into the operation: the caller keeps no access to it, and unless
//! the operation moves it on, it is released when the operation ends.

use vstd::prelude::*;

verus! {

/// Scoped use of an owned value. Every type has it.
pub trait Use {
    /// Runs `f` on `self`, giving it ownership, and returns its result
    /// unchanged.
    ///
    /// The operation must accept the resource. The result is one that the
    /// operation can return for this very resource: nothing is put in its
    /// place, and the operation runs on nothing else. A failure that the
    /// operation raises is neither caught nor replaced.
    fn use_with<U, F: FnOnce(Self) -> U>(self, f: F) -> (result: U) where Self: Sized
        requires
            f.requires((self,)),
        ensures
            f.ensures((self,), result),
    {
        f(self)
    }
}

impl<T> Use for T {

}

} // verus!
