//! A type with no values, for computations that cannot fail or cannot yield.

use vstd::prelude::*;

verus! {

/// I swear, this never happens.
///
/// The only field holds a value of std's empty type, and no function builds
/// one, so no value of `Never` ever exists at run time. A match on the field
/// needs no arm.
#[derive(Debug, Clone, Copy, PartialEq, Eq, PartialOrd, Ord, Hash)]
pub struct Never {
    pub void: core::convert::Infallible,
}

impl Never {
    /// Converts the impossible value into anything at all.
    ///
    /// The body is the empty match on `core::convert::Infallible`, which has
    /// no variants; nothing is claimed of the result because no call can
    /// ever happen.
    #[verifier::external_body]
    pub fn into<T>(self) -> T {
        match self.void {
        }
    }
}

impl<T> AsRef<T> for Never {
    fn as_ref(&self) -> &T {
        (*self).into()
    }
}

impl<T> AsMut<T> for Never {
    fn as_mut(&mut self) -> &mut T {
        (*self).into()
    }
}

} // verus!
