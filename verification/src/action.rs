//! The capability an action's payload type provides to the pipeline.

use vstd::prelude::*;

verus! {

/// Capability that an action's payload type must provide to take part in the
/// pipeline: an equality test and a way to duplicate a value. Both must agree
/// with the mathematical value of the payload, so that everything proved about
/// the pipeline speaks about the payloads themselves.
pub trait InputAction: Sized {
    /// Tests two payloads for equality; the answer must coincide with
    /// mathematical equality of the two values.
    fn action_eq(&self, other: &Self) -> (r: bool)
        ensures
            r == (*self == *other),
    ;

    /// Duplicates a payload; the duplicate must equal the original.
    fn dup(&self) -> (r: Self)
        ensures
            r == *self,
    ;
}

impl InputAction for u64 {
    fn action_eq(&self, other: &Self) -> (r: bool)
        ensures
            r == (*self == *other),
    {
        *self == *other
    }

    fn dup(&self) -> (r: Self)
        ensures
            r == *self,
    {
        *self
    }
}

impl InputAction for bool {
    fn action_eq(&self, other: &Self) -> (r: bool)
        ensures
            r == (*self == *other),
    {
        *self == *other
    }

    fn dup(&self) -> (r: Self)
        ensures
            r == *self,
    {
        *self
    }
}

} // verus!
