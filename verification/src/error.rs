//! The typed failure of a narrowing conversion between entity kinds.

use vstd::prelude::*;

verus! {

/// A failed cast, carrying the value that could not be narrowed and the
/// name of the kind it was aimed at.
#[derive(Debug)]
pub struct CastError<'a, F> {
    from: &'a F,
    to: &'a str,
}

impl<'a, F> CastError<'a, F> {
    /// The value this error carries.
    pub closed spec fn from_v(&self) -> &'a F {
        self.from
    }

    /// The target kind's name this error carries.
    pub closed spec fn to_v(&self) -> Seq<char> {
        self.to@
    }

    /// Record that `from` could not be narrowed to the kind named `to`.
    pub fn new(from: &'a F, to: &'a str) -> (r: Self)
        ensures
            r.from_v() == from,
            r.to_v() == to@,
    {
        CastError { from, to }
    }

    /// The value that could not be narrowed.
    pub fn source(&self) -> (r: &'a F)
        ensures
            r == self.from_v(),
    {
        self.from
    }

    /// The name of the kind the cast was aimed at.
    pub fn target(&self) -> (r: &'a str)
        ensures
            r@ == self.to_v(),
    {
        self.to
    }
}

} // verus!
