use vstd::prelude::*;

verus! {

/// The ways in which an offset between two addresses can fail to be computed.
#[derive(Clone, Copy, Debug, PartialEq, Eq, Structural)]
pub enum IntegerDeltaErrorImpl {
    /// The difference fits in `isize` but not in the chosen offset type.
    Conversion(isize),
    /// The difference of the two addresses does not fit in `isize` at all.
    Sub(usize, usize),
    /// The difference is zero, which the chosen offset type cannot hold.
    InvalidNonZero,
}

/// Returned when an offset type is too small to hold a displacement.
#[derive(Clone, Copy, Debug, PartialEq, Eq, Structural)]
pub struct IntegerDeltaError(pub IntegerDeltaErrorImpl);

impl IntegerDeltaError {
    /// Which kind of failure this is, with its details.
    pub fn kind(&self) -> (r: IntegerDeltaErrorImpl)
        ensures
            r == self.0,
    {
        self.0
    }
}

} // verus!
