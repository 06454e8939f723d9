//! The ways in which an operation of the model can fail.

use vstd::prelude::*;

verus! {

/// Why an operation was refused.
#[derive(Clone, Copy, Debug, PartialEq, Eq, Structural)]
pub enum SimError {
    /// A body was described with no mass or with a negative orbital radius.
    InvalidBody,
    /// Two bodies of one simulation were given the same name.
    DuplicateName,
    /// An exact result lies beyond the limits of the model: a position beyond the limit
    /// of positions, a time or a coordinate beyond 64 bits.
    OutOfRange,
}

} // verus!
