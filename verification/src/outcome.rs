//! The outcome of running a parser at a position.
use vstd::prelude::*;

verus! {

/// Why a parser did not produce a value.
///
/// An `Error` lets an enclosing alternative try its next branch; a `Failure`
/// stops parsing: the input was recognised but found to be malformed.
#[derive(Debug, Clone, Copy, PartialEq, Eq)]
pub enum Fault<E> {
    /// Recoverable: the parser did not match here.
    Error(E),
    /// Unrecoverable: the input is malformed.
    Failure(E),
}

impl<E> Fault<E> {
    /// The error carried by this fault.
    pub open spec fn inner(self) -> E {
        match self {
            Fault::Error(e) => e,
            Fault::Failure(e) => e,
        }
    }
}

/// The result of a parser: the position after what it consumed and its value,
/// or the fault that stopped it.
pub type PResult<T, E> = Result<(usize, T), Fault<E>>;

} // verus!
