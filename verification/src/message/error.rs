//! What can be wrong with a part of a message.

use vstd::prelude::*;

verus! {

/// The ways in which a part of a message can fail to be valid.
#[derive(Clone, Copy, Debug, PartialEq, Eq, Structural)]
pub enum Error {
    /// The bytes end before the value does.
    UnexpectedEof,
    /// An indexation tag of this length, which is not a valid one.
    InvalidIndexationIndexLength(usize),
    /// A number that stands for no conflict reason.
    InvalidConflictReason(u8),
}

} // verus!
