//! Why a message conflicts with the ledger.

use crate::message::error::Error;
use vstd::prelude::*;

verus! {

/// Why a message conflicts with the ledger.
#[derive(Clone, Copy, Debug, PartialEq, Eq, Structural)]
pub enum ConflictReason {
    /// The message has no conflict.
    NoConflict,
    /// The referenced output was already spent.
    InputUtxoAlreadySpent,
    /// The referenced output was already spent while confirming this milestone.
    InputUtxoAlreadySpentInThisMilestone,
    /// The referenced output cannot be found.
    InputUtxoNotFound,
    /// The created amount does not match the consumed amount.
    CreatedConsumedAmountMismatch,
    /// The signature of an unlock block is invalid.
    InvalidSignature,
    /// The semantic validation failed. A placeholder of the protocol, of which
    /// the node makes no use.
    SemanticValidationFailed,
}

/// The conflict reason that a number stands for.
pub open spec fn conflict_reason(number: u8) -> Result<ConflictReason, Error> {
    if number == 0 {
        Ok(ConflictReason::NoConflict)
    } else if number == 1 {
        Ok(ConflictReason::InputUtxoAlreadySpent)
    } else if number == 2 {
        Ok(ConflictReason::InputUtxoAlreadySpentInThisMilestone)
    } else if number == 3 {
        Ok(ConflictReason::InputUtxoNotFound)
    } else if number == 4 {
        Ok(ConflictReason::CreatedConsumedAmountMismatch)
    } else if number == 5 {
        Ok(ConflictReason::InvalidSignature)
    } else if number == 255 {
        Ok(ConflictReason::SemanticValidationFailed)
    } else {
        Err(Error::InvalidConflictReason(number))
    }
}

impl TryFrom<u8> for ConflictReason {
    type Error = Error;

    fn try_from(number: u8) -> (reason: Result<Self, Error>)
        ensures
            reason == conflict_reason(number),
    {
        match number {
            0 => Ok(ConflictReason::NoConflict),
            1 => Ok(ConflictReason::InputUtxoAlreadySpent),
            2 => Ok(ConflictReason::InputUtxoAlreadySpentInThisMilestone),
            3 => Ok(ConflictReason::InputUtxoNotFound),
            4 => Ok(ConflictReason::CreatedConsumedAmountMismatch),
            5 => Ok(ConflictReason::InvalidSignature),
            255 => Ok(ConflictReason::SemanticValidationFailed),
            _ => Err(Error::InvalidConflictReason(number)),
        }
    }
}

impl vstd::std_specs::convert::TryFromSpecImpl<u8> for ConflictReason {
    open spec fn obeys_try_from_spec() -> bool {
        true
    }

    open spec fn try_from_spec(number: u8) -> Result<Self, Error> {
        conflict_reason(number)
    }
}

/// Each conflict reason has one number, under which it is found, and no other
/// number stands for it.
pub proof fn law_conflict_reasons_and_numbers(reason: ConflictReason, number: u8)
    ensures
        conflict_reason(number) == Ok::<ConflictReason, Error>(reason) <==> number == match reason {
            ConflictReason::NoConflict => 0u8,
            ConflictReason::InputUtxoAlreadySpent => 1u8,
            ConflictReason::InputUtxoAlreadySpentInThisMilestone => 2u8,
            ConflictReason::InputUtxoNotFound => 3u8,
            ConflictReason::CreatedConsumedAmountMismatch => 4u8,
            ConflictReason::InvalidSignature => 5u8,
            ConflictReason::SemanticValidationFailed => 255u8,
        },
        conflict_reason(number) is Err <==> 5 < number < 255,
        conflict_reason(number) matches Err(error) ==> error == Error::InvalidConflictReason(number),
{
}

} // verus!
