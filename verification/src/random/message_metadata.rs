//! Random message metadata.

use crate::message::conflict::{conflict_reason, ConflictReason};
use crate::message::error::Error;
use crate::message::metadata::{Flags, IndexId, MessageId, MessageMetadata, MilestoneIndex};
use crate::random::number::random_u64;
use vstd::prelude::*;

verus! {

/// The conflict reason that a random number is turned into, one of those that
/// the node makes use of.
pub fn conflict_reason_of(number: u64) -> (reason: ConflictReason)
    ensures
        conflict_reason((number % 6) as u8) == Ok::<ConflictReason, Error>(reason),
        reason != ConflictReason::SemanticValidationFailed,
        reason == ConflictReason::NoConflict <==> number % 6 == 0,
        reason == ConflictReason::InputUtxoAlreadySpent <==> number % 6 == 1,
        reason == ConflictReason::InputUtxoAlreadySpentInThisMilestone <==> number % 6 == 2,
        reason == ConflictReason::InputUtxoNotFound <==> number % 6 == 3,
        reason == ConflictReason::CreatedConsumedAmountMismatch <==> number % 6 == 4,
        reason == ConflictReason::InvalidSignature <==> number % 6 == 5,
{
    ConflictReason::try_from((number % 6) as u8).unwrap()
}

/// Generates a random conflict reason.
/// It leaves out [`ConflictReason::SemanticValidationFailed`] as it is just a placeholder defined by the protocol but
/// is not actually being used by the node.
pub fn rand_conflict_reason() -> (reason: ConflictReason)
    ensures
        reason != ConflictReason::SemanticValidationFailed,
{
    conflict_reason_of(random_u64())
}

/// A value, if the coin shows heads.
pub fn option_of<T>(heads: bool, value: T) -> (option: Option<T>)
    ensures
        option == if heads {
            Some(value)
        } else {
            None
        },
{
    if heads {
        Some(value)
    } else {
        None
    }
}

fn rand_bool() -> bool {
    bool_of(random_u64())
}

fn rand_u8() -> u8 {
    u8_of(random_u64())
}

fn rand_milestone_index() -> MilestoneIndex {
    milestone_index_of(random_u64())
}

fn rand_message_id() -> MessageId {
    let mut numbers: [u64; 32] = [0; 32];
    for i in 0..32 {
        numbers[i] = random_u64();
    }
    message_id_of(&numbers)
}

/// The coin toss that a random number is turned into.
pub fn bool_of(number: u64) -> (heads: bool)
    ensures
        heads == (number % 2 == 0),
{
    number % 2 == 0
}

/// The byte that a random number is turned into: its lowest one.
pub fn u8_of(number: u64) -> (byte: u8)
    ensures
        byte == number % 256,
{
    (number % 256) as u8
}

/// The milestone index that a random number is turned into: its lower half.
pub fn milestone_index_of(number: u64) -> (index: MilestoneIndex)
    ensures
        index.0 == number % 0x1_0000_0000,
{
    MilestoneIndex((number % 0x1_0000_0000) as u32)
}

/// The message id that random numbers are turned into, one byte each.
pub fn message_id_of(numbers: &[u64; 32]) -> (id: MessageId)
    ensures
        forall|i: int| 0 <= i < 32 ==> #[trigger] id.0@[i] == numbers@[i] % 256,
{
    let mut bytes: [u8; 32] = [0; 32];
    for n in 0..32
        invariant
            forall|i: int| 0 <= i < n ==> #[trigger] bytes@[i] == numbers@[i] % 256,
    {
        bytes[n] = u8_of(numbers[n]);
    }
    MessageId(bytes)
}

/// The random values of which message metadata are made.
#[derive(Clone, Copy, Debug)]
pub struct MetadataDraws {
    /// The bits of the flags.
    pub flags: u8,
    /// Whether the message has a milestone index.
    pub has_milestone_index: bool,
    pub milestone_index: MilestoneIndex,
    pub arrival_timestamp: u64,
    pub solidification_timestamp: u64,
    pub reference_timestamp: u64,
    /// Whether the indices of the past cone are known.
    pub has_indices: bool,
    /// The oldest index of the past cone.
    pub oldest: (MilestoneIndex, MessageId),
    /// The youngest index of the past cone.
    pub youngest: (MilestoneIndex, MessageId),
    /// The number from which the conflict reason is made.
    pub conflict: u64,
}

/// Makes message metadata of random values.
pub fn message_metadata_of(draws: MetadataDraws) -> (metadata: MessageMetadata)
    ensures
        metadata.flags.spec_bits() == draws.flags,
        metadata.milestone_index == if draws.has_milestone_index {
            Some(draws.milestone_index)
        } else {
            None
        },
        metadata.arrival_timestamp == draws.arrival_timestamp,
        metadata.solidification_timestamp == draws.solidification_timestamp,
        metadata.reference_timestamp == draws.reference_timestamp,
        metadata.omrsi_and_ymrsi == if draws.has_indices {
            Some(
                (
                    IndexId { index: draws.oldest.0, id: draws.oldest.1 },
                    IndexId { index: draws.youngest.0, id: draws.youngest.1 },
                ),
            )
        } else {
            None
        },
        conflict_reason((draws.conflict % 6) as u8) == Ok::<ConflictReason, Error>(
            metadata.conflict,
        ),
        metadata.conflict != ConflictReason::SemanticValidationFailed,
{
    MessageMetadata::new(
        Flags::from_bits_unchecked(draws.flags),
        option_of(draws.has_milestone_index, draws.milestone_index),
        draws.arrival_timestamp,
        draws.solidification_timestamp,
        draws.reference_timestamp,
        option_of(
            draws.has_indices,
            (
                IndexId::new(draws.oldest.0, draws.oldest.1),
                IndexId::new(draws.youngest.0, draws.youngest.1),
            ),
        ),
        conflict_reason_of(draws.conflict),
    )
}

/// Generates a random message metadata. All of it is random, but for the
/// conflict reason, which is as [`rand_conflict_reason`] gives it.
pub fn rand_message_metadata() -> (metadata: MessageMetadata)
    ensures
        metadata.conflict != ConflictReason::SemanticValidationFailed,
{
    message_metadata_of(
        MetadataDraws {
            flags: rand_u8(),
            has_milestone_index: rand_bool(),
            milestone_index: rand_milestone_index(),
            arrival_timestamp: random_u64(),
            solidification_timestamp: random_u64(),
            reference_timestamp: random_u64(),
            has_indices: rand_bool(),
            oldest: (rand_milestone_index(), rand_message_id()),
            youngest: (rand_milestone_index(), rand_message_id()),
            conflict: random_u64(),
        },
    )
}

/// Each conflict reason but the placeholder is made of some random number.
pub proof fn law_every_used_reason_can_be_drawn(reason: ConflictReason)
    requires
        reason != ConflictReason::SemanticValidationFailed,
    ensures
        exists|number: u64| #[trigger]
            conflict_reason((number % 6) as u8) == Ok::<ConflictReason, Error>(reason),
{
    let number: u64 = match reason {
        ConflictReason::NoConflict => 0,
        ConflictReason::InputUtxoAlreadySpent => 1,
        ConflictReason::InputUtxoAlreadySpentInThisMilestone => 2,
        ConflictReason::InputUtxoNotFound => 3,
        ConflictReason::CreatedConsumedAmountMismatch => 4,
        _ => 5,
    };
    assert(conflict_reason((number % 6) as u8) == Ok::<ConflictReason, Error>(reason));
}

} // verus!
