//! What a node notes of a message.

use crate::message::conflict::ConflictReason;
use vstd::prelude::*;

verus! {

/// Properties of a message, one per bit.
#[derive(Clone, Copy, Debug, PartialEq, Eq, Structural)]
pub struct Flags {
    bits: u8,
}

impl Flags {
    /// The bits of the flags.
    pub closed spec fn spec_bits(self) -> u8 {
        self.bits
    }

    /// Flags with these bits, whether or not each of them has a meaning.
    pub fn from_bits_unchecked(bits: u8) -> (flags: Self)
        ensures
            flags.spec_bits() == bits,
    {
        Flags { bits }
    }

    /// The bits of the flags.
    pub fn bits(&self) -> (bits: u8)
        ensures
            bits == self.spec_bits(),
    {
        self.bits
    }
}

/// The index of a milestone.
#[derive(Clone, Copy, Debug, PartialEq, Eq, Structural)]
pub struct MilestoneIndex(pub u32);

/// The id of a message.
#[derive(Clone, Copy, Debug, PartialEq, Eq)]
pub struct MessageId(pub [u8; 32]);

/// The index of a milestone, together with the message it was inherited from.
#[derive(Clone, Copy, Debug, PartialEq, Eq)]
pub struct IndexId {
    pub index: MilestoneIndex,
    pub id: MessageId,
}

impl IndexId {
    /// Creates a new index.
    pub fn new(index: MilestoneIndex, id: MessageId) -> (index_id: Self)
        ensures
            index_id == (IndexId { index, id }),
    {
        IndexId { index, id }
    }
}

/// What a node notes of a message.
#[derive(Clone, Copy, Debug, PartialEq, Eq)]
pub struct MessageMetadata {
    pub flags: Flags,
    /// The milestone that confirmed the message, if one did.
    pub milestone_index: Option<MilestoneIndex>,
    pub arrival_timestamp: u64,
    pub solidification_timestamp: u64,
    pub reference_timestamp: u64,
    /// The oldest and the youngest milestone index of the past cone.
    pub omrsi_and_ymrsi: Option<(IndexId, IndexId)>,
    pub conflict: ConflictReason,
}

impl MessageMetadata {
    /// Creates new metadata.
    pub fn new(
        flags: Flags,
        milestone_index: Option<MilestoneIndex>,
        arrival_timestamp: u64,
        solidification_timestamp: u64,
        reference_timestamp: u64,
        omrsi_and_ymrsi: Option<(IndexId, IndexId)>,
        conflict: ConflictReason,
    ) -> (metadata: Self)
        ensures
            metadata == (MessageMetadata {
                flags,
                milestone_index,
                arrival_timestamp,
                solidification_timestamp,
                reference_timestamp,
                omrsi_and_ymrsi,
                conflict,
            }),
    {
        MessageMetadata {
            flags,
            milestone_index,
            arrival_timestamp,
            solidification_timestamp,
            reference_timestamp,
            omrsi_and_ymrsi,
            conflict,
        }
    }
}

} // verus!
