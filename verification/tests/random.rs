use bee_node::message::conflict::ConflictReason;
use bee_node::message::error::Error;
use bee_node::message::metadata::{IndexId, MessageId, MilestoneIndex};
use bee_node::network::host::start_delay_millis;
use bee_node::random::message_metadata::{
    bool_of, conflict_reason_of, message_id_of, message_metadata_of, milestone_index_of, rand_conflict_reason,
    rand_message_metadata, u8_of, MetadataDraws,
};

#[test]
fn conflict_reasons_have_numbers() {
    assert_eq!(ConflictReason::try_from(0), Ok(ConflictReason::NoConflict));
    assert_eq!(ConflictReason::try_from(5), Ok(ConflictReason::InvalidSignature));
    assert_eq!(ConflictReason::try_from(255), Ok(ConflictReason::SemanticValidationFailed));
    assert_eq!(ConflictReason::try_from(6), Err(Error::InvalidConflictReason(6)));
}

#[test]
fn numbers_are_turned_into_conflict_reasons() {
    assert_eq!(conflict_reason_of(0), ConflictReason::NoConflict);
    assert_eq!(conflict_reason_of(7), ConflictReason::InputUtxoAlreadySpent);
    assert_eq!(conflict_reason_of(14), ConflictReason::InputUtxoAlreadySpentInThisMilestone);
    assert_eq!(conflict_reason_of(3), ConflictReason::InputUtxoNotFound);
    assert_eq!(conflict_reason_of(4), ConflictReason::CreatedConsumedAmountMismatch);
    // 2^64 - 1 leaves a remainder of 3.
    assert_eq!(conflict_reason_of(u64::MAX), ConflictReason::InputUtxoNotFound);
}

#[test]
fn random_conflict_reasons_leave_out_the_placeholder() {
    let mut found_other_than_first = false;
    let first = rand_conflict_reason();
    for _ in 0..1000 {
        let reason = rand_conflict_reason();
        assert_ne!(reason, ConflictReason::SemanticValidationFailed);
        found_other_than_first |= reason != first;
    }
    assert!(found_other_than_first);
}

#[test]
fn metadata_are_made_of_random_values() {
    let draws = MetadataDraws {
        flags: 0b1010_0101,
        has_milestone_index: true,
        milestone_index: MilestoneIndex(42),
        arrival_timestamp: 1,
        solidification_timestamp: 2,
        reference_timestamp: 3,
        has_indices: true,
        oldest: (MilestoneIndex(4), MessageId([5; 32])),
        youngest: (MilestoneIndex(6), MessageId([7; 32])),
        conflict: 11,
    };
    let metadata = message_metadata_of(draws);
    assert_eq!(metadata.flags.bits(), 0b1010_0101);
    assert_eq!(metadata.milestone_index, Some(MilestoneIndex(42)));
    assert_eq!(metadata.arrival_timestamp, 1);
    assert_eq!(metadata.solidification_timestamp, 2);
    assert_eq!(metadata.reference_timestamp, 3);
    assert_eq!(
        metadata.omrsi_and_ymrsi,
        Some((
            IndexId::new(MilestoneIndex(4), MessageId([5; 32])),
            IndexId::new(MilestoneIndex(6), MessageId([7; 32])),
        ))
    );
    assert_eq!(metadata.conflict, ConflictReason::InvalidSignature);

    let metadata = message_metadata_of(MetadataDraws { has_milestone_index: false, has_indices: false, ..draws });
    assert_eq!(metadata.milestone_index, None);
    assert_eq!(metadata.omrsi_and_ymrsi, None);
}

#[test]
fn random_metadata_vary() {
    let metadata: Vec<_> = (0..100).map(|_| rand_message_metadata()).collect();
    assert!(metadata.iter().any(|m| m.milestone_index.is_some()));
    assert!(metadata.iter().any(|m| m.milestone_index.is_none()));
    assert!(metadata.iter().any(|m| m.omrsi_and_ymrsi.is_some()));
    assert!(metadata.iter().any(|m| m.omrsi_and_ymrsi.is_none()));
    assert!(metadata.iter().any(|m| m.arrival_timestamp != metadata[0].arrival_timestamp));
    assert!(metadata.iter().all(|m| m.conflict != ConflictReason::SemanticValidationFailed));
}

#[test]
fn start_delay_is_less_than_a_second() {
    let delays: Vec<u64> = (0..1000).map(|_| start_delay_millis()).collect();
    assert!(delays.iter().all(|delay| *delay < 1000));
    assert!(delays.iter().any(|delay| *delay != delays[0]));
}

#[test]
fn numbers_are_turned_into_parts_of_metadata() {
    assert!(bool_of(4));
    assert!(!bool_of(u64::MAX));
    assert_eq!(u8_of(0x1234), 0x34);
    assert_eq!(milestone_index_of(0x1234_5678_9abc_def0), MilestoneIndex(0x9abc_def0));
    let mut numbers = [0x1ff; 32];
    numbers[0] = 7;
    numbers[31] = 256;
    let MessageId(bytes) = message_id_of(&numbers);
    assert_eq!((bytes[0], bytes[1], bytes[30], bytes[31]), (7, 255, 255, 0));
}

#[test]
fn random_indices_and_ids_vary() {
    let metadata: Vec<_> = (0..100).map(|_| rand_message_metadata()).collect();
    let indices: Vec<_> = metadata.iter().filter_map(|m| m.milestone_index).collect();
    assert!(indices.iter().any(|index| *index != indices[0]));
    let ids: Vec<_> = metadata.iter().filter_map(|m| m.omrsi_and_ymrsi).map(|pair| pair.0.id).collect();
    assert!(ids.iter().any(|id| *id != ids[0]));
    assert!(metadata.iter().any(|m| m.flags != metadata[0].flags));
}
