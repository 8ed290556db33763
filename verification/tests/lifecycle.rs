use prechecker::actions::{
    PrecheckerDecodeOperationAction, PrecheckerEndorsementValidationAppliedAction,
    PrecheckerEndorsementValidationRefusedAction, PrecheckerEndorsingRightsReadyAction, PrecheckerErrorAction,
    PrecheckerGetEndorsingRightsAction, PrecheckerGetProtocolVersionAction, PrecheckerOperationDecodedAction,
    PrecheckerProtocolNeededAction, PrecheckerProtocolVersionReadyAction, PrecheckerValidateEndorsementAction,
    PrecheckerWaitForBlockApplicationAction,
};
use prechecker::blocks::BlockHeader;
use prechecker::flow::{
    PrecheckerBlockAppliedAction, PrecheckerCacheAppliedBlockAction, PrecheckerNextBlockProtocolErrorAction,
    PrecheckerNextBlockProtocolReadyAction, PrecheckerPrecacheEndorsingRightsAction,
    PrecheckerPrecheckOperationInitAction, PrecheckerPruneOperationAction, PrecheckerQueryNextBlockProtocolAction,
    PrecheckerSetNextBlockProtocolAction,
};
use prechecker::hash::{BlockHash, ChainId, OperationHash};
use prechecker::operation::{
    EndorsementValidationError, EndorsingRights, Key, Operation, OperationDecodedContents, OperationKind,
    PrecheckerError, PrecheckerOperationState,
};
use prechecker::protocol::{SupportedProtocol, SupportedProtocolState};
use prechecker::state::State;

fn key(n: u8) -> Key {
    Key::new(OperationHash::new(vec![n, n, n]))
}

fn block(n: u8) -> BlockHash {
    BlockHash::new(vec![n; 4])
}

fn doc(kind: &str) -> serde_json::Value {
    let mut map = serde_json::Map::new();
    map.insert("kind".to_string(), serde_json::Value::String(kind.to_string()));
    serde_json::Value::Object(map)
}

fn submit(state: &mut State, n: u8) {
    let init = PrecheckerPrecheckOperationInitAction {
        key: key(n),
        operation: Operation { branch: block(0), data: vec![1, 2, 3] },
        operation_binary_encoding: vec![9, 9],
    };
    assert!(init.is_enabled(state));
    assert!(init.apply(state));
}

fn make_protocol_ready(state: &mut State, proto: u8) {
    assert!(PrecheckerQueryNextBlockProtocolAction { proto, block_hash: block(7) }.apply(state));
    assert!(PrecheckerNextBlockProtocolReadyAction {
        block_hash: block(7),
        supported_protocol: SupportedProtocol { number: proto },
    }
    .apply(state));
}

fn state_of(state: &State, n: u8) -> &PrecheckerOperationState {
    &state.prechecker.operations.get(&key(n)).unwrap().state
}

fn decode(state: &mut State, n: u8, contents: OperationDecodedContents) {
    assert!(PrecheckerGetProtocolVersionAction { key: key(n) }.apply(state));
    assert!(PrecheckerProtocolVersionReadyAction { key: key(n) }.apply(state));
    assert!(PrecheckerDecodeOperationAction { key: key(n) }.apply(state));
    assert!(PrecheckerOperationDecodedAction { key: key(n), contents }.apply(state));
}

fn endorsement(level: i32, slot: u16, delegate: u32) -> OperationDecodedContents {
    OperationDecodedContents { kind: OperationKind::Endorsement, level, slot, delegate }
}

fn to_validation(state: &mut State, n: u8, level: i32) {
    decode(state, n, endorsement(level, 1, 42));
    assert!(PrecheckerGetEndorsingRightsAction { key: key(n) }.apply(state));
    assert!(PrecheckerEndorsingRightsReadyAction {
        key: key(n),
        endorsing_rights: EndorsingRights::new(level, vec![41, 42, 43]),
    }
    .apply(state));
}

#[test]
fn other_kind_needs_protocol() {
    let mut state = State::new();
    make_protocol_ready(&mut state, 5);
    submit(&mut state, 1);
    decode(
        &mut state,
        1,
        OperationDecodedContents { kind: OperationKind::Other, level: 3, slot: 0, delegate: 0 },
    );
    assert!(!PrecheckerGetEndorsingRightsAction { key: key(1) }.is_enabled(&state));
    assert!(PrecheckerProtocolNeededAction { key: key(1), protocol_data: doc("transaction") }.apply(&mut state));
    match state_of(&state, 1) {
        PrecheckerOperationState::ProtocolNeeded { protocol_data } => assert_eq!(*protocol_data, doc("transaction")),
        other => panic!("unexpected state {:?}", other),
    }
}

#[test]
fn valid_endorsement_is_applied() {
    let mut state = State::new();
    make_protocol_ready(&mut state, 5);
    assert!(state.prechecker.endorsing_rights.deliver(EndorsingRights::new(10, vec![41, 42, 43])));
    submit(&mut state, 2);
    decode(&mut state, 2, endorsement(10, 1, 42));
    assert!(PrecheckerGetEndorsingRightsAction { key: key(2) }.apply(&mut state));
    let cached = state.prechecker.endorsing_rights.get(10).unwrap().copy();
    assert!(PrecheckerEndorsingRightsReadyAction { key: key(2), endorsing_rights: cached }.apply(&mut state));
    let validate = PrecheckerValidateEndorsementAction { key: key(2) };
    assert_eq!(validate.verdict(&state, true), Some(Ok(())));
    assert!(validate.apply(&mut state));
    assert!(PrecheckerEndorsementValidationAppliedAction { key: key(2), protocol_data: doc("endorsement") }
        .apply(&mut state));
    match state_of(&state, 2) {
        PrecheckerOperationState::Applied { hash, protocol_data } => {
            assert_eq!(hash.bytes, vec![2, 2, 2]);
            assert_eq!(*protocol_data, doc("endorsement"));
        },
        other => panic!("unexpected state {:?}", other),
    }
}

#[test]
fn invalid_signature_is_refused() {
    let mut state = State::new();
    make_protocol_ready(&mut state, 5);
    submit(&mut state, 2);
    to_validation(&mut state, 2, 10);
    let validate = PrecheckerValidateEndorsementAction { key: key(2) };
    let verdict = validate.verdict(&state, false);
    assert_eq!(verdict, Some(Err(EndorsementValidationError::BadSignature)));
    assert!(validate.apply(&mut state));
    assert!(PrecheckerEndorsementValidationRefusedAction {
        key: key(2),
        protocol_data: doc("endorsement"),
        error: EndorsementValidationError::BadSignature,
    }
    .apply(&mut state));
    match state_of(&state, 2) {
        PrecheckerOperationState::Refused { hash, protocol_data, error } => {
            assert_eq!(hash.bytes, vec![2, 2, 2]);
            assert_eq!(*error, EndorsementValidationError::BadSignature);
            let report = prechecker::response::PrecheckerErrored {
                hash: hash.copy(),
                protocol_data: protocol_data.clone(),
                error: "bad signature".to_string(),
            };
            assert_eq!(report.is_endorsement(), Some(true));
        },
        other => panic!("unexpected state {:?}", other),
    }
}

#[test]
fn endorsement_parks_until_rights_come() {
    let mut state = State::new();
    make_protocol_ready(&mut state, 5);
    submit(&mut state, 3);
    decode(&mut state, 3, endorsement(20, 0, 41));
    assert!(state.prechecker.endorsing_rights.get(20).is_none());
    assert!(PrecheckerGetEndorsingRightsAction { key: key(3) }.apply(&mut state));
    assert!(state.prechecker.endorsing_rights.request(20));
    assert!(!state.prechecker.endorsing_rights.request(20));
    assert!(matches!(state_of(&state, 3), PrecheckerOperationState::PendingEndorsingRights));
    assert!(!PrecheckerValidateEndorsementAction { key: key(3) }.apply(&mut state));
    assert!(state.rights_delivered(EndorsingRights::new(21, vec![41])));
    assert!(matches!(state_of(&state, 3), PrecheckerOperationState::PendingEndorsingRights));
    let delivery = PrecheckerEndorsingRightsReadyAction {
        key: key(3),
        endorsing_rights: EndorsingRights::new(20, vec![41]),
    };
    assert!(delivery.is_enabled(&state));
    assert!(delivery.apply(&mut state));
    let second = PrecheckerEndorsingRightsReadyAction {
        key: key(3),
        endorsing_rights: EndorsingRights::new(20, vec![41]),
    };
    assert!(!second.is_enabled(&state));
    assert!(!second.apply(&mut state));
    match state_of(&state, 3) {
        PrecheckerOperationState::EndorsingRightsReady { rights } => {
            assert_eq!(rights.level, 20);
            assert_eq!(rights.slot_owners, vec![41]);
        },
        other => panic!("unexpected state {:?}", other),
    }
    assert!(PrecheckerValidateEndorsementAction { key: key(3) }.apply(&mut state));
    assert!(matches!(state_of(&state, 3), PrecheckerOperationState::ValidatingEndorsement));
}

#[test]
fn protocol_is_set_by_successor_only() {
    let mut state = State::new();
    assert!(PrecheckerSetNextBlockProtocolAction { proto: 5 }.apply(&mut state));
    assert!(!PrecheckerSetNextBlockProtocolAction { proto: 5 }.is_enabled(&state));
    assert!(!PrecheckerSetNextBlockProtocolAction { proto: 5 }.apply(&mut state));
    assert!(!PrecheckerSetNextBlockProtocolAction { proto: 4 }.apply(&mut state));
    assert!(!PrecheckerSetNextBlockProtocolAction { proto: 7 }.apply(&mut state));
    assert!(PrecheckerSetNextBlockProtocolAction { proto: 6 }.apply(&mut state));
    match &state.prechecker.next_protocol.slot {
        Some((6, SupportedProtocolState::Unresolved)) => {},
        other => panic!("unexpected slot {:?}", other),
    }
}

#[test]
fn protocol_content_for_another_hash_is_rejected() {
    let mut state = State::new();
    assert!(PrecheckerQueryNextBlockProtocolAction { proto: 6, block_hash: block(1) }.apply(&mut state));
    let wrong = PrecheckerNextBlockProtocolReadyAction {
        block_hash: block(2),
        supported_protocol: SupportedProtocol { number: 6 },
    };
    assert!(!wrong.is_enabled(&state));
    assert!(!wrong.apply(&mut state));
    assert!(!state.prechecker.next_protocol.is_ready());
    assert!(state.prechecker.next_protocol.is_requesting(&block(1)));
    assert!(PrecheckerNextBlockProtocolReadyAction {
        block_hash: block(1),
        supported_protocol: SupportedProtocol { number: 6 },
    }
    .apply(&mut state));
    match &state.prechecker.next_protocol.slot {
        Some((6, SupportedProtocolState::Ready(p))) => assert_eq!(p.number, 6),
        other => panic!("unexpected slot {:?}", other),
    }
}

#[test]
fn query_guard_follows_the_slot() {
    let mut state = State::new();
    assert!(PrecheckerSetNextBlockProtocolAction { proto: 5 }.apply(&mut state));
    assert!(!PrecheckerQueryNextBlockProtocolAction { proto: 4, block_hash: block(1) }.is_enabled(&state));
    assert!(!PrecheckerQueryNextBlockProtocolAction { proto: 7, block_hash: block(1) }.is_enabled(&state));
    assert!(PrecheckerQueryNextBlockProtocolAction { proto: 6, block_hash: block(1) }.is_enabled(&state));
    assert!(PrecheckerQueryNextBlockProtocolAction { proto: 5, block_hash: block(1) }.apply(&mut state));
    assert!(!PrecheckerQueryNextBlockProtocolAction { proto: 5, block_hash: block(1) }.is_enabled(&state));
    let mut top = State::new();
    assert!(PrecheckerSetNextBlockProtocolAction { proto: 255 }.apply(&mut top));
    assert!(!PrecheckerSetNextBlockProtocolAction { proto: 0 }.apply(&mut top));
    assert!(!PrecheckerQueryNextBlockProtocolAction { proto: 0, block_hash: block(1) }.is_enabled(&top));
}

#[test]
fn advancing_actions_are_accepted_at_their_predecessor_only() {
    let mut state = State::new();
    submit(&mut state, 1);
    assert!(!PrecheckerProtocolVersionReadyAction { key: key(1) }.apply(&mut state));
    assert!(!PrecheckerDecodeOperationAction { key: key(1) }.apply(&mut state));
    assert!(!PrecheckerOperationDecodedAction { key: key(1), contents: endorsement(1, 0, 0) }.apply(&mut state));
    assert!(!PrecheckerGetEndorsingRightsAction { key: key(1) }.apply(&mut state));
    assert!(!PrecheckerValidateEndorsementAction { key: key(1) }.apply(&mut state));
    assert!(!PrecheckerWaitForBlockApplicationAction { key: key(1), level: 1 }.apply(&mut state));
    assert!(!PrecheckerEndorsementValidationAppliedAction { key: key(1), protocol_data: doc("endorsement") }
        .apply(&mut state));
    assert!(!PrecheckerPruneOperationAction { key: key(1) }.apply(&mut state));
    assert!(matches!(state_of(&state, 1), PrecheckerOperationState::Init));
    assert!(!PrecheckerGetProtocolVersionAction { key: key(9) }.is_enabled(&state));
    assert!(PrecheckerGetProtocolVersionAction { key: key(1) }.apply(&mut state));
    assert!(!PrecheckerGetProtocolVersionAction { key: key(1) }.apply(&mut state));
    assert!(matches!(state_of(&state, 1), PrecheckerOperationState::PendingProtocolVersion));
}

#[test]
fn record_waits_until_the_protocol_is_resolved() {
    let mut state = State::new();
    submit(&mut state, 1);
    assert!(!PrecheckerProtocolVersionReadyAction { key: key(1) }.is_enabled(&state));
    assert!(state.request_protocol_version(&key(1)));
    assert!(matches!(state_of(&state, 1), PrecheckerOperationState::PendingProtocolVersion));
    assert!(PrecheckerQueryNextBlockProtocolAction { proto: 3, block_hash: block(7) }.apply(&mut state));
    assert!(!state.protocol_resolved(&block(6), SupportedProtocol { number: 3 }));
    assert!(matches!(state_of(&state, 1), PrecheckerOperationState::PendingProtocolVersion));
    assert!(state.protocol_resolved(&block(7), SupportedProtocol { number: 3 }));
    assert!(matches!(state_of(&state, 1), PrecheckerOperationState::ProtocolVersionReady));
    assert!(!PrecheckerProtocolVersionReadyAction { key: key(1) }.is_enabled(&state));
}

#[test]
fn ready_actions_are_accepted_for_every_waiting_record() {
    let mut state = State::new();
    submit(&mut state, 1);
    assert!(PrecheckerGetProtocolVersionAction { key: key(1) }.apply(&mut state));
    assert!(state.prechecker.next_protocol.slot.is_none());
    assert!(PrecheckerProtocolVersionReadyAction { key: key(1) }.is_enabled(&state));
    assert!(PrecheckerQueryNextBlockProtocolAction { proto: 3, block_hash: block(7) }.apply(&mut state));
    assert!(PrecheckerProtocolVersionReadyAction { key: key(1) }.is_enabled(&state));
    assert!(PrecheckerProtocolVersionReadyAction { key: key(1) }.apply(&mut state));
    assert!(matches!(state_of(&state, 1), PrecheckerOperationState::ProtocolVersionReady));
    assert!(!PrecheckerProtocolVersionReadyAction { key: key(1) }.is_enabled(&state));
    assert!(PrecheckerDecodeOperationAction { key: key(1) }.apply(&mut state));
    assert!(PrecheckerOperationDecodedAction { key: key(1), contents: endorsement(20, 0, 41) }.apply(&mut state));
    let early = PrecheckerEndorsingRightsReadyAction {
        key: key(1),
        endorsing_rights: EndorsingRights::new(20, vec![41]),
    };
    assert!(!early.is_enabled(&state));
    assert!(PrecheckerGetEndorsingRightsAction { key: key(1) }.apply(&mut state));
    let other_level = PrecheckerEndorsingRightsReadyAction {
        key: key(1),
        endorsing_rights: EndorsingRights::new(21, vec![7]),
    };
    assert!(other_level.is_enabled(&state));
    assert!(other_level.apply(&mut state));
    match state_of(&state, 1) {
        PrecheckerOperationState::EndorsingRightsReady { rights } => {
            assert_eq!(rights.level, 21);
            assert_eq!(rights.slot_owners, vec![7]);
        },
        other => panic!("unexpected state {:?}", other),
    }
}

#[test]
fn failed_resolution_ends_every_waiting_record() {
    let mut state = State::new();
    submit(&mut state, 1);
    submit(&mut state, 2);
    submit(&mut state, 3);
    assert!(PrecheckerGetProtocolVersionAction { key: key(1) }.apply(&mut state));
    assert!(PrecheckerGetProtocolVersionAction { key: key(3) }.apply(&mut state));
    let failure = PrecheckerNextBlockProtocolErrorAction {
        block_hash: block(7),
        error: PrecheckerError::ProtocolResolution,
    };
    assert!(failure.is_enabled(&state));
    failure.apply(&mut state);
    assert!(matches!(
        state_of(&state, 1),
        PrecheckerOperationState::Error { error: PrecheckerError::ProtocolResolution }
    ));
    assert!(matches!(state_of(&state, 2), PrecheckerOperationState::Init));
    assert!(matches!(
        state_of(&state, 3),
        PrecheckerOperationState::Error { error: PrecheckerError::ProtocolResolution }
    ));
    assert_eq!(state.prechecker.operations.len(), 3);
}

#[test]
fn pruning_takes_decided_records_only() {
    let mut state = State::new();
    make_protocol_ready(&mut state, 5);
    submit(&mut state, 1);
    assert!(!PrecheckerPruneOperationAction { key: key(1) }.is_enabled(&state));
    assert!(PrecheckerErrorAction::new(key(1), PrecheckerError::Decode).apply(&mut state));
    assert!(matches!(state_of(&state, 1), PrecheckerOperationState::Error { error: PrecheckerError::Decode }));
    assert!(!PrecheckerPruneOperationAction { key: key(1) }.apply(&mut state));
    assert!(!PrecheckerErrorAction::new(key(1), PrecheckerError::RightsFetch).apply(&mut state));
    submit(&mut state, 2);
    to_validation(&mut state, 2, 10);
    assert!(!PrecheckerPruneOperationAction { key: key(2) }.apply(&mut state));
    assert!(PrecheckerValidateEndorsementAction { key: key(2) }.apply(&mut state));
    assert!(PrecheckerEndorsementValidationAppliedAction { key: key(2), protocol_data: doc("endorsement") }
        .apply(&mut state));
    assert!(PrecheckerPruneOperationAction { key: key(2) }.apply(&mut state));
    assert!(!state.prechecker.operations.contains(&key(2)));
    assert!(state.prechecker.operations.contains(&key(1)));
    assert!(!PrecheckerPruneOperationAction { key: key(2) }.apply(&mut state));
}

#[test]
fn parked_validation_is_decided_after_the_block() {
    let mut state = State::new();
    make_protocol_ready(&mut state, 5);
    submit(&mut state, 4);
    to_validation(&mut state, 4, 30);
    assert!(PrecheckerValidateEndorsementAction { key: key(4) }.apply(&mut state));
    assert!(PrecheckerWaitForBlockApplicationAction { key: key(4), level: 30 }.apply(&mut state));
    assert!(matches!(state_of(&state, 4), PrecheckerOperationState::PendingBlockApplication { level: 30 }));
    assert!(!state.prechecker.applied_blocks.is_applied_at(30));
    assert!(PrecheckerBlockAppliedAction { key: key(4) }.is_enabled(&state));
    assert!(PrecheckerEndorsementValidationAppliedAction { key: key(4), protocol_data: doc("endorsement") }
        .is_enabled(&state));
    assert!(!state.conclude_parked_validation(&key(4), Ok(()), doc("endorsement")));
    assert!(matches!(state_of(&state, 4), PrecheckerOperationState::PendingBlockApplication { level: 30 }));
    let cache = PrecheckerCacheAppliedBlockAction {
        block_hash: block(8),
        chain_id: ChainId::new(vec![1, 2, 3, 4]),
        block_header: BlockHeader { level: 30, proto: 5, predecessor: block(6) },
    };
    assert!(cache.is_enabled(&state));
    assert!(cache.apply(&mut state));
    assert!(state.prechecker.applied_blocks.is_applied(&block(8)));
    assert!(!state.prechecker.applied_blocks.is_applied(&block(6)));
    assert!(PrecheckerBlockAppliedAction { key: key(4) }.is_enabled(&state));
    assert!(matches!(state_of(&state, 4), PrecheckerOperationState::PendingBlockApplication { level: 30 }));
    assert!(state.conclude_parked_validation(&key(4), Ok(()), doc("endorsement")));
    match state_of(&state, 4) {
        PrecheckerOperationState::Applied { hash, protocol_data } => {
            assert_eq!(hash.bytes, vec![4, 4, 4]);
            assert_eq!(*protocol_data, doc("endorsement"));
        },
        other => panic!("unexpected state {:?}", other),
    }
    assert!(!state.conclude_parked_validation(&key(4), Ok(()), doc("endorsement")));
    assert!(!PrecheckerBlockAppliedAction { key: key(4) }.is_enabled(&state));
    assert!(!PrecheckerBlockAppliedAction { key: key(9) }.is_enabled(&state));
}

#[test]
fn applied_block_is_written_once() {
    let mut state = State::new();
    let first = PrecheckerCacheAppliedBlockAction {
        block_hash: block(8),
        chain_id: ChainId::new(vec![1]),
        block_header: BlockHeader { level: 30, proto: 5, predecessor: block(6) },
    };
    assert!(first.apply(&mut state));
    let again = PrecheckerCacheAppliedBlockAction {
        block_hash: block(8),
        chain_id: ChainId::new(vec![2]),
        block_header: BlockHeader { level: 31, proto: 5, predecessor: block(6) },
    };
    assert!(!again.apply(&mut state));
    assert_eq!(state.prechecker.applied_blocks.blocks.len(), 1);
    assert_eq!(state.prechecker.applied_blocks.blocks[0].chain_id.bytes, vec![1]);
    assert!(state.prechecker.applied_blocks.is_applied_at(30));
    assert!(!state.prechecker.applied_blocks.is_applied_at(31));
}

#[test]
fn init_keeps_a_record_that_is_there() {
    let mut state = State::new();
    submit(&mut state, 1);
    assert!(PrecheckerGetProtocolVersionAction { key: key(1) }.apply(&mut state));
    let again = PrecheckerPrecheckOperationInitAction {
        key: key(1),
        operation: Operation { branch: block(0), data: vec![] },
        operation_binary_encoding: vec![],
    };
    assert!(!again.apply(&mut state));
    assert!(matches!(state_of(&state, 1), PrecheckerOperationState::PendingProtocolVersion));
    let record = state.prechecker.operations.get(&key(1)).unwrap();
    assert_eq!(record.raw_operation.binary_encoding, vec![9, 9]);
    assert_eq!(record.raw_operation.operation.data, vec![1, 2, 3]);
}

#[test]
fn precache_asks_once_and_rights_stay_as_delivered() {
    let mut state = State::new();
    assert!(PrecheckerPrecacheEndorsingRightsAction { current_head: block(1), level: 11 }.apply(&mut state));
    assert!(!PrecheckerPrecacheEndorsingRightsAction { current_head: block(2), level: 11 }.apply(&mut state));
    assert!(state.prechecker.endorsing_rights.get(11).is_none());
    assert!(state.prechecker.endorsing_rights.deliver(EndorsingRights::new(11, vec![5, 6])));
    assert!(!state.prechecker.endorsing_rights.deliver(EndorsingRights::new(11, vec![7])));
    assert_eq!(state.prechecker.endorsing_rights.get(11).unwrap().slot_owners, vec![5, 6]);
    state.prechecker.endorsing_rights.evict(11);
    assert!(state.prechecker.endorsing_rights.get(11).is_none());
}

#[test]
fn verdict_checks_slot_then_owner_then_signature() {
    let rights = EndorsingRights::new(10, vec![41, 42, 43]);
    assert_eq!(rights.validate_endorsement(&endorsement(10, 1, 42), true), Ok(()));
    assert_eq!(
        rights.validate_endorsement(&endorsement(10, 3, 42), true),
        Err(EndorsementValidationError::WrongSlot)
    );
    assert_eq!(
        rights.validate_endorsement(&endorsement(10, 2, 42), true),
        Err(EndorsementValidationError::NonMember)
    );
    assert_eq!(
        rights.validate_endorsement(&endorsement(10, 2, 42), false),
        Err(EndorsementValidationError::NonMember)
    );
    assert_eq!(
        rights.validate_endorsement(&endorsement(10, 1, 42), false),
        Err(EndorsementValidationError::BadSignature)
    );
}

#[test]
fn old_blocks_are_forgotten_in_order() {
    let mut state = State::new();
    for (n, level) in [(1u8, 5), (2, 9), (3, 7), (4, 12)] {
        assert!(PrecheckerCacheAppliedBlockAction {
            block_hash: block(n),
            chain_id: ChainId::new(vec![0]),
            block_header: BlockHeader { level, proto: 1, predecessor: block(0) },
        }
        .apply(&mut state));
    }
    state.prechecker.applied_blocks.forget_below(8);
    let left: Vec<i32> = state.prechecker.applied_blocks.blocks.iter().map(|b| b.block_header.level).collect();
    assert_eq!(left, vec![9, 12]);
    assert!(!state.prechecker.applied_blocks.is_applied(&block(1)));
    assert!(state.prechecker.applied_blocks.is_applied(&block(2)));
    state.prechecker.applied_blocks.forget_below(8);
    assert_eq!(state.prechecker.applied_blocks.blocks.len(), 2);
    state.prechecker.applied_blocks.forget_below(13);
    assert_eq!(state.prechecker.applied_blocks.blocks.len(), 0);
}

#[test]
fn parked_validation_is_refused_with_the_verdicts_reason() {
    let mut state = State::new();
    make_protocol_ready(&mut state, 5);
    submit(&mut state, 4);
    to_validation(&mut state, 4, 30);
    assert!(PrecheckerValidateEndorsementAction { key: key(4) }.apply(&mut state));
    assert!(!state.conclude_parked_validation(&key(4), Ok(()), doc("endorsement")));
    assert!(PrecheckerWaitForBlockApplicationAction { key: key(4), level: 30 }.apply(&mut state));
    assert!(PrecheckerCacheAppliedBlockAction {
        block_hash: block(8),
        chain_id: ChainId::new(vec![1]),
        block_header: BlockHeader { level: 31, proto: 5, predecessor: block(6) },
    }
    .apply(&mut state));
    assert!(!state.conclude_parked_validation(
        &key(4),
        Err(EndorsementValidationError::NonMember),
        doc("endorsement")
    ));
    assert!(PrecheckerCacheAppliedBlockAction {
        block_hash: block(9),
        chain_id: ChainId::new(vec![1]),
        block_header: BlockHeader { level: 30, proto: 5, predecessor: block(6) },
    }
    .apply(&mut state));
    assert!(state.conclude_parked_validation(
        &key(4),
        Err(EndorsementValidationError::NonMember),
        doc("endorsement")
    ));
    match state_of(&state, 4) {
        PrecheckerOperationState::Refused { hash, error, .. } => {
            assert_eq!(hash.bytes, vec![4, 4, 4]);
            assert_eq!(*error, EndorsementValidationError::NonMember);
        },
        other => panic!("unexpected state {:?}", other),
    }
}

#[test]
fn verdict_actions_are_accepted_for_every_parked_record() {
    let mut state = State::new();
    make_protocol_ready(&mut state, 5);
    submit(&mut state, 4);
    to_validation(&mut state, 4, 30);
    let early = PrecheckerEndorsementValidationRefusedAction {
        key: key(4),
        protocol_data: doc("endorsement"),
        error: EndorsementValidationError::WrongSlot,
    };
    assert!(!early.is_enabled(&state));
    assert!(PrecheckerValidateEndorsementAction { key: key(4) }.apply(&mut state));
    assert!(PrecheckerWaitForBlockApplicationAction { key: key(4), level: 30 }.apply(&mut state));
    assert!(!state.prechecker.applied_blocks.is_applied_at(30));
    let verdict = PrecheckerEndorsementValidationRefusedAction {
        key: key(4),
        protocol_data: doc("endorsement"),
        error: EndorsementValidationError::WrongSlot,
    };
    assert!(verdict.is_enabled(&state));
    assert!(verdict.apply(&mut state));
    assert!(matches!(
        state_of(&state, 4),
        PrecheckerOperationState::Refused { error: EndorsementValidationError::WrongSlot, .. }
    ));
}
