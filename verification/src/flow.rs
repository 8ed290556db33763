//! The actions that bring a record into the table and take it out, and
//! those on the protocol slot and the two caches.

use vstd::prelude::*;
use crate::blocks::BlockHeader;
use crate::hash::{BlockHash, ChainId, Level};
use crate::operation::{Key, Operation, PrecheckerError, PrecheckerOperation};
use crate::protocol::{SupportedProtocol, SupportedProtocolState};
use crate::rights::RightsEntry;
use crate::state::State;
use crate::table::settled_waiting;

verus! {

/// An operation arrives from a peer. Always accepted.
#[derive(Debug)]
pub struct PrecheckerPrecheckOperationRequestAction {
    pub operation: Operation,
}

impl PrecheckerPrecheckOperationRequestAction {
    pub fn is_enabled(&self, state: &State) -> (yes: bool)
        ensures
            yes,
    {
        true
    }
}

/// Registers an operation under its key. Always accepted; a key that the
/// table holds keeps its record.
#[derive(Debug)]
pub struct PrecheckerPrecheckOperationInitAction {
    pub key: Key,
    pub operation: Operation,
    pub operation_binary_encoding: Vec<u8>,
}

impl PrecheckerPrecheckOperationInitAction {
    pub fn is_enabled(&self, state: &State) -> (yes: bool)
        ensures
            yes,
    {
        true
    }

    /// Creates the record at `Init`. True where the key was new.
    pub fn apply(self, state: &mut State) -> (created: bool)
        requires
            old(state).wf(),
        ensures
            final(state).wf(),
            created == !old(state).prechecker.operations@.contains_key(self.key@),
            created ==> final(state).prechecker.operations@ == old(state).prechecker.operations@.insert(
                self.key@,
                (PrecheckerOperation {
                    raw_operation: (crate::operation::RawOperation {
                        operation: self.operation,
                        binary_encoding: self.operation_binary_encoding,
                    }),
                    decoded_contents: None,
                    state: crate::operation::PrecheckerOperationState::Init,
                }),
            ),
            !created ==> final(state).prechecker.operations@ == old(state).prechecker.operations@,
            old(state).prechecker.same_caches(final(state).prechecker),
            final(state).protocol_runner == old(state).protocol_runner,
            old(state).prechecker.steps_to(final(state).prechecker),
    {
        let record = PrecheckerOperation::new(self.operation, self.operation_binary_encoding);
        state.prechecker.operations.insert_new(self.key, record)
    }
}

/// Notifies a parked record that its block was applied: accepted for a
/// record that waits for a block. The record stays parked; the verdict of
/// the validation is what moves it on.
#[derive(Debug)]
pub struct PrecheckerBlockAppliedAction {
    pub key: Key,
}

impl PrecheckerBlockAppliedAction {
    /// The guard.
    pub open spec fn enabled(&self, state: State) -> bool {
        state.prechecker.operations@.contains_key(self.key@) && {
            let record = state.prechecker.operations@[self.key@];
            record.state is PendingBlockApplication
        }
    }

    pub fn is_enabled(&self, state: &State) -> (yes: bool)
        requires
            state.wf(),
        ensures
            yes == self.enabled(*state),
    {
        match state.prechecker.operations.get(&self.key) {
            Some(record) => match &record.state {
                crate::operation::PrecheckerOperationState::PendingBlockApplication { .. } => true,
                _ => false,
            },
            None => false,
        }
    }
}

/// Takes a decided record out of the table: accepted for a record that is
/// `Applied`, `Refused` or `ProtocolNeeded`, and for no other.
#[derive(Debug)]
pub struct PrecheckerPruneOperationAction {
    pub key: Key,
}

impl PrecheckerPruneOperationAction {
    /// The guard.
    pub open spec fn enabled(&self, state: State) -> bool {
        state.prechecker.operations@.contains_key(self.key@)
            && state.prechecker.operations@[self.key@].state.decided()
    }

    pub fn is_enabled(&self, state: &State) -> (yes: bool)
        requires
            state.wf(),
        ensures
            yes == self.enabled(*state),
    {
        match state.prechecker.operations.get(&self.key) {
            Some(record) => record.state.is_decided(),
            None => false,
        }
    }

    /// The effect, where the guard holds.
    pub fn apply(self, state: &mut State) -> (accepted: bool)
        requires
            old(state).wf(),
        ensures
            final(state).wf(),
            accepted == self.enabled(*old(state)),
            accepted ==> final(state).prechecker.operations@ == old(state).prechecker.operations@.remove(self.key@),
            accepted ==> old(state).prechecker.same_caches(final(state).prechecker),
            accepted ==> final(state).protocol_runner == old(state).protocol_runner,
            accepted ==> old(state).prechecker.steps_to(final(state).prechecker),
            !accepted ==> *final(state) == *old(state),
    {
        if !self.is_enabled(state) {
            return false;
        }
        let _ = state.prechecker.operations.remove(&self.key);
        true
    }
}

/// Remembers an applied block. Always accepted.
#[derive(Debug)]
pub struct PrecheckerCacheAppliedBlockAction {
    pub block_hash: BlockHash,
    pub chain_id: ChainId,
    pub block_header: BlockHeader,
}

impl PrecheckerCacheAppliedBlockAction {
    pub fn is_enabled(&self, state: &State) -> (yes: bool)
        ensures
            yes,
    {
        true
    }

    /// Records the block. True where its hash was new.
    pub fn apply(self, state: &mut State) -> (fresh: bool)
        ensures
            fresh == !old(state).prechecker.applied_blocks.applied(self.block_hash@),
            fresh ==> final(state).prechecker.applied_blocks.blocks@ == old(state).prechecker.applied_blocks.blocks@.push(
                (crate::blocks::AppliedBlock {
                    block_hash: self.block_hash,
                    chain_id: self.chain_id,
                    block_header: self.block_header,
                }),
            ),
            !fresh ==> *final(state) == *old(state),
            forall|h: Seq<u8>|
                final(state).prechecker.applied_blocks.applied(h) == (old(state).prechecker.applied_blocks.applied(h)
                    || h == self.block_hash@),
            final(state).prechecker.operations == old(state).prechecker.operations,
            final(state).prechecker.next_protocol == old(state).prechecker.next_protocol,
            final(state).prechecker.endorsing_rights == old(state).prechecker.endorsing_rights,
            final(state).protocol_runner == old(state).protocol_runner,
    {
        state.prechecker.applied_blocks.record(self.block_hash, self.chain_id, self.block_header)
    }
}

/// Names the protocol of the next block: accepted where the slot is empty
/// or `proto` follows the slot's number.
#[derive(Debug)]
pub struct PrecheckerSetNextBlockProtocolAction {
    pub proto: u8,
}

impl PrecheckerSetNextBlockProtocolAction {
    /// The guard.
    pub open spec fn enabled(&self, state: State) -> bool {
        state.prechecker.next_protocol.can_set(self.proto)
    }

    pub fn is_enabled(&self, state: &State) -> (yes: bool)
        ensures
            yes == self.enabled(*state),
    {
        state.prechecker.next_protocol.accepts_set(self.proto)
    }

    /// The effect, where the guard holds: the slot holds `proto`, unresolved.
    pub fn apply(self, state: &mut State) -> (accepted: bool)
        ensures
            accepted == self.enabled(*old(state)),
            accepted ==> final(state).prechecker.next_protocol.slot == Some(
                (self.proto, SupportedProtocolState::Unresolved),
            ),
            !accepted ==> *final(state) == *old(state),
            final(state).prechecker.operations == old(state).prechecker.operations,
            final(state).prechecker.endorsing_rights == old(state).prechecker.endorsing_rights,
            final(state).prechecker.applied_blocks == old(state).prechecker.applied_blocks,
            final(state).protocol_runner == old(state).protocol_runner,
    {
        state.prechecker.next_protocol.set(self.proto)
    }
}

/// Starts the fetch of a protocol's content: accepted where the slot is
/// empty, holds `proto` unresolved, or holds the number before `proto`.
#[derive(Debug)]
pub struct PrecheckerQueryNextBlockProtocolAction {
    pub proto: u8,
    pub block_hash: BlockHash,
}

impl PrecheckerQueryNextBlockProtocolAction {
    /// The guard.
    pub open spec fn enabled(&self, state: State) -> bool {
        state.prechecker.next_protocol.can_query(self.proto)
    }

    pub fn is_enabled(&self, state: &State) -> (yes: bool)
        ensures
            yes == self.enabled(*state),
    {
        state.prechecker.next_protocol.accepts_query(self.proto)
    }

    /// The effect, where the guard holds: the slot holds `proto`, with a
    /// fetch in flight that is keyed by `block_hash`.
    pub fn apply(self, state: &mut State) -> (accepted: bool)
        ensures
            accepted == self.enabled(*old(state)),
            accepted ==> final(state).prechecker.next_protocol.slot == Some(
                (self.proto, SupportedProtocolState::Requesting(self.block_hash)),
            ),
            !accepted ==> *final(state) == *old(state),
            final(state).prechecker.operations == old(state).prechecker.operations,
            final(state).prechecker.endorsing_rights == old(state).prechecker.endorsing_rights,
            final(state).prechecker.applied_blocks == old(state).prechecker.applied_blocks,
            final(state).protocol_runner == old(state).protocol_runner,
    {
        state.prechecker.next_protocol.query(self.proto, self.block_hash)
    }
}

/// Delivers a protocol's content: accepted where the fetch in flight is the
/// one keyed by `block_hash`.
#[derive(Debug)]
pub struct PrecheckerNextBlockProtocolReadyAction {
    pub block_hash: BlockHash,
    pub supported_protocol: SupportedProtocol,
}

impl PrecheckerNextBlockProtocolReadyAction {
    /// The guard.
    pub open spec fn enabled(&self, state: State) -> bool {
        state.prechecker.next_protocol.requesting(self.block_hash@)
    }

    pub fn is_enabled(&self, state: &State) -> (yes: bool)
        ensures
            yes == self.enabled(*state),
    {
        state.prechecker.next_protocol.is_requesting(&self.block_hash)
    }

    /// The effect, where the guard holds: the slot keeps its number and is
    /// resolved with the content that was delivered.
    pub fn apply(self, state: &mut State) -> (accepted: bool)
        ensures
            accepted == self.enabled(*old(state)),
            accepted ==> final(state).prechecker.next_protocol.slot == Some(
                (
                    old(state).prechecker.next_protocol.number().unwrap(),
                    SupportedProtocolState::Ready(self.supported_protocol),
                ),
            ),
            !accepted ==> *final(state) == *old(state),
            final(state).prechecker.operations == old(state).prechecker.operations,
            final(state).prechecker.endorsing_rights == old(state).prechecker.endorsing_rights,
            final(state).prechecker.applied_blocks == old(state).prechecker.applied_blocks,
            final(state).protocol_runner == old(state).protocol_runner,
    {
        state.prechecker.next_protocol.resolve(&self.block_hash, self.supported_protocol)
    }
}

/// A fetch of a protocol's content failed. Always accepted. `block_hash`
/// says which fetch it was, for whoever reads the action; it plays no part
/// in the effect, which falls on every record that waits for the protocol,
/// whichever fetch it waits for.
#[derive(Debug)]
pub struct PrecheckerNextBlockProtocolErrorAction {
    pub block_hash: BlockHash,
    pub error: PrecheckerError,
}

impl PrecheckerNextBlockProtocolErrorAction {
    pub fn is_enabled(&self, state: &State) -> (yes: bool)
        ensures
            yes,
    {
        true
    }

    /// Every record that waits for the protocol ends in `Error` with the
    /// action's error, whatever `block_hash` is and whatever the slot holds;
    /// nothing else changes.
    pub fn apply(self, state: &mut State)
        requires
            old(state).wf(),
        ensures
            final(state).wf(),
            final(state).prechecker.operations@ == settled_waiting(
                old(state).prechecker.operations@,
                Some(self.error),
            ),
            old(state).prechecker.same_caches(final(state).prechecker),
            final(state).protocol_runner == old(state).protocol_runner,
            old(state).prechecker.steps_to(final(state).prechecker),
    {
        state.prechecker.operations.settle_waiting(Some(self.error));
    }
}

/// Warms the rights cache for a level that is expected next. Always
/// accepted.
#[derive(Debug)]
pub struct PrecheckerPrecacheEndorsingRightsAction {
    pub current_head: BlockHash,
    pub level: Level,
}

impl PrecheckerPrecacheEndorsingRightsAction {
    pub fn is_enabled(&self, state: &State) -> (yes: bool)
        ensures
            yes,
    {
        true
    }

    /// Notes the level as asked for. True where a fetch has to start.
    pub fn apply(self, state: &mut State) -> (start: bool)
        requires
            old(state).wf(),
        ensures
            final(state).wf(),
            start == !old(state).prechecker.endorsing_rights@.contains_key(self.level),
            start ==> final(state).prechecker.endorsing_rights@ == old(state).prechecker.endorsing_rights@.insert(
                self.level,
                RightsEntry::Requested,
            ),
            !start ==> *final(state) == *old(state),
            final(state).prechecker.operations == old(state).prechecker.operations,
            final(state).prechecker.next_protocol == old(state).prechecker.next_protocol,
            final(state).prechecker.applied_blocks == old(state).prechecker.applied_blocks,
            final(state).protocol_runner == old(state).protocol_runner,
    {
        state.prechecker.endorsing_rights.precache(&self.current_head, self.level)
    }
}

} // verus!
