//! The prechecker's state as a whole, and the relation that every accepted
//! action keeps between the state before it and the state after it.

use vstd::prelude::*;
use crate::blocks::AppliedBlockCache;
use crate::operation::{PrecheckerOperation, PrecheckerOperationState};
use crate::protocol::NextProtocolSlot;
use crate::rights::EndorsingRightsCache;
use crate::table::OperationTable;

verus! {

/// Steps of starting the protocol runner's server.
#[derive(Debug, Clone, Copy, PartialEq, Eq, Structural)]
pub enum ProtocolRunnerSpawnServerState {
    Init,
    Pending,
    Error,
    Success,
}

/// Where the protocol runner stands.
#[derive(Debug, Clone, Copy, PartialEq, Eq, Structural)]
pub enum ProtocolRunnerState {
    Idle,
    SpawnServer(ProtocolRunnerSpawnServerState),
}

/// All that the prechecker owns.
#[derive(Debug)]
pub struct PrecheckerState {
    pub operations: OperationTable,
    pub next_protocol: NextProtocolSlot,
    pub endorsing_rights: EndorsingRightsCache,
    pub applied_blocks: AppliedBlockCache,
}

/// The state that actions are held against.
#[derive(Debug)]
pub struct State {
    pub prechecker: PrecheckerState,
    pub protocol_runner: ProtocolRunnerState,
}

/// The moves that one operation can make, from a state to the next.
pub open spec fn advances(pre: PrecheckerOperationState, post: PrecheckerOperationState) -> bool {
    post is Error && !pre.terminal() || match pre {
        PrecheckerOperationState::Init => post is PendingProtocolVersion,
        PrecheckerOperationState::PendingProtocolVersion => post is ProtocolVersionReady,
        PrecheckerOperationState::ProtocolVersionReady => post is Decoding,
        PrecheckerOperationState::Decoding => post is Decoded,
        PrecheckerOperationState::Decoded { contents } => if contents.endorses() {
            post is PendingEndorsingRights
        } else {
            post is ProtocolNeeded
        },
        PrecheckerOperationState::PendingEndorsingRights => post is EndorsingRightsReady,
        PrecheckerOperationState::EndorsingRightsReady { .. } => post is ValidatingEndorsement,
        PrecheckerOperationState::ValidatingEndorsement => post is PendingBlockApplication
            || post is Applied || post is Refused,
        PrecheckerOperationState::PendingBlockApplication { .. } => post is Applied || post is Refused,
        _ => false,
    }
}

/// One move of one record: the operation as received stays, and what was
/// decoded changes only on decoding.
pub open spec fn record_step(before: PrecheckerOperation, after: PrecheckerOperation) -> bool {
    &&& after.raw_operation == before.raw_operation
    &&& advances(before.state, after.state)
    &&& after.state is Decoded ==> after.decoded_contents == Some(after.state->Decoded_contents)
    &&& !(after.state is Decoded) ==> after.decoded_contents == before.decoded_contents
}

impl PrecheckerState {
    pub open spec fn wf(&self) -> bool {
        self.operations.wf() && self.endorsing_rights.wf()
    }

    /// The state of the operation under `key`, where there is one.
    pub open spec fn state_of(&self, key: Seq<u8>) -> Option<PrecheckerOperationState> {
        self.operations.state_of(key)
    }

    /// What holds between the state before an action and the state after
    /// it: a record stays as it is, makes one move, or leaves the table
    /// decided; a record that is new starts at `Init`.
    pub open spec fn steps_to(&self, post: PrecheckerState) -> bool {
        &&& forall|k: Seq<u8>| #[trigger]
            self.operations@.contains_key(k) ==> if post.operations@.contains_key(k) {
                post.operations@[k] == self.operations@[k] || record_step(
                    self.operations@[k],
                    post.operations@[k],
                )
            } else {
                self.operations@[k].state.decided()
            }
        &&& forall|k: Seq<u8>| #[trigger]
            post.operations@.contains_key(k) && !self.operations@.contains_key(k)
                ==> post.operations@[k].state is Init
    }

    /// What the requests keep, beyond the order of the steps: a record
    /// becomes ready to decode only where the slot is resolved, comes to
    /// hold rights only where they are those that the cache has for the
    /// level that was decoded from the record, and is decided after
    /// waiting for a block only where a block of that level is recorded.
    pub open spec fn gates_kept(&self, post: PrecheckerState) -> bool {
        forall|k: Seq<u8>| #[trigger]
            post.operations@.contains_key(k) && self.operations@.contains_key(k) ==> {
                let before = self.operations@[k];
                let after = post.operations@[k];
                &&& after.state is ProtocolVersionReady && !(before.state is ProtocolVersionReady)
                    ==> post.next_protocol.ready()
                &&& after.state is EndorsingRightsReady && !(before.state is EndorsingRightsReady) ==> {
                    let rights = after.state->EndorsingRightsReady_rights;
                    &&& after.decoded_contents.is_some()
                    &&& after.decoded_contents.unwrap().level == rights.level
                    &&& post.endorsing_rights.ready(rights.level)
                    &&& post.endorsing_rights@[rights.level]->Ready_0.slot_owners@ == rights.slot_owners@
                }
                &&& before.state is PendingBlockApplication && after.state.decided()
                    ==> post.applied_blocks.applied_at(before.state->PendingBlockApplication_level)
            }
    }

    /// Same slot and caches; only the table may differ.
    pub open spec fn same_caches(&self, post: PrecheckerState) -> bool {
        &&& post.next_protocol == self.next_protocol
        &&& post.endorsing_rights == self.endorsing_rights
        &&& post.applied_blocks == self.applied_blocks
    }

    /// The state at the start: no operation in flight, an empty slot, no
    /// level asked for or delivered, no block recorded.
    pub fn new() -> (state: Self)
        ensures
            state.wf(),
            state.operations.entries@.len() == 0,
            state.operations@ == Map::<Seq<u8>, PrecheckerOperation>::empty(),
            state.next_protocol.slot.is_none(),
            state.endorsing_rights@ == Map::<crate::hash::Level, crate::rights::RightsEntry>::empty(),
            state.applied_blocks.blocks@.len() == 0,
    {
        PrecheckerState {
            operations: OperationTable::new(),
            next_protocol: NextProtocolSlot::new(),
            endorsing_rights: EndorsingRightsCache::new(),
            applied_blocks: AppliedBlockCache::new(),
        }
    }
}

impl State {
    pub open spec fn wf(&self) -> bool {
        self.prechecker.wf()
    }

    /// An action on one record: the runner and the caches stay, the table
    /// has the record under `key` in `state`, and the step is a legal one.
    pub open spec fn record_moved(
        &self,
        post: State,
        key: Seq<u8>,
        state: PrecheckerOperationState,
        contents: Option<crate::operation::OperationDecodedContents>,
    ) -> bool {
        &&& post.wf()
        &&& post.protocol_runner == self.protocol_runner
        &&& self.prechecker.same_caches(post.prechecker)
        &&& post.prechecker.operations@ == crate::table::moved(self.prechecker.operations@, key, state, contents)
        &&& self.prechecker.steps_to(post.prechecker)
    }

    /// The state at the start: an idle runner, no operation in flight, an
    /// empty slot, no level asked for or delivered, no block recorded.
    pub fn new() -> (state: Self)
        ensures
            state.wf(),
            state.protocol_runner == ProtocolRunnerState::Idle,
            state.prechecker.operations.entries@.len() == 0,
            state.prechecker.operations@ == Map::<Seq<u8>, PrecheckerOperation>::empty(),
            state.prechecker.next_protocol.slot.is_none(),
            state.prechecker.endorsing_rights@ == Map::<crate::hash::Level, crate::rights::RightsEntry>::empty(),
            state.prechecker.applied_blocks.blocks@.len() == 0,
    {
        State { prechecker: PrecheckerState::new(), protocol_runner: ProtocolRunnerState::Idle }
    }
}

} // verus!
