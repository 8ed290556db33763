//! Requests that carry their immediate consequence with them: where what a
//! record asks for is at hand, the record does not wait for it.

use vstd::prelude::*;
use crate::actions::{
    PrecheckerEndorsementValidationAppliedAction, PrecheckerEndorsementValidationRefusedAction,
    PrecheckerEndorsingRightsReadyAction, PrecheckerGetEndorsingRightsAction, PrecheckerGetProtocolVersionAction,
    PrecheckerProtocolVersionReadyAction, PrecheckerValidateEndorsementAction,
};
use crate::actions::{PrecheckerOperationDecodedAction, PrecheckerProtocolNeededAction};
use crate::hash::{BlockHash, Level};
use crate::operation::{
    endorsement_verdict, EndorsementValidationError, EndorsingRights, Key, OperationDecodedContents,
    PrecheckerError, PrecheckerOperation,
    PrecheckerOperationState,
};
use crate::protocol::{SupportedProtocol, SupportedProtocolState};
use crate::rights::RightsEntry;
use crate::state::State;
use crate::table::{moved, rights_denied, rights_given, settled_waiting};

verus! {

impl State {
    /// What stays the same whenever a request works on one record: the
    /// runner, the slot and the applied blocks.
    pub open spec fn around_kept(&self, post: State) -> bool {
        &&& post.wf()
        &&& post.protocol_runner == self.protocol_runner
        &&& post.prechecker.next_protocol == self.prechecker.next_protocol
        &&& post.prechecker.applied_blocks == self.prechecker.applied_blocks
    }

    /// Asks for the protocol of the next block on behalf of the record under
    /// `key`. Accepted for a record at `Init`: it becomes ready to decode
    /// where the slot is resolved, and waits for the protocol where not.
    pub fn request_protocol_version(&mut self, key: &Key) -> (accepted: bool)
        requires
            old(self).wf(),
        ensures
            accepted == (old(self).prechecker.operations@.contains_key(key@)
                && old(self).prechecker.operations@[key@].state is Init),
            !accepted ==> *final(self) == *old(self),
            accepted ==> old(self).around_kept(*final(self)),
            old(self).prechecker.gates_kept(final(self).prechecker),
            accepted ==> final(self).prechecker.endorsing_rights == old(self).prechecker.endorsing_rights,
            accepted ==> final(self).prechecker.operations@ == moved(
                old(self).prechecker.operations@,
                key@,
                if old(self).prechecker.next_protocol.ready() {
                    PrecheckerOperationState::ProtocolVersionReady
                } else {
                    PrecheckerOperationState::PendingProtocolVersion
                },
                None,
            ),
    {
        let ask = PrecheckerGetProtocolVersionAction { key: key.copy() };
        if !ask.apply(self) {
            return false;
        }
        if self.prechecker.next_protocol.is_ready() {
            let ready = PrecheckerProtocolVersionReadyAction { key: key.copy() };
            let fired = ready.apply(self);
            assert(fired);
            assert(self.prechecker.operations@ =~= moved(
                old(self).prechecker.operations@,
                key@,
                PrecheckerOperationState::ProtocolVersionReady,
                None,
            ));
        }
        true
    }

    /// Asks for the rights of the level of the endorsement under `key`.
    /// Accepted for a decoded endorsement. Where the cache holds the rights
    /// of the level that was decoded, the record holds a copy of them at
    /// once; where not, the record waits and the level is noted as asked
    /// for.
    pub fn request_endorsing_rights(&mut self, key: &Key) -> (accepted: bool)
        requires
            old(self).wf(),
        ensures
            accepted == (old(self).prechecker.operations@.contains_key(key@) && {
                let record = old(self).prechecker.operations@[key@];
                record.state is Decoded && record.state->Decoded_contents.endorses()
            }),
            !accepted ==> *final(self) == *old(self),
            accepted ==> old(self).around_kept(*final(self)),
            old(self).prechecker.gates_kept(final(self).prechecker),
            accepted ==> {
                let record = old(self).prechecker.operations@[key@];
                let cache = old(self).prechecker.endorsing_rights;
                let reached = final(self).prechecker.operations@[key@].state;
                &&& final(self).prechecker.operations@ == moved(old(self).prechecker.operations@, key@, reached, None)
                &&& if record.decoded_contents.is_some() && cache.ready(record.decoded_contents.unwrap().level) {
                    let level = record.decoded_contents.unwrap().level;
                    &&& reached is EndorsingRightsReady
                    &&& reached->EndorsingRightsReady_rights.level == level
                    &&& reached->EndorsingRightsReady_rights.slot_owners@ == cache@[level]->Ready_0.slot_owners@
                    &&& final(self).prechecker.endorsing_rights == cache
                } else {
                    &&& reached is PendingEndorsingRights
                    &&& final(self).prechecker.endorsing_rights@ == if record.decoded_contents.is_some()
                        && !cache@.contains_key(record.decoded_contents.unwrap().level) {
                        cache@.insert(record.decoded_contents.unwrap().level, RightsEntry::Requested)
                    } else {
                        cache@
                    }
                }
            },
    {
        let level: Option<Level> = match self.prechecker.operations.get(key) {
            Some(record) => match &record.decoded_contents {
                Some(contents) => Some(contents.level),
                None => None,
            },
            None => None,
        };
        let ask = PrecheckerGetEndorsingRightsAction { key: key.copy() };
        if !ask.apply(self) {
            return false;
        }
        let ghost before = old(self).prechecker.operations@;
        match level {
            None => {},
            Some(wanted) => {
                let cached: Option<EndorsingRights> = match self.prechecker.endorsing_rights.get(wanted) {
                    Some(rights) => Some(rights.copy()),
                    None => None,
                };
                match cached {
                    Some(rights) => {
                        let ghost state = PrecheckerOperationState::EndorsingRightsReady { rights };
                        let ready = PrecheckerEndorsingRightsReadyAction { key: key.copy(), endorsing_rights: rights };
                        let fired = ready.apply(self);
                        assert(fired);
                        assert(self.prechecker.operations@ =~= moved(before, key@, state, None));
                    },
                    None => {
                        let _ = self.prechecker.endorsing_rights.request(wanted);
                    },
                }
            },
        }
        true
    }

    /// Validates the endorsement under `key` against the rights that its
    /// record holds, given what the check of its signature said, and
    /// decides it. Accepted for a record that holds its rights and what was
    /// decoded from it: it ends `Applied` where the rights' verdict is good,
    /// and `Refused` with the verdict's reason where not.
    pub fn conclude_validation(&mut self, key: &Key, signature_valid: bool, protocol_data: serde_json::Value) -> (accepted: bool)
        requires
            old(self).wf(),
        ensures
            accepted == (old(self).prechecker.operations@.contains_key(key@) && {
                let record = old(self).prechecker.operations@[key@];
                record.state is EndorsingRightsReady && record.decoded_contents.is_some()
            }),
            !accepted ==> *final(self) == *old(self),
            accepted ==> old(self).around_kept(*final(self)),
            old(self).prechecker.gates_kept(final(self).prechecker),
            accepted ==> final(self).prechecker.endorsing_rights == old(self).prechecker.endorsing_rights,
            accepted ==> {
                let record = old(self).prechecker.operations@[key@];
                let reached = final(self).prechecker.operations@[key@].state;
                &&& final(self).prechecker.operations@ == moved(old(self).prechecker.operations@, key@, reached, None)
                &&& match endorsement_verdict(
                    record.state->EndorsingRightsReady_rights,
                    record.decoded_contents.unwrap(),
                    signature_valid,
                ) {
                    Ok(_) => reached matches PrecheckerOperationState::Applied { hash, protocol_data: data }
                        && hash@ == key@ && data == protocol_data,
                    Err(reason) => reached matches PrecheckerOperationState::Refused { hash, protocol_data: data, error }
                        && hash@ == key@ && data == protocol_data && error == reason,
                }
            },
    {
        let validate = PrecheckerValidateEndorsementAction { key: key.copy() };
        let verdict = match validate.verdict(self, signature_valid) {
            Some(verdict) => verdict,
            None => {
                return false;
            },
        };
        let ghost before = old(self).prechecker.operations@;
        let started = validate.apply(self);
        assert(started);
        match verdict {
            Ok(_) => {
                let decide = PrecheckerEndorsementValidationAppliedAction { key: key.copy(), protocol_data };
                let ghost state = PrecheckerOperationState::Applied { hash: decide.key.operation, protocol_data };
                let decided = decide.apply(self);
                assert(decided);
                assert(self.prechecker.operations@ =~= moved(before, key@, state, None));
            },
            Err(error) => {
                let decide = PrecheckerEndorsementValidationRefusedAction { key: key.copy(), protocol_data, error };
                let ghost state = PrecheckerOperationState::Refused {
                    hash: decide.key.operation,
                    protocol_data,
                    error,
                };
                let decided = decide.apply(self);
                assert(decided);
                assert(self.prechecker.operations@ =~= moved(before, key@, state, None));
            },
        }
        true
    }
    /// Takes in the content of the protocol that was fetched for
    /// `block_hash`. Accepted where that fetch is the one in flight: the
    /// slot is resolved, and every record that waited for the protocol is
    /// ready to decode.
    pub fn protocol_resolved(&mut self, block_hash: &BlockHash, protocol: SupportedProtocol) -> (accepted: bool)
        requires
            old(self).wf(),
        ensures
            final(self).wf(),
            accepted == old(self).prechecker.next_protocol.requesting(block_hash@),
            !accepted ==> *final(self) == *old(self),
            old(self).prechecker.gates_kept(final(self).prechecker),
            accepted ==> final(self).prechecker.next_protocol.slot == Some(
                (old(self).prechecker.next_protocol.number().unwrap(), SupportedProtocolState::Ready(protocol)),
            ),
            accepted ==> final(self).prechecker.operations@ == settled_waiting(old(self).prechecker.operations@, None),
            final(self).prechecker.endorsing_rights == old(self).prechecker.endorsing_rights,
            final(self).prechecker.applied_blocks == old(self).prechecker.applied_blocks,
            final(self).protocol_runner == old(self).protocol_runner,
    {
        let accepted = self.prechecker.next_protocol.resolve(block_hash, protocol);
        if accepted {
            self.prechecker.operations.settle_waiting(None);
        }
        accepted
    }

    /// Takes in what was decoded from the operation under `key`. Accepted
    /// for a record that is being decoded. An endorsement goes on to ask for
    /// its rights, as `request_endorsing_rights` does from `Decoded`; any
    /// other operation ends `ProtocolNeeded`, with `protocol_data`.
    pub fn operation_decoded(
        &mut self,
        key: &Key,
        contents: OperationDecodedContents,
        protocol_data: serde_json::Value,
    ) -> (accepted: bool)
        requires
            old(self).wf(),
        ensures
            accepted == (old(self).prechecker.operations@.contains_key(key@)
                && old(self).prechecker.operations@[key@].state is Decoding),
            !accepted ==> *final(self) == *old(self),
            accepted ==> old(self).around_kept(*final(self)),
            old(self).prechecker.gates_kept(final(self).prechecker),
            accepted ==> {
                let cache = old(self).prechecker.endorsing_rights;
                let reached = final(self).prechecker.operations@[key@].state;
                &&& final(self).prechecker.operations@ == moved(
                    old(self).prechecker.operations@,
                    key@,
                    reached,
                    Some(contents),
                )
                &&& if !contents.endorses() {
                    &&& reached == (PrecheckerOperationState::ProtocolNeeded { protocol_data })
                    &&& final(self).prechecker.endorsing_rights == cache
                } else if cache.ready(contents.level) {
                    &&& reached is EndorsingRightsReady
                    &&& reached->EndorsingRightsReady_rights.level == contents.level
                    &&& reached->EndorsingRightsReady_rights.slot_owners@ == cache@[contents.level]->Ready_0.slot_owners@
                    &&& final(self).prechecker.endorsing_rights == cache
                } else {
                    &&& reached is PendingEndorsingRights
                    &&& final(self).prechecker.endorsing_rights@ == if cache@.contains_key(contents.level) {
                        cache@
                    } else {
                        cache@.insert(contents.level, RightsEntry::Requested)
                    }
                }
            },
    {
        let decoded = PrecheckerOperationDecodedAction { key: key.copy(), contents };
        if !decoded.apply(self) {
            return false;
        }
        let ghost before = old(self).prechecker.operations@;
        if contents.is_endorsement() {
            let asked = self.request_endorsing_rights(key);
            assert(asked);
            assert(self.prechecker.operations@ =~= moved(
                before,
                key@,
                self.prechecker.operations@[key@].state,
                Some(contents),
            ));
        } else {
            let ghost state = PrecheckerOperationState::ProtocolNeeded { protocol_data };
            let hand_on = PrecheckerProtocolNeededAction { key: key.copy(), protocol_data };
            let handed = hand_on.apply(self);
            assert(handed);
            assert(self.prechecker.operations@ =~= moved(before, key@, state, Some(contents)));
        }
        true
    }
    /// Takes in the rights of a level. The cache keeps them unless it holds
    /// rights of that level already, and every record that waited for the
    /// rights of that level holds a copy of what the cache then has. True
    /// where the cache took them.
    pub fn rights_delivered(&mut self, rights: EndorsingRights) -> (stored: bool)
        requires
            old(self).wf(),
        ensures
            old(self).around_kept(*final(self)),
            stored == !old(self).prechecker.endorsing_rights.ready(rights.level),
            final(self).prechecker.endorsing_rights@ == if stored {
                old(self).prechecker.endorsing_rights@.insert(rights.level, RightsEntry::Ready(rights))
            } else {
                old(self).prechecker.endorsing_rights@
            },
            final(self).prechecker.operations@.dom() == old(self).prechecker.operations@.dom(),
            forall|key: Seq<u8>| #[trigger]
                old(self).prechecker.operations@.contains_key(key) ==> rights_given(
                    old(self).prechecker.operations@[key],
                    final(self).prechecker.operations@[key],
                    final(self).prechecker.endorsing_rights@[rights.level]->Ready_0,
                ),
            old(self).prechecker.steps_to(final(self).prechecker),
            old(self).prechecker.gates_kept(final(self).prechecker),
    {
        let level: Level = rights.level;
        let stored = self.prechecker.endorsing_rights.deliver(rights);
        let found = self.prechecker.endorsing_rights.get(level);
        assert(self.prechecker.endorsing_rights.ready(level));
        let current = found.unwrap().copy();
        self.prechecker.operations.give_rights(&current);
        stored
    }

    /// Takes in that the rights of `level` could not be fetched. Every
    /// record that waited for them ends in `Error`, and the level is no
    /// longer noted as asked for, so that it can be asked for again.
    pub fn rights_fetch_failed(&mut self, level: Level)
        requires
            old(self).wf(),
        ensures
            old(self).around_kept(*final(self)),
            final(self).prechecker.operations@ == old(self).prechecker.operations@.map_values(
                |record: PrecheckerOperation| rights_denied(record, level, PrecheckerError::RightsFetch),
            ),
            final(self).prechecker.endorsing_rights@ == if old(self).prechecker.endorsing_rights.ready(level) {
                old(self).prechecker.endorsing_rights@
            } else {
                old(self).prechecker.endorsing_rights@.remove(level)
            },
            old(self).prechecker.steps_to(final(self).prechecker),
            old(self).prechecker.gates_kept(final(self).prechecker),
    {
        self.prechecker.operations.deny_rights(level, PrecheckerError::RightsFetch);
        if self.prechecker.endorsing_rights.get(level).is_none() {
            self.prechecker.endorsing_rights.evict(level);
        }
    }
    /// Decides the endorsement under `key` after its wait for a block, with
    /// the verdict that the resumed validation came to. Accepted for a
    /// record parked on a level of which a block is recorded: it ends
    /// `Applied` where the verdict is good, and `Refused` with the
    /// verdict's reason where not.
    pub fn conclude_parked_validation(
        &mut self,
        key: &Key,
        verdict: Result<(), EndorsementValidationError>,
        protocol_data: serde_json::Value,
    ) -> (accepted: bool)
        requires
            old(self).wf(),
        ensures
            accepted == (old(self).prechecker.operations@.contains_key(key@) && {
                let record = old(self).prechecker.operations@[key@];
                record.state is PendingBlockApplication && old(self).prechecker.applied_blocks.applied_at(
                    record.state->PendingBlockApplication_level,
                )
            }),
            !accepted ==> *final(self) == *old(self),
            accepted ==> old(self).around_kept(*final(self)),
            accepted ==> final(self).prechecker.endorsing_rights == old(self).prechecker.endorsing_rights,
            old(self).prechecker.steps_to(final(self).prechecker),
            old(self).prechecker.gates_kept(final(self).prechecker),
            accepted ==> {
                let reached = final(self).prechecker.operations@[key@].state;
                &&& final(self).prechecker.operations@ == moved(old(self).prechecker.operations@, key@, reached, None)
                &&& match verdict {
                    Ok(_) => reached matches PrecheckerOperationState::Applied { hash, protocol_data: data }
                        && hash@ == key@ && data == protocol_data,
                    Err(reason) => reached matches PrecheckerOperationState::Refused { hash, protocol_data: data, error }
                        && hash@ == key@ && data == protocol_data && error == reason,
                }
            },
    {
        let recorded = match self.prechecker.operations.get(key) {
            Some(record) => match &record.state {
                PrecheckerOperationState::PendingBlockApplication { level } => {
                    self.prechecker.applied_blocks.is_applied_at(*level)
                },
                _ => false,
            },
            None => false,
        };
        if !recorded {
            return false;
        }
        match verdict {
            Ok(_) => {
                let decide = PrecheckerEndorsementValidationAppliedAction { key: key.copy(), protocol_data };
                let decided = decide.apply(self);
                assert(decided);
            },
            Err(error) => {
                let decide = PrecheckerEndorsementValidationRefusedAction { key: key.copy(), protocol_data, error };
                let decided = decide.apply(self);
                assert(decided);
            },
        }
        true
    }
}

} // verus!
