//! The actions on one record of the operation table. Each has a guard, which
//! says in which state of the record it is accepted, and an effect, which is
//! carried out where the guard holds and leaves the state alone where not.

use vstd::prelude::*;
use crate::hash::Level;
use crate::operation::{
    EndorsementValidationError, EndorsingRights, Key, OperationDecodedContents, PrecheckerError,
    PrecheckerOperationState,
};
use crate::state::State;

verus! {

/// Asks which protocol governs the next block: accepted for a record at `Init`, which then waits for the protocol.
#[derive(Debug)]
pub struct PrecheckerGetProtocolVersionAction {
    pub key: Key,
}

impl PrecheckerGetProtocolVersionAction {
    /// The guard.
    pub open spec fn enabled(&self, state: State) -> bool {
        state.prechecker.operations@.contains_key(self.key@) && {
            let record = state.prechecker.operations@[self.key@];
            record.state is Init
        }
    }

    pub fn is_enabled(&self, state: &State) -> (yes: bool)
        requires
            state.wf(),
        ensures
            yes == self.enabled(*state),
    {
        match state.prechecker.operations.get(&self.key) {
            Some(record) => {
                match &record.state {
                    PrecheckerOperationState::Init => true,
                    _ => false,
                }
            },
            None => false,
        }
    }

    /// The effect, where the guard holds.
    pub fn apply(self, state: &mut State) -> (accepted: bool)
        requires
            old(state).wf(),
        ensures
            accepted == self.enabled(*old(state)),
            accepted ==> old(state).record_moved(
                *final(state),
                self.key@,
                PrecheckerOperationState::PendingProtocolVersion,
                None,
            ),
            !accepted ==> *final(state) == *old(state),
    {
        if !self.is_enabled(state) {
            return false;
        }
        let key = self.key.copy();
        state.prechecker.operations.advance(&key, PrecheckerOperationState::PendingProtocolVersion, None);
        true
    }
}

/// The protocol is known: accepted for a record that waits for it.
#[derive(Debug)]
pub struct PrecheckerProtocolVersionReadyAction {
    pub key: Key,
}

impl PrecheckerProtocolVersionReadyAction {
    /// The guard.
    pub open spec fn enabled(&self, state: State) -> bool {
        state.prechecker.operations@.contains_key(self.key@) && {
            let record = state.prechecker.operations@[self.key@];
            record.state is PendingProtocolVersion
        }
    }

    pub fn is_enabled(&self, state: &State) -> (yes: bool)
        requires
            state.wf(),
        ensures
            yes == self.enabled(*state),
    {
        match state.prechecker.operations.get(&self.key) {
            Some(record) => {
                match &record.state {
                    PrecheckerOperationState::PendingProtocolVersion => true,
                    _ => false,
                }
            },
            None => false,
        }
    }

    /// The effect, where the guard holds.
    pub fn apply(self, state: &mut State) -> (accepted: bool)
        requires
            old(state).wf(),
        ensures
            accepted == self.enabled(*old(state)),
            accepted ==> old(state).record_moved(
                *final(state),
                self.key@,
                PrecheckerOperationState::ProtocolVersionReady,
                None,
            ),
            !accepted ==> *final(state) == *old(state),
    {
        if !self.is_enabled(state) {
            return false;
        }
        let key = self.key.copy();
        state.prechecker.operations.advance(&key, PrecheckerOperationState::ProtocolVersionReady, None);
        true
    }
}

/// Asks for the decoding: accepted for a record whose protocol is known.
#[derive(Debug)]
pub struct PrecheckerDecodeOperationAction {
    pub key: Key,
}

impl PrecheckerDecodeOperationAction {
    /// The guard.
    pub open spec fn enabled(&self, state: State) -> bool {
        state.prechecker.operations@.contains_key(self.key@) && {
            let record = state.prechecker.operations@[self.key@];
            record.state is ProtocolVersionReady
        }
    }

    pub fn is_enabled(&self, state: &State) -> (yes: bool)
        requires
            state.wf(),
        ensures
            yes == self.enabled(*state),
    {
        match state.prechecker.operations.get(&self.key) {
            Some(record) => {
                match &record.state {
                    PrecheckerOperationState::ProtocolVersionReady => true,
                    _ => false,
                }
            },
            None => false,
        }
    }

    /// The effect, where the guard holds.
    pub fn apply(self, state: &mut State) -> (accepted: bool)
        requires
            old(state).wf(),
        ensures
            accepted == self.enabled(*old(state)),
            accepted ==> old(state).record_moved(
                *final(state),
                self.key@,
                PrecheckerOperationState::Decoding,
                None,
            ),
            !accepted ==> *final(state) == *old(state),
    {
        if !self.is_enabled(state) {
            return false;
        }
        let key = self.key.copy();
        state.prechecker.operations.advance(&key, PrecheckerOperationState::Decoding, None);
        true
    }
}

/// The decoding succeeded: accepted for a record that is being decoded, which then holds the contents.
#[derive(Debug)]
pub struct PrecheckerOperationDecodedAction {
    pub key: Key,
    pub contents: OperationDecodedContents,
}

impl PrecheckerOperationDecodedAction {
    /// The guard.
    pub open spec fn enabled(&self, state: State) -> bool {
        state.prechecker.operations@.contains_key(self.key@) && {
            let record = state.prechecker.operations@[self.key@];
            record.state is Decoding
        }
    }

    pub fn is_enabled(&self, state: &State) -> (yes: bool)
        requires
            state.wf(),
        ensures
            yes == self.enabled(*state),
    {
        match state.prechecker.operations.get(&self.key) {
            Some(record) => {
                match &record.state {
                    PrecheckerOperationState::Decoding => true,
                    _ => false,
                }
            },
            None => false,
        }
    }

    /// The effect, where the guard holds.
    pub fn apply(self, state: &mut State) -> (accepted: bool)
        requires
            old(state).wf(),
        ensures
            accepted == self.enabled(*old(state)),
            accepted ==> old(state).record_moved(
                *final(state),
                self.key@,
                PrecheckerOperationState::Decoded { contents: self.contents },
                Some(self.contents),
            ),
            !accepted ==> *final(state) == *old(state),
    {
        if !self.is_enabled(state) {
            return false;
        }
        let key = self.key.copy();
        state.prechecker.operations.advance(&key, PrecheckerOperationState::Decoded { contents: self.contents }, Some(self.contents));
        true
    }
}

/// Asks for the rights of the operation's level: accepted for a decoded endorsement.
#[derive(Debug)]
pub struct PrecheckerGetEndorsingRightsAction {
    pub key: Key,
}

impl PrecheckerGetEndorsingRightsAction {
    /// The guard.
    pub open spec fn enabled(&self, state: State) -> bool {
        state.prechecker.operations@.contains_key(self.key@) && {
            let record = state.prechecker.operations@[self.key@];
            record.state is Decoded && record.state->Decoded_contents.endorses()
        }
    }

    pub fn is_enabled(&self, state: &State) -> (yes: bool)
        requires
            state.wf(),
        ensures
            yes == self.enabled(*state),
    {
        match state.prechecker.operations.get(&self.key) {
            Some(record) => {
                match &record.state {
                    PrecheckerOperationState::Decoded { contents } => contents.is_endorsement(),
                    _ => false,
                }
            },
            None => false,
        }
    }

    /// The effect, where the guard holds.
    pub fn apply(self, state: &mut State) -> (accepted: bool)
        requires
            old(state).wf(),
        ensures
            accepted == self.enabled(*old(state)),
            accepted ==> old(state).record_moved(
                *final(state),
                self.key@,
                PrecheckerOperationState::PendingEndorsingRights,
                None,
            ),
            !accepted ==> *final(state) == *old(state),
    {
        if !self.is_enabled(state) {
            return false;
        }
        let key = self.key.copy();
        state.prechecker.operations.advance(&key, PrecheckerOperationState::PendingEndorsingRights, None);
        true
    }
}

/// Hands the operation to the full protocol: accepted for a decoded operation that is no endorsement.
#[derive(Debug)]
pub struct PrecheckerProtocolNeededAction {
    pub key: Key,
    pub protocol_data: serde_json::Value,
}

impl PrecheckerProtocolNeededAction {
    /// The guard.
    pub open spec fn enabled(&self, state: State) -> bool {
        state.prechecker.operations@.contains_key(self.key@) && {
            let record = state.prechecker.operations@[self.key@];
            record.state is Decoded && !record.state->Decoded_contents.endorses()
        }
    }

    pub fn is_enabled(&self, state: &State) -> (yes: bool)
        requires
            state.wf(),
        ensures
            yes == self.enabled(*state),
    {
        match state.prechecker.operations.get(&self.key) {
            Some(record) => {
                match &record.state {
                    PrecheckerOperationState::Decoded { contents } => !contents.is_endorsement(),
                    _ => false,
                }
            },
            None => false,
        }
    }

    /// The effect, where the guard holds.
    pub fn apply(self, state: &mut State) -> (accepted: bool)
        requires
            old(state).wf(),
        ensures
            accepted == self.enabled(*old(state)),
            accepted ==> old(state).record_moved(
                *final(state),
                self.key@,
                PrecheckerOperationState::ProtocolNeeded { protocol_data: self.protocol_data },
                None,
            ),
            !accepted ==> *final(state) == *old(state),
    {
        if !self.is_enabled(state) {
            return false;
        }
        let key = self.key.copy();
        state.prechecker.operations.advance(&key, PrecheckerOperationState::ProtocolNeeded { protocol_data: self.protocol_data }, None);
        true
    }
}

/// Delivers rights: accepted for a record that waits for rights, which then holds them.
#[derive(Debug)]
pub struct PrecheckerEndorsingRightsReadyAction {
    pub key: Key,
    pub endorsing_rights: EndorsingRights,
}

impl PrecheckerEndorsingRightsReadyAction {
    /// The guard.
    pub open spec fn enabled(&self, state: State) -> bool {
        state.prechecker.operations@.contains_key(self.key@) && {
            let record = state.prechecker.operations@[self.key@];
            record.state is PendingEndorsingRights
        }
    }

    pub fn is_enabled(&self, state: &State) -> (yes: bool)
        requires
            state.wf(),
        ensures
            yes == self.enabled(*state),
    {
        match state.prechecker.operations.get(&self.key) {
            Some(record) => {
                match &record.state {
                    PrecheckerOperationState::PendingEndorsingRights => true,
                    _ => false,
                }
            },
            None => false,
        }
    }

    /// The effect, where the guard holds.
    pub fn apply(self, state: &mut State) -> (accepted: bool)
        requires
            old(state).wf(),
        ensures
            accepted == self.enabled(*old(state)),
            accepted ==> old(state).record_moved(
                *final(state),
                self.key@,
                PrecheckerOperationState::EndorsingRightsReady { rights: self.endorsing_rights },
                None,
            ),
            !accepted ==> *final(state) == *old(state),
    {
        if !self.is_enabled(state) {
            return false;
        }
        let key = self.key.copy();
        state.prechecker.operations.advance(&key, PrecheckerOperationState::EndorsingRightsReady { rights: self.endorsing_rights }, None);
        true
    }
}

/// Starts the validation: accepted for a record that holds its rights.
#[derive(Debug)]
pub struct PrecheckerValidateEndorsementAction {
    pub key: Key,
}

impl PrecheckerValidateEndorsementAction {
    /// The guard.
    pub open spec fn enabled(&self, state: State) -> bool {
        state.prechecker.operations@.contains_key(self.key@) && {
            let record = state.prechecker.operations@[self.key@];
            record.state is EndorsingRightsReady
        }
    }

    pub fn is_enabled(&self, state: &State) -> (yes: bool)
        requires
            state.wf(),
        ensures
            yes == self.enabled(*state),
    {
        match state.prechecker.operations.get(&self.key) {
            Some(record) => {
                match &record.state {
                    PrecheckerOperationState::EndorsingRightsReady { .. } => true,
                    _ => false,
                }
            },
            None => false,
        }
    }

    /// The effect, where the guard holds.
    pub fn apply(self, state: &mut State) -> (accepted: bool)
        requires
            old(state).wf(),
        ensures
            accepted == self.enabled(*old(state)),
            accepted ==> old(state).record_moved(
                *final(state),
                self.key@,
                PrecheckerOperationState::ValidatingEndorsement,
                None,
            ),
            !accepted ==> *final(state) == *old(state),
    {
        if !self.is_enabled(state) {
            return false;
        }
        let key = self.key.copy();
        state.prechecker.operations.advance(&key, PrecheckerOperationState::ValidatingEndorsement, None);
        true
    }
}

/// Parks the validation until a block of `level` is applied: accepted while the endorsement is being validated.
#[derive(Debug)]
pub struct PrecheckerWaitForBlockApplicationAction {
    pub key: Key,
    pub level: Level,
}

impl PrecheckerWaitForBlockApplicationAction {
    /// The guard.
    pub open spec fn enabled(&self, state: State) -> bool {
        state.prechecker.operations@.contains_key(self.key@) && {
            let record = state.prechecker.operations@[self.key@];
            record.state is ValidatingEndorsement
        }
    }

    pub fn is_enabled(&self, state: &State) -> (yes: bool)
        requires
            state.wf(),
        ensures
            yes == self.enabled(*state),
    {
        match state.prechecker.operations.get(&self.key) {
            Some(record) => {
                match &record.state {
                    PrecheckerOperationState::ValidatingEndorsement => true,
                    _ => false,
                }
            },
            None => false,
        }
    }

    /// The effect, where the guard holds.
    pub fn apply(self, state: &mut State) -> (accepted: bool)
        requires
            old(state).wf(),
        ensures
            accepted == self.enabled(*old(state)),
            accepted ==> old(state).record_moved(
                *final(state),
                self.key@,
                PrecheckerOperationState::PendingBlockApplication { level: self.level },
                None,
            ),
            !accepted ==> *final(state) == *old(state),
    {
        if !self.is_enabled(state) {
            return false;
        }
        let key = self.key.copy();
        state.prechecker.operations.advance(&key, PrecheckerOperationState::PendingBlockApplication { level: self.level }, None);
        true
    }
}

/// The endorsement is valid: accepted while it is being validated or is parked on a block.
#[derive(Debug)]
pub struct PrecheckerEndorsementValidationAppliedAction {
    pub key: Key,
    pub protocol_data: serde_json::Value,
}

impl PrecheckerEndorsementValidationAppliedAction {
    /// The guard.
    pub open spec fn enabled(&self, state: State) -> bool {
        state.prechecker.operations@.contains_key(self.key@) && {
            let record = state.prechecker.operations@[self.key@];
            record.state.validating()
        }
    }

    pub fn is_enabled(&self, state: &State) -> (yes: bool)
        requires
            state.wf(),
        ensures
            yes == self.enabled(*state),
    {
        match state.prechecker.operations.get(&self.key) {
            Some(record) => {
                record.state.is_validating()
            },
            None => false,
        }
    }

    /// The effect, where the guard holds.
    pub fn apply(self, state: &mut State) -> (accepted: bool)
        requires
            old(state).wf(),
        ensures
            accepted == self.enabled(*old(state)),
            accepted ==> old(state).record_moved(
                *final(state),
                self.key@,
                PrecheckerOperationState::Applied { hash: self.key.operation, protocol_data: self.protocol_data },
                None,
            ),
            !accepted ==> *final(state) == *old(state),
    {
        if !self.is_enabled(state) {
            return false;
        }
        let key = self.key.copy();
        state.prechecker.operations.advance(&key, PrecheckerOperationState::Applied { hash: self.key.operation, protocol_data: self.protocol_data }, None);
        true
    }
}

/// The endorsement is invalid: accepted while it is being validated or is parked on a block.
#[derive(Debug)]
pub struct PrecheckerEndorsementValidationRefusedAction {
    pub key: Key,
    pub protocol_data: serde_json::Value,
    pub error: EndorsementValidationError,
}

impl PrecheckerEndorsementValidationRefusedAction {
    /// The guard.
    pub open spec fn enabled(&self, state: State) -> bool {
        state.prechecker.operations@.contains_key(self.key@) && {
            let record = state.prechecker.operations@[self.key@];
            record.state.validating()
        }
    }

    pub fn is_enabled(&self, state: &State) -> (yes: bool)
        requires
            state.wf(),
        ensures
            yes == self.enabled(*state),
    {
        match state.prechecker.operations.get(&self.key) {
            Some(record) => {
                record.state.is_validating()
            },
            None => false,
        }
    }

    /// The effect, where the guard holds.
    pub fn apply(self, state: &mut State) -> (accepted: bool)
        requires
            old(state).wf(),
        ensures
            accepted == self.enabled(*old(state)),
            accepted ==> old(state).record_moved(
                *final(state),
                self.key@,
                PrecheckerOperationState::Refused { hash: self.key.operation, protocol_data: self.protocol_data, error: self.error },
                None,
            ),
            !accepted ==> *final(state) == *old(state),
    {
        if !self.is_enabled(state) {
            return false;
        }
        let key = self.key.copy();
        state.prechecker.operations.advance(&key, PrecheckerOperationState::Refused { hash: self.key.operation, protocol_data: self.protocol_data, error: self.error }, None);
        true
    }
}

/// A step failed: accepted for a record that has no outcome yet, which then ends in `Error`.
#[derive(Debug)]
pub struct PrecheckerErrorAction {
    pub key: Key,
    pub error: PrecheckerError,
}

impl PrecheckerErrorAction {
    /// The guard.
    pub open spec fn enabled(&self, state: State) -> bool {
        state.prechecker.operations@.contains_key(self.key@) && {
            let record = state.prechecker.operations@[self.key@];
            !record.state.terminal()
        }
    }

    pub fn is_enabled(&self, state: &State) -> (yes: bool)
        requires
            state.wf(),
        ensures
            yes == self.enabled(*state),
    {
        match state.prechecker.operations.get(&self.key) {
            Some(record) => {
                !record.state.is_terminal()
            },
            None => false,
        }
    }

    /// The effect, where the guard holds.
    pub fn apply(self, state: &mut State) -> (accepted: bool)
        requires
            old(state).wf(),
        ensures
            accepted == self.enabled(*old(state)),
            accepted ==> old(state).record_moved(
                *final(state),
                self.key@,
                PrecheckerOperationState::Error { error: self.error },
                None,
            ),
            !accepted ==> *final(state) == *old(state),
    {
        if !self.is_enabled(state) {
            return false;
        }
        let key = self.key.copy();
        state.prechecker.operations.advance(&key, PrecheckerOperationState::Error { error: self.error }, None);
        true
    }
}

impl PrecheckerErrorAction {
    /// The action that fails the record under `key` with `error`.
    pub fn new(key: Key, error: PrecheckerError) -> (action: Self)
        ensures
            action.key == key,
            action.error == error,
    {
        PrecheckerErrorAction { key, error }
    }
}

impl PrecheckerValidateEndorsementAction {
    /// What the validation of the record's endorsement comes to, given what
    /// the check of its signature said: nothing where the guard does not
    /// hold or nothing was decoded, else the verdict of the record's rights.
    pub open spec fn outcome(&self, state: State, signature_valid: bool) -> Option<
        Result<(), EndorsementValidationError>,
    > {
        if self.enabled(state) && state.prechecker.operations@[self.key@].decoded_contents.is_some() {
            let record = state.prechecker.operations@[self.key@];
            Some(
                crate::operation::endorsement_verdict(
                    record.state->EndorsingRightsReady_rights,
                    record.decoded_contents.unwrap(),
                    signature_valid,
                ),
            )
        } else {
            None
        }
    }

    pub fn verdict(&self, state: &State, signature_valid: bool) -> (verdict: Option<
        Result<(), EndorsementValidationError>,
    >)
        requires
            state.wf(),
        ensures
            verdict == self.outcome(*state, signature_valid),
    {
        match state.prechecker.operations.get(&self.key) {
            Some(record) => match (&record.state, &record.decoded_contents) {
                (PrecheckerOperationState::EndorsingRightsReady { rights }, Some(contents)) => Some(
                    rights.validate_endorsement(contents, signature_valid),
                ),
                _ => None,
            },
            None => None,
        }
    }
}

} // verus!
