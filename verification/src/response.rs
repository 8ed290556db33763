//! What the prechecker reports of an operation, and the forms in which a
//! decision is handed on to the validation pipeline.

use vstd::prelude::*;
use crate::hash::OperationHash;
use crate::json::{document_kind, is_endorsement_kind, json_text, kind_of, names_endorsement, written};
use crate::operation::{EndorsementValidationError, PrecheckerError};
use crate::state::State;

verus! {

/// An accepted operation, as the validation pipeline takes it.
#[derive(Debug)]
pub struct Applied {
    pub hash: OperationHash,
    pub protocol_data_json: String,
}

/// An operation's protocol data and the error found in it, both as text.
#[derive(Debug)]
pub struct OperationProtocolDataJsonWithErrorListJson {
    pub protocol_data_json: String,
    pub error_json: String,
}

/// A rejected operation, as the validation pipeline takes it.
#[derive(Debug)]
pub struct Errored {
    pub hash: OperationHash,
    pub is_endorsement: Option<bool>,
    pub protocol_data_json_with_error_json: OperationProtocolDataJsonWithErrorListJson,
}

/// The operation can be applied.
#[derive(Debug)]
pub struct PrecheckerApplied {
    pub hash: OperationHash,
    pub protocol_data: serde_json::Value,
}

/// The operation cannot be applied.
#[derive(Debug)]
pub struct PrecheckerErrored {
    pub hash: OperationHash,
    pub protocol_data: serde_json::Value,
    pub error: String,
}

/// The prechecker cannot decide; the protocol's own validation is needed.
#[derive(Debug)]
pub struct PrecheckerPrevalidate {
    pub hash: OperationHash,
}

/// What is reported as an error: the prechecker failed, or the operation
/// was refused.
#[derive(Debug, Clone, Copy, PartialEq, Eq, Structural)]
pub enum PrecheckerResponseError {
    Precheck(PrecheckerError),
    Refused(EndorsementValidationError),
}

#[derive(Debug)]
pub enum PrecheckerPrecheckOperationResponse {
    /// The operation can be applied.
    Applied(PrecheckerApplied),
    /// The operation cannot be applied.
    Refused(PrecheckerErrored),
    /// The prechecker cannot decide whether the operation is correct.
    Prevalidate(PrecheckerPrevalidate),
    /// An error occurred while the operation was prechecked.
    Error(PrecheckerResponseError),
}

/// Reports the outcome of a precheck. Always accepted.
#[derive(Debug)]
pub struct PrecheckerPrecheckOperationResponseAction {
    pub response: PrecheckerPrecheckOperationResponse,
}

/// Whether protocol data is that of an endorsement: known where the data is
/// an object with a string under `kind`, and true for the two kinds that
/// name an endorsement.
pub open spec fn endorsement_flag(protocol_data: serde_json::Value) -> Option<bool> {
    match kind_of(protocol_data) {
        Some(kind) => Some(names_endorsement(kind)),
        None => None,
    }
}

impl PrecheckerApplied {
    pub fn as_applied(&self) -> (applied: Applied)
        ensures
            applied.hash@ == self.hash@,
            applied.protocol_data_json@ == json_text(self.protocol_data),
    {
        Applied { hash: self.hash.copy(), protocol_data_json: written(&self.protocol_data) }
    }
}

impl PrecheckerErrored {
    pub fn is_endorsement(&self) -> (flag: Option<bool>)
        ensures
            flag == endorsement_flag(self.protocol_data),
    {
        match document_kind(&self.protocol_data) {
            Some(kind) => Some(is_endorsement_kind(&kind)),
            None => None,
        }
    }

    pub fn as_errored(&self) -> (errored: Errored)
        ensures
            errored.hash@ == self.hash@,
            errored.is_endorsement == endorsement_flag(self.protocol_data),
            errored.protocol_data_json_with_error_json.protocol_data_json@ == json_text(self.protocol_data),
            errored.protocol_data_json_with_error_json.error_json@ == self.error@,
    {
        Errored {
            hash: self.hash.copy(),
            is_endorsement: self.is_endorsement(),
            protocol_data_json_with_error_json: OperationProtocolDataJsonWithErrorListJson {
                protocol_data_json: written(&self.protocol_data),
                error_json: self.error.clone(),
            },
        }
    }
}

impl PrecheckerPrecheckOperationResponseAction {
    pub fn is_enabled(&self, state: &State) -> (yes: bool)
        ensures
            yes,
    {
        true
    }

    /// The report that an operation can be applied.
    pub fn valid(operation_hash: &OperationHash, protocol_data: serde_json::Value) -> (action: Self)
        ensures
            action.response matches PrecheckerPrecheckOperationResponse::Applied(applied)
                && applied.hash@ == operation_hash@ && applied.protocol_data == protocol_data,
    {
        let applied = PrecheckerApplied { hash: operation_hash.copy(), protocol_data };
        PrecheckerPrecheckOperationResponseAction { response: PrecheckerPrecheckOperationResponse::Applied(applied) }
    }

    /// The report that an operation cannot be applied, and why.
    pub fn reject(operation_hash: &OperationHash, protocol_data: serde_json::Value, error: String) -> (action: Self)
        ensures
            action.response matches PrecheckerPrecheckOperationResponse::Refused(errored)
                && errored.hash@ == operation_hash@ && errored.protocol_data == protocol_data
                && errored.error == error,
    {
        let errored = PrecheckerErrored { hash: operation_hash.copy(), error, protocol_data };
        PrecheckerPrecheckOperationResponseAction { response: PrecheckerPrecheckOperationResponse::Refused(errored) }
    }

    /// The report that the prechecker cannot decide.
    pub fn prevalidate(operation_hash: &OperationHash) -> (action: Self)
        ensures
            action.response matches PrecheckerPrecheckOperationResponse::Prevalidate(p)
                && p.hash@ == operation_hash@,
    {
        PrecheckerPrecheckOperationResponseAction {
            response: PrecheckerPrecheckOperationResponse::Prevalidate(
                PrecheckerPrevalidate { hash: operation_hash.copy() },
            ),
        }
    }

    /// The report of an error.
    pub fn error(error: PrecheckerResponseError) -> (action: Self)
        ensures
            action.response == PrecheckerPrecheckOperationResponse::Error(error),
    {
        PrecheckerPrecheckOperationResponseAction { response: PrecheckerPrecheckOperationResponse::Error(error) }
    }
}

} // verus!
