//! One operation in flight: what was received, what was decoded from it, and
//! the step of the precheck that it has reached.

use vstd::prelude::*;
use crate::hash::{bytes_equal, BlockHash, Level, OperationHash};

verus! {

/// Identity of one precheck attempt.
#[derive(Debug)]
pub struct Key {
    pub operation: OperationHash,
}

impl View for Key {
    type V = Seq<u8>;

    open spec fn view(&self) -> Seq<u8> {
        self.operation@
    }
}

impl Key {
    pub fn new(operation: OperationHash) -> (key: Self)
        ensures
            key@ == operation@,
    {
        Key { operation }
    }

    pub fn same_as(&self, other: &Key) -> (same: bool)
        ensures
            same == (self@ == other@),
    {
        bytes_equal(&self.operation.bytes, &other.operation.bytes)
    }

    pub fn copy(&self) -> (key: Self)
        ensures
            key@ == self@,
    {
        Key { operation: self.operation.copy() }
    }
}

/// An operation as a peer sent it.
#[derive(Debug)]
pub struct Operation {
    pub branch: BlockHash,
    pub data: Vec<u8>,
}

/// The operation as received, with its canonical binary encoding.
#[derive(Debug)]
pub struct RawOperation {
    pub operation: Operation,
    pub binary_encoding: Vec<u8>,
}

/// The two classes of operation that the fast path tells apart.
#[derive(Debug, Clone, Copy, PartialEq, Eq, Structural)]
pub enum OperationKind {
    Endorsement,
    Other,
}

/// What decoding found in an operation's signed content.
#[derive(Debug, Clone, Copy, PartialEq, Eq, Structural)]
pub struct OperationDecodedContents {
    pub kind: OperationKind,
    pub level: Level,
    pub slot: u16,
    pub delegate: u32,
}

impl OperationDecodedContents {
    pub open spec fn endorses(&self) -> bool {
        self.kind == OperationKind::Endorsement
    }

    pub fn is_endorsement(&self) -> (yes: bool)
        ensures
            yes == self.endorses(),
    {
        self.kind == OperationKind::Endorsement
    }
}

/// Who may endorse at one level: the delegate that owns each slot, by slot.
#[derive(Debug)]
pub struct EndorsingRights {
    pub level: Level,
    pub slot_owners: Vec<u32>,
}

/// Why a decoded endorsement was refused.
#[derive(Debug, Clone, Copy, PartialEq, Eq, Structural)]
pub enum EndorsementValidationError {
    BadSignature,
    WrongSlot,
    NonMember,
}

/// The three internal failures of a precheck.
#[derive(Debug, Clone, Copy, PartialEq, Eq, Structural)]
pub enum PrecheckerError {
    Decode,
    RightsFetch,
    ProtocolResolution,
}

/// What the rights of a level say of a decoded endorsement whose signature
/// was checked elsewhere.
pub open spec fn endorsement_verdict(
    rights: EndorsingRights,
    contents: OperationDecodedContents,
    signature_valid: bool,
) -> Result<(), EndorsementValidationError> {
    if contents.slot >= rights.slot_owners@.len() {
        Err(EndorsementValidationError::WrongSlot)
    } else if rights.slot_owners@[contents.slot as int] != contents.delegate {
        Err(EndorsementValidationError::NonMember)
    } else if !signature_valid {
        Err(EndorsementValidationError::BadSignature)
    } else {
        Ok(())
    }
}

impl EndorsingRights {
    pub fn new(level: Level, slot_owners: Vec<u32>) -> (rights: Self)
        ensures
            rights.level == level,
            rights.slot_owners == slot_owners,
    {
        EndorsingRights { level, slot_owners }
    }

    /// A fresh value with the same level and owners.
    pub fn copy(&self) -> (rights: Self)
        ensures
            rights.level == self.level,
            rights.slot_owners@ == self.slot_owners@,
    {
        let mut owners: Vec<u32> = Vec::new();
        let mut i: usize = 0;
        while i < self.slot_owners.len()
            invariant
                i <= self.slot_owners@.len(),
                owners@ == self.slot_owners@.subrange(0, i as int),
            decreases self.slot_owners@.len() - i,
        {
            owners.push(self.slot_owners[i]);
            assert(owners@ =~= self.slot_owners@.subrange(0, i + 1));
            i += 1;
        }
        assert(owners@ =~= self.slot_owners@);
        EndorsingRights { level: self.level, slot_owners: owners }
    }

    /// Slot and membership checks, then the signature's verdict.
    pub fn validate_endorsement(
        &self,
        contents: &OperationDecodedContents,
        signature_valid: bool,
    ) -> (verdict: Result<(), EndorsementValidationError>)
        ensures
            verdict == endorsement_verdict(*self, *contents, signature_valid),
    {
        let slot: usize = contents.slot as usize;
        if slot >= self.slot_owners.len() {
            Err(EndorsementValidationError::WrongSlot)
        } else if self.slot_owners[slot] != contents.delegate {
            Err(EndorsementValidationError::NonMember)
        } else if !signature_valid {
            Err(EndorsementValidationError::BadSignature)
        } else {
            Ok(())
        }
    }
}

/// The step that one operation has reached.
#[derive(Debug)]
#[allow(inconsistent_fields)]
pub enum PrecheckerOperationState {
    Init,
    PendingProtocolVersion,
    ProtocolVersionReady,
    Decoding,
    Decoded { contents: OperationDecodedContents },
    PendingEndorsingRights,
    EndorsingRightsReady { rights: EndorsingRights },
    ValidatingEndorsement,
    PendingBlockApplication { level: Level },
    Applied { hash: OperationHash, protocol_data: serde_json::Value },
    Refused { hash: OperationHash, protocol_data: serde_json::Value, error: EndorsementValidationError },
    ProtocolNeeded { protocol_data: serde_json::Value },
    Error { error: PrecheckerError },
}

impl PrecheckerOperationState {
    /// Place of a state in the order of the steps; the four outcomes share
    /// the last place.
    pub open spec fn rank(&self) -> nat {
        match self {
            PrecheckerOperationState::Init => 0,
            PrecheckerOperationState::PendingProtocolVersion => 1,
            PrecheckerOperationState::ProtocolVersionReady => 2,
            PrecheckerOperationState::Decoding => 3,
            PrecheckerOperationState::Decoded { .. } => 4,
            PrecheckerOperationState::PendingEndorsingRights => 5,
            PrecheckerOperationState::EndorsingRightsReady { .. } => 6,
            PrecheckerOperationState::ValidatingEndorsement => 7,
            PrecheckerOperationState::PendingBlockApplication { .. } => 8,
            PrecheckerOperationState::Applied { .. } => 9,
            PrecheckerOperationState::Refused { .. } => 9,
            PrecheckerOperationState::ProtocolNeeded { .. } => 9,
            PrecheckerOperationState::Error { .. } => 9,
        }
    }

    /// An outcome: no step leads on from it.
    pub open spec fn terminal(&self) -> bool {
        self.rank() == 9
    }

    /// One of the three outcomes that decide the operation.
    pub open spec fn decided(&self) -> bool {
        self is Applied || self is Refused || self is ProtocolNeeded
    }

    /// Validation is under way or parked on a block.
    pub open spec fn validating(&self) -> bool {
        self is ValidatingEndorsement || self is PendingBlockApplication
    }

    pub fn is_terminal(&self) -> (yes: bool)
        ensures
            yes == self.terminal(),
    {
        match self {
            PrecheckerOperationState::Applied { .. } => true,
            PrecheckerOperationState::Refused { .. } => true,
            PrecheckerOperationState::ProtocolNeeded { .. } => true,
            PrecheckerOperationState::Error { .. } => true,
            _ => false,
        }
    }

    pub fn is_decided(&self) -> (yes: bool)
        ensures
            yes == self.decided(),
    {
        match self {
            PrecheckerOperationState::Applied { .. } => true,
            PrecheckerOperationState::Refused { .. } => true,
            PrecheckerOperationState::ProtocolNeeded { .. } => true,
            _ => false,
        }
    }

    pub fn is_validating(&self) -> (yes: bool)
        ensures
            yes == self.validating(),
    {
        match self {
            PrecheckerOperationState::ValidatingEndorsement => true,
            PrecheckerOperationState::PendingBlockApplication { .. } => true,
            _ => false,
        }
    }
}

/// One record of the operation table.
#[derive(Debug)]
pub struct PrecheckerOperation {
    pub raw_operation: RawOperation,
    pub decoded_contents: Option<OperationDecodedContents>,
    pub state: PrecheckerOperationState,
}

impl PrecheckerOperation {
    /// A record for an operation that was just received.
    pub fn new(operation: Operation, binary_encoding: Vec<u8>) -> (record: Self)
        ensures
            record.state is Init,
            record.decoded_contents.is_none(),
            record.raw_operation.operation == operation,
            record.raw_operation.binary_encoding == binary_encoding,
    {
        PrecheckerOperation {
            raw_operation: RawOperation { operation, binary_encoding },
            decoded_contents: None,
            state: PrecheckerOperationState::Init,
        }
    }
}

} // verus!
