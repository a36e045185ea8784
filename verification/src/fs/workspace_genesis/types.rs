//! Genesis commands, records and errors.

use crate::fs::export_authority::types::ExportIdentity;
use crate::fs::export_authority::types::ExportIdentityModel;
use crate::fs::workspace_operation::types::CanonicalRequestDigest;
use crate::fs::workspace_operation::types::OperationErrorModel;
use crate::fs::workspace_operation::types::OperationRecordModel;
use crate::fs::workspace_operation::types::WorkspaceOperationError;
use crate::fs::workspace_operation::types::WorkspaceOperationKey;
use crate::fs::workspace_operation::types::WorkspaceOperationKeyModel;
use crate::fs::workspace_operation::types::WorkspaceOperationRecord;
use crate::outside::bytes_clone;
use crate::outside::contents;
use crate::wire::same_bytes;
use bytes::Bytes;
use vstd::prelude::*;
use vstd::slice::slice_to_vec;

verus! {

/// SHA-256 digest of a root object's bytes.
#[derive(Debug, Clone, Copy, PartialEq, Eq)]
pub struct ContentDigest([u8; 32]);

impl View for ContentDigest {
    type V = Seq<u8>;

    closed spec fn view(&self) -> Seq<u8> {
        self.0@
    }
}

impl ContentDigest {
    pub fn new(bytes: [u8; 32]) -> (digest: Self)
        ensures
            digest@ == bytes@,
    {
        ContentDigest(bytes)
    }

    pub fn as_bytes(&self) -> (bytes: &[u8; 32])
        ensures
            bytes@ == self@,
    {
        &self.0
    }

    /// Whether two digests are equal.
    pub fn same(&self, other: &Self) -> (same: bool)
        ensures
            same == (self@ == other@),
    {
        same_bytes(&self.0, &other.0)
    }
}

/// Asks for a new workspace with an export of `advertised_size` bytes over the root object.
#[derive(Debug, PartialEq, Eq)]
pub struct GenesisCommand {
    pub operation: WorkspaceOperationKey,
    pub request_digest: CanonicalRequestDigest,
    pub actor: String,
    pub actor_generation: u64,
    pub export_name: Vec<u8>,
    pub advertised_size: u64,
    pub root_digest: ContentDigest,
    pub root_bytes: Bytes,
}

/// The value of `GenesisCommand`.
pub struct GenesisCommandModel {
    pub operation: WorkspaceOperationKeyModel,
    pub request_digest: Seq<u8>,
    pub actor: Seq<char>,
    pub actor_generation: u64,
    pub export_name: Seq<u8>,
    pub advertised_size: u64,
    pub root_digest: Seq<u8>,
    pub root_bytes: Seq<u8>,
}

impl View for GenesisCommand {
    type V = GenesisCommandModel;

    open spec fn view(&self) -> GenesisCommandModel {
        GenesisCommandModel {
            operation: self.operation@,
            request_digest: self.request_digest@,
            actor: self.actor@,
            actor_generation: self.actor_generation,
            export_name: self.export_name@,
            advertised_size: self.advertised_size,
            root_digest: self.root_digest@,
            root_bytes: contents(self.root_bytes),
        }
    }
}

impl Clone for GenesisCommand {
    fn clone(&self) -> (copy: Self)
        ensures
            copy@ == self@,
    {
        GenesisCommand {
            operation: self.operation.clone(),
            request_digest: self.request_digest,
            actor: self.actor.clone(),
            actor_generation: self.actor_generation,
            export_name: slice_to_vec(&self.export_name),
            advertised_size: self.advertised_size,
            root_digest: self.root_digest,
            root_bytes: bytes_clone(&self.root_bytes),
        }
    }
}

/// The immutable result of a genesis.
#[derive(Debug, PartialEq, Eq)]
pub struct GenesisDomainRecord {
    pub workspace_id: String,
    pub actor: String,
    pub actor_generation: u64,
    pub request_digest: CanonicalRequestDigest,
    pub root_digest: ContentDigest,
    pub root_object_key: String,
    pub export: ExportIdentity,
}

/// The value of `GenesisDomainRecord`.
pub struct GenesisDomainRecordModel {
    pub workspace_id: Seq<char>,
    pub actor: Seq<char>,
    pub actor_generation: u64,
    pub request_digest: Seq<u8>,
    pub root_digest: Seq<u8>,
    pub root_object_key: Seq<char>,
    pub export: ExportIdentityModel,
}

impl View for GenesisDomainRecord {
    type V = GenesisDomainRecordModel;

    open spec fn view(&self) -> GenesisDomainRecordModel {
        GenesisDomainRecordModel {
            workspace_id: self.workspace_id@,
            actor: self.actor@,
            actor_generation: self.actor_generation,
            request_digest: self.request_digest@,
            root_digest: self.root_digest@,
            root_object_key: self.root_object_key@,
            export: self.export@,
        }
    }
}

impl Clone for GenesisDomainRecord {
    fn clone(&self) -> (copy: Self)
        ensures
            copy@ == self@,
    {
        GenesisDomainRecord {
            workspace_id: self.workspace_id.clone(),
            actor: self.actor.clone(),
            actor_generation: self.actor_generation,
            request_digest: self.request_digest,
            root_digest: self.root_digest,
            root_object_key: self.root_object_key.clone(),
            export: self.export.clone(),
        }
    }
}

impl GenesisDomainRecord {
    /// Whether two values are equal.
    pub fn same(&self, other: &Self) -> (same: bool)
        ensures
            same == (self@ == other@),
    {
        self.workspace_id == other.workspace_id
            && self.actor == other.actor
            && self.actor_generation == other.actor_generation
            && self.request_digest.same(&other.request_digest)
            && self.root_digest.same(&other.root_digest)
            && self.root_object_key == other.root_object_key
            && self.export.same(&other.export)
    }
}

/// A genesis record with the place at which it became durable.
#[derive(Debug, PartialEq, Eq)]
pub struct GenesisDurabilityReceipt {
    pub record: GenesisDomainRecord,
    pub writer_epoch: u64,
    pub durable_seq: u64,
}

/// The value of `GenesisDurabilityReceipt`.
pub struct GenesisDurabilityReceiptModel {
    pub record: GenesisDomainRecordModel,
    pub writer_epoch: u64,
    pub durable_seq: u64,
}

impl View for GenesisDurabilityReceipt {
    type V = GenesisDurabilityReceiptModel;

    open spec fn view(&self) -> GenesisDurabilityReceiptModel {
        GenesisDurabilityReceiptModel {
            record: self.record@,
            writer_epoch: self.writer_epoch,
            durable_seq: self.durable_seq,
        }
    }
}

impl Clone for GenesisDurabilityReceipt {
    fn clone(&self) -> (copy: Self)
        ensures
            copy@ == self@,
    {
        GenesisDurabilityReceipt {
            record: self.record.clone(),
            writer_epoch: self.writer_epoch,
            durable_seq: self.durable_seq,
        }
    }
}

/// What a genesis request came to.
#[derive(Debug, PartialEq, Eq)]
pub enum GenesisMaterializeResult {
    Materialized(GenesisDurabilityReceipt),
    AlreadyTerminal(WorkspaceOperationRecord),
}

/// The value of `GenesisMaterializeResult`.
pub enum GenesisMaterializeModel {
    Materialized(GenesisDurabilityReceiptModel),
    AlreadyTerminal(OperationRecordModel),
}

impl View for GenesisMaterializeResult {
    type V = GenesisMaterializeModel;

    open spec fn view(&self) -> GenesisMaterializeModel {
        match *self {
            GenesisMaterializeResult::Materialized(receipt) => GenesisMaterializeModel::Materialized(
                receipt@,
            ),
            GenesisMaterializeResult::AlreadyTerminal(record) => {
                GenesisMaterializeModel::AlreadyTerminal(record@)
            },
        }
    }
}

/// Why a genesis request was refused.
#[derive(Debug, Clone, Copy, PartialEq, Eq, Structural)]
pub enum GenesisError {
    /// Invalid input.
    Invalid,
    /// The request conflicts with durable state.
    Conflict,
    /// The record is corrupt.
    Corrupt,
    /// The commit outcome is unknown; use durable readback.
    CommitOutcomeUnknown,
    /// The object-store outcome is unknown.
    ObjectOutcomeUnknown,
    /// Storage failure.
    Storage,
}

/// What is reported of a refusal in words.
pub open spec fn genesis_message(error: GenesisError) -> Seq<char> {
    match error {
        GenesisError::Invalid => "invalid Workspace genesis input"@,
        GenesisError::Conflict => "Workspace genesis request conflicts with durable state"@,
        GenesisError::Corrupt => "Workspace genesis record is corrupt"@,
        GenesisError::CommitOutcomeUnknown => "Workspace genesis commit outcome is unknown; use durable readback"@,
        GenesisError::ObjectOutcomeUnknown => "Workspace genesis object-store outcome is unknown"@,
        GenesisError::Storage => "Workspace genesis storage failure"@,
    }
}

impl GenesisError {
    /// The error in words.
    pub fn message(self) -> (text: &'static str)
        ensures
            text@ == genesis_message(self),
    {
        match self {
            GenesisError::Invalid => "invalid Workspace genesis input",
            GenesisError::Conflict => "Workspace genesis request conflicts with durable state",
            GenesisError::Corrupt => "Workspace genesis record is corrupt",
            GenesisError::CommitOutcomeUnknown => "Workspace genesis commit outcome is unknown; use durable readback",
            GenesisError::ObjectOutcomeUnknown => "Workspace genesis object-store outcome is unknown",
            GenesisError::Storage => "Workspace genesis storage failure",
        }
    }
}

/// How a genesis reports a ledger error.
pub open spec fn genesis_error(error: OperationErrorModel) -> GenesisError {
    match error {
        OperationErrorModel::RequestConflict
        | OperationErrorModel::TerminalImmutable => GenesisError::Conflict,
        OperationErrorModel::CommitOutcomeUnknown => GenesisError::CommitOutcomeUnknown,
        OperationErrorModel::InvalidIdentity(_) => GenesisError::Invalid,
        OperationErrorModel::CorruptRecord(_) => GenesisError::Corrupt,
        OperationErrorModel::Storage(_) => GenesisError::Storage,
    }
}

impl From<WorkspaceOperationError> for GenesisError {
    fn from(error: WorkspaceOperationError) -> (result: Self) {
        match error {
            WorkspaceOperationError::RequestConflict
            | WorkspaceOperationError::TerminalImmutable => GenesisError::Conflict,
            WorkspaceOperationError::CommitOutcomeUnknown => GenesisError::CommitOutcomeUnknown,
            WorkspaceOperationError::InvalidIdentity(_) => GenesisError::Invalid,
            WorkspaceOperationError::CorruptRecord(_) => GenesisError::Corrupt,
            WorkspaceOperationError::Storage(_) => GenesisError::Storage,
        }
    }
}

impl vstd::std_specs::convert::FromSpecImpl<WorkspaceOperationError> for GenesisError {
    open spec fn obeys_from_spec() -> bool {
        true
    }

    open spec fn from_spec(error: WorkspaceOperationError) -> GenesisError {
        genesis_error(error@)
    }
}

} // verus!
