//! Barrier commands, heads, receipts and errors.

use crate::fs::export_authority::types::ExportIdentity;
use crate::fs::export_authority::types::ExportIdentityModel;
use crate::fs::export_authority::types::MutationFenceToken;
use crate::fs::export_authority::types::MutationFenceTokenModel;
use crate::fs::workspace_genesis::types::ContentDigest;
use crate::fs::workspace_operation::types::CanonicalRequestDigest;
use crate::fs::workspace_operation::types::OperationErrorModel;
use crate::fs::workspace_operation::types::WorkspaceOperationError;
use crate::fs::workspace_operation::types::WorkspaceOperationKey;
use crate::fs::workspace_operation::types::WorkspaceOperationKeyModel;
use crate::fs::workspace_operation::types::WorkspaceOperationRecord;
use crate::outside::bytes_clone;
use crate::outside::bytes_slice;
use crate::outside::contents;
use crate::wire::same_bytes;
use bytes::Bytes;
use vstd::prelude::*;

verus! {

/// The operation kind of a barrier.
pub const CREATE_BARRIER_KIND: i32 = 4;

/// SHA-256 digest of a workspace head.
#[derive(Debug, Clone, Copy, PartialEq, Eq)]
pub struct HeadDigest(pub [u8; 32]);

impl View for HeadDigest {
    type V = Seq<u8>;

    open spec fn view(&self) -> Seq<u8> {
        self.0@
    }
}

impl HeadDigest {
    /// Whether two values are equal.
    pub fn same(&self, other: &Self) -> (same: bool)
        ensures
            same == (self@ == other@),
    {
        same_bytes(&self.0, &other.0)
    }
}

/// What a workspace holds, as far as barriers have made it durable.
#[derive(Debug, PartialEq, Eq)]
pub struct WorkspaceHead {
    pub workspace_id: String,
    pub base_root_digest: [u8; 32],
    pub base_root_position: u64,
    pub committed_tail_position: u64,
    pub tail_chain_digest: [u8; 32],
    pub workspace_version: u64,
    pub object_lineage: String,
}

/// The value of `WorkspaceHead`.
pub struct WorkspaceHeadModel {
    pub workspace_id: Seq<char>,
    pub base_root_digest: Seq<u8>,
    pub base_root_position: u64,
    pub committed_tail_position: u64,
    pub tail_chain_digest: Seq<u8>,
    pub workspace_version: u64,
    pub object_lineage: Seq<char>,
}

impl View for WorkspaceHead {
    type V = WorkspaceHeadModel;

    open spec fn view(&self) -> WorkspaceHeadModel {
        WorkspaceHeadModel {
            workspace_id: self.workspace_id@,
            base_root_digest: self.base_root_digest@,
            base_root_position: self.base_root_position,
            committed_tail_position: self.committed_tail_position,
            tail_chain_digest: self.tail_chain_digest@,
            workspace_version: self.workspace_version,
            object_lineage: self.object_lineage@,
        }
    }
}

impl Clone for WorkspaceHead {
    fn clone(&self) -> (copy: Self)
        ensures
            copy@ == self@,
    {
        WorkspaceHead {
            workspace_id: self.workspace_id.clone(),
            base_root_digest: self.base_root_digest,
            base_root_position: self.base_root_position,
            committed_tail_position: self.committed_tail_position,
            tail_chain_digest: self.tail_chain_digest,
            workspace_version: self.workspace_version,
            object_lineage: self.object_lineage.clone(),
        }
    }
}

impl WorkspaceHead {
    /// Whether two values are equal.
    pub fn same(&self, other: &Self) -> (same: bool)
        ensures
            same == (self@ == other@),
    {
        self.workspace_id == other.workspace_id
            && same_bytes(&self.base_root_digest, &other.base_root_digest)
            && self.base_root_position == other.base_root_position
            && self.committed_tail_position == other.committed_tail_position
            && same_bytes(&self.tail_chain_digest, &other.tail_chain_digest)
            && self.workspace_version == other.workspace_version
            && self.object_lineage == other.object_lineage
    }
}

/// A head, and the barrier that made it, if one did.
#[derive(Debug, PartialEq, Eq)]
pub struct WorkspaceHeadRecord {
    pub head: WorkspaceHead,
    pub last_barrier_request_id: Option<String>,
    pub last_barrier_request_digest: Option<[u8; 32]>,
}

/// The value of `WorkspaceHeadRecord`.
pub struct WorkspaceHeadRecordModel {
    pub head: WorkspaceHeadModel,
    pub last_barrier_request_id: Option<Seq<char>>,
    pub last_barrier_request_digest: Option<Seq<u8>>,
}

impl View for WorkspaceHeadRecord {
    type V = WorkspaceHeadRecordModel;

    open spec fn view(&self) -> WorkspaceHeadRecordModel {
        WorkspaceHeadRecordModel {
            head: self.head@,
            last_barrier_request_id: match self.last_barrier_request_id {
                Some(inner) => Some(inner@),
                None => None,
            },
            last_barrier_request_digest: match self.last_barrier_request_digest {
                Some(inner) => Some(inner@),
                None => None,
            },
        }
    }
}

impl Clone for WorkspaceHeadRecord {
    fn clone(&self) -> (copy: Self)
        ensures
            copy@ == self@,
    {
        WorkspaceHeadRecord {
            head: self.head.clone(),
            last_barrier_request_id: match &self.last_barrier_request_id {
                Some(inner) => Some(inner.clone()),
                None => None,
            },
            last_barrier_request_digest: self.last_barrier_request_digest,
        }
    }
}

impl WorkspaceHeadRecord {
    /// Whether two values are equal.
    pub fn same(&self, other: &Self) -> (same: bool)
        ensures
            same == (self@ == other@),
    {
        self.head.same(&other.head)
            && (match (&self.last_barrier_request_id, &other.last_barrier_request_id) {
            (Some(a), Some(b)) => *a == *b,
            (None, None) => true,
            _ => false,
        })
            && (match (&self.last_barrier_request_digest, &other.last_barrier_request_digest) {
            (Some(a), Some(b)) => same_bytes(a, b),
            (None, None) => true,
            _ => false,
        })
    }
}

/// What barriers read of a workspace's genesis.
#[derive(Debug, PartialEq, Eq)]
pub struct BarrierGenesis {
    pub workspace_id: String,
    pub actor: String,
    pub actor_generation: u64,
    pub home_cell: String,
    pub object_lineage: String,
    pub storage_shard_id: String,
    pub storage_routing_revision: u64,
    pub root_digest: ContentDigest,
    pub export: ExportIdentity,
}

/// The value of `BarrierGenesis`.
pub struct BarrierGenesisModel {
    pub workspace_id: Seq<char>,
    pub actor: Seq<char>,
    pub actor_generation: u64,
    pub home_cell: Seq<char>,
    pub object_lineage: Seq<char>,
    pub storage_shard_id: Seq<char>,
    pub storage_routing_revision: u64,
    pub root_digest: Seq<u8>,
    pub export: ExportIdentityModel,
}

impl View for BarrierGenesis {
    type V = BarrierGenesisModel;

    open spec fn view(&self) -> BarrierGenesisModel {
        BarrierGenesisModel {
            workspace_id: self.workspace_id@,
            actor: self.actor@,
            actor_generation: self.actor_generation,
            home_cell: self.home_cell@,
            object_lineage: self.object_lineage@,
            storage_shard_id: self.storage_shard_id@,
            storage_routing_revision: self.storage_routing_revision,
            root_digest: self.root_digest@,
            export: self.export@,
        }
    }
}

impl Clone for BarrierGenesis {
    fn clone(&self) -> (copy: Self)
        ensures
            copy@ == self@,
    {
        BarrierGenesis {
            workspace_id: self.workspace_id.clone(),
            actor: self.actor.clone(),
            actor_generation: self.actor_generation,
            home_cell: self.home_cell.clone(),
            object_lineage: self.object_lineage.clone(),
            storage_shard_id: self.storage_shard_id.clone(),
            storage_routing_revision: self.storage_routing_revision,
            root_digest: self.root_digest,
            export: self.export.clone(),
        }
    }
}

/// Asks that every write through the session be made durable under a new head.
#[derive(Debug, PartialEq, Eq)]
pub struct BarrierCommand {
    pub operation: WorkspaceOperationKey,
    pub request_digest: CanonicalRequestDigest,
    pub token: MutationFenceToken,
    pub expected_head_digest: HeadDigest,
    pub storage_shard_id: String,
    pub storage_routing_revision: u64,
}

/// The value of `BarrierCommand`.
pub struct BarrierCommandModel {
    pub operation: WorkspaceOperationKeyModel,
    pub request_digest: Seq<u8>,
    pub token: MutationFenceTokenModel,
    pub expected_head_digest: Seq<u8>,
    pub storage_shard_id: Seq<char>,
    pub storage_routing_revision: u64,
}

impl View for BarrierCommand {
    type V = BarrierCommandModel;

    open spec fn view(&self) -> BarrierCommandModel {
        BarrierCommandModel {
            operation: self.operation@,
            request_digest: self.request_digest@,
            token: self.token@,
            expected_head_digest: self.expected_head_digest@,
            storage_shard_id: self.storage_shard_id@,
            storage_routing_revision: self.storage_routing_revision,
        }
    }
}

impl Clone for BarrierCommand {
    fn clone(&self) -> (copy: Self)
        ensures
            copy@ == self@,
    {
        BarrierCommand {
            operation: self.operation.clone(),
            request_digest: self.request_digest,
            token: self.token.clone(),
            expected_head_digest: self.expected_head_digest,
            storage_shard_id: self.storage_shard_id.clone(),
            storage_routing_revision: self.storage_routing_revision,
        }
    }
}

/// The immutable cut that a barrier made.
#[derive(Debug, PartialEq, Eq)]
pub struct BarrierDurabilityReceipt {
    pub workspace_id: String,
    pub request_id: String,
    pub request_digest: [u8; 32],
    pub effect_claim: Bytes,
    pub token: MutationFenceToken,
    pub expected_head_digest: HeadDigest,
    pub head: WorkspaceHead,
    pub barrier_id: String,
    pub included_write_sequence: u64,
    pub zerofs_writer_epoch: u64,
    pub zerofs_manifest_id: u64,
    pub zerofs_durable_sequence: u64,
    pub storage_shard_id: String,
    pub storage_routing_revision: u64,
    pub committed_at_unix_seconds: u64,
    pub committed_at_nanos: u32,
    pub receipt_digest: [u8; 32],
}

/// The value of `BarrierDurabilityReceipt`.
pub struct BarrierDurabilityReceiptModel {
    pub workspace_id: Seq<char>,
    pub request_id: Seq<char>,
    pub request_digest: Seq<u8>,
    pub effect_claim: Seq<u8>,
    pub token: MutationFenceTokenModel,
    pub expected_head_digest: Seq<u8>,
    pub head: WorkspaceHeadModel,
    pub barrier_id: Seq<char>,
    pub included_write_sequence: u64,
    pub zerofs_writer_epoch: u64,
    pub zerofs_manifest_id: u64,
    pub zerofs_durable_sequence: u64,
    pub storage_shard_id: Seq<char>,
    pub storage_routing_revision: u64,
    pub committed_at_unix_seconds: u64,
    pub committed_at_nanos: u32,
    pub receipt_digest: Seq<u8>,
}

impl View for BarrierDurabilityReceipt {
    type V = BarrierDurabilityReceiptModel;

    open spec fn view(&self) -> BarrierDurabilityReceiptModel {
        BarrierDurabilityReceiptModel {
            workspace_id: self.workspace_id@,
            request_id: self.request_id@,
            request_digest: self.request_digest@,
            effect_claim: contents(self.effect_claim),
            token: self.token@,
            expected_head_digest: self.expected_head_digest@,
            head: self.head@,
            barrier_id: self.barrier_id@,
            included_write_sequence: self.included_write_sequence,
            zerofs_writer_epoch: self.zerofs_writer_epoch,
            zerofs_manifest_id: self.zerofs_manifest_id,
            zerofs_durable_sequence: self.zerofs_durable_sequence,
            storage_shard_id: self.storage_shard_id@,
            storage_routing_revision: self.storage_routing_revision,
            committed_at_unix_seconds: self.committed_at_unix_seconds,
            committed_at_nanos: self.committed_at_nanos,
            receipt_digest: self.receipt_digest@,
        }
    }
}

impl Clone for BarrierDurabilityReceipt {
    fn clone(&self) -> (copy: Self)
        ensures
            copy@ == self@,
    {
        BarrierDurabilityReceipt {
            workspace_id: self.workspace_id.clone(),
            request_id: self.request_id.clone(),
            request_digest: self.request_digest,
            effect_claim: bytes_clone(&self.effect_claim),
            token: self.token.clone(),
            expected_head_digest: self.expected_head_digest,
            head: self.head.clone(),
            barrier_id: self.barrier_id.clone(),
            included_write_sequence: self.included_write_sequence,
            zerofs_writer_epoch: self.zerofs_writer_epoch,
            zerofs_manifest_id: self.zerofs_manifest_id,
            zerofs_durable_sequence: self.zerofs_durable_sequence,
            storage_shard_id: self.storage_shard_id.clone(),
            storage_routing_revision: self.storage_routing_revision,
            committed_at_unix_seconds: self.committed_at_unix_seconds,
            committed_at_nanos: self.committed_at_nanos,
            receipt_digest: self.receipt_digest,
        }
    }
}

impl BarrierDurabilityReceipt {
    /// Whether two values are equal.
    pub fn same(&self, other: &Self) -> (same: bool)
        ensures
            same == (self@ == other@),
    {
        self.workspace_id == other.workspace_id
            && self.request_id == other.request_id
            && same_bytes(&self.request_digest, &other.request_digest)
            && same_bytes(bytes_slice(&self.effect_claim), bytes_slice(&other.effect_claim))
            && self.token.same(&other.token)
            && self.expected_head_digest.same(&other.expected_head_digest)
            && self.head.same(&other.head)
            && self.barrier_id == other.barrier_id
            && self.included_write_sequence == other.included_write_sequence
            && self.zerofs_writer_epoch == other.zerofs_writer_epoch
            && self.zerofs_manifest_id == other.zerofs_manifest_id
            && self.zerofs_durable_sequence == other.zerofs_durable_sequence
            && self.storage_shard_id == other.storage_shard_id
            && self.storage_routing_revision == other.storage_routing_revision
            && self.committed_at_unix_seconds == other.committed_at_unix_seconds
            && self.committed_at_nanos == other.committed_at_nanos
            && same_bytes(&self.receipt_digest, &other.receipt_digest)
    }
}

/// What a barrier request came to.
#[derive(Debug, PartialEq, Eq)]
pub enum BarrierMaterializeResult {
    Materialized(Box<BarrierDurabilityReceipt>),
    AlreadyTerminal(WorkspaceOperationRecord),
}

/// Asks the writer to make a barrier's cut.
#[derive(Debug)]
pub struct WorkspaceBarrierRequest {
    pub command: BarrierCommand,
    pub effect_claim: Bytes,
    pub barrier_id: String,
}

/// Why a barrier request was refused.
#[derive(Debug, Clone, Copy, PartialEq, Eq, Structural)]
pub enum BarrierError {
    /// Invalid input.
    Invalid,
    /// The request conflicts with durable state.
    Conflict,
    /// The barrier graph is corrupt.
    Corrupt,
    /// The outcome is unknown; use exact durable readback.
    CommitOutcomeUnknown,
    /// Storage failure.
    Storage,
}

/// What is reported of a refusal in words.
pub open spec fn barrier_message(error: BarrierError) -> Seq<char> {
    match error {
        BarrierError::Invalid => "invalid Workspace barrier input"@,
        BarrierError::Conflict => "Workspace barrier request conflicts with durable state"@,
        BarrierError::Corrupt => "Workspace barrier graph is corrupt"@,
        BarrierError::CommitOutcomeUnknown => "Workspace barrier outcome is unknown; use exact durable readback"@,
        BarrierError::Storage => "Workspace barrier storage failure"@,
    }
}

impl BarrierError {
    /// The error in words.
    pub fn message(self) -> (text: &'static str)
        ensures
            text@ == barrier_message(self),
    {
        match self {
            BarrierError::Invalid => "invalid Workspace barrier input",
            BarrierError::Conflict => "Workspace barrier request conflicts with durable state",
            BarrierError::Corrupt => "Workspace barrier graph is corrupt",
            BarrierError::CommitOutcomeUnknown => "Workspace barrier outcome is unknown; use exact durable readback",
            BarrierError::Storage => "Workspace barrier storage failure",
        }
    }
}

/// How a barrier reports a ledger error.
pub open spec fn barrier_error(error: OperationErrorModel) -> BarrierError {
    match error {
        OperationErrorModel::InvalidIdentity(_) => BarrierError::Invalid,
        OperationErrorModel::RequestConflict
        | OperationErrorModel::TerminalImmutable => BarrierError::Conflict,
        OperationErrorModel::CorruptRecord(_) => BarrierError::Corrupt,
        OperationErrorModel::CommitOutcomeUnknown => BarrierError::CommitOutcomeUnknown,
        OperationErrorModel::Storage(_) => BarrierError::Storage,
    }
}

impl From<WorkspaceOperationError> for BarrierError {
    fn from(error: WorkspaceOperationError) -> (result: Self) {
        match error {
            WorkspaceOperationError::InvalidIdentity(_) => BarrierError::Invalid,
            WorkspaceOperationError::RequestConflict
            | WorkspaceOperationError::TerminalImmutable => BarrierError::Conflict,
            WorkspaceOperationError::CorruptRecord(_) => BarrierError::Corrupt,
            WorkspaceOperationError::CommitOutcomeUnknown => BarrierError::CommitOutcomeUnknown,
            WorkspaceOperationError::Storage(_) => BarrierError::Storage,
        }
    }
}

impl vstd::std_specs::convert::FromSpecImpl<WorkspaceOperationError> for BarrierError {
    open spec fn obeys_from_spec() -> bool {
        true
    }

    open spec fn from_spec(error: WorkspaceOperationError) -> BarrierError {
        barrier_error(error@)
    }
}

} // verus!
