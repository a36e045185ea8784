//! What makes commands, heads and receipts valid, and which of them belong together.

use super::digests::claim_matches;
use super::digests::claims;
use super::digests::canonical_v4;
use super::digests::is_canonical_v4;
use super::digests::receipt_digest;
use super::digests::receipt_sha256;
use super::types::BarrierCommand;
use super::types::BarrierCommandModel;
use super::types::BarrierDurabilityReceipt;
use super::types::BarrierDurabilityReceiptModel;
use super::types::BarrierError;
use super::types::BarrierGenesis;
use super::types::BarrierGenesisModel;
use super::types::WorkspaceHeadRecord;
use super::types::WorkspaceHeadRecordModel;
use super::types::CREATE_BARRIER_KIND;
use crate::fs::export_authority::mutation::all_zero;
use crate::fs::export_authority::mutation::is_zero;
use crate::fs::export_authority::rules::valid_id;
use crate::fs::export_authority::types::ExportAuthorityRecord;
use crate::fs::export_authority::types::ExportAuthorityRecordModel;
use crate::fs::export_authority::types::MutationFenceToken;
use crate::fs::export_authority::types::MutationFenceTokenModel;
use crate::fs::workspace_operation::types::CanonicalRequestDigest;
use crate::fs::workspace_operation::types::WorkspaceOperationKey;
use crate::fs::workspace_operation::types::WorkspaceOperationKeyModel;
use crate::outside::bytes_slice;
use crate::wire::contains_byte;
use crate::wire::same_bytes;
use crate::wire::same_str;
use vstd::prelude::*;

verus! {

const MAX_ID_BYTES: usize = 1024;

/// `Ok` if there is no fault.
pub open spec fn outcome(fault: Option<BarrierError>) -> Result<(), BarrierError> {
    match fault {
        None => Ok(()),
        Some(error) => Err(error),
    }
}

pub fn validate_id(value: &str) -> (result: Result<(), BarrierError>)
    ensures
        result == (if valid_id(value@) {
            Ok::<(), BarrierError>(())
        } else {
            Err(BarrierError::Invalid)
        }),
{
    if value.is_empty() || value.as_bytes().len() > MAX_ID_BYTES || contains_byte(
        value.as_bytes(),
        0,
    ) {
        Err(BarrierError::Invalid)
    } else {
        Ok(())
    }
}

/// A token names everything it stands for, and nothing in it is unset.
pub open spec fn valid_token(token: MutationFenceTokenModel) -> bool {
    &&& valid_id(token.workspace_id)
    &&& valid_id(token.authority.actor)
    &&& valid_id(token.authority.home_cell)
    &&& valid_id(token.session_id)
    &&& valid_id(token.capability_id)
    &&& valid_id(token.node_incarnation_id)
    &&& valid_id(token.runtime_id)
    &&& valid_id(token.server_boot_id)
    &&& token.authority.actor_generation != 0
    &&& token.authority.home_revision != 0
    &&& token.authority.authority_epoch != 0
    &&& token.authority.placement_epoch != 0
    &&& token.authority.assignment_revision != 0
    &&& token.expires_at_unix_millis != 0
    &&& token.export.nbd_directory_inode != 0
    &&& token.export.inode != 0
    &&& token.export.name.len() > 0
    &&& token.export.advertised_size != 0
}

pub fn validate_token(token: &MutationFenceToken) -> (result: Result<(), BarrierError>)
    ensures
        result == (if valid_token(token@) {
            Ok::<(), BarrierError>(())
        } else {
            Err(BarrierError::Invalid)
        }),
{
    validate_id(&token.workspace_id)?;
    validate_id(&token.authority.actor)?;
    validate_id(&token.authority.home_cell)?;
    validate_id(&token.session_id)?;
    validate_id(&token.capability_id)?;
    validate_id(&token.node_incarnation_id)?;
    validate_id(&token.runtime_id)?;
    validate_id(&token.server_boot_id)?;
    if token.authority.actor_generation == 0 || token.authority.home_revision == 0
        || token.authority.authority_epoch == 0 || token.authority.placement_epoch == 0
        || token.authority.assignment_revision == 0 || token.expires_at_unix_millis == 0
        || token.export.nbd_directory_inode == 0 || token.export.inode == 0
        || token.export.name.len() == 0 || token.export.advertised_size == 0 {
        return Err(BarrierError::Invalid);
    }
    Ok(())
}

/// A command is a barrier of the workspace that its token is for, and says which head it
/// expects and where the storage is.
pub open spec fn valid_command(command: BarrierCommandModel) -> bool {
    &&& valid_id(command.operation.workspace_id)
    &&& valid_id(command.operation.request_id)
    &&& valid_id(command.storage_shard_id)
    &&& valid_token(command.token)
    &&& command.operation.kind == CREATE_BARRIER_KIND
    &&& command.operation.workspace_id == command.token.workspace_id
    &&& command.storage_routing_revision != 0
    &&& !is_zero(command.expected_head_digest)
}

pub fn validate_command(command: &BarrierCommand) -> (result: Result<(), BarrierError>)
    ensures
        result == (if valid_command(command@) {
            Ok::<(), BarrierError>(())
        } else {
            Err(BarrierError::Invalid)
        }),
{
    validate_id(&command.operation.workspace_id)?;
    validate_id(&command.operation.request_id)?;
    validate_id(&command.storage_shard_id)?;
    validate_token(&command.token)?;
    if command.operation.kind != CREATE_BARRIER_KIND || !same_str(
        &command.operation.workspace_id,
        &command.token.workspace_id,
    ) || command.storage_routing_revision == 0 || all_zero(&command.expected_head_digest.0) {
        return Err(BarrierError::Invalid);
    }
    Ok(())
}

/// The command that a receipt answers.
pub open spec fn answered(receipt: BarrierDurabilityReceiptModel) -> BarrierCommandModel {
    BarrierCommandModel {
        operation: WorkspaceOperationKeyModel {
            workspace_id: receipt.workspace_id,
            kind: CREATE_BARRIER_KIND,
            request_id: receipt.request_id,
        },
        request_digest: receipt.request_digest,
        token: receipt.token,
        expected_head_digest: receipt.expected_head_digest,
        storage_shard_id: receipt.storage_shard_id,
        storage_routing_revision: receipt.storage_routing_revision,
    }
}

pub fn command_from_receipt(receipt: &BarrierDurabilityReceipt) -> (command: BarrierCommand)
    ensures
        command@ == answered(receipt@),
{
    BarrierCommand {
        operation: WorkspaceOperationKey::new(
            &receipt.workspace_id,
            CREATE_BARRIER_KIND,
            &receipt.request_id,
        ),
        request_digest: CanonicalRequestDigest::new(receipt.request_digest),
        token: receipt.token.clone(),
        expected_head_digest: receipt.expected_head_digest,
        storage_shard_id: receipt.storage_shard_id.clone(),
        storage_routing_revision: receipt.storage_routing_revision,
    }
}

/// A receipt names what it is about.
pub open spec fn named_receipt(receipt: BarrierDurabilityReceiptModel) -> bool {
    &&& valid_id(receipt.workspace_id)
    &&& valid_id(receipt.request_id)
    &&& valid_id(receipt.barrier_id)
    &&& valid_id(receipt.storage_shard_id)
    &&& valid_token(receipt.token)
}

/// The parts of a receipt belong together: its claim authorizes its barrier for the
/// command it answers, its head is the cut it reports, and its digest covers it.
pub open spec fn coherent_receipt(receipt: BarrierDurabilityReceiptModel) -> bool {
    &&& canonical_v4(receipt.barrier_id)
    &&& receipt.workspace_id == receipt.token.workspace_id
    &&& claims(receipt.effect_claim, answered(receipt), receipt.barrier_id)
    &&& receipt.head.workspace_id == receipt.workspace_id
    &&& receipt.head.committed_tail_position == receipt.included_write_sequence
    &&& receipt.head.workspace_version >= 2
    &&& receipt.zerofs_writer_epoch != 0
    &&& receipt.zerofs_manifest_id != 0
    &&& receipt.zerofs_durable_sequence != 0
    &&& receipt.storage_routing_revision != 0
    &&& receipt.committed_at_nanos < 1_000_000_000
    &&& receipt.receipt_digest == receipt_sha256(receipt)
}

/// A receipt that may be stored and believed.
pub open spec fn valid_receipt(receipt: BarrierDurabilityReceiptModel) -> bool {
    named_receipt(receipt) && coherent_receipt(receipt)
}

/// What is wrong with a receipt.
pub open spec fn receipt_fault(receipt: BarrierDurabilityReceiptModel) -> Option<BarrierError> {
    if !named_receipt(receipt) {
        Some(BarrierError::Invalid)
    } else if !coherent_receipt(receipt) {
        Some(BarrierError::Corrupt)
    } else {
        None
    }
}

pub fn validate_receipt(receipt: &BarrierDurabilityReceipt) -> (result: Result<(), BarrierError>)
    ensures
        result == outcome(receipt_fault(receipt@)),
{
    validate_id(&receipt.workspace_id)?;
    validate_id(&receipt.request_id)?;
    validate_id(&receipt.barrier_id)?;
    validate_id(&receipt.storage_shard_id)?;
    validate_token(&receipt.token)?;
    let command = command_from_receipt(receipt);
    let digest = receipt_digest(receipt);
    if !is_canonical_v4(&receipt.barrier_id) || !same_str(
        &receipt.workspace_id,
        &receipt.token.workspace_id,
    ) || !claim_matches(bytes_slice(&receipt.effect_claim), &command, &receipt.barrier_id)
        || !same_str(&receipt.head.workspace_id, &receipt.workspace_id)
        || receipt.head.committed_tail_position != receipt.included_write_sequence
        || receipt.head.workspace_version < 2 || receipt.zerofs_writer_epoch == 0
        || receipt.zerofs_manifest_id == 0 || receipt.zerofs_durable_sequence == 0
        || receipt.storage_routing_revision == 0 || receipt.committed_at_nanos >= 1_000_000_000
        || !same_bytes(&receipt.receipt_digest, &digest) {
        return Err(BarrierError::Corrupt);
    }
    Ok(())
}

/// A receipt answers a command: every part of the command is in it.
pub open spec fn answers(
    receipt: BarrierDurabilityReceiptModel,
    command: BarrierCommandModel,
) -> bool {
    &&& receipt.workspace_id == command.operation.workspace_id
    &&& receipt.request_id == command.operation.request_id
    &&& receipt.request_digest == command.request_digest
    &&& receipt.token == command.token
    &&& receipt.expected_head_digest == command.expected_head_digest
    &&& receipt.storage_shard_id == command.storage_shard_id
    &&& receipt.storage_routing_revision == command.storage_routing_revision
}

/// Why a receipt is no answer to a command.
pub open spec fn answer_fault(
    receipt: BarrierDurabilityReceiptModel,
    command: BarrierCommandModel,
) -> Option<BarrierError> {
    if receipt_fault(receipt) is Some {
        receipt_fault(receipt)
    } else if !answers(receipt, command) {
        Some(BarrierError::Conflict)
    } else {
        None
    }
}

pub fn ensure_receipt_matches_command(
    receipt: &BarrierDurabilityReceipt,
    command: &BarrierCommand,
) -> (result: Result<(), BarrierError>)
    ensures
        result == outcome(answer_fault(receipt@, command@)),
{
    validate_receipt(receipt)?;
    if !same_str(&receipt.workspace_id, &command.operation.workspace_id) || !same_str(
        &receipt.request_id,
        &command.operation.request_id,
    ) || !same_bytes(&receipt.request_digest, command.request_digest.as_bytes())
        || !receipt.token.same(&command.token) || !receipt.expected_head_digest.same(
        &command.expected_head_digest,
    ) || !same_str(&receipt.storage_shard_id, &command.storage_shard_id)
        || receipt.storage_routing_revision != command.storage_routing_revision {
        return Err(BarrierError::Conflict);
    }
    Ok(())
}

/// A head has begun, has a root and a chain, and its tail does not lie before its root.
/// A barrier's request is named together with its digest.
pub open spec fn coherent_head(record: WorkspaceHeadRecordModel) -> bool {
    &&& record.head.workspace_version != 0
    &&& !is_zero(record.head.base_root_digest)
    &&& !is_zero(record.head.tail_chain_digest)
    &&& record.head.committed_tail_position >= record.head.base_root_position
    &&& (record.last_barrier_request_id is Some <==> record.last_barrier_request_digest is Some)
}

/// What is wrong with a head.
pub open spec fn head_fault(record: WorkspaceHeadRecordModel) -> Option<BarrierError> {
    if !valid_id(record.head.workspace_id) || !valid_id(record.head.object_lineage) {
        Some(BarrierError::Invalid)
    } else if !coherent_head(record) {
        Some(BarrierError::Corrupt)
    } else if record.last_barrier_request_id is Some && !valid_id(
        record.last_barrier_request_id->0,
    ) {
        Some(BarrierError::Invalid)
    } else {
        None
    }
}

pub fn validate_head_record(record: &WorkspaceHeadRecord) -> (result: Result<(), BarrierError>)
    ensures
        result == outcome(head_fault(record@)),
{
    validate_id(&record.head.workspace_id)?;
    validate_id(&record.head.object_lineage)?;
    if record.head.workspace_version == 0 || all_zero(&record.head.base_root_digest) || all_zero(
        &record.head.tail_chain_digest,
    ) || record.head.committed_tail_position < record.head.base_root_position
        || record.last_barrier_request_id.is_some() != record.last_barrier_request_digest.is_some() {
        return Err(BarrierError::Corrupt);
    }
    if let Some(request_id) = &record.last_barrier_request_id {
        validate_id(request_id)?;
    }
    Ok(())
}

/// The session that a command presents is the record's own, and has not expired.
pub open spec fn presents_live_session(
    record: ExportAuthorityRecordModel,
    command: BarrierCommandModel,
    server_boot_id: Seq<char>,
    now: u64,
) -> bool {
    &&& record.workspace_id == command.operation.workspace_id
    &&& record.export == command.token.export
    &&& record.authority == command.token.authority
    &&& record.active_session matches Some(session)
    &&& session.session_id == command.token.session_id
    &&& session.capability_id == command.token.capability_id
    &&& session.expires_at_unix_millis == command.token.expires_at_unix_millis
    &&& session.node_incarnation_id == command.token.node_incarnation_id
    &&& session.runtime_id == command.token.runtime_id
    &&& session.server_boot_id == command.token.server_boot_id
    &&& session.server_boot_id == server_boot_id
    &&& session.expires_at_unix_millis > now
}

/// The sequence through which the session of a command has committed, if the command
/// presents the live session of the record.
pub fn authority_matches(
    record: &ExportAuthorityRecord,
    command: &BarrierCommand,
    server_boot_id: &str,
    now: u64,
) -> (result: Result<u64, BarrierError>)
    ensures
        if presents_live_session(record@, command@, server_boot_id@, now) {
            result == Ok::<u64, BarrierError>(record@.active_session->0.committed_through_sequence)
        } else {
            result == Err::<u64, BarrierError>(BarrierError::Conflict)
        },
{
    if !same_str(&record.workspace_id, &command.operation.workspace_id) || !record.export.same(
        &command.token.export,
    ) || !record.authority.same(&command.token.authority) {
        return Err(BarrierError::Conflict);
    }
    let session = match &record.active_session {
        Some(session) => session,
        None => {
            return Err(BarrierError::Conflict);
        },
    };
    if !same_str(&session.session_id, &command.token.session_id) || !same_str(
        &session.capability_id,
        &command.token.capability_id,
    ) || session.expires_at_unix_millis != command.token.expires_at_unix_millis || !same_str(
        &session.node_incarnation_id,
        &command.token.node_incarnation_id,
    ) || !same_str(&session.runtime_id, &command.token.runtime_id) || !same_str(
        &session.server_boot_id,
        &command.token.server_boot_id,
    ) || !same_str(&session.server_boot_id, server_boot_id) || session.expires_at_unix_millis
        <= now {
        return Err(BarrierError::Conflict);
    }
    Ok(session.committed_through_sequence)
}

/// A command is about the workspace that the genesis created, as it created it.
pub open spec fn of_genesis(genesis: BarrierGenesisModel, command: BarrierCommandModel) -> bool {
    &&& genesis.workspace_id == command.operation.workspace_id
    &&& genesis.actor == command.token.authority.actor
    &&& genesis.actor_generation == command.token.authority.actor_generation
    &&& genesis.home_cell == command.token.authority.home_cell
    &&& genesis.storage_shard_id == command.storage_shard_id
    &&& genesis.storage_routing_revision == command.storage_routing_revision
    &&& genesis.export == command.token.export
}

pub fn genesis_matches(genesis: &BarrierGenesis, command: &BarrierCommand) -> (result: Result<
    (),
    BarrierError,
>)
    ensures
        result == (if of_genesis(genesis@, command@) {
            Ok::<(), BarrierError>(())
        } else {
            Err(BarrierError::Conflict)
        }),
{
    if !same_str(&genesis.workspace_id, &command.operation.workspace_id) || !same_str(
        &genesis.actor,
        &command.token.authority.actor,
    ) || genesis.actor_generation != command.token.authority.actor_generation || !same_str(
        &genesis.home_cell,
        &command.token.authority.home_cell,
    ) || !same_str(&genesis.storage_shard_id, &command.storage_shard_id)
        || genesis.storage_routing_revision != command.storage_routing_revision
        || !genesis.export.same(&command.token.export) {
        return Err(BarrierError::Conflict);
    }
    Ok(())
}

} // verus!
