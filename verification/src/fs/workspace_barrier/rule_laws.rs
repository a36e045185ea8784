//! When commands, heads and receipts are valid and belong together, said of what goes in
//! and what comes out.

use super::digests::claim_matches;
use super::digests::command_digest;
use super::digests::effect_claim;
use super::digests::head_digest;
use super::digests::initial_head;
use super::digests::is_canonical_v4;
use super::digests::next_head;
use super::digests::receipt_digest;
use super::rules::authority_matches;
use super::rules::command_from_receipt;
use super::rules::ensure_receipt_matches_command;
use super::rules::genesis_matches;
use super::rules::validate_command;
use super::rules::validate_head_record;
use super::rules::validate_id;
use super::rules::validate_receipt;
use super::rules::validate_token;
use super::types::BarrierCommand;
use super::types::BarrierDurabilityReceipt;
use super::types::BarrierError;
use super::types::BarrierGenesis;
use super::types::HeadDigest;
use super::types::WorkspaceHeadRecord;
use crate::fs::export_authority::mutation_laws::names_something;
use crate::fs::export_authority::rule_laws::is_identifier;
use crate::fs::export_authority::rule_laws::lemma_identifiers;
use crate::fs::export_authority::types::ExportAuthorityRecord;
use crate::fs::export_authority::types::MutationFenceToken;
use crate::outside::contents;
use crate::outside::sha256;
use crate::text::hyphenated;
use crate::wire::be_bytes;
use bytes::Bytes;
use vstd::prelude::*;
use vstd::utf8::encode_utf8;

verus! {

/// The kind of operation that makes barriers.
pub open spec fn is_barrier_kind(kind: i32) -> bool {
    kind == 4
}

/// A token that names everything it stands for, with nothing unset.
pub open spec fn is_complete(token: MutationFenceToken) -> bool {
    &&& is_identifier(token.workspace_id@)
    &&& is_identifier(token.authority.actor@)
    &&& is_identifier(token.authority.home_cell@)
    &&& is_identifier(token.session_id@)
    &&& is_identifier(token.capability_id@)
    &&& is_identifier(token.node_incarnation_id@)
    &&& is_identifier(token.runtime_id@)
    &&& is_identifier(token.server_boot_id@)
    &&& token.authority.actor_generation > 0
    &&& token.authority.home_revision > 0
    &&& token.authority.authority_epoch > 0
    &&& token.authority.placement_epoch > 0
    &&& token.authority.assignment_revision > 0
    &&& token.expires_at_unix_millis > 0
    &&& token.export.nbd_directory_inode > 0
    &&& token.export.inode > 0
    &&& token.export.name@.len() > 0
    &&& token.export.advertised_size > 0
}

/// An identifier and a token are valid exactly if they name what they stand for.
pub proof fn law_tokens_are_complete(
    value: &str,
    token: &MutationFenceToken,
    named: Result<(), BarrierError>,
    complete: Result<(), BarrierError>,
)
    requires
        call_ensures(validate_id, (value,), named),
        call_ensures(validate_token, (token,), complete),
    ensures
        named is Ok <==> is_identifier(value@),
        named matches Err(e) ==> e == BarrierError::Invalid,
        complete is Ok <==> is_complete(*token),
        complete matches Err(e) ==> e == BarrierError::Invalid,
{
    lemma_identifiers();
}

/// A command is valid exactly if it is a barrier of the workspace that its complete token is
/// for, and says which head it expects and where the storage is.
pub proof fn law_commands_are_barriers_of_their_workspace(
    command: &BarrierCommand,
    result: Result<(), BarrierError>,
)
    requires
        call_ensures(validate_command, (command,), result),
    ensures
        result is Ok <==> {
            &&& is_identifier(command.operation.workspace_id@)
            &&& is_identifier(command.operation.request_id@)
            &&& is_identifier(command.storage_shard_id@)
            &&& is_complete(command.token)
            &&& is_barrier_kind(command.operation.kind)
            &&& command.operation.workspace_id@ == command.token.workspace_id@
            &&& command.storage_routing_revision > 0
            &&& names_something(command.expected_head_digest.0@)
        },
        result matches Err(e) ==> e == BarrierError::Invalid,
{
    lemma_identifiers();
}

/// A receipt answers the command that has its parts, of the kind that makes barriers.
pub proof fn law_receipt_tells_its_command(
    receipt: &BarrierDurabilityReceipt,
    command: BarrierCommand,
)
    requires
        call_ensures(command_from_receipt, (receipt,), command),
    ensures
        command.operation.workspace_id@ == receipt.workspace_id@,
        is_barrier_kind(command.operation.kind),
        command.operation.request_id@ == receipt.request_id@,
        command.request_digest@ == receipt.request_digest@,
        command.token@ == receipt.token@,
        command.expected_head_digest@ == receipt.expected_head_digest@,
        command.storage_shard_id@ == receipt.storage_shard_id@,
        command.storage_routing_revision == receipt.storage_routing_revision,
{
}

/// A receipt is valid exactly if it is named and its parts belong together: its identity is
/// canonical, its claim is for it and its command, its head is of its workspace, ends at
/// the cut and is not the first, the cut is durable somewhere, the time is one, and the
/// digest covers it. A receipt without names is invalid, and one that does not hold
/// together corrupt.
pub proof fn law_receipts_hold_together(
    receipt: &BarrierDurabilityReceipt,
    command: BarrierCommand,
    claim: &[u8],
    barrier_id: &str,
    canonical: bool,
    claimed: bool,
    digest: [u8; 32],
    result: Result<(), BarrierError>,
)
    requires
        call_ensures(validate_receipt, (receipt,), result),
        call_ensures(command_from_receipt, (receipt,), command),
        claim@ == contents(receipt.effect_claim),
        barrier_id@ == receipt.barrier_id@,
        call_ensures(is_canonical_v4, (barrier_id,), canonical),
        call_ensures(claim_matches, (claim, &command, barrier_id), claimed),
        call_ensures(receipt_digest, (receipt,), digest),
    ensures
        ({
            let named = is_identifier(receipt.workspace_id@) && is_identifier(receipt.request_id@)
                && is_identifier(receipt.barrier_id@) && is_identifier(receipt.storage_shard_id@)
                && is_complete(receipt.token);
            let coherent = {
                &&& canonical
                &&& claimed
                &&& receipt.workspace_id@ == receipt.token.workspace_id@
                &&& receipt.head.workspace_id@ == receipt.workspace_id@
                &&& receipt.head.committed_tail_position == receipt.included_write_sequence
                &&& receipt.head.workspace_version >= 2
                &&& receipt.zerofs_writer_epoch > 0
                &&& receipt.zerofs_manifest_id > 0
                &&& receipt.zerofs_durable_sequence > 0
                &&& receipt.storage_routing_revision > 0
                &&& receipt.committed_at_nanos < 1_000_000_000
                &&& receipt.receipt_digest@ == digest@
            };
            &&& !named ==> (result matches Err(BarrierError::Invalid))
            &&& named && !coherent ==> (result matches Err(BarrierError::Corrupt))
            &&& named && coherent ==> result is Ok
        }),
{
    lemma_identifiers();
}

/// A receipt is taken for the answer to a command exactly if it is valid and has every part
/// of the command; a valid receipt of another command is a conflict.
pub proof fn law_receipt_answers_its_own_command(
    receipt: &BarrierDurabilityReceipt,
    command: &BarrierCommand,
    valid: Result<(), BarrierError>,
    result: Result<(), BarrierError>,
)
    requires
        call_ensures(validate_receipt, (receipt,), valid),
        call_ensures(ensure_receipt_matches_command, (receipt, command), result),
    ensures
        valid is Err ==> result == valid,
        valid is Ok ==> {
            let own = {
                &&& receipt.workspace_id@ == command.operation.workspace_id@
                &&& receipt.request_id@ == command.operation.request_id@
                &&& receipt.request_digest@ == command.request_digest@
                &&& receipt.token@ == command.token@
                &&& receipt.expected_head_digest@ == command.expected_head_digest@
                &&& receipt.storage_shard_id@ == command.storage_shard_id@
                &&& receipt.storage_routing_revision == command.storage_routing_revision
            };
            &&& own ==> result is Ok
            &&& !own ==> (result matches Err(BarrierError::Conflict))
        },
{
}

/// A head is valid exactly if it is named, has begun, has a root and a chain, its tail does
/// not lie before its root, and the request of a barrier is named together with its digest.
pub proof fn law_heads_have_root_chain_and_tail(
    record: &WorkspaceHeadRecord,
    result: Result<(), BarrierError>,
)
    requires
        call_ensures(validate_head_record, (record,), result),
    ensures
        ({
            let named = is_identifier(record.head.workspace_id@) && is_identifier(
                record.head.object_lineage@,
            );
            let coherent = {
                &&& record.head.workspace_version > 0
                &&& names_something(record.head.base_root_digest@)
                &&& names_something(record.head.tail_chain_digest@)
                &&& record.head.committed_tail_position >= record.head.base_root_position
                &&& record.last_barrier_request_id is Some
                    == record.last_barrier_request_digest is Some
            };
            let requested = record.last_barrier_request_id matches Some(id) ==> is_identifier(id@);
            &&& !named ==> (result matches Err(BarrierError::Invalid))
            &&& named && !coherent ==> (result matches Err(BarrierError::Corrupt))
            &&& named && coherent && !requested ==> (result matches Err(BarrierError::Invalid))
            &&& named && coherent && requested ==> result is Ok
        }),
{
    lemma_identifiers();
}

/// A command presents the live session of a record exactly if the record is of its
/// workspace, export and authority, and has the very session of its token, of this process
/// and not ended. It is then told how far that session has committed.
pub proof fn law_live_session_tells_how_far_it_committed(
    record: &ExportAuthorityRecord,
    command: &BarrierCommand,
    server_boot_id: &str,
    now: u64,
    result: Result<u64, BarrierError>,
)
    requires
        call_ensures(authority_matches, (record, command, server_boot_id, now), result),
    ensures
        result is Ok <==> {
            &&& record.workspace_id@ == command.operation.workspace_id@
            &&& record.export@ == command.token.export@
            &&& record.authority@ == command.token.authority@
            &&& record.active_session matches Some(session)
            &&& session.session_id@ == command.token.session_id@
            &&& session.capability_id@ == command.token.capability_id@
            &&& session.expires_at_unix_millis == command.token.expires_at_unix_millis
            &&& session.node_incarnation_id@ == command.token.node_incarnation_id@
            &&& session.runtime_id@ == command.token.runtime_id@
            &&& session.server_boot_id@ == command.token.server_boot_id@
            &&& session.server_boot_id@ == server_boot_id@
            &&& session.expires_at_unix_millis > now
        },
        result matches Ok(sequence) ==> (record.active_session matches Some(session) && sequence
            == session.committed_through_sequence),
        result matches Err(e) ==> e == BarrierError::Conflict,
{
}

/// A command is of a genesis exactly if it names the workspace, actor, home, storage and
/// export that the genesis created.
pub proof fn law_command_is_of_its_genesis(
    genesis: &BarrierGenesis,
    command: &BarrierCommand,
    result: Result<(), BarrierError>,
)
    requires
        call_ensures(genesis_matches, (genesis, command), result),
    ensures
        result is Ok <==> {
            &&& genesis.workspace_id@ == command.operation.workspace_id@
            &&& genesis.actor@ == command.token.authority.actor@
            &&& genesis.actor_generation == command.token.authority.actor_generation
            &&& genesis.home_cell@ == command.token.authority.home_cell@
            &&& genesis.storage_shard_id@ == command.storage_shard_id@
            &&& genesis.storage_routing_revision == command.storage_routing_revision
            &&& genesis.export@ == command.token.export@
        },
        result matches Err(e) ==> e == BarrierError::Conflict,
{
}

/// The first head of a workspace is its root with nothing behind it, which no barrier made.
pub proof fn law_first_head_is_the_root(genesis: &BarrierGenesis, record: WorkspaceHeadRecord)
    requires
        call_ensures(initial_head, (genesis,), record),
    ensures
        record.head.workspace_id@ == genesis.workspace_id@,
        record.head.base_root_digest@ == genesis.root_digest@,
        record.head.base_root_position == 0,
        record.head.committed_tail_position == 0,
        record.head.workspace_version == 1,
        record.head.object_lineage@ == genesis.object_lineage@,
        record.last_barrier_request_id is None,
        record.last_barrier_request_digest is None,
        ({
            let workspace = encode_utf8(genesis.workspace_id@);
            let lineage = encode_utf8(genesis.object_lineage@);
            record.head.tail_chain_digest@ == sha256(
                encode_utf8("rhizome.workspace-head.initial.v1\0"@) + ((be_bytes(
                    workspace.len(),
                    8,
                ) + workspace) + ((be_bytes(lineage.len(), 8) + lineage)
                    + genesis.root_digest@)),
            )@
        }),
{
}

/// A barrier makes the next version of a head, with the tail at its cut. Workspace, root and
/// lineage stay; the chain covers the head before, the command and the whole cut; and the
/// barrier's request is noted. It fails exactly if the cut lies before the tail or there is
/// no next version, and the head is then corrupt.
pub proof fn law_next_head_ends_at_the_cut(
    current: &WorkspaceHeadRecord,
    command: &BarrierCommand,
    included_write_sequence: u64,
    writer_epoch: u64,
    manifest_id: u64,
    durable_sequence: u64,
    before: HeadDigest,
    asked: [u8; 32],
    result: Result<WorkspaceHeadRecord, BarrierError>,
)
    requires
        call_ensures(
            next_head,
            (
                current,
                command,
                included_write_sequence,
                writer_epoch,
                manifest_id,
                durable_sequence,
            ),
            result,
        ),
        call_ensures(head_digest, (&current.head,), before),
        call_ensures(command_digest, (command,), asked),
    ensures
        result is Ok <==> included_write_sequence >= current.head.committed_tail_position
            && current.head.workspace_version < u64::MAX,
        result matches Err(e) ==> e == BarrierError::Corrupt,
        result matches Ok(next) ==> {
            &&& next.head.workspace_id@ == current.head.workspace_id@
            &&& next.head.base_root_digest@ == current.head.base_root_digest@
            &&& next.head.base_root_position == current.head.base_root_position
            &&& next.head.object_lineage@ == current.head.object_lineage@
            &&& next.head.committed_tail_position == included_write_sequence
            &&& next.head.workspace_version == current.head.workspace_version + 1
            &&& next.last_barrier_request_id matches Some(id) && id@
                == command.operation.request_id@
            &&& next.last_barrier_request_digest matches Some(digest) && digest@
                == command.request_digest@
            &&& next.head.tail_chain_digest@ == sha256(
                encode_utf8("rhizome.workspace-head.barrier.v1\0"@) + (before.0@ + (asked@ + (
                be_bytes(included_write_sequence as nat, 8) + (be_bytes(writer_epoch as nat, 8) + (
                be_bytes(manifest_id as nat, 8) + be_bytes(durable_sequence as nat, 8)))))),
            )@
        },
{
}

/// The identity of a barrier is canonical exactly if it is a random UUID in its hyphenated
/// lower-case form.
pub proof fn law_canonical_identities_are_random_uuids(text: &str, canonical: bool)
    requires
        call_ensures(is_canonical_v4, (text,), canonical),
    ensures
        canonical <==> exists|id: [u8; 16]|
            text@ == #[trigger] hyphenated(id@) && 0x40 <= id@[6] < 0x50,
{
    if canonical {
        let id = choose|id: [u8; 16]| text@ == #[trigger] hyphenated(id@) && id@[6] / 16 == 4;
        assert(text@ == hyphenated(id@));
    }
    if exists|id: [u8; 16]| text@ == #[trigger] hyphenated(id@) && 0x40 <= id@[6] < 0x50 {
        let id = choose|id: [u8; 16]| text@ == #[trigger] hyphenated(id@) && 0x40 <= id@[6] < 0x50;
        assert(text@ == hyphenated(id@));
    }
}

/// The claim that is made for a barrier, by whoever has a canonical name, authorizes it; it
/// authorizes no barrier of another identity.
pub proof fn law_claim_is_for_its_barrier(
    command: &BarrierCommand,
    barrier_id: &str,
    installer_id: &str,
    other_id: &str,
    claim: Bytes,
    bytes: &[u8],
    named: bool,
    installed: bool,
    own: bool,
    other: bool,
)
    requires
        call_ensures(effect_claim, (command, barrier_id, installer_id), claim),
        bytes@ == contents(claim),
        call_ensures(is_canonical_v4, (barrier_id,), named),
        call_ensures(is_canonical_v4, (installer_id,), installed),
        call_ensures(claim_matches, (bytes, command, barrier_id), own),
        call_ensures(claim_matches, (bytes, command, other_id), other),
    ensures
        named && installed ==> own,
        !named ==> !own,
        own && other ==> other_id@ == barrier_id@,
{
    if own && other {
        super::laws::law_claim_authorizes_one_barrier(
            bytes@,
            command@,
            barrier_id@,
            command@,
            other_id@,
        );
    }
}

} // verus!
