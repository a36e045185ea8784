//! What every digest covers, part by part and in order.

use super::export_authority::mutation::command_digest as mutation_digest;
use super::export_authority::mutation::command_fields;
use super::export_authority::types::AuthorityVersion;
use super::export_authority::types::DataChecksum;
use super::export_authority::types::ExportMutationCommand;
use super::export_authority::types::MutationFenceToken;
use super::key_codec::be_i32;
use super::workspace_barrier::digests::claim_bytes;
use super::workspace_barrier::digests::claim_matches;
use super::workspace_barrier::digests::command_digest;
use super::workspace_barrier::digests::effect_claim;
use super::workspace_barrier::digests::head_digest;
use super::workspace_barrier::digests::is_canonical_v4;
use super::workspace_barrier::digests::receipt_cut_fields;
use super::workspace_barrier::digests::receipt_digest;
use super::workspace_barrier::digests::token_fields;
use super::workspace_barrier::types::BarrierCommand;
use super::workspace_barrier::types::BarrierDurabilityReceipt;
use super::workspace_barrier::types::HeadDigest;
use super::workspace_barrier::types::WorkspaceHead;
use crate::outside::contents;
use crate::outside::sha256;
use crate::text::hyphenated;
use crate::wire::be_bytes;
use bytes::Bytes;
use vstd::prelude::*;
use vstd::utf8::encode_utf8;

verus! {

/// A number in eight bytes.
pub open spec fn number(n: u64) -> Seq<u8> {
    be_bytes(n as nat, 8)
}

/// Bytes behind their number.
pub open spec fn counted(bytes: Seq<u8>) -> Seq<u8> {
    be_bytes(bytes.len(), 8) + bytes
}

/// The bytes of a text behind their number.
pub open spec fn words(text: Seq<char>) -> Seq<u8> {
    counted(encode_utf8(text))
}

/// Every version of an authority.
pub open spec fn authority_part(authority: AuthorityVersion) -> Seq<u8> {
    words(authority.actor@) + (number(authority.actor_generation) + (words(authority.home_cell@) + (
    number(authority.home_revision) + (number(authority.authority_epoch) + (number(
        authority.placement_epoch,
    ) + number(authority.assignment_revision))))))
}

/// Who presents a token, and until when.
pub open spec fn session_part(token: MutationFenceToken) -> Seq<u8> {
    words(token.session_id@) + (words(token.capability_id@) + (number(token.expires_at_unix_millis)
        + (words(token.node_incarnation_id@) + (words(token.runtime_id@) + words(
        token.server_boot_id@,
    )))))
}

/// A flag in one byte.
pub open spec fn bit(set: bool) -> u8 {
    if set {
        1
    } else {
        0
    }
}

/// What a command does.
pub open spec fn command_part(command: ExportMutationCommand) -> Seq<u8> {
    match command {
        ExportMutationCommand::Write { offset, data, fua } => seq![1u8, bit(fua)] + (number(offset)
            + be_bytes(contents(data).len(), 8)),
        ExportMutationCommand::Flush => seq![2u8, 0u8],
        ExportMutationCommand::Trim { offset, length, fua } => seq![3u8, bit(fua)] + (number(offset)
            + be_bytes(length as nat, 4)),
        ExportMutationCommand::WriteZeroes { offset, length, fua } => seq![4u8, bit(fua)] + (number(
            offset,
        ) + be_bytes(length as nat, 4)),
    }
}

/// The digest of a mutation covers the workspace, the export, the authority, the session, the
/// operation, the command and the checksum of its data.
pub proof fn law_mutation_digest_covers_the_request(
    token: &MutationFenceToken,
    operation_id: [u8; 32],
    command: &ExportMutationCommand,
    checksum: &DataChecksum,
    digest: [u8; 32],
)
    requires
        call_ensures(mutation_digest, (token, operation_id, command, checksum), digest),
    ensures
        digest@ == sha256(
            encode_utf8("rhizome.export-mutation-command.v2\0"@) + (words(token.workspace_id@) + (
            counted(token.export.name@) + (number(token.export.inode) + (authority_part(
                token.authority,
            ) + (session_part(*token) + (operation_id@ + (command_part(*command)
                + checksum.0@))))))),
        )@,
{
    assert(command_fields(command@) == command_part(*command));
}

/// All that a token says.
pub open spec fn token_part(token: MutationFenceToken) -> Seq<u8> {
    words(token.workspace_id@) + (counted(token.export.name@) + (number(
        token.export.nbd_directory_inode,
    ) + (number(token.export.inode) + (number(token.export.advertised_size) + (authority_part(
        token.authority,
    ) + session_part(token))))))
}

proof fn lemma_token_part(token: MutationFenceToken)
    ensures
        token_fields(token@) == token_part(token),
{
    reveal(token_fields);
}

/// A signed number in four bytes, as its two's complement.
pub open spec fn signed(n: i32) -> Seq<u8> {
    if n < 0 {
        be_bytes((0x1_0000_0000 + n) as nat, 4)
    } else {
        be_bytes(n as nat, 4)
    }
}

/// The digest of a barrier's command covers the operation, the request, the token, the head
/// that it expects and the storage it is routed to.
pub proof fn law_command_digest_covers_the_command(command: &BarrierCommand, digest: [u8; 32])
    requires
        call_ensures(command_digest, (command,), digest),
    ensures
        digest@ == sha256(
            encode_utf8("rhizome.workspace-barrier-command.v1\0"@) + (words(
                command.operation.workspace_id@,
            ) + (words(command.operation.request_id@) + (signed(command.operation.kind) + (
            command.request_digest@ + (token_part(command.token) + (command.expected_head_digest.0@
                + (words(command.storage_shard_id@) + number(
                command.storage_routing_revision,
            )))))))),
        )@,
{
    lemma_token_part(command.token);
    assert(be_i32(command.operation.kind) == signed(command.operation.kind));
}

/// The digest of a head covers the workspace, the root, the tail with its chain, the version
/// and the lineage.
pub proof fn law_head_digest_covers_the_head(head: &WorkspaceHead, digest: HeadDigest)
    requires
        call_ensures(head_digest, (head,), digest),
    ensures
        digest.0@ == sha256(
            encode_utf8("rhizome.workspace-head.digest.v1\0"@) + (words(head.workspace_id@) + (
            head.base_root_digest@ + (number(head.base_root_position) + (number(
                head.committed_tail_position,
            ) + (head.tail_chain_digest@ + (number(head.workspace_version) + words(
                head.object_lineage@,
            ))))))),
        )@,
{
}

/// Where a cut lies, on which storage, and when it was committed.
pub open spec fn cut_part(receipt: BarrierDurabilityReceipt) -> Seq<u8> {
    number(receipt.included_write_sequence) + (number(receipt.zerofs_writer_epoch) + (number(
        receipt.zerofs_manifest_id,
    ) + (number(receipt.zerofs_durable_sequence) + (words(receipt.storage_shard_id@) + (number(
        receipt.storage_routing_revision,
    ) + (number(receipt.committed_at_unix_seconds) + be_bytes(
        receipt.committed_at_nanos as nat,
        4,
    )))))))
}

/// The digest of a receipt covers all of the receipt but the digest itself, with the head by
/// its own digest.
pub proof fn law_receipt_digest_covers_the_receipt(
    receipt: &BarrierDurabilityReceipt,
    head: HeadDigest,
    digest: [u8; 32],
)
    requires
        call_ensures(head_digest, (&receipt.head,), head),
        call_ensures(receipt_digest, (receipt,), digest),
    ensures
        digest@ == sha256(
            encode_utf8("rhizome.workspace-barrier-receipt.v1\0"@) + (words(receipt.workspace_id@)
                + (words(receipt.request_id@) + (receipt.request_digest@ + (counted(
                contents(receipt.effect_claim),
            ) + (token_part(receipt.token) + (receipt.expected_head_digest.0@ + (head.0@ + (words(
                receipt.barrier_id@,
            ) + cut_part(*receipt))))))))),
        )@,
{
    lemma_token_part(receipt.token);
    reveal(receipt_cut_fields);
    assert(receipt_cut_fields(receipt@) == cut_part(*receipt));
}

/// What every claim for a barrier begins with: the command by its digest, and the barrier.
pub open spec fn claim_head(asked: Seq<u8>, barrier_id: Seq<char>) -> Seq<u8> {
    encode_utf8("rhizome.workspace-barrier-dispatch.v1\0"@) + asked + words(barrier_id)
}

/// A claim names the command, the barrier and whoever installs it.
pub proof fn law_claim_names_command_barrier_and_installer(
    command: &BarrierCommand,
    asked: [u8; 32],
    barrier_id: &str,
    installer_id: &str,
    claim: Bytes,
)
    requires
        call_ensures(command_digest, (command,), asked),
        call_ensures(effect_claim, (command, barrier_id, installer_id), claim),
    ensures
        contents(claim) == claim_head(asked@, barrier_id@) + words(installer_id@),
{
    assert(claim_bytes(command@, barrier_id@, installer_id@) =~= claim_head(asked@, barrier_id@)
        + words(installer_id@));
}

/// A claim authorizes a barrier exactly if the barrier's identity is canonical and the claim
/// names the command, that barrier and an installer whose identity is canonical.
pub proof fn law_claim_authorizes_what_it_names(
    claim: &[u8],
    command: &BarrierCommand,
    asked: [u8; 32],
    barrier_id: &str,
    named: bool,
    authorized: bool,
    installer_id: &str,
    installed: bool,
)
    requires
        call_ensures(command_digest, (command,), asked),
        call_ensures(is_canonical_v4, (barrier_id,), named),
        call_ensures(is_canonical_v4, (installer_id,), installed),
        call_ensures(claim_matches, (claim, command, barrier_id), authorized),
    ensures
        named && installed && claim@ == claim_head(asked@, barrier_id@) + words(installer_id@)
            ==> authorized,
        authorized ==> named && exists|id: [u8; 16]|
            0x40 <= id@[6] < 0x50 && claim@ == claim_head(asked@, barrier_id@) + words(
                #[trigger] hyphenated(id@),
            ),
{
    assert(claim_bytes(command@, barrier_id@, installer_id@) =~= claim_head(asked@, barrier_id@)
        + words(installer_id@));
    if authorized {
        let installer = choose|installer: Seq<char>|
            super::workspace_barrier::digests::canonical_v4(installer) && claim@
                == #[trigger] claim_bytes(command@, barrier_id@, installer);
        assert(claim_bytes(command@, barrier_id@, installer) =~= claim_head(asked@, barrier_id@)
            + words(installer));
        let id = choose|id: [u8; 16]|
            installer == #[trigger] hyphenated(id@) && id@[6] / 16 == 4;
        assert(claim@ == claim_head(asked@, barrier_id@) + words(hyphenated(id@)));
    }
}

} // verus!
