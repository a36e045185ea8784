//! What the deterministic runs make of their seeds, and what values give back of what they
//! were made of.

use super::export_authority::model::dst_export_authority_model;
use super::export_authority::model::lemma_model_is_valid;
use super::export_authority::model::AuthorityModelRun;
use super::export_authority::types::ExportAuthorityError;
use super::export_authority::types::ExportAuthorityTransition;
use super::workspace_barrier::digests::effect_claim;
use super::workspace_barrier::digests::head_digest;
use super::workspace_barrier::digests::initial_head;
use super::workspace_barrier::digests::next_head;
use super::workspace_barrier::digests::receipt_digest;
use super::workspace_barrier::lookup::ReceiptLookup;
use super::workspace_barrier::model::check_barrier_codecs;
use super::workspace_barrier::model::dst_workspace_barrier_codec_model;
use super::workspace_barrier::model::BarrierCodecModel;
use super::workspace_barrier::rules::validate_head_record;
use super::workspace_barrier::rules::validate_receipt;
use super::workspace_barrier::run::BarrierRun;
use super::workspace_barrier::store::VerifiedBarrierInput;
use super::workspace_barrier::types::BarrierCommand;
use super::workspace_barrier::types::BarrierError;
use super::workspace_barrier::types::HeadDigest;
use super::workspace_barrier::types::WorkspaceHeadRecord;
use super::workspace_genesis::codec::take_bytes;
use super::workspace_genesis::run::GenesisRun;
use super::workspace_genesis::store::VerifiedGenesisInput;
use super::workspace_genesis::types::ContentDigest;
use super::workspace_genesis::types::GenesisCommand;
use super::workspace_genesis::types::GenesisError;
use super::workspace_operation::types::CanonicalRequestDigest;
use super::workspace_operation::types::WorkspaceOperationKey;
use crate::outside::contents;
use crate::outside::sha256;
use crate::text::decimal;
use crate::wire::be_bytes;
use crate::wire::be_value;
use bytes::Bytes;
use vstd::prelude::*;
use vstd::utf8::encode_utf8;

verus! {

/// A run activates the export that the seed names, with every version at one number; its
/// token is admitted, one of a later assignment is stale, and the fence takes the session and
/// rejects the placement, and leaves the rest.
pub proof fn law_authority_run_goes_by_its_seed(seed: u64, run: AuthorityModelRun)
    requires
        call_ensures(dst_export_authority_model, (seed,), run),
    ensures
        ({
            let base = seed as int % 10_000 + 1;
            let n = decimal(seed as nat);
            let active = run.active@;
            let fenced = run.fenced@;
            &&& active.workspace_id == "workspace-"@ + n
            &&& active.export.nbd_directory_inode == base + 1
            &&& active.export.name == encode_utf8("export-"@ + n)
            &&& active.export.inode == base
            &&& active.export.advertised_size == base
            &&& active.authority.actor == "tenants/t/actors/"@ + n
            &&& active.authority.actor_generation == base
            &&& active.authority.home_cell == "cells/dst"@
            &&& active.authority.home_revision == base
            &&& active.authority.authority_epoch == base
            &&& active.authority.placement_epoch == base
            &&& active.authority.assignment_revision == base
            &&& (active.active_session matches Some(session) && {
                &&& session.session_id == "session-"@ + n
                &&& session.capability_id == "capability-"@ + n
                &&& session.expires_at_unix_millis == u64::MAX
                &&& session.node_incarnation_id == "node-"@ + n
                &&& session.runtime_id == "runtime-"@ + n
                &&& session.server_boot_id == "dst-boot"@
                &&& session.committed_through_sequence == 0
            })
            &&& run.live is Ok
            &&& run.stale == Err::<(), ExportAuthorityError>(ExportAuthorityError::StaleMutation)
            &&& fenced.active_session is None
            &&& fenced.rejected_through_placement_epoch == base
            &&& fenced.workspace_id == active.workspace_id
            &&& fenced.export == active.export
            &&& fenced.authority == active.authority
        }),
{
    lemma_model_is_valid(seed);
}

/// A model is a workspace's first head, a command that expects it, the head that the cut
/// makes of it, and the receipt of that barrier with its digest; the seed numbers the names.
pub proof fn law_barrier_model_is_one_barrier(
    seed: u64,
    model: BarrierCodecModel,
    initial: WorkspaceHeadRecord,
    expected: HeadDigest,
    next: Result<WorkspaceHeadRecord, BarrierError>,
    digest: [u8; 32],
    barrier_id: &str,
    installer_id: &str,
    claim: Bytes,
)
    requires
        call_ensures(dst_workspace_barrier_codec_model, (seed,), model),
        call_ensures(initial_head, (&model.genesis,), initial),
        call_ensures(head_digest, (&initial.head,), expected),
        call_ensures(
            next_head,
            (&model.initial, &model.command, 1u64, 1u64, 2u64, 3u64),
            next,
        ),
        call_ensures(receipt_digest, (&model.receipt,), digest),
        barrier_id@ == "00000000-0000-4000-8000-000000000002"@,
        installer_id@ == "00000000-0000-4000-8000-000000000003"@,
        call_ensures(effect_claim, (&model.command, barrier_id, installer_id), claim),
    ensures
        ({
            let number = if seed == u64::MAX {
                seed as nat
            } else {
                (seed + 1) as nat
            };
            let n = decimal(number);
            let command = model.command;
            let receipt = model.receipt;
            &&& model.genesis.workspace_id@ == "workspace-"@ + n
            &&& model.genesis.actor@ == "actor-"@ + n
            &&& model.genesis.object_lineage@ == "lineage-"@ + n
            &&& model.genesis.root_digest@ == sha256(be_bytes(number, 8))@
            &&& model.genesis.export.name@ == encode_utf8("disk-"@ + n)
            &&& model.initial@ == initial@
            &&& command.operation.workspace_id@ == model.genesis.workspace_id@
            &&& command.operation.kind == 4
            &&& command.operation.request_id@ == "barrier-"@ + n
            &&& command.token.export@ == model.genesis.export@
            &&& command.token.authority.actor@ == model.genesis.actor@
            &&& command.expected_head_digest.0@ == expected.0@
            &&& (next matches Ok(record) && model.next@ == record@)
            &&& receipt.workspace_id@ == command.operation.workspace_id@
            &&& receipt.request_id@ == command.operation.request_id@
            &&& receipt.request_digest@ == command.request_digest@
            &&& contents(receipt.effect_claim) == contents(claim)
            &&& receipt.token@ == command.token@
            &&& receipt.expected_head_digest.0@ == command.expected_head_digest.0@
            &&& receipt.head@ == model.next.head@
            &&& receipt.barrier_id@ == barrier_id@
            &&& receipt.included_write_sequence == 1
            &&& receipt.committed_at_unix_seconds == number
            &&& receipt.receipt_digest@ == digest@
        }),
{
}

/// The codecs pass exactly if both records are valid and not too long, and the digest tells
/// the receipt's key from the other.
pub proof fn law_codecs_pass_for_valid_records(
    model: &BarrierCodecModel,
    head_payload: &[u8],
    receipt_payload: &[u8],
    head: Result<(), BarrierError>,
    receipt: Result<(), BarrierError>,
    passed: bool,
)
    requires
        call_ensures(validate_head_record, (&model.next,), head),
        call_ensures(validate_receipt, (&model.receipt,), receipt),
        call_ensures(check_barrier_codecs, (model, head_payload, receipt_payload), passed),
    ensures
        passed <==> {
            &&& head is Ok
            &&& receipt is Ok
            &&& head_payload@.len() <= 0x2_0000
            &&& receipt_payload@.len() <= 0x2_0000
            &&& sha256(contents(model.receipt_key))@ != sha256(contents(model.wrong_key))@
        },
{
}

/// A digest gives back the bytes that it was made of.
pub proof fn law_digests_are_their_bytes(
    bytes: [u8; 32],
    content: ContentDigest,
    content_bytes: &[u8; 32],
    request: CanonicalRequestDigest,
    request_bytes: &[u8; 32],
)
    requires
        call_ensures(ContentDigest::new, (bytes,), content),
        call_ensures(ContentDigest::as_bytes, (&content,), content_bytes),
        call_ensures(CanonicalRequestDigest::new, (bytes,), request),
        call_ensures(CanonicalRequestDigest::as_bytes, (&request,), request_bytes),
    ensures
        content_bytes@ == bytes@,
        request_bytes@ == bytes@,
{
}

/// The key of an operation is made of what it names.
pub proof fn law_operation_key_is_its_parts(
    workspace_id: &str,
    kind: i32,
    request_id: &str,
    key: WorkspaceOperationKey,
)
    requires
        call_ensures(WorkspaceOperationKey::new, (workspace_id, kind, request_id), key),
    ensures
        key.workspace_id@ == workspace_id@,
        key.kind == kind,
        key.request_id@ == request_id@,
{
}

/// A transition is about the workspace that its command names.
pub proof fn law_transition_is_about_its_workspace(
    transition: &ExportAuthorityTransition,
    workspace_id: &str,
)
    requires
        call_ensures(ExportAuthorityTransition::workspace_id, (transition,), workspace_id),
    ensures
        match *transition {
            ExportAuthorityTransition::Activate(c) => workspace_id@ == c.workspace_id@,
            ExportAuthorityTransition::Refresh(c) => workspace_id@ == c.workspace_id@,
            ExportAuthorityTransition::Deactivate(c) => workspace_id@ == c.workspace_id@,
            ExportAuthorityTransition::AdvanceFence(c) => workspace_id@ == c.workspace_id@,
        },
{
}

/// A request is for the command that it was started with.
pub proof fn law_requests_keep_their_command(
    command: BarrierCommand,
    lookup: ReceiptLookup,
    looked_up: &BarrierCommand,
    input: VerifiedBarrierInput,
    run: BarrierRun,
    run_input: &VerifiedBarrierInput,
    asked: &BarrierCommand,
    sealed: &BarrierCommand,
)
    requires
        call_ensures(ReceiptLookup::start, (command,), lookup),
        call_ensures(ReceiptLookup::command, (&lookup,), looked_up),
        call_ensures(BarrierRun::start, (input,), run),
        call_ensures(BarrierRun::input, (&run,), run_input),
        call_ensures(VerifiedBarrierInput::command, (run_input,), asked),
        call_ensures(VerifiedBarrierInput::command, (&input,), sealed),
    ensures
        looked_up@ == command@,
        asked@ == sealed@,
{
}

/// A genesis is for the command that it was started with.
pub proof fn law_genesis_keeps_its_command(
    input: VerifiedGenesisInput,
    run: GenesisRun,
    run_input: &VerifiedGenesisInput,
    asked: &GenesisCommand,
    sealed: &GenesisCommand,
)
    requires
        call_ensures(GenesisRun::start, (input,), run),
        call_ensures(GenesisRun::input, (&run,), run_input),
        call_ensures(VerifiedGenesisInput::command, (run_input,), asked),
        call_ensures(VerifiedGenesisInput::command, (&input,), sealed),
    ensures
        asked@ == sealed@,
{
}

/// A field is taken off where two bytes of length stand before that many bytes, and no more
/// than were allowed; what is behind it is left.
pub proof fn law_field_is_taken_by_its_length(
    input: &[u8],
    max: usize,
    result: Result<(&[u8], &[u8]), GenesisError>,
)
    requires
        call_ensures(take_bytes, (input, max), result),
    ensures
        result is Ok <==> {
            let length = input@[0] * 0x100 + input@[1];
            input@.len() >= 2 && length <= max && input@.len() >= 2 + length
        },
        result matches Ok((value, rest)) ==> {
            let length = input@[0] * 0x100 + input@[1];
            value@ == input@.subrange(2, 2 + length) && rest@ == input@.skip(2 + length)
        },
        result matches Err(e) ==> e == GenesisError::Corrupt,
{
    if input@.len() >= 2 {
        reveal_with_fuel(be_value, 3);
        let length = input@.subrange(0, 2);
        assert(be_value(length) == input@[0] * 0x100 + input@[1]);
    }
}

} // verus!
