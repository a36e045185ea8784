//! What holds of barriers as a whole.

use super::digests::canonical_v4;
use super::digests::claim_bytes;
use super::digests::claims;
use super::digests::command_fields;
use super::digests::command_preimage;
use super::digests::command_sha256;
use super::digests::first_head;
use super::digests::head_fields;
use super::digests::head_preimage;
use super::digests::head_sha256;
use super::digests::lemma_canonical_len;
use super::digests::next_head_result;
use super::digests::receipt_cut_fields;
use super::digests::receipt_fields;
use super::digests::receipt_preimage;
use super::digests::token_fields;
use super::digests::BarrierCut;
use super::graph::cut_of;
use super::graph::leads;
use super::graph::walk_start;
use super::graph::walk_step;
use super::graph::GraphRowModel;
use super::graph::HeadGraphWalkModel;
use super::graph::WalkPhaseModel;
use super::rules::answered;
use super::rules::answers;
use super::rules::valid_command;
use super::rules::valid_receipt;
use super::rules::valid_token;
use super::types::BarrierCommandModel;
use super::types::BarrierDurabilityReceiptModel;
use super::types::BarrierError;
use super::types::BarrierGenesisModel;
use super::types::WorkspaceHeadModel;
use super::types::WorkspaceHeadRecordModel;
use crate::fs::export_authority::laws::lemma_authority_fields_split;
use crate::fs::export_authority::laws::lemma_session_fields_split;
use crate::fs::export_authority::mutation::authority_fields;
use crate::fs::export_authority::mutation::session_fields;
use crate::fs::export_authority::types::MutationFenceTokenModel;
use crate::fs::key_codec::be8;
use crate::fs::key_codec::be_i32;
use crate::fs::workspace_operation::types::OperationRecordModel;
use crate::fs::workspace_operation::types::StateModel;
use crate::wire::be_bytes;
use crate::wire::countable;
use crate::wire::lemma_be_bytes_len;
use crate::wire::lemma_be_split;
use crate::wire::lemma_fixed_split;
use crate::wire::lemma_long_field_split;
use crate::wire::lemma_long_text_split;
use crate::wire::lemma_span_values;
use crate::wire::long_field;
use crate::wire::long_text;
use vstd::prelude::*;
use vstd::utf8::encode_utf8;

verus! {

broadcast use lemma_be_bytes_len;

/// A head that follows another has the next version and a tail no earlier; workspace,
/// root and lineage stay.
pub proof fn law_next_head_extends(
    current: WorkspaceHeadRecordModel,
    command: BarrierCommandModel,
    cut: BarrierCut,
    next: WorkspaceHeadRecordModel,
)
    requires
        next_head_result(current, command, cut) == Ok::<WorkspaceHeadRecordModel, BarrierError>(
            next,
        ),
    ensures
        next.head.workspace_version == current.head.workspace_version + 1,
        next.head.committed_tail_position >= current.head.committed_tail_position,
        next.head.committed_tail_position == cut.included_write_sequence,
        next.head.workspace_id == current.head.workspace_id,
        next.head.base_root_digest == current.head.base_root_digest,
        next.head.base_root_position == current.head.base_root_position,
        next.head.object_lineage == current.head.object_lineage,
        next.last_barrier_request_id == Some(command.operation.request_id),
        next.last_barrier_request_digest == Some(command.request_digest),
{
}

/// The claim that was made for a barrier authorizes it.
pub proof fn law_own_claim_matches(
    command: BarrierCommandModel,
    barrier_id: Seq<char>,
    installer_id: Seq<char>,
)
    requires
        canonical_v4(barrier_id),
        canonical_v4(installer_id),
    ensures
        claims(claim_bytes(command, barrier_id, installer_id), command, barrier_id),
{
}

/// A claim authorizes one barrier of one command digest and nothing else.
pub proof fn law_claim_authorizes_one_barrier(
    claim: Seq<u8>,
    command: BarrierCommandModel,
    barrier_id: Seq<char>,
    other_command: BarrierCommandModel,
    other_barrier_id: Seq<char>,
)
    requires
        claims(claim, command, barrier_id),
        claims(claim, other_command, other_barrier_id),
    ensures
        barrier_id == other_barrier_id,
        command_sha256(command) == command_sha256(other_command),
{
    let a = choose|installer_id: Seq<char>|
        canonical_v4(installer_id) && claim == #[trigger] claim_bytes(
            command,
            barrier_id,
            installer_id,
        );
    let b = choose|installer_id: Seq<char>|
        canonical_v4(installer_id) && claim == #[trigger] claim_bytes(
            other_command,
            other_barrier_id,
            installer_id,
        );
    let domain = encode_utf8("rhizome.workspace-barrier-dispatch.v1\0"@);
    let ids = long_text(barrier_id) + long_text(a);
    let other_ids = long_text(other_barrier_id) + long_text(b);
    lemma_fixed_split(
        domain,
        command_sha256(command) + ids,
        domain,
        command_sha256(other_command) + other_ids,
    );
    lemma_fixed_split(command_sha256(command), ids, command_sha256(other_command), other_ids);
    lemma_canonical_len(barrier_id);
    lemma_canonical_len(other_barrier_id);
    lemma_long_text_split(barrier_id, long_text(a), other_barrier_id, long_text(b));
}

proof fn lemma_export_fields_split(
    a: MutationFenceTokenModel,
    x: Seq<u8>,
    b: MutationFenceTokenModel,
    y: Seq<u8>,
)
    requires
        countable(encode_utf8(a.workspace_id)),
        countable(encode_utf8(b.workspace_id)),
        countable(a.export.name),
        countable(b.export.name),
        long_text(a.workspace_id) + (long_field(a.export.name) + (be8(a.export.nbd_directory_inode)
            + (be8(a.export.inode) + (be8(a.export.advertised_size) + x)))) == long_text(
            b.workspace_id,
        ) + (long_field(b.export.name) + (be8(b.export.nbd_directory_inode) + (be8(b.export.inode)
            + (be8(b.export.advertised_size) + y)))),
    ensures
        a.workspace_id == b.workspace_id,
        a.export == b.export,
        x == y,
{
    lemma_span_values();
    let a3 = be8(a.export.advertised_size) + x;
    let b3 = be8(b.export.advertised_size) + y;
    let a2 = be8(a.export.inode) + a3;
    let b2 = be8(b.export.inode) + b3;
    let a1 = be8(a.export.nbd_directory_inode) + a2;
    let b1 = be8(b.export.nbd_directory_inode) + b2;
    let a0 = long_field(a.export.name) + a1;
    let b0 = long_field(b.export.name) + b1;
    lemma_long_text_split(a.workspace_id, a0, b.workspace_id, b0);
    lemma_long_field_split(a.export.name, a1, b.export.name, b1);
    lemma_be_split(
        a.export.nbd_directory_inode as nat,
        a2,
        b.export.nbd_directory_inode as nat,
        b2,
        8,
    );
    lemma_be_split(a.export.inode as nat, a3, b.export.inode as nat, b3, 8);
    lemma_be_split(a.export.advertised_size as nat, x, b.export.advertised_size as nat, y, 8);
}

proof fn lemma_token_fields_parts(token: MutationFenceTokenModel, rest: Seq<u8>)
    ensures
        token_fields(token) + rest == long_text(token.workspace_id) + (long_field(token.export.name)
            + (be8(token.export.nbd_directory_inode) + (be8(token.export.inode) + (be8(
            token.export.advertised_size,
        ) + (authority_fields(token.authority) + (session_fields(token) + rest)))))),
{
    reveal(token_fields);
    let authority = authority_fields(token.authority);
    let session = session_fields(token);
    assert(token_fields(token) + rest =~= long_text(token.workspace_id) + (long_field(
        token.export.name,
    ) + (be8(token.export.nbd_directory_inode) + (be8(token.export.inode) + (be8(
        token.export.advertised_size,
    ) + (authority + (session + rest)))))));
}

proof fn lemma_token_fields_split(
    a: MutationFenceTokenModel,
    x: Seq<u8>,
    b: MutationFenceTokenModel,
    y: Seq<u8>,
)
    requires
        valid_token(a),
        valid_token(b),
        countable(a.export.name),
        countable(b.export.name),
        token_fields(a) + x == token_fields(b) + y,
    ensures
        a == b,
        x == y,
{
    lemma_token_fields_parts(a, x);
    lemma_token_fields_parts(b, y);
    let a1 = session_fields(a) + x;
    let b1 = session_fields(b) + y;
    lemma_export_fields_split(
        a,
        authority_fields(a.authority) + a1,
        b,
        authority_fields(b.authority) + b1,
    );
    lemma_authority_fields_split(a.authority, a1, b.authority, b1);
    lemma_session_fields_split(a, x, b, y);
}

/// Valid commands with the same digest preimage are the same command, so nothing in a
/// command can be changed without changing what is hashed.
pub proof fn law_command_preimage_is_unambiguous(a: BarrierCommandModel, b: BarrierCommandModel)
    requires
        valid_command(a),
        valid_command(b),
        a.request_digest.len() == 32,
        b.request_digest.len() == 32,
        a.expected_head_digest.len() == 32,
        b.expected_head_digest.len() == 32,
        countable(a.token.export.name),
        countable(b.token.export.name),
        command_preimage(a) == command_preimage(b),
    ensures
        a == b,
{
    let domain = encode_utf8("rhizome.workspace-barrier-command.v1\0"@);
    lemma_fixed_split(domain, command_fields(a), domain, command_fields(b));
    let a6 = be8(a.storage_routing_revision);
    let b6 = be8(b.storage_routing_revision);
    let a5 = long_text(a.storage_shard_id) + a6;
    let b5 = long_text(b.storage_shard_id) + b6;
    let a4 = a.expected_head_digest + a5;
    let b4 = b.expected_head_digest + b5;
    let a3 = token_fields(a.token) + a4;
    let b3 = token_fields(b.token) + b4;
    let a2 = a.request_digest + a3;
    let b2 = b.request_digest + b3;
    let a1 = be_i32(a.operation.kind) + a2;
    let b1 = be_i32(b.operation.kind) + b2;
    let a0 = long_text(a.operation.request_id) + a1;
    let b0 = long_text(b.operation.request_id) + b1;
    lemma_long_text_split(a.operation.workspace_id, a0, b.operation.workspace_id, b0);
    lemma_long_text_split(a.operation.request_id, a1, b.operation.request_id, b1);
    lemma_fixed_split(be_i32(a.operation.kind), a2, be_i32(b.operation.kind), b2);
    lemma_fixed_split(a.request_digest, a3, b.request_digest, b3);
    lemma_token_fields_split(a.token, a4, b.token, b4);
    lemma_fixed_split(a.expected_head_digest, a5, b.expected_head_digest, b5);
    lemma_long_text_split(a.storage_shard_id, a6, b.storage_shard_id, b6);
    lemma_span_values();
    let none = Seq::<u8>::empty();
    assert(a6 =~= a6 + none);
    assert(b6 =~= b6 + none);
    lemma_be_split(
        a.storage_routing_revision as nat,
        none,
        b.storage_routing_revision as nat,
        none,
        8,
    );
}

/// Heads with the same digest preimage are the same head.
pub proof fn law_head_preimage_is_unambiguous(a: WorkspaceHeadModel, b: WorkspaceHeadModel)
    requires
        countable(encode_utf8(a.workspace_id)),
        countable(encode_utf8(b.workspace_id)),
        countable(encode_utf8(a.object_lineage)),
        countable(encode_utf8(b.object_lineage)),
        a.base_root_digest.len() == 32,
        b.base_root_digest.len() == 32,
        a.tail_chain_digest.len() == 32,
        b.tail_chain_digest.len() == 32,
        head_preimage(a) == head_preimage(b),
    ensures
        a == b,
{
    let domain = encode_utf8("rhizome.workspace-head.digest.v1\0"@);
    lemma_fixed_split(domain, head_fields(a), domain, head_fields(b));
    lemma_span_values();
    let none = Seq::<u8>::empty();
    let a5 = long_text(a.object_lineage);
    let b5 = long_text(b.object_lineage);
    let a4 = be8(a.workspace_version) + a5;
    let b4 = be8(b.workspace_version) + b5;
    let a3 = a.tail_chain_digest + a4;
    let b3 = b.tail_chain_digest + b4;
    let a2 = be8(a.committed_tail_position) + a3;
    let b2 = be8(b.committed_tail_position) + b3;
    let a1 = be8(a.base_root_position) + a2;
    let b1 = be8(b.base_root_position) + b2;
    let a0 = a.base_root_digest + a1;
    let b0 = b.base_root_digest + b1;
    lemma_long_text_split(a.workspace_id, a0, b.workspace_id, b0);
    lemma_fixed_split(a.base_root_digest, a1, b.base_root_digest, b1);
    lemma_be_split(a.base_root_position as nat, a2, b.base_root_position as nat, b2, 8);
    lemma_be_split(a.committed_tail_position as nat, a3, b.committed_tail_position as nat, b3, 8);
    lemma_fixed_split(a.tail_chain_digest, a4, b.tail_chain_digest, b4);
    lemma_be_split(a.workspace_version as nat, a5, b.workspace_version as nat, b5, 8);
    assert(a5 =~= a5 + none);
    assert(b5 =~= b5 + none);
    lemma_long_text_split(a.object_lineage, none, b.object_lineage, none);
}

proof fn lemma_cut_fields_split(
    a: BarrierDurabilityReceiptModel,
    b: BarrierDurabilityReceiptModel,
)
    requires
        countable(encode_utf8(a.storage_shard_id)),
        countable(encode_utf8(b.storage_shard_id)),
        receipt_cut_fields(a) == receipt_cut_fields(b),
    ensures
        a.included_write_sequence == b.included_write_sequence,
        a.zerofs_writer_epoch == b.zerofs_writer_epoch,
        a.zerofs_manifest_id == b.zerofs_manifest_id,
        a.zerofs_durable_sequence == b.zerofs_durable_sequence,
        a.storage_shard_id == b.storage_shard_id,
        a.storage_routing_revision == b.storage_routing_revision,
        a.committed_at_unix_seconds == b.committed_at_unix_seconds,
        a.committed_at_nanos == b.committed_at_nanos,
{
    reveal(receipt_cut_fields);
    lemma_span_values();
    let a6 = be_bytes(a.committed_at_nanos as nat, 4);
    let b6 = be_bytes(b.committed_at_nanos as nat, 4);
    let a5 = be8(a.committed_at_unix_seconds) + a6;
    let b5 = be8(b.committed_at_unix_seconds) + b6;
    let a4 = be8(a.storage_routing_revision) + a5;
    let b4 = be8(b.storage_routing_revision) + b5;
    let a3 = long_text(a.storage_shard_id) + a4;
    let b3 = long_text(b.storage_shard_id) + b4;
    let a2 = be8(a.zerofs_durable_sequence) + a3;
    let b2 = be8(b.zerofs_durable_sequence) + b3;
    let a1 = be8(a.zerofs_manifest_id) + a2;
    let b1 = be8(b.zerofs_manifest_id) + b2;
    let a0 = be8(a.zerofs_writer_epoch) + a1;
    let b0 = be8(b.zerofs_writer_epoch) + b1;
    lemma_be_split(a.included_write_sequence as nat, a0, b.included_write_sequence as nat, b0, 8);
    lemma_be_split(a.zerofs_writer_epoch as nat, a1, b.zerofs_writer_epoch as nat, b1, 8);
    lemma_be_split(a.zerofs_manifest_id as nat, a2, b.zerofs_manifest_id as nat, b2, 8);
    lemma_be_split(a.zerofs_durable_sequence as nat, a3, b.zerofs_durable_sequence as nat, b3, 8);
    lemma_long_text_split(a.storage_shard_id, a4, b.storage_shard_id, b4);
    lemma_be_split(
        a.storage_routing_revision as nat,
        a5,
        b.storage_routing_revision as nat,
        b5,
        8,
    );
    lemma_be_split(
        a.committed_at_unix_seconds as nat,
        a6,
        b.committed_at_unix_seconds as nat,
        b6,
        8,
    );
    let none = Seq::<u8>::empty();
    assert(a6 =~= a6 + none);
    assert(b6 =~= b6 + none);
    lemma_be_split(a.committed_at_nanos as nat, none, b.committed_at_nanos as nat, none, 4);
}

/// Valid receipts with the same digest preimage agree in everything that the digest
/// covers: all fields but the digest itself, the head by its own digest.
pub proof fn law_receipt_preimage_is_unambiguous(
    a: BarrierDurabilityReceiptModel,
    b: BarrierDurabilityReceiptModel,
)
    requires
        valid_receipt(a),
        valid_receipt(b),
        a.request_digest.len() == 32,
        b.request_digest.len() == 32,
        a.expected_head_digest.len() == 32,
        b.expected_head_digest.len() == 32,
        countable(a.effect_claim),
        countable(b.effect_claim),
        countable(a.token.export.name),
        countable(b.token.export.name),
        receipt_preimage(a) == receipt_preimage(b),
    ensures
        head_sha256(a.head) == head_sha256(b.head),
        b == (BarrierDurabilityReceiptModel {
            head: b.head,
            receipt_digest: b.receipt_digest,
            ..a
        }),
{
    let domain = encode_utf8("rhizome.workspace-barrier-receipt.v1\0"@);
    lemma_fixed_split(domain, receipt_fields(a), domain, receipt_fields(b));
    let a6 = receipt_cut_fields(a);
    let b6 = receipt_cut_fields(b);
    let a5 = long_text(a.barrier_id) + a6;
    let b5 = long_text(b.barrier_id) + b6;
    let a4 = head_sha256(a.head) + a5;
    let b4 = head_sha256(b.head) + b5;
    let a3 = a.expected_head_digest + a4;
    let b3 = b.expected_head_digest + b4;
    let a2 = token_fields(a.token) + a3;
    let b2 = token_fields(b.token) + b3;
    let a1 = long_field(a.effect_claim) + a2;
    let b1 = long_field(b.effect_claim) + b2;
    let a0 = a.request_digest + a1;
    let b0 = b.request_digest + b1;
    lemma_long_text_split(
        a.workspace_id,
        long_text(a.request_id) + a0,
        b.workspace_id,
        long_text(b.request_id) + b0,
    );
    lemma_long_text_split(a.request_id, a0, b.request_id, b0);
    lemma_fixed_split(a.request_digest, a1, b.request_digest, b1);
    lemma_long_field_split(a.effect_claim, a2, b.effect_claim, b2);
    lemma_token_fields_split(a.token, a3, b.token, b3);
    lemma_fixed_split(a.expected_head_digest, a4, b.expected_head_digest, b4);
    lemma_fixed_split(head_sha256(a.head), a5, head_sha256(b.head), b5);
    lemma_long_text_split(a.barrier_id, a6, b.barrier_id, b6);
    lemma_cut_fields_split(a, b);
}

/// A valid receipt that answers a command answers that command only.
pub proof fn law_receipt_answers_one_command(
    receipt: BarrierDurabilityReceiptModel,
    a: BarrierCommandModel,
    b: BarrierCommandModel,
)
    requires
        answers(receipt, a),
        answers(receipt, b),
        a.operation.kind == b.operation.kind,
    ensures
        a == b,
{
}

/// What the walk over a row sequence comes to.
pub open spec fn walk_run(walk: HeadGraphWalkModel, rows: Seq<GraphRowModel>) -> Result<
    HeadGraphWalkModel,
    BarrierError,
>
    decreases rows.len(),
{
    if rows.len() == 0 {
        Ok(walk)
    } else {
        match walk_run(walk, rows.drop_last()) {
            Ok(next) => walk_step(next, rows.last()),
            Err(error) => Err(error),
        }
    }
}

/// Some receipt leads from `previous` to `cursor`.
pub open spec fn linked(
    genesis: BarrierGenesisModel,
    previous: WorkspaceHeadRecordModel,
    cursor: WorkspaceHeadRecordModel,
) -> bool {
    exists|receipt: BarrierDurabilityReceiptModel| #[trigger]
        leads(genesis, previous, receipt, cursor)
}

/// Heads, newest first, each of which a barrier made from the next in the list.
pub open spec fn is_chain(
    genesis: BarrierGenesisModel,
    heads: Seq<WorkspaceHeadRecordModel>,
) -> bool {
    &&& heads.len() > 0
    &&& forall|i: int, j: int|
        0 <= i < heads.len() && j == i + 1 && j < heads.len() ==> linked(
            genesis,
            #[trigger] heads[j],
            #[trigger] heads[i],
        )
}

/// A chain from `current` down to `cursor`.
pub open spec fn reaches(
    genesis: BarrierGenesisModel,
    heads: Seq<WorkspaceHeadRecordModel>,
    current: WorkspaceHeadRecordModel,
    cursor: WorkspaceHeadRecordModel,
) -> bool {
    is_chain(genesis, heads) && heads[0] == current && heads.last() == cursor
}

/// Some chain leads from `current` down to `cursor`.
pub open spec fn reachable(
    genesis: BarrierGenesisModel,
    current: Option<WorkspaceHeadRecordModel>,
    cursor: WorkspaceHeadRecordModel,
) -> bool {
    current is Some && exists|heads: Seq<WorkspaceHeadRecordModel>| #[trigger]
        reaches(genesis, heads, current->0, cursor)
}

/// Row `k` of a walk is the operation of the barrier that made `cursor`.
pub open spec fn operation_read_at(
    start: HeadGraphWalkModel,
    rows: Seq<GraphRowModel>,
    k: int,
    cursor: WorkspaceHeadRecordModel,
    receipt: BarrierDurabilityReceiptModel,
    operation: OperationRecordModel,
) -> bool {
    &&& 0 <= k < rows.len()
    &&& rows[k] == GraphRowModel::Operation(Some(operation))
    &&& walk_run(start, rows.take(k)) matches Ok(walk) && walk.phase == WalkPhaseModel::Operation(
        cursor,
        receipt,
    )
}

/// An operation succeeded. That of the latest barrier may, where that is allowed, still
/// await its outcome under the claim that the receipt names.
pub open spec fn concluded(
    allow_latest_effect_dispatched: bool,
    latest: bool,
    receipt: BarrierDurabilityReceiptModel,
    operation: OperationRecordModel,
) -> bool {
    ||| operation.state is Succeeded
    ||| latest && allow_latest_effect_dispatched && operation.state
        == StateModel::EffectDispatched(receipt.effect_claim)
}

/// The operation of the barrier that made `cursor` was read, and is concluded.
pub open spec fn confirmed(
    start: HeadGraphWalkModel,
    rows: Seq<GraphRowModel>,
    latest: bool,
    cursor: WorkspaceHeadRecordModel,
    receipt: BarrierDurabilityReceiptModel,
) -> bool {
    exists|k: int, operation: OperationRecordModel| #[trigger]
        operation_read_at(start, rows, k, cursor, receipt, operation) && concluded(
            start.allow_latest_effect_dispatched,
            latest,
            receipt,
            operation,
        )
}

/// Some receipt leads from `previous` to `cursor`, and the operation that it answers is
/// concluded.
pub open spec fn confirmed_link(
    start: HeadGraphWalkModel,
    rows: Seq<GraphRowModel>,
    latest: bool,
    previous: WorkspaceHeadRecordModel,
    cursor: WorkspaceHeadRecordModel,
) -> bool {
    exists|receipt: BarrierDurabilityReceiptModel| #[trigger]
        leads(start.genesis, previous, receipt, cursor) && confirmed(
            start,
            rows,
            latest,
            cursor,
            receipt,
        )
}

/// Every barrier of a chain is confirmed by what was read.
pub open spec fn confirmed_chain(
    start: HeadGraphWalkModel,
    rows: Seq<GraphRowModel>,
    heads: Seq<WorkspaceHeadRecordModel>,
) -> bool {
    forall|i: int, j: int|
        0 <= i < heads.len() && j == i + 1 && j < heads.len() ==> confirmed_link(
            start,
            rows,
            i == 0,
            #[trigger] heads[j],
            #[trigger] heads[i],
        )
}

/// A confirmed chain from `current` down to `cursor`.
pub open spec fn traces(
    start: HeadGraphWalkModel,
    rows: Seq<GraphRowModel>,
    heads: Seq<WorkspaceHeadRecordModel>,
    current: WorkspaceHeadRecordModel,
    cursor: WorkspaceHeadRecordModel,
) -> bool {
    reaches(start.genesis, heads, current, cursor) && confirmed_chain(start, rows, heads)
}

/// What was read is a confirmed chain from `current` down to `cursor`.
pub open spec fn traced(
    start: HeadGraphWalkModel,
    rows: Seq<GraphRowModel>,
    current: Option<WorkspaceHeadRecordModel>,
    cursor: WorkspaceHeadRecordModel,
) -> bool {
    current is Some && exists|heads: Seq<WorkspaceHeadRecordModel>| #[trigger]
        traces(start, rows, heads, current->0, cursor)
}

/// What a walk has established: a confirmed chain from the current head to the head it
/// is at, and that head's barrier once its operation is read.
spec fn walk_established(
    start: HeadGraphWalkModel,
    rows: Seq<GraphRowModel>,
    walk: HeadGraphWalkModel,
) -> bool {
    &&& walk.genesis == start.genesis
    &&& walk.allow_latest_effect_dispatched == start.allow_latest_effect_dispatched
    &&& match walk.phase {
        WalkPhaseModel::Current => true,
        WalkPhaseModel::Version(cursor)
        | WalkPhaseModel::Receipt(cursor)
        | WalkPhaseModel::Operation(cursor, _) => traced(start, rows, walk.current, cursor),
        WalkPhaseModel::Previous(cursor, receipt) => traced(start, rows, walk.current, cursor)
            && confirmed(
            start,
            rows,
            cursor.head.workspace_version == walk.current->0.head.workspace_version,
            cursor,
            receipt,
        ),
        WalkPhaseModel::Closed => traced(start, rows, walk.current, first_head(walk.genesis)),
    }
}

proof fn lemma_link_extends(
    genesis: BarrierGenesisModel,
    previous: WorkspaceHeadRecordModel,
    cursor: WorkspaceHeadRecordModel,
)
    requires
        linked(genesis, previous, cursor),
    ensures
        cursor.head.workspace_version == previous.head.workspace_version + 1,
        cursor.head.committed_tail_position >= previous.head.committed_tail_position,
        cursor.head.workspace_id == previous.head.workspace_id,
        cursor.head.base_root_digest == previous.head.base_root_digest,
        cursor.head.object_lineage == previous.head.object_lineage,
{
    let receipt = choose|receipt: BarrierDurabilityReceiptModel| #[trigger]
        leads(genesis, previous, receipt, cursor);
    law_next_head_extends(previous, answered(receipt), cut_of(receipt), cursor);
}

proof fn lemma_chain_extends(
    genesis: BarrierGenesisModel,
    heads: Seq<WorkspaceHeadRecordModel>,
    current: WorkspaceHeadRecordModel,
    cursor: WorkspaceHeadRecordModel,
    previous: WorkspaceHeadRecordModel,
)
    requires
        reaches(genesis, heads, current, cursor),
        linked(genesis, previous, cursor),
    ensures
        reaches(genesis, heads.push(previous), current, previous),
{
    let longer = heads.push(previous);
    assert forall|i: int, j: int|
        0 <= i < longer.len() && j == i + 1 && j < longer.len() implies linked(
        genesis,
        #[trigger] longer[j],
        #[trigger] longer[i],
    ) by {
        if j < heads.len() {
            assert(linked(genesis, heads[j], heads[i]));
        }
    }
}

/// What was confirmed stays so when more is read.
proof fn lemma_confirmed_longer(
    start: HeadGraphWalkModel,
    rows: Seq<GraphRowModel>,
    row: GraphRowModel,
    latest: bool,
    cursor: WorkspaceHeadRecordModel,
    receipt: BarrierDurabilityReceiptModel,
)
    requires
        confirmed(start, rows, latest, cursor, receipt),
    ensures
        confirmed(start, rows.push(row), latest, cursor, receipt),
{
    let (k, operation) = choose|k: int, operation: OperationRecordModel| #[trigger]
        operation_read_at(start, rows, k, cursor, receipt, operation) && concluded(
            start.allow_latest_effect_dispatched,
            latest,
            receipt,
            operation,
        );
    assert(rows.push(row).take(k) =~= rows.take(k));
    assert(operation_read_at(start, rows.push(row), k, cursor, receipt, operation));
}

proof fn lemma_traces_longer(
    start: HeadGraphWalkModel,
    rows: Seq<GraphRowModel>,
    row: GraphRowModel,
    heads: Seq<WorkspaceHeadRecordModel>,
    current: WorkspaceHeadRecordModel,
    cursor: WorkspaceHeadRecordModel,
)
    requires
        traces(start, rows, heads, current, cursor),
    ensures
        traces(start, rows.push(row), heads, current, cursor),
{
    assert forall|i: int, j: int|
        0 <= i < heads.len() && j == i + 1 && j < heads.len() implies confirmed_link(
        start,
        rows.push(row),
        i == 0,
        #[trigger] heads[j],
        #[trigger] heads[i],
    ) by {
        assert(confirmed_link(start, rows, i == 0, heads[j], heads[i]));
        let receipt = choose|receipt: BarrierDurabilityReceiptModel| #[trigger]
            leads(start.genesis, heads[j], receipt, heads[i]) && confirmed(
                start,
                rows,
                i == 0,
                heads[i],
                receipt,
            );
        lemma_confirmed_longer(start, rows, row, i == 0, heads[i], receipt);
        assert(leads(start.genesis, heads[j], receipt, heads[i]));
    }
}

/// Versions fall by one from each head of a chain to the next.
proof fn lemma_chain_versions(
    genesis: BarrierGenesisModel,
    heads: Seq<WorkspaceHeadRecordModel>,
    i: int,
)
    requires
        is_chain(genesis, heads),
        0 <= i < heads.len(),
    ensures
        heads[0].head.workspace_version == heads[i].head.workspace_version + i,
    decreases i,
{
    if i > 0 {
        lemma_chain_versions(genesis, heads, i - 1);
        assert(linked(genesis, heads[i], heads[i - 1]));
        lemma_link_extends(genesis, heads[i], heads[i - 1]);
    }
}

/// A confirmed chain grows by a head that a confirmed barrier started from.
proof fn lemma_traces_extend(
    start: HeadGraphWalkModel,
    rows: Seq<GraphRowModel>,
    heads: Seq<WorkspaceHeadRecordModel>,
    current: WorkspaceHeadRecordModel,
    cursor: WorkspaceHeadRecordModel,
    receipt: BarrierDurabilityReceiptModel,
    previous: WorkspaceHeadRecordModel,
)
    requires
        traces(start, rows, heads, current, cursor),
        leads(start.genesis, previous, receipt, cursor),
        confirmed(
            start,
            rows,
            cursor.head.workspace_version == current.head.workspace_version,
            cursor,
            receipt,
        ),
    ensures
        traces(start, rows, heads.push(previous), current, previous),
{
    let longer = heads.push(previous);
    lemma_chain_extends(start.genesis, heads, current, cursor, previous);
    lemma_chain_versions(start.genesis, heads, heads.len() - 1);
    assert(confirmed_link(start, rows, heads.len() == 1, previous, cursor));
    assert forall|i: int, j: int|
        0 <= i < longer.len() && j == i + 1 && j < longer.len() implies confirmed_link(
        start,
        rows,
        i == 0,
        #[trigger] longer[j],
        #[trigger] longer[i],
    ) by {
        if j < heads.len() {
            assert(confirmed_link(start, rows, i == 0, heads[j], heads[i]));
        }
    }
}

#[verifier::spinoff_prover]
#[verifier::rlimit(40)]
proof fn lemma_step_establishes(
    start: HeadGraphWalkModel,
    rows: Seq<GraphRowModel>,
    walk: HeadGraphWalkModel,
    row: GraphRowModel,
)
    requires
        walk_run(start, rows) == Ok::<HeadGraphWalkModel, BarrierError>(walk),
        walk_established(start, rows, walk),
    ensures
        walk_step(walk, row) matches Ok(next) ==> walk_established(start, rows.push(row), next),
{
    if walk_step(walk, row) is Ok {
        let longer = rows.push(row);
        if let WalkPhaseModel::Current = walk.phase {
            if let GraphRowModel::Head(Some(record)) = row {
                assert(traces(start, longer, seq![record], record, record));
            }
        } else {
            let current = walk.current->0;
            let cursor = match walk.phase {
                WalkPhaseModel::Version(cursor) => cursor,
                WalkPhaseModel::Receipt(cursor) => cursor,
                WalkPhaseModel::Operation(cursor, _) => cursor,
                WalkPhaseModel::Previous(cursor, _) => cursor,
                _ => first_head(walk.genesis),
            };
            let heads = choose|heads: Seq<WorkspaceHeadRecordModel>| #[trigger]
                traces(start, rows, heads, current, cursor);
            lemma_traces_longer(start, rows, row, heads, current, cursor);
            assert(traced(start, longer, walk.current, cursor));
            match (walk.phase, row) {
                (
                    WalkPhaseModel::Operation(_, receipt),
                    GraphRowModel::Operation(Some(operation)),
                ) => {
                    assert(longer.take(rows.len() as int) =~= rows);
                    assert(operation_read_at(
                        start,
                        longer,
                        rows.len() as int,
                        cursor,
                        receipt,
                        operation,
                    ));
                    let latest = cursor.head.workspace_version == current.head.workspace_version;
                    assert(confirmed(start, longer, latest, cursor, receipt));
                },
                (
                    WalkPhaseModel::Previous(_, receipt),
                    GraphRowModel::Head(Some(record)),
                ) => {
                    let latest = cursor.head.workspace_version == current.head.workspace_version;
                    lemma_confirmed_longer(start, rows, row, latest, cursor, receipt);
                    lemma_traces_extend(start, longer, heads, current, cursor, receipt, record);
                    assert(traced(start, longer, walk.current, record));
                },
                _ => {},
            }
        }
    }
}

proof fn lemma_run_establishes(start: HeadGraphWalkModel, rows: Seq<GraphRowModel>)
    requires
        start.phase is Current,
    ensures
        walk_run(start, rows) matches Ok(walk) ==> walk_established(start, rows, walk),
    decreases rows.len(),
{
    if rows.len() > 0 {
        lemma_run_establishes(start, rows.drop_last());
        if let Ok(walk) = walk_run(start, rows.drop_last()) {
            lemma_step_establishes(start, rows.drop_last(), walk, rows.last());
            assert(rows.drop_last().push(rows.last()) =~= rows);
        }
    }
}

/// A walk that closes has followed barriers from the current head down to the first: a
/// graph is accepted only if every head in it was made by a barrier whose receipt is
/// there and whose operation succeeded, or is the first. Only the operation of the
/// latest barrier may, where that is allowed, still await its outcome.
pub proof fn law_closed_graph_is_a_chain(
    genesis: BarrierGenesisModel,
    allow_latest_effect_dispatched: bool,
    rows: Seq<GraphRowModel>,
    end: HeadGraphWalkModel,
)
    requires
        walk_run(walk_start(genesis, allow_latest_effect_dispatched), rows) == Ok::<
            HeadGraphWalkModel,
            BarrierError,
        >(end),
        end.phase is Closed,
    ensures
        reachable(genesis, end.current, first_head(genesis)),
        traced(
            walk_start(genesis, allow_latest_effect_dispatched),
            rows,
            end.current,
            first_head(genesis),
        ),
{
    let start = walk_start(genesis, allow_latest_effect_dispatched);
    lemma_run_establishes(start, rows);
    let heads = choose|heads: Seq<WorkspaceHeadRecordModel>| #[trigger]
        traces(start, rows, heads, end.current->0, first_head(genesis));
    assert(reaches(genesis, heads, end.current->0, first_head(genesis)));
}

/// In a chain down to the first head, versions count up one by one from there, tails
/// never go back, and workspace, root and lineage are those of the genesis.
pub proof fn law_chain_descends_from_genesis(
    genesis: BarrierGenesisModel,
    heads: Seq<WorkspaceHeadRecordModel>,
    current: WorkspaceHeadRecordModel,
    i: int,
)
    requires
        reaches(genesis, heads, current, first_head(genesis)),
        0 <= i < heads.len(),
    ensures
        heads[i].head.workspace_version == heads.len() - i,
        heads[i].head.workspace_id == genesis.workspace_id,
        heads[i].head.base_root_digest == genesis.root_digest,
        heads[i].head.object_lineage == genesis.object_lineage,
        i + 1 < heads.len() ==> heads[i].head.committed_tail_position
            >= heads[i + 1].head.committed_tail_position,
    decreases heads.len() - i,
{
    if i + 1 < heads.len() {
        law_chain_descends_from_genesis(genesis, heads, current, i + 1);
        lemma_link_extends(genesis, heads[i + 1], heads[i]);
    }
}

/// How many rows a walk may still read.
pub open spec fn rows_left(walk: HeadGraphWalkModel) -> int {
    match walk.phase {
        WalkPhaseModel::Current => 4 * u64::MAX + 1,
        WalkPhaseModel::Version(cursor) => 4 * cursor.head.workspace_version as int,
        WalkPhaseModel::Receipt(cursor) => 4 * cursor.head.workspace_version as int - 1,
        WalkPhaseModel::Operation(cursor, _) => 4 * cursor.head.workspace_version as int - 2,
        WalkPhaseModel::Previous(cursor, _) => 4 * cursor.head.workspace_version as int - 3,
        WalkPhaseModel::Closed => 0,
    }
}

/// Every row that is accepted brings a walk nearer to its end, so a walk ends after at
/// most four rows for each version.
pub proof fn law_walk_ends(walk: HeadGraphWalkModel, row: GraphRowModel, next: HeadGraphWalkModel)
    requires
        walk_step(walk, row) == Ok::<HeadGraphWalkModel, BarrierError>(next),
    ensures
        rows_left(next) < rows_left(walk),
{
    match (walk.phase, row) {
        (WalkPhaseModel::Previous(cursor, receipt), GraphRowModel::Head(Some(record))) => {
            law_next_head_extends(record, answered(receipt), cut_of(receipt), cursor);
        },
        _ => {},
    }
}

} // verus!
