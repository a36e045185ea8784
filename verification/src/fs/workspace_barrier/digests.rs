//! The digests and claims of barriers.

use super::types::BarrierCommand;
use super::types::BarrierCommandModel;
use super::types::BarrierDurabilityReceipt;
use super::types::BarrierDurabilityReceiptModel;
use super::types::BarrierError;
use super::types::BarrierGenesis;
use super::types::BarrierGenesisModel;
use super::types::HeadDigest;
use super::types::WorkspaceHead;
use super::types::WorkspaceHeadModel;
use super::types::WorkspaceHeadRecord;
use super::types::WorkspaceHeadRecordModel;
use crate::fs::export_authority::mutation::authority_fields;
use crate::fs::export_authority::mutation::put_authority_fields;
use crate::fs::export_authority::mutation::put_session_fields;
use crate::fs::export_authority::mutation::session_fields;
use crate::fs::export_authority::types::MutationFenceToken;
use crate::fs::export_authority::types::MutationFenceTokenModel;
use crate::fs::key_codec::be8;
use crate::fs::key_codec::be_i32;
use crate::fs::key_codec::put_be_i32;
use crate::outside::bytes_from_vec;
use crate::outside::bytes_slice;
use crate::outside::contents;
use crate::outside::sha256;
use crate::outside::sha256_digest;
use crate::outside::utf8_str;
use crate::outside::uuid_parse;
use crate::outside::uuid_random;
use crate::outside::uuid_text;
use crate::text::hyphenated;
use crate::text::lemma_hyphenated_plain;
use crate::text::lemma_plain_bytes;
use crate::wire::be_bytes;
use crate::wire::be_value;
use crate::wire::get_be;
use crate::wire::lemma_be_bytes_len;
use crate::wire::lemma_be_roundtrip;
use crate::wire::lemma_be_value_bytes;
use crate::wire::lemma_fixed_split;
use crate::wire::lemma_long_field_split;
use crate::wire::lemma_span_values;
use crate::wire::lemma_utf8_injective;
use crate::wire::long_field;
use crate::wire::long_text;
use crate::wire::put_be;
use crate::wire::put_bytes;
use crate::wire::put_long_field;
use crate::wire::put_long_text;
use crate::wire::same_bytes;
use crate::wire::same_str;
use crate::wire::starts_with;
use bytes::Bytes;
use vstd::prelude::*;
use vstd::slice::slice_subrange;
use vstd::utf8::encode_utf8;

verus! {

broadcast use lemma_be_bytes_len;

/// The fields of a token, for a digest.
#[verifier::opaque]
pub open spec fn token_fields(token: MutationFenceTokenModel) -> Seq<u8> {
    long_text(token.workspace_id) + (long_field(token.export.name) + (be8(
        token.export.nbd_directory_inode,
    ) + (be8(token.export.inode) + (be8(token.export.advertised_size) + (authority_fields(
        token.authority,
    ) + session_fields(token))))))
}

/// The fields of a command, for a digest.
pub open spec fn command_fields(command: BarrierCommandModel) -> Seq<u8> {
    long_text(command.operation.workspace_id) + (long_text(command.operation.request_id) + (be_i32(
        command.operation.kind,
    ) + (command.request_digest + (token_fields(command.token) + (command.expected_head_digest + (
    long_text(command.storage_shard_id) + be8(command.storage_routing_revision)))))))
}

/// What a command's digest is the digest of.
pub open spec fn command_preimage(command: BarrierCommandModel) -> Seq<u8> {
    encode_utf8("rhizome.workspace-barrier-command.v1\0"@) + command_fields(command)
}

/// The digest of a command.
pub open spec fn command_sha256(command: BarrierCommandModel) -> Seq<u8> {
    sha256(command_preimage(command))@
}

fn put_token_fields(out: &mut Vec<u8>, token: &MutationFenceToken)
    ensures
        final(out)@ == old(out)@ + token_fields(token@),
{
    put_long_text(out, &token.workspace_id);
    put_long_field(out, &token.export.name);
    put_be(out, token.export.nbd_directory_inode, 8);
    put_be(out, token.export.inode, 8);
    put_be(out, token.export.advertised_size, 8);
    put_authority_fields(out, &token.authority);
    put_session_fields(out, token);
    reveal(token_fields);
    assert(out@ =~= old(out)@ + token_fields(token@));
}

pub fn command_digest(command: &BarrierCommand) -> (digest: [u8; 32])
    ensures
        digest@ == command_sha256(command@),
{
    let mut preimage: Vec<u8> = Vec::new();
    put_bytes(&mut preimage, "rhizome.workspace-barrier-command.v1\0".as_bytes());
    put_long_text(&mut preimage, &command.operation.workspace_id);
    put_long_text(&mut preimage, &command.operation.request_id);
    put_be_i32(&mut preimage, command.operation.kind);
    put_bytes(&mut preimage, command.request_digest.as_bytes());
    put_token_fields(&mut preimage, &command.token);
    put_bytes(&mut preimage, &command.expected_head_digest.0);
    put_long_text(&mut preimage, &command.storage_shard_id);
    put_be(&mut preimage, command.storage_routing_revision, 8);
    assert(preimage@ =~= command_preimage(command@));
    sha256_digest(&preimage)
}

/// A text is the hyphenated lower-case form of a random (version 4) UUID.
pub open spec fn canonical_v4(text: Seq<char>) -> bool {
    exists|id: [u8; 16]| text == #[trigger] hyphenated(id@) && id@[6] / 16 == 4
}

/// Whether a text is the canonical form of a random UUID.
pub fn is_canonical_v4(text: &str) -> (canonical: bool)
    ensures
        canonical == canonical_v4(text@),
{
    match uuid_parse(text) {
        Some(id) => {
            let written = uuid_text(id);
            let same = same_str(&written, text);
            proof {
                if same && id@[6] / 16 == 4 {
                    assert(text@ == hyphenated(id@));
                }
            }
            id[6] / 16 == 4 && same
        },
        None => false,
    }
}

/// The canonical form of a new random UUID.
pub fn new_canonical_v4() -> (text: String)
    ensures
        canonical_v4(text@),
{
    let id = uuid_random();
    let text = uuid_text(id);
    assert(text@ == hyphenated(id@));
    text
}

/// The claim that authorizes one attempt at a barrier: it names the command, the
/// barrier and who installs it.
pub open spec fn claim_bytes(
    command: BarrierCommandModel,
    barrier_id: Seq<char>,
    installer_id: Seq<char>,
) -> Seq<u8> {
    encode_utf8("rhizome.workspace-barrier-dispatch.v1\0"@) + (command_sha256(command) + (long_text(
        barrier_id,
    ) + long_text(installer_id)))
}

pub fn effect_claim(command: &BarrierCommand, barrier_id: &str, installer_id: &str) -> (claim:
    Bytes)
    ensures
        contents(claim) == claim_bytes(command@, barrier_id@, installer_id@),
{
    let mut bytes: Vec<u8> = Vec::new();
    put_bytes(&mut bytes, "rhizome.workspace-barrier-dispatch.v1\0".as_bytes());
    put_bytes(&mut bytes, &command_digest(command));
    put_long_text(&mut bytes, barrier_id);
    put_long_text(&mut bytes, installer_id);
    assert(bytes@ =~= claim_bytes(command@, barrier_id@, installer_id@));
    bytes_from_vec(bytes)
}

/// A claim authorizes the barrier of that identity for the command: some installer made
/// it, and both identities are canonical.
pub open spec fn claims(claim: Seq<u8>, command: BarrierCommandModel, barrier_id: Seq<char>) -> bool {
    &&& canonical_v4(barrier_id)
    &&& exists|installer_id: Seq<char>|
        canonical_v4(installer_id) && claim == #[trigger] claim_bytes(
            command,
            barrier_id,
            installer_id,
        )
}

fn take_claim_field(input: &[u8]) -> (result: Option<(&[u8], &[u8])>)
    ensures
        match result {
            Some((value, rest)) => input@ == long_field(value@) + rest@,
            None => forall|value: Seq<u8>, rest: Seq<u8>|
                value.len() <= u64::MAX ==> input@ != #[trigger] (long_field(value) + rest),
        },
{
    proof {
        assert forall|value: Seq<u8>, rest: Seq<u8>|
            value.len() <= u64::MAX && input@ == #[trigger] (long_field(value)
                + rest) implies input@.len() >= 8 + value.len() && be_value(input@.subrange(0, 8))
            == value.len() by {
            lemma_span_values();
            lemma_be_roundtrip(value.len(), 8);
            assert(input@.subrange(0, 8) =~= be_bytes(value.len(), 8));
        }
    }
    if input.len() < 8 {
        return None;
    }
    let length: u64 = get_be(input, 0, 8);
    if length > (input.len() - 8) as u64 {
        return None;
    }
    let end: usize = 8 + length as usize;
    let value = slice_subrange(input, 8, end);
    let rest = slice_subrange(input, end, input.len());
    proof {
        lemma_be_value_bytes(input@.subrange(0, 8));
        assert(input@ =~= long_field(value@) + rest@);
    }
    Some((value, rest))
}

/// A canonical UUID takes 36 bytes.
pub proof fn lemma_canonical_len(text: Seq<char>)
    requires
        canonical_v4(text),
    ensures
        encode_utf8(text).len() == 36,
{
    let id = choose|id: [u8; 16]| text == #[trigger] hyphenated(id@) && id@[6] / 16 == 4;
    lemma_hyphenated_plain(id@);
    lemma_plain_bytes(text);
}

/// Whether `claim` authorizes the barrier of that identity for the command.
pub fn claim_matches(claim: &[u8], command: &BarrierCommand, barrier_id: &str) -> (matches: bool)
    ensures
        matches == claims(claim@, command@, barrier_id@),
{
    let domain = "rhizome.workspace-barrier-dispatch.v1\0".as_bytes();
    if !starts_with(claim, domain) {
        proof {
            assert forall|installer_id: Seq<char>| claim@ != #[trigger] claim_bytes(
                command@,
                barrier_id@,
                installer_id,
            ) by {
                assert(claim_bytes(command@, barrier_id@, installer_id).subrange(
                    0,
                    domain@.len() as int,
                ) =~= domain@);
            }
        }
        return false;
    }
    let after_domain = slice_subrange(claim, domain.len(), claim.len());
    assert(claim@ =~= domain@ + after_domain@);
    proof {
        assert forall|installer_id: Seq<char>|
            claim@ == #[trigger] claim_bytes(
                command@,
                barrier_id@,
                installer_id,
            ) implies after_domain@ == command_sha256(command@) + (long_text(barrier_id@)
            + long_text(installer_id)) by {
            lemma_fixed_split(
                domain@,
                after_domain@,
                domain@,
                command_sha256(command@) + (long_text(barrier_id@) + long_text(installer_id)),
            );
        }
    }
    if after_domain.len() < 32 {
        return false;
    }
    let digest = command_digest(command);
    let after_digest = slice_subrange(after_domain, 32, after_domain.len());
    let found_digest = slice_subrange(after_domain, 0, 32);
    assert(after_domain@ =~= found_digest@ + after_digest@);
    proof {
        assert forall|installer_id: Seq<char>|
            claim@ == #[trigger] claim_bytes(
                command@,
                barrier_id@,
                installer_id,
            ) implies found_digest@ == digest@ && after_digest@ == long_text(barrier_id@)
            + long_text(installer_id) by {
            lemma_fixed_split(
                found_digest@,
                after_digest@,
                digest@,
                long_text(barrier_id@) + long_text(installer_id),
            );
        }
    }
    if !same_bytes(found_digest, &digest) {
        return false;
    }
    if !is_canonical_v4(barrier_id) {
        return false;
    }
    proof {
        lemma_canonical_len(barrier_id@);
    }
    let (encoded_barrier, after_barrier) = match take_claim_field(after_digest) {
        Some(parts) => parts,
        None => {
            return false;
        },
    };
    proof {
        assert forall|installer_id: Seq<char>|
            claim@ == #[trigger] claim_bytes(
                command@,
                barrier_id@,
                installer_id,
            ) implies encoded_barrier@ == encode_utf8(barrier_id@) && after_barrier@ == long_text(
            installer_id,
        ) by {
            lemma_long_field_split(
                encoded_barrier@,
                after_barrier@,
                encode_utf8(barrier_id@),
                long_text(installer_id),
            );
        }
    }
    let (installer, tail) = match take_claim_field(after_barrier) {
        Some(parts) => parts,
        None => {
            proof {
                assert forall|installer_id: Seq<char>|
                    canonical_v4(installer_id) implies claim@ != #[trigger] claim_bytes(
                    command@,
                    barrier_id@,
                    installer_id,
                ) by {
                    lemma_canonical_len(installer_id);
                    let none = Seq::<u8>::empty();
                    assert(long_text(installer_id) =~= long_text(installer_id) + none);
                }
            }
            return false;
        },
    };
    proof {
        assert forall|installer_id: Seq<char>|
            canonical_v4(installer_id) && claim@ == #[trigger] claim_bytes(
                command@,
                barrier_id@,
                installer_id,
            ) implies installer@ == encode_utf8(installer_id) && tail@.len() == 0 by {
            lemma_canonical_len(installer_id);
            let none = Seq::<u8>::empty();
            assert(long_text(installer_id) =~= long_text(installer_id) + none);
            lemma_long_field_split(installer@, tail@, encode_utf8(installer_id), none);
        }
    }
    if tail.len() != 0 || !same_bytes(encoded_barrier, barrier_id.as_bytes()) {
        return false;
    }
    match utf8_str(installer) {
        Some(installer_id) => {
            proof {
                assert forall|other: Seq<char>|
                    canonical_v4(other) && claim@ == #[trigger] claim_bytes(
                        command@,
                        barrier_id@,
                        other,
                    ) implies other == installer_id@ by {
                    lemma_utf8_injective(other, installer_id@);
                }
                assert(claim@ =~= claim_bytes(command@, barrier_id@, installer_id@));
            }
            is_canonical_v4(installer_id)
        },
        None => {
            proof {
                assert forall|installer_id: Seq<char>|
                    canonical_v4(installer_id) implies claim@ != #[trigger] claim_bytes(
                    command@,
                    barrier_id@,
                    installer_id,
                ) by {
                    vstd::utf8::encode_utf8_valid_utf8(installer_id);
                }
            }
            false
        },
    }
}

/// The fields of a head, for a digest.
pub open spec fn head_fields(head: WorkspaceHeadModel) -> Seq<u8> {
    long_text(head.workspace_id) + (head.base_root_digest + (be8(head.base_root_position) + (be8(
        head.committed_tail_position,
    ) + (head.tail_chain_digest + (be8(head.workspace_version) + long_text(
        head.object_lineage,
    ))))))
}

/// What a head's digest is the digest of.
pub open spec fn head_preimage(head: WorkspaceHeadModel) -> Seq<u8> {
    encode_utf8("rhizome.workspace-head.digest.v1\0"@) + head_fields(head)
}

/// The digest of a head.
pub open spec fn head_sha256(head: WorkspaceHeadModel) -> Seq<u8> {
    sha256(head_preimage(head))@
}

pub fn head_digest(head: &WorkspaceHead) -> (digest: HeadDigest)
    ensures
        digest@ == head_sha256(head@),
{
    let mut preimage: Vec<u8> = Vec::new();
    put_bytes(&mut preimage, "rhizome.workspace-head.digest.v1\0".as_bytes());
    put_long_text(&mut preimage, &head.workspace_id);
    put_bytes(&mut preimage, &head.base_root_digest);
    put_be(&mut preimage, head.base_root_position, 8);
    put_be(&mut preimage, head.committed_tail_position, 8);
    put_bytes(&mut preimage, &head.tail_chain_digest);
    put_be(&mut preimage, head.workspace_version, 8);
    put_long_text(&mut preimage, &head.object_lineage);
    assert(preimage@ =~= head_preimage(head@));
    HeadDigest(sha256_digest(&preimage))
}

/// The chain digest that a workspace starts with.
pub open spec fn initial_chain(genesis: BarrierGenesisModel) -> Seq<u8> {
    sha256(
        encode_utf8("rhizome.workspace-head.initial.v1\0"@) + (long_text(genesis.workspace_id) + (
        long_text(genesis.object_lineage) + genesis.root_digest)),
    )@
}

/// The first head of a workspace: its root, with nothing behind it.
pub open spec fn first_head(genesis: BarrierGenesisModel) -> WorkspaceHeadRecordModel {
    WorkspaceHeadRecordModel {
        head: WorkspaceHeadModel {
            workspace_id: genesis.workspace_id,
            base_root_digest: genesis.root_digest,
            base_root_position: 0,
            committed_tail_position: 0,
            tail_chain_digest: initial_chain(genesis),
            workspace_version: 1,
            object_lineage: genesis.object_lineage,
        },
        last_barrier_request_id: None,
        last_barrier_request_digest: None,
    }
}

pub fn initial_head(genesis: &BarrierGenesis) -> (record: WorkspaceHeadRecord)
    ensures
        record@ == first_head(genesis@),
{
    let mut preimage: Vec<u8> = Vec::new();
    put_bytes(&mut preimage, "rhizome.workspace-head.initial.v1\0".as_bytes());
    put_long_text(&mut preimage, &genesis.workspace_id);
    put_long_text(&mut preimage, &genesis.object_lineage);
    put_bytes(&mut preimage, genesis.root_digest.as_bytes());
    assert(preimage@ =~= encode_utf8("rhizome.workspace-head.initial.v1\0"@) + (long_text(
        genesis@.workspace_id,
    ) + (long_text(genesis@.object_lineage) + genesis@.root_digest)));
    WorkspaceHeadRecord {
        head: WorkspaceHead {
            workspace_id: genesis.workspace_id.clone(),
            base_root_digest: *genesis.root_digest.as_bytes(),
            base_root_position: 0,
            committed_tail_position: 0,
            tail_chain_digest: sha256_digest(&preimage),
            workspace_version: 1,
            object_lineage: genesis.object_lineage.clone(),
        },
        last_barrier_request_id: None,
        last_barrier_request_digest: None,
    }
}

/// Where a barrier cut the sequence of writes, and where that is durable.
pub struct BarrierCut {
    pub included_write_sequence: u64,
    pub writer_epoch: u64,
    pub manifest_id: u64,
    pub durable_sequence: u64,
}

/// The chain digest of a head: it covers the head before, the command and the cut.
pub open spec fn next_chain(
    current: WorkspaceHeadModel,
    command: BarrierCommandModel,
    cut: BarrierCut,
) -> Seq<u8> {
    sha256(
        encode_utf8("rhizome.workspace-head.barrier.v1\0"@) + (head_sha256(current) + (
        command_sha256(command) + (be8(cut.included_write_sequence) + (be8(cut.writer_epoch) + (be8(
            cut.manifest_id,
        ) + be8(cut.durable_sequence)))))),
    )@
}

/// The head after a barrier.
pub open spec fn following_head(
    current: WorkspaceHeadModel,
    command: BarrierCommandModel,
    cut: BarrierCut,
) -> WorkspaceHeadRecordModel {
    WorkspaceHeadRecordModel {
        head: WorkspaceHeadModel {
            committed_tail_position: cut.included_write_sequence,
            tail_chain_digest: next_chain(current, command, cut),
            workspace_version: (current.workspace_version + 1) as u64,
            ..current
        },
        last_barrier_request_id: Some(command.operation.request_id),
        last_barrier_request_digest: Some(command.request_digest),
    }
}

/// The head after a barrier, unless the cut lies before the committed tail or versions
/// have run out.
pub open spec fn next_head_result(
    current: WorkspaceHeadRecordModel,
    command: BarrierCommandModel,
    cut: BarrierCut,
) -> Result<WorkspaceHeadRecordModel, BarrierError> {
    if cut.included_write_sequence < current.head.committed_tail_position {
        Err(BarrierError::Corrupt)
    } else if current.head.workspace_version == u64::MAX {
        Err(BarrierError::Corrupt)
    } else {
        Ok(following_head(current.head, command, cut))
    }
}

/// `result` has the value that `expected` has.
pub open spec fn is_head_result(
    result: Result<WorkspaceHeadRecord, BarrierError>,
    expected: Result<WorkspaceHeadRecordModel, BarrierError>,
) -> bool {
    match expected {
        Ok(record) => result matches Ok(r) && r@ == record,
        Err(error) => result matches Err(e) && e == error,
    }
}

pub fn next_head(
    current: &WorkspaceHeadRecord,
    command: &BarrierCommand,
    included_write_sequence: u64,
    writer_epoch: u64,
    manifest_id: u64,
    durable_sequence: u64,
) -> (result: Result<WorkspaceHeadRecord, BarrierError>)
    ensures
        is_head_result(
            result,
            next_head_result(
                current@,
                command@,
                (BarrierCut {
                    included_write_sequence,
                    writer_epoch,
                    manifest_id,
                    durable_sequence,
                }),
            ),
        ),
{
    let ghost cut = BarrierCut {
        included_write_sequence,
        writer_epoch,
        manifest_id,
        durable_sequence,
    };
    if included_write_sequence < current.head.committed_tail_position {
        return Err(BarrierError::Corrupt);
    }
    if current.head.workspace_version == u64::MAX {
        return Err(BarrierError::Corrupt);
    }
    let version: u64 = current.head.workspace_version + 1;
    let mut preimage: Vec<u8> = Vec::new();
    put_bytes(&mut preimage, "rhizome.workspace-head.barrier.v1\0".as_bytes());
    put_bytes(&mut preimage, &head_digest(&current.head).0);
    put_bytes(&mut preimage, &command_digest(command));
    put_be(&mut preimage, included_write_sequence, 8);
    put_be(&mut preimage, writer_epoch, 8);
    put_be(&mut preimage, manifest_id, 8);
    put_be(&mut preimage, durable_sequence, 8);
    assert(preimage@ =~= encode_utf8("rhizome.workspace-head.barrier.v1\0"@) + (head_sha256(
        current@.head,
    ) + (command_sha256(command@) + (be8(cut.included_write_sequence) + (be8(cut.writer_epoch) + (
    be8(cut.manifest_id) + be8(cut.durable_sequence)))))));
    let chain = sha256_digest(&preimage);
    Ok(
        WorkspaceHeadRecord {
            head: WorkspaceHead {
                workspace_id: current.head.workspace_id.clone(),
                base_root_digest: current.head.base_root_digest,
                base_root_position: current.head.base_root_position,
                committed_tail_position: included_write_sequence,
                tail_chain_digest: chain,
                workspace_version: version,
                object_lineage: current.head.object_lineage.clone(),
            },
            last_barrier_request_id: Some(command.operation.request_id.clone()),
            last_barrier_request_digest: Some(*command.request_digest.as_bytes()),
        },
    )
}

/// Where a receipt's cut lies and when it was made, for a digest.
#[verifier::opaque]
pub open spec fn receipt_cut_fields(receipt: BarrierDurabilityReceiptModel) -> Seq<u8> {
    be8(receipt.included_write_sequence) + (be8(receipt.zerofs_writer_epoch) + (be8(
        receipt.zerofs_manifest_id,
    ) + (be8(receipt.zerofs_durable_sequence) + (long_text(receipt.storage_shard_id) + (be8(
        receipt.storage_routing_revision,
    ) + (be8(receipt.committed_at_unix_seconds) + be_bytes(
        receipt.committed_at_nanos as nat,
        4,
    )))))))
}

/// The fields of a receipt but for its digest, for that digest.
pub open spec fn receipt_fields(receipt: BarrierDurabilityReceiptModel) -> Seq<u8> {
    long_text(receipt.workspace_id) + (long_text(receipt.request_id) + (receipt.request_digest + (
    long_field(receipt.effect_claim) + (token_fields(receipt.token) + (receipt.expected_head_digest
        + (head_sha256(receipt.head) + (long_text(receipt.barrier_id) + receipt_cut_fields(
        receipt,
    ))))))))
}

/// What a receipt's digest is the digest of.
pub open spec fn receipt_preimage(receipt: BarrierDurabilityReceiptModel) -> Seq<u8> {
    encode_utf8("rhizome.workspace-barrier-receipt.v1\0"@) + receipt_fields(receipt)
}

/// The digest that a receipt ought to carry.
pub open spec fn receipt_sha256(receipt: BarrierDurabilityReceiptModel) -> Seq<u8> {
    sha256(receipt_preimage(receipt))@
}

fn put_receipt_cut_fields(out: &mut Vec<u8>, receipt: &BarrierDurabilityReceipt)
    ensures
        final(out)@ == old(out)@ + receipt_cut_fields(receipt@),
{
    put_be(out, receipt.included_write_sequence, 8);
    put_be(out, receipt.zerofs_writer_epoch, 8);
    put_be(out, receipt.zerofs_manifest_id, 8);
    put_be(out, receipt.zerofs_durable_sequence, 8);
    put_long_text(out, &receipt.storage_shard_id);
    put_be(out, receipt.storage_routing_revision, 8);
    put_be(out, receipt.committed_at_unix_seconds, 8);
    put_be(out, receipt.committed_at_nanos as u64, 4);
    reveal(receipt_cut_fields);
    assert(out@ =~= old(out)@ + receipt_cut_fields(receipt@));
}

pub fn receipt_digest(receipt: &BarrierDurabilityReceipt) -> (digest: [u8; 32])
    ensures
        digest@ == receipt_sha256(receipt@),
{
    let mut preimage: Vec<u8> = Vec::new();
    put_bytes(&mut preimage, "rhizome.workspace-barrier-receipt.v1\0".as_bytes());
    put_long_text(&mut preimage, &receipt.workspace_id);
    put_long_text(&mut preimage, &receipt.request_id);
    put_bytes(&mut preimage, &receipt.request_digest);
    put_long_field(&mut preimage, bytes_slice(&receipt.effect_claim));
    put_token_fields(&mut preimage, &receipt.token);
    put_bytes(&mut preimage, &receipt.expected_head_digest.0);
    put_bytes(&mut preimage, &head_digest(&receipt.head).0);
    put_long_text(&mut preimage, &receipt.barrier_id);
    put_receipt_cut_fields(&mut preimage, receipt);
    assert(preimage@ =~= receipt_preimage(receipt@));
    sha256_digest(&preimage)
}

/// A receipt's digest does not cover itself.
pub proof fn lemma_digest_ignores_itself(
    a: BarrierDurabilityReceiptModel,
    b: BarrierDurabilityReceiptModel,
)
    requires
        a == (BarrierDurabilityReceiptModel { receipt_digest: a.receipt_digest, ..b }),
    ensures
        receipt_sha256(a) == receipt_sha256(b),
{
    reveal(receipt_cut_fields);
}

} // verus!
