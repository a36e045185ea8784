//! A deterministic barrier, from a workspace's first head to its second, for checks of
//! the head and receipt codecs.

use super::digests::canonical_v4;
use super::digests::claim_bytes;
use super::digests::effect_claim;
use super::digests::first_head;
use super::digests::following_head;
use super::digests::head_digest;
use super::digests::head_sha256;
use super::digests::initial_head;
use super::digests::lemma_digest_ignores_itself;
use super::digests::next_head;
use super::digests::receipt_digest;
use super::digests::receipt_sha256;
use super::digests::BarrierCut;
use super::laws::law_own_claim_matches;
use super::records::barrier_envelope;
use super::records::encode_barrier_record;
use super::records::encode_head_record;
use super::records::fits_record;
use super::records::open_barrier_record;
use super::records::open_head_record;
use super::records::BARRIER_MAGIC;
use super::records::HEAD_MAGIC;
use super::rules::answered;
use super::rules::answers;
use super::rules::head_fault;
use super::rules::receipt_fault;
use super::types::BarrierCommand;
use super::types::BarrierCommandModel;
use super::types::BarrierDurabilityReceipt;
use super::types::BarrierDurabilityReceiptModel;
use super::types::BarrierGenesis;
use super::types::BarrierGenesisModel;
use super::types::WorkspaceHeadRecord;
use super::types::WorkspaceHeadRecordModel;
use super::types::CREATE_BARRIER_KIND;
use crate::fs::envelope::envelope;
use crate::fs::envelope::law_envelope_holds_one_payload;
use crate::fs::envelope::law_envelope_is_bound_to_its_key;
use crate::fs::export_authority::rules::lemma_numbered_id;
use crate::fs::export_authority::rules::valid_id;
use crate::fs::export_authority::types::AuthorityVersion;
use crate::fs::export_authority::types::AuthorityVersionModel;
use crate::fs::export_authority::types::ExportIdentity;
use crate::fs::export_authority::types::ExportIdentityModel;
use crate::fs::export_authority::types::MutationFenceToken;
use crate::fs::export_authority::types::MutationFenceTokenModel;
use crate::fs::key_codec::be8;
use crate::fs::key_codec::workspace_barrier_record_key_bytes;
use crate::fs::key_codec::workspace_head_version_key_bytes;
use crate::fs::key_codec::KeyCodec;
use crate::fs::workspace_genesis::types::ContentDigest;
use crate::fs::workspace_operation::types::CanonicalRequestDigest;
use crate::fs::workspace_operation::types::WorkspaceOperationKey;
use crate::fs::workspace_operation::types::WorkspaceOperationKeyModel;
use crate::outside::bytes_slice;
use crate::outside::contents;
use crate::outside::sha256;
use crate::outside::sha256_digest;
use crate::text::decimal;
use crate::text::hex;
use crate::text::hyphenated;
use crate::text::lemma_hyphenated_plain;
use crate::text::lemma_numbered_plain;
use crate::text::lemma_plain_bytes;
use crate::text::numbered;
use crate::wire::put_be;
use crate::wire::same_bytes;
use bytes::Bytes;
use vstd::prelude::*;
use vstd::slice::slice_to_vec;
use vstd::utf8::encode_utf8;

verus! {

/// A barrier and everything around it.
pub struct BarrierCodecModel {
    pub genesis: BarrierGenesis,
    pub initial: WorkspaceHeadRecord,
    pub command: BarrierCommand,
    pub next: WorkspaceHeadRecord,
    pub receipt: BarrierDurabilityReceipt,
    /// Where the second head is stored.
    pub head_key: Bytes,
    /// Where the receipt is stored.
    pub receipt_key: Bytes,
    /// Where the receipt of another request would be stored.
    pub wrong_key: Bytes,
}

/// The number that a model is made from.
pub open spec fn model_number(seed: u64) -> u64 {
    if seed == u64::MAX {
        u64::MAX
    } else {
        (seed + 1) as u64
    }
}

/// `n + more`, or the largest number there is.
pub open spec fn raised(n: u64, more: u64) -> u64 {
    if n + more > u64::MAX {
        u64::MAX
    } else {
        (n + more) as u64
    }
}

/// The digest that stands for every digest of a model's request.
pub open spec fn model_digest(seed: u64) -> Seq<u8> {
    sha256(be8(model_number(seed)))@
}

/// `prefix` followed by the model's number.
pub open spec fn model_name(prefix: Seq<char>, seed: u64) -> Seq<char> {
    prefix + decimal(model_number(seed) as nat)
}

/// The genesis of a model.
pub open spec fn model_genesis(seed: u64) -> BarrierGenesisModel {
    BarrierGenesisModel {
        workspace_id: model_name("workspace-"@, seed),
        actor: model_name("actor-"@, seed),
        actor_generation: model_number(seed),
        home_cell: "cells/dst"@,
        object_lineage: model_name("lineage-"@, seed),
        storage_shard_id: "shard-dst"@,
        storage_routing_revision: 1,
        root_digest: model_digest(seed),
        export: ExportIdentityModel {
            nbd_directory_inode: raised(model_number(seed), 10),
            name: encode_utf8(model_name("disk-"@, seed)),
            inode: raised(model_number(seed), 20),
            advertised_size: 4096,
        },
    }
}

/// The command of a model. It expects the first head.
pub open spec fn model_command(seed: u64) -> BarrierCommandModel {
    let genesis = model_genesis(seed);
    BarrierCommandModel {
        operation: WorkspaceOperationKeyModel {
            workspace_id: genesis.workspace_id,
            kind: CREATE_BARRIER_KIND,
            request_id: model_name("barrier-"@, seed),
        },
        request_digest: model_digest(seed),
        token: MutationFenceTokenModel {
            workspace_id: genesis.workspace_id,
            export: genesis.export,
            authority: AuthorityVersionModel {
                actor: genesis.actor,
                actor_generation: genesis.actor_generation,
                home_cell: genesis.home_cell,
                home_revision: 1,
                authority_epoch: 1,
                placement_epoch: 1,
                assignment_revision: 1,
            },
            session_id: model_name("session-"@, seed),
            capability_id: model_name("capability-"@, seed),
            expires_at_unix_millis: u64::MAX,
            node_incarnation_id: model_name("node-"@, seed),
            runtime_id: model_name("runtime-"@, seed),
            server_boot_id: "00000000-0000-4000-8000-000000000001"@,
        },
        expected_head_digest: head_sha256(first_head(genesis).head),
        storage_shard_id: "shard-dst"@,
        storage_routing_revision: 1,
    }
}

/// The cut of a model.
pub open spec fn model_cut() -> BarrierCut {
    BarrierCut {
        included_write_sequence: 1,
        writer_epoch: 1,
        manifest_id: 2,
        durable_sequence: 3,
    }
}

/// The second head of a model.
pub open spec fn model_next(seed: u64) -> WorkspaceHeadRecordModel {
    following_head(first_head(model_genesis(seed)).head, model_command(seed), model_cut())
}

/// A canonical UUID of zeros but for its version, its variant and its last byte.
pub open spec fn low_id_text(last: u8) -> Seq<char> {
    if last == 1 {
        "00000000-0000-4000-8000-000000000001"@
    } else if last == 2 {
        "00000000-0000-4000-8000-000000000002"@
    } else {
        "00000000-0000-4000-8000-000000000003"@
    }
}

fn low_id(last: u8) -> (text: &'static str)
    requires
        1 <= last <= 3,
    ensures
        text@ == low_id_text(last),
        canonical_v4(text@),
        valid_id(text@),
{
    let text: &'static str = if last == 1 {
        "00000000-0000-4000-8000-000000000001"
    } else if last == 2 {
        "00000000-0000-4000-8000-000000000002"
    } else {
        "00000000-0000-4000-8000-000000000003"
    };
    let id: [u8; 16] = [0, 0, 0, 0, 0, 0, 0x40, 0, 0x80, 0, 0, 0, 0, 0, 0, last];
    proof {
        reveal_strlit("00000000-0000-4000-8000-000000000001");
        reveal_strlit("00000000-0000-4000-8000-000000000002");
        reveal_strlit("00000000-0000-4000-8000-000000000003");
        reveal_with_fuel(hex, 7);
        assert(text@ =~= hyphenated(id@));
        assert(id@[6] / 16 == 4);
        lemma_hyphenated_plain(id@);
        lemma_plain_bytes(text@);
    }
    text
}

fn genesis_of(number: u64, digest: [u8; 32]) -> (genesis: BarrierGenesis)
    requires
        digest@ == sha256(be8(number))@,
        number > 0,
    ensures
        genesis@ == model_genesis((number - 1) as u64),
{
    let disk = numbered("disk-", number);
    let genesis = BarrierGenesis {
        workspace_id: numbered("workspace-", number),
        actor: numbered("actor-", number),
        actor_generation: number,
        home_cell: "cells/dst".to_owned(),
        object_lineage: numbered("lineage-", number),
        storage_shard_id: "shard-dst".to_owned(),
        storage_routing_revision: 1,
        root_digest: ContentDigest::new(digest),
        export: ExportIdentity {
            nbd_directory_inode: number.saturating_add(10),
            name: slice_to_vec(disk.as_str().as_bytes()),
            inode: number.saturating_add(20),
            advertised_size: 4096,
        },
    };
    genesis
}

fn token_of(number: u64, genesis: &BarrierGenesis) -> (token: MutationFenceToken)
    requires
        number > 0,
        genesis@ == model_genesis((number - 1) as u64),
    ensures
        token@ == model_command((number - 1) as u64).token,
        valid_id(token@.server_boot_id),
{
    MutationFenceToken {
        workspace_id: genesis.workspace_id.clone(),
        export: genesis.export.clone(),
        authority: AuthorityVersion {
            actor: genesis.actor.clone(),
            actor_generation: genesis.actor_generation,
            home_cell: genesis.home_cell.clone(),
            home_revision: 1,
            authority_epoch: 1,
            placement_epoch: 1,
            assignment_revision: 1,
        },
        session_id: numbered("session-", number),
        capability_id: numbered("capability-", number),
        expires_at_unix_millis: u64::MAX,
        node_incarnation_id: numbered("node-", number),
        runtime_id: numbered("runtime-", number),
        server_boot_id: low_id(1).to_owned(),
    }
}

/// The receipt of a model.
pub open spec fn model_receipt(seed: u64) -> BarrierDurabilityReceiptModel {
    let command = model_command(seed);
    let unsigned = BarrierDurabilityReceiptModel {
        workspace_id: command.operation.workspace_id,
        request_id: command.operation.request_id,
        request_digest: command.request_digest,
        effect_claim: claim_bytes(command, low_id_text(2), low_id_text(3)),
        token: command.token,
        expected_head_digest: command.expected_head_digest,
        head: model_next(seed).head,
        barrier_id: low_id_text(2),
        included_write_sequence: 1,
        zerofs_writer_epoch: 1,
        zerofs_manifest_id: 2,
        zerofs_durable_sequence: 3,
        storage_shard_id: "shard-dst"@,
        storage_routing_revision: 1,
        committed_at_unix_seconds: model_number(seed),
        committed_at_nanos: 0,
        receipt_digest: Seq::new(32, |i: int| 0u8),
    };
    BarrierDurabilityReceiptModel { receipt_digest: receipt_sha256(unsigned), ..unsigned }
}

/// The names of a model are valid identifiers.
proof fn lemma_model_names(seed: u64)
    ensures
        valid_id(model_name("workspace-"@, seed)),
        valid_id(model_name("barrier-"@, seed)),
        valid_id(model_name("actor-"@, seed)),
        valid_id(model_name("session-"@, seed)),
        valid_id(model_name("capability-"@, seed)),
        valid_id(model_name("node-"@, seed)),
        valid_id(model_name("runtime-"@, seed)),
        valid_id(model_name("lineage-"@, seed)),
        valid_id("cells/dst"@),
        valid_id("shard-dst"@),
        valid_id("other"@),
        encode_utf8(model_name("disk-"@, seed)).len() > 0,
{
    let n = model_number(seed);
    reveal_strlit("workspace-");
    reveal_strlit("barrier-");
    reveal_strlit("actor-");
    reveal_strlit("session-");
    reveal_strlit("capability-");
    reveal_strlit("node-");
    reveal_strlit("runtime-");
    reveal_strlit("lineage-");
    reveal_strlit("disk-");
    reveal_strlit("cells/dst");
    reveal_strlit("shard-dst");
    reveal_strlit("other");
    lemma_numbered_id("workspace-"@, n);
    lemma_numbered_id("barrier-"@, n);
    lemma_numbered_id("actor-"@, n);
    lemma_numbered_id("session-"@, n);
    lemma_numbered_id("capability-"@, n);
    lemma_numbered_id("node-"@, n);
    lemma_numbered_id("runtime-"@, n);
    lemma_numbered_id("lineage-"@, n);
    lemma_numbered_id("disk-"@, n);
    lemma_plain_bytes("cells/dst"@);
    lemma_plain_bytes("shard-dst"@);
    lemma_plain_bytes("other"@);
    lemma_numbered_plain("disk-"@, n as nat);
    lemma_plain_bytes(model_name("disk-"@, seed));
}

/// Makes the barrier of `seed`: a workspace's first head, a command that expects it, the
/// head that follows, and its receipt, with the keys under which the codecs store them.
pub fn dst_workspace_barrier_codec_model(seed: u64) -> (model: BarrierCodecModel)
    ensures
        model.genesis@ == model_genesis(seed),
        model.initial@ == first_head(model_genesis(seed)),
        model.command@ == model_command(seed),
        model.next@ == model_next(seed),
        model.receipt@ == model_receipt(seed),
        receipt_fault(model.receipt@) is None,
        answers(model.receipt@, model.command@),
        contents(model.head_key) == workspace_head_version_key_bytes(
            model_genesis(seed).workspace_id,
            2,
        ),
        contents(model.receipt_key) == workspace_barrier_record_key_bytes(
            model_genesis(seed).workspace_id,
            model_command(seed).operation.request_id,
        ),
        contents(model.wrong_key) == workspace_barrier_record_key_bytes(
            model_genesis(seed).workspace_id,
            "other"@,
        ),
{
    let number: u64 = seed.saturating_add(1);
    let mut number_bytes: Vec<u8> = Vec::new();
    put_be(&mut number_bytes, number, 8);
    assert(number_bytes@ =~= be8(number));
    let digest = sha256_digest(&number_bytes);
    let genesis = genesis_of(number, digest);
    proof {
        lemma_model_names(seed);
        assert(model_genesis((number - 1) as u64) == model_genesis(seed));
        assert(model_command((number - 1) as u64) == model_command(seed));
    }
    let initial = initial_head(&genesis);
    let request_id = numbered("barrier-", number);
    let command = BarrierCommand {
        operation: WorkspaceOperationKey::new(
            &genesis.workspace_id,
            CREATE_BARRIER_KIND,
            &request_id,
        ),
        request_digest: CanonicalRequestDigest::new(digest),
        token: token_of(number, &genesis),
        expected_head_digest: head_digest(&initial.head),
        storage_shard_id: "shard-dst".to_owned(),
        storage_routing_revision: 1,
    };
    let barrier_id = low_id(2);
    let installer_id = low_id(3);
    let claim = effect_claim(&command, barrier_id, installer_id);
    let next = match next_head(&initial, &command, 1, 1, 2, 3) {
        Ok(next) => next,
        Err(_) => vstd::pervasive::unreached(),
    };
    let mut receipt = BarrierDurabilityReceipt {
        workspace_id: genesis.workspace_id.clone(),
        request_id: request_id.clone(),
        request_digest: digest,
        effect_claim: claim,
        token: command.token.clone(),
        expected_head_digest: command.expected_head_digest,
        head: next.head.clone(),
        barrier_id: barrier_id.to_owned(),
        included_write_sequence: 1,
        zerofs_writer_epoch: 1,
        zerofs_manifest_id: 2,
        zerofs_durable_sequence: 3,
        storage_shard_id: "shard-dst".to_owned(),
        storage_routing_revision: 1,
        committed_at_unix_seconds: number,
        committed_at_nanos: 0,
        receipt_digest: [0; 32],
    };
    assert(receipt@.receipt_digest =~= Seq::new(32, |i: int| 0u8));
    let ghost unsigned = receipt@;
    receipt.receipt_digest = receipt_digest(&receipt);
    proof {
        assert(receipt@ == model_receipt(seed));
        assert(answered(receipt@) == command@);
        law_own_claim_matches(command@, barrier_id@, installer_id@);
        lemma_digest_ignores_itself(receipt@, unsigned);
    }
    let codec = KeyCodec::new();
    let head_key = codec.workspace_head_version_key(&genesis.workspace_id, 2);
    let receipt_key = codec.workspace_barrier_record_key(&genesis.workspace_id, &request_id);
    let wrong_key = codec.workspace_barrier_record_key(&genesis.workspace_id, "other");
    BarrierCodecModel {
        genesis,
        initial,
        command,
        next,
        receipt,
        head_key,
        receipt_key,
        wrong_key,
    }
}

/// Whether the codecs give back what was stored, and refuse it under another key. The
/// payloads are the serialized head and receipt.
pub fn check_barrier_codecs(
    model: &BarrierCodecModel,
    head_payload: &[u8],
    receipt_payload: &[u8],
) -> (passed: bool)
    ensures
        passed == (head_fault(model.next@) is None && receipt_fault(model.receipt@) is None
            && fits_record(head_payload@) && fits_record(receipt_payload@) && sha256(contents(model.receipt_key))@ != sha256(contents(model.wrong_key))@),
{
    let head_key = bytes_slice(&model.head_key);
    let receipt_key = bytes_slice(&model.receipt_key);
    let wrong_key = bytes_slice(&model.wrong_key);
    let encoded_head = match encode_head_record(head_key, &model.next, head_payload) {
        Ok(encoded) => encoded,
        Err(_) => {
            return false;
        },
    };
    let encoded_receipt = match encode_barrier_record(receipt_key, &model.receipt, receipt_payload) {
        Ok(encoded) => encoded,
        Err(_) => {
            return false;
        },
    };
    let head = open_head_record(head_key, bytes_slice(&encoded_head));
    let receipt = open_barrier_record(receipt_key, bytes_slice(&encoded_receipt));
    let misplaced = open_barrier_record(wrong_key, bytes_slice(&encoded_receipt));
    proof {
        let head_kind = barrier_envelope(HEAD_MAGIC);
        let kind = barrier_envelope(BARRIER_MAGIC);
        if head is Ok {
            law_envelope_holds_one_payload(head_kind, head_key@, head_payload@, head->Ok_0@);
        }
        if receipt is Ok {
            law_envelope_holds_one_payload(kind, receipt_key@, receipt_payload@, receipt->Ok_0@);
        }
        if sha256(receipt_key@)@ != sha256(wrong_key@)@ {
            law_envelope_is_bound_to_its_key(kind, receipt_key@, wrong_key@, receipt_payload@);
        } else {
            assert(envelope(kind, receipt_key@, receipt_payload@) == envelope(
                kind,
                wrong_key@,
                receipt_payload@,
            ));
        }
    }
    let head_found = match head {
        Ok(payload) => same_bytes(payload, head_payload),
        Err(_) => false,
    };
    let receipt_found = match receipt {
        Ok(payload) => same_bytes(payload, receipt_payload),
        Err(_) => false,
    };
    head_found && receipt_found && misplaced.is_err()
}

} // verus!
