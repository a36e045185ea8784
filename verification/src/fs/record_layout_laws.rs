//! Where the parts of an operation's record and of a genesis lie, byte by byte.

use super::envelope::envelope;
use super::envelope_laws::binds;
use super::envelope_laws::lemma_binds;
use super::layout_laws::eight;
use super::layout_laws::lemma_eight;
use super::layout_laws::lemma_with_length;
use super::layout_laws::text_with_length;
use super::layout_laws::with_length;
use super::workspace_genesis::codec::encode_record as encode_genesis;
use super::workspace_genesis::codec::genesis_envelope;
use super::workspace_genesis::codec::genesis_payload;
use super::workspace_genesis::codec::lemma_object_key_len;
use super::workspace_genesis::codec::valid_genesis;
use super::workspace_genesis::codec::validate_record as validate_genesis;
use super::workspace_genesis::codec::RECORD_MAGIC;
use super::workspace_genesis::types::GenesisDomainRecord;
use super::workspace_genesis::types::GenesisError;
use super::workspace_operation::codec::decode_record;
use super::workspace_operation::codec::encode_key;
use super::workspace_operation::codec::encode_record;
use super::workspace_operation::codec::record_body;
use super::workspace_operation::codec::VALUE_MAGIC;
use super::workspace_operation::ledger_laws::carried;
use super::workspace_operation::types::WorkspaceOperationError;
use super::workspace_operation::types::WorkspaceOperationKey;
use super::workspace_operation::types::WorkspaceOperationRecord;
use super::workspace_operation::types::WorkspaceOperationState;
use crate::outside::contents;
use crate::outside::sha256;
use crate::wire::be_bytes;
use crate::wire::be_value;
use crate::wire::lemma_be_bytes_len;
use crate::wire::lemma_be_roundtrip;
use crate::wire::lemma_span_values;
use bytes::Bytes;
use vstd::prelude::*;
use vstd::utf8::encode_utf8;

verus! {

broadcast use lemma_be_bytes_len;

/// The byte of a state.
pub open spec fn tag_of(state: WorkspaceOperationState) -> u8 {
    match state {
        WorkspaceOperationState::Pending => 1,
        WorkspaceOperationState::Succeeded(_) => 2,
        WorkspaceOperationState::Failed(_) => 3,
        WorkspaceOperationState::NotCommitted(_) => 4,
        WorkspaceOperationState::EffectDispatched(_) => 5,
    }
}

/// The number in the four bytes from `at`, most significant first.
pub open spec fn four_at(raw: Seq<u8>, at: int) -> int {
    raw[at] * 0x100_0000 + raw[at + 1] * 0x1_0000 + raw[at + 2] * 0x100 + raw[at + 3]
}

/// The parts of a record up to its state lie where the layout puts them: `"RWOP"`, the
/// version, the digest of the key, and the length of what the state carries; and the whole of
/// it is covered by the digest at its end.
pub open spec fn is_framed(raw: Seq<u8>, key: Seq<u8>) -> bool {
    let end = raw.len() - 32;
    &&& raw.len() >= 106
    &&& raw[0] == 0x52
    &&& raw[1] == 0x57
    &&& raw[2] == 0x4f
    &&& raw[3] == 0x50
    &&& raw[4] == 1
    &&& raw.subrange(5, 37) == sha256(key)@
    &&& four_at(raw, 70) == end - 74
    &&& raw.subrange(end, end + 32) == sha256(
        encode_utf8("rhizome.workspace-operation-record.v1\0"@) + raw.subrange(0, end),
    )@
}

/// What a state carries, nothing where it carries nothing.
pub open spec fn carried_bytes(state: WorkspaceOperationState) -> Seq<u8> {
    match carried(state) {
        Some(bytes) => bytes,
        None => Seq::empty(),
    }
}

/// A record is stored in its frame, with the request's digest, the byte of its state and what
/// the state carries.
pub proof fn law_operation_record_layout(
    key: &Bytes,
    record: &WorkspaceOperationRecord,
    stored: Bytes,
)
    requires
        call_ensures(encode_record, (key, record), Ok(stored)),
        record.request_digest@.len() == 32,
    ensures
        is_framed(contents(stored), contents(*key)),
        contents(stored).len() == 106 + carried_bytes(record.state).len(),
        contents(stored).subrange(37, 69) == record.request_digest@,
        contents(stored)[69] == tag_of(record.state),
        contents(stored).subrange(74, contents(stored).len() - 32) == carried_bytes(record.state),
{
    let raw = contents(stored);
    let payload = record@.state.payload();
    let body = record_body(contents(*key), record@);
    let end = raw.len() - 32;
    assert(payload =~= carried_bytes(record.state));
    assert(raw.subrange(0, end) =~= body);
    assert(raw.subrange(5, 37) =~= sha256(contents(*key))@);
    assert(raw.subrange(37, 69) =~= record.request_digest@);
    assert(raw.subrange(74, end) =~= payload);
    assert(raw.subrange(70, 74) =~= be_bytes(payload.len(), 4));
    assert(raw.subrange(end, end + 32) =~= sha256(
        encode_utf8("rhizome.workspace-operation-record.v1\0"@) + body,
    )@);
    lemma_span_values();
    lemma_be_roundtrip(payload.len(), 4);
    lemma_four_at(raw, 70);
    assert(raw[0] == VALUE_MAGIC@[0]);
}

proof fn lemma_four_at(raw: Seq<u8>, at: int)
    requires
        0 <= at,
        at + 4 <= raw.len(),
    ensures
        be_value(raw.subrange(at, at + 4)) == four_at(raw, at),
{
    reveal_with_fuel(be_value, 5);
}

/// A record is read exactly from its frame, where the byte of the state and what it carries
/// fit together: a pending one carries nothing, and every other carries something. What is
/// read is what stands there.
pub proof fn law_operation_record_is_read_from_its_frame(
    key: &Bytes,
    raw: &[u8],
    read: Result<WorkspaceOperationRecord, WorkspaceOperationError>,
)
    requires
        call_ensures(decode_record, (key, raw), read),
    ensures
        read is Ok <==> is_framed(raw@, contents(*key)) && 1 <= raw@[69] <= 5 && (raw@[69] == 1
            <==> raw@.len() == 106),
        read matches Ok(record) ==> {
            &&& record.request_digest@ == raw@.subrange(37, 69)
            &&& tag_of(record.state) == raw@[69]
            &&& carried_bytes(record.state) == raw@.subrange(74, raw@.len() - 32)
        },
        read matches Err(e) ==> e is CorruptRecord,
{
    if raw@.len() >= 106 {
        lemma_four_at(raw@, 70);
        let magic = raw@.subrange(0, 4);
        assert(magic[0] == raw@[0] && magic[1] == raw@[1] && magic[2] == raw@[2] && magic[3]
            == raw@[3]);
        if raw@[0] == 0x52 && raw@[1] == 0x57 && raw@[2] == 0x4f && raw@[3] == 0x50 {
            assert(magic =~= VALUE_MAGIC@);
        }
        match read {
            Ok(record) => {
                assert(record@.state.payload() =~= carried_bytes(record.state));
                assert(carried_bytes(record.state) =~= raw@.subrange(74, raw@.len() - 32));
            },
            Err(_) => {},
        }
    }
}

/// The key of an operation is its layout's version, the workspace, the kind and the request.
pub proof fn law_ledger_key_layout(
    key: &WorkspaceOperationKey,
    encoded: Result<Bytes, WorkspaceOperationError>,
)
    requires
        call_ensures(encode_key, (key,), encoded),
    ensures
        encoded matches Ok(bytes) ==> contents(bytes) == seq![
            0x6du8,
            0x65u8,
            0x74u8,
            0x61u8,
            0x0au8,
            1u8,
        ] + (text_with_length(key.workspace_id@) + (be_bytes(key.kind as nat, 4)
            + text_with_length(key.request_id@))),
{
    if let Ok(bytes) = encoded {
        lemma_with_length(encode_utf8(key.workspace_id@));
        lemma_with_length(encode_utf8(key.request_id@));
        assert(super::key_codec::prefix_bytes(
            super::key_codec::KeyPrefix::WorkspaceOperation,
        ).push(1u8) =~= seq![0x6du8, 0x65u8, 0x74u8, 0x61u8, 0x0au8, 1u8]);
    }
}

/// What is kept of a genesis: the workspace, the actor with its generation, the digests of the
/// request and of the root, where the root lies, and the export.
pub open spec fn genesis_part(record: GenesisDomainRecord) -> Seq<u8> {
    text_with_length(record.workspace_id@) + (text_with_length(record.actor@) + (eight(
        record.actor_generation,
    ) + (record.request_digest@ + (record.root_digest@ + (text_with_length(record.root_object_key@)
        + (eight(record.export.nbd_directory_inode) + (with_length(record.export.name@) + (eight(
        record.export.inode,
    ) + eight(record.export.advertised_size)))))))))
}

proof fn lemma_genesis_part(record: GenesisDomainRecord)
    requires
        valid_genesis(record@),
        record.request_digest@.len() == 32,
        record.root_digest@.len() == 32,
    ensures
        genesis_payload(record@) == genesis_part(record),
        genesis_part(record).len() <= u32::MAX,
{
    lemma_object_key_len(record@.root_digest);
    lemma_with_length(encode_utf8(record.workspace_id@));
    lemma_with_length(encode_utf8(record.actor@));
    lemma_with_length(encode_utf8(record.root_object_key@));
    lemma_with_length(record.export.name@);
    lemma_eight(record.actor_generation);
    lemma_eight(record.export.nbd_directory_inode);
    lemma_eight(record.export.inode);
    lemma_eight(record.export.advertised_size);
}

/// A genesis is stored exactly if it is valid, bound to its key.
pub proof fn law_genesis_record_layout(
    key: &[u8],
    record: &GenesisDomainRecord,
    valid: Result<(), GenesisError>,
    stored: Result<Bytes, GenesisError>,
)
    requires
        record.request_digest@.len() == 32,
        record.root_digest@.len() == 32,
        call_ensures(validate_genesis, (record,), valid),
        call_ensures(encode_genesis, (key, record), stored),
    ensures
        match valid {
            Ok(_) => stored matches Ok(bytes) && binds(
                contents(bytes),
                seq![0x52u8, 0x57u8, 0x47u8, 0x4eu8],
                1,
                "rhizome.workspace-genesis-record.v1\0"@,
                key@,
                genesis_part(*record),
            ),
            Err(fault) => stored == Err::<Bytes, GenesisError>(fault),
        },
{
    if valid is Ok {
        lemma_genesis_part(*record);
        lemma_bound_genesis(contents(stored->Ok_0), key@, genesis_part(*record));
    }
}

proof fn lemma_bound_genesis(bytes: Seq<u8>, key: Seq<u8>, payload: Seq<u8>)
    requires
        payload.len() <= u32::MAX,
        bytes == envelope(genesis_envelope(), key, payload),
    ensures
        binds(
            bytes,
            seq![0x52u8, 0x57u8, 0x47u8, 0x4eu8],
            1,
            "rhizome.workspace-genesis-record.v1\0"@,
            key,
            payload,
        ),
{
    assert(RECORD_MAGIC@ =~= seq![0x52u8, 0x57u8, 0x47u8, 0x4eu8]);
    lemma_binds(bytes, genesis_envelope(), key, payload);
}

/// A record that cannot be read is told the first thing that is wrong with it, from its
/// beginning on: its length, its magic, its version, its key, the length of what it carries,
/// its checksum, its state, and last what the state carries.
pub proof fn law_corrupt_record_says_what_is_wrong(
    key: &Bytes,
    raw: &[u8],
    reason: &'static str,
)
    requires
        call_ensures(
            decode_record,
            (key, raw),
            Err(WorkspaceOperationError::CorruptRecord(reason)),
        ),
    ensures
        ({
            let end = raw@.len() - 32;
            let tag = raw@[69];
            reason@ == if raw@.len() < 106 {
                "record is shorter than its header"@
            } else if !(raw@[0] == 0x52 && raw@[1] == 0x57 && raw@[2] == 0x4f && raw@[3] == 0x50) {
                "record magic does not match"@
            } else if raw@[4] != 1 {
                "record version is unsupported"@
            } else if raw@.subrange(5, 37) != sha256(contents(*key))@ {
                "record is bound to a different operation key"@
            } else if four_at(raw@, 70) != end - 74 {
                "record payload length does not match"@
            } else if raw@.subrange(end, end + 32) != sha256(
                encode_utf8("rhizome.workspace-operation-record.v1\0"@) + raw@.subrange(0, end),
            )@ {
                "record checksum does not match"@
            } else if tag == 0 || tag > 5 {
                "record state is unsupported"@
            } else if tag == 1 {
                "pending record carries a terminal payload"@
            } else if tag == 5 {
                "effect dispatch claim is empty"@
            } else {
                "terminal payload is empty"@
            }
        }),
{
    if raw@.len() >= 106 {
        lemma_four_at(raw@, 70);
        let magic = raw@.subrange(0, 4);
        assert(magic[0] == raw@[0] && magic[1] == raw@[1] && magic[2] == raw@[2] && magic[3]
            == raw@[3]);
        if raw@[0] == 0x52 && raw@[1] == 0x57 && raw@[2] == 0x4f && raw@[3] == 0x50 {
            assert(magic =~= VALUE_MAGIC@);
        }
    }
}

/// An identity that has no key is told why: the first of its parts that is missing, too long
/// or not positive.
pub proof fn law_invalid_identity_says_why(key: &WorkspaceOperationKey, reason: &'static str)
    requires
        call_ensures(
            encode_key,
            (key,),
            Err(WorkspaceOperationError::InvalidIdentity(reason)),
        ),
    ensures
        reason@ == if key.workspace_id@.len() == 0 {
            "workspace_id must not be empty"@
        } else if encode_utf8(key.workspace_id@).len() > 0xFFFF {
            "workspace_id is too long"@
        } else if key.request_id@.len() == 0 {
            "request_id must not be empty"@
        } else if encode_utf8(key.request_id@).len() > 0xFFFF {
            "request_id is too long"@
        } else {
            "operation kind must be positive"@
        },
{
}

/// A record that cannot be stored is told why: its state lacks its bytes, or has too many.
pub proof fn law_unstorable_record_says_why(
    key: &Bytes,
    record: &WorkspaceOperationRecord,
    reason: &'static str,
)
    requires
        call_ensures(
            encode_record,
            (key, record),
            Err(WorkspaceOperationError::CorruptRecord(reason)),
        ),
    ensures
        reason@ == if carried_bytes(record.state).len() > 0 {
            "terminal payload is too large"@
        } else if record.state is EffectDispatched {
            "effect dispatch claim is empty"@
        } else {
            "terminal payload is empty"@
        },
{
    assert(record@.state.payload() =~= carried_bytes(record.state));
}

} // verus!
