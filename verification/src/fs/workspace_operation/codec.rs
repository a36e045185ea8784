//! The stored form of an operation record.

use super::types::CanonicalRequestDigest;
use super::types::OperationErrorModel;
use super::types::OperationRecordModel;
use super::types::StateModel;
use super::types::WorkspaceOperationError;
use super::types::WorkspaceOperationKey;
use super::types::WorkspaceOperationKeyModel;
use super::types::WorkspaceOperationRecord;
use super::types::WorkspaceOperationState;
use crate::fs::key_codec::workspace_operation_key_bytes;
use crate::fs::key_codec::KeyCodec;
use crate::outside::bytes_copy;
use crate::outside::bytes_from_vec;
use crate::outside::bytes_slice;
use crate::outside::contents;
use crate::outside::sha256;
use crate::outside::sha256_digest;
use crate::wire::be_bytes;
use crate::wire::be_value;
use crate::wire::get_be;
use crate::wire::lemma_be_bytes_len;
use crate::wire::put_be;
use crate::wire::put_bytes;
use crate::wire::same_bytes;
use bytes::Bytes;
use vstd::prelude::*;
use vstd::slice::slice_subrange;
use vstd::utf8::encode_utf8;

verus! {

broadcast use lemma_be_bytes_len;

/// The version of ledger keys.
pub const KEY_VERSION: u8 = 1;

/// `"RWOP"`.
pub const VALUE_MAGIC: [u8; 4] = [0x52, 0x57, 0x4f, 0x50];

pub const VALUE_VERSION: u8 = 1;

const DIGEST_SIZE: usize = 32;

/// Bytes before the payload: magic, version, key digest, request digest, state and
/// payload length.
const VALUE_HEADER_SIZE: usize = 74;

/// What a record's checksum is computed over, before the record.
pub open spec fn checksum_domain() -> Seq<u8> {
    encode_utf8("rhizome.workspace-operation-record.v1\0"@)
}

/// The number that stands for a state.
pub open spec fn state_tag(state: StateModel) -> u8 {
    match state {
        StateModel::Pending => 1,
        StateModel::Succeeded(_) => 2,
        StateModel::Failed(_) => 3,
        StateModel::NotCommitted(_) => 4,
        StateModel::EffectDispatched(_) => 5,
    }
}

/// A record up to its checksum.
pub open spec fn record_body(key: Seq<u8>, record: OperationRecordModel) -> Seq<u8> {
    VALUE_MAGIC@ + seq![VALUE_VERSION] + sha256(key)@ + record.request_digest + seq![
        state_tag(record.state),
    ] + be_bytes(record.state.payload().len(), 4) + record.state.payload()
}

/// The stored form of a record under `key`.
pub open spec fn record_bytes(key: Seq<u8>, record: OperationRecordModel) -> Seq<u8> {
    record_body(key, record) + sha256(checksum_domain() + record_body(key, record))@
}

/// The error for a corrupt record.
pub open spec fn corrupt(reason: Seq<char>) -> OperationErrorModel {
    OperationErrorModel::CorruptRecord(reason)
}

/// What is wrong with a record whose state carries no bytes.
pub open spec fn record_fault(state: StateModel) -> OperationErrorModel {
    if state is EffectDispatched {
        corrupt("effect dispatch claim is empty"@)
    } else {
        corrupt("terminal payload is empty"@)
    }
}

/// A key names a workspace and a request, neither too long for the ledger's key, and a
/// positive kind.
pub open spec fn key_fault(key: WorkspaceOperationKeyModel) -> Option<OperationErrorModel> {
    if key.workspace_id.len() == 0 {
        Some(OperationErrorModel::InvalidIdentity("workspace_id must not be empty"@))
    } else if encode_utf8(key.workspace_id).len() > 0xFFFF {
        Some(OperationErrorModel::InvalidIdentity("workspace_id is too long"@))
    } else if key.request_id.len() == 0 {
        Some(OperationErrorModel::InvalidIdentity("request_id must not be empty"@))
    } else if encode_utf8(key.request_id).len() > 0xFFFF {
        Some(OperationErrorModel::InvalidIdentity("request_id is too long"@))
    } else if key.kind <= 0 {
        Some(OperationErrorModel::InvalidIdentity("operation kind must be positive"@))
    } else {
        None
    }
}

/// The ledger key of an operation.
pub open spec fn ledger_key(key: WorkspaceOperationKeyModel) -> Seq<u8> {
    workspace_operation_key_bytes(
        KEY_VERSION,
        encode_utf8(key.workspace_id),
        key.kind,
        encode_utf8(key.request_id),
    )
}

/// The ledger key of an operation, if its identity is valid.
pub fn encode_key(key: &WorkspaceOperationKey) -> (result: Result<Bytes, WorkspaceOperationError>)
    ensures
        match key_fault(key@) {
            None => result matches Ok(bytes) && contents(bytes) == ledger_key(key@),
            Some(fault) => result matches Err(e) && e@ == fault,
        },
{
    if key.workspace_id.as_str().is_empty() {
        return Err(WorkspaceOperationError::InvalidIdentity("workspace_id must not be empty"));
    }
    if key.workspace_id.as_str().as_bytes().len() > 0xFFFF {
        return Err(WorkspaceOperationError::InvalidIdentity("workspace_id is too long"));
    }
    if key.request_id.as_str().is_empty() {
        return Err(WorkspaceOperationError::InvalidIdentity("request_id must not be empty"));
    }
    if key.request_id.as_str().as_bytes().len() > 0xFFFF {
        return Err(WorkspaceOperationError::InvalidIdentity("request_id is too long"));
    }
    if key.kind <= 0 {
        return Err(WorkspaceOperationError::InvalidIdentity("operation kind must be positive"));
    }
    Ok(
        KeyCodec::new().workspace_operation_key(
            KEY_VERSION,
            key.workspace_id.as_str().as_bytes(),
            key.kind,
            key.request_id.as_str().as_bytes(),
        ),
    )
}

/// Accepts a record unless its state lacks its bytes.
pub fn validate_record(record: &WorkspaceOperationRecord) -> (result: Result<
    (),
    WorkspaceOperationError,
>)
    ensures
        record@.state.valid() ==> result is Ok,
        !record@.state.valid() ==> (result matches Err(e) && e@ == record_fault(record@.state)),
{
    match &record.state {
        WorkspaceOperationState::Pending => Ok(()),
        WorkspaceOperationState::EffectDispatched(bytes) => if bytes_slice(bytes).len() == 0 {
            Err(WorkspaceOperationError::CorruptRecord("effect dispatch claim is empty"))
        } else {
            Ok(())
        },
        WorkspaceOperationState::Succeeded(bytes) => validate_terminal(bytes),
        WorkspaceOperationState::Failed(bytes) => validate_terminal(bytes),
        WorkspaceOperationState::NotCommitted(bytes) => validate_terminal(bytes),
    }
}

fn validate_terminal(bytes: &Bytes) -> (result: Result<(), WorkspaceOperationError>)
    ensures
        contents(*bytes).len() > 0 ==> result is Ok,
        contents(*bytes).len() == 0 ==> (result matches Err(e) && e@ == corrupt(
            "terminal payload is empty"@,
        )),
{
    if bytes_slice(bytes).len() == 0 {
        Err(WorkspaceOperationError::CorruptRecord("terminal payload is empty"))
    } else {
        Ok(())
    }
}

fn checksum(body: &[u8]) -> (digest: [u8; 32])
    ensures
        digest@ == sha256(checksum_domain() + body@)@,
{
    let mut preimage: Vec<u8> = Vec::new();
    put_bytes(&mut preimage, "rhizome.workspace-operation-record.v1\0".as_bytes());
    put_bytes(&mut preimage, body);
    assert(preimage@ =~= checksum_domain() + body@);
    sha256_digest(&preimage)
}

fn put_state(out: &mut Vec<u8>, tag: u8, payload: &[u8])
    requires
        payload@.len() <= u32::MAX,
    ensures
        final(out)@ == old(out)@ + (seq![tag] + be_bytes(payload@.len(), 4) + payload@),
{
    out.push(tag);
    put_be(out, payload.len() as u64, 4);
    put_bytes(out, payload);
    assert(out@ =~= old(out)@ + (seq![tag] + be_bytes(payload@.len(), 4) + payload@));
}

/// The stored form of a record under `key`.
pub fn encode_record(key: &Bytes, record: &WorkspaceOperationRecord) -> (result: Result<
    Bytes,
    WorkspaceOperationError,
>)
    ensures
        if !record@.state.valid() {
            result matches Err(e) && e@ == record_fault(record@.state)
        } else if record@.state.payload().len() > u32::MAX {
            result matches Err(e) && e@ == corrupt("terminal payload is too large"@)
        } else {
            result matches Ok(bytes) && contents(bytes) == record_bytes(contents(*key), record@)
        },
{
    validate_record(record)?;
    let empty: Vec<u8> = Vec::new();
    let (tag, payload): (u8, &[u8]) = match &record.state {
        WorkspaceOperationState::Pending => (1, empty.as_slice()),
        WorkspaceOperationState::Succeeded(bytes) => (2, bytes_slice(bytes)),
        WorkspaceOperationState::Failed(bytes) => (3, bytes_slice(bytes)),
        WorkspaceOperationState::NotCommitted(bytes) => (4, bytes_slice(bytes)),
        WorkspaceOperationState::EffectDispatched(bytes) => (5, bytes_slice(bytes)),
    };
    assert(payload@ =~= record@.state.payload());
    if payload.len() as u64 > u32::MAX as u64 {
        return Err(WorkspaceOperationError::CorruptRecord("terminal payload is too large"));
    }
    let mut encoded: Vec<u8> = Vec::new();
    put_bytes(&mut encoded, &VALUE_MAGIC);
    encoded.push(VALUE_VERSION);
    put_bytes(&mut encoded, &sha256_digest(bytes_slice(key)));
    put_bytes(&mut encoded, record.request_digest.as_bytes());
    put_state(&mut encoded, tag, payload);
    assert(encoded@ =~= record_body(contents(*key), record@));
    let digest = checksum(&encoded);
    put_bytes(&mut encoded, &digest);
    Ok(bytes_from_vec(encoded))
}

/// The state that a tag and a payload stand for, or why there is none.
pub open spec fn state_of(tag: u8, payload: Seq<u8>) -> Result<StateModel, OperationErrorModel> {
    let state = match tag {
        1 => StateModel::Pending,
        2 => StateModel::Succeeded(payload),
        3 => StateModel::Failed(payload),
        4 => StateModel::NotCommitted(payload),
        _ => StateModel::EffectDispatched(payload),
    };
    if tag < 1 || tag > 5 {
        Err(corrupt("record state is unsupported"@))
    } else if tag == 1 && payload.len() > 0 {
        Err(corrupt("pending record carries a terminal payload"@))
    } else if !state.valid() {
        Err(record_fault(state))
    } else {
        Ok(state)
    }
}

/// The record that `raw` stores under `key`, or the first thing that is wrong with it.
pub open spec fn decoded(key: Seq<u8>, raw: Seq<u8>) -> Result<
    OperationRecordModel,
    OperationErrorModel,
> {
    let end = raw.len() - 32;
    if raw.len() < 74 + 32 {
        Err(corrupt("record is shorter than its header"@))
    } else if raw.subrange(0, 4) != VALUE_MAGIC@ {
        Err(corrupt("record magic does not match"@))
    } else if raw[4] != VALUE_VERSION {
        Err(corrupt("record version is unsupported"@))
    } else if raw.subrange(5, 37) != sha256(key)@ {
        Err(corrupt("record is bound to a different operation key"@))
    } else if be_value(raw.subrange(70, 74)) != end - 74 {
        Err(corrupt("record payload length does not match"@))
    } else if raw.subrange(end, end + 32) != sha256(checksum_domain() + raw.subrange(0, end))@ {
        Err(corrupt("record checksum does not match"@))
    } else {
        match state_of(raw[69], raw.subrange(74, end)) {
            Ok(state) => Ok(
                OperationRecordModel { request_digest: raw.subrange(37, 69), state },
            ),
            Err(fault) => Err(fault),
        }
    }
}

/// The 32 bytes of `raw` from `at` on.
pub fn take_digest(raw: &[u8], at: usize) -> (digest: [u8; 32])
    requires
        at + 32 <= raw@.len(),
    ensures
        digest@ == raw@.subrange(at as int, at + 32),
{
    let len: usize = raw.len();
    let mut digest: [u8; 32] = [0; 32];
    let mut i: usize = 0;
    while i < 32
        invariant
            i <= 32,
            at + 32 <= raw@.len() == len,
            forall|k: int| 0 <= k < i ==> digest@[k] == raw@[at + k],
        decreases 32 - i,
    {
        digest[i] = raw[at + i];
        i += 1;
    }
    assert(digest@ =~= raw@.subrange(at as int, at + 32));
    digest
}

fn decode_state(tag: u8, payload: &[u8]) -> (result: Result<
    WorkspaceOperationState,
    WorkspaceOperationError,
>)
    ensures
        match state_of(tag, payload@) {
            Ok(state) => result matches Ok(s) && s@ == state,
            Err(fault) => result matches Err(e) && e@ == fault,
        },
{
    match tag {
        1 => if payload.len() == 0 {
            Ok(WorkspaceOperationState::Pending)
        } else {
            Err(WorkspaceOperationError::CorruptRecord("pending record carries a terminal payload"))
        },
        2 => if payload.len() == 0 {
            Err(WorkspaceOperationError::CorruptRecord("terminal payload is empty"))
        } else {
            Ok(WorkspaceOperationState::Succeeded(bytes_copy(payload)))
        },
        3 => if payload.len() == 0 {
            Err(WorkspaceOperationError::CorruptRecord("terminal payload is empty"))
        } else {
            Ok(WorkspaceOperationState::Failed(bytes_copy(payload)))
        },
        4 => if payload.len() == 0 {
            Err(WorkspaceOperationError::CorruptRecord("terminal payload is empty"))
        } else {
            Ok(WorkspaceOperationState::NotCommitted(bytes_copy(payload)))
        },
        5 => if payload.len() == 0 {
            Err(WorkspaceOperationError::CorruptRecord("effect dispatch claim is empty"))
        } else {
            Ok(WorkspaceOperationState::EffectDispatched(bytes_copy(payload)))
        },
        _ => Err(WorkspaceOperationError::CorruptRecord("record state is unsupported")),
    }
}

/// The record that `raw` stores under `key`.
pub fn decode_record(key: &Bytes, raw: &[u8]) -> (result: Result<
    WorkspaceOperationRecord,
    WorkspaceOperationError,
>)
    ensures
        match decoded(contents(*key), raw@) {
            Ok(record) => result matches Ok(r) && r@ == record,
            Err(fault) => result matches Err(e) && e@ == fault,
        },
{
    if raw.len() < VALUE_HEADER_SIZE + DIGEST_SIZE {
        return Err(WorkspaceOperationError::CorruptRecord("record is shorter than its header"));
    }
    if !same_bytes(slice_subrange(raw, 0, 4), &VALUE_MAGIC) {
        return Err(WorkspaceOperationError::CorruptRecord("record magic does not match"));
    }
    if raw[4] != VALUE_VERSION {
        return Err(WorkspaceOperationError::CorruptRecord("record version is unsupported"));
    }
    let key_digest = sha256_digest(bytes_slice(key));
    if !same_bytes(slice_subrange(raw, 5, 37), &key_digest) {
        return Err(
            WorkspaceOperationError::CorruptRecord("record is bound to a different operation key"),
        );
    }
    let digest = take_digest(raw, 37);
    let tag: u8 = raw[69];
    let payload_len: u64 = get_be(raw, 70, 4);
    let checksum_start: usize = raw.len() - DIGEST_SIZE;
    let payload = slice_subrange(raw, VALUE_HEADER_SIZE, checksum_start);
    if payload.len() as u64 != payload_len {
        return Err(WorkspaceOperationError::CorruptRecord("record payload length does not match"));
    }
    let expected = checksum(slice_subrange(raw, 0, checksum_start));
    if !same_bytes(slice_subrange(raw, checksum_start, raw.len()), &expected) {
        return Err(WorkspaceOperationError::CorruptRecord("record checksum does not match"));
    }
    let state = decode_state(tag, payload)?;
    Ok(WorkspaceOperationRecord { request_digest: CanonicalRequestDigest::new(digest), state })
}

} // verus!
