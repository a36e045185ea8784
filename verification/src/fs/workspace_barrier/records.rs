//! The stored form of heads and receipts. Their payloads are serialized elsewhere; the
//! envelope binds a payload to its key.

use super::rules::head_fault;
use super::rules::receipt_fault;
use super::rules::validate_head_record;
use super::rules::validate_receipt;
use super::types::BarrierDurabilityReceipt;
use super::types::BarrierError;
use super::types::WorkspaceHeadRecord;
use crate::fs::envelope::envelope;
use crate::fs::envelope::law_envelope_holds_one_payload;
use crate::fs::envelope::law_envelope_is_bound_to_its_key;
use crate::fs::envelope::seal;
use crate::fs::envelope::unseal;
use crate::fs::envelope::EnvelopeKind;
use crate::outside::bytes_from_vec;
use crate::outside::contents;
use crate::outside::sha256;
use bytes::Bytes;
use vstd::prelude::*;

verus! {

/// `"RWBH"`.
pub const HEAD_MAGIC: [u8; 4] = [0x52, 0x57, 0x42, 0x48];

/// `"RWBR"`.
pub const BARRIER_MAGIC: [u8; 4] = [0x52, 0x57, 0x42, 0x52];

/// The longest payload of a record.
pub const MAX_RECORD_BYTES: usize = 131072;

/// The envelopes of barrier records that begin with `magic`.
pub open spec fn barrier_envelope(magic: [u8; 4]) -> EnvelopeKind<'static> {
    EnvelopeKind { magic, version: 1, domain: "rhizome.workspace-barrier-envelope.v1\0" }
}

/// A payload is not too long for a record.
pub open spec fn fits_record(payload: Seq<u8>) -> bool {
    payload.len() <= MAX_RECORD_BYTES
}

/// Puts a payload into the envelope for `key`.
pub fn encode_bound(magic: &[u8; 4], key: &[u8], payload: &[u8]) -> (result: Result<
    Bytes,
    BarrierError,
>)
    ensures
        if payload@.len() <= u32::MAX {
            result matches Ok(bytes) && contents(bytes) == envelope(
                barrier_envelope(*magic),
                key@,
                payload@,
            )
        } else {
            result matches Err(e) && e == BarrierError::Invalid
        },
{
    if payload.len() as u64 > u32::MAX as u64 {
        return Err(BarrierError::Invalid);
    }
    let kind = EnvelopeKind {
        magic: *magic,
        version: 1,
        domain: "rhizome.workspace-barrier-envelope.v1\0",
    };
    Ok(bytes_from_vec(seal(&kind, key, payload)))
}

/// `result` is the payload that the envelope for `key` holds, however long, or says that
/// `bytes` is none.
pub open spec fn is_taken(
    result: Result<&[u8], BarrierError>,
    magic: [u8; 4],
    key: Seq<u8>,
    bytes: Seq<u8>,
) -> bool {
    match result {
        Ok(payload) => payload@.len() <= u32::MAX && bytes == envelope(
            barrier_envelope(magic),
            key,
            payload@,
        ),
        Err(e) => e == BarrierError::Corrupt && forall|payload: Seq<u8>|
            payload.len() <= u32::MAX ==> bytes != #[trigger] envelope(
                barrier_envelope(magic),
                key,
                payload,
            ),
    }
}

/// Takes the payload out of the envelope for `key`.
pub fn decode_bound<'a>(magic: &[u8; 4], key: &[u8], bytes: &'a [u8]) -> (result: Result<
    &'a [u8],
    BarrierError,
>)
    ensures
        is_taken(result, *magic, key@, bytes@),
{
    let kind = EnvelopeKind {
        magic: *magic,
        version: 1,
        domain: "rhizome.workspace-barrier-envelope.v1\0",
    };
    match unseal(&kind, key, bytes) {
        Some(payload) => Ok(payload),
        None => Err(BarrierError::Corrupt),
    }
}

/// `result` stores `payload` under `key`, unless the record is at fault or the payload
/// is too long.
pub open spec fn is_encoded(
    result: Result<Bytes, BarrierError>,
    fault: Option<BarrierError>,
    magic: [u8; 4],
    key: Seq<u8>,
    payload: Seq<u8>,
) -> bool {
    match fault {
        Some(error) => result matches Err(e) && e == error,
        None => if fits_record(payload) {
            result matches Ok(bytes) && contents(bytes) == envelope(
                barrier_envelope(magic),
                key,
                payload,
            )
        } else {
            result matches Err(e) && e == BarrierError::Corrupt
        },
    }
}

/// `result` is the payload that `bytes` stores under `key`, or says that there is none.
pub open spec fn is_opened(
    result: Result<&[u8], BarrierError>,
    magic: [u8; 4],
    key: Seq<u8>,
    bytes: Seq<u8>,
) -> bool {
    match result {
        Ok(payload) => fits_record(payload@) && bytes == envelope(
            barrier_envelope(magic),
            key,
            payload@,
        ),
        Err(e) => e == BarrierError::Corrupt && forall|payload: Seq<u8>|
            fits_record(payload) ==> bytes != #[trigger] envelope(
                barrier_envelope(magic),
                key,
                payload,
            ),
    }
}

fn open_bound<'a>(magic: &[u8; 4], key: &[u8], bytes: &'a [u8]) -> (result: Result<
    &'a [u8],
    BarrierError,
>)
    ensures
        is_opened(result, *magic, key@, bytes@),
{
    let payload = decode_bound(magic, key, bytes)?;
    if payload.len() > MAX_RECORD_BYTES {
        proof {
            assert forall|other: Seq<u8>| fits_record(other) implies bytes@ != #[trigger] envelope(
                barrier_envelope(*magic),
                key@,
                other,
            ) by {
                if bytes@ == envelope(barrier_envelope(*magic), key@, other) {
                    law_envelope_holds_one_payload(
                        barrier_envelope(*magic),
                        key@,
                        payload@,
                        other,
                    );
                }
            }
        }
        return Err(BarrierError::Corrupt);
    }
    Ok(payload)
}

/// Stores the payload of a head under `key`.
pub fn encode_head_record(key: &[u8], record: &WorkspaceHeadRecord, payload: &[u8]) -> (result:
    Result<Bytes, BarrierError>)
    ensures
        is_encoded(result, head_fault(record@), HEAD_MAGIC, key@, payload@),
{
    validate_head_record(record)?;
    if payload.len() > MAX_RECORD_BYTES {
        return Err(BarrierError::Corrupt);
    }
    encode_bound(&HEAD_MAGIC, key, payload)
}

/// The payload of the head stored under `key`.
pub fn open_head_record<'a>(key: &[u8], bytes: &'a [u8]) -> (result: Result<&'a [u8], BarrierError>)
    ensures
        is_opened(result, HEAD_MAGIC, key@, bytes@),
{
    open_bound(&HEAD_MAGIC, key, bytes)
}

/// Stores the payload of a receipt under `key`.
pub fn encode_barrier_record(
    key: &[u8],
    receipt: &BarrierDurabilityReceipt,
    payload: &[u8],
) -> (result: Result<Bytes, BarrierError>)
    ensures
        is_encoded(result, receipt_fault(receipt@), BARRIER_MAGIC, key@, payload@),
{
    validate_receipt(receipt)?;
    if payload.len() > MAX_RECORD_BYTES {
        return Err(BarrierError::Corrupt);
    }
    encode_bound(&BARRIER_MAGIC, key, payload)
}

/// The payload of the receipt stored under `key`.
pub fn open_barrier_record<'a>(key: &[u8], bytes: &'a [u8]) -> (result: Result<
    &'a [u8],
    BarrierError,
>)
    ensures
        is_opened(result, BARRIER_MAGIC, key@, bytes@),
{
    open_bound(&BARRIER_MAGIC, key, bytes)
}

/// What was stored under a key is what is found there.
pub proof fn law_stored_payload_is_found(
    stored: Result<Bytes, BarrierError>,
    found: Result<&[u8], BarrierError>,
    fault: Option<BarrierError>,
    magic: [u8; 4],
    key: Seq<u8>,
    payload: Seq<u8>,
)
    requires
        is_encoded(stored, fault, magic, key, payload),
        stored is Ok,
        is_opened(found, magic, key, contents(stored->Ok_0)),
    ensures
        found matches Ok(p) && p@ == payload,
{
    match found {
        Ok(p) => law_envelope_holds_one_payload(barrier_envelope(magic), key, payload, p@),
        Err(_) => {},
    }
}

/// A record copied to a key with another digest is corrupt there.
pub proof fn law_copied_record_is_corrupt(
    found: Result<&[u8], BarrierError>,
    magic: [u8; 4],
    key: Seq<u8>,
    other: Seq<u8>,
    payload: Seq<u8>,
)
    requires
        fits_record(payload),
        sha256(key)@ != sha256(other)@,
        is_opened(found, magic, other, envelope(barrier_envelope(magic), key, payload)),
    ensures
        found matches Err(e) && e == BarrierError::Corrupt,
{
    law_envelope_is_bound_to_its_key(barrier_envelope(magic), key, other, payload);
}

} // verus!
