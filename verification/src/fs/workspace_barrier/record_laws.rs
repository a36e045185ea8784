//! In which form heads and receipts are stored, and which bytes are read as one.

use super::records::barrier_envelope;
use super::records::decode_bound;
use super::records::encode_barrier_record;
use super::records::encode_bound;
use super::records::encode_head_record;
use super::records::fits_record;
use super::records::is_encoded;
use super::records::is_opened;
use super::records::open_barrier_record;
use super::records::open_head_record;
use super::records::BARRIER_MAGIC;
use super::records::HEAD_MAGIC;
use super::rules::validate_head_record;
use super::rules::validate_receipt;
use super::types::BarrierDurabilityReceipt;
use super::types::BarrierError;
use super::types::WorkspaceHeadRecord;
use crate::fs::envelope::envelope;
use crate::fs::envelope_laws::binds;
use crate::fs::envelope_laws::lemma_binds;
use crate::outside::contents;
use bytes::Bytes;
use vstd::prelude::*;

verus! {

/// `bytes` binds `payload` to `key` as barriers bind their records.
pub open spec fn is_record(bytes: Seq<u8>, magic: Seq<u8>, key: Seq<u8>, payload: Seq<u8>) -> bool {
    binds(bytes, magic, 1, "rhizome.workspace-barrier-envelope.v1\0"@, key, payload)
}

/// `result` is the payload of at most 128 KiB that `bytes` binds to `key`, or says that there
/// is none: not even `other`.
pub open spec fn finds(
    result: Result<&[u8], BarrierError>,
    magic: Seq<u8>,
    key: Seq<u8>,
    bytes: Seq<u8>,
    other: Seq<u8>,
) -> bool {
    match result {
        Ok(payload) => payload@.len() <= 0x2_0000 && is_record(bytes, magic, key, payload@),
        Err(e) => e == BarrierError::Corrupt && (other.len() <= 0x2_0000 ==> !is_record(
            bytes,
            magic,
            key,
            other,
        )),
    }
}

/// `"RWBH"`.
pub open spec fn head_magic() -> Seq<u8> {
    seq![0x52u8, 0x57u8, 0x42u8, 0x48u8]
}

/// `"RWBR"`.
pub open spec fn receipt_magic() -> Seq<u8> {
    seq![0x52u8, 0x57u8, 0x42u8, 0x52u8]
}

/// A payload whose length fits is put into an envelope; a longer one is invalid. What is
/// taken out of one is what it binds to the key.
pub proof fn law_bound_payloads(
    magic: &[u8; 4],
    key: &[u8],
    payload: &[u8],
    stored: Result<Bytes, BarrierError>,
    bytes: &[u8],
    found: Result<&[u8], BarrierError>,
    other: Seq<u8>,
)
    requires
        other.len() <= u32::MAX,
        call_ensures(encode_bound, (magic, key, payload), stored),
        call_ensures(decode_bound, (magic, key, bytes), found),
    ensures
        match stored {
            Ok(sealed) => payload@.len() <= u32::MAX && is_record(
                contents(sealed),
                magic@,
                key@,
                payload@,
            ),
            Err(e) => payload@.len() > u32::MAX && e == BarrierError::Invalid,
        },
        match found {
            Ok(taken) => is_record(bytes@, magic@, key@, taken@),
            Err(e) => e == BarrierError::Corrupt && !is_record(bytes@, magic@, key@, other),
        },
{
    match stored {
        Ok(sealed) => lemma_binds(contents(sealed), barrier_envelope(*magic), key@, payload@),
        Err(_) => {},
    }
    lemma_binds(bytes@, barrier_envelope(*magic), key@, other);
    match found {
        Ok(taken) => lemma_binds(bytes@, barrier_envelope(*magic), key@, taken@),
        Err(_) => {
            assert(bytes@ != envelope(barrier_envelope(*magic), key@, other));
        },
    }
}

/// `stored` is refused for the fault of the record, or for the length of its payload, or
/// binds the payload to `key`.
pub open spec fn stores(
    stored: Result<Bytes, BarrierError>,
    valid: Result<(), BarrierError>,
    magic: Seq<u8>,
    key: Seq<u8>,
    payload: Seq<u8>,
) -> bool {
    match valid {
        Err(fault) => stored == Err::<Bytes, BarrierError>(fault),
        Ok(_) => match stored {
            Ok(bytes) => payload.len() <= 0x2_0000 && is_record(
                contents(bytes),
                magic,
                key,
                payload,
            ),
            Err(e) => payload.len() > 0x2_0000 && e == BarrierError::Corrupt,
        },
    }
}

proof fn lemma_stores(
    stored: Result<Bytes, BarrierError>,
    fault: Option<BarrierError>,
    magic: [u8; 4],
    key: Seq<u8>,
    payload: Seq<u8>,
)
    requires
        is_encoded(stored, fault, magic, key, payload),
    ensures
        match fault {
            Some(error) => stored == Err::<Bytes, BarrierError>(error),
            None => stores(stored, Ok(()), magic@, key, payload),
        },
{
    match stored {
        Ok(bytes) => {
            if fault is None {
                lemma_binds(contents(bytes), barrier_envelope(magic), key, payload);
            }
        },
        Err(_) => {},
    }
}

proof fn lemma_finds(
    result: Result<&[u8], BarrierError>,
    magic: [u8; 4],
    key: Seq<u8>,
    bytes: Seq<u8>,
    other: Seq<u8>,
)
    requires
        is_opened(result, magic, key, bytes),
    ensures
        finds(result, magic@, key, bytes, other),
{
    if fits_record(other) {
        lemma_binds(bytes, barrier_envelope(magic), key, other);
    }
    match result {
        Ok(payload) => lemma_binds(bytes, barrier_envelope(magic), key, payload@),
        Err(_) => {
            if fits_record(other) {
                assert(bytes != envelope(barrier_envelope(magic), key, other));
            }
        },
    }
}

/// A head is stored under its key if it is valid, and found only where it was bound.
pub proof fn law_heads_are_bound_to_their_keys(
    key: &[u8],
    record: &WorkspaceHeadRecord,
    valid: Result<(), BarrierError>,
    payload: &[u8],
    stored: Result<Bytes, BarrierError>,
    bytes: &[u8],
    found: Result<&[u8], BarrierError>,
    other: Seq<u8>,
)
    requires
        call_ensures(validate_head_record, (record,), valid),
        call_ensures(encode_head_record, (key, record, payload), stored),
        call_ensures(open_head_record, (key, bytes), found),
    ensures
        stores(stored, valid, head_magic(), key@, payload@),
        finds(found, head_magic(), key@, bytes@, other),
{
    assert(HEAD_MAGIC@ =~= head_magic());
    lemma_stores(stored, super::rules::head_fault(record@), HEAD_MAGIC, key@, payload@);
    lemma_finds(found, HEAD_MAGIC, key@, bytes@, other);
}

/// A receipt is stored under its key if it is valid, and found only where it was bound.
pub proof fn law_receipts_are_bound_to_their_keys(
    key: &[u8],
    receipt: &BarrierDurabilityReceipt,
    valid: Result<(), BarrierError>,
    payload: &[u8],
    stored: Result<Bytes, BarrierError>,
    bytes: &[u8],
    found: Result<&[u8], BarrierError>,
    other: Seq<u8>,
)
    requires
        call_ensures(validate_receipt, (receipt,), valid),
        call_ensures(encode_barrier_record, (key, receipt, payload), stored),
        call_ensures(open_barrier_record, (key, bytes), found),
    ensures
        stores(stored, valid, receipt_magic(), key@, payload@),
        finds(found, receipt_magic(), key@, bytes@, other),
{
    assert(BARRIER_MAGIC@ =~= receipt_magic());
    lemma_stores(stored, super::rules::receipt_fault(receipt@), BARRIER_MAGIC, key@, payload@);
    lemma_finds(found, BARRIER_MAGIC, key@, bytes@, other);
}

} // verus!
