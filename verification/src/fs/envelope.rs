//! The envelope of a stored record: it binds a payload to the key it is stored under
//! and to a checksum of every byte before it.

use crate::outside::sha256;
use crate::outside::sha256_digest;
use crate::wire::be_bytes;
use crate::wire::be_value;
use crate::wire::get_be;
use crate::wire::lemma_be_bytes_len;
use crate::wire::lemma_be_roundtrip;
use crate::wire::lemma_be_value_bytes;
use crate::wire::lemma_span_values;
use crate::wire::put_be;
use crate::wire::put_bytes;
use crate::wire::same_bytes;
use vstd::prelude::*;
use vstd::slice::slice_subrange;
use vstd::utf8::encode_utf8;

verus! {

broadcast use lemma_be_bytes_len;

/// What tells the envelopes of one kind of record from others.
pub struct EnvelopeKind<'a> {
    pub magic: [u8; 4],
    pub version: u8,
    /// What the checksum is computed over, before the envelope itself.
    pub domain: &'a str,
}

/// Bytes before the payload: magic, version, key digest and payload length.
pub const ENVELOPE_HEADER: usize = 41;

/// Bytes of a digest.
pub const DIGEST_SIZE: usize = 32;

/// An envelope up to its checksum.
pub open spec fn envelope_body(kind: EnvelopeKind, key: Seq<u8>, payload: Seq<u8>) -> Seq<u8> {
    kind.magic@ + seq![kind.version] + sha256(key)@ + be_bytes(payload.len(), 4) + payload
}

/// The checksum of `body`.
pub open spec fn envelope_checksum(kind: EnvelopeKind, body: Seq<u8>) -> Seq<u8> {
    sha256(encode_utf8(kind.domain@) + body)@
}

/// The envelope that binds `payload` to `key`.
pub open spec fn envelope(kind: EnvelopeKind, key: Seq<u8>, payload: Seq<u8>) -> Seq<u8> {
    envelope_body(kind, key, payload) + envelope_checksum(kind, envelope_body(kind, key, payload))
}

/// Two byte strings are the same if their digests are.
pub open spec fn no_collision(a: Seq<u8>, b: Seq<u8>) -> bool {
    sha256(a)@ == sha256(b)@ ==> a == b
}

fn checksum(domain: &str, body: &[u8]) -> (digest: [u8; 32])
    ensures
        digest@ == sha256(encode_utf8(domain@) + body@)@,
{
    let mut preimage: Vec<u8> = Vec::new();
    put_bytes(&mut preimage, domain.as_bytes());
    put_bytes(&mut preimage, body);
    assert(preimage@ =~= encode_utf8(domain@) + body@);
    sha256_digest(&preimage)
}

/// Puts `payload` into an envelope for `key`.
pub fn seal(kind: &EnvelopeKind<'_>, key: &[u8], payload: &[u8]) -> (sealed: Vec<u8>)
    requires
        payload@.len() <= u32::MAX,
    ensures
        sealed@ == envelope(*kind, key@, payload@),
{
    let mut sealed: Vec<u8> = Vec::new();
    put_bytes(&mut sealed, &kind.magic);
    sealed.push(kind.version);
    put_bytes(&mut sealed, &sha256_digest(key));
    put_be(&mut sealed, payload.len() as u64, 4);
    put_bytes(&mut sealed, payload);
    assert(sealed@ =~= envelope_body(*kind, key@, payload@));
    let digest = checksum(kind.domain, &sealed);
    put_bytes(&mut sealed, &digest);
    sealed
}

/// The parts of an envelope lie where its layout puts them.
pub proof fn lemma_envelope_layout(kind: EnvelopeKind, key: Seq<u8>, payload: Seq<u8>)
    requires
        payload.len() <= u32::MAX,
    ensures
        ({
            let bytes = envelope(kind, key, payload);
            let end = 41 + payload.len() as int;
            &&& bytes.len() == end + 32
            &&& bytes.subrange(0, 4) == kind.magic@
            &&& bytes[4] == kind.version
            &&& bytes.subrange(5, 37) == sha256(key)@
            &&& be_value(bytes.subrange(37, 41)) == payload.len()
            &&& bytes.subrange(41, end) == payload
            &&& bytes.subrange(0, end) == envelope_body(kind, key, payload)
            &&& bytes.subrange(end, end + 32) == envelope_checksum(
                kind,
                envelope_body(kind, key, payload),
            )
        }),
{
    let bytes = envelope(kind, key, payload);
    let end = 41 + payload.len() as int;
    lemma_span_values();
    lemma_be_roundtrip(payload.len(), 4);
    assert(bytes.subrange(0, 4) =~= kind.magic@);
    assert(bytes.subrange(5, 37) =~= sha256(key)@);
    assert(bytes.subrange(37, 41) =~= be_bytes(payload.len(), 4));
    assert(bytes.subrange(41, end) =~= payload);
    assert(bytes.subrange(0, end) =~= envelope_body(kind, key, payload));
    assert(bytes.subrange(end, end + 32) =~= envelope_checksum(
        kind,
        envelope_body(kind, key, payload),
    ));
}

/// `bytes` is no envelope for `key`.
pub open spec fn never_sealed(kind: EnvelopeKind, key: Seq<u8>, bytes: Seq<u8>) -> bool {
    forall|payload: Seq<u8>|
        payload.len() <= u32::MAX ==> bytes != #[trigger] envelope(kind, key, payload)
}

proof fn lemma_never_sealed(kind: EnvelopeKind, key: Seq<u8>, bytes: Seq<u8>)
    requires
        ({
            let end = bytes.len() - 32;
            ||| bytes.len() < 73
            ||| bytes.subrange(0, 4) != kind.magic@
            ||| bytes[4] != kind.version
            ||| bytes.subrange(5, 37) != sha256(key)@
            ||| be_value(bytes.subrange(37, 41)) != end - 41
            ||| bytes.subrange(end, end + 32) != envelope_checksum(kind, bytes.subrange(0, end))
        }),
    ensures
        never_sealed(kind, key, bytes),
{
    assert forall|payload: Seq<u8>| payload.len() <= u32::MAX implies bytes != #[trigger] envelope(
        kind,
        key,
        payload,
    ) by {
        lemma_envelope_layout(kind, key, payload);
    }
}

/// Takes the payload out of an envelope for `key`, if `bytes` is one.
pub fn unseal<'a>(kind: &EnvelopeKind<'_>, key: &[u8], bytes: &'a [u8]) -> (result: Option<&'a [u8]>)
    ensures
        match result {
            Some(payload) => payload@.len() <= u32::MAX && bytes@ == envelope(
                *kind,
                key@,
                payload@,
            ),
            None => never_sealed(*kind, key@, bytes@),
        },
{
    if bytes.len() < ENVELOPE_HEADER + DIGEST_SIZE {
        proof {
            lemma_never_sealed(*kind, key@, bytes@);
        }
        return None;
    }
    let end: usize = bytes.len() - DIGEST_SIZE;
    let expected_key = sha256_digest(key);
    let length: u64 = get_be(bytes, 37, 4);
    let body = slice_subrange(bytes, 0, end);
    let expected_checksum = checksum(kind.domain, body);
    if !same_bytes(slice_subrange(bytes, 0, 4), &kind.magic) || bytes[4] != kind.version
        || !same_bytes(slice_subrange(bytes, 5, 37), &expected_key) || length != (end
        - ENVELOPE_HEADER) as u64 || !same_bytes(
        slice_subrange(bytes, end, bytes.len()),
        &expected_checksum,
    ) {
        proof {
            lemma_never_sealed(*kind, key@, bytes@);
        }
        return None;
    }
    let payload = slice_subrange(bytes, ENVELOPE_HEADER, end);
    proof {
        lemma_span_values();
        lemma_be_value_bytes(bytes@.subrange(37, 41));
        assert(body@ =~= bytes@.subrange(0, 4) + seq![bytes@[4]] + bytes@.subrange(5, 37)
            + bytes@.subrange(37, 41) + payload@);
        assert(bytes@ =~= body@ + bytes@.subrange(end as int, end + 32));
    }
    Some(payload)
}

/// What was sealed comes back, and nothing else: an envelope holds one payload.
pub proof fn law_envelope_holds_one_payload(
    kind: EnvelopeKind,
    key: Seq<u8>,
    a: Seq<u8>,
    b: Seq<u8>,
)
    requires
        a.len() <= u32::MAX,
        b.len() <= u32::MAX,
        envelope(kind, key, a) == envelope(kind, key, b),
    ensures
        a == b,
{
    lemma_envelope_layout(kind, key, a);
    lemma_envelope_layout(kind, key, b);
}

/// An envelope copied under a key with another digest is no envelope there.
pub proof fn law_envelope_is_bound_to_its_key(
    kind: EnvelopeKind,
    key: Seq<u8>,
    other: Seq<u8>,
    payload: Seq<u8>,
)
    requires
        payload.len() <= u32::MAX,
        sha256(key)@ != sha256(other)@,
    ensures
        never_sealed(kind, other, envelope(kind, key, payload)),
{
    lemma_envelope_layout(kind, key, payload);
    lemma_never_sealed(kind, other, envelope(kind, key, payload));
}

/// Any change to the bytes before the checksum that changes their digest, and any
/// change to the checksum itself, makes an envelope invalid: every byte is covered.
pub proof fn law_envelope_covers_every_byte(
    kind: EnvelopeKind,
    key: Seq<u8>,
    payload: Seq<u8>,
    changed: Seq<u8>,
)
    requires
        payload.len() <= u32::MAX,
        changed.len() == envelope(kind, key, payload).len(),
        changed != envelope(kind, key, payload),
        ({
            let end = changed.len() - 32;
            let original = envelope(kind, key, payload);
            changed.subrange(0, end) != original.subrange(0, end) ==> envelope_checksum(
                kind,
                changed.subrange(0, end),
            ) != changed.subrange(end, end + 32)
        }),
    ensures
        never_sealed(kind, key, changed),
{
    lemma_envelope_layout(kind, key, payload);
    let original = envelope(kind, key, payload);
    let end = changed.len() - 32;
    if changed.subrange(0, end) == original.subrange(0, end) {
        assert(changed =~= changed.subrange(0, end) + changed.subrange(end, end + 32));
        assert(original =~= original.subrange(0, end) + original.subrange(end, end + 32));
    }
    lemma_never_sealed(kind, key, changed);
}

} // verus!
