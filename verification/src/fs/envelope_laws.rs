//! What a stored envelope looks like, and which bytes are one.

use super::envelope::envelope;
use super::envelope::envelope_body;
use super::envelope::lemma_envelope_layout;
use super::envelope::seal;
use super::envelope::unseal;
use super::envelope::EnvelopeKind;
use crate::outside::sha256;
use crate::wire::be_bytes;
use crate::wire::be_value;
use crate::wire::lemma_be_bytes_len;
use crate::wire::lemma_be_value_bytes;
use vstd::prelude::*;
use vstd::utf8::encode_utf8;

verus! {

/// `bytes` binds `payload` to `key`: the magic, the version, the digest of the key, the
/// length of the payload, the payload, and the digest of all that behind the domain.
pub open spec fn binds(
    bytes: Seq<u8>,
    magic: Seq<u8>,
    version: u8,
    domain: Seq<char>,
    key: Seq<u8>,
    payload: Seq<u8>,
) -> bool {
    let end = 41 + payload.len() as int;
    &&& bytes.len() == end + 32
    &&& bytes.subrange(0, 4) == magic
    &&& bytes[4] == version
    &&& bytes.subrange(5, 37) == sha256(key)@
    &&& bytes[37] * 0x100_0000 + bytes[38] * 0x1_0000 + bytes[39] * 0x100 + bytes[40]
        == payload.len()
    &&& bytes.subrange(41, end) == payload
    &&& bytes.subrange(end, end + 32) == sha256(encode_utf8(domain) + bytes.subrange(0, end))@
}

pub(crate) proof fn lemma_binds(
    bytes: Seq<u8>,
    kind: EnvelopeKind<'_>,
    key: Seq<u8>,
    payload: Seq<u8>,
)
    requires
        payload.len() <= u32::MAX,
    ensures
        bytes == envelope(kind, key, payload) <==> binds(
            bytes,
            kind.magic@,
            kind.version,
            kind.domain@,
            key,
            payload,
        ),
{
    broadcast use lemma_be_bytes_len;

    lemma_envelope_layout(kind, key, payload);
    let end = 41 + payload.len() as int;
    if bytes == envelope(kind, key, payload) {
        reveal_with_fuel(be_value, 5);
        let length = bytes.subrange(37, 41);
        assert(length[0] == bytes[37] && length[1] == bytes[38] && length[2] == bytes[39]
            && length[3] == bytes[40]);
    }
    if binds(bytes, kind.magic@, kind.version, kind.domain@, key, payload) {
        let length = bytes.subrange(37, 41);
        assert(be_value(length) == payload.len()) by {
            reveal_with_fuel(be_value, 5);
        }
        lemma_be_value_bytes(length);
        assert(be_bytes(payload.len(), 4) == length);
        let body = bytes.subrange(0, end);
        assert(body =~= envelope_body(kind, key, payload));
        assert(bytes =~= body + bytes.subrange(end, end + 32));
    }
}

/// What is sealed binds the payload to its key.
pub proof fn law_sealed_bytes_bind_the_payload(
    kind: &EnvelopeKind<'_>,
    key: &[u8],
    payload: &[u8],
    sealed: Vec<u8>,
)
    requires
        payload@.len() <= u32::MAX,
        call_ensures(seal, (kind, key, payload), sealed),
    ensures
        binds(sealed@, kind.magic@, kind.version, kind.domain@, key@, payload@),
{
    lemma_binds(sealed@, *kind, key@, payload@);
}

/// A payload is taken out of bytes that bind it to the key, and out of no others.
pub proof fn law_only_bound_payloads_are_taken_out(
    kind: &EnvelopeKind<'_>,
    key: &[u8],
    bytes: &[u8],
    result: Option<&[u8]>,
    other: Seq<u8>,
)
    requires
        other.len() <= u32::MAX,
        call_ensures(unseal, (kind, key, bytes), result),
    ensures
        match result {
            Some(payload) => binds(
                bytes@,
                kind.magic@,
                kind.version,
                kind.domain@,
                key@,
                payload@,
            ),
            None => !binds(bytes@, kind.magic@, kind.version, kind.domain@, key@, other),
        },
{
    lemma_binds(bytes@, *kind, key@, other);
    match result {
        Some(payload) => lemma_binds(bytes@, *kind, key@, payload@),
        None => {
            assert(bytes@ != envelope(*kind, key@, other));
        },
    }
}

} // verus!
