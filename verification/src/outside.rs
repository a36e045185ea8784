//! What the library takes from other crates and from std without proof.
//!
//! Each item names the function that it stands for and states what is relied on.

use crate::text::hyphenated;
use bytes::Bytes;
use dashmap::DashMap;
use sha2::Digest;
use sha2::Sha256;
use vstd::prelude::*;
use vstd::utf8::encode_utf8;
use vstd::utf8::valid_utf8;

verus! {

/// The SHA-256 digest of a byte string.
pub uninterp spec fn sha256(data: Seq<u8>) -> [u8; 32];

/// Calls `sha2::Sha256::digest`. The result is the 32-byte digest of `data`, a
/// function of its bytes alone.
#[verifier::external_body]
pub(crate) fn sha256_digest(data: &[u8]) -> (digest: [u8; 32])
    ensures
        digest@ == sha256(data@)@,
{
    Sha256::digest(data).into()
}

/// `bytes::Bytes`, an immutable byte string that is cheap to share.
#[verifier::external_type_specification]
#[verifier::external_body]
pub struct ExBytes(Bytes);

/// The bytes that a `Bytes` holds.
pub uninterp spec fn contents(bytes: Bytes) -> Seq<u8>;

/// Calls `<Bytes as From<Vec<u8>>>::from`, which keeps the vector's bytes.
#[verifier::external_body]
pub(crate) fn bytes_from_vec(vec: Vec<u8>) -> (bytes: Bytes)
    ensures
        contents(bytes) == vec@,
{
    Bytes::from(vec)
}

/// Calls `Bytes::copy_from_slice`, which copies the bytes of `data`.
#[verifier::external_body]
pub(crate) fn bytes_copy(data: &[u8]) -> (bytes: Bytes)
    ensures
        contents(bytes) == data@,
{
    Bytes::copy_from_slice(data)
}

/// Calls `<Bytes as AsRef<[u8]>>::as_ref`, which lends the bytes held.
#[verifier::external_body]
pub(crate) fn bytes_slice(bytes: &Bytes) -> (slice: &[u8])
    ensures
        slice@ == contents(*bytes),
{
    bytes.as_ref()
}

/// Calls `<Bytes as Clone>::clone`. The clone holds the same bytes.
#[verifier::external_body]
pub(crate) fn bytes_clone(bytes: &Bytes) -> (copy: Bytes)
    ensures
        contents(copy) == contents(*bytes),
{
    bytes.clone()
}

/// Calls `Bytes::slice` with the range from `start` to the end. `Bytes::slice`
/// panics where the range leaves the bytes held.
#[verifier::external_body]
pub(crate) fn bytes_slice_from(bytes: &Bytes, start: usize) -> (rest: Bytes)
    requires
        start <= contents(*bytes).len(),
    ensures
        contents(rest) == contents(*bytes).skip(start as int),
{
    bytes.slice(start..)
}

/// Calls `std::str::from_utf8`, which gives the string that `bytes` encodes if they
/// are valid UTF-8.
#[verifier::external_body]
pub(crate) fn utf8_str(bytes: &[u8]) -> (result: Option<&str>)
    ensures
        result is Some <==> valid_utf8(bytes@),
        result matches Some(s) ==> encode_utf8(s@) == bytes@,
{
    std::str::from_utf8(bytes).ok()
}

/// Bytes as text, with replacement characters where they are not valid UTF-8.
pub uninterp spec fn lossy_text(bytes: Seq<u8>) -> Seq<char>;

/// Calls `String::from_utf8_lossy`, which gives the string that valid bytes encode and
/// replaces what is not valid.
#[verifier::external_body]
pub(crate) fn utf8_lossy(bytes: &[u8]) -> (text: String)
    ensures
        text@ == lossy_text(bytes@),
        valid_utf8(bytes@) ==> encode_utf8(text@) == bytes@,
{
    String::from_utf8_lossy(bytes).into_owned()
}

/// The UUID that a text stands for, if it stands for one.
pub uninterp spec fn uuid_of(text: Seq<char>) -> Option<Seq<u8>>;

/// Calls `uuid::Uuid::parse_str`. It reads several forms of a UUID, a function of the
/// text alone; of the hyphenated lower-case form it gives back the bytes.
#[verifier::external_body]
pub(crate) fn uuid_parse(text: &str) -> (id: Option<[u8; 16]>)
    ensures
        id is Some <==> uuid_of(text@) is Some,
        id matches Some(bytes) ==> uuid_of(text@) == Some(bytes@),
        forall|bytes: [u8; 16]|
            text@ == #[trigger] hyphenated(bytes@) ==> id is Some && id->0@ == bytes@,
{
    uuid::Uuid::parse_str(text).ok().map(|id| id.into_bytes())
}

/// Calls `<uuid::Uuid as ToString>::to_string`, which writes the hyphenated lower-case
/// form.
#[verifier::external_body]
pub(crate) fn uuid_text(bytes: [u8; 16]) -> (text: String)
    ensures
        text@ == hyphenated(bytes@),
{
    uuid::Uuid::from_bytes(bytes).to_string()
}

/// Calls `uuid::Uuid::new_v4`. The bytes are random but for the version, which is four,
/// and the variant. It does not return on a system without a source of randomness.
#[verifier::external_body]
pub(crate) fn uuid_random() -> (bytes: [u8; 16])
    ensures
        bytes@[6] / 16 == 4,
        8 <= bytes@[8] / 16 < 12,
{
    uuid::Uuid::new_v4().into_bytes()
}

/// `dashmap::DashMap`, a concurrent map.
#[verifier::external_type_specification]
#[verifier::external_body]
#[verifier::reject_recursive_types(K)]
#[verifier::reject_recursive_types(V)]
#[verifier::reject_recursive_types(S)]
pub struct ExDashMap<K, V, S>(DashMap<K, V, S>);

/// What a map from numbers to numbers holds.
pub uninterp spec fn counts(map: DashMap<u64, u64>) -> Map<u64, u64>;

/// Calls `DashMap::new`, which makes an empty map.
#[verifier::external_body]
pub(crate) fn dash_new() -> (map: DashMap<u64, u64>)
    ensures
        forall|key: u64| !counts(map).contains_key(key),
{
    DashMap::new()
}

/// Calls `DashMap::get` and copies the value that it refers to.
#[verifier::external_body]
pub(crate) fn dash_get(map: &DashMap<u64, u64>, key: u64) -> (value: Option<u64>)
    ensures
        value == (if counts(*map).contains_key(key) {
            Some(counts(*map)[key])
        } else {
            None
        }),
{
    map.get(&key).map(|value| *value)
}

/// Calls `DashMap::insert`, which sets the value of one key. The map is borrowed
/// exclusively, so nobody holds a reference into it.
#[verifier::external_body]
pub(crate) fn dash_insert(map: &mut DashMap<u64, u64>, key: u64, value: u64)
    ensures
        counts(*final(map)) == counts(*old(map)).insert(key, value),
{
    map.insert(key, value);
}

/// Calls `DashMap::remove`, which removes one key. The map is borrowed exclusively, so
/// nobody holds a reference into it.
#[verifier::external_body]
pub(crate) fn dash_remove(map: &mut DashMap<u64, u64>, key: u64)
    ensures
        counts(*final(map)) == counts(*old(map)).remove(key),
{
    map.remove(&key);
}

} // verus!
