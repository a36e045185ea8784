//! The stored form of a genesis record.

use super::types::ContentDigest;
use super::types::GenesisDomainRecord;
use super::types::GenesisDomainRecordModel;
use super::types::GenesisError;
use crate::fs::envelope::envelope;
use crate::fs::envelope::law_envelope_holds_one_payload;
use crate::fs::envelope::seal;
use crate::fs::envelope::unseal;
use crate::fs::envelope::EnvelopeKind;
use crate::fs::export_authority::rules::valid_id;
use crate::fs::export_authority::types::ExportIdentity;
use crate::fs::export_authority::types::ExportIdentityModel;
use crate::fs::key_codec::be8;
use crate::fs::key_codec::field16;
use crate::fs::key_codec::fits16;
use crate::fs::key_codec::text16;
use crate::fs::key_codec::workspace_genesis_key_bytes;
use crate::fs::key_codec::KeyCodec;
use crate::fs::key_laws::lemma_be8_split;
use crate::fs::key_laws::lemma_field16_split;
use crate::fs::key_laws::lemma_text16_split;
use crate::fs::workspace_operation::codec::take_digest;
use crate::fs::workspace_operation::types::CanonicalRequestDigest;
use crate::fs::NAME_MAX;
use crate::outside::bytes_from_vec;
use crate::outside::bytes_slice;
use crate::outside::contents;
use crate::outside::utf8_str;
use crate::text::hex;
use crate::text::lemma_hex_plain;
use crate::text::lemma_plain_bytes;
use crate::text::put_hex;
use crate::wire::be_bytes;
use crate::wire::be_value;
use crate::wire::contains_byte;
use crate::wire::get_be;
use crate::wire::lemma_be_bytes_len;
use crate::wire::lemma_be_roundtrip;
use crate::wire::lemma_be_value_bytes;
use crate::wire::lemma_fixed_split;
use crate::wire::lemma_span_values;
use crate::wire::put_be;
use crate::wire::put_bytes;
use crate::wire::same_bytes;
use crate::wire::same_str;
use bytes::Bytes;
use vstd::prelude::*;
use vstd::slice::slice_subrange;
use vstd::slice::slice_to_vec;
use vstd::utf8::encode_utf8;

verus! {

broadcast use lemma_be_bytes_len;

/// `"RWGN"`.
pub const RECORD_MAGIC: [u8; 4] = [0x52, 0x57, 0x47, 0x4e];

const MAX_ID_BYTES: usize = 1024;

const MAX_OBJECT_KEY_BYTES: usize = 4096;

/// The envelopes of genesis records.
pub open spec fn genesis_envelope() -> EnvelopeKind<'static> {
    EnvelopeKind {
        magic: RECORD_MAGIC,
        version: 1,
        domain: "rhizome.workspace-genesis-record.v1\0",
    }
}

/// Where the root object of that digest is stored.
pub open spec fn object_key(digest: Seq<u8>) -> Seq<char> {
    "rhizome/workspace-genesis/sha256/"@ + hex(digest)
}

/// Where the root object of that digest is stored.
pub fn content_object_key(digest: ContentDigest) -> (key: String)
    ensures
        key@ == object_key(digest@),
{
    let mut key = "rhizome/workspace-genesis/sha256/".to_owned();
    put_hex(&mut key, digest.as_bytes());
    key
}

/// An export of a genesis has both inodes, a name, and whole sectors.
pub open spec fn valid_genesis_export(export: ExportIdentityModel) -> bool {
    &&& export.nbd_directory_inode != 0
    &&& export.inode != 0
    &&& 0 < export.name.len() <= NAME_MAX
    &&& export.advertised_size != 0
    &&& export.advertised_size % 512 == 0
}

/// A record names its workspace and actor, has a valid export, and its root object lies
/// where its digest says.
pub open spec fn valid_genesis(record: GenesisDomainRecordModel) -> bool {
    &&& valid_id(record.workspace_id)
    &&& valid_id(record.actor)
    &&& record.actor_generation != 0
    &&& valid_genesis_export(record.export)
    &&& record.root_object_key == object_key(record.root_digest)
}

/// The fields of an export, in order.
pub open spec fn export_fields(export: ExportIdentityModel) -> Seq<u8> {
    be8(export.nbd_directory_inode) + (field16(export.name) + (be8(export.inode) + be8(
        export.advertised_size,
    )))
}

/// The digests of a record, its object key and its export, in order.
pub open spec fn root_fields(record: GenesisDomainRecordModel) -> Seq<u8> {
    record.request_digest + (record.root_digest + (text16(record.root_object_key) + export_fields(
        record.export,
    )))
}

/// The fields of a record, in order.
pub open spec fn genesis_payload(record: GenesisDomainRecordModel) -> Seq<u8> {
    text16(record.workspace_id) + (text16(record.actor) + (be8(record.actor_generation)
        + root_fields(record)))
}

/// Digests have their size.
pub open spec fn sized(record: GenesisDomainRecordModel) -> bool {
    record.request_digest.len() == 32 && record.root_digest.len() == 32
}

/// Every field is short enough for its length prefix.
pub open spec fn fits_payload(record: GenesisDomainRecordModel) -> bool {
    &&& sized(record)
    &&& fits16(record.workspace_id)
    &&& fits16(record.actor)
    &&& fits16(record.root_object_key)
    &&& record.export.name.len() <= 0xFFFF
}

/// A payload holds the fields of one record.
pub proof fn law_payload_holds_one_record(a: GenesisDomainRecordModel, b: GenesisDomainRecordModel)
    requires
        fits_payload(a),
        fits_payload(b),
        genesis_payload(a) == genesis_payload(b),
    ensures
        a == b,
{
    lemma_text16_split(
        a.workspace_id,
        text16(a.actor) + (be8(a.actor_generation) + root_fields(a)),
        b.workspace_id,
        text16(b.actor) + (be8(b.actor_generation) + root_fields(b)),
    );
    lemma_text16_split(
        a.actor,
        be8(a.actor_generation) + root_fields(a),
        b.actor,
        be8(b.actor_generation) + root_fields(b),
    );
    lemma_be8_split(a.actor_generation, root_fields(a), b.actor_generation, root_fields(b));
    let object_a = text16(a.root_object_key) + export_fields(a.export);
    let object_b = text16(b.root_object_key) + export_fields(b.export);
    lemma_fixed_split(
        a.request_digest,
        a.root_digest + object_a,
        b.request_digest,
        b.root_digest + object_b,
    );
    lemma_fixed_split(a.root_digest, object_a, b.root_digest, object_b);
    lemma_text16_split(
        a.root_object_key,
        export_fields(a.export),
        b.root_object_key,
        export_fields(b.export),
    );
    let name_a = field16(a.export.name) + (be8(a.export.inode) + be8(a.export.advertised_size));
    let name_b = field16(b.export.name) + (be8(b.export.inode) + be8(b.export.advertised_size));
    lemma_be8_split(a.export.nbd_directory_inode, name_a, b.export.nbd_directory_inode, name_b);
    lemma_field16_split(
        a.export.name,
        be8(a.export.inode) + be8(a.export.advertised_size),
        b.export.name,
        be8(b.export.inode) + be8(b.export.advertised_size),
    );
    lemma_be8_split(
        a.export.inode,
        be8(a.export.advertised_size),
        b.export.inode,
        be8(b.export.advertised_size),
    );
    let none = Seq::<u8>::empty();
    assert(be8(a.export.advertised_size) + none =~= be8(a.export.advertised_size));
    assert(be8(b.export.advertised_size) + none =~= be8(b.export.advertised_size));
    lemma_be8_split(a.export.advertised_size, none, b.export.advertised_size, none);
}

pub fn validate_id(value: &str) -> (result: Result<(), GenesisError>)
    ensures
        result == (if valid_id(value@) {
            Ok::<(), GenesisError>(())
        } else {
            Err(GenesisError::Invalid)
        }),
{
    if value.is_empty() || value.as_bytes().len() > MAX_ID_BYTES || contains_byte(
        value.as_bytes(),
        0,
    ) {
        Err(GenesisError::Invalid)
    } else {
        Ok(())
    }
}

pub fn validate_record(record: &GenesisDomainRecord) -> (result: Result<(), GenesisError>)
    ensures
        result == (if valid_genesis(record@) {
            Ok::<(), GenesisError>(())
        } else {
            Err(GenesisError::Invalid)
        }),
{
    validate_id(&record.workspace_id)?;
    validate_id(&record.actor)?;
    let expected_key = content_object_key(record.root_digest);
    if record.actor_generation == 0 || record.export.nbd_directory_inode == 0
        || record.export.inode == 0 || record.export.name.len() == 0 || record.export.name.len()
        > NAME_MAX || record.export.advertised_size == 0 || record.export.advertised_size % 512
        != 0 || !same_str(&record.root_object_key, &expected_key) {
        return Err(GenesisError::Invalid);
    }
    Ok(())
}

fn push_bytes(out: &mut Vec<u8>, value: &[u8])
    requires
        value@.len() <= 0xFFFF,
    ensures
        final(out)@ == old(out)@ + field16(value@),
{
    put_be(out, value.len() as u64, 2);
    put_bytes(out, value);
    assert(out@ =~= old(out)@ + field16(value@));
}

fn push_string(out: &mut Vec<u8>, value: &str)
    requires
        encode_utf8(value@).len() <= 0xFFFF,
    ensures
        final(out)@ == old(out)@ + text16(value@),
{
    push_bytes(out, value.as_bytes());
}

/// An object key takes 97 bytes.
pub proof fn lemma_object_key_len(digest: Seq<u8>)
    requires
        digest.len() == 32,
    ensures
        encode_utf8(object_key(digest)).len() == 97,
{
    reveal_strlit("rhizome/workspace-genesis/sha256/");
    lemma_hex_plain(digest);
    let key = object_key(digest);
    assert forall|i: int| 0 <= i < key.len() implies '\0' < #[trigger] key[i] <= '\u{7f}' by {
        let prefix = "rhizome/workspace-genesis/sha256/"@;
        if i < prefix.len() {
            assert(key[i] == prefix[i]);
        } else {
            assert(key[i] == hex(digest)[i - prefix.len()]);
        }
    }
    lemma_plain_bytes(key);
}

/// The stored form of a record under `key`.
pub fn encode_record(key: &[u8], record: &GenesisDomainRecord) -> (result: Result<
    Bytes,
    GenesisError,
>)
    ensures
        if valid_genesis(record@) {
            result matches Ok(bytes) && contents(bytes) == envelope(
                genesis_envelope(),
                key@,
                genesis_payload(record@),
            )
        } else {
            result matches Err(e) && e == GenesisError::Invalid
        },
{
    validate_record(record)?;
    let request_digest = record.request_digest.as_bytes();
    let root_digest = record.root_digest.as_bytes();
    proof {
        lemma_object_key_len(record@.root_digest);
    }
    let mut payload: Vec<u8> = Vec::new();
    push_string(&mut payload, &record.workspace_id);
    push_string(&mut payload, &record.actor);
    put_be(&mut payload, record.actor_generation, 8);
    put_bytes(&mut payload, request_digest);
    put_bytes(&mut payload, root_digest);
    push_string(&mut payload, &record.root_object_key);
    put_be(&mut payload, record.export.nbd_directory_inode, 8);
    push_bytes(&mut payload, &record.export.name);
    put_be(&mut payload, record.export.inode, 8);
    put_be(&mut payload, record.export.advertised_size, 8);
    assert(payload@ =~= genesis_payload(record@));
    let kind = EnvelopeKind {
        magic: RECORD_MAGIC,
        version: 1,
        domain: "rhizome.workspace-genesis-record.v1\0",
    };
    Ok(bytes_from_vec(seal(&kind, key, &payload)))
}

/// `bytes` is the stored form of `record` under `key`, its own key.
pub open spec fn stores_genesis(
    key: Seq<u8>,
    bytes: Seq<u8>,
    record: GenesisDomainRecordModel,
) -> bool {
    &&& sized(record)
    &&& valid_genesis(record)
    &&& key == workspace_genesis_key_bytes(record.workspace_id)
    &&& bytes == envelope(genesis_envelope(), key, genesis_payload(record))
}

/// A field of at most `max` bytes at the front of a string, with its length before it,
/// and what comes behind it.
pub open spec fn taken(input: Seq<u8>, max: nat) -> Option<(Seq<u8>, Seq<u8>)> {
    let length = be_value(input.subrange(0, 2)) as int;
    if input.len() >= 2 && length <= max && input.len() >= 2 + length {
        Some((input.subrange(2, 2 + length), input.skip(2 + length)))
    } else {
        None
    }
}

/// Taking a field undoes pushing it: what was pushed comes back, and what followed it is
/// left. Nothing but a pushed field can be taken.
pub proof fn law_take_undoes_push(value: Seq<u8>, tail: Seq<u8>, input: Seq<u8>, max: nat)
    requires
        value.len() <= max,
        value.len() <= 0xFFFF,
    ensures
        taken(field16(value) + tail, max) == Some((value, tail)),
        taken(input, max) matches Some((field, rest)) ==> field.len() <= max && input == field16(
            field,
        ) + rest,
{
    lemma_span_values();
    let pushed = field16(value) + tail;
    lemma_be_roundtrip(value.len(), 2);
    assert(pushed.subrange(0, 2) =~= be_bytes(value.len(), 2));
    assert(pushed.subrange(2, 2 + value.len() as int) =~= value);
    assert(pushed.skip(2 + value.len() as int) =~= tail);
    if let Some((field, rest)) = taken(input, max) {
        lemma_be_value_bytes(input.subrange(0, 2));
        assert(input =~= field16(field) + rest);
    }
}

/// Takes a field of at most `max` bytes off the front of a string.
pub fn take_bytes(input: &[u8], max: usize) -> (result: Result<(&[u8], &[u8]), GenesisError>)
    ensures
        match taken(input@, max as nat) {
            Some((value, rest)) => result matches Ok((v, r)) && v@ == value && r@ == rest,
            None => result matches Err(e) && e == GenesisError::Corrupt,
        },
{
    if input.len() < 2 {
        return Err(GenesisError::Corrupt);
    }
    proof {
        lemma_span_values();
        lemma_be_value_bytes(input@.subrange(0, 2));
    }
    let len: usize = get_be(input, 0, 2) as usize;
    if len > max || input.len() - 2 < len {
        return Err(GenesisError::Corrupt);
    }
    let value = slice_subrange(input, 2, 2 + len);
    let rest = slice_subrange(input, 2 + len, input.len());
    assert(rest@ =~= input@.skip(2 + len));
    Ok((value, rest))
}

/// A string from which no field can be taken begins with none.
proof fn lemma_taken(input: Seq<u8>, max: nat)
    requires
        max <= 0xFFFF,
    ensures
        match taken(input, max) {
            Some((value, rest)) => value.len() <= max && input == field16(value) + rest,
            None => forall|value: Seq<u8>, rest: Seq<u8>|
                value.len() <= max ==> input != #[trigger] (field16(value) + rest),
        },
{
    law_take_undoes_push(Seq::empty(), Seq::empty(), input, max);
    assert forall|value: Seq<u8>, rest: Seq<u8>|
        value.len() <= max && input == #[trigger] (field16(value) + rest) implies taken(
        input,
        max,
    ) == Some((value, rest)) by {
        law_take_undoes_push(value, rest, input, max);
    }
}

fn take_string(input: &[u8], max: usize) -> (result: Result<(String, &[u8]), GenesisError>)
    requires
        max <= 0xFFFF,
    ensures
        match result {
            Ok((text, rest)) => encode_utf8(text@).len() <= max && input@ == text16(text@) + rest@,
            Err(e) => e == GenesisError::Corrupt && forall|text: Seq<char>, rest: Seq<u8>|
                encode_utf8(text).len() <= max ==> input@ != #[trigger] (text16(text) + rest),
        },
{
    proof {
        lemma_taken(input@, max as nat);
    }
    let (value, rest) = take_bytes(input, max)?;
    match utf8_str(value) {
        Some(text) => Ok((text.to_owned(), rest)),
        None => {
            proof {
                assert forall|text: Seq<char>, other: Seq<u8>|
                    encode_utf8(text).len() <= max implies input@ != #[trigger] (text16(text)
                    + other) by {
                    if input@ == text16(text) + other {
                        lemma_field16_split(encode_utf8(text), other, value@, rest@);
                        vstd::utf8::encode_utf8_valid_utf8(text);
                    }
                }
            }
            Err(GenesisError::Corrupt)
        },
    }
}

fn take_u64(input: &[u8]) -> (result: Result<(u64, &[u8]), GenesisError>)
    ensures
        match result {
            Ok((n, rest)) => input@ == be8(n) + rest@,
            Err(e) => e == GenesisError::Corrupt && input@.len() < 8,
        },
{
    if input.len() < 8 {
        return Err(GenesisError::Corrupt);
    }
    let n: u64 = get_be(input, 0, 8);
    let rest = slice_subrange(input, 8, input.len());
    proof {
        lemma_be_value_bytes(input@.subrange(0, 8));
        assert(input@ =~= be8(n) + rest@);
    }
    Ok((n, rest))
}

fn take_array(input: &[u8]) -> (result: Result<([u8; 32], &[u8]), GenesisError>)
    ensures
        match result {
            Ok((array, rest)) => input@ == array@ + rest@,
            Err(e) => e == GenesisError::Corrupt && input@.len() < 32,
        },
{
    if input.len() < 32 {
        return Err(GenesisError::Corrupt);
    }
    let array = take_digest(input, 0);
    let rest = slice_subrange(input, 32, input.len());
    assert(input@ =~= array@ + rest@);
    Ok((array, rest))
}

fn take_export(input: &[u8]) -> (result: Result<ExportIdentity, GenesisError>)
    ensures
        match result {
            Ok(export) => export@.name.len() <= MAX_ID_BYTES && input@ == export_fields(export@),
            Err(e) => e == GenesisError::Corrupt && forall|export: ExportIdentityModel|
                export.name.len() <= MAX_ID_BYTES ==> input@ != #[trigger] export_fields(export),
        },
{
    let (nbd_directory_inode, after_directory) = take_u64(input)?;
    proof {
        assert forall|export: ExportIdentityModel|
            input@ == #[trigger] export_fields(export) implies after_directory@ == field16(
            export.name,
        ) + (be8(export.inode) + be8(export.advertised_size)) by {
            lemma_be8_split(
                nbd_directory_inode,
                after_directory@,
                export.nbd_directory_inode,
                field16(export.name) + (be8(export.inode) + be8(export.advertised_size)),
            );
        }
    }
    proof {
        lemma_taken(after_directory@, MAX_ID_BYTES as nat);
    }
    let (name, after_name) = take_bytes(after_directory, MAX_ID_BYTES)?;
    proof {
        assert forall|export: ExportIdentityModel|
            export.name.len() <= MAX_ID_BYTES && input@ == #[trigger] export_fields(
                export,
            ) implies after_name@ == be8(export.inode) + be8(export.advertised_size) by {
            lemma_field16_split(
                name@,
                after_name@,
                export.name,
                be8(export.inode) + be8(export.advertised_size),
            );
        }
    }
    let (inode, after_inode) = take_u64(after_name)?;
    proof {
        assert forall|export: ExportIdentityModel|
            export.name.len() <= MAX_ID_BYTES && input@ == #[trigger] export_fields(
                export,
            ) implies after_inode@ == be8(export.advertised_size) by {
            lemma_be8_split(inode, after_inode@, export.inode, be8(export.advertised_size));
        }
    }
    let (advertised_size, rest) = take_u64(after_inode)?;
    if rest.len() != 0 {
        return Err(GenesisError::Corrupt);
    }
    assert(after_inode@ =~= be8(advertised_size));
    Ok(ExportIdentity { nbd_directory_inode, name: slice_to_vec(name), inode, advertised_size })
}

/// The record whose fields `payload` holds, if it holds those of a record.
fn take_record(payload: &[u8]) -> (result: Result<GenesisDomainRecord, GenesisError>)
    ensures
        match result {
            Ok(record) => fits_payload(record@) && payload@ == genesis_payload(record@),
            Err(e) => e == GenesisError::Corrupt && forall|record: GenesisDomainRecordModel|
                sized(record) && valid_genesis(record) ==> payload@ != #[trigger] genesis_payload(
                    record,
                ),
        },
{
    proof {
        assert forall|record: GenesisDomainRecordModel|
            sized(record) && valid_genesis(record) implies encode_utf8(
            #[trigger] record.root_object_key,
        ).len() <= MAX_OBJECT_KEY_BYTES by {
            lemma_object_key_len(record.root_digest);
        }
    }
    let (workspace_id, after_workspace) = take_string(payload, MAX_ID_BYTES)?;
    proof {
        assert forall|record: GenesisDomainRecordModel|
            sized(record) && valid_genesis(record) && payload@ == #[trigger] genesis_payload(
                record,
            ) implies after_workspace@ == text16(record.actor) + (be8(record.actor_generation) + root_fields(
            record,
        )) by {
            lemma_text16_split(
                workspace_id@,
                after_workspace@,
                record.workspace_id,
                text16(record.actor) + (be8(record.actor_generation) + root_fields(record)),
            );
        }
    }
    let (actor, after_actor) = take_string(after_workspace, MAX_ID_BYTES)?;
    proof {
        assert forall|record: GenesisDomainRecordModel|
            sized(record) && valid_genesis(record) && payload@ == #[trigger] genesis_payload(
                record,
            ) implies after_actor@ == be8(record.actor_generation) + root_fields(record) by {
            lemma_text16_split(
                actor@,
                after_actor@,
                record.actor,
                be8(record.actor_generation) + root_fields(record),
            );
        }
    }
    let (actor_generation, after_generation) = take_u64(after_actor)?;
    proof {
        assert forall|record: GenesisDomainRecordModel|
            sized(record) && valid_genesis(record) && payload@ == #[trigger] genesis_payload(
                record,
            ) implies after_generation@ == root_fields(record) by {
            lemma_be8_split(
                actor_generation,
                after_generation@,
                record.actor_generation,
                root_fields(record),
            );
        }
    }
    let (request_digest, after_request) = take_array(after_generation)?;
    let (root_digest, after_root) = take_array(after_request)?;
    proof {
        assert forall|record: GenesisDomainRecordModel|
            sized(record) && valid_genesis(record) && payload@ == #[trigger] genesis_payload(
                record,
            ) implies after_root@ == text16(record.root_object_key) + export_fields(record.export) by {
            let tail = text16(record.root_object_key) + export_fields(record.export);
            lemma_fixed_split(
                request_digest@,
                after_request@,
                record.request_digest,
                record.root_digest + tail,
            );
            lemma_fixed_split(root_digest@, after_root@, record.root_digest, tail);
        }
    }
    let (root_object_key, after_object) = take_string(after_root, MAX_OBJECT_KEY_BYTES)?;
    proof {
        assert forall|record: GenesisDomainRecordModel|
            sized(record) && valid_genesis(record) && payload@ == #[trigger] genesis_payload(
                record,
            ) implies after_object@ == export_fields(record.export) by {
            lemma_text16_split(
                root_object_key@,
                after_object@,
                record.root_object_key,
                export_fields(record.export),
            );
        }
    }
    let export = take_export(after_object)?;
    Ok(
        GenesisDomainRecord {
            workspace_id,
            actor,
            actor_generation,
            request_digest: CanonicalRequestDigest::new(request_digest),
            root_digest: ContentDigest::new(root_digest),
            root_object_key,
            export,
        },
    )
}

/// `result` is the record that `bytes` store under `key`, or says that they store none.
pub open spec fn is_read_genesis(
    result: Result<GenesisDomainRecord, GenesisError>,
    key: Seq<u8>,
    bytes: Seq<u8>,
) -> bool {
    match result {
        Ok(record) => stores_genesis(key, bytes, record@),
        Err(e) => e == GenesisError::Corrupt && forall|record: GenesisDomainRecordModel|
            !#[trigger] stores_genesis(key, bytes, record),
    }
}

/// The record that `bytes` stores under `key`.
pub fn decode_record(key: &[u8], bytes: &[u8]) -> (result: Result<GenesisDomainRecord, GenesisError>)
    ensures
        is_read_genesis(result, key@, bytes@),
{
    let kind = EnvelopeKind {
        magic: RECORD_MAGIC,
        version: 1,
        domain: "rhizome.workspace-genesis-record.v1\0",
    };
    proof {
        assert forall|record: GenesisDomainRecordModel|
            #[trigger] stores_genesis(key@, bytes@, record) implies genesis_payload(record).len()
            <= u32::MAX by {
            lemma_object_key_len(record.root_digest);
        }
    }
    let payload = match unseal(&kind, key, bytes) {
        Some(payload) => payload,
        None => {
            return Err(GenesisError::Corrupt);
        },
    };
    proof {
        assert forall|record: GenesisDomainRecordModel|
            #[trigger] stores_genesis(key@, bytes@, record) implies payload@ == genesis_payload(
            record,
        ) by {
            law_envelope_holds_one_payload(kind, key@, payload@, genesis_payload(record));
        }
    }
    let record = take_record(payload)?;
    proof {
        assert forall|other: GenesisDomainRecordModel|
            #[trigger] stores_genesis(key@, bytes@, other) implies other == record@ by {
            lemma_object_key_len(other.root_digest);
            law_payload_holds_one_record(other, record@);
        }
    }
    match validate_record(&record) {
        Ok(()) => {},
        Err(_) => {
            return Err(GenesisError::Corrupt);
        },
    }
    let own_key = KeyCodec::new().workspace_genesis_key(&record.workspace_id);
    if !same_bytes(bytes_slice(&own_key), key) {
        return Err(GenesisError::Corrupt);
    }
    Ok(record)
}

} // verus!
