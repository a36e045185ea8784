//! Where the parts of every key and value lie, byte by byte.

use super::errors::FsError;
use super::key_codec::be8;
use super::key_codec::export_authority_key_bytes;
use super::key_codec::export_rows;
use super::key_codec::is_reserved_mutation_key;
use super::key_codec::key_kind;
use super::key_codec::kind_byte;
use super::key_codec::le8;
use super::key_codec::prefix_bytes;
use super::key_codec::session_scope;
use super::key_codec::ExportBindingMetadataKey;
use super::key_codec::ExportMutationKey;
use super::key_codec::KeyCodec;
use super::key_codec::KeyPrefix;
use super::key_codec::NbdSessionKey;
use super::key_codec::ParsedKey;
use super::key_codec::EXTENT_DOMAIN;
use super::key_codec::META_DOMAIN;
use crate::outside::contents;
use crate::replication::HaStamp;
use crate::wire::be_bytes;
use crate::wire::be_value;
use crate::wire::begins_with;
use crate::wire::le_value;
use crate::wire::lemma_be_bytes_len;
use crate::wire::lemma_be_roundtrip;
use crate::wire::lemma_le_bytes_len;
use crate::wire::lemma_le_roundtrip;
use crate::wire::lemma_span_values;
use bytes::Bytes;
use vstd::prelude::*;
use vstd::utf8::encode_utf8;

verus! {

broadcast use {lemma_be_bytes_len, lemma_le_bytes_len};

/// The number in the eight bytes from `at`, most significant first.
pub open spec fn big(bytes: Seq<u8>, at: int) -> int {
    bytes[at] * 0x100_0000_0000_0000 + bytes[at + 1] * 0x1_0000_0000_0000 + bytes[at + 2]
        * 0x100_0000_0000 + bytes[at + 3] * 0x1_0000_0000 + bytes[at + 4] * 0x100_0000 + bytes[at
        + 5] * 0x1_0000 + bytes[at + 6] * 0x100 + bytes[at + 7]
}

/// The number in the eight bytes from `at`, least significant first.
pub open spec fn little(bytes: Seq<u8>, at: int) -> int {
    bytes[at + 7] * 0x100_0000_0000_0000 + bytes[at + 6] * 0x1_0000_0000_0000 + bytes[at + 5]
        * 0x100_0000_0000 + bytes[at + 4] * 0x1_0000_0000 + bytes[at + 3] * 0x100_0000 + bytes[at
        + 2] * 0x1_0000 + bytes[at + 1] * 0x100 + bytes[at]
}

pub(crate) proof fn lemma_big_value(bytes: Seq<u8>)
    requires
        bytes.len() == 8,
    ensures
        be_value(bytes) == big(bytes, 0),
{
    reveal_with_fuel(be_value, 9);
}

pub(crate) proof fn lemma_little_value(bytes: Seq<u8>)
    requires
        bytes.len() == 8,
    ensures
        le_value(bytes) == little(bytes, 0),
{
    reveal_with_fuel(le_value, 9);
}

pub(crate) proof fn lemma_be8(n: u64)
    ensures
        be8(n).len() == 8,
        big(be8(n), 0) == n,
{
    lemma_span_values();
    lemma_be_roundtrip(n as nat, 8);
    lemma_big_value(be8(n));
}

pub(crate) proof fn lemma_le8(n: u64)
    ensures
        le8(n).len() == 8,
        little(le8(n), 0) == n,
{
    lemma_span_values();
    lemma_le_roundtrip(n as nat, 8);
    lemma_little_value(le8(n));
}

/// The number at `at` is that of the eight bytes there.
pub(crate) proof fn lemma_big_at(bytes: Seq<u8>, at: int)
    requires
        0 <= at,
        at + 8 <= bytes.len(),
    ensures
        be_value(bytes.subrange(at, at + 8)) == big(bytes, at),
        0 <= big(bytes, at) <= u64::MAX,
{
    lemma_big_value(bytes.subrange(at, at + 8));
}

pub(crate) proof fn lemma_little_at(bytes: Seq<u8>, at: int)
    requires
        0 <= at,
        at + 8 <= bytes.len(),
    ensures
        le_value(bytes.subrange(at, at + 8)) == little(bytes, at),
        0 <= little(bytes, at) <= u64::MAX,
{
    lemma_little_value(bytes.subrange(at, at + 8));
}

/// `key` begins with `"meta"` and the byte of a kind.
pub open spec fn in_meta(key: Seq<u8>, kind: u8) -> bool {
    &&& key.len() >= 5
    &&& key[0] == 0x6d
    &&& key[1] == 0x65
    &&& key[2] == 0x74
    &&& key[3] == 0x61
    &&& key[4] == kind
}

/// `key` begins with `"extent"` and the byte of extents.
pub open spec fn in_extent(key: Seq<u8>) -> bool {
    &&& key.len() >= 7
    &&& key[0] == 0x65
    &&& key[1] == 0x78
    &&& key[2] == 0x74
    &&& key[3] == 0x65
    &&& key[4] == 0x6e
    &&& key[5] == 0x74
    &&& key[6] == 0xFE
}

/// A metadata key with one number.
pub open spec fn holds_one(key: Seq<u8>, kind: u8, n: u64) -> bool {
    in_meta(key, kind) && key.len() == 13 && big(key, 5) == n
}

/// A metadata key with two numbers.
pub open spec fn holds_two(key: Seq<u8>, kind: u8, n: u64, m: u64) -> bool {
    in_meta(key, kind) && key.len() == 21 && big(key, 5) == n && big(key, 13) == m
}

/// An inode key is the inode's number under its kind.
pub proof fn law_inode_key_layout(codec: &KeyCodec, inode_id: u64, key: Bytes)
    requires
        call_ensures(KeyCodec::inode_key, (codec, inode_id), key),
    ensures
        holds_one(contents(key), 1, inode_id),
{
    lemma_be8(inode_id);
}

/// The key of a directory's cookie counter is the directory's number under its kind.
pub proof fn law_dir_cookie_key_layout(codec: &KeyCodec, dir_id: u64, key: Bytes)
    requires
        call_ensures(KeyCodec::dir_cookie_counter_key, (codec, dir_id), key),
    ensures
        holds_one(contents(key), 4, dir_id),
{
    lemma_be8(dir_id);
}

/// The key of a shard of counters is the shard's number under its kind.
pub proof fn law_stats_key_layout(codec: &KeyCodec, shard_id: usize, key: Bytes)
    requires
        call_ensures(KeyCodec::stats_shard_key, (codec, shard_id), key),
    ensures
        holds_one(contents(key), 5, shard_id as u64),
{
    lemma_be8(shard_id as u64);
}

/// The key of an orphan is the inode's number under its kind.
pub proof fn law_orphan_key_layout(codec: &KeyCodec, inode_id: u64, key: Bytes)
    requires
        call_ensures(KeyCodec::orphan_key, (codec, inode_id), key),
    ensures
        holds_one(contents(key), 8, inode_id),
{
    lemma_be8(inode_id);
}

/// A directory scan key is the directory and the cookie.
pub proof fn law_dir_scan_key_layout(codec: &KeyCodec, dir_id: u64, cookie: u64, key: Bytes)
    requires
        call_ensures(KeyCodec::dir_scan_key, (codec, dir_id, cookie), key),
    ensures
        holds_two(contents(key), 3, dir_id, cookie),
{
    lemma_be8(dir_id);
    lemma_be8(cookie);
}

/// A scan resumes at the cookie right behind the one it stopped at.
pub proof fn law_dir_scan_resume_key_layout(
    codec: &KeyCodec,
    dir_id: u64,
    cookie: u64,
    key: Bytes,
)
    requires
        cookie < u64::MAX,
        call_ensures(KeyCodec::dir_scan_resume_key, (codec, dir_id, cookie), key),
    ensures
        holds_two(contents(key), 3, dir_id, (cookie + 1) as u64),
{
    lemma_be8(dir_id);
    lemma_be8((cookie + 1) as u64);
}

/// What every scan key of a directory begins with is the directory under its kind.
pub proof fn law_dir_scan_prefix_layout(codec: &KeyCodec, dir_id: u64, prefix: Vec<u8>)
    requires
        call_ensures(KeyCodec::dir_scan_prefix, (codec, dir_id), prefix),
    ensures
        holds_one(prefix@, 3, dir_id),
{
    lemma_be8(dir_id);
}

/// A tombstone key is the time and the inode.
pub proof fn law_tombstone_key_layout(codec: &KeyCodec, timestamp: u64, inode_id: u64, key: Bytes)
    requires
        call_ensures(KeyCodec::tombstone_key, (codec, timestamp, inode_id), key),
    ensures
        holds_two(contents(key), 7, timestamp, inode_id),
{
    lemma_be8(timestamp);
    lemma_be8(inode_id);
}

/// A segment counter key is the epoch and the counter.
pub proof fn law_segcount_key_layout(codec: &KeyCodec, epoch: u64, counter: u64, key: Bytes)
    requires
        call_ensures(KeyCodec::segcount_key, (codec, epoch, counter), key),
    ensures
        holds_two(contents(key), 9, epoch, counter),
{
    lemma_be8(epoch);
    lemma_be8(counter);
}

/// An extent key is the inode and the extent, in the domain of extents.
pub proof fn law_extent_key_layout(codec: &KeyCodec, inode_id: u64, extent_index: u64, key: Bytes)
    requires
        call_ensures(KeyCodec::extent_key, (codec, inode_id, extent_index), key),
    ensures
        in_extent(contents(key)),
        contents(key).len() == 23,
        big(contents(key), 7) == inode_id,
        big(contents(key), 15) == extent_index,
{
    lemma_be8(inode_id);
    lemma_be8(extent_index);
}

/// A directory entry key is the directory and then the name, to its end.
pub proof fn law_dir_entry_key_layout(codec: &KeyCodec, dir_id: u64, name: &[u8], key: Bytes)
    requires
        call_ensures(KeyCodec::dir_entry_key, (codec, dir_id, name), key),
    ensures
        in_meta(contents(key), 2),
        contents(key).len() == 13 + name@.len(),
        big(contents(key), 5) == dir_id,
        contents(key).skip(13) == name@,
{
    lemma_be8(dir_id);
    assert(contents(key).skip(13) =~= name@);
}

/// `key` is a system row: one byte behind its kind.
pub open spec fn is_system_row(key: Seq<u8>, subtype: u8) -> bool {
    in_meta(key, 6) && key.len() == 6 && key[5] == subtype
}

/// Each system row has a byte of its own.
pub proof fn law_system_key_layout(codec: &KeyCodec, key: Bytes)
    ensures
        call_ensures(KeyCodec::system_counter_key, (codec,), key) ==> is_system_row(
            contents(key),
            1,
        ),
        call_ensures(KeyCodec::ha_seqno_key, (codec,), key) ==> is_system_row(contents(key), 2),
        call_ensures(KeyCodec::lineage_key, (codec,), key) ==> is_system_row(contents(key), 3),
        call_ensures(KeyCodec::taint_key, (codec,), key) ==> is_system_row(contents(key), 4),
        call_ensures(KeyCodec::last_orphan_sweep_key, (codec,), key) ==> is_system_row(
            contents(key),
            5,
        ),
        call_ensures(KeyCodec::export_boot_key, (codec,), key) ==> is_system_row(contents(key), 6),
{
}

/// The byte of a kind.
pub open spec fn byte_of(prefix: KeyPrefix, byte: u8) -> bool {
    match byte {
        1 => prefix is Inode,
        2 => prefix is DirEntry,
        3 => prefix is DirScan,
        4 => prefix is DirCookie,
        5 => prefix is Stats,
        6 => prefix is System,
        7 => prefix is Tombstone,
        8 => prefix is Orphan,
        9 => prefix is SegCount,
        10 => prefix is WorkspaceOperation,
        254 => prefix is Extent,
        _ => false,
    }
}

/// The kind of a key is told by its byte, both ways.
pub proof fn law_kind_has_one_byte(prefix: KeyPrefix, byte: u8, read: Result<KeyPrefix, ()>)
    requires
        call_ensures(<u8 as From<KeyPrefix>>::from, (prefix,), byte),
        call_ensures(<KeyPrefix as TryFrom<u8>>::try_from, (byte,), read),
    ensures
        byte_of(prefix, byte),
        read == Ok::<KeyPrefix, ()>(prefix),
{
}

/// A byte is read as the kind that it stands for, or refused if it stands for none.
pub proof fn law_byte_is_read_as_its_kind(byte: u8, read: Result<KeyPrefix, ()>)
    requires
        call_ensures(<KeyPrefix as TryFrom<u8>>::try_from, (byte,), read),
    ensures
        match read {
            Ok(prefix) => byte_of(prefix, byte),
            Err(_) => 11 <= byte && byte != 254 || byte == 0,
        },
{
}

/// Identifiers start right behind the domain and the byte of the kind.
pub proof fn law_offsets_follow_the_domain(
    codec: &KeyCodec,
    prefix: KeyPrefix,
    domain: usize,
    kind: usize,
    id: usize,
)
    requires
        call_ensures(KeyCodec::domain_len, (codec, prefix), domain),
        call_ensures(KeyCodec::kind_offset, (codec, prefix), kind),
        call_ensures(KeyCodec::id_offset, (codec, prefix), id),
    ensures
        domain == if prefix is Extent {
            6int
        } else {
            4int
        },
        kind == domain,
        id == domain + 1,
{
}

/// The range of a kind begins with the kind's byte and ends before the next.
pub proof fn law_prefix_range_layout(codec: &KeyCodec, prefix: KeyPrefix, range: (Bytes, Bytes))
    requires
        call_ensures(KeyCodec::prefix_range, (codec, prefix), range),
    ensures
        ({
            let start = contents(range.0);
            let end = contents(range.1);
            &&& start.len() == end.len()
            &&& start.len() == if prefix is Extent {
                7int
            } else {
                5int
            }
            &&& prefix is Extent ==> in_extent(start)
            &&& !(prefix is Extent) ==> in_meta(start, start[4]) && byte_of(prefix, start[4])
            &&& end.drop_last() == start.drop_last()
            &&& end.last() == start.last() + 1
        }),
{
}

/// The range of segment counters is that of their kind.
pub proof fn law_segcount_range_layout(codec: &KeyCodec, range: (Bytes, Bytes))
    requires
        call_ensures(KeyCodec::segcount_prefix_range, (codec,), range),
    ensures
        in_meta(contents(range.0), 9),
        in_meta(contents(range.1), 10),
        contents(range.0).len() == 5,
        contents(range.1).len() == 5,
{
}

/// The kind of a key is told by its domain and its byte: extents lie in their own domain,
/// and everything else in the other.
pub proof fn law_kind_is_read_from_the_domain(
    codec: &KeyCodec,
    key: &[u8],
    kind: Option<KeyPrefix>,
)
    requires
        call_ensures(KeyCodec::peek_kind, (codec, key), kind),
    ensures
        kind == Some(KeyPrefix::Extent) <==> in_extent(key@),
        kind matches Some(prefix) ==> prefix is Extent || (in_meta(key@, key@[4]) && byte_of(
            prefix,
            key@[4],
        )),
        kind is None ==> !in_extent(key@) && forall|byte: u8| 1 <= byte <= 10 ==> !#[trigger] in_meta(
            key@,
            byte,
        ),
{
    let n = key@.len();
    if n >= 6 && key@[0] == 0x65 && key@[1] == 0x78 && key@[2] == 0x74 && key@[3] == 0x65
        && key@[4] == 0x6e && key@[5] == 0x74 {
        assert(key@.subrange(0, 6) =~= EXTENT_DOMAIN@);
    }
    if n >= 4 && key@[0] == 0x6d && key@[1] == 0x65 && key@[2] == 0x74 && key@[3] == 0x61 {
        assert(key@.subrange(0, 4) =~= META_DOMAIN@);
        assert(n >= 6 ==> key@.subrange(0, 6)[0] != EXTENT_DOMAIN@[0]);
    }
    if key_kind(key@) is Some {
        if begins_with(key@, EXTENT_DOMAIN@) {
            assert(key@.subrange(0, 6)[0] == key@[0]);
            assert(key@.subrange(0, 6)[1] == key@[1]);
            assert(key@.subrange(0, 6)[2] == key@[2]);
            assert(key@.subrange(0, 6)[3] == key@[3]);
            assert(key@.subrange(0, 6)[4] == key@[4]);
            assert(key@.subrange(0, 6)[5] == key@[5]);
        } else {
            assert(key@.subrange(0, 4)[0] == key@[0]);
            assert(key@.subrange(0, 4)[1] == key@[1]);
            assert(key@.subrange(0, 4)[2] == key@[2]);
            assert(key@.subrange(0, 4)[3] == key@[3]);
        }
    }
}

/// What every row of a store of the authority begins with: the domain, the kind, the
/// version of the layout and the store.
pub open spec fn store_head(store: u8) -> Seq<u8> {
    seq![0x6du8, 0x65u8, 0x74u8, 0x61u8, 0x0bu8, 2u8, store]
}

pub(crate) proof fn lemma_store_head()
    ensures
        forall|store: u8| #[trigger] export_rows(store) == store_head(store),
{
    assert forall|store: u8| #[trigger] export_rows(store) == store_head(store) by {
        assert(export_rows(store) =~= store_head(store));
    }
}

/// Bytes with their length in front, high byte first.
pub open spec fn with_length(bytes: Seq<u8>) -> Seq<u8> {
    seq![(bytes.len() / 256) as u8, (bytes.len() % 256) as u8] + bytes
}

/// The eight bytes of a number, most significant first.
pub open spec fn eight(n: u64) -> Seq<u8> {
    seq![
        (n / 0x100_0000_0000_0000) as u8,
        (n / 0x1_0000_0000_0000 % 0x100) as u8,
        (n / 0x100_0000_0000 % 0x100) as u8,
        (n / 0x1_0000_0000 % 0x100) as u8,
        (n / 0x100_0000 % 0x100) as u8,
        (n / 0x1_0000 % 0x100) as u8,
        (n / 0x100 % 0x100) as u8,
        (n % 0x100) as u8,
    ]
}

pub(crate) proof fn lemma_eight(n: u64)
    ensures
        be8(n) == eight(n),
{
    reveal_with_fuel(be_bytes, 9);
    assert(be8(n) =~= eight(n));
}

pub(crate) proof fn lemma_with_length(bytes: Seq<u8>)
    requires
        bytes.len() <= 0xFFFF,
    ensures
        be_bytes(bytes.len(), 2) + bytes == with_length(bytes),
{
    reveal_with_fuel(be_bytes, 3);
    assert(be_bytes(bytes.len(), 2) + bytes =~= with_length(bytes));
}

/// A text with its length in front.
pub open spec fn text_with_length(text: Seq<char>) -> Seq<u8> {
    with_length(encode_utf8(text))
}

/// A text whose length fits two bytes.
pub open spec fn is_short(text: Seq<char>) -> bool {
    encode_utf8(text).len() <= 0xFFFF
}

/// The keys of a workspace's records hold the store and the workspace, and nothing else.
pub proof fn law_workspace_key_layout(codec: &KeyCodec, workspace_id: &str, key: Bytes)
    requires
        is_short(workspace_id@),
    ensures
        call_ensures(KeyCodec::export_authority_key, (codec, workspace_id), key) ==> contents(key)
            == store_head(1) + text_with_length(workspace_id@),
        call_ensures(KeyCodec::workspace_genesis_key, (codec, workspace_id), key) ==> contents(key)
            == store_head(9) + text_with_length(workspace_id@),
        call_ensures(KeyCodec::workspace_head_key, (codec, workspace_id), key) ==> contents(key)
            == store_head(10) + text_with_length(workspace_id@),
{
    lemma_with_length(encode_utf8(workspace_id@));
    lemma_store_head();
}

/// The key of a version of a head ends with the version.
pub proof fn law_head_version_key_layout(
    codec: &KeyCodec,
    workspace_id: &str,
    version: u64,
    key: Bytes,
)
    requires
        is_short(workspace_id@),
        call_ensures(KeyCodec::workspace_head_version_key, (codec, workspace_id, version), key),
    ensures
        contents(key) == store_head(11) + text_with_length(workspace_id@) + eight(version),
{
    lemma_with_length(encode_utf8(workspace_id@));
    lemma_eight(version);
    lemma_store_head();
}

/// The key of a barrier's record ends with the request.
pub proof fn law_barrier_record_key_layout(
    codec: &KeyCodec,
    workspace_id: &str,
    request_id: &str,
    key: Bytes,
)
    requires
        is_short(workspace_id@),
        is_short(request_id@),
        call_ensures(
            KeyCodec::workspace_barrier_record_key,
            (codec, workspace_id, request_id),
            key,
        ),
    ensures
        contents(key) == store_head(12) + text_with_length(workspace_id@) + text_with_length(
            request_id@,
        ),
{
    lemma_with_length(encode_utf8(workspace_id@));
    lemma_with_length(encode_utf8(request_id@));
    lemma_store_head();
}

/// The rows of a session name the workspace, the actor with its generation, the epoch of
/// the placement, the session and the process.
pub open spec fn session_part(
    workspace_id: Seq<char>,
    actor: Seq<char>,
    actor_generation: u64,
    placement_epoch: u64,
    session_id: Seq<char>,
    server_boot_id: Seq<char>,
) -> Seq<u8> {
    text_with_length(workspace_id) + text_with_length(actor) + eight(actor_generation) + eight(
        placement_epoch,
    ) + text_with_length(session_id) + text_with_length(server_boot_id)
}

pub(crate) proof fn lemma_session_part(
    workspace_id: Seq<char>,
    actor: Seq<char>,
    actor_generation: u64,
    placement_epoch: u64,
    session_id: Seq<char>,
    server_boot_id: Seq<char>,
)
    requires
        is_short(workspace_id),
        is_short(actor),
        is_short(session_id),
        is_short(server_boot_id),
    ensures
        session_scope(
            workspace_id,
            actor,
            actor_generation,
            placement_epoch,
            session_id,
            server_boot_id,
        ) == session_part(
            workspace_id,
            actor,
            actor_generation,
            placement_epoch,
            session_id,
            server_boot_id,
        ),
{
    lemma_with_length(encode_utf8(workspace_id));
    lemma_with_length(encode_utf8(actor));
    lemma_with_length(encode_utf8(session_id));
    lemma_with_length(encode_utf8(server_boot_id));
    lemma_eight(actor_generation);
    lemma_eight(placement_epoch);
    assert(session_scope(
        workspace_id,
        actor,
        actor_generation,
        placement_epoch,
        session_id,
        server_boot_id,
    ) =~= session_part(
        workspace_id,
        actor,
        actor_generation,
        placement_epoch,
        session_id,
        server_boot_id,
    ));
}

/// The key of an outcome names the session and ends with the operation.
pub proof fn law_outcome_key_layout(codec: &KeyCodec, identity: &ExportMutationKey<'_>, key: Bytes)
    requires
        is_short(identity.workspace_id@),
        is_short(identity.actor@),
        is_short(identity.session_id@),
        is_short(identity.server_boot_id@),
        call_ensures(KeyCodec::export_mutation_outcome_key, (codec, identity), key),
    ensures
        contents(key) == store_head(2) + session_part(
            identity.workspace_id@,
            identity.actor@,
            identity.actor_generation,
            identity.placement_epoch,
            identity.session_id@,
            identity.server_boot_id@,
        ) + identity.operation_id@,
{
    lemma_session_part(
        identity.workspace_id@,
        identity.actor@,
        identity.actor_generation,
        identity.placement_epoch,
        identity.session_id@,
        identity.server_boot_id@,
    );
    lemma_store_head();
}

/// The key of an installed session names the session; that of a connection's receipt ends
/// with the connection.
pub proof fn law_session_key_layout(
    codec: &KeyCodec,
    identity: &NbdSessionKey<'_>,
    connection_id: &[u8; 16],
    key: Bytes,
)
    requires
        is_short(identity.workspace_id@),
        is_short(identity.actor@),
        is_short(identity.session_id@),
        is_short(identity.server_boot_id@),
    ensures
        ({
            let session = session_part(
                identity.workspace_id@,
                identity.actor@,
                identity.actor_generation,
                identity.placement_epoch,
                identity.session_id@,
                identity.server_boot_id@,
            );
            &&& call_ensures(KeyCodec::nbd_session_install_key, (codec, identity), key)
                ==> contents(key) == store_head(5) + session
            &&& call_ensures(
                KeyCodec::nbd_connection_receipt_key,
                (codec, identity, connection_id),
                key,
            ) ==> contents(key) == store_head(7) + session + connection_id@
        }),
{
    lemma_session_part(
        identity.workspace_id@,
        identity.actor@,
        identity.actor_generation,
        identity.placement_epoch,
        identity.session_id@,
        identity.server_boot_id@,
    );
    lemma_store_head();
}

/// A connection is reserved under its own identity alone.
pub proof fn law_reservation_key_layout(codec: &KeyCodec, connection_id: &[u8; 16], key: Bytes)
    requires
        call_ensures(KeyCodec::nbd_connection_reservation_key, (codec, connection_id), key),
    ensures
        contents(key) == store_head(8) + connection_id@,
{
    lemma_store_head();
}

/// The outcome of a session's installation is kept by workspace and request.
pub proof fn law_install_outcome_key_layout(
    codec: &KeyCodec,
    workspace_id: &str,
    request_id: &[u8; 16],
    key: Bytes,
)
    requires
        is_short(workspace_id@),
        call_ensures(
            KeyCodec::nbd_session_install_outcome_key,
            (codec, workspace_id, request_id),
            key,
        ),
    ensures
        contents(key) == store_head(6) + text_with_length(workspace_id@) + request_id@,
{
    lemma_with_length(encode_utf8(workspace_id@));
    lemma_store_head();
}

/// A binding is found by directory and name.
pub proof fn law_reverse_name_key_layout(
    codec: &KeyCodec,
    directory_inode: u64,
    name: &[u8],
    key: Bytes,
)
    requires
        name@.len() <= 0xFFFF,
        call_ensures(KeyCodec::export_reverse_name_key, (codec, directory_inode, name), key),
    ensures
        contents(key) == store_head(3) + eight(directory_inode) + with_length(name@),
{
    lemma_with_length(name@);
    lemma_eight(directory_inode);
    lemma_store_head();
}

/// A binding is found by inode.
pub proof fn law_reverse_inode_key_layout(codec: &KeyCodec, inode: u64, key: Bytes)
    requires
        call_ensures(KeyCodec::export_reverse_inode_key, (codec, inode), key),
    ensures
        contents(key) == store_head(4) + eight(inode),
{
    lemma_eight(inode);
    lemma_store_head();
}

/// What the keys of a store begin with.
pub proof fn law_store_prefix_layout(codec: &KeyCodec, key: Bytes)
    ensures
        call_ensures(KeyCodec::export_authority_prefix, (codec,), key) ==> contents(key)
            == store_head(1),
        call_ensures(KeyCodec::export_reverse_name_prefix, (codec,), key) ==> contents(key)
            == store_head(3),
        call_ensures(KeyCodec::export_reverse_inode_prefix, (codec,), key) ==> contents(key)
            == store_head(4),
        call_ensures(KeyCodec::legacy_export_v1_prefix, (codec,), key) ==> contents(key)
            == seq![0x6du8, 0x65u8, 0x74u8, 0x61u8, 0x0bu8, 1u8],
{
    lemma_store_head();
}

/// The key of an operation holds the version of the layout, the workspace, the kind as a
/// signed number and the request.
pub proof fn law_operation_key_layout(
    codec: &KeyCodec,
    key_version: u8,
    workspace_id: &[u8],
    kind: i32,
    request_id: &[u8],
    key: Bytes,
)
    requires
        workspace_id@.len() <= 0xFFFF,
        request_id@.len() <= 0xFFFF,
        call_ensures(
            KeyCodec::workspace_operation_key,
            (codec, key_version, workspace_id, kind, request_id),
            key,
        ),
    ensures
        ({
            let bits = if kind < 0 {
                kind + 0x1_0000_0000
            } else {
                kind as int
            };
            contents(key) == seq![0x6du8, 0x65u8, 0x74u8, 0x61u8, 0x0au8, key_version]
                + with_length(workspace_id@) + seq![
                (bits / 0x100_0000) as u8,
                (bits / 0x1_0000 % 0x100) as u8,
                (bits / 0x100 % 0x100) as u8,
                (bits % 0x100) as u8,
            ] + with_length(request_id@)
        }),
{
    lemma_with_length(workspace_id@);
    lemma_with_length(request_id@);
    let bits = if kind < 0 {
        kind + 0x1_0000_0000
    } else {
        kind as int
    };
    reveal_with_fuel(be_bytes, 5);
    assert(be_bytes(bits as nat, 4) =~= seq![
        (bits / 0x100_0000) as u8,
        (bits / 0x1_0000 % 0x100) as u8,
        (bits / 0x100 % 0x100) as u8,
        (bits % 0x100) as u8,
    ]);
    assert(prefix_bytes(KeyPrefix::WorkspaceOperation).push(key_version)
        =~= seq![0x6du8, 0x65u8, 0x74u8, 0x61u8, 0x0au8, key_version]);
    assert(contents(key) =~= seq![0x6du8, 0x65u8, 0x74u8, 0x61u8, 0x0au8, key_version]
        + with_length(workspace_id@) + be_bytes(bits as nat, 4) + with_length(request_id@));
}

/// The keys that only the authority may change are the rows of operations, of the
/// authority's stores and of the process that serves them.
pub proof fn law_reserved_keys(key: &[u8], reserved: bool)
    requires
        call_ensures(is_reserved_mutation_key, (key,), reserved),
    ensures
        reserved <==> in_meta(key@, 10) || in_meta(key@, 11) || (in_meta(key@, 6) && key@.len() > 5
            && key@[5] == 6),
{
    if key@.len() >= 4 {
        let head = key@.subrange(0, 4);
        assert(head[0] == key@[0] && head[1] == key@[1] && head[2] == key@[2] && head[3]
            == key@[3]);
        if key@[0] == 0x6d && key@[1] == 0x65 && key@[2] == 0x74 && key@[3] == 0x61 {
            assert(head =~= META_DOMAIN@);
        }
    }
}

/// A key of a kind is known by its first bytes.
proof fn lemma_head(prefix: KeyPrefix, key: Seq<u8>)
    ensures
        begins_with(key, prefix_bytes(prefix)) <==> if prefix is Extent {
            in_extent(key)
        } else {
            in_meta(key, kind_byte(prefix))
        },
{
    let head = prefix_bytes(prefix);
    let n = head.len() as int;
    if key.len() >= n {
        let own = key.subrange(0, n);
        assert(own[0] == key[0] && own[1] == key[1] && own[2] == key[2] && own[3] == key[3]
            && own[4] == key[4]);
        assert(own[n - 1] == key[n - 1]);
        if prefix is Extent {
            assert(own[5] == key[5]);
            if in_extent(key) {
                assert(own =~= head);
            }
        } else if in_meta(key, kind_byte(prefix)) {
            assert(own =~= head);
        }
    }
}

/// An extent key, and only one, is read, and gives the inode and the extent it names.
pub proof fn law_extent_key_is_read(
    codec: &KeyCodec,
    key: &[u8],
    both: Option<(u64, u64)>,
    index: Option<u64>,
)
    requires
        call_ensures(KeyCodec::parse_extent_key_full, (codec, key), both),
        call_ensures(KeyCodec::parse_extent_key, (codec, key), index),
    ensures
        both is Some <==> in_extent(key@) && key@.len() == 23,
        both matches Some((inode_id, extent_index)) ==> inode_id == big(key@, 7) && extent_index
            == big(key@, 15),
        index is Some <==> both is Some,
        index matches Some(extent_index) ==> extent_index == big(key@, 15),
{
    lemma_head(KeyPrefix::Extent, key@);
    if key@.len() == 23 {
        lemma_big_at(key@, 7);
        lemma_big_at(key@, 15);
    }
}

/// A segment counter key, and only one, is read, and gives its epoch and counter.
pub proof fn law_segcount_key_is_read(codec: &KeyCodec, key: &[u8], both: Option<(u64, u64)>)
    requires
        call_ensures(KeyCodec::parse_segcount_key, (codec, key), both),
    ensures
        both is Some <==> in_meta(key@, 9) && key@.len() == 21,
        both matches Some((epoch, counter)) ==> epoch == big(key@, 5) && counter == big(key@, 13),
{
    lemma_head(KeyPrefix::SegCount, key@);
    if key@.len() == 21 {
        lemma_big_at(key@, 5);
        lemma_big_at(key@, 13);
    }
}

/// What a scan learns of a key: the cookie of a directory scan key, the inode of a
/// tombstone or of an orphan, and nothing of any other.
pub proof fn law_scanned_key_is_read(codec: &KeyCodec, key: &[u8], parsed: ParsedKey)
    requires
        call_ensures(KeyCodec::parse_key, (codec, key), parsed),
    ensures
        match parsed {
            ParsedKey::DirScan { cookie } => in_meta(key@, 3) && key@.len() == 21 && cookie == big(
                key@,
                13,
            ),
            ParsedKey::Tombstone { inode_id } => in_meta(key@, 7) && key@.len() == 21 && inode_id
                == big(key@, 13),
            ParsedKey::Orphan { inode_id } => in_meta(key@, 8) && key@.len() == 13 && inode_id
                == big(key@, 5),
            ParsedKey::Unknown => !((in_meta(key@, 3) || in_meta(key@, 7)) && key@.len() == 21) && !(
            in_meta(key@, 8) && key@.len() == 13),
        },
{
    lemma_domains(key@);
    if key@.len() >= 13 {
        lemma_big_at(key@, 5);
    }
    if key@.len() == 21 {
        lemma_big_at(key@, 13);
    }
}

proof fn lemma_domains(key: Seq<u8>)
    ensures
        begins_with(key, META_DOMAIN@) <==> key.len() >= 4 && key[0]
            == 0x6d && key[1] == 0x65 && key[2] == 0x74 && key[3] == 0x61,
        begins_with(key, EXTENT_DOMAIN@) ==> key[0] == 0x65,
{
    if key.len() >= 4 {
        let own = key.subrange(0, 4);
        assert(own[0] == key[0] && own[1] == key[1] && own[2] == key[2] && own[3] == key[3]);
        if key[0] == 0x6d && key[1] == 0x65 && key[2] == 0x74 && key[3] == 0x61 {
            assert(own =~= META_DOMAIN@);
        }
    }
    if key.len() >= 6 {
        assert(key.subrange(0, 6)[0] == key[0]);
    }
}

/// The row of a binding that a key names: an extent or an inode by its number, a directory
/// entry by its directory and name.
pub proof fn law_binding_key_is_read(
    codec: &KeyCodec,
    key: &Bytes,
    result: Option<ExportBindingMetadataKey>,
)
    requires
        call_ensures(KeyCodec::parse_export_binding_metadata_key, (codec, key), result),
    ensures
        ({
            let bytes = contents(*key);
            match result {
                Some(ExportBindingMetadataKey::Extent(inode)) => in_extent(bytes) && bytes.len()
                    == 23 && inode == big(bytes, 7),
                Some(ExportBindingMetadataKey::Inode(inode)) => in_meta(bytes, 1) && bytes.len()
                    == 13 && inode == big(bytes, 5),
                Some(
                    ExportBindingMetadataKey::DirectoryEntry { directory_inode, name },
                ) => in_meta(bytes, 2) && bytes.len() > 13 && directory_inode == big(bytes, 5)
                    && contents(name) == bytes.skip(13),
                None => !(in_extent(bytes) && bytes.len() == 23) && !(in_meta(bytes, 1)
                    && bytes.len() == 13) && !(in_meta(bytes, 2) && bytes.len() > 13),
            }
        }),
{
    let bytes = contents(*key);
    lemma_head(KeyPrefix::Extent, bytes);
    lemma_head(KeyPrefix::Inode, bytes);
    lemma_head(KeyPrefix::DirEntry, bytes);
    if bytes.len() >= 13 {
        lemma_big_at(bytes, 5);
    }
    if bytes.len() == 23 {
        lemma_big_at(bytes, 7);
    }
}

/// A number is kept as its eight bytes, least significant first, and read from eight.
pub proof fn law_number_value_layout(value: u64, kept: Bytes, data: &[u8], read: Option<u64>)
    requires
        call_ensures(KeyCodec::encode_u64, (value,), kept),
        call_ensures(KeyCodec::decode_u64, (data,), read),
    ensures
        contents(kept).len() == 8,
        little(contents(kept), 0) == value,
        read is Some <==> data@.len() == 8,
        read matches Some(n) ==> n == little(data@, 0),
{
    lemma_le8(value);
    if data@.len() == 8 {
        lemma_little_value(data@);
        lemma_little_at(data@, 0);
    }
}

/// Counters and the sizes of tombstones are kept as numbers, and no other length is read.
pub proof fn law_counter_value_layout(
    value: u64,
    counter: Bytes,
    size: Bytes,
    data: &[u8],
    read: Result<u64, FsError>,
    read_size: Result<u64, FsError>,
)
    requires
        call_ensures(KeyCodec::encode_counter, (value,), counter),
        call_ensures(KeyCodec::encode_tombstone_size, (value,), size),
        call_ensures(KeyCodec::decode_counter, (data,), read),
        call_ensures(KeyCodec::decode_tombstone_size, (data,), read_size),
    ensures
        contents(counter).len() == 8,
        little(contents(counter), 0) == value,
        contents(size) == contents(counter),
        read == if data@.len() == 8 {
            Ok::<u64, FsError>(little(data@, 0) as u64)
        } else {
            Err::<u64, FsError>(FsError::InvalidData)
        },
        read_size == read,
{
    lemma_le8(value);
    if data@.len() == 8 {
        lemma_little_value(data@);
        lemma_little_at(data@, 0);
    }
}

/// A segment's counters are kept as two numbers, what is live first. Where only one was
/// kept, the whole segment counts as live.
pub proof fn law_segcount_value_layout(
    live: u64,
    total: u64,
    kept: Bytes,
    data: &[u8],
    read: Option<(u64, u64)>,
)
    requires
        call_ensures(KeyCodec::encode_segcount, (live, total), kept),
        call_ensures(KeyCodec::decode_segcount, (data,), read),
    ensures
        contents(kept).len() == 16,
        little(contents(kept), 0) == live,
        little(contents(kept), 8) == total,
        read is Some <==> data@.len() == 8 || data@.len() == 16,
        read matches Some((a, b)) ==> a == little(data@, 0) && b == if data@.len() == 8 {
            little(data@, 0)
        } else {
            little(data@, 8)
        },
{
    lemma_le8(live);
    lemma_le8(total);
    if data@.len() == 8 {
        lemma_little_value(data@);
        lemma_little_at(data@, 0);
    }
    if data@.len() == 16 {
        lemma_little_at(data@, 0);
        lemma_little_at(data@, 8);
    }
}

/// A directory entry is kept as its inode and its cookie. What stands behind them is
/// ignored, and what is shorter is refused.
pub proof fn law_dir_entry_value_layout(
    inode_id: u64,
    cookie: u64,
    kept: Bytes,
    data: &[u8],
    read: Result<(u64, u64), FsError>,
)
    requires
        call_ensures(KeyCodec::encode_dir_entry, (inode_id, cookie), kept),
        call_ensures(KeyCodec::decode_dir_entry, (data,), read),
    ensures
        contents(kept).len() == 16,
        little(contents(kept), 0) == inode_id,
        little(contents(kept), 8) == cookie,
        match read {
            Ok((inode, at)) => data@.len() >= 16 && inode == little(data@, 0) && at == little(
                data@,
                8,
            ),
            Err(e) => e == FsError::InvalidData && data@.len() < 16,
        },
{
    lemma_le8(inode_id);
    lemma_le8(cookie);
    if data@.len() >= 16 {
        lemma_little_at(data@, 0);
        lemma_little_at(data@, 8);
    }
}

/// A stamp is kept as five numbers: the epoch, the acknowledged ship, the commits made
/// alone, the applied frontier and whether the term ever ran alone.
pub proof fn law_stamp_value_layout(stamp: &HaStamp, kept: Bytes)
    requires
        call_ensures(KeyCodec::encode_ha_stamp, (stamp,), kept),
    ensures
        contents(kept).len() == 40,
        little(contents(kept), 0) == stamp@.epoch,
        little(contents(kept), 8) == stamp@.shipped,
        little(contents(kept), 16) == stamp@.solo,
        little(contents(kept), 24) == stamp@.applied,
        little(contents(kept), 32) == if stamp@.ran_solo {
            1int
        } else {
            0int
        },
{
    lemma_le8(stamp@.epoch);
    lemma_le8(stamp@.shipped);
    lemma_le8(stamp@.solo);
    lemma_le8(stamp@.applied);
    lemma_le8(if stamp@.ran_solo {
        1
    } else {
        0
    });
}

/// What is kept of a stamp is read where it is consistent: there is an epoch, the applied
/// frontier does not lie behind the acknowledged ship, and nothing was committed alone by a
/// term that never ran alone. The two shorter forms say neither how far was applied nor
/// that the term never ran alone: what was acknowledged counts as applied, and the term as
/// one that ran alone.
pub proof fn law_stamp_is_read_where_it_is_consistent(data: &[u8], read: Option<HaStamp>)
    requires
        call_ensures(KeyCodec::decode_ha_stamp, (data,), read),
    ensures
        read is Some <==> {
            ||| (data@.len() == 16 || data@.len() == 24) && little(data@, 0) > 0
            ||| data@.len() == 40 && little(data@, 0) > 0 && little(data@, 8) <= little(data@, 24)
                && little(data@, 32) <= 1 && (little(data@, 16) > 0 ==> little(data@, 32) == 1)
        },
        read matches Some(stamp) ==> {
            &&& stamp@.epoch == little(data@, 0)
            &&& stamp@.shipped == little(data@, 8)
            &&& stamp@.solo == if data@.len() == 16 {
                0
            } else {
                little(data@, 16)
            }
            &&& stamp@.applied == if data@.len() == 40 {
                little(data@, 24)
            } else {
                little(data@, 8)
            }
            &&& stamp@.ran_solo == (data@.len() != 40 || little(data@, 32) == 1)
        },
{
    if data@.len() >= 16 {
        lemma_little_at(data@, 0);
        lemma_little_at(data@, 8);
    }
    if data@.len() >= 24 {
        lemma_little_at(data@, 16);
    }
    if data@.len() >= 40 {
        lemma_little_at(data@, 24);
        lemma_little_at(data@, 32);
    }
}

/// The sizes of keys.
pub proof fn law_key_sizes(codec: &KeyCodec, size: usize)
    ensures
        call_ensures(KeyCodec::inode_key_size, (codec,), size) ==> size == 13,
        call_ensures(KeyCodec::extent_key_size, (codec,), size) ==> size == 23,
        call_ensures(KeyCodec::tombstone_key_size, (codec,), size) ==> size == 21,
        call_ensures(KeyCodec::orphan_key_size, (codec,), size) ==> size == 13,
{
}

/// The workspace is read from the key of its authority record, and from no other key.
pub proof fn law_authority_key_is_read(
    codec: &KeyCodec,
    key: &[u8],
    result: Option<&str>,
    workspace: Seq<char>,
)
    requires
        is_short(workspace),
        call_ensures(KeyCodec::parse_export_authority_workspace, (codec, key), result),
    ensures
        match result {
            Some(read) => is_short(read@) && key@ == store_head(1) + text_with_length(read@),
            None => key@ != store_head(1) + text_with_length(workspace),
        },
{
    lemma_store_head();
    lemma_with_length(encode_utf8(workspace));
    match result {
        Some(read) => lemma_with_length(encode_utf8(read@)),
        None => {
            assert(key@ != export_authority_key_bytes(workspace));
        },
    }
}

/// A kind is called by its own name.
pub proof fn law_kind_has_a_name(prefix: KeyPrefix, name: &'static str)
    requires
        call_ensures(KeyPrefix::as_str, (prefix,), name),
    ensures
        name@ == match prefix {
            KeyPrefix::Inode => "INODE"@,
            KeyPrefix::Extent => "EXTENT"@,
            KeyPrefix::DirEntry => "DIR_ENTRY"@,
            KeyPrefix::DirScan => "DIR_SCAN"@,
            KeyPrefix::Tombstone => "TOMBSTONE"@,
            KeyPrefix::Orphan => "ORPHAN"@,
            KeyPrefix::Stats => "STATS"@,
            KeyPrefix::System => "SYSTEM"@,
            KeyPrefix::DirCookie => "DIR_COOKIE"@,
            KeyPrefix::SegCount => "SEGCOUNT"@,
            KeyPrefix::WorkspaceOperation => "WORKSPACE_OPERATION"@,
        },
{
}

} // verus!
