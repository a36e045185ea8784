//! What the key layout and the value codecs promise as a whole.

use crate::fs::key_codec::be8;
use crate::fs::key_codec::be_i32;
use crate::fs::key_codec::domain_of;
use crate::fs::key_codec::dir_scan_key_bytes;
use crate::fs::key_codec::export_authority_key_bytes;
use crate::fs::key_codec::export_mutation_outcome_key_bytes;
use crate::fs::key_codec::export_rows;
use crate::fs::key_codec::field16;
use crate::fs::key_codec::fits16;
use crate::fs::key_codec::ha_stamp_bytes;
use crate::fs::key_codec::ha_stamp_of;
use crate::fs::key_codec::inode_key_bytes;
use crate::fs::key_codec::is_pair_key;
use crate::fs::key_codec::is_reserved;
use crate::fs::key_codec::key_kind;
use crate::fs::key_codec::kind_byte;
use crate::fs::key_codec::kind_of_byte;
use crate::fs::key_codec::le8;
use crate::fs::key_codec::orphan_key_bytes;
use crate::fs::key_codec::outcome_key_fits;
use crate::fs::key_codec::pair_key_bytes;
use crate::fs::key_codec::pair_key_first;
use crate::fs::key_codec::pair_key_second;
use crate::fs::key_codec::parsed_key;
use crate::fs::key_codec::prefix_bytes;
use crate::fs::key_codec::prefix_end;
use crate::fs::key_codec::system_key_bytes;
use crate::fs::key_codec::text16;
use crate::fs::key_codec::tombstone_key_bytes;
use crate::fs::key_codec::workspace_barrier_record_key_bytes;
use crate::fs::key_codec::workspace_genesis_key_bytes;
use crate::fs::key_codec::workspace_head_key_bytes;
use crate::fs::key_codec::workspace_head_version_key_bytes;
use crate::fs::key_codec::workspace_operation_key_bytes;
use crate::fs::key_codec::ExportMutationKey;
use crate::fs::key_codec::KeyPrefix;
use crate::fs::key_codec::ParsedKey;
use crate::fs::key_codec::EXTENT_DOMAIN;
use crate::fs::key_codec::META_DOMAIN;
use crate::replication::HaStampModel;
use crate::wire::be_bytes;
use crate::wire::be_value;
use crate::wire::begins_with;
use crate::wire::le_value;
use crate::wire::lemma_be_bytes_len;
use crate::wire::lemma_be_order;
use crate::wire::lemma_be_roundtrip;
use crate::wire::lemma_le_bytes_len;
use crate::wire::lemma_le_roundtrip;
use crate::wire::lemma_lex_asymmetric;
use crate::wire::lemma_lex_extend;
use crate::wire::lemma_lex_first_difference;
use crate::wire::lemma_span_values;
use crate::wire::lemma_utf8_injective;
use crate::wire::lex_less;
use crate::wire::lex_split;
use vstd::prelude::*;
use vstd::utf8::encode_utf8;

verus! {

broadcast use {lemma_be_bytes_len, lemma_le_bytes_len};

proof fn lemma_be8_roundtrip(n: u64)
    ensures
        be8(n).len() == 8,
        be_value(be8(n)) == n,
{
    lemma_span_values();
    lemma_be_roundtrip(n as nat, 8);
}

proof fn lemma_le8_roundtrip(n: u64)
    ensures
        le8(n).len() == 8,
        le_value(le8(n)) == n,
{
    lemma_span_values();
    lemma_le_roundtrip(n as nat, 8);
}

/// A kind byte stands for the kind that it was made from, and for no other.
pub proof fn law_kind_byte_roundtrips(prefix: KeyPrefix, byte: u8)
    ensures
        kind_of_byte(kind_byte(prefix)) == Some(prefix),
        kind_of_byte(byte) matches Some(kind) ==> kind_byte(kind) == byte,
{
}

/// A key with two numeric identifiers gives both back, and a string from which they
/// are read is their key.
pub proof fn law_pair_key_roundtrips(prefix: KeyPrefix, first: u64, second: u64, key: Seq<u8>)
    ensures
        is_pair_key(prefix, pair_key_bytes(prefix, first, second)),
        pair_key_first(prefix, pair_key_bytes(prefix, first, second)) == first,
        pair_key_second(prefix, pair_key_bytes(prefix, first, second)) == second,
        is_pair_key(prefix, key) ==> key == pair_key_bytes(
            prefix,
            pair_key_first(prefix, key),
            pair_key_second(prefix, key),
        ),
{
    let whole = pair_key_bytes(prefix, first, second);
    let at = prefix_bytes(prefix).len() as int;
    lemma_be8_roundtrip(first);
    lemma_be8_roundtrip(second);
    assert(whole.subrange(0, at) =~= prefix_bytes(prefix));
    assert(whole.subrange(at, at + 8) =~= be8(first));
    assert(whole.subrange(at + 8, at + 16) =~= be8(second));
    if is_pair_key(prefix, key) {
        lemma_span_values();
        crate::wire::lemma_be_value_bytes(key.subrange(at, at + 8));
        crate::wire::lemma_be_value_bytes(key.subrange(at + 8, at + 16));
        assert(key =~= key.subrange(0, at) + (key.subrange(at, at + 8) + key.subrange(
            at + 8,
            at + 16,
        )));
    }
}

/// Keys with two numeric identifiers sort as the pairs of numbers do.
pub proof fn law_pair_key_order(prefix: KeyPrefix, a: (u64, u64), b: (u64, u64))
    ensures
        lex_less(pair_key_bytes(prefix, a.0, a.1), pair_key_bytes(prefix, b.0, b.1)) <==> (a.0
            < b.0 || (a.0 == b.0 && a.1 < b.1)),
        pair_key_bytes(prefix, a.0, a.1) == pair_key_bytes(prefix, b.0, b.1) <==> a == b,
{
    lemma_pair_less(prefix, a, b);
    lemma_pair_less(prefix, b, a);
    let x = pair_key_bytes(prefix, a.0, a.1);
    let y = pair_key_bytes(prefix, b.0, b.1);
    lemma_lex_asymmetric(x, y);
    lemma_lex_asymmetric(y, x);
}

proof fn lemma_pair_less(prefix: KeyPrefix, a: (u64, u64), b: (u64, u64))
    ensures
        (a.0 < b.0 || (a.0 == b.0 && a.1 < b.1)) ==> lex_less(
            pair_key_bytes(prefix, a.0, a.1),
            pair_key_bytes(prefix, b.0, b.1),
        ),
{
    lemma_span_values();
    let p = prefix_bytes(prefix);
    let x = pair_key_bytes(prefix, a.0, a.1);
    let y = pair_key_bytes(prefix, b.0, b.1);
    if a.0 < b.0 {
        lemma_be_order(a.0 as nat, b.0 as nat, 8);
        lemma_lex_extend(p, be8(a.0), be8(b.0), be8(a.1), be8(b.1));
        assert(x =~= p + be8(a.0) + be8(a.1));
        assert(y =~= p + be8(b.0) + be8(b.1));
    } else if a.0 == b.0 && a.1 < b.1 {
        lemma_be_order(a.1 as nat, b.1 as nat, 8);
        lemma_lex_extend(p + be8(a.0), be8(a.1), be8(b.1), Seq::empty(), Seq::empty());
        assert(x =~= p + be8(a.0) + be8(a.1) + Seq::empty());
        assert(y =~= p + be8(b.0) + be8(b.1) + Seq::empty());
    }
}

/// Reading a key back gives what it was made from: the cookie of a directory scan
/// key, the inode of a tombstone or orphan key. Inode keys are not of these kinds.
pub proof fn law_parse_key_roundtrips(a: u64, b: u64)
    ensures
        parsed_key(dir_scan_key_bytes(a, b)) == (ParsedKey::DirScan { cookie: b }),
        parsed_key(tombstone_key_bytes(a, b)) == (ParsedKey::Tombstone { inode_id: b }),
        parsed_key(orphan_key_bytes(a)) == (ParsedKey::Orphan { inode_id: a }),
        parsed_key(inode_key_bytes(a)) == ParsedKey::Unknown,
{
    law_pair_key_roundtrips(KeyPrefix::DirScan, a, b, Seq::empty());
    law_pair_key_roundtrips(KeyPrefix::Tombstone, a, b, Seq::empty());
    lemma_be8_roundtrip(a);
    lemma_key_kind(KeyPrefix::DirScan, be8(a) + be8(b));
    lemma_key_kind(KeyPrefix::Tombstone, be8(a) + be8(b));
    lemma_key_kind(KeyPrefix::Orphan, be8(a));
    lemma_key_kind(KeyPrefix::Inode, be8(a));
    assert(orphan_key_bytes(a).subrange(5, 13) =~= be8(a));
}

/// A key of `prefix` is recognized as one, whatever identifiers follow.
pub proof fn lemma_key_kind(prefix: KeyPrefix, rest: Seq<u8>)
    ensures
        key_kind(prefix_bytes(prefix) + rest) == Some(prefix),
{
    let key = prefix_bytes(prefix) + rest;
    if prefix == KeyPrefix::Extent {
        assert(key.subrange(0, 6) =~= EXTENT_DOMAIN@);
    } else {
        assert(key.subrange(0, 4) =~= META_DOMAIN@);
        if begins_with(key, EXTENT_DOMAIN@) {
            assert(key.subrange(0, 6)[0] == key.subrange(0, 4)[0]);
        }
        assert(key[4] == kind_byte(prefix));
    }
}

/// A key that resumes a directory scan is the key of the next cookie, so a paged scan
/// continues strictly after the last entry with none skipped or repeated.
pub proof fn law_dir_scan_resume_is_next_cookie(dir_id: u64, cookie: u64, other: u64)
    requires
        cookie < u64::MAX,
    ensures
        lex_less(
            dir_scan_key_bytes(dir_id, cookie),
            dir_scan_key_bytes(dir_id, (cookie + 1) as u64),
        ),
        lex_less(dir_scan_key_bytes(dir_id, cookie), dir_scan_key_bytes(dir_id, other))
            ==> !lex_less(
            dir_scan_key_bytes(dir_id, other),
            dir_scan_key_bytes(dir_id, (cookie + 1) as u64),
        ),
{
    law_pair_key_order(KeyPrefix::DirScan, (dir_id, cookie), (dir_id, (cookie + 1) as u64));
    law_pair_key_order(KeyPrefix::DirScan, (dir_id, cookie), (dir_id, other));
    law_pair_key_order(KeyPrefix::DirScan, (dir_id, other), (dir_id, (cookie + 1) as u64));
}

/// The half-open range of a kind holds exactly the byte strings that begin with the
/// kind's domain and byte.
pub proof fn law_prefix_range_is_exact(prefix: KeyPrefix, key: Seq<u8>)
    ensures
        (!lex_less(key, prefix_bytes(prefix)) && lex_less(key, prefix_end(prefix)))
            <==> begins_with(key, prefix_bytes(prefix)),
{
    let start = prefix_bytes(prefix);
    let end = prefix_end(prefix);
    let n = domain_of(prefix).len() as int;
    if begins_with(key, start) {
        assert(key.subrange(0, n + 1) == start);
        assert(key.subrange(0, n + 1)[n] == key[n]);
        assert(key.subrange(0, n) =~= key.subrange(0, n + 1).drop_last());
        assert(start.drop_last() =~= domain_of(prefix));
        assert(end.subrange(0, n) =~= domain_of(prefix));
        assert(lex_split(key, end, n));
        if lex_less(key, start) {
            let i = choose|i: int| lex_split(key, start, i);
            assert(key.subrange(0, n + 1)[i] == start[i]);
        }
    } else if !lex_less(key, start) && lex_less(key, end) {
        let i = lemma_lex_first_difference(key, start);
        if i == start.len() {
            assert(start.subrange(0, i) =~= start);
        } else if i == key.len() || key[i] < start[i] {
            assert(lex_split(key, start, i));
        } else {
            let j = choose|j: int| lex_split(key, end, j);
            if j < i {
                assert(key.subrange(0, i)[j] == start.subrange(0, i)[j]);
                assert(end[j] == start[j]);
            } else if j > i {
                assert(key.subrange(0, j)[i] == end.subrange(0, j)[i]);
            }
        }
        assert(false);
    }
}

/// No metadata key lies in the range of extents, so that a scan of extents can never
/// read metadata.
pub proof fn law_extent_range_isolates_metadata(prefix: KeyPrefix, rest: Seq<u8>)
    requires
        prefix != KeyPrefix::Extent,
    ensures
        !begins_with(prefix_bytes(prefix) + rest, prefix_bytes(KeyPrefix::Extent)),
        lex_less(prefix_bytes(prefix) + rest, prefix_bytes(KeyPrefix::Extent)) || !lex_less(
            prefix_bytes(prefix) + rest,
            prefix_end(KeyPrefix::Extent),
        ),
{
    let key = prefix_bytes(prefix) + rest;
    law_prefix_range_is_exact(KeyPrefix::Extent, key);
    if begins_with(key, prefix_bytes(KeyPrefix::Extent)) {
        assert(key.subrange(0, 7)[0] == key[0]);
        assert(prefix_bytes(KeyPrefix::Extent)[0] == EXTENT_DOMAIN@[0]);
    }
}

/// Keys of other kinds never parse as extents, not even those of an extent key's
/// length.
pub proof fn law_non_extent_keys_never_parse_as_extent(prefix: KeyPrefix, rest: Seq<u8>)
    requires
        prefix != KeyPrefix::Extent,
    ensures
        !is_pair_key(KeyPrefix::Extent, prefix_bytes(prefix) + rest),
{
    law_extent_range_isolates_metadata(prefix, rest);
}

/// System rows of different subtypes have different keys.
pub proof fn law_system_keys_are_distinct(a: u8, b: u8)
    ensures
        system_key_bytes(a) == system_key_bytes(b) <==> a == b,
{
    assert(system_key_bytes(a).last() == a);
    assert(system_key_bytes(b).last() == b);
}

/// The value codecs give back what they were given, the short counter layout included.
pub proof fn law_values_roundtrip(a: u64, b: u64)
    ensures
        le_value(le8(a)) == a,
        le8(a).len() == 8,
        (le8(a) + le8(b)).len() == 16,
        le_value((le8(a) + le8(b)).subrange(0, 8)) == a,
        le_value((le8(a) + le8(b)).subrange(8, 16)) == b,
{
    lemma_le8_roundtrip(a);
    lemma_le8_roundtrip(b);
    assert((le8(a) + le8(b)).subrange(0, 8) =~= le8(a));
    assert((le8(a) + le8(b)).subrange(8, 16) =~= le8(b));
}

/// Decoding an encoded stamp gives the stamp; of its first 16 or 24 bytes, the stamp
/// that claims least of it; of its first 32, nothing.
pub proof fn law_ha_stamp_roundtrips(stamp: HaStampModel)
    requires
        stamp.valid(),
    ensures
        ha_stamp_of(ha_stamp_bytes(stamp)) == Some(stamp),
        ha_stamp_of(ha_stamp_bytes(stamp).subrange(0, 24)) == Some(
            HaStampModel { applied: stamp.shipped, ran_solo: true, ..stamp },
        ),
        ha_stamp_of(ha_stamp_bytes(stamp).subrange(0, 16)) == Some(
            HaStampModel { applied: stamp.shipped, ran_solo: true, solo: 0, ..stamp },
        ),
        ha_stamp_of(ha_stamp_bytes(stamp).subrange(0, 32)) is None,
{
    let solo_word: u64 = if stamp.ran_solo { 1 } else { 0 };
    lemma_le8_roundtrip(stamp.epoch);
    lemma_le8_roundtrip(stamp.shipped);
    lemma_le8_roundtrip(stamp.solo);
    lemma_le8_roundtrip(stamp.applied);
    lemma_le8_roundtrip(solo_word);
    let data = ha_stamp_bytes(stamp);
    assert(data.subrange(0, 8) =~= le8(stamp.epoch));
    assert(data.subrange(8, 16) =~= le8(stamp.shipped));
    assert(data.subrange(16, 24) =~= le8(stamp.solo));
    assert(data.subrange(24, 32) =~= le8(stamp.applied));
    assert(data.subrange(32, 40) =~= le8(solo_word));
    let three = data.subrange(0, 24);
    assert(three.subrange(0, 8) =~= le8(stamp.epoch));
    assert(three.subrange(8, 16) =~= le8(stamp.shipped));
    assert(three.subrange(16, 24) =~= le8(stamp.solo));
    let two = data.subrange(0, 16);
    assert(two.subrange(0, 8) =~= le8(stamp.epoch));
    assert(two.subrange(8, 16) =~= le8(stamp.shipped));
}

/// Every decoded stamp is valid.
pub proof fn law_decoded_ha_stamp_is_valid(data: Seq<u8>)
    ensures
        ha_stamp_of(data) matches Some(stamp) ==> stamp.valid(),
{
}

/// A length-prefixed field can be taken off the front of a string in one way only.
pub proof fn lemma_field16_split(a: Seq<u8>, x: Seq<u8>, b: Seq<u8>, y: Seq<u8>)
    requires
        a.len() <= 0xFFFF,
        b.len() <= 0xFFFF,
        field16(a) + x == field16(b) + y,
    ensures
        a == b,
        x == y,
{
    let s = field16(a) + x;
    let t = field16(b) + y;
    lemma_span_values();
    lemma_be_roundtrip(a.len(), 2);
    lemma_be_roundtrip(b.len(), 2);
    assert(s.subrange(0, 2) =~= be_bytes(a.len(), 2));
    assert(t.subrange(0, 2) =~= be_bytes(b.len(), 2));
    let n = a.len() as int;
    assert(s.subrange(2, 2 + n) =~= a);
    assert(t.subrange(2, 2 + n) =~= b);
    assert(s.subrange(2 + n, s.len() as int) =~= x);
    assert(t.subrange(2 + n, t.len() as int) =~= y);
}

pub proof fn lemma_text16_split(a: Seq<char>, x: Seq<u8>, b: Seq<char>, y: Seq<u8>)
    requires
        fits16(a),
        fits16(b),
        text16(a) + x == text16(b) + y,
    ensures
        a == b,
        x == y,
{
    lemma_field16_split(encode_utf8(a), x, encode_utf8(b), y);
    lemma_utf8_injective(a, b);
}

pub proof fn lemma_be8_split(a: u64, x: Seq<u8>, b: u64, y: Seq<u8>)
    requires
        be8(a) + x == be8(b) + y,
    ensures
        a == b,
        x == y,
{
    lemma_be8_roundtrip(a);
    lemma_be8_roundtrip(b);
    let s = be8(a) + x;
    let t = be8(b) + y;
    assert(s.subrange(0, 8) =~= be8(a));
    assert(t.subrange(0, 8) =~= be8(b));
    assert(s.subrange(8, s.len() as int) =~= x);
    assert(t.subrange(8, t.len() as int) =~= y);
}

proof fn lemma_be_i32_injective(a: i32, b: i32)
    ensures
        be_i32(a) == be_i32(b) ==> a == b,
{
    lemma_span_values();
    let ua = if a < 0 { (a + 0x1_0000_0000) as nat } else { a as nat };
    let ub = if b < 0 { (b + 0x1_0000_0000) as nat } else { b as nat };
    lemma_be_roundtrip(ua, 4);
    lemma_be_roundtrip(ub, 4);
}

proof fn lemma_drop_common_prefix(prefix: Seq<u8>, x: Seq<u8>, y: Seq<u8>)
    requires
        prefix + x == prefix + y,
    ensures
        x == y,
{
    let s = prefix + x;
    let t = prefix + y;
    let n = prefix.len() as int;
    assert(s.subrange(n, s.len() as int) =~= x);
    assert(t.subrange(n, t.len() as int) =~= y);
}

/// Different workspace operations have different ledger keys, whatever the versions of
/// the keys: a key holds its version and its whole identity with unambiguous boundaries.
pub proof fn law_workspace_operation_keys_are_distinct(
    a: (u8, Seq<u8>, i32, Seq<u8>),
    b: (u8, Seq<u8>, i32, Seq<u8>),
)
    requires
        a.1.len() <= 0xFFFF,
        a.3.len() <= 0xFFFF,
        b.1.len() <= 0xFFFF,
        b.3.len() <= 0xFFFF,
        workspace_operation_key_bytes(a.0, a.1, a.2, a.3) == workspace_operation_key_bytes(
            b.0,
            b.1,
            b.2,
            b.3,
        ),
    ensures
        a == b,
{
    let prefix = prefix_bytes(KeyPrefix::WorkspaceOperation);
    assert(workspace_operation_key_bytes(a.0, a.1, a.2, a.3)[prefix.len() as int] == a.0);
    assert(workspace_operation_key_bytes(b.0, b.1, b.2, b.3)[prefix.len() as int] == b.0);
    lemma_drop_common_prefix(
        prefix.push(a.0),
        field16(a.1) + (be_i32(a.2) + field16(a.3)),
        field16(b.1) + (be_i32(b.2) + field16(b.3)),
    );
    lemma_field16_split(a.1, be_i32(a.2) + field16(a.3), b.1, be_i32(b.2) + field16(b.3));
    let s = be_i32(a.2) + field16(a.3);
    let t = be_i32(b.2) + field16(b.3);
    assert(s.subrange(0, 4) =~= be_i32(a.2));
    assert(t.subrange(0, 4) =~= be_i32(b.2));
    assert(s.subrange(4, s.len() as int) =~= field16(a.3));
    assert(t.subrange(4, t.len() as int) =~= field16(b.3));
    lemma_be_i32_injective(a.2, b.2);
    assert(field16(a.3) + Seq::<u8>::empty() =~= field16(a.3));
    assert(field16(b.3) + Seq::<u8>::empty() =~= field16(b.3));
    lemma_field16_split(a.3, Seq::empty(), b.3, Seq::empty());
}

/// Export mutations that differ in workspace, actor, generation, placement, session,
/// boot or operation have different outcome keys.
pub proof fn law_outcome_keys_are_distinct(a: ExportMutationKey, b: ExportMutationKey)
    requires
        outcome_key_fits(a),
        outcome_key_fits(b),
        export_mutation_outcome_key_bytes(a) == export_mutation_outcome_key_bytes(b),
    ensures
        a.workspace_id@ == b.workspace_id@,
        a.actor@ == b.actor@,
        a.actor_generation == b.actor_generation,
        a.placement_epoch == b.placement_epoch,
        a.session_id@ == b.session_id@,
        a.server_boot_id@ == b.server_boot_id@,
        a.operation_id@ == b.operation_id@,
{
    let a5 = text16(a.server_boot_id@) + a.operation_id@;
    let b5 = text16(b.server_boot_id@) + b.operation_id@;
    let a4 = text16(a.session_id@) + a5;
    let b4 = text16(b.session_id@) + b5;
    let a3 = be8(a.placement_epoch) + a4;
    let b3 = be8(b.placement_epoch) + b4;
    let a2 = be8(a.actor_generation) + a3;
    let b2 = be8(b.actor_generation) + b3;
    let a1 = text16(a.actor@) + a2;
    let b1 = text16(b.actor@) + b2;
    assert(export_mutation_outcome_key_bytes(a) =~= export_rows(2) + (text16(a.workspace_id@)
        + a1));
    assert(export_mutation_outcome_key_bytes(b) =~= export_rows(2) + (text16(b.workspace_id@)
        + b1));
    lemma_drop_common_prefix(
        export_rows(2),
        text16(a.workspace_id@) + a1,
        text16(b.workspace_id@) + b1,
    );
    lemma_text16_split(a.workspace_id@, a1, b.workspace_id@, b1);
    lemma_text16_split(a.actor@, a2, b.actor@, b2);
    lemma_be8_split(a.actor_generation, a3, b.actor_generation, b3);
    lemma_be8_split(a.placement_epoch, a4, b.placement_epoch, b4);
    lemma_text16_split(a.session_id@, a5, b.session_id@, b5);
    lemma_text16_split(a.server_boot_id@, a.operation_id@, b.server_boot_id@, b.operation_id@);
}

/// Different workspaces have different authority keys.
pub proof fn law_authority_keys_are_distinct(a: Seq<char>, b: Seq<char>)
    requires
        fits16(a),
        fits16(b),
    ensures
        export_authority_key_bytes(a) == export_authority_key_bytes(b) <==> a == b,
{
    if export_authority_key_bytes(a) == export_authority_key_bytes(b) {
        lemma_drop_common_prefix(export_rows(1), text16(a), text16(b));
        assert(text16(a) + Seq::<u8>::empty() =~= text16(a));
        assert(text16(b) + Seq::<u8>::empty() =~= text16(b));
        lemma_text16_split(a, Seq::empty(), b, Seq::empty());
    }
}

/// Different workspaces have different genesis and head keys, and heads and barriers of
/// one workspace that differ in version or request have different keys.
pub proof fn law_barrier_keys_are_distinct(
    a: Seq<char>,
    b: Seq<char>,
    version_a: u64,
    version_b: u64,
    request_a: Seq<char>,
    request_b: Seq<char>,
)
    requires
        fits16(a),
        fits16(b),
        fits16(request_a),
        fits16(request_b),
    ensures
        workspace_genesis_key_bytes(a) == workspace_genesis_key_bytes(b) <==> a == b,
        workspace_head_key_bytes(a) == workspace_head_key_bytes(b) <==> a == b,
        workspace_head_version_key_bytes(a, version_a) == workspace_head_version_key_bytes(
            b,
            version_b,
        ) <==> a == b && version_a == version_b,
        workspace_barrier_record_key_bytes(a, request_a) == workspace_barrier_record_key_bytes(
            b,
            request_b,
        ) <==> a == b && request_a == request_b,
{
    let none = Seq::<u8>::empty();
    assert(text16(a) + none =~= text16(a));
    assert(text16(b) + none =~= text16(b));
    if workspace_genesis_key_bytes(a) == workspace_genesis_key_bytes(b) {
        lemma_drop_common_prefix(export_rows(9), text16(a), text16(b));
        lemma_text16_split(a, none, b, none);
    }
    if workspace_head_key_bytes(a) == workspace_head_key_bytes(b) {
        lemma_drop_common_prefix(export_rows(10), text16(a), text16(b));
        lemma_text16_split(a, none, b, none);
    }
    let version_key_a = workspace_head_version_key_bytes(a, version_a);
    let version_key_b = workspace_head_version_key_bytes(b, version_b);
    if version_key_a == version_key_b {
        assert(version_key_a =~= export_rows(11) + (text16(a) + be8(version_a)));
        assert(version_key_b =~= export_rows(11) + (text16(b) + be8(version_b)));
        lemma_drop_common_prefix(
            export_rows(11),
            text16(a) + be8(version_a),
            text16(b) + be8(version_b),
        );
        lemma_text16_split(a, be8(version_a), b, be8(version_b));
        assert(be8(version_a) + none =~= be8(version_a));
        assert(be8(version_b) + none =~= be8(version_b));
        lemma_be8_split(version_a, none, version_b, none);
    }
    let record_key_a = workspace_barrier_record_key_bytes(a, request_a);
    let record_key_b = workspace_barrier_record_key_bytes(b, request_b);
    if record_key_a == record_key_b {
        assert(record_key_a =~= export_rows(12) + (text16(a) + text16(request_a)));
        assert(record_key_b =~= export_rows(12) + (text16(b) + text16(request_b)));
        lemma_drop_common_prefix(
            export_rows(12),
            text16(a) + text16(request_a),
            text16(b) + text16(request_b),
        );
        lemma_text16_split(a, text16(request_a), b, text16(request_b));
        assert(text16(request_a) + none =~= text16(request_a));
        assert(text16(request_b) + none =~= text16(request_b));
        lemma_text16_split(request_a, none, request_b, none);
    }
}

/// Rows of different stores of the export authority never share a key.
pub proof fn law_authority_stores_are_disjoint(a: u8, x: Seq<u8>, b: u8, y: Seq<u8>)
    requires
        a != b,
    ensures
        export_rows(a) + x != export_rows(b) + y,
{
    assert((export_rows(a) + x)[6] == a);
    assert((export_rows(b) + y)[6] == b);
}

/// Every row of a typed authority store is out of reach of the general transaction
/// API: the ledger, export authority, genesis, head and barrier rows, and the boot row.
pub proof fn law_authority_rows_are_reserved(
    subtype: u8,
    rest: Seq<u8>,
    workspace_id: Seq<char>,
    version: u64,
    request_id: Seq<char>,
)
    ensures
        is_reserved(prefix_bytes(KeyPrefix::WorkspaceOperation) + rest),
        is_reserved(export_rows(subtype) + rest),
        is_reserved(workspace_genesis_key_bytes(workspace_id)),
        is_reserved(workspace_head_key_bytes(workspace_id)),
        is_reserved(workspace_head_version_key_bytes(workspace_id, version)),
        is_reserved(workspace_barrier_record_key_bytes(workspace_id, request_id)),
        is_reserved(system_key_bytes(0x06)),
{
    let keys = seq![
        prefix_bytes(KeyPrefix::WorkspaceOperation) + rest,
        export_rows(subtype) + rest,
        workspace_genesis_key_bytes(workspace_id),
        workspace_head_key_bytes(workspace_id),
        workspace_head_version_key_bytes(workspace_id, version),
        workspace_barrier_record_key_bytes(workspace_id, request_id),
        system_key_bytes(0x06),
    ];
    assert forall|i: int| 0 <= i < 7 implies #[trigger] begins_with(keys[i], META_DOMAIN@) by {
        assert(keys[i].subrange(0, 4) =~= META_DOMAIN@);
    }
    assert(begins_with(keys[0], META_DOMAIN@));
    assert(begins_with(keys[1], META_DOMAIN@));
    assert(begins_with(keys[2], META_DOMAIN@));
    assert(begins_with(keys[3], META_DOMAIN@));
    assert(begins_with(keys[4], META_DOMAIN@));
    assert(begins_with(keys[5], META_DOMAIN@));
    assert(begins_with(keys[6], META_DOMAIN@));
}

/// Ordinary filesystem rows are not reserved.
pub proof fn law_filesystem_rows_are_not_reserved(prefix: KeyPrefix, rest: Seq<u8>, subtype: u8)
    requires
        prefix != KeyPrefix::WorkspaceOperation,
        prefix != KeyPrefix::System,
        subtype != 0x06,
    ensures
        !is_reserved(prefix_bytes(prefix) + rest),
        !is_reserved(system_key_bytes(subtype)),
{
    let key = prefix_bytes(prefix) + rest;
    if prefix == KeyPrefix::Extent && is_reserved(key) {
        assert(key.subrange(0, 4)[0] == key[0]);
    }
}

} // verus!
