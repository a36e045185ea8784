//! The listing of raw database keys.

use crate::fs::key_codec::is_pair_key;
use crate::fs::key_codec::key_kind;
use crate::fs::key_codec::kind_byte;
use crate::fs::key_codec::kind_of_byte;
use crate::fs::key_codec::prefix_bytes;
use crate::fs::key_codec::prefix_name;
use crate::fs::key_codec::KeyCodec;
use crate::fs::key_codec::KeyPrefix;
use crate::fs::key_codec::ParsedKey;
use crate::fs::key_laws::lemma_key_kind;
use crate::outside::lossy_text;
use crate::outside::utf8_lossy;
use crate::text::decimal;
use crate::text::hex_byte;
use crate::text::put_decimal;
use crate::text::put_hex;
use crate::wire::be_value;
use crate::wire::get_be;
use vstd::prelude::*;
use vstd::slice::slice_subrange;
use vstd::string::StringExecFns;

verus! {

/// Numbers with commas between.
pub open spec fn listed(bytes: Seq<u8>) -> Seq<char>
    decreases bytes.len(),
{
    if bytes.len() == 0 {
        Seq::empty()
    } else if bytes.len() == 1 {
        decimal(bytes[0] as nat)
    } else {
        listed(bytes.drop_last()) + ", "@ + decimal(bytes.last() as nat)
    }
}

/// Bytes as they are shown when nothing more is known of them.
pub open spec fn raw_text(bytes: Seq<u8>) -> Seq<char> {
    "raw=["@ + listed(bytes) + "]"@
}

/// The number at `at`.
pub open spec fn number_at(key: Seq<u8>, at: int) -> Seq<char> {
    decimal(be_value(key.subrange(at, at + 8)))
}

/// Two named numbers.
pub open spec fn named_pair(
    first_name: Seq<char>,
    first: Seq<char>,
    second_name: Seq<char>,
    second: Seq<char>,
) -> Seq<char> {
    first_name + first + second_name + second
}

/// The identifiers in a key that is taken for one of a kind, if the key is as long as
/// the kind asks. Kinds that are parsed as a whole must be the key's own.
pub open spec fn payload_text(prefix: KeyPrefix, key: Seq<u8>) -> Option<Seq<char>> {
    let n = key.len();
    let routed = key_kind(key) == Some(prefix);
    match prefix {
        KeyPrefix::Inode => if n == 13 {
            Some("inode_id="@ + number_at(key, 5))
        } else {
            None
        },
        KeyPrefix::Extent => if n == 23 && routed {
            Some(
                named_pair("inode_id="@, number_at(key, 7), ", extent_index="@, number_at(key, 15)),
            )
        } else {
            None
        },
        KeyPrefix::DirEntry => if n > 13 {
            Some(
                named_pair("dir_id="@, number_at(key, 5), ", name=\""@, lossy_text(key.skip(13)))
                    + "\""@,
            )
        } else {
            None
        },
        KeyPrefix::DirScan => if n == 21 && routed {
            Some(named_pair("dir_id="@, number_at(key, 5), ", cookie="@, number_at(key, 13)))
        } else {
            None
        },
        KeyPrefix::DirCookie => if n == 13 {
            Some("dir_id="@ + number_at(key, 5))
        } else {
            None
        },
        KeyPrefix::Tombstone => if n == 21 && routed {
            Some(named_pair("timestamp="@, number_at(key, 5), ", inode_id="@, number_at(key, 13)))
        } else {
            None
        },
        KeyPrefix::Orphan => if n == 13 && routed {
            Some("inode_id="@ + number_at(key, 5))
        } else {
            None
        },
        KeyPrefix::Stats => if n == 13 {
            Some("shard_id="@ + number_at(key, 5))
        } else {
            None
        },
        KeyPrefix::System => if n > 5 {
            Some("subtype=0x"@ + hex_byte(key[5]))
        } else {
            None
        },
        KeyPrefix::SegCount => if n == 21 && routed {
            Some(named_pair("epoch="@, number_at(key, 5), ", counter="@, number_at(key, 13)))
        } else {
            None
        },
        KeyPrefix::WorkspaceOperation => None,
    }
}

/// What a listing says of a key: its kind and its identifiers, or all its bytes where
/// the identifiers cannot be read. A key of no kind is not described.
pub open spec fn description(key: Seq<u8>) -> Option<(KeyPrefix, Seq<char>)> {
    match key_kind(key) {
        None => None,
        Some(prefix) => Some(
            (
                prefix,
                match payload_text(prefix, key) {
                    Some(text) => text,
                    None => raw_text(key),
                },
            ),
        ),
    }
}

fn put_listed(out: &mut String, bytes: &[u8])
    ensures
        final(out)@ == old(out)@ + listed(bytes@),
{
    let mut i: usize = 0;
    assert(out@ =~= out@ + listed(bytes@.take(0)));
    while i < bytes.len()
        invariant
            i <= bytes@.len(),
            out@ == old(out)@ + listed(bytes@.take(i as int)),
        decreases bytes@.len() - i,
    {
        let ghost before = out@;
        if i > 0 {
            out.append(", ");
        }
        put_decimal(out, bytes[i] as u64);
        proof {
            let part = bytes@.take(i + 1);
            assert(part.drop_last() =~= bytes@.take(i as int));
            assert(part.last() == bytes@[i as int]);
            if i == 0 {
                assert(out@ =~= before + decimal(part[0] as nat));
                assert(before =~= old(out)@);
            } else {
                assert(out@ =~= old(out)@ + (listed(part.drop_last()) + ", "@ + decimal(
                    part.last() as nat,
                )));
            }
        }
        i += 1;
    }
    assert(bytes@.take(i as int) =~= bytes@);
}

fn put_number_at(out: &mut String, key: &[u8], at: usize)
    requires
        at + 8 <= key@.len(),
    ensures
        final(out)@ == old(out)@ + number_at(key@, at as int),
{
    put_decimal(out, get_be(key, at, 8));
}

fn one_number(name: &str, key: &[u8], at: usize) -> (text: String)
    requires
        at + 8 <= key@.len(),
    ensures
        text@ == name@ + number_at(key@, at as int),
{
    let mut text = name.to_owned();
    put_number_at(&mut text, key, at);
    text
}

fn two_numbers(first_name: &str, second_name: &str, key: &[u8], at: usize) -> (text: String)
    requires
        at + 16 <= key@.len(),
    ensures
        text@ == named_pair(
            first_name@,
            number_at(key@, at as int),
            second_name@,
            number_at(key@, at + 8),
        ),
{
    let len: usize = key.len();
    assert(at + 16 <= len);
    let mut text = one_number(first_name, key, at);
    text.append(second_name);
    put_number_at(&mut text, key, at + 8);
    text
}

/// A key of two numbers is routed to its kind, and has its length.
proof fn lemma_routed(prefix: KeyPrefix, key: Seq<u8>)
    requires
        prefix == KeyPrefix::Extent || prefix == KeyPrefix::SegCount,
    ensures
        is_pair_key(prefix, key) <==> key.len() == prefix_bytes(prefix).len() + 16 && key_kind(key)
            == Some(prefix),
{
    let head = prefix_bytes(prefix);
    let n = head.len() as int;
    if is_pair_key(prefix, key) {
        assert(key.subrange(0, n) == head);
        assert(key =~= head + key.skip(n));
        lemma_key_kind(prefix, key.skip(n));
    } else if key.len() == n + 16 && key_kind(key) == Some(prefix) {
        assert(key.subrange(0, n) =~= head);
    }
}

/// The identifiers in a key that is taken for one of a kind. `None` means that the kind
/// is valid and the rest of the key is not what the kind asks.
pub fn decode_payload(codec: &KeyCodec, prefix: KeyPrefix, key: &[u8]) -> (result: Option<String>)
    ensures
        match payload_text(prefix, key@) {
            Some(text) => result matches Some(t) && t@ == text,
            None => result is None,
        },
{
    let at: usize = codec.id_offset(prefix);
    proof {
        lemma_routed(KeyPrefix::Extent, key@);
        lemma_routed(KeyPrefix::SegCount, key@);
    }
    match prefix {
        KeyPrefix::Inode => if key.len() == codec.inode_key_size() {
            Some(one_number("inode_id=", key, at))
        } else {
            None
        },
        KeyPrefix::Extent => match codec.parse_extent_key_full(key) {
            Some(_) => Some(two_numbers("inode_id=", ", extent_index=", key, at)),
            None => None,
        },
        KeyPrefix::DirEntry => if key.len() > at + 8 {
            let name = slice_subrange(key, at + 8, key.len());
            let mut text = one_number("dir_id=", key, at);
            text.append(", name=\"");
            text.append(utf8_lossy(name).as_str());
            text.append("\"");
            assert(name@ =~= key@.skip(13));
            Some(text)
        } else {
            None
        },
        KeyPrefix::DirScan => match codec.parse_key(key) {
            ParsedKey::DirScan { .. } => Some(two_numbers("dir_id=", ", cookie=", key, at)),
            _ => None,
        },
        KeyPrefix::DirCookie => if key.len() == at + 8 {
            Some(one_number("dir_id=", key, at))
        } else {
            None
        },
        KeyPrefix::Tombstone => match codec.parse_key(key) {
            ParsedKey::Tombstone { .. } => Some(
                two_numbers("timestamp=", ", inode_id=", key, at),
            ),
            _ => None,
        },
        KeyPrefix::Orphan => match codec.parse_key(key) {
            ParsedKey::Orphan { .. } => Some(one_number("inode_id=", key, at)),
            _ => None,
        },
        KeyPrefix::Stats => if key.len() == at + 8 {
            Some(one_number("shard_id=", key, at))
        } else {
            None
        },
        KeyPrefix::System => if key.len() > at {
            let mut text = "subtype=0x".to_owned();
            put_hex_byte(&mut text, key[at]);
            Some(text)
        } else {
            None
        },
        KeyPrefix::SegCount => match codec.parse_segcount_key(key) {
            Some(_) => Some(two_numbers("epoch=", ", counter=", key, at)),
            None => None,
        },
        KeyPrefix::WorkspaceOperation => None,
    }
}

fn put_hex_byte(out: &mut String, byte: u8)
    ensures
        final(out)@ == old(out)@ + hex_byte(byte),
{
    let one: [u8; 1] = [byte];
    put_hex(out, &one);
    assert(one@.drop_last() =~= Seq::empty());
    assert(one@.last() == byte);
    assert(crate::text::hex(one@.drop_last()) =~= Seq::empty());
    assert(crate::text::hex(one@) =~= hex_byte(byte));
}

/// Classifies one raw database key the way the codec routes it: by the domain that it
/// begins with, and then by its kind byte.
pub fn describe_key(codec: &KeyCodec, key: &[u8]) -> (result: Option<(KeyPrefix, String)>)
    ensures
        match description(key@) {
            Some((prefix, text)) => result matches Some((p, t)) && p == prefix && t@ == text,
            None => result is None,
        },
{
    let prefix = match codec.peek_kind(key) {
        Some(prefix) => prefix,
        None => {
            return None;
        },
    };
    let detail = match decode_payload(codec, prefix, key) {
        Some(text) => text,
        None => {
            let mut text = "raw=[".to_owned();
            put_listed(&mut text, key);
            text.append("]");
            text
        },
    };
    Some((prefix, detail))
}

/// The line of a listing for a key that has a kind.
pub open spec fn listing_line(prefix: KeyPrefix, detail: Seq<char>) -> Seq<char> {
    "["@ + prefix_name(prefix) + "] "@ + detail
}

/// A listing: how many keys of each kind were seen.
pub struct KeyListing {
    total: u64,
    /// By kind byte. What it is too short to hold is zero.
    by_kind: Vec<u64>,
}

/// The value of `KeyListing`.
pub struct KeyListingModel {
    pub total: u64,
    /// How many keys were seen, by kind byte.
    pub by_kind: Seq<u64>,
}

impl View for KeyListing {
    type V = KeyListingModel;

    closed spec fn view(&self) -> KeyListingModel {
        KeyListingModel { total: self.total, by_kind: padded(self.by_kind@) }
    }
}

/// Counts for every byte, zero where there are none.
spec fn padded(counts: Seq<u64>) -> Seq<u64> {
    Seq::new(
        256,
        |byte: int|
            if byte < counts.len() {
                counts[byte]
            } else {
                0u64
            },
    )
}

/// The sum of counts.
pub open spec fn sum(counts: Seq<u64>) -> nat
    decreases counts.len(),
{
    if counts.len() == 0 {
        0
    } else {
        sum(counts.drop_last()) + counts.last() as nat
    }
}

/// There is a count for every byte, only kinds are counted, and the counts add up.
pub open spec fn well_formed(listing: KeyListingModel) -> bool {
    &&& listing.by_kind.len() == 256
    &&& sum(listing.by_kind) == listing.total
    &&& forall|byte: int|
        0 <= byte < 256 && #[trigger] listing.by_kind[byte] > 0 ==> kind_of_byte(byte as u8) is Some
}

/// A listing after one more key of a kind.
pub open spec fn counted(listing: KeyListingModel, prefix: KeyPrefix) -> KeyListingModel {
    let byte = kind_byte(prefix) as int;
    KeyListingModel {
        total: (listing.total + 1) as u64,
        by_kind: listing.by_kind.update(byte, (listing.by_kind[byte] + 1) as u64),
    }
}

proof fn lemma_sum_of_zeros(length: nat)
    ensures
        sum(Seq::new(length, |i: int| 0u64)) == 0,
    decreases length,
{
    if length > 0 {
        let zeros = Seq::new(length, |i: int| 0u64);
        assert(zeros.drop_last() =~= Seq::new((length - 1) as nat, |i: int| 0u64));
        lemma_sum_of_zeros((length - 1) as nat);
    }
}

pub(crate) proof fn lemma_sum_update(counts: Seq<u64>, at: int, count: u64)
    requires
        0 <= at < counts.len(),
    ensures
        sum(counts) >= counts[at],
        sum(counts.update(at, count)) == sum(counts) - counts[at] + count,
    decreases counts.len(),
{
    let updated = counts.update(at, count);
    if at == counts.len() - 1 {
        assert(updated.drop_last() =~= counts.drop_last());
    } else {
        lemma_sum_update(counts.drop_last(), at, count);
        assert(updated.drop_last() =~= counts.drop_last().update(at, count));
    }
}

/// Counting a key keeps a listing well-formed: the counts of the kinds add up to the
/// total, however many keys are listed.
pub proof fn law_counts_add_up(listing: KeyListingModel, prefix: KeyPrefix)
    requires
        well_formed(listing),
        listing.total < u64::MAX,
    ensures
        well_formed(counted(listing, prefix)),
        sum(counted(listing, prefix).by_kind) == sum(listing.by_kind) + 1,
{
    let byte = kind_byte(prefix) as int;
    lemma_sum_update(listing.by_kind, byte, (listing.by_kind[byte] + 1) as u64);
}

/// What a listing shows of a key.
#[derive(Debug, PartialEq, Eq)]
pub enum ListedKey {
    /// The line of a key that has a kind.
    Known(String),
    /// A key of no bytes.
    Empty,
    /// A key of no kind.
    Unknown,
}

/// The line of a kind in the summary.
pub open spec fn kind_line(prefix: KeyPrefix, count: u64) -> Seq<char> {
    "  "@ + prefix_name(prefix) + ": "@ + decimal(count as nat)
}

/// The lines of the kinds below `bound` of which keys were seen, by kind byte.
pub open spec fn kind_lines(by_kind: Seq<u64>, bound: int) -> Seq<Seq<char>>
    decreases bound,
{
    if bound <= 0 {
        Seq::empty()
    } else {
        let rest = kind_lines(by_kind, bound - 1);
        match kind_of_byte((bound - 1) as u8) {
            Some(prefix) if by_kind[bound - 1] > 0 => rest.push(
                kind_line(prefix, by_kind[bound - 1]),
            ),
            _ => rest,
        }
    }
}

/// The lines as text.
pub open spec fn texts(lines: Seq<String>) -> Seq<Seq<char>> {
    lines.map_values(|line: String| line@)
}

impl KeyListing {
    #[verifier::type_invariant]
    spec fn inv(self) -> bool {
        well_formed(self@)
    }

    /// A listing that has seen nothing.
    pub fn new() -> (listing: Self)
        ensures
            listing@ == (KeyListingModel { total: 0, by_kind: Seq::new(256, |i: int| 0u64) }),
            well_formed(listing@),
    {
        let by_kind: Vec<u64> = Vec::new();
        proof {
            lemma_sum_of_zeros(256);
            assert(padded(by_kind@) =~= Seq::new(256, |i: int| 0u64));
        }
        KeyListing { total: 0, by_kind }
    }

    /// How many keys were seen that have a kind.
    pub fn total(&self) -> (total: u64)
        ensures
            total == self@.total,
    {
        self.total
    }

    /// Counts a key, and gives its line. A key of no kind is not counted and has none.
    pub fn add_key(&mut self, codec: &KeyCodec, key: &[u8]) -> (listed: ListedKey)
        requires
            old(self)@.total < u64::MAX,
        ensures
            well_formed(final(self)@),
            match description(key@) {
                Some((prefix, detail)) => (listed matches ListedKey::Known(line) && line@
                    == listing_line(prefix, detail)) && final(self)@ == counted(old(self)@, prefix),
                None => final(self)@ == old(self)@ && listed == if key@.len() == 0 {
                    ListedKey::Empty
                } else {
                    ListedKey::Unknown
                },
            },
    {
        proof {
            use_type_invariant(&*self);
        }
        let (prefix, detail) = match describe_key(codec, key) {
            Some(described) => described,
            None => {
                return if key.len() == 0 {
                    ListedKey::Empty
                } else {
                    ListedKey::Unknown
                };
            },
        };
        proof {
            law_counts_add_up(old(self)@, prefix);
            lemma_sum_update(old(self)@.by_kind, kind_byte(prefix) as int, 0);
        }
        let byte: usize = u8::from(prefix) as usize;
        let mut taken = KeyListing::new();
        std::mem::swap(self, &mut taken);
        let total: u64 = taken.total;
        let mut by_kind: Vec<u64> = taken.by_kind;
        while by_kind.len() <= byte
            invariant
                byte < 256,
                padded(by_kind@) == old(self)@.by_kind,
            decreases byte + 1 - by_kind@.len(),
        {
            let ghost shorter = by_kind@;
            by_kind.push(0);
            assert(padded(by_kind@) =~= padded(shorter));
        }
        let before: u64 = by_kind[byte];
        assert(before == old(self)@.by_kind[byte as int]);
        by_kind.set(byte, before + 1);
        assert(padded(by_kind@) =~= counted(old(self)@, prefix).by_kind);
        *self = KeyListing { total: total + 1, by_kind };
        let mut line = "[".to_owned();
        line.append(prefix.as_str());
        line.append("] ");
        line.append(detail.as_str());
        ListedKey::Known(line)
    }

    /// The lines of the summary: each kind of which keys were seen, by kind byte.
    pub fn summary(&self) -> (lines: Vec<String>)
        ensures
            texts(lines@) == kind_lines(self@.by_kind, 256),
    {
        proof {
            use_type_invariant(self);
        }
        let mut lines: Vec<String> = Vec::new();
        let mut i: usize = 0;
        assert(texts(lines@) =~= kind_lines(self@.by_kind, 0));
        while i < 256
            invariant
                i <= 256,
                well_formed(self@),
                texts(lines@) == kind_lines(self@.by_kind, i as int),
            decreases 256 - i,
        {
            let count: u64 = if i < self.by_kind.len() {
                self.by_kind[i]
            } else {
                0
            };
            assert(count == self@.by_kind[i as int]);
            if count > 0 {
                if let Ok(prefix) = KeyPrefix::try_from(i as u8) {
                    let mut line = "  ".to_owned();
                    line.append(prefix.as_str());
                    line.append(": ");
                    put_decimal(&mut line, count);
                    let ghost before = lines@;
                    lines.push(line);
                    assert(texts(lines@) =~= texts(before).push(line@));
                }
            }
            i += 1;
        }
        lines
    }
}

} // verus!
