//! Which passwords are accepted, and what a listing shows of keys.

use super::debug::describe_key;
use super::debug::kind_lines;
use super::debug::lemma_sum_update;
use super::debug::listed;
use super::debug::raw_text;
use super::debug::texts;
use super::debug::well_formed;
use super::debug::KeyListing;
use super::debug::ListedKey;
use super::password::check_password_change;
use super::password::validate_password;
use super::password::PasswordError;
use crate::fs::key_codec::kind_byte;
use crate::fs::key_codec::kind_of_byte;
use crate::fs::key_codec::KeyCodec;
use crate::fs::key_codec::KeyPrefix;
use crate::fs::layout_laws::big;
use crate::fs::layout_laws::byte_of;
use crate::fs::layout_laws::lemma_big_at;
use crate::outside::lossy_text;
use crate::text::decimal;
use crate::text_laws::spells;
use vstd::prelude::*;

verus! {

/// A password is accepted exactly if it has at least eight characters and is not the
/// placeholder. One without characters is told from one with too few.
pub proof fn law_passwords_are_long_and_not_the_placeholder(
    password: &str,
    result: Result<(), PasswordError>,
)
    requires
        call_ensures(validate_password, (password,), result),
    ensures
        match result {
            Ok(_) => password@.len() >= 8 && password@ != "CHANGEME"@,
            Err(PasswordError::EmptyPassword) => password@.len() == 0,
            Err(PasswordError::TooShort) => 1 <= password@.len() <= 7,
            Err(PasswordError::DefaultPassword) => password@ == "CHANGEME"@,
            Err(_) => false,
        },
{
}

/// A password is changed exactly if the one in use is no longer the placeholder and the new
/// one is accepted; otherwise it is told what is wrong, with the one in use first.
pub proof fn law_placeholder_is_replaced_first(
    current: &str,
    new: &str,
    accepted: Result<(), PasswordError>,
    result: Result<(), PasswordError>,
)
    requires
        call_ensures(validate_password, (new,), accepted),
        call_ensures(check_password_change, (current, new), result),
    ensures
        current@ == "CHANGEME"@ ==> result == Err::<(), PasswordError>(
            PasswordError::CurrentPasswordIsDefault,
        ),
        current@ != "CHANGEME"@ ==> (result is Ok <==> accepted is Ok),
        current@ != "CHANGEME"@ && result is Err ==> result == accepted,
{
}

/// A refusal says why.
pub proof fn law_password_message_says_why(error: &PasswordError, text: String)
    requires
        call_ensures(PasswordError::message, (error,), text),
    ensures
        text@ == match *error {
            PasswordError::EmptyPassword => "Password cannot be empty"@,
            PasswordError::TooShort => "Password must be at least 8 characters long"@,
            PasswordError::DefaultPassword => "Please choose a secure password, not 'CHANGEME'"@,
            PasswordError::CurrentPasswordIsDefault => "Current password is still the default. Please update your config file first"@,
            PasswordError::EncryptionError(reason) => "Failed to change encryption password: "@
                + reason@,
            PasswordError::Other(reason) => reason@,
        },
{
}

/// The number at `at`, in decimal.
pub open spec fn shown(key: Seq<u8>, at: int) -> Seq<char> {
    decimal(big(key, at) as nat)
}

/// What is shown of a key of a kind.
pub open spec fn detail_of(prefix: KeyPrefix, key: Seq<u8>, text: Seq<char>) -> bool {
    let n = key.len();
    match prefix {
        KeyPrefix::Inode => if n == 13 {
            text == "inode_id="@ + shown(key, 5)
        } else {
            text == raw_text(key)
        },
        KeyPrefix::Orphan => if n == 13 {
            text == "inode_id="@ + shown(key, 5)
        } else {
            text == raw_text(key)
        },
        KeyPrefix::DirCookie => if n == 13 {
            text == "dir_id="@ + shown(key, 5)
        } else {
            text == raw_text(key)
        },
        KeyPrefix::Stats => if n == 13 {
            text == "shard_id="@ + shown(key, 5)
        } else {
            text == raw_text(key)
        },
        KeyPrefix::Extent => if n == 23 {
            text == "inode_id="@ + shown(key, 7) + ", extent_index="@ + shown(key, 15)
        } else {
            text == raw_text(key)
        },
        KeyPrefix::DirScan => if n == 21 {
            text == "dir_id="@ + shown(key, 5) + ", cookie="@ + shown(key, 13)
        } else {
            text == raw_text(key)
        },
        KeyPrefix::Tombstone => if n == 21 {
            text == "timestamp="@ + shown(key, 5) + ", inode_id="@ + shown(key, 13)
        } else {
            text == raw_text(key)
        },
        KeyPrefix::SegCount => if n == 21 {
            text == "epoch="@ + shown(key, 5) + ", counter="@ + shown(key, 13)
        } else {
            text == raw_text(key)
        },
        KeyPrefix::DirEntry => if n > 13 {
            text == "dir_id="@ + shown(key, 5) + ", name=\""@ + lossy_text(key.skip(13)) + "\""@
        } else {
            text == raw_text(key)
        },
        KeyPrefix::System => if n > 5 {
            exists|digits: Seq<char>|
                spells(digits, seq![key[5]]) && text == #[trigger] ("subtype=0x"@ + digits)
        } else {
            text == raw_text(key)
        },
        KeyPrefix::WorkspaceOperation => text == raw_text(key),
    }
}

/// A key is described by the kind that the codec routes it to, with the numbers that stand in
/// it, or with all its bytes where it is not as long as its kind asks.
pub proof fn law_keys_are_described_by_their_kind(
    codec: &KeyCodec,
    key: &[u8],
    kind: Option<KeyPrefix>,
    described: Option<(KeyPrefix, String)>,
)
    requires
        call_ensures(KeyCodec::peek_kind, (codec, key), kind),
        call_ensures(describe_key, (codec, key), described),
    ensures
        match described {
            Some((prefix, text)) => kind == Some(prefix) && detail_of(prefix, key@, text@),
            None => kind is None,
        },
{
    let n = key@.len();
    if n >= 13 {
        lemma_big_at(key@, 5);
    }
    if n >= 21 {
        lemma_big_at(key@, 13);
    }
    if n == 23 {
        lemma_big_at(key@, 7);
        lemma_big_at(key@, 15);
    }
    match described {
        Some((prefix, text)) => {
            if prefix is System && n > 5 {
                let one = seq![key@[5]];
                crate::text_laws::lemma_hex_spells(one);
                assert(one.drop_last() =~= Seq::empty());
                assert(crate::text::hex(one.drop_last()) =~= Seq::empty());
                assert(crate::text::hex(one) =~= crate::text::hex_byte(key@[5]));
                assert(text@ == "subtype=0x"@ + crate::text::hex(one));
            }
        },
        None => {},
    }
}

/// The bytes of a key in decimal, in brackets and with commas between.
pub proof fn law_raw_bytes_are_listed(bytes: Seq<u8>, last: u8)
    ensures
        raw_text(bytes) == "raw=["@ + listed(bytes) + "]"@,
        listed(Seq::<u8>::empty()) == Seq::<char>::empty(),
        listed(seq![last]) == decimal(last as nat),
        bytes.len() > 0 ==> listed(bytes.push(last)) == listed(bytes) + ", "@ + decimal(
            last as nat,
        ),
{
    assert(bytes.push(last).drop_last() =~= bytes);
}

/// A new listing has seen nothing.
pub proof fn law_new_listing_is_empty(listing: KeyListing, total: u64, lines: Vec<String>)
    requires
        call_ensures(KeyListing::new, (), listing),
        call_ensures(KeyListing::total, (&listing,), total),
        call_ensures(KeyListing::summary, (&listing,), lines),
    ensures
        total == 0,
        lines@.len() == 0,
{
    let bytes = lemma_summary(listing@.by_kind, 256);
    if bytes.len() > 0 {
        assert(listing@.by_kind[bytes[0]] > 0);
    }
    assert(texts(lines@).len() == lines@.len());
}

/// A key that has a kind is counted once, as one of its kind, and gets a line with the kind's
/// name; a key that has none leaves everything as it was.
pub proof fn law_listed_key_is_counted_once(
    listing: &mut KeyListing,
    codec: &KeyCodec,
    key: &[u8],
    described: Option<(KeyPrefix, String)>,
    name: &'static str,
    shown: ListedKey,
)
    requires
        old(listing)@.total < u64::MAX,
        well_formed(old(listing)@),
        call_ensures(describe_key, (codec, key), described),
        described matches Some((prefix, _)) ==> call_ensures(KeyPrefix::as_str, (prefix,), name),
        call_ensures(KeyListing::add_key, (listing, codec, key), shown),
    ensures
        match described {
            Some((prefix, text)) => {
                &&& final(listing)@.total == old(listing)@.total + 1
                &&& forall|byte: int|
                    0 <= byte < 256 ==> #[trigger] final(listing)@.by_kind[byte]
                        == old(listing)@.by_kind[byte] + if byte_of(prefix, byte as u8) {
                        1int
                    } else {
                        0int
                    }
                &&& shown matches ListedKey::Known(line) && line@ == "["@ + name@ + "] "@ + text@
            },
            None => {
                &&& final(listing)@ == old(listing)@
                &&& key@.len() == 0 ==> shown == ListedKey::Empty
                &&& key@.len() > 0 ==> shown == ListedKey::Unknown
            },
        },
{
    match described {
        Some((prefix, _)) => lemma_sum_update(
            old(listing)@.by_kind,
            kind_byte(prefix) as int,
            0,
        ),
        None => {},
    }
}

/// `bytes` are those of the kinds of which keys were seen, in order, and `lines` the name and
/// the number of each.
pub open spec fn is_summary(lines: Seq<Seq<char>>, by_kind: Seq<u64>, bytes: Seq<int>) -> bool {
    &&& lines.len() == bytes.len()
    &&& forall|i: int, j: int| 0 <= i < j < bytes.len() ==> bytes[i] < bytes[j]
    &&& forall|i: int| 0 <= i < bytes.len() ==> 0 <= #[trigger] bytes[i] < 256
    &&& forall|i: int|
        0 <= i < bytes.len() ==> {
            &&& by_kind[#[trigger] bytes[i]] > 0
            &&& kind_of_byte(bytes[i] as u8) matches Some(prefix) && lines[i] == "  "@
                + crate::fs::key_codec::prefix_name(prefix) + ": "@ + decimal(
                by_kind[bytes[i]] as nat,
            )
        }
    &&& forall|byte: int|
        0 <= byte < 256 && #[trigger] by_kind[byte] > 0 && kind_of_byte(byte as u8) is Some
            ==> bytes.contains(byte)
}

proof fn lemma_summary(by_kind: Seq<u64>, bound: int) -> (bytes: Seq<int>)
    requires
        0 <= bound <= 256,
    ensures
        kind_lines(by_kind, bound).len() == bytes.len(),
        forall|i: int, j: int| 0 <= i < j < bytes.len() ==> bytes[i] < bytes[j],
        forall|i: int| 0 <= i < bytes.len() ==> 0 <= #[trigger] bytes[i] < bound,
        forall|i: int|
            0 <= i < bytes.len() ==> {
                &&& by_kind[#[trigger] bytes[i]] > 0
                &&& kind_of_byte(bytes[i] as u8) matches Some(prefix) && kind_lines(
                    by_kind,
                    bound,
                )[i] == "  "@ + crate::fs::key_codec::prefix_name(prefix) + ": "@ + decimal(
                    by_kind[bytes[i]] as nat,
                )
            },
        forall|byte: int|
            0 <= byte < bound && #[trigger] by_kind[byte] > 0 && kind_of_byte(byte as u8) is Some
                ==> bytes.contains(byte),
    decreases bound,
{
    if bound == 0 {
        Seq::empty()
    } else {
        let rest = lemma_summary(by_kind, bound - 1);
        let last = bound - 1;
        if kind_of_byte(last as u8) is Some && by_kind[last] > 0 {
            let bytes = rest.push(last);
            assert(bytes[rest.len() as int] == last);
            assert forall|byte: int|
                0 <= byte < bound && #[trigger] by_kind[byte] > 0 && kind_of_byte(
                    byte as u8,
                ) is Some implies bytes.contains(byte) by {
                if byte != last {
                    assert(rest.contains(byte));
                    let i = choose|i: int| 0 <= i < rest.len() && rest[i] == byte;
                    assert(bytes[i] == byte);
                }
            }
            bytes
        } else {
            rest
        }
    }
}

/// The summary has one line for each kind of which keys were seen, by kind byte, and no
/// other.
pub proof fn law_summary_has_one_line_per_kind(listing: &KeyListing, lines: Vec<String>)
    requires
        call_ensures(KeyListing::summary, (listing,), lines),
    ensures
        exists|bytes: Seq<int>| is_summary(texts(lines@), listing@.by_kind, bytes),
        texts(lines@).len() == lines@.len(),
        forall|i: int| 0 <= i < lines@.len() ==> #[trigger] texts(lines@)[i] == lines@[i]@,
{
    let bytes = lemma_summary(listing@.by_kind, 256);
    assert(is_summary(texts(lines@), listing@.by_kind, bytes));
}

} // verus!
