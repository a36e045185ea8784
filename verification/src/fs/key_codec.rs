//! Key layout for the underlying LSM tree.
//!
//! Every key is `"meta"` or `"extent"`, then a kind byte, then identifiers. The
//! leading domain is what the store routes on: all metadata kinds land in the
//! `meta` segment and bulk extent pointers in the `extent` segment, each an
//! independent tree. Identifiers are big-endian, so that key order is numeric
//! order.
//!
//! Kind bytes:
//!   0x01 INODE              by inode id
//!   0x02 DIR_ENTRY          by directory id and name
//!   0x03 DIR_SCAN           by directory id and cookie
//!   0x04 DIR_COOKIE         per-directory cookie counter
//!   0x05 STATS              per-shard counters
//!   0x06 SYSTEM             rare configuration, by subtype
//!   0x07 TOMBSTONE          deferred deletions, by time and inode id
//!   0x08 ORPHAN             open-unlinked inodes pending reclaim
//!   0x09 SEGCOUNT           per-segment live and total byte counters
//!   0x0A WORKSPACE_OP       workspace operation ledger
//!   0x0B EXPORT_AUTHORITY   per-export authority and session state, and the genesis,
//!                           heads and barriers of workspaces
//!   0xFE EXTENT             bulk file data, the only kind in the extent segment

use super::errors::FsError;
use super::InodeId;
use crate::outside::bytes_copy;
use crate::outside::bytes_from_vec;
use crate::outside::bytes_slice;
use crate::outside::bytes_slice_from;
use crate::outside::contents;
use crate::outside::utf8_str;
use crate::replication::HaStamp;
use crate::replication::HaStampModel;
use crate::replication::ShipSeqno;
use crate::replication::SoloHistory;
use crate::replication::WriterEpoch;
use crate::wire::be_bytes;
use crate::wire::be_value;
use crate::wire::begins_with;
use crate::wire::get_be;
use crate::wire::get_le;
use crate::wire::le_bytes;
use crate::wire::le_value;
use crate::wire::lemma_be_bytes_len;
use crate::wire::lemma_be_roundtrip;
use crate::wire::lemma_be_value_bytes;
use crate::wire::lemma_le_bytes_len;
use crate::wire::lemma_span_values;
use crate::wire::put_be;
use crate::wire::put_bytes;
use crate::wire::put_le;
use crate::wire::starts_with;
use bytes::Bytes;
use vstd::prelude::*;
use vstd::utf8::encode_utf8;

verus! {

broadcast use {lemma_be_bytes_len, lemma_le_bytes_len};

const PREFIX_INODE: u8 = 0x01;

const PREFIX_DIR_ENTRY: u8 = 0x02;

const PREFIX_DIR_SCAN: u8 = 0x03;

const PREFIX_DIR_COOKIE: u8 = 0x04;

const PREFIX_STATS: u8 = 0x05;

const PREFIX_SYSTEM: u8 = 0x06;

const PREFIX_TOMBSTONE: u8 = 0x07;

const PREFIX_ORPHAN: u8 = 0x08;

const PREFIX_SEGCOUNT: u8 = 0x09;

pub const PREFIX_WORKSPACE_OPERATION: u8 = 0x0A;

pub const PREFIX_EXPORT_AUTHORITY: u8 = 0x0B;

const PREFIX_EXTENT: u8 = 0xFE;

const EXPORT_KEY_VERSION: u8 = 2;

const LEGACY_EXPORT_KEY_VERSION: u8 = 1;

const EXPORT_AUTHORITY_SUBTYPE: u8 = 1;

const EXPORT_MUTATION_OUTCOME_SUBTYPE: u8 = 2;

const EXPORT_REVERSE_NAME_SUBTYPE: u8 = 3;

const EXPORT_REVERSE_INODE_SUBTYPE: u8 = 4;

const NBD_SESSION_INSTALL_SUBTYPE: u8 = 5;

const NBD_SESSION_INSTALL_OUTCOME_SUBTYPE: u8 = 6;

const NBD_CONNECTION_RECEIPT_SUBTYPE: u8 = 7;

const NBD_CONNECTION_RESERVATION_SUBTYPE: u8 = 8;

const WORKSPACE_GENESIS_SUBTYPE: u8 = 9;

const WORKSPACE_HEAD_SUBTYPE: u8 = 10;

const WORKSPACE_HEAD_VERSION_SUBTYPE: u8 = 11;

const WORKSPACE_BARRIER_RECORD_SUBTYPE: u8 = 12;

const SYSTEM_COUNTER_SUBTYPE: u8 = 0x01;

const SYSTEM_HA_SEQNO_SUBTYPE: u8 = 0x02;

const SYSTEM_LINEAGE_SUBTYPE: u8 = 0x03;

const SYSTEM_TAINT_SUBTYPE: u8 = 0x04;

const SYSTEM_ORPHAN_SWEEP_SUBTYPE: u8 = 0x05;

const SYSTEM_EXPORT_BOOT_SUBTYPE: u8 = 0x06;

const U64_SIZE: usize = 8;

/// Domain prefix for any metadata kind: `"meta"`.
pub const META_DOMAIN: [u8; 4] = [0x6d, 0x65, 0x74, 0x61];

/// Domain prefix for bulk extent data: `"extent"`.
pub const EXTENT_DOMAIN: [u8; 6] = [0x65, 0x78, 0x74, 0x65, 0x6e, 0x74];

/// What kind of row a key names.
#[derive(Debug, Clone, Copy, PartialEq, Eq, Hash, Structural)]
pub enum KeyPrefix {
    Inode,
    Extent,
    DirEntry,
    DirScan,
    Tombstone,
    Orphan,
    Stats,
    System,
    DirCookie,
    SegCount,
    WorkspaceOperation,
}

/// The kind byte of `prefix`.
pub open spec fn kind_byte(prefix: KeyPrefix) -> u8 {
    match prefix {
        KeyPrefix::Inode => 0x01,
        KeyPrefix::DirEntry => 0x02,
        KeyPrefix::DirScan => 0x03,
        KeyPrefix::DirCookie => 0x04,
        KeyPrefix::Stats => 0x05,
        KeyPrefix::System => 0x06,
        KeyPrefix::Tombstone => 0x07,
        KeyPrefix::Orphan => 0x08,
        KeyPrefix::SegCount => 0x09,
        KeyPrefix::WorkspaceOperation => 0x0A,
        KeyPrefix::Extent => 0xFE,
    }
}

/// The kind that `byte` stands for, if any.
pub open spec fn kind_of_byte(byte: u8) -> Option<KeyPrefix> {
    match byte {
        0x01 => Some(KeyPrefix::Inode),
        0x02 => Some(KeyPrefix::DirEntry),
        0x03 => Some(KeyPrefix::DirScan),
        0x04 => Some(KeyPrefix::DirCookie),
        0x05 => Some(KeyPrefix::Stats),
        0x06 => Some(KeyPrefix::System),
        0x07 => Some(KeyPrefix::Tombstone),
        0x08 => Some(KeyPrefix::Orphan),
        0x09 => Some(KeyPrefix::SegCount),
        0x0A => Some(KeyPrefix::WorkspaceOperation),
        0xFE => Some(KeyPrefix::Extent),
        _ => None,
    }
}

/// The domain that keys of `prefix` live in.
pub open spec fn domain_of(prefix: KeyPrefix) -> Seq<u8> {
    if prefix == KeyPrefix::Extent {
        EXTENT_DOMAIN@
    } else {
        META_DOMAIN@
    }
}

/// The bytes that every key of `prefix` begins with.
pub open spec fn prefix_bytes(prefix: KeyPrefix) -> Seq<u8> {
    domain_of(prefix).push(kind_byte(prefix))
}

/// The kind of a stored key: its domain must be the one of the kind it carries.
pub open spec fn key_kind(key: Seq<u8>) -> Option<KeyPrefix> {
    if begins_with(key, EXTENT_DOMAIN@) {
        if key.len() > 6 && key[6] == 0xFE {
            Some(KeyPrefix::Extent)
        } else {
            None
        }
    } else if begins_with(key, META_DOMAIN@) && key.len() > 4 && key[4] != 0xFE {
        kind_of_byte(key[4])
    } else {
        None
    }
}

/// The name of a kind in listings.
pub open spec fn prefix_name(prefix: KeyPrefix) -> Seq<char> {
    match prefix {
        KeyPrefix::Inode => "INODE"@,
        KeyPrefix::Extent => "EXTENT"@,
        KeyPrefix::DirEntry => "DIR_ENTRY"@,
        KeyPrefix::DirScan => "DIR_SCAN"@,
        KeyPrefix::Tombstone => "TOMBSTONE"@,
        KeyPrefix::Orphan => "ORPHAN"@,
        KeyPrefix::Stats => "STATS"@,
        KeyPrefix::System => "SYSTEM"@,
        KeyPrefix::DirCookie => "DIR_COOKIE"@,
        KeyPrefix::SegCount => "SEGCOUNT"@,
        KeyPrefix::WorkspaceOperation => "WORKSPACE_OPERATION"@,
    }
}

impl From<KeyPrefix> for u8 {
    fn from(prefix: KeyPrefix) -> (byte: Self) {
        match prefix {
            KeyPrefix::Inode => PREFIX_INODE,
            KeyPrefix::Extent => PREFIX_EXTENT,
            KeyPrefix::DirEntry => PREFIX_DIR_ENTRY,
            KeyPrefix::DirScan => PREFIX_DIR_SCAN,
            KeyPrefix::Tombstone => PREFIX_TOMBSTONE,
            KeyPrefix::Orphan => PREFIX_ORPHAN,
            KeyPrefix::Stats => PREFIX_STATS,
            KeyPrefix::System => PREFIX_SYSTEM,
            KeyPrefix::DirCookie => PREFIX_DIR_COOKIE,
            KeyPrefix::SegCount => PREFIX_SEGCOUNT,
            KeyPrefix::WorkspaceOperation => PREFIX_WORKSPACE_OPERATION,
        }
    }
}

impl vstd::std_specs::convert::FromSpecImpl<KeyPrefix> for u8 {
    open spec fn obeys_from_spec() -> bool {
        true
    }

    open spec fn from_spec(prefix: KeyPrefix) -> u8 {
        kind_byte(prefix)
    }
}

impl TryFrom<u8> for KeyPrefix {
    type Error = ();

    fn try_from(byte: u8) -> (result: Result<Self, ()>) {
        match byte {
            PREFIX_INODE => Ok(KeyPrefix::Inode),
            PREFIX_EXTENT => Ok(KeyPrefix::Extent),
            PREFIX_DIR_ENTRY => Ok(KeyPrefix::DirEntry),
            PREFIX_DIR_SCAN => Ok(KeyPrefix::DirScan),
            PREFIX_TOMBSTONE => Ok(KeyPrefix::Tombstone),
            PREFIX_ORPHAN => Ok(KeyPrefix::Orphan),
            PREFIX_STATS => Ok(KeyPrefix::Stats),
            PREFIX_SYSTEM => Ok(KeyPrefix::System),
            PREFIX_DIR_COOKIE => Ok(KeyPrefix::DirCookie),
            PREFIX_SEGCOUNT => Ok(KeyPrefix::SegCount),
            PREFIX_WORKSPACE_OPERATION => Ok(KeyPrefix::WorkspaceOperation),
            _ => Err(()),
        }
    }
}

impl vstd::std_specs::convert::TryFromSpecImpl<u8> for KeyPrefix {
    open spec fn obeys_try_from_spec() -> bool {
        true
    }

    open spec fn try_from_spec(byte: u8) -> Result<Self, ()> {
        match kind_of_byte(byte) {
            Some(prefix) => Ok(prefix),
            None => Err(()),
        }
    }
}

impl KeyPrefix {
    /// The name of this kind in listings.
    pub fn as_str(self) -> (name: &'static str)
        ensures
            name@ == prefix_name(self),
    {
        match self {
            KeyPrefix::Inode => "INODE",
            KeyPrefix::Extent => "EXTENT",
            KeyPrefix::DirEntry => "DIR_ENTRY",
            KeyPrefix::DirScan => "DIR_SCAN",
            KeyPrefix::Tombstone => "TOMBSTONE",
            KeyPrefix::Orphan => "ORPHAN",
            KeyPrefix::Stats => "STATS",
            KeyPrefix::System => "SYSTEM",
            KeyPrefix::DirCookie => "DIR_COOKIE",
            KeyPrefix::SegCount => "SEGCOUNT",
            KeyPrefix::WorkspaceOperation => "WORKSPACE_OPERATION",
        }
    }
}

/// What a scan learns from a key.
#[derive(Debug, Clone, Copy)]
pub enum ParsedKey {
    DirScan { cookie: u64 },
    Tombstone { inode_id: InodeId },
    Orphan { inode_id: InodeId },
    Unknown,
}

/// Key encoder and decoder. It holds no state: every volume uses one layout.
#[derive(Debug, Clone, Copy, Default)]
pub struct KeyCodec;

/// Identifies the outcome row of one export mutation.
pub struct ExportMutationKey<'a> {
    pub workspace_id: &'a str,
    pub actor: &'a str,
    pub actor_generation: u64,
    pub placement_epoch: u64,
    pub session_id: &'a str,
    pub server_boot_id: &'a str,
    pub operation_id: [u8; 32],
}

/// Identifies the rows of one NBD session.
pub struct NbdSessionKey<'a> {
    pub workspace_id: &'a str,
    pub actor: &'a str,
    pub actor_generation: u64,
    pub placement_epoch: u64,
    pub session_id: &'a str,
    pub server_boot_id: &'a str,
}

/// A key that an export binding protects.
pub enum ExportBindingMetadataKey {
    Inode(u64),
    Extent(u64),
    DirectoryEntry { directory_inode: u64, name: Bytes },
}

/// A byte string with its length in front, as two bytes.
pub open spec fn field16(bytes: Seq<u8>) -> Seq<u8> {
    be_bytes(bytes.len(), 2) + bytes
}

/// A string with the length of its UTF-8 bytes in front, as two bytes.
pub open spec fn text16(text: Seq<char>) -> Seq<u8> {
    field16(encode_utf8(text))
}

/// A string is short enough for a two-byte length.
pub open spec fn fits16(text: Seq<char>) -> bool {
    encode_utf8(text).len() <= 0xFFFF
}

/// The big-endian bytes of an eight-byte number.
pub open spec fn be8(n: u64) -> Seq<u8> {
    be_bytes(n as nat, 8)
}

/// The little-endian bytes of an eight-byte number.
pub open spec fn le8(n: u64) -> Seq<u8> {
    le_bytes(n as nat, 8)
}

/// The bytes that every export authority row of `subtype` begins with.
pub open spec fn export_rows(subtype: u8) -> Seq<u8> {
    META_DOMAIN@ + seq![PREFIX_EXPORT_AUTHORITY, 2u8, subtype]
}

pub open spec fn export_authority_key_bytes(workspace_id: Seq<char>) -> Seq<u8> {
    export_rows(1) + text16(workspace_id)
}

/// `result` is the workspace whose authority record `key` names, or says that it names none.
pub open spec fn is_read_workspace(result: Option<&str>, key: Seq<u8>) -> bool {
    match result {
        Some(workspace) => fits16(workspace@) && key == export_authority_key_bytes(workspace@),
        None => forall|workspace: Seq<char>|
            fits16(workspace) ==> key != #[trigger] export_authority_key_bytes(workspace),
    }
}

/// The identity that scopes the rows of one session.
pub open spec fn session_scope(
    workspace_id: Seq<char>,
    actor: Seq<char>,
    actor_generation: u64,
    placement_epoch: u64,
    session_id: Seq<char>,
    server_boot_id: Seq<char>,
) -> Seq<u8> {
    text16(workspace_id) + (text16(actor) + (be8(actor_generation) + (be8(placement_epoch) + (text16(
        session_id,
    ) + text16(server_boot_id)))))
}

pub open spec fn export_mutation_outcome_key_bytes(key: ExportMutationKey) -> Seq<u8> {
    export_rows(2) + session_scope(
        key.workspace_id@,
        key.actor@,
        key.actor_generation,
        key.placement_epoch,
        key.session_id@,
        key.server_boot_id@,
    ) + key.operation_id@
}

/// Every identifier of the key is short enough for its two-byte length.
pub open spec fn outcome_key_fits(key: ExportMutationKey) -> bool {
    fits16(key.workspace_id@) && fits16(key.actor@) && fits16(key.session_id@) && fits16(
        key.server_boot_id@,
    )
}

pub open spec fn nbd_session_bytes(key: NbdSessionKey) -> Seq<u8> {
    session_scope(
        key.workspace_id@,
        key.actor@,
        key.actor_generation,
        key.placement_epoch,
        key.session_id@,
        key.server_boot_id@,
    )
}

/// Every identifier of the session is short enough for its two-byte length.
pub open spec fn nbd_session_fits(key: NbdSessionKey) -> bool {
    fits16(key.workspace_id@) && fits16(key.actor@) && fits16(key.session_id@) && fits16(
        key.server_boot_id@,
    )
}

pub open spec fn export_reverse_name_key_bytes(directory_inode: u64, name: Seq<u8>) -> Seq<u8> {
    export_rows(3) + be8(directory_inode) + field16(name)
}

pub open spec fn export_reverse_inode_key_bytes(inode: u64) -> Seq<u8> {
    export_rows(4) + be8(inode)
}

pub open spec fn inode_key_bytes(inode_id: u64) -> Seq<u8> {
    prefix_bytes(KeyPrefix::Inode) + be8(inode_id)
}

/// A key of `prefix` with two numeric identifiers.
pub open spec fn pair_key_bytes(prefix: KeyPrefix, first: u64, second: u64) -> Seq<u8> {
    prefix_bytes(prefix) + (be8(first) + be8(second))
}

pub open spec fn extent_key_bytes(inode_id: u64, extent_index: u64) -> Seq<u8> {
    pair_key_bytes(KeyPrefix::Extent, inode_id, extent_index)
}

pub open spec fn segcount_key_bytes(epoch: u64, counter: u64) -> Seq<u8> {
    pair_key_bytes(KeyPrefix::SegCount, epoch, counter)
}

pub open spec fn dir_scan_key_bytes(dir_id: u64, cookie: u64) -> Seq<u8> {
    pair_key_bytes(KeyPrefix::DirScan, dir_id, cookie)
}

pub open spec fn tombstone_key_bytes(timestamp: u64, inode_id: u64) -> Seq<u8> {
    pair_key_bytes(KeyPrefix::Tombstone, timestamp, inode_id)
}

pub open spec fn orphan_key_bytes(inode_id: u64) -> Seq<u8> {
    prefix_bytes(KeyPrefix::Orphan) + be8(inode_id)
}

pub open spec fn dir_entry_key_bytes(dir_id: u64, name: Seq<u8>) -> Seq<u8> {
    prefix_bytes(KeyPrefix::DirEntry) + be8(dir_id) + name
}

/// A system row, told apart by its subtype alone.
pub open spec fn system_key_bytes(subtype: u8) -> Seq<u8> {
    prefix_bytes(KeyPrefix::System).push(subtype)
}

/// A signed four-byte number as its two's complement, most significant byte first.
pub open spec fn be_i32(n: i32) -> Seq<u8> {
    be_bytes(if n < 0 { (n + 0x1_0000_0000) as nat } else { n as nat }, 4)
}

pub open spec fn workspace_operation_key_bytes(
    key_version: u8,
    workspace_id: Seq<u8>,
    kind: i32,
    request_id: Seq<u8>,
) -> Seq<u8> {
    prefix_bytes(KeyPrefix::WorkspaceOperation).push(key_version) + (field16(workspace_id) + (
    be_i32(kind) + field16(request_id)))
}

pub open spec fn workspace_genesis_key_bytes(workspace_id: Seq<char>) -> Seq<u8> {
    export_rows(9) + text16(workspace_id)
}

pub open spec fn workspace_head_key_bytes(workspace_id: Seq<char>) -> Seq<u8> {
    export_rows(10) + text16(workspace_id)
}

pub open spec fn workspace_head_version_key_bytes(workspace_id: Seq<char>, version: u64) -> Seq<
    u8,
> {
    export_rows(11) + text16(workspace_id) + be8(version)
}

pub open spec fn workspace_barrier_record_key_bytes(
    workspace_id: Seq<char>,
    request_id: Seq<char>,
) -> Seq<u8> {
    export_rows(12) + text16(workspace_id) + text16(request_id)
}

/// A key belongs to metadata that only a typed authority path may change.
pub open spec fn is_reserved(key: Seq<u8>) -> bool {
    &&& begins_with(key, META_DOMAIN@)
    &&& key.len() > 4
    &&& {
        ||| key[4] == PREFIX_WORKSPACE_OPERATION
        ||| key[4] == PREFIX_EXPORT_AUTHORITY
        ||| key[4] == 0x06 && key.len() > 5 && key[5] == 0x06
    }
}

/// Whether `key` belongs to metadata whose mutation is reserved to a typed
/// authority path rather than the general filesystem transaction API.
///
/// The check stands at the encoded-key boundary: a caller with a raw transaction
/// must not be able to bypass a typed store by manufacturing its key bytes.
pub fn is_reserved_mutation_key(key: &[u8]) -> (reserved: bool)
    ensures
        reserved == is_reserved(key@),
{
    if key.len() <= META_DOMAIN.len() || !starts_with(key, &META_DOMAIN) {
        return false;
    }
    let kind: u8 = key[META_DOMAIN.len()];
    kind == PREFIX_WORKSPACE_OPERATION || kind == PREFIX_EXPORT_AUTHORITY || (kind == PREFIX_SYSTEM
        && key.len() > META_DOMAIN.len() + 1 && key[META_DOMAIN.len() + 1]
        == SYSTEM_EXPORT_BOOT_SUBTYPE)
}

fn put_field16(out: &mut Vec<u8>, bytes: &[u8])
    requires
        bytes@.len() <= 0xFFFF,
    ensures
        final(out)@ == old(out)@ + field16(bytes@),
{
    put_be(out, bytes.len() as u64, 2);
    put_bytes(out, bytes);
    assert(out@ =~= old(out)@ + field16(bytes@));
}

fn put_text16(out: &mut Vec<u8>, text: &str)
    requires
        fits16(text@),
    ensures
        final(out)@ == old(out)@ + text16(text@),
{
    put_field16(out, text.as_bytes());
}

fn put_session_scope(
    out: &mut Vec<u8>,
    workspace_id: &str,
    actor: &str,
    actor_generation: u64,
    placement_epoch: u64,
    session_id: &str,
    server_boot_id: &str,
)
    requires
        fits16(workspace_id@),
        fits16(actor@),
        fits16(session_id@),
        fits16(server_boot_id@),
    ensures
        final(out)@ == old(out)@ + session_scope(
            workspace_id@,
            actor@,
            actor_generation,
            placement_epoch,
            session_id@,
            server_boot_id@,
        ),
{
    put_text16(out, workspace_id);
    put_text16(out, actor);
    put_be(out, actor_generation, 8);
    put_be(out, placement_epoch, 8);
    put_text16(out, session_id);
    put_text16(out, server_boot_id);
    assert(out@ =~= old(out)@ + session_scope(
        workspace_id@,
        actor@,
        actor_generation,
        placement_epoch,
        session_id@,
        server_boot_id@,
    ));
}

pub fn put_be_i32(out: &mut Vec<u8>, n: i32)
    ensures
        final(out)@ == old(out)@ + be_i32(n),
{
    let wide: i64 = n as i64;
    let unsigned: u64 = if wide < 0 {
        (wide + 0x1_0000_0000) as u64
    } else {
        wide as u64
    };
    put_be(out, unsigned, 4);
}

impl KeyCodec {
    pub fn new() -> (codec: Self)
        ensures
            codec == KeyCodec,
    {
        KeyCodec
    }

    fn put_export_rows(&self, out: &mut Vec<u8>, subtype: u8)
        requires
            old(out)@.len() == 0,
        ensures
            final(out)@ == export_rows(subtype),
    {
        put_bytes(out, &META_DOMAIN);
        out.push(PREFIX_EXPORT_AUTHORITY);
        out.push(EXPORT_KEY_VERSION);
        out.push(subtype);
        assert(out@ =~= export_rows(subtype));
    }

    /// Key of a workspace's export authority record.
    pub fn export_authority_key(&self, workspace_id: &str) -> (key: Bytes)
        requires
            fits16(workspace_id@),
        ensures
            contents(key) == export_authority_key_bytes(workspace_id@),
    {
        let mut key: Vec<u8> = Vec::new();
        self.put_export_rows(&mut key, EXPORT_AUTHORITY_SUBTYPE);
        put_text16(&mut key, workspace_id);
        bytes_from_vec(key)
    }

    /// What the key of every export authority record begins with.
    pub fn export_authority_prefix(&self) -> (key: Bytes)
        ensures
            contents(key) == export_rows(1),
    {
        let mut key: Vec<u8> = Vec::new();
        self.put_export_rows(&mut key, EXPORT_AUTHORITY_SUBTYPE);
        bytes_from_vec(key)
    }

    /// The workspace whose export authority record `key` names.
    pub fn parse_export_authority_workspace<'a>(&self, key: &'a [u8]) -> (result: Option<&'a str>)
        ensures
            is_read_workspace(result, key@),
    {
        let prefix = self.export_authority_prefix();
        let head = bytes_slice(&prefix);
        let at: usize = head.len();
        if !starts_with(key, head) || key.len() < at + 2 {
            proof {
                assert forall|workspace: Seq<char>| fits16(workspace) implies key@
                    != #[trigger] export_authority_key_bytes(workspace) by {
                    let whole = export_authority_key_bytes(workspace);
                    assert(whole.subrange(0, at as int) =~= export_rows(1));
                }
            }
            return None;
        }
        let length: u64 = get_be(key, at, 2);
        let workspace = vstd::slice::slice_subrange(key, at + 2, key.len());
        proof {
            lemma_span_values();
            assert(key@ =~= export_rows(1) + (key@.subrange(at as int, at + 2) + workspace@));
            lemma_be_value_bytes(key@.subrange(at as int, at + 2));
            assert forall|text: Seq<char>| fits16(text) && key@
                == #[trigger] export_authority_key_bytes(text) implies encode_utf8(text)
                == workspace@ && length == workspace@.len() by {
                let whole = export_authority_key_bytes(text);
                let bytes = encode_utf8(text);
                assert(whole.subrange(at as int, at + 2) =~= be_bytes(bytes.len(), 2));
                assert(whole.subrange(at + 2, whole.len() as int) =~= bytes);
                lemma_be_roundtrip(bytes.len(), 2);
            }
        }
        if workspace.len() as u64 != length {
            return None;
        }
        match utf8_str(workspace) {
            Some(text) => {
                assert(key@ =~= export_authority_key_bytes(text@));
                Some(text)
            },
            None => {
                proof {
                    assert forall|text: Seq<char>| fits16(text) implies key@
                        != #[trigger] export_authority_key_bytes(text) by {
                        vstd::utf8::encode_utf8_valid_utf8(text);
                    }
                }
                None
            },
        }
    }

    /// What the key of every row of the superseded layout begins with.
    pub fn legacy_export_v1_prefix(&self) -> (key: Bytes)
        ensures
            contents(key) == META_DOMAIN@ + seq![PREFIX_EXPORT_AUTHORITY, 1u8],
    {
        let mut key: Vec<u8> = Vec::new();
        put_bytes(&mut key, &META_DOMAIN);
        key.push(PREFIX_EXPORT_AUTHORITY);
        key.push(LEGACY_EXPORT_KEY_VERSION);
        assert(key@ =~= META_DOMAIN@ + seq![PREFIX_EXPORT_AUTHORITY, 1u8]);
        bytes_from_vec(key)
    }

    /// Key of the outcome of one export mutation.
    pub fn export_mutation_outcome_key(&self, identity: &ExportMutationKey<'_>) -> (key: Bytes)
        requires
            outcome_key_fits(*identity),
        ensures
            contents(key) == export_mutation_outcome_key_bytes(*identity),
    {
        let mut key: Vec<u8> = Vec::new();
        self.put_export_rows(&mut key, EXPORT_MUTATION_OUTCOME_SUBTYPE);
        put_session_scope(
            &mut key,
            identity.workspace_id,
            identity.actor,
            identity.actor_generation,
            identity.placement_epoch,
            identity.session_id,
            identity.server_boot_id,
        );
        put_bytes(&mut key, &identity.operation_id);
        bytes_from_vec(key)
    }

    /// Key of the row that finds an export by directory and name.
    pub fn export_reverse_name_key(&self, directory_inode: u64, name: &[u8]) -> (key: Bytes)
        requires
            name@.len() <= 0xFFFF,
        ensures
            contents(key) == export_reverse_name_key_bytes(directory_inode, name@),
    {
        let mut key: Vec<u8> = Vec::new();
        self.put_export_rows(&mut key, EXPORT_REVERSE_NAME_SUBTYPE);
        put_be(&mut key, directory_inode, 8);
        put_field16(&mut key, name);
        bytes_from_vec(key)
    }

    /// Key of the row that finds an export by inode.
    pub fn export_reverse_inode_key(&self, inode: u64) -> (key: Bytes)
        ensures
            contents(key) == export_reverse_inode_key_bytes(inode),
    {
        let mut key: Vec<u8> = Vec::new();
        self.put_export_rows(&mut key, EXPORT_REVERSE_INODE_SUBTYPE);
        put_be(&mut key, inode, 8);
        bytes_from_vec(key)
    }

    pub fn export_reverse_name_prefix(&self) -> (key: Bytes)
        ensures
            contents(key) == export_rows(3),
    {
        let mut key: Vec<u8> = Vec::new();
        self.put_export_rows(&mut key, EXPORT_REVERSE_NAME_SUBTYPE);
        bytes_from_vec(key)
    }

    pub fn export_reverse_inode_prefix(&self) -> (key: Bytes)
        ensures
            contents(key) == export_rows(4),
    {
        let mut key: Vec<u8> = Vec::new();
        self.put_export_rows(&mut key, EXPORT_REVERSE_INODE_SUBTYPE);
        bytes_from_vec(key)
    }

    pub fn nbd_session_install_key(&self, identity: &NbdSessionKey<'_>) -> (key: Bytes)
        requires
            nbd_session_fits(*identity),
        ensures
            contents(key) == export_rows(5) + nbd_session_bytes(*identity),
    {
        self.nbd_session_scoped_key(NBD_SESSION_INSTALL_SUBTYPE, identity, None)
    }

    pub fn nbd_connection_receipt_key(
        &self,
        identity: &NbdSessionKey<'_>,
        connection_id: &[u8; 16],
    ) -> (key: Bytes)
        requires
            nbd_session_fits(*identity),
        ensures
            contents(key) == export_rows(7) + nbd_session_bytes(*identity) + connection_id@,
    {
        self.nbd_session_scoped_key(NBD_CONNECTION_RECEIPT_SUBTYPE, identity, Some(connection_id))
    }

    pub fn nbd_connection_reservation_key(&self, connection_id: &[u8; 16]) -> (key: Bytes)
        ensures
            contents(key) == export_rows(8) + connection_id@,
    {
        let mut key: Vec<u8> = Vec::new();
        self.put_export_rows(&mut key, NBD_CONNECTION_RESERVATION_SUBTYPE);
        put_bytes(&mut key, connection_id);
        bytes_from_vec(key)
    }

    pub fn nbd_session_install_outcome_key(
        &self,
        workspace_id: &str,
        request_id: &[u8; 16],
    ) -> (key: Bytes)
        requires
            fits16(workspace_id@),
        ensures
            contents(key) == export_rows(6) + text16(workspace_id@) + request_id@,
    {
        self.nbd_request_outcome_key(NBD_SESSION_INSTALL_OUTCOME_SUBTYPE, workspace_id, request_id)
    }

    fn nbd_request_outcome_key(
        &self,
        subtype: u8,
        workspace_id: &str,
        request_id: &[u8; 16],
    ) -> (key: Bytes)
        requires
            fits16(workspace_id@),
        ensures
            contents(key) == export_rows(subtype) + text16(workspace_id@) + request_id@,
    {
        let mut key: Vec<u8> = Vec::new();
        self.put_export_rows(&mut key, subtype);
        put_text16(&mut key, workspace_id);
        put_bytes(&mut key, request_id);
        bytes_from_vec(key)
    }

    fn nbd_session_scoped_key(
        &self,
        subtype: u8,
        identity: &NbdSessionKey<'_>,
        suffix: Option<&[u8; 16]>,
    ) -> (key: Bytes)
        requires
            nbd_session_fits(*identity),
        ensures
            contents(key) == export_rows(subtype) + nbd_session_bytes(*identity) + (match suffix {
                Some(suffix) => suffix@,
                None => Seq::empty(),
            }),
    {
        let mut key: Vec<u8> = Vec::new();
        self.put_export_rows(&mut key, subtype);
        put_session_scope(
            &mut key,
            identity.workspace_id,
            identity.actor,
            identity.actor_generation,
            identity.placement_epoch,
            identity.session_id,
            identity.server_boot_id,
        );
        if let Some(suffix) = suffix {
            put_bytes(&mut key, suffix);
        }
        bytes_from_vec(key)
    }

    /// Key of the row that names the process which owns the exports.
    pub fn export_boot_key(&self) -> (key: Bytes)
        ensures
            contents(key) == system_key_bytes(0x06),
    {
        self.system_key(SYSTEM_EXPORT_BOOT_SUBTYPE)
    }

    fn system_key(&self, subtype: u8) -> (key: Bytes)
        ensures
            contents(key) == system_key_bytes(subtype),
    {
        let mut key: Vec<u8> = Vec::new();
        self.push_prefix(&mut key, KeyPrefix::System);
        key.push(subtype);
        bytes_from_vec(key)
    }

    /// Number of bytes the domain prefix contributes for `prefix`.
    pub fn domain_len(&self, prefix: KeyPrefix) -> (len: usize)
        ensures
            len == domain_of(prefix).len(),
    {
        match prefix {
            KeyPrefix::Extent => EXTENT_DOMAIN.len(),
            _ => META_DOMAIN.len(),
        }
    }

    /// Byte offset where the kind byte lives for `prefix`.
    pub fn kind_offset(&self, prefix: KeyPrefix) -> (offset: usize)
        ensures
            offset == domain_of(prefix).len(),
    {
        self.domain_len(prefix)
    }

    /// Byte offset where the id portion lives for `prefix`. Used by raw key
    /// consumers that slice key bytes without going through a typed parse.
    pub fn id_offset(&self, prefix: KeyPrefix) -> (offset: usize)
        ensures
            offset == prefix_bytes(prefix).len(),
    {
        self.kind_offset(prefix) + 1
    }

    /// Push the domain prefix plus the kind byte onto `key`.
    fn push_prefix(&self, key: &mut Vec<u8>, prefix: KeyPrefix)
        requires
            old(key)@.len() == 0,
        ensures
            final(key)@ == prefix_bytes(prefix),
    {
        match prefix {
            KeyPrefix::Extent => put_bytes(key, &EXTENT_DOMAIN),
            _ => put_bytes(key, &META_DOMAIN),
        }
        key.push(u8::from(prefix));
        assert(key@ =~= prefix_bytes(prefix));
    }

    fn prefixed(&self, prefix: KeyPrefix) -> (key: Vec<u8>)
        ensures
            key@ == prefix_bytes(prefix),
    {
        let mut key: Vec<u8> = Vec::new();
        self.push_prefix(&mut key, prefix);
        key
    }

    fn pair_key(&self, prefix: KeyPrefix, first: u64, second: u64) -> (key: Bytes)
        ensures
            contents(key) == pair_key_bytes(prefix, first, second),
    {
        let mut key = self.prefixed(prefix);
        put_be(&mut key, first, 8);
        put_be(&mut key, second, 8);
        assert(key@ =~= pair_key_bytes(prefix, first, second));
        bytes_from_vec(key)
    }

    /// Total bytes in a complete inode key.
    pub fn inode_key_size(&self) -> (size: usize)
        ensures
            size == 13,
            forall|inode_id: u64| #[trigger] inode_key_bytes(inode_id).len() == size,
    {
        self.id_offset(KeyPrefix::Inode) + U64_SIZE
    }

    /// Total bytes in a complete extent key.
    pub fn extent_key_size(&self) -> (size: usize)
        ensures
            size == 23,
            forall|inode_id: u64, extent_index: u64| #[trigger]
                extent_key_bytes(inode_id, extent_index).len() == size,
    {
        self.id_offset(KeyPrefix::Extent) + U64_SIZE * 2
    }

    /// Total bytes in a complete tombstone key.
    pub fn tombstone_key_size(&self) -> (size: usize)
        ensures
            size == 21,
            forall|timestamp: u64, inode_id: u64| #[trigger]
                tombstone_key_bytes(timestamp, inode_id).len() == size,
    {
        self.id_offset(KeyPrefix::Tombstone) + U64_SIZE * 2
    }

    /// Total bytes in a complete orphan key.
    pub fn orphan_key_size(&self) -> (size: usize)
        ensures
            size == 13,
            forall|inode_id: u64| #[trigger] orphan_key_bytes(inode_id).len() == size,
    {
        self.id_offset(KeyPrefix::Orphan) + U64_SIZE
    }

    pub fn inode_key(&self, inode_id: InodeId) -> (key: Bytes)
        ensures
            contents(key) == inode_key_bytes(inode_id),
    {
        let mut key = self.prefixed(KeyPrefix::Inode);
        put_be(&mut key, inode_id, 8);
        bytes_from_vec(key)
    }

    pub fn extent_key(&self, inode_id: InodeId, extent_index: u64) -> (key: Bytes)
        ensures
            contents(key) == extent_key_bytes(inode_id, extent_index),
    {
        self.pair_key(KeyPrefix::Extent, inode_id, extent_index)
    }

    /// The extent index of an extent key.
    pub fn parse_extent_key(&self, key: &[u8]) -> (result: Option<u64>)
        ensures
            result is Some <==> is_pair_key(KeyPrefix::Extent, key@),
            result matches Some(extent_index) ==> extent_index == pair_key_second(
                KeyPrefix::Extent,
                key@,
            ),
    {
        match self.parse_extent_key_full(key) {
            Some((_, extent_index)) => Some(extent_index),
            None => None,
        }
    }

    /// `(inode_id, extent_index)` of an extent key, for rebuilding the directory of a
    /// shipped segment.
    pub fn parse_extent_key_full(&self, key: &[u8]) -> (result: Option<(InodeId, u64)>)
        ensures
            result is Some <==> is_pair_key(KeyPrefix::Extent, key@),
            result matches Some((inode_id, extent_index)) ==> {
                &&& inode_id == pair_key_first(KeyPrefix::Extent, key@)
                &&& extent_index == pair_key_second(KeyPrefix::Extent, key@)
            },
    {
        self.parse_pair_key(KeyPrefix::Extent, key)
    }

    fn parse_pair_key(&self, prefix: KeyPrefix, key: &[u8]) -> (result: Option<(u64, u64)>)
        ensures
            result is Some <==> is_pair_key(prefix, key@),
            result matches Some((first, second)) ==> {
                &&& first == pair_key_first(prefix, key@)
                &&& second == pair_key_second(prefix, key@)
            },
    {
        let id_offset: usize = self.id_offset(prefix);
        let head = self.prefixed(prefix);
        if key.len() != id_offset + U64_SIZE * 2 || !starts_with(key, &head) {
            return None;
        }
        let first: u64 = get_be(key, id_offset, U64_SIZE);
        let second: u64 = get_be(key, id_offset + U64_SIZE, U64_SIZE);
        Some((first, second))
    }

    /// Key for a segment's live-byte counter, by its `(epoch, counter)` id, so that a
    /// prefix scan visits segments in creation order.
    pub fn segcount_key(&self, epoch: u64, counter: u64) -> (key: Bytes)
        ensures
            contents(key) == segcount_key_bytes(epoch, counter),
    {
        self.pair_key(KeyPrefix::SegCount, epoch, counter)
    }

    /// `(epoch, counter)` of a segcount key.
    pub fn parse_segcount_key(&self, key: &[u8]) -> (result: Option<(u64, u64)>)
        ensures
            result is Some <==> is_pair_key(KeyPrefix::SegCount, key@),
            result matches Some((epoch, counter)) ==> {
                &&& epoch == pair_key_first(KeyPrefix::SegCount, key@)
                &&& counter == pair_key_second(KeyPrefix::SegCount, key@)
            },
    {
        self.parse_pair_key(KeyPrefix::SegCount, key)
    }

    /// Half-open `[start, end)` covering every segcount key, for a full scan.
    pub fn segcount_prefix_range(&self) -> (range: (Bytes, Bytes))
        ensures
            contents(range.0) == prefix_bytes(KeyPrefix::SegCount),
            contents(range.1) == prefix_end(KeyPrefix::SegCount),
    {
        self.prefix_range(KeyPrefix::SegCount)
    }

    /// Versioned composite key for one workspace operation.
    ///
    /// Callers validate both identifiers before encoding. Length prefixes keep
    /// boundaries unambiguous without hashing away the authoritative identity.
    pub fn workspace_operation_key(
        &self,
        key_version: u8,
        workspace_id: &[u8],
        kind: i32,
        request_id: &[u8],
    ) -> (key: Bytes)
        requires
            workspace_id@.len() <= 0xFFFF,
            request_id@.len() <= 0xFFFF,
        ensures
            contents(key) == workspace_operation_key_bytes(
                key_version,
                workspace_id@,
                kind,
                request_id@,
            ),
    {
        let mut key = self.prefixed(KeyPrefix::WorkspaceOperation);
        key.push(key_version);
        put_field16(&mut key, workspace_id);
        put_be_i32(&mut key, kind);
        put_field16(&mut key, request_id);
        assert(key@ =~= workspace_operation_key_bytes(key_version, workspace_id@, kind, request_id@));
        bytes_from_vec(key)
    }

    /// Key of a workspace's genesis record.
    pub fn workspace_genesis_key(&self, workspace_id: &str) -> (key: Bytes)
        requires
            fits16(workspace_id@),
        ensures
            contents(key) == workspace_genesis_key_bytes(workspace_id@),
    {
        let mut key: Vec<u8> = Vec::new();
        self.put_export_rows(&mut key, WORKSPACE_GENESIS_SUBTYPE);
        put_text16(&mut key, workspace_id);
        bytes_from_vec(key)
    }

    /// Key of a workspace's current head.
    pub fn workspace_head_key(&self, workspace_id: &str) -> (key: Bytes)
        requires
            fits16(workspace_id@),
        ensures
            contents(key) == workspace_head_key_bytes(workspace_id@),
    {
        let mut key: Vec<u8> = Vec::new();
        self.put_export_rows(&mut key, WORKSPACE_HEAD_SUBTYPE);
        put_text16(&mut key, workspace_id);
        bytes_from_vec(key)
    }

    /// Key of one version of a workspace's head.
    pub fn workspace_head_version_key(&self, workspace_id: &str, version: u64) -> (key: Bytes)
        requires
            fits16(workspace_id@),
        ensures
            contents(key) == workspace_head_version_key_bytes(workspace_id@, version),
    {
        let mut key: Vec<u8> = Vec::new();
        self.put_export_rows(&mut key, WORKSPACE_HEAD_VERSION_SUBTYPE);
        put_text16(&mut key, workspace_id);
        put_be(&mut key, version, 8);
        bytes_from_vec(key)
    }

    /// Key of the record of one barrier request.
    pub fn workspace_barrier_record_key(&self, workspace_id: &str, request_id: &str) -> (key:
        Bytes)
        requires
            fits16(workspace_id@),
            fits16(request_id@),
        ensures
            contents(key) == workspace_barrier_record_key_bytes(workspace_id@, request_id@),
    {
        let mut key: Vec<u8> = Vec::new();
        self.put_export_rows(&mut key, WORKSPACE_BARRIER_RECORD_SUBTYPE);
        put_text16(&mut key, workspace_id);
        put_text16(&mut key, request_id);
        bytes_from_vec(key)
    }

    pub fn dir_entry_key(&self, dir_id: InodeId, name: &[u8]) -> (key: Bytes)
        ensures
            contents(key) == dir_entry_key_bytes(dir_id, name@),
    {
        let mut key = self.prefixed(KeyPrefix::DirEntry);
        put_be(&mut key, dir_id, 8);
        put_bytes(&mut key, name);
        bytes_from_vec(key)
    }

    pub fn dir_scan_key(&self, dir_id: InodeId, cookie: u64) -> (key: Bytes)
        ensures
            contents(key) == dir_scan_key_bytes(dir_id, cookie),
    {
        self.pair_key(KeyPrefix::DirScan, dir_id, cookie)
    }

    pub fn dir_scan_prefix(&self, dir_id: InodeId) -> (prefix: Vec<u8>)
        ensures
            prefix@ == prefix_bytes(KeyPrefix::DirScan) + be8(dir_id),
    {
        let mut prefix = self.prefixed(KeyPrefix::DirScan);
        put_be(&mut prefix, dir_id, 8);
        prefix
    }

    /// Key at which a directory scan resumes after `resume_after_cookie`.
    pub fn dir_scan_resume_key(&self, dir_id: InodeId, resume_after_cookie: u64) -> (key: Bytes)
        requires
            resume_after_cookie < u64::MAX,
        ensures
            contents(key) == dir_scan_key_bytes(dir_id, (resume_after_cookie + 1) as u64),
    {
        let mut key = self.dir_scan_prefix(dir_id);
        put_be(&mut key, resume_after_cookie + 1, 8);
        assert(key@ =~= dir_scan_key_bytes(dir_id, (resume_after_cookie + 1) as u64));
        bytes_from_vec(key)
    }

    /// Key of the next-cookie counter of a directory.
    pub fn dir_cookie_counter_key(&self, dir_id: InodeId) -> (key: Bytes)
        ensures
            contents(key) == prefix_bytes(KeyPrefix::DirCookie) + be8(dir_id),
    {
        let mut key = self.prefixed(KeyPrefix::DirCookie);
        put_be(&mut key, dir_id, 8);
        bytes_from_vec(key)
    }

    pub fn tombstone_key(&self, timestamp: u64, inode_id: InodeId) -> (key: Bytes)
        ensures
            contents(key) == tombstone_key_bytes(timestamp, inode_id),
    {
        self.pair_key(KeyPrefix::Tombstone, timestamp, inode_id)
    }

    /// Key of an orphan-set entry. The inode id alone keys the entry: presence means
    /// "open-unlinked, pending reclaim", so the reclaim path can delete it by id.
    pub fn orphan_key(&self, inode_id: InodeId) -> (key: Bytes)
        ensures
            contents(key) == orphan_key_bytes(inode_id),
    {
        let mut key = self.prefixed(KeyPrefix::Orphan);
        put_be(&mut key, inode_id, 8);
        bytes_from_vec(key)
    }

    pub fn stats_shard_key(&self, shard_id: usize) -> (key: Bytes)
        ensures
            contents(key) == prefix_bytes(KeyPrefix::Stats) + be8(shard_id as u64),
    {
        let mut key = self.prefixed(KeyPrefix::Stats);
        put_be(&mut key, shard_id as u64, 8);
        bytes_from_vec(key)
    }

    pub fn system_counter_key(&self) -> (key: Bytes)
        ensures
            contents(key) == system_key_bytes(0x01),
    {
        self.system_key(SYSTEM_COUNTER_SUBTYPE)
    }

    /// Key of the replication stamp that is flushed atomically with each batch of a
    /// replicating leader.
    pub fn ha_seqno_key(&self) -> (key: Bytes)
        ensures
            contents(key) == system_key_bytes(0x02),
    {
        self.system_key(SYSTEM_HA_SEQNO_SUBTYPE)
    }

    pub fn encode_ha_stamp(stamp: &HaStamp) -> (value: Bytes)
        ensures
            contents(value) == ha_stamp_bytes(stamp@),
    {
        let shipped: u64 = match stamp.last_shipped() {
            Some(seqno) => seqno.get(),
            None => 0,
        };
        let applied: u64 = match stamp.applied_through() {
            Some(seqno) => seqno.get(),
            None => 0,
        };
        let solo: u64 = if stamp.solo_history().ran_solo() {
            1
        } else {
            0
        };
        let mut value: Vec<u8> = Vec::new();
        put_le(&mut value, stamp.writer_epoch().get(), 8);
        put_le(&mut value, shipped, 8);
        put_le(&mut value, stamp.solo_history().commits_since_last_ship(), 8);
        put_le(&mut value, applied, 8);
        put_le(&mut value, solo, 8);
        assert(value@ =~= ha_stamp_bytes(stamp@));
        bytes_from_vec(value)
    }

    /// Key of the durability lineage token.
    pub fn lineage_key(&self) -> (key: Bytes)
        ensures
            contents(key) == system_key_bytes(0x03),
    {
        self.system_key(SYSTEM_LINEAGE_SUBTYPE)
    }

    /// Key of the solo taint: the lineage token that went solo.
    pub fn taint_key(&self) -> (key: Bytes)
        ensures
            contents(key) == system_key_bytes(0x04),
    {
        self.system_key(SYSTEM_TAINT_SUBTYPE)
    }

    /// Key of the wall-clock time of the last orphan sweep.
    pub fn last_orphan_sweep_key(&self) -> (key: Bytes)
        ensures
            contents(key) == system_key_bytes(0x05),
    {
        self.system_key(SYSTEM_ORPHAN_SWEEP_SUBTYPE)
    }

    pub fn encode_u64(value: u64) -> (bytes: Bytes)
        ensures
            contents(bytes) == le8(value),
    {
        let mut bytes: Vec<u8> = Vec::new();
        put_le(&mut bytes, value, 8);
        bytes_copy(&bytes)
    }

    pub fn decode_u64(data: &[u8]) -> (result: Option<u64>)
        ensures
            data@.len() == 8 ==> result == Some(le_value(data@) as u64),
            data@.len() != 8 ==> result is None,
    {
        if data.len() != U64_SIZE {
            return None;
        }
        assert(data@.subrange(0, 8) =~= data@);
        Some(get_le(data, 0, U64_SIZE))
    }

    /// Encode a segment counter value: `live` bytes and cumulative `total` bytes.
    pub fn encode_segcount(live: u64, total: u64) -> (value: Bytes)
        ensures
            contents(value) == le8(live) + le8(total),
    {
        let mut bytes: Vec<u8> = Vec::new();
        put_le(&mut bytes, live, 8);
        put_le(&mut bytes, total, 8);
        bytes_copy(&bytes)
    }

    /// Decode a segment counter value. An 8-byte value holds `live` alone and decodes
    /// as `(live, live)`: the whole segment counts as live until its counter is next
    /// rewritten, which is the safe direction.
    pub fn decode_segcount(data: &[u8]) -> (result: Option<(u64, u64)>)
        ensures
            data@.len() == 16 ==> result == Some(
                (
                    le_value(data@.subrange(0, 8)) as u64,
                    le_value(data@.subrange(8, 16)) as u64,
                ),
            ),
            data@.len() == 8 ==> result == Some((le_value(data@) as u64, le_value(data@) as u64)),
            data@.len() != 8 && data@.len() != 16 ==> result is None,
    {
        if data.len() == U64_SIZE * 2 {
            let live: u64 = get_le(data, 0, U64_SIZE);
            let total: u64 = get_le(data, U64_SIZE, U64_SIZE);
            Some((live, total))
        } else if data.len() == U64_SIZE {
            assert(data@.subrange(0, 8) =~= data@);
            let live: u64 = get_le(data, 0, U64_SIZE);
            Some((live, live))
        } else {
            None
        }
    }

    /// Decode and validate a durable replication stamp.
    ///
    /// The 16- and 24-byte layouts predate the applied frontier and the solo-history
    /// latch, and decode conservatively: the acknowledged ship is known applied, but
    /// the term cannot prove that it never ran solo.
    pub fn decode_ha_stamp(data: &[u8]) -> (result: Option<HaStamp>)
        ensures
            match ha_stamp_of(data@) {
                Some(model) => result matches Some(stamp) && stamp@ == model,
                None => result is None,
            },
    {
        if data.len() != U64_SIZE * 2 && data.len() != U64_SIZE * 3 && data.len() != U64_SIZE * 5 {
            return None;
        }
        let epoch: u64 = get_le(data, 0, U64_SIZE);
        let writer_epoch = match WriterEpoch::new(epoch) {
            Some(writer_epoch) => writer_epoch,
            None => {
                return None;
            },
        };
        let last_shipped = ShipSeqno::new(get_le(data, U64_SIZE, U64_SIZE));
        if data.len() == U64_SIZE * 2 {
            return HaStamp::new(writer_epoch, last_shipped, SoloHistory::ever(0), last_shipped).ok();
        }
        let solo: u64 = get_le(data, U64_SIZE * 2, U64_SIZE);
        if data.len() == U64_SIZE * 3 {
            return HaStamp::new(
                writer_epoch,
                last_shipped,
                SoloHistory::ever(solo),
                last_shipped,
            ).ok();
        }
        let applied_through = ShipSeqno::new(get_le(data, U64_SIZE * 3, U64_SIZE));
        let solo_ever: u64 = get_le(data, U64_SIZE * 4, U64_SIZE);
        let ran_solo: bool = match solo_ever {
            0 => false,
            1 => true,
            _ => {
                return None;
            },
        };
        match SoloHistory::from_parts(solo, ran_solo) {
            Some(solo_history) => HaStamp::new(
                writer_epoch,
                last_shipped,
                solo_history,
                applied_through,
            ).ok(),
            None => None,
        }
    }

    /// What a scan learns from `key`: the cookie of a directory scan entry, or the
    /// inode of a tombstone or orphan entry.
    pub fn parse_key(&self, key: &[u8]) -> (parsed: ParsedKey)
        ensures
            parsed == parsed_key(key@),
    {
        let kind = match self.peek_kind(key) {
            Some(kind) => kind,
            None => {
                return ParsedKey::Unknown;
            },
        };
        let id_offset: usize = self.id_offset(kind);
        match kind {
            KeyPrefix::DirScan => {
                let expected: usize = id_offset + U64_SIZE * 2;
                if key.len() != expected {
                    return ParsedKey::Unknown;
                }
                ParsedKey::DirScan { cookie: get_be(key, id_offset + U64_SIZE, U64_SIZE) }
            },
            KeyPrefix::Tombstone => {
                if key.len() != self.tombstone_key_size() {
                    return ParsedKey::Unknown;
                }
                ParsedKey::Tombstone { inode_id: get_be(key, id_offset + U64_SIZE, U64_SIZE) }
            },
            KeyPrefix::Orphan => {
                if key.len() != self.orphan_key_size() {
                    return ParsedKey::Unknown;
                }
                ParsedKey::Orphan { inode_id: get_be(key, id_offset, U64_SIZE) }
            },
            _ => ParsedKey::Unknown,
        }
    }

    /// Decode the kind byte from a stored key. Returns `None` if the key is too
    /// short, lacks the expected domain prefix, or carries a kind byte that is not
    /// recognized in its domain.
    pub fn peek_kind(&self, key: &[u8]) -> (kind: Option<KeyPrefix>)
        ensures
            kind == key_kind(key@),
    {
        if starts_with(key, &EXTENT_DOMAIN) {
            if key.len() <= EXTENT_DOMAIN.len() {
                return None;
            }
            return match KeyPrefix::try_from(key[EXTENT_DOMAIN.len()]) {
                Ok(kind) => if kind == KeyPrefix::Extent {
                    Some(kind)
                } else {
                    None
                },
                Err(_) => None,
            };
        }
        if starts_with(key, &META_DOMAIN) {
            if key.len() <= META_DOMAIN.len() {
                return None;
            }
            return match KeyPrefix::try_from(key[META_DOMAIN.len()]) {
                Ok(kind) => if kind != KeyPrefix::Extent {
                    Some(kind)
                } else {
                    None
                },
                Err(_) => None,
            };
        }
        None
    }

    /// The row of an export binding that `key` names, if it names one: an extent, an
    /// inode, or a directory entry with a name.
    pub fn parse_export_binding_metadata_key(&self, key: &Bytes) -> (result: Option<
        ExportBindingMetadataKey,
    >)
        ensures
            ({
                let bytes = contents(*key);
                if is_pair_key(KeyPrefix::Extent, bytes) {
                    result matches Some(ExportBindingMetadataKey::Extent(inode)) && inode
                        == pair_key_first(KeyPrefix::Extent, bytes)
                } else if begins_with(bytes, prefix_bytes(KeyPrefix::Inode)) && bytes.len() == 13 {
                    result matches Some(ExportBindingMetadataKey::Inode(inode)) && inode
                        == be_value(bytes.subrange(5, 13))
                } else if begins_with(bytes, prefix_bytes(KeyPrefix::DirEntry)) && bytes.len()
                    > 13 {
                    result matches Some(
                        ExportBindingMetadataKey::DirectoryEntry { directory_inode, name },
                    ) && directory_inode == be_value(bytes.subrange(5, 13)) && contents(name)
                        == bytes.skip(13)
                } else {
                    result is None
                }
            }),
    {
        let bytes = bytes_slice(key);
        if let Some((inode, _)) = self.parse_extent_key_full(bytes) {
            return Some(ExportBindingMetadataKey::Extent(inode));
        }
        let kind_offset: usize = META_DOMAIN.len();
        let id_offset: usize = kind_offset + 1;
        proof {
            if bytes@.len() >= 5 {
                assert(bytes@.subrange(0, 5) =~= bytes@.subrange(0, 4).push(bytes@[4]));
                assert(prefix_bytes(KeyPrefix::Inode).drop_last() =~= META_DOMAIN@);
                assert(prefix_bytes(KeyPrefix::DirEntry).drop_last() =~= META_DOMAIN@);
                assert(bytes@.subrange(0, 5).drop_last() =~= bytes@.subrange(0, 4));
                assert(bytes@.subrange(0, 5).last() == bytes@[4]);
            }
        }
        if !starts_with(bytes, &META_DOMAIN) || bytes.len() < id_offset + U64_SIZE {
            return None;
        }
        let inode: u64 = get_be(bytes, id_offset, U64_SIZE);
        let kind: u8 = bytes[kind_offset];
        if kind == PREFIX_INODE && bytes.len() == id_offset + U64_SIZE {
            return Some(ExportBindingMetadataKey::Inode(inode));
        }
        if kind == PREFIX_DIR_ENTRY && bytes.len() > id_offset + U64_SIZE {
            return Some(
                ExportBindingMetadataKey::DirectoryEntry {
                    directory_inode: inode,
                    name: bytes_slice_from(key, id_offset + U64_SIZE),
                },
            );
        }
        None
    }

    pub fn encode_counter(value: u64) -> (bytes: Bytes)
        ensures
            contents(bytes) == le8(value),
    {
        Self::encode_u64(value)
    }

    pub fn decode_counter(data: &[u8]) -> (result: Result<u64, FsError>)
        ensures
            data@.len() == 8 ==> result == Ok::<u64, FsError>(le_value(data@) as u64),
            data@.len() != 8 ==> result == Err::<u64, FsError>(FsError::InvalidData),
    {
        match Self::decode_u64(data) {
            Some(value) => Ok(value),
            None => Err(FsError::InvalidData),
        }
    }

    pub fn encode_dir_entry(inode_id: InodeId, cookie: u64) -> (value: Bytes)
        ensures
            contents(value) == le8(inode_id) + le8(cookie),
    {
        let mut value: Vec<u8> = Vec::new();
        put_le(&mut value, inode_id, 8);
        put_le(&mut value, cookie, 8);
        bytes_from_vec(value)
    }

    /// The inode and cookie of a directory entry value. Bytes after them are ignored.
    pub fn decode_dir_entry(data: &[u8]) -> (result: Result<(InodeId, u64), FsError>)
        ensures
            data@.len() >= 16 ==> result == Ok::<(u64, u64), FsError>(
                (
                    le_value(data@.subrange(0, 8)) as u64,
                    le_value(data@.subrange(8, 16)) as u64,
                ),
            ),
            data@.len() < 16 ==> result == Err::<(u64, u64), FsError>(FsError::InvalidData),
    {
        if data.len() < U64_SIZE * 2 {
            return Err(FsError::InvalidData);
        }
        let inode_id: u64 = get_le(data, 0, U64_SIZE);
        let cookie: u64 = get_le(data, U64_SIZE, U64_SIZE);
        Ok((inode_id, cookie))
    }

    pub fn encode_tombstone_size(size: u64) -> (bytes: Bytes)
        ensures
            contents(bytes) == le8(size),
    {
        Self::encode_u64(size)
    }

    pub fn decode_tombstone_size(data: &[u8]) -> (result: Result<u64, FsError>)
        ensures
            data@.len() == 8 ==> result == Ok::<u64, FsError>(le_value(data@) as u64),
            data@.len() != 8 ==> result == Err::<u64, FsError>(FsError::InvalidData),
    {
        Self::decode_counter(data)
    }

    /// Half-open `[start, end)` range covering every key of `prefix`. `end` is the
    /// prefix bytes with the kind byte's successor, so the range stays within the
    /// domain segment.
    pub fn prefix_range(&self, prefix: KeyPrefix) -> (range: (Bytes, Bytes))
        ensures
            contents(range.0) == prefix_bytes(prefix),
            contents(range.1) == prefix_end(prefix),
    {
        let start = self.prefixed(prefix);
        let mut end: Vec<u8> = Vec::new();
        match prefix {
            KeyPrefix::Extent => put_bytes(&mut end, &EXTENT_DOMAIN),
            _ => put_bytes(&mut end, &META_DOMAIN),
        }
        end.push(u8::from(prefix) + 1);
        assert(end@ =~= prefix_end(prefix));
        (bytes_from_vec(start), bytes_from_vec(end))
    }
}

/// The bytes at which the range of keys of `prefix` ends.
pub open spec fn prefix_end(prefix: KeyPrefix) -> Seq<u8> {
    domain_of(prefix).push((kind_byte(prefix) + 1) as u8)
}

/// `key` is a key of `prefix` with two numeric identifiers.
pub open spec fn is_pair_key(prefix: KeyPrefix, key: Seq<u8>) -> bool {
    key.len() == prefix_bytes(prefix).len() + 16 && begins_with(key, prefix_bytes(prefix))
}

pub open spec fn pair_key_first(prefix: KeyPrefix, key: Seq<u8>) -> u64 {
    let at = prefix_bytes(prefix).len() as int;
    be_value(key.subrange(at, at + 8)) as u64
}

pub open spec fn pair_key_second(prefix: KeyPrefix, key: Seq<u8>) -> u64 {
    let at = prefix_bytes(prefix).len() as int;
    be_value(key.subrange(at + 8, at + 16)) as u64
}

/// What a scan learns from `key`.
pub open spec fn parsed_key(key: Seq<u8>) -> ParsedKey {
    match key_kind(key) {
        Some(KeyPrefix::DirScan) if key.len() == 21 => ParsedKey::DirScan {
            cookie: be_value(key.subrange(13, 21)) as u64,
        },
        Some(KeyPrefix::Tombstone) if key.len() == 21 => ParsedKey::Tombstone {
            inode_id: be_value(key.subrange(13, 21)) as u64,
        },
        Some(KeyPrefix::Orphan) if key.len() == 13 => ParsedKey::Orphan {
            inode_id: be_value(key.subrange(5, 13)) as u64,
        },
        _ => ParsedKey::Unknown,
    }
}

/// A stamp as five little-endian numbers.
pub open spec fn ha_stamp_bytes(stamp: HaStampModel) -> Seq<u8> {
    le8(stamp.epoch) + le8(stamp.shipped) + le8(stamp.solo) + le8(stamp.applied) + le8(
        if stamp.ran_solo { 1 } else { 0 },
    )
}

/// The `i`-th little-endian eight-byte number of `data`.
pub open spec fn word(data: Seq<u8>, i: int) -> u64 {
    le_value(data.subrange(8 * i, 8 * i + 8)) as u64
}

/// The stamp that `data` encodes, in the current or an earlier layout, if it is a
/// valid one.
pub open spec fn ha_stamp_of(data: Seq<u8>) -> Option<HaStampModel> {
    let stamp = if data.len() == 16 || data.len() == 24 {
        HaStampModel {
            epoch: word(data, 0),
            shipped: word(data, 1),
            solo: if data.len() == 24 { word(data, 2) } else { 0 },
            applied: word(data, 1),
            ran_solo: true,
        }
    } else {
        HaStampModel {
            epoch: word(data, 0),
            shipped: word(data, 1),
            solo: word(data, 2),
            applied: word(data, 3),
            ran_solo: word(data, 4) == 1,
        }
    };
    let known_layout = data.len() == 16 || data.len() == 24 || (data.len() == 40 && word(data, 4)
        <= 1);
    if known_layout && stamp.valid() {
        Some(stamp)
    } else {
        None
    }
}

} // verus!
