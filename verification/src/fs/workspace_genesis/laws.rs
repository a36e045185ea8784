//! What holds of genesis records as a whole.

use super::codec::genesis_envelope;
use super::codec::genesis_payload;
use super::codec::law_payload_holds_one_record;
use super::codec::lemma_object_key_len;
use super::codec::sized;
use super::codec::stores_genesis;
use super::codec::valid_genesis;
use super::store::planned_record;
use super::store::valid_command;
use super::types::GenesisCommandModel;
use super::types::GenesisDomainRecordModel;
use crate::fs::envelope::envelope;
use crate::fs::envelope::lemma_envelope_layout;
use crate::fs::export_authority::types::ExportIdentityModel;
use crate::fs::key_codec::workspace_genesis_key_bytes;
use crate::wire::lemma_be_bytes_len;
use vstd::prelude::*;

verus! {

broadcast use lemma_be_bytes_len;

/// A valid record that was encoded under its key is what decoding finds there, and the
/// only one.
pub proof fn law_genesis_roundtrips(
    record: GenesisDomainRecordModel,
    other: GenesisDomainRecordModel,
)
    requires
        sized(record),
        valid_genesis(record),
    ensures
        ({
            let key = workspace_genesis_key_bytes(record.workspace_id);
            let bytes = envelope(genesis_envelope(), key, genesis_payload(record));
            &&& stores_genesis(key, bytes, record)
            &&& stores_genesis(key, bytes, other) ==> other == record
        }),
{
    let key = workspace_genesis_key_bytes(record.workspace_id);
    let bytes = envelope(genesis_envelope(), key, genesis_payload(record));
    if stores_genesis(key, bytes, other) {
        lemma_same_payload(key, key, record, other);
    }
}

pub(crate) proof fn lemma_same_payload(
    key: Seq<u8>,
    other_key: Seq<u8>,
    record: GenesisDomainRecordModel,
    other: GenesisDomainRecordModel,
)
    requires
        sized(record),
        valid_genesis(record),
        stores_genesis(
            other_key,
            envelope(genesis_envelope(), key, genesis_payload(record)),
            other,
        ),
    ensures
        other == record,
{
    lemma_object_key_len(record.root_digest);
    lemma_object_key_len(other.root_digest);
    lemma_envelope_layout(genesis_envelope(), key, genesis_payload(record));
    lemma_envelope_layout(genesis_envelope(), other_key, genesis_payload(other));
    law_payload_holds_one_record(record, other);
}

/// A record copied to another key is corrupt there.
pub proof fn law_copied_genesis_is_corrupt(
    record: GenesisDomainRecordModel,
    other_key: Seq<u8>,
    other: GenesisDomainRecordModel,
)
    requires
        sized(record),
        valid_genesis(record),
        other_key != workspace_genesis_key_bytes(record.workspace_id),
    ensures
        !stores_genesis(
            other_key,
            envelope(
                genesis_envelope(),
                workspace_genesis_key_bytes(record.workspace_id),
                genesis_payload(record),
            ),
            other,
        ),
{
    let key = workspace_genesis_key_bytes(record.workspace_id);
    let bytes = envelope(genesis_envelope(), key, genesis_payload(record));
    if stores_genesis(other_key, bytes, other) {
        lemma_same_payload(key, other_key, record, other);
    }
}

/// A record with bytes added behind it is corrupt.
pub proof fn law_extended_genesis_is_corrupt(
    record: GenesisDomainRecordModel,
    tail: Seq<u8>,
    other: GenesisDomainRecordModel,
)
    requires
        sized(record),
        valid_genesis(record),
        tail.len() > 0,
    ensures
        ({
            let key = workspace_genesis_key_bytes(record.workspace_id);
            !stores_genesis(
                key,
                envelope(genesis_envelope(), key, genesis_payload(record)) + tail,
                other,
            )
        }),
{
    let key = workspace_genesis_key_bytes(record.workspace_id);
    let bytes = envelope(genesis_envelope(), key, genesis_payload(record));
    if stores_genesis(key, bytes + tail, other) {
        lemma_object_key_len(record.root_digest);
        lemma_object_key_len(other.root_digest);
        lemma_envelope_layout(genesis_envelope(), key, genesis_payload(record));
        lemma_envelope_layout(genesis_envelope(), key, genesis_payload(other));
        assert((bytes + tail).subrange(37, 41) =~= bytes.subrange(37, 41));
    }
}

/// What a valid command plans becomes a valid record once its export has inodes, so a
/// committed genesis can always be stored and read.
pub proof fn law_planned_record_becomes_valid(
    command: GenesisCommandModel,
    nbd_directory_inode: u64,
    inode: u64,
)
    requires
        valid_command(command),
        nbd_directory_inode != 0,
        inode != 0,
    ensures
        valid_genesis(
            GenesisDomainRecordModel {
                export: ExportIdentityModel {
                    nbd_directory_inode,
                    inode,
                    ..planned_record(command).export
                },
                ..planned_record(command)
            },
        ),
{
}

} // verus!
