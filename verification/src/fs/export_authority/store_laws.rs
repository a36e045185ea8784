//! Under which keys records, outcomes and bindings are stored, in which form, and which of
//! them are read back.

use super::mutation::mutation_outcome_key;
use super::mutation::outcome_key;
use super::mutation::validate_outcome;
use super::records::accept_outcome;
use super::records::accept_record;
use super::records::accept_reverse_binding;
use super::records::decode_bound_record;
use super::records::encode_bound_record;
use super::records::encode_outcome;
use super::records::encode_record;
use super::records::encode_reverse_binding;
use super::records::export_envelope;
use super::records::fits_record;
use super::records::open_outcome;
use super::records::open_record;
use super::records::open_reverse_binding;
use super::records::reverse_binding_for;
use super::records::reverse_binding_keys;
use super::records::AUTHORITY_RECORD_MAGIC;
use super::records::MUTATION_OUTCOME_MAGIC;
use super::records::REVERSE_BINDING_MAGIC;
use super::rules::validate_record;
use super::rules::validate_reverse_binding;
use super::types::ExportAuthorityError;
use super::types::ExportAuthorityRecord;
use super::types::ExportMutationExpectation;
use super::types::ExportMutationOutcome;
use super::types::ExportReverseBinding;
use crate::fs::envelope::envelope;
use crate::fs::envelope_laws::binds;
use crate::fs::envelope_laws::lemma_binds;
use crate::fs::layout_laws::eight;
use crate::fs::layout_laws::is_short;
use crate::fs::layout_laws::lemma_eight;
use crate::fs::layout_laws::lemma_session_part;
use crate::fs::layout_laws::lemma_store_head;
use crate::fs::layout_laws::lemma_with_length;
use crate::fs::layout_laws::session_part;
use crate::fs::layout_laws::store_head;
use crate::fs::layout_laws::text_with_length;
use crate::fs::layout_laws::with_length;
use crate::outside::contents;
use bytes::Bytes;
use vstd::prelude::*;
use vstd::utf8::encode_utf8;

verus! {

/// `bytes` binds `payload` to `key` as the authority binds its records.
pub open spec fn is_record(bytes: Seq<u8>, magic: Seq<u8>, key: Seq<u8>, payload: Seq<u8>) -> bool {
    binds(bytes, magic, 2, "rhizome.export-record-envelope.v1\0"@, key, payload)
}

/// `result` stores a payload of at most 64 KiB, and says of a longer one that it is corrupt.
pub open spec fn stores(
    result: Result<Bytes, ExportAuthorityError>,
    magic: Seq<u8>,
    key: Seq<u8>,
    payload: Seq<u8>,
) -> bool {
    match result {
        Ok(bytes) => payload.len() <= 0x1_0000 && is_record(contents(bytes), magic, key, payload),
        Err(e) => payload.len() > 0x1_0000 && e == ExportAuthorityError::Corrupt,
    }
}

/// `result` is the payload that `bytes` binds to `key`, or says that there is none: not even
/// `other`.
pub open spec fn finds(
    result: Result<&[u8], ExportAuthorityError>,
    magic: Seq<u8>,
    key: Seq<u8>,
    bytes: Seq<u8>,
    other: Seq<u8>,
) -> bool {
    match result {
        Ok(payload) => payload@.len() <= 0x1_0000 && is_record(bytes, magic, key, payload@),
        Err(e) => e == ExportAuthorityError::Corrupt && (other.len() <= 0x1_0000 ==> !is_record(
            bytes,
            magic,
            key,
            other,
        )),
    }
}

proof fn lemma_stores(
    result: Result<Bytes, ExportAuthorityError>,
    magic: [u8; 4],
    key: Seq<u8>,
    payload: Seq<u8>,
)
    requires
        super::records::is_sealed(result, magic, key, payload),
    ensures
        stores(result, magic@, key, payload),
{
    match result {
        Ok(bytes) => lemma_binds(contents(bytes), export_envelope(magic), key, payload),
        Err(_) => {},
    }
}

proof fn lemma_finds(
    result: Result<&[u8], ExportAuthorityError>,
    magic: [u8; 4],
    key: Seq<u8>,
    bytes: Seq<u8>,
    other: Seq<u8>,
)
    requires
        super::records::is_opened(result, magic, key, bytes),
    ensures
        finds(result, magic@, key, bytes, other),
{
    if fits_record(other) {
        lemma_binds(bytes, export_envelope(magic), key, other);
    }
    match result {
        Ok(payload) => lemma_binds(bytes, export_envelope(magic), key, payload@),
        Err(_) => {
            if fits_record(other) {
                assert(bytes != envelope(export_envelope(magic), key, other));
            }
        },
    }
}

/// A payload is stored bound to its key, and found only where it was bound.
pub proof fn law_bound_records(
    magic: &[u8; 4],
    key: &[u8],
    payload: &[u8],
    stored: Result<Bytes, ExportAuthorityError>,
    bytes: &[u8],
    found: Result<&[u8], ExportAuthorityError>,
    other: Seq<u8>,
)
    requires
        call_ensures(encode_bound_record, (magic, key, payload), stored),
        call_ensures(decode_bound_record, (magic, key, bytes), found),
    ensures
        stores(stored, magic@, key@, payload@),
        finds(found, magic@, key@, bytes@, other),
{
    lemma_stores(stored, *magic, key@, payload@);
    lemma_finds(found, *magic, key@, bytes@, other);
}

/// `"RAUT"`.
pub open spec fn record_magic() -> Seq<u8> {
    seq![0x52u8, 0x41u8, 0x55u8, 0x54u8]
}

/// `"RMUT"`.
pub open spec fn outcome_magic() -> Seq<u8> {
    seq![0x52u8, 0x4du8, 0x55u8, 0x54u8]
}

/// `"RBND"`.
pub open spec fn binding_magic() -> Seq<u8> {
    seq![0x52u8, 0x42u8, 0x4eu8, 0x44u8]
}

proof fn lemma_magics()
    ensures
        AUTHORITY_RECORD_MAGIC@ == record_magic(),
        MUTATION_OUTCOME_MAGIC@ == outcome_magic(),
        REVERSE_BINDING_MAGIC@ == binding_magic(),
{
    assert(AUTHORITY_RECORD_MAGIC@ =~= record_magic());
    assert(MUTATION_OUTCOME_MAGIC@ =~= outcome_magic());
    assert(REVERSE_BINDING_MAGIC@ =~= binding_magic());
}

/// The key of a workspace's record.
pub open spec fn record_key(workspace_id: Seq<char>) -> Seq<u8> {
    store_head(1) + text_with_length(workspace_id)
}

/// A record is stored if it is valid, under the key of its workspace; one that is not valid
/// is refused for the fault that it has.
pub proof fn law_record_is_stored_for_its_workspace(
    record: &ExportAuthorityRecord,
    valid: Result<(), ExportAuthorityError>,
    payload: &[u8],
    stored: Result<Bytes, ExportAuthorityError>,
)
    requires
        is_short(record.workspace_id@),
        call_ensures(validate_record, (record,), valid),
        call_ensures(encode_record, (record, payload), stored),
    ensures
        match valid {
            Ok(_) => stores(stored, record_magic(), record_key(record.workspace_id@), payload@),
            Err(fault) => stored == Err::<Bytes, ExportAuthorityError>(fault),
        },
{
    lemma_magics();
    lemma_store_head();
    lemma_with_length(encode_utf8(record.workspace_id@));
    if valid is Ok {
        lemma_stores(
            stored,
            AUTHORITY_RECORD_MAGIC,
            crate::fs::key_codec::export_authority_key_bytes(record.workspace_id@),
            payload@,
        );
    }
}

/// A record is looked for under the key of its workspace.
pub proof fn law_record_is_found_for_its_workspace(
    bytes: &[u8],
    workspace_id: &str,
    found: Result<&[u8], ExportAuthorityError>,
    other: Seq<u8>,
)
    requires
        is_short(workspace_id@),
        call_ensures(open_record, (bytes, workspace_id), found),
    ensures
        finds(found, record_magic(), record_key(workspace_id@), bytes@, other),
{
    lemma_magics();
    lemma_store_head();
    lemma_with_length(encode_utf8(workspace_id@));
    lemma_finds(
        found,
        AUTHORITY_RECORD_MAGIC,
        crate::fs::key_codec::export_authority_key_bytes(workspace_id@),
        bytes@,
        other,
    );
}

/// What was read is accepted as it is if it is valid and names the workspace it was read for.
/// A record of another workspace is corrupt.
pub proof fn law_read_record_is_of_its_workspace(
    record: ExportAuthorityRecord,
    valid: Result<(), ExportAuthorityError>,
    workspace_id: &str,
    accepted: Result<ExportAuthorityRecord, ExportAuthorityError>,
)
    requires
        call_ensures(validate_record, (&record,), valid),
        call_ensures(accept_record, (record, workspace_id), accepted),
    ensures
        match accepted {
            Ok(read) => valid is Ok && record.workspace_id@ == workspace_id@ && read@ == record@,
            Err(e) => match valid {
                Ok(_) => record.workspace_id@ != workspace_id@ && e
                    == ExportAuthorityError::Corrupt,
                Err(fault) => e == fault,
            },
        },
{
}

/// The key of an outcome names the session, with the epoch of its placement, and the
/// operation.
pub proof fn law_outcome_keys_name_the_operation(
    outcome: &ExportMutationOutcome,
    stored: Bytes,
    expected: &ExportMutationExpectation,
    sought: Bytes,
)
    requires
        is_short(outcome.workspace_id@),
        is_short(outcome.authority.actor@),
        is_short(outcome.session_id@),
        is_short(outcome.server_boot_id@),
        is_short(expected.workspace_id@),
        is_short(expected.authority.actor@),
        is_short(expected.session_id@),
        is_short(expected.server_boot_id@),
        call_ensures(outcome_key, (outcome,), stored),
        call_ensures(mutation_outcome_key, (expected,), sought),
    ensures
        contents(stored) == store_head(2) + session_part(
            outcome.workspace_id@,
            outcome.authority.actor@,
            outcome.authority.actor_generation,
            outcome.authority.placement_epoch,
            outcome.session_id@,
            outcome.server_boot_id@,
        ) + outcome.mutation.operation_id.0@,
        contents(sought) == store_head(2) + session_part(
            expected.workspace_id@,
            expected.authority.actor@,
            expected.authority.actor_generation,
            expected.authority.placement_epoch,
            expected.session_id@,
            expected.server_boot_id@,
        ) + expected.mutation.operation_id.0@,
{
    lemma_store_head();
    lemma_session_part(
        outcome.workspace_id@,
        outcome.authority.actor@,
        outcome.authority.actor_generation,
        outcome.authority.placement_epoch,
        outcome.session_id@,
        outcome.server_boot_id@,
    );
    lemma_session_part(
        expected.workspace_id@,
        expected.authority.actor@,
        expected.authority.actor_generation,
        expected.authority.placement_epoch,
        expected.session_id@,
        expected.server_boot_id@,
    );
}

/// An outcome is stored if it is valid, under its own key, and looked for under the key of
/// what is expected.
pub proof fn law_outcome_is_stored_under_its_key(
    outcome: &ExportMutationOutcome,
    valid: Result<(), ExportAuthorityError>,
    key: Bytes,
    payload: &[u8],
    stored: Result<Bytes, ExportAuthorityError>,
)
    requires
        call_ensures(validate_outcome, (outcome,), valid),
        call_ensures(outcome_key, (outcome,), key),
        call_ensures(encode_outcome, (outcome, payload), stored),
    ensures
        match valid {
            Ok(_) => stores(stored, outcome_magic(), contents(key), payload@),
            Err(fault) => stored == Err::<Bytes, ExportAuthorityError>(fault),
        },
{
    lemma_magics();
    if valid is Ok {
        lemma_stores(stored, MUTATION_OUTCOME_MAGIC, contents(key), payload@);
    }
}

/// An outcome is looked for under the key of what is expected.
pub proof fn law_outcome_is_found_under_the_expected_key(
    bytes: &[u8],
    expected: &ExportMutationExpectation,
    key: Bytes,
    found: Result<&[u8], ExportAuthorityError>,
    other: Seq<u8>,
)
    requires
        call_ensures(mutation_outcome_key, (expected,), key),
        call_ensures(open_outcome, (bytes, expected), found),
    ensures
        finds(found, outcome_magic(), contents(key), bytes@, other),
{
    lemma_magics();
    lemma_finds(found, MUTATION_OUTCOME_MAGIC, contents(key), bytes@, other);
}

/// What was read is accepted as it is if it is valid and is of the workspace, the session and
/// the operation expected; any other is corrupt.
pub proof fn law_read_outcome_is_the_expected_one(
    outcome: ExportMutationOutcome,
    valid: Result<(), ExportAuthorityError>,
    expected: &ExportMutationExpectation,
    accepted: Result<ExportMutationOutcome, ExportAuthorityError>,
)
    requires
        call_ensures(validate_outcome, (&outcome,), valid),
        call_ensures(accept_outcome, (outcome, expected), accepted),
    ensures
        ({
            let in_place = outcome.workspace_id@ == expected.workspace_id@ && outcome.session_id@
                == expected.session_id@ && outcome.mutation.operation_id.0@
                == expected.mutation.operation_id.0@;
            match accepted {
                Ok(read) => valid is Ok && in_place && read@ == outcome@,
                Err(e) => match valid {
                    Ok(_) => !in_place && e == ExportAuthorityError::Corrupt,
                    Err(fault) => e == fault,
                },
            }
        }),
{
}

/// The rows by which an export is found say whose it is: the workspace, the actor with its
/// generation, and the export.
pub proof fn law_binding_is_of_its_record(
    record: &ExportAuthorityRecord,
    binding: ExportReverseBinding,
)
    requires
        call_ensures(reverse_binding_for, (record,), binding),
    ensures
        binding.workspace_id@ == record.workspace_id@,
        binding.actor@ == record.authority.actor@,
        binding.actor_generation == record.authority.actor_generation,
        binding.export@ == record.export@,
{
}

/// An export is found by its directory and name, and by its inode.
pub proof fn law_binding_has_two_keys(binding: &ExportReverseBinding, keys: (Bytes, Bytes))
    requires
        binding.export.name@.len() <= 0xFFFF,
        call_ensures(reverse_binding_keys, (binding,), keys),
    ensures
        contents(keys.0) == store_head(3) + eight(binding.export.nbd_directory_inode)
            + with_length(binding.export.name@),
        contents(keys.1) == store_head(4) + eight(binding.export.inode),
{
    lemma_store_head();
    lemma_eight(binding.export.nbd_directory_inode);
    lemma_eight(binding.export.inode);
    lemma_with_length(binding.export.name@);
}

/// A binding is stored if it is valid, and only under one of its own keys.
pub proof fn law_binding_is_stored_under_its_keys(
    binding: &ExportReverseBinding,
    valid: Result<(), ExportAuthorityError>,
    keys: (Bytes, Bytes),
    key: &Bytes,
    payload: &[u8],
    stored: Result<Bytes, ExportAuthorityError>,
)
    requires
        call_ensures(validate_reverse_binding, (binding,), valid),
        call_ensures(reverse_binding_keys, (binding,), keys),
        call_ensures(encode_reverse_binding, (binding, key, payload), stored),
    ensures
        match valid {
            Ok(_) => if contents(*key) == contents(keys.0) || contents(*key) == contents(keys.1) {
                stores(stored, binding_magic(), contents(*key), payload@)
            } else {
                stored == Err::<Bytes, ExportAuthorityError>(ExportAuthorityError::Corrupt)
            },
            Err(fault) => stored == Err::<Bytes, ExportAuthorityError>(fault),
        },
{
    lemma_magics();
    if valid is Ok && (contents(*key) == contents(keys.0) || contents(*key) == contents(keys.1)) {
        lemma_stores(stored, REVERSE_BINDING_MAGIC, contents(*key), payload@);
    }
}

/// A binding is looked for under the key that is asked for, and accepted as it is if it is
/// valid and that key is its own.
pub proof fn law_binding_is_read_under_its_keys(
    bytes: &[u8],
    key: &Bytes,
    found: Result<&[u8], ExportAuthorityError>,
    other: Seq<u8>,
    binding: ExportReverseBinding,
    valid: Result<(), ExportAuthorityError>,
    keys: (Bytes, Bytes),
    accepted: Result<ExportReverseBinding, ExportAuthorityError>,
)
    requires
        call_ensures(open_reverse_binding, (bytes, key), found),
        call_ensures(validate_reverse_binding, (&binding,), valid),
        call_ensures(reverse_binding_keys, (&binding,), keys),
        call_ensures(accept_reverse_binding, (binding, key), accepted),
    ensures
        finds(found, binding_magic(), contents(*key), bytes@, other),
        ({
            let own = contents(*key) == contents(keys.0) || contents(*key) == contents(keys.1);
            match accepted {
                Ok(read) => valid is Ok && own && read@ == binding@,
                Err(e) => match valid {
                    Ok(_) => !own && e == ExportAuthorityError::Corrupt,
                    Err(fault) => e == fault,
                },
            }
        }),
{
    lemma_magics();
    lemma_finds(found, REVERSE_BINDING_MAGIC, contents(*key), bytes@, other);
}

} // verus!
