//! What is read back of records, outcomes and reverse bindings that were stored.
//!
//! Here `parse` turns a payload into a value where it can. The laws hold for any
//! way to do so that gives a value back from the payload it was stored with.

use super::mutation::expected_key;
use super::mutation::fulfils;
use super::mutation::stored_key;
use super::mutation::valid_outcome;
use super::records::accepted_binding;
use super::records::accepted_outcome;
use super::records::accepted_record;
use super::records::export_envelope;
use super::records::fits_record;
use super::records::inode_key_of;
use super::records::is_opened;
use super::records::name_key_of;
use super::records::AUTHORITY_RECORD_MAGIC;
use super::records::MUTATION_OUTCOME_MAGIC;
use super::records::REVERSE_BINDING_MAGIC;
use super::rules::valid_record;
use super::rules::valid_reverse_binding;
use super::types::ExportAuthorityError;
use super::types::ExportAuthorityRecordModel;
use super::types::ExportMutationExpectationModel;
use super::types::ExportMutationOutcomeModel;
use super::types::ExportReverseBindingModel;
use crate::fs::envelope::envelope;
use crate::fs::envelope::law_envelope_holds_one_payload;
use crate::fs::envelope::law_envelope_is_bound_to_its_key;
use crate::fs::envelope::no_collision;
use crate::fs::key_codec::export_authority_key_bytes;
use crate::fs::key_codec::fits16;
use crate::fs::key_laws::law_authority_keys_are_distinct;
use vstd::prelude::*;

verus! {

/// `bytes` is the envelope of `payload` for `key`.
pub open spec fn holds(magic: [u8; 4], key: Seq<u8>, bytes: Seq<u8>, payload: Seq<u8>) -> bool {
    fits_record(payload) && bytes == envelope(export_envelope(magic), key, payload)
}

/// The payload that is opened under `key`, if there is one.
pub open spec fn payload_of(magic: [u8; 4], key: Seq<u8>, bytes: Seq<u8>) -> Option<Seq<u8>> {
    if exists|payload: Seq<u8>| holds(magic, key, bytes, payload) {
        Some(choose|payload: Seq<u8>| holds(magic, key, bytes, payload))
    } else {
        None
    }
}

/// What is read back for a workspace: the payload is opened, parsed and accepted.
pub open spec fn decoded_record(
    parse: spec_fn(Seq<u8>) -> Option<ExportAuthorityRecordModel>,
    bytes: Seq<u8>,
    workspace_id: Seq<char>,
) -> Result<ExportAuthorityRecordModel, ExportAuthorityError> {
    match payload_of(AUTHORITY_RECORD_MAGIC, export_authority_key_bytes(workspace_id), bytes) {
        Some(payload) => match parse(payload) {
            Some(record) => accepted_record(record, workspace_id),
            None => Err(ExportAuthorityError::Corrupt),
        },
        None => Err(ExportAuthorityError::Corrupt),
    }
}

/// What is read back where an outcome is expected.
pub open spec fn decoded_outcome(
    parse: spec_fn(Seq<u8>) -> Option<ExportMutationOutcomeModel>,
    bytes: Seq<u8>,
    expected: ExportMutationExpectationModel,
) -> Result<ExportMutationOutcomeModel, ExportAuthorityError> {
    match payload_of(MUTATION_OUTCOME_MAGIC, expected_key(expected), bytes) {
        Some(payload) => match parse(payload) {
            Some(outcome) => accepted_outcome(outcome, expected),
            None => Err(ExportAuthorityError::Corrupt),
        },
        None => Err(ExportAuthorityError::Corrupt),
    }
}

/// What is read back of a reverse binding under `key`.
pub open spec fn decoded_binding(
    parse: spec_fn(Seq<u8>) -> Option<ExportReverseBindingModel>,
    bytes: Seq<u8>,
    key: Seq<u8>,
) -> Result<ExportReverseBindingModel, ExportAuthorityError> {
    match payload_of(REVERSE_BINDING_MAGIC, key, bytes) {
        Some(payload) => match parse(payload) {
            Some(binding) => accepted_binding(binding, key),
            None => Err(ExportAuthorityError::Corrupt),
        },
        None => Err(ExportAuthorityError::Corrupt),
    }
}

proof fn lemma_payload_of(magic: [u8; 4], key: Seq<u8>, payload: Seq<u8>)
    requires
        fits_record(payload),
    ensures
        payload_of(magic, key, envelope(export_envelope(magic), key, payload)) == Some(payload),
{
    let bytes = envelope(export_envelope(magic), key, payload);
    assert(holds(magic, key, bytes, payload));
    let found = choose|found: Seq<u8>| holds(magic, key, bytes, found);
    law_envelope_holds_one_payload(export_envelope(magic), key, found, payload);
}

proof fn lemma_no_payload_of(magic: [u8; 4], key: Seq<u8>, other: Seq<u8>, payload: Seq<u8>)
    requires
        fits_record(payload),
        key != other,
        no_collision(key, other),
    ensures
        payload_of(magic, other, envelope(export_envelope(magic), key, payload)) is None,
{
    law_envelope_is_bound_to_its_key(export_envelope(magic), key, other, payload);
}

/// What is opened under a key is the one payload that is bound to it.
pub proof fn law_opened_payload_is_the_one_bound(
    opened: Result<&[u8], ExportAuthorityError>,
    magic: [u8; 4],
    key: Seq<u8>,
    bytes: Seq<u8>,
)
    requires
        is_opened(opened, magic, key, bytes),
    ensures
        match opened {
            Ok(payload) => payload_of(magic, key, bytes) == Some(payload@),
            Err(_) => payload_of(magic, key, bytes) is None,
        },
{
    if let Ok(payload) = opened {
        lemma_payload_of(magic, key, payload@);
    }
}

/// A record that was stored is read back, and nothing else is. Copied under the key of
/// another workspace it is corrupt, however it is parsed there.
pub proof fn law_record_is_read_back(
    record: ExportAuthorityRecordModel,
    payload: Seq<u8>,
    parse: spec_fn(Seq<u8>) -> Option<ExportAuthorityRecordModel>,
    other_parse: spec_fn(Seq<u8>) -> Option<ExportAuthorityRecordModel>,
    other: Seq<char>,
)
    requires
        valid_record(record),
        fits_record(payload),
        parse(payload) == Some(record),
        fits16(other),
        no_collision(
            export_authority_key_bytes(record.workspace_id),
            export_authority_key_bytes(other),
        ),
    ensures
        ({
            let bytes = envelope(
                export_envelope(AUTHORITY_RECORD_MAGIC),
                export_authority_key_bytes(record.workspace_id),
                payload,
            );
            &&& decoded_record(parse, bytes, record.workspace_id) == Ok::<
                ExportAuthorityRecordModel,
                ExportAuthorityError,
            >(record)
            &&& other != record.workspace_id ==> decoded_record(other_parse, bytes, other) == Err::<
                ExportAuthorityRecordModel,
                ExportAuthorityError,
            >(ExportAuthorityError::Corrupt)
        }),
{
    let key = export_authority_key_bytes(record.workspace_id);
    let other_key = export_authority_key_bytes(other);
    lemma_payload_of(AUTHORITY_RECORD_MAGIC, key, payload);
    if other != record.workspace_id {
        if key == other_key {
            law_authority_keys_are_distinct(record.workspace_id, other);
        }
        lemma_no_payload_of(AUTHORITY_RECORD_MAGIC, key, other_key, payload);
    }
}

/// An outcome that was stored is read back wherever it is expected. Copied under the key
/// of another expectation it is corrupt.
pub proof fn law_outcome_is_read_back(
    outcome: ExportMutationOutcomeModel,
    payload: Seq<u8>,
    parse: spec_fn(Seq<u8>) -> Option<ExportMutationOutcomeModel>,
    other_parse: spec_fn(Seq<u8>) -> Option<ExportMutationOutcomeModel>,
    expected: ExportMutationExpectationModel,
    other: ExportMutationExpectationModel,
)
    requires
        valid_outcome(outcome),
        fits_record(payload),
        parse(payload) == Some(outcome),
        fulfils(outcome, expected),
        no_collision(stored_key(outcome), expected_key(other)),
    ensures
        ({
            let bytes = envelope(
                export_envelope(MUTATION_OUTCOME_MAGIC),
                stored_key(outcome),
                payload,
            );
            &&& decoded_outcome(parse, bytes, expected) == Ok::<
                ExportMutationOutcomeModel,
                ExportAuthorityError,
            >(outcome)
            &&& expected_key(other) != stored_key(outcome) ==> decoded_outcome(
                other_parse,
                bytes,
                other,
            ) == Err::<ExportMutationOutcomeModel, ExportAuthorityError>(
                ExportAuthorityError::Corrupt,
            )
        }),
{
    lemma_payload_of(MUTATION_OUTCOME_MAGIC, stored_key(outcome), payload);
    if expected_key(other) != stored_key(outcome) {
        lemma_no_payload_of(
            MUTATION_OUTCOME_MAGIC,
            stored_key(outcome),
            expected_key(other),
            payload,
        );
    }
}

/// A reverse binding that was stored under either of its keys is read back there. Copied
/// under any other key it is corrupt.
pub proof fn law_binding_is_read_back(
    binding: ExportReverseBindingModel,
    payload: Seq<u8>,
    parse: spec_fn(Seq<u8>) -> Option<ExportReverseBindingModel>,
    other_parse: spec_fn(Seq<u8>) -> Option<ExportReverseBindingModel>,
    key: Seq<u8>,
    other: Seq<u8>,
)
    requires
        valid_reverse_binding(binding),
        fits_record(payload),
        parse(payload) == Some(binding),
        key == name_key_of(binding) || key == inode_key_of(binding),
        no_collision(key, other),
    ensures
        ({
            let bytes = envelope(export_envelope(REVERSE_BINDING_MAGIC), key, payload);
            &&& decoded_binding(parse, bytes, key) == Ok::<
                ExportReverseBindingModel,
                ExportAuthorityError,
            >(binding)
            &&& other != key ==> decoded_binding(other_parse, bytes, other) == Err::<
                ExportReverseBindingModel,
                ExportAuthorityError,
            >(ExportAuthorityError::Corrupt)
        }),
{
    lemma_payload_of(REVERSE_BINDING_MAGIC, key, payload);
    if other != key {
        lemma_no_payload_of(REVERSE_BINDING_MAGIC, key, other, payload);
    }
}

} // verus!
