//! Stored authority records, mutation outcomes and reverse bindings: each is bound to
//! the key it is stored under.
//!
//! Payloads are opaque bytes here. A payload that was opened is decoded by the caller
//! and must then be accepted.

use super::mutation::expected_key;
use super::mutation::mutation_outcome_key;
use super::mutation::outcome_fault;
use super::mutation::outcome_key;
use super::mutation::stored_key;
use super::mutation::valid_outcome;
use super::mutation::validate_outcome;
use super::rules::record_fault;
use super::rules::valid_record;
use super::rules::valid_reverse_binding;
use super::rules::validate_record;
use super::rules::validate_reverse_binding;
use super::types::ExportAuthorityError;
use super::types::ExportAuthorityRecord;
use super::types::ExportAuthorityRecordModel;
use super::types::ExportMutationExpectation;
use super::types::ExportMutationExpectationModel;
use super::types::ExportMutationOutcome;
use super::types::ExportMutationOutcomeModel;
use super::types::ExportReverseBinding;
use super::types::ExportReverseBindingModel;
use crate::fs::envelope::envelope;
use crate::fs::envelope::seal;
use crate::fs::envelope::unseal;
use crate::fs::envelope::EnvelopeKind;
use crate::fs::key_codec::export_authority_key_bytes;
use crate::fs::key_codec::export_reverse_inode_key_bytes;
use crate::fs::key_codec::export_reverse_name_key_bytes;
use crate::fs::key_codec::fits16;
use crate::fs::key_codec::KeyCodec;
use crate::outside::bytes_from_vec;
use crate::outside::bytes_slice;
use crate::outside::contents;
use crate::outside::sha256;
use crate::wire::same_bytes;
use crate::wire::same_str;
use bytes::Bytes;
use vstd::prelude::*;

verus! {

/// `"RAUT"`.
pub const AUTHORITY_RECORD_MAGIC: [u8; 4] = [0x52, 0x41, 0x55, 0x54];

/// `"RMUT"`.
pub const MUTATION_OUTCOME_MAGIC: [u8; 4] = [0x52, 0x4d, 0x55, 0x54];

/// `"RBND"`.
pub const REVERSE_BINDING_MAGIC: [u8; 4] = [0x52, 0x42, 0x4e, 0x44];

/// The longest payload of a record.
pub const MAX_RECORD_PAYLOAD_BYTES: usize = 65536;

/// The envelopes of records that begin with `magic`.
pub open spec fn export_envelope(magic: [u8; 4]) -> EnvelopeKind<'static> {
    EnvelopeKind { magic, version: 2, domain: "rhizome.export-record-envelope.v1\0" }
}

/// A payload is not too long for a record.
pub open spec fn fits_record(payload: Seq<u8>) -> bool {
    payload.len() <= MAX_RECORD_PAYLOAD_BYTES
}

/// `result` holds the envelope of `payload` for `key`, or says that it is too long.
pub open spec fn is_sealed(
    result: Result<Bytes, ExportAuthorityError>,
    magic: [u8; 4],
    key: Seq<u8>,
    payload: Seq<u8>,
) -> bool {
    if fits_record(payload) {
        result matches Ok(bytes) && contents(bytes) == envelope(
            export_envelope(magic),
            key,
            payload,
        )
    } else {
        result matches Err(e) && e == ExportAuthorityError::Corrupt
    }
}

/// `result` holds the payload whose envelope for `key` is `bytes`, or says that there
/// is none.
pub open spec fn is_opened(
    result: Result<&[u8], ExportAuthorityError>,
    magic: [u8; 4],
    key: Seq<u8>,
    bytes: Seq<u8>,
) -> bool {
    match result {
        Ok(payload) => fits_record(payload@) && bytes == envelope(
            export_envelope(magic),
            key,
            payload@,
        ),
        Err(e) => e == ExportAuthorityError::Corrupt && forall|payload: Seq<u8>|
            fits_record(payload) ==> bytes != #[trigger] envelope(
                export_envelope(magic),
                key,
                payload,
            ),
    }
}

pub fn encode_bound_record(magic: &[u8; 4], key: &[u8], payload: &[u8]) -> (result: Result<
    Bytes,
    ExportAuthorityError,
>)
    ensures
        is_sealed(result, *magic, key@, payload@),
{
    if payload.len() > MAX_RECORD_PAYLOAD_BYTES {
        return Err(ExportAuthorityError::Corrupt);
    }
    let kind = EnvelopeKind {
        magic: *magic,
        version: 2,
        domain: "rhizome.export-record-envelope.v1\0",
    };
    Ok(bytes_from_vec(seal(&kind, key, payload)))
}

pub fn decode_bound_record<'a>(magic: &[u8; 4], key: &[u8], bytes: &'a [u8]) -> (result: Result<
    &'a [u8],
    ExportAuthorityError,
>)
    ensures
        is_opened(result, *magic, key@, bytes@),
{
    let kind = EnvelopeKind {
        magic: *magic,
        version: 2,
        domain: "rhizome.export-record-envelope.v1\0",
    };
    match unseal(&kind, key, bytes) {
        Some(payload) => if payload.len() > MAX_RECORD_PAYLOAD_BYTES {
            proof {
                assert forall|other: Seq<u8>| fits_record(other) implies bytes@
                    != #[trigger] envelope(export_envelope(*magic), key@, other) by {
                    crate::fs::envelope::lemma_envelope_layout(
                        export_envelope(*magic),
                        key@,
                        other,
                    );
                    crate::fs::envelope::lemma_envelope_layout(
                        export_envelope(*magic),
                        key@,
                        payload@,
                    );
                }
            }
            Err(ExportAuthorityError::Corrupt)
        } else {
            Ok(payload)
        },
        None => Err(ExportAuthorityError::Corrupt),
    }
}

/// Stores the payload of a valid record under the record's own key.
pub fn encode_record(record: &ExportAuthorityRecord, payload: &[u8]) -> (result: Result<
    Bytes,
    ExportAuthorityError,
>)
    ensures
        valid_record(record@) ==> is_sealed(
            result,
            AUTHORITY_RECORD_MAGIC,
            export_authority_key_bytes(record@.workspace_id),
            payload@,
        ),
        !valid_record(record@) ==> (result matches Err(e) && e == record_fault(record@)),
{
    validate_record(record)?;
    let key = KeyCodec::new().export_authority_key(&record.workspace_id);
    encode_bound_record(&AUTHORITY_RECORD_MAGIC, bytes_slice(&key), payload)
}

/// Stores the payload of a valid outcome under the outcome's own key.
pub fn encode_outcome(outcome: &ExportMutationOutcome, payload: &[u8]) -> (result: Result<
    Bytes,
    ExportAuthorityError,
>)
    ensures
        valid_outcome(outcome@) ==> is_sealed(
            result,
            MUTATION_OUTCOME_MAGIC,
            stored_key(outcome@),
            payload@,
        ),
        !valid_outcome(outcome@) ==> (result matches Err(e) && e == outcome_fault(outcome@)),
{
    validate_outcome(outcome)?;
    let key = outcome_key(outcome);
    encode_bound_record(&MUTATION_OUTCOME_MAGIC, bytes_slice(&key), payload)
}

/// The row by which the export of `record` is found.
pub open spec fn binding_of(record: ExportAuthorityRecordModel) -> ExportReverseBindingModel {
    ExportReverseBindingModel {
        workspace_id: record.workspace_id,
        actor: record.authority.actor,
        actor_generation: record.authority.actor_generation,
        export: record.export,
    }
}

/// The two keys of a binding: by directory and name, and by inode.
pub open spec fn name_key_of(binding: ExportReverseBindingModel) -> Seq<u8> {
    export_reverse_name_key_bytes(binding.export.nbd_directory_inode, binding.export.name)
}

pub open spec fn inode_key_of(binding: ExportReverseBindingModel) -> Seq<u8> {
    export_reverse_inode_key_bytes(binding.export.inode)
}

pub fn reverse_binding_for(record: &ExportAuthorityRecord) -> (binding: ExportReverseBinding)
    ensures
        binding@ == binding_of(record@),
{
    ExportReverseBinding {
        workspace_id: record.workspace_id.clone(),
        actor: record.authority.actor.clone(),
        actor_generation: record.authority.actor_generation,
        export: record.export.clone(),
    }
}

pub fn reverse_binding_keys(binding: &ExportReverseBinding) -> (keys: (Bytes, Bytes))
    requires
        binding@.export.name.len() <= 0xFFFF,
    ensures
        contents(keys.0) == name_key_of(binding@),
        contents(keys.1) == inode_key_of(binding@),
{
    let codec = KeyCodec::new();
    (
        codec.export_reverse_name_key(binding.export.nbd_directory_inode, &binding.export.name),
        codec.export_reverse_inode_key(binding.export.inode),
    )
}

/// Stores the payload of a valid binding under one of the binding's own keys.
pub fn encode_reverse_binding(
    binding: &ExportReverseBinding,
    key: &Bytes,
    payload: &[u8],
) -> (result: Result<Bytes, ExportAuthorityError>)
    ensures
        !valid_reverse_binding(binding@) ==> (result matches Err(e) && e
            == ExportAuthorityError::Invalid),
        valid_reverse_binding(binding@) && contents(*key) != name_key_of(binding@) && contents(*key)
            != inode_key_of(binding@) ==> (result matches Err(e) && e
            == ExportAuthorityError::Corrupt),
        valid_reverse_binding(binding@) && (contents(*key) == name_key_of(binding@) || contents(
            *key,
        ) == inode_key_of(binding@)) ==> is_sealed(
            result,
            REVERSE_BINDING_MAGIC,
            contents(*key),
            payload@,
        ),
{
    validate_reverse_binding(binding)?;
    let (name_key, inode_key) = reverse_binding_keys(binding);
    if !same_bytes(bytes_slice(key), bytes_slice(&name_key)) && !same_bytes(
        bytes_slice(key),
        bytes_slice(&inode_key),
    ) {
        return Err(ExportAuthorityError::Corrupt);
    }
    encode_bound_record(&REVERSE_BINDING_MAGIC, bytes_slice(key), payload)
}

/// The payload of the record stored for a workspace.
pub fn open_record<'a>(bytes: &'a [u8], expected_workspace_id: &str) -> (result: Result<
    &'a [u8],
    ExportAuthorityError,
>)
    requires
        fits16(expected_workspace_id@),
    ensures
        is_opened(
            result,
            AUTHORITY_RECORD_MAGIC,
            export_authority_key_bytes(expected_workspace_id@),
            bytes@,
        ),
{
    let key = KeyCodec::new().export_authority_key(expected_workspace_id);
    decode_bound_record(&AUTHORITY_RECORD_MAGIC, bytes_slice(&key), bytes)
}

/// What a decoded record is accepted as: itself, if it is valid and belongs to the
/// workspace it was stored for.
pub open spec fn accepted_record(
    record: ExportAuthorityRecordModel,
    workspace_id: Seq<char>,
) -> Result<ExportAuthorityRecordModel, ExportAuthorityError> {
    if !valid_record(record) {
        Err(record_fault(record))
    } else if record.workspace_id != workspace_id {
        Err(ExportAuthorityError::Corrupt)
    } else {
        Ok(record)
    }
}

/// Accepts a decoded record if it is valid and belongs to the workspace it was stored
/// for.
pub fn accept_record(record: ExportAuthorityRecord, expected_workspace_id: &str) -> (result: Result<
    ExportAuthorityRecord,
    ExportAuthorityError,
>)
    ensures
        match accepted_record(record@, expected_workspace_id@) {
            Ok(accepted) => result matches Ok(r) && r@ == accepted,
            Err(error) => result matches Err(e) && e == error,
        },
{
    validate_record(&record)?;
    if !same_str(&record.workspace_id, expected_workspace_id) {
        return Err(ExportAuthorityError::Corrupt);
    }
    Ok(record)
}

/// The payload of the outcome stored where `expected` would be.
pub fn open_outcome<'a>(bytes: &'a [u8], expected: &ExportMutationExpectation) -> (result: Result<
    &'a [u8],
    ExportAuthorityError,
>)
    requires
        fits16(expected.workspace_id@),
        fits16(expected.authority.actor@),
        fits16(expected.session_id@),
        fits16(expected.server_boot_id@),
    ensures
        is_opened(result, MUTATION_OUTCOME_MAGIC, expected_key(expected@), bytes@),
{
    let key = mutation_outcome_key(expected);
    decode_bound_record(&MUTATION_OUTCOME_MAGIC, bytes_slice(&key), bytes)
}

/// An outcome belongs to the workspace, session and operation of `expected`.
pub open spec fn outcome_in_place(
    outcome: ExportMutationOutcomeModel,
    expected: ExportMutationExpectationModel,
) -> bool {
    &&& outcome.workspace_id == expected.workspace_id
    &&& outcome.session_id == expected.session_id
    &&& outcome.mutation.operation_id == expected.mutation.operation_id
}

/// What a decoded outcome is accepted as: itself, if it is valid and belongs where it
/// was found.
pub open spec fn accepted_outcome(
    outcome: ExportMutationOutcomeModel,
    expected: ExportMutationExpectationModel,
) -> Result<ExportMutationOutcomeModel, ExportAuthorityError> {
    if !valid_outcome(outcome) {
        Err(outcome_fault(outcome))
    } else if !outcome_in_place(outcome, expected) {
        Err(ExportAuthorityError::Corrupt)
    } else {
        Ok(outcome)
    }
}

/// Accepts a decoded outcome if it is valid and belongs where it was found.
pub fn accept_outcome(
    outcome: ExportMutationOutcome,
    expected: &ExportMutationExpectation,
) -> (result: Result<ExportMutationOutcome, ExportAuthorityError>)
    ensures
        match accepted_outcome(outcome@, expected@) {
            Ok(accepted) => result matches Ok(o) && o@ == accepted,
            Err(error) => result matches Err(e) && e == error,
        },
{
    validate_outcome(&outcome)?;
    if outcome.workspace_id != expected.workspace_id || outcome.session_id != expected.session_id
        || !outcome.mutation.operation_id.same(&expected.mutation.operation_id) {
        return Err(ExportAuthorityError::Corrupt);
    }
    Ok(outcome)
}

/// The payload of the binding stored under `key`.
pub fn open_reverse_binding<'a>(bytes: &'a [u8], key: &Bytes) -> (result: Result<
    &'a [u8],
    ExportAuthorityError,
>)
    ensures
        is_opened(result, REVERSE_BINDING_MAGIC, contents(*key), bytes@),
{
    decode_bound_record(&REVERSE_BINDING_MAGIC, bytes_slice(key), bytes)
}

/// What a decoded binding is accepted as: itself, if it is valid and was stored under
/// one of its own keys.
pub open spec fn accepted_binding(binding: ExportReverseBindingModel, key: Seq<u8>) -> Result<
    ExportReverseBindingModel,
    ExportAuthorityError,
> {
    if !valid_reverse_binding(binding) {
        Err(ExportAuthorityError::Invalid)
    } else if key != name_key_of(binding) && key != inode_key_of(binding) {
        Err(ExportAuthorityError::Corrupt)
    } else {
        Ok(binding)
    }
}

/// Accepts a decoded binding if it is valid and was stored under one of its own keys.
pub fn accept_reverse_binding(binding: ExportReverseBinding, key: &Bytes) -> (result: Result<
    ExportReverseBinding,
    ExportAuthorityError,
>)
    ensures
        match accepted_binding(binding@, contents(*key)) {
            Ok(accepted) => result matches Ok(b) && b@ == accepted,
            Err(error) => result matches Err(e) && e == error,
        },
{
    validate_reverse_binding(&binding)?;
    let (name_key, inode_key) = reverse_binding_keys(&binding);
    if !same_bytes(bytes_slice(key), bytes_slice(&name_key)) && !same_bytes(
        bytes_slice(key),
        bytes_slice(&inode_key),
    ) {
        return Err(ExportAuthorityError::Corrupt);
    }
    Ok(binding)
}

/// What was stored under a key is what is opened under it.
pub proof fn law_stored_payload_is_opened(
    sealed: Result<Bytes, ExportAuthorityError>,
    opened: Result<&[u8], ExportAuthorityError>,
    magic: [u8; 4],
    key: Seq<u8>,
    payload: Seq<u8>,
)
    requires
        fits_record(payload),
        is_sealed(sealed, magic, key, payload),
        is_opened(opened, magic, key, contents(sealed->Ok_0)),
    ensures
        opened matches Ok(found) && found@ == payload,
{
    if opened is Ok {
        crate::fs::envelope::law_envelope_holds_one_payload(
            export_envelope(magic),
            key,
            opened->Ok_0@,
            payload,
        );
    }
}

/// A record copied under a key with another digest is corrupt there.
pub proof fn law_copied_record_is_corrupt(
    sealed: Result<Bytes, ExportAuthorityError>,
    opened: Result<&[u8], ExportAuthorityError>,
    magic: [u8; 4],
    key: Seq<u8>,
    other: Seq<u8>,
    payload: Seq<u8>,
)
    requires
        fits_record(payload),
        is_sealed(sealed, magic, key, payload),
        is_opened(opened, magic, other, contents(sealed->Ok_0)),
        sha256(key)@ != sha256(other)@,
    ensures
        opened matches Err(e) && e == ExportAuthorityError::Corrupt,
{
    crate::fs::envelope::law_envelope_is_bound_to_its_key(
        export_envelope(magic),
        key,
        other,
        payload,
    );
}

/// The key where an outcome is stored is the key where it is looked for, whenever it is
/// the outcome expected.
pub proof fn law_fulfilled_outcome_is_found(
    outcome: ExportMutationOutcomeModel,
    expected: ExportMutationExpectationModel,
)
    requires
        super::mutation::fulfils(outcome, expected),
    ensures
        stored_key(outcome) == expected_key(expected),
        outcome_in_place(outcome, expected),
{
}

} // verus!
