//! Validity of authority inputs, and the transitions between authority states.

use super::types::ActivateExport;
use super::types::ActivateExportModel;
use super::types::AdvanceFence;
use super::types::AdvanceFenceModel;
use super::types::AuthorityVersion;
use super::types::AuthorityVersionModel;
use super::types::DeactivateExport;
use super::types::DeactivateExportModel;
use super::types::ExportAuthorityError;
use super::types::ExportAuthorityRecord;
use super::types::ExportAuthorityRecordModel;
use super::types::ExportAuthorityTransition;
use super::types::ExportAuthorityTransitionModel;
use super::types::ExportIdentity;
use super::types::ExportIdentityModel;
use super::types::ExportReverseBinding;
use super::types::ExportReverseBindingModel;
use super::types::ExportSessionState;
use super::types::ExportSessionStateModel;
use super::types::MutationFenceToken;
use super::types::MutationFenceTokenModel;
use super::types::RefreshExport;
use super::types::RefreshExportModel;
use crate::text::decimal;
use crate::text::lemma_decimal_digits;
use crate::text::lemma_numbered_plain;
use crate::text::lemma_plain_bytes;
use crate::text::plain;
use crate::wire::contains_byte;
use crate::wire::same_str;
use vstd::prelude::*;
use vstd::utf8::encode_utf8;

verus! {

/// The longest identifier or export name, in bytes.
pub const MAX_ID_BYTES: usize = 1024;

/// An identifier is not empty, not too long, and holds no zero byte.
pub open spec fn valid_id(id: Seq<char>) -> bool {
    &&& id.len() > 0
    &&& encode_utf8(id).len() <= MAX_ID_BYTES
    &&& !encode_utf8(id).contains(0)
}

/// An export has a name like an identifier's, and both inodes.
pub open spec fn valid_export(export: ExportIdentityModel) -> bool {
    &&& 0 < export.name.len() <= MAX_ID_BYTES
    &&& !export.name.contains(0)
    &&& export.nbd_directory_inode != 0
    &&& export.inode != 0
}

/// An authority names its actor and home, and every version of it has begun.
pub open spec fn valid_authority(authority: AuthorityVersionModel) -> bool {
    &&& valid_id(authority.actor)
    &&& valid_id(authority.home_cell)
    &&& authority.actor_generation != 0
    &&& authority.home_revision != 0
    &&& authority.authority_epoch != 0
    &&& authority.placement_epoch != 0
    &&& authority.assignment_revision != 0
}

/// A session names its parts and has not expired at `now`.
pub open spec fn valid_session(session: ExportSessionStateModel, now: u64) -> bool {
    &&& valid_id(session.session_id)
    &&& valid_id(session.capability_id)
    &&& valid_id(session.node_incarnation_id)
    &&& valid_id(session.runtime_id)
    &&& valid_id(session.server_boot_id)
    &&& session.expires_at_unix_millis > now
}

pub open spec fn valid_reverse_binding(binding: ExportReverseBindingModel) -> bool {
    &&& valid_id(binding.workspace_id)
    &&& valid_id(binding.actor)
    &&& valid_export(binding.export)
    &&& binding.actor_generation != 0
}

/// A session stands only on an initialized binding, for a placement that is not
/// rejected.
pub open spec fn session_allowed(record: ExportAuthorityRecordModel) -> bool {
    record.binding_initialized && record.rejected_through_placement_epoch
        < record.authority.placement_epoch
}

/// A record's parts are valid, and its session, if there is one, is allowed.
pub open spec fn valid_record(record: ExportAuthorityRecordModel) -> bool {
    &&& valid_id(record.workspace_id)
    &&& valid_export(record.export)
    &&& valid_authority(record.authority)
    &&& match record.active_session {
        Some(session) => valid_session(session, 0) && session_allowed(record),
        None => true,
    }
}

/// How an invalid record is refused. A record whose session contradicts its own
/// fence or binding is corrupt; malformed parts are invalid.
pub open spec fn record_fault(record: ExportAuthorityRecordModel) -> ExportAuthorityError {
    if !valid_id(record.workspace_id) || !valid_export(record.export) || !valid_authority(
        record.authority,
    ) {
        ExportAuthorityError::Invalid
    } else if record.rejected_through_placement_epoch > record.authority.placement_epoch
        || !record.binding_initialized {
        ExportAuthorityError::Corrupt
    } else if record.active_session matches Some(session) && !valid_session(session, 0) {
        ExportAuthorityError::Invalid
    } else {
        ExportAuthorityError::Corrupt
    }
}

/// `Ok(())` if `valid`, and otherwise the error.
pub open spec fn verdict(valid: bool, error: ExportAuthorityError) -> Result<
    (),
    ExportAuthorityError,
> {
    if valid {
        Ok(())
    } else {
        Err(error)
    }
}

/// `next` belongs to the same actor and home and goes back in nothing.
pub open spec fn non_regressing(current: AuthorityVersionModel, next: AuthorityVersionModel) -> bool {
    &&& current.actor == next.actor
    &&& current.actor_generation == next.actor_generation
    &&& current.home_cell == next.home_cell
    &&& current.home_revision <= next.home_revision
    &&& current.authority_epoch <= next.authority_epoch
    &&& current.placement_epoch <= next.placement_epoch
    &&& current.assignment_revision <= next.assignment_revision
}

/// `next` is a later placement under a later assignment.
pub open spec fn monotonic(current: AuthorityVersionModel, next: AuthorityVersionModel) -> bool {
    &&& non_regressing(current, next)
    &&& current.placement_epoch < next.placement_epoch
    &&& current.assignment_revision < next.assignment_revision
}

/// `next` differs from `current` in a later assignment alone.
pub open spec fn renews_placement(
    current: AuthorityVersionModel,
    next: AuthorityVersionModel,
) -> bool {
    &&& next == AuthorityVersionModel { assignment_revision: next.assignment_revision, ..current }
    &&& current.assignment_revision < next.assignment_revision
}

/// The record that an activation asks for. The session belongs to the process that
/// accepts it, and starts at sequence zero whatever the caller sent.
pub open spec fn activated(
    existing: Option<ExportAuthorityRecordModel>,
    command: ActivateExportModel,
    server_boot_id: Seq<char>,
) -> ExportAuthorityRecordModel {
    ExportAuthorityRecordModel {
        workspace_id: command.workspace_id,
        export: command.export,
        authority: command.authority,
        rejected_through_placement_epoch: match existing {
            Some(current) => current.rejected_through_placement_epoch,
            None => 0,
        },
        binding_initialized: true,
        active_session: Some(
            ExportSessionStateModel {
                server_boot_id,
                committed_through_sequence: 0,
                ..command.session
            },
        ),
    }
}

/// A valid record gives way to an activation of the same export by a later authority,
/// once it has no session and for a placement that is not rejected.
pub open spec fn admits_activation(
    current: ExportAuthorityRecordModel,
    desired: ExportAuthorityRecordModel,
) -> bool {
    &&& current.workspace_id == desired.workspace_id
    &&& current.export == desired.export
    &&& monotonic(current.authority, desired.authority)
    &&& current.active_session is None
    &&& desired.authority.placement_epoch > current.rejected_through_placement_epoch
}

pub open spec fn activate_result(
    existing: Option<ExportAuthorityRecordModel>,
    command: ActivateExportModel,
    now: u64,
    server_boot_id: Seq<char>,
) -> Result<ExportAuthorityRecordModel, ExportAuthorityError> {
    let desired = activated(existing, command, server_boot_id);
    if !valid_authority(command.authority) || !valid_session(desired.active_session->0, now) {
        Err(ExportAuthorityError::Invalid)
    } else {
        match existing {
            None => Ok(desired),
            Some(current) => if !valid_record(current) {
                Err(record_fault(current))
            } else if current == desired || admits_activation(current, desired) {
                Ok(desired)
            } else {
                Err(ExportAuthorityError::Conflict)
            },
        }
    }
}

/// A live session of this process is refreshed by exactly the state that the caller
/// saw, with a new capability, a later expiry and a later assignment.
pub open spec fn admits_refresh(
    current: ExportAuthorityRecordModel,
    session: ExportSessionStateModel,
    command: RefreshExportModel,
    now: u64,
    server_boot_id: Seq<char>,
) -> bool {
    &&& current.workspace_id == command.workspace_id
    &&& current.export == command.expected_export
    &&& current.authority == command.expected_authority
    &&& session.session_id == command.session_id
    &&& session.capability_id == command.expected_capability_id
    &&& command.replacement_capability_id != command.expected_capability_id
    &&& session.server_boot_id == server_boot_id
    &&& session.expires_at_unix_millis > now
    &&& renews_placement(current.authority, command.replacement_authority)
    &&& command.replacement_expires_at_unix_millis > session.expires_at_unix_millis
}

pub open spec fn refreshed(
    current: ExportAuthorityRecordModel,
    session: ExportSessionStateModel,
    command: RefreshExportModel,
) -> ExportAuthorityRecordModel {
    ExportAuthorityRecordModel {
        authority: command.replacement_authority,
        active_session: Some(
            ExportSessionStateModel {
                capability_id: command.replacement_capability_id,
                expires_at_unix_millis: command.replacement_expires_at_unix_millis,
                ..session
            },
        ),
        ..current
    }
}

pub open spec fn refresh_result(
    existing: Option<ExportAuthorityRecordModel>,
    command: RefreshExportModel,
    now: u64,
    server_boot_id: Seq<char>,
) -> Result<ExportAuthorityRecordModel, ExportAuthorityError> {
    if !valid_authority(command.expected_authority) || !valid_id(command.session_id) || !valid_id(
        command.expected_capability_id,
    ) || !valid_id(command.replacement_capability_id) || !valid_authority(
        command.replacement_authority,
    ) {
        Err(ExportAuthorityError::Invalid)
    } else {
        match existing {
            None => Err(ExportAuthorityError::NotFound),
            Some(current) => if !valid_record(current) {
                Err(record_fault(current))
            } else {
                match current.active_session {
                    Some(session) if admits_refresh(
                        current,
                        session,
                        command,
                        now,
                        server_boot_id,
                    ) => Ok(refreshed(current, session, command)),
                    _ => Err(ExportAuthorityError::Conflict),
                }
            },
        }
    }
}

/// A record without a session that rejects its own placement.
pub open spec fn fenced(record: ExportAuthorityRecordModel) -> ExportAuthorityRecordModel {
    ExportAuthorityRecordModel {
        rejected_through_placement_epoch: if record.rejected_through_placement_epoch
            < record.authority.placement_epoch {
            record.authority.placement_epoch
        } else {
            record.rejected_through_placement_epoch
        },
        active_session: None,
        ..record
    }
}

pub open spec fn deactivate_result(
    existing: Option<ExportAuthorityRecordModel>,
    command: DeactivateExportModel,
) -> Result<ExportAuthorityRecordModel, ExportAuthorityError> {
    if !valid_authority(command.expected_authority) || !valid_id(command.session_id) {
        Err(ExportAuthorityError::Invalid)
    } else {
        match existing {
            None => Err(ExportAuthorityError::NotFound),
            Some(current) => if !valid_record(current) {
                Err(record_fault(current))
            } else {
                match current.active_session {
                    Some(session) if current.workspace_id == command.workspace_id && current.export
                        == command.expected_export && current.authority
                        == command.expected_authority && session.session_id
                        == command.session_id => Ok(fenced(current)),
                    _ => Err(ExportAuthorityError::Conflict),
                }
            },
        }
    }
}

/// A fence advances from exactly the authority that the caller saw, to it or a later
/// one, and never back.
pub open spec fn admits_fence(
    current: ExportAuthorityRecordModel,
    command: AdvanceFenceModel,
) -> bool {
    &&& command.expected_authority == Some(current.authority)
    &&& current.workspace_id == command.workspace_id
    &&& current.export == command.export
    &&& (command.new_non_writable_authority == current.authority || monotonic(
        current.authority,
        command.new_non_writable_authority,
    ))
    &&& command.reject_through_placement_epoch >= current.rejected_through_placement_epoch
}

pub open spec fn fence_result(
    existing: Option<ExportAuthorityRecordModel>,
    command: AdvanceFenceModel,
) -> Result<ExportAuthorityRecordModel, ExportAuthorityError> {
    if !valid_authority(command.new_non_writable_authority)
        || command.reject_through_placement_epoch
        < command.new_non_writable_authority.placement_epoch {
        Err(ExportAuthorityError::Invalid)
    } else {
        match existing {
            None => if command.expected_authority is None {
                Ok(
                    ExportAuthorityRecordModel {
                        workspace_id: command.workspace_id,
                        export: command.export,
                        authority: command.new_non_writable_authority,
                        rejected_through_placement_epoch: command.reject_through_placement_epoch,
                        binding_initialized: false,
                        active_session: None,
                    },
                )
            } else {
                Err(ExportAuthorityError::Conflict)
            },
            Some(current) => if !valid_record(current) {
                Err(record_fault(current))
            } else if admits_fence(current, command) {
                Ok(
                    ExportAuthorityRecordModel {
                        authority: command.new_non_writable_authority,
                        rejected_through_placement_epoch: command.reject_through_placement_epoch,
                        active_session: None,
                        ..current
                    },
                )
            } else {
                Err(ExportAuthorityError::Conflict)
            },
        }
    }
}

/// What a transition makes of the existing record, at `now`, in the process
/// `server_boot_id`.
pub open spec fn transition_result(
    existing: Option<ExportAuthorityRecordModel>,
    transition: ExportAuthorityTransitionModel,
    now: u64,
    server_boot_id: Seq<char>,
) -> Result<ExportAuthorityRecordModel, ExportAuthorityError> {
    if !valid_id(transition.workspace_id()) {
        Err(ExportAuthorityError::Invalid)
    } else {
        match transition {
            ExportAuthorityTransitionModel::Activate(command) => activate_result(
                existing,
                command,
                now,
                server_boot_id,
            ),
            ExportAuthorityTransitionModel::Refresh(command) => refresh_result(
                existing,
                command,
                now,
                server_boot_id,
            ),
            ExportAuthorityTransitionModel::Deactivate(command) => deactivate_result(
                existing,
                command,
            ),
            ExportAuthorityTransitionModel::AdvanceFence(command) => fence_result(
                existing,
                command,
            ),
        }
    }
}

/// The view of an optional record.
pub open spec fn record_view(record: Option<ExportAuthorityRecord>) -> Option<
    ExportAuthorityRecordModel,
> {
    match record {
        Some(record) => Some(record@),
        None => None,
    }
}

/// `result` is the record or error that `expected` says.
pub open spec fn is_record_result(
    result: Result<ExportAuthorityRecord, ExportAuthorityError>,
    expected: Result<ExportAuthorityRecordModel, ExportAuthorityError>,
) -> bool {
    match expected {
        Ok(record) => result matches Ok(r) && r@ == record,
        Err(error) => result matches Err(e) && e == error,
    }
}

pub fn validate_id(value: &str) -> (result: Result<(), ExportAuthorityError>)
    ensures
        result == verdict(valid_id(value@), ExportAuthorityError::Invalid),
{
    if value.is_empty() || value.as_bytes().len() > MAX_ID_BYTES || contains_byte(
        value.as_bytes(),
        0,
    ) {
        return Err(ExportAuthorityError::Invalid);
    }
    Ok(())
}

pub fn validate_export(export: &ExportIdentity) -> (result: Result<(), ExportAuthorityError>)
    ensures
        result == verdict(valid_export(export@), ExportAuthorityError::Invalid),
{
    if export.name.len() == 0 || export.name.len() > MAX_ID_BYTES || contains_byte(&export.name, 0)
        || export.nbd_directory_inode == 0 || export.inode == 0 {
        return Err(ExportAuthorityError::Invalid);
    }
    Ok(())
}

pub fn validate_authority(authority: &AuthorityVersion) -> (result: Result<
    (),
    ExportAuthorityError,
>)
    ensures
        result == verdict(valid_authority(authority@), ExportAuthorityError::Invalid),
{
    validate_id(&authority.actor)?;
    validate_id(&authority.home_cell)?;
    if authority.actor_generation == 0 || authority.home_revision == 0
        || authority.authority_epoch == 0 || authority.placement_epoch == 0
        || authority.assignment_revision == 0 {
        return Err(ExportAuthorityError::Invalid);
    }
    Ok(())
}

pub fn validate_session(session: &ExportSessionState, now: u64) -> (result: Result<
    (),
    ExportAuthorityError,
>)
    ensures
        result == verdict(valid_session(session@, now), ExportAuthorityError::Invalid),
{
    validate_id(&session.session_id)?;
    validate_id(&session.capability_id)?;
    validate_id(&session.node_incarnation_id)?;
    validate_id(&session.runtime_id)?;
    validate_id(&session.server_boot_id)?;
    if session.expires_at_unix_millis <= now {
        return Err(ExportAuthorityError::Invalid);
    }
    Ok(())
}

pub fn validate_reverse_binding(binding: &ExportReverseBinding) -> (result: Result<
    (),
    ExportAuthorityError,
>)
    ensures
        result == verdict(valid_reverse_binding(binding@), ExportAuthorityError::Invalid),
{
    validate_id(&binding.workspace_id)?;
    validate_id(&binding.actor)?;
    validate_export(&binding.export)?;
    if binding.actor_generation == 0 {
        return Err(ExportAuthorityError::Invalid);
    }
    Ok(())
}

pub fn validate_record(record: &ExportAuthorityRecord) -> (result: Result<
    (),
    ExportAuthorityError,
>)
    ensures
        result == verdict(valid_record(record@), record_fault(record@)),
{
    validate_id(&record.workspace_id)?;
    validate_export(&record.export)?;
    validate_authority(&record.authority)?;
    if record.rejected_through_placement_epoch > record.authority.placement_epoch
        && record.active_session.is_some() {
        return Err(ExportAuthorityError::Corrupt);
    }
    if let Some(session) = &record.active_session {
        if !record.binding_initialized {
            return Err(ExportAuthorityError::Corrupt);
        }
        validate_session(session, 0)?;
        if record.authority.placement_epoch <= record.rejected_through_placement_epoch {
            return Err(ExportAuthorityError::Corrupt);
        }
    }
    Ok(())
}

pub fn non_regressing_authority(current: &AuthorityVersion, next: &AuthorityVersion) -> (ok: bool)
    ensures
        ok == non_regressing(current@, next@),
{
    current.actor == next.actor && current.actor_generation == next.actor_generation
        && current.home_cell == next.home_cell && next.home_revision >= current.home_revision
        && next.authority_epoch >= current.authority_epoch && next.placement_epoch
        >= current.placement_epoch && next.assignment_revision >= current.assignment_revision
}

pub fn monotonic_authority(current: &AuthorityVersion, next: &AuthorityVersion) -> (ok: bool)
    ensures
        ok == monotonic(current@, next@),
{
    non_regressing_authority(current, next) && next.placement_epoch > current.placement_epoch
        && next.assignment_revision > current.assignment_revision
}

pub fn same_placement_renewal(current: &AuthorityVersion, next: &AuthorityVersion) -> (ok: bool)
    ensures
        ok == renews_placement(current@, next@),
{
    current.actor == next.actor && current.actor_generation == next.actor_generation
        && current.home_cell == next.home_cell && current.home_revision == next.home_revision
        && current.authority_epoch == next.authority_epoch && current.placement_epoch
        == next.placement_epoch && next.assignment_revision > current.assignment_revision
}

fn activate(
    existing: Option<ExportAuthorityRecord>,
    command: ActivateExport,
    now: u64,
    server_boot_id: &str,
) -> (result: Result<ExportAuthorityRecord, ExportAuthorityError>)
    ensures
        is_record_result(
            result,
            activate_result(record_view(existing), command@, now, server_boot_id@),
        ),
{
    let mut session = command.session;
    session.server_boot_id = server_boot_id.to_owned();
    session.committed_through_sequence = 0;
    validate_authority(&command.authority)?;
    validate_session(&session, now)?;
    let rejected: u64 = match &existing {
        Some(current) => current.rejected_through_placement_epoch,
        None => 0,
    };
    let desired = ExportAuthorityRecord {
        workspace_id: command.workspace_id,
        export: command.export,
        authority: command.authority,
        rejected_through_placement_epoch: rejected,
        binding_initialized: true,
        active_session: Some(session),
    };
    assert(desired@ == activated(record_view(existing), command@, server_boot_id@));
    if let Some(current) = existing {
        validate_record(&current)?;
        if current.same(&desired) {
            return Ok(current);
        }
        if current.workspace_id != desired.workspace_id || !current.export.same(&desired.export)
            || !monotonic_authority(&current.authority, &desired.authority)
            || current.active_session.is_some() || desired.authority.placement_epoch
            <= current.rejected_through_placement_epoch {
            return Err(ExportAuthorityError::Conflict);
        }
    }
    Ok(desired)
}

fn refresh(
    existing: Option<ExportAuthorityRecord>,
    command: RefreshExport,
    now: u64,
    server_boot_id: &str,
) -> (result: Result<ExportAuthorityRecord, ExportAuthorityError>)
    ensures
        is_record_result(
            result,
            refresh_result(record_view(existing), command@, now, server_boot_id@),
        ),
{
    validate_authority(&command.expected_authority)?;
    validate_id(&command.session_id)?;
    validate_id(&command.expected_capability_id)?;
    validate_id(&command.replacement_capability_id)?;
    validate_authority(&command.replacement_authority)?;
    let current = match existing {
        Some(current) => current,
        None => {
            return Err(ExportAuthorityError::NotFound);
        },
    };
    validate_record(&current)?;
    let session = match current.active_session {
        Some(session) => session,
        None => {
            return Err(ExportAuthorityError::Conflict);
        },
    };
    if current.workspace_id != command.workspace_id || !current.export.same(
        &command.expected_export,
    ) || !current.authority.same(&command.expected_authority) || session.session_id
        != command.session_id || session.capability_id != command.expected_capability_id
        || command.replacement_capability_id == command.expected_capability_id || !same_str(
        &session.server_boot_id,
        server_boot_id,
    ) || session.expires_at_unix_millis <= now || !same_placement_renewal(
        &current.authority,
        &command.replacement_authority,
    ) || command.replacement_expires_at_unix_millis <= session.expires_at_unix_millis
        || command.replacement_expires_at_unix_millis <= now {
        return Err(ExportAuthorityError::Conflict);
    }
    Ok(
        ExportAuthorityRecord {
            workspace_id: current.workspace_id,
            export: current.export,
            authority: command.replacement_authority,
            rejected_through_placement_epoch: current.rejected_through_placement_epoch,
            binding_initialized: current.binding_initialized,
            active_session: Some(
                ExportSessionState {
                    session_id: session.session_id,
                    capability_id: command.replacement_capability_id,
                    expires_at_unix_millis: command.replacement_expires_at_unix_millis,
                    node_incarnation_id: session.node_incarnation_id,
                    runtime_id: session.runtime_id,
                    server_boot_id: session.server_boot_id,
                    committed_through_sequence: session.committed_through_sequence,
                },
            ),
        },
    )
}

/// Drops the session and rejects the record's own placement.
pub fn fence_record(record: ExportAuthorityRecord) -> (result: ExportAuthorityRecord)
    ensures
        result@ == fenced(record@),
{
    let rejected: u64 = if record.rejected_through_placement_epoch
        < record.authority.placement_epoch {
        record.authority.placement_epoch
    } else {
        record.rejected_through_placement_epoch
    };
    ExportAuthorityRecord {
        workspace_id: record.workspace_id,
        export: record.export,
        authority: record.authority,
        rejected_through_placement_epoch: rejected,
        binding_initialized: record.binding_initialized,
        active_session: None,
    }
}

fn deactivate(existing: Option<ExportAuthorityRecord>, command: DeactivateExport) -> (result:
    Result<ExportAuthorityRecord, ExportAuthorityError>)
    ensures
        is_record_result(result, deactivate_result(record_view(existing), command@)),
{
    validate_authority(&command.expected_authority)?;
    validate_id(&command.session_id)?;
    let current = match existing {
        Some(current) => current,
        None => {
            return Err(ExportAuthorityError::NotFound);
        },
    };
    validate_record(&current)?;
    let same_session: bool = match &current.active_session {
        Some(session) => session.session_id == command.session_id,
        None => false,
    };
    if !same_session || current.workspace_id != command.workspace_id || !current.export.same(
        &command.expected_export,
    ) || !current.authority.same(&command.expected_authority) {
        return Err(ExportAuthorityError::Conflict);
    }
    Ok(fence_record(current))
}

fn advance_fence(existing: Option<ExportAuthorityRecord>, command: AdvanceFence) -> (result: Result<
    ExportAuthorityRecord,
    ExportAuthorityError,
>)
    ensures
        is_record_result(result, fence_result(record_view(existing), command@)),
{
    validate_authority(&command.new_non_writable_authority)?;
    if command.reject_through_placement_epoch == 0 || command.reject_through_placement_epoch
        < command.new_non_writable_authority.placement_epoch {
        return Err(ExportAuthorityError::Invalid);
    }
    match existing {
        None => if command.expected_authority.is_none() {
            Ok(
                ExportAuthorityRecord {
                    workspace_id: command.workspace_id,
                    export: command.export,
                    authority: command.new_non_writable_authority,
                    rejected_through_placement_epoch: command.reject_through_placement_epoch,
                    binding_initialized: false,
                    active_session: None,
                },
            )
        } else {
            Err(ExportAuthorityError::Conflict)
        },
        Some(current) => {
            validate_record(&current)?;
            let valid_authority: bool = command.new_non_writable_authority.same(&current.authority)
                || monotonic_authority(&current.authority, &command.new_non_writable_authority);
            let expected: bool = match &command.expected_authority {
                Some(expected) => expected.same(&current.authority),
                None => false,
            };
            if !expected || current.workspace_id != command.workspace_id || !current.export.same(
                &command.export,
            ) || !valid_authority || command.reject_through_placement_epoch
                < current.rejected_through_placement_epoch {
                return Err(ExportAuthorityError::Conflict);
            }
            Ok(
                ExportAuthorityRecord {
                    workspace_id: current.workspace_id,
                    export: current.export,
                    authority: command.new_non_writable_authority,
                    rejected_through_placement_epoch: command.reject_through_placement_epoch,
                    binding_initialized: current.binding_initialized,
                    active_session: None,
                },
            )
        },
    }
}

/// Applies a transition to the existing record, at `now`, in the process
/// `server_boot_id`.
pub fn apply_transition(
    existing: Option<ExportAuthorityRecord>,
    transition: ExportAuthorityTransition,
    now: u64,
    server_boot_id: &str,
) -> (result: Result<ExportAuthorityRecord, ExportAuthorityError>)
    ensures
        is_record_result(
            result,
            transition_result(record_view(existing), transition@, now, server_boot_id@),
        ),
{
    validate_id(transition.workspace_id())?;
    match transition {
        ExportAuthorityTransition::Activate(command) => activate(
            existing,
            command,
            now,
            server_boot_id,
        ),
        ExportAuthorityTransition::Refresh(command) => refresh(
            existing,
            command,
            now,
            server_boot_id,
        ),
        ExportAuthorityTransition::Deactivate(command) => deactivate(existing, command),
        ExportAuthorityTransition::AdvanceFence(command) => advance_fence(existing, command),
    }
}

/// Every part of a token that a session must match is well formed.
pub open spec fn well_formed_token(token: MutationFenceTokenModel) -> bool {
    &&& valid_id(token.workspace_id)
    &&& valid_export(token.export)
    &&& valid_authority(token.authority)
    &&& valid_id(token.session_id)
    &&& valid_id(token.capability_id)
    &&& valid_id(token.node_incarnation_id)
    &&& valid_id(token.runtime_id)
}

/// The token that `session` of `record` presents.
pub open spec fn session_token(
    record: ExportAuthorityRecordModel,
    session: ExportSessionStateModel,
) -> MutationFenceTokenModel {
    MutationFenceTokenModel {
        workspace_id: record.workspace_id,
        export: record.export,
        authority: record.authority,
        session_id: session.session_id,
        capability_id: session.capability_id,
        expires_at_unix_millis: session.expires_at_unix_millis,
        node_incarnation_id: session.node_incarnation_id,
        runtime_id: session.runtime_id,
        server_boot_id: session.server_boot_id,
    }
}

/// What becomes of a mutation under `token`. It is admitted only as the token of the
/// session of a valid record, unexpired, in the process that opened the session.
pub open spec fn mutation_result(
    current: Option<ExportAuthorityRecordModel>,
    token: MutationFenceTokenModel,
    now: u64,
    server_boot_id: Seq<char>,
) -> Result<(), ExportAuthorityError> {
    match current {
        Some(record) if well_formed_token(token) => if !valid_record(record) {
            Err(record_fault(record))
        } else {
            match record.active_session {
                Some(session) if token == session_token(record, session)
                    && session.expires_at_unix_millis > now && session.server_boot_id
                    == server_boot_id => Ok(()),
                _ => Err(ExportAuthorityError::StaleMutation),
            }
        },
        _ => Err(ExportAuthorityError::StaleMutation),
    }
}

fn well_formed(token: &MutationFenceToken) -> (ok: bool)
    ensures
        ok == well_formed_token(token@),
{
    validate_id(&token.workspace_id).is_ok() && validate_export(&token.export).is_ok()
        && validate_authority(&token.authority).is_ok() && validate_id(&token.session_id).is_ok()
        && validate_id(&token.capability_id).is_ok() && validate_id(
        &token.node_incarnation_id,
    ).is_ok() && validate_id(&token.runtime_id).is_ok()
}

/// Admits a mutation of the export whose current record is `current`, or says that
/// the token is stale.
pub fn validate_mutation(
    current: Option<&ExportAuthorityRecord>,
    token: &MutationFenceToken,
    now: u64,
    server_boot_id: &str,
) -> (result: Result<(), ExportAuthorityError>)
    ensures
        result == mutation_result(
            match current {
                Some(record) => Some(record@),
                None => None,
            },
            token@,
            now,
            server_boot_id@,
        ),
{
    if !well_formed(token) {
        return Err(ExportAuthorityError::StaleMutation);
    }
    let current = match current {
        Some(current) => current,
        None => {
            return Err(ExportAuthorityError::StaleMutation);
        },
    };
    validate_record(current)?;
    let session = match &current.active_session {
        Some(session) => session,
        None => {
            return Err(ExportAuthorityError::StaleMutation);
        },
    };
    if token.expires_at_unix_millis <= now || token.workspace_id != current.workspace_id
        || !token.export.same(&current.export) || !token.authority.same(&current.authority)
        || token.authority.placement_epoch <= current.rejected_through_placement_epoch
        || token.session_id != session.session_id || token.capability_id != session.capability_id
        || token.expires_at_unix_millis != session.expires_at_unix_millis
        || token.node_incarnation_id != session.node_incarnation_id || token.runtime_id
        != session.runtime_id || token.server_boot_id != session.server_boot_id || !same_str(
        &session.server_boot_id,
        server_boot_id,
    ) {
        return Err(ExportAuthorityError::StaleMutation);
    }
    Ok(())
}

/// Milliseconds since the epoch of a clock reading, at most `u64::MAX`.
pub fn trusted_now_unix_millis(seconds: u64, nanos: u32) -> (millis: u64)
    ensures
        millis == if seconds * 1000 + nanos / 1_000_000 > u64::MAX {
            u64::MAX as int
        } else {
            seconds * 1000 + nanos / 1_000_000
        },
{
    let whole: u64 = match seconds.checked_mul(1_000) {
        Some(whole) => whole,
        None => u64::MAX,
    };
    let part: u64 = (nanos / 1_000_000) as u64;
    whole.saturating_add(part)
}

/// Short plain text followed by a number in decimal is an identifier.
pub proof fn lemma_numbered_id(prefix: Seq<char>, n: u64)
    requires
        plain(prefix),
        prefix.len() <= 100,
    ensures
        valid_id(prefix + decimal(n as nat)),
{
    lemma_decimal_digits(n as nat);
    lemma_numbered_plain(prefix, n as nat);
    lemma_plain_bytes(prefix + decimal(n as nat));
}

} // verus!
