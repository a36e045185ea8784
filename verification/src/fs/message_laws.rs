//! What every refusal says in words, and what it asks of the session that presented it.

use super::errors::FsError;
use super::export_authority::types::ExportAuthorityError;
use super::workspace_barrier::types::BarrierError;
use super::workspace_genesis::types::GenesisError;
use super::workspace_operation::types::WorkspaceOperationError;
use crate::failpoints::widen_millis;
use vstd::prelude::*;

verus! {

/// What a filesystem error says.
pub proof fn law_filesystem_message(error: FsError, text: &'static str)
    requires
        call_ensures(FsError::message, (error,), text),
    ensures
        text@ == match error {
            FsError::PermissionDenied => "Permission denied"@,
            FsError::OperationNotPermitted => "Operation not permitted"@,
            FsError::NotFound => "Not found"@,
            FsError::Exists => "Already exists"@,
            FsError::InvalidArgument => "Invalid argument"@,
            FsError::IoError => "I/O error"@,
            FsError::CommitOutcomeUnknown => "Commit outcome unknown after local apply"@,
            FsError::NotEmpty => "Directory not empty"@,
            FsError::TooManyLinks => "Too many links"@,
            FsError::NoSpace => "No space left"@,
            FsError::IsDirectory => "Is a directory"@,
            FsError::NotDirectory => "Not a directory"@,
            FsError::NameTooLong => "Name too long"@,
            FsError::NotSupported => "Not supported"@,
            FsError::StaleHandle => "Stale file handle"@,
            FsError::InvalidData => "Invalid data"@,
            FsError::ReadOnlyFilesystem => "Read-only file system"@,
            FsError::LeaderLeaseExpired => "Leader lease expired (not the current leader)"@,
            FsError::LeaderRejectedBeforeApply => "Leader rejected before applying the operation"@,
            FsError::ShuttingDown => "Server shutting down"@,
        },
{
}

/// What a refusal of the authority says.
pub proof fn law_authority_message(error: ExportAuthorityError, text: &'static str)
    requires
        call_ensures(ExportAuthorityError::message, (error,), text),
    ensures
        text@ == match error {
            ExportAuthorityError::Invalid => "invalid export authority input"@,
            ExportAuthorityError::NotFound => "export authority state is absent"@,
            ExportAuthorityError::Corrupt => "export authority record is corrupt"@,
            ExportAuthorityError::Conflict => "authority or session precondition failed"@,
            ExportAuthorityError::StaleMutation => "mutation fence is stale; close the presenting session"@,
            ExportAuthorityError::CommitOutcomeUnknown => "storage commit outcome is unknown; read back durable state"@,
            ExportAuthorityError::Storage => "storage failure"@,
            ExportAuthorityError::ProfileDisabled => "export authority profile is not durably enabled"@,
            ExportAuthorityError::MigrationRequired => "legacy export authority state requires an explicit migration"@,
        },
{
}

/// What a refusal of a barrier says.
pub proof fn law_barrier_message(error: BarrierError, text: &'static str)
    requires
        call_ensures(BarrierError::message, (error,), text),
    ensures
        text@ == match error {
            BarrierError::Invalid => "invalid Workspace barrier input"@,
            BarrierError::Conflict => "Workspace barrier request conflicts with durable state"@,
            BarrierError::Corrupt => "Workspace barrier graph is corrupt"@,
            BarrierError::CommitOutcomeUnknown => "Workspace barrier outcome is unknown; use exact durable readback"@,
            BarrierError::Storage => "Workspace barrier storage failure"@,
        },
{
}

/// What a refusal of a genesis says.
pub proof fn law_genesis_message(error: GenesisError, text: &'static str)
    requires
        call_ensures(GenesisError::message, (error,), text),
    ensures
        text@ == match error {
            GenesisError::Invalid => "invalid Workspace genesis input"@,
            GenesisError::Conflict => "Workspace genesis request conflicts with durable state"@,
            GenesisError::Corrupt => "Workspace genesis record is corrupt"@,
            GenesisError::CommitOutcomeUnknown => "Workspace genesis commit outcome is unknown; use durable readback"@,
            GenesisError::ObjectOutcomeUnknown => "Workspace genesis object-store outcome is unknown"@,
            GenesisError::Storage => "Workspace genesis storage failure"@,
        },
{
}

/// What a refusal of the ledger says, with what the storage said.
pub proof fn law_operation_message(
    error: &WorkspaceOperationError,
    inner: &'static str,
    text: String,
)
    requires
        *error matches WorkspaceOperationError::Storage(cause) ==> call_ensures(
            FsError::message,
            (cause,),
            inner,
        ),
        call_ensures(WorkspaceOperationError::message, (error,), text),
    ensures
        text@ == match *error {
            WorkspaceOperationError::InvalidIdentity(reason) => "workspace operation identity is invalid: "@
                + reason@,
            WorkspaceOperationError::RequestConflict => "workspace operation request digest conflicts with the durable digest"@,
            WorkspaceOperationError::TerminalImmutable => "workspace operation terminal outcome is immutable"@,
            WorkspaceOperationError::CorruptRecord(reason) => "workspace operation record is corrupt: "@
                + reason@,
            WorkspaceOperationError::CommitOutcomeUnknown => "workspace operation commit outcome is unknown; read the ledger"@,
            WorkspaceOperationError::Storage(_) => "workspace operation storage failed: "@
                + inner@,
        },
{
}

/// A session is closed if it lost its place or cannot know what became of its request, and is
/// kept for every other refusal.
pub proof fn law_session_is_closed_when_it_lost_its_place(error: ExportAuthorityError, close: bool)
    requires
        call_ensures(ExportAuthorityError::close_session, (error,), close),
    ensures
        close == match error {
            ExportAuthorityError::Conflict => true,
            ExportAuthorityError::StaleMutation => true,
            ExportAuthorityError::CommitOutcomeUnknown => true,
            ExportAuthorityError::Invalid => false,
            ExportAuthorityError::NotFound => false,
            ExportAuthorityError::Corrupt => false,
            ExportAuthorityError::Storage => false,
            ExportAuthorityError::ProfileDisabled => false,
            ExportAuthorityError::MigrationRequired => false,
        },
{
}

/// A window is widened at the armed point alone, by the delay it was armed with.
pub proof fn law_only_the_armed_point_waits(
    name: &str,
    delay: u64,
    point: &str,
    armed: Option<u64>,
    idle: Option<u64>,
)
    requires
        call_ensures(widen_millis, (Some((name, delay)), point), armed),
        call_ensures(widen_millis, (None::<(&str, u64)>, point), idle),
    ensures
        name@ == point@ ==> armed == Some(delay),
        name@ != point@ ==> armed is None,
        idle is None,
{
}

} // verus!
