use zerofs::fs::errors::Errnos;
use zerofs::fs::errors::FsError;
use zerofs::fs::errors::NfsStatus;
use zerofs::fs::export_authority::types::ExportAuthorityError;
use zerofs::fs::workspace_barrier::types::BarrierError;
use zerofs::fs::workspace_genesis::types::GenesisError;
use zerofs::fs::workspace_operation::types::WorkspaceOperationError;

/// An error that carries a filesystem error through a chain of causes.
#[derive(Debug)]
struct Carried(FsError);

impl std::fmt::Display for Carried {
    fn fmt(&self, f: &mut std::fmt::Formatter<'_>) -> std::fmt::Result {
        f.write_str(self.0.message())
    }
}

impl std::error::Error for Carried {}

fn causes(error: &anyhow::Error) -> Vec<Option<FsError>> {
    error
        .chain()
        .map(|cause| cause.downcast_ref::<Carried>().map(|carried| carried.0))
        .collect()
}

#[test]
fn database_error_mapping_preserves_filesystem_errors_through_context() {
    let error =
        anyhow::Error::new(Carried(FsError::LeaderLeaseExpired)).context("point read failed");
    assert_eq!(
        FsError::from_db_error(&causes(&error)),
        FsError::LeaderLeaseExpired
    );
    assert_eq!(
        FsError::from_db_error(&causes(&anyhow::Error::msg("storage failed"))),
        FsError::IoError
    );
}

#[test]
fn errno_numbers_are_those_of_the_system() {
    let not_leader = 4242;
    let numbers = Errnos {
        eacces: libc::EACCES as u32,
        eperm: libc::EPERM as u32,
        enoent: libc::ENOENT as u32,
        eexist: libc::EEXIST as u32,
        einval: libc::EINVAL as u32,
        eio: libc::EIO as u32,
        enotempty: libc::ENOTEMPTY as u32,
        emlink: libc::EMLINK as u32,
        enospc: libc::ENOSPC as u32,
        eisdir: libc::EISDIR as u32,
        enotdir: libc::ENOTDIR as u32,
        enametoolong: libc::ENAMETOOLONG as u32,
        enosys: libc::ENOSYS as u32,
        estale: libc::ESTALE as u32,
        erofs: libc::EROFS as u32,
        enotleader: not_leader,
    };
    let cases = [
        (FsError::PermissionDenied, libc::EACCES),
        (FsError::OperationNotPermitted, libc::EPERM),
        (FsError::NotFound, libc::ENOENT),
        (FsError::Exists, libc::EEXIST),
        (FsError::InvalidArgument, libc::EINVAL),
        (FsError::IoError, libc::EIO),
        (FsError::CommitOutcomeUnknown, libc::EIO),
        (FsError::NotEmpty, libc::ENOTEMPTY),
        (FsError::TooManyLinks, libc::EMLINK),
        (FsError::NoSpace, libc::ENOSPC),
        (FsError::IsDirectory, libc::EISDIR),
        (FsError::NotDirectory, libc::ENOTDIR),
        (FsError::NameTooLong, libc::ENAMETOOLONG),
        (FsError::NotSupported, libc::ENOSYS),
        (FsError::StaleHandle, libc::ESTALE),
        (FsError::InvalidData, libc::EIO),
        (FsError::ReadOnlyFilesystem, libc::EROFS),
        (FsError::LeaderRejectedBeforeApply, libc::EIO),
    ];
    for (error, errno) in cases {
        assert_eq!(error.to_errno(&numbers), errno as u32, "{:?}", error);
    }
    assert_eq!(FsError::LeaderLeaseExpired.to_errno(&numbers), not_leader);
    assert_eq!(FsError::ShuttingDown.to_errno(&numbers), not_leader);
}

#[test]
fn nfs_statuses_map_back_to_their_errors() {
    for error in [
        FsError::NotFound,
        FsError::Exists,
        FsError::NoSpace,
        FsError::NotDirectory,
        FsError::IsDirectory,
        FsError::StaleHandle,
    ] {
        let status = NfsStatus::from(error);
        assert_eq!(FsError::from(status), error);
    }
}

#[test]
fn errors_are_reported_in_words() {
    assert_eq!(
        FsError::LeaderLeaseExpired.message(),
        "Leader lease expired (not the current leader)"
    );
    assert_eq!(FsError::NoSpace.message(), "No space left");
    assert_eq!(
        ExportAuthorityError::StaleMutation.message(),
        "mutation fence is stale; close the presenting session"
    );
    assert_eq!(
        BarrierError::Corrupt.message(),
        "Workspace barrier graph is corrupt"
    );
    assert_eq!(
        GenesisError::ObjectOutcomeUnknown.message(),
        "Workspace genesis object-store outcome is unknown"
    );
    assert_eq!(
        WorkspaceOperationError::Storage(FsError::IoError).message(),
        "workspace operation storage failed: I/O error"
    );
    assert_eq!(
        WorkspaceOperationError::InvalidIdentity("kind").message(),
        "workspace operation identity is invalid: kind"
    );
}
