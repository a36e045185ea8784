//! Filesystem errors and the numbers that protocols give them.

use vstd::prelude::*;

verus! {

/// What a filesystem operation can fail with.
#[derive(Debug, Clone, Copy, PartialEq, Eq, Structural)]
pub enum FsError {
    PermissionDenied,
    OperationNotPermitted,
    NotFound,
    Exists,
    InvalidArgument,
    IoError,
    /// The mutation applied locally, but its required durability barrier did
    /// not complete. The caller must read back instead of assuming rejection.
    CommitOutcomeUnknown,
    NotEmpty,
    TooManyLinks,
    NoSpace,
    IsDirectory,
    NotDirectory,
    NameTooLong,
    NotSupported,
    StaleHandle,
    InvalidData,
    ReadOnlyFilesystem,
    LeaderLeaseExpired,
    /// The current mutation batch was authoritatively rejected by a newer
    /// writer before either the peer or this process applied it. 9P can expose
    /// this narrower fact as a clean failover hint; other protocols treat it as
    /// an ordinary I/O failure.
    LeaderRejectedBeforeApply,
    ShuttingDown,
}

/// What is reported of an error in words.
pub open spec fn error_message(error: FsError) -> Seq<char> {
    match error {
        FsError::PermissionDenied => "Permission denied"@,
        FsError::OperationNotPermitted => "Operation not permitted"@,
        FsError::NotFound => "Not found"@,
        FsError::Exists => "Already exists"@,
        FsError::InvalidArgument => "Invalid argument"@,
        FsError::IoError => "I/O error"@,
        FsError::CommitOutcomeUnknown => "Commit outcome unknown after local apply"@,
        FsError::NotEmpty => "Directory not empty"@,
        FsError::TooManyLinks => "Too many links"@,
        FsError::NoSpace => "No space left"@,
        FsError::IsDirectory => "Is a directory"@,
        FsError::NotDirectory => "Not a directory"@,
        FsError::NameTooLong => "Name too long"@,
        FsError::NotSupported => "Not supported"@,
        FsError::StaleHandle => "Stale file handle"@,
        FsError::InvalidData => "Invalid data"@,
        FsError::ReadOnlyFilesystem => "Read-only file system"@,
        FsError::LeaderLeaseExpired => "Leader lease expired (not the current leader)"@,
        FsError::LeaderRejectedBeforeApply => "Leader rejected before applying the operation"@,
        FsError::ShuttingDown => "Server shutting down"@,
    }
}

/// The NFSv3 status codes that filesystem errors map to and from.
#[derive(Debug, Clone, Copy, PartialEq, Eq, Structural)]
pub enum NfsStatus {
    Perm,
    NoEnt,
    Io,
    Acces,
    Exist,
    NotDir,
    IsDir,
    Inval,
    NoSpc,
    Rofs,
    MLink,
    NameTooLong,
    NotEmpty,
    DQuot,
    Stale,
    NotSupp,
    BadType,
    /// Any other status.
    Other,
}

/// The NFSv3 status that reports `err`.
pub open spec fn nfs_status(err: FsError) -> NfsStatus {
    match err {
        FsError::PermissionDenied => NfsStatus::Acces,
        FsError::OperationNotPermitted => NfsStatus::Perm,
        FsError::NotFound => NfsStatus::NoEnt,
        FsError::Exists => NfsStatus::Exist,
        FsError::InvalidArgument => NfsStatus::Inval,
        FsError::NotEmpty => NfsStatus::NotEmpty,
        FsError::TooManyLinks => NfsStatus::MLink,
        FsError::NoSpace => NfsStatus::NoSpc,
        FsError::IsDirectory => NfsStatus::IsDir,
        FsError::NotDirectory => NfsStatus::NotDir,
        FsError::NameTooLong => NfsStatus::NameTooLong,
        FsError::NotSupported => NfsStatus::NotSupp,
        FsError::StaleHandle => NfsStatus::Stale,
        FsError::ReadOnlyFilesystem => NfsStatus::Rofs,
        _ => NfsStatus::Io,
    }
}

/// The filesystem error that an NFSv3 status stands for.
pub open spec fn status_error(status: NfsStatus) -> FsError {
    match status {
        NfsStatus::Perm | NfsStatus::Acces => FsError::PermissionDenied,
        NfsStatus::NoEnt => FsError::NotFound,
        NfsStatus::Exist => FsError::Exists,
        NfsStatus::Inval | NfsStatus::BadType => FsError::InvalidArgument,
        NfsStatus::Rofs => FsError::ReadOnlyFilesystem,
        NfsStatus::NotEmpty => FsError::NotEmpty,
        NfsStatus::MLink => FsError::TooManyLinks,
        NfsStatus::NoSpc | NfsStatus::DQuot => FsError::NoSpace,
        NfsStatus::IsDir => FsError::IsDirectory,
        NfsStatus::NotDir => FsError::NotDirectory,
        NfsStatus::NameTooLong => FsError::NameTooLong,
        NfsStatus::NotSupp => FsError::NotSupported,
        NfsStatus::Stale => FsError::StaleHandle,
        NfsStatus::Io | NfsStatus::Other => FsError::IoError,
    }
}

impl From<FsError> for NfsStatus {
    fn from(err: FsError) -> (status: Self) {
        match err {
            FsError::PermissionDenied => NfsStatus::Acces,
            FsError::OperationNotPermitted => NfsStatus::Perm,
            FsError::NotFound => NfsStatus::NoEnt,
            FsError::Exists => NfsStatus::Exist,
            FsError::InvalidArgument => NfsStatus::Inval,
            FsError::IoError | FsError::CommitOutcomeUnknown => NfsStatus::Io,
            FsError::NotEmpty => NfsStatus::NotEmpty,
            FsError::TooManyLinks => NfsStatus::MLink,
            FsError::NoSpace => NfsStatus::NoSpc,
            FsError::IsDirectory => NfsStatus::IsDir,
            FsError::NotDirectory => NfsStatus::NotDir,
            FsError::NameTooLong => NfsStatus::NameTooLong,
            FsError::NotSupported => NfsStatus::NotSupp,
            FsError::StaleHandle => NfsStatus::Stale,
            FsError::InvalidData => NfsStatus::Io,
            FsError::ReadOnlyFilesystem => NfsStatus::Rofs,
            FsError::LeaderLeaseExpired => NfsStatus::Io,
            FsError::LeaderRejectedBeforeApply => NfsStatus::Io,
            FsError::ShuttingDown => NfsStatus::Io,
        }
    }
}

impl vstd::std_specs::convert::FromSpecImpl<FsError> for NfsStatus {
    open spec fn obeys_from_spec() -> bool {
        true
    }

    open spec fn from_spec(err: FsError) -> NfsStatus {
        nfs_status(err)
    }
}

impl From<NfsStatus> for FsError {
    fn from(status: NfsStatus) -> (err: Self) {
        match status {
            NfsStatus::Perm | NfsStatus::Acces => FsError::PermissionDenied,
            NfsStatus::NoEnt => FsError::NotFound,
            NfsStatus::Exist => FsError::Exists,
            NfsStatus::Inval | NfsStatus::BadType => FsError::InvalidArgument,
            NfsStatus::Io => FsError::IoError,
            NfsStatus::Rofs => FsError::ReadOnlyFilesystem,
            NfsStatus::NotEmpty => FsError::NotEmpty,
            NfsStatus::MLink => FsError::TooManyLinks,
            NfsStatus::NoSpc | NfsStatus::DQuot => FsError::NoSpace,
            NfsStatus::IsDir => FsError::IsDirectory,
            NfsStatus::NotDir => FsError::NotDirectory,
            NfsStatus::NameTooLong => FsError::NameTooLong,
            NfsStatus::NotSupp => FsError::NotSupported,
            NfsStatus::Stale => FsError::StaleHandle,
            NfsStatus::Other => FsError::IoError,
        }
    }
}

impl vstd::std_specs::convert::FromSpecImpl<NfsStatus> for FsError {
    open spec fn obeys_from_spec() -> bool {
        true
    }

    open spec fn from_spec(status: NfsStatus) -> FsError {
        status_error(status)
    }
}

/// The error numbers of the system that errors are reported to. They differ from one
/// operating system to another.
#[derive(Debug, Clone, Copy, PartialEq, Eq, Structural)]
pub struct Errnos {
    /// Permission denied.
    pub eacces: u32,
    /// Operation not permitted.
    pub eperm: u32,
    /// No such file or directory.
    pub enoent: u32,
    /// File exists.
    pub eexist: u32,
    /// Invalid argument.
    pub einval: u32,
    /// Input or output error.
    pub eio: u32,
    /// Directory not empty.
    pub enotempty: u32,
    /// Too many links.
    pub emlink: u32,
    /// No space left on device.
    pub enospc: u32,
    /// Is a directory.
    pub eisdir: u32,
    /// Not a directory.
    pub enotdir: u32,
    /// File name too long.
    pub enametoolong: u32,
    /// Function not implemented.
    pub enosys: u32,
    /// Stale file handle.
    pub estale: u32,
    /// Read-only file system.
    pub erofs: u32,
    /// The number that 9P reserves for a node that does not lead.
    pub enotleader: u32,
}

/// The number that reports `err`.
pub open spec fn errno(err: FsError, numbers: Errnos) -> u32 {
    match err {
        FsError::PermissionDenied => numbers.eacces,
        FsError::OperationNotPermitted => numbers.eperm,
        FsError::NotFound => numbers.enoent,
        FsError::Exists => numbers.eexist,
        FsError::InvalidArgument => numbers.einval,
        FsError::NotEmpty => numbers.enotempty,
        FsError::TooManyLinks => numbers.emlink,
        FsError::NoSpace => numbers.enospc,
        FsError::IsDirectory => numbers.eisdir,
        FsError::NotDirectory => numbers.enotdir,
        FsError::NameTooLong => numbers.enametoolong,
        FsError::NotSupported => numbers.enosys,
        FsError::StaleHandle => numbers.estale,
        FsError::ReadOnlyFilesystem => numbers.erofs,
        FsError::LeaderLeaseExpired | FsError::ShuttingDown => numbers.enotleader,
        FsError::IoError
        | FsError::CommitOutcomeUnknown
        | FsError::InvalidData
        | FsError::LeaderRejectedBeforeApply => numbers.eio,
    }
}

/// The filesystem error that the first carrying cause holds, or `IoError`.
pub open spec fn first_carried(causes: Seq<Option<FsError>>) -> FsError
    decreases causes.len(),
{
    if causes.len() == 0 {
        FsError::IoError
    } else {
        match causes[0] {
            Some(err) => err,
            None => first_carried(causes.drop_first()),
        }
    }
}

impl FsError {
    /// The error in words.
    pub fn message(self) -> (text: &'static str)
        ensures
            text@ == error_message(self),
    {
        match self {
            FsError::PermissionDenied => "Permission denied",
            FsError::OperationNotPermitted => "Operation not permitted",
            FsError::NotFound => "Not found",
            FsError::Exists => "Already exists",
            FsError::InvalidArgument => "Invalid argument",
            FsError::IoError => "I/O error",
            FsError::CommitOutcomeUnknown => "Commit outcome unknown after local apply",
            FsError::NotEmpty => "Directory not empty",
            FsError::TooManyLinks => "Too many links",
            FsError::NoSpace => "No space left",
            FsError::IsDirectory => "Is a directory",
            FsError::NotDirectory => "Not a directory",
            FsError::NameTooLong => "Name too long",
            FsError::NotSupported => "Not supported",
            FsError::StaleHandle => "Stale file handle",
            FsError::InvalidData => "Invalid data",
            FsError::ReadOnlyFilesystem => "Read-only file system",
            FsError::LeaderLeaseExpired => "Leader lease expired (not the current leader)",
            FsError::LeaderRejectedBeforeApply => "Leader rejected before applying the operation",
            FsError::ShuttingDown => "Server shutting down",
        }
    }

    /// Preserve a filesystem error that a storage failure carries along its chain
    /// of causes, outermost first. Unknown storage failures remain ordinary I/O
    /// errors.
    pub fn from_db_error(causes: &[Option<FsError>]) -> (err: Self)
        ensures
            err == first_carried(causes@),
    {
        let mut i: usize = 0;
        assert(causes@.skip(0) =~= causes@);
        while i < causes.len()
            invariant
                i <= causes@.len(),
                first_carried(causes@) == first_carried(causes@.skip(i as int)),
            decreases causes@.len() - i,
        {
            if let Some(err) = causes[i] {
                return err;
            }
            assert(causes@.skip(i as int).drop_first() =~= causes@.skip(i + 1));
            i += 1;
        }
        FsError::IoError
    }

    /// The system's number for this error. A node that does not lead reports a number of
    /// its own (not `EIO`), so that a failover-aware 9P client looks for the current
    /// leader and resends instead of failing. A batch rejected before it was applied is
    /// an ordinary I/O failure here.
    pub fn to_errno(self, numbers: &Errnos) -> (number: u32)
        ensures
            number == errno(self, *numbers),
    {
        match self {
            FsError::PermissionDenied => numbers.eacces,
            FsError::OperationNotPermitted => numbers.eperm,
            FsError::NotFound => numbers.enoent,
            FsError::Exists => numbers.eexist,
            FsError::InvalidArgument => numbers.einval,
            FsError::IoError => numbers.eio,
            FsError::CommitOutcomeUnknown => numbers.eio,
            FsError::NotEmpty => numbers.enotempty,
            FsError::TooManyLinks => numbers.emlink,
            FsError::NoSpace => numbers.enospc,
            FsError::IsDirectory => numbers.eisdir,
            FsError::NotDirectory => numbers.enotdir,
            FsError::NameTooLong => numbers.enametoolong,
            FsError::NotSupported => numbers.enosys,
            FsError::StaleHandle => numbers.estale,
            FsError::InvalidData => numbers.eio,
            FsError::ReadOnlyFilesystem => numbers.erofs,
            FsError::LeaderLeaseExpired => numbers.enotleader,
            FsError::LeaderRejectedBeforeApply => numbers.eio,
            FsError::ShuttingDown => numbers.enotleader,
        }
    }
}

/// An error that NFS has a status for comes back from it: every error but those that NFS
/// reports as a plain I/O failure, and the missing privilege, which comes back as a
/// missing permission.
pub proof fn law_nfs_status_roundtrips(err: FsError)
    ensures
        nfs_status(err) != NfsStatus::Io && err != FsError::OperationNotPermitted ==> status_error(
            nfs_status(err),
        ) == err,
        nfs_status(err) == NfsStatus::Io ==> status_error(nfs_status(err)) == FsError::IoError,
        err == FsError::OperationNotPermitted ==> status_error(nfs_status(err))
            == FsError::PermissionDenied,
{
}

/// A cause that carries a filesystem error is never lost, however much context
/// without one was added around it.
pub proof fn law_context_preserves_carried_error(
    context: Seq<Option<FsError>>,
    err: FsError,
    rest: Seq<Option<FsError>>,
)
    requires
        forall|i: int| 0 <= i < context.len() ==> context[i] is None,
    ensures
        first_carried(context.push(Some(err)) + rest) == err,
    decreases context.len(),
{
    let causes = context.push(Some(err)) + rest;
    if context.len() > 0 {
        law_context_preserves_carried_error(context.drop_first(), err, rest);
        assert(causes.drop_first() =~= context.drop_first().push(Some(err)) + rest);
    }
}

} // verus!
