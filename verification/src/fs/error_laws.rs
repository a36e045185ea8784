//! What is told of an error, said of what goes in and what comes out.

use super::errors::Errnos;
use super::errors::FsError;
use super::errors::NfsStatus;
use vstd::prelude::*;

verus! {

/// Each NFS status reports one error, but for the plain I/O failure, which reports every
/// error that NFS has no status for.
pub proof fn law_each_status_reports_one_error(err: FsError, status: NfsStatus)
    requires
        call_ensures(<NfsStatus as From<FsError>>::from, (err,), status),
    ensures
        status is Acces <==> err is PermissionDenied,
        status is Perm <==> err is OperationNotPermitted,
        status is NoEnt <==> err is NotFound,
        status is Exist <==> err is Exists,
        status is Inval <==> err is InvalidArgument,
        status is NotEmpty <==> err is NotEmpty,
        status is MLink <==> err is TooManyLinks,
        status is NoSpc <==> err is NoSpace,
        status is IsDir <==> err is IsDirectory,
        status is NotDir <==> err is NotDirectory,
        status is NameTooLong <==> err is NameTooLong,
        status is NotSupp <==> err is NotSupported,
        status is Stale <==> err is StaleHandle,
        status is Rofs <==> err is ReadOnlyFilesystem,
        status is Io <==> err is IoError || err is CommitOutcomeUnknown || err is InvalidData
            || err is LeaderLeaseExpired || err is LeaderRejectedBeforeApply
            || err is ShuttingDown,
{
}

/// What a status is taken for: the error that it reports, or the nearest that there is.
pub proof fn law_each_status_is_taken_for_its_error(status: NfsStatus, err: FsError)
    requires
        call_ensures(<FsError as From<NfsStatus>>::from, (status,), err),
    ensures
        err is PermissionDenied <==> status is Perm || status is Acces,
        err is NotFound <==> status is NoEnt,
        err is Exists <==> status is Exist,
        err is InvalidArgument <==> status is Inval || status is BadType,
        err is ReadOnlyFilesystem <==> status is Rofs,
        err is NotEmpty <==> status is NotEmpty,
        err is TooManyLinks <==> status is MLink,
        err is NoSpace <==> status is NoSpc || status is DQuot,
        err is IsDirectory <==> status is IsDir,
        err is NotDirectory <==> status is NotDir,
        err is NameTooLong <==> status is NameTooLong,
        err is NotSupported <==> status is NotSupp,
        err is StaleHandle <==> status is Stale,
        err is IoError <==> status is Io || status is Other,
{
}

/// The error numbers of a system tell its errors apart.
pub open spec fn all_differ(numbers: Errnos) -> bool {
    let n = seq![
        numbers.eacces,
        numbers.eperm,
        numbers.enoent,
        numbers.eexist,
        numbers.einval,
        numbers.eio,
        numbers.enotempty,
        numbers.emlink,
        numbers.enospc,
        numbers.eisdir,
        numbers.enotdir,
        numbers.enametoolong,
        numbers.enosys,
        numbers.estale,
        numbers.erofs,
        numbers.enotleader,
    ];
    forall|i: int, j: int| 0 <= i < j < n.len() ==> #[trigger] n[i] != #[trigger] n[j]
}

/// Each number reports one error on a system whose numbers differ, but for the plain I/O
/// failure and the node that does not lead. A batch that was rejected before it was applied
/// is an I/O failure; an expired lease and a shutdown are not.
pub proof fn law_each_number_reports_one_error(err: FsError, numbers: &Errnos, number: u32)
    requires
        call_ensures(FsError::to_errno, (err, numbers), number),
        all_differ(*numbers),
    ensures
        number == numbers.eacces <==> err is PermissionDenied,
        number == numbers.eperm <==> err is OperationNotPermitted,
        number == numbers.enoent <==> err is NotFound,
        number == numbers.eexist <==> err is Exists,
        number == numbers.einval <==> err is InvalidArgument,
        number == numbers.enotempty <==> err is NotEmpty,
        number == numbers.emlink <==> err is TooManyLinks,
        number == numbers.enospc <==> err is NoSpace,
        number == numbers.eisdir <==> err is IsDirectory,
        number == numbers.enotdir <==> err is NotDirectory,
        number == numbers.enametoolong <==> err is NameTooLong,
        number == numbers.enosys <==> err is NotSupported,
        number == numbers.estale <==> err is StaleHandle,
        number == numbers.erofs <==> err is ReadOnlyFilesystem,
        number == numbers.enotleader <==> err is LeaderLeaseExpired || err is ShuttingDown,
        number == numbers.eio <==> err is IoError || err is CommitOutcomeUnknown
            || err is InvalidData || err is LeaderRejectedBeforeApply,
{
    let n = seq![
        numbers.eacces,
        numbers.eperm,
        numbers.enoent,
        numbers.eexist,
        numbers.einval,
        numbers.eio,
        numbers.enotempty,
        numbers.emlink,
        numbers.enospc,
        numbers.eisdir,
        numbers.enotdir,
        numbers.enametoolong,
        numbers.enosys,
        numbers.estale,
        numbers.erofs,
        numbers.enotleader,
    ];
    assert(n[0] == numbers.eacces && n[1] == numbers.eperm && n[2] == numbers.enoent);
    assert(n[3] == numbers.eexist && n[4] == numbers.einval && n[5] == numbers.eio);
    assert(n[6] == numbers.enotempty && n[7] == numbers.emlink && n[8] == numbers.enospc);
    assert(n[9] == numbers.eisdir && n[10] == numbers.enotdir && n[11] == numbers.enametoolong);
    assert(n[12] == numbers.enosys && n[13] == numbers.estale && n[14] == numbers.erofs);
    assert(n[15] == numbers.enotleader);
}

/// A failure of storage is the first filesystem error along its causes, outermost first,
/// and an I/O failure exactly if no cause carries another.
pub proof fn law_first_carried_error_is_told(causes: &[Option<FsError>], err: FsError)
    requires
        call_ensures(FsError::from_db_error, (causes,), err),
    ensures
        (forall|i: int| 0 <= i < causes@.len() ==> causes@[i] is None) ==> err == FsError::IoError,
        forall|i: int|
            0 <= i < causes@.len() && causes@[i] is Some && (forall|j: int|
                0 <= j < i ==> causes@[j] is None) ==> Some(err) == #[trigger] causes@[i],
{
    assert forall|i: int|
        0 <= i < causes@.len() && causes@[i] is Some && (forall|j: int|
            0 <= j < i ==> causes@[j] is None) implies Some(err) == #[trigger] causes@[i] by {
        lemma_first_carried(causes@, i);
    }
    if forall|i: int| 0 <= i < causes@.len() ==> causes@[i] is None {
        lemma_none_carried(causes@);
    }
}

proof fn lemma_first_carried(causes: Seq<Option<FsError>>, i: int)
    requires
        0 <= i < causes.len(),
        causes[i] is Some,
        forall|j: int| 0 <= j < i ==> causes[j] is None,
    ensures
        Some(super::errors::first_carried(causes)) == causes[i],
    decreases i,
{
    if i > 0 {
        lemma_first_carried(causes.drop_first(), i - 1);
    }
}

proof fn lemma_none_carried(causes: Seq<Option<FsError>>)
    requires
        forall|j: int| 0 <= j < causes.len() ==> causes[j] is None,
    ensures
        super::errors::first_carried(causes) == FsError::IoError,
    decreases causes.len(),
{
    if causes.len() > 0 {
        lemma_none_carried(causes.drop_first());
    }
}

} // verus!
