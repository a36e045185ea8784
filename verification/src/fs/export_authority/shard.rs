//! Exclusive ownership of an export shard by one process, decided from file metadata.

use super::rules::valid_id;
use super::rules::validate_id;
use super::rules::verdict;
use super::types::ExportAuthorityError;
use crate::outside::sha256;
use crate::outside::sha256_digest;
use crate::text::hex;
use crate::text::put_hex;
use vstd::prelude::*;
use vstd::string::StringExecFns;
use vstd::utf8::encode_utf8;

verus! {

/// Which directory and lock file a shard is configured with.
#[derive(Debug, Clone, Copy, PartialEq, Eq, Structural)]
pub struct ShardLockIdentity {
    pub directory_device: u64,
    pub directory_inode: u64,
    pub lock_device: u64,
    pub lock_inode: u64,
}

/// What the directory and the lock file must be.
#[derive(Debug, Clone, Copy, PartialEq, Eq, Structural)]
pub struct ShardGuardValidation {
    pub identity: ShardLockIdentity,
    pub directory_uid: u32,
    pub lock_uid: u32,
    pub gid: u32,
    pub directory_mode: u32,
    pub lock_mode: u32,
}

/// What was found of a file or directory.
#[derive(Debug, Clone, Copy, PartialEq, Eq, Structural)]
pub struct FileFacts {
    pub is_dir: bool,
    pub is_file: bool,
    pub uid: u32,
    pub gid: u32,
    pub mode: u32,
    pub links: u64,
    pub device: u64,
    pub inode: u64,
}

/// The permission bits of a file mode.
pub open spec fn permissions(mode: u32) -> int {
    mode as int % 0o10000
}

/// The directory that was opened is the configured one, with its owner and mode.
pub open spec fn directory_accepted(found: FileFacts, expected: ShardGuardValidation) -> bool {
    &&& found.is_dir
    &&& found.uid == expected.directory_uid
    &&& found.gid == expected.gid
    &&& permissions(found.mode) == expected.directory_mode
    &&& found.device == expected.identity.directory_device
    &&& found.inode == expected.identity.directory_inode
}

/// The lock file that was opened is the configured one, with its owner, mode and one
/// link.
pub open spec fn lock_accepted(found: FileFacts, expected: ShardGuardValidation) -> bool {
    &&& found.is_file
    &&& found.uid == expected.lock_uid
    &&& found.gid == expected.gid
    &&& permissions(found.mode) == expected.lock_mode
    &&& found.links == 1
    &&& found.device == expected.identity.lock_device
    &&& found.inode == expected.identity.lock_inode
}

/// Checks the shard's name and the directory that was opened for it.
pub fn check_directory(
    shard_id: &str,
    found: &FileFacts,
    expected: &ShardGuardValidation,
) -> (result: Result<(), ExportAuthorityError>)
    ensures
        result == verdict(
            valid_id(shard_id@) && directory_accepted(*found, *expected),
            ExportAuthorityError::Invalid,
        ),
{
    validate_id(shard_id)?;
    if !found.is_dir || found.uid != expected.directory_uid || found.gid != expected.gid
        || found.mode % 0o10000 != expected.directory_mode || found.device
        != expected.identity.directory_device || found.inode
        != expected.identity.directory_inode {
        return Err(ExportAuthorityError::Invalid);
    }
    Ok(())
}

/// Checks the lock file that was opened.
pub fn check_lock(found: &FileFacts, expected: &ShardGuardValidation) -> (result: Result<
    (),
    ExportAuthorityError,
>)
    ensures
        result == verdict(lock_accepted(*found, *expected), ExportAuthorityError::Invalid),
{
    if !found.is_file || found.uid != expected.lock_uid || found.gid != expected.gid || found.mode
        % 0o10000 != expected.lock_mode || found.links != 1 || found.device
        != expected.identity.lock_device || found.inode != expected.identity.lock_inode {
        return Err(ExportAuthorityError::Invalid);
    }
    Ok(())
}

/// Who runs this process.
pub struct ProcessFacts {
    pub effective_uid: u32,
    pub effective_gid: u32,
    /// The supplementary groups, unless the system would not say.
    pub groups: Option<Vec<u32>>,
}

/// Why a process is not the configured worker, which is not root, in its group. The
/// supplementary groups are asked for only where they decide.
pub open spec fn worker_fault(
    absolute_root: bool,
    process: ProcessFacts,
    worker_uid: u32,
    worker_gid: u32,
) -> Option<ExportAuthorityError> {
    if !absolute_root || worker_uid == 0 || process.effective_uid != worker_uid {
        Some(ExportAuthorityError::Invalid)
    } else if process.effective_gid == worker_gid {
        None
    } else {
        match process.groups {
            None => Some(ExportAuthorityError::Storage),
            Some(groups) => if groups@.contains(worker_gid) {
                None
            } else {
                Some(ExportAuthorityError::Invalid)
            },
        }
    }
}

/// What a configured shard demands of its directory and lock: the directory is root's
/// and closed to others, the lock is the worker's alone.
pub open spec fn configured_validation(
    identity: ShardLockIdentity,
    worker_uid: u32,
    worker_gid: u32,
) -> ShardGuardValidation {
    ShardGuardValidation {
        identity,
        directory_uid: 0,
        lock_uid: worker_uid,
        gid: worker_gid,
        directory_mode: 0o750,
        lock_mode: 0o600,
    }
}

fn holds(groups: &Vec<u32>, gid: u32) -> (found: bool)
    ensures
        found == groups@.contains(gid),
{
    let mut i: usize = 0;
    while i < groups.len()
        invariant
            i <= groups@.len(),
            forall|k: int| 0 <= k < i ==> groups@[k] != gid,
        decreases groups@.len() - i,
    {
        if groups[i] == gid {
            return true;
        }
        i += 1;
    }
    false
}

/// Checks who runs this process and says what the shard's files must be.
pub fn configure_guard(
    absolute_root: bool,
    process: &ProcessFacts,
    worker_uid: u32,
    worker_gid: u32,
    identity: ShardLockIdentity,
) -> (result: Result<ShardGuardValidation, ExportAuthorityError>)
    ensures
        match worker_fault(absolute_root, *process, worker_uid, worker_gid) {
            None => result == Ok::<ShardGuardValidation, ExportAuthorityError>(
                configured_validation(identity, worker_uid, worker_gid),
            ),
            Some(error) => result == Err::<ShardGuardValidation, ExportAuthorityError>(error),
        },
{
    if !absolute_root || worker_uid == 0 || process.effective_uid != worker_uid {
        return Err(ExportAuthorityError::Invalid);
    }
    if process.effective_gid != worker_gid {
        match &process.groups {
            None => {
                return Err(ExportAuthorityError::Storage);
            },
            Some(groups) => {
                if !holds(groups, worker_gid) {
                    return Err(ExportAuthorityError::Invalid);
                }
            },
        }
    }
    Ok(
        ShardGuardValidation {
            identity,
            directory_uid: 0,
            lock_uid: worker_uid,
            gid: worker_gid,
            directory_mode: 0o750,
            lock_mode: 0o600,
        },
    )
}

/// The name of a shard's lock file: the digest of its identifier in hexadecimal.
pub open spec fn lock_name(shard_id: Seq<char>) -> Seq<char> {
    "rhizome-shard-"@ + hex(sha256(encode_utf8(shard_id))@) + ".lock"@
}

/// The name of a shard's lock file.
pub fn shard_lock_name(shard_id: &str) -> (name: String)
    ensures
        name@ == lock_name(shard_id@),
{
    let digest = sha256_digest(shard_id.as_bytes());
    let mut name = "rhizome-shard-".to_owned();
    put_hex(&mut name, &digest);
    name.append(".lock");
    name
}

} // verus!
