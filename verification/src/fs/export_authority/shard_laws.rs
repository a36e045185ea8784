//! Which process may own an export shard, said of what goes in and what comes out.

use super::rule_laws::is_identifier;
use super::rule_laws::lemma_identifiers;
use super::shard::check_directory;
use super::shard::check_lock;
use super::shard::configure_guard;
use super::shard::shard_lock_name;
use super::shard::FileFacts;
use super::shard::ProcessFacts;
use super::shard::ShardGuardValidation;
use super::shard::ShardLockIdentity;
use super::types::ExportAuthorityError;
use crate::outside::sha256;
use crate::text::hex;
use vstd::prelude::*;
use vstd::utf8::encode_utf8;

verus! {

/// A shard's directory is accepted exactly if it is a directory, the configured one by
/// device and inode, with the configured owner, group and permissions, and the shard has a
/// name. Of the mode only the permission bits count.
pub proof fn law_directory_is_the_configured_one(
    shard_id: &str,
    found: &FileFacts,
    expected: &ShardGuardValidation,
    result: Result<(), ExportAuthorityError>,
)
    requires
        call_ensures(check_directory, (shard_id, found, expected), result),
    ensures
        result is Ok <==> {
            &&& is_identifier(shard_id@)
            &&& found.is_dir
            &&& found.uid == expected.directory_uid
            &&& found.gid == expected.gid
            &&& found.mode % 4096 == expected.directory_mode
            &&& found.device == expected.identity.directory_device
            &&& found.inode == expected.identity.directory_inode
        },
        result matches Err(e) ==> e == ExportAuthorityError::Invalid,
{
    lemma_identifiers();
}

/// A lock file is accepted exactly if it is a file with no other name, the configured one
/// by device and inode, with the configured owner, group and permissions.
pub proof fn law_lock_is_the_configured_one(
    found: &FileFacts,
    expected: &ShardGuardValidation,
    result: Result<(), ExportAuthorityError>,
)
    requires
        call_ensures(check_lock, (found, expected), result),
    ensures
        result is Ok <==> {
            &&& found.is_file
            &&& found.uid == expected.lock_uid
            &&& found.gid == expected.gid
            &&& found.mode % 4096 == expected.lock_mode
            &&& found.links == 1
            &&& found.device == expected.identity.lock_device
            &&& found.inode == expected.identity.lock_inode
        },
        result matches Err(e) ==> e == ExportAuthorityError::Invalid,
{
}

/// A process may guard a shard exactly if the root is absolute, it runs as the configured
/// worker, which is not root, and it is in the worker's group, by its effective group or
/// else by a supplementary one. Where those decide and cannot be told, that is a failure of
/// storage.
pub proof fn law_guard_is_the_worker_in_its_group(
    absolute_root: bool,
    process: &ProcessFacts,
    worker_uid: u32,
    worker_gid: u32,
    identity: ShardLockIdentity,
    result: Result<ShardGuardValidation, ExportAuthorityError>,
)
    requires
        call_ensures(
            configure_guard,
            (absolute_root, process, worker_uid, worker_gid, identity),
            result,
        ),
    ensures
        ({
            let worker = absolute_root && worker_uid != 0 && process.effective_uid == worker_uid;
            let supplementary = process.groups matches Some(groups) && exists|i: int|
                0 <= i < groups@.len() && #[trigger] groups@[i] == worker_gid;
            let grouped = process.effective_gid == worker_gid || supplementary;
            &&& result is Ok <==> worker && grouped
            &&& !worker ==> (result matches Err(ExportAuthorityError::Invalid))
            &&& worker && !grouped && process.groups is None ==> (result matches Err(
                ExportAuthorityError::Storage,
            ))
            &&& worker && !grouped && process.groups is Some ==> (result matches Err(
                ExportAuthorityError::Invalid,
            ))
        }),
        result matches Ok(demanded) ==> {
            &&& demanded.identity == identity
            &&& demanded.directory_uid == 0
            &&& demanded.lock_uid == worker_uid
            &&& demanded.gid == worker_gid
            &&& demanded.directory_mode == 0o750
            &&& demanded.lock_mode == 0o600
        },
{
    if let Some(groups) = process.groups {
        if groups@.contains(worker_gid) {
            let i = choose|i: int| 0 <= i < groups@.len() && groups@[i] == worker_gid;
            assert(groups@[i] == worker_gid);
        }
    }
}

/// A lock file is named after the digest of the shard's own name and nothing else.
pub proof fn law_lock_is_named_after_its_shard(shard_id: &str, name: String)
    requires
        call_ensures(shard_lock_name, (shard_id,), name),
    ensures
        name@ == "rhizome-shard-"@ + hex(sha256(encode_utf8(shard_id@))@) + ".lock"@,
{
}

} // verus!
