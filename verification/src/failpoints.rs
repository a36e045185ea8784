//! The names of the points at which a test can make the filesystem fail, and the widening
//! of the windows between them.

use crate::wire::same_str;
use vstd::prelude::*;

verus! {

pub const WRITE_AFTER_EXTENT: &'static str = "write_after_extent";
pub const WRITE_AFTER_INODE: &'static str = "write_after_inode";
pub const WRITE_AFTER_COMMIT: &'static str = "write_after_commit";

/// A Workspace ledger record is durable, but the caller has not observed the
/// successful commit response. Readback must return the original record.
pub const WORKSPACE_OPERATION_AFTER_COMMIT_BEFORE_REPLY: &'static str =
    "workspace_operation_after_commit_before_reply";

/// Genesis physical state and reverse bindings are durable, but the caller did
/// not observe the materialization receipt.
pub const WORKSPACE_GENESIS_AFTER_COMMIT_BEFORE_REPLY: &'static str =
    "workspace_genesis_after_commit_before_reply";

pub const FALLOCATE_AFTER_EXTENTS: &'static str = "fallocate_after_extents";
pub const FALLOCATE_AFTER_INODE: &'static str = "fallocate_after_inode";
pub const FALLOCATE_AFTER_COMMIT: &'static str = "fallocate_after_commit";

pub const CREATE_AFTER_INODE: &'static str = "create_after_inode";
pub const CREATE_AFTER_DIR_ENTRY: &'static str = "create_after_dir_entry";
pub const CREATE_AFTER_COMMIT: &'static str = "create_after_commit";

pub const REMOVE_AFTER_INODE_DELETE: &'static str = "remove_after_inode_delete";
pub const REMOVE_AFTER_TOMBSTONE: &'static str = "remove_after_tombstone";
pub const REMOVE_AFTER_DIR_UNLINK: &'static str = "remove_after_dir_unlink";
pub const REMOVE_AFTER_COMMIT: &'static str = "remove_after_commit";
pub const REMOVE_AFTER_ORPHAN_ADD: &'static str = "remove_after_orphan_add";

pub const CLUNK_AFTER_RECLAIM_INODE_DELETE: &'static str = "clunk_after_reclaim_inode_delete";

/// `lock()`, between registering the lock and installing its guard. Pausing
/// here drives the Tlock-vs-Tversion/clunk race in tests.
pub const LOCK_AFTER_REGISTER_BEFORE_GUARD: &'static str = "lock_after_register_before_guard";

/// `reclaim_if_unreferenced`, before taking the inode lock. Lets a reopen win
/// the lock first, so reclaim's recheck must abort.
pub const RECLAIM_BEFORE_LOCK: &'static str = "reclaim_before_lock";

/// `reclaim_if_unreferenced`, after the recheck and holding the inode lock,
/// before the delete. A reopen racing in here blocks, then sees the inode gone.
pub const RECLAIM_HOLDING_LOCK_BEFORE_DELETE: &'static str = "reclaim_holding_lock_before_delete";

/// HA startup orphan drain, immediately before initializing the durable orphan
/// scan. Return-style: `fail::cfg(STARTUP_ORPHAN_LIST_INIT, "return")`.
pub const STARTUP_ORPHAN_LIST_INIT: &'static str = "startup_orphan_list_init";

pub const RENAME_AFTER_TARGET_DELETE: &'static str = "rename_after_target_delete";
pub const RENAME_AFTER_SOURCE_UNLINK: &'static str = "rename_after_source_unlink";
pub const RENAME_AFTER_NEW_ENTRY: &'static str = "rename_after_new_entry";
pub const RENAME_AFTER_COMMIT: &'static str = "rename_after_commit";

pub const GC_AFTER_EXTENT_DELETE: &'static str = "gc_after_extent_delete";
pub const GC_AFTER_TOMBSTONE_UPDATE: &'static str = "gc_after_tombstone_update";

pub const LINK_AFTER_DIR_ENTRY: &'static str = "link_after_dir_entry";
pub const LINK_AFTER_INODE: &'static str = "link_after_inode";
pub const LINK_AFTER_COMMIT: &'static str = "link_after_commit";

pub const SYMLINK_AFTER_INODE: &'static str = "symlink_after_inode";
pub const SYMLINK_AFTER_DIR_ENTRY: &'static str = "symlink_after_dir_entry";
pub const SYMLINK_AFTER_COMMIT: &'static str = "symlink_after_commit";

pub const MKDIR_AFTER_INODE: &'static str = "mkdir_after_inode";
pub const MKDIR_AFTER_DIR_ENTRY: &'static str = "mkdir_after_dir_entry";
pub const MKDIR_AFTER_COMMIT: &'static str = "mkdir_after_commit";

pub const TRUNCATE_AFTER_EXTENTS: &'static str = "truncate_after_extents";
pub const TRUNCATE_AFTER_INODE: &'static str = "truncate_after_inode";
pub const TRUNCATE_AFTER_COMMIT: &'static str = "truncate_after_commit";

pub const MKNOD_AFTER_INODE: &'static str = "mknod_after_inode";
pub const MKNOD_AFTER_DIR_ENTRY: &'static str = "mknod_after_dir_entry";
pub const MKNOD_AFTER_COMMIT: &'static str = "mknod_after_commit";

pub const RMDIR_AFTER_INODE_DELETE: &'static str = "rmdir_after_inode_delete";
pub const RMDIR_AFTER_DIR_CLEANUP: &'static str = "rmdir_after_dir_cleanup";

pub const FLUSH_AFTER_COMPLETE: &'static str = "flush_after_complete";

/// A SlateDB manifest PUT is blocked until the current ZeroFS segment PUT
/// succeeds.
pub const MANIFEST_PUBLICATION_WAITING: &'static str = "manifest_publication_waiting";

// Data plane (extent-over-segments).

/// Flush path, after the open segment is sealed + PUT but before the metadata
/// manifest is made durable. A crash here must leave the recovered state
/// consistent: the just-PUT segment is orphaned (no durable FrameLoc references it,
/// so it is reclaimable), and never a durable FrameLoc pointing at a missing one.
pub const FLUSH_AFTER_SEAL_BEFORE_MANIFEST: &'static str = "flush_after_seal_before_manifest";

/// Compaction, after the packed segment is sealed + PUT but before any extent is
/// repointed to it. A crash here must keep every source frame readable (the repoint
/// never committed), so no relocated data is lost; the packed segment is orphaned.
pub const COMPACT_AFTER_SEAL_BEFORE_REPOINT: &'static str = "compact_after_seal_before_repoint";

/// `reclaim_segments_gated`, after the durable barrier and gate, before the
/// segcount scan. A crash here lands between "everything committed so far is
/// durable" and "the pass acted on it".
pub const RECLAIM_AFTER_BARRIER_BEFORE_SCAN: &'static str = "reclaim_after_barrier_before_scan";

/// Compaction, between the repoint commits of two inodes of one pack. A crash here
/// leaves some inodes at the pack and the rest at their source segments.
pub const COMPACT_BETWEEN_REPOINTS: &'static str = "compact_between_repoints";

/// `reclaim_segments_gated`, after the directory verify and before the
/// irreversible object delete. Widening it tests the "no frame points here
/// is a permanent verdict" claim the delete rests on.
pub const RECLAIM_AFTER_VERIFY_BEFORE_DELETE: &'static str = "reclaim_after_verify_before_delete";

/// The coalesced run read, after the FrameLocs are resolved and before the
/// segment GET. Widening it lets a repoint+delete 404 the segment mid-read,
/// forcing the per-extent re-resolve fallback.
pub const READ_AFTER_RESOLVE_BEFORE_FETCH: &'static str = "read_after_resolve_before_fetch";

/// Segment reclaim, after a dead segment's object is deleted but before its
/// `segcount` counter key is dropped. A crash here must not dangle (the segment was
/// directory-verified dead before deletion); the stale counter is a benign leak.
pub const RECLAIM_AFTER_SEGMENT_DELETE: &'static str = "reclaim_after_segment_delete";

/// Synchronous open-segment seal (the flush/fsync path), forcing the directory
/// seal to return an error (a non-crash failure, e.g. an AEAD seal error). The
/// open buffer and its already-committed FrameLocs must survive intact so a retry
/// can seal them, rather than being dropped into a dangling pointer. Return-style:
/// `fail::cfg(SEAL_OPEN_FAIL, "return")`.
pub const SEAL_OPEN_FAIL: &'static str = "seal_open_fail";

/// How long to wait at `point` to widen the window there: `armed` is the point that was
/// armed with its delay, if the arming thread is this one.
pub fn widen_millis(armed: Option<(&str, u64)>, point: &str) -> (millis: Option<u64>)
    ensures
        millis == (match armed {
            Some((name, delay)) if name@ == point@ => Some(delay),
            _ => None,
        }),
{
    match armed {
        Some((name, delay)) => if same_str(name, point) {
            Some(delay)
        } else {
            None
        },
        None => None,
    }
}

} // verus!
