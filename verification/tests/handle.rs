use zerofs::fs::errors::FsError;
use zerofs::fs::handle::drain_orphans;
use zerofs::fs::handle::drainer_step;
use zerofs::fs::handle::DataDisposal;
use zerofs::fs::handle::DeletedKind;
use zerofs::fs::handle::DrainerAction;
use zerofs::fs::handle::DrainerEvent;
use zerofs::fs::handle::DrainerState;
use zerofs::fs::handle::ReclaimDecision;
use zerofs::fs::inode::FileInode;
use zerofs::fs::inode::Inode;
use zerofs::fs::metrics::FsMetrics;
use zerofs::fs::FsLimits;
use zerofs::fs::ZeroFS;

fn new_fs() -> ZeroFS {
    ZeroFS::new(FsLimits {
        max_bytes: u64::MAX,
        extent_size: 100,
        small_file_extents: 10,
    })
}

fn unlinked(size: u64) -> Inode {
    Inode::File(FileInode {
        size,
        nlink: 0,
        uid: 0,
        mode: 0o644,
        mtime: 0,
        mtime_nsec: 0,
        ctime: 0,
        ctime_nsec: 0,
        parent: None,
        name: None,
    })
}

fn delete(kind: DeletedKind, data: DataDisposal, freed_bytes: u64) -> ReclaimDecision {
    ReclaimDecision::Delete {
        kind,
        data,
        freed_bytes,
    }
}

#[test]
fn test_open_unlink_read_via_open_fid() {
    let mut fs = new_fs();
    let handle = fs.new_open_handle(7);
    assert_eq!(handle.inode_id(), 7);
    assert!(fs.should_defer_unlinked_inode(7, false));
    fs.release_handle(handle);
    assert_eq!(fs.open_handle_count(7), 0);
    assert_eq!(fs.next_reclaim(), Some(7));
    assert_eq!(fs.next_reclaim(), None);
    assert!(fs.reclaim_if_unreferenced(7, false));
    assert_eq!(
        fs.reclaim_orphan_inode(Ok(&unlinked(250))),
        Ok(delete(
            DeletedKind::File,
            DataDisposal::DeleteExtents { count: 3 },
            250
        ))
    );
}

#[test]
fn post_commit_schedule_rechecks_expired_deferral_protection() {
    let mut fs = new_fs();
    fs.schedule_deferred_orphan_reclaim(7, true);
    assert_eq!(fs.next_reclaim(), None);
    fs.schedule_deferred_orphan_reclaim(7, false);
    assert_eq!(fs.next_reclaim(), Some(7));
    fs.open_handle_inc(7);
    fs.schedule_deferred_orphan_reclaim(7, false);
    assert_eq!(fs.next_reclaim(), None);
}

#[test]
fn reclaim_drainer_shutdown_waits_for_queued_work_and_closes_queue() {
    let (state, action) = drainer_step(DrainerState::Running, DrainerEvent::Received(1), true);
    assert_eq!(
        (state, action),
        (DrainerState::Running, DrainerAction::Reclaim(1))
    );
    let (state, action) = drainer_step(state, DrainerEvent::Shutdown, true);
    assert_eq!(
        (state, action),
        (DrainerState::Draining, DrainerAction::CloseQueue)
    );
    let (state, action) = drainer_step(state, DrainerEvent::Received(2), true);
    assert_eq!(
        (state, action),
        (DrainerState::Draining, DrainerAction::Reclaim(2))
    );
    let (state, action) = drainer_step(state, DrainerEvent::Shutdown, true);
    assert_eq!(
        (state, action),
        (DrainerState::Draining, DrainerAction::Wait)
    );
    assert_eq!(
        drainer_step(state, DrainerEvent::QueueEnded, true).1,
        DrainerAction::Stop
    );
    assert_eq!(
        drainer_step(DrainerState::Running, DrainerEvent::Received(3), false).1,
        DrainerAction::Stop
    );
}

#[test]
fn test_reclaim_aborts_on_concurrent_reopen() {
    let mut fs = new_fs();
    fs.open_handle_inc(7);
    assert!(fs.handle_closed(7));
    fs.open_handle_inc(7);
    assert!(!fs.reclaim_if_unreferenced(7, false));
    assert!(fs.handle_closed(7));
    assert!(fs.reclaim_if_unreferenced(7, false));
    assert!(!fs.reclaim_if_unreferenced(7, true));
}

#[test]
fn test_open_unlink_fifo_defers_and_reclaims() {
    let mut fs = new_fs();
    fs.open_handle_inc(9);
    assert!(fs.should_defer_unlinked_inode(9, false));
    assert!(fs.handle_closed(9));
    assert_eq!(
        fs.reclaim_orphan_inode(Ok(&Inode::Special { nlink: 0 })),
        Ok(delete(DeletedKind::Special, DataDisposal::Nothing, 0))
    );
}

#[test]
fn test_open_unlink_symlink_defers_and_reclaims() {
    let mut fs = new_fs();
    fs.open_handle_inc(9);
    assert!(fs.should_defer_unlinked_inode(9, false));
    assert!(!fs.reclaim_if_unreferenced(9, false));
    assert!(fs.handle_closed(9));
    assert!(fs.reclaim_if_unreferenced(9, false));
    assert_eq!(
        fs.reclaim_orphan_inode(Ok(&Inode::Symlink { nlink: 0 })),
        Ok(delete(DeletedKind::Symlink, DataDisposal::Nothing, 0))
    );
}

#[test]
fn test_unlink_no_handle_deletes_immediately() {
    let fs = new_fs();
    assert!(!fs.should_defer_unlinked_inode(7, false));
    assert!(fs.should_defer_unlinked_inode(7, true));
}

#[test]
fn test_open_unlink_two_handles() {
    let mut fs = new_fs();
    let first = fs.new_open_handle(7);
    let second = fs.new_open_handle(7);
    assert_eq!(fs.open_handle_count(7), 2);
    fs.release_handle(first);
    assert_eq!(fs.next_reclaim(), None);
    assert!(!fs.reclaim_if_unreferenced(7, false));
    fs.release_handle(second);
    assert_eq!(fs.next_reclaim(), Some(7));
}

#[test]
fn test_link_resurrects_open_unlinked_clears_orphan() {
    let fs = new_fs();
    assert_eq!(
        fs.reclaim_orphan_inode(Ok(&Inode::Symlink { nlink: 1 })),
        Ok(ReclaimDecision::ClearOrphanKey)
    );
    assert_eq!(
        fs.reclaim_orphan_inode(Err(FsError::NotFound)),
        Ok(ReclaimDecision::ClearOrphanKey)
    );
    assert_eq!(
        fs.reclaim_orphan_inode(Err(FsError::IoError)),
        Err(FsError::IoError)
    );
}

#[test]
fn handles_are_counted_per_inode() {
    let mut fs = new_fs();
    fs.open_handle_inc(1);
    fs.open_handle_inc(1);
    fs.open_handle_inc(2);
    assert_eq!(fs.open_handle_dec(1), 1);
    assert_eq!(fs.open_handle_count(2), 1);
    assert_eq!(fs.open_handle_dec(1), 0);
    assert_eq!(fs.open_handle_dec(1), 0);
    assert_eq!(fs.open_handle_dec(3), 0);
    assert_eq!(fs.open_handle_count(2), 1);
}

#[test]
fn large_files_are_left_to_garbage_collection() {
    let fs = new_fs();
    assert_eq!(
        fs.reclaim_orphan_inode(Ok(&unlinked(1000))),
        Ok(delete(
            DeletedKind::File,
            DataDisposal::DeleteExtents { count: 10 },
            1000
        ))
    );
    assert_eq!(
        fs.reclaim_orphan_inode(Ok(&unlinked(1001))),
        Ok(delete(
            DeletedKind::File,
            DataDisposal::Tombstone { size: 1001 },
            1001
        ))
    );
    assert_eq!(
        fs.reclaim_orphan_inode(Ok(&unlinked(0))),
        Ok(delete(
            DeletedKind::File,
            DataDisposal::DeleteExtents { count: 0 },
            0
        ))
    );
    assert_eq!(
        fs.reclaim_orphan_inode(Ok(&unlinked(u64::MAX))),
        Ok(delete(
            DeletedKind::File,
            DataDisposal::Tombstone { size: u64::MAX },
            u64::MAX
        ))
    );
}

#[test]
fn directories_with_entries_are_kept() {
    let fs = new_fs();
    assert_eq!(
        fs.reclaim_orphan_inode(Ok(&Inode::Directory {
            nlink: 0,
            entry_count: 1
        })),
        Ok(ReclaimDecision::Keep)
    );
    assert_eq!(
        fs.reclaim_orphan_inode(Ok(&Inode::Directory {
            nlink: 0,
            entry_count: 0
        })),
        Ok(delete(DeletedKind::Directory, DataDisposal::Nothing, 0))
    );
}

#[test]
fn unreadable_orphans_are_skipped() {
    assert_eq!(drain_orphans(&[Some(3), None, Some(1)]), [3, 1]);
    assert!(drain_orphans(&[]).is_empty());
}

// The other ordering: a reopen that comes after the reclaim finds the inode gone, and
// the reclaim of an inode that is gone clears what is left of it.
#[test]
fn test_reopen_after_reclaim_fails_cleanly() {
    let mut fs = new_fs();
    fs.open_handle_inc(7);
    assert!(fs.should_defer_unlinked_inode(7, false));
    assert_eq!(fs.open_handle_dec(7), 0);
    assert!(fs.reclaim_if_unreferenced(7, false));
    assert!(matches!(
        fs.reclaim_orphan_inode(Ok(&unlinked(4))),
        Ok(ReclaimDecision::Delete { .. })
    ));
    assert_eq!(
        fs.reclaim_orphan_inode(Err(FsError::NotFound)),
        Ok(ReclaimDecision::ClearOrphanKey)
    );
    assert_eq!(fs.open_handle_count(7), 0);
}

/// Reopen after defer keeps the inode alive across the original handle's close; reclaim
/// is due only when the reopened handle also closes.
#[test]
fn test_open_unlink_reopen_before_clunk() {
    let mut fs = new_fs();
    fs.open_handle_inc(7);
    assert!(fs.should_defer_unlinked_inode(7, false));
    fs.open_handle_inc(7);
    assert!(!fs.handle_closed(7));
    assert!(!fs.reclaim_if_unreferenced(7, false));
    assert!(fs.handle_closed(7));
    assert!(fs.reclaim_if_unreferenced(7, false));
}

/// A rename over an open target defers the target's reclaim, and not the source's.
#[test]
fn test_rename_over_open_target() {
    let mut fs = new_fs();
    let (source, target) = (3, 4);
    fs.open_handle_inc(target);
    assert!(fs.should_defer_unlinked_inode(target, false));
    assert!(!fs.should_defer_unlinked_inode(source, false));
    assert!(fs.handle_closed(target));
    assert!(fs.reclaim_if_unreferenced(target, false));
}

/// Open symlinks and special files are deferred and reclaimed like files.
#[test]
fn test_rename_over_open_symlink_and_special() {
    for (inode, kind) in [
        (Inode::Symlink { nlink: 0 }, DeletedKind::Symlink),
        (Inode::Special { nlink: 0 }, DeletedKind::Special),
    ] {
        let mut fs = new_fs();
        fs.open_handle_inc(5);
        assert!(fs.should_defer_unlinked_inode(5, false));
        assert!(fs.handle_closed(5));
        assert_eq!(
            fs.reclaim_orphan_inode(Ok(&inode)),
            Ok(delete(kind, DataDisposal::Nothing, 0))
        );
    }
}

/// A file that keeps a link is not reclaimed when its last handle closes.
#[test]
fn test_open_unlink_hardlinked_decrements_only() {
    let mut fs = new_fs();
    fs.open_handle_inc(7);
    assert!(fs.handle_closed(7));
    let mut linked = unlinked(8);
    if let Inode::File(file) = &mut linked {
        file.nlink = 1;
    }
    assert_eq!(
        fs.reclaim_orphan_inode(Ok(&linked)),
        Ok(ReclaimDecision::ClearOrphanKey)
    );
}

#[test]
fn reclaims_are_counted_by_kind() {
    let mut metrics = FsMetrics::new();
    let file = delete(
        DeletedKind::File,
        DataDisposal::Tombstone { size: 1 << 40 },
        1 << 40,
    );
    metrics.disposed(&file);
    assert_eq!((metrics.tombstones_created, metrics.files_deleted), (1, 0));
    metrics.reclaimed(&file);
    for decision in [
        delete(DeletedKind::File, DataDisposal::DeleteExtents { count: 1 }, 1),
        delete(DeletedKind::Symlink, DataDisposal::Nothing, 0),
        delete(DeletedKind::Directory, DataDisposal::Nothing, 0),
        delete(DeletedKind::Special, DataDisposal::Nothing, 0),
        ReclaimDecision::Keep,
        ReclaimDecision::ClearOrphanKey,
    ] {
        metrics.disposed(&decision);
        metrics.reclaimed(&decision);
    }
    assert_eq!(
        metrics,
        FsMetrics {
            files_deleted: 2,
            links_deleted: 1,
            directories_deleted: 1,
            tombstones_created: 1,
            ..FsMetrics::new()
        }
    );
}

#[test]
fn each_opened_handle_counts_once_until_it_is_released() {
    let mut fs = new_fs();
    let first = fs.new_open_handle(7);
    fs.open_handle_inc(8);
    fs.open_handle_inc(7);
    assert_eq!(fs.open_handle_dec(7), 1);
    let second = fs.new_open_handle(7);
    fs.open_handle_inc(8);
    assert_eq!(fs.open_handle_count(7), 2);
    fs.release_handle(second);
    fs.release_handle(first);
    assert_eq!(fs.open_handle_count(7), 0);
    assert_eq!(fs.open_handle_count(8), 2);
}
