//! What a filesystem counts, and the events it reports, once an operation is done.

use crate::fs::handle::DataDisposal;
use crate::fs::handle::DeletedKind;
use crate::fs::handle::ReclaimDecision;
use crate::fs::ops::io::linux_mode_of;
use crate::fs::ops::io::DataChange;
use crate::fs::ops::io::FallocateMode;
use crate::fs::ops::io::ReadRange;
use vstd::prelude::*;

verus! {

/// An operation on a file's data, as it is reported.
#[derive(Debug, Clone, Copy, PartialEq, Eq, Structural)]
pub enum FileOperation {
    Write { offset: u64, length: u64 },
    Read { offset: u64, length: u64 },
    Trim { offset: u64, length: u64 },
    /// `mode` is what the Linux system call takes.
    Fallocate { offset: u64, length: u64, mode: u32 },
}

/// The counters of a filesystem. They start again at zero past the largest number.
#[derive(Debug, Clone, Copy, PartialEq, Eq, Structural)]
pub struct FsMetrics {
    pub bytes_written: u64,
    pub bytes_read: u64,
    pub write_operations: u64,
    pub read_operations: u64,
    pub total_operations: u64,
    pub files_deleted: u64,
    pub links_deleted: u64,
    pub directories_deleted: u64,
    pub tombstones_created: u64,
}

/// A counter after `by` more.
pub open spec fn counted(counter: u64, by: u64) -> u64 {
    ((counter + by) % 0x1_0000_0000_0000_0000) as u64
}

fn count(counter: u64, by: u64) -> (result: u64)
    ensures
        result == counted(counter, by),
{
    counter.wrapping_add(by)
}

impl FsMetrics {
    /// Reads and writes together are all that was counted.
    pub open spec fn adds_up(self) -> bool {
        counted(self.read_operations, self.write_operations) == self.total_operations
    }

    /// The counters after one more change of data, in which `bytes` were written.
    pub open spec fn with_change(self, bytes: u64) -> FsMetrics {
        FsMetrics {
            bytes_written: counted(self.bytes_written, bytes),
            write_operations: counted(self.write_operations, 1),
            total_operations: counted(self.total_operations, 1),
            ..self
        }
    }

    /// The counters after a read of `range` that gave `bytes`. A read that begins past
    /// the end of the file does not count.
    pub open spec fn with_read(self, range: ReadRange, bytes: u64) -> FsMetrics {
        if range.length == 0 && range.eof {
            self
        } else {
            FsMetrics {
                bytes_read: counted(self.bytes_read, bytes),
                read_operations: counted(self.read_operations, 1),
                total_operations: counted(self.total_operations, 1),
                ..self
            }
        }
    }

    /// The counters once the disposal of an inode's data is part of a transaction, which
    /// may still fail: data that is left to garbage collection counts as a tombstone.
    pub open spec fn with_disposal(self, data: DataDisposal) -> FsMetrics {
        if data is Tombstone {
            FsMetrics { tombstones_created: counted(self.tombstones_created, 1), ..self }
        } else {
            self
        }
    }

    /// The counters after an inode was deleted. Special files do not count.
    pub open spec fn with_deletion(self, kind: DeletedKind) -> FsMetrics {
        match kind {
            DeletedKind::File => FsMetrics {
                files_deleted: counted(self.files_deleted, 1),
                ..self
            },
            DeletedKind::Symlink => FsMetrics {
                links_deleted: counted(self.links_deleted, 1),
                ..self
            },
            DeletedKind::Directory => FsMetrics {
                directories_deleted: counted(self.directories_deleted, 1),
                ..self
            },
            DeletedKind::Special => self,
        }
    }

    /// Nothing is counted yet.
    pub fn new() -> (metrics: FsMetrics)
        ensures
            metrics == (FsMetrics {
                bytes_written: 0,
                bytes_read: 0,
                write_operations: 0,
                read_operations: 0,
                total_operations: 0,
                files_deleted: 0,
                links_deleted: 0,
                directories_deleted: 0,
                tombstones_created: 0,
            }),
            metrics.adds_up(),
    {
        FsMetrics {
            bytes_written: 0,
            bytes_read: 0,
            write_operations: 0,
            read_operations: 0,
            total_operations: 0,
            files_deleted: 0,
            links_deleted: 0,
            directories_deleted: 0,
            tombstones_created: 0,
        }
    }

    fn count_change(&mut self, bytes: u64)
        ensures
            *final(self) == old(self).with_change(bytes),
    {
        self.bytes_written = count(self.bytes_written, bytes);
        self.write_operations = count(self.write_operations, 1);
        self.total_operations = count(self.total_operations, 1);
    }

    /// Counts a write that was committed. One that changed nothing is neither counted
    /// nor reported.
    pub fn wrote(&mut self, change: &DataChange, offset: u64, length: u64) -> (event: Option<
        FileOperation,
    >)
        ensures
            change is Unchanged ==> *final(self) == *old(self) && event is None,
            change is Changed ==> *final(self) == old(self).with_change(length) && event == Some(
                FileOperation::Write { offset, length },
            ),
    {
        match change {
            DataChange::Unchanged => None,
            DataChange::Changed { .. } => {
                self.count_change(length);
                Some(FileOperation::Write { offset, length })
            },
        }
    }

    /// Counts a read. It is reported even if it does not count.
    pub fn read(&mut self, range: ReadRange, bytes: u64) -> (event: FileOperation)
        ensures
            *final(self) == old(self).with_read(range, bytes),
            event == (FileOperation::Read { offset: range.offset, length: range.length }),
    {
        if !(range.length == 0 && range.eof) {
            self.bytes_read = count(self.bytes_read, bytes);
            self.read_operations = count(self.read_operations, 1);
            self.total_operations = count(self.total_operations, 1);
        }
        FileOperation::Read { offset: range.offset, length: range.length }
    }

    /// Counts a trim that was committed.
    pub fn trimmed(&mut self, offset: u64, length: u64) -> (event: FileOperation)
        ensures
            *final(self) == old(self).with_change(0),
            event == (FileOperation::Trim { offset, length }),
    {
        self.count_change(0);
        FileOperation::Trim { offset, length }
    }

    /// Counts a fallocate that was committed. No bytes were written.
    pub fn allocated(&mut self, offset: u64, length: u64, mode: FallocateMode) -> (event:
        FileOperation)
        ensures
            *final(self) == old(self).with_change(0),
            event == (FileOperation::Fallocate { offset, length, mode: linux_mode_of(mode) }),
    {
        self.count_change(0);
        FileOperation::Fallocate { offset, length, mode: mode.linux_mode() }
    }

    /// Counts what a transaction disposes of, before it is committed.
    pub fn disposed(&mut self, decision: &ReclaimDecision)
        ensures
            *final(self) == (match *decision {
                ReclaimDecision::Delete { data, .. } => old(self).with_disposal(data),
                _ => *old(self),
            }),
    {
        match decision {
            ReclaimDecision::Delete { data: DataDisposal::Tombstone { .. }, .. } => {
                self.tombstones_created = count(self.tombstones_created, 1);
            },
            _ => {},
        }
    }

    /// Counts a reclaim that was committed.
    pub fn reclaimed(&mut self, decision: &ReclaimDecision)
        ensures
            *final(self) == (match *decision {
                ReclaimDecision::Delete { kind, .. } => old(self).with_deletion(kind),
                _ => *old(self),
            }),
    {
        match decision {
            ReclaimDecision::Delete { kind, .. } => match kind {
                DeletedKind::File => {
                    self.files_deleted = count(self.files_deleted, 1);
                },
                DeletedKind::Symlink => {
                    self.links_deleted = count(self.links_deleted, 1);
                },
                DeletedKind::Directory => {
                    self.directories_deleted = count(self.directories_deleted, 1);
                },
                DeletedKind::Special => {},
            },
            _ => {},
        }
    }
}

/// What a counter says once `by` more were counted: the sum, or what is left of it past
/// the largest number.
pub open spec fn follows(before: u64, by: u64, after: u64) -> bool {
    if before + by <= u64::MAX {
        after == before + by
    } else {
        after == before + by - 0x1_0000_0000_0000_0000
    }
}

/// A write that was committed is one write operation of as many bytes as it had, and is
/// reported with its place and length. One that changed nothing leaves no trace.
pub proof fn law_write_is_counted_once(
    metrics: &mut FsMetrics,
    change: &DataChange,
    offset: u64,
    length: u64,
    event: Option<FileOperation>,
)
    requires
        call_ensures(FsMetrics::wrote, (metrics, change, offset, length), event),
    ensures
        *change is Unchanged ==> event is None && *final(metrics) == *old(metrics),
        *change is Changed ==> {
            &&& event == Some(FileOperation::Write { offset, length })
            &&& follows(old(metrics).bytes_written, length, final(metrics).bytes_written)
            &&& follows(old(metrics).write_operations, 1, final(metrics).write_operations)
            &&& follows(old(metrics).total_operations, 1, final(metrics).total_operations)
            &&& final(metrics).bytes_read == old(metrics).bytes_read
            &&& final(metrics).read_operations == old(metrics).read_operations
            &&& final(metrics).files_deleted == old(metrics).files_deleted
            &&& final(metrics).links_deleted == old(metrics).links_deleted
            &&& final(metrics).directories_deleted == old(metrics).directories_deleted
            &&& final(metrics).tombstones_created == old(metrics).tombstones_created
        },
{
}

/// A read is one read operation of as many bytes as it gave, unless it is an empty read at
/// the end; it is reported with its place and length in any case.
pub proof fn law_read_is_counted_once(
    metrics: &mut FsMetrics,
    range: ReadRange,
    bytes: u64,
    event: FileOperation,
)
    requires
        call_ensures(FsMetrics::read, (metrics, range, bytes), event),
    ensures
        event == (FileOperation::Read { offset: range.offset, length: range.length }),
        range.length == 0 && range.eof ==> *final(metrics) == *old(metrics),
        range.length > 0 || !range.eof ==> {
            &&& follows(old(metrics).bytes_read, bytes, final(metrics).bytes_read)
            &&& follows(old(metrics).read_operations, 1, final(metrics).read_operations)
            &&& follows(old(metrics).total_operations, 1, final(metrics).total_operations)
        },
        final(metrics).bytes_written == old(metrics).bytes_written,
        final(metrics).write_operations == old(metrics).write_operations,
        final(metrics).files_deleted == old(metrics).files_deleted,
        final(metrics).links_deleted == old(metrics).links_deleted,
        final(metrics).directories_deleted == old(metrics).directories_deleted,
        final(metrics).tombstones_created == old(metrics).tombstones_created,
{
}

/// Trims and allocations are write operations of no bytes, each reported with its place
/// and length, and an allocation with its flags.
pub proof fn law_sparse_changes_write_no_bytes(
    trimming: &mut FsMetrics,
    allocating: &mut FsMetrics,
    offset: u64,
    length: u64,
    mode: FallocateMode,
    flags: u32,
    trimmed: FileOperation,
    allocated: FileOperation,
)
    requires
        call_ensures(FsMetrics::trimmed, (trimming, offset, length), trimmed),
        call_ensures(FsMetrics::allocated, (allocating, offset, length, mode), allocated),
        call_ensures(FallocateMode::linux_mode, (mode,), flags),
    ensures
        trimmed == (FileOperation::Trim { offset, length }),
        allocated == (FileOperation::Fallocate { offset, length, mode: flags }),
        follows(old(trimming).write_operations, 1, final(trimming).write_operations),
        follows(old(trimming).total_operations, 1, final(trimming).total_operations),
        *final(trimming) == (FsMetrics {
            write_operations: final(trimming).write_operations,
            total_operations: final(trimming).total_operations,
            ..*old(trimming)
        }),
        follows(old(allocating).write_operations, 1, final(allocating).write_operations),
        follows(old(allocating).total_operations, 1, final(allocating).total_operations),
        *final(allocating) == (FsMetrics {
            write_operations: final(allocating).write_operations,
            total_operations: final(allocating).total_operations,
            ..*old(allocating)
        }),
{
}

/// A deletion counts once, by its kind alone; special files, and inodes that are not
/// deleted, count nowhere. A tombstone counts once, before the commit, and no other
/// disposal counts.
pub proof fn law_deletion_is_counted_by_kind(
    disposing: &mut FsMetrics,
    reclaiming: &mut FsMetrics,
    decision: &ReclaimDecision,
)
    requires
        call_ensures(FsMetrics::disposed, (disposing, decision), ()),
        call_ensures(FsMetrics::reclaimed, (reclaiming, decision), ()),
    ensures
        *final(disposing) == (FsMetrics {
            tombstones_created: final(disposing).tombstones_created,
            ..*old(disposing)
        }),
        *decision matches ReclaimDecision::Delete { data: DataDisposal::Tombstone { .. }, .. }
            ==> follows(
            old(disposing).tombstones_created,
            1,
            final(disposing).tombstones_created,
        ),
        !(*decision matches ReclaimDecision::Delete { data: DataDisposal::Tombstone { .. }, .. })
            ==> *final(disposing) == *old(disposing),
        *final(reclaiming) == (FsMetrics {
            files_deleted: final(reclaiming).files_deleted,
            links_deleted: final(reclaiming).links_deleted,
            directories_deleted: final(reclaiming).directories_deleted,
            ..*old(reclaiming)
        }),
        follows(
            old(reclaiming).files_deleted,
            if (*decision matches ReclaimDecision::Delete { kind: DeletedKind::File, .. }) {
                1
            } else {
                0
            },
            final(reclaiming).files_deleted,
        ),
        follows(
            old(reclaiming).links_deleted,
            if (*decision matches ReclaimDecision::Delete { kind: DeletedKind::Symlink, .. }) {
                1
            } else {
                0
            },
            final(reclaiming).links_deleted,
        ),
        follows(
            old(reclaiming).directories_deleted,
            if (*decision matches ReclaimDecision::Delete { kind: DeletedKind::Directory, .. }) {
                1
            } else {
                0
            },
            final(reclaiming).directories_deleted,
        ),
{
}

/// Every counted operation is a read or a write: where the two counters together give
/// the total, they still do after whatever is counted next.
pub proof fn law_operations_add_up(
    metrics: FsMetrics,
    bytes: u64,
    range: ReadRange,
    data: DataDisposal,
    kind: DeletedKind,
)
    requires
        metrics.adds_up(),
    ensures
        metrics.with_change(bytes).adds_up(),
        metrics.with_read(range, bytes).adds_up(),
        metrics.with_disposal(data).adds_up(),
        metrics.with_deletion(kind).adds_up(),
{
}

} // verus!
