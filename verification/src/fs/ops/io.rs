//! The file data plane: write, read, trim and fallocate.
//!
//! Each operation decides, from the inode as it was read, what to change or which range
//! to read. The data itself lies in extents, which the caller reads and writes.

use crate::fs::errors::FsError;
use crate::fs::inode::FileInode;
use crate::fs::inode::FileInodeModel;
use crate::fs::inode::Inode;
use crate::fs::inode::InodeModel;
use crate::fs::InodeId;
use crate::fs::ZeroFS;
use vstd::prelude::*;

verus! {

/// What a caller may do, and when it asks.
#[derive(Debug, Clone, Copy)]
pub struct Caller {
    pub uid: u32,
    /// What the inode's mode bits say of the access. It is not asked for an owner's
    /// write, nor for an access that was authorized at open.
    pub access: Result<(), FsError>,
}

/// A point in time.
#[derive(Debug, Clone, Copy, PartialEq, Eq, Structural)]
pub struct Timestamp {
    pub seconds: u64,
    pub nanos: u32,
}

/// How fallocate changes a range.
#[derive(Debug, Clone, Copy, PartialEq, Eq, Structural)]
pub enum FallocateMode {
    /// Grow the file to hold the range.
    Allocate,
    /// Zero the range within the file.
    PunchHole,
    /// Zero the range, and grow the file to hold it unless its size is kept.
    ZeroRange { keep_size: bool },
}

/// The flags of the Linux system call that stand for a mode: 1 keeps the size, 2 punches
/// a hole, which asks for the size to be kept, and 16 zeroes a range.
pub open spec fn linux_mode_of(mode: FallocateMode) -> u32 {
    match mode {
        FallocateMode::Allocate => 0,
        FallocateMode::PunchHole => 3,
        FallocateMode::ZeroRange { keep_size: false } => 16,
        FallocateMode::ZeroRange { keep_size: true } => 17,
    }
}

impl FallocateMode {
    pub fn linux_mode(self) -> (flags: u32)
        ensures
            flags == linux_mode_of(self),
    {
        match self {
            FallocateMode::Allocate => 0,
            FallocateMode::PunchHole => 3,
            FallocateMode::ZeroRange { keep_size: false } => 16,
            FallocateMode::ZeroRange { keep_size: true } => 17,
        }
    }
}

/// Why a change of a file's data is refused before anything else is looked at: the inode
/// is no file, or the mode bits forbid it. Owners may write regardless of them.
pub open spec fn write_refused(inode: InodeModel, caller: Caller, check_permissions: bool) -> Option<
    FsError,
> {
    match inode {
        InodeModel::File(file) => if check_permissions && caller.uid != file.uid {
            match caller.access {
                Ok(_) => None,
                Err(error) => Some(error),
            }
        } else {
            None
        },
        _ => Some(FsError::IsDirectory),
    }
}

/// A file may grow from `old_size` to `new_size` within the quota. The largest quota is
/// no limit.
pub open spec fn within_quota(old_size: u64, new_size: u64, used_bytes: u64, max_bytes: u64) -> bool {
    new_size > old_size ==> used_bytes + (new_size - old_size) <= max_bytes || max_bytes
        == u64::MAX
}

/// A mode without its set-user-ID and set-group-ID bits.
pub open spec fn without_set_id(mode: u32) -> u32 {
    mode & !0xC00u32
}

/// A file after its data was changed: its times are now, and a change by someone who is
/// neither owner nor root takes the set-ID bits away.
pub open spec fn changed_file(
    file: FileInodeModel,
    new_size: u64,
    uid: u32,
    now: Timestamp,
) -> FileInodeModel {
    FileInodeModel {
        size: new_size,
        mode: if uid != file.uid && uid != 0 {
            without_set_id(file.mode)
        } else {
            file.mode
        },
        mtime: now.seconds,
        mtime_nsec: now.nanos,
        ctime: now.seconds,
        ctime_nsec: now.nanos,
        ..file
    }
}

/// What a change of a file's data comes to.
pub enum DataChange {
    /// Nothing changes. The result is recorded all the same if the request is tagged.
    Unchanged,
    /// The file is saved as `file`, in one transaction with the data. Its directory
    /// entry is updated too if it has both a parent and a name.
    Changed {
        file: FileInode,
        old_size: u64,
        entry: Option<(InodeId, Vec<u8>)>,
        /// The range whose data becomes zero: offset and length.
        zeroed: Option<(u64, u64)>,
    },
}

/// The value of `DataChange`.
pub enum DataChangeModel {
    Unchanged,
    Changed {
        file: FileInodeModel,
        old_size: u64,
        entry: Option<(InodeId, Seq<u8>)>,
        zeroed: Option<(u64, u64)>,
    },
}

impl View for DataChange {
    type V = DataChangeModel;

    open spec fn view(&self) -> DataChangeModel {
        match *self {
            DataChange::Unchanged => DataChangeModel::Unchanged,
            DataChange::Changed { file, old_size, entry, zeroed } => DataChangeModel::Changed {
                file: file@,
                old_size,
                entry: match entry {
                    Some(entry) => Some((entry.0, entry.1@)),
                    None => None,
                },
                zeroed,
            },
        }
    }
}

/// What a request that may be a repetition comes to.
pub enum IdempotentChange {
    /// The request was applied before; the file is as that left it.
    Replayed(FileInode),
    /// The request is new. `record` says that its result goes to the mutation ledger.
    Fresh { change: DataChange, record: bool },
}

/// `result` is the replay if there is one, and else has the value that `expected` has. A
/// change is always recorded, and a request that changes nothing if it is tagged.
pub open spec fn is_idempotent_change(
    result: Result<IdempotentChange, FsError>,
    replay: Option<FileInode>,
    tagged: bool,
    expected: Result<DataChangeModel, FsError>,
) -> bool {
    match replay {
        Some(first) => result matches Ok(IdempotentChange::Replayed(file)) && file@ == first@,
        None => match expected {
            Ok(model) => result matches Ok(IdempotentChange::Fresh { change, record }) && change@
                == model && record == (tagged || model is Changed),
            Err(error) => result matches Err(e) && e == error,
        },
    }
}

fn fresh(change: DataChange, tagged: bool) -> (fresh: IdempotentChange)
    ensures
        fresh matches IdempotentChange::Fresh { change: c, record } && c@ == change@ && record == (
        tagged || change@ is Changed),
{
    let record = match &change {
        DataChange::Unchanged => tagged,
        DataChange::Changed { .. } => true,
    };
    IdempotentChange::Fresh { change, record }
}

/// The directory entry that holds a copy of a file's inode.
pub open spec fn entry_of(file: FileInodeModel) -> Option<(InodeId, Seq<u8>)> {
    match (file.parent, file.name) {
        (Some(parent), Some(name)) => Some((parent, name)),
        _ => None,
    }
}

/// `result` has the value that `expected` has.
pub open spec fn is_change(
    result: Result<DataChange, FsError>,
    expected: Result<DataChangeModel, FsError>,
) -> bool {
    match expected {
        Ok(change) => result matches Ok(c) && c@ == change,
        Err(error) => result matches Err(e) && e == error,
    }
}

/// What a write of `length` bytes at `offset` comes to. A write of nothing changes
/// nothing, and a write never makes a file shorter.
pub open spec fn write_result(
    inode: InodeModel,
    caller: Caller,
    check_permissions: bool,
    offset: u64,
    length: u64,
    quota: (u64, u64),
    now: Timestamp,
) -> Result<DataChangeModel, FsError> {
    match write_refused(inode, caller, check_permissions) {
        Some(error) => Err(error),
        None => {
            let file = inode->File_0;
            let end = offset + length;
            let new_size = if file.size >= end {
                file.size
            } else {
                end as u64
            };
            if length == 0 {
                Ok(DataChangeModel::Unchanged)
            } else if end > u64::MAX {
                Err(FsError::InvalidArgument)
            } else if !within_quota(file.size, new_size, quota.0, quota.1) {
                Err(FsError::NoSpace)
            } else {
                Ok(
                    DataChangeModel::Changed {
                        file: changed_file(file, new_size, caller.uid, now),
                        old_size: file.size,
                        entry: entry_of(file),
                        zeroed: None,
                    },
                )
            }
        },
    }
}

/// The size of a file after fallocate.
pub open spec fn allocated_size(mode: FallocateMode, old_size: u64, end: u64) -> u64 {
    match mode {
        FallocateMode::PunchHole => old_size,
        FallocateMode::ZeroRange { keep_size: true } => old_size,
        _ => if old_size >= end {
            old_size
        } else {
            end
        },
    }
}

/// The part of a file that fallocate zeroes.
pub open spec fn zeroed_part(mode: FallocateMode, old_size: u64, offset: u64, end: u64) -> Option<
    (u64, u64),
> {
    if mode is Allocate || offset >= old_size {
        None
    } else if end <= old_size {
        Some((offset, (end - offset) as u64))
    } else {
        Some((offset, (old_size - offset) as u64))
    }
}

/// What fallocate on a range comes to.
pub open spec fn fallocate_result(
    inode: InodeModel,
    uid: u32,
    offset: u64,
    length: u64,
    mode: FallocateMode,
    quota: (u64, u64),
    now: Timestamp,
) -> Result<DataChangeModel, FsError> {
    if length == 0 || offset + length > u64::MAX {
        Err(FsError::InvalidArgument)
    } else if !(inode is File) {
        Err(FsError::IsDirectory)
    } else {
        let file = inode->File_0;
        let end = (offset + length) as u64;
        let new_size = allocated_size(mode, file.size, end);
        if !within_quota(file.size, new_size, quota.0, quota.1) {
            Err(FsError::NoSpace)
        } else {
            Ok(
                DataChangeModel::Changed {
                    file: changed_file(file, new_size, uid, now),
                    old_size: file.size,
                    entry: entry_of(file),
                    zeroed: zeroed_part(mode, file.size, offset, end),
                },
            )
        }
    }
}

/// What to read.
#[derive(Debug, Clone, Copy, PartialEq, Eq, Structural)]
pub struct ReadRange {
    pub offset: u64,
    pub length: u64,
    /// The read reaches the end of the file.
    pub eof: bool,
}

/// What a read of `count` bytes at `offset` comes to: as much of it as the file has.
pub open spec fn read_result(
    inode: InodeModel,
    access: Result<(), FsError>,
    offset: u64,
    count: u32,
) -> Result<ReadRange, FsError> {
    match access {
        Err(error) => Err(error),
        Ok(_) => match inode {
            InodeModel::File(file) => if offset >= file.size {
                Ok(ReadRange { offset, length: 0, eof: true })
            } else if offset + count >= file.size {
                Ok(ReadRange { offset, length: (file.size - offset) as u64, eof: true })
            } else {
                Ok(ReadRange { offset, length: count as u64, eof: false })
            },
            _ => Err(FsError::IsDirectory),
        },
    }
}

/// What a trim comes to: `None` if there is nothing to do, and else the range to zero
/// within a file of that size.
pub open spec fn trim_result(inode: InodeModel, caller: Caller, offset: u64, length: u64) -> Result<
    Option<u64>,
    FsError,
> {
    if length == 0 {
        Ok(None)
    } else {
        match write_refused(inode, caller, true) {
            Some(error) => Err(error),
            None => if offset + length > u64::MAX {
                Err(FsError::InvalidArgument)
            } else {
                Ok(Some(inode->File_0.size))
            },
        }
    }
}

fn check_write(inode: &Inode, caller: Caller, check_permissions: bool) -> (result: Result<
    (),
    FsError,
>)
    ensures
        match write_refused(inode@, caller, check_permissions) {
            Some(error) => result == Err::<(), FsError>(error),
            None => result == Ok::<(), FsError>(()) && inode@ is File,
        },
{
    match inode {
        Inode::File(file) => {
            if check_permissions && caller.uid != file.uid {
                return match caller.access {
                    Ok(()) => Ok(()),
                    Err(error) => Err(error),
                };
            }
            Ok(())
        },
        _ => Err(FsError::IsDirectory),
    }
}

fn check_quota(old_size: u64, new_size: u64, used_bytes: u64, max_bytes: u64) -> (result: Result<
    (),
    FsError,
>)
    ensures
        result == (if within_quota(old_size, new_size, used_bytes, max_bytes) {
            Ok::<(), FsError>(())
        } else {
            Err(FsError::NoSpace)
        }),
{
    if new_size > old_size {
        let increase: u64 = new_size - old_size;
        if used_bytes.saturating_add(increase) > max_bytes {
            return Err(FsError::NoSpace);
        }
    }
    Ok(())
}

/// The end of a range that fallocate may change, which is checked before the inode is
/// read: the range is not empty, and its end is an offset.
pub fn range_end(offset: u64, length: u64) -> (result: Result<u64, FsError>)
    ensures
        result == (if length == 0 || offset + length > u64::MAX {
            Err::<u64, FsError>(FsError::InvalidArgument)
        } else {
            Ok((offset + length) as u64)
        }),
{
    if length == 0 {
        return Err(FsError::InvalidArgument);
    }
    match offset.checked_add(length) {
        Some(end) => Ok(end),
        None => Err(FsError::InvalidArgument),
    }
}

fn change_file(file: &FileInode, new_size: u64, uid: u32, now: Timestamp) -> (changed: FileInode)
    ensures
        changed@ == changed_file(file@, new_size, uid, now),
{
    let mut changed = file.clone();
    changed.size = new_size;
    changed.mtime = now.seconds;
    changed.mtime_nsec = now.nanos;
    changed.ctime = now.seconds;
    changed.ctime_nsec = now.nanos;
    if uid != file.uid && uid != 0 {
        changed.mode = changed.mode & !0xC00u32;
    }
    changed
}

fn entry_for_update(file: &FileInode) -> (entry: Option<(InodeId, Vec<u8>)>)
    ensures
        match entry_of(file@) {
            Some(expected) => entry matches Some(e) && e.0 == expected.0 && e.1@ == expected.1,
            None => entry is None,
        },
{
    match (&file.parent, &file.name) {
        (Some(parent), Some(name)) => Some((*parent, vstd::slice::slice_to_vec(name))),
        _ => None,
    }
}

impl ZeroFS {
    /// Writes `length` bytes at `offset`, growing the file as needed. `used_bytes` is
    /// what all files hold now.
    pub fn write(
        &self,
        inode: &Inode,
        caller: Caller,
        offset: u64,
        length: u64,
        used_bytes: u64,
        now: Timestamp,
    ) -> (result: Result<DataChange, FsError>)
        ensures
            is_change(
                result,
                write_result(
                    inode@,
                    caller,
                    true,
                    offset,
                    length,
                    (used_bytes, self@.limits.max_bytes),
                    now,
                ),
            ),
    {
        self.write_inner(inode, caller, true, offset, length, used_bytes, now)
    }

    /// Writes unless the request was applied before: a replay gives back the file as the
    /// first application left it. `tagged` says that the request has an identity to be
    /// found by.
    pub fn write_idempotent(
        &self,
        replay: Option<FileInode>,
        tagged: bool,
        inode: &Inode,
        caller: Caller,
        offset: u64,
        length: u64,
        used_bytes: u64,
        now: Timestamp,
    ) -> (result: Result<IdempotentChange, FsError>)
        ensures
            is_idempotent_change(
                result,
                replay,
                tagged,
                write_result(
                    inode@,
                    caller,
                    true,
                    offset,
                    length,
                    (used_bytes, self@.limits.max_bytes),
                    now,
                ),
            ),
    {
        if let Some(first) = replay {
            return Ok(IdempotentChange::Replayed(first));
        }
        let change = self.write_inner(inode, caller, true, offset, length, used_bytes, now)?;
        Ok(fresh(change, tagged))
    }

    /// Writes like [`ZeroFS::write_idempotent`], through a handle whose access was
    /// authorized at open. The caller's identity still decides whether the set-ID bits
    /// are kept.
    pub fn write_opened_idempotent(
        &self,
        replay: Option<FileInode>,
        tagged: bool,
        inode: &Inode,
        caller: Caller,
        offset: u64,
        length: u64,
        used_bytes: u64,
        now: Timestamp,
    ) -> (result: Result<IdempotentChange, FsError>)
        ensures
            is_idempotent_change(
                result,
                replay,
                tagged,
                write_result(
                    inode@,
                    caller,
                    false,
                    offset,
                    length,
                    (used_bytes, self@.limits.max_bytes),
                    now,
                ),
            ),
    {
        if let Some(first) = replay {
            return Ok(IdempotentChange::Replayed(first));
        }
        let change = self.write_inner(inode, caller, false, offset, length, used_bytes, now)?;
        Ok(fresh(change, tagged))
    }

    fn write_inner(
        &self,
        inode: &Inode,
        caller: Caller,
        check_permissions: bool,
        offset: u64,
        length: u64,
        used_bytes: u64,
        now: Timestamp,
    ) -> (result: Result<DataChange, FsError>)
        ensures
            is_change(
                result,
                write_result(
                    inode@,
                    caller,
                    check_permissions,
                    offset,
                    length,
                    (used_bytes, self@.limits.max_bytes),
                    now,
                ),
            ),
    {
        check_write(inode, caller, check_permissions)?;
        if length == 0 {
            return Ok(DataChange::Unchanged);
        }
        match inode {
            Inode::File(file) => {
                let end: u64 = match offset.checked_add(length) {
                    Some(end) => end,
                    None => {
                        return Err(FsError::InvalidArgument);
                    },
                };
                let new_size: u64 = if file.size >= end {
                    file.size
                } else {
                    end
                };
                check_quota(file.size, new_size, used_bytes, self.limits().max_bytes)?;
                Ok(
                    DataChange::Changed {
                        file: change_file(file, new_size, caller.uid, now),
                        old_size: file.size,
                        entry: entry_for_update(file),
                        zeroed: None,
                    },
                )
            },
            _ => Err(FsError::IsDirectory),
        }
    }

    /// Which bytes to read: up to `count` at `offset`.
    pub fn read_file(&self, inode: &Inode, access: Result<(), FsError>, offset: u64, count: u32) -> (result:
        Result<ReadRange, FsError>)
        ensures
            result == read_result(inode@, access, offset, count),
    {
        match access {
            Ok(()) => {},
            Err(error) => {
                return Err(error);
            },
        }
        match inode {
            Inode::File(file) => {
                if offset >= file.size {
                    return Ok(ReadRange { offset, length: 0, eof: true });
                }
                let available: u64 = file.size - offset;
                let length: u64 = if (count as u64) < available {
                    count as u64
                } else {
                    available
                };
                Ok(ReadRange { offset, length, eof: offset + length >= file.size })
            },
            _ => Err(FsError::IsDirectory),
        }
    }

    /// Which bytes to read through a handle whose access was authorized at open.
    pub fn read_file_opened(&self, inode: &Inode, offset: u64, count: u32) -> (result: Result<
        ReadRange,
        FsError,
    >)
        ensures
            result == read_result(inode@, Ok(()), offset, count),
    {
        self.read_file(inode, Ok(()), offset, count)
    }

    /// Punches a hole: zeroes a range in place without changing the file's size, which
    /// is what is returned if there is anything to do.
    pub fn trim(&self, inode: &Inode, caller: Caller, offset: u64, length: u64) -> (result: Result<
        Option<u64>,
        FsError,
    >)
        ensures
            result == trim_result(inode@, caller, offset, length),
    {
        if length == 0 {
            return Ok(None);
        }
        check_write(inode, caller, true)?;
        if offset.checked_add(length).is_none() {
            return Err(FsError::InvalidArgument);
        }
        match inode {
            Inode::File(file) => Ok(Some(file.size)),
            _ => Err(FsError::IsDirectory),
        }
    }

    /// Allocates, punches or zeroes a range through a handle whose access was authorized
    /// at open. Zero-filled ranges are sparse; growth is charged against the quota, so
    /// that a later write within the file needs no more of it.
    pub fn fallocate_opened(
        &self,
        inode: &Inode,
        uid: u32,
        offset: u64,
        length: u64,
        mode: FallocateMode,
        used_bytes: u64,
        now: Timestamp,
    ) -> (result: Result<DataChange, FsError>)
        ensures
            is_change(
                result,
                fallocate_result(
                    inode@,
                    uid,
                    offset,
                    length,
                    mode,
                    (used_bytes, self@.limits.max_bytes),
                    now,
                ),
            ),
    {
        let end: u64 = range_end(offset, length)?;
        match inode {
            Inode::File(file) => {
                let old_size: u64 = file.size;
                let grown: u64 = if old_size >= end {
                    old_size
                } else {
                    end
                };
                let new_size: u64 = match mode {
                    FallocateMode::Allocate | FallocateMode::ZeroRange {
                        keep_size: false,
                    } => grown,
                    FallocateMode::PunchHole | FallocateMode::ZeroRange {
                        keep_size: true,
                    } => old_size,
                };
                let zeroes_range = !matches!(mode, FallocateMode::Allocate);
                check_quota(old_size, new_size, used_bytes, self.limits().max_bytes)?;
                let zeroed: Option<(u64, u64)> = if zeroes_range && offset < old_size {
                    let zero_end: u64 = if end <= old_size {
                        end
                    } else {
                        old_size
                    };
                    Some((offset, zero_end - offset))
                } else {
                    None
                };
                Ok(
                    DataChange::Changed {
                        file: change_file(file, new_size, uid, now),
                        old_size,
                        entry: entry_for_update(file),
                        zeroed,
                    },
                )
            },
            _ => Err(FsError::IsDirectory),
        }
    }

    /// Changes a range unless the request was applied before, like
    /// [`ZeroFS::write_idempotent`].
    pub fn fallocate_opened_idempotent(
        &self,
        replay: Option<FileInode>,
        tagged: bool,
        inode: &Inode,
        uid: u32,
        offset: u64,
        length: u64,
        mode: FallocateMode,
        used_bytes: u64,
        now: Timestamp,
    ) -> (result: Result<IdempotentChange, FsError>)
        ensures
            is_idempotent_change(
                result,
                replay,
                tagged,
                fallocate_result(
                    inode@,
                    uid,
                    offset,
                    length,
                    mode,
                    (used_bytes, self@.limits.max_bytes),
                    now,
                ),
            ),
    {
        if let Some(first) = replay {
            return Ok(IdempotentChange::Replayed(first));
        }
        let change = self.fallocate_opened(inode, uid, offset, length, mode, used_bytes, now)?;
        Ok(fresh(change, tagged))
    }
}

/// No write and no fallocate makes a file shorter, and neither changes anything but
/// size, times and set-ID bits.
pub proof fn law_files_never_shrink(
    inode: InodeModel,
    caller: Caller,
    check_permissions: bool,
    offset: u64,
    length: u64,
    mode: FallocateMode,
    quota: (u64, u64),
    now: Timestamp,
)
    ensures
        write_result(inode, caller, check_permissions, offset, length, quota, now) matches Ok(
            DataChangeModel::Changed { file, old_size, .. },
        ) ==> file.size >= old_size && file.size >= offset + length && file.uid
            == inode->File_0.uid && file.nlink == inode->File_0.nlink,
        fallocate_result(inode, caller.uid, offset, length, mode, quota, now) matches Ok(
            DataChangeModel::Changed { file, old_size, .. },
        ) ==> file.size >= old_size && file.uid == inode->File_0.uid && file.nlink
            == inode->File_0.nlink,
{
}

/// What was written can be read: a read of as many bytes at the same place covers
/// exactly what a write left there, and reports the end of the file exactly if the write
/// reached it.
pub proof fn law_read_covers_write(
    inode: InodeModel,
    caller: Caller,
    check_permissions: bool,
    offset: u64,
    length: u32,
    quota: (u64, u64),
    now: Timestamp,
    file: FileInodeModel,
    old_size: u64,
    entry: Option<(InodeId, Seq<u8>)>,
    zeroed: Option<(u64, u64)>,
)
    requires
        write_result(inode, caller, check_permissions, offset, length as u64, quota, now) == Ok::<
            DataChangeModel,
            FsError,
        >(DataChangeModel::Changed { file, old_size, entry, zeroed }),
    ensures
        read_result(InodeModel::File(file), Ok(()), offset, length) == Ok::<ReadRange, FsError>(
            ReadRange {
                offset,
                length: length as u64,
                eof: file.size == offset + length,
            },
        ),
{
}

/// Allocated space is charged once: a write inside an allocated range does not grow the
/// file, so it cannot exceed the quota.
pub proof fn law_allocated_range_needs_no_quota(
    file: FileInodeModel,
    uid: u32,
    offset: u64,
    length: u64,
    quota: (u64, u64),
    now: Timestamp,
    allocated: FileInodeModel,
    old_size: u64,
    entry: Option<(InodeId, Seq<u8>)>,
    zeroed: Option<(u64, u64)>,
    later_caller: Caller,
    later_offset: u64,
    later_length: u64,
    later_quota: (u64, u64),
)
    requires
        fallocate_result(
            InodeModel::File(file),
            uid,
            offset,
            length,
            FallocateMode::Allocate,
            quota,
            now,
        ) == Ok::<DataChangeModel, FsError>(
            DataChangeModel::Changed { file: allocated, old_size, entry, zeroed },
        ),
        offset <= later_offset,
        later_offset + later_length <= offset + length,
    ensures
        write_result(
            InodeModel::File(allocated),
            later_caller,
            false,
            later_offset,
            later_length,
            later_quota,
            now,
        ) is Ok,
{
}

/// Allocating zeroes nothing, and a punched hole lies within the file and leaves its
/// size alone.
pub proof fn law_zeroed_range_lies_in_file(
    file: FileInodeModel,
    uid: u32,
    offset: u64,
    length: u64,
    mode: FallocateMode,
    quota: (u64, u64),
    now: Timestamp,
)
    ensures
        fallocate_result(InodeModel::File(file), uid, offset, length, mode, quota, now) matches Ok(
            DataChangeModel::Changed { file: changed, old_size, zeroed, .. },
        ) ==> {
            &&& mode is Allocate ==> zeroed is None
            &&& mode is PunchHole ==> changed.size == old_size
            &&& zeroed matches Some(range) ==> range.0 == offset && range.0 + range.1 <= old_size
        },
{
}

/// Whoever is neither owner nor root leaves no set-ID bit behind.
pub proof fn law_foreign_change_clears_set_id(
    file: FileInodeModel,
    new_size: u64,
    uid: u32,
    now: Timestamp,
)
    requires
        uid != file.uid,
        uid != 0,
    ensures
        changed_file(file, new_size, uid, now).mode & 0xC00u32 == 0,
        changed_file(file, new_size, uid, now).mode & !0xC00u32 == file.mode & !0xC00u32,
{
    let mode = file.mode;
    assert((mode & !0xC00u32) & 0xC00u32 == 0) by (bit_vector);
    assert((mode & !0xC00u32) & !0xC00u32 == mode & !0xC00u32) by (bit_vector);
}

} // verus!
