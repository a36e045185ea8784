//! What writes, reads, trims and allocations do to a file, said of what goes in and what
//! comes out.

use super::io::range_end;
use super::io::Caller;
use super::io::DataChange;
use super::io::FallocateMode;
use super::io::IdempotentChange;
use super::io::ReadRange;
use super::io::Timestamp;
use crate::fs::errors::FsError;
use crate::fs::inode::FileInode;
use crate::fs::inode::Inode;
use crate::fs::inode::InodeModel;
use crate::fs::ZeroFS;
use vstd::prelude::*;

verus! {

/// The value of an inode is what its fields hold.
pub proof fn law_inode_value_is_its_fields(inode: Inode)
    ensures
        match inode {
            Inode::File(file) => inode@ matches InodeModel::File(value) && {
                &&& value.size == file.size
                &&& value.nlink == file.nlink
                &&& value.uid == file.uid
                &&& value.mode == file.mode
                &&& value.mtime == file.mtime
                &&& value.mtime_nsec == file.mtime_nsec
                &&& value.ctime == file.ctime
                &&& value.ctime_nsec == file.ctime_nsec
                &&& value.parent == file.parent
                &&& value.name is Some == file.name is Some
                &&& file.name matches Some(name) ==> value.name == Some(name@)
            },
            Inode::Directory { nlink, entry_count } => inode@ matches InodeModel::Directory {
                nlink: n,
                entry_count: e,
            } && n == nlink && e == entry_count,
            Inode::Symlink { nlink } => inode@ matches InodeModel::Symlink { nlink: n } && n
                == nlink,
            Inode::Special { nlink } => inode@ matches InodeModel::Special { nlink: n } && n
                == nlink,
        },
{
}

/// A write leaves a file exactly as long as the longer of its old size and the end of
/// the write, with its times and set-ID bits renewed and nothing zeroed. Its directory
/// entry is updated if the file has one parent and one name, and only then.
pub proof fn law_write_reaches_exactly_its_end(
    fs: &ZeroFS,
    result: Result<DataChange, FsError>,
    inode: &Inode,
    caller: Caller,
    offset: u64,
    length: u64,
    used_bytes: u64,
    now: Timestamp,
)
    requires
        call_ensures(
            ZeroFS::write,
            (fs, inode, caller, offset, length, used_bytes, now),
            result,
        ),
    ensures
        result matches Ok(DataChange::Changed { file, old_size, entry, zeroed }) ==> (
        *inode matches Inode::File(before) && {
            &&& length > 0
            &&& old_size == before.size
            &&& file.size >= before.size && file.size >= offset + length
            &&& file.size == before.size || file.size == offset + length
            &&& file.mtime == now.seconds && file.mtime_nsec == now.nanos
            &&& file.ctime == now.seconds && file.ctime_nsec == now.nanos
            &&& file.nlink == before.nlink
            &&& file.uid == before.uid
            &&& file.parent == before.parent
            &&& file@.name == before@.name
            &&& file.mode & !0xC00u32 == before.mode & !0xC00u32
            &&& (caller.uid == 0 || caller.uid == before.uid) ==> file.mode == before.mode
            &&& (caller.uid != 0 && caller.uid != before.uid) ==> file.mode & 0xC00u32 == 0
            &&& zeroed is None
            &&& entry is Some == (before.parent is Some && before.name is Some)
            &&& entry matches Some(e) ==> before.parent == Some(e.0) && before.name->0@ == e.1@
            &&& file.size > before.size ==> used_bytes + (file.size - before.size) <= fs@.limits.max_bytes
                || fs@.limits.max_bytes == u64::MAX
        }),
{
    if let Inode::File(before) = *inode {
        lemma_set_id(before.mode);
    }
}

proof fn lemma_set_id(mode: u32)
    ensures
        (mode & !0xC00u32) & !0xC00u32 == mode & !0xC00u32,
        (mode & !0xC00u32) & 0xC00u32 == 0,
{
    assert((mode & !0xC00u32) & !0xC00u32 == mode & !0xC00u32) by (bit_vector);
    assert((mode & !0xC00u32) & 0xC00u32 == 0) by (bit_vector);
}

/// When a write succeeds, and how it fails otherwise. What is no file is refused first,
/// then who may not write, then a range that ends past the largest offset, and last a
/// growth beyond the quota. A write of nothing changes nothing.
pub proof fn law_write_is_answered(
    fs: &ZeroFS,
    result: Result<DataChange, FsError>,
    inode: &Inode,
    caller: Caller,
    offset: u64,
    length: u64,
    used_bytes: u64,
    now: Timestamp,
)
    requires
        call_ensures(
            ZeroFS::write,
            (fs, inode, caller, offset, length, used_bytes, now),
            result,
        ),
    ensures
        !(*inode is File) ==> result matches Err(FsError::IsDirectory),
        *inode matches Inode::File(file) ==> {
            let allowed = caller.uid == file.uid || caller.access is Ok;
            let end = offset + length;
            let growth = end - file.size;
            let fits = growth <= 0 || used_bytes + growth <= fs@.limits.max_bytes || fs@.limits.max_bytes == u64::MAX;
            &&& !allowed ==> (result matches Err(e)
                && caller.access == Err::<(), FsError>(e))
            &&& allowed && length == 0
                ==> (result matches Ok(DataChange::Unchanged))
            &&& allowed && length > 0 && end > u64::MAX
                ==> (result matches Err(FsError::InvalidArgument))
            &&& allowed && length > 0 && end <= u64::MAX
                && !fits ==> (result matches Err(FsError::NoSpace))
            &&& allowed && length > 0 && end <= u64::MAX
                && fits ==> (result matches Ok(DataChange::Changed { .. }))
        },
{
}

/// Writes of adjoining ranges come to the same size as one write of both.
pub proof fn law_adjoining_writes_make_one_size(
    fs: &ZeroFS,
    inode: &Inode,
    caller: Caller,
    offset: u64,
    first: u64,
    second: u64,
    used_bytes: u64,
    now: Timestamp,
    whole: DataChange,
    head: DataChange,
    both: DataChange,
)
    requires
        0 < first && 0 < second && offset + first + second <= u64::MAX,
        call_ensures(
            ZeroFS::write,
            (fs, inode, caller, offset, (first + second) as u64, used_bytes, now),
            Ok(whole),
        ),
        call_ensures(
            ZeroFS::write,
            (fs, inode, caller, offset, first, used_bytes, now),
            Ok(head),
        ),
        call_ensures(
            ZeroFS::write,
            (
                fs,
                &Inode::File(head->file),
                caller,
                (offset + first) as u64,
                second,
                used_bytes,
                now,
            ),
            Ok(both),
        ),
    ensures
        both->file.size == whole->file.size,
{
    law_write_reaches_exactly_its_end(
        fs,
        Ok(whole),
        inode,
        caller,
        offset,
        (first + second) as u64,
        used_bytes,
        now,
    );
}

/// A permitted read that begins before the end of a file covers as many bytes as were
/// asked for, or all up to the end if there are fewer, from where it was asked; and it
/// reports the end exactly if it reaches it. Only a read that begins at the end or past
/// it, or asks for nothing, is empty.
pub proof fn law_read_covers_what_the_file_has(
    fs: &ZeroFS,
    result: Result<ReadRange, FsError>,
    inode: &Inode,
    access: Result<(), FsError>,
    offset: u64,
    count: u32,
)
    requires
        call_ensures(ZeroFS::read_file, (fs, inode, access, offset, count), result),
    ensures
        access matches Err(e) ==> (result matches Err(error) && error == e),
        access is Ok && !(*inode is File) ==> (result matches Err(FsError::IsDirectory)),
        access is Ok ==> (*inode matches Inode::File(file) ==> (result matches Ok(range) && {
            &&& range.offset == offset
            &&& offset >= file.size ==> range.length == 0 && range.eof
            &&& offset < file.size ==> {
                &&& range.length <= count
                &&& offset + range.length <= file.size
                &&& range.length == count || offset + range.length == file.size
                &&& range.eof == (offset + range.length == file.size)
            }
        })),
{
}

/// A read through a handle whose access was authorized at open is a permitted read.
pub proof fn law_opened_read_is_a_permitted_read(
    fs: &ZeroFS,
    inode: &Inode,
    offset: u64,
    count: u32,
    opened: Result<ReadRange, FsError>,
    permitted: Result<ReadRange, FsError>,
)
    requires
        call_ensures(ZeroFS::read_file_opened, (fs, inode, offset, count), opened),
        call_ensures(ZeroFS::read_file, (fs, inode, Ok(()), offset, count), permitted),
    ensures
        opened == permitted,
{
}

/// Reading on from where a read stopped, as long as it does not report the end, misses
/// nothing and repeats nothing: the next range begins where the last ended, and the
/// ranges of one size cover the file up to its end.
pub proof fn law_reading_on_covers_the_file(
    fs: &ZeroFS,
    file: FileInode,
    offset: u64,
    count: u32,
    range: ReadRange,
    next: ReadRange,
)
    requires
        count > 0,
        call_ensures(
            ZeroFS::read_file,
            (fs, &Inode::File(file), Ok(()), offset, count),
            Ok(range),
        ),
        !range.eof,
        call_ensures(
            ZeroFS::read_file,
            (fs, &Inode::File(file), Ok(()), (offset + range.length) as u64, count),
            Ok(next),
        ),
    ensures
        range.length == count,
        next.offset == range.offset + range.length,
        next.length > 0,
        next.eof <==> next.offset + next.length == file.size,
{
}

/// A trim keeps a file as it is but for the zeroed range: it hands on the file's size
/// exactly if there is something to do. It is refused for the reasons a write of the
/// range is, and never for want of space.
pub proof fn law_trim_is_answered(
    fs: &ZeroFS,
    result: Result<Option<u64>, FsError>,
    inode: &Inode,
    caller: Caller,
    offset: u64,
    length: u64,
)
    requires
        call_ensures(ZeroFS::trim, (fs, inode, caller, offset, length), result),
    ensures
        length == 0 ==> result == Ok::<Option<u64>, FsError>(None),
        length > 0 && !(*inode is File) ==> (result matches Err(FsError::IsDirectory)),
        length > 0 ==> (*inode matches Inode::File(file) ==> {
            let allowed = caller.uid == file.uid || caller.access is Ok;
            &&& !allowed ==> (result matches Err(e) && caller.access == Err::<(), FsError>(e))
            &&& allowed && offset + length > u64::MAX ==> (result matches Err(
                FsError::InvalidArgument,
            ))
            &&& allowed && offset + length <= u64::MAX ==> result == Ok::<Option<u64>, FsError>(
                Some(file.size),
            )
        }),
{
}

/// What a fallocate leaves: allocating, or zeroing without keeping the size, makes the
/// file exactly as long as the longer of its old size and the end of the range; punching
/// a hole, or zeroing with the size kept, leaves the size alone. What is zeroed is
/// exactly the part of the range that lies in the old file, and nothing when allocating.
pub proof fn law_fallocate_reaches_exactly_its_end(
    fs: &ZeroFS,
    result: Result<DataChange, FsError>,
    inode: &Inode,
    uid: u32,
    offset: u64,
    length: u64,
    mode: FallocateMode,
    used_bytes: u64,
    now: Timestamp,
)
    requires
        call_ensures(
            ZeroFS::fallocate_opened,
            (fs, inode, uid, offset, length, mode, used_bytes, now),
            result,
        ),
    ensures
        result is Ok ==> result matches Ok(DataChange::Changed { .. }),
        result matches Ok(DataChange::Changed { file, old_size, entry, zeroed }) ==> (
        *inode matches Inode::File(before) && {
            let grows = mode is Allocate || mode == FallocateMode::ZeroRange { keep_size: false };
            &&& old_size == before.size
            &&& !grows ==> file.size == before.size
            &&& grows ==> file.size >= before.size && file.size >= offset + length
            &&& file.size == before.size || file.size == offset + length
            &&& file.mtime == now.seconds && file.mtime_nsec == now.nanos
            &&& file.ctime == now.seconds && file.ctime_nsec == now.nanos
            &&& file.nlink == before.nlink
            &&& file.uid == before.uid
            &&& file.parent == before.parent
            &&& file@.name == before@.name
            &&& file.mode & !0xC00u32 == before.mode & !0xC00u32
            &&& (uid == 0 || uid == before.uid) ==> file.mode == before.mode
            &&& (uid != 0 && uid != before.uid) ==> file.mode & 0xC00u32 == 0
            &&& entry is Some == (before.parent is Some && before.name is Some)
            &&& entry matches Some(e) ==> before.parent == Some(e.0) && before.name->0@ == e.1@
            &&& zeroed is Some == (!(mode is Allocate) && offset < before.size)
            &&& zeroed matches Some((from, bytes)) ==> {
                &&& from == offset
                &&& 0 < bytes <= length
                &&& from + bytes <= before.size
                &&& bytes == length || from + bytes == before.size
            }
            &&& file.size > before.size ==> used_bytes + (file.size - before.size) <= fs@.limits.max_bytes
                || fs@.limits.max_bytes == u64::MAX
        }),
{
    if let Inode::File(before) = *inode {
        lemma_set_id(before.mode);
    }
}

/// When a fallocate succeeds, and how it fails otherwise: an empty range or one that
/// ends past the largest offset is refused first, then what is no file, and last a growth
/// beyond the quota. Modes that keep the size need no quota.
pub proof fn law_fallocate_is_answered(
    fs: &ZeroFS,
    result: Result<DataChange, FsError>,
    inode: &Inode,
    uid: u32,
    offset: u64,
    length: u64,
    mode: FallocateMode,
    used_bytes: u64,
    now: Timestamp,
)
    requires
        call_ensures(
            ZeroFS::fallocate_opened,
            (fs, inode, uid, offset, length, mode, used_bytes, now),
            result,
        ),
    ensures
        length == 0 || offset + length > u64::MAX ==> result matches Err(FsError::InvalidArgument),
        length > 0 && offset + length <= u64::MAX && !(*inode is File) ==> result matches Err(
            FsError::IsDirectory,
        ),
        length > 0 && offset + length <= u64::MAX ==> (*inode matches Inode::File(file) ==> {
            let growth = offset + length - file.size;
            let keeps = mode is PunchHole || mode == FallocateMode::ZeroRange { keep_size: true };
            let fits = keeps || growth <= 0 || used_bytes + growth <= fs@.limits.max_bytes || fs@.limits.max_bytes
                == u64::MAX;
            &&& fits ==> result is Ok
            &&& !fits ==> (result matches Err(FsError::NoSpace))
        }),
{
}

/// A request that was applied before gets the file as that left it, whatever else is
/// asked now, and nothing is changed. A new one gets what the plain write comes to, or
/// its error; its result is recorded if it changes something or has an identity, and
/// only then.
pub proof fn law_replayed_write_gives_the_first_result(
    fs: &ZeroFS,
    replay: Option<FileInode>,
    tagged: bool,
    inode: &Inode,
    caller: Caller,
    offset: u64,
    length: u64,
    used_bytes: u64,
    now: Timestamp,
    result: Result<IdempotentChange, FsError>,
    plain: Result<DataChange, FsError>,
)
    requires
        call_ensures(
            ZeroFS::write_idempotent,
            (fs, replay, tagged, inode, caller, offset, length, used_bytes, now),
            result,
        ),
        call_ensures(ZeroFS::write, (fs, inode, caller, offset, length, used_bytes, now), plain),
    ensures
        replay matches Some(first) ==> (result matches Ok(IdempotentChange::Replayed(file))
            && file@ == first@),
        replay is None ==> (plain matches Err(e) ==> (result matches Err(error) && error == e)),
        replay is None ==> (plain matches Ok(c) ==> (result matches Ok(
            IdempotentChange::Fresh { change, record },
        ) && change@ == c@ && record == (tagged || c is Changed))),
{
}

/// A write through a handle whose access was authorized at open is a write that the mode
/// bits permit, whatever they say now.
pub proof fn law_opened_write_is_a_permitted_write(
    fs: &ZeroFS,
    replay: Option<FileInode>,
    tagged: bool,
    inode: &Inode,
    caller: Caller,
    offset: u64,
    length: u64,
    used_bytes: u64,
    now: Timestamp,
    opened: Result<IdempotentChange, FsError>,
    plain: Result<DataChange, FsError>,
)
    requires
        call_ensures(
            ZeroFS::write_opened_idempotent,
            (fs, replay, tagged, inode, caller, offset, length, used_bytes, now),
            opened,
        ),
        call_ensures(
            ZeroFS::write,
            (
                fs,
                inode,
                Caller { uid: caller.uid, access: Ok(()) },
                offset,
                length,
                used_bytes,
                now,
            ),
            plain,
        ),
    ensures
        replay matches Some(first) ==> (opened matches Ok(IdempotentChange::Replayed(file))
            && file@ == first@),
        replay is None ==> (plain matches Err(e) ==> (opened matches Err(error) && error == e)),
        replay is None ==> (plain matches Ok(c) ==> (opened matches Ok(
            IdempotentChange::Fresh { change, record },
        ) && change@ == c@ && record == (tagged || c is Changed))),
{
}

/// What holds of a repeated write holds of a repeated fallocate.
pub proof fn law_replayed_fallocate_gives_the_first_result(
    fs: &ZeroFS,
    replay: Option<FileInode>,
    tagged: bool,
    inode: &Inode,
    uid: u32,
    offset: u64,
    length: u64,
    mode: FallocateMode,
    used_bytes: u64,
    now: Timestamp,
    result: Result<IdempotentChange, FsError>,
    plain: Result<DataChange, FsError>,
)
    requires
        call_ensures(
            ZeroFS::fallocate_opened_idempotent,
            (fs, replay, tagged, inode, uid, offset, length, mode, used_bytes, now),
            result,
        ),
        call_ensures(
            ZeroFS::fallocate_opened,
            (fs, inode, uid, offset, length, mode, used_bytes, now),
            plain,
        ),
    ensures
        replay matches Some(first) ==> (result matches Ok(IdempotentChange::Replayed(file))
            && file@ == first@),
        replay is None ==> (plain matches Err(e) ==> (result matches Err(error) && error == e)),
        replay is None ==> (plain matches Ok(c) ==> (result matches Ok(
            IdempotentChange::Fresh { change, record },
        ) && change@ == c@ && record == (tagged || c is Changed))),
{
}

/// The end of a range is its offset and length together; a range without one has no
/// bytes or ends past the largest offset.
pub proof fn law_range_end_is_past_its_last_byte(
    offset: u64,
    length: u64,
    result: Result<u64, FsError>,
)
    requires
        call_ensures(range_end, (offset, length), result),
    ensures
        result matches Ok(end) ==> end == offset + length && end > offset,
        result matches Err(e) ==> e == FsError::InvalidArgument && (length == 0 || offset + length
            > u64::MAX),
{
}

/// The value of a change is what its fields hold: two changes with one value have the
/// same fields.
pub proof fn law_change_value_is_its_fields(left: DataChange, right: DataChange)
    requires
        left@ == right@,
    ensures
        left is Unchanged == right is Unchanged,
        left matches DataChange::Changed { file, old_size, entry, zeroed } ==> (
        right matches DataChange::Changed { file: f, old_size: o, entry: e, zeroed: z } && {
            &&& f.size == file.size
            &&& f.nlink == file.nlink
            &&& f.uid == file.uid
            &&& f.mode == file.mode
            &&& f.mtime == file.mtime
            &&& f.mtime_nsec == file.mtime_nsec
            &&& f.ctime == file.ctime
            &&& f.ctime_nsec == file.ctime_nsec
            &&& f.parent == file.parent
            &&& f.name is Some == file.name is Some
            &&& f.name matches Some(name) ==> name@ == file.name->0@
            &&& o == old_size
            &&& z == zeroed
            &&& e is Some == entry is Some
            &&& e matches Some(x) ==> (entry matches Some(y) && x.0 == y.0 && x.1@ == y.1@)
        }),
{
    assert(left@ is Unchanged == right@ is Unchanged);
}

/// The flags of a mode say, each by its own bit, whether the size is kept, whether a hole
/// is punched and whether a range is zeroed.
pub proof fn law_flags_tell_the_mode(mode: FallocateMode, flags: u32)
    requires
        call_ensures(FallocateMode::linux_mode, (mode,), flags),
    ensures
        flags == (if mode is PunchHole || mode == (FallocateMode::ZeroRange {
            keep_size: true,
        }) {
            1int
        } else {
            0
        }) + (if mode is PunchHole {
            2int
        } else {
            0
        }) + (if mode is ZeroRange {
            16int
        } else {
            0
        }),
{
}

} // verus!
