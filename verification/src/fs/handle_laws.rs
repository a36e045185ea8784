//! What is reclaimed and when, said of what goes in and what comes out.

use super::handle::drain_orphans;
use super::handle::drainer_step;
use super::handle::readable;
use super::handle::DataDisposal;
use super::handle::DeletedKind;
use super::handle::DrainerAction;
use super::handle::DrainerEvent;
use super::handle::DrainerState;
use super::handle::OpenHandle;
use super::handle::ReclaimDecision;
use super::FsLimits;
use super::InodeId;
use super::ZeroFS;
use crate::fs::errors::FsError;
use crate::fs::inode::Inode;
use vstd::arithmetic::div_mod::lemma_fundamental_div_mod;
use vstd::prelude::*;

verus! {

/// An inode that has a link is never deleted: whatever its kind, its orphan key is
/// removed and nothing else. A deleted inode had no link, and a deleted directory had no
/// entries either.
pub proof fn law_linked_inodes_are_never_deleted(
    fs: &ZeroFS,
    inode: &Inode,
    result: Result<ReclaimDecision, FsError>,
)
    requires
        call_ensures(ZeroFS::reclaim_orphan_inode, (fs, Ok(inode)), result),
    ensures
        (match *inode {
            Inode::File(file) => file.nlink,
            Inode::Directory { nlink, .. } => nlink,
            Inode::Symlink { nlink } => nlink,
            Inode::Special { nlink } => nlink,
        }) != 0 ==> result == Ok::<ReclaimDecision, FsError>(ReclaimDecision::ClearOrphanKey),
        result matches Ok(ReclaimDecision::Delete { .. }) ==> (match *inode {
            Inode::File(file) => file.nlink == 0,
            Inode::Directory { nlink, entry_count } => nlink == 0 && entry_count == 0,
            Inode::Symlink { nlink } => nlink == 0,
            Inode::Special { nlink } => nlink == 0,
        }),
{
}

/// An inode without links is deleted as what it is. A file frees as many bytes as it has,
/// and what is no file frees none and has no data to dispose of. Only a directory that
/// still has entries is kept.
pub proof fn law_unlinked_inodes_are_deleted(
    fs: &ZeroFS,
    inode: &Inode,
    result: Result<ReclaimDecision, FsError>,
)
    requires
        call_ensures(ZeroFS::reclaim_orphan_inode, (fs, Ok(inode)), result),
    ensures
        *inode matches Inode::File(file) ==> (file.nlink == 0 ==> (result matches Ok(
            ReclaimDecision::Delete { kind, freed_bytes, data },
        ) && kind == DeletedKind::File && freed_bytes == file.size && !(data is Nothing))),
        *inode matches Inode::Symlink { nlink: 0 } ==> (result matches Ok(
            ReclaimDecision::Delete { kind, freed_bytes, data },
        ) && kind == DeletedKind::Symlink && freed_bytes == 0 && data is Nothing),
        *inode matches Inode::Special { nlink: 0 } ==> (result matches Ok(
            ReclaimDecision::Delete { kind, freed_bytes, data },
        ) && kind == DeletedKind::Special && freed_bytes == 0 && data is Nothing),
        *inode matches Inode::Directory { nlink: 0, entry_count: 0 } ==> (result matches Ok(
            ReclaimDecision::Delete { kind, freed_bytes, data },
        ) && kind == DeletedKind::Directory && freed_bytes == 0 && data is Nothing),
        *inode matches Inode::Directory { nlink: 0, entry_count } ==> (entry_count != 0 ==> result
            == Ok::<ReclaimDecision, FsError>(ReclaimDecision::Keep)),
{
}

/// The extents that a deleted file loses at once are exactly as many as hold its bytes: one
/// fewer would leave a byte behind. A file that has more of them than may be deleted at
/// once, and no other, leaves a tombstone of its size.
pub proof fn law_deleted_extents_hold_the_file(
    fs: &ZeroFS,
    inode: &Inode,
    result: Result<ReclaimDecision, FsError>,
)
    requires
        fs@.limits.extent_size > 0,
        call_ensures(ZeroFS::reclaim_orphan_inode, (fs, Ok(inode)), result),
    ensures
        *inode matches Inode::File(file) ==> (result matches Ok(
            ReclaimDecision::Delete { data, .. },
        ) ==> {
            let extent = fs@.limits.extent_size;
            let most = fs@.limits.small_file_extents;
            &&& data matches DataDisposal::DeleteExtents { count } ==> {
                &&& count * extent >= file.size
                &&& count > 0 ==> (count - 1) * extent < file.size
                &&& count <= most
            }
            &&& data matches DataDisposal::Tombstone { size } ==> size == file.size
            &&& data is Tombstone <==> file.size > most * extent
        }),
{
    if let Inode::File(file) = *inode {
        let e = fs@.limits.extent_size as int;
        let most = fs@.limits.small_file_extents as int;
        let size = file.size as int;
        let count = (size + e - 1) / e;
        lemma_fundamental_div_mod(size + e - 1, e);
        let rest = (size + e - 1) % e;
        assert(0 <= rest < e);
        assert(size + e - 1 == e * count + rest);
        assert(count * e >= size && (count - 1) * e < size && count >= 0) by (nonlinear_arith)
            requires
                size + e - 1 == e * count + rest,
                0 <= rest < e,
                e > 0,
                size >= 0,
        ;
        assert(count <= size) by (nonlinear_arith)
            requires
                (count - 1) * e < size,
                e > 0,
                size >= 0,
                count >= 0,
        ;
        assert((count > most) == (size > most * e)) by (nonlinear_arith)
            requires
                (count - 1) * e < size,
                count * e >= size,
                e > 0,
        ;
    }
}

/// An inode that is gone has its orphan key removed, and one that cannot be read for
/// another reason is not touched: the reason is passed on.
pub proof fn law_unreadable_inodes_are_left_alone(
    fs: &ZeroFS,
    error: FsError,
    result: Result<ReclaimDecision, FsError>,
)
    requires
        call_ensures(ZeroFS::reclaim_orphan_inode, (fs, Err(error)), result),
    ensures
        error == FsError::NotFound ==> result == Ok::<ReclaimDecision, FsError>(
            ReclaimDecision::ClearOrphanKey,
        ),
        error != FsError::NotFound ==> result == Err::<ReclaimDecision, FsError>(error),
{
}

/// An inode is reclaimed exactly if nothing refers to it: no handle is counted for it and
/// no replay result protects it. It is deferred in every other case.
pub proof fn law_reclaim_waits_for_every_reference(
    fs: &ZeroFS,
    id: InodeId,
    replay_protected: bool,
    count: u64,
    defer: bool,
    reclaim: bool,
)
    requires
        call_ensures(ZeroFS::open_handle_count, (fs, id), count),
        call_ensures(ZeroFS::should_defer_unlinked_inode, (fs, id, replay_protected), defer),
        call_ensures(ZeroFS::reclaim_if_unreferenced, (fs, id, replay_protected), reclaim),
    ensures
        count > 0 <==> fs@.open_handles.contains_key(id) && fs@.open_handles[id] > 0,
        fs@.open_handles.contains_key(id) ==> count == fs@.open_handles[id],
        reclaim == (count == 0 && !replay_protected),
        defer == !reclaim,
{
}

/// Opening an inode once more is counted once, for that inode alone, and nothing is
/// queued.
pub proof fn law_open_counts_once(
    fs: &mut ZeroFS,
    id: InodeId,
    other: InodeId,
    before: u64,
    after: u64,
    other_before: u64,
    other_after: u64,
)
    requires
        before < u64::MAX,
        other != id,
        call_ensures(ZeroFS::open_handle_inc, (fs, id), ()),
        call_ensures(ZeroFS::open_handle_count, (&*old(fs), id), before),
        call_ensures(ZeroFS::open_handle_count, (&*final(fs), id), after),
        call_ensures(ZeroFS::open_handle_count, (&*old(fs), other), other_before),
        call_ensures(ZeroFS::open_handle_count, (&*final(fs), other), other_after),
    ensures
        after == before + 1,
        other_after == other_before,
        final(fs)@.reclaim_queue == old(fs)@.reclaim_queue,
        final(fs)@.limits == old(fs)@.limits,
{
}

/// A new handle pins the inode that it was opened on, and counts once, for that inode
/// alone.
pub proof fn law_handle_pins_its_inode(
    fs: &mut ZeroFS,
    id: InodeId,
    handle: OpenHandle,
    pinned: InodeId,
    other: InodeId,
    before: u64,
    after: u64,
    other_before: u64,
    other_after: u64,
)
    requires
        before < u64::MAX,
        other != id,
        call_ensures(ZeroFS::new_open_handle, (fs, id), handle),
        call_ensures(OpenHandle::inode_id, (&handle,), pinned),
        call_ensures(ZeroFS::open_handle_count, (&*old(fs), id), before),
        call_ensures(ZeroFS::open_handle_count, (&*final(fs), id), after),
        call_ensures(ZeroFS::open_handle_count, (&*old(fs), other), other_before),
        call_ensures(ZeroFS::open_handle_count, (&*final(fs), other), other_after),
    ensures
        pinned == id,
        after == before + 1,
        other_after == other_before,
        final(fs)@.reclaim_queue == old(fs)@.reclaim_queue,
        final(fs)@.limits == old(fs)@.limits,
{
}

/// Closing an inode is counted once, for that inode alone and never below zero, and gives
/// the count that is left. Nothing is queued.
pub proof fn law_close_counts_once(
    fs: &mut ZeroFS,
    id: InodeId,
    left: u64,
    other: InodeId,
    before: u64,
    after: u64,
    other_before: u64,
    other_after: u64,
)
    requires
        other != id,
        call_ensures(ZeroFS::open_handle_dec, (fs, id), left),
        call_ensures(ZeroFS::open_handle_count, (&*old(fs), id), before),
        call_ensures(ZeroFS::open_handle_count, (&*final(fs), id), after),
        call_ensures(ZeroFS::open_handle_count, (&*old(fs), other), other_before),
        call_ensures(ZeroFS::open_handle_count, (&*final(fs), other), other_after),
    ensures
        before > 0 ==> after == before - 1,
        before == 0 ==> after == 0,
        left == after,
        after == 0 ==> !final(fs)@.open_handles.contains_key(id),
        other_after == other_before,
        final(fs)@.reclaim_queue == old(fs)@.reclaim_queue,
        final(fs)@.limits == old(fs)@.limits,
{
}

/// A closed handle was the last exactly if none is counted after it.
pub proof fn law_last_close_is_told(
    fs: &mut ZeroFS,
    id: InodeId,
    last: bool,
    other: InodeId,
    before: u64,
    after: u64,
    other_before: u64,
    other_after: u64,
)
    requires
        other != id,
        call_ensures(ZeroFS::handle_closed, (fs, id), last),
        call_ensures(ZeroFS::open_handle_count, (&*old(fs), id), before),
        call_ensures(ZeroFS::open_handle_count, (&*final(fs), id), after),
        call_ensures(ZeroFS::open_handle_count, (&*old(fs), other), other_before),
        call_ensures(ZeroFS::open_handle_count, (&*final(fs), other), other_after),
    ensures
        before > 0 ==> after == before - 1,
        before == 0 ==> after == 0,
        last == (after == 0),
        other_after == other_before,
        final(fs)@.reclaim_queue == old(fs)@.reclaim_queue,
        final(fs)@.limits == old(fs)@.limits,
{
}

/// A handle that is given back is counted once less, for its inode alone, and queues that
/// inode for reclaim exactly if no handle on it is left.
pub proof fn law_last_release_queues_the_inode(
    fs: &mut ZeroFS,
    handle: OpenHandle,
    id: InodeId,
    other: InodeId,
    before: u64,
    after: u64,
    other_before: u64,
    other_after: u64,
)
    requires
        other != id,
        call_ensures(OpenHandle::inode_id, (&handle,), id),
        call_ensures(ZeroFS::release_handle, (fs, handle), ()),
        call_ensures(ZeroFS::open_handle_count, (&*old(fs), id), before),
        call_ensures(ZeroFS::open_handle_count, (&*final(fs), id), after),
        call_ensures(ZeroFS::open_handle_count, (&*old(fs), other), other_before),
        call_ensures(ZeroFS::open_handle_count, (&*final(fs), other), other_after),
    ensures
        before > 0 ==> after == before - 1,
        before == 0 ==> after == 0,
        after == 0 ==> final(fs)@.reclaim_queue == old(fs)@.reclaim_queue.push(id),
        after > 0 ==> final(fs)@.reclaim_queue == old(fs)@.reclaim_queue,
        other_after == other_before,
        final(fs)@.limits == old(fs)@.limits,
{
}

/// Inodes are taken from the queue in the order in which they came, each once, until
/// there is none.
pub proof fn law_queue_is_first_come_first_served(fs: &mut ZeroFS, next: Option<InodeId>)
    requires
        call_ensures(ZeroFS::next_reclaim, (fs,), next),
    ensures
        next is None <==> old(fs)@.reclaim_queue.len() == 0,
        next is None ==> final(fs)@ == old(fs)@,
        next matches Some(id) ==> seq![id] + final(fs)@.reclaim_queue == old(fs)@.reclaim_queue,
        final(fs)@.open_handles == old(fs)@.open_handles,
        final(fs)@.limits == old(fs)@.limits,
{
    if let Some(id) = next {
        assert(seq![id] + final(fs)@.reclaim_queue =~= old(fs)@.reclaim_queue);
    }
}

/// A deferred inode is queued exactly if it may be reclaimed.
pub proof fn law_deferred_orphan_is_queued_once_unreferenced(
    fs: &mut ZeroFS,
    id: InodeId,
    replay_protected: bool,
    reclaim: bool,
)
    requires
        call_ensures(ZeroFS::schedule_deferred_orphan_reclaim, (fs, id, replay_protected), ()),
        call_ensures(
            ZeroFS::reclaim_if_unreferenced,
            (&*old(fs), id, replay_protected),
            reclaim,
        ),
    ensures
        reclaim ==> final(fs)@.reclaim_queue == old(fs)@.reclaim_queue.push(id),
        !reclaim ==> final(fs)@.reclaim_queue == old(fs)@.reclaim_queue,
        final(fs)@.open_handles == old(fs)@.open_handles,
        final(fs)@.limits == old(fs)@.limits,
{
}

/// In a new filesystem nothing is open and nothing is queued, and its limits are the
/// given ones.
pub proof fn law_new_filesystem_is_idle(
    limits: FsLimits,
    fs: ZeroFS,
    id: InodeId,
    count: u64,
    told: FsLimits,
)
    requires
        call_ensures(ZeroFS::new, (limits,), fs),
        call_ensures(ZeroFS::open_handle_count, (&fs, id), count),
        call_ensures(ZeroFS::limits, (&fs,), told),
    ensures
        count == 0,
        fs@.reclaim_queue.len() == 0,
        told == limits,
        fs@.limits == limits,
{
}

/// The drainer reclaims everything that it receives while the filesystem lives, also
/// after a shutdown; it stops only at the end of the queue or of the filesystem; it closes
/// the queue once, at the first shutdown, and never takes new work after that.
pub proof fn law_drainer_loses_nothing(
    state: DrainerState,
    event: DrainerEvent,
    fs_alive: bool,
    next: (DrainerState, DrainerAction),
)
    requires
        call_ensures(drainer_step, (state, event, fs_alive), next),
    ensures
        event matches DrainerEvent::Received(id) ==> (fs_alive ==> next.1
            == DrainerAction::Reclaim(id)),
        next.1 matches DrainerAction::Reclaim(id) ==> event == DrainerEvent::Received(id)
            && fs_alive,
        next.1 is Stop <==> event is QueueEnded || (event is Received && !fs_alive),
        next.1 is CloseQueue <==> state is Running && event is Shutdown,
        next.0 is Draining <==> state is Draining || event is Shutdown,
{
}

/// The places of the readable entries.
pub open spec fn readable_places(entries: Seq<Option<InodeId>>) -> Seq<int>
    decreases entries.len(),
{
    if entries.len() == 0 {
        Seq::empty()
    } else if entries.last() is Some {
        readable_places(entries.drop_last()).push(entries.len() - 1)
    } else {
        readable_places(entries.drop_last())
    }
}

/// `places` are the places in `entries` of what `ids` holds, from first to last.
pub open spec fn picks(entries: Seq<Option<InodeId>>, places: Seq<int>, ids: Seq<InodeId>) -> bool {
    &&& places.len() == ids.len()
    &&& forall|n: int|
        0 <= n < ids.len() ==> 0 <= #[trigger] places[n] < entries.len() && entries[places[n]]
            == Some(ids[n])
    &&& forall|m: int, n: int|
        0 <= m < n < places.len() ==> #[trigger] places[m] < #[trigger] places[n]
    &&& forall|i: int|
        0 <= i < entries.len() && (#[trigger] entries[i]) is Some ==> places.contains(i)
}

proof fn lemma_readable_places(entries: Seq<Option<InodeId>>)
    ensures
        picks(entries, readable_places(entries), readable(entries)),
    decreases entries.len(),
{
    if entries.len() > 0 {
        let shorter = entries.drop_last();
        lemma_readable_places(shorter);
        let places = readable_places(entries);
        let before = readable_places(shorter);
        assert forall|i: int| 0 <= i < entries.len() && (#[trigger] entries[i]) is Some implies
            places.contains(i) by {
            if i == entries.len() - 1 {
                assert(places[places.len() - 1] == i);
            } else {
                assert(shorter[i] is Some);
                assert(before.contains(i));
                let n = choose|n: int| 0 <= n < before.len() && before[n] == i;
                assert(places[n] == i);
            }
        }
    }
}

/// The orphans to reclaim are exactly the entries that can be read, each once for each time
/// that it is there, in the order of the entries.
pub proof fn law_every_readable_orphan_is_drained(
    entries: &[Option<InodeId>],
    ids: Vec<InodeId>,
)
    requires
        call_ensures(drain_orphans, (entries,), ids),
    ensures
        exists|places: Seq<int>| #[trigger] picks(entries@, places, ids@),
{
    lemma_readable_places(entries@);
}

} // verus!
