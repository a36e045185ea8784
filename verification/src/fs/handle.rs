//! Open-handle tracking and the reclaim of inodes that were unlinked while open.

use super::InodeId;
use super::ZeroFS;
use super::ZeroFsModel;
use crate::fs::errors::FsError;
use crate::fs::inode::Inode;
use crate::fs::inode::InodeModel;
use crate::outside::counts;
use crate::outside::dash_get;
use crate::outside::dash_insert;
use crate::outside::dash_remove;
use dashmap::DashMap;
use vstd::arithmetic::div_mod::lemma_fundamental_div_mod;
use vstd::arithmetic::div_mod::lemma_fundamental_div_mod_converse;
use vstd::prelude::*;

verus! {

/// How often an inode is open.
pub open spec fn open_count(handles: Map<InodeId, u64>, id: InodeId) -> u64 {
    if handles.contains_key(id) {
        handles[id]
    } else {
        0
    }
}

/// One handle more.
pub open spec fn opened(handles: Map<InodeId, u64>, id: InodeId) -> Map<InodeId, u64> {
    handles.insert(id, (open_count(handles, id) + 1) as u64)
}

/// One handle less. The last one takes the entry with it.
pub open spec fn closed(handles: Map<InodeId, u64>, id: InodeId) -> Map<InodeId, u64> {
    if open_count(handles, id) <= 1 {
        handles.remove(id)
    } else {
        handles.insert(id, (open_count(handles, id) - 1) as u64)
    }
}

/// One less, but not below zero.
pub open spec fn one_less(count: u64) -> u64 {
    if count == 0 {
        0
    } else {
        (count - 1) as u64
    }
}

/// Handles or replay results protect an inode.
pub open spec fn defers(handles: Map<InodeId, u64>, id: InodeId, replay_protected: bool) -> bool {
    open_count(handles, id) > 0 || replay_protected
}

/// Nothing refers to an inode any more.
pub open spec fn reclaimable(handles: Map<InodeId, u64>, id: InodeId, replay_protected: bool) -> bool {
    open_count(handles, id) == 0 && !replay_protected
}

/// Pins an inode's open-handle count for the lifetime of one opened fid. Whoever holds
/// it gives it back exactly once, to [`ZeroFS::release_handle`].
#[derive(Debug)]
pub struct OpenHandle {
    inode_id: InodeId,
}

impl OpenHandle {
    /// The inode that the handle pins.
    pub closed spec fn id(self) -> InodeId {
        self.inode_id
    }

    pub fn inode_id(&self) -> (id: InodeId)
        ensures
            id == self.id(),
    {
        self.inode_id
    }
}

fn dec_open_handle(map: &mut DashMap<InodeId, u64>, id: InodeId) -> (count: u64)
    ensures
        counts(*final(map)) == closed(counts(*old(map)), id),
        count == one_less(open_count(counts(*old(map)), id)),
{
    match dash_get(map, id) {
        Some(open) => {
            if open <= 1 {
                dash_remove(map, id);
                0
            } else {
                dash_insert(map, id, open - 1);
                open - 1
            }
        },
        None => {
            assert(counts(*map).remove(id) =~= counts(*map));
            0
        },
    }
}

impl ZeroFS {
    /// Counts one more handle on `id`. Called under the inode's lock, together with the
    /// check that the inode is alive.
    pub fn open_handle_inc(&mut self, id: InodeId)
        requires
            open_count(old(self)@.open_handles, id) < u64::MAX,
        ensures
            final(self)@ == (ZeroFsModel {
                open_handles: opened(old(self)@.open_handles, id),
                ..old(self)@
            }),
    {
        let count: u64 = self.open_handle_count(id);
        dash_insert(&mut self.open_handles, id, count + 1);
    }

    /// Counts one handle less on `id`, and gives the count after that.
    pub fn open_handle_dec(&mut self, id: InodeId) -> (count: u64)
        ensures
            final(self)@ == (ZeroFsModel {
                open_handles: closed(old(self)@.open_handles, id),
                ..old(self)@
            }),
            count == one_less(open_count(old(self)@.open_handles, id)),
    {
        dec_open_handle(&mut self.open_handles, id)
    }

    /// How often `id` is open.
    pub fn open_handle_count(&self, id: InodeId) -> (count: u64)
        ensures
            count == open_count(self@.open_handles, id),
    {
        match dash_get(&self.open_handles, id) {
            Some(count) => count,
            None => 0,
        }
    }

    /// Whether open handles or replay results protect an inode that lost its last link.
    pub fn should_defer_unlinked_inode(&self, id: InodeId, replay_protected: bool) -> (defer: bool)
        ensures
            defer == defers(self@.open_handles, id, replay_protected),
    {
        self.open_handle_count(id) > 0 || replay_protected
    }

    /// Counts one more handle on `id`, and gives the handle that pins it.
    pub fn new_open_handle(&mut self, id: InodeId) -> (handle: OpenHandle)
        requires
            open_count(old(self)@.open_handles, id) < u64::MAX,
        ensures
            handle.id() == id,
            final(self)@ == (ZeroFsModel {
                open_handles: opened(old(self)@.open_handles, id),
                ..old(self)@
            }),
    {
        self.open_handle_inc(id);
        OpenHandle { inode_id: id }
    }

    /// Takes a handle back. The inode that loses its last handle is queued for reclaim.
    pub fn release_handle(&mut self, handle: OpenHandle)
        ensures
            final(self)@ == (ZeroFsModel {
                open_handles: closed(old(self)@.open_handles, handle.id()),
                reclaim_queue: if open_count(old(self)@.open_handles, handle.id()) <= 1 {
                    old(self)@.reclaim_queue.push(handle.id())
                } else {
                    old(self)@.reclaim_queue
                },
                ..old(self)@
            }),
    {
        if self.open_handle_dec(handle.inode_id) == 0 {
            self.reclaim_queue.push(handle.inode_id);
        }
    }

    /// The inode that has waited longest for reclaim.
    pub fn next_reclaim(&mut self) -> (next: Option<InodeId>)
        ensures
            ({
                let queue = old(self)@.reclaim_queue;
                if queue.len() == 0 {
                    next is None && final(self)@ == old(self)@
                } else {
                    next == Some(queue[0]) && final(self)@ == (ZeroFsModel {
                        reclaim_queue: queue.drop_first(),
                        ..old(self)@
                    })
                }
            }),
    {
        if self.reclaim_queue.len() == 0 {
            return None;
        }
        let id: InodeId = self.reclaim_queue.remove(0);
        assert(self.reclaim_queue@ =~= old(self)@.reclaim_queue.drop_first());
        Some(id)
    }

    /// Looks at a deferred inode again once its orphan record is committed: handles and
    /// replay protection may have gone before the record could be seen.
    pub fn schedule_deferred_orphan_reclaim(&mut self, id: InodeId, replay_protected: bool)
        ensures
            final(self)@ == (if reclaimable(old(self)@.open_handles, id, replay_protected) {
                ZeroFsModel { reclaim_queue: old(self)@.reclaim_queue.push(id), ..old(self)@ }
            } else {
                old(self)@
            }),
    {
        if self.open_handle_count(id) == 0 && !replay_protected {
            self.reclaim_queue.push(id);
        }
    }

    /// Counts one handle less, and says whether that was the last, so that the inode is
    /// to be reclaimed.
    pub fn handle_closed(&mut self, id: InodeId) -> (last: bool)
        ensures
            final(self)@ == (ZeroFsModel {
                open_handles: closed(old(self)@.open_handles, id),
                ..old(self)@
            }),
            last == (open_count(old(self)@.open_handles, id) <= 1),
    {
        self.open_handle_dec(id) == 0
    }

    /// Whether `id` may be reclaimed, asked again under the inode's lock: it may have
    /// been reopened since its last handle went.
    pub fn reclaim_if_unreferenced(&self, id: InodeId, replay_protected: bool) -> (reclaim: bool)
        ensures
            reclaim == reclaimable(self@.open_handles, id, replay_protected),
    {
        if self.open_handle_count(id) > 0 {
            return false;
        }
        !replay_protected
    }

    /// What the reclaim of an inode does, given the inode as it was read.
    pub fn reclaim_orphan_inode(&self, inode: Result<&Inode, FsError>) -> (result: Result<
        ReclaimDecision,
        FsError,
    >)
        requires
            self@.limits.extent_size > 0,
        ensures
            result == reclaim_decision(
                self@.limits.extent_size,
                self@.limits.small_file_extents,
                match inode {
                    Ok(inode) => Ok(inode@),
                    Err(error) => Err(error),
                },
            ),
    {
        match inode {
            Ok(Inode::File(file)) if file.nlink == 0 => {
                let extents: u64 = total_extents(file.size, self.limits.extent_size);
                let data = if extents <= self.limits.small_file_extents {
                    DataDisposal::DeleteExtents { count: extents }
                } else {
                    DataDisposal::Tombstone { size: file.size }
                };
                Ok(
                    ReclaimDecision::Delete {
                        kind: DeletedKind::File,
                        data,
                        freed_bytes: file.size,
                    },
                )
            },
            Ok(Inode::Symlink { nlink: 0 }) => Ok(dataless(DeletedKind::Symlink)),
            Ok(Inode::Directory { nlink: 0, entry_count }) => if *entry_count != 0 {
                Ok(ReclaimDecision::Keep)
            } else {
                Ok(dataless(DeletedKind::Directory))
            },
            Ok(Inode::Special { nlink: 0 }) => Ok(dataless(DeletedKind::Special)),
            Ok(_) => Ok(ReclaimDecision::ClearOrphanKey),
            Err(FsError::NotFound) => Ok(ReclaimDecision::ClearOrphanKey),
            Err(error) => Err(error),
        }
    }
}

/// What is deleted; each kind has its own statistics.
#[derive(Debug, Clone, Copy, PartialEq, Eq, Structural)]
pub enum DeletedKind {
    File,
    Symlink,
    /// The directory's cookie counter goes with it.
    Directory,
    Special,
}

/// What becomes of a deleted inode's data.
#[derive(Debug, Clone, Copy, PartialEq, Eq, Structural)]
pub enum DataDisposal {
    /// It has none.
    Nothing,
    /// The first `count` extents are deleted.
    DeleteExtents { count: u64 },
    /// A tombstone leaves the data to garbage collection.
    Tombstone { size: u64 },
}

/// What the reclaim of an inode does.
#[derive(Debug, Clone, Copy, PartialEq, Eq, Structural)]
pub enum ReclaimDecision {
    /// In one transaction: dispose of the data, delete the inode, subtract it and its
    /// bytes from the statistics, and remove its orphan key.
    Delete { kind: DeletedKind, data: DataDisposal, freed_bytes: u64 },
    /// An unlinked directory that still has entries is left alone.
    Keep,
    /// The inode is linked or gone: remove its orphan key, if it has one.
    ClearOrphanKey,
}

/// How many extents a file of that size takes.
pub open spec fn extents_of(size: u64, extent_size: u64) -> int {
    (size + extent_size - 1) / (extent_size as int)
}

fn total_extents(size: u64, extent_size: u64) -> (count: u64)
    requires
        extent_size > 0,
    ensures
        count == extents_of(size, extent_size),
{
    let whole: u64 = size / extent_size;
    let rest: u64 = size % extent_size;
    proof {
        let e = extent_size as int;
        lemma_fundamental_div_mod(size as int, e);
        if rest == 0 {
            lemma_fundamental_div_mod_converse(size + e - 1, e, whole as int, e - 1);
        } else {
            assert(e * (whole + 1) == e * whole + e) by (nonlinear_arith);
            lemma_fundamental_div_mod_converse(size + e - 1, e, whole + 1, rest - 1);
            assert(whole < u64::MAX) by (nonlinear_arith)
                requires
                    size == e * whole + rest,
                    0 < rest < e,
                    size <= u64::MAX,
            ;
        }
    }
    if rest == 0 {
        whole
    } else {
        whole + 1
    }
}

/// The deletion of an inode without data.
pub open spec fn deletes_dataless(kind: DeletedKind) -> ReclaimDecision {
    ReclaimDecision::Delete { kind, data: DataDisposal::Nothing, freed_bytes: 0 }
}

fn dataless(kind: DeletedKind) -> (decision: ReclaimDecision)
    ensures
        decision == deletes_dataless(kind),
{
    ReclaimDecision::Delete { kind, data: DataDisposal::Nothing, freed_bytes: 0 }
}

/// What the reclaim of an inode does: an inode without links is deleted, the data of a
/// small file at once and that of a large file by a tombstone.
pub open spec fn reclaim_decision(
    extent_size: u64,
    small_file_extents: u64,
    inode: Result<InodeModel, FsError>,
) -> Result<ReclaimDecision, FsError> {
    match inode {
        Err(FsError::NotFound) => Ok(ReclaimDecision::ClearOrphanKey),
        Err(error) => Err(error),
        Ok(InodeModel::File(file)) => if file.nlink != 0 {
            Ok(ReclaimDecision::ClearOrphanKey)
        } else {
            let extents = extents_of(file.size, extent_size);
            Ok(
                ReclaimDecision::Delete {
                    kind: DeletedKind::File,
                    data: if extents <= small_file_extents {
                        DataDisposal::DeleteExtents { count: extents as u64 }
                    } else {
                        DataDisposal::Tombstone { size: file.size }
                    },
                    freed_bytes: file.size,
                },
            )
        },
        Ok(InodeModel::Symlink { nlink }) => if nlink != 0 {
            Ok(ReclaimDecision::ClearOrphanKey)
        } else {
            Ok(deletes_dataless(DeletedKind::Symlink))
        },
        Ok(InodeModel::Directory { nlink, entry_count }) => if nlink != 0 {
            Ok(ReclaimDecision::ClearOrphanKey)
        } else if entry_count != 0 {
            Ok(ReclaimDecision::Keep)
        } else {
            Ok(deletes_dataless(DeletedKind::Directory))
        },
        Ok(InodeModel::Special { nlink }) => if nlink != 0 {
            Ok(ReclaimDecision::ClearOrphanKey)
        } else {
            Ok(deletes_dataless(DeletedKind::Special))
        },
    }
}

/// Whether the reclaim drainer still takes new work.
#[derive(Debug, Clone, Copy, PartialEq, Eq, Structural)]
pub enum DrainerState {
    Running,
    /// Shut down: what was queued before is still processed.
    Draining,
}

/// What the drainer is told.
#[derive(Debug, Clone, Copy, PartialEq, Eq, Structural)]
pub enum DrainerEvent {
    Shutdown,
    /// An inode lost its last handle.
    Received(InodeId),
    /// The queue is closed and empty.
    QueueEnded,
}

/// What the drainer does next.
#[derive(Debug, Clone, Copy, PartialEq, Eq, Structural)]
pub enum DrainerAction {
    /// Refuse new work, and go on with what is queued.
    CloseQueue,
    /// Reclaim the inode if nothing refers to it.
    Reclaim(InodeId),
    /// Wait for the next event.
    Wait,
    Stop,
}

/// One step of the drainer. It stops when the queue has ended or the filesystem is gone;
/// a shutdown closes the queue and lets everything in it be processed first.
pub fn drainer_step(state: DrainerState, event: DrainerEvent, fs_alive: bool) -> (next: (
    DrainerState,
    DrainerAction,
))
    ensures
        next.0 == (if event is Shutdown {
            DrainerState::Draining
        } else {
            state
        }),
        next.1 == (match event {
            DrainerEvent::Shutdown => if state is Running {
                DrainerAction::CloseQueue
            } else {
                DrainerAction::Wait
            },
            DrainerEvent::Received(id) => if fs_alive {
                DrainerAction::Reclaim(id)
            } else {
                DrainerAction::Stop
            },
            DrainerEvent::QueueEnded => DrainerAction::Stop,
        }),
{
    match event {
        DrainerEvent::Shutdown => match state {
            DrainerState::Running => (DrainerState::Draining, DrainerAction::CloseQueue),
            DrainerState::Draining => (DrainerState::Draining, DrainerAction::Wait),
        },
        DrainerEvent::Received(id) => if fs_alive {
            (state, DrainerAction::Reclaim(id))
        } else {
            (state, DrainerAction::Stop)
        },
        DrainerEvent::QueueEnded => (state, DrainerAction::Stop),
    }
}

/// The entries that could be read, in order.
pub open spec fn readable(entries: Seq<Option<InodeId>>) -> Seq<InodeId>
    decreases entries.len(),
{
    if entries.len() == 0 {
        Seq::empty()
    } else {
        match entries.last() {
            Some(id) => readable(entries.drop_last()).push(id),
            None => readable(entries.drop_last()),
        }
    }
}

/// The orphans to reclaim before serving: every entry of the orphan set that can be
/// read. `None` is an entry that cannot.
pub fn drain_orphans(entries: &[Option<InodeId>]) -> (ids: Vec<InodeId>)
    ensures
        ids@ == readable(entries@),
{
    let mut ids: Vec<InodeId> = Vec::new();
    let mut i: usize = 0;
    assert(entries@.take(0) =~= Seq::empty());
    while i < entries.len()
        invariant
            i <= entries@.len(),
            ids@ == readable(entries@.take(i as int)),
        decreases entries@.len() - i,
    {
        proof {
            assert(entries@.take(i + 1).drop_last() =~= entries@.take(i as int));
        }
        if let Some(id) = entries[i] {
            ids.push(id);
        }
        i += 1;
    }
    assert(entries@.take(i as int) =~= entries@);
    ids
}

/// No inode is tracked that is not open.
pub open spec fn only_open(handles: Map<InodeId, u64>) -> bool {
    forall|id: InodeId| #[trigger] handles.contains_key(id) ==> handles[id] > 0
}

/// Opening and closing keep the table free of inodes that are not open.
pub proof fn law_only_open_inodes_are_tracked(handles: Map<InodeId, u64>, id: InodeId)
    requires
        only_open(handles),
        open_count(handles, id) < u64::MAX,
    ensures
        only_open(opened(handles, id)),
        only_open(closed(handles, id)),
{
}

/// A close undoes an open: whatever was opened is released by closing it once.
pub proof fn law_close_undoes_open(handles: Map<InodeId, u64>, id: InodeId)
    requires
        only_open(handles),
        open_count(handles, id) < u64::MAX,
    ensures
        closed(opened(handles, id), id) == handles,
        open_count(opened(handles, id), id) == open_count(handles, id) + 1,
{
    assert(closed(opened(handles, id), id) =~= handles);
}

/// Opens and closes of one inode do not change how often another is open.
pub proof fn law_handles_are_independent(
    handles: Map<InodeId, u64>,
    id: InodeId,
    other: InodeId,
)
    requires
        id != other,
    ensures
        open_count(opened(handles, id), other) == open_count(handles, other),
        open_count(closed(handles, id), other) == open_count(handles, other),
{
}

/// An inode without links is deferred exactly as long as it may not be reclaimed, so it
/// is neither deleted while something refers to it nor kept once nothing does. In
/// particular an open inode is never reclaimed.
pub proof fn law_deferred_until_reclaimable(
    handles: Map<InodeId, u64>,
    id: InodeId,
    replay_protected: bool,
)
    ensures
        defers(handles, id, replay_protected) <==> !reclaimable(handles, id, replay_protected),
        open_count(handles, id) > 0 ==> defers(handles, id, replay_protected),
{
}

/// Once its last handle is closed, nothing but replay protection keeps an inode from
/// being reclaimed.
pub proof fn law_last_close_allows_reclaim(handles: Map<InodeId, u64>, id: InodeId)
    requires
        open_count(handles, id) <= 1,
    ensures
        reclaimable(closed(handles, id), id, false),
{
}

/// What happens to the table of open handles.
pub enum HandleEvent {
    /// [`ZeroFS::open_handle_inc`] or [`ZeroFS::new_open_handle`].
    Opened(InodeId),
    /// [`ZeroFS::open_handle_dec`], [`ZeroFS::handle_closed`] or
    /// [`ZeroFS::release_handle`].
    Released(InodeId),
}

/// The table after a run of events.
pub open spec fn after_events(handles: Map<InodeId, u64>, events: Seq<HandleEvent>) -> Map<
    InodeId,
    u64,
>
    decreases events.len(),
{
    if events.len() == 0 {
        handles
    } else {
        let before = after_events(handles, events.drop_last());
        match events.last() {
            HandleEvent::Opened(id) => opened(before, id),
            HandleEvent::Released(id) => closed(before, id),
        }
    }
}

/// How often an inode is opened in a run of events.
pub open spec fn openings(events: Seq<HandleEvent>, id: InodeId) -> nat
    decreases events.len(),
{
    if events.len() == 0 {
        0
    } else if events.last() == HandleEvent::Opened(id) {
        openings(events.drop_last(), id) + 1
    } else {
        openings(events.drop_last(), id)
    }
}

/// How often an inode is released in a run of events.
pub open spec fn releases(events: Seq<HandleEvent>, id: InodeId) -> nat
    decreases events.len(),
{
    if events.len() == 0 {
        0
    } else if events.last() == HandleEvent::Released(id) {
        releases(events.drop_last(), id) + 1
    } else {
        releases(events.drop_last(), id)
    }
}

/// Each opened handle counts once until it is released: after any run of events on any
/// inodes, in which an inode is never released more often than it was opened, it is open
/// as often as it was opened less as often as it was released. The handles that are open
/// at one time must be countable.
pub proof fn law_count_is_openings_less_releases(
    handles: Map<InodeId, u64>,
    events: Seq<HandleEvent>,
    id: InodeId,
)
    requires
        open_count(handles, id) == 0,
        forall|n: int|
            0 <= n <= events.len() ==> #[trigger] releases(events.take(n), id) <= openings(
                events.take(n),
                id,
            ) <= releases(events.take(n), id) + u64::MAX,
    ensures
        open_count(after_events(handles, events), id) == openings(events, id) - releases(
            events,
            id,
        ),
    decreases events.len(),
{
    if events.len() > 0 {
        let shorter = events.drop_last();
        assert(events.take(events.len() as int) =~= events);
        assert(releases(events.take(events.len() as int), id) <= openings(events, id));
        assert(shorter =~= events.take(shorter.len() as int));
        assert(releases(events.take(shorter.len() as int), id) <= openings(shorter, id));
        assert forall|n: int| 0 <= n <= shorter.len() implies #[trigger] releases(
            shorter.take(n),
            id,
        ) <= openings(shorter.take(n), id) <= releases(shorter.take(n), id) + u64::MAX by {
            assert(shorter.take(n) =~= events.take(n));
            assert(releases(events.take(n), id) <= openings(events.take(n), id));
        }
        law_count_is_openings_less_releases(handles, shorter, id);
        let before = after_events(handles, shorter);
        match events.last() {
            HandleEvent::Opened(other) => {
                if other != id {
                    law_handles_are_independent(before, other, id);
                }
            },
            HandleEvent::Released(other) => {
                if other != id {
                    law_handles_are_independent(before, other, id);
                }
            },
        }
    }
}

} // verus!
