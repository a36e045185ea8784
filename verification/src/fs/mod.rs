//! The filesystem's keys, durable records and operations.

pub mod digest_laws;
pub mod envelope;
pub mod envelope_laws;
pub mod error_laws;
pub mod errors;
pub mod export_authority;
pub mod handle;
pub mod handle_laws;
pub mod inode;
pub mod key_codec;
pub mod key_laws;
pub mod layout_laws;
pub mod message_laws;
pub mod metrics;
pub mod model_laws;
pub mod ops;
pub mod record_layout_laws;
pub mod workspace_barrier;
pub mod workspace_genesis;
pub mod workspace_operation;

use crate::outside::counts;
use crate::outside::dash_new;
use dashmap::DashMap;
use vstd::prelude::*;

verus! {

/// Identifies a file, directory, symlink or special file.
pub type InodeId = u64;

/// The longest file name, in bytes.
pub const NAME_MAX: usize = 255;

/// What a filesystem was set up with.
#[derive(Debug, Clone, Copy, PartialEq, Eq, Structural)]
pub struct FsLimits {
    /// The most bytes that all files together may hold.
    pub max_bytes: u64,
    /// The bytes of an extent.
    pub extent_size: u64,
    /// The most extents of a file whose extents are deleted at once; the extents of a
    /// larger file are left to garbage collection.
    pub small_file_extents: u64,
}

/// The in-memory state of one filesystem.
pub struct ZeroFS {
    open_handles: DashMap<InodeId, u64>,
    reclaim_queue: Vec<InodeId>,
    limits: FsLimits,
}

/// The value of `ZeroFS`.
pub struct ZeroFsModel {
    /// How often each inode is open. An inode that is not open is not in it.
    pub open_handles: Map<InodeId, u64>,
    /// The inodes that lost their last handle, oldest first.
    pub reclaim_queue: Seq<InodeId>,
    pub limits: FsLimits,
}

impl View for ZeroFS {
    type V = ZeroFsModel;

    closed spec fn view(&self) -> ZeroFsModel {
        ZeroFsModel {
            open_handles: counts(self.open_handles),
            reclaim_queue: self.reclaim_queue@,
            limits: self.limits,
        }
    }
}

impl ZeroFS {
    pub fn limits(&self) -> (limits: FsLimits)
        ensures
            limits == self@.limits,
    {
        self.limits
    }

    /// A filesystem that nobody has opened anything in.
    pub fn new(limits: FsLimits) -> (fs: Self)
        ensures
            fs@ == (ZeroFsModel {
                open_handles: Map::empty(),
                reclaim_queue: Seq::empty(),
                limits,
            }),
    {
        let open_handles = dash_new();
        assert(counts(open_handles) =~= Map::empty());
        ZeroFS { open_handles, reclaim_queue: Vec::new(), limits }
    }
}

} // verus!
