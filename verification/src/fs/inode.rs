//! What the data operations and the reclaim read of an inode.

use super::InodeId;
use vstd::prelude::*;
use vstd::slice::slice_to_vec;

verus! {

/// A regular file.
#[derive(Debug, PartialEq, Eq)]
pub struct FileInode {
    pub size: u64,
    pub nlink: u32,
    pub uid: u32,
    pub mode: u32,
    pub mtime: u64,
    pub mtime_nsec: u32,
    pub ctime: u64,
    pub ctime_nsec: u32,
    /// The directory that holds the file's only entry, if it has exactly one.
    pub parent: Option<InodeId>,
    /// The name of that entry.
    pub name: Option<Vec<u8>>,
}

/// The value of `FileInode`.
pub struct FileInodeModel {
    pub size: u64,
    pub nlink: u32,
    pub uid: u32,
    pub mode: u32,
    pub mtime: u64,
    pub mtime_nsec: u32,
    pub ctime: u64,
    pub ctime_nsec: u32,
    pub parent: Option<InodeId>,
    pub name: Option<Seq<u8>>,
}

impl View for FileInode {
    type V = FileInodeModel;

    open spec fn view(&self) -> FileInodeModel {
        FileInodeModel {
            size: self.size,
            nlink: self.nlink,
            uid: self.uid,
            mode: self.mode,
            mtime: self.mtime,
            mtime_nsec: self.mtime_nsec,
            ctime: self.ctime,
            ctime_nsec: self.ctime_nsec,
            parent: self.parent,
            name: match self.name {
                Some(name) => Some(name@),
                None => None,
            },
        }
    }
}

impl Clone for FileInode {
    fn clone(&self) -> (copy: Self)
        ensures
            copy@ == self@,
    {
        FileInode {
            size: self.size,
            nlink: self.nlink,
            uid: self.uid,
            mode: self.mode,
            mtime: self.mtime,
            mtime_nsec: self.mtime_nsec,
            ctime: self.ctime,
            ctime_nsec: self.ctime_nsec,
            parent: self.parent,
            name: match &self.name {
                Some(name) => Some(slice_to_vec(name)),
                None => None,
            },
        }
    }
}

/// An inode.
#[derive(Debug, PartialEq, Eq)]
pub enum Inode {
    File(FileInode),
    Directory { nlink: u32, entry_count: u64 },
    Symlink { nlink: u32 },
    /// A fifo, a socket, or a character or block device.
    Special { nlink: u32 },
}

/// The value of `Inode`.
pub enum InodeModel {
    File(FileInodeModel),
    Directory { nlink: u32, entry_count: u64 },
    Symlink { nlink: u32 },
    Special { nlink: u32 },
}

impl View for Inode {
    type V = InodeModel;

    open spec fn view(&self) -> InodeModel {
        match *self {
            Inode::File(file) => InodeModel::File(file@),
            Inode::Directory { nlink, entry_count } => InodeModel::Directory { nlink, entry_count },
            Inode::Symlink { nlink } => InodeModel::Symlink { nlink },
            Inode::Special { nlink } => InodeModel::Special { nlink },
        }
    }
}

} // verus!
