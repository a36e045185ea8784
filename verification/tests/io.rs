use zerofs::fs::errors::FsError;
use zerofs::fs::inode::FileInode;
use zerofs::fs::inode::Inode;
use zerofs::fs::metrics::FileOperation;
use zerofs::fs::metrics::FsMetrics;
use zerofs::fs::ops::io::Caller;
use zerofs::fs::ops::io::DataChange;
use zerofs::fs::ops::io::FallocateMode;
use zerofs::fs::ops::io::IdempotentChange;
use zerofs::fs::ops::io::ReadRange;
use zerofs::fs::ops::io::Timestamp;
use zerofs::fs::FsLimits;
use zerofs::fs::ZeroFS;

const OWNER: u32 = 1000;

fn fs_with(max_bytes: u64) -> ZeroFS {
    ZeroFS::new(FsLimits {
        max_bytes,
        extent_size: 128 * 1024,
        small_file_extents: 10,
    })
}

fn owner() -> Caller {
    Caller {
        uid: OWNER,
        access: Ok(()),
    }
}

fn stranger(access: Result<(), FsError>) -> Caller {
    Caller { uid: 2000, access }
}

fn at(seconds: u64) -> Timestamp {
    Timestamp { seconds, nanos: 7 }
}

fn new_file() -> FileInode {
    FileInode {
        size: 0,
        nlink: 1,
        uid: OWNER,
        mode: 0o644,
        mtime: 1,
        mtime_nsec: 0,
        ctime: 1,
        ctime_nsec: 0,
        parent: Some(0),
        name: Some(b"f.txt".to_vec()),
    }
}

/// One file with its data.
struct File {
    fs: ZeroFS,
    inode: FileInode,
    data: Vec<u8>,
}

impl File {
    fn new(max_bytes: u64) -> Self {
        File {
            fs: fs_with(max_bytes),
            inode: new_file(),
            data: Vec::new(),
        }
    }

    fn inode(&self) -> Inode {
        Inode::File(self.inode.clone())
    }

    fn apply(&mut self, change: DataChange, write: Option<(u64, &[u8])>) {
        match change {
            DataChange::Unchanged => {}
            DataChange::Changed { file, zeroed, .. } => {
                self.data.resize(file.size as usize, 0);
                if let Some((offset, length)) = zeroed {
                    self.data[offset as usize..(offset + length) as usize].fill(0);
                }
                if let Some((offset, bytes)) = write {
                    self.data[offset as usize..offset as usize + bytes.len()]
                        .copy_from_slice(bytes);
                }
                self.inode = file;
            }
        }
    }

    fn write(&mut self, offset: u64, bytes: &[u8]) -> Result<(), FsError> {
        let change = self.fs.write(
            &self.inode(),
            owner(),
            offset,
            bytes.len() as u64,
            self.inode.size,
            at(50),
        )?;
        self.apply(change, Some((offset, bytes)));
        Ok(())
    }

    fn write_once(&mut self, replay: Option<FileInode>, offset: u64, bytes: &[u8]) -> FileInode {
        match self
            .fs
            .write_idempotent(
                replay,
                true,
                &self.inode(),
                owner(),
                offset,
                bytes.len() as u64,
                self.inode.size,
                at(60),
            )
            .unwrap()
        {
            IdempotentChange::Replayed(file) => file,
            IdempotentChange::Fresh { change, record } => {
                assert!(record);
                self.apply(change, Some((offset, bytes)));
                self.inode.clone()
            }
        }
    }

    fn fallocate(
        &mut self,
        uid: u32,
        offset: u64,
        length: u64,
        mode: FallocateMode,
    ) -> Result<FileInode, FsError> {
        let change = self.fs.fallocate_opened(
            &self.inode(),
            uid,
            offset,
            length,
            mode,
            self.inode.size,
            at(70),
        )?;
        self.apply(change, None);
        Ok(self.inode.clone())
    }

    fn read(&self, offset: u64, count: u32) -> (Vec<u8>, bool) {
        let range = self
            .fs
            .read_file(&self.inode(), Ok(()), offset, count)
            .unwrap();
        let start = range.offset as usize;
        let end = start + range.length as usize;
        let bytes = if range.length == 0 {
            Vec::new()
        } else {
            self.data[start..end].to_vec()
        };
        (bytes, range.eof)
    }
}

#[test]
fn test_process_write_and_read() {
    let mut file = File::new(u64::MAX);
    file.write(0, b"Hello, World!").unwrap();
    assert_eq!(file.inode.size, 13);
    let (data, eof) = file.read(0, 13);
    assert_eq!(data, b"Hello, World!");
    assert!(eof);
    let (data, eof) = file.read(0, 5);
    assert_eq!(data, b"Hello");
    assert!(!eof);
    assert_eq!(file.read(13, 1), (Vec::new(), true));
    assert_eq!(file.read(u64::MAX, u32::MAX), (Vec::new(), true));
    assert_eq!(file.inode.mtime, 50);
    assert_eq!(file.inode.ctime_nsec, 7);
}

#[test]
fn write_retry_replays_result_without_overwriting_a_later_write() {
    let mut file = File::new(u64::MAX);
    let original = file.write_once(None, 0, b"first");
    file.write(0, b"later").unwrap();
    let replayed = file.write_once(Some(original.clone()), 0, b"first");
    assert_eq!(replayed, original);
    assert_eq!(file.read(0, 5).0, b"later");
}

#[test]
fn empty_write_retry_replays_typed_result_without_overwriting_a_later_write() {
    let mut file = File::new(u64::MAX);
    let original = file.write_once(None, 1_000_000, b"");
    assert_eq!(original.size, 0);
    file.write(0, b"later").unwrap();
    let replayed = file.write_once(Some(original.clone()), 1_000_000, b"");
    assert_eq!(replayed.size, original.size);
    assert_eq!(replayed.mtime, original.mtime);
    assert_eq!(replayed, original);
    assert_eq!(file.read(0, 5).0, b"later");
}

#[test]
fn an_untagged_empty_write_is_not_recorded() {
    let file = File::new(u64::MAX);
    match file
        .fs
        .write_opened_idempotent(
            None,
            false,
            &file.inode(),
            stranger(Err(FsError::PermissionDenied)),
            9,
            0,
            0,
            at(1),
        )
        .unwrap()
    {
        IdempotentChange::Fresh {
            change: DataChange::Unchanged,
            record,
        } => assert!(!record),
        _ => panic!("an empty write changes nothing"),
    }
}

#[test]
fn fallocate_retry_does_not_zero_a_later_write() {
    let mut file = File::new(u64::MAX);
    file.write(0, b"first").unwrap();
    let mode = FallocateMode::ZeroRange { keep_size: true };
    let original = file.fallocate(OWNER, 0, 5, mode).unwrap();
    assert_eq!(file.read(0, 5).0, [0; 5]);
    file.write(0, b"later").unwrap();
    match file
        .fs
        .fallocate_opened_idempotent(
            Some(original.clone()),
            true,
            &file.inode(),
            OWNER,
            0,
            5,
            mode,
            5,
            at(80),
        )
        .unwrap()
    {
        IdempotentChange::Replayed(replayed) => assert_eq!(replayed, original),
        IdempotentChange::Fresh { .. } => panic!("the request was applied before"),
    }
    assert_eq!(file.read(0, 5).0, b"later");
}

#[test]
fn write_offset_length_overflow_is_rejected() {
    let mut file = File::new(u64::MAX);
    for off in [u64::MAX - 4, u64::MAX - 99, u64::MAX] {
        let r = file.write(off, &[1u8; 100]);
        assert!(
            matches!(r, Err(FsError::InvalidArgument)),
            "write at offset {off} must be EINVAL, got {r:?}"
        );
    }
    assert_eq!(
        file.inode.size, 0,
        "a rejected overflow write must not grow the file"
    );
    let r = file.fs.trim(&file.inode(), owner(), u64::MAX - 4, 100);
    assert!(
        matches!(r, Err(FsError::InvalidArgument)),
        "trim overflow must be EINVAL, got {r:?}"
    );
}

#[test]
fn fallocate_allocate_grows_without_overwriting() {
    let mut file = File::new(u64::MAX);
    file.write(0, b"data").unwrap();
    let attrs = file
        .fallocate(OWNER, 8, 8, FallocateMode::Allocate)
        .unwrap();
    assert_eq!(attrs.size, 16);
    let (data, _) = file.read(0, 16);
    assert_eq!(&data[..4], b"data");
    assert!(data[4..].iter().all(|&b| b == 0));

    let attrs = file
        .fallocate(OWNER, 1, 2, FallocateMode::Allocate)
        .unwrap();
    assert_eq!(attrs.size, 16, "allocation inside EOF must not shrink");
}

#[test]
fn fallocate_reserves_logical_quota_for_later_writes() {
    let mut file = File::new(8);
    file.fallocate(OWNER, 0, 8, FallocateMode::Allocate)
        .unwrap();
    file.write(0, b"12345678")
        .expect("an overwrite inside the reservation consumes no new quota");
    let result = file.fallocate(OWNER, 8, 1, FallocateMode::Allocate);
    assert!(matches!(result, Err(FsError::NoSpace)));
    assert_eq!(file.write(8, b"9"), Err(FsError::NoSpace));
}

#[test]
fn fallocate_punch_and_zero_range_semantics() {
    let mut file = File::new(u64::MAX);
    file.write(0, b"abcdefghijkl").unwrap();

    let attrs = file
        .fallocate(OWNER, 2, 3, FallocateMode::PunchHole)
        .unwrap();
    assert_eq!(attrs.size, 12);
    let (data, _) = file.read(0, 12);
    assert_eq!(&data[..2], b"ab");
    assert_eq!(&data[2..5], &[0; 3]);
    assert_eq!(&data[5..], b"fghijkl");

    let attrs = file
        .fallocate(OWNER, 8, 8, FallocateMode::ZeroRange { keep_size: true })
        .unwrap();
    assert_eq!(attrs.size, 12, "KEEP_SIZE must not cross EOF");

    let attrs = file
        .fallocate(OWNER, 8, 8, FallocateMode::ZeroRange { keep_size: false })
        .unwrap();
    assert_eq!(attrs.size, 16);
    let (data, _) = file.read(0, 16);
    assert!(data[8..].iter().all(|&b| b == 0));
    assert_eq!(
        file.fallocate(OWNER, 0, 0, FallocateMode::Allocate),
        Err(FsError::InvalidArgument)
    );
}

#[test]
fn fallocate_updates_metadata_when_data_and_size_are_unchanged() {
    let mut file = File::new(u64::MAX);
    file.write(0, b"data").unwrap();
    file.inode.mtime = 1;
    let attrs = file
        .fallocate(OWNER, 0, 1, FallocateMode::Allocate)
        .unwrap();
    assert_ne!(attrs.mtime, 1, "allocation inside EOF updates mtime");
    file.inode.mtime = 1;
    let attrs = file
        .fallocate(OWNER, 100, 1, FallocateMode::PunchHole)
        .unwrap();
    assert_ne!(attrs.mtime, 1, "hole punching beyond EOF still updates mtime");
    assert_eq!(attrs.size, 4);
}

#[test]
fn fallocate_by_non_owner_clears_suid_and_sgid() {
    let mut file = File::new(u64::MAX);
    file.inode.mode = 0o6777;
    file.write(0, b"privileged data").unwrap();
    assert_eq!(file.inode.mode, 0o6777);
    let attrs = file
        .fallocate(2000, 0, 1, FallocateMode::PunchHole)
        .unwrap();
    assert_eq!(attrs.mode & 0o6000, 0);
    assert_eq!(attrs.mode, 0o777);
    file.inode.mode = 0o6777;
    let attrs = file.fallocate(0, 0, 1, FallocateMode::PunchHole).unwrap();
    assert_eq!(attrs.mode, 0o6777);
}

#[test]
fn trim_preserves_timestamps_and_zeroes_the_requested_range() {
    let mut file = File::new(u64::MAX);
    file.write(0, b"abcdefgh").unwrap();
    let before = file.inode.clone();
    assert_eq!(file.fs.trim(&file.inode(), owner(), 1, 2), Ok(Some(8)));
    file.data[1..3].fill(0);
    assert_eq!(file.inode, before, "NBD trim must not rewrite inode metadata");
    assert_eq!(file.read(0, 8).0, b"a\0\0defgh");
    let mut metrics = FsMetrics::new();
    assert!(file
        .fs
        .fallocate_opened(
            &file.inode(),
            OWNER,
            0,
            1,
            FallocateMode::Allocate,
            8,
            at(2)
        )
        .is_ok());
    assert!(matches!(
        metrics.allocated(0, 1, FallocateMode::Allocate),
        FileOperation::Fallocate {
            offset: 0,
            length: 1,
            mode: 0
        }
    ));
    assert_eq!(file.fs.trim(&file.inode(), owner(), 1, 0), Ok(None));
    assert_eq!(
        file.fs.trim(
            &file.inode(),
            stranger(Err(FsError::PermissionDenied)),
            1,
            2
        ),
        Err(FsError::PermissionDenied)
    );
}

#[test]
fn owners_write_regardless_of_mode_bits() {
    let file = File::new(u64::MAX);
    let denied = Err(FsError::PermissionDenied);
    assert!(file
        .fs
        .write(
            &file.inode(),
            Caller {
                uid: OWNER,
                access: denied
            },
            0,
            1,
            0,
            at(1)
        )
        .is_ok());
    assert!(matches!(
        file.fs
            .write(&file.inode(), stranger(denied), 0, 1, 0, at(1)),
        Err(FsError::PermissionDenied)
    ));
    match file
        .fs
        .write_opened_idempotent(
            None,
            true,
            &file.inode(),
            stranger(denied),
            0,
            1,
            0,
            at(1),
        )
        .unwrap()
    {
        IdempotentChange::Fresh {
            change:
                DataChange::Changed {
                    old_size, entry, ..
                },
            record,
        } => {
            assert!(record);
            assert_eq!(old_size, 0);
            assert_eq!(entry, Some((0, b"f.txt".to_vec())));
        }
        _ => panic!("the write is new"),
    }
}

#[test]
fn only_files_have_data() {
    let fs = fs_with(u64::MAX);
    let directory = Inode::Directory {
        nlink: 2,
        entry_count: 0,
    };
    assert!(matches!(
        fs.write(&directory, owner(), 0, 0, 0, at(1)),
        Err(FsError::IsDirectory)
    ));
    assert_eq!(
        fs.read_file_opened(&directory, 0, 1),
        Err(FsError::IsDirectory)
    );
    assert_eq!(
        fs.trim(&directory, owner(), 0, 1),
        Err(FsError::IsDirectory)
    );
    assert!(matches!(
        fs.fallocate_opened(&directory, OWNER, 0, 1, FallocateMode::Allocate, 0, at(1)),
        Err(FsError::IsDirectory)
    ));
    assert_eq!(
        fs.read_file(&directory, Err(FsError::PermissionDenied), 0, 1),
        Err(FsError::PermissionDenied)
    );
    let mut file = new_file();
    file.size = 10;
    assert_eq!(
        fs.read_file_opened(&Inode::File(file), 4, 3),
        Ok(ReadRange {
            offset: 4,
            length: 3,
            eof: false
        })
    );
}

#[test]
fn an_unlimited_quota_takes_any_size() {
    let fs = fs_with(u64::MAX);
    let file = Inode::File(new_file());
    assert!(fs
        .fallocate_opened(&file, OWNER, 0, u64::MAX, FallocateMode::Allocate, 9, at(1))
        .is_ok());
    let fs = fs_with(u64::MAX - 1);
    assert!(matches!(
        fs.fallocate_opened(&file, OWNER, 0, u64::MAX, FallocateMode::Allocate, 9, at(1)),
        Err(FsError::NoSpace)
    ));
}

#[test]
fn fallocate_modes_have_linux_flags() {
    for (mode, flags) in [
        (FallocateMode::Allocate, 0),
        (
            FallocateMode::PunchHole,
            libc::FALLOC_FL_PUNCH_HOLE | libc::FALLOC_FL_KEEP_SIZE,
        ),
        (
            FallocateMode::ZeroRange { keep_size: false },
            libc::FALLOC_FL_ZERO_RANGE,
        ),
        (
            FallocateMode::ZeroRange { keep_size: true },
            libc::FALLOC_FL_ZERO_RANGE | libc::FALLOC_FL_KEEP_SIZE,
        ),
    ] {
        assert_eq!(mode.linux_mode() as i32, flags);
    }
}

#[test]
fn operations_are_counted_and_reported() {
    let file = File::new(u64::MAX);
    let mut metrics = FsMetrics::new();
    let nothing = file.fs.write(&file.inode(), owner(), 9, 0, 0, at(1)).unwrap();
    assert_eq!(metrics.wrote(&nothing, 9, 0), None);
    assert_eq!(metrics, FsMetrics::new());

    let change = file.fs.write(&file.inode(), owner(), 4, 6, 0, at(1)).unwrap();
    assert_eq!(
        metrics.wrote(&change, 4, 6),
        Some(FileOperation::Write {
            offset: 4,
            length: 6
        })
    );
    assert_eq!(
        metrics.trimmed(1, 2),
        FileOperation::Trim {
            offset: 1,
            length: 2
        }
    );
    let mut inode = new_file();
    inode.size = 10;
    let range = file.fs.read_file_opened(&Inode::File(inode.clone()), 8, 5).unwrap();
    assert_eq!(
        metrics.read(range, range.length),
        FileOperation::Read {
            offset: 8,
            length: 2
        }
    );
    let past_end = file.fs.read_file_opened(&Inode::File(inode), 10, 5).unwrap();
    assert_eq!(
        metrics.read(past_end, 0),
        FileOperation::Read {
            offset: 10,
            length: 0
        }
    );
    assert_eq!(
        metrics,
        FsMetrics {
            bytes_written: 6,
            bytes_read: 2,
            write_operations: 2,
            read_operations: 1,
            total_operations: 3,
            ..FsMetrics::new()
        }
    );
    metrics.bytes_written = u64::MAX;
    metrics.wrote(&change, 4, 6);
    assert_eq!(metrics.bytes_written, 5);
}
