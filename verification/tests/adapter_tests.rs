use hammer2_fuse::adapter::{
    access, attr_reply, check_handle, data_reply, engine_result, entry_reply, flush, found,
    lookup_name, read_directory, read_request, statfs_reply, Adapter, FsStats, ReadRequest,
    Reply, FOPEN_KEEP_CACHE, TTL_SECONDS,
};
use hammer2_fuse::attr::{to_attribute, FileKind, StatRecord, S_IFDIR, S_IFREG};
use hammer2_fuse::control::{Layouts, Opcodes, PayloadLayout, Query};
use hammer2_fuse::error::{EngineError, ErrorCode, Failure, Fatal, IoKind, ProtocolError};

fn stat(ino: u64, mode: u32, size: u64) -> StatRecord {
    StatRecord {
        ino,
        size,
        blocks: 1,
        atime: 5,
        mtime: 1_700_000_000,
        mode,
        nlink: 1,
        uid: 0,
        gid: 0,
        rdev: 0,
        blksize: 65536,
    }
}

fn not_found() -> Reply {
    Reply::Error(ProtocolError::Code(ErrorCode::NotFound))
}

#[test]
fn new_adapter_keeps_its_settings() {
    let a = Adapter::new(2, true);
    assert_eq!(a.count(), 0);
    assert_eq!(a.debug(), 2);
    assert!(a.daemonized());
    assert!(a.logs_requests());
    let a = Adapter::new(1, false);
    assert!(!a.daemonized());
    assert!(!a.logs_requests());
    assert_eq!(a.destroy(), Ok(()));
}

#[test]
fn lookup_getattr_open_read_release_scenario() {
    let mut a = Adapter::new(0, false);
    // resolve-name(root, "foo") returns inode 7.
    assert_eq!(lookup_name(Some("foo")), Ok("foo"));
    let inum = engine_result(Ok::<u64, EngineError>(7)).unwrap();
    let st = stat(inum, S_IFREG | 0o644, 10_000);
    let entry = entry_reply(Ok(st)).unwrap();
    let direct = to_attribute(&st).unwrap();
    assert_eq!(entry, Reply::Entry { attr: direct, ttl: 1, generation: 0 });
    let attr = attr_reply(inum, None, Ok(st)).unwrap();
    assert_eq!(attr, Reply::Attr { attr: direct, ttl: TTL_SECONDS });
    assert_eq!(direct.size, 10_000);
    assert_eq!(direct.kind, FileKind::RegularFile);

    let before = a.count();
    assert_eq!(
        a.open(inum, Some(inum)),
        Ok(Reply::Opened { handle: 7, flags: FOPEN_KEEP_CACHE })
    );
    assert_eq!(a.count(), before + 1);

    assert_eq!(
        read_request(inum, inum, 0, 4096),
        Ok(ReadRequest { inum: 7, size: 4096, offset: 0 })
    );
    let data = vec![0xabu8; 4096];
    match data_reply(Ok(data.clone())) {
        Reply::Data(d) => {
            assert!(d.len() <= 4096);
            assert_eq!(d, data);
        }
        other => panic!("{other:?}"),
    }
    assert_eq!(flush(inum, inum), Ok(Reply::Empty));
    assert_eq!(a.release(inum, inum), Ok(Reply::Empty));
    assert_eq!(a.count(), before);
    assert_eq!(a.destroy(), Ok(()));
}

#[test]
fn open_without_release_makes_destroy_fatal() {
    let mut a = Adapter::new(0, true);
    assert_eq!(a.open(3, Some(3)), Ok(Reply::Opened { handle: 3, flags: 2 }));
    assert_eq!(a.destroy(), Err(Fatal::OpenAtTeardown));
    assert_eq!(a.open(3, Some(3)), Ok(Reply::Opened { handle: 3, flags: 2 }));
    assert_eq!(a.release(3, 3), Ok(Reply::Empty));
    assert_eq!(a.destroy(), Err(Fatal::OpenAtTeardown));
    assert_eq!(a.release(3, 3), Ok(Reply::Empty));
    assert_eq!(a.destroy(), Ok(()));
}

#[test]
fn open_of_unresolved_inode_replies_not_found() {
    let mut a = Adapter::new(0, false);
    assert_eq!(a.open(3, None), Ok(not_found()));
    assert_eq!(a.count(), 0);
    assert_eq!(a.destroy(), Ok(()));
}

#[test]
fn open_of_mismatching_inode_is_fatal() {
    let mut a = Adapter::new(0, false);
    assert_eq!(a.open(3, Some(4)), Err(Fatal::InodeMismatch));
    assert_eq!(a.count(), 0);
}

#[test]
fn release_checks_handle_and_open_state() {
    let mut a = Adapter::new(0, false);
    assert_eq!(a.release(3, 3), Err(Fatal::NotOpen));
    assert_eq!(a.open(3, Some(3)), Ok(Reply::Opened { handle: 3, flags: 2 }));
    assert_eq!(a.release(3, 4), Err(Fatal::HandleMismatch));
    assert_eq!(a.release(4, 4), Err(Fatal::NotOpen));
    assert_eq!(a.count(), 1);
    assert_eq!(a.release(3, 3), Ok(Reply::Empty));
    assert_eq!(a.count(), 0);
}

#[test]
fn lookup_of_invalid_name_is_invalid_argument() {
    assert_eq!(
        lookup_name(None),
        Err(ProtocolError::Code(ErrorCode::InvalidArgument))
    );
    assert_eq!(lookup_name(Some("")), Ok(""));
}

#[test]
fn engine_errors_become_error_replies() {
    let e = EngineError::Io(IoKind::PermissionDenied);
    let denied = ProtocolError::Code(ErrorCode::AccessDenied);
    assert_eq!(engine_result(Err::<u64, EngineError>(e)), Err(denied));
    assert_eq!(entry_reply(Err(e)), Ok(Reply::Error(denied)));
    assert_eq!(attr_reply(1, Some(1), Err(e)), Ok(Reply::Error(denied)));
    assert_eq!(data_reply(Err(e)), Reply::Error(denied));
    assert_eq!(statfs_reply(Err(e)), Reply::Error(denied));
    assert_eq!(
        data_reply(Err(EngineError::Errno(5))),
        Reply::Error(ProtocolError::Raw(5))
    );
}

#[test]
fn found_maps_absence_to_not_found() {
    assert_eq!(found(Some(5u8)), Ok(5));
    assert_eq!(found(None::<u8>), Err(ProtocolError::Code(ErrorCode::NotFound)));
}

#[test]
fn attributes_of_corrupt_mode_are_fatal() {
    assert_eq!(entry_reply(Ok(stat(1, 0o644, 0))), Err(Fatal::UnknownFileType));
    assert_eq!(attr_reply(1, None, Ok(stat(1, 0o644, 0))), Err(Fatal::UnknownFileType));
}

#[test]
fn handle_must_be_the_inode_number() {
    assert_eq!(check_handle(1, 1), Ok(()));
    assert_eq!(check_handle(1, 2), Err(Fatal::HandleMismatch));
    let st = stat(1, S_IFDIR | 0o755, 0);
    assert_eq!(attr_reply(1, Some(2), Ok(st)), Err(Fatal::HandleMismatch));
    assert!(attr_reply(1, Some(1), Ok(st)).is_ok());
    assert_eq!(read_request(1, 2, 0, 1), Err(Fatal::HandleMismatch));
    assert_eq!(flush(1, 2), Err(Fatal::HandleMismatch));
    assert_eq!(
        read_directory(1, 2, Some(true)),
        Err(Failure::Fatal(Fatal::HandleMismatch))
    );
}

#[test]
fn read_request_widens_size_and_rejects_negative_offset() {
    assert_eq!(
        read_request(9, 9, i64::MAX, u32::MAX),
        Ok(ReadRequest { inum: 9, size: u32::MAX as u64, offset: i64::MAX as u64 })
    );
    assert_eq!(read_request(9, 9, -1, 10), Err(Fatal::NegativeOffset));
    assert_eq!(read_request(9, 8, -1, 10), Err(Fatal::HandleMismatch));
}

#[test]
fn read_directory_needs_a_directory() {
    assert_eq!(read_directory(1, 1, Some(true)), Ok(()));
    assert_eq!(
        read_directory(1, 1, Some(false)),
        Err(Failure::Reply(ProtocolError::Code(ErrorCode::NotDirectory)))
    );
    assert_eq!(
        read_directory(1, 1, None),
        Err(Failure::Reply(ProtocolError::Code(ErrorCode::NotFound)))
    );
}

#[test]
fn statfs_passes_the_statistics_on() {
    let s = FsStats {
        blocks: 100,
        bfree: 50,
        bavail: 40,
        files: 10,
        ffree: 5,
        bsize: 65536,
        namelen: 255,
        frsize: 65536,
    };
    assert_eq!(statfs_reply(Ok(s)), Reply::Statfs(s));
}

#[test]
fn access_fails_without_a_reply() {
    assert_eq!(access(), Fatal::UnexpectedAccess);
}

#[test]
fn debug_dump_is_unsupported_when_detached() {
    let fg = Adapter::new(0, false);
    let bg = Adapter::new(0, true);
    assert_eq!(fg.debug_dump(true), Ok(()));
    assert_eq!(
        bg.debug_dump(true),
        Err(ProtocolError::Code(ErrorCode::Unsupported))
    );
    assert_eq!(fg.debug_dump(false), Err(ProtocolError::Code(ErrorCode::NotFound)));
    // Detached, the dump is unsupported whatever the inode.
    assert_eq!(
        bg.debug_dump(false),
        Err(ProtocolError::Code(ErrorCode::Unsupported))
    );
}

#[test]
fn control_routes_and_changes_nothing() {
    let l = PayloadLayout { size: 8, align: 8 };
    let layouts = Layouts {
        version: l,
        pfs: l,
        inode: l,
        volume_list: l,
        volume_list2: l,
        cid_prune: l,
    };
    let opcodes = Opcodes {
        version_get: 1,
        pfs_get: 2,
        pfs_lookup: 3,
        inode_get: 4,
        debug_dump: 5,
        volume_list: 6,
        volume_list2: 7,
        cid_prune: 8,
        pfs_create: 9,
        pfs_delete: 10,
        pfs_snapshot: 11,
        inode_set: 12,
        bulkfree_scan: 13,
        destroy: 14,
        emerg_mode: 15,
        grow_fs: 16,
    };
    let mut a = Adapter::new(0, false);
    assert_eq!(a.open(1, Some(1)), Ok(Reply::Opened { handle: 1, flags: 2 }));
    assert_eq!(a.control(1, 1, &opcodes, &layouts, 1, 8, 0), Ok(Query::VersionGet));
    assert_eq!(
        a.control(1, 1, &opcodes, &layouts, 99, 8, 0),
        Err(Failure::Reply(ProtocolError::Code(ErrorCode::InvalidArgument)))
    );
    assert_eq!(
        a.control(1, 1, &opcodes, &layouts, 14, 0, 1),
        Err(Failure::Reply(ProtocolError::Code(ErrorCode::Unsupported)))
    );
    assert_eq!(
        a.control(1, 2, &opcodes, &layouts, 1, 8, 0),
        Err(Failure::Fatal(Fatal::HandleMismatch))
    );
    assert_eq!(a.count(), 1);
}
