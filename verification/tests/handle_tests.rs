use hammer2_fuse::error::{ErrorCode, Fatal, ProtocolError};
use hammer2_fuse::handle::HandleTable;

#[test]
fn new_table_has_nothing_open() {
    let t = HandleTable::new();
    assert_eq!(t.count(), 0);
    assert_eq!(t.references(1), 0);
    assert_eq!(t.check_teardown(), Ok(()));
}

#[test]
fn open_counts_per_inode_and_in_total() {
    let mut t = HandleTable::new();
    assert_eq!(t.open(5, true), Ok(()));
    assert_eq!(t.open(5, true), Ok(()));
    assert_eq!(t.open(9, true), Ok(()));
    assert_eq!(t.count(), 3);
    assert_eq!(t.references(5), 2);
    assert_eq!(t.references(9), 1);
    assert_eq!(t.references(6), 0);
    assert_eq!(t.check_teardown(), Err(Fatal::OpenAtTeardown));
}

#[test]
fn open_of_unresolved_inode_is_not_found() {
    let mut t = HandleTable::new();
    assert_eq!(
        t.open(5, false),
        Err(ProtocolError::Code(ErrorCode::NotFound))
    );
    assert_eq!(t.count(), 0);
    assert_eq!(t.references(5), 0);
}

#[test]
fn close_without_open_is_fatal() {
    let mut t = HandleTable::new();
    assert_eq!(t.close(5), Err(Fatal::NotOpen));
    assert_eq!(t.open(4, true), Ok(()));
    assert_eq!(t.close(5), Err(Fatal::NotOpen));
    assert_eq!(t.count(), 1);
    assert_eq!(t.close(4), Ok(()));
    assert_eq!(t.close(4), Err(Fatal::NotOpen));
    assert_eq!(t.count(), 0);
}

#[test]
fn balanced_calls_return_count_to_zero() {
    let mut t = HandleTable::new();
    let inodes = [1u64, 2, 3, 2, 1, 1, 77, u64::MAX];
    for i in inodes {
        assert_eq!(t.open(i, true), Ok(()));
    }
    assert_eq!(t.count(), 8);
    assert_eq!(t.references(1), 3);
    assert_eq!(t.close(2), Ok(()));
    assert_eq!(t.open(2, true), Ok(()));
    for i in [u64::MAX, 1, 2, 77, 1, 3, 2, 1] {
        assert_eq!(t.check_teardown(), Err(Fatal::OpenAtTeardown));
        assert_eq!(t.close(i), Ok(()));
    }
    assert_eq!(t.count(), 0);
    for i in inodes {
        assert_eq!(t.references(i), 0);
    }
    assert_eq!(t.check_teardown(), Ok(()));
}
