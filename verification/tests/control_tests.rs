use hammer2_fuse::control::{route, Command, Layouts, Opcodes, PayloadLayout, Query};
use hammer2_fuse::error::{ErrorCode, ProtocolError};

fn opcodes() -> Opcodes {
    Opcodes {
        version_get: 0xc100_6840,
        pfs_get: 0xc240_6850,
        pfs_lookup: 0xc240_6853,
        inode_get: 0xc420_6856,
        debug_dump: 0xc004_685b,
        volume_list: 0xc110_6861,
        volume_list2: 0xc728_6862,
        cid_prune: 0xc008_6863,
        pfs_create: 0xc240_6851,
        pfs_delete: 0xc240_6852,
        pfs_snapshot: 0xc240_6854,
        inode_set: 0xc420_6857,
        bulkfree_scan: 0xc068_685c,
        destroy: 0xc410_685e,
        emerg_mode: 0xc004_685f,
        grow_fs: 0xc010_6860,
    }
}

fn layouts() -> Layouts {
    Layouts {
        version: PayloadLayout { size: 256, align: 4 },
        pfs: PayloadLayout { size: 576, align: 8 },
        inode: PayloadLayout { size: 1056, align: 8 },
        volume_list: PayloadLayout { size: 272, align: 8 },
        volume_list2: PayloadLayout { size: 67336, align: 8 },
        cid_prune: PayloadLayout { size: 8, align: 8 },
    }
}

const INVALID: Result<Query, ProtocolError> =
    Err(ProtocolError::Code(ErrorCode::InvalidArgument));
const UNSUPPORTED: Result<Query, ProtocolError> =
    Err(ProtocolError::Code(ErrorCode::Unsupported));

#[test]
fn classify_finds_each_command() {
    let t = opcodes();
    assert_eq!(t.classify(t.version_get), Some(Command::VersionGet));
    assert_eq!(t.classify(t.pfs_get), Some(Command::PfsGet));
    assert_eq!(t.classify(t.pfs_lookup), Some(Command::PfsLookup));
    assert_eq!(t.classify(t.inode_get), Some(Command::InodeGet));
    assert_eq!(t.classify(t.debug_dump), Some(Command::DebugDump));
    assert_eq!(t.classify(t.volume_list), Some(Command::VolumeList));
    assert_eq!(t.classify(t.volume_list2), Some(Command::VolumeList2));
    assert_eq!(t.classify(t.cid_prune), Some(Command::CidPrune));
    assert_eq!(t.classify(t.pfs_create), Some(Command::PfsCreate));
    assert_eq!(t.classify(t.pfs_delete), Some(Command::PfsDelete));
    assert_eq!(t.classify(t.pfs_snapshot), Some(Command::PfsSnapshot));
    assert_eq!(t.classify(t.inode_set), Some(Command::InodeSet));
    assert_eq!(t.classify(t.bulkfree_scan), Some(Command::BulkfreeScan));
    assert_eq!(t.classify(t.destroy), Some(Command::Destroy));
    assert_eq!(t.classify(t.emerg_mode), Some(Command::EmergMode));
    assert_eq!(t.classify(t.grow_fs), Some(Command::GrowFs));
    assert_eq!(t.classify(0), None);
    assert_eq!(t.classify(u64::MAX), None);
}

#[test]
fn unrecognized_opcode_is_invalid_argument() {
    let (t, l) = (opcodes(), layouts());
    for opcode in [0u64, 1, 0x6840, 0xc100_6841, 0xc100_6840 + (1 << 32), u64::MAX] {
        assert_eq!(route(&t, &l, opcode, 0, 0), INVALID);
        assert_eq!(route(&t, &l, opcode, 1 << 20, 0), INVALID);
        assert_eq!(route(&t, &l, opcode, 1 << 20, 3), INVALID);
    }
}

#[test]
fn administrative_opcodes_are_unsupported_for_any_payload() {
    let (t, l) = (opcodes(), layouts());
    let admin = [
        t.pfs_create,
        t.pfs_delete,
        t.pfs_snapshot,
        t.inode_set,
        t.bulkfree_scan,
        t.destroy,
        t.emerg_mode,
        t.grow_fs,
    ];
    for opcode in admin {
        for (len, address) in [(0usize, 0usize), (1, 1), (576, 0x1000), (5, 0x1003), (1 << 20, 8)] {
            assert_eq!(route(&t, &l, opcode, len, address), UNSUPPORTED);
        }
    }
}

#[test]
fn queries_pass_with_a_fitting_payload() {
    let (t, l) = (opcodes(), layouts());
    assert_eq!(route(&t, &l, t.version_get, 256, 0x1000), Ok(Query::VersionGet));
    assert_eq!(route(&t, &l, t.version_get, 300, 0x1004), Ok(Query::VersionGet));
    assert_eq!(route(&t, &l, t.pfs_get, 576, 0x1008), Ok(Query::PfsGet));
    assert_eq!(route(&t, &l, t.pfs_lookup, 576, 0), Ok(Query::PfsLookup));
    assert_eq!(route(&t, &l, t.inode_get, 1056, 16), Ok(Query::InodeGet));
    assert_eq!(route(&t, &l, t.volume_list2, 67336, 64), Ok(Query::VolumeList2));
    assert_eq!(route(&t, &l, t.cid_prune, 8, 8), Ok(Query::CidPrune));
}

#[test]
fn short_payload_is_invalid_argument() {
    let (t, l) = (opcodes(), layouts());
    assert_eq!(route(&t, &l, t.version_get, 255, 0x1000), INVALID);
    assert_eq!(route(&t, &l, t.version_get, 0, 0x1000), INVALID);
    assert_eq!(route(&t, &l, t.pfs_get, 575, 0x1000), INVALID);
    assert_eq!(route(&t, &l, t.pfs_lookup, 256, 0x1000), INVALID);
    assert_eq!(route(&t, &l, t.inode_get, 1055, 0x1000), INVALID);
    assert_eq!(route(&t, &l, t.volume_list2, 67335, 0x1000), INVALID);
    assert_eq!(route(&t, &l, t.cid_prune, 7, 0x1000), INVALID);
}

#[test]
fn misaligned_payload_is_invalid_argument() {
    let (t, l) = (opcodes(), layouts());
    assert_eq!(route(&t, &l, t.version_get, 256, 0x1002), INVALID);
    assert_eq!(route(&t, &l, t.pfs_get, 576, 0x1004), INVALID);
    assert_eq!(route(&t, &l, t.inode_get, 2000, 0x1001), INVALID);
    assert_eq!(route(&t, &l, t.volume_list2, 70000, 0x1007), INVALID);
}

#[test]
fn debug_dump_reads_no_payload() {
    let (t, l) = (opcodes(), layouts());
    assert_eq!(route(&t, &l, t.debug_dump, 0, 0), Ok(Query::DebugDump));
    assert_eq!(route(&t, &l, t.debug_dump, 4, 3), Ok(Query::DebugDump));
}

#[test]
fn legacy_volume_list_is_unsupported() {
    let (t, l) = (opcodes(), layouts());
    assert_eq!(route(&t, &l, t.volume_list, 272, 0x1000), UNSUPPORTED);
    assert_eq!(route(&t, &l, t.volume_list, 4096, 8), UNSUPPORTED);
    assert_eq!(route(&t, &l, t.volume_list, 271, 0x1000), INVALID);
    assert_eq!(route(&t, &l, t.volume_list, 272, 0x1001), INVALID);
}

#[test]
fn layout_check_compares_length_and_alignment() {
    let layout = PayloadLayout { size: 16, align: 8 };
    assert!(layout.check(16, 0));
    assert!(layout.check(17, 24));
    assert!(!layout.check(15, 0));
    assert!(!layout.check(16, 4));
    let packed = PayloadLayout { size: 3, align: 1 };
    assert!(packed.check(3, 7));
    let unaligned = PayloadLayout { size: 3, align: 0 };
    assert!(unaligned.check(3, 7));
    assert!(!unaligned.check(2, 0));
}

#[test]
fn first_listed_command_wins_a_shared_number() {
    let mut t = opcodes();
    t.destroy = t.version_get;
    assert_eq!(t.classify(t.destroy), Some(Command::VersionGet));
}
