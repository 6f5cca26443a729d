//! Engine metadata as the protocol presents it: file types and attributes.
use vstd::prelude::*;
use crate::error::Fatal;

verus! {

/// The bits of a permission mode that hold the file type.
pub const S_IFMT: u32 = 0o170000;

pub const S_IFIFO: u32 = 0o010000;

pub const S_IFCHR: u32 = 0o020000;

pub const S_IFDIR: u32 = 0o040000;

pub const S_IFBLK: u32 = 0o060000;

pub const S_IFREG: u32 = 0o100000;

pub const S_IFLNK: u32 = 0o120000;

pub const S_IFSOCK: u32 = 0o140000;

/// The bits of a permission mode that hold the access permissions.
pub const PERMISSION_BITS: u32 = 0o777;

/// The type tags of directory entries.
pub const OBJTYPE_DIRECTORY: u8 = 1;

pub const OBJTYPE_REGFILE: u8 = 2;

pub const OBJTYPE_FIFO: u8 = 4;

pub const OBJTYPE_CDEV: u8 = 5;

pub const OBJTYPE_BDEV: u8 = 6;

pub const OBJTYPE_SOFTLINK: u8 = 7;

pub const OBJTYPE_SOCKET: u8 = 9;

/// The file types of the protocol.
#[derive(Clone, Copy, Debug, PartialEq, Eq, Structural)]
pub enum FileKind {
    Directory,
    RegularFile,
    NamedPipe,
    CharDevice,
    BlockDevice,
    Symlink,
    Socket,
}

/// What the engine reports of an inode.
#[derive(Clone, Copy, Debug, PartialEq, Eq, Structural)]
pub struct StatRecord {
    pub ino: u64,
    pub size: u64,
    pub blocks: u64,
    /// Seconds since the epoch.
    pub atime: u64,
    /// Seconds since the epoch.
    pub mtime: u64,
    pub mode: u32,
    pub nlink: u32,
    pub uid: u32,
    pub gid: u32,
    pub rdev: u32,
    pub blksize: u32,
}

/// What the protocol reports of an inode. Times are seconds since the epoch.
#[derive(Clone, Copy, Debug, PartialEq, Eq, Structural)]
pub struct Attribute {
    pub ino: u64,
    pub size: u64,
    pub blocks: u64,
    pub atime: u64,
    pub mtime: u64,
    pub ctime: u64,
    pub crtime: u64,
    pub kind: FileKind,
    pub perm: u16,
    pub nlink: u32,
    pub uid: u32,
    pub gid: u32,
    pub rdev: u32,
    pub blksize: u32,
    pub flags: u32,
}

impl FileKind {
    /// The type bits a permission mode has for a file of this type.
    pub open spec fn mode_type(self) -> u32 {
        match self {
            FileKind::Directory => S_IFDIR,
            FileKind::RegularFile => S_IFREG,
            FileKind::NamedPipe => S_IFIFO,
            FileKind::CharDevice => S_IFCHR,
            FileKind::BlockDevice => S_IFBLK,
            FileKind::Symlink => S_IFLNK,
            FileKind::Socket => S_IFSOCK,
        }
    }

    /// The type tag a directory entry has for a file of this type.
    pub open spec fn object_type(self) -> u8 {
        match self {
            FileKind::Directory => OBJTYPE_DIRECTORY,
            FileKind::RegularFile => OBJTYPE_REGFILE,
            FileKind::NamedPipe => OBJTYPE_FIFO,
            FileKind::CharDevice => OBJTYPE_CDEV,
            FileKind::BlockDevice => OBJTYPE_BDEV,
            FileKind::Symlink => OBJTYPE_SOFTLINK,
            FileKind::Socket => OBJTYPE_SOCKET,
        }
    }
}

/// The file type that the type bits of a permission mode name, if they name one.
pub open spec fn kind_of_mode(mode: u32) -> Option<FileKind> {
    let t = mode & S_IFMT;
    if t == S_IFDIR {
        Some(FileKind::Directory)
    } else if t == S_IFREG {
        Some(FileKind::RegularFile)
    } else if t == S_IFIFO {
        Some(FileKind::NamedPipe)
    } else if t == S_IFCHR {
        Some(FileKind::CharDevice)
    } else if t == S_IFBLK {
        Some(FileKind::BlockDevice)
    } else if t == S_IFLNK {
        Some(FileKind::Symlink)
    } else if t == S_IFSOCK {
        Some(FileKind::Socket)
    } else {
        None
    }
}

/// The file type that a directory entry's type tag names, if it names one.
pub open spec fn kind_of_object(tag: u8) -> Option<FileKind> {
    if tag == OBJTYPE_DIRECTORY {
        Some(FileKind::Directory)
    } else if tag == OBJTYPE_REGFILE {
        Some(FileKind::RegularFile)
    } else if tag == OBJTYPE_FIFO {
        Some(FileKind::NamedPipe)
    } else if tag == OBJTYPE_CDEV {
        Some(FileKind::CharDevice)
    } else if tag == OBJTYPE_BDEV {
        Some(FileKind::BlockDevice)
    } else if tag == OBJTYPE_SOFTLINK {
        Some(FileKind::Symlink)
    } else if tag == OBJTYPE_SOCKET {
        Some(FileKind::Socket)
    } else {
        None
    }
}

/// The attribute record of an inode of a known type. The engine keeps one
/// time per inode, its time of modification: all four times of the record are
/// that one.
pub open spec fn attribute_of(st: StatRecord, kind: FileKind) -> Attribute {
    Attribute {
        ino: st.ino,
        size: st.size,
        blocks: st.blocks,
        atime: st.mtime,
        mtime: st.mtime,
        ctime: st.mtime,
        crtime: st.mtime,
        kind,
        perm: (st.mode & PERMISSION_BITS) as u16,
        nlink: st.nlink,
        uid: st.uid,
        gid: st.gid,
        rdev: st.rdev,
        blksize: st.blksize,
        flags: 0,
    }
}

/// The file type of a permission mode. Type bits that name no file type are
/// a sign of corrupt data and fatal.
pub fn mode_to_kind(mode: u32) -> (r: Result<FileKind, Fatal>)
    ensures
        r == match kind_of_mode(mode) {
            Some(k) => Ok::<FileKind, Fatal>(k),
            None => Err::<FileKind, Fatal>(Fatal::UnknownFileType),
        },
{
    let t = mode & S_IFMT;
    if t == S_IFDIR {
        Ok(FileKind::Directory)
    } else if t == S_IFREG {
        Ok(FileKind::RegularFile)
    } else if t == S_IFIFO {
        Ok(FileKind::NamedPipe)
    } else if t == S_IFCHR {
        Ok(FileKind::CharDevice)
    } else if t == S_IFBLK {
        Ok(FileKind::BlockDevice)
    } else if t == S_IFLNK {
        Ok(FileKind::Symlink)
    } else if t == S_IFSOCK {
        Ok(FileKind::Socket)
    } else {
        Err(Fatal::UnknownFileType)
    }
}

/// The file type of a directory entry's type tag. A tag that names no file
/// type is a sign of corrupt data and fatal.
pub fn object_to_kind(tag: u8) -> (r: Result<FileKind, Fatal>)
    ensures
        r == match kind_of_object(tag) {
            Some(k) => Ok::<FileKind, Fatal>(k),
            None => Err::<FileKind, Fatal>(Fatal::UnknownFileType),
        },
{
    if tag == OBJTYPE_DIRECTORY {
        Ok(FileKind::Directory)
    } else if tag == OBJTYPE_REGFILE {
        Ok(FileKind::RegularFile)
    } else if tag == OBJTYPE_FIFO {
        Ok(FileKind::NamedPipe)
    } else if tag == OBJTYPE_CDEV {
        Ok(FileKind::CharDevice)
    } else if tag == OBJTYPE_BDEV {
        Ok(FileKind::BlockDevice)
    } else if tag == OBJTYPE_SOFTLINK {
        Ok(FileKind::Symlink)
    } else if tag == OBJTYPE_SOCKET {
        Ok(FileKind::Socket)
    } else {
        Err(Fatal::UnknownFileType)
    }
}

/// The attribute record of what the engine reports of an inode.
pub fn to_attribute(st: &StatRecord) -> (r: Result<Attribute, Fatal>)
    ensures
        r == match kind_of_mode(st.mode) {
            Some(k) => Ok::<Attribute, Fatal>(attribute_of(*st, k)),
            None => Err::<Attribute, Fatal>(Fatal::UnknownFileType),
        },
{
    let kind = match mode_to_kind(st.mode) {
        Ok(k) => k,
        Err(e) => { return Err(e); },
    };
    let mode: u32 = st.mode;
    let bits: u32 = mode & PERMISSION_BITS;
    assert(mode & 0o777 <= 0o777) by (bit_vector);
    Ok(
        Attribute {
            ino: st.ino,
            size: st.size,
            blocks: st.blocks,
            atime: st.mtime,
            mtime: st.mtime,
            ctime: st.mtime,
            crtime: st.mtime,
            kind,
            perm: bits as u16,
            nlink: st.nlink,
            uid: st.uid,
            gid: st.gid,
            rdev: st.rdev,
            blksize: st.blksize,
            flags: 0,
        },
    )
}

/// Two permission modes of one known file type have the same type bits: no
/// two of the seven type-bit patterns give one file type.
pub proof fn mode_mapping_injective(a: u32, b: u32)
    requires
        kind_of_mode(a) is Some,
        kind_of_mode(a) == kind_of_mode(b),
    ensures
        a & S_IFMT == b & S_IFMT,
{
}

/// Two type tags of one known file type are the same tag: no two of the seven
/// tags give one file type.
pub proof fn object_mapping_injective(a: u8, b: u8)
    requires
        kind_of_object(a) is Some,
        kind_of_object(a) == kind_of_object(b),
    ensures
        a == b,
{
}

/// Each of the seven file types has its own type-bit pattern and its own type
/// tag, and each mapping leads back to it: the seven patterns give seven
/// distinct file types, and so do the seven tags.
pub proof fn file_kinds_distinct(j: FileKind, k: FileKind)
    ensures
        kind_of_mode(k.mode_type()) == Some(k),
        kind_of_object(k.object_type()) == Some(k),
        j != k ==> j.mode_type() != k.mode_type() && j.object_type() != k.object_type(),
{
    assert(0o040000u32 & 0o170000u32 == 0o040000u32) by (bit_vector);
    assert(0o100000u32 & 0o170000u32 == 0o100000u32) by (bit_vector);
    assert(0o010000u32 & 0o170000u32 == 0o010000u32) by (bit_vector);
    assert(0o020000u32 & 0o170000u32 == 0o020000u32) by (bit_vector);
    assert(0o060000u32 & 0o170000u32 == 0o060000u32) by (bit_vector);
    assert(0o120000u32 & 0o170000u32 == 0o120000u32) by (bit_vector);
    assert(0o140000u32 & 0o170000u32 == 0o140000u32) by (bit_vector);
}

/// The two mappings agree: where an inode's directory entry carries the tag
/// of a file type and its permission mode carries the type bits of the same
/// file type, both mappings name that file type.
pub proof fn mappings_agree(tag: u8, mode: u32)
    requires
        kind_of_object(tag) is Some,
        mode & S_IFMT == kind_of_object(tag)->0.mode_type(),
    ensures
        kind_of_mode(mode) == kind_of_object(tag),
{
}

} // verus!
