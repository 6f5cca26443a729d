//! The control channel: numbered commands with fixed binary payloads.
//!
//! A request is first routed: its number is looked up among the numbers the
//! engine's control interface defines, administrative commands are turned
//! away, and the payload is checked against the layout of the command's
//! structure. What is left is a query for the engine.
use vstd::prelude::*;
use crate::error::{ErrorCode, ProtocolError};

verus! {

/// The commands the control channel knows.
#[derive(Clone, Copy, Debug, PartialEq, Eq, Structural)]
pub enum Command {
    VersionGet,
    PfsGet,
    PfsLookup,
    InodeGet,
    DebugDump,
    VolumeList,
    VolumeList2,
    CidPrune,
    PfsCreate,
    PfsDelete,
    PfsSnapshot,
    InodeSet,
    BulkfreeScan,
    Destroy,
    EmergMode,
    GrowFs,
}

/// The number of each command, as the engine's control interface defines it.
#[derive(Clone, Copy, Debug, PartialEq, Eq, Structural)]
pub struct Opcodes {
    pub version_get: u64,
    pub pfs_get: u64,
    pub pfs_lookup: u64,
    pub inode_get: u64,
    pub debug_dump: u64,
    pub volume_list: u64,
    pub volume_list2: u64,
    pub cid_prune: u64,
    pub pfs_create: u64,
    pub pfs_delete: u64,
    pub pfs_snapshot: u64,
    pub inode_set: u64,
    pub bulkfree_scan: u64,
    pub destroy: u64,
    pub emerg_mode: u64,
    pub grow_fs: u64,
}

/// Size and alignment of a payload structure, in bytes.
#[derive(Clone, Copy, Debug, PartialEq, Eq, Structural)]
pub struct PayloadLayout {
    pub size: usize,
    pub align: usize,
}

/// The layout of the payload structure of each command that reads its payload.
#[derive(Clone, Copy, Debug, PartialEq, Eq, Structural)]
pub struct Layouts {
    pub version: PayloadLayout,
    pub pfs: PayloadLayout,
    pub inode: PayloadLayout,
    pub volume_list: PayloadLayout,
    pub volume_list2: PayloadLayout,
    pub cid_prune: PayloadLayout,
}

/// What the engine is to be asked once a request has passed routing.
#[derive(Clone, Copy, Debug, PartialEq, Eq, Structural)]
pub enum Query {
    VersionGet,
    PfsGet,
    PfsLookup,
    InodeGet,
    DebugDump,
    VolumeList2,
    CidPrune,
}

impl Opcodes {
    /// The command that a number stands for, if any. Where the table gives one
    /// number to two commands, the one listed first here is meant.
    pub open spec fn command_of(self, opcode: u64) -> Option<Command> {
        if opcode == self.version_get {
            Some(Command::VersionGet)
        } else if opcode == self.pfs_get {
            Some(Command::PfsGet)
        } else if opcode == self.pfs_lookup {
            Some(Command::PfsLookup)
        } else if opcode == self.inode_get {
            Some(Command::InodeGet)
        } else if opcode == self.debug_dump {
            Some(Command::DebugDump)
        } else if opcode == self.volume_list {
            Some(Command::VolumeList)
        } else if opcode == self.volume_list2 {
            Some(Command::VolumeList2)
        } else if opcode == self.cid_prune {
            Some(Command::CidPrune)
        } else if opcode == self.pfs_create {
            Some(Command::PfsCreate)
        } else if opcode == self.pfs_delete {
            Some(Command::PfsDelete)
        } else if opcode == self.pfs_snapshot {
            Some(Command::PfsSnapshot)
        } else if opcode == self.inode_set {
            Some(Command::InodeSet)
        } else if opcode == self.bulkfree_scan {
            Some(Command::BulkfreeScan)
        } else if opcode == self.destroy {
            Some(Command::Destroy)
        } else if opcode == self.emerg_mode {
            Some(Command::EmergMode)
        } else if opcode == self.grow_fs {
            Some(Command::GrowFs)
        } else {
            None
        }
    }

    /// The number the table gives a command.
    pub open spec fn number(self, command: Command) -> u64 {
        match command {
            Command::VersionGet => self.version_get,
            Command::PfsGet => self.pfs_get,
            Command::PfsLookup => self.pfs_lookup,
            Command::InodeGet => self.inode_get,
            Command::DebugDump => self.debug_dump,
            Command::VolumeList => self.volume_list,
            Command::VolumeList2 => self.volume_list2,
            Command::CidPrune => self.cid_prune,
            Command::PfsCreate => self.pfs_create,
            Command::PfsDelete => self.pfs_delete,
            Command::PfsSnapshot => self.pfs_snapshot,
            Command::InodeSet => self.inode_set,
            Command::BulkfreeScan => self.bulkfree_scan,
            Command::Destroy => self.destroy,
            Command::EmergMode => self.emerg_mode,
            Command::GrowFs => self.grow_fs,
        }
    }

    /// No two commands share a number.
    pub open spec fn distinct(self) -> bool {
        forall|c: Command, d: Command| c != d ==> #[trigger] self.number(c) != #[trigger] self.number(d)
    }

    /// Whether a number is one of the sixteen in the table.
    pub open spec fn recognizes(self, opcode: u64) -> bool {
        opcode == self.version_get || opcode == self.pfs_get || opcode == self.pfs_lookup
            || opcode == self.inode_get || opcode == self.debug_dump || opcode == self.volume_list
            || opcode == self.volume_list2 || opcode == self.cid_prune || opcode
            == self.pfs_create || opcode == self.pfs_delete || opcode == self.pfs_snapshot
            || opcode == self.inode_set || opcode == self.bulkfree_scan || opcode == self.destroy
            || opcode == self.emerg_mode || opcode == self.grow_fs
    }

    /// Looks a number up in the table.
    pub fn classify(&self, opcode: u64) -> (r: Option<Command>)
        ensures
            r == self.command_of(opcode),
            r is Some <==> self.recognizes(opcode),
    {
        if opcode == self.version_get {
            Some(Command::VersionGet)
        } else if opcode == self.pfs_get {
            Some(Command::PfsGet)
        } else if opcode == self.pfs_lookup {
            Some(Command::PfsLookup)
        } else if opcode == self.inode_get {
            Some(Command::InodeGet)
        } else if opcode == self.debug_dump {
            Some(Command::DebugDump)
        } else if opcode == self.volume_list {
            Some(Command::VolumeList)
        } else if opcode == self.volume_list2 {
            Some(Command::VolumeList2)
        } else if opcode == self.cid_prune {
            Some(Command::CidPrune)
        } else if opcode == self.pfs_create {
            Some(Command::PfsCreate)
        } else if opcode == self.pfs_delete {
            Some(Command::PfsDelete)
        } else if opcode == self.pfs_snapshot {
            Some(Command::PfsSnapshot)
        } else if opcode == self.inode_set {
            Some(Command::InodeSet)
        } else if opcode == self.bulkfree_scan {
            Some(Command::BulkfreeScan)
        } else if opcode == self.destroy {
            Some(Command::Destroy)
        } else if opcode == self.emerg_mode {
            Some(Command::EmergMode)
        } else if opcode == self.grow_fs {
            Some(Command::GrowFs)
        } else {
            None
        }
    }
}

impl Command {
    /// The commands that would change the filesystem's administrative state.
    pub open spec fn is_administrative(self) -> bool {
        self == Command::PfsCreate || self == Command::PfsDelete || self == Command::PfsSnapshot
            || self == Command::InodeSet || self == Command::BulkfreeScan || self
            == Command::Destroy || self == Command::EmergMode || self == Command::GrowFs
    }

    /// The layout a command's payload is held to; none where the payload is never read.
    pub open spec fn payload_layout(self, layouts: Layouts) -> Option<PayloadLayout> {
        match self {
            Command::VersionGet => Some(layouts.version),
            Command::PfsGet | Command::PfsLookup => Some(layouts.pfs),
            Command::InodeGet => Some(layouts.inode),
            Command::VolumeList => Some(layouts.volume_list),
            Command::VolumeList2 => Some(layouts.volume_list2),
            Command::CidPrune => Some(layouts.cid_prune),
            _ => None,
        }
    }

    /// The engine query a command leads to, for the commands that lead to one.
    pub open spec fn query(self) -> Option<Query> {
        match self {
            Command::VersionGet => Some(Query::VersionGet),
            Command::PfsGet => Some(Query::PfsGet),
            Command::PfsLookup => Some(Query::PfsLookup),
            Command::InodeGet => Some(Query::InodeGet),
            Command::DebugDump => Some(Query::DebugDump),
            Command::VolumeList2 => Some(Query::VolumeList2),
            Command::CidPrune => Some(Query::CidPrune),
            _ => None,
        }
    }
}

impl PayloadLayout {
    /// A payload of `len` bytes at `address` can be read as this structure:
    /// it is long enough and starts on the structure's alignment.
    pub open spec fn admits(self, len: usize, address: usize) -> bool {
        len >= self.size && (self.align == 0 || address % self.align == 0)
    }

    /// Checks a payload's length and address against the layout.
    pub fn check(&self, len: usize, address: usize) -> (r: bool)
        ensures
            r == self.admits(len, address),
    {
        len >= self.size && (self.align == 0 || address % self.align == 0)
    }
}

/// What routing answers for a request: the engine query it leads to, or the
/// error to reply with.
pub open spec fn routed(
    opcodes: Opcodes,
    layouts: Layouts,
    opcode: u64,
    len: usize,
    address: usize,
) -> Result<Query, ProtocolError> {
    match opcodes.command_of(opcode) {
        None => Err(ProtocolError::Code(ErrorCode::InvalidArgument)),
        Some(command) => if command.is_administrative() {
            Err(ProtocolError::Code(ErrorCode::Unsupported))
        } else if command.payload_layout(layouts) is Some && !command.payload_layout(
            layouts,
        )->0.admits(len, address) {
            Err(ProtocolError::Code(ErrorCode::InvalidArgument))
        } else {
            match command.query() {
                Some(q) => Ok(q),
                None => Err(ProtocolError::Code(ErrorCode::Unsupported)),
            }
        },
    }
}

/// Routes a control request by its number and the length and address of its
/// payload. It reads nothing else and changes nothing.
///
/// A number outside the table is an invalid argument. An administrative
/// command is unsupported whatever its payload. Any other command whose
/// payload is too short or misaligned for its structure is an invalid
/// argument; the legacy volume list is unsupported even with a good payload.
pub fn route(opcodes: &Opcodes, layouts: &Layouts, opcode: u64, len: usize, address: usize) -> (r:
    Result<Query, ProtocolError>)
    ensures
        r == routed(*opcodes, *layouts, opcode, len, address),
        !opcodes.recognizes(opcode) ==> r == Err::<Query, ProtocolError>(
            ProtocolError::Code(ErrorCode::InvalidArgument),
        ),
        opcodes.command_of(opcode) is Some && opcodes.command_of(opcode)->0.is_administrative()
            ==> r == Err::<Query, ProtocolError>(ProtocolError::Code(ErrorCode::Unsupported)),
{
    let command = match opcodes.classify(opcode) {
        None => { return Err(ProtocolError::Code(ErrorCode::InvalidArgument)); },
        Some(c) => c,
    };
    match command {
        Command::PfsCreate
        | Command::PfsDelete
        | Command::PfsSnapshot
        | Command::InodeSet
        | Command::BulkfreeScan
        | Command::Destroy
        | Command::EmergMode
        | Command::GrowFs => Err(ProtocolError::Code(ErrorCode::Unsupported)),
        Command::VersionGet => checked(&layouts.version, len, address, Query::VersionGet),
        Command::PfsGet => checked(&layouts.pfs, len, address, Query::PfsGet),
        Command::PfsLookup => checked(&layouts.pfs, len, address, Query::PfsLookup),
        Command::InodeGet => checked(&layouts.inode, len, address, Query::InodeGet),
        Command::DebugDump => Ok(Query::DebugDump),
        Command::VolumeList => {
            if layouts.volume_list.check(len, address) {
                Err(ProtocolError::Code(ErrorCode::Unsupported))
            } else {
                Err(ProtocolError::Code(ErrorCode::InvalidArgument))
            }
        },
        Command::VolumeList2 => checked(&layouts.volume_list2, len, address, Query::VolumeList2),
        Command::CidPrune => checked(&layouts.cid_prune, len, address, Query::CidPrune),
    }
}

/// In a table that gives no two commands one number, the number of a command
/// stands for that command and no other.
pub proof fn distinct_numbers_name_their_command(opcodes: Opcodes, command: Command)
    requires
        opcodes.distinct(),
    ensures
        opcodes.command_of(opcodes.number(command)) == Some(command),
{
    let n = opcodes.number(command);
    assert(command != Command::VersionGet ==> n != opcodes.number(Command::VersionGet));
    assert(command != Command::PfsGet ==> n != opcodes.number(Command::PfsGet));
    assert(command != Command::PfsLookup ==> n != opcodes.number(Command::PfsLookup));
    assert(command != Command::InodeGet ==> n != opcodes.number(Command::InodeGet));
    assert(command != Command::DebugDump ==> n != opcodes.number(Command::DebugDump));
    assert(command != Command::VolumeList ==> n != opcodes.number(Command::VolumeList));
    assert(command != Command::VolumeList2 ==> n != opcodes.number(Command::VolumeList2));
    assert(command != Command::CidPrune ==> n != opcodes.number(Command::CidPrune));
    assert(command != Command::PfsCreate ==> n != opcodes.number(Command::PfsCreate));
    assert(command != Command::PfsDelete ==> n != opcodes.number(Command::PfsDelete));
    assert(command != Command::PfsSnapshot ==> n != opcodes.number(Command::PfsSnapshot));
    assert(command != Command::InodeSet ==> n != opcodes.number(Command::InodeSet));
    assert(command != Command::BulkfreeScan ==> n != opcodes.number(Command::BulkfreeScan));
    assert(command != Command::Destroy ==> n != opcodes.number(Command::Destroy));
    assert(command != Command::EmergMode ==> n != opcodes.number(Command::EmergMode));
}

/// In a table that gives no two commands one number, the number of each
/// administrative command is unsupported, whatever the payload.
pub proof fn administrative_numbers_unsupported(
    opcodes: Opcodes,
    layouts: Layouts,
    command: Command,
    len: usize,
    address: usize,
)
    requires
        opcodes.distinct(),
        command.is_administrative(),
    ensures
        routed(opcodes, layouts, opcodes.number(command), len, address) == Err::<
            Query,
            ProtocolError,
        >(ProtocolError::Code(ErrorCode::Unsupported)),
{
    distinct_numbers_name_their_command(opcodes, command);
}

/// The query, if the payload fits the layout.
fn checked(layout: &PayloadLayout, len: usize, address: usize, query: Query) -> (r: Result<
    Query,
    ProtocolError,
>)
    ensures
        r == if layout.admits(len, address) {
            Ok::<Query, ProtocolError>(query)
        } else {
            Err::<Query, ProtocolError>(ProtocolError::Code(ErrorCode::InvalidArgument))
        },
{
    if layout.check(len, address) {
        Ok(query)
    } else {
        Err(ProtocolError::Code(ErrorCode::InvalidArgument))
    }
}

} // verus!
