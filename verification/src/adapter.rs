//! The protocol operations.
//!
//! Each operation of the protocol is decided here from plain values: the
//! request's numbers and what the engine returned for it. What comes out is
//! the reply to send, or a fatal condition on which the caller aborts. The
//! caller holds the engine, serialises the requests and sends the replies.
use vstd::prelude::*;
use crate::attr::{attribute_of, kind_of_mode, to_attribute, Attribute, StatRecord};
use crate::control::{route, routed, Layouts, Opcodes, Query};
use crate::dir::directory_check;
use crate::error::{
    protocol_error_of,
    to_protocol_error,
    EngineError,
    ErrorCode,
    Failure,
    Fatal,
    ProtocolError,
};
use crate::handle::{balanced_run_returns_to_zero, closes_of, is_run, opens_of, HandleOp, HandleTable};

verus! {

/// For how many seconds the kernel may keep an entry or an attribute record.
pub const TTL_SECONDS: u64 = 1;

/// The open flag that lets the kernel keep a file's cached data.
pub const FOPEN_KEEP_CACHE: u32 = 2;

/// What the engine reports of the filesystem.
#[derive(Clone, Copy, Debug, PartialEq, Eq, Structural)]
pub struct FsStats {
    pub blocks: u64,
    pub bfree: u64,
    pub bavail: u64,
    pub files: u64,
    pub ffree: u64,
    pub bsize: u32,
    pub namelen: u32,
    pub frsize: u32,
}

/// A read the engine is to make.
#[derive(Clone, Copy, Debug, PartialEq, Eq, Structural)]
pub struct ReadRequest {
    pub inum: u64,
    pub size: u64,
    pub offset: u64,
}

/// The reply to a request.
#[derive(Clone, Debug, PartialEq, Eq)]
pub enum Reply {
    Error(ProtocolError),
    Entry { attr: Attribute, ttl: u64, generation: u64 },
    Attr { attr: Attribute, ttl: u64 },
    Opened { handle: u64, flags: u32 },
    Data(Vec<u8>),
    Statfs(FsStats),
    Empty,
}

/// The state of the adapter between requests.
#[derive(Clone, Debug)]
pub struct Adapter {
    handles: HandleTable,
    debug: i32,
    daemonized: bool,
}

/// What the engine returned, with its error translated for the reply.
pub fn engine_result<T>(r: Result<T, EngineError>) -> (out: Result<T, ProtocolError>)
    ensures
        out == match r {
            Ok(v) => Ok::<T, ProtocolError>(v),
            Err(e) => Err::<T, ProtocolError>(protocol_error_of(e)),
        },
{
    match r {
        Ok(v) => Ok(v),
        Err(e) => Err(to_protocol_error(e)),
    }
}

/// What the engine holds, or the not-found error where it holds nothing.
pub fn found<T>(x: Option<T>) -> (out: Result<T, ProtocolError>)
    ensures
        out == match x {
            Some(v) => Ok::<T, ProtocolError>(v),
            None => Err::<T, ProtocolError>(ProtocolError::Code(ErrorCode::NotFound)),
        },
{
    match x {
        Some(v) => Ok(v),
        None => Err(ProtocolError::Code(ErrorCode::NotFound)),
    }
}

/// A request that names a file handle must name its inode's number.
pub fn check_handle(inum: u64, fh: u64) -> (r: Result<(), Fatal>)
    ensures
        r == if inum == fh {
            Ok::<(), Fatal>(())
        } else {
            Err::<(), Fatal>(Fatal::HandleMismatch)
        },
{
    if inum == fh {
        Ok(())
    } else {
        Err(Fatal::HandleMismatch)
    }
}

/// The name to look up, if the request's name is valid Unicode; an invalid
/// argument if it is not.
pub fn lookup_name<'a>(name: Option<&'a str>) -> (r: Result<&'a str, ProtocolError>)
    ensures
        r == match name {
            Some(n) => Ok::<&str, ProtocolError>(n),
            None => Err::<&str, ProtocolError>(ProtocolError::Code(ErrorCode::InvalidArgument)),
        },
{
    match name {
        Some(n) => Ok(n),
        None => Err(ProtocolError::Code(ErrorCode::InvalidArgument)),
    }
}

/// The reply to a lookup, from what the engine reports of the inode found.
pub fn entry_reply(stat: Result<StatRecord, EngineError>) -> (r: Result<Reply, Fatal>)
    ensures
        r == match stat {
            Err(e) => Ok::<Reply, Fatal>(Reply::Error(protocol_error_of(e))),
            Ok(st) => match kind_of_mode(st.mode) {
                Some(k) => Ok::<Reply, Fatal>(
                    Reply::Entry { attr: attribute_of(st, k), ttl: TTL_SECONDS, generation: 0 },
                ),
                None => Err::<Reply, Fatal>(Fatal::UnknownFileType),
            },
        },
{
    match stat {
        Err(e) => Ok(Reply::Error(to_protocol_error(e))),
        Ok(st) => match to_attribute(&st) {
            Ok(attr) => Ok(Reply::Entry { attr, ttl: TTL_SECONDS, generation: 0 }),
            Err(f) => Err(f),
        },
    }
}

/// The reply to a request for attributes. A file handle, where the request
/// names one, must be the inode's number.
pub fn attr_reply(inum: u64, fh: Option<u64>, stat: Result<StatRecord, EngineError>) -> (r: Result<
    Reply,
    Fatal,
>)
    ensures
        r == if fh is Some && fh != Some(inum) {
            Err::<Reply, Fatal>(Fatal::HandleMismatch)
        } else {
            match stat {
                Err(e) => Ok::<Reply, Fatal>(Reply::Error(protocol_error_of(e))),
                Ok(st) => match kind_of_mode(st.mode) {
                    Some(k) => Ok::<Reply, Fatal>(
                        Reply::Attr { attr: attribute_of(st, k), ttl: TTL_SECONDS },
                    ),
                    None => Err::<Reply, Fatal>(Fatal::UnknownFileType),
                },
            }
        },
{
    if let Some(h) = fh {
        if h != inum {
            return Err(Fatal::HandleMismatch);
        }
    }
    match stat {
        Err(e) => Ok(Reply::Error(to_protocol_error(e))),
        Ok(st) => match to_attribute(&st) {
            Ok(attr) => Ok(Reply::Attr { attr, ttl: TTL_SECONDS }),
            Err(f) => Err(f),
        },
    }
}

/// The read to ask of the engine. A negative offset is fatal.
pub fn read_request(inum: u64, fh: u64, offset: i64, size: u32) -> (r: Result<ReadRequest, Fatal>)
    ensures
        r == if inum != fh {
            Err::<ReadRequest, Fatal>(Fatal::HandleMismatch)
        } else if offset < 0 {
            Err::<ReadRequest, Fatal>(Fatal::NegativeOffset)
        } else {
            Ok::<ReadRequest, Fatal>(
                ReadRequest { inum, size: size as u64, offset: offset as u64 },
            )
        },
{
    if inum != fh {
        Err(Fatal::HandleMismatch)
    } else if offset < 0 {
        Err(Fatal::NegativeOffset)
    } else {
        Ok(ReadRequest { inum, size: size as u64, offset: offset as u64 })
    }
}

/// The reply to a read of data or of a link: the bytes, or the engine's error.
pub fn data_reply(data: Result<Vec<u8>, EngineError>) -> (r: Reply)
    ensures
        r == match data {
            Ok(v) => Reply::Data(v),
            Err(e) => Reply::Error(protocol_error_of(e)),
        },
{
    match data {
        Ok(v) => Reply::Data(v),
        Err(e) => Reply::Error(to_protocol_error(e)),
    }
}

/// The reply to a flush: there is nothing to write back.
pub fn flush(inum: u64, fh: u64) -> (r: Result<Reply, Fatal>)
    ensures
        r == if inum == fh {
            Ok::<Reply, Fatal>(Reply::Empty)
        } else {
            Err::<Reply, Fatal>(Fatal::HandleMismatch)
        },
{
    match check_handle(inum, fh) {
        Ok(()) => Ok(Reply::Empty),
        Err(f) => Err(f),
    }
}

/// Whether a directory read may go on to list the directory. `inode` is
/// `None` where the engine does not resolve the inode, and else says whether
/// it is a directory.
pub fn read_directory(dinum: u64, fh: u64, inode: Option<bool>) -> (r: Result<(), Failure>)
    ensures
        r == if dinum != fh {
            Err::<(), Failure>(Failure::Fatal(Fatal::HandleMismatch))
        } else {
            match inode {
                None => Err::<(), Failure>(
                    Failure::Reply(ProtocolError::Code(ErrorCode::NotFound)),
                ),
                Some(false) => Err::<(), Failure>(
                    Failure::Reply(ProtocolError::Code(ErrorCode::NotDirectory)),
                ),
                Some(true) => Ok::<(), Failure>(()),
            }
        },
{
    if dinum != fh {
        return Err(Failure::Fatal(Fatal::HandleMismatch));
    }
    match directory_check(inode) {
        Ok(()) => Ok(()),
        Err(e) => Err(Failure::Reply(e)),
    }
}

/// The reply to a request for the filesystem's statistics.
pub fn statfs_reply(stats: Result<FsStats, EngineError>) -> (r: Reply)
    ensures
        r == match stats {
            Ok(s) => Reply::Statfs(s),
            Err(e) => Reply::Error(protocol_error_of(e)),
        },
{
    match stats {
        Ok(s) => Reply::Statfs(s),
        Err(e) => Reply::Error(to_protocol_error(e)),
    }
}

/// An access check fails: permission checks are left to the kernel, which
/// then never sends one. No reply goes out for it, a success least of all:
/// it is fatal.
pub fn access() -> (r: Fatal)
    ensures
        r == Fatal::UnexpectedAccess,
{
    Fatal::UnexpectedAccess
}

impl Adapter {
    /// The adapter's invariant: that of its handle table.
    pub closed spec fn wf(&self) -> bool {
        self.handles.wf()
    }

    /// The number of open references to all inodes together.
    pub closed spec fn open_count(&self) -> nat {
        self.handles.open_count()
    }

    /// The number of open references to an inode.
    pub closed spec fn refs(&self, inum: u64) -> nat {
        self.handles.refs(inum)
    }

    /// Whether the process runs detached, in the background.
    pub closed spec fn is_daemonized(&self) -> bool {
        self.daemonized
    }

    /// The debug level.
    pub closed spec fn debug_level(&self) -> i32 {
        self.debug
    }

    /// `post` differs from `self` in its handles at most.
    pub closed spec fn same_settings(&self, post: Adapter) -> bool {
        post.debug == self.debug && post.daemonized == self.daemonized
    }

    /// `post` is `self` after one more reference to `inum`.
    pub open spec fn opened(&self, post: Adapter, inum: u64) -> bool {
        &&& self.same_settings(post)
        &&& post.open_count() == self.open_count() + 1
        &&& post.refs(inum) == self.refs(inum) + 1
        &&& forall|other: u64| other != inum ==> post.refs(other) == self.refs(other)
    }

    /// `post` is `self` after one reference to `inum` was given up.
    pub open spec fn released(&self, post: Adapter, inum: u64) -> bool {
        &&& self.same_settings(post)
        &&& post.open_count() == self.open_count() - 1
        &&& post.refs(inum) == self.refs(inum) - 1
        &&& forall|other: u64| other != inum ==> post.refs(other) == self.refs(other)
    }

    /// An adapter with nothing open.
    pub fn new(debug: i32, daemonized: bool) -> (a: Adapter)
        ensures
            a.wf(),
            a.open_count() == 0,
            forall|inum: u64| a.refs(inum) == 0,
            a.debug_level() == debug,
            a.is_daemonized() == daemonized,
    {
        Adapter { handles: HandleTable::new(), debug, daemonized }
    }

    /// The number of open references to all inodes together.
    pub fn count(&self) -> (n: u64)
        ensures
            n == self.open_count(),
    {
        self.handles.count()
    }

    /// The debug level.
    pub fn debug(&self) -> (d: i32)
        ensures
            d == self.debug_level(),
    {
        self.debug
    }

    /// Whether the process runs detached, in the background.
    pub fn daemonized(&self) -> (d: bool)
        ensures
            d == self.is_daemonized(),
    {
        self.daemonized
    }

    /// Whether requests are to be logged in full.
    pub fn logs_requests(&self) -> (b: bool)
        ensures
            b == (self.debug_level() > 1),
    {
        self.debug > 1
    }

    /// Opens a file or a directory. `resolved` is the number of the inode the
    /// engine resolves for `inum`, `None` if it resolves none.
    ///
    /// An inode that does not resolve is not found, and nothing changes. One
    /// that resolves is opened: its handle is its number. It is fatal if the
    /// engine resolves another inode than the one asked for, or if the count
    /// of open references is at its limit.
    pub fn open(&mut self, inum: u64, resolved: Option<u64>) -> (r: Result<Reply, Fatal>)
        requires
            old(self).wf(),
        ensures
            final(self).wf(),
            match resolved {
                None => r == Ok::<Reply, Fatal>(
                    Reply::Error(ProtocolError::Code(ErrorCode::NotFound)),
                ) && *final(self) == *old(self),
                Some(n) => if n != inum {
                    r == Err::<Reply, Fatal>(Fatal::InodeMismatch) && *final(self) == *old(self)
                } else if old(self).open_count() == u64::MAX {
                    r == Err::<Reply, Fatal>(Fatal::OutOfRange) && *final(self) == *old(self)
                } else {
                    r == Ok::<Reply, Fatal>(Reply::Opened { handle: inum, flags: FOPEN_KEEP_CACHE })
                        && old(self).opened(*final(self), inum)
                },
            },
    {
        let n = match resolved {
            None => { return Ok(Reply::Error(ProtocolError::Code(ErrorCode::NotFound))); },
            Some(n) => n,
        };
        if n != inum {
            return Err(Fatal::InodeMismatch);
        }
        if self.handles.count() == u64::MAX {
            return Err(Fatal::OutOfRange);
        }
        let _ = self.handles.open(inum, true);
        Ok(Reply::Opened { handle: inum, flags: FOPEN_KEEP_CACHE })
    }

    /// Releases a file or a directory. It is fatal if the handle is not the
    /// inode's number, or if the inode has no open reference.
    pub fn release(&mut self, inum: u64, fh: u64) -> (r: Result<Reply, Fatal>)
        requires
            old(self).wf(),
        ensures
            final(self).wf(),
            if inum != fh {
                r == Err::<Reply, Fatal>(Fatal::HandleMismatch) && *final(self) == *old(self)
            } else if old(self).refs(inum) == 0 {
                r == Err::<Reply, Fatal>(Fatal::NotOpen) && *final(self) == *old(self)
            } else {
                r == Ok::<Reply, Fatal>(Reply::Empty) && old(self).released(*final(self), inum)
            },
    {
        if inum != fh {
            return Err(Fatal::HandleMismatch);
        }
        match self.handles.close(inum) {
            Ok(()) => Ok(Reply::Empty),
            Err(f) => Err(f),
        }
    }

    /// Whether the engine may be torn down: only with nothing open. To tear
    /// it down with a reference open is fatal.
    pub fn destroy(&self) -> (r: Result<(), Fatal>)
        ensures
            r == if self.open_count() == 0 {
                Ok::<(), Fatal>(())
            } else {
                Err::<(), Fatal>(Fatal::OpenAtTeardown)
            },
    {
        self.handles.check_teardown()
    }

    /// Routes a control request: the engine query it leads to, or why it
    /// leads to none. Nothing is changed by it.
    pub fn control(
        &self,
        inum: u64,
        fh: u64,
        opcodes: &Opcodes,
        layouts: &Layouts,
        opcode: u64,
        len: usize,
        address: usize,
    ) -> (r: Result<Query, Failure>)
        ensures
            r == if inum != fh {
                Err::<Query, Failure>(Failure::Fatal(Fatal::HandleMismatch))
            } else {
                match routed(*opcodes, *layouts, opcode, len, address) {
                    Ok(q) => Ok::<Query, Failure>(q),
                    Err(e) => Err::<Query, Failure>(Failure::Reply(e)),
                }
            },
    {
        if inum != fh {
            return Err(Failure::Fatal(Fatal::HandleMismatch));
        }
        match route(opcodes, layouts, opcode, len, address) {
            Ok(q) => Ok(q),
            Err(e) => Err(Failure::Reply(e)),
        }
    }

    /// Whether a diagnostic dump of an inode may be made. `resolved` says
    /// whether the engine resolves the inode. The dump goes to the console:
    /// a detached process does not support it, whatever the inode.
    pub fn debug_dump(&self, resolved: bool) -> (r: Result<(), ProtocolError>)
        ensures
            r == if self.is_daemonized() {
                Err::<(), ProtocolError>(ProtocolError::Code(ErrorCode::Unsupported))
            } else if !resolved {
                Err::<(), ProtocolError>(ProtocolError::Code(ErrorCode::NotFound))
            } else {
                Ok::<(), ProtocolError>(())
            },
    {
        if self.daemonized {
            Err(ProtocolError::Code(ErrorCode::Unsupported))
        } else if !resolved {
            Err(ProtocolError::Code(ErrorCode::NotFound))
        } else {
            Ok(())
        }
    }

    /// `post` is `self` after the call `op` succeeded: an open, or a release.
    pub open spec fn follows(&self, post: Adapter, op: HandleOp) -> bool {
        &&& post.wf()
        &&& match op {
            HandleOp::Open(inum) => self.opened(post, inum),
            HandleOp::Close(inum) => self.released(post, inum),
        }
    }

    /// No inode has more open references than the adapter counts in all, and
    /// the adapter counts none exactly when no inode has one.
    pub proof fn counts_agree(&self, inum: u64)
        requires
            self.wf(),
        ensures
            self.refs(inum) <= self.open_count(),
            self.open_count() == 0 <==> forall|i: u64| self.refs(i) == 0,
    {
        self.handles.counts_agree(inum);
        if self.open_count() == 0 {
            assert forall|i: u64| self.refs(i) == 0 by {
                assert(self.handles.refs(i) == 0);
            }
        }
        if forall|i: u64| self.refs(i) == 0 {
            assert forall|i: u64| self.handles.refs(i) == 0 by {
                assert(self.refs(i) == 0);
            }
        }
    }

    /// An open followed by the release of the same inode leaves every count
    /// as it was. In between at least one reference is open, so that a
    /// teardown then would be fatal.
    pub proof fn open_then_release(&self, mid: Adapter, post: Adapter, inum: u64)
        requires
            self.opened(mid, inum),
            mid.released(post, inum),
        ensures
            post.open_count() == self.open_count(),
            forall|i: u64| post.refs(i) == self.refs(i),
            mid.open_count() > 0,
    {
    }
}

/// `adapters` are the states an adapter passes through while the opens and
/// releases `ops` succeed one after the other on an adapter that starts with
/// nothing open.
pub open spec fn is_session(adapters: Seq<Adapter>, ops: Seq<HandleOp>) -> bool {
    &&& adapters.len() == ops.len() + 1
    &&& adapters[0].wf()
    &&& forall|inum: u64| adapters[0].refs(inum) == 0
    &&& forall|k: int|
        0 <= k < ops.len() ==> (#[trigger] adapters[k]).follows(adapters[k + 1], ops[k])
}

/// After a balanced sequence of successful opens and releases, one in which
/// every inode is released as often as it is opened, on an adapter that
/// started with nothing open, the count of open references is 0 again: the
/// teardown succeeds. While a reference is open it does not.
pub proof fn balanced_session_returns_to_zero(adapters: Seq<Adapter>, ops: Seq<HandleOp>)
    requires
        is_session(adapters, ops),
        forall|inum: u64| opens_of(ops, inum) == closes_of(ops, inum),
    ensures
        adapters.last().open_count() == 0,
{
    let tables = Seq::new(adapters.len(), |k: int| adapters[k].handles);
    assert(is_run(tables, ops)) by {
        assert forall|k: int| 0 <= k < ops.len() implies (#[trigger] tables[k]).follows(
            tables[k + 1],
            ops[k],
        ) by {
            let pre = adapters[k];
            let post = adapters[k + 1];
            assert(pre.follows(post, ops[k]));
            assert(tables[k] == pre.handles && tables[k + 1] == post.handles);
            match ops[k] {
                HandleOp::Open(inum) => {
                    assert forall|other: u64| other != inum implies post.handles.refs(other)
                        == pre.handles.refs(other) by {
                        assert(post.refs(other) == pre.refs(other));
                    }
                },
                HandleOp::Close(inum) => {
                    assert forall|other: u64| other != inum implies post.handles.refs(other)
                        == pre.handles.refs(other) by {
                        assert(post.refs(other) == pre.refs(other));
                    }
                },
            }
        }
        assert forall|inum: u64| tables[0].refs(inum) == 0 by {
            assert(adapters[0].refs(inum) == 0);
        }
    }
    balanced_run_returns_to_zero(tables, ops);
    assert(tables.last() == adapters.last().handles);
}

} // verus!
