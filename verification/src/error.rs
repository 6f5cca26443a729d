//! Engine errors, protocol errors and fatal conditions.
use vstd::prelude::*;

verus! {

/// How the engine classifies a generic I/O failure.
#[derive(Clone, Copy, Debug, PartialEq, Eq, Structural)]
pub enum IoKind {
    NotFound,
    PermissionDenied,
    AlreadyExists,
    BrokenPipe,
    ConnectionAborted,
    ConnectionRefused,
    ConnectionReset,
    Deadlock,
    DirectoryNotEmpty,
    FileTooLarge,
    Interrupted,
    InvalidInput,
    IsADirectory,
    NetworkDown,
    NetworkUnreachable,
    NotADirectory,
    NotConnected,
    NotSeekable,
    OutOfMemory,
    ReadOnlyFilesystem,
    ResourceBusy,
    StaleNetworkFileHandle,
    StorageFull,
    TimedOut,
    TooManyLinks,
    Unsupported,
    WouldBlock,
    /// Any kind the translation table does not list.
    Other,
}

/// A platform error code by name. The number behind each name belongs to the
/// platform and is looked up where the reply is sent.
#[derive(Clone, Copy, Debug, PartialEq, Eq, Structural)]
pub enum ErrorCode {
    /// ENOENT
    NotFound,
    /// EACCES
    AccessDenied,
    /// EEXIST
    Exists,
    /// EPIPE
    BrokenPipe,
    /// ECONNABORTED
    ConnectionAborted,
    /// ECONNREFUSED
    ConnectionRefused,
    /// ECONNRESET
    ConnectionReset,
    /// EDEADLK
    Deadlock,
    /// ENOTEMPTY
    NotEmpty,
    /// EFBIG
    FileTooBig,
    /// EINTR
    Interrupted,
    /// EINVAL
    InvalidArgument,
    /// EISDIR
    IsDirectory,
    /// ENETDOWN
    NetworkDown,
    /// ENETUNREACH
    NetworkUnreachable,
    /// ENOTDIR
    NotDirectory,
    /// ENOTCONN
    NotConnected,
    /// ESPIPE
    IllegalSeek,
    /// ENOMEM
    OutOfMemory,
    /// EROFS
    ReadOnly,
    /// EBUSY
    Busy,
    /// ESTALE
    Stale,
    /// ENOSPC
    NoSpace,
    /// ETIMEDOUT
    TimedOut,
    /// EMLINK
    TooManyLinks,
    /// EOPNOTSUPP
    Unsupported,
    /// EWOULDBLOCK
    WouldBlock,
    /// EIO
    Io,
}

/// An error as the engine reports it.
#[derive(Clone, Copy, Debug, PartialEq, Eq, Structural)]
pub enum EngineError {
    /// A raw platform error number.
    Errno(i32),
    /// A generic I/O failure, known by its kind.
    Io(IoKind),
}

/// An error as the protocol reply carries it.
#[derive(Clone, Copy, Debug, PartialEq, Eq, Structural)]
pub enum ProtocolError {
    /// A platform error number taken over from the engine as it came.
    Raw(i32),
    /// A platform error code chosen by the adapter.
    Code(ErrorCode),
}

/// A breach of the contract between adapter, engine and kernel. The caller
/// must abort on it; it is never sent as a reply.
#[derive(Clone, Copy, Debug, PartialEq, Eq, Structural)]
pub enum Fatal {
    /// A request named a file handle that is not its inode number.
    HandleMismatch,
    /// The engine resolved an inode whose number is not the one asked for.
    InodeMismatch,
    /// A release came for an inode that has no open handle.
    NotOpen,
    /// Teardown was asked for while handles were open.
    OpenAtTeardown,
    /// A directory listing does not begin with "." and "..".
    MalformedListing,
    /// A permission mode or a type tag names no known file type.
    UnknownFileType,
    /// A request carried a negative offset.
    NegativeOffset,
    /// An access check arrived although permission checks are left to the kernel.
    UnexpectedAccess,
    /// A count or an identifier does not fit its field.
    OutOfRange,
}

/// Why an operation gave no result: an error to reply with, or a fatal
/// condition to abort on.
#[derive(Clone, Copy, Debug, PartialEq, Eq, Structural)]
pub enum Failure {
    Reply(ProtocolError),
    Fatal(Fatal),
}

/// The code the translation table gives for an I/O failure kind, if it lists the kind.
pub open spec fn io_kind_code(kind: IoKind) -> Option<ErrorCode> {
    match kind {
        IoKind::NotFound => Some(ErrorCode::NotFound),
        IoKind::PermissionDenied => Some(ErrorCode::AccessDenied),
        IoKind::AlreadyExists => Some(ErrorCode::Exists),
        IoKind::BrokenPipe => Some(ErrorCode::BrokenPipe),
        IoKind::ConnectionAborted => Some(ErrorCode::ConnectionAborted),
        IoKind::ConnectionRefused => Some(ErrorCode::ConnectionRefused),
        IoKind::ConnectionReset => Some(ErrorCode::ConnectionReset),
        IoKind::Deadlock => Some(ErrorCode::Deadlock),
        IoKind::DirectoryNotEmpty => Some(ErrorCode::NotEmpty),
        IoKind::FileTooLarge => Some(ErrorCode::FileTooBig),
        IoKind::Interrupted => Some(ErrorCode::Interrupted),
        IoKind::InvalidInput => Some(ErrorCode::InvalidArgument),
        IoKind::IsADirectory => Some(ErrorCode::IsDirectory),
        IoKind::NetworkDown => Some(ErrorCode::NetworkDown),
        IoKind::NetworkUnreachable => Some(ErrorCode::NetworkUnreachable),
        IoKind::NotADirectory => Some(ErrorCode::NotDirectory),
        IoKind::NotConnected => Some(ErrorCode::NotConnected),
        IoKind::NotSeekable => Some(ErrorCode::IllegalSeek),
        IoKind::OutOfMemory => Some(ErrorCode::OutOfMemory),
        IoKind::ReadOnlyFilesystem => Some(ErrorCode::ReadOnly),
        IoKind::ResourceBusy => Some(ErrorCode::Busy),
        IoKind::StaleNetworkFileHandle => Some(ErrorCode::Stale),
        IoKind::StorageFull => Some(ErrorCode::NoSpace),
        IoKind::TimedOut => Some(ErrorCode::TimedOut),
        IoKind::TooManyLinks => Some(ErrorCode::TooManyLinks),
        IoKind::Unsupported => Some(ErrorCode::Unsupported),
        IoKind::WouldBlock => Some(ErrorCode::WouldBlock),
        IoKind::Other => None,
    }
}

/// The protocol error that stands for an engine error: a raw number passes
/// through unchanged, a listed I/O kind gives its code, any other kind gives
/// the invalid-argument code.
pub open spec fn protocol_error_of(e: EngineError) -> ProtocolError {
    match e {
        EngineError::Errno(n) => ProtocolError::Raw(n),
        EngineError::Io(kind) => match io_kind_code(kind) {
            Some(code) => ProtocolError::Code(code),
            None => ProtocolError::Code(ErrorCode::InvalidArgument),
        },
    }
}

/// Looks an I/O failure kind up in the translation table.
pub fn io_kind_to_code(kind: IoKind) -> (r: Option<ErrorCode>)
    ensures
        r == io_kind_code(kind),
{
    match kind {
        IoKind::NotFound => Some(ErrorCode::NotFound),
        IoKind::PermissionDenied => Some(ErrorCode::AccessDenied),
        IoKind::AlreadyExists => Some(ErrorCode::Exists),
        IoKind::BrokenPipe => Some(ErrorCode::BrokenPipe),
        IoKind::ConnectionAborted => Some(ErrorCode::ConnectionAborted),
        IoKind::ConnectionRefused => Some(ErrorCode::ConnectionRefused),
        IoKind::ConnectionReset => Some(ErrorCode::ConnectionReset),
        IoKind::Deadlock => Some(ErrorCode::Deadlock),
        IoKind::DirectoryNotEmpty => Some(ErrorCode::NotEmpty),
        IoKind::FileTooLarge => Some(ErrorCode::FileTooBig),
        IoKind::Interrupted => Some(ErrorCode::Interrupted),
        IoKind::InvalidInput => Some(ErrorCode::InvalidArgument),
        IoKind::IsADirectory => Some(ErrorCode::IsDirectory),
        IoKind::NetworkDown => Some(ErrorCode::NetworkDown),
        IoKind::NetworkUnreachable => Some(ErrorCode::NetworkUnreachable),
        IoKind::NotADirectory => Some(ErrorCode::NotDirectory),
        IoKind::NotConnected => Some(ErrorCode::NotConnected),
        IoKind::NotSeekable => Some(ErrorCode::IllegalSeek),
        IoKind::OutOfMemory => Some(ErrorCode::OutOfMemory),
        IoKind::ReadOnlyFilesystem => Some(ErrorCode::ReadOnly),
        IoKind::ResourceBusy => Some(ErrorCode::Busy),
        IoKind::StaleNetworkFileHandle => Some(ErrorCode::Stale),
        IoKind::StorageFull => Some(ErrorCode::NoSpace),
        IoKind::TimedOut => Some(ErrorCode::TimedOut),
        IoKind::TooManyLinks => Some(ErrorCode::TooManyLinks),
        IoKind::Unsupported => Some(ErrorCode::Unsupported),
        IoKind::WouldBlock => Some(ErrorCode::WouldBlock),
        IoKind::Other => None,
    }
}

/// Translates an engine error into the error of the protocol reply.
pub fn to_protocol_error(e: EngineError) -> (r: ProtocolError)
    ensures
        r == protocol_error_of(e),
{
    match e {
        EngineError::Errno(n) => ProtocolError::Raw(n),
        EngineError::Io(kind) => match io_kind_to_code(kind) {
            Some(code) => ProtocolError::Code(code),
            None => ProtocolError::Code(ErrorCode::InvalidArgument),
        },
    }
}

} // verus!
