use hammer2_fuse::error::{
    io_kind_to_code, to_protocol_error, EngineError, ErrorCode, IoKind, ProtocolError,
};

#[test]
fn raw_code_passes_through_unchanged() {
    assert_eq!(to_protocol_error(EngineError::Errno(2)), ProtocolError::Raw(2));
    assert_eq!(to_protocol_error(EngineError::Errno(0)), ProtocolError::Raw(0));
    assert_eq!(to_protocol_error(EngineError::Errno(-7)), ProtocolError::Raw(-7));
    assert_eq!(
        to_protocol_error(EngineError::Errno(i32::MAX)),
        ProtocolError::Raw(i32::MAX)
    );
}

#[test]
fn io_kinds_map_through_the_table() {
    let table = [
        (IoKind::NotFound, ErrorCode::NotFound),
        (IoKind::PermissionDenied, ErrorCode::AccessDenied),
        (IoKind::AlreadyExists, ErrorCode::Exists),
        (IoKind::BrokenPipe, ErrorCode::BrokenPipe),
        (IoKind::ConnectionAborted, ErrorCode::ConnectionAborted),
        (IoKind::ConnectionRefused, ErrorCode::ConnectionRefused),
        (IoKind::ConnectionReset, ErrorCode::ConnectionReset),
        (IoKind::Deadlock, ErrorCode::Deadlock),
        (IoKind::DirectoryNotEmpty, ErrorCode::NotEmpty),
        (IoKind::FileTooLarge, ErrorCode::FileTooBig),
        (IoKind::Interrupted, ErrorCode::Interrupted),
        (IoKind::InvalidInput, ErrorCode::InvalidArgument),
        (IoKind::IsADirectory, ErrorCode::IsDirectory),
        (IoKind::NetworkDown, ErrorCode::NetworkDown),
        (IoKind::NetworkUnreachable, ErrorCode::NetworkUnreachable),
        (IoKind::NotADirectory, ErrorCode::NotDirectory),
        (IoKind::NotConnected, ErrorCode::NotConnected),
        (IoKind::NotSeekable, ErrorCode::IllegalSeek),
        (IoKind::OutOfMemory, ErrorCode::OutOfMemory),
        (IoKind::ReadOnlyFilesystem, ErrorCode::ReadOnly),
        (IoKind::ResourceBusy, ErrorCode::Busy),
        (IoKind::StaleNetworkFileHandle, ErrorCode::Stale),
        (IoKind::StorageFull, ErrorCode::NoSpace),
        (IoKind::TimedOut, ErrorCode::TimedOut),
        (IoKind::TooManyLinks, ErrorCode::TooManyLinks),
        (IoKind::Unsupported, ErrorCode::Unsupported),
        (IoKind::WouldBlock, ErrorCode::WouldBlock),
    ];
    for (kind, code) in table {
        assert_eq!(io_kind_to_code(kind), Some(code));
        assert_eq!(
            to_protocol_error(EngineError::Io(kind)),
            ProtocolError::Code(code)
        );
    }
}

#[test]
fn unlisted_io_kind_is_invalid_argument() {
    assert_eq!(io_kind_to_code(IoKind::Other), None);
    assert_eq!(
        to_protocol_error(EngineError::Io(IoKind::Other)),
        ProtocolError::Code(ErrorCode::InvalidArgument)
    );
}

#[test]
fn table_codes_are_pairwise_distinct() {
    let kinds = [
        IoKind::NotFound,
        IoKind::PermissionDenied,
        IoKind::AlreadyExists,
        IoKind::BrokenPipe,
        IoKind::Deadlock,
        IoKind::NotADirectory,
        IoKind::Unsupported,
        IoKind::WouldBlock,
    ];
    for (i, a) in kinds.iter().enumerate() {
        for (j, b) in kinds.iter().enumerate() {
            if i != j {
                assert_ne!(io_kind_to_code(*a), io_kind_to_code(*b));
            }
        }
    }
}
