//! File connection scenarios: rights gates, seeks, append mode, clones.
//!
//! The backing file is played by the test: each instruction the
//! connection returns is answered the way a file of the stated size
//! would.

use vfs::connection::ConnectionState;
use vfs::file::{FileConnection, FileOutcome, FileRequest, SeekOrigin, MAX_TRANSFER_SIZE};
use vfs::flags::{
    CLONE_FLAG_SAME_RIGHTS, OPEN_FLAG_APPEND, OPEN_FLAG_TRUNCATE, OPEN_RIGHT_READABLE,
    OPEN_RIGHT_WRITABLE,
};
use vfs::file::{VMO_FLAG_EXEC, VMO_FLAG_READ};
use vfs::status::Status;

const MOCK_FILE_SIZE: u64 = 256;

fn new_connection(flags: u32) -> FileConnection {
    let setup = FileConnection::create_connection(flags, true, true, false)
        .expect("create_connection failed");
    setup.connection
}

#[test]
fn test_open_flag_truncate() {
    let setup = FileConnection::create_connection(
        OPEN_RIGHT_WRITABLE | OPEN_FLAG_TRUNCATE,
        true,
        true,
        false,
    )
    .expect("create_connection failed");
    // The truncate flag means the file is truncated before serving, and
    // it stays in the connection flags.
    assert!(setup.truncate);
    assert!(!setup.describe);
    assert_eq!(setup.connection.flags, OPEN_RIGHT_WRITABLE | OPEN_FLAG_TRUNCATE);
    assert_eq!(setup.connection.seek, 0);
}

#[test]
fn test_clone_same_rights() {
    // Scenario: open with {READ, WRITE}, read 6 bytes, clone with
    // same-rights, seek the clone to 100 and read 5, then read 5 more
    // from the original.  The two connections keep independent seeks.
    let mut conn = new_connection(OPEN_RIGHT_READABLE | OPEN_RIGHT_WRITABLE);

    let (outcome, state) = conn.handle_request(FileRequest::Read { count: 6 });
    assert!(matches!(state, ConnectionState::Alive));
    match outcome {
        FileOutcome::ReadAt { offset, count, advance } => {
            assert_eq!(offset, 0);
            assert_eq!(count, 6);
            assert!(advance);
        }
        _ => panic!("expected a read instruction"),
    }
    conn.complete_read(6);

    let (outcome, _) = conn.handle_request(FileRequest::CloneConnection {
        flags: CLONE_FLAG_SAME_RIGHTS,
    });
    let clone_flags = match outcome {
        FileOutcome::CreateConnection { flags } => flags,
        _ => panic!("expected a sibling connection"),
    };
    assert_eq!(clone_flags, OPEN_RIGHT_READABLE | OPEN_RIGHT_WRITABLE);
    let mut clone_conn = new_connection(clone_flags);
    assert_eq!(clone_conn.seek, 0);

    let (outcome, _) = clone_conn.handle_request(FileRequest::Seek {
        offset: 100,
        origin: SeekOrigin::Start,
    });
    match outcome {
        FileOutcome::RespondSeek { status, pos } => {
            assert_eq!(status, Status::Okay);
            assert_eq!(pos, 100);
        }
        _ => panic!("expected a seek reply"),
    }
    let (outcome, _) = clone_conn.handle_request(FileRequest::Read { count: 5 });
    match outcome {
        FileOutcome::ReadAt { offset, count, .. } => {
            assert_eq!(offset, 100);
            assert_eq!(count, 5);
        }
        _ => panic!("expected a read instruction"),
    }
    clone_conn.complete_read(5);

    // The original connection still reads from its own seek.
    let (outcome, _) = conn.handle_request(FileRequest::Read { count: 5 });
    match outcome {
        FileOutcome::ReadAt { offset, count, .. } => {
            assert_eq!(offset, 6);
            assert_eq!(count, 5);
        }
        _ => panic!("expected a read instruction"),
    }
}

#[test]
fn test_append() {
    // Scenario: a file of size 256 opened with {WRITE, APPEND}; writing
    // 13 bytes appends at the end and the new seek is exactly 269,
    // whatever the seek held before.
    let mut conn = new_connection(OPEN_RIGHT_WRITABLE | OPEN_FLAG_APPEND);
    let data = b"Hello, world!".to_vec();
    assert_eq!(data.len(), 13);

    let (outcome, _) = conn.handle_request(FileRequest::Write { data });
    let sent = match outcome {
        FileOutcome::Append { data } => data,
        _ => panic!("expected an append instruction"),
    };
    assert_eq!(sent.len(), 13);
    // The file reports (bytes written, new end of file).
    let count = conn.complete_append(sent.len() as u64, MOCK_FILE_SIZE + sent.len() as u64);
    assert_eq!(count, 13);
    assert_eq!(conn.seek, 269);

    let (outcome, _) = conn.handle_request(FileRequest::Seek {
        offset: 0,
        origin: SeekOrigin::Current,
    });
    match outcome {
        FileOutcome::RespondSeek { status, pos } => {
            assert_eq!(status, Status::Okay);
            assert_eq!(pos, MOCK_FILE_SIZE + 13);
        }
        _ => panic!("expected a seek reply"),
    }
}

#[test]
fn test_seek_start() {
    let mut conn = new_connection(OPEN_RIGHT_READABLE);
    let (outcome, _) = conn.handle_request(FileRequest::Seek {
        offset: 10,
        origin: SeekOrigin::Start,
    });
    match outcome {
        FileOutcome::RespondSeek { status, pos } => {
            assert_eq!(status, Status::Okay);
            assert_eq!(pos, 10);
        }
        _ => panic!("expected a seek reply"),
    }
    let (outcome, _) = conn.handle_request(FileRequest::Read { count: 1 });
    match outcome {
        FileOutcome::ReadAt { offset, count, .. } => {
            assert_eq!(offset, 10);
            assert_eq!(count, 1);
        }
        _ => panic!("expected a read instruction"),
    }
}

#[test]
fn test_seek_cur() {
    let mut conn = new_connection(OPEN_RIGHT_READABLE);
    let (outcome, _) = conn.handle_request(FileRequest::Seek {
        offset: 10,
        origin: SeekOrigin::Start,
    });
    assert!(matches!(outcome, FileOutcome::RespondSeek { status: Status::Okay, pos: 10 }));
    let (outcome, _) = conn.handle_request(FileRequest::Seek {
        offset: -2,
        origin: SeekOrigin::Current,
    });
    match outcome {
        FileOutcome::RespondSeek { status, pos } => {
            assert_eq!(status, Status::Okay);
            assert_eq!(pos, 8);
        }
        _ => panic!("expected a seek reply"),
    }
    let (outcome, _) = conn.handle_request(FileRequest::Read { count: 1 });
    match outcome {
        FileOutcome::ReadAt { offset, .. } => assert_eq!(offset, 8),
        _ => panic!("expected a read instruction"),
    }
}

#[test]
fn test_seek_before_start() {
    // Scenario: Seek(Current, -4) on a fresh connection (seek 0) is out
    // of range and leaves the seek at 0.
    let mut conn = new_connection(OPEN_RIGHT_READABLE);
    let (outcome, _) = conn.handle_request(FileRequest::Seek {
        offset: -4,
        origin: SeekOrigin::Current,
    });
    match outcome {
        FileOutcome::RespondSeek { status, pos } => {
            assert_eq!(status, Status::OutOfRange);
            assert_eq!(pos, 0);
        }
        _ => panic!("expected a seek reply"),
    }
    assert_eq!(conn.seek, 0);
}

#[test]
fn test_seek_end() {
    // Scenario: Seek(End, -4) on a file of size 256 yields offset 252.
    let mut conn = new_connection(OPEN_RIGHT_READABLE);
    let (outcome, _) = conn.handle_request(FileRequest::Seek {
        offset: -4,
        origin: SeekOrigin::End,
    });
    match outcome {
        FileOutcome::GetSizeForSeek { offset } => assert_eq!(offset, -4),
        _ => panic!("expected a size query"),
    }
    let outcome = conn.complete_seek_end(-4, Ok(MOCK_FILE_SIZE));
    match outcome {
        FileOutcome::RespondSeek { status, pos } => {
            assert_eq!(status, Status::Okay);
            assert_eq!(pos, MOCK_FILE_SIZE - 4);
        }
        _ => panic!("expected a seek reply"),
    }
    assert_eq!(conn.seek, 252);
    let (outcome, _) = conn.handle_request(FileRequest::Read { count: 1 });
    match outcome {
        FileOutcome::ReadAt { offset, .. } => assert_eq!(offset, 252),
        _ => panic!("expected a read instruction"),
    }
}

#[test]
fn test_getflags() {
    // Scenario: GetFlags after open with {READ, WRITE, TRUNCATE} returns
    // only {READ, WRITE}: truncate never persists past open time.
    let mut conn = new_connection(
        OPEN_RIGHT_READABLE | OPEN_RIGHT_WRITABLE | OPEN_FLAG_TRUNCATE,
    );
    let (outcome, _) = conn.handle_request(FileRequest::GetFlags);
    match outcome {
        FileOutcome::RespondFlags { status, flags } => {
            assert_eq!(status, Status::Okay);
            assert_eq!(flags, OPEN_RIGHT_READABLE | OPEN_RIGHT_WRITABLE);
        }
        _ => panic!("expected a flags reply"),
    }
}

#[test]
fn test_set_flags() {
    let mut conn = new_connection(OPEN_RIGHT_WRITABLE);
    let (outcome, _) = conn.handle_request(FileRequest::SetFlags { flags: OPEN_FLAG_APPEND });
    assert!(matches!(outcome, FileOutcome::Respond(Status::Okay)));
    let (outcome, _) = conn.handle_request(FileRequest::GetFlags);
    match outcome {
        FileOutcome::RespondFlags { status, flags } => {
            assert_eq!(status, Status::Okay);
            assert_eq!(flags, OPEN_RIGHT_WRITABLE | OPEN_FLAG_APPEND);
        }
        _ => panic!("expected a flags reply"),
    }
}

#[test]
fn test_read_not_readable() {
    let mut conn = new_connection(OPEN_RIGHT_WRITABLE);
    let (outcome, _) = conn.handle_request(FileRequest::Read { count: 10 });
    assert!(matches!(outcome, FileOutcome::Respond(Status::BadHandle)));
}

#[test]
fn test_read_validates_count() {
    let mut conn = new_connection(OPEN_RIGHT_READABLE);
    let (outcome, _) = conn.handle_request(FileRequest::Read { count: MAX_TRANSFER_SIZE + 1 });
    assert!(matches!(outcome, FileOutcome::Respond(Status::OutOfRange)));
}

#[test]
fn test_write_no_perms() {
    let mut conn = new_connection(OPEN_RIGHT_READABLE);
    let (outcome, _) = conn.handle_request(FileRequest::Write {
        data: b"Hello, world!".to_vec(),
    });
    assert!(matches!(outcome, FileOutcome::Respond(Status::BadHandle)));
    assert_eq!(conn.seek, 0);
}

#[test]
fn test_write_advances_seek() {
    let mut conn = new_connection(OPEN_RIGHT_WRITABLE);
    let data = b"Hello, world!".to_vec();
    let (outcome, _) = conn.handle_request(FileRequest::Write { data });
    match outcome {
        FileOutcome::WriteAt { offset, data, advance } => {
            assert_eq!(offset, 0);
            assert_eq!(data, b"Hello, world!".to_vec());
            assert!(advance);
        }
        _ => panic!("expected a write instruction"),
    }
    conn.complete_write(13);
    assert_eq!(conn.seek, 13);
}

#[test]
fn test_write_at_keeps_seek() {
    let mut conn = new_connection(OPEN_RIGHT_WRITABLE);
    let (outcome, _) = conn.handle_request(FileRequest::WriteAt {
        offset: 10,
        data: b"Hello, world!".to_vec(),
    });
    match outcome {
        FileOutcome::WriteAt { offset, advance, .. } => {
            assert_eq!(offset, 10);
            assert!(!advance);
        }
        _ => panic!("expected a write instruction"),
    }
    assert_eq!(conn.seek, 0);
}

#[test]
fn test_truncate_no_perms() {
    let mut conn = new_connection(OPEN_RIGHT_READABLE);
    let (outcome, _) = conn.handle_request(FileRequest::Truncate { length: 10 });
    assert!(matches!(outcome, FileOutcome::Respond(Status::BadHandle)));
}

#[test]
fn test_getbuffer_no_perms() {
    let mut conn = new_connection(0);
    let (outcome, _) = conn.handle_request(FileRequest::GetBuffer { vmo_flags: VMO_FLAG_READ });
    assert!(matches!(outcome, FileOutcome::Respond(Status::AccessDenied)));
}

#[test]
fn test_getbuffer_vmo_exec_requires_right_executable() {
    let mut conn = new_connection(OPEN_RIGHT_READABLE);
    let (outcome, _) = conn.handle_request(FileRequest::GetBuffer { vmo_flags: VMO_FLAG_EXEC });
    assert!(matches!(outcome, FileOutcome::Respond(Status::AccessDenied)));
}

#[test]
fn test_close_ends_connection() {
    let mut conn = new_connection(OPEN_RIGHT_READABLE);
    let (outcome, state) = conn.handle_request(FileRequest::Close);
    assert!(matches!(outcome, FileOutcome::Close));
    assert!(matches!(state, ConnectionState::Closed));
    // The file's close result becomes the reply; an I/O failure passes
    // through verbatim.
    assert_eq!(vfs::file::operation_finish(Ok(())), Status::Okay);
    assert_eq!(vfs::file::operation_finish(Err(Status::Io)), Status::Io);
}

#[test]
fn test_advisory_lock_not_supported() {
    let mut conn = new_connection(OPEN_RIGHT_READABLE);
    let (outcome, _) = conn.handle_request(FileRequest::AdvisoryLock);
    assert!(matches!(outcome, FileOutcome::Respond(Status::NotSupported)));
}
