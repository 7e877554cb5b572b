//! The shared directory protocol: dispatch, enumeration cursor, open and
//! clone decisions, link steps, and watch.

use vfs::connection::{
    link_after_get_entry, link_after_lookup_container, link_finish, BaseConnection,
    BaseDirectoryRequest, ConnectionState, DirectoryOutcome, DirectoryRequest,
    ImmutableConnection, LinkStep, POSIX_DIRECTORY_PROTECTION_ATTRIBUTES,
};
use vfs::dirents::{DirentsDone, TraversalPosition};
use vfs::entry::INO_UNKNOWN;
use vfs::flags::{
    CLONE_FLAG_SAME_RIGHTS, MODE_TYPE_DIRECTORY, OPEN_FLAG_APPEND, OPEN_FLAG_CREATE,
    OPEN_FLAG_DESCRIBE, OPEN_RIGHT_EXECUTABLE, OPEN_RIGHT_READABLE, OPEN_RIGHT_WRITABLE,
};
use vfs::scope::ExecutionScope;
use vfs::status::Status;

fn new_base(flags: u32) -> BaseConnection {
    BaseConnection::new(ExecutionScope::new().with_token_registry(), flags)
}

#[test]
fn directory_close_ends_connection() {
    let mut conn = new_base(OPEN_RIGHT_READABLE);
    let (outcome, state) = conn.handle_request(BaseDirectoryRequest::Close);
    assert!(matches!(outcome, DirectoryOutcome::Respond(Status::Okay)));
    assert!(matches!(state, ConnectionState::Closed));
}

#[test]
fn directory_static_replies() {
    let mut conn = new_base(OPEN_RIGHT_READABLE | OPEN_RIGHT_WRITABLE);
    let (outcome, _) = conn.handle_request(BaseDirectoryRequest::Describe);
    assert!(matches!(outcome, DirectoryOutcome::RespondDescribe));

    let (outcome, _) = conn.handle_request(BaseDirectoryRequest::Synchronize);
    assert!(matches!(outcome, DirectoryOutcome::Respond(Status::NotSupported)));

    let (outcome, _) = conn.handle_request(BaseDirectoryRequest::SetFlags { flags: OPEN_FLAG_APPEND });
    assert!(matches!(outcome, DirectoryOutcome::Respond(Status::NotSupported)));

    let (outcome, _) = conn.handle_request(BaseDirectoryRequest::GetFlags);
    match outcome {
        DirectoryOutcome::RespondFlags { status, flags } => {
            assert_eq!(status, Status::Okay);
            assert_eq!(flags, OPEN_RIGHT_READABLE | OPEN_RIGHT_WRITABLE);
        }
        _ => panic!("expected a flags reply"),
    }

    let (outcome, _) = conn.handle_request(BaseDirectoryRequest::GetAttr);
    match outcome {
        DirectoryOutcome::RespondAttrs { status, attrs } => {
            assert_eq!(status, Status::Okay);
            assert_eq!(attrs.mode, MODE_TYPE_DIRECTORY | POSIX_DIRECTORY_PROTECTION_ATTRIBUTES);
            assert_eq!(attrs.id, INO_UNKNOWN);
            assert_eq!(attrs.link_count, 1);
        }
        _ => panic!("expected an attributes reply"),
    }
}

#[test]
fn read_dirents_moves_cursor() {
    let mut conn = new_base(OPEN_RIGHT_READABLE);
    // The first enumeration starts at the beginning.
    let (outcome, _) = conn.handle_request(BaseDirectoryRequest::ReadDirents { max_bytes: 64 });
    match outcome {
        DirectoryOutcome::ReadDirents { pos, max_bytes } => {
            assert_eq!(pos, TraversalPosition::Start);
            assert_eq!(max_bytes, 64);
        }
        _ => panic!("expected an enumeration instruction"),
    }
    // The sealed page's cursor becomes the next resume position.
    let done = DirentsDone {
        buf: vec![1, 2, 3],
        pos: TraversalPosition::Name(b"fstab".to_vec()),
        status: Status::Okay,
    };
    let (status, bytes) = conn.complete_read_dirents(done);
    assert_eq!(status, Status::Okay);
    assert_eq!(bytes, vec![1, 2, 3]);
    let (outcome, _) = conn.handle_request(BaseDirectoryRequest::ReadDirents { max_bytes: 64 });
    match outcome {
        DirectoryOutcome::ReadDirents { pos, .. } => {
            assert_eq!(pos, TraversalPosition::Name(b"fstab".to_vec()));
        }
        _ => panic!("expected an enumeration instruction"),
    }
    // Rewind resets the cursor to the beginning.
    let (outcome, _) = conn.handle_request(BaseDirectoryRequest::Rewind);
    assert!(matches!(outcome, DirectoryOutcome::Respond(Status::Okay)));
    let (outcome, _) = conn.handle_request(BaseDirectoryRequest::ReadDirents { max_bytes: 64 });
    match outcome {
        DirectoryOutcome::ReadDirents { pos, .. } => assert_eq!(pos, TraversalPosition::Start),
        _ => panic!("expected an enumeration instruction"),
    }
}

#[test]
fn open_rejects_root_and_empty() {
    let mut conn = new_base(OPEN_RIGHT_READABLE);
    for path in [b"".to_vec(), b"/".to_vec()] {
        let (outcome, state) = conn.handle_request(BaseDirectoryRequest::Open {
            flags: OPEN_RIGHT_READABLE | OPEN_FLAG_DESCRIBE,
            mode: 0,
            path,
        });
        match outcome {
            DirectoryOutcome::OpenError { status, describe } => {
                assert_eq!(status, Status::BadPath);
                assert!(describe);
            }
            _ => panic!("expected an error on the new channel"),
        }
        assert!(matches!(state, ConnectionState::Alive));
    }
}

#[test]
fn open_self_path_clones() {
    let mut conn = new_base(OPEN_RIGHT_READABLE | OPEN_RIGHT_WRITABLE);
    for path in [b".".to_vec(), b"./".to_vec()] {
        let (outcome, _) = conn.handle_request(BaseDirectoryRequest::Open {
            flags: OPEN_RIGHT_READABLE,
            mode: 0,
            path,
        });
        match outcome {
            DirectoryOutcome::CreateConnection { flags, mode } => {
                assert_eq!(flags, OPEN_RIGHT_READABLE);
                assert_eq!(mode, 0);
            }
            _ => panic!("expected a sibling connection"),
        }
    }
}

#[test]
fn open_delegates_to_child() {
    let mut conn = new_base(OPEN_RIGHT_READABLE | OPEN_RIGHT_WRITABLE);
    let (outcome, _) = conn.handle_request(BaseDirectoryRequest::Open {
        flags: OPEN_RIGHT_READABLE,
        mode: 0,
        path: b"etc/".to_vec(),
    });
    match outcome {
        DirectoryOutcome::OpenChild { flags, mode, path } => {
            assert_eq!(flags, OPEN_RIGHT_READABLE);
            // A trailing slash insists on a directory, which the mode now
            // records.
            assert_eq!(mode, MODE_TYPE_DIRECTORY);
            assert!(path.is_dir());
            assert_eq!(path.into_bytes(), b"etc/".to_vec());
        }
        _ => panic!("expected the open to be delegated"),
    }
}

#[test]
fn open_narrows_rights() {
    // A child must not receive more rights than the connection holds.
    let mut conn = new_base(OPEN_RIGHT_READABLE);
    let (outcome, _) = conn.handle_request(BaseDirectoryRequest::Open {
        flags: OPEN_RIGHT_READABLE | OPEN_RIGHT_WRITABLE,
        mode: 0,
        path: b"etc".to_vec(),
    });
    match outcome {
        DirectoryOutcome::OpenError { status, describe } => {
            assert_eq!(status, Status::AccessDenied);
            assert!(!describe);
        }
        _ => panic!("expected an error on the new channel"),
    }
    // Creating needs a writable connection.
    let (outcome, _) = conn.handle_request(BaseDirectoryRequest::Open {
        flags: OPEN_RIGHT_READABLE | OPEN_FLAG_CREATE,
        mode: 0,
        path: b"etc".to_vec(),
    });
    assert!(matches!(
        outcome,
        DirectoryOutcome::OpenError { status: Status::AccessDenied, .. }
    ));
}

#[test]
fn open_rejects_dot_dot() {
    let mut conn = new_base(OPEN_RIGHT_READABLE);
    let (outcome, _) = conn.handle_request(BaseDirectoryRequest::Open {
        flags: OPEN_RIGHT_READABLE,
        mode: 0,
        path: b"a/../b".to_vec(),
    });
    assert!(matches!(
        outcome,
        DirectoryOutcome::OpenError { status: Status::InvalidArgs, .. }
    ));
}

#[test]
fn clone_with_same_rights_copies_rights() {
    let mut conn = new_base(OPEN_RIGHT_READABLE | OPEN_RIGHT_WRITABLE);
    let (outcome, _) = conn.handle_request(BaseDirectoryRequest::CloneConnection {
        flags: CLONE_FLAG_SAME_RIGHTS,
    });
    match outcome {
        DirectoryOutcome::CreateConnection { flags, mode } => {
            assert_eq!(flags, OPEN_RIGHT_READABLE | OPEN_RIGHT_WRITABLE);
            assert_eq!(mode, 0);
        }
        _ => panic!("expected a sibling connection"),
    }
    // Same-rights together with explicit rights is contradictory.
    let (outcome, _) = conn.handle_request(BaseDirectoryRequest::CloneConnection {
        flags: CLONE_FLAG_SAME_RIGHTS | OPEN_RIGHT_READABLE,
    });
    assert!(matches!(
        outcome,
        DirectoryOutcome::OpenError { status: Status::InvalidArgs, .. }
    ));
    // Explicit rights must stay within the connection's.
    let (outcome, _) = conn.handle_request(BaseDirectoryRequest::CloneConnection {
        flags: OPEN_RIGHT_READABLE | OPEN_RIGHT_EXECUTABLE,
    });
    assert!(matches!(
        outcome,
        DirectoryOutcome::OpenError { status: Status::AccessDenied, .. }
    ));
}

#[test]
fn watch_rejects_options() {
    let mut conn = new_base(OPEN_RIGHT_READABLE);
    let (outcome, _) = conn.handle_request(BaseDirectoryRequest::Watch { mask: 3, options: 1 });
    assert!(matches!(outcome, DirectoryOutcome::Respond(Status::InvalidArgs)));
    let (outcome, _) = conn.handle_request(BaseDirectoryRequest::Watch { mask: 3, options: 0 });
    match outcome {
        DirectoryOutcome::RegisterWatcher { mask } => assert_eq!(mask, 3),
        _ => panic!("expected a watcher registration"),
    }
}

#[test]
fn link_steps() {
    // Without a registry, Link is unsupported.
    let mut conn = BaseConnection::new(ExecutionScope::new(), OPEN_RIGHT_WRITABLE);
    let (outcome, _) = conn.handle_request(BaseDirectoryRequest::Link {
        src: b"src".to_vec(),
        dst_parent_token: 7,
        dst: b"dest".to_vec(),
    });
    assert!(matches!(outcome, DirectoryOutcome::Respond(Status::NotSupported)));

    // With one, the source entry is looked up first.
    let mut conn = new_base(OPEN_RIGHT_WRITABLE);
    let (outcome, _) = conn.handle_request(BaseDirectoryRequest::Link {
        src: b"src".to_vec(),
        dst_parent_token: 7,
        dst: b"dest".to_vec(),
    });
    match outcome {
        DirectoryOutcome::LookupLinkSource { src, token, dst } => {
            assert_eq!(src, b"src".to_vec());
            assert_eq!(token, 7);
            assert_eq!(dst, b"dest".to_vec());
        }
        _ => panic!("expected a source lookup"),
    }

    // A missing source is the reply; a non-linkable one is not a file.
    assert!(matches!(
        link_after_get_entry(Err(Status::NotFound), 7, b"dest".to_vec()),
        LinkStep::Respond(Status::NotFound)
    ));
    assert!(matches!(
        link_after_get_entry(Ok(false), 7, b"dest".to_vec()),
        LinkStep::Respond(Status::NotFile)
    ));
    match link_after_get_entry(Ok(true), 7, b"dest".to_vec()) {
        LinkStep::LookupContainer { token, dst } => {
            assert_eq!(token, 7);
            assert_eq!(dst, b"dest".to_vec());
        }
        _ => panic!("expected a container lookup"),
    }

    // An unknown token is not found; a known one receives the link.
    assert!(matches!(
        link_after_lookup_container(Ok(None), b"dest".to_vec()),
        LinkStep::Respond(Status::NotFound)
    ));
    match link_after_lookup_container(Ok(Some(11)), b"dest".to_vec()) {
        LinkStep::DoLink { dir, dst } => {
            assert_eq!(dir, 11);
            assert_eq!(dst, b"dest".to_vec());
        }
        _ => panic!("expected the link itself"),
    }
    assert_eq!(link_finish(Ok(())), Status::Okay);
    assert_eq!(link_finish(Err(Status::AccessDenied)), Status::AccessDenied);
}

#[test]
fn immutable_connection_rejects_mutations() {
    let (mut conn, describe) = ImmutableConnection::create_connection(
        ExecutionScope::new(),
        OPEN_RIGHT_READABLE | OPEN_RIGHT_WRITABLE,
    )
    .expect("create_connection failed");
    assert!(!describe);
    let (outcome, state) = conn.handle_request(DirectoryRequest::Unlink { path: b"a".to_vec() });
    assert!(matches!(outcome, DirectoryOutcome::Respond(Status::NotSupported)));
    assert!(matches!(state, ConnectionState::Alive));
    let (outcome, _) = conn.handle_request(DirectoryRequest::GetToken);
    assert!(matches!(outcome, DirectoryOutcome::Respond(Status::NotSupported)));
}

#[test]
fn immutable_entry_not_found() {
    assert_eq!(ImmutableConnection::entry_not_found(0), Status::NotFound);
    assert_eq!(ImmutableConnection::entry_not_found(OPEN_FLAG_CREATE), Status::NotSupported);
}
