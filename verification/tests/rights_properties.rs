//! Concrete sweeps of the rights-narrowing and idempotence laws that the
//! library states over all inputs.

use vfs::directory::{check_child_connection_flags, new_connection_validate_flags};
use vfs::flags::{
    inherit_rights_for_clone, CLONE_FLAG_SAME_RIGHTS, MODE_TYPE_DIRECTORY, OPEN_FLAG_CREATE,
    OPEN_FLAG_CREATE_IF_ABSENT, OPEN_FLAG_DESCRIBE, OPEN_FLAG_DIRECTORY, OPEN_FLAG_NODE_REFERENCE,
    OPEN_FLAG_NOT_DIRECTORY, OPEN_FLAG_POSIX_DEPRECATED, OPEN_FLAG_POSIX_EXECUTABLE,
    OPEN_FLAG_POSIX_WRITABLE, OPEN_RIGHTS, OPEN_RIGHT_EXECUTABLE, OPEN_RIGHT_READABLE,
    OPEN_RIGHT_WRITABLE,
};

fn interesting_flag_words() -> Vec<u32> {
    let bits = [
        OPEN_RIGHT_READABLE,
        OPEN_RIGHT_WRITABLE,
        OPEN_RIGHT_EXECUTABLE,
        OPEN_FLAG_CREATE,
        OPEN_FLAG_CREATE_IF_ABSENT,
        OPEN_FLAG_DIRECTORY,
        OPEN_FLAG_NOT_DIRECTORY,
        OPEN_FLAG_NODE_REFERENCE,
        OPEN_FLAG_DESCRIBE,
        OPEN_FLAG_POSIX_DEPRECATED,
        OPEN_FLAG_POSIX_WRITABLE,
        OPEN_FLAG_POSIX_EXECUTABLE,
        CLONE_FLAG_SAME_RIGHTS,
    ];
    // All pairs and triples of the interesting bits, and each alone.
    let mut words = vec![0u32];
    for (i, a) in bits.iter().enumerate() {
        words.push(*a);
        for (j, b) in bits.iter().enumerate() {
            if j > i {
                words.push(a | b);
                for (k, c) in bits.iter().enumerate() {
                    if k > j {
                        words.push(a | b | c);
                    }
                }
            }
        }
    }
    words
}

#[test]
fn child_connection_rights_never_escalate() {
    // Whatever flags and mode a child request carries, the flags granted
    // hold no right beyond the parent connection's.
    for parent in [
        0,
        OPEN_RIGHT_READABLE,
        OPEN_RIGHT_WRITABLE,
        OPEN_RIGHT_READABLE | OPEN_RIGHT_WRITABLE,
        OPEN_RIGHT_READABLE | OPEN_RIGHT_WRITABLE | OPEN_RIGHT_EXECUTABLE,
    ] {
        for flags in interesting_flag_words() {
            for mode in [0, MODE_TYPE_DIRECTORY] {
                if let Ok((granted, _mode)) = check_child_connection_flags(parent, flags, mode) {
                    assert_eq!(
                        granted & OPEN_RIGHTS & !(parent & OPEN_RIGHTS),
                        0,
                        "rights escalated: parent {:X}, requested {:X}, granted {:X}",
                        parent,
                        flags,
                        granted
                    );
                }
            }
        }
    }
}

#[test]
fn clone_rights_never_escalate() {
    for parent in [0, OPEN_RIGHT_READABLE, OPEN_RIGHT_READABLE | OPEN_RIGHT_WRITABLE] {
        for flags in interesting_flag_words() {
            if let Ok(granted) = inherit_rights_for_clone(parent, flags) {
                assert_eq!(granted & OPEN_RIGHTS & !(parent & OPEN_RIGHTS), 0);
            }
        }
    }
}

#[test]
fn validate_flags_idempotent() {
    // Re-validating an already-validated flag word returns it unchanged.
    for flags in interesting_flag_words() {
        if let Ok(validated) = new_connection_validate_flags(flags) {
            assert_eq!(
                new_connection_validate_flags(validated),
                Ok(validated),
                "validation not idempotent on {:X}",
                flags
            );
        }
    }
}
