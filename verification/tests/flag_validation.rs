//! Validation of directory connection flags and child-connection flags.

use vfs::directory::{check_child_connection_flags, new_connection_validate_flags};
use vfs::flags::{
    CLONE_FLAG_SAME_RIGHTS, MODE_TYPE_DIRECTORY, MODE_TYPE_FILE, OPEN_FLAG_APPEND,
    OPEN_FLAG_CREATE, OPEN_FLAG_CREATE_IF_ABSENT, OPEN_FLAG_DESCRIBE, OPEN_FLAG_DIRECTORY,
    OPEN_FLAG_NODE_REFERENCE, OPEN_FLAG_NOT_DIRECTORY, OPEN_FLAG_POSIX_DEPRECATED,
    OPEN_FLAG_POSIX_EXECUTABLE, OPEN_FLAG_POSIX_WRITABLE, OPEN_FLAG_TRUNCATE,
    OPEN_RIGHT_EXECUTABLE, OPEN_RIGHT_READABLE, OPEN_RIGHT_WRITABLE,
};
use vfs::status::Status;

/// All flag words that hold `constant_flags` plus any subset of the bits
/// of `variable_flags`.
fn build_flag_combinations(constant_flags: u32, variable_flags: u32) -> Vec<u32> {
    let mut combinations = vec![constant_flags];
    for bit_index in 0..32 {
        let bit = 1u32 << bit_index;
        if variable_flags & bit != 0 {
            let current = combinations.len();
            for i in 0..current {
                combinations.push(combinations[i] | bit);
            }
        }
    }
    combinations
}

fn ncvf_ok(flags: u32, expected_new_flags: u32) {
    let res = new_connection_validate_flags(flags);
    match res {
        Ok(new_flags) => assert_eq!(
            expected_new_flags, new_flags,
            "new_connection_validate_flags returned unexpected set of flags.\n\
                    Expected: {:X}\n\
                    Actual: {:X}",
            expected_new_flags, new_flags
        ),
        Err(status) => panic!("new_connection_validate_flags failed.  Status: {:?}", status),
    }
}

fn ncvf_err(flags: u32, expected_status: Status) {
    let res = new_connection_validate_flags(flags);
    match res {
        Ok(new_flags) => panic!(
            "new_connection_validate_flags should have failed.  \
                    Got new flags: {:X}",
            new_flags
        ),
        Err(status) => assert_eq!(expected_status, status),
    }
}

#[test]
fn new_connection_validate_flags_node_reference() {
    // OPEN_FLAG_NODE_REFERENCE and OPEN_FLAG_DESCRIBE should be preserved.
    const PRESERVED_FLAGS: u32 = OPEN_FLAG_NODE_REFERENCE | OPEN_FLAG_DESCRIBE;
    for open_flags in build_flag_combinations(
        OPEN_FLAG_NODE_REFERENCE,
        OPEN_RIGHT_READABLE | OPEN_RIGHT_WRITABLE | OPEN_FLAG_DESCRIBE | OPEN_FLAG_DIRECTORY,
    ) {
        ncvf_ok(open_flags, open_flags & PRESERVED_FLAGS);
    }

    ncvf_err(OPEN_FLAG_NODE_REFERENCE | OPEN_FLAG_NOT_DIRECTORY, Status::NotFile);
}

#[test]
fn new_connection_validate_flags_posix() {
    for open_flags in build_flag_combinations(
        0,
        OPEN_RIGHT_READABLE
            | OPEN_FLAG_POSIX_DEPRECATED
            | OPEN_FLAG_POSIX_EXECUTABLE
            | OPEN_FLAG_POSIX_WRITABLE,
    ) {
        let mut expected_rights = open_flags & OPEN_RIGHT_READABLE;
        if (open_flags & OPEN_FLAG_POSIX_DEPRECATED) != 0 {
            expected_rights |= OPEN_RIGHT_WRITABLE | OPEN_RIGHT_EXECUTABLE;
        }
        if (open_flags & OPEN_FLAG_POSIX_WRITABLE) != 0 {
            expected_rights |= OPEN_RIGHT_WRITABLE
        }
        if (open_flags & OPEN_FLAG_POSIX_EXECUTABLE) != 0 {
            expected_rights |= OPEN_RIGHT_EXECUTABLE
        }
        ncvf_ok(open_flags, expected_rights);
    }
}

#[test]
fn new_connection_validate_flags_create() {
    for open_flags in build_flag_combinations(
        OPEN_FLAG_CREATE,
        OPEN_RIGHT_READABLE | OPEN_RIGHT_WRITABLE | OPEN_FLAG_CREATE_IF_ABSENT,
    ) {
        ncvf_ok(open_flags, open_flags);
    }
}

#[test]
fn new_connection_validate_flags_append() {
    ncvf_err(OPEN_RIGHT_WRITABLE | OPEN_FLAG_APPEND, Status::InvalidArgs);
}

#[test]
fn new_connection_validate_flags_truncate() {
    ncvf_err(OPEN_RIGHT_WRITABLE | OPEN_FLAG_TRUNCATE, Status::InvalidArgs);
}

#[test]
fn check_child_connection_flags_create_flags() {
    assert!(check_child_connection_flags(OPEN_RIGHT_WRITABLE, OPEN_FLAG_CREATE, 0).is_ok());
    assert!(check_child_connection_flags(
        OPEN_RIGHT_WRITABLE,
        OPEN_FLAG_CREATE | OPEN_FLAG_CREATE_IF_ABSENT,
        0
    )
    .is_ok());

    assert_eq!(
        check_child_connection_flags(0, OPEN_FLAG_CREATE, 0),
        Err(Status::AccessDenied),
    );
    assert_eq!(
        check_child_connection_flags(0, OPEN_FLAG_CREATE | OPEN_FLAG_CREATE_IF_ABSENT, 0),
        Err(Status::AccessDenied),
    );

    // Need to specify OPEN_FLAG_CREATE if passing OPEN_FLAG_CREATE_IF_ABSENT.
    assert_eq!(
        check_child_connection_flags(OPEN_RIGHT_WRITABLE, OPEN_FLAG_CREATE_IF_ABSENT, 0),
        Err(Status::InvalidArgs),
    );
}

#[test]
fn check_child_connection_flags_mode() {
    // If mode is 0 but we specify OPEN_FLAG_DIRECTORY, ensure the resulting mode is correct.
    assert_eq!(
        check_child_connection_flags(0, OPEN_FLAG_DIRECTORY, 0)
            .expect("check_child_connection_flags failed")
            .1,
        MODE_TYPE_DIRECTORY
    );

    // Ensure that ambiguous flags/mode types are handled correctly.
    assert_eq!(
        check_child_connection_flags(0, OPEN_FLAG_NOT_DIRECTORY, MODE_TYPE_DIRECTORY),
        Err(Status::InvalidArgs),
    );
    assert_eq!(
        check_child_connection_flags(0, OPEN_FLAG_DIRECTORY, MODE_TYPE_FILE),
        Err(Status::InvalidArgs),
    );
}

#[test]
fn check_child_connection_flags_invalid() {
    // Cannot specify both OPEN_FLAG_DIRECTORY and OPEN_FLAG_NOT_DIRECTORY.
    assert_eq!(
        check_child_connection_flags(0, OPEN_FLAG_DIRECTORY | OPEN_FLAG_NOT_DIRECTORY, 0),
        Err(Status::InvalidArgs),
    );

    // Cannot specify CLONE_FLAG_SAME_RIGHTS when opening a resource (only permitted via clone).
    assert_eq!(
        check_child_connection_flags(0, CLONE_FLAG_SAME_RIGHTS, 0),
        Err(Status::InvalidArgs),
    );
}
