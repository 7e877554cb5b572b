//! Validation of directory connection flags and of the flags handed to
//! child connections.
//!
//! `new_connection_validate_flags` normalizes the flags of a request to
//! open a directory itself; `check_child_connection_flags` guards the
//! boundary between a directory connection and anything opened through it,
//! enforcing that rights only narrow.

use vstd::prelude::*;

use crate::flags::{
    spec_rights, spec_stricter_or_same_rights, stricter_or_same_rights, CLONE_FLAG_SAME_RIGHTS,
    MODE_TYPE_DIRECTORY, MODE_TYPE_MASK, OPEN_FLAGS_ALLOWED_WITH_NODE_REFERENCE, OPEN_FLAG_APPEND,
    OPEN_FLAG_CREATE, OPEN_FLAG_CREATE_IF_ABSENT, OPEN_FLAG_DESCRIBE, OPEN_FLAG_DIRECTORY,
    OPEN_FLAG_NODE_REFERENCE, OPEN_FLAG_NOT_DIRECTORY, OPEN_FLAG_POSIX_DEPRECATED,
    OPEN_FLAG_POSIX_EXECUTABLE, OPEN_FLAG_POSIX_WRITABLE, OPEN_FLAG_TRUNCATE, OPEN_RIGHT_EXECUTABLE,
    OPEN_RIGHT_READABLE, OPEN_RIGHT_WRITABLE,
};
use crate::status::Status;

verus! {

/// Flags acceptable on a new directory connection.
pub const DIRECTORY_ALLOWED_FLAGS: u32 = OPEN_FLAG_NODE_REFERENCE | OPEN_FLAG_DESCRIBE
    | OPEN_FLAG_CREATE | OPEN_FLAG_CREATE_IF_ABSENT | OPEN_FLAG_DIRECTORY | OPEN_RIGHT_READABLE
    | OPEN_RIGHT_WRITABLE | OPEN_RIGHT_EXECUTABLE;

/// Flags that are only meaningful when operating on a file, and are
/// rejected at directory-connection-create time.
pub const DIRECTORY_PROHIBITED_FLAGS: u32 = OPEN_FLAG_APPEND | OPEN_FLAG_TRUNCATE;

/// Step one of normalization: a node-reference request keeps only the
/// flags that make sense without opening the node's protocol.
pub open spec fn spec_node_reference_mask(flags: u32) -> u32 {
    if flags & OPEN_FLAG_NODE_REFERENCE != 0 {
        flags & OPEN_FLAGS_ALLOWED_WITH_NODE_REFERENCE
    } else {
        flags
    }
}

/// Step two: the directory bit is informational once the request reached a
/// directory, and is cleared.
pub open spec fn spec_clear_directory_flag(flags: u32) -> u32 {
    if flags & OPEN_FLAG_DIRECTORY != 0 {
        flags & !OPEN_FLAG_DIRECTORY
    } else {
        flags
    }
}

/// Step three: the deprecated posix flag expands to both modern posix
/// flags, any posix flag expands to the right it requests, and all posix
/// flags are then removed.
pub open spec fn spec_expand_posix_flags(flags: u32) -> u32 {
    let f1 = if flags & OPEN_FLAG_POSIX_DEPRECATED != 0 {
        flags | OPEN_FLAG_POSIX_WRITABLE | OPEN_FLAG_POSIX_EXECUTABLE
    } else {
        flags
    };
    let f2 = if f1 & (OPEN_FLAG_POSIX_DEPRECATED | OPEN_FLAG_POSIX_EXECUTABLE) != 0 {
        f1 | OPEN_RIGHT_EXECUTABLE
    } else {
        f1
    };
    let f3 = if f2 & (OPEN_FLAG_POSIX_DEPRECATED | OPEN_FLAG_POSIX_WRITABLE) != 0 {
        f2 | OPEN_RIGHT_WRITABLE
    } else {
        f2
    };
    f3 & !(OPEN_FLAG_POSIX_DEPRECATED | OPEN_FLAG_POSIX_WRITABLE | OPEN_FLAG_POSIX_EXECUTABLE)
}

/// What `new_connection_validate_flags` returns, for every input.
pub open spec fn spec_new_connection_validate_flags(flags: u32) -> Result<u32, Status> {
    let f = spec_clear_directory_flag(spec_node_reference_mask(flags));
    if f & OPEN_FLAG_NOT_DIRECTORY != 0 {
        Err(Status::NotFile)
    } else {
        let g = spec_expand_posix_flags(f);
        if g & DIRECTORY_PROHIBITED_FLAGS != 0 {
            Err(Status::InvalidArgs)
        } else if g & !DIRECTORY_ALLOWED_FLAGS != 0 {
            Err(Status::NotSupported)
        } else {
            Ok(g)
        }
    }
}

/// Checks the flags of a request for a new directory connection and
/// returns them normalized: a node-reference request is stripped to its
/// allow-list, the directory bit is cleared, posix flags become requested
/// rights, append and truncate are rejected as file-only, and anything
/// outside the allow-list is unsupported.
pub fn new_connection_validate_flags(flags: u32) -> (r: Result<u32, Status>)
    ensures
        r == spec_new_connection_validate_flags(flags),
{
    let mut flags = flags;
    if flags & OPEN_FLAG_NODE_REFERENCE != 0 {
        flags = flags & OPEN_FLAGS_ALLOWED_WITH_NODE_REFERENCE;
    }
    if flags & OPEN_FLAG_DIRECTORY != 0 {
        flags = flags & !OPEN_FLAG_DIRECTORY;
    }
    if flags & OPEN_FLAG_NOT_DIRECTORY != 0 {
        return Err(Status::NotFile);
    }
    if flags & OPEN_FLAG_POSIX_DEPRECATED != 0 {
        flags = flags | OPEN_FLAG_POSIX_WRITABLE | OPEN_FLAG_POSIX_EXECUTABLE;
    }
    if flags & (OPEN_FLAG_POSIX_DEPRECATED | OPEN_FLAG_POSIX_EXECUTABLE) != 0 {
        flags = flags | OPEN_RIGHT_EXECUTABLE;
    }
    if flags & (OPEN_FLAG_POSIX_DEPRECATED | OPEN_FLAG_POSIX_WRITABLE) != 0 {
        flags = flags | OPEN_RIGHT_WRITABLE;
    }
    flags = flags & !(OPEN_FLAG_POSIX_DEPRECATED | OPEN_FLAG_POSIX_WRITABLE
        | OPEN_FLAG_POSIX_EXECUTABLE);
    if flags & DIRECTORY_PROHIBITED_FLAGS != 0 {
        return Err(Status::InvalidArgs);
    }
    if flags & !DIRECTORY_ALLOWED_FLAGS != 0 {
        return Err(Status::NotSupported);
    }
    Ok(flags)
}

/// Validating an already-validated flag word changes nothing: whatever
/// `new_connection_validate_flags` accepts, it accepts again, unchanged.
pub proof fn lemma_validate_flags_idempotent(flags: u32)
    ensures
        spec_new_connection_validate_flags(flags) matches Ok(g)
            ==> spec_new_connection_validate_flags(g) == Ok::<u32, Status>(g),
{
    if spec_new_connection_validate_flags(flags) matches Ok(g) {
        assert({
            let f = spec_clear_directory_flag(spec_node_reference_mask(flags));
            let g2 = spec_expand_posix_flags(f);
            (f & OPEN_FLAG_NOT_DIRECTORY == 0 && g2 & DIRECTORY_PROHIBITED_FLAGS == 0 && g2
                & !DIRECTORY_ALLOWED_FLAGS == 0) ==> {
                let h = spec_clear_directory_flag(spec_node_reference_mask(g2));
                &&& h == g2
                &&& h & OPEN_FLAG_NOT_DIRECTORY == 0
                &&& spec_expand_posix_flags(h) == g2
                &&& g2 & DIRECTORY_PROHIBITED_FLAGS == 0
                &&& g2 & !DIRECTORY_ALLOWED_FLAGS == 0
            }
        }) by (bit_vector);
    }
}

/// What `check_child_connection_flags` returns, for every input.
pub open spec fn spec_check_child_connection_flags(parent_flags: u32, flags: u32, mode: u32)
    -> Result<(u32, u32), Status> {
    let mode_type = mode & MODE_TYPE_MASK;
    let mode2 = if mode_type == 0 && flags & OPEN_FLAG_DIRECTORY != 0 {
        mode | MODE_TYPE_DIRECTORY
    } else {
        mode
    };
    if mode_type != 0 && flags & OPEN_FLAG_DIRECTORY != 0 && mode_type != MODE_TYPE_DIRECTORY {
        Err(Status::InvalidArgs)
    } else if mode_type != 0 && flags & OPEN_FLAG_NOT_DIRECTORY != 0 && mode_type
        == MODE_TYPE_DIRECTORY {
        Err(Status::InvalidArgs)
    } else if flags & (OPEN_FLAG_NOT_DIRECTORY | OPEN_FLAG_DIRECTORY) == (OPEN_FLAG_NOT_DIRECTORY
        | OPEN_FLAG_DIRECTORY) {
        Err(Status::InvalidArgs)
    } else if flags & OPEN_FLAG_CREATE_IF_ABSENT != 0 && flags & OPEN_FLAG_CREATE == 0 {
        Err(Status::InvalidArgs)
    } else if flags & CLONE_FLAG_SAME_RIGHTS != 0 {
        Err(Status::InvalidArgs)
    } else {
        let f1 = if flags & OPEN_FLAG_POSIX_DEPRECATED != 0 {
            (flags | OPEN_FLAG_POSIX_WRITABLE | OPEN_FLAG_POSIX_EXECUTABLE)
                & !OPEN_FLAG_POSIX_DEPRECATED
        } else {
            flags
        };
        let f2 = if parent_flags & OPEN_RIGHT_EXECUTABLE == 0 {
            f1 & !OPEN_FLAG_POSIX_EXECUTABLE
        } else {
            f1
        };
        let f3 = if parent_flags & OPEN_RIGHT_WRITABLE == 0 {
            f2 & !OPEN_FLAG_POSIX_WRITABLE
        } else {
            f2
        };
        if f3 & OPEN_FLAG_CREATE != 0 && parent_flags & OPEN_RIGHT_WRITABLE == 0 {
            Err(Status::AccessDenied)
        } else if spec_stricter_or_same_rights(parent_flags, f3) {
            Ok((f3, mode2))
        } else {
            Err(Status::AccessDenied)
        }
    }
}

/// Checks the flags and mode of a request that a directory connection
/// makes on behalf of a client to open a child, against the directory
/// connection's own flags.  Directory/not-directory requests must agree
/// with the mode's type; create-if-absent needs create; same-rights is a
/// clone-only flag; posix flags are silently dropped where the parent
/// lacks the matching right; create needs a writable parent; and the
/// child's rights must be a subset of the parent's.
pub fn check_child_connection_flags(parent_flags: u32, flags: u32, mode: u32) -> (r: Result<
    (u32, u32),
    Status,
>)
    ensures
        r == spec_check_child_connection_flags(parent_flags, flags, mode),
{
    let mut flags = flags;
    let mut mode = mode;
    let mode_type = mode & MODE_TYPE_MASK;
    if mode_type == 0 {
        if flags & OPEN_FLAG_DIRECTORY != 0 {
            mode = mode | MODE_TYPE_DIRECTORY;
        }
    } else {
        if flags & OPEN_FLAG_DIRECTORY != 0 && mode_type != MODE_TYPE_DIRECTORY {
            return Err(Status::InvalidArgs);
        }
        if flags & OPEN_FLAG_NOT_DIRECTORY != 0 && mode_type == MODE_TYPE_DIRECTORY {
            return Err(Status::InvalidArgs);
        }
    }
    if flags & (OPEN_FLAG_NOT_DIRECTORY | OPEN_FLAG_DIRECTORY) == (OPEN_FLAG_NOT_DIRECTORY
        | OPEN_FLAG_DIRECTORY) {
        return Err(Status::InvalidArgs);
    }
    if flags & OPEN_FLAG_CREATE_IF_ABSENT != 0 && flags & OPEN_FLAG_CREATE == 0 {
        return Err(Status::InvalidArgs);
    }
    if flags & CLONE_FLAG_SAME_RIGHTS != 0 {
        return Err(Status::InvalidArgs);
    }
    if flags & OPEN_FLAG_POSIX_DEPRECATED != 0 {
        flags = (flags | OPEN_FLAG_POSIX_WRITABLE | OPEN_FLAG_POSIX_EXECUTABLE)
            & !OPEN_FLAG_POSIX_DEPRECATED;
    }
    if parent_flags & OPEN_RIGHT_EXECUTABLE == 0 {
        flags = flags & !OPEN_FLAG_POSIX_EXECUTABLE;
    }
    if parent_flags & OPEN_RIGHT_WRITABLE == 0 {
        flags = flags & !OPEN_FLAG_POSIX_WRITABLE;
    }
    if flags & OPEN_FLAG_CREATE != 0 && parent_flags & OPEN_RIGHT_WRITABLE == 0 {
        return Err(Status::AccessDenied);
    }
    if stricter_or_same_rights(parent_flags, flags) {
        Ok((flags, mode))
    } else {
        Err(Status::AccessDenied)
    }
}

/// Rights never escalate from a directory connection to a child: whatever
/// flags and mode a child request carries, the flags it is granted hold no
/// right beyond the parent connection's.
pub proof fn lemma_child_rights_narrow(parent_flags: u32, flags: u32, mode: u32)
    ensures
        spec_check_child_connection_flags(parent_flags, flags, mode) matches Ok(r)
            ==> spec_rights(r.0) & !spec_rights(parent_flags) == 0,
{
}

} // verus!
