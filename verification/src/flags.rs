//! Open-request flags, connection rights, and rights inheritance.
//!
//! A connection's flags combine *rights* (readable, writable, executable),
//! mode modifiers (create, append, truncate, ...) and clone modifiers
//! (same-rights).  The invariant enforced at every open and clone boundary
//! is that rights only ever narrow: a child connection's rights are a
//! subset of the rights of the connection that opened it.

use vstd::prelude::*;

use crate::status::Status;

verus! {

pub const OPEN_RIGHT_READABLE: u32 = 0x1;
pub const OPEN_RIGHT_WRITABLE: u32 = 0x2;
pub const OPEN_RIGHT_EXECUTABLE: u32 = 0x8;

pub const OPEN_FLAG_CREATE: u32 = 0x10000;
pub const OPEN_FLAG_CREATE_IF_ABSENT: u32 = 0x20000;
pub const OPEN_FLAG_TRUNCATE: u32 = 0x40000;
pub const OPEN_FLAG_DIRECTORY: u32 = 0x80000;
pub const OPEN_FLAG_APPEND: u32 = 0x100000;
pub const OPEN_FLAG_NO_REMOTE: u32 = 0x200000;
pub const OPEN_FLAG_NODE_REFERENCE: u32 = 0x400000;
pub const OPEN_FLAG_DESCRIBE: u32 = 0x800000;
pub const OPEN_FLAG_POSIX_DEPRECATED: u32 = 0x1000000;
pub const OPEN_FLAG_NOT_DIRECTORY: u32 = 0x2000000;
pub const CLONE_FLAG_SAME_RIGHTS: u32 = 0x4000000;
pub const OPEN_FLAG_POSIX_WRITABLE: u32 = 0x8000000;
pub const OPEN_FLAG_POSIX_EXECUTABLE: u32 = 0x10000000;

/// The rights bits of a flag word.
pub const OPEN_RIGHTS: u32 = OPEN_RIGHT_READABLE | OPEN_RIGHT_WRITABLE | OPEN_RIGHT_EXECUTABLE;

/// The flags a node-reference connection may keep.
pub const OPEN_FLAGS_ALLOWED_WITH_NODE_REFERENCE: u32 = OPEN_FLAG_DIRECTORY
    | OPEN_FLAG_NOT_DIRECTORY | OPEN_FLAG_DESCRIBE | OPEN_FLAG_NODE_REFERENCE;

/// The flags reported back by a GetFlags request: the rights, the append
/// mode, and whether this is a node-reference connection.  Open-time-only
/// modifiers such as truncate never persist past connection creation.
pub const GET_FLAGS_VISIBLE: u32 = OPEN_RIGHTS | OPEN_FLAG_APPEND | OPEN_FLAG_NODE_REFERENCE;

pub const MODE_TYPE_MASK: u32 = 0xFF000;
pub const MODE_TYPE_DIRECTORY: u32 = 0x4000;
pub const MODE_TYPE_BLOCK_DEVICE: u32 = 0x6000;
pub const MODE_TYPE_FILE: u32 = 0x8000;
pub const MODE_TYPE_SOCKET: u32 = 0xC000;
pub const MODE_TYPE_SERVICE: u32 = 0x10000;

/// The rights bits of `flags`.
pub open spec fn spec_rights(flags: u32) -> u32 {
    flags & OPEN_RIGHTS
}

/// True when the rights requested by `flags` are a subset of the rights
/// held by `parent_flags`.
pub open spec fn spec_stricter_or_same_rights(parent_flags: u32, flags: u32) -> bool {
    spec_rights(flags) & !spec_rights(parent_flags) == 0
}

/// Checks that `flags` asks for no right that `parent_flags` does not hold.
pub fn stricter_or_same_rights(parent_flags: u32, flags: u32) -> (r: bool)
    ensures
        r == spec_stricter_or_same_rights(parent_flags, flags),
{
    (flags & OPEN_RIGHTS) & !(parent_flags & OPEN_RIGHTS) == 0
}

/// The flags a cloned connection receives, given the flags of the
/// connection being cloned and the flags of the clone request.
pub open spec fn spec_inherit_rights_for_clone(parent_flags: u32, flags: u32) -> Result<
    u32,
    Status,
> {
    if flags & CLONE_FLAG_SAME_RIGHTS != 0 && flags & OPEN_RIGHTS != 0 {
        Err(Status::InvalidArgs)
    } else {
        let f = if flags & CLONE_FLAG_SAME_RIGHTS != 0 {
            (flags & !CLONE_FLAG_SAME_RIGHTS) | (parent_flags & OPEN_RIGHTS)
        } else {
            flags
        };
        if spec_stricter_or_same_rights(parent_flags, f) {
            Ok(f)
        } else {
            Err(Status::AccessDenied)
        }
    }
}

/// Computes the flags of a cloned connection.  A same-rights request must
/// not name explicit rights; with same-rights set the clone copies the
/// parent's rights exactly, and explicit rights must be a subset of the
/// parent's.
pub fn inherit_rights_for_clone(parent_flags: u32, flags: u32) -> (r: Result<u32, Status>)
    ensures
        r == spec_inherit_rights_for_clone(parent_flags, flags),
{
    if flags & CLONE_FLAG_SAME_RIGHTS != 0 && flags & OPEN_RIGHTS != 0 {
        return Err(Status::InvalidArgs);
    }
    let f: u32 = if flags & CLONE_FLAG_SAME_RIGHTS != 0 {
        (flags & !CLONE_FLAG_SAME_RIGHTS) | (parent_flags & OPEN_RIGHTS)
    } else {
        flags
    };
    if stricter_or_same_rights(parent_flags, f) {
        Ok(f)
    } else {
        Err(Status::AccessDenied)
    }
}

/// Rights never escalate across a clone: whatever flags a clone request
/// carries, the flags it is granted hold no right beyond the parent's.
pub proof fn lemma_clone_rights_narrow(parent_flags: u32, flags: u32)
    ensures
        spec_inherit_rights_for_clone(parent_flags, flags) matches Ok(f) ==> spec_rights(f)
            & !spec_rights(parent_flags) == 0,
{
}

} // verus!
