//! The per-connection state machine for the file protocol.
//!
//! A file connection owns its flags and a 64-bit seek offset.  The seek
//! may point past the current end of the file; writing there extends the
//! file with zeroes, as POSIX sparse semantics allow.  Each request is
//! decided here: rights gates and seek arithmetic are pure, and every
//! touch of the backing file comes back as an instruction whose answer
//! the host feeds into a completion function.

use vstd::prelude::*;

use crate::connection::{ConnectionState, NodeAttributes};
use crate::entry::INO_UNKNOWN;
use crate::flags::{inherit_rights_for_clone, spec_inherit_rights_for_clone, GET_FLAGS_VISIBLE,
    OPEN_FLAGS_ALLOWED_WITH_NODE_REFERENCE, OPEN_FLAG_APPEND, OPEN_FLAG_DESCRIBE,
    OPEN_FLAG_DIRECTORY, OPEN_FLAG_NODE_REFERENCE, OPEN_FLAG_NOT_DIRECTORY,
    OPEN_FLAG_POSIX_DEPRECATED, OPEN_FLAG_POSIX_EXECUTABLE, OPEN_FLAG_POSIX_WRITABLE,
    OPEN_FLAG_TRUNCATE, OPEN_RIGHT_EXECUTABLE, OPEN_RIGHT_READABLE, OPEN_RIGHT_WRITABLE,
};
use crate::status::Status;

verus! {

/// The most bytes one read or write request may transfer.
pub const MAX_TRANSFER_SIZE: u64 = 8192;

pub const VMO_FLAG_READ: u32 = 0x1;
pub const VMO_FLAG_WRITE: u32 = 0x2;
pub const VMO_FLAG_EXEC: u32 = 0x4;
pub const VMO_FLAG_PRIVATE: u32 = 0x10000;
pub const VMO_FLAG_EXACT: u32 = 0x20000;

/// Flags acceptable on a new file connection.
pub const FILE_ALLOWED_FLAGS: u32 = OPEN_FLAG_NODE_REFERENCE | OPEN_FLAG_DESCRIBE
    | OPEN_FLAG_TRUNCATE | OPEN_FLAG_APPEND | OPEN_RIGHT_READABLE | OPEN_RIGHT_WRITABLE
    | OPEN_RIGHT_EXECUTABLE;

/// What `new_connection_validate_flags` returns for every input, given
/// which capabilities the backing file offers and whether append mode is
/// available.
pub open spec fn spec_file_validate_flags(
    flags: u32,
    readable: bool,
    writable: bool,
    executable: bool,
    append_allowed: bool,
) -> Result<u32, Status> {
    let node_ref = flags & OPEN_FLAG_NODE_REFERENCE != 0;
    let f1 = if node_ref {
        flags & OPEN_FLAGS_ALLOWED_WITH_NODE_REFERENCE
    } else {
        flags
    };
    if f1 & OPEN_FLAG_DIRECTORY != 0 {
        Err(Status::NotDir)
    } else {
        let f2 = (f1 & !OPEN_FLAG_NOT_DIRECTORY) & !(OPEN_FLAG_POSIX_DEPRECATED
            | OPEN_FLAG_POSIX_WRITABLE | OPEN_FLAG_POSIX_EXECUTABLE);
        if !node_ref && !readable && f2 & OPEN_RIGHT_READABLE != 0 {
            Err(Status::AccessDenied)
        } else if !node_ref && !writable && f2 & OPEN_RIGHT_WRITABLE != 0 {
            Err(Status::AccessDenied)
        } else if !node_ref && !executable && f2 & OPEN_RIGHT_EXECUTABLE != 0 {
            Err(Status::AccessDenied)
        } else if f2 & OPEN_FLAG_TRUNCATE != 0 && f2 & OPEN_RIGHT_WRITABLE == 0 {
            Err(Status::InvalidArgs)
        } else if !append_allowed && f2 & OPEN_FLAG_APPEND != 0 {
            Err(Status::InvalidArgs)
        } else if f2 & !FILE_ALLOWED_FLAGS != 0 {
            Err(Status::NotSupported)
        } else {
            Ok(f2)
        }
    }
}

/// Checks the flags of a request for a new file connection against the
/// capabilities of the backing file, and returns them normalized: a
/// node-reference request keeps only its allow-list; a directory demand
/// cannot be met by a file; the not-directory bit and posix flags are
/// informational here and cleared; a right the file cannot back is
/// denied; truncating needs the writable right; append must be available;
/// and anything outside the allow-list is unsupported.
pub fn new_connection_validate_flags(
    flags: u32,
    readable: bool,
    writable: bool,
    executable: bool,
    append_allowed: bool,
) -> (r: Result<u32, Status>)
    ensures
        r == spec_file_validate_flags(flags, readable, writable, executable, append_allowed),
{
    let node_ref = flags & OPEN_FLAG_NODE_REFERENCE != 0;
    let mut flags = flags;
    if node_ref {
        flags = flags & OPEN_FLAGS_ALLOWED_WITH_NODE_REFERENCE;
    }
    if flags & OPEN_FLAG_DIRECTORY != 0 {
        return Err(Status::NotDir);
    }
    flags = (flags & !OPEN_FLAG_NOT_DIRECTORY) & !(OPEN_FLAG_POSIX_DEPRECATED
        | OPEN_FLAG_POSIX_WRITABLE | OPEN_FLAG_POSIX_EXECUTABLE);
    if !node_ref && !readable && flags & OPEN_RIGHT_READABLE != 0 {
        return Err(Status::AccessDenied);
    }
    if !node_ref && !writable && flags & OPEN_RIGHT_WRITABLE != 0 {
        return Err(Status::AccessDenied);
    }
    if !node_ref && !executable && flags & OPEN_RIGHT_EXECUTABLE != 0 {
        return Err(Status::AccessDenied);
    }
    if flags & OPEN_FLAG_TRUNCATE != 0 && flags & OPEN_RIGHT_WRITABLE == 0 {
        return Err(Status::InvalidArgs);
    }
    if !append_allowed && flags & OPEN_FLAG_APPEND != 0 {
        return Err(Status::InvalidArgs);
    }
    if flags & !FILE_ALLOWED_FLAGS != 0 {
        return Err(Status::NotSupported);
    }
    Ok(flags)
}

/// Which backing-memory requests a connection's rights allow: asking for
/// both an exact and a private copy is contradictory, and each requested
/// capability of the memory needs the matching right on the connection.
pub open spec fn spec_get_buffer_validate_flags(vmo_flags: u32, conn_flags: u32) -> Result<
    (),
    Status,
> {
    if vmo_flags & VMO_FLAG_EXACT != 0 && vmo_flags & VMO_FLAG_PRIVATE != 0 {
        Err(Status::InvalidArgs)
    } else if vmo_flags & VMO_FLAG_READ != 0 && conn_flags & OPEN_RIGHT_READABLE == 0 {
        Err(Status::AccessDenied)
    } else if vmo_flags & VMO_FLAG_WRITE != 0 && conn_flags & OPEN_RIGHT_WRITABLE == 0 {
        Err(Status::AccessDenied)
    } else if vmo_flags & VMO_FLAG_EXEC != 0 && conn_flags & OPEN_RIGHT_EXECUTABLE == 0 {
        Err(Status::AccessDenied)
    } else {
        Ok(())
    }
}

/// Validates a backing-memory request against the connection's rights.
pub fn get_buffer_validate_flags(vmo_flags: u32, conn_flags: u32) -> (r: Result<(), Status>)
    ensures
        r == spec_get_buffer_validate_flags(vmo_flags, conn_flags),
{
    if vmo_flags & VMO_FLAG_EXACT != 0 && vmo_flags & VMO_FLAG_PRIVATE != 0 {
        return Err(Status::InvalidArgs);
    }
    if vmo_flags & VMO_FLAG_READ != 0 && conn_flags & OPEN_RIGHT_READABLE == 0 {
        return Err(Status::AccessDenied);
    }
    if vmo_flags & VMO_FLAG_WRITE != 0 && conn_flags & OPEN_RIGHT_WRITABLE == 0 {
        return Err(Status::AccessDenied);
    }
    if vmo_flags & VMO_FLAG_EXEC != 0 && conn_flags & OPEN_RIGHT_EXECUTABLE == 0 {
        return Err(Status::AccessDenied);
    }
    Ok(())
}

/// The origin a seek request counts from.
#[derive(Clone, Copy, Debug, PartialEq, Eq, Structural)]
pub enum SeekOrigin {
    Start,
    Current,
    End,
}

/// One inbound file request, with its payload as plain values.
pub enum FileRequest {
    CloneConnection { flags: u32 },
    Close,
    Describe,
    Synchronize,
    GetAttr,
    SetAttr { flags: u32, attributes: NodeAttributes },
    Read { count: u64 },
    ReadAt { offset: u64, count: u64 },
    Write { data: Vec<u8> },
    WriteAt { offset: u64, data: Vec<u8> },
    Seek { offset: i64, origin: SeekOrigin },
    Truncate { length: u64 },
    GetFlags,
    SetFlags { flags: u32 },
    GetBuffer { vmo_flags: u32 },
    AdvisoryLock,
    QueryFilesystem,
}

/// What the connection instructs its host to do for one file request:
/// either send a reply at once, or perform the named operation on the
/// backing file and feed its answer back.
pub enum FileOutcome {
    /// Send a status-only (or error) reply.
    Respond(Status),
    /// Send the file-kind descriptor.
    RespondDescribe,
    /// Send the connection's visible flags with a status.
    RespondFlags { status: Status, flags: u32 },
    /// Reply to a seek that was computed without the backing file.
    RespondSeek { status: Status, pos: u64 },
    /// Open a sibling connection to the same file with these flags and a
    /// fresh seek of zero.  Errors while doing so are reported over the
    /// new channel.
    CreateConnection { flags: u32 },
    /// Report an error over the new connection's channel; an
    /// open-acknowledgement event is sent only when `describe` is set.
    OpenError { status: Status, describe: bool },
    /// Read `count` bytes at `offset`; on success feed the bytes-read
    /// count to `complete_read` when `advance` is set, and reply with the
    /// bytes; on failure reply with the error and leave the seek alone.
    ReadAt { offset: u64, count: u64, advance: bool },
    /// Write `data` at `offset`; on success feed the bytes-written count
    /// to `complete_write` when `advance` is set, and reply with it; on
    /// failure reply with the error and leave the seek alone.
    WriteAt { offset: u64, data: Vec<u8>, advance: bool },
    /// Append `data` at the end of the file; feed the bytes written and
    /// the resulting end offset to `complete_append`.
    Append { data: Vec<u8> },
    /// Ask the file for its size, then feed the answer together with the
    /// request's offset to `complete_seek_end`.
    GetSizeForSeek { offset: i64 },
    /// Truncate the file to this length and reply with
    /// `operation_finish` of the result.
    Truncate { length: u64 },
    /// Ask the file for its attributes, then reply with
    /// `get_attr_finish` of the answer.
    GetAttrs,
    /// Hand the attribute update to the file and reply with
    /// `operation_finish` of the result.
    SetAttrs { flags: u32, attributes: NodeAttributes },
    /// Close the backing file exactly once and reply with
    /// `operation_finish` of the result; the connection is torn down
    /// either way.
    Close,
    /// Flush pending state and reply with `operation_finish` of the
    /// result.
    Sync,
    /// Hand a validated backing-memory request to the file.
    GetBuffer { vmo_flags: u32 },
    /// Pass the filesystem information query to the backing file.
    QueryFilesystem,
}

/// Per-connection state of one file connection.
#[derive(Debug)]
pub struct FileConnection {
    /// Flags set on this connection when it was opened or cloned.
    pub flags: u32,
    /// Seek position: the next byte to read or write.  It may lie beyond
    /// the current size of the file.
    pub seek: u64,
}

/// How a new file connection is set up once its flags validate: the
/// connection itself, whether the file must be truncated first, and
/// whether the open is acknowledged with a describe event.
#[derive(Debug)]
pub struct FileConnectionSetup {
    pub connection: FileConnection,
    pub truncate: bool,
    pub describe: bool,
}

/// What `FileConnection::handle_request` guarantees: `pre` and `post` are
/// the connection before and after, `request` the request, and `r` the
/// outcome with the resulting connection state.
pub open spec fn file_handle_request_spec(
    pre: FileConnection,
    post: FileConnection,
    request: FileRequest,
    r: (FileOutcome, ConnectionState),
) -> bool {
    &&& r.1 == if request is Close {
        ConnectionState::Closed
    } else {
        ConnectionState::Alive
    }
    &&& match request {
        FileRequest::CloneConnection { flags } => {
            &&& r.0 == spec_clone_file_outcome(pre.flags, flags)
            &&& post == pre
        },
        FileRequest::Close => {
            &&& r.0 == FileOutcome::Close
            &&& post == pre
        },
        FileRequest::Describe => {
            &&& r.0 == FileOutcome::RespondDescribe
            &&& post == pre
        },
        FileRequest::Synchronize => {
            &&& r.0 == FileOutcome::Sync
            &&& post == pre
        },
        FileRequest::GetAttr => {
            &&& r.0 == FileOutcome::GetAttrs
            &&& post == pre
        },
        FileRequest::SetAttr { flags, attributes } => {
            &&& r.0 == if pre.flags & OPEN_RIGHT_WRITABLE == 0 {
                FileOutcome::Respond(Status::BadHandle)
            } else {
                FileOutcome::SetAttrs { flags, attributes }
            }
            &&& post == pre
        },
        FileRequest::Read { count } => {
            &&& r.0 == match spec_read_check(pre.flags, count) {
                Err(s) => FileOutcome::Respond(s),
                Ok(_) => FileOutcome::ReadAt { offset: pre.seek, count, advance: true },
            }
            &&& post == pre
        },
        FileRequest::ReadAt { offset, count } => {
            &&& r.0 == match spec_read_check(pre.flags, count) {
                Err(s) => FileOutcome::Respond(s),
                Ok(_) => FileOutcome::ReadAt { offset, count, advance: false },
            }
            &&& post == pre
        },
        FileRequest::Write { data } => {
            &&& r.0 == if pre.flags & OPEN_RIGHT_WRITABLE == 0 {
                FileOutcome::Respond(Status::BadHandle)
            } else if pre.flags & OPEN_FLAG_APPEND != 0 {
                FileOutcome::Append { data }
            } else {
                FileOutcome::WriteAt { offset: pre.seek, data, advance: true }
            }
            &&& post == pre
        },
        FileRequest::WriteAt { offset, data } => {
            &&& r.0 == if pre.flags & OPEN_RIGHT_WRITABLE == 0 {
                FileOutcome::Respond(Status::BadHandle)
            } else {
                FileOutcome::WriteAt { offset, data, advance: false }
            }
            &&& post == pre
        },
        FileRequest::Seek { offset, origin } => spec_seek_step(pre, post, offset, origin, r.0),
        FileRequest::Truncate { length } => {
            &&& r.0 == if pre.flags & OPEN_RIGHT_WRITABLE == 0 {
                FileOutcome::Respond(Status::BadHandle)
            } else {
                FileOutcome::Truncate { length }
            }
            &&& post == pre
        },
        FileRequest::GetFlags => {
            &&& r.0 == FileOutcome::RespondFlags {
                status: Status::Okay,
                flags: pre.flags & GET_FLAGS_VISIBLE,
            }
            &&& post == pre
        },
        FileRequest::SetFlags { flags } => {
            &&& r.0 == FileOutcome::Respond(Status::Okay)
            &&& post.flags == (pre.flags & !OPEN_FLAG_APPEND) | (flags & OPEN_FLAG_APPEND)
            &&& post.seek == pre.seek
        },
        FileRequest::GetBuffer { vmo_flags } => {
            &&& r.0 == match spec_get_buffer_validate_flags(vmo_flags, pre.flags) {
                Err(s) => FileOutcome::Respond(s),
                Ok(_) => FileOutcome::GetBuffer { vmo_flags },
            }
            &&& post == pre
        },
        FileRequest::AdvisoryLock => {
            &&& r.0 == FileOutcome::Respond(Status::NotSupported)
            &&& post == pre
        },
        FileRequest::QueryFilesystem => {
            &&& r.0 == FileOutcome::QueryFilesystem
            &&& post == pre
        },
    }
}

/// What cloning a file connection with `conn_flags` yields for a clone
/// request with `flags`.
pub open spec fn spec_clone_file_outcome(conn_flags: u32, flags: u32) -> FileOutcome {
    match spec_inherit_rights_for_clone(conn_flags, flags) {
        Ok(f) => FileOutcome::CreateConnection { flags: f },
        Err(s) => FileOutcome::OpenError { status: s, describe: flags & OPEN_FLAG_DESCRIBE != 0 },
    }
}

/// The rights and bounds gate of a read: the connection must be readable
/// and the count within the transfer limit.
pub open spec fn spec_read_check(conn_flags: u32, count: u64) -> Result<(), Status> {
    if conn_flags & OPEN_RIGHT_READABLE == 0 {
        Err(Status::BadHandle)
    } else if count > MAX_TRANSFER_SIZE {
        Err(Status::OutOfRange)
    } else {
        Ok(())
    }
}

/// What one seek request does, for the origins that need no size query:
/// a node-reference connection cannot seek; a negative target is out of
/// range and leaves the seek alone; otherwise the target, truncated into
/// the 64-bit domain, becomes the new seek and the reply.  The end origin
/// defers to the size query.
pub open spec fn spec_seek_step(
    pre: FileConnection,
    post: FileConnection,
    offset: i64,
    origin: SeekOrigin,
    r: FileOutcome,
) -> bool {
    if pre.flags & OPEN_FLAG_NODE_REFERENCE != 0 {
        &&& r == FileOutcome::Respond(Status::BadHandle)
        &&& post == pre
    } else {
        match origin {
            SeekOrigin::Start => spec_seek_resolve(pre, post, offset as int, Status::Okay, r),
            SeekOrigin::Current => spec_seek_resolve(
                pre,
                post,
                pre.seek + offset,
                Status::Okay,
                r,
            ),
            SeekOrigin::End => {
                &&& r == FileOutcome::GetSizeForSeek { offset }
                &&& post == pre
            },
        }
    }
}

/// How a computed seek target `target` lands: negative is out of range
/// and the seek is unchanged; otherwise the target modulo the 64-bit
/// domain is stored and replied with `status`.
pub open spec fn spec_seek_resolve(
    pre: FileConnection,
    post: FileConnection,
    target: int,
    status: Status,
    r: FileOutcome,
) -> bool {
    &&& post.flags == pre.flags
    &&& if target < 0 {
        &&& r == FileOutcome::RespondSeek { status: Status::OutOfRange, pos: pre.seek }
        &&& post.seek == pre.seek
    } else {
        &&& post.seek == target % 0x1_0000_0000_0000_0000
        &&& r == FileOutcome::RespondSeek { status, pos: post.seek }
    }
}

impl FileConnection {
    /// Validates the flags of a new connection request against the
    /// file's capabilities and sets up the connection: a fresh seek of
    /// zero, truncation when the truncate flag was set, and a describe
    /// acknowledgement when asked for.  On failure, reports the error
    /// and whether an error event is owed on the new channel.
    pub fn create_connection(
        flags: u32,
        readable: bool,
        writable: bool,
        executable: bool,
    ) -> (r: Result<FileConnectionSetup, (Status, bool)>)
        ensures
            match r {
                Ok(setup) => {
                    &&& spec_file_validate_flags(flags, readable, writable, executable, true)
                        matches Ok(f) && setup.connection.flags == f
                    &&& setup.connection.seek == 0
                    &&& setup.truncate == (setup.connection.flags & OPEN_FLAG_TRUNCATE != 0)
                    &&& setup.describe == (setup.connection.flags & OPEN_FLAG_DESCRIBE != 0)
                },
                Err((status, describe)) => {
                    &&& spec_file_validate_flags(flags, readable, writable, executable, true)
                        == Err::<u32, Status>(status)
                    &&& describe == (flags & OPEN_FLAG_DESCRIBE != 0)
                },
            },
    {
        let describe_on_error = flags & OPEN_FLAG_DESCRIBE != 0;
        match new_connection_validate_flags(flags, readable, writable, executable, true) {
            Ok(f) => Ok(
                FileConnectionSetup {
                    connection: FileConnection { flags: f, seek: 0 },
                    truncate: f & OPEN_FLAG_TRUNCATE != 0,
                    describe: f & OPEN_FLAG_DESCRIBE != 0,
                },
            ),
            Err(status) => Err((status, describe_on_error)),
        }
    }

    /// Dispatches one file request: rights gates and seek arithmetic are
    /// answered at once; everything that touches the backing file comes
    /// back as an instruction.  Only a close request ends the connection.
    pub fn handle_request(&mut self, request: FileRequest) -> (r: (FileOutcome, ConnectionState))
        ensures
            file_handle_request_spec(*old(self), *final(self), request, r),
    {
        match request {
            FileRequest::CloneConnection { flags } => {
                (self.handle_clone(flags), ConnectionState::Alive)
            },
            FileRequest::Close => (FileOutcome::Close, ConnectionState::Closed),
            FileRequest::Describe => (FileOutcome::RespondDescribe, ConnectionState::Alive),
            FileRequest::Synchronize => (FileOutcome::Sync, ConnectionState::Alive),
            FileRequest::GetAttr => (FileOutcome::GetAttrs, ConnectionState::Alive),
            FileRequest::SetAttr { flags, attributes } => {
                let outcome = if self.flags & OPEN_RIGHT_WRITABLE == 0 {
                    FileOutcome::Respond(Status::BadHandle)
                } else {
                    FileOutcome::SetAttrs { flags, attributes }
                };
                (outcome, ConnectionState::Alive)
            },
            FileRequest::Read { count } => {
                (self.handle_read_at(self.seek, count, true), ConnectionState::Alive)
            },
            FileRequest::ReadAt { offset, count } => {
                (self.handle_read_at(offset, count, false), ConnectionState::Alive)
            },
            FileRequest::Write { data } => (self.handle_write(data), ConnectionState::Alive),
            FileRequest::WriteAt { offset, data } => {
                (self.handle_write_at(offset, data, false), ConnectionState::Alive)
            },
            FileRequest::Seek { offset, origin } => {
                (self.handle_seek(offset, origin), ConnectionState::Alive)
            },
            FileRequest::Truncate { length } => {
                let outcome = if self.flags & OPEN_RIGHT_WRITABLE == 0 {
                    FileOutcome::Respond(Status::BadHandle)
                } else {
                    FileOutcome::Truncate { length }
                };
                (outcome, ConnectionState::Alive)
            },
            FileRequest::GetFlags => {
                (
                    FileOutcome::RespondFlags {
                        status: Status::Okay,
                        flags: self.flags & GET_FLAGS_VISIBLE,
                    },
                    ConnectionState::Alive,
                )
            },
            FileRequest::SetFlags { flags } => {
                // Only the append bit may change after the connection is
                // open; every other flag is immutable for its lifetime.
                self.flags = (self.flags & !OPEN_FLAG_APPEND) | (flags & OPEN_FLAG_APPEND);
                (FileOutcome::Respond(Status::Okay), ConnectionState::Alive)
            },
            FileRequest::GetBuffer { vmo_flags } => {
                let outcome = match get_buffer_validate_flags(vmo_flags, self.flags) {
                    Err(s) => FileOutcome::Respond(s),
                    Ok(_) => FileOutcome::GetBuffer { vmo_flags },
                };
                (outcome, ConnectionState::Alive)
            },
            FileRequest::AdvisoryLock => {
                (FileOutcome::Respond(Status::NotSupported), ConnectionState::Alive)
            },
            FileRequest::QueryFilesystem => (FileOutcome::QueryFilesystem, ConnectionState::Alive),
        }
    }

    /// Decides a clone request: inherit rights from this connection, or
    /// report the error over the new channel.  The sibling connection
    /// starts with an independent seek of zero.
    pub fn handle_clone(&self, flags: u32) -> (r: FileOutcome)
        ensures
            r == spec_clone_file_outcome(self.flags, flags),
    {
        match inherit_rights_for_clone(self.flags, flags) {
            Ok(f) => FileOutcome::CreateConnection { flags: f },
            Err(status) => FileOutcome::OpenError {
                status,
                describe: flags & OPEN_FLAG_DESCRIBE != 0,
            },
        }
    }

    /// Gates a read: the connection must be readable and the count within
    /// the transfer limit; then the read is handed to the backing file.
    pub fn handle_read_at(&self, offset: u64, count: u64, advance: bool) -> (r: FileOutcome)
        ensures
            r == match spec_read_check(self.flags, count) {
                Err(s) => FileOutcome::Respond(s),
                Ok(_) => FileOutcome::ReadAt { offset, count, advance },
            },
    {
        if self.flags & OPEN_RIGHT_READABLE == 0 {
            return FileOutcome::Respond(Status::BadHandle);
        }
        if count > MAX_TRANSFER_SIZE {
            return FileOutcome::Respond(Status::OutOfRange);
        }
        FileOutcome::ReadAt { offset, count, advance }
    }

    /// Gates a write: the connection must be writable.  In append mode
    /// the stored seek is ignored and the data goes atomically to the end
    /// of the file; otherwise it goes to the current seek, which advances
    /// afterwards.
    pub fn handle_write(&self, data: Vec<u8>) -> (r: FileOutcome)
        ensures
            r == if self.flags & OPEN_RIGHT_WRITABLE == 0 {
                FileOutcome::Respond(Status::BadHandle)
            } else if self.flags & OPEN_FLAG_APPEND != 0 {
                FileOutcome::Append { data }
            } else {
                FileOutcome::WriteAt { offset: self.seek, data, advance: true }
            },
    {
        if self.flags & OPEN_RIGHT_WRITABLE == 0 {
            return FileOutcome::Respond(Status::BadHandle);
        }
        if self.flags & OPEN_FLAG_APPEND != 0 {
            return FileOutcome::Append { data };
        }
        FileOutcome::WriteAt { offset: self.seek, data, advance: true }
    }

    /// Gates a positioned write: the connection must be writable; the
    /// seek does not move.
    pub fn handle_write_at(&self, offset: u64, data: Vec<u8>, advance: bool) -> (r: FileOutcome)
        ensures
            r == if self.flags & OPEN_RIGHT_WRITABLE == 0 {
                FileOutcome::Respond(Status::BadHandle)
            } else {
                FileOutcome::WriteAt { offset, data, advance }
            },
    {
        if self.flags & OPEN_RIGHT_WRITABLE == 0 {
            return FileOutcome::Respond(Status::BadHandle);
        }
        FileOutcome::WriteAt { offset, data, advance }
    }

    /// Moves the seek to `offset` relative to `origin`.  The target is
    /// computed in a wide signed intermediate, so crossing the unsigned
    /// 64-bit domain cannot overflow; a negative target is out of range
    /// and leaves the seek unchanged.  Seeking from the end first asks
    /// the file for its size.
    pub fn handle_seek(&mut self, offset: i64, origin: SeekOrigin) -> (r: FileOutcome)
        ensures
            spec_seek_step(*old(self), *final(self), offset, origin, r),
    {
        if self.flags & OPEN_FLAG_NODE_REFERENCE != 0 {
            return FileOutcome::Respond(Status::BadHandle);
        }
        match origin {
            SeekOrigin::Start => self.resolve_seek(offset as i128, Status::Okay),
            SeekOrigin::Current => self.resolve_seek(self.seek as i128 + offset as i128,
                Status::Okay),
            SeekOrigin::End => FileOutcome::GetSizeForSeek { offset },
        }
    }

    /// Finishes a seek from the end once the file reported its size: the
    /// target is size plus offset; if the size query failed, the seek
    /// stays where it was and the failure is reported with it.
    pub fn complete_seek_end(&mut self, offset: i64, size: Result<u64, Status>) -> (r: FileOutcome)
        ensures
            match size {
                Ok(sz) => spec_seek_resolve(*old(self), *final(self), sz + offset, Status::Okay, r),
                Err(e) => spec_seek_resolve(
                    *old(self),
                    *final(self),
                    old(self).seek as int,
                    e,
                    r,
                ),
            },
    {
        match size {
            Ok(sz) => self.resolve_seek(sz as i128 + offset as i128, Status::Okay),
            Err(e) => self.resolve_seek(self.seek as i128, e),
        }
    }

    /// Stores a computed seek target, truncated into the 64-bit domain,
    /// or reports a negative target as out of range.
    fn resolve_seek(&mut self, target: i128, status: Status) -> (r: FileOutcome)
        ensures
            spec_seek_resolve(*old(self), *final(self), target as int, status, r),
    {
        if target < 0 {
            return FileOutcome::RespondSeek { status: Status::OutOfRange, pos: self.seek };
        }
        let new_seek = #[verifier::truncate] (target as u64);
        proof {
            assert(new_seek == target as int % 0x1_0000_0000_0000_0000int) by (bit_vector)
                requires
                    target >= 0,
                    new_seek == target as u64,
            ;
        }
        self.seek = new_seek;
        FileOutcome::RespondSeek { status, pos: new_seek }
    }

    /// Advances the seek by the bytes a read returned, wrapping in the
    /// 64-bit domain.
    pub fn complete_read(&mut self, bytes_read: u64)
        ensures
            final(self).flags == old(self).flags,
            final(self).seek == (old(self).seek + bytes_read) % 0x1_0000_0000_0000_0000,
    {
        let new_seek = self.seek.wrapping_add(bytes_read);
        proof {
            let sum = old(self).seek + bytes_read;
            if sum <= u64::MAX {
                vstd::arithmetic::div_mod::lemma_small_mod(sum as nat, 0x1_0000_0000_0000_0000nat);
            } else {
                vstd::arithmetic::div_mod::lemma_mod_multiples_vanish(
                    1,
                    sum - 0x1_0000_0000_0000_0000,
                    0x1_0000_0000_0000_0000int,
                );
                vstd::arithmetic::div_mod::lemma_small_mod(
                    (sum - 0x1_0000_0000_0000_0000) as nat,
                    0x1_0000_0000_0000_0000nat,
                );
            }
        }
        self.seek = new_seek;
    }

    /// Advances the seek by the bytes a write at the seek position
    /// consumed, wrapping in the 64-bit domain.
    pub fn complete_write(&mut self, actual: u64)
        ensures
            final(self).flags == old(self).flags,
            final(self).seek == (old(self).seek + actual) % 0x1_0000_0000_0000_0000,
    {
        self.complete_read(actual)
    }

    /// Finishes an append-mode write: the end offset the file reported
    /// becomes the new seek, whatever the seek held before, and the
    /// bytes-written count is the reply.
    pub fn complete_append(&mut self, bytes: u64, end_offset: u64) -> (r: u64)
        ensures
            final(self).flags == old(self).flags,
            final(self).seek == end_offset,
            r == bytes,
    {
        self.seek = end_offset;
        bytes
    }
}

/// The attributes reported when the backing file failed to produce any:
/// a zeroed record with an unknown inode, alongside the failure status.
pub fn get_attr_finish(result: Result<NodeAttributes, Status>) -> (r: (Status, NodeAttributes))
    ensures
        r == match result {
            Ok(attrs) => (Status::Okay, attrs),
            Err(s) => (
                s,
                NodeAttributes {
                    mode: 0,
                    id: INO_UNKNOWN,
                    content_size: 0,
                    storage_size: 0,
                    link_count: 0,
                    creation_time: 0,
                    modification_time: 0,
                },
            ),
        },
{
    match result {
        Ok(attrs) => (Status::Okay, attrs),
        Err(s) => (
            s,
            NodeAttributes {
                mode: 0,
                id: INO_UNKNOWN,
                content_size: 0,
                storage_size: 0,
                link_count: 0,
                creation_time: 0,
                modification_time: 0,
            },
        ),
    }
}

/// The status reply for an operation the backing file answered with a
/// plain result: truncate, set-attributes, close and sync.
pub fn operation_finish(result: Result<(), Status>) -> (r: Status)
    ensures
        r == match result {
            Ok(_) => Status::Okay,
            Err(s) => s,
        },
{
    match result {
        Ok(_) => Status::Okay,
        Err(s) => s,
    }
}

} // verus!
