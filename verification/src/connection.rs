//! The per-connection state machine for the shared directory protocol.
//!
//! A directory connection owns its flags and a traversal cursor.  Each
//! inbound request is dispatched to a decision: pure requests are answered
//! at once, and requests that must touch the node, the token registry or a
//! watcher are returned to the host as an instruction, whose answer the
//! host feeds back through a completion function.  Requests within one
//! connection are handled strictly in arrival order.

use vstd::prelude::*;

use crate::dirents::{DirentsDone, TraversalPosition};
use crate::directory::{spec_check_child_connection_flags, spec_new_connection_validate_flags,
    check_child_connection_flags, new_connection_validate_flags};
use crate::entry::INO_UNKNOWN;
use crate::flags::{inherit_rights_for_clone, spec_inherit_rights_for_clone, MODE_TYPE_DIRECTORY,
    OPEN_FLAG_CREATE, OPEN_FLAG_DESCRIBE};
use crate::path::{Path, spec_validate_and_split, DOT, SEPARATOR};
use crate::scope::ExecutionScope;
use crate::status::Status;

verus! {

/// The protection bits a pseudo directory reports in its attributes:
/// read and search for everyone, write for the owner.
pub const POSIX_DIRECTORY_PROTECTION_ATTRIBUTES: u32 = 0o755;

/// The attributes a node reports through GetAttr.
#[derive(Clone, Copy, Debug, PartialEq, Eq, Structural)]
pub struct NodeAttributes {
    pub mode: u32,
    pub id: u64,
    pub content_size: u64,
    pub storage_size: u64,
    pub link_count: u64,
    pub creation_time: u64,
    pub modification_time: u64,
}

/// Whether a connection keeps serving after a request.
#[derive(Clone, Copy, Debug, PartialEq, Eq, Structural)]
pub enum ConnectionState {
    /// Connection is still alive.
    Alive,
    /// Connection has received a close request and must be torn down.
    Closed,
}

/// One inbound directory request, with its payload as plain values.  A
/// token is the opaque value minted by the scope's token registry.
pub enum DirectoryRequest {
    CloneConnection { flags: u32 },
    Close,
    Describe,
    Synchronize,
    GetAttr,
    SetAttr { flags: u32, attributes: NodeAttributes },
    GetFlags,
    SetFlags { flags: u32 },
    Open { flags: u32, mode: u32, path: Vec<u8> },
    ReadDirents { max_bytes: u64 },
    Rewind,
    Link { src: Vec<u8>, dst_parent_token: u64, dst: Vec<u8> },
    Watch { mask: u32, options: u32 },
    Unlink { path: Vec<u8> },
    GetToken,
    Rename { src: Vec<u8>, dst_parent_token: u64, dst: Vec<u8> },
}

/// The subset of the protocol every directory connection handles.
pub enum BaseDirectoryRequest {
    CloneConnection { flags: u32 },
    Close,
    Describe,
    Synchronize,
    GetAttr,
    SetAttr { flags: u32, attributes: NodeAttributes },
    GetFlags,
    SetFlags { flags: u32 },
    Open { flags: u32, mode: u32, path: Vec<u8> },
    ReadDirents { max_bytes: u64 },
    Rewind,
    Link { src: Vec<u8>, dst_parent_token: u64, dst: Vec<u8> },
    Watch { mask: u32, options: u32 },
}

/// The mutating operations only a mutable directory connection handles.
pub enum DerivedDirectoryRequest {
    Unlink { path: Vec<u8> },
    GetToken,
    Rename { src: Vec<u8>, dst_parent_token: u64, dst: Vec<u8> },
}

/// A request sorted into the shared or the mutable half of the protocol.
pub enum DirectoryRequestType {
    Base(BaseDirectoryRequest),
    Derived(DerivedDirectoryRequest),
}

/// Which half of the protocol each request belongs to.
pub open spec fn spec_classify_request(request: DirectoryRequest) -> DirectoryRequestType {
    match request {
        DirectoryRequest::CloneConnection { flags } => DirectoryRequestType::Base(
            BaseDirectoryRequest::CloneConnection { flags },
        ),
        DirectoryRequest::Close => DirectoryRequestType::Base(BaseDirectoryRequest::Close),
        DirectoryRequest::Describe => DirectoryRequestType::Base(BaseDirectoryRequest::Describe),
        DirectoryRequest::Synchronize => DirectoryRequestType::Base(
            BaseDirectoryRequest::Synchronize,
        ),
        DirectoryRequest::GetAttr => DirectoryRequestType::Base(BaseDirectoryRequest::GetAttr),
        DirectoryRequest::SetAttr { flags, attributes } => DirectoryRequestType::Base(
            BaseDirectoryRequest::SetAttr { flags, attributes },
        ),
        DirectoryRequest::GetFlags => DirectoryRequestType::Base(BaseDirectoryRequest::GetFlags),
        DirectoryRequest::SetFlags { flags } => DirectoryRequestType::Base(
            BaseDirectoryRequest::SetFlags { flags },
        ),
        DirectoryRequest::Open { flags, mode, path } => DirectoryRequestType::Base(
            BaseDirectoryRequest::Open { flags, mode, path },
        ),
        DirectoryRequest::ReadDirents { max_bytes } => DirectoryRequestType::Base(
            BaseDirectoryRequest::ReadDirents { max_bytes },
        ),
        DirectoryRequest::Rewind => DirectoryRequestType::Base(BaseDirectoryRequest::Rewind),
        DirectoryRequest::Link { src, dst_parent_token, dst } => DirectoryRequestType::Base(
            BaseDirectoryRequest::Link { src, dst_parent_token, dst },
        ),
        DirectoryRequest::Watch { mask, options } => DirectoryRequestType::Base(
            BaseDirectoryRequest::Watch { mask, options },
        ),
        DirectoryRequest::Unlink { path } => DirectoryRequestType::Derived(
            DerivedDirectoryRequest::Unlink { path },
        ),
        DirectoryRequest::GetToken => DirectoryRequestType::Derived(
            DerivedDirectoryRequest::GetToken,
        ),
        DirectoryRequest::Rename { src, dst_parent_token, dst } => DirectoryRequestType::Derived(
            DerivedDirectoryRequest::Rename { src, dst_parent_token, dst },
        ),
    }
}

impl DirectoryRequestType {
    /// Sorts a request into the shared or the mutable half of the
    /// protocol.
    pub fn classify(request: DirectoryRequest) -> (r: DirectoryRequestType)
        ensures
            r == spec_classify_request(request),
    {
        match request {
            DirectoryRequest::CloneConnection { flags } => DirectoryRequestType::Base(
                BaseDirectoryRequest::CloneConnection { flags },
            ),
            DirectoryRequest::Close => DirectoryRequestType::Base(BaseDirectoryRequest::Close),
            DirectoryRequest::Describe => DirectoryRequestType::Base(
                BaseDirectoryRequest::Describe,
            ),
            DirectoryRequest::Synchronize => DirectoryRequestType::Base(
                BaseDirectoryRequest::Synchronize,
            ),
            DirectoryRequest::GetAttr => DirectoryRequestType::Base(BaseDirectoryRequest::GetAttr),
            DirectoryRequest::SetAttr { flags, attributes } => DirectoryRequestType::Base(
                BaseDirectoryRequest::SetAttr { flags, attributes },
            ),
            DirectoryRequest::GetFlags => DirectoryRequestType::Base(
                BaseDirectoryRequest::GetFlags,
            ),
            DirectoryRequest::SetFlags { flags } => DirectoryRequestType::Base(
                BaseDirectoryRequest::SetFlags { flags },
            ),
            DirectoryRequest::Open { flags, mode, path } => DirectoryRequestType::Base(
                BaseDirectoryRequest::Open { flags, mode, path },
            ),
            DirectoryRequest::ReadDirents { max_bytes } => DirectoryRequestType::Base(
                BaseDirectoryRequest::ReadDirents { max_bytes },
            ),
            DirectoryRequest::Rewind => DirectoryRequestType::Base(BaseDirectoryRequest::Rewind),
            DirectoryRequest::Link { src, dst_parent_token, dst } => DirectoryRequestType::Base(
                BaseDirectoryRequest::Link { src, dst_parent_token, dst },
            ),
            DirectoryRequest::Watch { mask, options } => DirectoryRequestType::Base(
                BaseDirectoryRequest::Watch { mask, options },
            ),
            DirectoryRequest::Unlink { path } => DirectoryRequestType::Derived(
                DerivedDirectoryRequest::Unlink { path },
            ),
            DirectoryRequest::GetToken => DirectoryRequestType::Derived(
                DerivedDirectoryRequest::GetToken,
            ),
            DirectoryRequest::Rename { src, dst_parent_token, dst } => {
                DirectoryRequestType::Derived(
                    DerivedDirectoryRequest::Rename { src, dst_parent_token, dst },
                )
            },
        }
    }
}

/// What the connection instructs its host to do for one request: either
/// send a reply at once, or perform the named operation against a
/// collaborator and feed its answer back.
pub enum DirectoryOutcome {
    /// Send a status-only reply.
    Respond(Status),
    /// Send the directory-kind descriptor.
    RespondDescribe,
    /// Send attributes with a status.
    RespondAttrs { status: Status, attrs: NodeAttributes },
    /// Send the connection's flags with a status.
    RespondFlags { status: Status, flags: u32 },
    /// Open a sibling connection to the same node with these flags.  Any
    /// error found while doing so is reported over the new channel.
    CreateConnection { flags: u32, mode: u32 },
    /// Report an error over the new connection's channel; an
    /// open-acknowledgement event is sent only when `describe` is set.
    OpenError { status: Status, describe: bool },
    /// Hand the open on to the node named by `path`.
    OpenChild { flags: u32, mode: u32, path: Path },
    /// Enumerate the directory from `pos` into a sink of `max_bytes`,
    /// then seal it and feed the page to `complete_read_dirents`; if
    /// enumeration itself fails, reply with its status and no bytes (the
    /// cursor is already reset).
    ReadDirents { pos: TraversalPosition, max_bytes: u64 },
    /// First step of Link: look up the source entry by name, then feed
    /// the answer to `link_after_get_entry`.
    LookupLinkSource { src: Vec<u8>, token: u64, dst: Vec<u8> },
    /// Register a watcher with the node under this mask and reply with
    /// the node's status.
    RegisterWatcher { mask: u32 },
}

/// The attributes every pseudo directory reports: a directory with the
/// standard protection bits, no content, one link, and no timestamps.
pub open spec fn spec_directory_attributes() -> NodeAttributes {
    NodeAttributes {
        mode: MODE_TYPE_DIRECTORY | POSIX_DIRECTORY_PROTECTION_ATTRIBUTES,
        id: INO_UNKNOWN,
        content_size: 0,
        storage_size: 0,
        link_count: 1,
        creation_time: 0,
        modification_time: 0,
    }
}

/// What cloning a connection with `conn_flags` yields for a clone request
/// with `flags`: a sibling connection with the inherited rights, or an
/// error on the new channel.
pub open spec fn spec_clone_outcome(conn_flags: u32, flags: u32, mode: u32) -> DirectoryOutcome {
    match spec_inherit_rights_for_clone(conn_flags, flags) {
        Ok(f) => DirectoryOutcome::CreateConnection { flags: f, mode },
        Err(s) => DirectoryOutcome::OpenError {
            status: s,
            describe: flags & OPEN_FLAG_DESCRIBE != 0,
        },
    }
}

/// What handling an open request against a connection with `conn_flags`
/// must yield, for request flags, mode and raw path `pa`: the root and the
/// empty path are bad; the self path is a clone; anything else is path
/// validation, then the child-flags check, then handing the open to the
/// child.
pub open spec fn spec_open_outcome_matches(
    conn_flags: u32,
    flags: u32,
    mode: u32,
    pa: Seq<u8>,
    r: DirectoryOutcome,
) -> bool {
    if pa.len() == 0 || pa == seq![SEPARATOR] {
        r == (DirectoryOutcome::OpenError {
            status: Status::BadPath,
            describe: flags & OPEN_FLAG_DESCRIBE != 0,
        })
    } else if pa == seq![DOT] || pa == seq![DOT, SEPARATOR] {
        r == spec_clone_outcome(conn_flags, flags, mode)
    } else {
        match spec_validate_and_split(pa) {
            Err(s) => r == (DirectoryOutcome::OpenError {
                status: s,
                describe: flags & OPEN_FLAG_DESCRIBE != 0,
            }),
            Ok((is_dir, body)) => {
                let mode2 = if is_dir {
                    mode | MODE_TYPE_DIRECTORY
                } else {
                    mode
                };
                match spec_check_child_connection_flags(conn_flags, flags, mode2) {
                    Err(s) => r == (DirectoryOutcome::OpenError {
                        status: s,
                        describe: flags & OPEN_FLAG_DESCRIBE != 0,
                    }),
                    Ok(fm) => {
                        &&& r matches DirectoryOutcome::OpenChild { flags: f2, mode: m2, path }
                        &&& f2 == fm.0
                        &&& m2 == fm.1
                        &&& path.spec_is_dir() == is_dir
                        &&& path.spec_body() == body
                        &&& path.wf()
                    },
                }
            },
        }
    }
}

/// Per-connection state shared by the immutable and the mutable directory
/// connection: the scope the connection runs in, the flags it was opened
/// or cloned with, and its enumeration cursor.
pub struct BaseConnection {
    /// Execution scope of this connection.
    pub scope: ExecutionScope,
    /// Flags set on this connection when it was opened or cloned.
    pub flags: u32,
    /// Position the next ReadDirents resumes from; the name of the entry
    /// returned last, so enumeration continues alphabetically after it.
    pub seek: TraversalPosition,
}

/// What `BaseConnection::handle_request` guarantees: `pre` and `post` are
/// the connection before and after, `request` the request, and `r` the
/// outcome with the resulting connection state.
pub open spec fn base_handle_request_spec(
    pre: BaseConnection,
    post: BaseConnection,
    request: BaseDirectoryRequest,
    r: (DirectoryOutcome, ConnectionState),
) -> bool {
    &&& post.scope == pre.scope
    &&& post.flags == pre.flags
    &&& match request {
        BaseDirectoryRequest::CloneConnection { flags } => {
            &&& r == (spec_clone_outcome(pre.flags, flags, 0), ConnectionState::Alive)
            &&& post.seek == pre.seek
        },
        BaseDirectoryRequest::Close => {
            &&& r == (DirectoryOutcome::Respond(Status::Okay), ConnectionState::Closed)
            &&& post.seek == pre.seek
        },
        BaseDirectoryRequest::Describe => {
            &&& r == (DirectoryOutcome::RespondDescribe, ConnectionState::Alive)
            &&& post.seek == pre.seek
        },
        BaseDirectoryRequest::Synchronize => {
            &&& r == (DirectoryOutcome::Respond(Status::NotSupported), ConnectionState::Alive)
            &&& post.seek == pre.seek
        },
        BaseDirectoryRequest::GetAttr => {
            &&& r == (
                DirectoryOutcome::RespondAttrs {
                    status: Status::Okay,
                    attrs: spec_directory_attributes(),
                },
                ConnectionState::Alive,
            )
            &&& post.seek == pre.seek
        },
        BaseDirectoryRequest::SetAttr { .. } => {
            &&& r == (DirectoryOutcome::Respond(Status::NotSupported), ConnectionState::Alive)
            &&& post.seek == pre.seek
        },
        BaseDirectoryRequest::GetFlags => {
            &&& r == (
                DirectoryOutcome::RespondFlags { status: Status::Okay, flags: pre.flags },
                ConnectionState::Alive,
            )
            &&& post.seek == pre.seek
        },
        BaseDirectoryRequest::SetFlags { .. } => {
            &&& r == (DirectoryOutcome::Respond(Status::NotSupported), ConnectionState::Alive)
            &&& post.seek == pre.seek
        },
        BaseDirectoryRequest::Open { flags, mode, path } => {
            &&& spec_open_outcome_matches(pre.flags, flags, mode, path@, r.0)
            &&& r.1 == ConnectionState::Alive
            &&& post.seek == pre.seek
        },
        BaseDirectoryRequest::ReadDirents { max_bytes } => {
            &&& r == (
                DirectoryOutcome::ReadDirents { pos: pre.seek, max_bytes },
                ConnectionState::Alive,
            )
            &&& post.seek == TraversalPosition::Start
        },
        BaseDirectoryRequest::Rewind => {
            &&& r == (DirectoryOutcome::Respond(Status::Okay), ConnectionState::Alive)
            &&& post.seek == TraversalPosition::Start
        },
        BaseDirectoryRequest::Link { src, dst_parent_token, dst } => {
            &&& r.0 == if pre.scope.has_token_registry {
                DirectoryOutcome::LookupLinkSource { src, token: dst_parent_token, dst }
            } else {
                DirectoryOutcome::Respond(Status::NotSupported)
            }
            &&& r.1 == ConnectionState::Alive
            &&& post.seek == pre.seek
        },
        BaseDirectoryRequest::Watch { mask, options } => {
            &&& r.0 == if options != 0 {
                DirectoryOutcome::Respond(Status::InvalidArgs)
            } else {
                DirectoryOutcome::RegisterWatcher { mask }
            }
            &&& r.1 == ConnectionState::Alive
            &&& post.seek == pre.seek
        },
    }
}

impl BaseConnection {
    /// A fresh connection in `scope` with the given validated flags, with
    /// enumeration at the start.
    pub fn new(scope: ExecutionScope, flags: u32) -> (r: Self)
        ensures
            r.scope == scope,
            r.flags == flags,
            r.seek == TraversalPosition::Start,
    {
        BaseConnection { scope, flags, seek: TraversalPosition::Start }
    }

    /// The attributes this directory reports.
    pub fn directory_attributes() -> (r: NodeAttributes)
        ensures
            r == spec_directory_attributes(),
    {
        NodeAttributes {
            mode: MODE_TYPE_DIRECTORY | POSIX_DIRECTORY_PROTECTION_ATTRIBUTES,
            id: INO_UNKNOWN,
            content_size: 0,
            storage_size: 0,
            link_count: 1,
            creation_time: 0,
            modification_time: 0,
        }
    }

    /// Dispatches one request of the shared directory protocol: pure
    /// requests are answered at once; enumeration, open delegation, link
    /// and watch come back as instructions for the host.
    pub fn handle_request(&mut self, request: BaseDirectoryRequest) -> (r: (
        DirectoryOutcome,
        ConnectionState,
    ))
        ensures
            base_handle_request_spec(*old(self), *final(self), request, r),
    {
        match request {
            BaseDirectoryRequest::CloneConnection { flags } => {
                (self.handle_clone(flags, 0), ConnectionState::Alive)
            },
            BaseDirectoryRequest::Close => {
                (DirectoryOutcome::Respond(Status::Okay), ConnectionState::Closed)
            },
            BaseDirectoryRequest::Describe => {
                (DirectoryOutcome::RespondDescribe, ConnectionState::Alive)
            },
            BaseDirectoryRequest::Synchronize => {
                (DirectoryOutcome::Respond(Status::NotSupported), ConnectionState::Alive)
            },
            BaseDirectoryRequest::GetAttr => {
                (
                    DirectoryOutcome::RespondAttrs {
                        status: Status::Okay,
                        attrs: Self::directory_attributes(),
                    },
                    ConnectionState::Alive,
                )
            },
            BaseDirectoryRequest::SetAttr { .. } => {
                // The only flag this request could change is append mode,
                // which a pseudo directory does not support.
                (DirectoryOutcome::Respond(Status::NotSupported), ConnectionState::Alive)
            },
            BaseDirectoryRequest::GetFlags => {
                (
                    DirectoryOutcome::RespondFlags { status: Status::Okay, flags: self.flags },
                    ConnectionState::Alive,
                )
            },
            BaseDirectoryRequest::SetFlags { .. } => {
                (DirectoryOutcome::Respond(Status::NotSupported), ConnectionState::Alive)
            },
            BaseDirectoryRequest::Open { flags, mode, path } => {
                (self.handle_open(flags, mode, path), ConnectionState::Alive)
            },
            BaseDirectoryRequest::ReadDirents { max_bytes } => {
                let mut pos = TraversalPosition::Start;
                core::mem::swap(&mut self.seek, &mut pos);
                (DirectoryOutcome::ReadDirents { pos, max_bytes }, ConnectionState::Alive)
            },
            BaseDirectoryRequest::Rewind => {
                self.seek = TraversalPosition::Start;
                (DirectoryOutcome::Respond(Status::Okay), ConnectionState::Alive)
            },
            BaseDirectoryRequest::Link { src, dst_parent_token, dst } => {
                if self.scope.has_token_registry {
                    (
                        DirectoryOutcome::LookupLinkSource { src, token: dst_parent_token, dst },
                        ConnectionState::Alive,
                    )
                } else {
                    (DirectoryOutcome::Respond(Status::NotSupported), ConnectionState::Alive)
                }
            },
            BaseDirectoryRequest::Watch { mask, options } => {
                if options != 0 {
                    (DirectoryOutcome::Respond(Status::InvalidArgs), ConnectionState::Alive)
                } else {
                    (DirectoryOutcome::RegisterWatcher { mask }, ConnectionState::Alive)
                }
            },
        }
    }

    /// Decides a clone request: inherit rights from this connection, or
    /// report the error over the new channel.
    pub fn handle_clone(&self, flags: u32, mode: u32) -> (r: DirectoryOutcome)
        ensures
            r == spec_clone_outcome(self.flags, flags, mode),
    {
        match inherit_rights_for_clone(self.flags, flags) {
            Ok(f) => DirectoryOutcome::CreateConnection { flags: f, mode },
            Err(status) => DirectoryOutcome::OpenError {
                status,
                describe: flags & OPEN_FLAG_DESCRIBE != 0,
            },
        }
    }

    /// Decides an open request: rejects the root and the empty path,
    /// treats the self path as a clone, validates the path, narrows the
    /// flags for the child, and otherwise hands the open to the named
    /// child.  Every error is reported over the new connection's channel,
    /// never by failing this connection.
    pub fn handle_open(&self, flags: u32, mode: u32, path: Vec<u8>) -> (r: DirectoryOutcome)
        ensures
            spec_open_outcome_matches(self.flags, flags, mode, path@, r),
    {
        let describe = flags & OPEN_FLAG_DESCRIBE != 0;
        if path.len() == 0 || (path.len() == 1 && path[0] == SEPARATOR) {
            proof {
                if path@.len() == 1 {
                    assert(path@ =~= seq![SEPARATOR]);
                }
            }
            return DirectoryOutcome::OpenError { status: Status::BadPath, describe };
        }
        proof {
            assert(path@ != seq![SEPARATOR]);
        }
        if path.len() == 1 && path[0] == DOT {
            proof {
                assert(path@ =~= seq![DOT]);
            }
            return self.handle_clone(flags, mode);
        }
        if path.len() == 2 && path[0] == DOT && path[1] == SEPARATOR {
            proof {
                assert(path@ =~= seq![DOT, SEPARATOR]);
            }
            return self.handle_clone(flags, mode);
        }
        proof {
            assert(path@ != seq![DOT]);
            assert(path@ != seq![DOT, SEPARATOR]);
        }
        let parsed = match Path::validate_and_split(path) {
            Ok(p) => p,
            Err(status) => {
                return DirectoryOutcome::OpenError { status, describe };
            },
        };
        let mode = if parsed.is_dir() {
            mode | MODE_TYPE_DIRECTORY
        } else {
            mode
        };
        match check_child_connection_flags(self.flags, flags, mode) {
            Ok((flags, mode)) => DirectoryOutcome::OpenChild { flags, mode, path: parsed },
            Err(status) => DirectoryOutcome::OpenError { status, describe },
        }
    }

    /// Takes in a sealed enumeration page: the cursor it carries becomes
    /// the position the next ReadDirents resumes from, and its status and
    /// bytes form the reply.
    pub fn complete_read_dirents(&mut self, done: DirentsDone) -> (r: (Status, Vec<u8>))
        ensures
            final(self).scope == old(self).scope,
            final(self).flags == old(self).flags,
            final(self).seek == done.pos,
            r.0 == done.status,
            r.1 == done.buf,
    {
        self.seek = done.pos;
        (done.status, done.buf)
    }
}

/// The continuation of a Link request after a collaborator answered.
pub enum LinkStep {
    /// Reply with this status; the link did not go through.
    Respond(Status),
    /// Ask the token registry which directory the token names, then feed
    /// the answer to `link_after_lookup_container`.
    LookupContainer { token: u64, dst: Vec<u8> },
    /// Invoke `link(dst, entry)` on the directory the registry named,
    /// then feed the result to `link_finish`.
    DoLink { dir: u64, dst: Vec<u8> },
}

/// Continues a Link request once the source entry was looked up:
/// a lookup failure is the reply; an entry that cannot be hard-linked is
/// not a file; otherwise the destination token is resolved next.
pub fn link_after_get_entry(entry: Result<bool, Status>, token: u64, dst: Vec<u8>) -> (r: LinkStep)
    ensures
        r == match entry {
            Err(s) => LinkStep::Respond(s),
            Ok(false) => LinkStep::Respond(Status::NotFile),
            Ok(true) => LinkStep::LookupContainer { token, dst },
        },
{
    match entry {
        Err(s) => LinkStep::Respond(s),
        Ok(false) => LinkStep::Respond(Status::NotFile),
        Ok(true) => LinkStep::LookupContainer { token, dst },
    }
}

/// Continues a Link request once the token registry answered: a registry
/// failure is the reply; an unknown or expired token is not found;
/// otherwise the link is made in the directory the token names.
pub fn link_after_lookup_container(container: Result<Option<u64>, Status>, dst: Vec<u8>) -> (r:
    LinkStep)
    ensures
        r == match container {
            Err(s) => LinkStep::Respond(s),
            Ok(None) => LinkStep::Respond(Status::NotFound),
            Ok(Some(dir)) => LinkStep::DoLink { dir, dst },
        },
{
    match container {
        Err(s) => LinkStep::Respond(s),
        Ok(None) => LinkStep::Respond(Status::NotFound),
        Ok(Some(dir)) => LinkStep::DoLink { dir, dst },
    }
}

/// The reply to a Link request once the destination directory answered.
pub fn link_finish(result: Result<(), Status>) -> (r: Status)
    ensures
        r == match result {
            Ok(_) => Status::Okay,
            Err(s) => s,
        },
{
    match result {
        Ok(_) => Status::Okay,
        Err(s) => s,
    }
}

/// A connection to a directory that the client cannot modify, no matter
/// what permissions the client holds on the connection.
pub struct ImmutableConnection {
    /// The shared per-connection state.
    pub base: BaseConnection,
}

impl ImmutableConnection {
    /// A fresh immutable connection with the given validated flags.
    pub fn new(scope: ExecutionScope, flags: u32) -> (r: Self)
        ensures
            r.base.scope == scope,
            r.base.flags == flags,
            r.base.seek == TraversalPosition::Start,
    {
        ImmutableConnection { base: BaseConnection::new(scope, flags) }
    }

    /// Validates the flags of a new connection request and constructs the
    /// connection, telling the host whether to acknowledge the open with a
    /// describe event; or reports the error and whether an error event is
    /// owed on the new channel.
    pub fn create_connection(scope: ExecutionScope, flags: u32) -> (r: Result<
        (Self, bool),
        (Status, bool),
    >)
        ensures
            match r {
                Ok((conn, describe)) => {
                    &&& spec_new_connection_validate_flags(flags) matches Ok(f) && conn.base.flags
                        == f
                    &&& conn.base.scope == scope
                    &&& conn.base.seek == TraversalPosition::Start
                    &&& describe == (conn.base.flags & OPEN_FLAG_DESCRIBE != 0)
                },
                Err((status, describe)) => {
                    &&& spec_new_connection_validate_flags(flags) == Err::<u32, Status>(status)
                    &&& describe == (flags & OPEN_FLAG_DESCRIBE != 0)
                },
            },
    {
        let describe_on_error = flags & OPEN_FLAG_DESCRIBE != 0;
        match new_connection_validate_flags(flags) {
            Ok(f) => Ok((Self::new(scope, f), f & OPEN_FLAG_DESCRIBE != 0)),
            Err(status) => Err((status, describe_on_error)),
        }
    }

    /// What opening a missing entry through an immutable directory
    /// reports: without the create flag the entry is not found; with it,
    /// creation is not supported here.
    pub fn entry_not_found(flags: u32) -> (r: Status)
        ensures
            r == if flags & OPEN_FLAG_CREATE == 0 {
                Status::NotFound
            } else {
                Status::NotSupported
            },
    {
        if flags & OPEN_FLAG_CREATE == 0 {
            Status::NotFound
        } else {
            Status::NotSupported
        }
    }

    /// Dispatches one request.  The shared protocol is handled; the
    /// mutating half is unsupported on an immutable connection.
    pub fn handle_request(&mut self, request: DirectoryRequest) -> (r: (
        DirectoryOutcome,
        ConnectionState,
    ))
        ensures
            match spec_classify_request(request) {
                DirectoryRequestType::Base(b) => base_handle_request_spec(
                    old(self).base,
                    final(self).base,
                    b,
                    r,
                ),
                DirectoryRequestType::Derived(_) => {
                    &&& r == (
                        DirectoryOutcome::Respond(Status::NotSupported),
                        ConnectionState::Alive,
                    )
                    &&& final(self).base == old(self).base
                },
            },
    {
        match DirectoryRequestType::classify(request) {
            DirectoryRequestType::Base(base_request) => self.base.handle_request(base_request),
            DirectoryRequestType::Derived(_) => {
                (DirectoryOutcome::Respond(Status::NotSupported), ConnectionState::Alive)
            },
        }
    }
}

} // verus!
