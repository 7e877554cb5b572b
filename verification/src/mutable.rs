//! The per-connection state machine extension for directories that the
//! client may modify: Unlink, GetToken and Rename.
//!
//! Every mutating operation requires the connection itself to be writable
//! before any other work is done.  GetToken and Rename authenticate the
//! destination directory through the scope's token registry: GetToken
//! mints a token for this connection's directory, and Rename resolves the
//! client-supplied token back to a directory, then hands both directories
//! to the filesystem-level rename, which orders the two locks.

use vstd::prelude::*;

use crate::connection::{base_handle_request_spec, spec_classify_request, BaseConnection,
    BaseDirectoryRequest, ConnectionState, DerivedDirectoryRequest, DirectoryOutcome,
    DirectoryRequest, DirectoryRequestType};
use crate::directory::{new_connection_validate_flags, spec_new_connection_validate_flags};
use crate::flags::{MODE_TYPE_DIRECTORY, MODE_TYPE_MASK, OPEN_FLAG_CREATE, OPEN_FLAG_DESCRIBE,
    OPEN_FLAG_DIRECTORY, OPEN_FLAG_NOT_DIRECTORY, OPEN_RIGHT_WRITABLE};
use crate::path::{has_separator, spec_validate_and_split, Path, DOT, SEPARATOR};
use crate::scope::ExecutionScope;
use crate::status::Status;

verus! {

/// What the mutable half of the protocol instructs the host to do.
pub enum MutableOutcome {
    /// Send a status-only reply.
    Respond(Status),
    /// Invoke `unlink(name)` on this connection's directory, then feed
    /// the result to `unlink_finish`.
    Unlink { name: Vec<u8> },
    /// Mint a token for this connection's directory with the scope's
    /// token registry, then feed the result to `get_token_finish`.
    MintToken,
    /// Ask the token registry which directory the token names, then feed
    /// the answer to `rename_after_lookup_container`.
    LookupRenameTarget { src: Vec<u8>, token: u64, dst: Vec<u8> },
    /// An outcome of the shared protocol half.
    Base(DirectoryOutcome),
}

/// What deciding an unlink request against a connection with `conn_flags`
/// must yield for raw path `pa`: a non-writable connection is denied; the
/// root, empty, and self paths are bad; an invalid path is its validation
/// error; a path of more than one component is bad (unlink does not
/// traverse); and otherwise the single named entry is unlinked.
pub open spec fn spec_unlink_outcome_matches(conn_flags: u32, pa: Seq<u8>, r: MutableOutcome)
    -> bool {
    if conn_flags & OPEN_RIGHT_WRITABLE == 0 {
        r == MutableOutcome::Respond(Status::AccessDenied)
    } else if pa == seq![SEPARATOR] || pa.len() == 0 || pa == seq![DOT] || pa == seq![
        DOT,
        SEPARATOR,
    ] {
        r == MutableOutcome::Respond(Status::BadPath)
    } else {
        match spec_validate_and_split(pa) {
            Err(s) => r == MutableOutcome::Respond(s),
            Ok((_is_dir, body)) => if has_separator(body) {
                r == MutableOutcome::Respond(Status::BadPath)
            } else {
                r matches MutableOutcome::Unlink { name } && name@ == body
            },
        }
    }
}

/// A connection to a directory that the client may modify through the
/// protocol.
pub struct MutableConnection {
    /// The shared per-connection state.
    pub base: BaseConnection,
}

impl MutableConnection {
    /// A fresh mutable connection with the given validated flags.
    pub fn new(scope: ExecutionScope, flags: u32) -> (r: Self)
        ensures
            r.base.scope == scope,
            r.base.flags == flags,
            r.base.seek == crate::dirents::TraversalPosition::Start,
    {
        MutableConnection { base: BaseConnection::new(scope, flags) }
    }

    /// Validates the flags of a new connection request and constructs the
    /// connection, telling the host whether to acknowledge the open with a
    /// describe event; or reports the error and whether an error event is
    /// owed on the new channel.
    pub fn create_connection(scope: ExecutionScope, flags: u32) -> (r: Result<
        (Self, bool),
        (Status, bool),
    >)
        ensures
            match r {
                Ok((conn, describe)) => {
                    &&& spec_new_connection_validate_flags(flags) matches Ok(f) && conn.base.flags
                        == f
                    &&& conn.base.scope == scope
                    &&& conn.base.seek == crate::dirents::TraversalPosition::Start
                    &&& describe == (conn.base.flags & OPEN_FLAG_DESCRIBE != 0)
                },
                Err((status, describe)) => {
                    &&& spec_new_connection_validate_flags(flags) == Err::<u32, Status>(status)
                    &&& describe == (flags & OPEN_FLAG_DESCRIBE != 0)
                },
            },
    {
        let describe_on_error = flags & OPEN_FLAG_DESCRIBE != 0;
        match new_connection_validate_flags(flags) {
            Ok(f) => Ok((Self::new(scope, f), f & OPEN_FLAG_DESCRIBE != 0)),
            Err(status) => Err((status, describe_on_error)),
        }
    }

    /// Dispatches one request: the shared protocol half goes to the base
    /// connection, the mutating half to the derived handler.
    pub fn handle_request(&mut self, request: DirectoryRequest) -> (r: (
        MutableOutcome,
        ConnectionState,
    ))
        ensures
            match spec_classify_request(request) {
                DirectoryRequestType::Base(b) => {
                    &&& r.0 matches MutableOutcome::Base(o)
                    &&& base_handle_request_spec(old(self).base, final(self).base, b, (o, r.1))
                },
                DirectoryRequestType::Derived(d) => {
                    &&& final(self).base == old(self).base
                    &&& r.1 == ConnectionState::Alive
                    &&& match d {
                        DerivedDirectoryRequest::Unlink { path } => spec_unlink_outcome_matches(
                            old(self).base.flags,
                            path@,
                            r.0,
                        ),
                        DerivedDirectoryRequest::GetToken => r.0 == spec_get_token_outcome(
                            old(self).base,
                        ),
                        DerivedDirectoryRequest::Rename { src, dst_parent_token, dst } => r.0
                            == spec_rename_outcome(old(self).base, src, dst_parent_token, dst),
                    }
                },
            },
    {
        match DirectoryRequestType::classify(request) {
            DirectoryRequestType::Base(base_request) => {
                let (outcome, state) = self.base.handle_request(base_request);
                (MutableOutcome::Base(outcome), state)
            },
            DirectoryRequestType::Derived(derived_request) => {
                (self.handle_derived_request(derived_request), ConnectionState::Alive)
            },
        }
    }

    /// Dispatches one request of the mutating protocol half.
    pub fn handle_derived_request(&mut self, request: DerivedDirectoryRequest) -> (r:
        MutableOutcome)
        ensures
            final(self).base == old(self).base,
            match request {
                DerivedDirectoryRequest::Unlink { path } => spec_unlink_outcome_matches(
                    old(self).base.flags,
                    path@,
                    r,
                ),
                DerivedDirectoryRequest::GetToken => r == spec_get_token_outcome(old(self).base),
                DerivedDirectoryRequest::Rename { src, dst_parent_token, dst } => r
                    == spec_rename_outcome(old(self).base, src, dst_parent_token, dst),
            },
    {
        match request {
            DerivedDirectoryRequest::Unlink { path } => self.handle_unlink(path),
            DerivedDirectoryRequest::GetToken => self.handle_get_token(),
            DerivedDirectoryRequest::Rename { src, dst_parent_token, dst } => {
                self.handle_rename(src, dst_parent_token, dst)
            },
        }
    }

    /// Decides an unlink request.  Unlink deliberately does not traverse:
    /// a path naming more than one level is rejected as bad, so only an
    /// entry of this very directory can be unlinked.
    pub fn handle_unlink(&mut self, path: Vec<u8>) -> (r: MutableOutcome)
        ensures
            final(self).base == old(self).base,
            spec_unlink_outcome_matches(old(self).base.flags, path@, r),
    {
        if self.base.flags & OPEN_RIGHT_WRITABLE == 0 {
            return MutableOutcome::Respond(Status::AccessDenied);
        }
        if path.len() == 0 {
            return MutableOutcome::Respond(Status::BadPath);
        }
        if path.len() == 1 && (path[0] == SEPARATOR || path[0] == DOT) {
            proof {
                if path@[0] == SEPARATOR {
                    assert(path@ =~= seq![SEPARATOR]);
                } else {
                    assert(path@ =~= seq![DOT]);
                }
            }
            return MutableOutcome::Respond(Status::BadPath);
        }
        if path.len() == 2 && path[0] == DOT && path[1] == SEPARATOR {
            proof {
                assert(path@ =~= seq![DOT, SEPARATOR]);
            }
            return MutableOutcome::Respond(Status::BadPath);
        }
        proof {
            assert(path@ != seq![SEPARATOR]);
            assert(path@ != seq![DOT]);
            assert(path@ != seq![DOT, SEPARATOR]);
        }
        let parsed = match Path::validate_and_split(path) {
            Ok(p) => p,
            Err(status) => {
                return MutableOutcome::Respond(status);
            },
        };
        match parsed.as_single_component() {
            Some(name) => MutableOutcome::Unlink { name },
            None => MutableOutcome::Respond(Status::BadPath),
        }
    }

    /// Decides a GetToken request: the connection must be writable, and
    /// the scope must offer a token registry; then a token for this
    /// directory is minted.
    pub fn handle_get_token(&self) -> (r: MutableOutcome)
        ensures
            r == spec_get_token_outcome(self.base),
    {
        if self.base.flags & OPEN_RIGHT_WRITABLE == 0 {
            return MutableOutcome::Respond(Status::AccessDenied);
        }
        if !self.base.scope.has_token_registry {
            return MutableOutcome::Respond(Status::NotSupported);
        }
        MutableOutcome::MintToken
    }

    /// Decides a Rename request: the connection must be writable, the
    /// scope must offer a token registry; then the destination token is
    /// resolved.
    pub fn handle_rename(&self, src: Vec<u8>, dst_parent_token: u64, dst: Vec<u8>) -> (r:
        MutableOutcome)
        ensures
            r == spec_rename_outcome(self.base, src, dst_parent_token, dst),
    {
        if self.base.flags & OPEN_RIGHT_WRITABLE == 0 {
            return MutableOutcome::Respond(Status::AccessDenied);
        }
        if !self.base.scope.has_token_registry {
            return MutableOutcome::Respond(Status::NotSupported);
        }
        MutableOutcome::LookupRenameTarget { src, token: dst_parent_token, dst }
    }
}

/// What a GetToken request yields: denied without the writable right,
/// unsupported without a token registry, and otherwise a token is minted.
pub open spec fn spec_get_token_outcome(base: BaseConnection) -> MutableOutcome {
    if base.flags & OPEN_RIGHT_WRITABLE == 0 {
        MutableOutcome::Respond(Status::AccessDenied)
    } else if !base.scope.has_token_registry {
        MutableOutcome::Respond(Status::NotSupported)
    } else {
        MutableOutcome::MintToken
    }
}

/// What a Rename request yields before any collaborator is involved:
/// denied without the writable right, unsupported without a token
/// registry, and otherwise the destination token is looked up.
pub open spec fn spec_rename_outcome(
    base: BaseConnection,
    src: Vec<u8>,
    token: u64,
    dst: Vec<u8>,
) -> MutableOutcome {
    if base.flags & OPEN_RIGHT_WRITABLE == 0 {
        MutableOutcome::Respond(Status::AccessDenied)
    } else if !base.scope.has_token_registry {
        MutableOutcome::Respond(Status::NotSupported)
    } else {
        MutableOutcome::LookupRenameTarget { src, token, dst }
    }
}

/// The reply to an Unlink request once the directory answered.
pub fn unlink_finish(result: Result<(), Status>) -> (r: Status)
    ensures
        r == match result {
            Ok(_) => Status::Okay,
            Err(s) => s,
        },
{
    match result {
        Ok(_) => Status::Okay,
        Err(s) => s,
    }
}

/// The reply to a GetToken request once the registry answered: the minted
/// token, or the registry's error and no token.
pub fn get_token_finish(result: Result<u64, Status>) -> (r: (Status, Option<u64>))
    ensures
        r == match result {
            Ok(token) => (Status::Okay, Some(token)),
            Err(s) => (s, None::<u64>),
        },
{
    match result {
        Ok(token) => (Status::Okay, Some(token)),
        Err(s) => (s, None),
    }
}

/// Continues a Rename request once the token registry answered: a
/// registry failure is the reply; an unknown or expired token is not
/// found; otherwise the filesystem-level rename runs between this
/// connection's directory and the directory the token names.
pub fn rename_after_lookup_container(container: Result<Option<u64>, Status>) -> (r: Result<
    u64,
    Status,
>)
    ensures
        r == match container {
            Err(s) => Err::<u64, Status>(s),
            Ok(None) => Err::<u64, Status>(Status::NotFound),
            Ok(Some(dir)) => Ok::<u64, Status>(dir),
        },
{
    match container {
        Err(s) => Err(s),
        Ok(None) => Err(Status::NotFound),
        Ok(Some(dir)) => Ok(dir),
    }
}

/// The reply to a Rename request once the filesystem answered.
pub fn rename_finish(result: Result<(), Status>) -> (r: Status)
    ensures
        r == match result {
            Ok(_) => Status::Okay,
            Err(s) => s,
        },
{
    match result {
        Ok(_) => Status::Okay,
        Err(s) => s,
    }
}

/// The kind of entry an open-with-create request asks the scope's entry
/// constructor to make.
#[derive(Clone, Copy, Debug, PartialEq, Eq, Structural)]
pub enum NewEntryType {
    Directory,
    File,
}

/// The entry type consistent with `flags`, `mode` and the path's trailing
/// separator, or invalid-arguments when they contradict each other.
pub open spec fn spec_new_entry_type(flags: u32, mode: u32, path_is_dir: bool) -> Result<
    NewEntryType,
    Status,
> {
    let wants_dir = flags & OPEN_FLAG_DIRECTORY != 0 || mode & MODE_TYPE_MASK
        == MODE_TYPE_DIRECTORY || path_is_dir;
    let wants_file = flags & OPEN_FLAG_NOT_DIRECTORY != 0 || (mode & MODE_TYPE_MASK != 0 && mode
        & MODE_TYPE_MASK != MODE_TYPE_DIRECTORY);
    if wants_dir && wants_file {
        Err(Status::InvalidArgs)
    } else if wants_dir {
        Ok(NewEntryType::Directory)
    } else {
        Ok(NewEntryType::File)
    }
}

impl NewEntryType {
    /// The entry type an open-with-create request demands, from its
    /// flags, its mode, and whether the path insisted on a directory.
    pub fn from_flags_and_mode(flags: u32, mode: u32, path_is_dir: bool) -> (r: Result<
        NewEntryType,
        Status,
    >)
        ensures
            r == spec_new_entry_type(flags, mode, path_is_dir),
    {
        let wants_dir = flags & OPEN_FLAG_DIRECTORY != 0 || mode & MODE_TYPE_MASK
            == MODE_TYPE_DIRECTORY || path_is_dir;
        let wants_file = flags & OPEN_FLAG_NOT_DIRECTORY != 0 || (mode & MODE_TYPE_MASK != 0 && mode
            & MODE_TYPE_MASK != MODE_TYPE_DIRECTORY);
        if wants_dir && wants_file {
            Err(Status::InvalidArgs)
        } else if wants_dir {
            Ok(NewEntryType::Directory)
        } else {
            Ok(NewEntryType::File)
        }
    }
}

/// What opening a missing entry through a mutable directory decides:
/// without the create flag the entry is not found; with contradictory
/// type demands the arguments are invalid; without an entry constructor
/// on the scope, creation is unsupported; otherwise the constructor is
/// asked for an entry of the demanded type.
pub fn entry_not_found(scope: ExecutionScope, flags: u32, mode: u32, path_is_dir: bool) -> (r:
    Result<NewEntryType, Status>)
    ensures
        r == if flags & OPEN_FLAG_CREATE == 0 {
            Err::<NewEntryType, Status>(Status::NotFound)
        } else {
            match spec_new_entry_type(flags, mode, path_is_dir) {
                Err(s) => Err::<NewEntryType, Status>(s),
                Ok(t) => if !scope.has_entry_constructor {
                    Err::<NewEntryType, Status>(Status::NotSupported)
                } else {
                    Ok::<NewEntryType, Status>(t)
                },
            }
        },
{
    if flags & OPEN_FLAG_CREATE == 0 {
        return Err(Status::NotFound);
    }
    let type_ = match NewEntryType::from_flags_and_mode(flags, mode, path_is_dir) {
        Ok(t) => t,
        Err(s) => {
            return Err(s);
        },
    };
    if !scope.has_entry_constructor {
        return Err(Status::NotSupported);
    }
    Ok(type_)
}

} // verus!
