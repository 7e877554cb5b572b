//! A node that forwards open requests to a remote server.
//!
//! The routing callback that actually reaches the remote lives with the
//! host; the node here carries the dirent type it reports and decides,
//! for each open, whether to forward, to serve a local node-reference
//! stub, or to reject the path.  By design there is no flag validation
//! before forwarding: the remote endpoint owns that responsibility.

use vstd::prelude::*;

use crate::entry::{is_valid_dirent_type, DirectoryEntry, EntryInfo, DIRENT_TYPE_DIRECTORY,
    DIRENT_TYPE_UNKNOWN, INO_UNKNOWN};
use crate::flags::{OPEN_FLAG_DESCRIBE, OPEN_FLAG_NODE_REFERENCE, OPEN_FLAG_NO_REMOTE};
use crate::path::{Path, DOT};
use crate::status::Status;

verus! {

/// How an open of a remote node proceeds.
#[derive(Clone, Copy, Debug, PartialEq, Eq, Structural)]
pub enum RemoteOpenPlan {
    /// A node-reference or no-remote open names a path below the node:
    /// report a bad path over the new channel, with an event only when
    /// `describe` is set.
    ErrBadPath { describe: bool },
    /// Serve a local stub node connection with these flags, so attribute
    /// queries work without reaching the remote.
    AsNode { flags: u32 },
    /// Forward scope, flags, mode, path and channel verbatim to the
    /// routing callback.
    Forward,
}

/// The plan an open with `flags` of a path that is empty or not follows:
/// a node-reference or no-remote open stays local (and a no-remote open
/// becomes a node-reference one); everything else is forwarded.
pub open spec fn spec_remote_open_plan(flags: u32, path_empty: bool) -> RemoteOpenPlan {
    if flags & OPEN_FLAG_NODE_REFERENCE != 0 || flags & OPEN_FLAG_NO_REMOTE != 0 {
        if !path_empty {
            RemoteOpenPlan::ErrBadPath { describe: flags & OPEN_FLAG_DESCRIBE != 0 }
        } else if flags & OPEN_FLAG_NO_REMOTE != 0 {
            RemoteOpenPlan::AsNode {
                flags: (flags & !OPEN_FLAG_NO_REMOTE) | OPEN_FLAG_NODE_REFERENCE,
            }
        } else {
            RemoteOpenPlan::AsNode { flags }
        }
    } else {
        RemoteOpenPlan::Forward
    }
}

/// A node that forwards most opens to another entity.
pub struct Remote {
    dirent_type: u8,
}

impl Remote {
    /// Every remote node carries a known dirent type.
    #[verifier::type_invariant]
    spec fn type_inv(self) -> bool {
        is_valid_dirent_type(self.dirent_type)
    }
}

/// A remote node reporting the given dirent type for enumeration.
pub fn remote_with_type(dirent_type: u8) -> (r: Remote)
    requires
        is_valid_dirent_type(dirent_type),
    ensures
        r.spec_dirent_type() == dirent_type,
{
    Remote { dirent_type }
}

/// A remote node of unknown dirent type.
pub fn remote() -> (r: Remote)
    ensures
        r.spec_dirent_type() == DIRENT_TYPE_UNKNOWN,
{
    Remote { dirent_type: DIRENT_TYPE_UNKNOWN }
}

/// A remote node standing for a directory served elsewhere, as used when
/// handing a whole subtree off to another server.
pub fn remote_dir() -> (r: Remote)
    ensures
        r.spec_dirent_type() == DIRENT_TYPE_DIRECTORY,
{
    Remote { dirent_type: DIRENT_TYPE_DIRECTORY }
}

impl Remote {
    /// The dirent type this node reports.
    pub closed spec fn spec_dirent_type(&self) -> u8 {
        self.dirent_type
    }

    /// Decides an open of this node: node-reference and no-remote opens
    /// are served locally (rejecting any path below the node), and
    /// everything else is forwarded verbatim to the routing callback.
    pub fn open_plan(&self, flags: u32, path: &Path) -> (r: RemoteOpenPlan)
        ensures
            r == spec_remote_open_plan(flags, path.spec_body().len() == 0),
    {
        if flags & OPEN_FLAG_NODE_REFERENCE != 0 || flags & OPEN_FLAG_NO_REMOTE != 0 {
            if !path.is_empty() {
                return RemoteOpenPlan::ErrBadPath { describe: flags & OPEN_FLAG_DESCRIBE != 0 };
            }
            if flags & OPEN_FLAG_NO_REMOTE != 0 {
                return RemoteOpenPlan::AsNode {
                    flags: (flags & !OPEN_FLAG_NO_REMOTE) | OPEN_FLAG_NODE_REFERENCE,
                };
            }
            return RemoteOpenPlan::AsNode { flags };
        }
        RemoteOpenPlan::Forward
    }
}

/// The path bytes a forwarded open hands to the remote: the self path is
/// spelled `.`, any other path keeps its bytes and its trailing
/// separator.
pub fn forward_path(path: Path) -> (r: Vec<u8>)
    ensures
        r@ == if path.spec_body().len() == 0 {
            seq![DOT]
        } else if path.spec_is_dir() {
            path.spec_body() + seq![crate::path::SEPARATOR]
        } else {
            path.spec_body()
        },
{
    if path.is_empty() {
        let mut dot: Vec<u8> = Vec::new();
        dot.push(DOT);
        proof {
            assert(dot@ =~= seq![DOT]);
        }
        return dot;
    }
    path.into_bytes()
}

impl DirectoryEntry for Remote {
    /// A remote node enumerates under its configured type without an
    /// inode.
    fn entry_info(&self) -> (r: EntryInfo)
        ensures
            r.wf(),
    {
        proof {
            use_type_invariant(self);
        }
        EntryInfo::new(INO_UNKNOWN, self.dirent_type)
    }

    /// Hard links across a remote boundary are not allowed.
    fn can_hardlink(&self) -> bool {
        false
    }
}

} // verus!
