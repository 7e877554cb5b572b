//! The polymorphic node contract and the entry-info value used when
//! enumerating a directory.

use vstd::prelude::*;

verus! {

/// Inode number reported when a node has no assigned inode.
pub const INO_UNKNOWN: u64 = 0xFFFF_FFFF_FFFF_FFFF;

pub const DIRENT_TYPE_UNKNOWN: u8 = 0;
pub const DIRENT_TYPE_DIRECTORY: u8 = 4;
pub const DIRENT_TYPE_BLOCK_DEVICE: u8 = 6;
pub const DIRENT_TYPE_FILE: u8 = 8;
pub const DIRENT_TYPE_SOCKET: u8 = 12;
pub const DIRENT_TYPE_SERVICE: u8 = 16;

/// True for the directory entry types the enumeration wire format knows.
pub open spec fn is_valid_dirent_type(type_: u8) -> bool {
    ||| type_ == DIRENT_TYPE_UNKNOWN
    ||| type_ == DIRENT_TYPE_DIRECTORY
    ||| type_ == DIRENT_TYPE_BLOCK_DEVICE
    ||| type_ == DIRENT_TYPE_FILE
    ||| type_ == DIRENT_TYPE_SOCKET
    ||| type_ == DIRENT_TYPE_SERVICE
}

/// Information about a directory entry as reported during enumeration: the
/// inode number (or `INO_UNKNOWN`) and one of the `DIRENT_TYPE_*` values.
#[derive(Clone, Debug, PartialEq, Eq, Structural)]
pub struct EntryInfo {
    inode: u64,
    type_: u8,
}

impl EntryInfo {
    /// A well-formed entry info carries a known dirent type.
    pub open spec fn wf(&self) -> bool {
        is_valid_dirent_type(self.spec_type())
    }

    /// The inode this entry reports.
    pub closed spec fn spec_inode(&self) -> u64 {
        self.inode
    }

    /// The dirent type this entry reports.
    pub closed spec fn spec_type(&self) -> u8 {
        self.type_
    }

    /// Constructs a new directory entry information object.  `type_` must
    /// be one of the `DIRENT_TYPE_*` values.
    pub fn new(inode: u64, type_: u8) -> (r: EntryInfo)
        requires
            is_valid_dirent_type(type_),
        ensures
            r.spec_inode() == inode,
            r.spec_type() == type_,
            r.wf(),
    {
        EntryInfo { inode, type_ }
    }

    /// Retrieves the `inode` argument of the [`EntryInfo::new()`] constructor.
    pub fn inode(&self) -> (r: u64)
        ensures
            r == self.spec_inode(),
    {
        self.inode
    }

    /// Retrieves the `type_` argument of the [`EntryInfo::new()`] constructor.
    pub fn type_(&self) -> (r: u8)
        ensures
            r == self.spec_type(),
    {
        self.type_
    }
}

/// The capability set every node in the tree offers to the connection
/// machinery: it can say what it is for enumeration purposes and whether a
/// hard link to it may be created.  Opening a node is not part of this
/// contract: open requests are routed by the host layer, which hands each
/// accepted one to a per-connection state machine of this library.
pub trait DirectoryEntry {
    /// How this node is reported by directory enumeration.
    fn entry_info(&self) -> (r: EntryInfo)
        ensures
            r.wf(),
    ;

    /// Whether a hard link may be made to this node.
    fn can_hardlink(&self) -> bool;
}

/// What a node must offer so that a base (shared protocol) directory
/// connection can serve it.
pub trait BaseConnectionClient: DirectoryEntry {

}

impl<T: DirectoryEntry> BaseConnectionClient for T {

}

/// What a node must offer so that an immutable directory connection can
/// serve it.
pub trait ImmutableConnectionClient: BaseConnectionClient {

}

impl<T: BaseConnectionClient> ImmutableConnectionClient for T {

}

/// What a node must offer so that a mutable directory connection can
/// serve it.  Entry insertion, removal and renaming are the node's own,
/// synchronous work under its lock.
pub trait MutableConnectionClient: BaseConnectionClient {

}

} // verus!
