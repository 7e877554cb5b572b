//! A virtual filesystem layer: an in-process tree of pseudo-nodes
//! (directories, files, remote forwarders) served to clients over
//! per-connection protocol state machines.
//!
//! The library holds the protocol logic itself: open-flag validation and
//! rights inheritance, directory and file connection dispatch, directory
//! entry enumeration with pagination, and the lock-ordering rule for
//! cross-directory renames.  Transport, task spawning and the backing
//! stores are collaborators: every operation that touches them is split
//! into a decision that is verified here and a completion function that
//! takes the collaborator's answer as an argument.

/// The shared directory connection state machine and its request
/// dispatch.
pub mod connection;
/// Validation of directory and child-connection flags.
pub mod directory;
/// The dirents page encoding, its decoder, and the pagination sink.
pub mod dirents;
/// The node contract and the entry-info value used for enumeration.
pub mod entry;
/// The file connection state machine: reads, writes, seeks and clones.
pub mod file;
/// Cross-directory rename and its lock ordering.
pub mod filesystem;
/// Flag words, rights, and rights inheritance.
pub mod flags;
/// The mutable directory connection: unlink, tokens and rename.
pub mod mutable;
/// Request path validation.
pub mod path;
/// Pseudo files backed by per-connection buffers and host callbacks.
pub mod pcb;
/// Description of a ramdisk to be provisioned by the platform layer.
pub mod ramdisk;
/// Nodes that forward opens to a remote server.
pub mod remote;
/// The execution scope a connection is bound to.
pub mod scope;
/// The status codes surfaced to clients.
pub mod status;
