//! Pseudo files with per-connection buffers, backed by host callbacks.
//!
//! Each connection to such a file gets a buffer of its own: an
//! `init_buffer` callback fills it when the connection opens, and an
//! `update` callback receives it when a connection that modified the
//! content closes.  The callbacks themselves run with the host; the file
//! value here records which callbacks exist and decides every open.

use vstd::prelude::*;

use crate::entry::{DirectoryEntry, EntryInfo, DIRENT_TYPE_FILE, INO_UNKNOWN};
use crate::file::{FileConnectionSetup, FileConnection, spec_file_validate_flags};
use crate::flags::OPEN_FLAG_DESCRIBE;
use crate::path::Path;
use crate::status::Status;

verus! {

/// Placeholder for the result of the `update` callback of a file that has
/// none: such a result never becomes available, because the callback is
/// never invoked.
pub struct StubUpdateRes;

/// Placeholder for the result of the `init_buffer` callback of a file
/// that has none: such a result never becomes available, because the
/// callback is never invoked.
pub struct StubInitBufferRes;

/// Where the per-connection buffer of a fresh connection comes from.
#[derive(Clone, Copy, Debug, PartialEq, Eq, Structural)]
pub enum InitBufferSource {
    /// Invoke the file's `init_buffer` callback.
    Callback,
    /// The file is not readable; asking anyway is a caller bug, and the
    /// safe answer is an empty buffer.
    EmptyFallback,
}

/// Where the modified buffer of a closing connection goes.
#[derive(Clone, Copy, Debug, PartialEq, Eq, Structural)]
pub enum UpdateSink {
    /// Invoke the file's `update` callback with the buffer.
    Callback,
    /// The file is not writable; handing it a buffer anyway is a caller
    /// bug, and the safe answer is to accept and discard it.
    DiscardFallback,
}

/// An asynchronous pseudo file: readable when an `init_buffer` callback
/// exists, writable when an `update` callback exists, with a capacity
/// bounding the per-connection buffer.  For a file serving static
/// content, the content is recorded here and the host's `init_buffer`
/// hands it out.
pub struct AsyncPseudoFile {
    has_init_buffer: bool,
    capacity: u64,
    has_update: bool,
    content: Option<Vec<u8>>,
}

/// A readable pseudo file that serves the given bytes to every
/// connection.
pub fn read_only_static(bytes: Vec<u8>) -> (r: AsyncPseudoFile)
    ensures
        r.spec_readable(),
        !r.spec_writable(),
        r.spec_capacity() == bytes@.len(),
        r.spec_content() == Some(bytes),
{
    let capacity = bytes.len() as u64;
    AsyncPseudoFile { has_init_buffer: true, capacity, has_update: false, content: Some(bytes) }
}

/// A write-only pseudo file: the host's `update` callback receives each
/// connection's final buffer, which grows up to `capacity` bytes.
pub fn write_only(capacity: u64) -> (r: AsyncPseudoFile)
    ensures
        !r.spec_readable(),
        r.spec_writable(),
        r.spec_capacity() == capacity,
        r.spec_content() is None,
{
    AsyncPseudoFile { has_init_buffer: false, capacity, has_update: true, content: None }
}

impl AsyncPseudoFile {
    /// Whether an `init_buffer` callback exists, making the file
    /// readable.
    pub closed spec fn spec_readable(&self) -> bool {
        self.has_init_buffer
    }

    /// Whether an `update` callback exists, making the file writable.
    pub closed spec fn spec_writable(&self) -> bool {
        self.has_update
    }

    /// The byte bound of each per-connection buffer.
    pub closed spec fn spec_capacity(&self) -> u64 {
        self.capacity
    }

    /// The static content, for a file that serves one.
    pub closed spec fn spec_content(&self) -> Option<Vec<u8>> {
        self.content
    }

    /// A pseudo file with the given callbacks recorded and no static
    /// content.
    pub fn new(has_init_buffer: bool, capacity: u64, has_update: bool) -> (r: Self)
        ensures
            r.spec_readable() == has_init_buffer,
            r.spec_writable() == has_update,
            r.spec_capacity() == capacity,
            r.spec_content() is None,
    {
        AsyncPseudoFile { has_init_buffer, capacity, has_update, content: None }
    }

    /// The byte bound of each per-connection buffer.
    pub fn capacity(&self) -> (r: u64)
        ensures
            r == self.spec_capacity(),
    {
        self.capacity
    }

    /// The static content, for a file that serves one.
    pub fn content(&self) -> (r: &Option<Vec<u8>>)
        ensures
            r == self.spec_content(),
    {
        &self.content
    }

    /// Where the buffer of a fresh connection comes from: the callback if
    /// the file has one, and the safe empty fallback otherwise.
    pub fn init_buffer_source(&self) -> (r: InitBufferSource)
        ensures
            r == if self.spec_readable() {
                InitBufferSource::Callback
            } else {
                InitBufferSource::EmptyFallback
            },
    {
        if self.has_init_buffer {
            InitBufferSource::Callback
        } else {
            InitBufferSource::EmptyFallback
        }
    }

    /// Where the modified buffer of a closing connection goes: the
    /// callback if the file has one, and discarded otherwise.
    pub fn update_sink(&self) -> (r: UpdateSink)
        ensures
            r == if self.spec_writable() {
                UpdateSink::Callback
            } else {
                UpdateSink::DiscardFallback
            },
    {
        if self.has_update {
            UpdateSink::Callback
        } else {
            UpdateSink::DiscardFallback
        }
    }

    /// Decides an open of this file: a file has no entries, so any
    /// non-empty path misses; otherwise the connection is set up with the
    /// rights the callbacks can back.
    pub fn open_connection(&self, path: &Path, flags: u32) -> (r: Result<
        FileConnectionSetup,
        (Status, bool),
    >)
        ensures
            match r {
                Ok(setup) => {
                    &&& path.spec_body().len() == 0
                    &&& spec_file_validate_flags(
                        flags,
                        self.spec_readable(),
                        self.spec_writable(),
                        false,
                        true,
                    ) matches Ok(f) && setup.connection.flags == f
                    &&& setup.connection.seek == 0
                    &&& setup.truncate == (setup.connection.flags & crate::flags::OPEN_FLAG_TRUNCATE
                        != 0)
                    &&& setup.describe == (setup.connection.flags & OPEN_FLAG_DESCRIBE != 0)
                },
                Err((status, describe)) => {
                    &&& describe == (flags & OPEN_FLAG_DESCRIBE != 0)
                    &&& if path.spec_body().len() > 0 {
                        status == Status::NotDir
                    } else {
                        spec_file_validate_flags(
                            flags,
                            self.spec_readable(),
                            self.spec_writable(),
                            false,
                            true,
                        ) == Err::<u32, Status>(status)
                    }
                },
            },
    {
        if !path.is_empty() {
            return Err((Status::NotDir, flags & OPEN_FLAG_DESCRIBE != 0));
        }
        FileConnection::create_connection(flags, self.has_init_buffer, self.has_update, false)
    }
}

impl DirectoryEntry for AsyncPseudoFile {
    /// A pseudo file enumerates as a file without an inode.
    fn entry_info(&self) -> (r: EntryInfo)
        ensures
            r.wf(),
    {
        EntryInfo::new(INO_UNKNOWN, DIRENT_TYPE_FILE)
    }

    /// Hard links to a pseudo file are allowed.
    fn can_hardlink(&self) -> bool {
        true
    }
}

} // verus!
