//! Binary encoding of directory-enumeration pages, and the pull-based
//! pagination sink.
//!
//! A page is a packed sequence of records `{inode: u64 little-endian,
//! name_len: u8, dirent_type: u8, name: name_len bytes}`.  Encoding is
//! budgeted: a record is appended only if the page stays within the
//! caller-supplied byte budget, which is the backpressure mechanism of the
//! enumeration protocol.

use vstd::prelude::*;
use vstd::slice::{slice_index_get, slice_subrange};

use byteorder::{LittleEndian, WriteBytesExt};

use crate::entry::EntryInfo;
use crate::status::Status;

verus! {

/// The longest name a directory entry may carry; it must fit the one-byte
/// length field of the record header.
pub const MAX_FILENAME: u64 = 255;

/// Bytes of a record before the name: inode, name length, dirent type.
pub const DIRENT_HEADER_SIZE: u64 = 10;

/// Relies on byteorder's `WriteBytesExt::write_u64::<LittleEndian>`:
/// appends exactly the eight little-endian bytes of `v` to `buf`.
/// Writing into a `Vec` cannot fail.
#[verifier::external_body]
fn write_u64_le(buf: &mut Vec<u8>, v: u64)
    ensures
        final(buf)@ == old(buf)@ + vstd::bytes::spec_u64_to_le_bytes(v),
{
    buf.write_u64::<LittleEndian>(v).expect("writing to a Vec cannot fail");
}

/// The wire encoding of one directory entry record.
pub open spec fn dirent_record(inode: u64, type_: u8, name: Seq<u8>) -> Seq<u8> {
    vstd::bytes::spec_u64_to_le_bytes(inode) + seq![name.len() as u8, type_] + name
}

/// Appends the record for `entry` named `name` to `buf`, but only if the
/// result stays within `max_bytes`; otherwise the buffer is left untouched
/// byte for byte and the call reports that the entry was not added.  The
/// buffer never grows past `max_bytes`.
pub fn encode_dirent(buf: &mut Vec<u8>, max_bytes: u64, entry: &EntryInfo, name: &[u8]) -> (r:
    bool)
    requires
        name@.len() <= MAX_FILENAME,
    ensures
        r == (old(buf)@.len() + DIRENT_HEADER_SIZE + name@.len() <= max_bytes),
        r ==> final(buf)@ == old(buf)@ + dirent_record(entry.spec_inode(), entry.spec_type(), name@),
        r ==> final(buf)@.len() <= max_bytes,
        !r ==> final(buf)@ == old(buf)@,
{
    proof {
        vstd::bytes::lemma_auto_spec_u64_to_from_le_bytes();
    }
    if buf.len() as u128 + DIRENT_HEADER_SIZE as u128 + name.len() as u128 > max_bytes as u128 {
        return false;
    }
    let ghost prefix = buf@;
    write_u64_le(buf, entry.inode());
    buf.push(name.len() as u8);
    buf.push(entry.type_());
    let mut i: usize = 0;
    while i < name.len()
        invariant
            i <= name@.len(),
            name@.len() <= MAX_FILENAME,
            buf@ == prefix + vstd::bytes::spec_u64_to_le_bytes(entry.spec_inode())
                + seq![name@.len() as u8, entry.spec_type()] + name@.subrange(0, i as int),
        decreases name@.len() - i,
    {
        buf.push(*slice_index_get(name, i));
        proof {
            assert(buf@ =~= prefix + vstd::bytes::spec_u64_to_le_bytes(entry.spec_inode())
                + seq![name@.len() as u8, entry.spec_type()] + name@.subrange(0, i + 1));
        }
        i = i + 1;
    }
    proof {
        assert(name@.subrange(0, name@.len() as int) =~= name@);
        assert(buf@ =~= prefix + dirent_record(entry.spec_inode(), entry.spec_type(), name@));
    }
    true
}

/// The entries described by a page, or nothing if the page is not a whole
/// number of well-formed records.  Each entry is (inode, dirent type, name).
pub open spec fn decode_dirents_spec(bytes: Seq<u8>) -> Option<Seq<(u64, u8, Seq<u8>)>>
    decreases bytes.len(),
{
    if bytes.len() == 0 {
        Some(Seq::empty())
    } else if bytes.len() < DIRENT_HEADER_SIZE {
        None
    } else {
        let n = bytes[8] as int;
        if bytes.len() < DIRENT_HEADER_SIZE + n {
            None
        } else {
            let inode = vstd::bytes::spec_u64_from_le_bytes(bytes.subrange(0, 8));
            let type_ = bytes[9];
            let name = bytes.subrange(10, 10 + n);
            match decode_dirents_spec(bytes.skip(10 + n)) {
                Some(rest) => Some(seq![(inode, type_, name)] + rest),
                None => None,
            }
        }
    }
}

/// The page that encodes `entries` back to back, in order.
pub open spec fn encode_dirents_spec(entries: Seq<(u64, u8, Seq<u8>)>) -> Seq<u8>
    decreases entries.len(),
{
    if entries.len() == 0 {
        Seq::empty()
    } else {
        dirent_record(entries[0].0, entries[0].1, entries[0].2) + encode_dirents_spec(
            entries.drop_first(),
        )
    }
}

/// Encoding entries and then decoding the page yields the original
/// (inode, type, name) sequence, in the same order, whenever every name
/// fits the one-byte length field.
pub proof fn lemma_dirents_round_trip(entries: Seq<(u64, u8, Seq<u8>)>)
    requires
        forall|i: int| 0 <= i < entries.len() ==> (#[trigger] entries[i]).2.len() <= MAX_FILENAME,
    ensures
        decode_dirents_spec(encode_dirents_spec(entries)) == Some(entries),
    decreases entries.len(),
{
    vstd::bytes::lemma_auto_spec_u64_to_from_le_bytes();
    if entries.len() == 0 {
        assert(decode_dirents_spec(encode_dirents_spec(entries)) =~= Some(entries));
    } else {
        let e = entries[0];
        let record = dirent_record(e.0, e.1, e.2);
        let rest_bytes = encode_dirents_spec(entries.drop_first());
        let bytes = encode_dirents_spec(entries);
        assert(bytes == record + rest_bytes);
        let n = e.2.len() as int;
        assert(record.len() == 10 + n);
        assert(bytes[8] == e.2.len() as u8);
        assert(bytes[8] as int == n);
        assert(bytes.subrange(0, 8) =~= vstd::bytes::spec_u64_to_le_bytes(e.0));
        assert(bytes[9] == e.1);
        assert(bytes.subrange(10, 10 + n) =~= e.2);
        assert(bytes.skip(10 + n) =~= rest_bytes);
        lemma_dirents_round_trip(entries.drop_first());
        assert(seq![(e.0, e.1, e.2)] + entries.drop_first() =~= entries);
    }
}

/// A resumable position in the alphabetical enumeration of one directory,
/// scoped to one connection: either the very beginning, the name of the
/// entry returned last, or the position past the final entry.
#[derive(Clone, Debug, PartialEq, Eq)]
pub enum TraversalPosition {
    Start,
    Name(Vec<u8>),
    End,
}

impl Default for TraversalPosition {
    /// Enumeration starts, and is rewound to, the very beginning.
    fn default() -> (r: Self)
        ensures
            r == TraversalPosition::Start,
    {
        TraversalPosition::Start
    }
}

/// Tells the sink whether an entry was taken; a full sink takes nothing
/// more.
#[derive(Clone, Copy, Debug, PartialEq, Eq, Structural)]
pub enum AppendResult {
    Appended,
    Full,
}

/// Accumulates one enumeration page within a byte budget.  A directory's
/// enumeration appends entries in order until the sink refuses one, then
/// seals the sink with the position of the first entry that was not taken.
pub struct DirentsSink {
    buf: Vec<u8>,
    max_bytes: u64,
    rejected_first: bool,
}

impl DirentsSink {
    /// The page accumulated so far.
    pub closed spec fn spec_buf(&self) -> Seq<u8> {
        self.buf@
    }

    /// The byte budget this sink was created with.
    pub closed spec fn spec_max_bytes(&self) -> u64 {
        self.max_bytes
    }

    /// True when an entry was refused while the page was still empty: the
    /// budget cannot fit even one record, which the sealed page reports as
    /// `BufferTooSmall`.
    pub closed spec fn spec_rejected_first(&self) -> bool {
        self.rejected_first
    }

    /// A fresh, empty sink with the given byte budget.
    pub fn new(max_bytes: u64) -> (r: Self)
        ensures
            r.spec_buf() == Seq::<u8>::empty(),
            r.spec_max_bytes() == max_bytes,
            !r.spec_rejected_first(),
    {
        DirentsSink { buf: Vec::new(), max_bytes, rejected_first: false }
    }

    /// Offers one entry to the page.  The entry is taken exactly when its
    /// record keeps the page within the budget; a refused entry leaves the
    /// page untouched.
    pub fn append(&mut self, entry: &EntryInfo, name: &[u8]) -> (r: AppendResult)
        requires
            name@.len() <= MAX_FILENAME,
        ensures
            final(self).spec_max_bytes() == old(self).spec_max_bytes(),
            (r == AppendResult::Appended) == (old(self).spec_buf().len() + DIRENT_HEADER_SIZE
                + name@.len() <= old(self).spec_max_bytes()),
            r == AppendResult::Appended ==> final(self).spec_buf() == old(self).spec_buf()
                + dirent_record(entry.spec_inode(), entry.spec_type(), name@),
            r == AppendResult::Appended ==> final(self).spec_rejected_first() == old(
                self,
            ).spec_rejected_first(),
            r == AppendResult::Full ==> final(self).spec_buf() == old(self).spec_buf(),
            r == AppendResult::Full ==> final(self).spec_rejected_first() == (old(
                self,
            ).spec_rejected_first() || old(self).spec_buf().len() == 0),
            final(self).spec_buf().len() <= final(self).spec_max_bytes() || final(self).spec_buf()
                == old(self).spec_buf(),
    {
        if encode_dirent(&mut self.buf, self.max_bytes, entry, name) {
            AppendResult::Appended
        } else {
            if self.buf.len() == 0 {
                self.rejected_first = true;
            }
            AppendResult::Full
        }
    }

    /// Seals the page with the position enumeration should resume from.
    /// The status is `BufferTooSmall` exactly when the budget could not fit
    /// the very first entry offered; otherwise the page is complete as far
    /// as it goes and the status is success.
    pub fn seal(self, pos: TraversalPosition) -> (r: DirentsDone)
        ensures
            r.buf@ == self.spec_buf(),
            r.pos == pos,
            r.status == if self.spec_rejected_first() {
                Status::BufferTooSmall
            } else {
                Status::Okay
            },
    {
        let status = if self.rejected_first {
            Status::BufferTooSmall
        } else {
            Status::Okay
        };
        DirentsDone { buf: self.buf, pos, status }
    }
}

/// A sealed enumeration page: the encoded records, the cursor the
/// connection stores for the next request, and the page status.
pub struct DirentsDone {
    pub buf: Vec<u8>,
    pub pos: TraversalPosition,
    pub status: Status,
}

/// One decoded directory entry record.
#[derive(Clone, Debug)]
pub struct Dirent {
    pub inode: u64,
    pub type_: u8,
    pub name: Vec<u8>,
}

impl Dirent {
    /// The mathematical value of this record.
    pub open spec fn as_spec(&self) -> (u64, u8, Seq<u8>) {
        (self.inode, self.type_, self.name@)
    }
}

/// The sequence of record values held by `dirents`.
pub open spec fn dirents_seq(dirents: Seq<Dirent>) -> Seq<(u64, u8, Seq<u8>)> {
    dirents.map_values(|d: Dirent| d.as_spec())
}

/// Decodes a whole page of length-prefixed records, yielding the entries
/// in encoding order, or nothing if the page is malformed.
pub fn decode_dirents(bytes: &[u8]) -> (r: Option<Vec<Dirent>>)
    ensures
        match r {
            Some(v) => decode_dirents_spec(bytes@) == Some(dirents_seq(v@)),
            None => decode_dirents_spec(bytes@) is None,
        },
{
    let mut out: Vec<Dirent> = Vec::new();
    let mut pos: usize = 0;
    proof {
        vstd::bytes::lemma_auto_spec_u64_to_from_le_bytes();
        assert(bytes@.skip(0) =~= bytes@);
        match decode_dirents_spec(bytes@) {
            Some(rest) => {
                assert(dirents_seq(out@) + rest =~= rest);
            },
            None => {},
        }
    }
    while pos < bytes.len()
        invariant
            pos <= bytes@.len(),
            decode_dirents_spec(bytes@) == match decode_dirents_spec(bytes@.skip(pos as int)) {
                Some(rest) => Some(dirents_seq(out@) + rest),
                None => None::<Seq<(u64, u8, Seq<u8>)>>,
            },
        decreases bytes@.len() - pos,
    {
        let remaining = bytes.len() - pos;
        let ghost tail = bytes@.skip(pos as int);
        if remaining < 10 {
            proof {
                assert(decode_dirents_spec(tail) is None);
            }
            return None;
        }
        let n = *slice_index_get(bytes, pos + 8);
        if remaining - 10 < n as usize {
            proof {
                assert(tail[8] == bytes@[pos + 8]);
                assert(decode_dirents_spec(tail) is None);
            }
            return None;
        }
        let inode_bytes = slice_subrange(bytes, pos, pos + 8);
        let inode = vstd::bytes::u64_from_le_bytes(inode_bytes);
        let type_ = *slice_index_get(bytes, pos + 9);
        let name_slice = slice_subrange(bytes, pos + 10, pos + 10 + n as usize);
        let mut name: Vec<u8> = Vec::new();
        let mut i: usize = 0;
        while i < name_slice.len()
            invariant
                i <= name_slice@.len(),
                name@ == name_slice@.subrange(0, i as int),
            decreases name_slice@.len() - i,
        {
            name.push(*slice_index_get(name_slice, i));
            proof {
                assert(name@ =~= name_slice@.subrange(0, i + 1));
            }
            i = i + 1;
        }
        proof {
            assert(name@ =~= name_slice@);
        }
        let ghost prev_out = out@;
        out.push(Dirent { inode, type_, name });
        proof {
            let m = n as int;
            assert(tail.subrange(0, 8) =~= bytes@.subrange(pos as int, pos + 8));
            assert(tail[8] == bytes@[pos + 8]);
            assert(tail[9] == bytes@[pos + 9]);
            assert(tail.subrange(10, 10 + m) =~= bytes@.subrange(pos + 10, pos + 10 + m));
            assert(tail.skip(10 + m) =~= bytes@.skip(pos + 10 + m));
            assert(decode_dirents_spec(tail) == match decode_dirents_spec(tail.skip(10 + m)) {
                Some(rest) => Some(
                    seq![
                        (
                            vstd::bytes::spec_u64_from_le_bytes(tail.subrange(0, 8)),
                            tail[9],
                            tail.subrange(10, 10 + m),
                        ),
                    ] + rest,
                ),
                None => None::<Seq<(u64, u8, Seq<u8>)>>,
            });
            assert(dirents_seq(out@) =~= dirents_seq(prev_out) + seq![
                (
                    vstd::bytes::spec_u64_from_le_bytes(tail.subrange(0, 8)),
                    tail[9],
                    tail.subrange(10, 10 + m),
                ),
            ]);
            match decode_dirents_spec(bytes@.skip(pos + 10 + m)) {
                Some(rest) => {
                    assert(dirents_seq(prev_out) + (seq![
                        (
                            vstd::bytes::spec_u64_from_le_bytes(tail.subrange(0, 8)),
                            tail[9],
                            tail.subrange(10, 10 + m),
                        ),
                    ] + rest) =~= dirents_seq(out@) + rest);
                },
                None => {},
            }
        }
        pos = pos + 10 + n as usize;
    }
    proof {
        assert(bytes@.skip(pos as int) =~= Seq::<u8>::empty());
        assert(decode_dirents_spec(bytes@.skip(pos as int)) == Some(Seq::<(u64, u8, Seq<u8>)>::empty()));
        assert(dirents_seq(out@) + Seq::<(u64, u8, Seq<u8>)>::empty() =~= dirents_seq(out@));
    }
    Some(out)
}

} // verus!
