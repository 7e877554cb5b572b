//! The filesystem-level rename operation and its lock ordering.
//!
//! Renaming between two directories must hold both directories' locks,
//! and two concurrent renames in opposite directions would deadlock if
//! each took its source first.  Every directory therefore carries a
//! stable order key, assigned at construction in creation order, and the
//! lock of the lower-ordered directory is always taken first, system
//! wide.  Renaming within one directory takes a single lock.

use vstd::prelude::*;

verus! {

/// How a rename acquires directory locks, given the order keys of the
/// source and destination directories.
#[derive(Clone, Copy, Debug, PartialEq, Eq, Structural)]
pub enum RenamePlan {
    /// Source and destination are the same directory: remove and reinsert
    /// under its single lock.
    Within,
    /// The source orders first: lock it, then complete the insert under
    /// the destination's lock.
    SourceFirst,
    /// The destination orders first: lock it, then remove from the source
    /// under its lock and complete the insert.
    DestinationFirst,
}

/// The plan a rename follows for these order keys.
pub open spec fn spec_rename_plan(src_order: u64, dst_order: u64) -> RenamePlan {
    if src_order < dst_order {
        RenamePlan::SourceFirst
    } else if src_order == dst_order {
        RenamePlan::Within
    } else {
        RenamePlan::DestinationFirst
    }
}

/// The order keys of the locks a plan acquires, in acquisition order.
pub open spec fn spec_plan_locks(plan: RenamePlan, src_order: u64, dst_order: u64) -> Seq<u64> {
    match plan {
        RenamePlan::Within => seq![src_order],
        RenamePlan::SourceFirst => seq![src_order, dst_order],
        RenamePlan::DestinationFirst => seq![dst_order, src_order],
    }
}

/// The locks a rename between these order keys acquires, in order.
pub open spec fn spec_rename_locks(src_order: u64, dst_order: u64) -> Seq<u64> {
    spec_plan_locks(spec_rename_plan(src_order, dst_order), src_order, dst_order)
}

/// The rename entry point of a filesystem of uniform pseudo directories.
/// It decides the locking plan; removing and inserting the entries under
/// those locks is the directories' own, synchronous work.
pub struct SimpleFilesystem {

}

impl SimpleFilesystem {
    /// A filesystem whose rename follows the global lock order.
    pub fn new() -> (r: Self)
    {
        SimpleFilesystem {  }
    }

    /// Plans a rename between the directories with these order keys: the
    /// same key is a rename within one directory; otherwise the
    /// lower-ordered directory's lock is acquired first, whichever side
    /// it is on.
    pub fn rename(&self, src_order: u64, dst_order: u64) -> (r: RenamePlan)
        ensures
            r == spec_rename_plan(src_order, dst_order),
    {
        if src_order < dst_order {
            RenamePlan::SourceFirst
        } else if src_order == dst_order {
            RenamePlan::Within
        } else {
            RenamePlan::DestinationFirst
        }
    }
}

/// Rename lock ordering is deadlock-free: two renames between the same
/// two directories, whichever direction each goes, acquire the locks in
/// the very same ascending order, so neither can hold a lock the other
/// waits for.
pub proof fn lemma_rename_lock_order_consistent(a: u64, b: u64)
    ensures
        spec_rename_locks(a, b) == spec_rename_locks(b, a),
        a != b ==> spec_rename_locks(a, b).len() == 2 && spec_rename_locks(a, b)[0]
            < spec_rename_locks(a, b)[1],
        a == b ==> spec_rename_locks(a, b) == seq![a],
{
    if a < b {
        assert(spec_rename_locks(a, b) =~= seq![a, b]);
        assert(spec_rename_locks(b, a) =~= seq![a, b]);
    } else if a == b {
        assert(spec_rename_locks(a, b) =~= seq![a]);
        assert(spec_rename_locks(b, a) =~= seq![a]);
    } else {
        assert(spec_rename_locks(a, b) =~= seq![b, a]);
        assert(spec_rename_locks(b, a) =~= seq![b, a]);
    }
}

} // verus!
