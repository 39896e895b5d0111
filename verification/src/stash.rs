//! Stash snapshot identities and lookup by identity, not by position.

use vstd::prelude::*;

verus! {

/// The identity of a stash snapshot: the engine's content-derived 160-bit
/// object id, carried as plain integer fields. A snapshot is located later
/// by value equality on this identity, never by its stack position, because
/// other snapshots may be created or removed in between.
#[derive(Clone, Copy, PartialEq, Eq, Structural, Debug)]
pub struct StashId {
    pub hi: u128,
    pub lo: u32,
}

/// Finds the snapshot with identity `id` in `list` (the stash entries in
/// the order the engine enumerates them) and returns the index of the
/// first match, or `None` if no entry has that identity.
pub fn find_stash_index(list: &Vec<StashId>, id: StashId) -> (r: Option<usize>)
    ensures
        match r {
            Some(k) => {
                &&& k < list@.len()
                &&& list@[k as int] == id
                &&& forall|j: int| 0 <= j < k ==> list@[j] != id
            },
            None => forall|j: int| 0 <= j < list@.len() ==> list@[j] != id,
        },
{
    let mut k: usize = 0;
    while k < list.len()
        invariant
            k <= list@.len(),
            forall|j: int| 0 <= j < k ==> list@[j] != id,
        decreases list@.len() - k,
    {
        let entry = list[k];
        if entry.hi == id.hi && entry.lo == id.lo {
            return Some(k);
        }
        k += 1;
    }
    None
}

} // verus!
