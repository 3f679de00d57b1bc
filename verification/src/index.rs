//! Grouping paths by fingerprint.
//!
//! The index accumulates `(fingerprint, path)` pairs as files are discovered
//! and keeps, for each fingerprint, the list of paths in first-seen order.
//! Draining yields every group regardless of size; filtering out singleton
//! groups is the caller's explicit choice.

use vstd::prelude::*;
use std::collections::HashMap;

verus! {

broadcast use vstd::std_specs::hash::group_hash_axioms;

/// All paths sharing one content fingerprint, in first-seen order.
///
/// A group with at least two members is a duplicate group; its first member
/// is the canonical source, a pure function of discovery order.
pub struct DuplicateGroup {
    pub fingerprint: u64,
    pub paths: Vec<String>,
}

/// Accumulates `fingerprint -> ordered list of paths` as files are
/// discovered.  Appending is O(1) amortized: a hash table maps each
/// fingerprint to the position of its group.
pub struct DuplicateIndex {
    groups: Vec<DuplicateGroup>,
    slots: HashMap<u64, usize>,
}

impl DuplicateIndex {
    /// The hash table names exactly the fingerprints on file, each slot
    /// points at the group carrying that fingerprint, and every group is
    /// non-empty and registered at its own position.
    pub closed spec fn wf(&self) -> bool {
        &&& forall|i: int|
            0 <= i < self.groups@.len() ==> {
                &&& self.slots@.contains_key(#[trigger] self.groups@[i].fingerprint)
                &&& self.slots@[self.groups@[i].fingerprint] == i
                &&& self.groups@[i].paths@.len() >= 1
            }
        &&& forall|k: u64|
            self.slots@.contains_key(k) ==> {
                &&& 0 <= #[trigger] self.slots@[k] < self.groups@.len()
                &&& self.groups@[self.slots@[k] as int].fingerprint == k
            }
        &&& vstd::std_specs::hash::obeys_key_model::<u64>()
        &&& vstd::std_specs::hash::builds_valid_hashers::<std::hash::RandomState>()
    }

    /// The abstract contents: each fingerprint on file maps to its paths,
    /// in first-seen order.
    pub closed spec fn group_map(&self) -> Map<u64, Seq<String>> {
        Map::new(
            |k: u64| self.slots@.contains_key(k),
            |k: u64| self.groups@[self.slots@[k] as int].paths@,
        )
    }

    /// An empty index.
    pub fn new() -> (r: DuplicateIndex)
        ensures
            r.wf(),
            r.group_map() == Map::<u64, Seq<String>>::empty(),
    {
        let r = DuplicateIndex { groups: Vec::new(), slots: HashMap::new() };
        proof {
            assert(r.group_map() =~= Map::<u64, Seq<String>>::empty());
        }
        r
    }

    /// Append `path` to the group for `fingerprint`, creating the group if
    /// absent.  No other group changes, and order within the group is kept.
    pub fn insert(&mut self, fingerprint: u64, path: String)
        requires
            old(self).wf(),
        ensures
            final(self).wf(),
            final(self).group_map() =~= old(self).group_map().insert(
                fingerprint,
                (if old(self).group_map().contains_key(fingerprint) {
                    old(self).group_map()[fingerprint]
                } else {
                    Seq::<String>::empty()
                }).push(path),
            ),
    {
        let slot = self.slots.get(&fingerprint);
        match slot {
            Some(i) => {
                let i: usize = *i;
                let group = &mut self.groups[i];
                group.paths.push(path);
            },
            None => {
                let i = self.groups.len();
                let mut paths: Vec<String> = Vec::new();
                paths.push(path);
                self.groups.push(DuplicateGroup { fingerprint, paths });
                self.slots.insert(fingerprint, i);
            },
        }
    }

    /// Yield every group — singletons included: dropping them is the
    /// caller's explicit policy choice, not the index's.  Each returned
    /// group carries exactly the paths on file for its fingerprint, each
    /// fingerprint on file appears exactly once, and within a group the
    /// first-seen order is kept.
    pub fn drain(self) -> (r: Vec<DuplicateGroup>)
        requires
            self.wf(),
        ensures
            forall|i: int|
                0 <= i < r@.len() ==> {
                    &&& self.group_map().contains_key(#[trigger] r@[i].fingerprint)
                    &&& self.group_map()[r@[i].fingerprint] == r@[i].paths@
                },
            forall|k: u64|
                self.group_map().contains_key(k) ==> exists|i: int|
                    0 <= i < r@.len() && #[trigger] r@[i].fingerprint == k,
            forall|i: int, j: int|
                0 <= i < r@.len() && 0 <= j < r@.len() && i != j ==> r@[i].fingerprint
                    != r@[j].fingerprint,
    {
        proof {
            assert forall|k: u64| self.group_map().contains_key(k) implies exists|i: int|
                0 <= i < self.groups@.len() && #[trigger] self.groups@[i].fingerprint == k by {
                assert(self.groups@[self.slots@[k] as int].fingerprint == k);
            }
        }
        self.groups
    }
}

} // verus!
