//! Intern table over a sequence of weak entries kept sorted by hash.
//!
//! Entries with equal hash are contiguous but in no further order.  Lookup
//! binary-searches for the hash — landing on any entry of the equal-hash
//! run — and then scans linearly in both directions while the hash still
//! matches.  Insertion keeps the ordering.

use vstd::prelude::*;

use crate::data::InternData;
use crate::reference::Reference;
use crate::reference::ReferenceWeak;
use crate::table::sorted_by_hash;
use crate::table::EntryModel;
use crate::table::Table;
use crate::weak_entry::WeakEntry;

verus! {

pub struct TableVecSortedWeak<D, R, RW> {
    v: Vec<WeakEntry<D, R, RW>>,
}

impl<D, R, RW> TableVecSortedWeak<D, R, RW> where
    D: InternData,
    R: Reference<D>,
    RW: ReferenceWeak<D, R>,
 {
    pub closed spec fn entries_wf(&self) -> bool {
        forall|i: int| 0 <= i < self.v@.len() ==> (#[trigger] self.v@[i]).origin_data().valid()
            && self.v@[i].stored_hash() == self.v@[i].origin_data().hash_spec()
    }

    pub closed spec fn sorted(&self) -> bool {
        forall|i: int, j: int| 0 <= i <= j < self.v@.len() ==> self.v@[i].stored_hash()
            <= self.v@[j].stored_hash()
    }

    /// The recorded entries, in hash order.
    pub closed spec fn entries(&self) -> Seq<EntryModel<D>> {
        self.v@.map_values(|e: WeakEntry<D, R, RW>| e.model())
    }

    /// A well-formed table's entries stand sorted by their filed hashes.
    pub proof fn lemma_entries_sorted(&self)
        requires
            self.wf(),
        ensures
            sorted_by_hash(self.entries()),
    {
    }

    /// Binary search on the hash alone: `Ok` lands on some entry with this
    /// hash, `Err` gives the position where the hash would be inserted.
    fn hash_search(&self, hash: u64) -> (r: Result<usize, usize>)
        requires
            self.wf(),
        ensures
            r matches Ok(i) ==> i < self.v@.len() && self.v@[i as int].stored_hash() == hash,
            r matches Err(i) ==> i <= self.v@.len() && (forall|j: int|
                0 <= j < i ==> self.v@[j].stored_hash() < hash) && (forall|j: int|
                i <= j < self.v@.len() ==> self.v@[j].stored_hash() > hash),
    {
        let mut lo: usize = 0;
        let mut hi: usize = self.v.len();
        while lo < hi
            invariant
                self.wf(),
                lo <= hi <= self.v@.len(),
                forall|j: int| 0 <= j < lo ==> self.v@[j].stored_hash() < hash,
                forall|j: int| hi <= j < self.v@.len() ==> self.v@[j].stored_hash() > hash,
            decreases hi - lo,
        {
            let mid = lo + (hi - lo) / 2;
            match self.v[mid].hash_cmp(&hash) {
                core::cmp::Ordering::Less => {
                    lo = mid + 1;
                },
                core::cmp::Ordering::Greater => {
                    hi = mid;
                },
                core::cmp::Ordering::Equal => {
                    return Ok(mid);
                },
            }
        }
        Err(lo)
    }

    fn linear_search_up(&self, idx: usize, hash: u64, data: &D) -> (r: Option<R>)
        requires
            self.wf(),
            idx <= self.v@.len(),
        ensures
            r matches Some(p) ==> p.data().eqv(data) && p.data().valid() && p.data().hash_spec()
                == hash,
            r matches Some(p) ==> exists|i: int|
                0 <= i < self.entries().len() && self.entries()[i] == (EntryModel {
                    hash,
                    id: p.id(),
                    data: p.data(),
                }),
    {
        let mut i = idx;
        while i < self.v.len()
            invariant
                self.wf(),
                i <= self.v@.len(),
            decreases self.v@.len() - i,
        {
            match self.v[i].get_existing_near(hash, data) {
                Err(()) => {
                    return None;
                },
                Ok(Some(p)) => {
                    proof {
                        assert(self.entries()[i as int] == (EntryModel {
                            hash,
                            id: p.id(),
                            data: p.data(),
                        }));
                    }
                    return Some(p);
                },
                Ok(None) => {},
            }
            i = i + 1;
        }
        None
    }

    fn linear_search_down(&self, idx: usize, hash: u64, data: &D) -> (r: Option<R>)
        requires
            self.wf(),
            idx <= self.v@.len(),
        ensures
            r matches Some(p) ==> p.data().eqv(data) && p.data().valid() && p.data().hash_spec()
                == hash,
            r matches Some(p) ==> exists|i: int|
                0 <= i < self.entries().len() && self.entries()[i] == (EntryModel {
                    hash,
                    id: p.id(),
                    data: p.data(),
                }),
    {
        let mut i = idx;
        while i > 0
            invariant
                self.wf(),
                i <= self.v@.len(),
            decreases i,
        {
            i = i - 1;
            match self.v[i].get_existing_near(hash, data) {
                Err(()) => {
                    return None;
                },
                Ok(Some(p)) => {
                    proof {
                        assert(self.entries()[i as int] == (EntryModel {
                            hash,
                            id: p.id(),
                            data: p.data(),
                        }));
                    }
                    return Some(p);
                },
                Ok(None) => {},
            }
        }
        None
    }

    fn linear_search_around(&self, idx: usize, hash: u64, data: &D) -> (r: Option<R>)
        requires
            self.wf(),
            idx <= self.v@.len(),
        ensures
            r matches Some(p) ==> p.data().eqv(data) && p.data().valid() && p.data().hash_spec()
                == hash,
            r matches Some(p) ==> exists|i: int|
                0 <= i < self.entries().len() && self.entries()[i] == (EntryModel {
                    hash,
                    id: p.id(),
                    data: p.data(),
                }),
    {
        // Start upward, because the upward scan includes `idx` itself.
        match self.linear_search_up(idx, hash, data) {
            Some(p) => Some(p),
            None => self.linear_search_down(idx, hash, data),
        }
    }
}

impl<D, R, RW> Table<D, R> for TableVecSortedWeak<D, R, RW> where
    D: InternData,
    R: Reference<D>,
    RW: ReferenceWeak<D, R>,
 {
    closed spec fn wf(&self) -> bool {
        self.entries_wf() && self.sorted()
    }

    fn empty() -> (t: Self) {
        Self { v: Vec::new() }
    }

    fn get(&self, hash: u64, data: &D) -> (r: Option<R>)
        ensures
            r matches Some(p) ==> exists|i: int|
                0 <= i < self.entries().len() && self.entries()[i] == (EntryModel {
                    hash,
                    id: p.id(),
                    data: p.data(),
                }),
    {
        match self.hash_search(hash) {
            Ok(idx) => self.linear_search_around(idx, hash, data),
            Err(_) => None,
        }
    }

    fn get_or_insert<CF: FnOnce(D) -> D>(&mut self, hash: u64, data: D, creation_meta: CF) -> (r:
        R)
        ensures
            (final(self).entries() == old(self).entries() && (exists|i: int|
                0 <= i < old(self).entries().len() && old(self).entries()[i] == (EntryModel {
                    hash,
                    id: r.id(),
                    data: r.data(),
                }))) || (exists|k: int|
                0 <= k <= old(self).entries().len() && final(self).entries()
                    == old(self).entries().insert(
                    k,
                    (EntryModel { hash, id: r.id(), data: r.data() }),
                ) && call_ensures(creation_meta, (data,), r.data())),
    {
        let index: usize;
        match self.hash_search(hash) {
            Ok(idx) => {
                if let Some(p) = self.linear_search_around(idx, hash, &data) {
                    return p;
                }
                index = idx;
            },
            Err(idx) => {
                index = idx;
            },
        }
        let ghost probe = data;
        let finalized = creation_meta(data);
        proof {
            finalized.lemma_eqv_hash(&probe);
        }
        let obj = R::new(finalized);
        let weak = RW::weak_downgrade(&obj);
        self.v.insert(index, WeakEntry::new(hash, weak));
        proof {
            assert(final(self).entries() =~= old(self).entries().insert(
                index as int,
                (EntryModel { hash, id: obj.id(), data: obj.data() }),
            ));
        }
        obj
    }
}

impl<D, R, RW> Default for TableVecSortedWeak<D, R, RW> where
    D: InternData,
    R: Reference<D>,
    RW: ReferenceWeak<D, R>,
 {
    fn default() -> (t: Self)
        ensures
            t.wf(),
    {
        Self { v: Vec::new() }
    }
}

} // verus!
