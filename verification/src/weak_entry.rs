//! One intern-table entry: a stored hash next to a weak handle.
//!
//! The hash lets a probe skip an entry without touching the weak handle at
//! all; only on a hash match is the weak upgraded and the recovered value
//! compared structurally with the probe value.

use vstd::prelude::*;

use crate::data::InternData;
use crate::reference::Reference;
use crate::reference::ReferenceWeak;
use crate::table::EntryModel;

verus! {

pub struct WeakEntry<D, R, RW> {
    hash: u64,
    weak: RW,
    phantom_d: core::marker::PhantomData<D>,
    phantom_r: core::marker::PhantomData<R>,
}

impl<D, R, RW> WeakEntry<D, R, RW> where
    D: InternData,
    R: Reference<D>,
    RW: ReferenceWeak<D, R>,
 {
    /// The hash this entry was filed under.
    pub closed spec fn stored_hash(&self) -> u64 {
        self.hash
    }

    /// The identity of the cell the weak handle observes.
    pub closed spec fn origin_id(&self) -> int {
        self.weak.origin_id()
    }

    /// The value that cell stored when the entry was made.
    pub closed spec fn origin_data(&self) -> D {
        self.weak.origin_data()
    }

    /// This entry, as the table contracts see it.
    pub open spec fn model(&self) -> EntryModel<D> {
        EntryModel { hash: self.stored_hash(), id: self.origin_id(), data: self.origin_data() }
    }

    pub fn new(hash: u64, weak: RW) -> (e: Self)
        ensures
            e.stored_hash() == hash,
            e.origin_id() == weak.origin_id(),
            e.origin_data() == weak.origin_data(),
    {
        Self {
            hash,
            weak,
            phantom_d: core::marker::PhantomData,
            phantom_r: core::marker::PhantomData,
        }
    }

    fn get_data(&self, data: &D) -> (r: Option<R>)
        ensures
            r matches Some(p) ==> p.id() == self.origin_id() && p.data() == self.origin_data()
                && p.data().eqv(data),
    {
        if let Some(up) = RW::weak_upgrade(&self.weak) {
            if R::strong_deref(&up).eq_data(data) {
                return Some(up);
            }
        }
        None
    }

    /// Probe this entry: a hit needs the stored hash to match, the weak
    /// handle to still be upgradable, and the recovered value to equal the
    /// probe value.
    pub fn get(&self, hash: u64, data: &D) -> (r: Option<R>)
        ensures
            r matches Some(p) ==> self.stored_hash() == hash && p.id() == self.origin_id()
                && p.data() == self.origin_data() && p.data().eqv(data),
    {
        if self.hash == hash {
            return self.get_data(data);
        }
        None
    }

    /// As `get`, but telling a hash mismatch (`Err`) apart from a matching
    /// hash whose entry did not yield the value (`Ok(None)`), so that a scan
    /// over hash-sorted entries knows when to stop.
    pub fn get_existing_near(&self, hash: u64, data: &D) -> (r: Result<Option<R>, ()>)
        ensures
            r matches Err(u) ==> self.stored_hash() != hash,
            r matches Ok(o) ==> self.stored_hash() == hash,
            r matches Ok(Some(p)) ==> p.id() == self.origin_id() && p.data()
                == self.origin_data() && p.data().eqv(data),
    {
        if self.hash == hash {
            return Ok(self.get_data(data));
        }
        Err(())
    }

    /// Order this entry's stored hash against a probe hash.
    pub fn hash_cmp(&self, hash: &u64) -> (o: core::cmp::Ordering)
        ensures
            o == core::cmp::Ordering::Less <==> self.stored_hash() < *hash,
            o == core::cmp::Ordering::Equal <==> self.stored_hash() == *hash,
            o == core::cmp::Ordering::Greater <==> self.stored_hash() > *hash,
    {
        if self.hash < *hash {
            core::cmp::Ordering::Less
        } else if self.hash == *hash {
            core::cmp::Ordering::Equal
        } else {
            core::cmp::Ordering::Greater
        }
    }
}

} // verus!
