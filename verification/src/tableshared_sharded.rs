//! A shared intern table split into independently locked shards.
//!
//! Eight inner tables, each behind its own lock (vstd's reader–writer
//! lock, with the table's well-formedness as its invariant); the low-order
//! bits of the value's hash pick the shard.  Two concurrent insertions of
//! equivalent values hash to the same shard, so its lock serializes them
//! and the probe of the loser sees the winner's cell.  A lock is held only
//! across a single inner-table operation, and never two at once.

use vstd::prelude::*;
use vstd::rwlock::RwLock;

use crate::data::InternData;
use crate::reference::Reference;
use crate::table::BuildTable;
use crate::table::BuildTableShared;
use crate::table::Table;
use crate::table::TableShared;
use crate::tableshared_mutex::WfPred;

verus! {

pub const N_SHARDS: usize = 8;

#[verifier::reject_recursive_types(D)]
#[verifier::reject_recursive_types(R)]
#[verifier::reject_recursive_types(T)]
pub struct TableSharedSharded<D, R, T> where
    D: InternData,
    R: Reference<D>,
    T: Table<D, R>,
 {
    inner: [RwLock<T, WfPred<D, R>>; 8],
}

impl<D, R, T> TableSharedSharded<D, R, T> where
    D: InternData,
    R: Reference<D>,
    T: Table<D, R>,
 {
    fn get_shard(&self, hash: u64) -> &RwLock<T, WfPred<D, R>> {
        let mask = (N_SHARDS - 1) as u64;
        let index = (hash & mask) as usize;
        proof {
            assert(hash & 7u64 < 8u64) by (bit_vector);
        }
        &self.inner[index]
    }
}

impl<D, R, T> TableShared<D, R, T> for TableSharedSharded<D, R, T> where
    D: InternData,
    R: Reference<D>,
    T: Table<D, R>,
 {
    fn get(&self, data: &D) -> (r: Option<R>) {
        let hash = data.hash_data();
        let shard = self.get_shard(hash);
        let read_handle = shard.acquire_read();
        let r = read_handle.borrow().get(hash, data);
        read_handle.release_read();
        r
    }

    fn get_or_insert<CF: FnOnce(D) -> D>(&self, data: D, creation_meta: CF) -> (r: R) {
        let hash = data.hash_data();
        let shard = self.get_shard(hash);
        let (mut t, write_handle) = shard.acquire_write();
        let r = t.get_or_insert(hash, data, creation_meta);
        write_handle.release_write(t);
        r
    }
}

pub struct BuildTableSharedSharded<D, R, T, TB> {
    table_builder: TB,
    phantom_d: core::marker::PhantomData<D>,
    phantom_r: core::marker::PhantomData<R>,
    phantom_t: core::marker::PhantomData<T>,
}

impl<D, R, T, TB> BuildTableSharedSharded<D, R, T, TB> where
    D: InternData,
    R: Reference<D>,
    T: Table<D, R>,
    TB: BuildTable<D, R, Table = T> + Default + Clone,
 {
    pub fn with_builders(table_builder: TB) -> Self {
        Self {
            table_builder,
            phantom_d: core::marker::PhantomData,
            phantom_r: core::marker::PhantomData,
            phantom_t: core::marker::PhantomData,
        }
    }

    /// One freshly built shard behind its own lock.
    fn shard_lock(&self) -> (s: RwLock<T, WfPred<D, R>>) {
        RwLock::new(
            self.table_builder.build_table(),
            Ghost(
                WfPred {
                    phantom_d: core::marker::PhantomData,
                    phantom_r: core::marker::PhantomData,
                },
            ),
        )
    }
}

impl<D, R, T, TB> Clone for BuildTableSharedSharded<D, R, T, TB> where
    D: InternData,
    R: Reference<D>,
    T: Table<D, R>,
    TB: BuildTable<D, R, Table = T> + Default + Clone,
 {
    fn clone(&self) -> Self {
        Self {
            table_builder: self.table_builder.clone(),
            phantom_d: core::marker::PhantomData,
            phantom_r: core::marker::PhantomData,
            phantom_t: core::marker::PhantomData,
        }
    }
}

impl<D, R, T, TB> Default for BuildTableSharedSharded<D, R, T, TB> where
    D: InternData,
    R: Reference<D>,
    T: Table<D, R>,
    TB: BuildTable<D, R, Table = T> + Default + Clone,
 {
    fn default() -> Self {
        Self {
            table_builder: TB::default(),
            phantom_d: core::marker::PhantomData,
            phantom_r: core::marker::PhantomData,
            phantom_t: core::marker::PhantomData,
        }
    }
}

impl<D, R, T, TB> BuildTableShared<D, R, T> for BuildTableSharedSharded<D, R, T, TB> where
    D: InternData,
    R: Reference<D>,
    T: Table<D, R>,
    TB: BuildTable<D, R, Table = T> + Default + Clone,
 {
    type TableSharedType = TableSharedSharded<D, R, T>;

    fn build_tableshared(&self) -> TableSharedSharded<D, R, T> {
        TableSharedSharded {
            inner: [
                self.shard_lock(),
                self.shard_lock(),
                self.shard_lock(),
                self.shard_lock(),
                self.shard_lock(),
                self.shard_lock(),
                self.shard_lock(),
                self.shard_lock(),
            ],
        }
    }
}

} // verus!
