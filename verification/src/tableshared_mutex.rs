//! A shared intern table guarded by one lock.
//!
//! The lock is vstd's reader–writer lock, carrying the inner table's
//! well-formedness as its invariant: a lookup borrows the table under a
//! read acquire, an insertion takes the write side, runs one inner-table
//! operation, and restores the table — which its contract proves still
//! well-formed.  Locking hides the inner table's state between calls, so
//! the shared contract keeps only the per-result clauses of the table
//! contract: the handle returned refers to an equivalent, finalized value.

use vstd::prelude::*;
use vstd::rwlock::RwLock;
use vstd::rwlock::RwLockPredicate;

use crate::data::InternData;
use crate::reference::Reference;
use crate::table::BuildTable;
use crate::table::BuildTableShared;
use crate::table::Table;
use crate::table::TableShared;

verus! {

/// The lock invariant of a shared table: the guarded table is well-formed.
/// The predicate has no state, so every value of it means exactly that.
pub struct WfPred<D, R> {
    pub phantom_d: core::marker::PhantomData<D>,
    pub phantom_r: core::marker::PhantomData<R>,
}

impl<D: InternData, R: Reference<D>, T: Table<D, R>> RwLockPredicate<T> for WfPred<D, R> {
    open spec fn inv(self, t: T) -> bool {
        t.wf()
    }
}

#[verifier::reject_recursive_types(D)]
#[verifier::reject_recursive_types(R)]
#[verifier::reject_recursive_types(T)]
pub struct TableSharedMutex<D, R, T> where
    D: InternData,
    R: Reference<D>,
    T: Table<D, R>,
 {
    inner: RwLock<T, WfPred<D, R>>,
}

impl<D, R, T> TableShared<D, R, T> for TableSharedMutex<D, R, T> where
    D: InternData,
    R: Reference<D>,
    T: Table<D, R>,
 {
    fn get(&self, data: &D) -> (r: Option<R>) {
        let hash = data.hash_data();
        let read_handle = self.inner.acquire_read();
        let r = read_handle.borrow().get(hash, data);
        read_handle.release_read();
        r
    }

    fn get_or_insert<CF: FnOnce(D) -> D>(&self, data: D, creation_meta: CF) -> (r: R) {
        let hash = data.hash_data();
        let (mut t, write_handle) = self.inner.acquire_write();
        let r = t.get_or_insert(hash, data, creation_meta);
        write_handle.release_write(t);
        r
    }
}

pub struct BuildTableSharedMutex<D, R, T, TB> {
    table_builder: TB,
    phantom_d: core::marker::PhantomData<D>,
    phantom_r: core::marker::PhantomData<R>,
    phantom_t: core::marker::PhantomData<T>,
}

impl<D, R, T, TB> BuildTableSharedMutex<D, R, T, TB> where
    D: InternData,
    R: Reference<D>,
    T: Table<D, R>,
    TB: BuildTable<D, R, Table = T> + Default + Clone,
 {
    pub fn with_builders(table_builder: TB) -> Self {
        Self {
            table_builder,
            phantom_d: core::marker::PhantomData,
            phantom_r: core::marker::PhantomData,
            phantom_t: core::marker::PhantomData,
        }
    }
}

impl<D, R, T, TB> Clone for BuildTableSharedMutex<D, R, T, TB> where
    D: InternData,
    R: Reference<D>,
    T: Table<D, R>,
    TB: BuildTable<D, R, Table = T> + Default + Clone,
 {
    fn clone(&self) -> Self {
        Self {
            table_builder: self.table_builder.clone(),
            phantom_d: core::marker::PhantomData,
            phantom_r: core::marker::PhantomData,
            phantom_t: core::marker::PhantomData,
        }
    }
}

impl<D, R, T, TB> Default for BuildTableSharedMutex<D, R, T, TB> where
    D: InternData,
    R: Reference<D>,
    T: Table<D, R>,
    TB: BuildTable<D, R, Table = T> + Default + Clone,
 {
    fn default() -> Self {
        Self {
            table_builder: TB::default(),
            phantom_d: core::marker::PhantomData,
            phantom_r: core::marker::PhantomData,
            phantom_t: core::marker::PhantomData,
        }
    }
}

impl<D, R, T, TB> BuildTableShared<D, R, T> for BuildTableSharedMutex<D, R, T, TB> where
    D: InternData,
    R: Reference<D>,
    T: Table<D, R>,
    TB: BuildTable<D, R, Table = T> + Default + Clone,
 {
    type TableSharedType = TableSharedMutex<D, R, T>;

    fn build_tableshared(&self) -> TableSharedMutex<D, R, T> {
        TableSharedMutex {
            inner: RwLock::new(
                self.table_builder.build_table(),
                Ghost(
                    WfPred {
                        phantom_d: core::marker::PhantomData,
                        phantom_r: core::marker::PhantomData,
                    },
                ),
            ),
        }
    }
}

} // verus!
