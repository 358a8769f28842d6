//! Interfaces for intern tables and their builders.
//!
//! A table is a content-addressed store from `(hash, value)` to a strong
//! handle, probing through weak entries that may decay at any time.  `get`
//! never mutates; `get_or_insert` returns an existing matching live handle
//! when the probe finds one and otherwise finalizes the value through the
//! creation callback, allocates a fresh cell, files a weak entry and
//! returns the strong handle.  Either way the result refers to a value
//! equivalent to the probe value and satisfying the finalization invariant
//! `valid`.

use vstd::prelude::*;

use crate::data::InternData;
use crate::reference::Reference;

verus! {

/// What one recorded entry of an intern table is, to the contracts: the
/// hash it was filed under, the identity of the cell its weak handle
/// observes, and the value that cell stored when the entry was made.
pub struct EntryModel<D> {
    pub hash: u64,
    pub id: int,
    pub data: D,
}

/// Entries ordered by their filed hashes.
pub open spec fn sorted_by_hash<D>(s: Seq<EntryModel<D>>) -> bool {
    forall|i: int, j: int| 0 <= i <= j < s.len() ==> s[i].hash <= s[j].hash
}

pub trait Table<D: InternData, R: Reference<D>>: Sized {
    /// The table's own well-formedness: every entry records a finalized
    /// (`valid`) value under that value's hash.
    spec fn wf(&self) -> bool;

    /// A fresh, empty table.
    fn empty() -> (t: Self)
        ensures
            t.wf(),
    ;

    /// Structural lookup; never mutates.
    fn get(&self, hash: u64, data: &D) -> (r: Option<R>)
        requires
            self.wf(),
        ensures
            r matches Some(p) ==> p.data().eqv(data) && p.data().valid(),
    ;

    /// Return an existing matching live handle if the probe finds one;
    /// otherwise finalize the value with `creation_meta`, allocate a cell
    /// for it, file a weak entry, and return the fresh strong handle.
    fn get_or_insert<CF: FnOnce(D) -> D>(&mut self, hash: u64, data: D, creation_meta: CF) -> (r:
        R)
        requires
            old(self).wf(),
            hash == data.hash_spec(),
            call_requires(creation_meta, (data,)),
            forall|d2: D| #[trigger] call_ensures(creation_meta, (data,), d2) ==> d2.eqv(&data)
                && d2.valid(),
        ensures
            final(self).wf(),
            r.data().eqv(&data),
            r.data().valid(),
    ;
}

pub trait BuildTable<D: InternData, R: Reference<D>>: Sized {
    type Table: Table<D, R>;

    fn build_table(&self) -> (t: Self::Table)
        ensures
            t.wf(),
    ;
}

/// Builds a table of type `T` by `T::empty`.
pub struct BuildTableDefault<T>(core::marker::PhantomData<T>);

impl<D, R, T> BuildTable<D, R> for BuildTableDefault<T> where
    D: InternData,
    R: Reference<D>,
    T: Table<D, R>,
 {
    type Table = T;

    fn build_table(&self) -> (t: T) {
        T::empty()
    }
}

impl<T> Default for BuildTableDefault<T> {
    fn default() -> Self {
        Self(core::marker::PhantomData)
    }
}

impl<T> Clone for BuildTableDefault<T> {
    fn clone(&self) -> Self {
        Self(core::marker::PhantomData)
    }
}

/// A table shared between threads: the same contract as `Table`, through a
/// shared borrow.  Locking hides the table state, so nothing relates one
/// call's table to the next; what remains is what each returned handle
/// satisfies by itself.
pub trait TableShared<D: InternData, R: Reference<D>, T: Table<D, R>>: Sized {
    fn get(&self, data: &D) -> (r: Option<R>)
        ensures
            r matches Some(p) ==> p.data().eqv(data) && p.data().valid(),
    ;

    fn get_or_insert<CF: FnOnce(D) -> D>(&self, data: D, creation_meta: CF) -> (r: R)
        requires
            call_requires(creation_meta, (data,)),
            forall|d2: D| #[trigger] call_ensures(creation_meta, (data,), d2) ==> d2.eqv(&data)
                && d2.valid(),
        ensures
            r.data().eqv(&data),
            r.data().valid(),
    ;
}

pub trait BuildTableShared<D: InternData, R: Reference<D>, T: Table<D, R>>: Sized {
    type TableSharedType: TableShared<D, R, T>;

    fn build_tableshared(&self) -> Self::TableSharedType;
}

/// Builds a shared table of type `TS` by `TS::default`.
pub struct BuildTableSharedDefault<TS>(core::marker::PhantomData<TS>);

impl<D, R, T, TS> BuildTableShared<D, R, T> for BuildTableSharedDefault<TS> where
    D: InternData,
    R: Reference<D>,
    T: Table<D, R>,
    TS: TableShared<D, R, T> + Default,
 {
    type TableSharedType = TS;

    fn build_tableshared(&self) -> TS {
        TS::default()
    }
}

impl<TS> Default for BuildTableSharedDefault<TS> {
    fn default() -> Self {
        Self(core::marker::PhantomData)
    }
}

impl<TS> Clone for BuildTableSharedDefault<TS> {
    fn clone(&self) -> Self {
        Self(core::marker::PhantomData)
    }
}

} // verus!
