//! Interfaces for reference handles.
//!
//! A strong handle owns a share of a heap cell and keeps it alive; a weak
//! handle observes the cell without keeping it alive.  In specifications a
//! handle is modelled by two functions: `data()`, the immutable value stored
//! in the cell, and `id()`, the identity of the cell itself.  Two handles
//! with equal `id()` refer to the same cell, so they also agree on `data()`;
//! `strong_ptr_eq` decides exactly that.

use vstd::prelude::*;

verus! {

/// Strong reference handle type.
pub trait Reference<D>: Sized {
    /// The identity of the cell this handle keeps alive.
    spec fn id(&self) -> int;

    /// The immutable value stored in the cell.
    spec fn data(&self) -> D;

    /// Move the data into a freshly allocated cell and return a strong
    /// handle to it.
    fn new(data: D) -> (r: Self)
        ensures
            r.data() == data,
    ;

    /// Borrow the referenced data.
    fn strong_deref(ptr: &Self) -> (d: &D)
        ensures
            *d == ptr.data(),
    ;

    /// Clone the handle; the clone refers to the same cell.
    fn strong_clone(ptr: &Self) -> (r: Self)
        ensures
            r.id() == ptr.id(),
            r.data() == ptr.data(),
    ;

    /// Check whether two handles refer to the same cell.
    fn strong_ptr_eq(a: &Self, b: &Self) -> (r: bool)
        ensures
            r == (a.id() == b.id() && a.data() == b.data()),
    ;
}

/// Weak reference handle type, for strong reference types that support
/// non-owning observers.
pub trait ReferenceWeak<D, R: Reference<D>>: Sized {
    /// The identity of the observed cell.
    spec fn origin_id(&self) -> int;

    /// The value the observed cell stored when this observer was made.
    spec fn origin_data(&self) -> D;

    /// Try to recover a strong handle.  This fails, returning `None`, once
    /// no strong handle to the cell exists; a success refers to the observed
    /// cell, whose value has not changed.
    fn weak_upgrade(ptr: &Self) -> (r: Option<R>)
        ensures
            r matches Some(p) ==> p.id() == ptr.origin_id() && p.data() == ptr.origin_data(),
    ;

    /// Make a weak observer of the cell a strong handle refers to.
    fn weak_downgrade(ptr: &R) -> (w: Self)
        ensures
            w.origin_id() == ptr.id(),
            w.origin_data() == ptr.data(),
    ;
}

} // verus!
