//! Reference counting implemented by `std::sync::Arc`.
//!
//! This adapts `Arc` to the hashconsing reference interface.  The handle
//! pairs the pointer with the allocation's address, recorded once when the
//! cell is made.  A live handle keeps its allocation alive, so while two
//! handles are both in hand their recorded addresses agree exactly when they
//! point at the same cell; `strong_ptr_eq` decides identity that way.  The
//! few functions below that the verifier does not check state only what
//! `std`'s documentation gives under that discipline.

use vstd::prelude::*;

use crate::reference::Reference;
use crate::reference::ReferenceWeak;

verus! {

/// Strong atomically reference-counted handle; safe to clone across threads.
#[derive(Debug)]
pub struct RefArc<D> {
    ptr: std::sync::Arc<D>,
    id: usize,
}

/// Weak counterpart of `RefArc`, with a ghost record of the observed cell's
/// value at the time the observer was made.
#[verifier::reject_recursive_types(D)]
pub struct RefArcWeak<D> {
    weak: ArcWeakCell<D>,
    origin_id: usize,
    origin_data: Ghost<D>,
}

/// Holds the raw `std::sync::Weak`, which the verifier sees as opaque.
#[verifier::external_body]
#[verifier::reject_recursive_types(D)]
struct ArcWeakCell<D> {
    w: std::sync::Weak<D>,
}

/// Relies on `std::sync::Arc::new`: allocates a fresh cell holding `data`.
/// The recorded id is the fresh allocation's address (`Arc::as_ptr`), about
/// which nothing is promised.
#[verifier::external_body]
fn arc_ref_new<D>(data: D) -> (r: RefArc<D>)
    ensures
        *r.ptr == data,
{
    let ptr = std::sync::Arc::new(data);
    let id = std::sync::Arc::as_ptr(&ptr) as usize;
    RefArc { ptr, id }
}

/// Relies on `std::sync::Arc::ptr_eq`: true exactly when both handles point
/// at the same allocation.  Both handles are alive here, so their recorded
/// addresses agree exactly when the allocation is the same; and one
/// allocation holds one immutable value.
#[verifier::external_body]
fn arc_ptr_eq<D>(a: &RefArc<D>, b: &RefArc<D>) -> (r: bool)
    ensures
        r == (a.id == b.id && *a.ptr == *b.ptr),
{
    std::sync::Arc::ptr_eq(&a.ptr, &b.ptr)
}

/// Relies on `std::sync::Arc::downgrade`: returns a weak observer of the
/// same allocation.
#[verifier::external_body]
fn arc_downgrade_raw<D>(ptr: &std::sync::Arc<D>) -> (w: ArcWeakCell<D>) {
    ArcWeakCell { w: std::sync::Arc::downgrade(ptr) }
}

/// Relies on `std::sync::Weak::upgrade`: a success returns a strong handle
/// to the allocation the weak observer was made from — the one whose
/// address and value the caller recorded beside the raw weak — and the
/// stored value is immutable.  Success itself depends on whether any strong
/// handle is still alive, which nothing here can see, so nothing is
/// promised about `None`.
#[verifier::external_body]
fn arc_upgrade<D>(w: &RefArcWeak<D>) -> (r: Option<RefArc<D>>)
    ensures
        r matches Some(p) ==> p.id == w.origin_id && *p.ptr == w.origin_data@,
{
    w.weak.w.upgrade().map(|ptr| RefArc { ptr, id: w.origin_id })
}

/// Relies on `std::sync::Arc::as_ptr`: adopt an already-live allocation as
/// a handle, recording its address.  Nothing is promised of the identity;
/// the value is the allocation's content.
#[verifier::external_body]
pub(crate) fn arc_ref_from_live<D>(ptr: std::sync::Arc<D>) -> (r: RefArc<D>)
    ensures
        r.data() == *ptr,
{
    let id = std::sync::Arc::as_ptr(&ptr) as usize;
    RefArc { ptr, id }
}

/// Borrow the raw shared pointer a handle owns; its content is the
/// handle's data.
pub(crate) fn arc_ref_inner<D>(r: &RefArc<D>) -> (a: &std::sync::Arc<D>)
    ensures
        **a == r.data(),
{
    &r.ptr
}

impl<D> Reference<D> for RefArc<D> {
    closed spec fn id(&self) -> int {
        self.id as int
    }

    closed spec fn data(&self) -> D {
        *self.ptr
    }

    fn new(data: D) -> (r: Self) {
        arc_ref_new(data)
    }

    fn strong_deref(ptr: &Self) -> (d: &D) {
        &*ptr.ptr
    }

    fn strong_clone(ptr: &Self) -> (r: Self) {
        RefArc { ptr: ptr.ptr.clone(), id: ptr.id }
    }

    fn strong_ptr_eq(a: &Self, b: &Self) -> (r: bool) {
        arc_ptr_eq(a, b)
    }
}

impl<D> ReferenceWeak<D, RefArc<D>> for RefArcWeak<D> {
    closed spec fn origin_id(&self) -> int {
        self.origin_id as int
    }

    closed spec fn origin_data(&self) -> D {
        self.origin_data@
    }

    fn weak_upgrade(ptr: &Self) -> (r: Option<RefArc<D>>) {
        arc_upgrade(ptr)
    }

    fn weak_downgrade(ptr: &RefArc<D>) -> (w: Self) {
        RefArcWeak {
            weak: arc_downgrade_raw(&ptr.ptr),
            origin_id: ptr.id,
            origin_data: Ghost(ptr.data()),
        }
    }
}

} // verus!
