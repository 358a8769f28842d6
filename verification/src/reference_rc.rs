//! Reference counting implemented by `std::rc::Rc`.
//!
//! This adapts `Rc` to the hashconsing reference interface for
//! single-threaded use; a table holding this variant must not be shared
//! across threads.  The model is the same as for the atomic variant: the
//! handle records its allocation's address once, at creation, and identity
//! is decided by comparing live handles' addresses.

use vstd::prelude::*;

use crate::reference::Reference;
use crate::reference::ReferenceWeak;

verus! {

/// Strong reference-counted handle with non-atomic counts.
#[derive(Debug)]
pub struct RefRc<D> {
    ptr: std::rc::Rc<D>,
    id: usize,
}

/// Weak counterpart of `RefRc`, with a ghost record of the observed cell's
/// value at the time the observer was made.
#[verifier::reject_recursive_types(D)]
pub struct RefRcWeak<D> {
    weak: RcWeakCell<D>,
    origin_id: usize,
    origin_data: Ghost<D>,
}

/// Holds the raw `std::rc::Weak`, which the verifier sees as opaque.
#[verifier::external_body]
#[verifier::reject_recursive_types(D)]
struct RcWeakCell<D> {
    w: std::rc::Weak<D>,
}

/// Relies on `std::rc::Rc::new`: allocates a fresh cell holding `data`.
/// The recorded id is the fresh allocation's address (`Rc::as_ptr`), about
/// which nothing is promised.
#[verifier::external_body]
fn rc_ref_new<D>(data: D) -> (r: RefRc<D>)
    ensures
        *r.ptr == data,
{
    let ptr = std::rc::Rc::new(data);
    let id = std::rc::Rc::as_ptr(&ptr) as usize;
    RefRc { ptr, id }
}

/// Relies on `std::rc::Rc::ptr_eq`: true exactly when both handles point at
/// the same allocation.  Both handles are alive here, so their recorded
/// addresses agree exactly when the allocation is the same; and one
/// allocation holds one immutable value.
#[verifier::external_body]
fn rc_ptr_eq<D>(a: &RefRc<D>, b: &RefRc<D>) -> (r: bool)
    ensures
        r == (a.id == b.id && *a.ptr == *b.ptr),
{
    std::rc::Rc::ptr_eq(&a.ptr, &b.ptr)
}

/// Relies on `std::rc::Rc::downgrade`: returns a weak observer of the same
/// allocation.
#[verifier::external_body]
fn rc_downgrade_raw<D>(ptr: &std::rc::Rc<D>) -> (w: RcWeakCell<D>) {
    RcWeakCell { w: std::rc::Rc::downgrade(ptr) }
}

/// Relies on `std::rc::Weak::upgrade`: a success returns a strong handle to
/// the allocation the weak observer was made from — the one whose address
/// and value the caller recorded beside the raw weak — and the stored value
/// is immutable.  Success depends on whether any strong handle is still
/// alive, which nothing here can see, so nothing is promised about `None`.
#[verifier::external_body]
fn rc_upgrade<D>(w: &RefRcWeak<D>) -> (r: Option<RefRc<D>>)
    ensures
        r matches Some(p) ==> p.id == w.origin_id && *p.ptr == w.origin_data@,
{
    w.weak.w.upgrade().map(|ptr| RefRc { ptr, id: w.origin_id })
}

impl<D> Reference<D> for RefRc<D> {
    closed spec fn id(&self) -> int {
        self.id as int
    }

    closed spec fn data(&self) -> D {
        *self.ptr
    }

    fn new(data: D) -> (r: Self) {
        rc_ref_new(data)
    }

    fn strong_deref(ptr: &Self) -> (d: &D) {
        &*ptr.ptr
    }

    fn strong_clone(ptr: &Self) -> (r: Self) {
        RefRc { ptr: ptr.ptr.clone(), id: ptr.id }
    }

    fn strong_ptr_eq(a: &Self, b: &Self) -> (r: bool) {
        rc_ptr_eq(a, b)
    }
}

impl<D> ReferenceWeak<D, RefRc<D>> for RefRcWeak<D> {
    closed spec fn origin_id(&self) -> int {
        self.origin_id as int
    }

    closed spec fn origin_data(&self) -> D {
        self.origin_data@
    }

    fn weak_upgrade(ptr: &Self) -> (r: Option<RefRc<D>>) {
        rc_upgrade(ptr)
    }

    fn weak_downgrade(ptr: &RefRc<D>) -> (w: Self) {
        RefRcWeak {
            weak: rc_downgrade_raw(&ptr.ptr),
            origin_id: ptr.id,
            origin_data: Ghost(ptr.data()),
        }
    }
}

} // verus!
