//! A slot that keeps a Rust object on the C side between calls, as `PRIV_TASK` and `PRIV_VCL`
//! arguments do.
use vstd::prelude::*;

verus! {

/// A slot for an object of type `T`. The first store gives the slot its storage on the C side
/// (and the finalizer that frees it); later stores only replace the object.
#[derive(Debug)]
pub struct VPriv<T> {
    allocated: bool,
    obj: Option<T>,
}

/// The view of a [`VPriv`]: whether the slot has its storage, and the object it holds.
pub struct VPrivView<T> {
    pub allocated: bool,
    pub obj: Option<T>,
}

impl<T> View for VPriv<T> {
    type V = VPrivView<T>;

    closed spec fn view(&self) -> VPrivView<T> {
        VPrivView { allocated: self.allocated, obj: self.obj }
    }
}

/// The slot once `obj` is stored.
pub open spec fn spec_store<T>(v: VPrivView<T>, obj: T) -> VPrivView<T> {
    VPrivView { allocated: true, obj: Some(obj) }
}

/// The slot once its object is taken out, and what is taken.
pub open spec fn spec_take<T>(v: VPrivView<T>) -> (VPrivView<T>, Option<T>) {
    (VPrivView { allocated: v.allocated, obj: None }, v.obj)
}

impl<T> VPriv<T> {
    /// A slot that was never stored into.
    pub fn new() -> (r: Self)
        ensures
            !r@.allocated,
            r@.obj is None,
    {
        VPriv { allocated: false, obj: None }
    }

    /// Whether the slot has its storage on the C side.
    pub fn is_allocated(&self) -> (r: bool)
        ensures
            r == self@.allocated,
    {
        self.allocated
    }

    /// Keep `obj` in the slot, in place of what it held.
    pub fn store(&mut self, obj: T)
        ensures
            final(self)@ == spec_store(old(self)@, obj),
    {
        self.allocated = true;
        self.obj = Some(obj);
    }

    /// The object the slot holds.
    pub fn as_ref(&self) -> (r: Option<&T>)
        ensures
            r is Some <==> self@.obj is Some,
            r is Some ==> *r->0 == self@.obj->0,
    {
        self.obj.as_ref()
    }

    /// The object the slot holds, to change in place.
    pub fn as_mut(&mut self) -> (r: Option<&mut T>)
        ensures
            final(self)@.allocated == old(self)@.allocated,
            match old(self)@.obj {
                None => final(self)@.obj is None && r is None,
                Some(o) => final(self)@.obj is Some && r is Some && *r->0 == o
                    && *final(r->0) == final(self)@.obj->0,
            },
    {
        self.obj.as_mut()
    }

    /// Take the object out of the slot, leaving it empty.
    pub fn take(&mut self) -> (r: Option<T>)
        ensures
            (final(self)@, r) == spec_take(old(self)@),
    {
        self.obj.take()
    }

    /// Drop the object the slot holds, if any.
    pub fn clear(&mut self)
        ensures
            final(self)@ == spec_take(old(self)@).0,
    {
        self.obj = None;
    }
}

/// What a store keeps, a take gives back, and the slot is then empty but keeps its storage; a
/// second store replaces the first.
pub proof fn lemma_store_then_take<T>(v: VPrivView<T>, a: T, b: T)
    ensures
        spec_take(spec_store(v, a)).1 == Some(a),
        spec_take(spec_store(v, a)).0.obj is None,
        spec_take(spec_store(v, a)).0.allocated,
        spec_store(spec_store(v, a), b) == spec_store(v, b),
        spec_take(spec_take(v).0).1 is None,
{
}

} // verus!
