//! The owning handle: one non-null native handle of one resource kind,
//! bound to the scope of the parent that produced it.
use std::marker::PhantomData;
use vstd::prelude::*;

pub(crate) mod private;

verus! {

/// The native call that frees a handle of some resource kind.
#[derive(Clone, Copy, Debug, PartialEq, Eq, Structural, Hash)]
pub enum Destructor {
    DestroyWindow,
    DestroyRenderer,
    DestroyTexture,
    FreeSurface,
}

/// How a handle of this resource kind is destroyed. Sealed: only the
/// resource kinds of this library have it.
pub trait DropPtr: private::Sealed + Sized {
    spec fn spec_destructor() -> Destructor;

    /// The native handle that this resource is reached by.
    spec fn spec_handle(&self) -> usize;

    /// The resource reached by `handle`, which is not null.
    fn from_handle(handle: usize) -> (r: Self)
        requires
            handle != 0,
        ensures
            r.spec_handle() == handle,
    ;

    /// The native handle that this resource is reached by.
    fn handle(&self) -> (r: usize)
        ensures
            r == self.spec_handle(),
            r != 0,
    ;

    /// The native call that frees a handle of this kind.
    fn destructor() -> (r: Destructor)
        ensures
            r == Self::spec_destructor(),
    ;
}

/// Exclusive owner of one non-null handle of kind `A`, which cannot
/// outlive `'a`, the borrow of the parent that produced it. It is neither
/// `Copy` nor `Clone`: `release` hands the handle out once, for its one
/// native destruction.
pub struct Ptr<'a, A: DropPtr> {
    res: A,
    life: PhantomData<&'a mut ()>,
}

impl<'a, A: DropPtr> Ptr<'a, A> {
    /// The handle owned.
    pub closed spec fn spec_handle(&self) -> usize {
        self.res.spec_handle()
    }

    /// The resource owned.
    pub closed spec fn spec_res(&self) -> A {
        self.res
    }

    /// Takes ownership of `handle`; a null handle gives nothing.
    pub fn new(handle: usize) -> (r: Option<Ptr<'a, A>>)
        ensures
            r is None <==> handle == 0,
            r is Some ==> r->Some_0.spec_handle() == handle,
    {
        if handle == 0 {
            None
        } else {
            Some(Ptr { res: A::from_handle(handle), life: PhantomData })
        }
    }

    /// Shared access to the resource owned.
    pub fn get(&self) -> (r: &A)
        ensures
            *r == self.spec_res(),
            r.spec_handle() == self.spec_handle(),
    {
        &self.res
    }

    /// Exclusive access to the resource owned.
    pub fn get_mut(&mut self) -> (r: &mut A)
        ensures
            *r == old(self).spec_res(),
            final(self).spec_res() == *final(r),
    {
        &mut self.res
    }

    /// The handle owned, which is never null; it stays owned by `self`.
    pub fn handle(&self) -> (r: usize)
        ensures
            r == self.spec_handle(),
            r != 0,
    {
        self.res.handle()
    }

    /// Gives up ownership: the handle, never null, and the one native call
    /// that must now free it.
    pub fn release(self) -> (r: (Destructor, usize))
        ensures
            r.0 == A::spec_destructor(),
            r.1 == self.spec_handle(),
            r.1 != 0,
    {
        let handle = self.res.handle();
        (A::destructor(), handle)
    }
}

} // verus!
