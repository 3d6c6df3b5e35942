//! Addresses handed to callbacks and tasks that outlive the borrow they came from.

use vstd::prelude::*;
use crate::oci::ptr::Ptr;

verus! {

/// An address to read through.
pub struct ScopedPtr<T>(Ptr<T>);

impl<T> ScopedPtr<T> {
    pub closed spec fn addr(&self) -> usize { self.0.addr() }

    pub fn new(ptr: Ptr<T>) -> (r: Self)
        ensures
            r.addr() == ptr.addr(),
    {
        ScopedPtr(ptr)
    }

    pub fn get(&self) -> (r: Ptr<T>)
        ensures
            r.addr() == self.addr(),
    {
        self.0
    }
}

impl<T> Clone for ScopedPtr<T> {
    fn clone(&self) -> (r: Self)
        ensures
            r.addr() == self.addr(),
    {
        ScopedPtr(self.0)
    }
}

/// An address to write through.
pub struct ScopedMutPtr<T>(Ptr<T>);

impl<T> ScopedMutPtr<T> {
    pub closed spec fn addr(&self) -> usize { self.0.addr() }

    pub fn new(ptr: Ptr<T>) -> (r: Self)
        ensures
            r.addr() == ptr.addr(),
    {
        ScopedMutPtr(ptr)
    }

    pub fn get_mut(&mut self) -> (r: Ptr<T>)
        ensures
            r.addr() == old(self).addr(),
            final(self).addr() == old(self).addr(),
    {
        self.0
    }
}

impl<T> Clone for ScopedMutPtr<T> {
    fn clone(&self) -> (r: Self)
        ensures
            r.addr() == self.addr(),
    {
        ScopedMutPtr(self.0)
    }
}

} // verus!
