//! Addresses of OCI handles and descriptors.

use vstd::prelude::*;
use core::marker::PhantomData;

verus! {

/// The address of an OCI handle or descriptor of type `T`. Zero is the null address.
/// The memory behind it belongs to OCI; the library keeps only the address.
pub struct Ptr<T> {
    addr: usize,
    marker: PhantomData<T>,
}

impl<T> Ptr<T> {
    /// The address held.
    pub closed spec fn addr(&self) -> usize {
        self.addr
    }

    pub open spec fn is_null_spec(&self) -> bool {
        self.addr() == 0
    }

    pub fn new(addr: usize) -> (r: Self)
        ensures
            r.addr() == addr,
    {
        Ptr { addr, marker: PhantomData }
    }

    pub fn null() -> (r: Self)
        ensures
            r.addr() == 0,
    {
        Ptr { addr: 0, marker: PhantomData }
    }

    /// Exchanges the addresses held by `self` and `other`.
    pub fn swap(&mut self, other: &mut Self)
        ensures
            final(self).addr() == old(other).addr(),
            final(other).addr() == old(self).addr(),
    {
        if self.addr != other.addr {
            let tmp = self.addr;
            self.addr = other.addr;
            other.addr = tmp;
        }
    }

    pub fn is_null(&self) -> (r: bool)
        ensures
            r == self.is_null_spec(),
    {
        self.addr == 0
    }

    pub fn get(&self) -> (r: usize)
        ensures
            r == self.addr(),
    {
        self.addr
    }

    pub fn get_mut(&self) -> (r: usize)
        ensures
            r == self.addr(),
    {
        self.addr
    }
}

impl<T> Clone for Ptr<T> {
    fn clone(&self) -> (r: Self)
        ensures
            r.addr() == self.addr(),
    {
        Ptr { addr: self.addr, marker: PhantomData }
    }
}

impl<T> Copy for Ptr<T> {}

} // verus!
