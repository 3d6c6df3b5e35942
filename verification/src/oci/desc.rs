//! OCI descriptors

use vstd::prelude::*;
use crate::err::{Diag, Error};
use crate::oci::ptr::Ptr;
use crate::oci::call::{AttrKind, AttrValue, OciCall, Reply, Step};
use crate::oci::handle::{allocated_addr, reply_addr};
use crate::oci::{attr, calls, DescriptorType, OCIEnv, OCIError};
use vstd::string::*;

verus! {

/// An OCI descriptor of type `T` that the library allocated (or adopted) and frees.
pub struct Descriptor<T: DescriptorType> {
    ptr: Ptr<T::OCIType>,
}

/// The message of a descriptor allocation that OCI answered without a descriptor.
pub open spec fn null_descriptor_message() -> Seq<char> {
    seq!['O', 'C', 'I', 'D', 'e', 's', 'c', 'r', 'i', 'p', 't', 'o', 'r', 'A', 'l', 'l', 'o', 'c',
        ' ', 'r', 'e', 't', 'u', 'r', 'n', 'e', 'd', ' ', 'N', 'U', 'L', 'L']
}

impl<T: DescriptorType> Descriptor<T> {
    pub closed spec fn ptr(&self) -> Ptr<T::OCIType> {
        self.ptr
    }

    pub open spec fn addr(&self) -> usize {
        self.ptr().addr()
    }

    /// The call that allocates a descriptor of type `T` under the environment.
    pub fn new(env: Ptr<OCIEnv>) -> (r: OciCall)
        ensures
            r == (OciCall::DescriptorAlloc { env: env.addr(), dtype: T::dtype() }),
    {
        calls::descriptor_alloc(env, T::get_type())
    }

    /// What the allocation's reply means: OCI's error, an error when OCI returned no
    /// descriptor, or the new descriptor.
    pub fn allocated(env: Ptr<OCIEnv>, reply: &Reply) -> (r: Step<Descriptor<T>>)
        ensures
            reply.status < 0 ==> r == Step::<Descriptor<T>>::Fail(Diag { handle: env.addr(), htype: 1, rc: reply.status }),
            reply.status >= 0 && allocated_addr(reply.value) == 0 ==>
                (r matches Step::Done(Err(Error::Interface(m))) && m@ == null_descriptor_message()),
            reply.status >= 0 && allocated_addr(reply.value) != 0 ==>
                (r matches Step::Done(Ok(d)) && d.addr() == allocated_addr(reply.value)),
    {
        if reply.status < 0 {
            Step::Fail(Diag::env(env.get(), reply.status))
        } else {
            let a = reply_addr(&reply.value);
            if a == 0 {
                proof { reveal_strlit("OCIDescriptorAlloc returned NULL"); }
                Step::Done(Err(Error::new("OCIDescriptorAlloc returned NULL")))
            } else {
                Step::Done(Ok(Descriptor { ptr: Ptr::new(a) }))
            }
        }
    }

    /// Adopts a descriptor that OCI allocated.
    pub fn from(desc_ptr: Ptr<T::OCIType>) -> (r: Self)
        ensures
            r.addr() == desc_ptr.addr(),
    {
        Descriptor { ptr: desc_ptr }
    }

    /// Takes the descriptor out of `other`, which is left holding none.
    pub fn take(other: &mut Self) -> (r: Self)
        ensures
            r.addr() == old(other).addr(),
            final(other).addr() == 0,
    {
        let mut desc_ptr = Ptr::<T::OCIType>::null();
        desc_ptr.swap(&mut other.ptr);
        Descriptor { ptr: desc_ptr }
    }

    /// Makes the descriptor refer to `ptr` instead.
    pub fn replace(&mut self, ptr: Ptr<T::OCIType>)
        ensures
            final(self).addr() == ptr.addr(),
    {
        let mut ptr = ptr;
        self.ptr.swap(&mut ptr);
    }

    pub fn get_ptr(&self) -> (r: Ptr<T::OCIType>)
        ensures
            r.addr() == self.addr(),
    {
        self.ptr
    }

    pub fn get(&self) -> (r: usize)
        ensures
            r == self.addr(),
    {
        self.ptr.get()
    }

    pub fn swap(&mut self, other: &mut Self)
        ensures
            final(self).addr() == old(other).addr(),
            final(other).addr() == old(self).addr(),
    {
        self.ptr.swap(&mut other.ptr);
    }

    /// The call that reads an attribute of this descriptor.
    pub fn get_attr(&self, attr_type: u32, kind: AttrKind, err: Ptr<OCIError>) -> (r: OciCall)
        ensures
            r == (OciCall::AttrGet { target: self.addr(), htype: T::dtype(), attr: attr_type, kind, err: err.addr() }),
    {
        attr::get(attr_type, T::get_type(), self.ptr.get(), kind, err)
    }

    /// The call that reads a text attribute of this descriptor into a buffer of `capacity` bytes.
    pub fn get_attr_into(&self, attr_type: u32, capacity: usize, err: Ptr<OCIError>) -> (r: OciCall)
        ensures
            r == (OciCall::AttrGet { target: self.addr(), htype: T::dtype(), attr: attr_type, kind: AttrKind::TextInto(capacity), err: err.addr() }),
    {
        attr::get_into(attr_type, capacity, T::get_type(), self.ptr.get(), err)
    }

    /// The call that writes an attribute of this descriptor.
    pub fn set_attr(&self, attr_type: u32, attr_val: AttrValue, err: Ptr<OCIError>) -> (r: OciCall)
        ensures
            r == (OciCall::AttrSet { target: self.addr(), htype: T::dtype(), attr: attr_type, value: attr_val, err: err.addr() }),
    {
        attr::set(attr_type, attr_val, T::get_type(), self.ptr.get(), err)
    }

    /// What dropping the descriptor does: it frees a descriptor it holds, and nothing otherwise.
    pub fn free(&self) -> (r: Option<OciCall>)
        ensures
            self.addr() == 0 ==> r is None,
            self.addr() != 0 ==> r == Some(OciCall::DescriptorFree { desc: self.addr(), dtype: T::dtype() }),
    {
        if self.ptr.is_null() {
            None
        } else {
            Some(OciCall::DescriptorFree { desc: self.ptr.get(), dtype: T::get_type() })
        }
    }
}

} // verus!
