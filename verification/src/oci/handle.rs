//! OCI handles.

use vstd::prelude::*;
use crate::err::{Diag, Error};
use crate::oci::ptr::Ptr;
use crate::oci::call::{AttrKind, AttrValue, OciCall, OciValue, Reply, Step};
use crate::oci::{attr, calls, HandleType, OCIEnv, OCIError};
use crate::text::{decimal, push_decimal};
use vstd::string::*;

verus! {

/// An OCI handle of type `T` that the library allocated (or adopted) and frees.
pub struct Handle<T: HandleType> {
    ptr: Ptr<T>,
}

/// The message of a handle allocation that OCI answered without a handle.
pub open spec fn null_handle_message(htype: u32) -> Seq<char> {
    seq!['O', 'C', 'I', ' ', 'r', 'e', 't', 'u', 'r', 'n', 'e', 'd', ' ', 'N', 'U', 'L', 'L', ' ',
        'f', 'o', 'r', ' ', 'h', 'a', 'n', 'd', 'l', 'e', ' '] + decimal(htype as int)
}

/// What an allocation reply gives: the address OCI wrote, or zero when it wrote none.
pub open spec fn allocated_addr(value: OciValue) -> usize {
    match value {
        OciValue::Ptr(a) => a,
        _ => 0,
    }
}

/// The error of a handle allocation that OCI answered without a handle.
pub fn null_handle_error(htype: u32) -> (r: Error)
    ensures
        r matches Error::Interface(m) && m@ == null_handle_message(htype),
{
    proof { reveal_strlit("OCI returned NULL for handle "); }
    let mut m = String::from_str("OCI returned NULL for handle ");
    push_decimal(&mut m, htype as i64);
    Error::msg(m)
}

pub fn reply_addr(value: &OciValue) -> (r: usize)
    ensures
        r == allocated_addr(*value),
{
    match value {
        OciValue::Ptr(a) => *a,
        _ => 0,
    }
}

impl<T: HandleType> Handle<T> {
    pub closed spec fn ptr(&self) -> Ptr<T> {
        self.ptr
    }

    pub open spec fn addr(&self) -> usize {
        self.ptr().addr()
    }

    /// The call that allocates a handle of type `T` under the environment.
    pub fn new(env: Ptr<OCIEnv>) -> (r: OciCall)
        ensures
            r == (OciCall::HandleAlloc { env: env.addr(), htype: T::htype() }),
    {
        calls::handle_alloc(env, T::get_type())
    }

    /// What the allocation's reply means: OCI's error, an error when OCI returned no
    /// handle, or the new handle.
    pub fn allocated(env: Ptr<OCIEnv>, reply: &Reply) -> (r: Step<Handle<T>>)
        ensures
            reply.status < 0 ==> r == Step::<Handle<T>>::Fail(Diag { handle: env.addr(), htype: 1, rc: reply.status }),
            reply.status >= 0 && allocated_addr(reply.value) == 0 ==>
                (r matches Step::Done(Err(Error::Interface(m))) && m@ == null_handle_message(T::htype())),
            reply.status >= 0 && allocated_addr(reply.value) != 0 ==>
                (r matches Step::Done(Ok(h)) && h.addr() == allocated_addr(reply.value)),
    {
        if reply.status < 0 {
            Step::Fail(Diag::env(env.get(), reply.status))
        } else {
            let a = reply_addr(&reply.value);
            if a == 0 {
                Step::Done(Err(null_handle_error(T::get_type())))
            } else {
                Step::Done(Ok(Handle { ptr: Ptr::new(a) }))
            }
        }
    }

    /// Adopts a handle that an OCI "create" function allocated.
    pub fn from(handle_ptr: Ptr<T>) -> (r: Self)
        ensures
            r.addr() == handle_ptr.addr(),
    {
        Handle { ptr: handle_ptr }
    }

    /// Takes the handle out of `other`, which is left holding none.
    pub fn take(other: &mut Self) -> (r: Self)
        ensures
            r.addr() == old(other).addr(),
            final(other).addr() == 0,
    {
        let mut handle_ptr = Ptr::<T>::null();
        handle_ptr.swap(&mut other.ptr);
        Handle { ptr: handle_ptr }
    }

    pub fn get_ptr(&self) -> (r: Ptr<T>)
        ensures
            r.addr() == self.addr(),
    {
        self.ptr
    }

    pub fn get(&self) -> (r: usize)
        ensures
            r == self.addr(),
    {
        self.ptr.get()
    }

    pub fn is_null(&self) -> (r: bool)
        ensures
            r == (self.addr() == 0),
    {
        self.ptr.is_null()
    }

    pub fn swap(&mut self, other: &mut Self)
        ensures
            final(self).addr() == old(other).addr(),
            final(other).addr() == old(self).addr(),
    {
        self.ptr.swap(&mut other.ptr);
    }

    /// The call that reads an attribute of this handle.
    pub fn get_attr(&self, attr_type: u32, kind: AttrKind, err: Ptr<OCIError>) -> (r: OciCall)
        ensures
            r == (OciCall::AttrGet { target: self.addr(), htype: T::htype(), attr: attr_type, kind, err: err.addr() }),
    {
        attr::get(attr_type, T::get_type(), self.ptr.get(), kind, err)
    }

    /// The call that reads a text attribute of this handle into a buffer of `capacity` bytes.
    pub fn get_attr_into(&self, attr_type: u32, capacity: usize, err: Ptr<OCIError>) -> (r: OciCall)
        ensures
            r == (OciCall::AttrGet { target: self.addr(), htype: T::htype(), attr: attr_type, kind: AttrKind::TextInto(capacity), err: err.addr() }),
    {
        attr::get_into(attr_type, capacity, T::get_type(), self.ptr.get(), err)
    }

    /// The call that writes an attribute of this handle.
    pub fn set_attr(&self, attr_type: u32, attr_val: AttrValue, err: Ptr<OCIError>) -> (r: OciCall)
        ensures
            r == (OciCall::AttrSet { target: self.addr(), htype: T::htype(), attr: attr_type, value: attr_val, err: err.addr() }),
    {
        attr::set(attr_type, attr_val, T::get_type(), self.ptr.get(), err)
    }

    /// What dropping the handle does: it frees a handle it holds, and nothing otherwise.
    pub fn free(&self) -> (r: Option<OciCall>)
        ensures
            self.addr() == 0 ==> r is None,
            self.addr() != 0 ==> r == Some(OciCall::HandleFree { handle: self.addr(), htype: T::htype() }),
    {
        if self.ptr.is_null() {
            None
        } else {
            Some(OciCall::HandleFree { handle: self.ptr.get(), htype: T::get_type() })
        }
    }
}

} // verus!
