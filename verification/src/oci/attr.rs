//! Reading and writing OCI attributes.

use vstd::prelude::*;
use crate::oci::ptr::Ptr;
use crate::oci::call::{AttrKind, AttrValue, OciCall};
use crate::oci::calls;
use crate::oci::OCIError;

verus! {

/// The call that reads attribute `attr_type` of the object at `obj` (of type `obj_type`)
/// as a value of the given kind.
pub fn get(attr_type: u32, obj_type: u32, obj: usize, kind: AttrKind, err: Ptr<OCIError>) -> (r: OciCall)
    ensures
        r == (OciCall::AttrGet { target: obj, htype: obj_type, attr: attr_type, kind, err: err.addr() }),
{
    calls::attr_get(obj, obj_type, kind, attr_type, err)
}

/// The call that reads a text attribute into a buffer of capacity `capacity`.
pub fn get_into(attr_type: u32, capacity: usize, obj_type: u32, obj: usize, err: Ptr<OCIError>) -> (r: OciCall)
    ensures
        r == (OciCall::AttrGet { target: obj, htype: obj_type, attr: attr_type, kind: AttrKind::TextInto(capacity), err: err.addr() }),
{
    calls::attr_get(obj, obj_type, AttrKind::TextInto(capacity), attr_type, err)
}

/// The call that writes `attr_val` into attribute `attr_type` of the object at `obj`.
pub fn set(attr_type: u32, attr_val: AttrValue, obj_type: u32, obj: usize, err: Ptr<OCIError>) -> (r: OciCall)
    ensures
        r == (OciCall::AttrSet { target: obj, htype: obj_type, attr: attr_type, value: attr_val, err: err.addr() }),
{
    calls::attr_set(obj, obj_type, attr_val, attr_type, err)
}

} // verus!
