//! OCI parameter descriptors of a statement's select list.

use vstd::prelude::*;
use crate::err::Diag;
use crate::oci::ptr::Ptr;
use crate::oci::call::{OciCall, Reply, Step};
use crate::oci::desc::Descriptor;
use crate::oci::handle::{allocated_addr, reply_addr};
use crate::oci::{calls, OCIError, OCIParam, OCIStmt};

verus! {

/// The call that gets the parameter descriptor at position `pos`.
pub fn get(pos: u32, obj_type: u32, obj: Ptr<OCIStmt>, err: Ptr<OCIError>) -> (r: OciCall)
    ensures
        r == (OciCall::ParamGet { stmt: obj.addr(), htype: obj_type, err: err.addr(), pos }),
{
    calls::param_get(obj, obj_type, err, pos)
}

/// The descriptor that the reply to `get` hands over, or the error handle's diagnostics.
pub fn got(err: Ptr<OCIError>, reply: &Reply) -> (r: Step<Descriptor<OCIParam>>)
    ensures
        reply.status < 0 ==> r == Step::<Descriptor<OCIParam>>::Fail(Diag { handle: err.addr(), htype: 2, rc: reply.status }),
        reply.status >= 0 ==> (r matches Step::Done(Ok(d)) && d.addr() == allocated_addr(reply.value)),
{
    if reply.status < 0 {
        Step::Fail(Diag::oci(err.get(), reply.status))
    } else {
        Step::Done(Ok(Descriptor::from(Ptr::new(reply_addr(&reply.value)))))
    }
}

} // verus!
