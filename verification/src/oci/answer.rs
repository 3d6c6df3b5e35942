//! What OCI's answer to a single call gives: the diagnostics of a failed call, or the
//! value that the call handed back, read as the type the call reports.

use vstd::prelude::*;
use crate::err::Diag;
use crate::oci::call::{spec_failure, OciCall, OciValue, Reply};
use crate::column::{reply_u16, u16_value};
use crate::pool::connection::{reply_u32, u32_value};
use crate::lob::{counts_of, flag_value, reply_counts, reply_flag, reply_u64, u64_value};
use crate::cursor::text_value;

verus! {

/// The outcome of `call` when OCI answered `reply`.
pub open spec fn outcome<T>(call: OciCall, reply: Reply, value: T) -> Result<T, Diag> {
    match spec_failure(call, reply.status) {
        Some(d) => Err(d),
        None => Ok(value),
    }
}

/// The value OCI handed back, or the diagnostics of the failed call.
pub fn answer(call: &OciCall, reply: Reply) -> (r: Result<OciValue, Diag>)
    ensures
        r == outcome(*call, reply, reply.value),
{
    match call.failure(reply.status) {
        Some(d) => Err(d),
        None => Ok(reply.value),
    }
}

/// A 16-bit number that OCI handed back, such as a type code or a size.
pub fn answer_u16(call: &OciCall, reply: &Reply) -> (r: Result<u16, Diag>)
    ensures
        r == outcome(*call, *reply, u16_value(reply.value)),
{
    match call.failure(reply.status) {
        Some(d) => Err(d),
        None => Ok(reply_u16(&reply.value)),
    }
}

/// A 32-bit number that OCI handed back, such as a count, a size or a timeout.
pub fn answer_u32(call: &OciCall, reply: &Reply) -> (r: Result<u32, Diag>)
    ensures
        r == outcome(*call, *reply, u32_value(reply.value)),
{
    match call.failure(reply.status) {
        Some(d) => Err(d),
        None => Ok(reply_u32(&reply.value)),
    }
}

/// A 64-bit number that OCI handed back, such as a LOB's length.
pub fn answer_u64(call: &OciCall, reply: &Reply) -> (r: Result<u64, Diag>)
    ensures
        r == outcome(*call, *reply, u64_value(reply.value)),
{
    match call.failure(reply.status) {
        Some(d) => Err(d),
        None => Ok(reply_u64(&reply.value)),
    }
}

/// The bytes and characters that OCI counted in its answer to a LOB write.
pub fn answer_counts(call: &OciCall, reply: &Reply) -> (r: Result<(usize, usize), Diag>)
    ensures
        r == outcome(*call, *reply, counts_of(reply.value)),
{
    match call.failure(reply.status) {
        Some(d) => Err(d),
        None => Ok(reply_counts(&reply.value)),
    }
}

/// A flag that OCI handed back, such as whether a LOB is open.
pub fn answer_flag(call: &OciCall, reply: &Reply) -> (r: Result<bool, Diag>)
    ensures
        r == outcome(*call, *reply, flag_value(reply.value)),
{
    match call.failure(reply.status) {
        Some(d) => Err(d),
        None => Ok(reply_flag(&reply.value)),
    }
}

/// A text that OCI handed back, such as a schema or a language name.
pub fn answer_text(call: &OciCall, reply: &Reply) -> (r: Result<String, Diag>)
    ensures
        spec_failure(*call, reply.status) matches Some(d) ==> r == Err::<String, Diag>(d),
        spec_failure(*call, reply.status) is None ==> (r matches Ok(t) && t@ == text_value(reply.value)),
{
    match call.failure(reply.status) {
        Some(d) => Err(d),
        None => match &reply.value {
            OciValue::Text(t) => Ok(t.clone()),
            _ => Ok(String::new()),
        },
    }
}

} // verus!
