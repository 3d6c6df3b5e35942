//! OCI calls made while the session is in nonblocking mode.
//!
//! Such a call may answer `OCI_STILL_EXECUTING`; it is then made again on the next poll
//! until it completes. While a call is in progress its future holds the session's
//! service context, so that no other future makes a call on it in between.

use vstd::prelude::*;
use crate::err::Diag;
use crate::oci::ptr::Ptr;
use crate::oci::call::OciCall;
use crate::oci::calls;
use crate::oci::{
    OCIError, OCIStmt, OCISvcCtx, OCI_DEFAULT, OCI_FETCH_NEXT, OCI_HTYPE_ERROR, OCI_INVALID_HANDLE,
    OCI_NO_DATA, OCI_NTV_SYNTAX, OCI_STILL_EXECUTING, OCI_STMT_SELECT, OCI_SUCCESS,
};
use crate::session::{claim, SvcCtx};

verus! {

/// The state of a future after a poll.
pub enum Poll<T> {
    /// Not done yet: poll again.
    Pending,
    /// Done: the result, or the diagnostics of the failure.
    Ready(Result<T, Diag>),
}

/// The status a call is judged by: a call that answered `OCI_INVALID_HANDLE` is judged
/// by the negated error code that the error handle then reports.
pub open spec fn effective_status(res: i32, errcode: i32) -> int {
    if res == OCI_INVALID_HANDLE { -errcode } else { res as int }
}

/// Whether the error handle must be asked for its error code before the answer is judged.
pub fn needs_error_code(res: i32) -> (r: bool)
    ensures
        r == (res == OCI_INVALID_HANDLE),
{
    res == OCI_INVALID_HANDLE
}

pub fn check_invalid_handle(res: i32, errcode: i32) -> (r: i32)
    requires
        res == OCI_INVALID_HANDLE ==> errcode > i32::MIN,
    ensures
        r as int == effective_status(res, errcode),
{
    if res == OCI_INVALID_HANDLE { -errcode } else { res }
}

/// Whether a poll may make its call: the future claims the context, which succeeds when
/// the context is free or the future already holds it. When this fails the poll is
/// pending.
pub fn poll_begin(ctx: &mut SvcCtx, id: usize) -> (r: bool)
    ensures
        (r, final(ctx).active()) == claim(old(ctx).active(), id),
        final(ctx).svc_addr() == old(ctx).svc_addr(),
        final(ctx).err_addr() == old(ctx).err_addr(),
{
    ctx.lock(id)
}

/// The shared end of a poll: a call still executing keeps the context and leaves the
/// future pending; otherwise the context is let go and the call succeeded unless its
/// status is negative.
pub fn settle(ctx: &mut SvcCtx, err: usize, res: i32) -> (r: Poll<i32>)
    ensures
        res == OCI_STILL_EXECUTING ==> r == Poll::<i32>::Pending && final(ctx).active() == old(ctx).active(),
        res != OCI_STILL_EXECUTING && res < 0 ==> r == Poll::<i32>::Ready(Err(Diag { handle: err, htype: OCI_HTYPE_ERROR, rc: res }))
            && final(ctx).active() == 0,
        res >= 0 ==> r == Poll::<i32>::Ready(Ok(res)) && final(ctx).active() == 0,
        final(ctx).svc_addr() == old(ctx).svc_addr(),
        final(ctx).err_addr() == old(ctx).err_addr(),
{
    if res == OCI_STILL_EXECUTING {
        Poll::Pending
    } else {
        ctx.unlock();
        if res < 0 {
            Poll::Ready(Err(Diag::oci(err, res)))
        } else {
            Poll::Ready(Ok(res))
        }
    }
}

/// A call whose result is only success or failure (ping, commit, rollback).
pub struct UnitCall {
    call: OciCall,
    err: usize,
}

impl UnitCall {
    pub closed spec fn call(&self) -> OciCall { self.call }
    pub closed spec fn err(&self) -> usize { self.err }

    /// The call to make once the poll has claimed the context.
    pub fn request(&self) -> (r: &OciCall)
        ensures
            *r == self.call(),
    {
        &self.call
    }

    /// Judges the call's (effective) status.
    pub fn poll(&self, ctx: &mut SvcCtx, res: i32) -> (r: Poll<()>)
        ensures
            res == OCI_STILL_EXECUTING ==> r == Poll::<()>::Pending && final(ctx).active() == old(ctx).active(),
            res != OCI_STILL_EXECUTING && res < 0 ==> r == Poll::<()>::Ready(Err(Diag { handle: self.err(), htype: OCI_HTYPE_ERROR, rc: res }))
                && final(ctx).active() == 0,
            res >= 0 ==> r == Poll::<()>::Ready(Ok(())) && final(ctx).active() == 0,
    {
        match settle(ctx, self.err, res) {
            Poll::Pending => Poll::Pending,
            Poll::Ready(Err(d)) => Poll::Ready(Err(d)),
            Poll::Ready(Ok(_)) => Poll::Ready(Ok(())),
        }
    }
}

fn unit_call(call: OciCall, err: usize) -> (r: UnitCall)
    ensures
        r.call() == call,
        r.err() == err,
{
    UnitCall { call, err }
}

/// Pings the server of the context.
pub fn ping(ctx: &SvcCtx) -> (r: UnitCall)
    ensures
        r.call() == (OciCall::Ping { svc: ctx.svc_addr(), err: ctx.err_addr() }),
        r.err() == ctx.err_addr(),
{
    unit_call(calls::ping(ctx.svc_ptr(), ctx.err_ptr()), ctx.err_ptr().get())
}

/// Commits the transaction of the context.
pub fn trans_commit(ctx: &SvcCtx) -> (r: UnitCall)
    ensures
        r.call() == (OciCall::TransCommit { svc: ctx.svc_addr(), err: ctx.err_addr() }),
        r.err() == ctx.err_addr(),
{
    unit_call(calls::trans_commit(ctx.svc_ptr(), ctx.err_ptr()), ctx.err_ptr().get())
}

/// Rolls back the transaction of the context.
pub fn trans_rollback(ctx: &SvcCtx) -> (r: UnitCall)
    ensures
        r.call() == (OciCall::TransRollback { svc: ctx.svc_addr(), err: ctx.err_addr() }),
        r.err() == ctx.err_addr(),
{
    unit_call(calls::trans_rollback(ctx.svc_ptr(), ctx.err_ptr()), ctx.err_ptr().get())
}

/// Prepares a statement; the result is the statement handle that OCI hands back.
pub struct StmtPrepare {
    call: OciCall,
    err: usize,
}

impl StmtPrepare {
    pub closed spec fn call(&self) -> OciCall { self.call }
    pub closed spec fn err(&self) -> usize { self.err }

    pub fn new(ctx: &SvcCtx, err: Ptr<OCIError>, sql: &str) -> (r: Self)
        ensures
            r.call() matches OciCall::StmtPrepare { svc, err: e, sql: s, language, mode }
                && svc == ctx.svc_addr() && e == err.addr() && s@ == sql@
                && language == OCI_NTV_SYNTAX && mode == OCI_DEFAULT,
            r.err() == err.addr(),
    {
        StmtPrepare { call: calls::stmt_prepare(ctx.svc_ptr(), err, sql, OCI_NTV_SYNTAX, OCI_DEFAULT), err: err.get() }
    }

    pub fn request(&self) -> (r: &OciCall)
        ensures
            *r == self.call(),
    {
        &self.call
    }

    /// Judges the call's (effective) status: only a plain success yields the statement;
    /// any other completed answer is a failure.
    pub fn poll(&self, ctx: &mut SvcCtx, res: i32, stmt: Ptr<OCIStmt>) -> (r: Poll<Ptr<OCIStmt>>)
        ensures
            res == OCI_STILL_EXECUTING ==> r == Poll::<Ptr<OCIStmt>>::Pending && final(ctx).active() == old(ctx).active(),
            res != OCI_STILL_EXECUTING && res != OCI_SUCCESS ==>
                r == Poll::<Ptr<OCIStmt>>::Ready(Err(Diag { handle: self.err(), htype: OCI_HTYPE_ERROR, rc: res }))
                && final(ctx).active() == 0,
            res == OCI_SUCCESS ==> r == Poll::<Ptr<OCIStmt>>::Ready(Ok(stmt)) && final(ctx).active() == 0,
    {
        if res == OCI_STILL_EXECUTING {
            Poll::Pending
        } else {
            ctx.unlock();
            if res == OCI_SUCCESS {
                Poll::Ready(Ok(stmt))
            } else {
                Poll::Ready(Err(Diag::oci(self.err, res)))
            }
        }
    }
}

/// A call whose result is its status (execute, fetch).
pub struct StatusCall {
    call: OciCall,
    err: usize,
}

impl StatusCall {
    pub closed spec fn call(&self) -> OciCall { self.call }
    pub closed spec fn err(&self) -> usize { self.err }

    pub fn request(&self) -> (r: &OciCall)
        ensures
            *r == self.call(),
    {
        &self.call
    }

    /// Judges the call's (effective) status.
    pub fn poll(&self, ctx: &mut SvcCtx, res: i32) -> (r: Poll<i32>)
        ensures
            res == OCI_STILL_EXECUTING ==> r == Poll::<i32>::Pending && final(ctx).active() == old(ctx).active(),
            res != OCI_STILL_EXECUTING && res < 0 ==> r == Poll::<i32>::Ready(Err(Diag { handle: self.err(), htype: OCI_HTYPE_ERROR, rc: res }))
                && final(ctx).active() == 0,
            res >= 0 ==> r == Poll::<i32>::Ready(Ok(res)) && final(ctx).active() == 0,
    {
        settle(ctx, self.err, res)
    }
}

/// The number of times a statement is executed: queries are executed with no row
/// array (0), other statements once.
pub open spec fn execute_iters(stmt_type: u16) -> u32 {
    if stmt_type == OCI_STMT_SELECT { 0 } else { 1 }
}

/// Executes a statement of type `stmt_type`.
pub fn stmt_execute(ctx: &SvcCtx, err: Ptr<OCIError>, stmt: Ptr<OCIStmt>, stmt_type: u16) -> (r: StatusCall)
    ensures
        r.call() == (OciCall::StmtExecute {
            svc: ctx.svc_addr(), stmt: stmt.addr(), err: err.addr(), iters: execute_iters(stmt_type), rowoff: 0, mode: OCI_DEFAULT }),
        r.err() == err.addr(),
{
    let iters: u32 = if stmt_type == OCI_STMT_SELECT { 0 } else { 1 };
    StatusCall { call: calls::stmt_execute(ctx.svc_ptr(), stmt, err, iters, 0, OCI_DEFAULT), err: err.get() }
}

/// Fetches the next row.
pub fn stmt_fetch(stmt: Ptr<OCIStmt>, err: Ptr<OCIError>) -> (r: StatusCall)
    ensures
        r.call() == (OciCall::StmtFetch { stmt: stmt.addr(), err: err.addr(), nrows: 1, orient: OCI_FETCH_NEXT, offset: 0, mode: OCI_DEFAULT }),
        r.err() == err.addr(),
{
    StatusCall { call: calls::stmt_fetch(stmt, err, 1, OCI_FETCH_NEXT, 0, OCI_DEFAULT), err: err.get() }
}

/// Asks for the next implicit result of a statement.
pub struct StmtGetNextResult {
    call: OciCall,
    err: usize,
}

impl StmtGetNextResult {
    pub closed spec fn call(&self) -> OciCall { self.call }
    pub closed spec fn err(&self) -> usize { self.err }

    pub fn new(stmt: Ptr<OCIStmt>, err: Ptr<OCIError>) -> (r: Self)
        ensures
            r.call() == (OciCall::StmtGetNextResult { stmt: stmt.addr(), err: err.addr() }),
            r.err() == err.addr(),
    {
        StmtGetNextResult { call: calls::stmt_get_next_result(stmt, err), err: err.get() }
    }

    pub fn request(&self) -> (r: &OciCall)
        ensures
            *r == self.call(),
    {
        &self.call
    }

    /// Judges the call's (effective) status: `OCI_NO_DATA` means there are no more
    /// results; any other success yields the cursor that OCI handed back.
    pub fn poll(&self, ctx: &mut SvcCtx, res: i32, cursor: Ptr<OCIStmt>) -> (r: Poll<Option<Ptr<OCIStmt>>>)
        ensures
            res == OCI_STILL_EXECUTING ==> r == Poll::<Option<Ptr<OCIStmt>>>::Pending && final(ctx).active() == old(ctx).active(),
            res != OCI_STILL_EXECUTING && res < 0 ==>
                r == Poll::<Option<Ptr<OCIStmt>>>::Ready(Err(Diag { handle: self.err(), htype: OCI_HTYPE_ERROR, rc: res }))
                && final(ctx).active() == 0,
            res == OCI_NO_DATA ==> r == Poll::<Option<Ptr<OCIStmt>>>::Ready(Ok(None)) && final(ctx).active() == 0,
            res >= 0 && res != OCI_NO_DATA ==> r == Poll::<Option<Ptr<OCIStmt>>>::Ready(Ok(Some(cursor))) && final(ctx).active() == 0,
    {
        match settle(ctx, self.err, res) {
            Poll::Pending => Poll::Pending,
            Poll::Ready(Err(d)) => Poll::Ready(Err(d)),
            Poll::Ready(Ok(status)) => if status == OCI_NO_DATA {
                Poll::Ready(Ok(None))
            } else {
                Poll::Ready(Ok(Some(cursor)))
            },
        }
    }
}

/// While one future holds the context, another future's claim fails and leaves it with
/// the holder, while the holder's own claim succeeds; once the holder lets it go, the
/// other future's claim succeeds.
pub proof fn lemma_context_is_exclusive(holder: usize, other: usize)
    requires
        holder != 0,
        other != holder,
    ensures
        claim(claim(0, holder).1, other) == (false, holder),
        claim(claim(0, holder).1, holder) == (true, holder),
        claim(0, other) == (true, other),
{
}

} // verus!
