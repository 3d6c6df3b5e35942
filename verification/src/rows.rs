//! Rows of a query's result, fetched one at a time.

use vstd::prelude::*;
use vstd::string::*;
use crate::err::{Diag, Error};
use crate::oci::ptr::Ptr;
use crate::oci::call::{AttrKind, OciCall, Reply, Step};
use crate::oci::desc::Descriptor;
use crate::oci::{
    calls, OCIEnv, OCIError, OCIRowid, OCIStmt, OCI_ATTR_ROWID, OCI_DEFAULT, OCI_DTYPE_ROWID,
    OCI_FETCH_NEXT, OCI_HTYPE_ERROR, OCI_HTYPE_STMT, OCI_NO_DATA, OCI_SUCCESS, OCI_SUCCESS_WITH_INFO,
};
use crate::column::Column;
use crate::oci::handle::allocated_addr;

verus! {

/// The message of a column position past the last column.
pub open spec fn out_of_bounds_message() -> Seq<char> {
    seq!['c', 'o', 'l', 'u', 'm', 'n', ' ', 'p', 'o', 's', 'i', 't', 'i', 'o', 'n', ' ', 'i', 's', ' ',
        'o', 'u', 't', ' ', 'o', 'f', ' ', 'b', 'o', 'u', 'n', 'd', 's']
}

/// The call that fetches the next row of a statement.
pub open spec fn fetch_call(stmt: usize, err: usize) -> OciCall {
    OciCall::StmtFetch { stmt, err, nrows: 1, orient: OCI_FETCH_NEXT, offset: 0, mode: OCI_DEFAULT }
}

/// What asking for the next row gives, after a call that answered `last`: nothing more
/// once OCI said there is no more data, otherwise a fetch.
pub open spec fn next_step(last: i32, stmt: usize, err: usize) -> Step<bool> {
    if last == OCI_NO_DATA { Step::Done(Ok(false)) } else { Step::Call(fetch_call(stmt, err)) }
}

/// The result set of a query.
pub struct Rows {
    stmt: Ptr<OCIStmt>,
    err: Ptr<OCIError>,
    last_result: i32,
}

impl Rows {
    pub closed spec fn stmt_addr(&self) -> usize { self.stmt.addr() }
    pub closed spec fn err_addr(&self) -> usize { self.err.addr() }
    pub closed spec fn last_result(&self) -> i32 { self.last_result }

    /// The rows of a statement whose execution answered `res`.
    pub fn new(res: i32, stmt: Ptr<OCIStmt>, err: Ptr<OCIError>) -> (r: Rows)
        ensures
            r.last_result() == res,
            r.stmt_addr() == stmt.addr(),
            r.err_addr() == err.addr(),
    {
        Rows { stmt, err, last_result: res }
    }

    /// Asks for the next row: `Done(Ok(false))` when there are no more rows, or the fetch
    /// to make (its answer goes to `fetched`).
    pub fn next(&self) -> (r: Step<bool>)
        ensures
            r == next_step(self.last_result(), self.stmt_addr(), self.err_addr()),
    {
        if self.last_result == OCI_NO_DATA {
            Step::Done(Ok(false))
        } else {
            Step::Call(calls::stmt_fetch(self.stmt, self.err, 1, OCI_FETCH_NEXT, 0, OCI_DEFAULT))
        }
    }

    /// Records OCI's answer to a fetch: `Ok(true)` when a row was fetched, `Ok(false)` when
    /// there are no more rows, the error handle's diagnostics otherwise.
    pub fn fetched(&mut self, res: i32) -> (r: Result<bool, Diag>)
        ensures
            final(self).last_result() == res,
            final(self).stmt_addr() == old(self).stmt_addr(),
            final(self).err_addr() == old(self).err_addr(),
            res == OCI_NO_DATA ==> r == Ok::<bool, Diag>(false),
            (res == OCI_SUCCESS || res == OCI_SUCCESS_WITH_INFO) ==> r == Ok::<bool, Diag>(true),
            res != OCI_NO_DATA && res != OCI_SUCCESS && res != OCI_SUCCESS_WITH_INFO ==>
                r == Err::<bool, Diag>(Diag { handle: old(self).err_addr(), htype: OCI_HTYPE_ERROR, rc: res }),
    {
        self.last_result = res;
        if res == OCI_NO_DATA {
            Ok(false)
        } else if res == OCI_SUCCESS || res == OCI_SUCCESS_WITH_INFO {
            Ok(true)
        } else {
            Err(Diag::oci(self.err.get(), res))
        }
    }
}

/// Once a fetch finds no more data, asking for the next row makes no more calls, however
/// often it is asked.
pub proof fn lemma_no_fetch_after_end(stmt: usize, err: usize)
    ensures
        next_step(OCI_NO_DATA, stmt, err) == Step::<bool>::Done(Ok(false)),
{
}

/// A row of data returned by a query.
pub struct Row {
    stmt: Ptr<OCIStmt>,
    err: Ptr<OCIError>,
    cols: Vec<Column>,
}

impl Row {
    pub closed spec fn columns(&self) -> Seq<Column> { self.cols@ }
    pub closed spec fn stmt_addr(&self) -> usize { self.stmt.addr() }
    pub closed spec fn err_addr(&self) -> usize { self.err.addr() }

    /// The row whose values stand in `cols`.
    pub fn new(stmt: Ptr<OCIStmt>, err: Ptr<OCIError>, cols: Vec<Column>) -> (r: Row)
        ensures
            r.columns() == cols@,
            r.stmt_addr() == stmt.addr(),
            r.err_addr() == err.addr(),
    {
        Row { stmt, err, cols }
    }

    /// Returns `true` if the value of the column at `pos` (from 0) is null; a position
    /// past the last column counts as null.
    pub fn is_null(&self, pos: usize) -> (r: bool)
        ensures
            pos < self.columns().len() ==> r == (self.columns()[pos as int].ind() == crate::oci::OCI_IND_NULL),
            pos >= self.columns().len() ==> r,
    {
        if pos < self.cols.len() {
            self.cols[pos].is_null()
        } else {
            true
        }
    }

    /// The column whose value is read at `pos` (from 0): `None` for a null value, an error
    /// for a position past the last column.
    pub fn get(&self, pos: usize) -> (r: Result<Option<Column>, Error>)
        ensures
            pos >= self.columns().len() ==> (r matches Err(Error::Interface(m)) && m@ == out_of_bounds_message()),
            pos < self.columns().len() && self.columns()[pos as int].ind() == crate::oci::OCI_IND_NULL ==>
                r == Ok::<Option<Column>, Error>(None),
            pos < self.columns().len() && self.columns()[pos as int].ind() != crate::oci::OCI_IND_NULL ==>
                r == Ok::<Option<Column>, Error>(Some(self.columns()[pos as int])),
    {
        if pos < self.cols.len() {
            if self.cols[pos].is_null() {
                Ok(None)
            } else {
                Ok(Some(self.cols[pos]))
            }
        } else {
            proof { reveal_strlit("column position is out of bounds"); }
            Err(Error::new("column position is out of bounds"))
        }
    }

    /// Returns the rowid of the row: a rowid descriptor is allocated, then the row's rowid
    /// copied into it (see `rowid_fetched`).
    pub fn get_rowid(&self, env: Ptr<OCIEnv>) -> (r: OciCall)
        ensures
            r == (OciCall::DescriptorAlloc { env: env.addr(), dtype: OCI_DTYPE_ROWID }),
    {
        Descriptor::<OCIRowid>::new(env)
    }

    /// Takes OCI's answer to the rowid descriptor allocation: the call that copies the
    /// row's rowid into it.
    pub fn rowid_allocated(&self, env: Ptr<OCIEnv>, reply: &Reply) -> (r: Step<Descriptor<OCIRowid>>)
        ensures
            reply.status < 0 ==> r == Step::<Descriptor<OCIRowid>>::Fail(Diag { handle: env.addr(), htype: 1, rc: reply.status }),
            reply.status >= 0 && allocated_addr(reply.value) == 0 ==> (r matches Step::Done(Err(_))),
            reply.status >= 0 && allocated_addr(reply.value) != 0 ==> r == Step::<Descriptor<OCIRowid>>::Call(OciCall::AttrGet {
                target: self.stmt_addr(), htype: OCI_HTYPE_STMT, attr: OCI_ATTR_ROWID,
                kind: AttrKind::IntoDescriptor(allocated_addr(reply.value)), err: self.err_addr() }),
    {
        match Descriptor::<OCIRowid>::allocated(env, reply) {
            Step::Done(Ok(d)) => Step::Call(calls::attr_get(self.stmt.get(), OCI_HTYPE_STMT, AttrKind::IntoDescriptor(d.get()), OCI_ATTR_ROWID, self.err)),
            Step::Done(Err(e)) => Step::Done(Err(e)),
            Step::Fail(d) => Step::Fail(d),
            Step::Call(c) => Step::Call(c),
        }
    }

    /// Takes OCI's answer to the rowid copy into the descriptor at `rowid`.
    pub fn rowid_fetched(&self, rowid: usize, reply: &Reply) -> (r: Step<Descriptor<OCIRowid>>)
        ensures
            reply.status < 0 ==> r == Step::<Descriptor<OCIRowid>>::Fail(Diag { handle: self.err_addr(), htype: OCI_HTYPE_ERROR, rc: reply.status }),
            reply.status >= 0 ==> (r matches Step::Done(Ok(d)) && d.addr() == rowid),
    {
        if reply.status < 0 {
            Step::Fail(Diag::oci(self.err.get(), reply.status))
        } else {
            Step::Done(Ok(Descriptor::from(Ptr::new(rowid))))
        }
    }
}

} // verus!
