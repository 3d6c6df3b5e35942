//! SQL or PL/SQL statements.

use vstd::prelude::*;
use crate::oci::ptr::Ptr;
use crate::oci::call::{AttrKind, AttrValue, OciCall, Reply, Step};
use crate::err::{Diag, Error};
use crate::column::Column;
use crate::cursor::name_call;
use crate::oci::handle::{allocated_addr, reply_addr};
use crate::oci::{
    attr, calls, OCIError, OCIParam, OCIStmt, OCI_ATTR_DATA_TYPE, OCI_ATTR_NAME, OCI_DTYPE_PARAM, OCI_IND_NULL, OCI_ATTR_PARAM_COUNT, OCI_ATTR_PREFETCH_ROWS, OCI_ATTR_UB8_ROW_COUNT,
    OCI_DEFAULT, OCI_HTYPE_ERROR, OCI_HTYPE_STMT,
};

verus! {

/// A parameter or column position: an index (from 0) or a name.
pub trait Position {
    /// The index the position is, if it is one.
    spec fn at_index(&self) -> Option<usize>;
    /// The name the position is, if it is one.
    spec fn at_name(&self) -> Option<Seq<char>>;

    /// The index, when the position is one.
    fn index(&self) -> (r: Option<usize>)
        ensures
            r == self.at_index();
    /// The name, when the position is one.
    fn name(&self) -> (r: Option<&str>)
        ensures
            r is Some == self.at_name() is Some,
            r matches Some(n) ==> self.at_name() == Some(n@);
}

impl Position for usize {
    open spec fn at_index(&self) -> Option<usize> { Some(*self) }
    open spec fn at_name(&self) -> Option<Seq<char>> { None }

    fn index(&self) -> (r: Option<usize>)
    {
        Some(*self)
    }

    fn name(&self) -> (r: Option<&str>)
    {
        None
    }
}

impl<'a> Position for &'a str {
    open spec fn at_index(&self) -> Option<usize> { None }
    open spec fn at_name(&self) -> Option<Seq<char>> { Some(self@) }

    fn index(&self) -> (r: Option<usize>)
    {
        None
    }

    fn name(&self) -> (r: Option<&str>)
    {
        Some(*self)
    }
}

/// A placeholder's name without the colon that may lead it.
pub open spec fn bare(name: Seq<char>) -> Seq<char> {
    if name.len() > 0 && name[0] == ':' { name.drop_first() } else { name }
}

/// The index (from 0) of the first placeholder named `name` from index `k` on.
pub open spec fn first_named_from(names: Seq<Seq<char>>, name: Seq<char>, k: int) -> Option<usize>
    decreases names.len() - k,
{
    if k < 0 || k >= names.len() {
        None
    } else if bare(names[k]) == bare(name) {
        Some(k as usize)
    } else {
        first_named_from(names, name, k + 1)
    }
}

/// The index (from 0) of the first placeholder named `name`.
pub open spec fn first_named(names: Seq<Seq<char>>, name: Seq<char>) -> Option<usize> {
    first_named_from(names, name, 0)
}

/// The placeholder at a position: an index within the placeholders, or the first one of
/// a name.
pub open spec fn placeholder(names: Seq<Seq<char>>, index: Option<usize>, name: Option<Seq<char>>) -> Option<usize> {
    match index {
        Some(i) => if i < names.len() { Some(i) } else { None },
        None => match name {
            Some(n) => first_named(names, n),
            None => None,
        },
    }
}

/// The message of a position that names no placeholder.
pub open spec fn no_param_message() -> Seq<char> {
    seq!['p', 'a', 'r', 'a', 'm', 'e', 't', 'e', 'r', ' ', 'n', 'o', 't', ' ', 'f', 'o', 'u', 'n', 'd']
}

fn same_name(stored: &str, asked: &str) -> (r: bool)
    ensures
        r == (bare(stored@) == bare(asked@)),
{
    let n = stored.unicode_len();
    let m = asked.unicode_len();
    let a: usize = if n > 0 && stored.get_char(0) == ':' { 1 } else { 0 };
    let b: usize = if m > 0 && asked.get_char(0) == ':' { 1 } else { 0 };
    let ghost x = bare(stored@);
    let ghost y = bare(asked@);
    assert(x =~= stored@.subrange(a as int, n as int));
    assert(y =~= asked@.subrange(b as int, m as int));
    if n - a != m - b {
        assert(x.len() != y.len());
        return false;
    }
    let mut i: usize = 0;
    while i < n - a
        invariant
            n == stored@.len(),
            m == asked@.len(),
            a <= n,
            b <= m,
            n - a == m - b,
            i <= n - a,
            x == bare(stored@),
            y == bare(asked@),
            x =~= stored@.subrange(a as int, n as int),
            y =~= asked@.subrange(b as int, m as int),
            forall|j: int| 0 <= j < i ==> x[j] == y[j],
        decreases n - a - i,
    {
        let c = stored.get_char(a + i);
        let d = asked.get_char(b + i);
        assert(x[i as int] == c && y[i as int] == d);
        if c != d {
            assert(x[i as int] != y[i as int]);
            assert(x != y);
            return false;
        }
        i = i + 1;
    }
    assert(x =~= y);
    true
}

/// The parameters bound to a statement's placeholders, in placeholder order: each one's
/// name, the null indicator and the length of the data it holds after execution.
pub struct Params {
    names: Vec<String>,
    inds: Vec<i16>,
    lens: Vec<u32>,
}

impl Params {
    pub closed spec fn names(&self) -> Seq<Seq<char>> { self.names@.map_values(|n: String| n@) }
    pub closed spec fn inds(&self) -> Seq<i16> { self.inds@ }
    pub closed spec fn lens(&self) -> Seq<u32> { self.lens@ }
    /// Every placeholder has an indicator and a length.
    pub closed spec fn wf(&self) -> bool {
        self.inds@.len() == self.names@.len() && self.lens@.len() == self.names@.len()
    }

    /// The parameters of placeholders `names`, null and empty until the statement runs.
    pub fn new(names: Vec<String>) -> (r: Params)
        ensures
            r.wf(),
            r.names() == names@.map_values(|n: String| n@),
            forall|i: int| 0 <= i < names@.len() ==> r.inds()[i] == OCI_IND_NULL && r.lens()[i] == 0,
    {
        let n = names.len();
        let mut inds: Vec<i16> = Vec::new();
        let mut lens: Vec<u32> = Vec::new();
        let mut i: usize = 0;
        while i < n
            invariant
                n == names@.len(),
                i <= n,
                inds@.len() == i,
                lens@.len() == i,
                forall|j: int| 0 <= j < i ==> inds@[j] == OCI_IND_NULL && lens@[j] == 0,
            decreases n - i,
        {
            inds.push(OCI_IND_NULL);
            lens.push(0);
            i = i + 1;
        }
        Params { names, inds, lens }
    }

    /// Records what execution left in the placeholder at `idx`: its null indicator and
    /// the length of its data.
    pub fn set_result(&mut self, idx: usize, ind: i16, len: u32)
        requires
            old(self).wf(),
            idx < old(self).names().len(),
        ensures
            final(self).wf(),
            final(self).names() == old(self).names(),
            final(self).inds() == old(self).inds().update(idx as int, ind),
            final(self).lens() == old(self).lens().update(idx as int, len),
    {
        self.inds.set(idx, ind);
        self.lens.set(idx, len);
    }

    /// The placeholder at `pos`, if there is one.
    pub fn find<P: Position>(&self, pos: &P) -> (r: Option<usize>)
        ensures
            r == placeholder(self.names(), pos.at_index(), pos.at_name()),
            r matches Some(i) ==> i < self.names().len(),
    {
        match pos.index() {
            Some(i) => if i < self.names.len() { Some(i) } else { None },
            None => match pos.name() {
                Some(name) => {
                    let n = self.names.len();
                    let mut k: usize = 0;
                    while k < n
                        invariant
                            n == self.names@.len(),
                            k <= n,
                            pos.at_index() is None,
                            pos.at_name() == Some(name@),
                            first_named(self.names(), name@) == first_named_from(self.names(), name@, k as int),
                        decreases n - k,
                    {
                        assert(self.names()[k as int] == self.names@[k as int]@);
                        if same_name(self.names[k].as_str(), name) {
                            assert(first_named_from(self.names(), name@, k as int) == Some(k));
                            return Some(k);
                        }
                        k = k + 1;
                    }
                    None
                },
                None => None,
            },
        }
    }

    /// Whether the parameter at `pos` holds a null after execution.
    pub fn is_null<P: Position>(&self, pos: P) -> (r: Result<bool, Error>)
        requires
            self.wf(),
        ensures
            placeholder(self.names(), pos.at_index(), pos.at_name()) matches Some(i)
                ==> r == Ok::<bool, Error>(self.inds()[i as int] == OCI_IND_NULL),
            placeholder(self.names(), pos.at_index(), pos.at_name()) is None
                ==> (r matches Err(Error::Interface(m)) && m@ == no_param_message()),
    {
        match self.find(&pos) {
            Some(i) => Ok(self.inds[i] == OCI_IND_NULL),
            None => {
                proof { reveal_strlit("parameter not found"); }
                Err(Error::new("parameter not found"))
            },
        }
    }

    /// The length in bytes of the data in the parameter at `pos` after execution.
    pub fn data_len<P: Position>(&self, pos: P) -> (r: Result<usize, Error>)
        requires
            self.wf(),
        ensures
            placeholder(self.names(), pos.at_index(), pos.at_name()) matches Some(i)
                ==> r == Ok::<usize, Error>(self.lens()[i as int] as usize),
            placeholder(self.names(), pos.at_index(), pos.at_name()) is None
                ==> (r matches Err(Error::Interface(m)) && m@ == no_param_message()),
    {
        match self.find(&pos) {
            Some(i) => Ok(self.lens[i] as usize),
            None => {
                proof { reveal_strlit("parameter not found"); }
                Err(Error::new("parameter not found"))
            },
        }
    }
}

/// What a statement tells of a column of its select list: the column's parameter
/// descriptor, read through the statement's error handle.
pub struct ColumnInfo {
    param: Ptr<OCIParam>,
    err: Ptr<OCIError>,
}

impl ColumnInfo {
    pub closed spec fn param_addr(&self) -> usize { self.param.addr() }
    pub closed spec fn err_addr(&self) -> usize { self.err.addr() }

    /// The call that reads the column's name (a text answer).
    pub fn name(&self) -> (r: OciCall)
        ensures
            r == name_call(self.param_addr(), self.err_addr()),
    {
        attr::get(OCI_ATTR_NAME, OCI_DTYPE_PARAM, self.param.get(), AttrKind::Text, self.err)
    }

    /// The call that reads the column's SQL type (a 16-bit answer).
    pub fn data_type(&self) -> (r: OciCall)
        ensures
            r == (OciCall::AttrGet { target: self.param_addr(), htype: OCI_DTYPE_PARAM, attr: OCI_ATTR_DATA_TYPE, kind: AttrKind::U16, err: self.err_addr() }),
    {
        attr::get(OCI_ATTR_DATA_TYPE, OCI_DTYPE_PARAM, self.param.get(), AttrKind::U16, self.err)
    }
}

/// A prepared statement: its handle, the error handle it reports through, and the buffer
/// size that its LONG columns get.
pub struct Statement {
    stmt: Ptr<OCIStmt>,
    err: Ptr<OCIError>,
    max_long: u32,
    params: Option<Params>,
    cols: Option<Vec<Column>>,
}

impl Statement {
    pub closed spec fn stmt_addr(&self) -> usize { self.stmt.addr() }
    pub closed spec fn err_addr(&self) -> usize { self.err.addr() }
    pub closed spec fn max_long(&self) -> u32 { self.max_long }
    pub closed spec fn params(&self) -> Option<Params> { self.params }
    pub closed spec fn columns(&self) -> Option<Seq<Column>> {
        match self.cols { Some(c) => Some(c@), None => None }
    }

    /// The call that writes an attribute of the statement.
    pub open spec fn stmt_attr_set(&self, attr: u32, value: AttrValue) -> OciCall {
        OciCall::AttrSet { target: self.stmt_addr(), htype: OCI_HTYPE_STMT, attr, value, err: self.err_addr() }
    }

    /// The call that reads an attribute of the statement.
    pub open spec fn stmt_attr_get(&self, attr: u32, kind: AttrKind) -> OciCall {
        OciCall::AttrGet { target: self.stmt_addr(), htype: OCI_HTYPE_STMT, attr, kind, err: self.err_addr() }
    }

    /// The statement over a prepared statement handle; its LONG columns get the default
    /// buffer size (0 keeps it).
    pub fn new(stmt: Ptr<OCIStmt>, err: Ptr<OCIError>) -> (r: Statement)
        ensures
            r.stmt_addr() == stmt.addr(),
            r.err_addr() == err.addr(),
            r.max_long() == 0,
            r.params() is None,
            r.columns() is None,
    {
        Statement { stmt, err, max_long: 0, params: None, cols: None }
    }

    /// The statement that OCI's answer to a prepare call hands back, or the diagnostics of
    /// the failure.
    pub fn prepared(err: Ptr<OCIError>, reply: &Reply) -> (r: Step<Statement>)
        ensures
            reply.status < 0 ==> r == Step::<Statement>::Fail(Diag { handle: err.addr(), htype: OCI_HTYPE_ERROR, rc: reply.status }),
            reply.status >= 0 ==> (r matches Step::Done(Ok(s)) && s.stmt_addr() == allocated_addr(reply.value)
                && s.err_addr() == err.addr() && s.max_long() == 0 && s.params() is None && s.columns() is None),
    {
        if reply.status < 0 {
            Step::Fail(Diag::oci(err.get(), reply.status))
        } else {
            Step::Done(Ok(Statement::new(Ptr::new(reply_addr(&reply.value)), err)))
        }
    }

    pub fn stmt_ptr(&self) -> (r: Ptr<OCIStmt>)
        ensures
            r.addr() == self.stmt_addr(),
    {
        self.stmt
    }

    pub fn err_ptr(&self) -> (r: Ptr<OCIError>)
        ensures
            r.addr() == self.err_addr(),
    {
        self.err
    }

    /// Sets the number of top-level rows to be prefetched.
    pub fn set_prefetch_rows(&self, num_rows: u32) -> (r: OciCall)
        ensures
            r == self.stmt_attr_set(OCI_ATTR_PREFETCH_ROWS, AttrValue::U32(num_rows)),
    {
        attr::set(OCI_ATTR_PREFETCH_ROWS, AttrValue::U32(num_rows), OCI_HTYPE_STMT, self.stmt.get(), self.err)
    }

    /// Sets the maximum size of data that will be fetched from LONG and LONG RAW columns.
    pub fn set_max_long_size(&mut self, size: u32)
        ensures
            final(self).max_long() == size,
            final(self).stmt_addr() == old(self).stmt_addr(),
            final(self).err_addr() == old(self).err_addr(),
    {
        self.max_long = size;
    }

    /// The maximum size of data fetched from LONG and LONG RAW columns (0: the default).
    pub fn max_long_size(&self) -> (r: u32)
        ensures
            r == self.max_long(),
    {
        self.max_long
    }

    /// Returns the number of columns in the select-list of this statement (a 32-bit answer).
    pub fn column_count(&self) -> (r: OciCall)
        ensures
            r == self.stmt_attr_get(OCI_ATTR_PARAM_COUNT, AttrKind::U32),
    {
        attr::get(OCI_ATTR_PARAM_COUNT, OCI_HTYPE_STMT, self.stmt.get(), AttrKind::U32, self.err)
    }

    /// Returns the number of rows processed or fetched so far (a 64-bit answer).
    pub fn row_count(&self) -> (r: OciCall)
        ensures
            r == self.stmt_attr_get(OCI_ATTR_UB8_ROW_COUNT, AttrKind::U64),
    {
        attr::get(OCI_ATTR_UB8_ROW_COUNT, OCI_HTYPE_STMT, self.stmt.get(), AttrKind::U64, self.err)
    }

    /// Takes the parameters bound to the statement's placeholders.
    pub fn set_params(&mut self, params: Params)
        requires
            params.wf(),
        ensures
            final(self).params() == Some(params),
            final(self).columns() == old(self).columns(),
            final(self).stmt_addr() == old(self).stmt_addr(),
            final(self).err_addr() == old(self).err_addr(),
            final(self).max_long() == old(self).max_long(),
    {
        self.params = Some(params);
    }

    /// Takes the columns of the statement's select list, once they are set up; columns
    /// set up earlier stay.
    pub fn set_columns(&mut self, cols: Vec<Column>)
        ensures
            old(self).columns() is None ==> final(self).columns() == Some(cols@),
            old(self).columns() is Some ==> final(self).columns() == old(self).columns(),
            final(self).params() == old(self).params(),
            final(self).stmt_addr() == old(self).stmt_addr(),
            final(self).err_addr() == old(self).err_addr(),
            final(self).max_long() == old(self).max_long(),
    {
        if self.cols.is_none() {
            self.cols = Some(cols);
        }
    }

    /// Whether the parameter at `pos` holds a null after execution; a statement without
    /// parameters reports null.
    pub fn is_null<P: Position>(&self, pos: P) -> (r: Result<bool, Error>)
        requires
            self.params() matches Some(p) ==> p.wf(),
        ensures
            self.params() is None ==> r == Ok::<bool, Error>(true),
            self.params() matches Some(p) ==> (placeholder(p.names(), pos.at_index(), pos.at_name()) matches Some(i)
                ==> r == Ok::<bool, Error>(p.inds()[i as int] == OCI_IND_NULL)),
            self.params() matches Some(p) ==> (placeholder(p.names(), pos.at_index(), pos.at_name()) is None
                ==> (r matches Err(Error::Interface(m)) && m@ == no_param_message())),
    {
        match &self.params {
            Some(params) => params.is_null(pos),
            None => Ok(true),
        }
    }

    /// The length in bytes of the data bound to the parameter at `pos`; a statement
    /// without parameters reports 0.
    pub fn len_of<P: Position>(&self, pos: P) -> (r: Result<usize, Error>)
        requires
            self.params() matches Some(p) ==> p.wf(),
        ensures
            self.params() is None ==> r == Ok::<usize, Error>(0),
            self.params() matches Some(p) ==> (placeholder(p.names(), pos.at_index(), pos.at_name()) matches Some(i)
                ==> r == Ok::<usize, Error>(p.lens()[i as int] as usize)),
            self.params() matches Some(p) ==> (placeholder(p.names(), pos.at_index(), pos.at_name()) is None
                ==> (r matches Err(Error::Interface(m)) && m@ == no_param_message())),
    {
        match &self.params {
            Some(params) => params.data_len(pos),
            None => Ok(0),
        }
    }

    /// What the statement tells of the column at `pos` (from 0): `None` before the
    /// columns are set up, or past the last column.
    pub fn column(&self, pos: usize) -> (r: Option<ColumnInfo>)
        ensures
            (self.columns() matches Some(c) && pos < c.len()) ==> (r matches Some(info)
                && info.param_addr() == self.columns()->0[pos as int].param_addr() && info.err_addr() == self.err_addr()),
            !(self.columns() matches Some(c) && pos < c.len()) ==> r is None,
    {
        match &self.cols {
            Some(cols) => if pos < cols.len() {
                Some(ColumnInfo { param: cols[pos].as_ptr(), err: self.err })
            } else {
                None
            },
            None => None,
        }
    }

    /// What dropping the statement does: it is released to the statement cache.
    pub fn release(&self) -> (r: OciCall)
        ensures
            r == (OciCall::StmtRelease { stmt: self.stmt_addr(), err: self.err_addr(), mode: OCI_DEFAULT }),
    {
        calls::oci_stmt_release(self.stmt, self.err)
    }
}

} // verus!
