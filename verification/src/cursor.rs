//! Cursors: statement handles whose rows are read, such as REF CURSORs and implicit
//! results, and the columns of their select lists.

use vstd::prelude::*;
use crate::err::Diag;
use crate::oci::ptr::Ptr;
use crate::oci::handle::{allocated_addr, Handle};
use crate::oci::call::{AttrKind, OciCall, OciValue, Reply, Step};
use crate::oci::{attr, OCIEnv, OCIError, OCIStmt, OCI_ATTR_NAME, OCI_ATTR_PARAM_COUNT, OCI_DTYPE_PARAM, OCI_HTYPE_ERROR, OCI_HTYPE_STMT, OCI_SUCCESS};
use crate::column::{kind_of, BufferKind, Column, SetupFlow};
use crate::pool::connection::{reply_u32, u32_value};
use crate::text::same_text;
use crate::rows::Rows;

verus! {

/// The position (from 0) of the last column named `name`: a later column of the same
/// name hides an earlier one.
pub open spec fn last_index_of(names: Seq<Seq<char>>, name: Seq<char>) -> Option<usize>
    decreases names.len(),
{
    if names.len() == 0 {
        None
    } else if names.last() == name {
        Some((names.len() - 1) as usize)
    } else {
        last_index_of(names.drop_last(), name)
    }
}

/// The calls that free the text and raw buffers of `cols`, in order.
pub open spec fn buffer_frees(cols: Seq<Column>, env: usize, err: usize) -> Seq<OciCall>
    decreases cols.len(),
{
    if cols.len() == 0 {
        seq![]
    } else {
        buffer_frees(cols.drop_last(), env, err) + match cols.last().drop_call(env, err) {
            Some(c) => seq![c],
            None => seq![],
        }
    }
}

/// The text in an answer, empty when the answer holds none.
pub open spec fn text_value(value: OciValue) -> Seq<char> {
    match value {
        OciValue::Text(t) => t@,
        _ => Seq::empty(),
    }
}

fn reply_text(value: &OciValue) -> (r: String)
    ensures
        r@ == text_value(*value),
{
    match value {
        OciValue::Text(t) => t.clone(),
        _ => String::new(),
    }
}

/// A cursor: a statement handle, either the cursor's own (freed with it) or one that OCI
/// lent (an implicit result), and the columns of its select list once they are set up.
pub struct Cursor {
    stmt: Ptr<OCIStmt>,
    owned: bool,
    cols: Vec<Column>,
    names: Vec<String>,
}

impl Cursor {
    pub closed spec fn stmt_addr(&self) -> usize { self.stmt.addr() }
    pub closed spec fn owned(&self) -> bool { self.owned }
    pub closed spec fn columns(&self) -> Seq<Column> { self.cols@ }
    pub closed spec fn names(&self) -> Seq<Seq<char>> { self.names@.map_values(|s: String| s@) }

    /// The call that allocates the statement handle of a new cursor.
    pub fn new(env: Ptr<OCIEnv>) -> (r: OciCall)
        ensures
            r == (OciCall::HandleAlloc { env: env.addr(), htype: OCI_HTYPE_STMT }),
    {
        Handle::<OCIStmt>::new(env)
    }

    /// The cursor over the handle that the answer to `new` hands back.
    pub fn allocated(env: Ptr<OCIEnv>, reply: &Reply) -> (r: Step<Cursor>)
        ensures
            reply.status < 0 ==> r == Step::<Cursor>::Fail(Diag { handle: env.addr(), htype: 1, rc: reply.status }),
            reply.status >= 0 && allocated_addr(reply.value) == 0 ==> (r matches Step::Done(Err(_))),
            reply.status >= 0 && allocated_addr(reply.value) != 0 ==> (r matches Step::Done(Ok(c))
                && c.stmt_addr() == allocated_addr(reply.value) && c.owned() && c.columns().len() == 0),
    {
        match Handle::<OCIStmt>::allocated(env, reply) {
            Step::Done(Ok(h)) => Step::Done(Ok(Cursor::from_handle(h.get_ptr()))),
            Step::Done(Err(e)) => Step::Done(Err(e)),
            Step::Fail(d) => Step::Fail(d),
            Step::Call(c) => Step::Call(c),
        }
    }

    /// A cursor over an implicit result, which OCI keeps.
    pub fn implicit(istmt: Ptr<OCIStmt>) -> (r: Cursor)
        ensures
            r.stmt_addr() == istmt.addr(),
            !r.owned(),
            r.columns().len() == 0,
            r.names().len() == 0,
    {
        Cursor { stmt: istmt, owned: false, cols: Vec::new(), names: Vec::new() }
    }

    /// A cursor over a statement handle of its own.
    pub fn from_handle(handle: Ptr<OCIStmt>) -> (r: Cursor)
        ensures
            r.stmt_addr() == handle.addr(),
            r.owned(),
            r.columns().len() == 0,
            r.names().len() == 0,
    {
        Cursor { stmt: handle, owned: true, cols: Vec::new(), names: Vec::new() }
    }

    /// The cursor's statement handle.
    pub fn stmt_ptr(&self) -> (r: Ptr<OCIStmt>)
        ensures
            r.addr() == self.stmt_addr(),
    {
        self.stmt
    }

    /// The cursor's columns.
    pub fn get_cols(&self) -> (r: &Vec<Column>)
        ensures
            r@ == self.columns(),
    {
        &self.cols
    }

    /// The position (from 0) of the column named `name`.
    pub fn col_index(&self, name: &str) -> (r: Option<usize>)
        ensures
            r == last_index_of(self.names(), name@),
    {
        let mut i: usize = self.names.len();
        assert(self.names().subrange(0, i as int) =~= self.names());
        while i > 0
            invariant
                i <= self.names@.len(),
                self.names().len() == self.names@.len(),
                last_index_of(self.names(), name@) == last_index_of(self.names().subrange(0, i as int), name@),
            decreases i,
        {
            let k = i - 1;
            let ghost prefix = self.names().subrange(0, i as int);
            assert(prefix.last() == self.names@[k as int]@);
            assert(prefix.drop_last() =~= self.names().subrange(0, k as int));
            if same_text(self.names[k].as_str(), name) {
                return Some(k);
            }
            i = k;
        }
        None
    }

    /// What dropping the cursor does: the columns' text and raw buffers are freed, then
    /// the statement handle when it is the cursor's own.
    pub fn release(&self, env: usize, err: usize) -> (r: Vec<OciCall>)
        ensures
            r@ == buffer_frees(self.columns(), env, err) + (if self.owned() && self.stmt_addr() != 0 {
                seq![OciCall::HandleFree { handle: self.stmt_addr(), htype: OCI_HTYPE_STMT }]
            } else {
                seq![]
            }),
    {
        let mut calls: Vec<OciCall> = Vec::new();
        let mut i: usize = 0;
        while i < self.cols.len()
            invariant
                i <= self.cols@.len(),
                calls@ == buffer_frees(self.cols@.subrange(0, i as int), env, err),
            decreases self.cols@.len() - i,
        {
            proof {
                assert(self.cols@.subrange(0, (i + 1) as int).drop_last() =~= self.cols@.subrange(0, i as int));
            }
            match self.cols[i].drop_output_buffer(env, err) {
                Some(c) => calls.push(c),
                None => {},
            }
            i = i + 1;
        }
        assert(self.cols@.subrange(0, self.cols@.len() as int) =~= self.cols@);
        if self.owned && !self.stmt.is_null() {
            calls.push(OciCall::HandleFree { handle: self.stmt.get(), htype: OCI_HTYPE_STMT });
        }
        calls
    }

    /// Sets up the cursor's columns, unless they already are: the number of columns is
    /// read, each column described, its output buffer set up, and its name read.
    pub fn setup_columns(self, env: usize, err: Ptr<OCIError>) -> (r: (ColumnsFlow, Step<Cursor>))
        ensures
            r.0.wf(),
            self.columns().len() != 0 ==> (r.1 matches Step::Done(Ok(c)) && c == self),
            self.columns().len() == 0 ==> r.0.phase() == 0 && r.0.cursor().stmt_addr() == self.stmt_addr()
                && r.0.cursor().owned() == self.owned() && r.0.err() == err.addr()
                && r.1 == Step::<Cursor>::Call(OciCall::AttrGet {
                    target: self.stmt_addr(), htype: OCI_HTYPE_STMT, attr: OCI_ATTR_PARAM_COUNT, kind: AttrKind::U32, err: err.addr() }),
    {
        if self.cols.len() != 0 {
            let flow = ColumnsFlow {
                cursor: Cursor { stmt: self.stmt, owned: self.owned, cols: Vec::new(), names: Vec::new() },
                env, err: err.get(), count: 0, idx: 0, phase: 4, sub: None,
            };
            (flow, Step::Done(Ok(self)))
        } else {
            let call = attr::get(OCI_ATTR_PARAM_COUNT, OCI_HTYPE_STMT, self.stmt.get(), AttrKind::U32, err);
            let cursor = Cursor { stmt: self.stmt, owned: self.owned, cols: self.cols, names: Vec::new() };
            (ColumnsFlow { cursor, env, err: err.get(), count: 0, idx: 0, phase: 0, sub: None }, Step::Call(call))
        }
    }
}

/// When no two columns share a name, each name is found at its own position.
pub proof fn lemma_distinct_names(names: Seq<Seq<char>>, i: int)
    requires
        0 <= i < names.len(),
        names.len() <= usize::MAX,
        forall|j: int, k: int| 0 <= j < k < names.len() ==> names[j] != names[k],
    ensures
        last_index_of(names, names[i]) == Some(i as usize),
    decreases names.len(),
{
    if i < names.len() - 1 {
        assert(names.last() != names[i]);
        assert(names.drop_last()[i] == names[i]);
        lemma_distinct_names(names.drop_last(), i);
    }
}

/// A column whose output buffer is defined, with the kind of buffer its SQL type takes.
pub open spec fn ready(c: Column) -> bool {
    c.is_defined() && c.kind() == kind_of(c.data_type())
}

/// The call that reads the name of the column described by `param`.
pub open spec fn name_call(param: usize, err: usize) -> OciCall {
    OciCall::AttrGet { target: param, htype: OCI_DTYPE_PARAM, attr: OCI_ATTR_NAME, kind: AttrKind::Text, err }
}

/// Setting up a cursor's columns (see `Cursor::setup_columns`). Phases: 0 reads the
/// number of columns, 1 describes column `idx + 1`, 2 sets up the buffer of column
/// `idx + 1`, 3 reads the name of column `idx + 1`, 4 is done.
pub struct ColumnsFlow {
    cursor: Cursor,
    env: usize,
    err: usize,
    count: usize,
    idx: usize,
    phase: u8,
    sub: Option<SetupFlow>,
}

impl ColumnsFlow {
    pub closed spec fn cursor(&self) -> Cursor { self.cursor }
    pub closed spec fn phase(&self) -> u8 { self.phase }
    pub closed spec fn count(&self) -> usize { self.count }
    pub closed spec fn idx(&self) -> usize { self.idx }
    pub closed spec fn err(&self) -> usize { self.err }
    pub closed spec fn env(&self) -> usize { self.env }

    /// The kind and address of the buffer of the column being set up, if one is.
    pub closed spec fn pending_buffer(&self) -> Option<(BufferKind, usize)> {
        if self.phase == 2 && self.sub is Some {
            Some((self.sub->0.column().kind(), self.sub->0.column().buf_addr()))
        } else {
            None
        }
    }

    /// The kind and address of the buffer of the column being set up, for the definition
    /// of its output.
    pub fn buffer(&self) -> (r: Option<(BufferKind, usize)>)
        ensures
            r == self.pending_buffer(),
    {
        if self.phase == 2 {
            match &self.sub {
                Some(sub) => Some(sub.buffer()),
                None => None,
            }
        } else {
            None
        }
    }

    /// What holds of the flow in each phase.
    pub closed spec fn wf(&self) -> bool {
        &&& self.phase <= 4
        &&& self.phase == 0 ==> self.cursor.cols@.len() == 0 && self.cursor.names@.len() == 0
        &&& self.idx <= self.count
        &&& self.phase == 1 ==> self.idx < self.count && self.cursor.cols@.len() == self.idx
        &&& (self.phase == 2 || self.phase == 3) ==> self.idx < self.count && self.cursor.cols@.len() == self.count
        &&& self.phase == 2 ==> self.sub is Some && self.sub->0.wf() && self.sub->0.column().pos() == (self.idx + 1) as u16
        &&& self.phase == 3 ==> self.cursor.names@.len() == self.idx
        &&& (self.phase == 1 || self.phase == 2) ==> self.cursor.names@.len() == 0
        &&& forall|i: int| 0 <= i < self.cursor.cols@.len() ==> #[trigger] self.cursor.cols@[i].pos() == (i + 1) as u16
        &&& self.phase == 2 ==> forall|i: int| 0 <= i < self.idx ==> #[trigger] ready(self.cursor.cols@[i])
        &&& self.phase == 3 ==> forall|i: int| 0 <= i < self.cursor.cols@.len() ==> #[trigger] ready(self.cursor.cols@[i])
    }

    /// Takes OCI's answer to the last call.
    pub fn resume(&mut self, reply: &Reply) -> (r: Step<Cursor>)
        requires
            old(self).wf(),
            old(self).phase() < 4,
        ensures
            final(self).wf(),
            old(self).phase() == 0 && reply.status < 0 ==>
                r == Step::<Cursor>::Fail(Diag { handle: old(self).err(), htype: OCI_HTYPE_ERROR, rc: reply.status }),
            old(self).phase() == 0 && reply.status >= 0 && u32_value(reply.value) == 0 ==>
                (r matches Step::Done(Ok(c)) && c.columns().len() == 0 && c.stmt_addr() == old(self).cursor().stmt_addr()),
            old(self).phase() == 0 && reply.status >= 0 && u32_value(reply.value) != 0 ==>
                final(self).count() == u32_value(reply.value) as usize
                && r == Step::<Cursor>::Call(OciCall::ParamGet { stmt: old(self).cursor().stmt_addr(), htype: OCI_HTYPE_STMT, err: old(self).err(), pos: 1 }),
            old(self).phase() == 1 && reply.status >= 0 && old(self).idx() + 1 < old(self).count() ==>
                r == Step::<Cursor>::Call(OciCall::ParamGet {
                    stmt: old(self).cursor().stmt_addr(), htype: OCI_HTYPE_STMT, err: old(self).err(), pos: (old(self).idx() + 2) as u32 }),
            old(self).phase() == 3 && reply.status < 0 ==>
                r == Step::<Cursor>::Fail(Diag { handle: old(self).err(), htype: OCI_HTYPE_ERROR, rc: reply.status })
                && final(self).cursor().names() == old(self).cursor().names(),
            old(self).phase() == 3 && reply.status >= 0 && old(self).idx() + 1 < old(self).count() ==>
                r is Call && final(self).cursor().names() == old(self).cursor().names().push(text_value(reply.value))
                && final(self).cursor().columns() == old(self).cursor().columns(),
            old(self).phase() == 3 && reply.status >= 0 && old(self).idx() + 1 >= old(self).count() ==>
                (r matches Step::Done(Ok(c)) && c.names() == old(self).cursor().names().push(text_value(reply.value))
                && c.columns() == old(self).cursor().columns()),
            old(self).phase() != 3 ==> final(self).cursor().names() == old(self).cursor().names(),
            final(self).phase() == 1 && r is Call ==> r == Step::<Cursor>::Call(OciCall::ParamGet {
                stmt: old(self).cursor().stmt_addr(), htype: OCI_HTYPE_STMT, err: old(self).err(), pos: (final(self).idx() + 1) as u32 }),
            final(self).phase() == 3 && r is Call ==> r == Step::<Cursor>::Call(
                name_call(final(self).cursor().columns()[final(self).idx() as int].param_addr(), old(self).err())),
            old(self).phase() == 1 && final(self).phase() == 2 && r is Call ==> r == Step::<Cursor>::Call(
                final(self).cursor().columns()[0].type_call(old(self).err())),
            r matches Step::Done(Ok(c)) ==> c.stmt_addr() == old(self).cursor().stmt_addr()
                && c.columns().len() == final(self).count() && c.names().len() == c.columns().len()
                && forall|i: int| 0 <= i < c.columns().len() ==> #[trigger] c.columns()[i].pos() == (i + 1) as u16
                && forall|i: int| 0 <= i < c.columns().len() ==> #[trigger] ready(c.columns()[i]),
    {
        let err = Ptr::<OCIError>::new(self.err);
        if self.phase == 0 {
            if reply.status < 0 {
                return Step::Fail(Diag::oci(self.err, reply.status));
            }
            let n = reply_u32(&reply.value) as usize;
            if n == 0 {
                self.phase = 4;
                self.count = 0;
                self.idx = 0;
                let c = Cursor { stmt: self.cursor.stmt, owned: self.cursor.owned, cols: Vec::new(), names: Vec::new() };
                return Step::Done(Ok(c));
            }
            self.count = n;
            self.idx = 0;
            self.phase = 1;
            Step::Call(Column::new(1, self.cursor.stmt, err))
        } else if self.phase == 1 {
            match Column::described(self.idx + 1, err, reply) {
                Step::Done(Ok(col)) => {
                    self.cursor.cols.push(col);
                    assert(forall|i: int| 0 <= i < self.cursor.cols@.len() ==> #[trigger] self.cursor.cols@[i].pos() == (i + 1) as u16);
                    if self.idx + 1 < self.count {
                        self.idx = self.idx + 1;
                        Step::Call(Column::new(self.idx + 1, self.cursor.stmt, err))
                    } else {
                        self.idx = 0;
                        self.phase = 2;
                        let (sub, call) = self.cursor.cols[0].setup_output_buffer(self.cursor.stmt, self.env, err);
                        assert(self.cursor.cols@[0].pos() == 1u16);
                        self.sub = Some(sub);
                        Step::Call(call)
                    }
                },
                Step::Done(Err(e)) => Step::Done(Err(e)),
                Step::Fail(d) => Step::Fail(d),
                Step::Call(c) => Step::Call(c),
            }
        } else if self.phase == 2 {
            let mut sub = self.sub.take().unwrap();
            match sub.resume(reply) {
                Step::Call(c) => {
                    self.sub = Some(sub);
                    Step::Call(c)
                },
                Step::Done(Ok(col)) => {
                    let k = self.idx;
                    let ghost before = self.cursor.cols@;
                    self.cursor.cols.set(k, col);
                    assert(forall|i: int| 0 <= i < self.cursor.cols@.len() && i != k ==> self.cursor.cols@[i] == before[i]);
                    assert(forall|i: int| 0 <= i < self.cursor.cols@.len() ==> #[trigger] self.cursor.cols@[i].pos() == (i + 1) as u16);
                    assert(forall|i: int| 0 <= i <= k ==> #[trigger] ready(self.cursor.cols@[i]));
                    if k + 1 < self.count {
                        self.idx = k + 1;
                        let (next, call) = self.cursor.cols[k + 1].setup_output_buffer(self.cursor.stmt, self.env, err);
                        assert(self.cursor.cols@[k + 1].pos() == (k + 2) as u16);
                        self.sub = Some(next);
                        Step::Call(call)
                    } else {
                        self.idx = 0;
                        self.phase = 3;
                        Step::Call(attr::get(OCI_ATTR_NAME, OCI_DTYPE_PARAM, self.cursor.cols[0].as_ptr().get(), AttrKind::Text, err))
                    }
                },
                Step::Done(Err(e)) => {
                    self.sub = Some(sub);
                    Step::Done(Err(e))
                },
                Step::Fail(d) => {
                    self.sub = Some(sub);
                    Step::Fail(d)
                },
            }
        } else {
            if reply.status < 0 {
                return Step::Fail(Diag::oci(self.err, reply.status));
            }
            let name = reply_text(&reply.value);
            self.cursor.names.push(name);
            assert(self.cursor.names()[self.idx as int] == text_value(reply.value));
            if self.idx + 1 < self.count {
                self.idx = self.idx + 1;
                Step::Call(attr::get(OCI_ATTR_NAME, OCI_DTYPE_PARAM, self.cursor.cols[self.idx].as_ptr().get(), AttrKind::Text, err))
            } else {
                self.phase = 4;
                let mut cols: Vec<Column> = Vec::new();
                let mut names: Vec<String> = Vec::new();
                std::mem::swap(&mut cols, &mut self.cursor.cols);
                std::mem::swap(&mut names, &mut self.cursor.names);
                let c = Cursor { stmt: self.cursor.stmt, owned: self.cursor.owned, cols, names };
                Step::Done(Ok(c))
            }
        }
    }
}

impl Cursor {
    /// The rows of the cursor, once its columns are set up.
    pub fn rows(&self, err: Ptr<OCIError>) -> (r: Rows)
        ensures
            r.last_result() == OCI_SUCCESS,
            r.stmt_addr() == self.stmt_addr(),
            r.err_addr() == err.addr(),
    {
        Rows::new(OCI_SUCCESS, self.stmt, err)
    }
}

} // verus!
