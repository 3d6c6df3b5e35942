//! Columns of a query's select list and the buffers their values are fetched into.

use vstd::prelude::*;
use crate::err::{Diag, Error};
use crate::oci::ptr::Ptr;
use crate::oci::desc::{null_descriptor_message, Descriptor};
use crate::oci::handle::{allocated_addr, null_handle_error, null_handle_message, reply_addr};
use crate::oci::call::{spec_failure, AttrKind, OciCall, OciValue, Reply, Step};
use crate::oci::{attr, calls, param};
use crate::oci::{
    OCIError, OCIParam, OCIStmt, OCI_ATTR_DATA_SIZE, OCI_ATTR_DATA_TYPE, OCI_DEFAULT, OCI_DTYPE_FILE,
    OCI_DTYPE_INTERVAL_DS, OCI_DTYPE_INTERVAL_YM, OCI_DTYPE_LOB, OCI_DTYPE_PARAM, OCI_DTYPE_ROWID,
    OCI_DTYPE_TIMESTAMP, OCI_DTYPE_TIMESTAMP_LTZ, OCI_DTYPE_TIMESTAMP_TZ, OCI_HTYPE_ERROR,
    OCI_HTYPE_STMT, OCI_IND_NULL, SQLT_BDOUBLE, SQLT_BFILE, SQLT_BFLOAT, SQLT_BIN, SQLT_BLOB,
    SQLT_CLOB, SQLT_DAT, SQLT_IBDOUBLE, SQLT_IBFLOAT, SQLT_INTERVAL_DS, SQLT_INTERVAL_YM, SQLT_LBI,
    SQLT_LNG, SQLT_LVB, SQLT_LVC, SQLT_NUM, SQLT_ODT, SQLT_RDD, SQLT_RSET, SQLT_TIMESTAMP,
    SQLT_TIMESTAMP_LTZ, SQLT_TIMESTAMP_TZ, SQLT_VNU,
};

verus! {

/// The buffer size of LONG and LONG RAW columns, unless it is changed.
pub const DEFAULT_LONG_BUFFER_SIZE: usize = 32768;

/// The size of an Oracle NUMBER as OCI stores it.
pub const OCI_NUMBER_SIZE: usize = 22;

/// The size of an `OCIDate`.
pub const OCI_DATE_SIZE: usize = 8;

/// The size of a single precision float.
pub const FLOAT_SIZE: usize = 4;

/// The size of a double precision float.
pub const DOUBLE_SIZE: usize = 8;

/// The size of the length prefix of variable length text and raw buffers.
pub const LENGTH_PREFIX_SIZE: usize = 4;

/// What a column's values are fetched into.
#[derive(Clone, Copy)]
pub enum BufferKind {
    Undefined,
    Text,
    CLOB,
    Binary,
    BLOB,
    BFile,
    Number,
    Date,
    Timestamp,
    TimestampTZ,
    TimestampLTZ,
    IntervalYM,
    IntervalDS,
    Float,
    Double,
    Rowid,
    Cursor,
}

/// The buffer kind for a column of the given SQL type: types without a buffer of their
/// own are fetched as text.
pub open spec fn kind_of(data_type: u16) -> BufferKind {
    if data_type == SQLT_DAT { BufferKind::Date }
    else if data_type == SQLT_TIMESTAMP { BufferKind::Timestamp }
    else if data_type == SQLT_TIMESTAMP_TZ { BufferKind::TimestampTZ }
    else if data_type == SQLT_TIMESTAMP_LTZ { BufferKind::TimestampLTZ }
    else if data_type == SQLT_INTERVAL_YM { BufferKind::IntervalYM }
    else if data_type == SQLT_INTERVAL_DS { BufferKind::IntervalDS }
    else if data_type == SQLT_NUM { BufferKind::Number }
    else if data_type == SQLT_IBFLOAT { BufferKind::Float }
    else if data_type == SQLT_IBDOUBLE { BufferKind::Double }
    else if data_type == SQLT_BIN || data_type == SQLT_LBI { BufferKind::Binary }
    else if data_type == SQLT_CLOB { BufferKind::CLOB }
    else if data_type == SQLT_BLOB { BufferKind::BLOB }
    else if data_type == SQLT_BFILE { BufferKind::BFile }
    else if data_type == SQLT_RDD { BufferKind::Rowid }
    else if data_type == SQLT_RSET { BufferKind::Cursor }
    else { BufferKind::Text }
}

pub fn buffer_kind(data_type: u16) -> (r: BufferKind)
    ensures
        r == kind_of(data_type),
{
    if data_type == SQLT_DAT { BufferKind::Date }
    else if data_type == SQLT_TIMESTAMP { BufferKind::Timestamp }
    else if data_type == SQLT_TIMESTAMP_TZ { BufferKind::TimestampTZ }
    else if data_type == SQLT_TIMESTAMP_LTZ { BufferKind::TimestampLTZ }
    else if data_type == SQLT_INTERVAL_YM { BufferKind::IntervalYM }
    else if data_type == SQLT_INTERVAL_DS { BufferKind::IntervalDS }
    else if data_type == SQLT_NUM { BufferKind::Number }
    else if data_type == SQLT_IBFLOAT { BufferKind::Float }
    else if data_type == SQLT_IBDOUBLE { BufferKind::Double }
    else if data_type == SQLT_BIN || data_type == SQLT_LBI { BufferKind::Binary }
    else if data_type == SQLT_CLOB { BufferKind::CLOB }
    else if data_type == SQLT_BLOB { BufferKind::BLOB }
    else if data_type == SQLT_BFILE { BufferKind::BFile }
    else if data_type == SQLT_RDD { BufferKind::Rowid }
    else if data_type == SQLT_RSET { BufferKind::Cursor }
    else { BufferKind::Text }
}

/// Each SQL type gets a buffer of its own type: DATE (12), TIMESTAMP (187), TIMESTAMP WITH
/// TIME ZONE (188), TIMESTAMP WITH LOCAL TIME ZONE (232), the two intervals (189, 190),
/// NUMBER (2), the binary floats (100, 101), RAW and LONG RAW (23, 24), the LOBs (112, 113,
/// 114), ROWID (104) and cursors (116); every other type is fetched as text.
pub proof fn lemma_buffer_of_each_type(data_type: u16)
    ensures
        data_type == 12 ==> kind_of(data_type) == BufferKind::Date,
        data_type == 187 ==> kind_of(data_type) == BufferKind::Timestamp,
        data_type == 188 ==> kind_of(data_type) == BufferKind::TimestampTZ,
        data_type == 232 ==> kind_of(data_type) == BufferKind::TimestampLTZ,
        data_type == 189 ==> kind_of(data_type) == BufferKind::IntervalYM,
        data_type == 190 ==> kind_of(data_type) == BufferKind::IntervalDS,
        data_type == 2 ==> kind_of(data_type) == BufferKind::Number,
        data_type == 100 ==> kind_of(data_type) == BufferKind::Float,
        data_type == 101 ==> kind_of(data_type) == BufferKind::Double,
        data_type == 23 || data_type == 24 ==> kind_of(data_type) == BufferKind::Binary,
        data_type == 112 ==> kind_of(data_type) == BufferKind::CLOB,
        data_type == 113 ==> kind_of(data_type) == BufferKind::BLOB,
        data_type == 114 ==> kind_of(data_type) == BufferKind::BFile,
        data_type == 104 ==> kind_of(data_type) == BufferKind::Rowid,
        data_type == 116 ==> kind_of(data_type) == BufferKind::Cursor,
        !(data_type == 12 || data_type == 187 || data_type == 188 || data_type == 232 || data_type == 189
            || data_type == 190 || data_type == 2 || data_type == 100 || data_type == 101 || data_type == 23
            || data_type == 24 || data_type == 112 || data_type == 113 || data_type == 114 || data_type == 104
            || data_type == 116) ==> kind_of(data_type) == BufferKind::Text,
{
}

/// Timestamp, interval, LOB, ROWID and cursor columns are defined with their own SQL type,
/// so that OCI fetches them as they are (a time zone is kept, for one); the timestamp and
/// interval buffers are descriptors of the matching descriptor type.
pub proof fn lemma_columns_keep_their_type(data_type: u16, size: usize, env: usize, err: usize)
    ensures
        (data_type == 187 || data_type == 188 || data_type == 232 || data_type == 189 || data_type == 190
            || data_type == 112 || data_type == 113 || data_type == 114 || data_type == 104 || data_type == 116)
            ==> output_def(kind_of(data_type), size).0 == data_type,
        data_type == 187 ==> alloc_call(kind_of(data_type), size, env, err) == Some(OciCall::DescriptorAlloc { env, dtype: 68 }),
        data_type == 188 ==> alloc_call(kind_of(data_type), size, env, err) == Some(OciCall::DescriptorAlloc { env, dtype: 69 }),
        data_type == 232 ==> alloc_call(kind_of(data_type), size, env, err) == Some(OciCall::DescriptorAlloc { env, dtype: 70 }),
        data_type == 189 ==> alloc_call(kind_of(data_type), size, env, err) == Some(OciCall::DescriptorAlloc { env, dtype: 62 }),
        data_type == 190 ==> alloc_call(kind_of(data_type), size, env, err) == Some(OciCall::DescriptorAlloc { env, dtype: 63 }),
        data_type == 12 ==> output_def(kind_of(data_type), size).0 == 156,
        data_type == 2 ==> output_def(kind_of(data_type), size).0 == 6,
{
}

/// LONG and LONG RAW columns report no useful size; they get a buffer of their own size.
pub open spec fn is_long(data_type: u16) -> bool {
    data_type == SQLT_LNG || data_type == SQLT_LBI
}

/// The size of an address.
pub open spec fn address_size() -> int {
    vstd::layout::size_of::<usize>() as int
}

/// The OCI type and the size that a buffer of the kind is defined with, for a column
/// whose values take up to `col_size` bytes.
pub open spec fn output_def(kind: BufferKind, col_size: usize) -> (u16, int) {
    match kind {
        BufferKind::Text => (SQLT_LVC, col_size + LENGTH_PREFIX_SIZE),
        BufferKind::Binary => (SQLT_LVB, col_size + LENGTH_PREFIX_SIZE),
        BufferKind::Number => (SQLT_VNU, OCI_NUMBER_SIZE as int),
        BufferKind::Date => (SQLT_ODT, OCI_DATE_SIZE as int),
        BufferKind::Timestamp => (SQLT_TIMESTAMP, address_size()),
        BufferKind::TimestampTZ => (SQLT_TIMESTAMP_TZ, address_size()),
        BufferKind::TimestampLTZ => (SQLT_TIMESTAMP_LTZ, address_size()),
        BufferKind::IntervalYM => (SQLT_INTERVAL_YM, address_size()),
        BufferKind::IntervalDS => (SQLT_INTERVAL_DS, address_size()),
        BufferKind::Float => (SQLT_BFLOAT, FLOAT_SIZE as int),
        BufferKind::Double => (SQLT_BDOUBLE, DOUBLE_SIZE as int),
        BufferKind::CLOB => (SQLT_CLOB, address_size()),
        BufferKind::BLOB => (SQLT_BLOB, address_size()),
        BufferKind::BFile => (SQLT_BFILE, address_size()),
        BufferKind::Rowid => (SQLT_RDD, address_size()),
        BufferKind::Cursor => (SQLT_RSET, 0),
        BufferKind::Undefined => (0, 0),
    }
}

/// The OCI type and size that a buffer of the kind is defined with.
pub fn get_output_buffer_def(kind: BufferKind, col_size: usize) -> (r: (u16, usize))
    requires
        col_size + LENGTH_PREFIX_SIZE <= usize::MAX,
    ensures
        r.0 == output_def(kind, col_size).0,
        r.1 as int == output_def(kind, col_size).1,
{
    let addr = core::mem::size_of::<usize>();
    match kind {
        BufferKind::Text => (SQLT_LVC, col_size + LENGTH_PREFIX_SIZE),
        BufferKind::Binary => (SQLT_LVB, col_size + LENGTH_PREFIX_SIZE),
        BufferKind::Number => (SQLT_VNU, OCI_NUMBER_SIZE),
        BufferKind::Date => (SQLT_ODT, OCI_DATE_SIZE),
        BufferKind::Timestamp => (SQLT_TIMESTAMP, addr),
        BufferKind::TimestampTZ => (SQLT_TIMESTAMP_TZ, addr),
        BufferKind::TimestampLTZ => (SQLT_TIMESTAMP_LTZ, addr),
        BufferKind::IntervalYM => (SQLT_INTERVAL_YM, addr),
        BufferKind::IntervalDS => (SQLT_INTERVAL_DS, addr),
        BufferKind::Float => (SQLT_BFLOAT, FLOAT_SIZE),
        BufferKind::Double => (SQLT_BDOUBLE, DOUBLE_SIZE),
        BufferKind::CLOB => (SQLT_CLOB, addr),
        BufferKind::BLOB => (SQLT_BLOB, addr),
        BufferKind::BFile => (SQLT_BFILE, addr),
        BufferKind::Rowid => (SQLT_RDD, addr),
        BufferKind::Cursor => (SQLT_RSET, 0),
        BufferKind::Undefined => (0, 0),
    }
}

/// The call that allocates a buffer of the kind for values of `size` bytes: text and
/// raw buffers, descriptors, or a statement handle for cursors; the other kinds live
/// in memory of their own and need no call.
pub open spec fn alloc_call(kind: BufferKind, size: usize, env: usize, err: usize) -> Option<OciCall> {
    match kind {
        BufferKind::Text => Some(OciCall::StringResize { env, err, size: size as u32, buf: 0 }),
        BufferKind::Binary => Some(OciCall::RawResize { env, err, size: size as u32, buf: 0 }),
        BufferKind::CLOB => Some(OciCall::DescriptorAlloc { env, dtype: OCI_DTYPE_LOB }),
        BufferKind::BLOB => Some(OciCall::DescriptorAlloc { env, dtype: OCI_DTYPE_LOB }),
        BufferKind::BFile => Some(OciCall::DescriptorAlloc { env, dtype: OCI_DTYPE_FILE }),
        BufferKind::Timestamp => Some(OciCall::DescriptorAlloc { env, dtype: OCI_DTYPE_TIMESTAMP }),
        BufferKind::TimestampTZ => Some(OciCall::DescriptorAlloc { env, dtype: OCI_DTYPE_TIMESTAMP_TZ }),
        BufferKind::TimestampLTZ => Some(OciCall::DescriptorAlloc { env, dtype: OCI_DTYPE_TIMESTAMP_LTZ }),
        BufferKind::IntervalYM => Some(OciCall::DescriptorAlloc { env, dtype: OCI_DTYPE_INTERVAL_YM }),
        BufferKind::IntervalDS => Some(OciCall::DescriptorAlloc { env, dtype: OCI_DTYPE_INTERVAL_DS }),
        BufferKind::Rowid => Some(OciCall::DescriptorAlloc { env, dtype: OCI_DTYPE_ROWID }),
        BufferKind::Cursor => Some(OciCall::HandleAlloc { env, htype: OCI_HTYPE_STMT }),
        _ => None,
    }
}

fn buffer_alloc(kind: BufferKind, size: usize, env: usize, err: usize) -> (r: Option<OciCall>)
    ensures
        r == alloc_call(kind, size, env, err),
{
    match kind {
        BufferKind::Text => Some(OciCall::StringResize { env, err, size: size as u32, buf: 0 }),
        BufferKind::Binary => Some(OciCall::RawResize { env, err, size: size as u32, buf: 0 }),
        BufferKind::CLOB => Some(OciCall::DescriptorAlloc { env, dtype: OCI_DTYPE_LOB }),
        BufferKind::BLOB => Some(OciCall::DescriptorAlloc { env, dtype: OCI_DTYPE_LOB }),
        BufferKind::BFile => Some(OciCall::DescriptorAlloc { env, dtype: OCI_DTYPE_FILE }),
        BufferKind::Timestamp => Some(OciCall::DescriptorAlloc { env, dtype: OCI_DTYPE_TIMESTAMP }),
        BufferKind::TimestampTZ => Some(OciCall::DescriptorAlloc { env, dtype: OCI_DTYPE_TIMESTAMP_TZ }),
        BufferKind::TimestampLTZ => Some(OciCall::DescriptorAlloc { env, dtype: OCI_DTYPE_TIMESTAMP_LTZ }),
        BufferKind::IntervalYM => Some(OciCall::DescriptorAlloc { env, dtype: OCI_DTYPE_INTERVAL_YM }),
        BufferKind::IntervalDS => Some(OciCall::DescriptorAlloc { env, dtype: OCI_DTYPE_INTERVAL_DS }),
        BufferKind::Rowid => Some(OciCall::DescriptorAlloc { env, dtype: OCI_DTYPE_ROWID }),
        BufferKind::Cursor => Some(OciCall::HandleAlloc { env, htype: OCI_HTYPE_STMT }),
        _ => None,
    }
}

/// The call that frees a buffer of the kind at `buf`, when the buffer is OCI's.
pub open spec fn free_call(kind: BufferKind, buf: usize, env: usize, err: usize) -> Option<OciCall> {
    if buf == 0 {
        None
    } else {
        match kind {
            BufferKind::Text => Some(OciCall::StringResize { env, err, size: 0, buf }),
            BufferKind::Binary => Some(OciCall::RawResize { env, err, size: 0, buf }),
            BufferKind::CLOB => Some(OciCall::DescriptorFree { desc: buf, dtype: OCI_DTYPE_LOB }),
            BufferKind::BLOB => Some(OciCall::DescriptorFree { desc: buf, dtype: OCI_DTYPE_LOB }),
            BufferKind::BFile => Some(OciCall::DescriptorFree { desc: buf, dtype: OCI_DTYPE_FILE }),
            BufferKind::Timestamp => Some(OciCall::DescriptorFree { desc: buf, dtype: OCI_DTYPE_TIMESTAMP }),
            BufferKind::TimestampTZ => Some(OciCall::DescriptorFree { desc: buf, dtype: OCI_DTYPE_TIMESTAMP_TZ }),
            BufferKind::TimestampLTZ => Some(OciCall::DescriptorFree { desc: buf, dtype: OCI_DTYPE_TIMESTAMP_LTZ }),
            BufferKind::IntervalYM => Some(OciCall::DescriptorFree { desc: buf, dtype: OCI_DTYPE_INTERVAL_YM }),
            BufferKind::IntervalDS => Some(OciCall::DescriptorFree { desc: buf, dtype: OCI_DTYPE_INTERVAL_DS }),
            BufferKind::Rowid => Some(OciCall::DescriptorFree { desc: buf, dtype: OCI_DTYPE_ROWID }),
            BufferKind::Cursor => Some(OciCall::HandleFree { handle: buf, htype: OCI_HTYPE_STMT }),
            _ => None,
        }
    }
}

fn buffer_free(kind: BufferKind, buf: usize, env: usize, err: usize) -> (r: Option<OciCall>)
    ensures
        r == free_call(kind, buf, env, err),
{
    if buf == 0 {
        None
    } else {
        match kind {
            BufferKind::Text => Some(OciCall::StringResize { env, err, size: 0, buf }),
            BufferKind::Binary => Some(OciCall::RawResize { env, err, size: 0, buf }),
            BufferKind::CLOB => Some(OciCall::DescriptorFree { desc: buf, dtype: OCI_DTYPE_LOB }),
            BufferKind::BLOB => Some(OciCall::DescriptorFree { desc: buf, dtype: OCI_DTYPE_LOB }),
            BufferKind::BFile => Some(OciCall::DescriptorFree { desc: buf, dtype: OCI_DTYPE_FILE }),
            BufferKind::Timestamp => Some(OciCall::DescriptorFree { desc: buf, dtype: OCI_DTYPE_TIMESTAMP }),
            BufferKind::TimestampTZ => Some(OciCall::DescriptorFree { desc: buf, dtype: OCI_DTYPE_TIMESTAMP_TZ }),
            BufferKind::TimestampLTZ => Some(OciCall::DescriptorFree { desc: buf, dtype: OCI_DTYPE_TIMESTAMP_LTZ }),
            BufferKind::IntervalYM => Some(OciCall::DescriptorFree { desc: buf, dtype: OCI_DTYPE_INTERVAL_YM }),
            BufferKind::IntervalDS => Some(OciCall::DescriptorFree { desc: buf, dtype: OCI_DTYPE_INTERVAL_DS }),
            BufferKind::Rowid => Some(OciCall::DescriptorFree { desc: buf, dtype: OCI_DTYPE_ROWID }),
            BufferKind::Cursor => Some(OciCall::HandleFree { handle: buf, htype: OCI_HTYPE_STMT }),
            _ => None,
        }
    }
}

/// The 16-bit number in an answer, zero when the answer holds none.
pub open spec fn u16_value(value: OciValue) -> u16 {
    match value {
        OciValue::U16(n) => n,
        _ => 0,
    }
}

pub fn reply_u16(value: &OciValue) -> (r: u16)
    ensures
        r == u16_value(*value),
{
    match value {
        OciValue::U16(n) => *n,
        _ => 0,
    }
}

/// The call that defines the output buffer of the column at `pos`.
pub open spec fn define_call(stmt: usize, err: usize, pos: u16, kind: BufferKind, size: usize) -> OciCall {
    OciCall::DefineByPos {
        stmt,
        err,
        pos: pos as u32,
        dty: output_def(kind, size).0,
        size: output_def(kind, size).1 as usize,
        mode: OCI_DEFAULT,
    }
}

/// A column of a query's select list.
#[derive(Clone, Copy)]
pub struct Column {
    col: Ptr<OCIParam>,
    def: usize,
    kind: BufferKind,
    buf: usize,
    size: usize,
    len: u32,
    ind: i16,
    pos: u16,
    data_type: u16,
    defined: bool,
}

impl Column {
    pub closed spec fn param_addr(&self) -> usize { self.col.addr() }
    pub closed spec fn def_addr(&self) -> usize { self.def }
    pub closed spec fn kind(&self) -> BufferKind { self.kind }
    pub closed spec fn buf_addr(&self) -> usize { self.buf }
    pub closed spec fn buf_size(&self) -> usize { self.size }
    pub closed spec fn ind(&self) -> i16 { self.ind }
    pub closed spec fn data_len(&self) -> u32 { self.len }
    pub closed spec fn pos(&self) -> u16 { self.pos }
    /// The SQL type the column's buffer was chosen for.
    pub closed spec fn data_type(&self) -> u16 { self.data_type }
    /// The column's output buffer is defined: fetched rows are written into it.
    pub closed spec fn is_defined(&self) -> bool { self.defined }
    pub closed spec fn with_def(self, def: usize) -> Column { Column { def, defined: true, ..self } }
    pub closed spec fn with_buffer(self, buf: usize, size: usize) -> Column { Column { buf, size, ..self } }

    /// Defining a column's output buffer records the define handle and changes nothing else.
    pub proof fn lemma_with_def(self, def: usize)
        ensures
            self.with_def(def).is_defined(),
            self.with_def(def).def_addr() == def,
            self.with_def(def).param_addr() == self.param_addr(),
            self.with_def(def).kind() == self.kind(),
            self.with_def(def).data_type() == self.data_type(),
            self.with_def(def).buf_addr() == self.buf_addr(),
            self.with_def(def).buf_size() == self.buf_size(),
            self.with_def(def).pos() == self.pos(),
    {
    }

    /// Giving a column a new buffer changes its address and size and nothing else.
    pub proof fn lemma_with_buffer(self, buf: usize, size: usize)
        ensures
            self.with_buffer(buf, size).buf_addr() == buf,
            self.with_buffer(buf, size).buf_size() == size,
            self.with_buffer(buf, size).kind() == self.kind(),
            self.with_buffer(buf, size).data_type() == self.data_type(),
            self.with_buffer(buf, size).is_defined() == self.is_defined(),
            self.with_buffer(buf, size).def_addr() == self.def_addr(),
            self.with_buffer(buf, size).param_addr() == self.param_addr(),
            self.with_buffer(buf, size).pos() == self.pos(),
    {
    }

    /// The call that gets the parameter descriptor of the column at position `pos`.
    pub fn new(pos: usize, stmt: Ptr<OCIStmt>, err: Ptr<OCIError>) -> (r: OciCall)
        ensures
            r == (OciCall::ParamGet { stmt: stmt.addr(), htype: OCI_HTYPE_STMT, err: err.addr(), pos: pos as u32 }),
    {
        param::get(pos as u32, OCI_HTYPE_STMT, stmt, err)
    }

    /// The column that the answer to `new` describes: it has no buffer yet, and its
    /// value is null until a row is fetched.
    pub fn described(pos: usize, err: Ptr<OCIError>, reply: &Reply) -> (r: Step<Column>)
        ensures
            reply.status < 0 ==> r == Step::<Column>::Fail(Diag { handle: err.addr(), htype: OCI_HTYPE_ERROR, rc: reply.status }),
            reply.status >= 0 ==> (r matches Step::Done(Ok(c)) && c.param_addr() == allocated_addr(reply.value)
                && c.pos() == pos as u16 && c.kind() == BufferKind::Undefined && c.buf_addr() == 0
                && c.def_addr() == 0 && c.ind() == OCI_IND_NULL && c.data_len() == 0 && !c.is_defined()),
    {
        match param::got(err, reply) {
            Step::Done(Ok(col)) => Step::Done(Ok(Column {
                col: col.get_ptr(), def: 0, kind: BufferKind::Undefined, buf: 0, size: 0, len: 0, ind: OCI_IND_NULL, pos: pos as u16,
                data_type: 0, defined: false,
            })),
            Step::Done(Err(e)) => Step::Done(Err(e)),
            Step::Fail(d) => Step::Fail(d),
            Step::Call(c) => Step::Call(c),
        }
    }

    /// The column's parameter descriptor.
    pub fn as_ptr(&self) -> (r: Ptr<OCIParam>)
        ensures
            r.addr() == self.param_addr(),
    {
        self.col
    }

    /// The column's position in the select list, from 1.
    pub fn position(&self) -> (r: usize)
        ensures
            r == self.pos() as usize,
    {
        self.pos as usize
    }

    /// The kind of buffer the column's values are fetched into, and its address.
    pub fn get_column_buffer(&self) -> (r: (BufferKind, usize))
        ensures
            r == (self.kind(), self.buf_addr()),
    {
        (self.kind, self.buf)
    }

    /// Hands the column's buffer (a LOB locator or a cursor handle) over to the value read
    /// from it, and puts `buf`, a newly allocated one, in its place.
    pub fn replace_buffer(&mut self, buf: usize) -> (r: usize)
        ensures
            r == old(self).buf_addr(),
            *final(self) == old(self).with_buffer(buf, old(self).buf_size()),
    {
        let old_buf = self.buf;
        self.buf = buf;
        old_buf
    }

    /// Whether the column's output buffer is defined, so that rows can be fetched into it.
    pub fn output_defined(&self) -> (r: bool)
        ensures
            r == self.is_defined(),
    {
        self.defined
    }

    /// Whether the last fetched value of the column is null.
    pub fn is_null(&self) -> (r: bool)
        ensures
            r == (self.ind() == OCI_IND_NULL),
    {
        self.ind == OCI_IND_NULL
    }

    /// Records what a fetch wrote into the column's indicator and length.
    pub fn fetched(&mut self, ind: i16, len: u32)
        ensures
            final(self).ind() == ind,
            final(self).data_len() == len,
            final(self).param_addr() == old(self).param_addr(),
            final(self).def_addr() == old(self).def_addr(),
            final(self).kind() == old(self).kind(),
            final(self).buf_addr() == old(self).buf_addr(),
            final(self).buf_size() == old(self).buf_size(),
            final(self).pos() == old(self).pos(),
            final(self).data_type() == old(self).data_type(),
            final(self).is_defined() == old(self).is_defined(),
    {
        self.ind = ind;
        self.len = len;
    }

    /// The call that frees the column's text or raw buffer, if it has one.
    pub open spec fn drop_call(&self, env: usize, err: usize) -> Option<OciCall> {
        if self.kind() is Text || self.kind() is Binary { free_call(self.kind(), self.buf_addr(), env, err) } else { None }
    }

    /// What dropping the column's output buffer does: text and raw buffers are freed
    /// (descriptors and handles are freed with the column's values).
    pub fn drop_output_buffer(&self, env: usize, err: usize) -> (r: Option<OciCall>)
        ensures
            r == self.drop_call(env, err),
    {
        match self.kind {
            BufferKind::Text => buffer_free(self.kind, self.buf, env, err),
            BufferKind::Binary => buffer_free(self.kind, self.buf, env, err),
            _ => None,
        }
    }

    /// The call that reads the column's SQL type.
    pub open spec fn type_call(&self, err: usize) -> OciCall {
        OciCall::AttrGet { target: self.param_addr(), htype: OCI_DTYPE_PARAM, attr: OCI_ATTR_DATA_TYPE, kind: AttrKind::U16, err }
    }

    /// The call that reads the column's size.
    pub open spec fn size_call(&self, err: usize) -> OciCall {
        OciCall::AttrGet { target: self.param_addr(), htype: OCI_DTYPE_PARAM, attr: OCI_ATTR_DATA_SIZE, kind: AttrKind::U16, err }
    }

    /// Sets up the buffer the column's values are fetched into: the column's type is
    /// read, then its size (LONG columns take the default long size), then the buffer is
    /// allocated when it is OCI's, and finally defined as the column's output.
    pub fn setup_output_buffer(self, stmt: Ptr<OCIStmt>, env: usize, err: Ptr<OCIError>) -> (r: (SetupFlow, OciCall))
        ensures
            r.0.wf(),
            r.0.stage() == 0,
            r.0.column() == self,
            r.0.stmt() == stmt.addr(),
            r.0.env() == env,
            r.0.err() == err.addr(),
            r.1 == self.type_call(err.addr()),
    {
        let call = attr::get(OCI_ATTR_DATA_TYPE, OCI_DTYPE_PARAM, self.col.get(), AttrKind::U16, err);
        (SetupFlow { column: self, stmt: stmt.get(), env, err: err.get(), data_type: 0, stage: 0 }, call)
    }

    /// Changes the buffer size of a LONG or LONG RAW column to `size`, when that is more
    /// than the default long size: the column's type is read, then the buffer resized
    /// and defined again. Other columns keep their buffers.
    pub fn change_buffer_size(self, size: usize, stmt: Ptr<OCIStmt>, env: usize, err: Ptr<OCIError>) -> (r: (ResizeFlow, OciCall))
        requires
            size + LENGTH_PREFIX_SIZE <= usize::MAX,
        ensures
            r.0.stage() == 0,
            r.0.column() == self,
            r.0.size() == size,
            r.0.stmt() == stmt.addr(),
            r.0.env() == env,
            r.0.err() == err.addr(),
            r.1 == self.type_call(err.addr()),
    {
        let call = attr::get(OCI_ATTR_DATA_TYPE, OCI_DTYPE_PARAM, self.col.get(), AttrKind::U16, err);
        (ResizeFlow { column: self, size, stmt: stmt.get(), env, err: err.get(), stage: 0 }, call)
    }
}

/// Setting up a column's output buffer (see `Column::setup_output_buffer`).
pub struct SetupFlow {
    column: Column,
    stmt: usize,
    env: usize,
    err: usize,
    data_type: u16,
    stage: u8,
}

impl SetupFlow {
    pub closed spec fn column(&self) -> Column { self.column }
    pub closed spec fn stmt(&self) -> usize { self.stmt }
    pub closed spec fn env(&self) -> usize { self.env }
    pub closed spec fn err(&self) -> usize { self.err }
    pub closed spec fn stage(&self) -> u8 { self.stage }
    pub closed spec fn data_type(&self) -> u16 { self.data_type }
    /// The flow is in a stage it can take an answer in.
    pub closed spec fn wf(&self) -> bool {
        &&& self.stage < 4
        &&& self.stage >= 2 ==> self.column.size <= DEFAULT_LONG_BUFFER_SIZE || self.column.size <= u16::MAX
        &&& self.stage == 2 ==> alloc_call(self.column.kind, self.column.size, self.env, self.err) is Some
        &&& self.stage >= 2 ==> self.column.kind == kind_of(self.column.data_type)
    }

    pub closed spec fn typed(self, data_type: u16) -> SetupFlow { SetupFlow { data_type, ..self } }
    pub closed spec fn at_stage(self, stage: u8) -> SetupFlow { SetupFlow { stage, ..self } }
    pub closed spec fn with_buf(self, buf: usize) -> SetupFlow { SetupFlow { column: Column { buf, ..self.column }, ..self } }

    /// The call of the current stage: the column's size, its buffer's allocation, or the
    /// definition of its output.
    pub closed spec fn current(&self) -> OciCall {
        if self.stage == 1 {
            self.column.size_call(self.err)
        } else if self.stage == 2 {
            alloc_call(self.column.kind, self.column.size, self.env, self.err).unwrap()
        } else if self.stage == 3 {
            define_call(self.stmt, self.err, self.column.pos, self.column.kind, self.column.size)
        } else {
            self.column.type_call(self.err)
        }
    }

    /// What each step of the flow changes: the type read, the stage, the column's buffer
    /// chosen for the type and the size read, and the address of an allocated buffer.
    pub proof fn lemma_steps(&self, data_type: u16, stage: u8, size: usize, buf: usize)
        ensures
            self.typed(data_type).data_type() == data_type,
            self.typed(data_type).stage() == self.stage(),
            self.typed(data_type).column() == self.column(),
            self.at_stage(stage).stage() == stage,
            self.at_stage(stage).column() == self.column(),
            self.at_stage(stage).data_type() == self.data_type(),
            self.sized(size).column().kind() == kind_of(self.data_type()),
            self.sized(size).column().data_type() == self.data_type(),
            self.sized(size).column().buf_size() == size,
            self.sized(size).column().buf_addr() == self.column().buf_addr(),
            self.sized(size).column().pos() == self.column().pos(),
            self.sized(size).column().param_addr() == self.column().param_addr(),
            self.sized(size).column().is_defined() == self.column().is_defined(),
            self.sized(size).stage() == (if alloc_call(kind_of(self.data_type()), size, self.env(), self.err()) is Some { 2u8 } else { 3u8 }),
            self.with_buf(buf).column() == self.column().with_buffer(buf, self.column().buf_size()),
            self.with_buf(buf).stage() == self.stage(),
            self.typed(data_type).stmt() == self.stmt() && self.at_stage(stage).stmt() == self.stmt()
                && self.sized(size).stmt() == self.stmt() && self.with_buf(buf).stmt() == self.stmt(),
            self.typed(data_type).err() == self.err() && self.at_stage(stage).err() == self.err()
                && self.sized(size).err() == self.err() && self.with_buf(buf).err() == self.err(),
            self.typed(data_type).env() == self.env() && self.at_stage(stage).env() == self.env()
                && self.sized(size).env() == self.env() && self.with_buf(buf).env() == self.env(),
    {
    }

    /// The call that each stage makes.
    pub proof fn lemma_current(&self)
        ensures
            self.stage() == 0 ==> self.current() == self.column().type_call(self.err()),
            self.stage() == 1 ==> self.current() == self.column().size_call(self.err()),
            self.stage() == 2 ==> self.current()
                == alloc_call(self.column().kind(), self.column().buf_size(), self.env(), self.err()).unwrap(),
            self.stage() == 3 ==> self.current()
                == define_call(self.stmt(), self.err(), self.column().pos(), self.column().kind(), self.column().buf_size()),
    {
    }

    /// The column with its buffer chosen for values of `size` bytes, and the stage that
    /// follows: allocation when the buffer is OCI's, definition otherwise.
    pub closed spec fn sized(&self, size: usize) -> SetupFlow {
        let kind = kind_of(self.data_type);
        let column = Column { kind, size, data_type: self.data_type, ..self.column };
        SetupFlow {
            column,
            stage: if alloc_call(kind, size, self.env, self.err) is Some { 2u8 } else { 3u8 },
            ..*self
        }
    }

    /// The kind and address of the buffer being set up, for the definition of its output.
    pub fn buffer(&self) -> (r: (BufferKind, usize))
        ensures
            r == (self.column().kind(), self.column().buf_addr()),
    {
        (self.column.kind, self.column.buf)
    }

    fn after_size(&mut self, size: usize) -> (r: OciCall)
        requires
            size <= DEFAULT_LONG_BUFFER_SIZE || size <= u16::MAX,
        ensures
            *final(self) == old(self).sized(size),
            r == final(self).current(),
    {
        let kind = buffer_kind(self.data_type);
        self.column.kind = kind;
        self.column.size = size;
        self.column.data_type = self.data_type;
        match buffer_alloc(kind, size, self.env, self.err) {
            Some(call) => {
                self.stage = 2;
                call
            },
            None => {
                self.stage = 3;
                self.define()
            },
        }
    }

    fn define(&self) -> (r: OciCall)
        requires
            self.column().buf_size() <= DEFAULT_LONG_BUFFER_SIZE || self.column().buf_size() <= u16::MAX,
        ensures
            r == define_call(self.stmt(), self.err(), self.column().pos(), self.column().kind(), self.column().buf_size()),
    {
        let (dty, size) = get_output_buffer_def(self.column.kind, self.column.size);
        calls::define_by_pos(Ptr::new(self.stmt), Ptr::new(self.err), self.column.pos as u32, size, dty, OCI_DEFAULT)
    }

    /// Takes OCI's answer to the call of the current stage; the result is the column,
    /// ready to fetch into.
    pub fn resume(&mut self, reply: &Reply) -> (r: Step<Column>)
        requires
            old(self).wf(),
        ensures
            r is Call ==> final(self).wf() && final(self).column().pos() == old(self).column().pos(),
            r matches Step::Done(Ok(c)) ==> c.pos() == old(self).column().pos()
                && c.is_defined() && c.kind() == kind_of(c.data_type())
                && old(self).stage() == 3
                && old(self).current() == define_call(old(self).stmt(), old(self).err(), c.pos(), c.kind(), c.buf_size()),
            (r is Fail || r matches Step::Done(Err(_))) ==> *final(self) == *old(self),
            ({
                let call = old(self).current();
                let failure = spec_failure(call, reply.status);
                &&& failure is Some ==> r == Step::<Column>::Fail(failure->0) && *final(self) == *old(self)
                &&& failure is None && old(self).stage() == 0 && is_long(u16_value(reply.value)) ==> ({
                        let f = old(self).typed(u16_value(reply.value)).sized(DEFAULT_LONG_BUFFER_SIZE);
                        *final(self) == f && r == Step::<Column>::Call(f.current())
                    })
                &&& failure is None && old(self).stage() == 0 && !is_long(u16_value(reply.value)) ==>
                        *final(self) == old(self).typed(u16_value(reply.value)).at_stage(1)
                        && r == Step::<Column>::Call(old(self).column().size_call(old(self).err()))
                &&& failure is None && old(self).stage() == 1 ==> ({
                        let f = old(self).sized(u16_value(reply.value) as usize);
                        *final(self) == f && r == Step::<Column>::Call(f.current())
                    })
                &&& failure is None && old(self).stage() == 2 && allocated_addr(reply.value) == 0
                        && !(old(self).column().kind() is Text || old(self).column().kind() is Binary) ==>
                        (r matches Step::Done(Err(_))) && *final(self) == *old(self)
                &&& failure is None && old(self).stage() == 2
                        && (allocated_addr(reply.value) != 0 || old(self).column().kind() is Text || old(self).column().kind() is Binary) ==>
                        *final(self) == old(self).with_buf(allocated_addr(reply.value)).at_stage(3)
                        && r == Step::<Column>::Call(final(self).current())
                &&& failure is None && old(self).stage() == 3 ==>
                        r == Step::<Column>::Done(Ok(old(self).column().with_def(allocated_addr(reply.value))))
                        && final(self).stage() == 4
            }),
    {
        let call = if self.stage == 0 {
            attr::get(OCI_ATTR_DATA_TYPE, OCI_DTYPE_PARAM, self.column.col.get(), AttrKind::U16, Ptr::new(self.err))
        } else if self.stage == 1 {
            attr::get(OCI_ATTR_DATA_SIZE, OCI_DTYPE_PARAM, self.column.col.get(), AttrKind::U16, Ptr::new(self.err))
        } else if self.stage == 2 {
            match buffer_alloc(self.column.kind, self.column.size, self.env, self.err) {
                Some(c) => c,
                None => self.define(),
            }
        } else {
            self.define()
        };
        match call.failure(reply.status) {
            Some(d) => { return Step::Fail(d); },
            None => {},
        }
        if self.stage == 0 {
            let data_type = reply_u16(&reply.value);
            self.data_type = data_type;
            if data_type == SQLT_LNG || data_type == SQLT_LBI {
                Step::Call(self.after_size(DEFAULT_LONG_BUFFER_SIZE))
            } else {
                self.stage = 1;
                Step::Call(attr::get(OCI_ATTR_DATA_SIZE, OCI_DTYPE_PARAM, self.column.col.get(), AttrKind::U16, Ptr::new(self.err)))
            }
        } else if self.stage == 1 {
            let size = reply_u16(&reply.value) as usize;
            Step::Call(self.after_size(size))
        } else if self.stage == 2 {
            let buf = reply_addr(&reply.value);
            if buf == 0 {
                match self.column.kind {
                    BufferKind::Text => {},
                    BufferKind::Binary => {},
                    BufferKind::Cursor => { return Step::Done(Err(null_handle_error(OCI_HTYPE_STMT))); },
                    _ => {
                        proof { reveal_strlit("OCIDescriptorAlloc returned NULL"); }
                        return Step::Done(Err(Error::new("OCIDescriptorAlloc returned NULL")));
                    },
                }
            }
            self.column.buf = buf;
            self.stage = 3;
            Step::Call(self.define())
        } else {
            self.stage = 4;
            let def = reply_addr(&reply.value);
            Step::Done(Ok(Column { def, defined: true, ..self.column }))
        }
    }

    /// What the flow leaves to free when it ends with an error: the buffer, once allocated.
    pub fn cleanup(&self) -> (r: Option<OciCall>)
        ensures
            self.stage() == 3 ==> r == free_call(self.column().kind(), self.column().buf_addr(), self.env(), self.err()),
            self.stage() != 3 ==> r is None,
    {
        if self.stage == 3 {
            buffer_free(self.column.kind, self.column.buf, self.env, self.err)
        } else {
            None
        }
    }
}

/// Changing the buffer size of a LONG column (see `Column::change_buffer_size`).
pub struct ResizeFlow {
    column: Column,
    size: usize,
    stmt: usize,
    env: usize,
    err: usize,
    stage: u8,
}

impl ResizeFlow {
    pub closed spec fn column(&self) -> Column { self.column }
    pub closed spec fn size(&self) -> usize { self.size }
    pub closed spec fn stmt(&self) -> usize { self.stmt }
    pub closed spec fn env(&self) -> usize { self.env }
    pub closed spec fn err(&self) -> usize { self.err }
    pub closed spec fn stage(&self) -> u8 { self.stage }

    /// The call that resizes the column's buffer.
    pub open spec fn resize_call(&self) -> OciCall {
        match self.column().kind() {
            BufferKind::Text => OciCall::StringResize { env: self.env(), err: self.err(), size: self.size() as u32, buf: self.column().buf_addr() },
            _ => OciCall::RawResize { env: self.env(), err: self.err(), size: self.size() as u32, buf: self.column().buf_addr() },
        }
    }

    /// Takes OCI's answer to the call of the current stage; the result is the column with
    /// its new buffer, or the column as it was when its buffer stays.
    pub fn resume(&mut self, reply: &Reply) -> (r: Step<Column>)
        requires
            old(self).stage() < 3,
            old(self).size() + LENGTH_PREFIX_SIZE <= usize::MAX,
            old(self).stage() >= 1 ==> (old(self).column().kind() is Text || old(self).column().kind() is Binary),
        ensures
            old(self).stage() == 0 && reply.status < 0 ==>
                r == Step::<Column>::Fail(Diag { handle: old(self).err(), htype: OCI_HTYPE_ERROR, rc: reply.status }) && *final(self) == *old(self),
            old(self).stage() == 0 && reply.status >= 0 && is_long(u16_value(reply.value)) && old(self).size() > DEFAULT_LONG_BUFFER_SIZE
                && (old(self).column().kind() is Text || old(self).column().kind() is Binary) ==>
                r == Step::<Column>::Call(old(self).resize_call()) && final(self).stage() == 1
                && final(self).column() == old(self).column() && final(self).size() == old(self).size()
                && final(self).env() == old(self).env() && final(self).err() == old(self).err() && final(self).stmt() == old(self).stmt(),
            old(self).stage() == 0 && reply.status >= 0 && !(is_long(u16_value(reply.value)) && old(self).size() > DEFAULT_LONG_BUFFER_SIZE
                && (old(self).column().kind() is Text || old(self).column().kind() is Binary)) ==>
                r == Step::<Column>::Done(Ok(old(self).column())) && final(self).stage() == 3,
            old(self).stage() == 1 && reply.status < 0 ==>
                r == Step::<Column>::Fail(Diag { handle: old(self).err(), htype: OCI_HTYPE_ERROR, rc: reply.status }) && *final(self) == *old(self),
            old(self).stage() == 1 && reply.status >= 0 ==>
                r == Step::<Column>::Call(define_call(old(self).stmt(), old(self).err(), old(self).column().pos(), old(self).column().kind(), old(self).size()))
                && final(self).stage() == 2
                && final(self).column() == old(self).column().with_buffer(allocated_addr(reply.value), old(self).size()),
            old(self).stage() == 2 && reply.status < 0 ==>
                r == Step::<Column>::Fail(Diag { handle: old(self).err(), htype: OCI_HTYPE_ERROR, rc: reply.status }) && *final(self) == *old(self),
            old(self).stage() == 2 && reply.status >= 0 ==>
                r == Step::<Column>::Done(Ok(old(self).column().with_def(allocated_addr(reply.value)))) && final(self).stage() == 3,
            r matches Step::Done(Ok(c)) ==> (old(self).column().is_defined() || old(self).stage() == 2 ==> c.is_defined())
                && c.kind() == old(self).column().kind() && c.data_type() == old(self).column().data_type()
                && c.pos() == old(self).column().pos(),
    {
        if reply.status < 0 {
            return Step::Fail(Diag::oci(self.err, reply.status));
        }
        if self.stage == 0 {
            let data_type = reply_u16(&reply.value);
            let is_text = match self.column.kind { BufferKind::Text => true, _ => false };
            let is_raw = match self.column.kind { BufferKind::Binary => true, _ => false };
            if (data_type == SQLT_LNG || data_type == SQLT_LBI) && self.size > DEFAULT_LONG_BUFFER_SIZE && (is_text || is_raw) {
                self.stage = 1;
                if is_text {
                    Step::Call(OciCall::StringResize { env: self.env, err: self.err, size: self.size as u32, buf: self.column.buf })
                } else {
                    Step::Call(OciCall::RawResize { env: self.env, err: self.err, size: self.size as u32, buf: self.column.buf })
                }
            } else {
                self.stage = 3;
                Step::Done(Ok(Column { ..self.column }))
            }
        } else if self.stage == 1 {
            self.column.buf = reply_addr(&reply.value);
            self.column.size = self.size;
            self.stage = 2;
            let (dty, size) = get_output_buffer_def(self.column.kind, self.size);
            Step::Call(calls::define_by_pos(Ptr::new(self.stmt), Ptr::new(self.err), self.column.pos as u32, size, dty, OCI_DEFAULT))
        } else {
            self.stage = 3;
            Step::Done(Ok(Column { def: reply_addr(&reply.value), defined: true, ..self.column }))
        }
    }
}

} // verus!
