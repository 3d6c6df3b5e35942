//! The OCI calls that the library makes, described as plain values, and what OCI
//! answers. The library decides which call to make and what its answer means; the
//! application layer makes the call and hands the answer back.

use vstd::prelude::*;
use crate::err::{Diag, Error};
use crate::oci::{OCI_ATTR_CACHE_MAX_SIZE, OCI_ATTR_CACHE_OPT_SIZE, OCI_ERROR, OCI_HTYPE_ENV, OCI_HTYPE_ERROR, OCI_INVALID_HANDLE};

verus! {

/// A value written into an OCI attribute.
pub enum AttrValue {
    /// No value: a null pointer with size zero.
    Null,
    U8(u8),
    U16(u16),
    U32(u32),
    U64(u64),
    /// The address of a handle.
    Ptr(usize),
    /// Text, passed with its byte length.
    Text(String),
}

/// The kind of value an attribute read asks for.
#[derive(Clone, Copy)]
pub enum AttrKind {
    U8,
    U16,
    U32,
    U64,
    Ptr,
    /// Text that OCI keeps and lends.
    Text,
    /// Text copied into a buffer of the given capacity.
    TextInto(usize),
    /// A value copied into the descriptor at the given address.
    IntoDescriptor(usize),
}

/// What an OCI call hands back besides its status.
pub enum OciValue {
    Nothing,
    U8(u8),
    U16(u16),
    U32(u32),
    U64(u64),
    Ptr(usize),
    Text(String),
    /// Byte and character counts of a LOB read or write.
    Counts(u64, u64),
    /// Directory and file name of a BFILE.
    Names(String, String),
    Bytes(Vec<u8>),
    /// The bytes of a binary LOB piece read and the number of characters OCI counted.
    Piece(Vec<u8>, u64),
    /// The text of a character LOB piece read and the number of characters in it.
    TextPiece(String, u64),
    /// The outcome of a tagged session request.
    Session { svc: usize, tag: usize, tag_len: u32, found: u8 },
}

/// OCI's answer to a call.
pub struct Reply {
    pub status: i32,
    pub value: OciValue,
}

/// One OCI call, with every argument that decides what it does.
#[allow(inconsistent_fields)]
pub enum OciCall {
    EnvNlsCreate { mode: u32, charset: u16, ncharset: u16 },
    HandleAlloc { env: usize, htype: u32 },
    HandleFree { handle: usize, htype: u32 },
    DescriptorAlloc { env: usize, dtype: u32 },
    DescriptorFree { desc: usize, dtype: u32 },
    AttrGet { target: usize, htype: u32, attr: u32, kind: AttrKind, err: usize },
    AttrSet { target: usize, htype: u32, attr: u32, value: AttrValue, err: usize },
    ParamGet { stmt: usize, htype: u32, err: usize, pos: u32 },
    SessionGet { env: usize, err: usize, auth: usize, dbname: String, mode: u32 },
    SessionGetTagged { env: usize, err: usize, auth: usize, dbname: String, tag: String, mode: u32 },
    SessionRelease { svc: usize, err: usize },
    SessionPoolCreate {
        env: usize,
        err: usize,
        pool: usize,
        dbname: String,
        min: u32,
        max: u32,
        incr: u32,
        user: String,
        pass: String,
        mode: u32,
    },
    SessionPoolDestroy { pool: usize, err: usize },
    ConnectionPoolCreate {
        env: usize,
        err: usize,
        pool: usize,
        dblink: String,
        min: u32,
        max: u32,
        incr: u32,
        user: String,
        pass: String,
        mode: u32,
    },
    ConnectionPoolDestroy { pool: usize, err: usize },
    Ping { svc: usize, err: usize },
    TransCommit { svc: usize, err: usize },
    TransRollback { svc: usize, err: usize },
    StmtPrepare { svc: usize, err: usize, sql: String, language: u32, mode: u32 },
    StmtRelease { stmt: usize, err: usize, mode: u32 },
    StmtExecute { svc: usize, stmt: usize, err: usize, iters: u32, rowoff: u32, mode: u32 },
    StmtFetch { stmt: usize, err: usize, nrows: u32, orient: u16, offset: i16, mode: u32 },
    StmtGetNextResult { stmt: usize, err: usize },
    DefineByPos { stmt: usize, err: usize, pos: u32, dty: u16, size: usize, mode: u32 },
    /// `OCIStringResize`: (re)allocates the text buffer at `buf` (0 for a new one) to
    /// `size` bytes; size 0 frees it.
    StringResize { env: usize, err: usize, size: u32, buf: usize },
    /// `OCIRawResize`: (re)allocates the raw buffer at `buf` (0 for a new one) to
    /// `size` bytes; size 0 frees it.
    RawResize { env: usize, err: usize, size: u32, buf: usize },
    RowidToChar { desc: usize, err: usize },
    LobAppend { svc: usize, err: usize, dst: usize, src: usize },
    LobCharSetForm { env: usize, err: usize, loc: usize },
    LobCharSetId { env: usize, err: usize, loc: usize },
    LobClose { svc: usize, err: usize, loc: usize },
    LobCopy { svc: usize, err: usize, dst: usize, src: usize, amount: u64, dst_off: u64, src_off: u64 },
    LobCreateTemporary {
        svc: usize,
        err: usize,
        loc: usize,
        csid: u16,
        csfrm: u8,
        lob_type: u8,
        cache: u8,
        duration: u16,
    },
    LobErase { svc: usize, err: usize, loc: usize, amount: u64, offset: u64 },
    LobFileClose { svc: usize, err: usize, loc: usize },
    LobFileExists { svc: usize, err: usize, loc: usize },
    LobFileGetName { env: usize, err: usize, loc: usize, dir_cap: u16, name_cap: u16 },
    LobFileIsOpen { svc: usize, err: usize, loc: usize },
    LobFileOpen { svc: usize, err: usize, loc: usize, mode: u8 },
    LobFileSetName { env: usize, err: usize, loc: usize, dir: String, name: String },
    LobFreeTemporary { svc: usize, err: usize, loc: usize },
    LobGetChunkSize { svc: usize, err: usize, loc: usize },
    LobGetContentType { env: usize, svc: usize, err: usize, loc: usize, cap: u32, mode: u32 },
    LobGetLength { svc: usize, err: usize, loc: usize },
    LobIsEqual { env: usize, loc1: usize, loc2: usize },
    LobIsOpen { svc: usize, err: usize, loc: usize },
    LobIsTemporary { env: usize, err: usize, loc: usize },
    LobLoadFromFile { svc: usize, err: usize, dst: usize, src: usize, amount: u64, dst_off: u64, src_off: u64 },
    LobLocatorIsInit { env: usize, err: usize, loc: usize },
    LobOpen { svc: usize, err: usize, loc: usize, mode: u8 },
    LobRead {
        svc: usize,
        err: usize,
        loc: usize,
        byte_amt: u64,
        char_amt: u64,
        offset: u64,
        buf_len: u64,
        piece: u8,
        csid: u16,
        csfrm: u8,
    },
    LobSetContentType { env: usize, svc: usize, err: usize, loc: usize, content_type: String, mode: u32 },
    LobTrim { svc: usize, err: usize, loc: usize, len: u64 },
    LobWrite {
        svc: usize,
        err: usize,
        loc: usize,
        byte_amt: u64,
        char_amt: u64,
        offset: u64,
        buf_len: u64,
        piece: u8,
        csid: u16,
        csfrm: u8,
    },
    LobWriteAppend {
        svc: usize,
        err: usize,
        loc: usize,
        byte_amt: u64,
        char_amt: u64,
        buf_len: u64,
        piece: u8,
        csid: u16,
        csfrm: u8,
    },
}

/// Where the diagnostics of a call are kept: the environment for calls that take no
/// error handle, the error handle for the others, nowhere for calls that report none.
pub open spec fn spec_error_source(call: OciCall) -> Option<(usize, u32)> {
    match call {
        OciCall::EnvNlsCreate { .. } => None,
        OciCall::HandleFree { .. } => None,
        OciCall::DescriptorFree { .. } => None,
        OciCall::HandleAlloc { env, .. } => Some((env, OCI_HTYPE_ENV)),
        OciCall::DescriptorAlloc { env, .. } => Some((env, OCI_HTYPE_ENV)),
        OciCall::LobIsEqual { env, .. } => Some((env, OCI_HTYPE_ENV)),
        OciCall::AttrGet { err, .. } => Some((err, OCI_HTYPE_ERROR)),
        OciCall::AttrSet { err, .. } => Some((err, OCI_HTYPE_ERROR)),
        OciCall::ParamGet { err, .. } => Some((err, OCI_HTYPE_ERROR)),
        OciCall::SessionGet { err, .. } => Some((err, OCI_HTYPE_ERROR)),
        OciCall::SessionGetTagged { err, .. } => Some((err, OCI_HTYPE_ERROR)),
        OciCall::SessionRelease { err, .. } => Some((err, OCI_HTYPE_ERROR)),
        OciCall::SessionPoolCreate { err, .. } => Some((err, OCI_HTYPE_ERROR)),
        OciCall::SessionPoolDestroy { err, .. } => Some((err, OCI_HTYPE_ERROR)),
        OciCall::ConnectionPoolCreate { err, .. } => Some((err, OCI_HTYPE_ERROR)),
        OciCall::ConnectionPoolDestroy { err, .. } => Some((err, OCI_HTYPE_ERROR)),
        OciCall::Ping { err, .. } => Some((err, OCI_HTYPE_ERROR)),
        OciCall::TransCommit { err, .. } => Some((err, OCI_HTYPE_ERROR)),
        OciCall::TransRollback { err, .. } => Some((err, OCI_HTYPE_ERROR)),
        OciCall::StmtPrepare { err, .. } => Some((err, OCI_HTYPE_ERROR)),
        OciCall::StmtRelease { err, .. } => Some((err, OCI_HTYPE_ERROR)),
        OciCall::StmtExecute { err, .. } => Some((err, OCI_HTYPE_ERROR)),
        OciCall::StmtFetch { err, .. } => Some((err, OCI_HTYPE_ERROR)),
        OciCall::StmtGetNextResult { err, .. } => Some((err, OCI_HTYPE_ERROR)),
        OciCall::DefineByPos { err, .. } => Some((err, OCI_HTYPE_ERROR)),
        OciCall::StringResize { err, .. } => Some((err, OCI_HTYPE_ERROR)),
        OciCall::RawResize { err, .. } => Some((err, OCI_HTYPE_ERROR)),
        OciCall::RowidToChar { err, .. } => Some((err, OCI_HTYPE_ERROR)),
        OciCall::LobAppend { err, .. } => Some((err, OCI_HTYPE_ERROR)),
        OciCall::LobCharSetForm { err, .. } => Some((err, OCI_HTYPE_ERROR)),
        OciCall::LobCharSetId { err, .. } => Some((err, OCI_HTYPE_ERROR)),
        OciCall::LobClose { err, .. } => Some((err, OCI_HTYPE_ERROR)),
        OciCall::LobCopy { err, .. } => Some((err, OCI_HTYPE_ERROR)),
        OciCall::LobCreateTemporary { err, .. } => Some((err, OCI_HTYPE_ERROR)),
        OciCall::LobErase { err, .. } => Some((err, OCI_HTYPE_ERROR)),
        OciCall::LobFileClose { err, .. } => Some((err, OCI_HTYPE_ERROR)),
        OciCall::LobFileExists { err, .. } => Some((err, OCI_HTYPE_ERROR)),
        OciCall::LobFileGetName { err, .. } => Some((err, OCI_HTYPE_ERROR)),
        OciCall::LobFileIsOpen { err, .. } => Some((err, OCI_HTYPE_ERROR)),
        OciCall::LobFileOpen { err, .. } => Some((err, OCI_HTYPE_ERROR)),
        OciCall::LobFileSetName { err, .. } => Some((err, OCI_HTYPE_ERROR)),
        OciCall::LobFreeTemporary { err, .. } => Some((err, OCI_HTYPE_ERROR)),
        OciCall::LobGetChunkSize { err, .. } => Some((err, OCI_HTYPE_ERROR)),
        OciCall::LobGetContentType { err, .. } => Some((err, OCI_HTYPE_ERROR)),
        OciCall::LobGetLength { err, .. } => Some((err, OCI_HTYPE_ERROR)),
        OciCall::LobIsOpen { err, .. } => Some((err, OCI_HTYPE_ERROR)),
        OciCall::LobIsTemporary { err, .. } => Some((err, OCI_HTYPE_ERROR)),
        OciCall::LobLoadFromFile { err, .. } => Some((err, OCI_HTYPE_ERROR)),
        OciCall::LobLocatorIsInit { err, .. } => Some((err, OCI_HTYPE_ERROR)),
        OciCall::LobOpen { err, .. } => Some((err, OCI_HTYPE_ERROR)),
        OciCall::LobRead { err, .. } => Some((err, OCI_HTYPE_ERROR)),
        OciCall::LobSetContentType { err, .. } => Some((err, OCI_HTYPE_ERROR)),
        OciCall::LobTrim { err, .. } => Some((err, OCI_HTYPE_ERROR)),
        OciCall::LobWrite { err, .. } => Some((err, OCI_HTYPE_ERROR)),
        OciCall::LobWriteAppend { err, .. } => Some((err, OCI_HTYPE_ERROR)),
    }
}

/// Whether a status means that the call failed. Statement execution fails only with
/// `OCI_ERROR` or `OCI_INVALID_HANDLE` (it may report other negative states); every
/// other call fails with any negative status.
pub open spec fn spec_is_failure(call: OciCall, status: i32) -> bool {
    match call {
        OciCall::StmtExecute { .. } => status == OCI_ERROR || status == OCI_INVALID_HANDLE,
        _ => status < 0,
    }
}

/// The diagnostics to fetch when `status` means failure.
pub open spec fn spec_failure(call: OciCall, status: i32) -> Option<Diag> {
    match spec_error_source(call) {
        Some((handle, htype)) => if spec_is_failure(call, status) {
            Some(Diag { handle, htype, rc: status })
        } else {
            None
        },
        None => None,
    }
}

impl OciCall {
    pub fn error_source(&self) -> (r: Option<(usize, u32)>)
        ensures
            r == spec_error_source(*self),
    {
        match self {
            OciCall::EnvNlsCreate { .. } => None,
            OciCall::HandleFree { .. } => None,
            OciCall::DescriptorFree { .. } => None,
            OciCall::HandleAlloc { env, .. } => Some((*env, OCI_HTYPE_ENV)),
            OciCall::DescriptorAlloc { env, .. } => Some((*env, OCI_HTYPE_ENV)),
            OciCall::LobIsEqual { env, .. } => Some((*env, OCI_HTYPE_ENV)),
            OciCall::AttrGet { err, .. } => Some((*err, OCI_HTYPE_ERROR)),
            OciCall::AttrSet { err, .. } => Some((*err, OCI_HTYPE_ERROR)),
            OciCall::ParamGet { err, .. } => Some((*err, OCI_HTYPE_ERROR)),
            OciCall::SessionGet { err, .. } => Some((*err, OCI_HTYPE_ERROR)),
            OciCall::SessionGetTagged { err, .. } => Some((*err, OCI_HTYPE_ERROR)),
            OciCall::SessionRelease { err, .. } => Some((*err, OCI_HTYPE_ERROR)),
            OciCall::SessionPoolCreate { err, .. } => Some((*err, OCI_HTYPE_ERROR)),
            OciCall::SessionPoolDestroy { err, .. } => Some((*err, OCI_HTYPE_ERROR)),
            OciCall::ConnectionPoolCreate { err, .. } => Some((*err, OCI_HTYPE_ERROR)),
            OciCall::ConnectionPoolDestroy { err, .. } => Some((*err, OCI_HTYPE_ERROR)),
            OciCall::Ping { err, .. } => Some((*err, OCI_HTYPE_ERROR)),
            OciCall::TransCommit { err, .. } => Some((*err, OCI_HTYPE_ERROR)),
            OciCall::TransRollback { err, .. } => Some((*err, OCI_HTYPE_ERROR)),
            OciCall::StmtPrepare { err, .. } => Some((*err, OCI_HTYPE_ERROR)),
            OciCall::StmtRelease { err, .. } => Some((*err, OCI_HTYPE_ERROR)),
            OciCall::StmtExecute { err, .. } => Some((*err, OCI_HTYPE_ERROR)),
            OciCall::StmtFetch { err, .. } => Some((*err, OCI_HTYPE_ERROR)),
            OciCall::StmtGetNextResult { err, .. } => Some((*err, OCI_HTYPE_ERROR)),
            OciCall::DefineByPos { err, .. } => Some((*err, OCI_HTYPE_ERROR)),
            OciCall::StringResize { err, .. } => Some((*err, OCI_HTYPE_ERROR)),
            OciCall::RawResize { err, .. } => Some((*err, OCI_HTYPE_ERROR)),
            OciCall::RowidToChar { err, .. } => Some((*err, OCI_HTYPE_ERROR)),
            OciCall::LobAppend { err, .. } => Some((*err, OCI_HTYPE_ERROR)),
            OciCall::LobCharSetForm { err, .. } => Some((*err, OCI_HTYPE_ERROR)),
            OciCall::LobCharSetId { err, .. } => Some((*err, OCI_HTYPE_ERROR)),
            OciCall::LobClose { err, .. } => Some((*err, OCI_HTYPE_ERROR)),
            OciCall::LobCopy { err, .. } => Some((*err, OCI_HTYPE_ERROR)),
            OciCall::LobCreateTemporary { err, .. } => Some((*err, OCI_HTYPE_ERROR)),
            OciCall::LobErase { err, .. } => Some((*err, OCI_HTYPE_ERROR)),
            OciCall::LobFileClose { err, .. } => Some((*err, OCI_HTYPE_ERROR)),
            OciCall::LobFileExists { err, .. } => Some((*err, OCI_HTYPE_ERROR)),
            OciCall::LobFileGetName { err, .. } => Some((*err, OCI_HTYPE_ERROR)),
            OciCall::LobFileIsOpen { err, .. } => Some((*err, OCI_HTYPE_ERROR)),
            OciCall::LobFileOpen { err, .. } => Some((*err, OCI_HTYPE_ERROR)),
            OciCall::LobFileSetName { err, .. } => Some((*err, OCI_HTYPE_ERROR)),
            OciCall::LobFreeTemporary { err, .. } => Some((*err, OCI_HTYPE_ERROR)),
            OciCall::LobGetChunkSize { err, .. } => Some((*err, OCI_HTYPE_ERROR)),
            OciCall::LobGetContentType { err, .. } => Some((*err, OCI_HTYPE_ERROR)),
            OciCall::LobGetLength { err, .. } => Some((*err, OCI_HTYPE_ERROR)),
            OciCall::LobIsOpen { err, .. } => Some((*err, OCI_HTYPE_ERROR)),
            OciCall::LobIsTemporary { err, .. } => Some((*err, OCI_HTYPE_ERROR)),
            OciCall::LobLoadFromFile { err, .. } => Some((*err, OCI_HTYPE_ERROR)),
            OciCall::LobLocatorIsInit { err, .. } => Some((*err, OCI_HTYPE_ERROR)),
            OciCall::LobOpen { err, .. } => Some((*err, OCI_HTYPE_ERROR)),
            OciCall::LobRead { err, .. } => Some((*err, OCI_HTYPE_ERROR)),
            OciCall::LobSetContentType { err, .. } => Some((*err, OCI_HTYPE_ERROR)),
            OciCall::LobTrim { err, .. } => Some((*err, OCI_HTYPE_ERROR)),
            OciCall::LobWrite { err, .. } => Some((*err, OCI_HTYPE_ERROR)),
            OciCall::LobWriteAppend { err, .. } => Some((*err, OCI_HTYPE_ERROR)),
        }
    }

    pub fn is_failure(&self, status: i32) -> (r: bool)
        ensures
            r == spec_is_failure(*self, status),
    {
        match self {
            OciCall::StmtExecute { .. } => status == OCI_ERROR || status == OCI_INVALID_HANDLE,
            _ => status < 0,
        }
    }

    /// The diagnostics to fetch for a call that returned `status`, or `None` when the
    /// call did not fail (or reports no diagnostics).
    pub fn failure(&self, status: i32) -> (r: Option<Diag>)
        ensures
            r == spec_failure(*self, status),
    {
        match self.error_source() {
            Some((handle, htype)) => if self.is_failure(status) {
                Some(Diag { handle, htype, rc: status })
            } else {
                None
            },
            None => None,
        }
    }
}

impl AttrValue {
    pub fn clone_value(&self) -> (r: AttrValue)
        ensures
            r == *self,
    {
        match self {
            AttrValue::Null => AttrValue::Null,
            AttrValue::U8(v) => AttrValue::U8(*v),
            AttrValue::U16(v) => AttrValue::U16(*v),
            AttrValue::U32(v) => AttrValue::U32(*v),
            AttrValue::U64(v) => AttrValue::U64(*v),
            AttrValue::Ptr(v) => AttrValue::Ptr(*v),
            AttrValue::Text(t) => AttrValue::Text(t.clone()),
        }
    }
}

impl OciCall {
    /// A copy of the call.
    pub fn clone_call(&self) -> (r: OciCall)
        ensures
            r == *self,
    {
        match self {
            OciCall::EnvNlsCreate { mode, charset, ncharset } => OciCall::EnvNlsCreate { mode: *mode, charset: *charset, ncharset: *ncharset },
            OciCall::HandleAlloc { env, htype } => OciCall::HandleAlloc { env: *env, htype: *htype },
            OciCall::HandleFree { handle, htype } => OciCall::HandleFree { handle: *handle, htype: *htype },
            OciCall::DescriptorAlloc { env, dtype } => OciCall::DescriptorAlloc { env: *env, dtype: *dtype },
            OciCall::DescriptorFree { desc, dtype } => OciCall::DescriptorFree { desc: *desc, dtype: *dtype },
            OciCall::AttrGet { target, htype, attr, kind, err } => OciCall::AttrGet { target: *target, htype: *htype, attr: *attr, kind: *kind, err: *err },
            OciCall::AttrSet { target, htype, attr, value, err } => OciCall::AttrSet { target: *target, htype: *htype, attr: *attr, value: value.clone_value(), err: *err },
            OciCall::ParamGet { stmt, htype, err, pos } => OciCall::ParamGet { stmt: *stmt, htype: *htype, err: *err, pos: *pos },
            OciCall::SessionGet { env, err, auth, dbname, mode } => OciCall::SessionGet { env: *env, err: *err, auth: *auth, dbname: dbname.clone(), mode: *mode },
            OciCall::SessionGetTagged { env, err, auth, dbname, tag, mode } => OciCall::SessionGetTagged { env: *env, err: *err, auth: *auth, dbname: dbname.clone(), tag: tag.clone(), mode: *mode },
            OciCall::SessionRelease { svc, err } => OciCall::SessionRelease { svc: *svc, err: *err },
            OciCall::SessionPoolCreate { env, err, pool, dbname, min, max, incr, user, pass, mode } => OciCall::SessionPoolCreate { env: *env, err: *err, pool: *pool, dbname: dbname.clone(), min: *min, max: *max, incr: *incr, user: user.clone(), pass: pass.clone(), mode: *mode },
            OciCall::SessionPoolDestroy { pool, err } => OciCall::SessionPoolDestroy { pool: *pool, err: *err },
            OciCall::ConnectionPoolCreate { env, err, pool, dblink, min, max, incr, user, pass, mode } => OciCall::ConnectionPoolCreate { env: *env, err: *err, pool: *pool, dblink: dblink.clone(), min: *min, max: *max, incr: *incr, user: user.clone(), pass: pass.clone(), mode: *mode },
            OciCall::ConnectionPoolDestroy { pool, err } => OciCall::ConnectionPoolDestroy { pool: *pool, err: *err },
            OciCall::Ping { svc, err } => OciCall::Ping { svc: *svc, err: *err },
            OciCall::TransCommit { svc, err } => OciCall::TransCommit { svc: *svc, err: *err },
            OciCall::TransRollback { svc, err } => OciCall::TransRollback { svc: *svc, err: *err },
            OciCall::StmtPrepare { svc, err, sql, language, mode } => OciCall::StmtPrepare { svc: *svc, err: *err, sql: sql.clone(), language: *language, mode: *mode },
            OciCall::StmtRelease { stmt, err, mode } => OciCall::StmtRelease { stmt: *stmt, err: *err, mode: *mode },
            OciCall::StmtExecute { svc, stmt, err, iters, rowoff, mode } => OciCall::StmtExecute { svc: *svc, stmt: *stmt, err: *err, iters: *iters, rowoff: *rowoff, mode: *mode },
            OciCall::StmtFetch { stmt, err, nrows, orient, offset, mode } => OciCall::StmtFetch { stmt: *stmt, err: *err, nrows: *nrows, orient: *orient, offset: *offset, mode: *mode },
            OciCall::StmtGetNextResult { stmt, err } => OciCall::StmtGetNextResult { stmt: *stmt, err: *err },
            OciCall::DefineByPos { stmt, err, pos, dty, size, mode } => OciCall::DefineByPos { stmt: *stmt, err: *err, pos: *pos, dty: *dty, size: *size, mode: *mode },
            OciCall::StringResize { env, err, size, buf } => OciCall::StringResize { env: *env, err: *err, size: *size, buf: *buf },
            OciCall::RawResize { env, err, size, buf } => OciCall::RawResize { env: *env, err: *err, size: *size, buf: *buf },
            OciCall::RowidToChar { desc, err } => OciCall::RowidToChar { desc: *desc, err: *err },
            OciCall::LobAppend { svc, err, dst, src } => OciCall::LobAppend { svc: *svc, err: *err, dst: *dst, src: *src },
            OciCall::LobCharSetForm { env, err, loc } => OciCall::LobCharSetForm { env: *env, err: *err, loc: *loc },
            OciCall::LobCharSetId { env, err, loc } => OciCall::LobCharSetId { env: *env, err: *err, loc: *loc },
            OciCall::LobClose { svc, err, loc } => OciCall::LobClose { svc: *svc, err: *err, loc: *loc },
            OciCall::LobCopy { svc, err, dst, src, amount, dst_off, src_off } => OciCall::LobCopy { svc: *svc, err: *err, dst: *dst, src: *src, amount: *amount, dst_off: *dst_off, src_off: *src_off },
            OciCall::LobCreateTemporary { svc, err, loc, csid, csfrm, lob_type, cache, duration } => OciCall::LobCreateTemporary { svc: *svc, err: *err, loc: *loc, csid: *csid, csfrm: *csfrm, lob_type: *lob_type, cache: *cache, duration: *duration },
            OciCall::LobErase { svc, err, loc, amount, offset } => OciCall::LobErase { svc: *svc, err: *err, loc: *loc, amount: *amount, offset: *offset },
            OciCall::LobFileClose { svc, err, loc } => OciCall::LobFileClose { svc: *svc, err: *err, loc: *loc },
            OciCall::LobFileExists { svc, err, loc } => OciCall::LobFileExists { svc: *svc, err: *err, loc: *loc },
            OciCall::LobFileGetName { env, err, loc, dir_cap, name_cap } => OciCall::LobFileGetName { env: *env, err: *err, loc: *loc, dir_cap: *dir_cap, name_cap: *name_cap },
            OciCall::LobFileIsOpen { svc, err, loc } => OciCall::LobFileIsOpen { svc: *svc, err: *err, loc: *loc },
            OciCall::LobFileOpen { svc, err, loc, mode } => OciCall::LobFileOpen { svc: *svc, err: *err, loc: *loc, mode: *mode },
            OciCall::LobFileSetName { env, err, loc, dir, name } => OciCall::LobFileSetName { env: *env, err: *err, loc: *loc, dir: dir.clone(), name: name.clone() },
            OciCall::LobFreeTemporary { svc, err, loc } => OciCall::LobFreeTemporary { svc: *svc, err: *err, loc: *loc },
            OciCall::LobGetChunkSize { svc, err, loc } => OciCall::LobGetChunkSize { svc: *svc, err: *err, loc: *loc },
            OciCall::LobGetContentType { env, svc, err, loc, cap, mode } => OciCall::LobGetContentType { env: *env, svc: *svc, err: *err, loc: *loc, cap: *cap, mode: *mode },
            OciCall::LobGetLength { svc, err, loc } => OciCall::LobGetLength { svc: *svc, err: *err, loc: *loc },
            OciCall::LobIsEqual { env, loc1, loc2 } => OciCall::LobIsEqual { env: *env, loc1: *loc1, loc2: *loc2 },
            OciCall::LobIsOpen { svc, err, loc } => OciCall::LobIsOpen { svc: *svc, err: *err, loc: *loc },
            OciCall::LobIsTemporary { env, err, loc } => OciCall::LobIsTemporary { env: *env, err: *err, loc: *loc },
            OciCall::LobLoadFromFile { svc, err, dst, src, amount, dst_off, src_off } => OciCall::LobLoadFromFile { svc: *svc, err: *err, dst: *dst, src: *src, amount: *amount, dst_off: *dst_off, src_off: *src_off },
            OciCall::LobLocatorIsInit { env, err, loc } => OciCall::LobLocatorIsInit { env: *env, err: *err, loc: *loc },
            OciCall::LobOpen { svc, err, loc, mode } => OciCall::LobOpen { svc: *svc, err: *err, loc: *loc, mode: *mode },
            OciCall::LobRead { svc, err, loc, byte_amt, char_amt, offset, buf_len, piece, csid, csfrm } => OciCall::LobRead { svc: *svc, err: *err, loc: *loc, byte_amt: *byte_amt, char_amt: *char_amt, offset: *offset, buf_len: *buf_len, piece: *piece, csid: *csid, csfrm: *csfrm },
            OciCall::LobSetContentType { env, svc, err, loc, content_type, mode } => OciCall::LobSetContentType { env: *env, svc: *svc, err: *err, loc: *loc, content_type: content_type.clone(), mode: *mode },
            OciCall::LobTrim { svc, err, loc, len } => OciCall::LobTrim { svc: *svc, err: *err, loc: *loc, len: *len },
            OciCall::LobWrite { svc, err, loc, byte_amt, char_amt, offset, buf_len, piece, csid, csfrm } => OciCall::LobWrite { svc: *svc, err: *err, loc: *loc, byte_amt: *byte_amt, char_amt: *char_amt, offset: *offset, buf_len: *buf_len, piece: *piece, csid: *csid, csfrm: *csfrm },
            OciCall::LobWriteAppend { svc, err, loc, byte_amt, char_amt, buf_len, piece, csid, csfrm } => OciCall::LobWriteAppend { svc: *svc, err: *err, loc: *loc, byte_amt: *byte_amt, char_amt: *char_amt, buf_len: *buf_len, piece: *piece, csid: *csid, csfrm: *csfrm },
        }
    }
}

/// OCI's attribute store as the library sees it: the value of each attribute, by the
/// address and type of the object that holds it and the attribute's code.
pub type AttrStore = Map<(usize, u32, u32), AttrValue>;

/// The default maximum size of an environment's object cache, as a percentage of its
/// optimal size.
pub const DEFAULT_CACHE_MAX_SIZE: u32 = 10;

/// The default optimal size of an environment's object cache, in bytes.
pub const DEFAULT_CACHE_OPT_SIZE: u32 = 8388608;

/// What OCI keeps when an attribute is written: the value written, except that a zero
/// written as an environment's object cache size stands for the default size.
pub open spec fn stored_value(htype: u32, attr: u32, value: AttrValue) -> AttrValue {
    if htype == OCI_HTYPE_ENV && attr == OCI_ATTR_CACHE_MAX_SIZE && value == AttrValue::U32(0) {
        AttrValue::U32(DEFAULT_CACHE_MAX_SIZE)
    } else if htype == OCI_HTYPE_ENV && attr == OCI_ATTR_CACHE_OPT_SIZE && value == AttrValue::U32(0) {
        AttrValue::U32(DEFAULT_CACHE_OPT_SIZE)
    } else {
        value
    }
}

/// The store after a call: an attribute write replaces the attribute's value with what
/// OCI keeps of it; other calls leave the store as it was.
pub open spec fn store_after(store: AttrStore, call: OciCall) -> AttrStore {
    match call {
        OciCall::AttrSet { target, htype, attr, value, .. } => store.insert((target, htype, attr), stored_value(htype, attr, value)),
        _ => store,
    }
}

/// What an attribute read finds in the store.
pub open spec fn store_read(store: AttrStore, call: OciCall) -> Option<AttrValue> {
    match call {
        OciCall::AttrGet { target, htype, attr, .. } => if store.contains_key((target, htype, attr)) {
            Some(store[(target, htype, attr)])
        } else {
            None
        },
        _ => None,
    }
}

/// A read of an attribute finds what OCI kept of the last write of that attribute,
/// whatever error handles the two calls use and whatever kind of value the read asks for.
pub proof fn lemma_attr_read_after_write(
    store: AttrStore,
    target: usize,
    htype: u32,
    attr: u32,
    value: AttrValue,
    kind: AttrKind,
    err1: usize,
    err2: usize,
)
    ensures
        store_read(
            store_after(store, OciCall::AttrSet { target, htype, attr, value, err: err1 }),
            OciCall::AttrGet { target, htype, attr, kind, err: err2 },
        ) == Some(stored_value(htype, attr, value)),
{
}

/// The next thing a multi-call operation needs: an OCI call to be made and answered,
/// the diagnostics of a failed call to be turned into the operation's error, or the
/// operation's result.
pub enum Step<T> {
    Call(OciCall),
    Fail(Diag),
    Done(Result<T, Error>),
}

} // verus!
