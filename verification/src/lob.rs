//! Large objects: CLOB, BLOB and BFILE locators.

use vstd::prelude::*;
use crate::err::{Diag, Error};
use crate::oci::ptr::Ptr;
use crate::oci::desc::Descriptor;
use crate::oci::handle::{allocated_addr, reply_addr};
use crate::oci::call::{AttrKind, AttrValue, OciCall, OciValue, Reply, Step};
use crate::oci::{attr, calls};
use crate::oci::{
    CharSetForm, DescriptorType, OCIBFileLocator, OCICLobLocator, OCIBLobLocator, OCIEnv, OCIError,
    OCILobLocator, OCISvcCtx, OCI_ATTR_LOBEMPTY, OCI_ATTR_LOB_REMOTE, OCI_ATTR_LOB_TYPE,
    OCI_HTYPE_ERROR, OCI_LOB_READONLY, OCI_LOB_READWRITE, OCI_FILE_READONLY, AL32UTF8, OCI_NEED_DATA,
    OCI_ONE_PIECE, OCI_FIRST_PIECE, OCI_NEXT_PIECE, OCI_LAST_PIECE, OCI_TEMP_BLOB, OCI_TEMP_CLOB,
    OCI_DURATION_SESSION, OCI_LOB_CONTENTTYPE_MAXSIZE, OCI_DEFAULT, Cache, SQLCS_NCHAR,
};
use vstd::string::*;
use crate::session::Session;
use crate::pool::connection::{reply_u32, u32_value};

verus! {

/// Marks internal LOBs (CLOB and BLOB), as opposed to BFILEs.
pub trait InternalLob {}

impl InternalLob for OCICLobLocator {}
impl InternalLob for OCIBLobLocator {}

pub const LOB_IS_TEMP: u32 = 1;
pub const LOB_IS_OPEN: u32 = 2;
pub const LOB_FILE_IS_OPEN: u32 = 4;

/// The handles a LOB works with: its session's environment, error handle and service context.
pub struct LobCtx {
    env: Ptr<OCIEnv>,
    err: Ptr<OCIError>,
    svc: Ptr<OCISvcCtx>,
}

impl LobCtx {
    pub closed spec fn env_addr(&self) -> usize { self.env.addr() }
    pub closed spec fn err_addr(&self) -> usize { self.err.addr() }
    pub closed spec fn svc_addr(&self) -> usize { self.svc.addr() }

    /// The handles of `session`.
    pub fn of(session: &Session) -> (r: LobCtx)
        ensures
            r.env_addr() == session.ctx().env_addr(),
            r.err_addr() == session.ctx().err_addr(),
            r.svc_addr() == session.ctx().svc_addr(),
    {
        let ctx = session.get_svc();
        LobCtx { env: ctx.env_ptr(), err: ctx.err_ptr(), svc: ctx.svc_ptr() }
    }

    /// Whether these are the handles of `session`.
    pub open spec fn of_session(&self, session: &Session) -> bool {
        &&& self.env_addr() == session.ctx().env_addr()
        &&& self.err_addr() == session.ctx().err_addr()
        &&& self.svc_addr() == session.ctx().svc_addr()
    }

    pub fn env(&self) -> (r: Ptr<OCIEnv>) ensures r.addr() == self.env_addr() { self.env }
    pub fn err(&self) -> (r: Ptr<OCIError>) ensures r.addr() == self.err_addr() { self.err }
    pub fn svc(&self) -> (r: Ptr<OCISvcCtx>) ensures r.addr() == self.svc_addr() { self.svc }
}

impl Clone for LobCtx {
    fn clone(&self) -> (r: Self)
        ensures
            r == *self,
    {
        LobCtx { env: self.env, err: self.err, svc: self.svc }
    }
}

/// A LOB locator, whether the LOB owns its descriptor, and what the LOB has done to it
/// (opened it, made it temporary).
pub struct LobInner<T: DescriptorType> {
    locator: Ptr<OCILobLocator>,
    descriptor: Option<Descriptor<T>>,
    svc: LobCtx,
    status_flags: u32,
}

impl<T: DescriptorType> LobInner<T> {
    pub closed spec fn loc(&self) -> usize { self.locator.addr() }
    pub closed spec fn flags(&self) -> u32 { self.status_flags }
    pub closed spec fn ctx(&self) -> LobCtx { self.svc }
    pub closed spec fn owns_descriptor(&self) -> bool { self.descriptor is Some }

    /// A LOB over a descriptor that it owns.
    pub fn new(descriptor: Descriptor<T>, svc: LobCtx) -> (r: Self)
        ensures
            r.loc() == descriptor.addr(),
            r.owns_descriptor(),
            r.flags() == 0,
            r.ctx() == svc,
    {
        LobInner { locator: Ptr::new(descriptor.get()), descriptor: Some(descriptor), svc, status_flags: 0 }
    }

    /// A temporary LOB over a descriptor that it owns.
    pub fn new_temp(descriptor: Descriptor<T>, svc: LobCtx) -> (r: Self)
        ensures
            r.loc() == descriptor.addr(),
            r.owns_descriptor(),
            r.flags() == LOB_IS_TEMP,
            r.ctx() == svc,
    {
        LobInner { locator: Ptr::new(descriptor.get()), descriptor: Some(descriptor), svc, status_flags: LOB_IS_TEMP }
    }

    /// A LOB over the descriptor of a column, which the column keeps.
    pub fn at_column(descriptor: &Descriptor<T>, svc: LobCtx) -> (r: Self)
        ensures
            r.loc() == descriptor.addr(),
            !r.owns_descriptor(),
            r.flags() == 0,
            r.ctx() == svc,
    {
        LobInner { locator: Ptr::new(descriptor.get()), descriptor: None, svc, status_flags: 0 }
    }

    /// The call that frees the descriptor when the LOB owns one.
    pub closed spec fn descriptor_free(&self) -> Option<OciCall> {
        match self.descriptor {
            Some(d) => if d.addr() == 0 { None } else { Some(OciCall::DescriptorFree { desc: d.addr(), dtype: T::dtype() }) },
            None => None,
        }
    }

    /// What dropping the LOB does first: close it if it is open (as a LOB, or else as a
    /// file), free it if it is known to be temporary; otherwise ask OCI whether it is.
    pub fn release(&self) -> (r: LobRelease)
        ensures
            r.calls()@ == release_calls(self.flags(), self.ctx().svc_addr(), self.ctx().err_addr(), self.loc()),
            (self.flags() & LOB_IS_TEMP) == 0 ==> r.query() == Some(OciCall::LobIsTemporary {
                env: self.ctx().env_addr(), err: self.ctx().err_addr(), loc: self.loc() }),
            (self.flags() & LOB_IS_TEMP) != 0 ==> r.query() is None,
            r.free_temp() == (OciCall::LobFreeTemporary { svc: self.ctx().svc_addr(), err: self.ctx().err_addr(), loc: self.loc() }),
            r.free_descriptor() == self.descriptor_free(),
    {
        let svc = self.svc.svc;
        let err = self.svc.err;
        let loc = self.locator;
        let mut calls: Vec<OciCall> = Vec::new();
        let flags = self.status_flags;
        if flags & LOB_IS_OPEN != 0 {
            calls.push(calls::lob_close(svc, err, loc));
        } else if flags & LOB_FILE_IS_OPEN != 0 {
            calls.push(calls::lob_file_close(svc, err, loc));
        }
        let query = if flags & LOB_IS_TEMP != 0 {
            calls.push(calls::lob_free_temporary(svc, err, loc));
            None
        } else {
            Some(calls::lob_is_temporary(self.svc.env, err, loc))
        };
        let free_descriptor = match &self.descriptor {
            Some(d) => d.free(),
            None => None,
        };
        LobRelease { calls, query, free_temp: calls::lob_free_temporary(svc, err, loc), free_descriptor }
    }
}

/// The calls that dropping a LOB makes before anything depends on OCI's answers.
pub open spec fn release_calls(flags: u32, svc: usize, err: usize, loc: usize) -> Seq<OciCall> {
    (if flags & LOB_IS_OPEN != 0 {
        seq![OciCall::LobClose { svc, err, loc }]
    } else if flags & LOB_FILE_IS_OPEN != 0 {
        seq![OciCall::LobFileClose { svc, err, loc }]
    } else {
        seq![]
    }) + (if flags & LOB_IS_TEMP != 0 {
        seq![OciCall::LobFreeTemporary { svc, err, loc }]
    } else {
        seq![]
    })
}

/// The plan for dropping a LOB: calls to make, a question to ask OCI (is the LOB
/// temporary?), the call that frees it if so, and the descriptor to free last.
pub struct LobRelease {
    calls: Vec<OciCall>,
    query: Option<OciCall>,
    free_temp: OciCall,
    free_descriptor: Option<OciCall>,
}

impl LobRelease {
    pub closed spec fn calls(&self) -> Vec<OciCall> { self.calls }
    pub closed spec fn query(&self) -> Option<OciCall> { self.query }
    pub closed spec fn free_temp(&self) -> OciCall { self.free_temp }
    pub closed spec fn free_descriptor(&self) -> Option<OciCall> { self.free_descriptor }

    pub fn calls_first(&self) -> (r: &Vec<OciCall>)
        ensures *r == self.calls(),
    {
        &self.calls
    }

    pub fn temp_query(&self) -> (r: &Option<OciCall>)
        ensures *r == self.query(),
    {
        &self.query
    }

    /// The calls that follow OCI's answer to the query (if one was asked): the LOB is
    /// freed when OCI reports it temporary, then the descriptor is freed.
    pub fn finish(&self, answer: Option<&Reply>) -> (r: Vec<OciCall>)
        ensures
            ({
                let freed: Seq<OciCall> = match answer {
                    Some(reply) => if reply.status >= 0 && (reply.value matches OciValue::U8(f) && f != 0) {
                        seq![self.free_temp()]
                    } else {
                        seq![]
                    },
                    None => seq![],
                };
                let desc: Seq<OciCall> = match self.free_descriptor() {
                    Some(c) => seq![c],
                    None => seq![],
                };
                r@ == freed + desc
            }),
    {
        let mut calls: Vec<OciCall> = Vec::new();
        match answer {
            Some(reply) => {
                let is_temp = match reply.value {
                    OciValue::U8(f) => f != 0,
                    _ => false,
                };
                if reply.status >= 0 && is_temp {
                    calls.push(self.free_temp.clone_call());
                }
            },
            None => {},
        }
        match &self.free_descriptor {
            Some(c) => calls.push(c.clone_call()),
            None => {},
        }
        calls
    }
}

/// The call that reads a piece of a LOB into a buffer of `piece_size` bytes; `offset`
/// counts from zero, OCI counts from one.
pub open spec fn lob_read_call(svc: usize, err: usize, loc: usize, piece: u8, piece_size: usize, offset: usize, byte_len: usize, char_len: usize, cs_form: u8) -> OciCall {
    OciCall::LobRead {
        svc,
        err,
        loc,
        byte_amt: byte_len as u64,
        char_amt: char_len as u64,
        offset: (offset + 1) as u64,
        buf_len: piece_size as u64,
        piece,
        csid: AL32UTF8,
        csfrm: cs_form,
    }
}

/// The call that writes `len` bytes as a piece of a LOB at `offset`: a write in one piece
/// tells OCI how many bytes it writes, a piecewise one leaves OCI to count.
pub open spec fn lob_write_call(svc: usize, err: usize, loc: usize, piece: u8, offset: usize, cs_form: u8, len: usize) -> OciCall {
    OciCall::LobWrite {
        svc,
        err,
        loc,
        byte_amt: if piece == OCI_ONE_PIECE { len as u64 } else { 0 },
        char_amt: 0,
        offset: (offset + 1) as u64,
        buf_len: len as u64,
        piece,
        csid: AL32UTF8,
        csfrm: cs_form,
    }
}

/// The call that appends `len` bytes as a piece at the end of a LOB.
pub open spec fn lob_append_call(svc: usize, err: usize, loc: usize, piece: u8, cs_form: u8, len: usize) -> OciCall {
    OciCall::LobWriteAppend {
        svc,
        err,
        loc,
        byte_amt: if piece == OCI_ONE_PIECE { len as u64 } else { 0 },
        char_amt: 0,
        buf_len: len as u64,
        piece,
        csid: AL32UTF8,
        csfrm: cs_form,
    }
}

/// A flag that OCI reports as a byte: set when the byte is not zero.
pub open spec fn flag_value(value: OciValue) -> bool {
    value matches OciValue::U8(f) && f != 0
}

/// Reads a flag out of OCI's answer.
pub fn reply_flag(value: &OciValue) -> (r: bool)
    ensures
        r == flag_value(*value),
{
    match value {
        OciValue::U8(f) => *f != 0,
        _ => false,
    }
}

/// The byte in an answer, zero when the answer holds none.
pub open spec fn u8_value(value: OciValue) -> u8 {
    match value {
        OciValue::U8(n) => n,
        _ => 0,
    }
}

/// The 64-bit number in an answer, zero when the answer holds none.
pub open spec fn u64_value(value: OciValue) -> u64 {
    match value {
        OciValue::U64(n) => n,
        _ => 0,
    }
}

pub fn reply_u64(value: &OciValue) -> (r: u64)
    ensures
        r == u64_value(*value),
{
    match value {
        OciValue::U64(n) => *n,
        _ => 0,
    }
}

/// The character set form in OCI's answer to `OCILobCharSetForm`.
pub open spec fn form_of(value: OciValue) -> CharSetForm {
    CharSetForm::spec_from_code(u8_value(value))
}

/// Maps OCI's answer to `OCILobCharSetForm` to a `CharSetForm`.
pub fn reply_form(value: &OciValue) -> (r: CharSetForm)
    ensures
        r == form_of(*value),
{
    let code: u8 = match value {
        OciValue::U8(n) => *n,
        _ => 0,
    };
    CharSetForm::from_code(code)
}

/// LOB locator.
pub struct LOB<T: DescriptorType> {
    inner: LobInner<T>,
    chunk_size: u32,
}

/// A character LOB.
pub type CLOB = LOB<OCICLobLocator>;
/// A binary LOB.
pub type BLOB = LOB<OCIBLobLocator>;
/// A file LOB.
pub type BFile = LOB<OCIBFileLocator>;

impl<T: DescriptorType> LOB<T> {
    pub closed spec fn inner(&self) -> LobInner<T> { self.inner }
    pub closed spec fn cached_chunk_size(&self) -> u32 { self.chunk_size }
    pub open spec fn loc(&self) -> usize { self.inner().loc() }
    pub open spec fn flags(&self) -> u32 { self.inner().flags() }
    pub open spec fn env_addr(&self) -> usize { self.inner().ctx().env_addr() }
    pub open spec fn err_addr(&self) -> usize { self.inner().ctx().err_addr() }
    pub open spec fn svc_addr(&self) -> usize { self.inner().ctx().svc_addr() }

    /// The call that reads an attribute of the locator.
    pub open spec fn loc_attr_get(&self, attr: u32, kind: AttrKind) -> OciCall {
        OciCall::AttrGet { target: self.loc(), htype: T::dtype(), attr, kind, err: self.err_addr() }
    }

    /// The call that writes an attribute of the locator.
    pub open spec fn loc_attr_set(&self, attr: u32, value: AttrValue) -> OciCall {
        OciCall::AttrSet { target: self.loc(), htype: T::dtype(), attr, value, err: self.err_addr() }
    }

    /// A LOB over a new descriptor of its own.
    pub fn make_new(lob_descriptor: Descriptor<T>, session: LobCtx) -> (r: Self)
        ensures
            r.inner().owns_descriptor(),
            r.inner().ctx() == session,
            r.loc() == lob_descriptor.addr(),
            r.flags() == 0,
            r.cached_chunk_size() == 0,
    {
        LOB { inner: LobInner::new(lob_descriptor, session), chunk_size: 0 }
    }

    /// A LOB over a new descriptor of its own that locates a temporary LOB.
    pub fn make_temp(lob_descriptor: Descriptor<T>, session: LobCtx) -> (r: Self)
        ensures
            r.loc() == lob_descriptor.addr(),
            r.inner().owns_descriptor(),
            r.inner().ctx() == session,
            r.flags() == LOB_IS_TEMP,
            r.cached_chunk_size() == 0,
    {
        LOB { inner: LobInner::new_temp(lob_descriptor, session), chunk_size: 0 }
    }

    /// A LOB over the descriptor of a column buffer, which stays with the column.
    pub fn at_column(column_lob_descriptor: &Descriptor<T>, session: LobCtx) -> (r: Self)
        ensures
            r.loc() == column_lob_descriptor.addr(),
            !r.inner().owns_descriptor(),
            r.inner().ctx() == session,
            r.flags() == 0,
            r.cached_chunk_size() == 0,
    {
        LOB { inner: LobInner::at_column(column_lob_descriptor, session), chunk_size: 0 }
    }

    /// The locator.
    pub fn locator(&self) -> (r: Ptr<OCILobLocator>)
        ensures
            r.addr() == self.loc(),
    {
        self.inner.locator
    }

    /// What dropping the LOB does.
    pub fn release(&self) -> (r: LobRelease)
        ensures
            r.calls()@ == release_calls(self.flags(), self.svc_addr(), self.err_addr(), self.loc()),
            (self.flags() & LOB_IS_TEMP) == 0 ==> r.query() == Some(OciCall::LobIsTemporary {
                env: self.env_addr(), err: self.err_addr(), loc: self.loc() }),
            (self.flags() & LOB_IS_TEMP) != 0 ==> r.query() is None,
            r.free_temp() == (OciCall::LobFreeTemporary { svc: self.svc_addr(), err: self.err_addr(), loc: self.loc() }),
            r.free_descriptor() == self.inner().descriptor_free(),
    {
        self.inner.release()
    }

    /// Determines whether the LOB locator belongs to a local database table or a remote
    /// database table: the answer is a flag (see `reply_flag`).
    pub fn is_remote(&self) -> (r: OciCall)
        ensures
            r == self.loc_attr_get(OCI_ATTR_LOB_REMOTE, AttrKind::U8),
    {
        attr::get(OCI_ATTR_LOB_REMOTE, T::get_type(), self.inner.locator.get(), AttrKind::U8, self.inner.svc.err)
    }

    /// Returns the LOB's `SQLT` type, i.e. SQLT_CLOB, SQLT_BLOB or SQLT_BFILE.
    pub fn get_type(&self) -> (r: OciCall)
        ensures
            r == self.loc_attr_get(OCI_ATTR_LOB_TYPE, AttrKind::U16),
    {
        attr::get(OCI_ATTR_LOB_TYPE, T::get_type(), self.inner.locator.get(), AttrKind::U16, self.inner.svc.err)
    }

    /// Returns `true` if the given LOB or BFILE locator is initialized: the answer is a flag.
    pub fn is_initialized(&self) -> (r: OciCall)
        ensures
            r == (OciCall::LobLocatorIsInit { env: self.env_addr(), err: self.err_addr(), loc: self.loc() }),
    {
        calls::lob_locator_is_init(self.inner.svc.env, self.inner.svc.err, self.inner.locator)
    }

    /// Compares the given LOB or BFILE locators for equality: the answer is a flag. Two
    /// locators are equal if and only if they both refer to the same LOB or BFILE value.
    pub fn is_equal<U: DescriptorType>(&self, other: &LOB<U>) -> (r: OciCall)
        ensures
            r == (OciCall::LobIsEqual { env: self.env_addr(), loc1: self.loc(), loc2: other.loc() }),
    {
        calls::lob_is_equal(self.inner.svc.env, self.inner.locator, other.inner.locator)
    }

    /// Returns the character set form of the locator (see `reply_form`): `Undefined` for
    /// BLOBs and BFILEs.
    pub fn charset_form(&self) -> (r: OciCall)
        ensures
            r == (OciCall::LobCharSetForm { env: self.env_addr(), err: self.err_addr(), loc: self.loc() }),
    {
        calls::lob_char_set_form(self.inner.svc.env, self.inner.svc.err, self.inner.locator)
    }

    /// Returns the LOB locator's database character set ID: 0 for BLOBs and BFILEs.
    pub fn charset_id(&self) -> (r: OciCall)
        ensures
            r == (OciCall::LobCharSetId { env: self.env_addr(), err: self.err_addr(), loc: self.loc() }),
    {
        calls::lob_char_set_id(self.inner.svc.env, self.inner.svc.err, self.inner.locator)
    }
}

impl<T: DescriptorType> LOB<T> {
    /// The LOB with other status flags.
    pub closed spec fn with_flags(self, flags: u32) -> Self {
        LOB { inner: LobInner { status_flags: flags, ..self.inner }, ..self }
    }

    /// The LOB with another cached chunk size.
    pub closed spec fn with_chunk_size(self, size: u32) -> Self {
        LOB { chunk_size: size, ..self }
    }

    /// Closes a previously opened LOB or BFILE (its answer goes to `closed`).
    pub fn close(&self) -> (r: OciCall)
        ensures
            r == (OciCall::LobClose { svc: self.svc_addr(), err: self.err_addr(), loc: self.loc() }),
    {
        calls::lob_close(self.inner.svc.svc, self.inner.svc.err, self.inner.locator)
    }

    /// Records OCI's answer to a close: a LOB that closed is no longer open, and one that
    /// did not stays as it was. Returns whether it closed.
    pub fn closed(&mut self, status: i32) -> (r: bool)
        ensures
            r == (status >= 0),
            r ==> *final(self) == old(self).with_flags(old(self).flags() & !LOB_IS_OPEN),
            !r ==> *final(self) == *old(self),
    {
        if status >= 0 {
            self.inner.status_flags = self.inner.status_flags & !LOB_IS_OPEN;
            true
        } else {
            false
        }
    }

    /// Records OCI's answer to an open: a LOB that opened is open, one that did not stays
    /// as it was. Returns whether it opened.
    pub fn opened(&mut self, status: i32) -> (r: bool)
        ensures
            r == (status >= 0),
            r ==> *final(self) == old(self).with_flags(old(self).flags() | LOB_IS_OPEN),
            !r ==> *final(self) == *old(self),
    {
        if status >= 0 {
            self.inner.status_flags = self.inner.status_flags | LOB_IS_OPEN;
            true
        } else {
            false
        }
    }

    /// Returns the length of a LOB: in characters for CLOBs, in bytes for BLOBs and BFILEs
    /// (the answer is a 64-bit number).
    pub fn len(&self) -> (r: OciCall)
        ensures
            r == (OciCall::LobGetLength { svc: self.svc_addr(), err: self.err_addr(), loc: self.loc() }),
    {
        calls::lob_get_length(self.inner.svc.svc, self.inner.svc.err, self.inner.locator)
    }

    /// Tests whether the LOB is open: the answer is a flag.
    pub fn is_open(&self) -> (r: OciCall)
        ensures
            r == (OciCall::LobIsOpen { svc: self.svc_addr(), err: self.err_addr(), loc: self.loc() }),
    {
        calls::lob_is_open(self.inner.svc.svc, self.inner.svc.err, self.inner.locator)
    }

    /// Opens the LOB in read-only mode (its answer goes to `opened`).
    pub fn open_readonly(&self) -> (r: OciCall)
        ensures
            r == (OciCall::LobOpen { svc: self.svc_addr(), err: self.err_addr(), loc: self.loc(), mode: OCI_LOB_READONLY }),
    {
        calls::lob_open(self.inner.svc.svc, self.inner.svc.err, self.inner.locator, OCI_LOB_READONLY)
    }

    /// The call that reads a piece of the LOB into a buffer of `piece_size` bytes.
    pub open spec fn read_call(&self, piece: u8, piece_size: usize, offset: usize, byte_len: usize, char_len: usize, cs_form: u8) -> OciCall {
        lob_read_call(self.svc_addr(), self.err_addr(), self.loc(), piece, piece_size, offset, byte_len, char_len, cs_form)
    }

    /// Reads a piece of the LOB; `offset` counts from zero, OCI counts from one.
    pub fn read_piece(&self, piece: u8, piece_size: usize, offset: usize, byte_len: usize, char_len: usize, cs_form: u8) -> (r: OciCall)
        requires
            offset < usize::MAX,
        ensures
            r == self.read_call(piece, piece_size, offset, byte_len, char_len, cs_form),
    {
        calls::lob_read(
            self.inner.svc.svc, self.inner.svc.err, self.inner.locator,
            byte_len as u64, char_len as u64, (offset + 1) as u64,
            piece_size as u64, piece, AL32UTF8, cs_form,
        )
    }

    /// Takes OCI's answer to a read of a piece of at most `piece_size` bytes: a failed
    /// read reports the LOB's error handle and leaves `buf` as it was; otherwise the
    /// piece is appended to `buf` as `piece_read` does.
    pub fn read_piece_done(&self, piece_size: usize, reply: &Reply, buf: &mut Vec<u8>) -> (r: Result<(bool, usize, usize), Diag>)
        ensures
            reply.status < 0 ==> r == Err::<(bool, usize, usize), Diag>(Diag { handle: self.err_addr(), htype: OCI_HTYPE_ERROR, rc: reply.status })
                && final(buf)@ == old(buf)@,
            reply.status >= 0 ==> (r matches Ok(t) && t.0 == (reply.status == OCI_NEED_DATA)
                && final(buf)@ == old(buf)@ + piece_bytes(reply.value, piece_size)
                && t.1 == piece_bytes(reply.value, piece_size).len() && t.2 == piece_chars(reply.value)),
    {
        if reply.status < 0 {
            return Err(Diag::oci(self.inner.svc.err.get(), reply.status));
        }
        Ok(piece_read(reply, piece_size, buf))
    }
}

/// The bytes of a piece that a read into a buffer of `piece_size` bytes keeps: OCI
/// writes no more than the buffer holds.
pub open spec fn piece_bytes(value: OciValue, piece_size: usize) -> Seq<u8> {
    match value {
        OciValue::Piece(data, _) => if data@.len() <= piece_size { data@ } else { data@.take(piece_size as int) },
        _ => Seq::empty(),
    }
}

/// The number of characters that OCI counted in its answer to a read.
pub open spec fn piece_chars(value: OciValue) -> usize {
    match value {
        OciValue::Piece(_, chars) => chars as usize,
        _ => 0,
    }
}

/// The bytes and characters that OCI counted in its answer to a write.
pub open spec fn counts_of(value: OciValue) -> (usize, usize) {
    match value {
        OciValue::Counts(bytes, chars) => (bytes as usize, chars as usize),
        _ => (0, 0),
    }
}

pub fn reply_counts(value: &OciValue) -> (r: (usize, usize))
    ensures
        r == counts_of(*value),
{
    match value {
        OciValue::Counts(bytes, chars) => (*bytes as usize, *chars as usize),
        _ => (0, 0),
    }
}

/// What a piece read into a buffer of `piece_size` bytes hands back: whether OCI has
/// more to give (it answered `OCI_NEED_DATA`), the number of bytes read and the number
/// of characters read. The bytes, no more than `piece_size` of them, are appended to `buf`.
pub fn piece_read(reply: &Reply, piece_size: usize, buf: &mut Vec<u8>) -> (r: (bool, usize, usize))
    ensures
        r.0 == (reply.status == OCI_NEED_DATA),
        final(buf)@ == old(buf)@ + piece_bytes(reply.value, piece_size),
        r.1 == piece_bytes(reply.value, piece_size).len(),
        r.1 <= piece_size,
        r.2 == piece_chars(reply.value),
{
    let more = reply.status == OCI_NEED_DATA;
    match &reply.value {
        OciValue::Piece(data, chars) => {
            let n = if data.len() <= piece_size { data.len() } else { piece_size };
            let mut i: usize = 0;
            while i < n
                invariant
                    n <= data.len(),
                    i <= n,
                    buf@ == old(buf)@ + data@.subrange(0, i as int),
                decreases n - i,
            {
                buf.push(data[i]);
                proof {
                    assert(data@.subrange(0, (i + 1) as int) == data@.subrange(0, i as int).push(data@[i as int]));
                }
                i = i + 1;
            }
            proof {
                assert(data@.subrange(0, n as int) == piece_bytes(reply.value, piece_size));
            }
            (more, n, *chars as usize)
        },
        _ => (more, 0, 0),
    }
}

/// What a piece read of a character LOB hands back: whether OCI has more to give, the
/// number of bytes and the number of characters read. The text is appended to `buf`.
pub fn text_piece_read(reply: &Reply, buf: &mut String) -> (r: (bool, usize, usize))
    ensures
        r.0 == (reply.status == OCI_NEED_DATA),
        reply.value matches OciValue::TextPiece(text, chars) ==>
            final(buf)@ == old(buf)@ + text@ && r.1 == vstd::utf8::encode_utf8(text@).len() as usize && r.2 == chars as usize,
        !(reply.value is TextPiece) ==> final(buf)@ == old(buf)@ && r.1 == 0 && r.2 == 0,
{
    let more = reply.status == OCI_NEED_DATA;
    match &reply.value {
        OciValue::TextPiece(text, chars) => {
            let t = text.as_str();
            buf.append(t);
            (more, t.len(), *chars as usize)
        },
        _ => (more, 0, 0),
    }
}

impl<T: DescriptorType + InternalLob> LOB<T> {
    /// Tests whether the LOB is temporary: the answer is a flag.
    pub fn is_temp(&self) -> (r: OciCall)
        ensures
            r == (OciCall::LobIsTemporary { env: self.env_addr(), err: self.err_addr(), loc: self.loc() }),
    {
        calls::lob_is_temporary(self.inner.svc.env, self.inner.svc.err, self.inner.locator)
    }

    /// Appends another LOB value at the end of this LOB.
    pub fn append_lob(&self, lob: &Self) -> (r: OciCall)
        ensures
            r == (OciCall::LobAppend { svc: self.svc_addr(), err: self.err_addr(), dst: self.loc(), src: lob.loc() }),
    {
        calls::lob_append(self.inner.svc.svc, self.inner.svc.err, self.inner.locator, lob.inner.locator)
    }

    /// Copies `amount` of the source LOB from `src_offset` to this LOB at `offset`
    /// (offsets count from zero, OCI counts from one).
    pub fn copy(&self, src: &Self, src_offset: usize, amount: usize, offset: usize) -> (r: OciCall)
        requires
            src_offset < usize::MAX,
            offset < usize::MAX,
        ensures
            r == (OciCall::LobCopy {
                svc: self.svc_addr(),
                err: self.err_addr(),
                dst: self.loc(),
                src: src.loc(),
                amount: amount as u64,
                dst_off: (offset + 1) as u64,
                src_off: (src_offset + 1) as u64,
            }),
    {
        calls::lob_copy(
            self.inner.svc.svc, self.inner.svc.err, self.inner.locator, src.inner.locator,
            amount as u64, (offset + 1) as u64, (src_offset + 1) as u64,
        )
    }

    /// Loads `amount` of a BFILE from `src_offset` into this LOB at `dst_offset`.
    pub fn load_from_file(&self, src: &BFile, src_offset: usize, amount: usize, dst_offset: usize) -> (r: OciCall)
        requires
            src_offset < usize::MAX,
            dst_offset < usize::MAX,
        ensures
            r == (OciCall::LobLoadFromFile {
                svc: self.svc_addr(),
                err: self.err_addr(),
                dst: self.loc(),
                src: src.loc(),
                amount: amount as u64,
                dst_off: (dst_offset + 1) as u64,
                src_off: (src_offset + 1) as u64,
            }),
    {
        calls::lob_load_from_file(
            self.inner.svc.svc, self.inner.svc.err, self.inner.locator, src.inner.locator,
            amount as u64, (dst_offset + 1) as u64, (src_offset + 1) as u64,
        )
    }

    /// Erases `amount` characters (CLOB) or bytes (BLOB) from `offset`; the answer is the
    /// number actually erased.
    pub fn erase(&self, offset: usize, amount: usize) -> (r: OciCall)
        requires
            offset < usize::MAX,
        ensures
            r == (OciCall::LobErase {
                svc: self.svc_addr(),
                err: self.err_addr(),
                loc: self.loc(),
                amount: amount as u64,
                offset: (offset + 1) as u64,
            }),
    {
        calls::lob_erase(self.inner.svc.svc, self.inner.svc.err, self.inner.locator, amount as u64, (offset + 1) as u64)
    }

    /// What asking for the chunk size gives: the size learnt before, or the question to OCI.
    pub open spec fn chunk_size_step(&self) -> Step<usize> {
        if self.cached_chunk_size() != 0 {
            Step::Done(Ok(self.cached_chunk_size() as usize))
        } else {
            Step::Call(OciCall::LobGetChunkSize { svc: self.svc_addr(), err: self.err_addr(), loc: self.loc() })
        }
    }

    /// Returns the chunk size the LOB stores its data in: the size learnt before, or else
    /// the call that asks OCI (its answer goes to `chunk_size_fetched`).
    pub fn chunk_size(&self) -> (r: Step<usize>)
        ensures
            r == self.chunk_size_step(),
    {
        if self.chunk_size != 0 {
            Step::Done(Ok(self.chunk_size as usize))
        } else {
            Step::Call(calls::lob_get_chunk_size(self.inner.svc.svc, self.inner.svc.err, self.inner.locator))
        }
    }

    /// Records OCI's answer to the chunk size question: a failure leaves the LOB as it
    /// was; otherwise the size is kept for later questions and returned.
    pub fn chunk_size_fetched(&mut self, reply: &Reply) -> (r: Step<usize>)
        ensures
            reply.status < 0 ==> r == Step::<usize>::Fail(Diag { handle: old(self).err_addr(), htype: OCI_HTYPE_ERROR, rc: reply.status })
                && *final(self) == *old(self),
            reply.status >= 0 ==> r == Step::<usize>::Done(Ok(u32_value(reply.value) as usize))
                && *final(self) == old(self).with_chunk_size(u32_value(reply.value)),
    {
        if reply.status < 0 {
            Step::Fail(Diag::oci(self.inner.svc.err.get(), reply.status))
        } else {
            let size = reply_u32(&reply.value);
            self.chunk_size = size;
            Step::Done(Ok(size as usize))
        }
    }

    /// Returns the user-specified content type string of the LOB (the answer is text).
    pub fn content_type(&self) -> (r: OciCall)
        ensures
            r == (OciCall::LobGetContentType {
                env: self.env_addr(),
                svc: self.svc_addr(),
                err: self.err_addr(),
                loc: self.loc(),
                cap: OCI_LOB_CONTENTTYPE_MAXSIZE as u32,
                mode: 0,
            }),
    {
        calls::lob_get_content_type(
            self.inner.svc.env, self.inner.svc.svc, self.inner.svc.err, self.inner.locator,
            OCI_LOB_CONTENTTYPE_MAXSIZE as u32, 0,
        )
    }

    /// Sets a content type string for the LOB.
    pub fn set_content_type(&self, content_type: &str) -> (r: OciCall)
        ensures
            r matches OciCall::LobSetContentType { env, svc, err, loc, content_type: ct, mode }
                && env == self.env_addr() && svc == self.svc_addr() && err == self.err_addr()
                && loc == self.loc() && ct@ == content_type@ && mode == 0,
    {
        calls::lob_set_content_type(
            self.inner.svc.env, self.inner.svc.svc, self.inner.svc.err, self.inner.locator, content_type, 0,
        )
    }

    /// Opens the LOB in read-write mode (its answer goes to `opened`).
    pub fn open(&self) -> (r: OciCall)
        ensures
            r == (OciCall::LobOpen { svc: self.svc_addr(), err: self.err_addr(), loc: self.loc(), mode: OCI_LOB_READWRITE }),
    {
        calls::lob_open(self.inner.svc.svc, self.inner.svc.err, self.inner.locator, OCI_LOB_READWRITE)
    }

    /// Truncates the LOB to `new_len` characters (CLOB) or bytes (BLOB).
    pub fn trim(&self, new_len: usize) -> (r: OciCall)
        ensures
            r == (OciCall::LobTrim { svc: self.svc_addr(), err: self.err_addr(), loc: self.loc(), len: new_len as u64 }),
    {
        calls::lob_trim(self.inner.svc.svc, self.inner.svc.err, self.inner.locator, new_len as u64)
    }

    /// The call that writes `len` bytes as a piece of the LOB at `offset`.
    pub open spec fn write_call(&self, piece: u8, offset: usize, cs_form: u8, len: usize) -> OciCall {
        lob_write_call(self.svc_addr(), self.err_addr(), self.loc(), piece, offset, cs_form, len)
    }

    /// The call that appends `len` bytes as a piece of the LOB.
    pub open spec fn append_call(&self, piece: u8, cs_form: u8, len: usize) -> OciCall {
        lob_append_call(self.svc_addr(), self.err_addr(), self.loc(), piece, cs_form, len)
    }

    /// Writes `data` as a piece of the LOB at `offset` (the answer holds the byte and
    /// character counts, see `reply_counts`).
    pub fn write_piece(&self, piece: u8, offset: usize, cs_form: u8, data: &[u8]) -> (r: OciCall)
        requires
            offset < usize::MAX,
        ensures
            r == self.write_call(piece, offset, cs_form, data@.len() as usize),
    {
        let len = data.len();
        let byte_cnt: u64 = if piece == OCI_ONE_PIECE { len as u64 } else { 0 };
        calls::lob_write(
            self.inner.svc.svc, self.inner.svc.err, self.inner.locator,
            byte_cnt, 0, (offset + 1) as u64, len as u64, piece, AL32UTF8, cs_form,
        )
    }

    /// Appends `data` as a piece at the end of the LOB.
    pub fn append_piece(&self, piece: u8, cs_form: u8, data: &[u8]) -> (r: OciCall)
        ensures
            r == self.append_call(piece, cs_form, data@.len() as usize),
    {
        let len = data.len();
        let byte_cnt: u64 = if piece == OCI_ONE_PIECE { len as u64 } else { 0 };
        calls::lob_write_append(
            self.inner.svc.svc, self.inner.svc.err, self.inner.locator,
            byte_cnt, 0, len as u64, piece, AL32UTF8, cs_form,
        )
    }
}

/// How a new LOB is made once its descriptor is allocated.
pub enum LobMaking {
    /// The descriptor is the LOB (a BFILE to be named).
    Plain,
    /// The locator is set to an empty LOB.
    Empty,
    /// A temporary LOB is created for the locator.
    Temp { csform: u8, lob_type: u8, cache: u8 },
}

/// The call that makes the LOB out of its descriptor, if one is needed.
pub open spec fn making_call(making: LobMaking, ctx: LobCtx, desc: usize, dtype: u32) -> Option<OciCall> {
    match making {
        LobMaking::Plain => None,
        LobMaking::Empty => Some(OciCall::AttrSet {
            target: desc,
            htype: dtype,
            attr: OCI_ATTR_LOBEMPTY,
            value: AttrValue::U32(0),
            err: ctx.err_addr(),
        }),
        LobMaking::Temp { csform, lob_type, cache } => Some(OciCall::LobCreateTemporary {
            svc: ctx.svc_addr(),
            err: ctx.err_addr(),
            loc: desc,
            csid: OCI_DEFAULT as u16,
            csfrm: csform,
            lob_type,
            cache,
            duration: OCI_DURATION_SESSION,
        }),
    }
}

/// Making a new LOB: its descriptor is allocated, then, unless it is a BFILE, the locator
/// is emptied or a temporary LOB is created for it.
pub struct LobCreateFlow<T: DescriptorType> {
    ctx: LobCtx,
    making: LobMaking,
    desc: Option<Descriptor<T>>,
    stage: u8,
}

impl<T: DescriptorType> LobCreateFlow<T> {
    pub closed spec fn stage(&self) -> u8 { self.stage }
    pub closed spec fn ctx(&self) -> LobCtx { self.ctx }
    pub closed spec fn making(&self) -> LobMaking { self.making }
    pub closed spec fn desc_addr(&self) -> usize {
        match self.desc {
            Some(d) => d.addr(),
            None => 0,
        }
    }

    /// Starts making a LOB: the first call allocates its descriptor.
    pub fn start(ctx: LobCtx, making: LobMaking) -> (r: (Self, OciCall))
        ensures
            r.0.stage() == 0,
            r.0.ctx() == ctx,
            r.0.making() == making,
            r.1 == (OciCall::DescriptorAlloc { env: ctx.env_addr(), dtype: T::dtype() }),
    {
        let call = Descriptor::<T>::new(ctx.env());
        (LobCreateFlow { ctx, making, desc: None, stage: 0 }, call)
    }

    /// Takes OCI's answer to the last call.
    pub fn resume(&mut self, reply: &Reply) -> (r: Step<LOB<T>>)
        requires
            old(self).stage() < 2,
        ensures
            old(self).stage() == 0 && reply.status < 0 ==>
                r == Step::<LOB<T>>::Fail(Diag { handle: old(self).ctx().env_addr(), htype: 1, rc: reply.status })
                && *final(self) == *old(self),
            old(self).stage() == 0 && reply.status >= 0 && allocated_addr(reply.value) == 0 ==>
                (r matches Step::Done(Err(Error::Interface(m))) && m@ == crate::oci::desc::null_descriptor_message())
                && *final(self) == *old(self),
            old(self).stage() == 0 && reply.status >= 0 && allocated_addr(reply.value) != 0 ==> ({
                let next = making_call(old(self).making(), old(self).ctx(), allocated_addr(reply.value), T::dtype());
                &&& next is None ==> (r matches Step::Done(Ok(lob)) && lob.loc() == allocated_addr(reply.value)
                        && lob.flags() == 0 && lob.inner().owns_descriptor() && lob.inner().ctx() == old(self).ctx()
                        && lob.cached_chunk_size() == 0)
                        && final(self).stage() == 2
                &&& next is Some ==> r == Step::<LOB<T>>::Call(next.unwrap())
                        && final(self).stage() == 1 && final(self).desc_addr() == allocated_addr(reply.value)
                        && final(self).ctx() == old(self).ctx() && final(self).making() == old(self).making()
            }),
            old(self).stage() == 1 && reply.status < 0 ==>
                r == Step::<LOB<T>>::Fail(Diag { handle: old(self).ctx().err_addr(), htype: OCI_HTYPE_ERROR, rc: reply.status })
                && *final(self) == *old(self),
            old(self).stage() == 1 && reply.status >= 0 ==>
                (r matches Step::Done(Ok(lob)) && lob.loc() == old(self).desc_addr()
                    && lob.flags() == (if old(self).making() is Temp { LOB_IS_TEMP } else { 0 })
                    && lob.inner().owns_descriptor() && lob.inner().ctx() == old(self).ctx()
                    && lob.cached_chunk_size() == 0)
                && final(self).stage() == 2,
    {
        if self.stage == 0 {
            match Descriptor::<T>::allocated(self.ctx.env(), reply) {
                Step::Done(Ok(desc)) => {
                    let addr = desc.get_ptr();
                    match &self.making {
                        LobMaking::Plain => {
                            self.stage = 2;
                            Step::Done(Ok(LOB::make_new(desc, self.ctx.clone())))
                        },
                        LobMaking::Empty => {
                            let call = desc.set_attr(OCI_ATTR_LOBEMPTY, AttrValue::U32(0), self.ctx.err());
                            self.desc = Some(desc);
                            self.stage = 1;
                            Step::Call(call)
                        },
                        LobMaking::Temp { csform, lob_type, cache } => {
                            let call = calls::lob_create_temporary(
                                self.ctx.svc(), self.ctx.err(), Ptr::new(addr.get()),
                                OCI_DEFAULT as u16, *csform, *lob_type, *cache, OCI_DURATION_SESSION,
                            );
                            self.desc = Some(desc);
                            self.stage = 1;
                            Step::Call(call)
                        },
                    }
                },
                Step::Done(Err(e)) => Step::Done(Err(e)),
                Step::Fail(d) => Step::Fail(d),
                Step::Call(c) => Step::Call(c),
            }
        } else if reply.status < 0 {
            Step::Fail(Diag::oci(self.ctx.err().get(), reply.status))
        } else {
            let temp = match &self.making {
                LobMaking::Temp { .. } => true,
                _ => false,
            };
            let desc = self.desc.take();
            self.stage = 2;
            match desc {
                Some(d) => if temp {
                    Step::Done(Ok(LOB::make_temp(d, self.ctx.clone())))
                } else {
                    Step::Done(Ok(LOB::make_new(d, self.ctx.clone())))
                },
                None => if temp {
                    Step::Done(Ok(LOB::make_temp(Descriptor::from(Ptr::null()), self.ctx.clone())))
                } else {
                    Step::Done(Ok(LOB::make_new(Descriptor::from(Ptr::null()), self.ctx.clone())))
                },
            }
        }
    }

    /// What the flow leaves to free when it ends with an error: the descriptor, once allocated.
    pub fn cleanup(&self) -> (r: Vec<OciCall>)
        ensures
            self.stage() == 1 && self.desc_addr() != 0 ==> r@ == seq![OciCall::DescriptorFree { desc: self.desc_addr(), dtype: T::dtype() }],
            !(self.stage() == 1 && self.desc_addr() != 0) ==> r@ == Seq::<OciCall>::empty(),
    {
        let mut calls: Vec<OciCall> = Vec::new();
        if self.stage == 1 {
            match &self.desc {
                Some(d) => match d.free() {
                    Some(c) => calls.push(c),
                    None => {},
                },
                None => {},
            }
        }
        calls
    }
}

impl<T: DescriptorType + InternalLob> LOB<T> {
    /// Creates a new empty LOB. This is an alias for `empty`.
    pub fn new(session: &Session) -> (r: (LobCreateFlow<T>, OciCall))
        ensures
            r.0.stage() == 0,
            r.0.ctx().of_session(session),
            r.0.making() == LobMaking::Empty,
            r.1 == (OciCall::DescriptorAlloc { env: session.ctx().env_addr(), dtype: T::dtype() }),
    {
        Self::empty(session)
    }

    /// Creates a new empty LOB: a descriptor whose locator is set to empty, to be bound
    /// into an INSERT or UPDATE that initializes a LOB column.
    pub fn empty(session: &Session) -> (r: (LobCreateFlow<T>, OciCall))
        ensures
            r.0.stage() == 0,
            r.0.ctx().of_session(session),
            r.0.making() == LobMaking::Empty,
            r.1 == (OciCall::DescriptorAlloc { env: session.ctx().env_addr(), dtype: T::dtype() }),
    {
        LobCreateFlow::start(LobCtx::of(session), LobMaking::Empty)
    }

    /// Sets the internal LOB locator to empty.
    pub fn clear(&self) -> (r: OciCall)
        ensures
            r == self.loc_attr_set(OCI_ATTR_LOBEMPTY, AttrValue::U32(0)),
    {
        attr::set(OCI_ATTR_LOBEMPTY, AttrValue::U32(0), T::get_type(), self.inner.locator.get(), self.inner.svc.err)
    }

    /// Creates a temporary LOB of the given type, character set form and caching.
    fn create_temp(session: &Session, csform: u8, lob_type: u8, cache: Cache) -> (r: (LobCreateFlow<T>, OciCall))
        ensures
            r.0.stage() == 0,
            r.0.ctx().of_session(session),
            r.0.making() == (LobMaking::Temp { csform, lob_type, cache: cache.code() }),
            r.1 == (OciCall::DescriptorAlloc { env: session.ctx().env_addr(), dtype: T::dtype() }),
    {
        LobCreateFlow::start(LobCtx::of(session), LobMaking::Temp { csform, lob_type, cache: cache.as_code() })
    }
}

impl LOB<OCICLobLocator> {
    /// Returns `true` if the LOB locator is for an NCLOB: the answer to the call is read
    /// by `reply_is_nclob`.
    pub fn is_nclob(&self) -> (r: OciCall)
        ensures
            r == (OciCall::LobCharSetForm { env: self.env_addr(), err: self.err_addr(), loc: self.loc() }),
    {
        self.charset_form()
    }

    /// Constructs a new temporary CLOB (or NCLOB, by the character set form).
    pub fn temp(session: &Session, csform: CharSetForm, cache: Cache) -> (r: (LobCreateFlow<OCICLobLocator>, OciCall))
        ensures
            r.0.stage() == 0,
            r.0.ctx().of_session(session),
            r.0.making() == (LobMaking::Temp { csform: csform.code(), lob_type: OCI_TEMP_CLOB, cache: cache.code() }),
            r.1 == (OciCall::DescriptorAlloc { env: session.ctx().env_addr(), dtype: OCICLobLocator::dtype() }),
    {
        Self::create_temp(session, csform.as_code(), OCI_TEMP_CLOB, cache)
    }
}

/// Whether OCI's answer to a character set form question names the national form.
pub fn reply_is_nclob(value: &OciValue) -> (r: bool)
    ensures
        r == (form_of(*value) == CharSetForm::NChar),
{
    let form = reply_form(value);
    form.as_code() == SQLCS_NCHAR
}

impl LOB<OCIBLobLocator> {
    /// Constructs a new temporary BLOB.
    pub fn temp(session: &Session, cache: Cache) -> (r: (LobCreateFlow<OCIBLobLocator>, OciCall))
        ensures
            r.0.stage() == 0,
            r.0.ctx().of_session(session),
            r.0.making() == (LobMaking::Temp { csform: 0, lob_type: OCI_TEMP_BLOB, cache: cache.code() }),
            r.1 == (OciCall::DescriptorAlloc { env: session.ctx().env_addr(), dtype: OCIBLobLocator::dtype() }),
    {
        Self::create_temp(session, 0u8, OCI_TEMP_BLOB, cache)
    }
}

impl LOB<OCIBFileLocator> {
    /// Creates a new uninitialized BFILE.
    pub fn new(session: &Session) -> (r: (LobCreateFlow<OCIBFileLocator>, OciCall))
        ensures
            r.0.stage() == 0,
            r.0.ctx().of_session(session),
            r.0.making() == LobMaking::Plain,
            r.1 == (OciCall::DescriptorAlloc { env: session.ctx().env_addr(), dtype: OCIBFileLocator::dtype() }),
    {
        LobCreateFlow::start(LobCtx::of(session), LobMaking::Plain)
    }

    /// Returns the directory object and file name associated with this BFILE locator
    /// (the answer holds both names).
    pub fn file_name(&self) -> (r: OciCall)
        ensures
            r == (OciCall::LobFileGetName { env: self.env_addr(), err: self.err_addr(), loc: self.loc(), dir_cap: 30, name_cap: 255 }),
    {
        calls::lob_file_get_name(self.inner.svc.env, self.inner.svc.err, self.inner.locator, 30, 255)
    }

    /// Sets the directory object and file name in the BFILE locator.
    pub fn set_file_name(&self, dir: &str, name: &str) -> (r: OciCall)
        ensures
            r matches OciCall::LobFileSetName { env, err, loc, dir: d, name: n }
                && env == self.env_addr() && err == self.err_addr() && loc == self.loc()
                && d@ == dir@ && n@ == name@,
    {
        calls::lob_file_set_name(self.inner.svc.env, self.inner.svc.err, self.inner.locator, dir, name)
    }
}

/// A write into a character LOB: the LOB's character set form is asked first, then the
/// text is written (at an offset) or appended in that form.
pub struct ClobWriteFlow {
    svc: Ptr<OCISvcCtx>,
    err: Ptr<OCIError>,
    loc: Ptr<OCILobLocator>,
    piece: u8,
    offset: Option<usize>,
    len: usize,
    stage: u8,
}

impl ClobWriteFlow {
    pub closed spec fn stage(&self) -> u8 { self.stage }
    pub closed spec fn svc(&self) -> usize { self.svc.addr() }
    pub closed spec fn err(&self) -> usize { self.err.addr() }
    pub closed spec fn loc(&self) -> usize { self.loc.addr() }
    pub closed spec fn piece(&self) -> u8 { self.piece }
    pub closed spec fn offset(&self) -> Option<usize> { self.offset }
    pub closed spec fn len(&self) -> usize { self.len }
    pub closed spec fn at_stage(self, stage: u8) -> Self { ClobWriteFlow { stage, ..self } }

    /// The write, once the character set form is known.
    pub open spec fn write_with(&self, cs_form: u8) -> OciCall {
        match self.offset() {
            Some(offset) => lob_write_call(self.svc(), self.err(), self.loc(), self.piece(), offset, cs_form, self.len()),
            None => lob_append_call(self.svc(), self.err(), self.loc(), self.piece(), cs_form, self.len()),
        }
    }

    /// Takes OCI's answer to the last call; the write's answer gives the number of
    /// characters written.
    pub fn resume(&mut self, reply: &Reply) -> (r: Step<usize>)
        requires
            old(self).stage() < 2,
            old(self).offset() matches Some(o) ==> o < usize::MAX,
        ensures
            reply.status < 0 ==> r == Step::<usize>::Fail(Diag { handle: old(self).err(), htype: OCI_HTYPE_ERROR, rc: reply.status })
                && *final(self) == *old(self),
            old(self).stage() == 0 && reply.status >= 0 ==>
                r == Step::<usize>::Call(old(self).write_with(form_of(reply.value).code()))
                && *final(self) == old(self).at_stage(1),
            old(self).stage() == 1 && reply.status >= 0 ==>
                r == Step::<usize>::Done(Ok(counts_of(reply.value).1))
                && final(self).stage() == 2,
    {
        if reply.status < 0 {
            return Step::Fail(Diag::oci(self.err.get(), reply.status));
        }
        if self.stage == 0 {
            let cs_form = reply_form(&reply.value).as_code();
            let len = self.len;
            let byte_cnt: u64 = if self.piece == OCI_ONE_PIECE { len as u64 } else { 0 };
            let call = match self.offset {
                Some(offset) => calls::lob_write(
                    self.svc, self.err, self.loc, byte_cnt, 0, (offset + 1) as u64, len as u64, self.piece, AL32UTF8, cs_form,
                ),
                None => calls::lob_write_append(
                    self.svc, self.err, self.loc, byte_cnt, 0, len as u64, self.piece, AL32UTF8, cs_form,
                ),
            };
            self.stage = 1;
            Step::Call(call)
        } else {
            self.stage = 2;
            let (_, chars) = reply_counts(&reply.value);
            Step::Done(Ok(chars))
        }
    }
}

/// A read from a character LOB: the LOB's character set form is asked first, then a
/// piece is read in that form.
pub struct ClobReadFlow {
    svc: Ptr<OCISvcCtx>,
    err: Ptr<OCIError>,
    loc: Ptr<OCILobLocator>,
    piece: u8,
    piece_size: usize,
    offset: usize,
    byte_len: usize,
    char_len: usize,
    stage: u8,
}

impl ClobReadFlow {
    pub closed spec fn stage(&self) -> u8 { self.stage }
    pub closed spec fn err(&self) -> usize { self.err.addr() }
    pub closed spec fn offset(&self) -> usize { self.offset }
    pub closed spec fn at_stage(self, stage: u8) -> Self { ClobReadFlow { stage, ..self } }

    /// The read, once the character set form is known.
    pub closed spec fn read_with(&self, cs_form: u8) -> OciCall {
        lob_read_call(self.svc.addr(), self.err.addr(), self.loc.addr(), self.piece, self.piece_size, self.offset, self.byte_len, self.char_len, cs_form)
    }

    /// Takes OCI's answer to the last call; the read's answer appends the text read to
    /// `buf` and gives whether OCI has more, and the number of characters read.
    pub fn resume(&mut self, reply: &Reply, buf: &mut String) -> (r: Step<(bool, usize)>)
        requires
            old(self).stage() < 2,
            old(self).offset() < usize::MAX,
        ensures
            reply.status < 0 ==> r == Step::<(bool, usize)>::Fail(Diag { handle: old(self).err(), htype: OCI_HTYPE_ERROR, rc: reply.status })
                && *final(self) == *old(self) && final(buf)@ == old(buf)@,
            old(self).stage() == 0 && reply.status >= 0 ==>
                r == Step::<(bool, usize)>::Call(old(self).read_with(form_of(reply.value).code()))
                && *final(self) == old(self).at_stage(1) && final(buf)@ == old(buf)@,
            old(self).stage() == 1 && reply.status >= 0 ==> final(self).stage() == 2 && ({
                &&& reply.value matches OciValue::TextPiece(text, chars) ==> final(buf)@ == old(buf)@ + text@
                    && r == Step::<(bool, usize)>::Done(Ok((reply.status == OCI_NEED_DATA, chars as usize)))
                &&& !(reply.value is TextPiece) ==> final(buf)@ == old(buf)@
                    && r == Step::<(bool, usize)>::Done(Ok((reply.status == OCI_NEED_DATA, 0usize)))
            }),
    {
        if reply.status < 0 {
            return Step::Fail(Diag::oci(self.err.get(), reply.status));
        }
        if self.stage == 0 {
            let cs_form = reply_form(&reply.value).as_code();
            let call = calls::lob_read(
                self.svc, self.err, self.loc, self.byte_len as u64, self.char_len as u64,
                (self.offset + 1) as u64, self.piece_size as u64, self.piece, AL32UTF8, cs_form,
            );
            self.stage = 1;
            Step::Call(call)
        } else {
            self.stage = 2;
            let (more, _, chars) = text_piece_read(reply, buf);
            Step::Done(Ok((more, chars)))
        }
    }
}

impl LOB<OCICLobLocator> {
    fn write_flow(&self, piece: u8, offset: Option<usize>, len: usize) -> (r: (ClobWriteFlow, OciCall))
        ensures
            r.0.stage() == 0,
            r.0.svc() == self.svc_addr() && r.0.err() == self.err_addr() && r.0.loc() == self.loc(),
            r.0.piece() == piece && r.0.offset() == offset && r.0.len() == len,
            r.1 == (OciCall::LobCharSetForm { env: self.env_addr(), err: self.err_addr(), loc: self.loc() }),
    {
        (
            ClobWriteFlow { svc: self.inner.svc.svc, err: self.inner.svc.err, loc: self.inner.locator, piece, offset, len, stage: 0 },
            self.charset_form(),
        )
    }

    /// Writes the text into the CLOB at `offset` (in characters); the flow's result is the
    /// number of characters written.
    pub fn write(&self, offset: usize, text: &str) -> (r: (ClobWriteFlow, OciCall))
        ensures
            r.0.stage() == 0,
            r.0.svc() == self.svc_addr() && r.0.err() == self.err_addr() && r.0.loc() == self.loc(),
            r.0.piece() == OCI_ONE_PIECE && r.0.offset() == Some(offset) && r.0.len() == text.spec_bytes().len() as usize,
            r.1 == (OciCall::LobCharSetForm { env: self.env_addr(), err: self.err_addr(), loc: self.loc() }),
    {
        self.write_flow(OCI_ONE_PIECE, Some(offset), text.len())
    }

    /// Starts a piecewise write of the CLOB at `offset` with its first piece.
    pub fn write_first(&self, offset: usize, text: &str) -> (r: (ClobWriteFlow, OciCall))
        ensures
            r.0.stage() == 0,
            r.0.svc() == self.svc_addr() && r.0.err() == self.err_addr() && r.0.loc() == self.loc(),
            r.0.piece() == OCI_FIRST_PIECE && r.0.offset() == Some(offset) && r.0.len() == text.spec_bytes().len() as usize,
            r.1 == (OciCall::LobCharSetForm { env: self.env_addr(), err: self.err_addr(), loc: self.loc() }),
    {
        self.write_flow(OCI_FIRST_PIECE, Some(offset), text.len())
    }

    /// Writes the next piece of a piecewise write (the answer holds the counts).
    pub fn write_next(&self, text: &str) -> (r: OciCall)
        ensures
            r == self.write_call(OCI_NEXT_PIECE, 0, 0, text.spec_bytes().len() as usize),
    {
        self.write_piece(OCI_NEXT_PIECE, 0, 0, text.as_bytes())
    }

    /// Writes the last piece of a piecewise write.
    pub fn write_last(&self, text: &str) -> (r: OciCall)
        ensures
            r == self.write_call(OCI_LAST_PIECE, 0, 0, text.spec_bytes().len() as usize),
    {
        self.write_piece(OCI_LAST_PIECE, 0, 0, text.as_bytes())
    }

    /// Appends the text at the end of the CLOB; the flow's result is the number of
    /// characters written.
    pub fn append(&self, text: &str) -> (r: (ClobWriteFlow, OciCall))
        ensures
            r.0.stage() == 0,
            r.0.svc() == self.svc_addr() && r.0.err() == self.err_addr() && r.0.loc() == self.loc(),
            r.0.piece() == OCI_ONE_PIECE && r.0.offset() is None && r.0.len() == text.spec_bytes().len() as usize,
            r.1 == (OciCall::LobCharSetForm { env: self.env_addr(), err: self.err_addr(), loc: self.loc() }),
    {
        self.write_flow(OCI_ONE_PIECE, None, text.len())
    }

    /// Starts a piecewise append with its first piece.
    pub fn append_first(&self, text: &str) -> (r: (ClobWriteFlow, OciCall))
        ensures
            r.0.stage() == 0,
            r.0.svc() == self.svc_addr() && r.0.err() == self.err_addr() && r.0.loc() == self.loc(),
            r.0.piece() == OCI_FIRST_PIECE && r.0.offset() is None && r.0.len() == text.spec_bytes().len() as usize,
            r.1 == (OciCall::LobCharSetForm { env: self.env_addr(), err: self.err_addr(), loc: self.loc() }),
    {
        self.write_flow(OCI_FIRST_PIECE, None, text.len())
    }

    /// Appends the next piece of a piecewise append.
    pub fn append_next(&self, text: &str) -> (r: OciCall)
        ensures
            r == self.append_call(OCI_NEXT_PIECE, 0, text.spec_bytes().len() as usize),
    {
        self.append_piece(OCI_NEXT_PIECE, 0, text.as_bytes())
    }

    /// Appends the last piece of a piecewise append.
    pub fn append_last(&self, text: &str) -> (r: OciCall)
        ensures
            r == self.append_call(OCI_LAST_PIECE, 0, text.spec_bytes().len() as usize),
    {
        self.append_piece(OCI_LAST_PIECE, 0, text.as_bytes())
    }

    fn read_flow(&self, piece: u8, piece_size: usize, offset: usize, byte_len: usize, char_len: usize) -> (r: ClobReadFlow)
        requires
            offset < usize::MAX,
        ensures
            r.stage() == 0,
            r.err() == self.err_addr(),
            r.offset() == offset,
            forall|f: u8| #[trigger] r.read_with(f) == self.read_call(piece, piece_size, offset, byte_len, char_len, f),
    {
        ClobReadFlow {
            svc: self.inner.svc.svc, err: self.inner.svc.err, loc: self.inner.locator,
            piece, piece_size, offset, byte_len, char_len, stage: 0,
        }
    }

    /// Reads `len` characters of the CLOB from `offset` into `buf`: nothing is asked when
    /// `len` is zero; otherwise the character set form is asked, then one piece of up to
    /// four bytes a character is read. The flow's result is (more to read, characters read).
    pub fn read(&self, offset: usize, len: usize) -> (r: (ClobReadFlow, Step<(bool, usize)>))
        requires
            offset < usize::MAX,
            len * 4 <= usize::MAX,
        ensures
            len == 0 ==> r.1 == Step::<(bool, usize)>::Done(Ok((false, 0usize))),
            len != 0 ==> r.1 == Step::<(bool, usize)>::Call(OciCall::LobCharSetForm { env: self.env_addr(), err: self.err_addr(), loc: self.loc() }),
            r.0.stage() == 0,
            r.0.err() == self.err_addr(),
            r.0.offset() == offset,
            forall|f: u8| #[trigger] r.0.read_with(f) == self.read_call(OCI_ONE_PIECE, (len * 4) as usize, offset, (len * 4) as usize, len, f),
    {
        let bytes_needed = len * 4;
        let flow = self.read_flow(OCI_ONE_PIECE, bytes_needed, offset, bytes_needed, len);
        if len == 0 {
            (flow, Step::Done(Ok((false, 0))))
        } else {
            (flow, Step::Call(self.charset_form()))
        }
    }

    /// Starts a piecewise read of `len` characters from `offset`, in pieces of
    /// `piece_size` characters.
    pub fn read_first(&self, piece_size: usize, offset: usize, len: usize) -> (r: (ClobReadFlow, OciCall))
        requires
            offset < usize::MAX,
            len * 4 <= usize::MAX,
            piece_size * 4 <= usize::MAX,
        ensures
            r.1 == (OciCall::LobCharSetForm { env: self.env_addr(), err: self.err_addr(), loc: self.loc() }),
            r.0.stage() == 0,
            r.0.err() == self.err_addr(),
            r.0.offset() == offset,
            forall|f: u8| #[trigger] r.0.read_with(f) == self.read_call(OCI_FIRST_PIECE, (piece_size * 4) as usize, offset, (len * 4) as usize, len, f),
    {
        (self.read_flow(OCI_FIRST_PIECE, piece_size * 4, offset, len * 4, len), self.charset_form())
    }

    /// Reads the next piece of a piecewise read (its answer goes to `text_piece_read`).
    pub fn read_next(&self, piece_size: usize) -> (r: OciCall)
        requires
            piece_size * 4 <= usize::MAX,
        ensures
            r == self.read_call(OCI_NEXT_PIECE, (piece_size * 4) as usize, 0, 0, 0, 0),
    {
        self.read_piece(OCI_NEXT_PIECE, piece_size * 4, 0, 0, 0, 0)
    }
}

impl LOB<OCIBLobLocator> {
    /// Writes `data` into the BLOB at `offset` (the answer holds the counts; the result is
    /// the number of bytes written).
    pub fn write(&self, offset: usize, data: &[u8]) -> (r: OciCall)
        requires
            offset < usize::MAX,
        ensures
            r == self.write_call(OCI_ONE_PIECE, offset, 0, data@.len() as usize),
    {
        self.write_piece(OCI_ONE_PIECE, offset, 0, data)
    }

    /// Starts a piecewise write of the BLOB at `offset` with its first piece.
    pub fn write_first(&self, offset: usize, data: &[u8]) -> (r: OciCall)
        requires
            offset < usize::MAX,
        ensures
            r == self.write_call(OCI_FIRST_PIECE, offset, 0, data@.len() as usize),
    {
        self.write_piece(OCI_FIRST_PIECE, offset, 0, data)
    }

    /// Writes the next piece of a piecewise write.
    pub fn write_next(&self, data: &[u8]) -> (r: OciCall)
        ensures
            r == self.write_call(OCI_NEXT_PIECE, 0, 0, data@.len() as usize),
    {
        self.write_piece(OCI_NEXT_PIECE, 0, 0, data)
    }

    /// Writes the last piece of a piecewise write.
    pub fn write_last(&self, data: &[u8]) -> (r: OciCall)
        ensures
            r == self.write_call(OCI_LAST_PIECE, 0, 0, data@.len() as usize),
    {
        self.write_piece(OCI_LAST_PIECE, 0, 0, data)
    }

    /// Appends `data` at the end of the BLOB.
    pub fn append(&self, data: &[u8]) -> (r: OciCall)
        ensures
            r == self.append_call(OCI_ONE_PIECE, 0, data@.len() as usize),
    {
        self.append_piece(OCI_ONE_PIECE, 0, data)
    }

    /// Starts a piecewise append with its first piece.
    pub fn append_first(&self, data: &[u8]) -> (r: OciCall)
        ensures
            r == self.append_call(OCI_FIRST_PIECE, 0, data@.len() as usize),
    {
        self.append_piece(OCI_FIRST_PIECE, 0, data)
    }

    /// Appends the next piece of a piecewise append.
    pub fn append_next(&self, data: &[u8]) -> (r: OciCall)
        ensures
            r == self.append_call(OCI_NEXT_PIECE, 0, data@.len() as usize),
    {
        self.append_piece(OCI_NEXT_PIECE, 0, data)
    }

    /// Appends the last piece of a piecewise append.
    pub fn append_last(&self, data: &[u8]) -> (r: OciCall)
        ensures
            r == self.append_call(OCI_LAST_PIECE, 0, data@.len() as usize),
    {
        self.append_piece(OCI_LAST_PIECE, 0, data)
    }

    /// Reads `len` bytes of the BLOB from `offset` (the answer goes to `piece_read`);
    /// nothing is asked when `len` is zero.
    pub fn read(&self, offset: usize, len: usize) -> (r: Option<OciCall>)
        requires
            offset < usize::MAX,
        ensures
            len == 0 ==> r is None,
            len != 0 ==> r == Some(self.read_call(OCI_ONE_PIECE, len, offset, len, 0, 0)),
    {
        if len == 0 {
            None
        } else {
            Some(self.read_piece(OCI_ONE_PIECE, len, offset, len, 0, 0))
        }
    }

    /// Starts a piecewise read of `len` bytes from `offset` in pieces of `piece_size` bytes.
    pub fn read_first(&self, piece_size: usize, offset: usize, len: usize) -> (r: OciCall)
        requires
            offset < usize::MAX,
        ensures
            r == self.read_call(OCI_FIRST_PIECE, piece_size, offset, len, 0, 0),
    {
        self.read_piece(OCI_FIRST_PIECE, piece_size, offset, len, 0, 0)
    }

    /// Reads the next piece of a piecewise read.
    pub fn read_next(&self, piece_size: usize) -> (r: OciCall)
        ensures
            r == self.read_call(OCI_NEXT_PIECE, piece_size, 0, 0, 0, 0),
    {
        self.read_piece(OCI_NEXT_PIECE, piece_size, 0, 0, 0, 0)
    }
}

impl LOB<OCIBFileLocator> {
    /// Closes a previously opened BFILE (its answer goes to `closed`).
    pub fn close_file(&self) -> (r: OciCall)
        ensures
            r == (OciCall::LobFileClose { svc: self.svc_addr(), err: self.err_addr(), loc: self.loc() }),
    {
        calls::lob_file_close(self.inner.svc.svc, self.inner.svc.err, self.inner.locator)
    }

    /// Tests whether the file exists on the server's file system: the answer is a flag.
    pub fn file_exists(&self) -> (r: OciCall)
        ensures
            r == (OciCall::LobFileExists { svc: self.svc_addr(), err: self.err_addr(), loc: self.loc() }),
    {
        calls::lob_file_exists(self.inner.svc.svc, self.inner.svc.err, self.inner.locator)
    }

    /// Tests whether the BFILE was opened with this locator: the answer is a flag.
    pub fn is_file_open(&self) -> (r: OciCall)
        ensures
            r == (OciCall::LobFileIsOpen { svc: self.svc_addr(), err: self.err_addr(), loc: self.loc() }),
    {
        calls::lob_file_is_open(self.inner.svc.svc, self.inner.svc.err, self.inner.locator)
    }

    /// Opens the BFILE read-only (its answer goes to `opened`).
    pub fn open_file(&self) -> (r: OciCall)
        ensures
            r == (OciCall::LobFileOpen { svc: self.svc_addr(), err: self.err_addr(), loc: self.loc(), mode: OCI_FILE_READONLY }),
    {
        calls::lob_file_open(self.inner.svc.svc, self.inner.svc.err, self.inner.locator, OCI_FILE_READONLY)
    }

    /// Reads `len` bytes of the file from `offset` (the answer goes to `piece_read`).
    pub fn read(&self, offset: usize, len: usize) -> (r: OciCall)
        requires
            offset < usize::MAX,
        ensures
            r == self.read_call(OCI_ONE_PIECE, len, offset, len, 0, 0),
    {
        self.read_piece(OCI_ONE_PIECE, len, offset, len, 0, 0)
    }

    /// Starts a piecewise read of `len` bytes from `offset` in pieces of `piece_size` bytes.
    pub fn read_first(&self, piece_size: usize, offset: usize, len: usize) -> (r: OciCall)
        requires
            offset < usize::MAX,
        ensures
            r == self.read_call(OCI_FIRST_PIECE, piece_size, offset, len, 0, 0),
    {
        self.read_piece(OCI_FIRST_PIECE, piece_size, offset, len, 0, 0)
    }

    /// Reads the next piece of a piecewise read.
    pub fn read_next(&self, piece_size: usize) -> (r: OciCall)
        ensures
            r == self.read_call(OCI_NEXT_PIECE, piece_size, 0, 0, 0, 0),
    {
        self.read_piece(OCI_NEXT_PIECE, piece_size, 0, 0, 0, 0)
    }
}

impl<T: DescriptorType> LOB<T> {
    /// Changing the flags or the cached chunk size of a LOB changes nothing else.
    pub proof fn lemma_updates(self, flags: u32, size: u32)
        ensures
            self.with_flags(flags).flags() == flags,
            self.with_flags(flags).loc() == self.loc(),
            self.with_flags(flags).inner().ctx() == self.inner().ctx(),
            self.with_flags(flags).inner().descriptor_free() == self.inner().descriptor_free(),
            self.with_flags(flags).cached_chunk_size() == self.cached_chunk_size(),
            self.with_chunk_size(size).cached_chunk_size() == size,
            self.with_chunk_size(size).flags() == self.flags(),
            self.with_chunk_size(size).loc() == self.loc(),
            self.with_chunk_size(size).inner().ctx() == self.inner().ctx(),
    {
    }
}

/// A LOB over a column's descriptor leaves the descriptor to the column: dropping the LOB
/// does not free it.
pub proof fn lemma_column_lob_keeps_descriptor<T: DescriptorType>(lob: LOB<T>)
    requires
        !lob.inner().owns_descriptor(),
    ensures
        lob.inner().descriptor_free() is None,
{
}

/// Once OCI has told a LOB its chunk size (a non-zero one), asking again gives that size
/// without another call to OCI.
pub proof fn lemma_chunk_size_is_cached<T: DescriptorType + InternalLob>(lob: LOB<T>, size: u32)
    requires
        size != 0,
    ensures
        lob.with_chunk_size(size).chunk_size_step() == Step::<usize>::Done(Ok(size as usize)),
{
}

/// A LOB that was opened (and not closed since) is closed when it is dropped, before
/// anything else is done to it.
pub proof fn lemma_open_lob_is_closed_on_drop(flags: u32, svc: usize, err: usize, loc: usize)
    ensures
        release_calls(flags | LOB_IS_OPEN, svc, err, loc)[0] == (OciCall::LobClose { svc, err, loc }),
{
    assert((flags | 2u32) & 2u32 != 0) by (bit_vector);
}

/// A LOB that was closed is not closed again when it is dropped, unless it is a file
/// opened as such.
pub proof fn lemma_closed_lob_is_not_closed_again(flags: u32, svc: usize, err: usize, loc: usize)
    requires
        flags & LOB_FILE_IS_OPEN == 0,
    ensures
        !release_calls(flags & !LOB_IS_OPEN, svc, err, loc).contains(OciCall::LobClose { svc, err, loc }),
        !release_calls(flags & !LOB_IS_OPEN, svc, err, loc).contains(OciCall::LobFileClose { svc, err, loc }),
{
    assert((flags & !2u32) & 2u32 == 0) by (bit_vector);
    assert(flags & 4u32 == 0 ==> (flags & !2u32) & 4u32 == 0) by (bit_vector);
    let s = release_calls(flags & !LOB_IS_OPEN, svc, err, loc);
    if (flags & !LOB_IS_OPEN) & LOB_IS_TEMP != 0 {
        assert(s == seq![OciCall::LobFreeTemporary { svc, err, loc }]);
    } else {
        assert(s == Seq::<OciCall>::empty());
    }
}

/// Opening and closing leave a LOB's temporariness as it was.
pub proof fn lemma_open_close_keep_temp(flags: u32)
    ensures
        (flags | LOB_IS_OPEN) & LOB_IS_TEMP == flags & LOB_IS_TEMP,
        (flags & !LOB_IS_OPEN) & LOB_IS_TEMP == flags & LOB_IS_TEMP,
{
    assert((flags | 2u32) & 1u32 == flags & 1u32) by (bit_vector);
    assert((flags & !2u32) & 1u32 == flags & 1u32) by (bit_vector);
}

/// A LOB known to be temporary is freed when it is dropped: the free is the last of the
/// calls that the drop makes before it looks at any answer.
pub proof fn lemma_temp_lob_is_freed_on_drop(flags: u32, svc: usize, err: usize, loc: usize)
    requires
        flags & LOB_IS_TEMP != 0,
    ensures
        release_calls(flags, svc, err, loc).last() == (OciCall::LobFreeTemporary { svc, err, loc }),
{
}

/// The most of a LOB's content that its description shows.
pub const CONTENT_HEAD_MAX_LEN: usize = 50;

/// How much of a LOB of `len` characters or bytes its description reads.
pub fn content_head_len(len: usize) -> (r: usize)
    ensures
        r == if len < CONTENT_HEAD_MAX_LEN { len } else { CONTENT_HEAD_MAX_LEN },
{
    if len < CONTENT_HEAD_MAX_LEN { len } else { CONTENT_HEAD_MAX_LEN }
}

/// The description of a CLOB's content of which `read` characters were read: marked as
/// cut off when the whole head was read.
pub fn content_head(text: String, read: usize) -> (r: String)
    ensures
        read == CONTENT_HEAD_MAX_LEN ==> r@ == text@ + seq!['.', '.', '.'],
        read != CONTENT_HEAD_MAX_LEN ==> r@ == text@,
{
    let mut r = text;
    if read == CONTENT_HEAD_MAX_LEN {
        proof { reveal_strlit("..."); }
        r.append("...");
    }
    r
}

/// The most that one step of a chunked read asks the server for.
pub const LOB_READ_CHUNK: usize = 32767;

/// The code of Oracle's "no data found" error.
pub const NO_DATA_FOUND: i32 = 1403;

/// The PL/SQL block that reads a chunk of a LOB on the server: it takes the locator, the
/// amount to read (and hands back the amount read), the position (from 1) and the buffer.
pub open spec fn dbms_lob_read_sql() -> Seq<char> {
    seq!['B', 'E', 'G', 'I', 'N', ' ', 'D', 'B', 'M', 'S', '_', 'L', 'O', 'B', '.', 'R', 'E', 'A', 'D',
        '(', ':', 'L', 'O', 'C', ',', ' ', ':', 'A', 'M', 'T', ',', ' ', ':', 'P', 'O', 'S', ',', ' ',
        ':', 'D', 'A', 'T', 'A', ')', ';', ' ', 'E', 'N', 'D', ';']
}

pub fn dbms_lob_read() -> (r: &'static str)
    ensures
        r@ == dbms_lob_read_sql(),
{
    let sql = "BEGIN DBMS_LOB.READ(:LOC, :AMT, :POS, :DATA); END;";
    proof { reveal_strlit("BEGIN DBMS_LOB.READ(:LOC, :AMT, :POS, :DATA); END;"); }
    sql
}

/// The PL/SQL block that asks the server whether a LOB is temporary.
pub open spec fn dbms_lob_istemporary_sql() -> Seq<char> {
    seq!['B', 'E', 'G', 'I', 'N', ' ', ':', 'R', 'E', 'S', ' ', ':', '=', ' ', 'D', 'B', 'M', 'S', '_',
        'L', 'O', 'B', '.', 'I', 'S', 'T', 'E', 'M', 'P', 'O', 'R', 'A', 'R', 'Y', '(', ':', 'L', 'O',
        'C', ')', ';', ' ', 'E', 'N', 'D', ';']
}

pub fn dbms_lob_istemporary() -> (r: &'static str)
    ensures
        r@ == dbms_lob_istemporary_sql(),
{
    let sql = "BEGIN :RES := DBMS_LOB.ISTEMPORARY(:LOC); END;";
    proof { reveal_strlit("BEGIN :RES := DBMS_LOB.ISTEMPORARY(:LOC); END;"); }
    sql
}

/// Reading a LOB on the server in chunks (nonblocking mode): each step executes the
/// `dbms_lob_read` block for the next chunk, until the whole amount is read or the server
/// has no more data.
pub struct ChunkedRead {
    start: usize,
    pos: usize,
    remainder: usize,
}

impl ChunkedRead {
    /// The position (from 1) the read started at.
    pub closed spec fn start(&self) -> usize { self.start }
    /// The position (from 1) of the next chunk.
    pub closed spec fn pos(&self) -> usize { self.pos }
    /// How much is still to be read.
    pub closed spec fn remainder(&self) -> usize { self.remainder }
    /// How much has been read so far.
    pub open spec fn read_so_far(&self) -> int { self.pos() - self.start() }

    /// Starts a read of `len` characters (CLOB) or bytes (BLOB) from `offset` (from 0).
    pub fn new(offset: usize, len: usize) -> (r: ChunkedRead)
        requires
            offset < usize::MAX,
        ensures
            r.start() == offset + 1,
            r.pos() == offset + 1,
            r.remainder() == len,
            r.read_so_far() == 0,
    {
        ChunkedRead { start: offset + 1, pos: offset + 1, remainder: len }
    }

    /// The next chunk to ask for, as (amount, position), or `None` when all is read.
    pub fn next(&self) -> (r: Option<(usize, usize)>)
        ensures
            self.remainder() == 0 ==> r is None,
            self.remainder() > 0 ==> r == Some((
                if self.remainder() < LOB_READ_CHUNK { self.remainder() } else { LOB_READ_CHUNK },
                self.pos(),
            )),
    {
        if self.remainder == 0 {
            None
        } else if self.remainder < LOB_READ_CHUNK {
            Some((self.remainder, self.pos))
        } else {
            Some((LOB_READ_CHUNK, self.pos))
        }
    }

    /// The result once the read stops: the amount read.
    pub fn result(&self) -> (r: usize)
        requires
            self.pos() >= self.start(),
        ensures
            r == self.read_so_far(),
    {
        self.pos - self.start
    }

    /// Takes the outcome of a step: the number of rows the block reported and the amount
    /// that the server read. A step that reported no rows, or that failed with "no data
    /// found", ends the read with the amount read so far; any other failure ends it with
    /// that error; otherwise the read moves past the amount read. Returns `None` while the
    /// read goes on.
    pub fn answered(&mut self, outcome: Result<usize, Error>, amount: usize) -> (r: Option<Result<usize, Error>>)
        requires
            old(self).pos() >= old(self).start(),
            (outcome matches Ok(rows) && rows != 0) ==> amount <= old(self).remainder() && old(self).pos() + amount <= usize::MAX,
        ensures
            final(self).pos() >= final(self).start(),
            final(self).start() == old(self).start(),
            outcome matches Ok(rows) && rows == 0 ==> r == Some(Ok::<usize, Error>(old(self).read_so_far() as usize)) && *final(self) == *old(self),
            outcome matches Ok(rows) && rows != 0 ==> r is None
                && final(self).pos() == old(self).pos() + amount && final(self).remainder() == old(self).remainder() - amount
                && final(self).read_so_far() == old(self).read_so_far() + amount,
            outcome matches Err(Error::Oracle(code, _)) && code == NO_DATA_FOUND ==>
                r == Some(Ok::<usize, Error>(old(self).read_so_far() as usize)) && *final(self) == *old(self),
            outcome is Err && !(outcome matches Err(Error::Oracle(code, _)) && code == NO_DATA_FOUND) ==>
                r == Some(outcome) && *final(self) == *old(self),
    {
        match outcome {
            Ok(rows) => {
                if rows == 0 {
                    Some(Ok(self.pos - self.start))
                } else {
                    self.pos = self.pos + amount;
                    self.remainder = self.remainder - amount;
                    None
                }
            },
            Err(Error::Oracle(code, msg)) => {
                if code == NO_DATA_FOUND {
                    Some(Ok(self.pos - self.start))
                } else {
                    Some(Err(Error::Oracle(code, msg)))
                }
            },
            Err(e) => Some(Err(e)),
        }
    }
}

impl ChunkedRead {
    /// Takes the outcome of a step of a CLOB read together with the text the step read:
    /// as `answered`, and the text is appended to `out` when the read moves on past it.
    pub fn answered_text(&mut self, outcome: Result<usize, Error>, amount: usize, chunk: &str, out: &mut String) -> (r: Option<Result<usize, Error>>)
        requires
            old(self).pos() >= old(self).start(),
            (outcome matches Ok(rows) && rows != 0) ==> amount <= old(self).remainder() && old(self).pos() + amount <= usize::MAX,
        ensures
            final(self).pos() >= final(self).start(),
            final(self).start() == old(self).start(),
            outcome matches Ok(rows) && rows != 0 ==> r is None
                && final(self).pos() == old(self).pos() + amount && final(self).remainder() == old(self).remainder() - amount
                && final(out)@ == old(out)@ + chunk@,
            !(outcome matches Ok(rows) && rows != 0) ==> r is Some && *final(self) == *old(self) && final(out)@ == old(out)@,
            outcome matches Ok(rows) && rows == 0 ==> r == Some(Ok::<usize, Error>(old(self).read_so_far() as usize)),
            outcome matches Err(Error::Oracle(code, _)) && code == NO_DATA_FOUND ==>
                r == Some(Ok::<usize, Error>(old(self).read_so_far() as usize)),
            outcome is Err && !(outcome matches Err(Error::Oracle(code, _)) && code == NO_DATA_FOUND) ==> r == Some(outcome),
    {
        let r = self.answered(outcome, amount);
        if r.is_none() {
            out.append(chunk);
        }
        r
    }

    /// Takes the outcome of a step of a BLOB read together with the bytes the step read:
    /// as `answered`, and the bytes are appended to `out` when the read moves on past them.
    pub fn answered_bytes(&mut self, outcome: Result<usize, Error>, amount: usize, chunk: &[u8], out: &mut Vec<u8>) -> (r: Option<Result<usize, Error>>)
        requires
            old(self).pos() >= old(self).start(),
            (outcome matches Ok(rows) && rows != 0) ==> amount <= old(self).remainder() && old(self).pos() + amount <= usize::MAX,
        ensures
            final(self).pos() >= final(self).start(),
            final(self).start() == old(self).start(),
            outcome matches Ok(rows) && rows != 0 ==> r is None
                && final(self).pos() == old(self).pos() + amount && final(self).remainder() == old(self).remainder() - amount
                && final(out)@ == old(out)@ + chunk@,
            !(outcome matches Ok(rows) && rows != 0) ==> r is Some && *final(self) == *old(self) && final(out)@ == old(out)@,
            outcome matches Ok(rows) && rows == 0 ==> r == Some(Ok::<usize, Error>(old(self).read_so_far() as usize)),
            outcome matches Err(Error::Oracle(code, _)) && code == NO_DATA_FOUND ==>
                r == Some(Ok::<usize, Error>(old(self).read_so_far() as usize)),
            outcome is Err && !(outcome matches Err(Error::Oracle(code, _)) && code == NO_DATA_FOUND) ==> r == Some(outcome),
    {
        let r = self.answered(outcome, amount);
        if r.is_none() {
            let n = chunk.len();
            let mut i: usize = 0;
            while i < n
                invariant
                    n == chunk@.len(),
                    i <= n,
                    out@ == old(out)@ + chunk@.subrange(0, i as int),
                decreases n - i,
            {
                out.push(chunk[i]);
                proof {
                    assert(chunk@.subrange(0, (i + 1) as int) == chunk@.subrange(0, i as int).push(chunk@[i as int]));
                }
                i = i + 1;
            }
            proof { assert(chunk@.subrange(0, n as int) == chunk@); }
        }
        r
    }
}

/// A chunked read never asks for more than a chunk, nor for more than is left.
pub proof fn lemma_chunks_are_bounded(read: ChunkedRead)
    requires
        read.remainder() > 0,
    ensures
        ({
            let amount = if read.remainder() < LOB_READ_CHUNK { read.remainder() } else { LOB_READ_CHUNK };
            0 < amount <= LOB_READ_CHUNK && amount <= read.remainder()
        }),
{
}

impl<T: DescriptorType> LOB<T> {
    /// Records OCI's answer to a file open in nonblocking mode: a file that opened is open
    /// as a file. Returns whether it opened.
    pub fn file_opened(&mut self, status: i32) -> (r: bool)
        ensures
            r == (status >= 0),
            r ==> *final(self) == old(self).with_flags(old(self).flags() | LOB_FILE_IS_OPEN),
            !r ==> *final(self) == *old(self),
    {
        if status >= 0 {
            self.inner.status_flags = self.inner.status_flags | LOB_FILE_IS_OPEN;
            true
        } else {
            false
        }
    }

    /// Records OCI's answer to a file close in nonblocking mode.
    pub fn file_closed(&mut self, status: i32) -> (r: bool)
        ensures
            r == (status >= 0),
            r ==> *final(self) == old(self).with_flags(old(self).flags() & !LOB_FILE_IS_OPEN),
            !r ==> *final(self) == *old(self),
    {
        if status >= 0 {
            self.inner.status_flags = self.inner.status_flags & !LOB_FILE_IS_OPEN;
            true
        } else {
            false
        }
    }

    /// Records what the server said of the LOB's temporariness (nonblocking mode): the LOB
    /// is then known to be temporary, or known not to be.
    pub fn temp_checked(&mut self, is_temp: bool)
        ensures
            is_temp ==> *final(self) == old(self).with_flags(old(self).flags() | LOB_IS_TEMP),
            !is_temp ==> *final(self) == old(self).with_flags(old(self).flags() & !LOB_IS_TEMP),
    {
        if is_temp {
            self.inner.status_flags = self.inner.status_flags | LOB_IS_TEMP;
        } else {
            self.inner.status_flags = self.inner.status_flags & !LOB_IS_TEMP;
        }
    }
}

} // verus!
