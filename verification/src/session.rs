//! User Session

use vstd::prelude::*;
use vstd::string::*;
use crate::err::{Diag, Error};
use crate::oci::ptr::Ptr;
use crate::oci::handle::{allocated_addr, null_handle_error, null_handle_message, reply_addr, Handle};
use crate::oci::call::{spec_failure, store_after, store_read, AttrKind, AttrStore, AttrValue, OciCall, OciValue, Reply, Step};
use crate::oci::{attr, calls};
use crate::oci::{
    OCI_NTV_SYNTAX,
    OCIAuthInfo, OCIEnv, OCIError, OCIServer, OCISession, OCISPool, OCISvcCtx, OCI_ATTR_ACTION,
    OCI_ATTR_CALL_TIME, OCI_ATTR_CALL_TIMEOUT, OCI_ATTR_CLIENT_IDENTIFIER, OCI_ATTR_CLIENT_INFO,
    OCI_ATTR_COLLECT_CALL_TIME, OCI_ATTR_CURRENT_SCHEMA, OCI_ATTR_DEFAULT_LOBPREFETCH_SIZE,
    OCI_ATTR_DRIVER_NAME, OCI_ATTR_MODULE, OCI_ATTR_NONBLOCKING_MODE, OCI_ATTR_PASSWORD,
    OCI_ATTR_SERVER, OCI_ATTR_SERVER_STATUS, OCI_ATTR_SESSION, OCI_ATTR_STMTCACHESIZE,
    OCI_ATTR_USERNAME, OCI_DEFAULT, OCI_HTYPE_AUTHINFO, OCI_HTYPE_ERROR, OCI_HTYPE_SERVER,
    OCI_HTYPE_SESSION, OCI_HTYPE_SVCCTX, OCI_SERVER_NORMAL, OCI_SESSGET_CPOOL,
    OCI_SESSGET_MULTIPROPERTY_TAG, OCI_SESSGET_PURITY_SELF, OCI_SESSGET_SPOOL,
    OCI_SESSGET_STMTCACHE,
};

verus! {

/// The name under which sessions identify their driver.
pub open spec fn driver_name() -> Seq<char> {
    seq!['s', 'i', 'b', 'y', 'l']
}

/// The handles behind a session.
pub struct SvcCtx {
    svc: Ptr<OCISvcCtx>,
    inf: Handle<OCIAuthInfo>,
    err: Handle<OCIError>,
    env: Ptr<OCIEnv>,
    spool: Option<Ptr<OCISPool>>,
    active_future: usize,
}

/// The calls that free a handle, if one is held.
pub open spec fn frees(addr: usize, htype: u32) -> Seq<OciCall> {
    if addr == 0 { seq![] } else { seq![OciCall::HandleFree { handle: addr, htype }] }
}

fn push_free(calls: &mut Vec<OciCall>, call: Option<OciCall>)
    ensures
        call is None ==> final(calls)@ == old(calls)@,
        call is Some ==> final(calls)@ == old(calls)@.push(call->0),
{
    match call {
        Some(c) => calls.push(c),
        None => {},
    }
}

/// What a claim of the context by the future `id` gives, when `active` holds it (0 when
/// none does): whether the claim succeeded, and who holds the context afterwards.
pub open spec fn claim(active: usize, id: usize) -> (bool, usize) {
    if active == 0 { (true, id) } else { (active == id, active) }
}

impl SvcCtx {
    pub closed spec fn svc_addr(&self) -> usize { self.svc.addr() }
    pub closed spec fn err_addr(&self) -> usize { self.err.addr() }
    pub closed spec fn inf_addr(&self) -> usize { self.inf.addr() }
    pub closed spec fn env_addr(&self) -> usize { self.env.addr() }
    pub closed spec fn active(&self) -> usize { self.active_future }
    /// The address of the session pool the session came from, if it came from one.
    pub closed spec fn spool_addr(&self) -> Option<usize> {
        match self.spool {
            Some(p) => Some(p.addr()),
            None => None,
        }
    }

    pub fn svc_ptr(&self) -> (r: Ptr<OCISvcCtx>)
        ensures r.addr() == self.svc_addr(),
    {
        self.svc
    }

    pub fn err_ptr(&self) -> (r: Ptr<OCIError>)
        ensures r.addr() == self.err_addr(),
    {
        self.err.get_ptr()
    }

    pub fn env_ptr(&self) -> (r: Ptr<OCIEnv>)
        ensures r.addr() == self.env_addr(),
    {
        self.env
    }

    /// What releasing the context does: roll back what is uncommitted, release the
    /// session, then free the authentication and error handles.
    pub fn release(&self) -> (r: Vec<OciCall>)
        ensures
            r@ == seq![
                OciCall::TransRollback { svc: self.svc_addr(), err: self.err_addr() },
                OciCall::SessionRelease { svc: self.svc_addr(), err: self.err_addr() },
            ] + frees(self.inf_addr(), OCI_HTYPE_AUTHINFO) + frees(self.err_addr(), OCI_HTYPE_ERROR),
    {
        let mut calls: Vec<OciCall> = Vec::new();
        calls.push(calls::oci_trans_rollback(self.svc, self.err.get_ptr()));
        calls.push(calls::oci_session_release(self.svc, self.err.get_ptr()));
        push_free(&mut calls, self.inf.free());
        push_free(&mut calls, self.err.free());
        calls
    }

    /// Claims the context for the future `id`: it succeeds when no future holds it or
    /// when `id` already does.
    pub fn lock(&mut self, id: usize) -> (r: bool)
        ensures
            (r, final(self).active()) == claim(old(self).active(), id),
            final(self).svc_addr() == old(self).svc_addr(),
            final(self).err_addr() == old(self).err_addr(),
    {
        if self.active_future == 0 {
            self.active_future = id;
            true
        } else {
            self.active_future == id
        }
    }

    /// Another holder of the same handles: the context is shared by its session and by
    /// the statements, LOBs and futures made from it; the last holder releases it.
    pub fn share(&self) -> (r: SvcCtx)
        ensures
            r.svc_addr() == self.svc_addr(),
            r.err_addr() == self.err_addr(),
            r.inf_addr() == self.inf_addr(),
            r.env_addr() == self.env_addr(),
            r.active() == self.active(),
    {
        SvcCtx {
            svc: self.svc,
            inf: Handle::from(self.inf.get_ptr()),
            err: Handle::from(self.err.get_ptr()),
            env: self.env,
            spool: self.spool,
            active_future: self.active_future,
        }
    }

    /// Lets other futures claim the context.
    pub fn unlock(&mut self)
        ensures
            final(self).active() == 0,
            final(self).svc_addr() == old(self).svc_addr(),
            final(self).err_addr() == old(self).err_addr(),
    {
        self.active_future = 0;
    }

    /// Switches the server to nonblocking mode: reads the server handle, then writes its
    /// nonblocking-mode attribute.
    pub fn set_nonblocking_mode(&self) -> (r: (ServerQuery, OciCall))
        ensures
            r.0.purpose() == ServerPurpose::SetNonblocking,
            r.0.err_addr() == self.err_addr(),
            r.1 == server_handle_call(self.svc_addr(), self.err_addr()),
    {
        ServerQuery::start(self.svc, self.err.get_ptr(), ServerPurpose::SetNonblocking)
    }
}

/// What a server query is for.
pub enum ServerPurpose {
    /// Whether the server connection is in its normal state.
    IsConnected,
    /// Whether the server is in nonblocking mode.
    IsAsync,
    /// Switch the server to nonblocking mode.
    SetNonblocking,
}

/// The call that reads the server handle of a service context.
pub open spec fn server_handle_call(svc: usize, err: usize) -> OciCall {
    OciCall::AttrGet { target: svc, htype: OCI_HTYPE_SVCCTX, attr: OCI_ATTR_SERVER, kind: AttrKind::Ptr, err }
}

/// The call made on the server handle once it is known.
pub open spec fn server_call(purpose: ServerPurpose, srv: usize, err: usize) -> OciCall {
    match purpose {
        ServerPurpose::IsConnected => OciCall::AttrGet { target: srv, htype: OCI_HTYPE_SERVER, attr: OCI_ATTR_SERVER_STATUS, kind: AttrKind::U32, err },
        ServerPurpose::IsAsync => OciCall::AttrGet { target: srv, htype: OCI_HTYPE_SERVER, attr: OCI_ATTR_NONBLOCKING_MODE, kind: AttrKind::U8, err },
        ServerPurpose::SetNonblocking => OciCall::AttrSet { target: srv, htype: OCI_HTYPE_SERVER, attr: OCI_ATTR_NONBLOCKING_MODE, value: AttrValue::Null, err },
    }
}

/// What the answer of the server call means.
pub open spec fn server_answer(purpose: ServerPurpose, value: OciValue) -> bool {
    match purpose {
        ServerPurpose::IsConnected => value == OciValue::U32(OCI_SERVER_NORMAL),
        ServerPurpose::IsAsync => value matches OciValue::U8(mode) && mode != 0,
        ServerPurpose::SetNonblocking => true,
    }
}

/// A two-call query of the server behind a service context: first its handle, then
/// one of its attributes.
pub struct ServerQuery {
    err: Ptr<OCIError>,
    purpose: ServerPurpose,
    srv: usize,
    stage: u8,
}

impl ServerQuery {
    pub closed spec fn purpose(&self) -> ServerPurpose { self.purpose }
    pub closed spec fn err_addr(&self) -> usize { self.err.addr() }
    pub closed spec fn srv(&self) -> usize { self.srv }
    pub closed spec fn stage(&self) -> u8 { self.stage }

    pub fn start(svc: Ptr<OCISvcCtx>, err: Ptr<OCIError>, purpose: ServerPurpose) -> (r: (ServerQuery, OciCall))
        ensures
            r.0.purpose() == purpose,
            r.0.err_addr() == err.addr(),
            r.0.stage() == 0,
            r.1 == server_handle_call(svc.addr(), err.addr()),
    {
        let call = attr::get(OCI_ATTR_SERVER, OCI_HTYPE_SVCCTX, svc.get(), AttrKind::Ptr, err);
        (ServerQuery { err, purpose, srv: 0, stage: 0 }, call)
    }

    /// Takes OCI's answer to the last call.
    pub fn resume(&mut self, reply: &Reply) -> (r: Step<bool>)
        requires
            old(self).stage() < 2,
        ensures
            reply.status < 0 ==> r == Step::<bool>::Fail(Diag { handle: old(self).err_addr(), htype: OCI_HTYPE_ERROR, rc: reply.status }),
            reply.status >= 0 && old(self).stage() == 0 ==> r == Step::<bool>::Call(
                server_call(old(self).purpose(), allocated_addr(reply.value), old(self).err_addr()),
            ) && final(self).stage() == 1 && final(self).srv() == allocated_addr(reply.value),
            reply.status >= 0 && old(self).stage() == 1 ==>
                r == Step::<bool>::Done(Ok(server_answer(old(self).purpose(), reply.value))),
            final(self).purpose() == old(self).purpose(),
            final(self).err_addr() == old(self).err_addr(),
    {
        if reply.status < 0 {
            return Step::Fail(Diag::oci(self.err.get(), reply.status));
        }
        if self.stage == 0 {
            self.srv = reply_addr(&reply.value);
            self.stage = 1;
            let call = match self.purpose {
                ServerPurpose::IsConnected => attr::get(OCI_ATTR_SERVER_STATUS, OCI_HTYPE_SERVER, self.srv, AttrKind::U32, self.err),
                ServerPurpose::IsAsync => attr::get(OCI_ATTR_NONBLOCKING_MODE, OCI_HTYPE_SERVER, self.srv, AttrKind::U8, self.err),
                ServerPurpose::SetNonblocking => attr::set(OCI_ATTR_NONBLOCKING_MODE, AttrValue::Null, OCI_HTYPE_SERVER, self.srv, self.err),
            };
            Step::Call(call)
        } else {
            let answer = match self.purpose {
                ServerPurpose::IsConnected => match reply.value {
                    OciValue::U32(status) => status == OCI_SERVER_NORMAL,
                    _ => false,
                },
                ServerPurpose::IsAsync => match reply.value {
                    OciValue::U8(mode) => mode != 0,
                    _ => false,
                },
                ServerPurpose::SetNonblocking => true,
            };
            Step::Done(Ok(answer))
        }
    }
}

/// A session is connected exactly when OCI reports its server's status as normal (1);
/// any other status, or an answer without a status, means it is not. A server is in
/// nonblocking mode exactly when its mode byte is set.
pub proof fn lemma_connected_means_normal_status(value: OciValue)
    ensures
        server_answer(ServerPurpose::IsConnected, value) <==> (value matches OciValue::U32(status) && status == 1),
        server_answer(ServerPurpose::IsAsync, value) <==> (value matches OciValue::U8(mode) && mode != 0),
        server_call(ServerPurpose::IsConnected, 0, 0) matches OciCall::AttrGet { attr, kind: AttrKind::U32, .. } && attr == OCI_ATTR_SERVER_STATUS,
{
}

/// Where a new session comes from.
pub enum SessionSource {
    /// A dedicated session for `dblink`, authenticated by user name and password.
    Direct { dblink: String, user: String, pass: String, mode: u32 },
    /// A session from a session pool, asked for by `tag`.
    SessionPool { pool: Ptr<OCISPool>, name: String, tag: String },
    /// A session from a connection pool; the request is made with the pool's error handle.
    ConnectionPool { pool_err: Ptr<OCIError>, name: String, user: String, pass: String },
}

/// The mode that asks a session pool for a session by tag: multi-property tags are
/// those that hold an `=`.
pub open spec fn tag_mode(tag: Seq<char>) -> u32 {
    if tag.len() > 0 && tag.contains('=') { OCI_SESSGET_MULTIPROPERTY_TAG } else { OCI_DEFAULT }
}

fn contains_char(s: &str, c: char) -> (r: bool)
    ensures
        r == s@.contains(c),
{
    let n = s.unicode_len();
    let mut i: usize = 0;
    while i < n
        invariant
            n == s@.len(),
            i <= n,
            forall|j: int| 0 <= j < i ==> s@[j] != c,
        decreases n - i,
    {
        if s.get_char(i) == c {
            assert(s@[i as int] == c);
            return true;
        }
        i = i + 1;
    }
    false
}

pub fn session_tag_mode(tag: &str) -> (r: u32)
    ensures
        r == tag_mode(tag@),
{
    if tag.unicode_len() > 0 && contains_char(tag, '=') { OCI_SESSGET_MULTIPROPERTY_TAG } else { OCI_DEFAULT }
}

/// The calls that open a session, in order. `err`, `inf` and `svc` are the handles that
/// the earlier calls hand back.
pub open spec fn session_script(env: usize, source: SessionSource, driver: String, err: usize, inf: usize, svc: usize) -> Seq<OciCall> {
    let alloc_err = OciCall::HandleAlloc { env, htype: OCI_HTYPE_ERROR };
    let alloc_inf = OciCall::HandleAlloc { env, htype: OCI_HTYPE_AUTHINFO };
    let get_usr = OciCall::AttrGet { target: svc, htype: OCI_HTYPE_SVCCTX, attr: OCI_ATTR_SESSION, kind: AttrKind::Ptr, err };
    let set_inf = |attr: u32, text: String| OciCall::AttrSet { target: inf, htype: OCI_HTYPE_AUTHINFO, attr, value: AttrValue::Text(text), err };
    match source {
        SessionSource::Direct { dblink, user, pass, mode } => seq![
            alloc_err,
            alloc_inf,
            set_inf(OCI_ATTR_DRIVER_NAME, driver),
            set_inf(OCI_ATTR_USERNAME, user),
            set_inf(OCI_ATTR_PASSWORD, pass),
            OciCall::SessionGet { env, err, auth: inf, dbname: dblink, mode: mode | OCI_SESSGET_STMTCACHE },
            get_usr,
        ],
        SessionSource::SessionPool { name, tag, .. } => seq![
            alloc_err,
            alloc_inf,
            OciCall::SessionGetTagged {
                env, err, auth: inf, dbname: name, tag,
                mode: tag_mode(tag@) | OCI_SESSGET_SPOOL | OCI_SESSGET_PURITY_SELF,
            },
            get_usr,
        ],
        SessionSource::ConnectionPool { pool_err, name, user, pass } => seq![
            alloc_err,
            alloc_inf,
            set_inf(OCI_ATTR_DRIVER_NAME, driver),
            set_inf(OCI_ATTR_USERNAME, user),
            set_inf(OCI_ATTR_PASSWORD, pass),
            OciCall::SessionGet { env, err: pool_err.addr(), auth: inf, dbname: name, mode: OCI_SESSGET_CPOOL | OCI_SESSGET_STMTCACHE },
            get_usr,
        ],
    }
}

/// The stage whose call hands back the service context.
pub open spec fn svc_stage(source: SessionSource) -> nat {
    match source {
        SessionSource::SessionPool { .. } => 2,
        _ => 5,
    }
}

/// Opening a session: the calls of `session_script`, one at a time.
pub struct SessionFlow {
    env: Ptr<OCIEnv>,
    source: SessionSource,
    driver: String,
    stage: usize,
    err: usize,
    inf: usize,
    svc: usize,
    usr: usize,
    tag: usize,
    tag_len: u32,
    found: u8,
}

impl SessionFlow {
    pub closed spec fn stage(&self) -> nat { self.stage as nat }
    pub closed spec fn env_addr(&self) -> usize { self.env.addr() }
    pub closed spec fn source(&self) -> SessionSource { self.source }
    pub closed spec fn err(&self) -> usize { self.err }
    pub closed spec fn inf(&self) -> usize { self.inf }
    pub closed spec fn svc(&self) -> usize { self.svc }
    pub closed spec fn usr(&self) -> usize { self.usr }
    pub closed spec fn found_flag(&self) -> u8 { self.found }
    pub closed spec fn driver(&self) -> String { self.driver }

    pub closed spec fn wf(&self) -> bool {
        &&& self.driver@ == driver_name()
        &&& self.stage <= self.script().len()
    }

    /// The calls this flow makes, given the handles known so far.
    pub closed spec fn script(&self) -> Seq<OciCall> {
        session_script(self.env.addr(), self.source, self.driver, self.err, self.inf, self.svc)
    }

    /// The flow once `value` answers the call of the current stage.
    pub closed spec fn absorbed(&self, value: OciValue) -> SessionFlow {
        let next = (self.stage + 1) as usize;
        if self.stage == 0 {
            SessionFlow { err: allocated_addr(value), stage: next, ..*self }
        } else if self.stage == 1 {
            SessionFlow { inf: allocated_addr(value), stage: next, ..*self }
        } else if self.stage == svc_stage(self.source) {
            match value {
                OciValue::Session { svc, tag, tag_len, found } =>
                    SessionFlow { svc, tag, tag_len, found, stage: next, ..*self },
                _ => SessionFlow { svc: allocated_addr(value), stage: next, ..*self },
            }
        } else if self.stage + 1 == self.script().len() {
            SessionFlow { usr: allocated_addr(value), stage: next, ..*self }
        } else {
            SessionFlow { stage: next, ..*self }
        }
    }

    /// Whether `s` is the session that this flow opened.
    pub closed spec fn opened(&self, s: Session) -> bool {
        &&& s.usr.addr() == self.usr
        &&& s.ctx.svc.addr() == self.svc
        &&& s.ctx.inf.addr() == self.inf
        &&& s.ctx.err.addr() == self.err
        &&& s.ctx.env.addr() == self.env.addr()
        &&& s.ctx.active_future == 0
        &&& s.ctx.spool_addr() == match self.source {
            SessionSource::SessionPool { pool, .. } => Some(pool.addr()),
            _ => None,
        }
    }

    /// The calls the flow makes: those of `session_script` for its source, with the
    /// driver name set to the library's.
    pub proof fn lemma_script(&self)
        requires
            self.wf(),
        ensures
            self.driver()@ == driver_name(),
            self.script() == session_script(self.env_addr(), self.source(), self.driver(), self.err(), self.inf(), self.svc()),
    {
    }

    /// An answer moves the flow one stage on: the first two answers are the error and
    /// authentication handles, the session request's answer the service context, the last
    /// the session; the source stays.
    pub proof fn lemma_absorbed(&self, value: OciValue)
        requires
            self.wf(),
            self.stage() < self.script().len(),
        ensures
            self.absorbed(value).stage() == self.stage() + 1,
            self.absorbed(value).source() == self.source(),
            self.absorbed(value).env_addr() == self.env_addr(),
            self.absorbed(value).driver() == self.driver(),
            self.absorbed(value).err() == (if self.stage() == 0 { allocated_addr(value) } else { self.err() }),
            self.absorbed(value).inf() == (if self.stage() == 1 { allocated_addr(value) } else { self.inf() }),
            self.absorbed(value).svc() == (if self.stage() == svc_stage(self.source()) {
                match value { OciValue::Session { svc, .. } => svc, _ => allocated_addr(value) }
            } else {
                self.svc()
            }),
            self.absorbed(value).usr() == (if self.stage() + 1 == self.script().len() { allocated_addr(value) } else { self.usr() }),
    {
    }

    /// A session requested with a user name and password authenticates as that user: the
    /// flow writes the user name (attribute 22) and the password (attribute 23) of its
    /// authentication handle with exactly the given values, each once, before it asks for
    /// the session, and writes no other value to either attribute.
    pub proof fn lemma_credentials(&self)
        requires
            self.wf(),
        ensures
            self.source() matches SessionSource::Direct { user, pass, .. } ==> ({
                &&& self.script()[3] == (OciCall::AttrSet { target: self.inf(), htype: 9, attr: 22, value: AttrValue::Text(user), err: self.err() })
                &&& self.script()[4] == (OciCall::AttrSet { target: self.inf(), htype: 9, attr: 23, value: AttrValue::Text(pass), err: self.err() })
                &&& self.script()[5] is SessionGet
            }),
            self.source() matches SessionSource::ConnectionPool { user, pass, .. } ==> ({
                &&& self.script()[3] == (OciCall::AttrSet { target: self.inf(), htype: 9, attr: 22, value: AttrValue::Text(user), err: self.err() })
                &&& self.script()[4] == (OciCall::AttrSet { target: self.inf(), htype: 9, attr: 23, value: AttrValue::Text(pass), err: self.err() })
                &&& self.script()[5] is SessionGet
            }),
            forall|k: int| 0 <= k < self.script().len() ==> (#[trigger] self.script()[k] matches OciCall::AttrSet { attr, value, .. } ==> (
                (attr == 22 ==> (self.source() matches SessionSource::Direct { user, .. } && value == AttrValue::Text(user))
                    || (self.source() matches SessionSource::ConnectionPool { user, .. } && value == AttrValue::Text(user)))
                && (attr == 23 ==> (self.source() matches SessionSource::Direct { pass, .. } && value == AttrValue::Text(pass))
                    || (self.source() matches SessionSource::ConnectionPool { pass, .. } && value == AttrValue::Text(pass))))),
    {
        assert forall|k: int| 0 <= k < self.script().len() implies (#[trigger] self.script()[k] matches OciCall::AttrSet { attr, value, .. } ==> (
                (attr == 22 ==> (self.source() matches SessionSource::Direct { user, .. } && value == AttrValue::Text(user))
                    || (self.source() matches SessionSource::ConnectionPool { user, .. } && value == AttrValue::Text(user)))
                && (attr == 23 ==> (self.source() matches SessionSource::Direct { pass, .. } && value == AttrValue::Text(pass))
                    || (self.source() matches SessionSource::ConnectionPool { pass, .. } && value == AttrValue::Text(pass))))) by {
            assert(k == 0 || k == 1 || k == 2 || k == 3 || k == 4 || k == 5 || k == 6);
        }
    }

    /// The session a flow opens holds the flow's handles, no claim by a future, and the
    /// pool it came from.
    pub proof fn lemma_opened(&self, s: Session)
        ensures
            self.opened(s) == (s.usr_addr() == self.usr() && s.ctx().svc_addr() == self.svc()
                && s.ctx().inf_addr() == self.inf() && s.ctx().err_addr() == self.err()
                && s.ctx().env_addr() == self.env_addr() && s.ctx().active() == 0
                && s.ctx().spool_addr() == match self.source() {
                    SessionSource::SessionPool { pool, .. } => Some(pool.addr()),
                    _ => None,
                }),
    {
    }

    /// The number of calls of the flow.
    fn len(&self) -> (r: usize)
        ensures
            r == self.script().len(),
    {
        match self.source {
            SessionSource::SessionPool { .. } => 4,
            _ => 7,
        }
    }

    /// The call of stage `k`.
    fn call_at(&self, k: usize) -> (r: OciCall)
        requires
            self.wf(),
            k < self.script().len(),
        ensures
            r == self.script()[k as int],
    {
        let errp = Ptr::<OCIError>::new(self.err);
        let infp = Ptr::<OCIAuthInfo>::new(self.inf);
        if k == 0 {
            Handle::<OCIError>::new(self.env)
        } else if k == 1 {
            Handle::<OCIAuthInfo>::new(self.env)
        } else {
            match &self.source {
                SessionSource::Direct { dblink, user, pass, mode } => {
                    if k == 2 {
                        attr::set(OCI_ATTR_DRIVER_NAME, AttrValue::Text(self.driver.clone()), OCI_HTYPE_AUTHINFO, self.inf, errp)
                    } else if k == 3 {
                        attr::set(OCI_ATTR_USERNAME, AttrValue::Text(user.clone()), OCI_HTYPE_AUTHINFO, self.inf, errp)
                    } else if k == 4 {
                        attr::set(OCI_ATTR_PASSWORD, AttrValue::Text(pass.clone()), OCI_HTYPE_AUTHINFO, self.inf, errp)
                    } else if k == 5 {
                        calls::session_get(self.env, errp, infp, dblink, *mode | OCI_SESSGET_STMTCACHE)
                    } else {
                        attr::get(OCI_ATTR_SESSION, OCI_HTYPE_SVCCTX, self.svc, AttrKind::Ptr, errp)
                    }
                },
                SessionSource::SessionPool { name, tag, .. } => {
                    if k == 2 {
                        let mode = session_tag_mode(tag.as_str()) | OCI_SESSGET_SPOOL | OCI_SESSGET_PURITY_SELF;
                        calls::session_get_tagged(self.env, errp, infp, name, tag, mode)
                    } else {
                        attr::get(OCI_ATTR_SESSION, OCI_HTYPE_SVCCTX, self.svc, AttrKind::Ptr, errp)
                    }
                },
                SessionSource::ConnectionPool { pool_err, name, user, pass } => {
                    if k == 2 {
                        attr::set(OCI_ATTR_DRIVER_NAME, AttrValue::Text(self.driver.clone()), OCI_HTYPE_AUTHINFO, self.inf, errp)
                    } else if k == 3 {
                        attr::set(OCI_ATTR_USERNAME, AttrValue::Text(user.clone()), OCI_HTYPE_AUTHINFO, self.inf, errp)
                    } else if k == 4 {
                        attr::set(OCI_ATTR_PASSWORD, AttrValue::Text(pass.clone()), OCI_HTYPE_AUTHINFO, self.inf, errp)
                    } else if k == 5 {
                        calls::session_get(self.env, *pool_err, infp, name, OCI_SESSGET_CPOOL | OCI_SESSGET_STMTCACHE)
                    } else {
                        attr::get(OCI_ATTR_SESSION, OCI_HTYPE_SVCCTX, self.svc, AttrKind::Ptr, errp)
                    }
                },
            }
        }
    }

    fn svc_stage_exec(&self) -> (r: usize)
        ensures
            r == svc_stage(self.source),
    {
        match self.source {
            SessionSource::SessionPool { .. } => 2,
            _ => 5,
        }
    }

    fn absorb(&mut self, value: &OciValue)
        requires
            old(self).wf(),
            old(self).stage() < old(self).script().len(),
        ensures
            *final(self) == old(self).absorbed(*value),
    {
        let next = self.stage + 1;
        if self.stage == 0 {
            self.err = reply_addr(value);
        } else if self.stage == 1 {
            self.inf = reply_addr(value);
        } else if self.stage == self.svc_stage_exec() {
            match value {
                OciValue::Session { svc, tag, tag_len, found } => {
                    self.svc = *svc;
                    self.tag = *tag;
                    self.tag_len = *tag_len;
                    self.found = *found;
                },
                _ => {
                    self.svc = reply_addr(value);
                },
            }
        } else if self.stage + 1 == self.len() {
            self.usr = reply_addr(value);
        }
        self.stage = next;
    }

    fn build_session(&self) -> (r: Session)
        ensures
            self.opened(r),
    {
        let spool = match &self.source {
            SessionSource::SessionPool { pool, .. } => Some(*pool),
            _ => None,
        };
        Session {
            usr: Ptr::new(self.usr),
            ctx: SvcCtx {
                svc: Ptr::new(self.svc),
                inf: Handle::from(Ptr::new(self.inf)),
                err: Handle::from(Ptr::new(self.err)),
                env: self.env,
                spool,
                active_future: 0,
            },
        }
    }

    /// Takes OCI's answer to the call of the current stage.
    pub fn resume(&mut self, reply: &Reply) -> (r: Step<Session>)
        requires
            old(self).wf(),
            old(self).stage() < old(self).script().len(),
        ensures
            final(self).wf(),
            ({
                let call = old(self).script()[old(self).stage() as int];
                let failure = spec_failure(call, reply.status);
                let null_alloc = old(self).stage() < 2 && allocated_addr(reply.value) == 0;
                &&& failure is Some ==> r == Step::<Session>::Fail(failure->0) && *final(self) == *old(self)
                &&& failure is None && null_alloc ==> *final(self) == *old(self)
                    && (r matches Step::Done(Err(Error::Interface(m)))
                        && m@ == null_handle_message(if old(self).stage() == 0 { OCI_HTYPE_ERROR } else { OCI_HTYPE_AUTHINFO }))
                &&& failure is None && !null_alloc ==> *final(self) == old(self).absorbed(reply.value)
                    && (final(self).stage() < final(self).script().len() ==> r == Step::<Session>::Call(final(self).script()[final(self).stage() as int]))
                    && (final(self).stage() == final(self).script().len() ==> (r matches Step::Done(Ok(s)) && final(self).opened(s)))
            }),
    {
        let call = self.call_at(self.stage);
        match call.failure(reply.status) {
            Some(d) => { return Step::Fail(d); },
            None => {},
        }
        if self.stage < 2 && reply_addr(&reply.value) == 0 {
            let htype = if self.stage == 0 { OCI_HTYPE_ERROR } else { OCI_HTYPE_AUTHINFO };
            return Step::Done(Err(null_handle_error(htype)));
        }
        self.absorb(&reply.value);
        if self.stage < self.len() {
            Step::Call(self.call_at(self.stage))
        } else {
            Step::Done(Ok(self.build_session()))
        }
    }

    /// Whether the session pool had a session with the requested tag.
    pub fn found(&self) -> (r: bool)
        ensures
            r == (self.found_flag() != 0),
    {
        self.found != 0
    }

    /// What the flow leaves to free when it ends with an error: the handles allocated
    /// so far, and once the service context exists, the context itself.
    pub fn cleanup(&self) -> (r: Vec<OciCall>)
        requires
            self.wf(),
        ensures
            self.stage() == 0 ==> r@ == Seq::<OciCall>::empty(),
            self.stage() == 1 ==> r@ == frees(self.err(), OCI_HTYPE_ERROR),
            2 <= self.stage() && self.stage() + 1 < self.script().len() ==>
                r@ == frees(self.inf(), OCI_HTYPE_AUTHINFO) + frees(self.err(), OCI_HTYPE_ERROR),
            self.stage() + 1 >= self.script().len() && self.stage() >= 2 ==> r@ == seq![
                OciCall::TransRollback { svc: self.svc(), err: self.err() },
                OciCall::SessionRelease { svc: self.svc(), err: self.err() },
            ] + frees(self.inf(), OCI_HTYPE_AUTHINFO) + frees(self.err(), OCI_HTYPE_ERROR),
    {
        let mut calls: Vec<OciCall> = Vec::new();
        let err = Handle::<OCIError>::from(Ptr::new(self.err));
        let inf = Handle::<OCIAuthInfo>::from(Ptr::new(self.inf));
        if self.stage == 0 {
        } else if self.stage == 1 {
            push_free(&mut calls, err.free());
        } else if self.stage + 1 < self.len() {
            push_free(&mut calls, inf.free());
            push_free(&mut calls, err.free());
        } else {
            let svc = Ptr::<OCISvcCtx>::new(self.svc);
            calls.push(calls::oci_trans_rollback(svc, err.get_ptr()));
            calls.push(calls::oci_session_release(svc, err.get_ptr()));
            push_free(&mut calls, inf.free());
            push_free(&mut calls, err.free());
        }
        calls
    }

    fn start(env: Ptr<OCIEnv>, source: SessionSource) -> (r: (SessionFlow, OciCall))
        ensures
            r.0.wf(),
            r.0.stage() == 0,
            r.0.env_addr() == env.addr(),
            r.0.source() == source,
            r.1 == r.0.script()[0],
    {
        proof { reveal_strlit("sibyl"); }
        let driver = String::from_str("sibyl");
        assert(driver@ =~= driver_name());
        let call = Handle::<OCIError>::new(env);
        let flow = SessionFlow { env, source, driver, stage: 0, err: 0, inf: 0, svc: 0, usr: 0, tag: 0, tag_len: 0, found: 0 };
        (flow, call)
    }
}

/// Represents a user session
pub struct Session {
    usr: Ptr<OCISession>,
    ctx: SvcCtx,
}

impl Session {
    pub closed spec fn usr_addr(&self) -> usize { self.usr.addr() }
    pub closed spec fn ctx(&self) -> SvcCtx { self.ctx }

    /// The call that writes an attribute of the service context.
    pub open spec fn svc_attr_set(&self, attr: u32, value: AttrValue) -> OciCall {
        OciCall::AttrSet { target: self.ctx().svc_addr(), htype: OCI_HTYPE_SVCCTX, attr, value, err: self.ctx().err_addr() }
    }

    /// The call that reads an attribute of the service context.
    pub open spec fn svc_attr_get(&self, attr: u32, kind: AttrKind) -> OciCall {
        OciCall::AttrGet { target: self.ctx().svc_addr(), htype: OCI_HTYPE_SVCCTX, attr, kind, err: self.ctx().err_addr() }
    }

    /// The call that writes an attribute of the session.
    pub open spec fn usr_attr_set(&self, attr: u32, value: AttrValue) -> OciCall {
        OciCall::AttrSet { target: self.usr_addr(), htype: OCI_HTYPE_SESSION, attr, value, err: self.ctx().err_addr() }
    }

    /// The call that reads an attribute of the session.
    pub open spec fn usr_attr_get(&self, attr: u32, kind: AttrKind) -> OciCall {
        OciCall::AttrGet { target: self.usr_addr(), htype: OCI_HTYPE_SESSION, attr, kind, err: self.ctx().err_addr() }
    }

    fn set_attr(&self, attr_type: u32, attr_val: AttrValue) -> (r: OciCall)
        ensures
            r == self.usr_attr_set(attr_type, attr_val),
    {
        attr::set(attr_type, attr_val, OCI_HTYPE_SESSION, self.usr.get(), self.ctx.err_ptr())
    }

    fn get_attr(&self, attr_type: u32, kind: AttrKind) -> (r: OciCall)
        ensures
            r == self.usr_attr_get(attr_type, kind),
    {
        attr::get(attr_type, OCI_HTYPE_SESSION, self.usr.get(), kind, self.ctx.err_ptr())
    }

    fn set_svc_attr(&self, attr_type: u32, attr_val: AttrValue) -> (r: OciCall)
        ensures
            r == self.svc_attr_set(attr_type, attr_val),
    {
        attr::set(attr_type, attr_val, OCI_HTYPE_SVCCTX, self.ctx.svc.get(), self.ctx.err_ptr())
    }

    fn get_svc_attr(&self, attr_type: u32, kind: AttrKind) -> (r: OciCall)
        ensures
            r == self.svc_attr_get(attr_type, kind),
    {
        attr::get(attr_type, OCI_HTYPE_SVCCTX, self.ctx.svc.get(), kind, self.ctx.err_ptr())
    }

    /// The handles behind the session.
    pub fn get_svc(&self) -> (r: &SvcCtx)
        ensures
            *r == self.ctx(),
    {
        &self.ctx
    }

    /// The session handle.
    pub fn usr_ptr(&self) -> (r: Ptr<OCISession>)
        ensures
            r.addr() == self.usr_addr(),
    {
        self.usr
    }

    /// Reports whether self is connected to the server: the server's status is normal.
    pub fn is_connected(&self) -> (r: (ServerQuery, OciCall))
        ensures
            r.0.purpose() == ServerPurpose::IsConnected,
            r.0.err_addr() == self.ctx().err_addr(),
            r.0.stage() == 0,
            r.1 == server_handle_call(self.ctx().svc_addr(), self.ctx().err_addr()),
    {
        ServerQuery::start(self.ctx.svc, self.ctx.err_ptr(), ServerPurpose::IsConnected)
    }

    /// Reports whether connection is established in non-blocking mode.
    pub fn is_async(&self) -> (r: (ServerQuery, OciCall))
        ensures
            r.0.purpose() == ServerPurpose::IsAsync,
            r.0.err_addr() == self.ctx().err_addr(),
            r.0.stage() == 0,
            r.1 == server_handle_call(self.ctx().svc_addr(), self.ctx().err_addr()),
    {
        ServerQuery::start(self.ctx.svc, self.ctx.err_ptr(), ServerPurpose::IsAsync)
    }

    /// Sets the statement cache size.
    pub fn set_stmt_cache_size(&self, num_stmts: u32) -> (r: OciCall)
        ensures
            r == self.svc_attr_set(OCI_ATTR_STMTCACHESIZE, AttrValue::U32(num_stmts)),
    {
        self.set_svc_attr(OCI_ATTR_STMTCACHESIZE, AttrValue::U32(num_stmts))
    }

    /// Returns the statement cache size.
    pub fn stmt_cache_size(&self) -> (r: OciCall)
        ensures
            r == self.svc_attr_get(OCI_ATTR_STMTCACHESIZE, AttrKind::U32),
    {
        self.get_svc_attr(OCI_ATTR_STMTCACHESIZE, AttrKind::U32)
    }

    /// Sets the time (in milliseconds) for a database round-trip call to time out.
    pub fn set_call_timeout(&self, timeout: u32) -> (r: OciCall)
        ensures
            r == self.svc_attr_set(OCI_ATTR_CALL_TIMEOUT, AttrValue::U32(timeout)),
    {
        self.set_svc_attr(OCI_ATTR_CALL_TIMEOUT, AttrValue::U32(timeout))
    }

    /// Returns time (in milliseconds) for a database round-trip call to time out.
    pub fn call_timeout(&self) -> (r: OciCall)
        ensures
            r == self.svc_attr_get(OCI_ATTR_CALL_TIMEOUT, AttrKind::U32),
    {
        self.get_svc_attr(OCI_ATTR_CALL_TIMEOUT, AttrKind::U32)
    }

    /// Causes the server to measure call time, in milliseconds, for each subsequent OCI call.
    pub fn start_call_time_measurements(&self) -> (r: OciCall)
        ensures
            r == self.usr_attr_set(OCI_ATTR_COLLECT_CALL_TIME, AttrValue::U32(1)),
    {
        self.set_attr(OCI_ATTR_COLLECT_CALL_TIME, AttrValue::U32(1))
    }

    /// Returns the server-side time for the preceding call in microseconds.
    pub fn call_time(&self) -> (r: OciCall)
        ensures
            r == self.usr_attr_get(OCI_ATTR_CALL_TIME, AttrKind::U64),
    {
        self.get_attr(OCI_ATTR_CALL_TIME, AttrKind::U64)
    }

    /// Terminates call time measurements.
    pub fn stop_call_time_measurements(&self) -> (r: OciCall)
        ensures
            r == self.usr_attr_set(OCI_ATTR_COLLECT_CALL_TIME, AttrValue::U32(0)),
    {
        self.set_attr(OCI_ATTR_COLLECT_CALL_TIME, AttrValue::U32(0))
    }

    /// Sets the name of the current module (`V$SESSION.MODULE`).
    pub fn set_module(&self, name: &str) -> (r: OciCall)
        ensures
            r matches OciCall::AttrSet { value: AttrValue::Text(t), .. } && t@ == name@
                && r == self.usr_attr_set(OCI_ATTR_MODULE, AttrValue::Text(t)),
    {
        self.set_attr(OCI_ATTR_MODULE, AttrValue::Text(String::from_str(name)))
    }

    /// Sets the name of the current action (`V$SESSION.ACTION`) within the current module.
    pub fn set_action(&self, action: &str) -> (r: OciCall)
        ensures
            r matches OciCall::AttrSet { value: AttrValue::Text(t), .. } && t@ == action@
                && r == self.usr_attr_set(OCI_ATTR_ACTION, AttrValue::Text(t)),
    {
        self.set_attr(OCI_ATTR_ACTION, AttrValue::Text(String::from_str(action)))
    }

    /// Sets the user identifier (`V$SESSION.CLIENT_IDENTIFIER`) in the session handle.
    pub fn set_client_identifier(&self, id: &str) -> (r: OciCall)
        ensures
            r matches OciCall::AttrSet { value: AttrValue::Text(t), .. } && t@ == id@
                && r == self.usr_attr_set(OCI_ATTR_CLIENT_IDENTIFIER, AttrValue::Text(t)),
    {
        self.set_attr(OCI_ATTR_CLIENT_IDENTIFIER, AttrValue::Text(String::from_str(id)))
    }

    /// Sets additional client application information (`V$SESSION.CLIENT_INFO`).
    pub fn set_client_info(&self, info: &str) -> (r: OciCall)
        ensures
            r matches OciCall::AttrSet { value: AttrValue::Text(t), .. } && t@ == info@
                && r == self.usr_attr_set(OCI_ATTR_CLIENT_INFO, AttrValue::Text(t)),
    {
        self.set_attr(OCI_ATTR_CLIENT_INFO, AttrValue::Text(String::from_str(info)))
    }

    /// Returns the current schema.
    pub fn current_schema(&self) -> (r: OciCall)
        ensures
            r == self.usr_attr_get(OCI_ATTR_CURRENT_SCHEMA, AttrKind::Text),
    {
        self.get_attr(OCI_ATTR_CURRENT_SCHEMA, AttrKind::Text)
    }

    /// Sets the current schema.
    pub fn set_current_schema(&self, schema_name: &str) -> (r: OciCall)
        ensures
            r matches OciCall::AttrSet { value: AttrValue::Text(t), .. } && t@ == schema_name@
                && r == self.usr_attr_set(OCI_ATTR_CURRENT_SCHEMA, AttrValue::Text(t)),
    {
        self.set_attr(OCI_ATTR_CURRENT_SCHEMA, AttrValue::Text(String::from_str(schema_name)))
    }

    /// Sets the default prefetch buffer size for each LOB locator.
    pub fn set_lob_prefetch_size(&self, size: u32) -> (r: OciCall)
        ensures
            r == self.usr_attr_set(OCI_ATTR_DEFAULT_LOBPREFETCH_SIZE, AttrValue::U32(size)),
    {
        self.set_attr(OCI_ATTR_DEFAULT_LOBPREFETCH_SIZE, AttrValue::U32(size))
    }

    /// Returns the default prefetch buffer size for each LOB locator.
    pub fn lob_prefetch_size(&self) -> (r: OciCall)
        ensures
            r == self.usr_attr_get(OCI_ATTR_DEFAULT_LOBPREFETCH_SIZE, AttrKind::U32),
    {
        self.get_attr(OCI_ATTR_DEFAULT_LOBPREFETCH_SIZE, AttrKind::U32)
    }

    /// Prepares a SQL or PL/SQL statement for execution (the answer hands back the
    /// statement handle, see `Statement::prepared`).
    pub fn prepare(&self, sql: &str) -> (r: OciCall)
        ensures
            r matches OciCall::StmtPrepare { svc, err, sql: s, language, mode }
                && svc == self.ctx().svc_addr() && err == self.ctx().err_addr() && s@ == sql@
                && language == OCI_NTV_SYNTAX && mode == OCI_DEFAULT,
    {
        calls::stmt_prepare(self.ctx.svc, self.ctx.err_ptr(), sql, OCI_NTV_SYNTAX, OCI_DEFAULT)
    }

    /// Confirms that the connection and the server are active.
    pub fn ping(&self) -> (r: OciCall)
        ensures
            r == (OciCall::Ping { svc: self.ctx().svc_addr(), err: self.ctx().err_addr() }),
    {
        calls::ping(self.ctx.svc, self.ctx.err_ptr())
    }

    /// Commits the current transaction.
    pub fn commit(&self) -> (r: OciCall)
        ensures
            r == (OciCall::TransCommit { svc: self.ctx().svc_addr(), err: self.ctx().err_addr() }),
    {
        calls::trans_commit(self.ctx.svc, self.ctx.err_ptr())
    }

    /// Rolls back the current transaction.
    pub fn rollback(&self) -> (r: OciCall)
        ensures
            r == (OciCall::TransRollback { svc: self.ctx().svc_addr(), err: self.ctx().err_addr() }),
    {
        calls::trans_rollback(self.ctx.svc, self.ctx.err_ptr())
    }

    /// Opens a dedicated session for `dblink` as `user`. `mode` is OR-ed with statement
    /// caching.
    pub fn new(env: Ptr<OCIEnv>, dblink: &str, user: &str, pass: &str, mode: u32) -> (r: (SessionFlow, OciCall))
        ensures
            r.0.wf(),
            r.0.stage() == 0,
            r.0.env_addr() == env.addr(),
            r.0.source() matches SessionSource::Direct { dblink: d, user: u, pass: p, mode: m }
                && d@ == dblink@ && u@ == user@ && p@ == pass@ && m == mode,
            r.1 == (OciCall::HandleAlloc { env: env.addr(), htype: OCI_HTYPE_ERROR }),
    {
        let source = SessionSource::Direct {
            dblink: String::from_str(dblink),
            user: String::from_str(user),
            pass: String::from_str(pass),
            mode,
        };
        SessionFlow::start(env, source)
    }

    /// Gets a session from a session pool named `name`, asking for one with `tag`.
    pub fn from_session_pool(env: Ptr<OCIEnv>, pool: Ptr<OCISPool>, name: &String, tag: &str) -> (r: (SessionFlow, OciCall))
        ensures
            r.0.wf(),
            r.0.stage() == 0,
            r.0.env_addr() == env.addr(),
            r.0.source() matches SessionSource::SessionPool { pool: p, name: n, tag: t }
                && p == pool && n == *name && t@ == tag@,
            r.1 == (OciCall::HandleAlloc { env: env.addr(), htype: OCI_HTYPE_ERROR }),
    {
        let source = SessionSource::SessionPool { pool, name: name.clone(), tag: String::from_str(tag) };
        SessionFlow::start(env, source)
    }

    /// Gets a session from a connection pool named `name`, authenticated as `user`.
    pub fn from_connection_pool(env: Ptr<OCIEnv>, pool_err: Ptr<OCIError>, name: &String, user: &str, pass: &str) -> (r: (SessionFlow, OciCall))
        ensures
            r.0.wf(),
            r.0.stage() == 0,
            r.0.env_addr() == env.addr(),
            r.0.source() matches SessionSource::ConnectionPool { pool_err: pe, name: n, user: u, pass: p }
                && pe == pool_err && n == *name && u@ == user@ && p@ == pass@,
            r.1 == (OciCall::HandleAlloc { env: env.addr(), htype: OCI_HTYPE_ERROR }),
    {
        let source = SessionSource::ConnectionPool {
            pool_err,
            name: name.clone(),
            user: String::from_str(user),
            pass: String::from_str(pass),
        };
        SessionFlow::start(env, source)
    }
}

/// What a session's setters write, its getters read back: the statement cache size, the
/// call timeout, the LOB prefetch size and the current schema.
pub proof fn lemma_session_settings_read_back(s: Session, store: AttrStore, cache: u32, timeout: u32, prefetch: u32, schema: String)
    ensures
        store_read(store_after(store, s.svc_attr_set(OCI_ATTR_STMTCACHESIZE, AttrValue::U32(cache))),
            s.svc_attr_get(OCI_ATTR_STMTCACHESIZE, AttrKind::U32)) == Some(AttrValue::U32(cache)),
        store_read(store_after(store, s.svc_attr_set(OCI_ATTR_CALL_TIMEOUT, AttrValue::U32(timeout))),
            s.svc_attr_get(OCI_ATTR_CALL_TIMEOUT, AttrKind::U32)) == Some(AttrValue::U32(timeout)),
        store_read(store_after(store, s.usr_attr_set(OCI_ATTR_DEFAULT_LOBPREFETCH_SIZE, AttrValue::U32(prefetch))),
            s.usr_attr_get(OCI_ATTR_DEFAULT_LOBPREFETCH_SIZE, AttrKind::U32)) == Some(AttrValue::U32(prefetch)),
        store_read(store_after(store, s.usr_attr_set(OCI_ATTR_CURRENT_SCHEMA, AttrValue::Text(schema))),
            s.usr_attr_get(OCI_ATTR_CURRENT_SCHEMA, AttrKind::Text)) == Some(AttrValue::Text(schema)),
{
}

/// Writing one session attribute leaves what a read of another attribute finds.
pub proof fn lemma_session_settings_are_independent(s: Session, store: AttrStore, attr: u32, value: AttrValue, other: u32, kind: AttrKind)
    requires
        attr != other,
    ensures
        store_read(store_after(store, s.usr_attr_set(attr, value)), s.usr_attr_get(other, kind))
            == store_read(store, s.usr_attr_get(other, kind)),
        store_read(store_after(store, s.svc_attr_set(attr, value)), s.svc_attr_get(other, kind))
            == store_read(store, s.svc_attr_get(other, kind)),
{
}

} // verus!
