//! Session pools

use vstd::prelude::*;
use vstd::string::*;
use crate::err::Error;
use crate::oci::ptr::Ptr;
use crate::oci::handle::{allocated_addr, null_handle_error, null_handle_message, reply_addr, Handle};
use crate::oci::call::{spec_failure, store_after, store_read, AttrKind, AttrStore, AttrValue, OciCall, OciValue, Reply, Step};
use crate::oci::{attr, calls};
use crate::oci::{
    OCIAuthInfo, OCIEnv, OCIError, OCISPool, OCI_ATTR_DRIVER_NAME, OCI_ATTR_FIXUP_CALLBACK,
    OCI_ATTR_SPOOL_AUTH, OCI_ATTR_SPOOL_BUSY_COUNT, OCI_ATTR_SPOOL_GETMODE,
    OCI_ATTR_SPOOL_MAX_LIFETIME_SESSION, OCI_ATTR_SPOOL_MAX_USE_SESSION,
    OCI_ATTR_SPOOL_OPEN_COUNT, OCI_ATTR_SPOOL_STMTCACHESIZE, OCI_ATTR_SPOOL_TIMEOUT,
    OCI_ATTR_SPOOL_WAIT_TIMEOUT, OCI_HTYPE_AUTHINFO, OCI_HTYPE_ERROR, OCI_HTYPE_SPOOL,
    OCI_SPC_HOMOGENEOUS, OCI_SPC_STMTCACHE, OCI_SPOOL_ATTRVAL_FORCEGET, OCI_SPOOL_ATTRVAL_NOWAIT,
    OCI_SPOOL_ATTRVAL_TIMEDWAIT, OCI_SPOOL_ATTRVAL_WAIT,
};
use crate::session::{driver_name, frees, Session, SessionFlow, SessionSource};

verus! {

/// The handles of a session pool and the name OCI gave it.
pub struct SPool {
    name: String,
    pool: Handle<OCISPool>,
    info: Handle<OCIAuthInfo>,
    err: Handle<OCIError>,
    env: Ptr<OCIEnv>,
}

fn push_free(calls: &mut Vec<OciCall>, call: Option<OciCall>)
    ensures
        call is None ==> final(calls)@ == old(calls)@,
        call is Some ==> final(calls)@ == old(calls)@.push(call->0),
{
    match call {
        Some(c) => calls.push(c),
        None => {},
    }
}

impl SPool {
    pub closed spec fn name(&self) -> String { self.name }
    pub closed spec fn pool_addr(&self) -> usize { self.pool.addr() }
    pub closed spec fn info_addr(&self) -> usize { self.info.addr() }
    pub closed spec fn err_addr(&self) -> usize { self.err.addr() }
    pub closed spec fn env_addr(&self) -> usize { self.env.addr() }

    pub fn get_env(&self) -> (r: Ptr<OCIEnv>)
        ensures r.addr() == self.env_addr(),
    {
        self.env
    }

    pub fn get_name(&self) -> (r: &String)
        ensures *r == self.name(),
    {
        &self.name
    }

    /// What dropping the pool does: destroy it, then free its handles.
    pub fn release(&self) -> (r: Vec<OciCall>)
        ensures
            r@ == seq![OciCall::SessionPoolDestroy { pool: self.pool_addr(), err: self.err_addr() }]
                + frees(self.pool_addr(), OCI_HTYPE_SPOOL) + frees(self.info_addr(), OCI_HTYPE_AUTHINFO)
                + frees(self.err_addr(), OCI_HTYPE_ERROR),
    {
        let mut calls: Vec<OciCall> = Vec::new();
        calls.push(calls::oci_session_pool_destroy(self.pool.get_ptr(), self.err.get_ptr()));
        push_free(&mut calls, self.pool.free());
        push_free(&mut calls, self.info.free());
        push_free(&mut calls, self.err.free());
        calls
    }
}

/// The calls that create a session pool, in order. `err`, `pool` and `info` are the
/// handles that the first calls hand back.
pub open spec fn spool_script(
    env: usize, dbname: String, user: String, pass: String, min: u32, max: u32, incr: u32,
    fixup: String, driver: String, err: usize, pool: usize, info: usize,
) -> Seq<OciCall> {
    seq![
        OciCall::HandleAlloc { env, htype: OCI_HTYPE_ERROR },
        OciCall::HandleAlloc { env, htype: OCI_HTYPE_SPOOL },
        OciCall::HandleAlloc { env, htype: OCI_HTYPE_AUTHINFO },
        OciCall::AttrSet { target: info, htype: OCI_HTYPE_AUTHINFO, attr: OCI_ATTR_DRIVER_NAME, value: AttrValue::Text(driver), err },
    ] + (if fixup@.len() > 0 {
        seq![OciCall::AttrSet { target: info, htype: OCI_HTYPE_AUTHINFO, attr: OCI_ATTR_FIXUP_CALLBACK, value: AttrValue::Text(fixup), err }]
    } else {
        seq![]
    }) + seq![
        OciCall::AttrSet { target: pool, htype: OCI_HTYPE_SPOOL, attr: OCI_ATTR_SPOOL_AUTH, value: AttrValue::Ptr(info), err },
        OciCall::SessionPoolCreate {
            env, err, pool, dbname, min, max, incr, user, pass,
            mode: OCI_SPC_HOMOGENEOUS | OCI_SPC_STMTCACHE,
        },
    ]
}

/// The handle type allocated by each of the first three calls.
pub open spec fn spool_alloc_type(stage: nat) -> u32 {
    if stage == 0 { OCI_HTYPE_ERROR } else if stage == 1 { OCI_HTYPE_SPOOL } else { OCI_HTYPE_AUTHINFO }
}

/// Creating a session pool: the calls of `spool_script`, one at a time.
pub struct SPoolFlow {
    env: Ptr<OCIEnv>,
    dbname: String,
    user: String,
    pass: String,
    min: u32,
    max: u32,
    incr: u32,
    fixup: String,
    driver: String,
    stage: usize,
    err: usize,
    pool: usize,
    info: usize,
    name: String,
}

impl SPoolFlow {
    pub closed spec fn stage(&self) -> nat { self.stage as nat }
    pub closed spec fn err(&self) -> usize { self.err }
    pub closed spec fn pool(&self) -> usize { self.pool }
    pub closed spec fn info(&self) -> usize { self.info }
    pub closed spec fn env_addr(&self) -> usize { self.env.addr() }
    pub closed spec fn driver(&self) -> String { self.driver }
    /// The name OCI gave the pool, once the pool is created.
    pub closed spec fn pool_name(&self) -> String { self.name }
    /// What the pool is created with: database name, user name, password, the least
    /// number of sessions, the number it grows by, the most, and the fixup callback.
    pub closed spec fn params(&self) -> (String, String, String, u32, u32, u32, String) {
        (self.dbname, self.user, self.pass, self.min, self.incr, self.max, self.fixup)
    }

    pub closed spec fn script(&self) -> Seq<OciCall> {
        spool_script(self.env.addr(), self.dbname, self.user, self.pass, self.min, self.max, self.incr,
            self.fixup, self.driver, self.err, self.pool, self.info)
    }

    pub closed spec fn wf(&self) -> bool {
        &&& self.driver@ == driver_name()
        &&& self.stage <= self.script().len()
        &&& self.stage < 1 ==> self.err == 0
        &&& self.stage < 2 ==> self.pool == 0
        &&& self.stage < 3 ==> self.info == 0
    }

    /// The flow once `value` answers the call of the current stage.
    pub closed spec fn absorbed(&self, value: OciValue) -> SPoolFlow {
        let next = (self.stage + 1) as usize;
        if self.stage == 0 {
            SPoolFlow { err: allocated_addr(value), stage: next, ..*self }
        } else if self.stage == 1 {
            SPoolFlow { pool: allocated_addr(value), stage: next, ..*self }
        } else if self.stage == 2 {
            SPoolFlow { info: allocated_addr(value), stage: next, ..*self }
        } else if self.stage + 1 == self.script().len() {
            match value {
                OciValue::Text(name) => SPoolFlow { name, stage: next, ..*self },
                _ => SPoolFlow { stage: next, ..*self },
            }
        } else {
            SPoolFlow { stage: next, ..*self }
        }
    }

    /// Whether `p` is the pool that this flow created.
    pub closed spec fn created(&self, p: SPool) -> bool {
        &&& p.name == self.name
        &&& p.pool.addr() == self.pool
        &&& p.info.addr() == self.info
        &&& p.err.addr() == self.err
        &&& p.env.addr() == self.env.addr()
    }

    /// The calls the flow makes: the pool is created with the flow's parameters, its
    /// sizes in the order OCI takes them (least, most, increment), and the driver name.
    pub proof fn lemma_script(&self)
        requires
            self.wf(),
        ensures
            self.driver()@ == driver_name(),
            self.script() == spool_script(self.env_addr(), self.params().0, self.params().1, self.params().2,
                self.params().3, self.params().5, self.params().4, self.params().6, self.driver(),
                self.err(), self.pool(), self.info()),
    {
    }

    /// An answer moves the flow one stage on: the first three answers are the error,
    /// pool and authentication handles, the last holds the pool's name; the parameters stay.
    pub proof fn lemma_absorbed(&self, value: OciValue)
        requires
            self.wf(),
            self.stage() < self.script().len(),
        ensures
            self.absorbed(value).stage() == self.stage() + 1,
            self.absorbed(value).params() == self.params(),
            self.absorbed(value).env_addr() == self.env_addr(),
            self.absorbed(value).driver() == self.driver(),
            self.absorbed(value).err() == (if self.stage() == 0 { allocated_addr(value) } else { self.err() }),
            self.absorbed(value).pool() == (if self.stage() == 1 { allocated_addr(value) } else { self.pool() }),
            self.absorbed(value).info() == (if self.stage() == 2 { allocated_addr(value) } else { self.info() }),
            self.absorbed(value).pool_name() == (if self.stage() >= 3 && self.stage() + 1 == self.script().len() {
                match value { OciValue::Text(n) => n, _ => self.pool_name() }
            } else {
                self.pool_name()
            }),
    {
    }

    /// The pool a flow creates holds the flow's handles and the name OCI gave it.
    pub proof fn lemma_created(&self, p: SPool)
        ensures
            self.created(p) == (p.name() == self.pool_name() && p.pool_addr() == self.pool()
                && p.info_addr() == self.info() && p.err_addr() == self.err() && p.env_addr() == self.env_addr()),
    {
    }

    fn len(&self) -> (r: usize)
        ensures r == self.script().len(),
    {
        if self.fixup.unicode_len() > 0 { 7 } else { 6 }
    }

    fn call_at(&self, k: usize) -> (r: OciCall)
        requires
            self.wf(),
            k < self.script().len(),
        ensures
            r == self.script()[k as int],
    {
        let errp = Ptr::<OCIError>::new(self.err);
        let n = self.len();
        if k == 0 {
            Handle::<OCIError>::new(self.env)
        } else if k == 1 {
            Handle::<OCISPool>::new(self.env)
        } else if k == 2 {
            Handle::<OCIAuthInfo>::new(self.env)
        } else if k == 3 {
            attr::set(OCI_ATTR_DRIVER_NAME, AttrValue::Text(self.driver.clone()), OCI_HTYPE_AUTHINFO, self.info, errp)
        } else if k + 2 == n {
            attr::set(OCI_ATTR_SPOOL_AUTH, AttrValue::Ptr(self.info), OCI_HTYPE_SPOOL, self.pool, errp)
        } else if k + 1 == n {
            calls::session_pool_create(self.env, errp, Ptr::new(self.pool), &self.dbname, self.min, self.max, self.incr,
                &self.user, &self.pass, OCI_SPC_HOMOGENEOUS | OCI_SPC_STMTCACHE)
        } else {
            attr::set(OCI_ATTR_FIXUP_CALLBACK, AttrValue::Text(self.fixup.clone()), OCI_HTYPE_AUTHINFO, self.info, errp)
        }
    }

    fn absorb(&mut self, value: &OciValue)
        requires
            old(self).wf(),
            old(self).stage() < old(self).script().len(),
        ensures
            *final(self) == old(self).absorbed(*value),
    {
        if self.stage == 0 {
            self.err = reply_addr(value);
        } else if self.stage == 1 {
            self.pool = reply_addr(value);
        } else if self.stage == 2 {
            self.info = reply_addr(value);
        } else if self.stage + 1 == self.len() {
            match value {
                OciValue::Text(name) => { self.name = name.clone(); },
                _ => {},
            }
        }
        self.stage = self.stage + 1;
    }

    /// Takes OCI's answer to the call of the current stage.
    pub fn resume(&mut self, reply: &Reply) -> (r: Step<SessionPool>)
        requires
            old(self).wf(),
            old(self).stage() < old(self).script().len(),
        ensures
            ({
                let call = old(self).script()[old(self).stage() as int];
                let failure = spec_failure(call, reply.status);
                let null_alloc = old(self).stage() < 3 && allocated_addr(reply.value) == 0;
                &&& failure is Some ==> r == Step::<SessionPool>::Fail(failure->0) && *final(self) == *old(self)
                &&& failure is None && null_alloc ==> *final(self) == *old(self)
                    && (r matches Step::Done(Err(Error::Interface(m))) && m@ == null_handle_message(spool_alloc_type(old(self).stage())))
                &&& failure is None && !null_alloc ==> *final(self) == old(self).absorbed(reply.value)
                    && (final(self).stage() < final(self).script().len() ==> r == Step::<SessionPool>::Call(final(self).script()[final(self).stage() as int]))
                    && (final(self).stage() == final(self).script().len() ==> (r matches Step::Done(Ok(p)) && final(self).created(p.inner())))
            }),
            final(self).wf(),
    {
        let call = self.call_at(self.stage);
        match call.failure(reply.status) {
            Some(d) => { return Step::Fail(d); },
            None => {},
        }
        if self.stage < 3 && reply_addr(&reply.value) == 0 {
            let htype = if self.stage == 0 { OCI_HTYPE_ERROR } else if self.stage == 1 { OCI_HTYPE_SPOOL } else { OCI_HTYPE_AUTHINFO };
            return Step::Done(Err(null_handle_error(htype)));
        }
        self.absorb(&reply.value);
        if self.stage < self.len() {
            Step::Call(self.call_at(self.stage))
        } else {
            let inner = SPool {
                name: self.name.clone(),
                pool: Handle::from(Ptr::new(self.pool)),
                info: Handle::from(Ptr::new(self.info)),
                err: Handle::from(Ptr::new(self.err)),
                env: self.env,
            };
            Step::Done(Ok(SessionPool { inner }))
        }
    }

    /// What the flow leaves to free when it ends with an error: the handles allocated so far.
    pub fn cleanup(&self) -> (r: Vec<OciCall>)
        ensures
            r@ == frees(self.info(), OCI_HTYPE_AUTHINFO) + frees(self.pool(), OCI_HTYPE_SPOOL)
                + frees(self.err(), OCI_HTYPE_ERROR),
    {
        let mut calls: Vec<OciCall> = Vec::new();
        push_free(&mut calls, Handle::<OCIAuthInfo>::from(Ptr::new(self.info)).free());
        push_free(&mut calls, Handle::<OCISPool>::from(Ptr::new(self.pool)).free());
        push_free(&mut calls, Handle::<OCIError>::from(Ptr::new(self.err)).free());
        calls
    }
}

/// A pool of sessions that share the pool's connections.
pub struct SessionPool {
    inner: SPool,
}

/// How a session pool behaves when all its sessions are busy.
pub enum SessionPoolGetMode {
    Wait,
    NoWait,
    ForcedGet,
    TimedWait,
}

impl SessionPoolGetMode {
    /// The OCI code of the mode.
    pub open spec fn code(self) -> u8 {
        match self {
            SessionPoolGetMode::Wait => OCI_SPOOL_ATTRVAL_WAIT,
            SessionPoolGetMode::NoWait => OCI_SPOOL_ATTRVAL_NOWAIT,
            SessionPoolGetMode::ForcedGet => OCI_SPOOL_ATTRVAL_FORCEGET,
            SessionPoolGetMode::TimedWait => OCI_SPOOL_ATTRVAL_TIMEDWAIT,
        }
    }

    pub fn as_code(&self) -> (r: u8)
        ensures r == self.code(),
    {
        match self {
            SessionPoolGetMode::Wait => OCI_SPOOL_ATTRVAL_WAIT,
            SessionPoolGetMode::NoWait => OCI_SPOOL_ATTRVAL_NOWAIT,
            SessionPoolGetMode::ForcedGet => OCI_SPOOL_ATTRVAL_FORCEGET,
            SessionPoolGetMode::TimedWait => OCI_SPOOL_ATTRVAL_TIMEDWAIT,
        }
    }

    /// The mode that OCI reports: one of the four codes, or an error for any other value.
    pub fn from_code(mode: u8) -> (r: Result<SessionPoolGetMode, Error>)
        ensures
            mode <= 3 ==> (r matches Ok(m) && m.code() == mode),
            mode > 3 ==> (r matches Err(Error::Interface(msg)) && msg@ == unknown_mode_message()),
    {
        if mode == OCI_SPOOL_ATTRVAL_WAIT {
            Ok(SessionPoolGetMode::Wait)
        } else if mode == OCI_SPOOL_ATTRVAL_NOWAIT {
            Ok(SessionPoolGetMode::NoWait)
        } else if mode == OCI_SPOOL_ATTRVAL_FORCEGET {
            Ok(SessionPoolGetMode::ForcedGet)
        } else if mode == OCI_SPOOL_ATTRVAL_TIMEDWAIT {
            Ok(SessionPoolGetMode::TimedWait)
        } else {
            proof { reveal_strlit("unknown get mmode returned"); }
            Err(Error::new("unknown get mmode returned"))
        }
    }
}

/// Each get mode is written and read as its OCI code: waiting for a free session is 0,
/// failing at once is 1, forcing a new session is 2, waiting for a time is 3. Reading a
/// code back gives the mode that was written.
pub proof fn lemma_get_mode_values(mode: SessionPoolGetMode)
    ensures
        mode.code() == match mode {
            SessionPoolGetMode::Wait => 0u8,
            SessionPoolGetMode::NoWait => 1u8,
            SessionPoolGetMode::ForcedGet => 2u8,
            SessionPoolGetMode::TimedWait => 3u8,
        },
        forall|other: SessionPoolGetMode| #[trigger] other.code() == mode.code() ==> other == mode,
        mode.code() <= 3,
{
}

/// The message of a get mode that OCI reported and the library does not know.
pub open spec fn unknown_mode_message() -> Seq<char> {
    seq!['u', 'n', 'k', 'n', 'o', 'w', 'n', ' ', 'g', 'e', 't', ' ', 'm', 'm', 'o', 'd', 'e', ' ',
        'r', 'e', 't', 'u', 'r', 'n', 'e', 'd']
}

impl SessionPool {
    pub closed spec fn inner(&self) -> SPool { self.inner }

    /// The call that writes an attribute of the pool.
    pub open spec fn pool_attr_set(&self, attr: u32, value: AttrValue) -> OciCall {
        OciCall::AttrSet { target: self.inner().pool_addr(), htype: OCI_HTYPE_SPOOL, attr, value, err: self.inner().err_addr() }
    }

    /// The call that reads an attribute of the pool.
    pub open spec fn pool_attr_get(&self, attr: u32, kind: AttrKind) -> OciCall {
        OciCall::AttrGet { target: self.inner().pool_addr(), htype: OCI_HTYPE_SPOOL, attr, kind, err: self.inner().err_addr() }
    }

    fn get_attr(&self, attr_type: u32, kind: AttrKind) -> (r: OciCall)
        ensures r == self.pool_attr_get(attr_type, kind),
    {
        self.inner.pool.get_attr(attr_type, kind, self.inner.err.get_ptr())
    }

    fn set_attr(&self, attr_type: u32, value: AttrValue) -> (r: OciCall)
        ensures r == self.pool_attr_set(attr_type, value),
    {
        self.inner.pool.set_attr(attr_type, value, self.inner.err.get_ptr())
    }

    /// Creates a session pool of `min` to `max` sessions that grows by `inc`; the sizes
    /// are passed to OCI as 32-bit numbers.
    pub fn new(env: Ptr<OCIEnv>, dbname: &str, username: &str, password: &str, min: usize, inc: usize, max: usize, session_state_fixup_callback: &str) -> (r: (SPoolFlow, OciCall))
        ensures
            r.0.wf(),
            r.0.stage() == 0,
            r.0.env_addr() == env.addr(),
            r.0.params().0@ == dbname@,
            r.0.params().1@ == username@,
            r.0.params().2@ == password@,
            r.0.params().3 == min as u32,
            r.0.params().4 == inc as u32,
            r.0.params().5 == max as u32,
            r.0.params().6@ == session_state_fixup_callback@,
            r.1 == (OciCall::HandleAlloc { env: env.addr(), htype: OCI_HTYPE_ERROR }),
            r.1 == r.0.script()[0],
    {
        proof { reveal_strlit("sibyl"); }
        let driver = String::from_str("sibyl");
        assert(driver@ =~= driver_name());
        let flow = SPoolFlow {
            env,
            dbname: String::from_str(dbname),
            user: String::from_str(username),
            pass: String::from_str(password),
            min: min as u32,
            max: max as u32,
            incr: inc as u32,
            fixup: String::from_str(session_state_fixup_callback),
            driver,
            stage: 0,
            err: 0,
            pool: 0,
            info: 0,
            name: String::new(),
        };
        (flow, Handle::<OCIError>::new(env))
    }

    pub fn get_spool(&self) -> (r: &SPool)
        ensures *r == self.inner(),
    {
        &self.inner
    }

    pub fn get_env(&self) -> (r: Ptr<OCIEnv>)
        ensures r.addr() == self.inner().env_addr(),
    {
        self.inner.env
    }

    /// Returns a default (untagged) session from this session pool.
    pub fn get_session(&self) -> (r: (SessionFlow, OciCall))
        ensures
            r.0.wf(),
            r.0.stage() == 0,
            r.0.source() matches SessionSource::SessionPool { name, tag, .. }
                && name == self.inner().name() && tag@.len() == 0,
            r.1 == (OciCall::HandleAlloc { env: self.inner().env_addr(), htype: OCI_HTYPE_ERROR }),
    {
        proof { reveal_strlit(""); }
        Session::from_session_pool(self.inner.env, self.inner.pool.get_ptr(), &self.inner.name, "")
    }

    /// Returns a session from this pool that carries `taginfo`, or another session when
    /// the pool has none such; the flow's `found` tells which.
    pub fn get_tagged_session(&self, taginfo: &str) -> (r: (SessionFlow, OciCall))
        ensures
            r.0.wf(),
            r.0.stage() == 0,
            r.0.source() matches SessionSource::SessionPool { name, tag, .. }
                && name == self.inner().name() && tag@ == taginfo@,
            r.1 == (OciCall::HandleAlloc { env: self.inner().env_addr(), htype: OCI_HTYPE_ERROR }),
    {
        Session::from_session_pool(self.inner.env, self.inner.pool.get_ptr(), &self.inner.name, taginfo)
    }

    /// Returns the number of (busy) sessions checked out from the pool.
    pub fn busy_count(&self) -> (r: OciCall)
        ensures r == self.pool_attr_get(OCI_ATTR_SPOOL_BUSY_COUNT, AttrKind::U32),
    {
        self.get_attr(OCI_ATTR_SPOOL_BUSY_COUNT, AttrKind::U32)
    }

    /// Returns the number of open sessions in the pool.
    pub fn open_count(&self) -> (r: OciCall)
        ensures r == self.pool_attr_get(OCI_ATTR_SPOOL_OPEN_COUNT, AttrKind::U32),
    {
        self.get_attr(OCI_ATTR_SPOOL_OPEN_COUNT, AttrKind::U32)
    }

    /// Returns the "get" mode; `SessionPoolGetMode::from_code` reads OCI's answer.
    pub fn get_mode(&self) -> (r: OciCall)
        ensures r == self.pool_attr_get(OCI_ATTR_SPOOL_GETMODE, AttrKind::U8),
    {
        self.get_attr(OCI_ATTR_SPOOL_GETMODE, AttrKind::U8)
    }

    /// Sets the "get" mode.
    pub fn set_get_mode(&self, mode: SessionPoolGetMode) -> (r: OciCall)
        ensures r == self.pool_attr_set(OCI_ATTR_SPOOL_GETMODE, AttrValue::U8(mode.code())),
    {
        self.set_attr(OCI_ATTR_SPOOL_GETMODE, AttrValue::U8(mode.as_code()))
    }

    /// Returns the wait timeout (milliseconds) of the timed-wait mode.
    pub fn wait_timeout(&self) -> (r: OciCall)
        ensures r == self.pool_attr_get(OCI_ATTR_SPOOL_WAIT_TIMEOUT, AttrKind::U32),
    {
        self.get_attr(OCI_ATTR_SPOOL_WAIT_TIMEOUT, AttrKind::U32)
    }

    /// Sets the wait timeout (milliseconds) of the timed-wait mode.
    pub fn set_wait_timeout(&self, milliseconds: u32) -> (r: OciCall)
        ensures r == self.pool_attr_set(OCI_ATTR_SPOOL_WAIT_TIMEOUT, AttrValue::U32(milliseconds)),
    {
        self.set_attr(OCI_ATTR_SPOOL_WAIT_TIMEOUT, AttrValue::U32(milliseconds))
    }

    /// Returns the time (seconds) after which idle sessions are terminated.
    pub fn idle_timeout(&self) -> (r: OciCall)
        ensures r == self.pool_attr_get(OCI_ATTR_SPOOL_TIMEOUT, AttrKind::U32),
    {
        self.get_attr(OCI_ATTR_SPOOL_TIMEOUT, AttrKind::U32)
    }

    /// Sets the time (seconds) after which idle sessions are terminated.
    pub fn set_idle_timeout(&self, seconds: u32) -> (r: OciCall)
        ensures r == self.pool_attr_set(OCI_ATTR_SPOOL_TIMEOUT, AttrValue::U32(seconds)),
    {
        self.set_attr(OCI_ATTR_SPOOL_TIMEOUT, AttrValue::U32(seconds))
    }

    /// Returns the lifetime (seconds) of the pooled sessions.
    pub fn session_max_lifetime(&self) -> (r: OciCall)
        ensures r == self.pool_attr_get(OCI_ATTR_SPOOL_MAX_LIFETIME_SESSION, AttrKind::U32),
    {
        self.get_attr(OCI_ATTR_SPOOL_MAX_LIFETIME_SESSION, AttrKind::U32)
    }

    /// Sets the lifetime (seconds) of the pooled sessions.
    pub fn set_session_max_lifetime(&self, seconds: u32) -> (r: OciCall)
        ensures r == self.pool_attr_set(OCI_ATTR_SPOOL_MAX_LIFETIME_SESSION, AttrValue::U32(seconds)),
    {
        self.set_attr(OCI_ATTR_SPOOL_MAX_LIFETIME_SESSION, AttrValue::U32(seconds))
    }

    /// Returns how many times a pooled session may be used.
    pub fn session_max_use_count(&self) -> (r: OciCall)
        ensures r == self.pool_attr_get(OCI_ATTR_SPOOL_MAX_USE_SESSION, AttrKind::U32),
    {
        self.get_attr(OCI_ATTR_SPOOL_MAX_USE_SESSION, AttrKind::U32)
    }

    /// Sets how many times a pooled session may be used.
    pub fn set_session_max_use_count(&self, count: u32) -> (r: OciCall)
        ensures r == self.pool_attr_set(OCI_ATTR_SPOOL_MAX_USE_SESSION, AttrValue::U32(count)),
    {
        self.set_attr(OCI_ATTR_SPOOL_MAX_USE_SESSION, AttrValue::U32(count))
    }

    /// Returns the default statement cache size of the pooled sessions.
    pub fn statement_cache_size(&self) -> (r: OciCall)
        ensures r == self.pool_attr_get(OCI_ATTR_SPOOL_STMTCACHESIZE, AttrKind::U32),
    {
        self.get_attr(OCI_ATTR_SPOOL_STMTCACHESIZE, AttrKind::U32)
    }

    /// Sets the default statement cache size of the pooled sessions.
    pub fn set_statement_cache_size(&self, size: u32) -> (r: OciCall)
        ensures r == self.pool_attr_set(OCI_ATTR_SPOOL_STMTCACHESIZE, AttrValue::U32(size)),
    {
        self.set_attr(OCI_ATTR_SPOOL_STMTCACHESIZE, AttrValue::U32(size))
    }
}

/// Each "get" mode has a code of its own, which `from_code` maps back to the mode.
pub proof fn lemma_get_mode_codes(a: SessionPoolGetMode, b: SessionPoolGetMode)
    ensures
        a.code() <= 3,
        a.code() == b.code() ==> a == b,
{
}

/// What a session pool's setters write, its getters read back: the "get" mode, the wait
/// timeout, the idle timeout, the session lifetime and use count limits, and the
/// statement cache size.
pub proof fn lemma_pool_settings_read_back(p: SessionPool, store: AttrStore, mode: SessionPoolGetMode, wait: u32, idle: u32, lifetime: u32, uses: u32, cache: u32)
    ensures
        store_read(store_after(store, p.pool_attr_set(OCI_ATTR_SPOOL_GETMODE, AttrValue::U8(mode.code()))),
            p.pool_attr_get(OCI_ATTR_SPOOL_GETMODE, AttrKind::U8)) == Some(AttrValue::U8(mode.code())),
        store_read(store_after(store, p.pool_attr_set(OCI_ATTR_SPOOL_WAIT_TIMEOUT, AttrValue::U32(wait))),
            p.pool_attr_get(OCI_ATTR_SPOOL_WAIT_TIMEOUT, AttrKind::U32)) == Some(AttrValue::U32(wait)),
        store_read(store_after(store, p.pool_attr_set(OCI_ATTR_SPOOL_TIMEOUT, AttrValue::U32(idle))),
            p.pool_attr_get(OCI_ATTR_SPOOL_TIMEOUT, AttrKind::U32)) == Some(AttrValue::U32(idle)),
        store_read(store_after(store, p.pool_attr_set(OCI_ATTR_SPOOL_MAX_LIFETIME_SESSION, AttrValue::U32(lifetime))),
            p.pool_attr_get(OCI_ATTR_SPOOL_MAX_LIFETIME_SESSION, AttrKind::U32)) == Some(AttrValue::U32(lifetime)),
        store_read(store_after(store, p.pool_attr_set(OCI_ATTR_SPOOL_MAX_USE_SESSION, AttrValue::U32(uses))),
            p.pool_attr_get(OCI_ATTR_SPOOL_MAX_USE_SESSION, AttrKind::U32)) == Some(AttrValue::U32(uses)),
        store_read(store_after(store, p.pool_attr_set(OCI_ATTR_SPOOL_STMTCACHESIZE, AttrValue::U32(cache))),
            p.pool_attr_get(OCI_ATTR_SPOOL_STMTCACHESIZE, AttrKind::U32)) == Some(AttrValue::U32(cache)),
{
}

} // verus!
