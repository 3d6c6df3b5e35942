//! Connection pools

use vstd::prelude::*;
use vstd::string::*;
use crate::err::{Diag, Error};
use crate::oci::ptr::Ptr;
use crate::oci::handle::{allocated_addr, null_handle_error, null_handle_message, reply_addr, Handle};
use crate::oci::call::{spec_failure, store_after, store_read, AttrKind, AttrStore, AttrValue, OciCall, OciValue, Reply, Step};
use crate::oci::calls;
use crate::oci::{
    OCICPool, OCIEnv, OCIError, OCI_ATTR_CONN_BUSY_COUNT, OCI_ATTR_CONN_NOWAIT,
    OCI_ATTR_CONN_OPEN_COUNT, OCI_ATTR_CONN_TIMEOUT, OCI_DEFAULT, OCI_HTYPE_CPOOL, OCI_HTYPE_ERROR,
};
use crate::session::{frees, Session, SessionFlow, SessionSource};

verus! {

/// A pool of connections that sessions share.
pub struct ConnectionPool {
    pool: Handle<OCICPool>,
    err: Handle<OCIError>,
    env: Ptr<OCIEnv>,
    name: String,
}

/// The 32-bit number in an answer, zero when the answer holds none.
pub open spec fn u32_value(value: OciValue) -> u32 {
    match value {
        OciValue::U32(n) => n,
        _ => 0,
    }
}

pub fn reply_u32(value: &OciValue) -> (r: u32)
    ensures r == u32_value(*value),
{
    match value {
        OciValue::U32(n) => *n,
        _ => 0,
    }
}

/// The message of an idle timeout set on a pool without open connections.
pub open spec fn empty_pool_message() -> Seq<char> {
    seq!['p', 'o', 'o', 'l', ' ', 'i', 's', ' ', 'e', 'm', 'p', 't', 'y']
}

fn push_free(calls: &mut Vec<OciCall>, call: Option<OciCall>)
    ensures
        call is None ==> final(calls)@ == old(calls)@,
        call is Some ==> final(calls)@ == old(calls)@.push(call->0),
{
    match call {
        Some(c) => calls.push(c),
        None => {},
    }
}

/// The calls that create a connection pool. The creation reports its errors through
/// the environment's error handle `env_err`.
pub open spec fn cpool_script(
    env: usize, env_err: usize, dbname: String, user: String, pass: String,
    min: u32, max: u32, incr: u32, pool: usize,
) -> Seq<OciCall> {
    seq![
        OciCall::HandleAlloc { env, htype: OCI_HTYPE_ERROR },
        OciCall::HandleAlloc { env, htype: OCI_HTYPE_CPOOL },
        OciCall::ConnectionPoolCreate {
            env, err: env_err, pool, dblink: dbname, min, max, incr, user, pass, mode: OCI_DEFAULT,
        },
    ]
}

/// Creating a connection pool: the calls of `cpool_script`, one at a time.
pub struct CPoolFlow {
    env: Ptr<OCIEnv>,
    env_err: Ptr<OCIError>,
    dbname: String,
    user: String,
    pass: String,
    min: u32,
    max: u32,
    incr: u32,
    stage: usize,
    err: usize,
    pool: usize,
}

impl CPoolFlow {
    pub closed spec fn stage(&self) -> nat { self.stage as nat }
    pub closed spec fn err(&self) -> usize { self.err }
    pub closed spec fn pool(&self) -> usize { self.pool }
    pub closed spec fn env_addr(&self) -> usize { self.env.addr() }
    pub closed spec fn env_err(&self) -> usize { self.env_err.addr() }
    /// What the pool is created with: database name, user name, password, the least
    /// number of connections, the number it grows by, and the most.
    pub closed spec fn params(&self) -> (String, String, String, u32, u32, u32) {
        (self.dbname, self.user, self.pass, self.min, self.incr, self.max)
    }

    pub closed spec fn script(&self) -> Seq<OciCall> {
        cpool_script(self.env.addr(), self.env_err.addr(), self.dbname, self.user, self.pass,
            self.min, self.max, self.incr, self.pool)
    }

    /// The flow once the error handle is known.
    pub closed spec fn with_err(&self, err: usize) -> CPoolFlow {
        CPoolFlow { err, stage: 1, ..*self }
    }

    /// The flow once the pool handle is known.
    pub closed spec fn with_pool(&self, pool: usize) -> CPoolFlow {
        CPoolFlow { pool, stage: 2, ..*self }
    }

    pub closed spec fn wf(&self) -> bool {
        &&& self.stage <= 3
        &&& self.stage < 1 ==> self.err == 0
        &&& self.stage < 2 ==> self.pool == 0
    }

    /// Whether `p` is the pool that this flow created, under the name OCI gave it.
    pub closed spec fn created(&self, p: ConnectionPool, name: OciValue) -> bool {
        &&& p.pool.addr() == self.pool
        &&& p.err.addr() == self.err
        &&& p.env.addr() == self.env.addr()
        &&& name matches OciValue::Text(n) ==> p.name == n
    }

    /// The calls the flow makes: the pool is created with the flow's parameters, its
    /// sizes in the order OCI takes them (least, most, increment).
    pub proof fn lemma_script(&self)
        ensures
            self.script() == cpool_script(self.env_addr(), self.env_err(), self.params().0, self.params().1,
                self.params().2, self.params().3, self.params().5, self.params().4, self.pool()),
    {
    }

    /// Learning a handle moves the flow one stage on and keeps its parameters.
    pub proof fn lemma_handles(&self, a: usize)
        ensures
            self.with_err(a).err() == a && self.with_err(a).stage() == 1 && self.with_err(a).pool() == self.pool(),
            self.with_pool(a).pool() == a && self.with_pool(a).stage() == 2 && self.with_pool(a).err() == self.err(),
            self.with_err(a).params() == self.params() && self.with_pool(a).params() == self.params(),
            self.with_err(a).env_addr() == self.env_addr() && self.with_pool(a).env_addr() == self.env_addr(),
            self.with_err(a).env_err() == self.env_err() && self.with_pool(a).env_err() == self.env_err(),
    {
    }

    /// The pool a flow creates holds the flow's handles and the name OCI gave it.
    pub proof fn lemma_created(&self, p: ConnectionPool, name: OciValue)
        ensures
            self.created(p, name) == (p.pool_addr() == self.pool() && p.err_addr() == self.err()
                && p.env_addr() == self.env_addr() && (name matches OciValue::Text(n) ==> p.name() == n)),
    {
    }

    fn call_at(&self, k: usize) -> (r: OciCall)
        requires k < 3,
        ensures r == self.script()[k as int],
    {
        if k == 0 {
            Handle::<OCIError>::new(self.env)
        } else if k == 1 {
            Handle::<OCICPool>::new(self.env)
        } else {
            calls::connection_pool_create(self.env, self.env_err, Ptr::new(self.pool), &self.dbname,
                self.min, self.max, self.incr, &self.user, &self.pass, OCI_DEFAULT)
        }
    }

    /// Takes OCI's answer to the call of the current stage.
    pub fn resume(&mut self, reply: &Reply) -> (r: Step<ConnectionPool>)
        requires
            old(self).wf(),
            old(self).stage() < 3,
        ensures
            final(self).wf(),
            ({
                let call = old(self).script()[old(self).stage() as int];
                let failure = spec_failure(call, reply.status);
                let null_alloc = old(self).stage() < 2 && allocated_addr(reply.value) == 0;
                &&& failure is Some ==> r == Step::<ConnectionPool>::Fail(failure->0) && *final(self) == *old(self)
                &&& failure is None && null_alloc ==> *final(self) == *old(self)
                    && (r matches Step::Done(Err(Error::Interface(m)))
                        && m@ == null_handle_message(if old(self).stage() == 0 { OCI_HTYPE_ERROR } else { OCI_HTYPE_CPOOL }))
                &&& failure is None && !null_alloc && old(self).stage() == 0 ==>
                    *final(self) == old(self).with_err(allocated_addr(reply.value))
                    && r == Step::<ConnectionPool>::Call(final(self).script()[1])
                &&& failure is None && !null_alloc && old(self).stage() == 1 ==>
                    *final(self) == old(self).with_pool(allocated_addr(reply.value))
                    && r == Step::<ConnectionPool>::Call(final(self).script()[2])
                &&& failure is None && old(self).stage() == 2 ==> final(self).stage() == 3
                    && (r matches Step::Done(Ok(p)) && final(self).created(p, reply.value))
            }),
    {
        let call = self.call_at(self.stage);
        match call.failure(reply.status) {
            Some(d) => { return Step::Fail(d); },
            None => {},
        }
        if self.stage < 2 {
            let a = reply_addr(&reply.value);
            if a == 0 {
                let htype = if self.stage == 0 { OCI_HTYPE_ERROR } else { OCI_HTYPE_CPOOL };
                return Step::Done(Err(null_handle_error(htype)));
            }
            if self.stage == 0 {
                self.err = a;
            } else {
                self.pool = a;
            }
            self.stage = self.stage + 1;
            Step::Call(self.call_at(self.stage))
        } else {
            self.stage = 3;
            let name = match &reply.value {
                OciValue::Text(n) => n.clone(),
                _ => String::new(),
            };
            Step::Done(Ok(ConnectionPool {
                pool: Handle::from(Ptr::new(self.pool)),
                err: Handle::from(Ptr::new(self.err)),
                env: self.env,
                name,
            }))
        }
    }

    /// What the flow leaves to free when it ends with an error: the handles allocated so far.
    pub fn cleanup(&self) -> (r: Vec<OciCall>)
        ensures
            r@ == frees(self.pool(), OCI_HTYPE_CPOOL) + frees(self.err(), OCI_HTYPE_ERROR),
    {
        let mut calls: Vec<OciCall> = Vec::new();
        push_free(&mut calls, Handle::<OCICPool>::from(Ptr::new(self.pool)).free());
        push_free(&mut calls, Handle::<OCIError>::from(Ptr::new(self.err)).free());
        calls
    }
}

/// Setting the idle timeout of a connection pool: the pool's open connections are
/// counted first, and the timeout is only set when there are some.
pub struct IdleTimeoutFlow {
    pool: usize,
    err: usize,
    idle_time: u32,
    stage: u8,
}

impl IdleTimeoutFlow {
    pub closed spec fn stage(&self) -> u8 { self.stage }
    pub closed spec fn set_call(&self) -> OciCall {
        OciCall::AttrSet { target: self.pool, htype: OCI_HTYPE_CPOOL, attr: OCI_ATTR_CONN_TIMEOUT, value: AttrValue::U32(self.idle_time), err: self.err }
    }
    pub closed spec fn err(&self) -> usize { self.err }

    /// Takes OCI's answer to the last call.
    pub fn resume(&mut self, reply: &Reply) -> (r: Step<()>)
        requires
            old(self).stage() < 2,
        ensures
            reply.status < 0 ==> r == Step::<()>::Fail(Diag { handle: old(self).err(), htype: OCI_HTYPE_ERROR, rc: reply.status }),
            reply.status >= 0 && old(self).stage() == 0 && u32_value(reply.value) > 0 ==>
                r == Step::<()>::Call(old(self).set_call()) && final(self).stage() == 1,
            reply.status >= 0 && old(self).stage() == 0 && u32_value(reply.value) == 0 ==>
                (r matches Step::Done(Err(Error::Interface(m))) && m@ == empty_pool_message()),
            reply.status >= 0 && old(self).stage() == 1 ==> r == Step::<()>::Done(Ok(())),
            final(self).set_call() == old(self).set_call(),
            final(self).err() == old(self).err(),
    {
        if reply.status < 0 {
            return Step::Fail(Diag::oci(self.err, reply.status));
        }
        if self.stage == 0 {
            if reply_u32(&reply.value) > 0 {
                self.stage = 1;
                Step::Call(OciCall::AttrSet { target: self.pool, htype: OCI_HTYPE_CPOOL, attr: OCI_ATTR_CONN_TIMEOUT, value: AttrValue::U32(self.idle_time), err: self.err })
            } else {
                proof { reveal_strlit("pool is empty"); }
                Step::Done(Err(Error::new("pool is empty")))
            }
        } else {
            Step::Done(Ok(()))
        }
    }
}

impl ConnectionPool {
    pub closed spec fn pool_addr(&self) -> usize { self.pool.addr() }
    pub closed spec fn err_addr(&self) -> usize { self.err.addr() }
    pub closed spec fn env_addr(&self) -> usize { self.env.addr() }
    pub closed spec fn name(&self) -> String { self.name }

    /// The call that writes an attribute of the pool.
    pub open spec fn pool_attr_set(&self, attr: u32, value: AttrValue) -> OciCall {
        OciCall::AttrSet { target: self.pool_addr(), htype: OCI_HTYPE_CPOOL, attr, value, err: self.err_addr() }
    }

    /// The call that reads an attribute of the pool.
    pub open spec fn pool_attr_get(&self, attr: u32, kind: AttrKind) -> OciCall {
        OciCall::AttrGet { target: self.pool_addr(), htype: OCI_HTYPE_CPOOL, attr, kind, err: self.err_addr() }
    }

    /// Creates a connection pool of `min` to `max` connections that grows by `inc`; the
    /// sizes are passed to OCI as 32-bit numbers. `env_err` is the environment's error handle.
    pub fn new(env: Ptr<OCIEnv>, env_err: Ptr<OCIError>, dbname: &str, username: &str, password: &str, min: usize, inc: usize, max: usize) -> (r: (CPoolFlow, OciCall))
        ensures
            r.0.wf(),
            r.0.stage() == 0,
            r.0.env_addr() == env.addr(),
            r.0.env_err() == env_err.addr(),
            r.0.params().0@ == dbname@,
            r.0.params().1@ == username@,
            r.0.params().2@ == password@,
            r.0.params().3 == min as u32,
            r.0.params().4 == inc as u32,
            r.0.params().5 == max as u32,
            r.1 == (OciCall::HandleAlloc { env: env.addr(), htype: OCI_HTYPE_ERROR }),
            r.1 == r.0.script()[0],
    {
        let flow = CPoolFlow {
            env,
            env_err,
            dbname: String::from_str(dbname),
            user: String::from_str(username),
            pass: String::from_str(password),
            min: min as u32,
            max: max as u32,
            incr: inc as u32,
            stage: 0,
            err: 0,
            pool: 0,
        };
        (flow, Handle::<OCIError>::new(env))
    }

    pub fn get_env(&self) -> (r: Ptr<OCIEnv>)
        ensures r.addr() == self.env_addr(),
    {
        self.env
    }

    /// Returns a new session that uses one of the pool's connections.
    pub fn get_session(&self, user: &str, pass: &str) -> (r: (SessionFlow, OciCall))
        ensures
            r.0.wf(),
            r.0.stage() == 0,
            r.0.source() matches SessionSource::ConnectionPool { pool_err, name, user: u, pass: p }
                && pool_err.addr() == self.err_addr() && name == self.name() && u@ == user@ && p@ == pass@,
            r.1 == (OciCall::HandleAlloc { env: self.env_addr(), htype: OCI_HTYPE_ERROR }),
    {
        Session::from_connection_pool(self.env, self.err.get_ptr(), &self.name, user, pass)
    }

    /// Returns the time (seconds) after which idle connections are terminated.
    pub fn idle_timeout(&self) -> (r: OciCall)
        ensures r == self.pool_attr_get(OCI_ATTR_CONN_TIMEOUT, AttrKind::U32),
    {
        self.pool.get_attr(OCI_ATTR_CONN_TIMEOUT, AttrKind::U32, self.err.get_ptr())
    }

    /// Sets the time (seconds) after which idle connections are terminated; the pool
    /// must have open connections.
    pub fn set_idle_timeout(&self, idle_time: u32) -> (r: (IdleTimeoutFlow, OciCall))
        ensures
            r.0.stage() == 0,
            r.0.set_call() == self.pool_attr_set(OCI_ATTR_CONN_TIMEOUT, AttrValue::U32(idle_time)),
            r.0.err() == self.err_addr(),
            r.1 == self.pool_attr_get(OCI_ATTR_CONN_OPEN_COUNT, AttrKind::U32),
    {
        let flow = IdleTimeoutFlow { pool: self.pool.get(), err: self.err.get(), idle_time, stage: 0 };
        (flow, self.open_count())
    }

    /// Reports whether the pool returns an error, rather than waiting, when all its
    /// connections are busy.
    pub fn is_nowait(&self) -> (r: OciCall)
        ensures r == self.pool_attr_get(OCI_ATTR_CONN_NOWAIT, AttrKind::U8),
    {
        self.pool.get_attr(OCI_ATTR_CONN_NOWAIT, AttrKind::U8, self.err.get_ptr())
    }

    /// Makes the pool return an error, rather than wait, when all its connections are busy.
    pub fn set_nowait(&self) -> (r: OciCall)
        ensures r == self.pool_attr_set(OCI_ATTR_CONN_NOWAIT, AttrValue::Null),
    {
        calls::attr_set(self.pool.get(), OCI_HTYPE_CPOOL, AttrValue::Null, OCI_ATTR_CONN_NOWAIT, self.err.get_ptr())
    }

    /// Returns the number of busy connections.
    pub fn busy_count(&self) -> (r: OciCall)
        ensures r == self.pool_attr_get(OCI_ATTR_CONN_BUSY_COUNT, AttrKind::U32),
    {
        self.pool.get_attr(OCI_ATTR_CONN_BUSY_COUNT, AttrKind::U32, self.err.get_ptr())
    }

    /// Returns the number of open connections.
    pub fn open_count(&self) -> (r: OciCall)
        ensures r == self.pool_attr_get(OCI_ATTR_CONN_OPEN_COUNT, AttrKind::U32),
    {
        self.pool.get_attr(OCI_ATTR_CONN_OPEN_COUNT, AttrKind::U32, self.err.get_ptr())
    }

    /// What dropping the pool does: destroy it, then free its handles.
    pub fn release(&self) -> (r: Vec<OciCall>)
        ensures
            r@ == seq![OciCall::ConnectionPoolDestroy { pool: self.pool_addr(), err: self.err_addr() }]
                + frees(self.pool_addr(), OCI_HTYPE_CPOOL) + frees(self.err_addr(), OCI_HTYPE_ERROR),
    {
        let mut calls: Vec<OciCall> = Vec::new();
        calls.push(calls::oci_connection_pool_destroy(self.pool.get_ptr(), self.err.get_ptr()));
        push_free(&mut calls, self.pool.free());
        push_free(&mut calls, self.err.free());
        calls
    }
}

/// The idle timeout that `set_idle_timeout` writes is what `idle_timeout` reads back.
pub proof fn lemma_idle_timeout_reads_back(p: ConnectionPool, store: AttrStore, seconds: u32)
    ensures
        store_read(store_after(store, p.pool_attr_set(OCI_ATTR_CONN_TIMEOUT, AttrValue::U32(seconds))),
            p.pool_attr_get(OCI_ATTR_CONN_TIMEOUT, AttrKind::U32)) == Some(AttrValue::U32(seconds)),
{
}

} // verus!
