//! OCI environment

use vstd::prelude::*;
use vstd::string::*;
use crate::err::Error;
use crate::oci::ptr::Ptr;
use crate::oci::handle::{allocated_addr, null_handle_message, Handle};
use crate::oci::call::{store_after, store_read, DEFAULT_CACHE_MAX_SIZE, DEFAULT_CACHE_OPT_SIZE, AttrKind, AttrStore, AttrValue, OciCall, Reply, Step};
use crate::oci::{
    OCIEnv, OCIError, AL32UTF8, OCI_ATTR_CACHE_MAX_SIZE, OCI_ATTR_CACHE_OPT_SIZE,
    OCI_ATTR_ENV_NLS_LANGUAGE, OCI_ATTR_ENV_NLS_TERRITORY, OCI_DEFAULT, OCI_HTYPE_ENV,
    OCI_HTYPE_ERROR, OCI_OBJECT, OCI_SESSGET_SYSDBA, OCI_SUCCESS, OCI_THREADED, UTF8,
};
use crate::pool::connection::{CPoolFlow, ConnectionPool};
use crate::pool::session::{SPoolFlow, SessionPool};
use crate::session::{frees, Session, SessionFlow, SessionSource};

verus! {

/// Represents an OCI environment.
pub struct Environment {
    env: Handle<OCIEnv>,
    err: Handle<OCIError>,
}

/// The message of an environment that OCI could not create.
pub open spec fn no_environment_message() -> Seq<char> {
    seq!['C', 'a', 'n', 'n', 'o', 't', ' ', 'c', 'r', 'e', 'a', 't', 'e', ' ', 'O', 'C', 'I', ' ',
        'e', 'n', 'v', 'i', 'r', 'o', 'n', 'm', 'e', 'n', 't']
}

/// The call that creates the environment: threaded, with objects, UTF-8 for both
/// character sets.
pub open spec fn env_create_call() -> OciCall {
    OciCall::EnvNlsCreate { mode: OCI_OBJECT | OCI_THREADED, charset: AL32UTF8, ncharset: UTF8 }
}

/// Creating an environment: the environment itself, then its error handle.
pub struct EnvironmentFlow {
    env: usize,
    stage: u8,
}

impl EnvironmentFlow {
    pub closed spec fn stage(&self) -> u8 { self.stage }
    pub closed spec fn env(&self) -> usize { self.env }

    /// Takes OCI's answer to the last call.
    pub fn resume(&mut self, reply: &Reply) -> (r: Step<Environment>)
        requires
            old(self).stage() < 2,
        ensures
            old(self).stage() == 0 && reply.status != OCI_SUCCESS ==>
                (r matches Step::Done(Err(Error::Interface(m))) && m@ == no_environment_message())
                && final(self).stage() == 0,
            old(self).stage() == 0 && reply.status == OCI_SUCCESS ==>
                final(self).stage() == 1 && final(self).env() == allocated_addr(reply.value)
                && r == Step::<Environment>::Call(OciCall::HandleAlloc { env: final(self).env(), htype: OCI_HTYPE_ERROR }),
            old(self).stage() == 1 && reply.status < 0 ==>
                r == Step::<Environment>::Fail(crate::err::Diag { handle: old(self).env(), htype: OCI_HTYPE_ENV, rc: reply.status }),
            old(self).stage() == 1 && reply.status >= 0 && allocated_addr(reply.value) == 0 ==>
                (r matches Step::Done(Err(Error::Interface(m))) && m@ == null_handle_message(OCI_HTYPE_ERROR)),
            old(self).stage() == 1 && reply.status >= 0 && allocated_addr(reply.value) != 0 ==>
                (r matches Step::Done(Ok(e)) && e.env_addr() == old(self).env()
                    && e.err_addr() == allocated_addr(reply.value)),
            old(self).stage() == 1 ==> *final(self) == *old(self),
    {
        if self.stage == 0 {
            if reply.status != OCI_SUCCESS {
                proof { reveal_strlit("Cannot create OCI environment"); }
                return Step::Done(Err(Error::new("Cannot create OCI environment")));
            }
            self.env = crate::oci::handle::reply_addr(&reply.value);
            self.stage = 1;
            Step::Call(Handle::<OCIError>::new(Ptr::new(self.env)))
        } else {
            let env = Ptr::<OCIEnv>::new(self.env);
            match Handle::<OCIError>::allocated(env, reply) {
                Step::Done(Ok(err)) => Step::Done(Ok(Environment { env: Handle::from(env), err })),
                Step::Done(Err(e)) => Step::Done(Err(e)),
                Step::Fail(d) => Step::Fail(d),
                Step::Call(c) => Step::Call(c),
            }
        }
    }

    /// What the flow leaves to free when it ends with an error: the environment, once created.
    pub fn cleanup(&self) -> (r: Vec<OciCall>)
        ensures
            self.stage() == 0 ==> r@ == Seq::<OciCall>::empty(),
            self.stage() != 0 ==> r@ == frees(self.env(), OCI_HTYPE_ENV),
    {
        let mut calls: Vec<OciCall> = Vec::new();
        if self.stage != 0 {
            match Handle::<OCIEnv>::from(Ptr::new(self.env)).free() {
                Some(c) => calls.push(c),
                None => {},
            }
        }
        calls
    }
}

impl Environment {
    pub closed spec fn env_addr(&self) -> usize { self.env.addr() }
    pub closed spec fn err_addr(&self) -> usize { self.err.addr() }

    /// The call that writes an attribute of the environment.
    pub open spec fn env_attr_set(&self, attr: u32, value: AttrValue) -> OciCall {
        OciCall::AttrSet { target: self.env_addr(), htype: OCI_HTYPE_ENV, attr, value, err: self.err_addr() }
    }

    /// The call that reads an attribute of the environment.
    pub open spec fn env_attr_get(&self, attr: u32, kind: AttrKind) -> OciCall {
        OciCall::AttrGet { target: self.env_addr(), htype: OCI_HTYPE_ENV, attr, kind, err: self.err_addr() }
    }

    /// Returns a new environment handle, which is then used by the OCI functions.
    pub fn new() -> (r: (EnvironmentFlow, OciCall))
        ensures
            r.0.stage() == 0,
            r.1 == env_create_call(),
    {
        (EnvironmentFlow { env: 0, stage: 0 }, OciCall::EnvNlsCreate { mode: OCI_OBJECT | OCI_THREADED, charset: AL32UTF8, ncharset: UTF8 })
    }

    pub fn get_env(&self) -> (r: Ptr<OCIEnv>)
        ensures r.addr() == self.env_addr(),
    {
        self.env.get_ptr()
    }

    pub fn get_err(&self) -> (r: Ptr<OCIError>)
        ensures r.addr() == self.err_addr(),
    {
        self.err.get_ptr()
    }

    fn get_attr(&self, attr_type: u32, kind: AttrKind) -> (r: OciCall)
        ensures r == self.env_attr_get(attr_type, kind),
    {
        self.env.get_attr(attr_type, kind, self.err.get_ptr())
    }

    fn get_attr_into(&self, attr_type: u32, capacity: usize) -> (r: OciCall)
        ensures r == self.env_attr_get(attr_type, AttrKind::TextInto(capacity)),
    {
        self.env.get_attr_into(attr_type, capacity, self.err.get_ptr())
    }

    fn set_attr(&self, attr_type: u32, attr_val: AttrValue) -> (r: OciCall)
        ensures r == self.env_attr_set(attr_type, attr_val),
    {
        self.env.set_attr(attr_type, attr_val, self.err.get_ptr())
    }

    /// Returns the maximum size (high watermark) for the client-side object cache.
    pub fn max_cache_size(&self) -> (r: OciCall)
        ensures r == self.env_attr_get(OCI_ATTR_CACHE_MAX_SIZE, AttrKind::U32),
    {
        self.get_attr(OCI_ATTR_CACHE_MAX_SIZE, AttrKind::U32)
    }

    /// Sets the maximum size (high watermark) for the client-side object cache.
    pub fn set_cache_max_size(&self, size: u32) -> (r: OciCall)
        ensures r == self.env_attr_set(OCI_ATTR_CACHE_MAX_SIZE, AttrValue::U32(size)),
    {
        self.set_attr(OCI_ATTR_CACHE_MAX_SIZE, AttrValue::U32(size))
    }

    /// Returns the optimal size for the client-side object cache.
    pub fn optimal_cache_size(&self) -> (r: OciCall)
        ensures r == self.env_attr_get(OCI_ATTR_CACHE_OPT_SIZE, AttrKind::U32),
    {
        self.get_attr(OCI_ATTR_CACHE_OPT_SIZE, AttrKind::U32)
    }

    /// Sets the optimal size for the client-side object cache.
    pub fn set_cache_opt_size(&self, size: u32) -> (r: OciCall)
        ensures r == self.env_attr_set(OCI_ATTR_CACHE_OPT_SIZE, AttrValue::U32(size)),
    {
        self.set_attr(OCI_ATTR_CACHE_OPT_SIZE, AttrValue::U32(size))
    }

    /// Returns the name of the language used for the database sessions created in the
    /// environment, read into a buffer of 32 bytes.
    pub fn nls_language(&self) -> (r: OciCall)
        ensures r == self.env_attr_get(OCI_ATTR_ENV_NLS_LANGUAGE, AttrKind::TextInto(32)),
    {
        self.get_attr_into(OCI_ATTR_ENV_NLS_LANGUAGE, 32)
    }

    /// Sets the language used for the database sessions created in the environment.
    pub fn set_nls_language(&self, lang: &str) -> (r: OciCall)
        ensures
            r matches OciCall::AttrSet { value: AttrValue::Text(t), .. } && t@ == lang@
                && r == self.env_attr_set(OCI_ATTR_ENV_NLS_LANGUAGE, AttrValue::Text(t)),
    {
        self.set_attr(OCI_ATTR_ENV_NLS_LANGUAGE, AttrValue::Text(String::from_str(lang)))
    }

    /// Returns the name of the territory used for the database sessions created in the
    /// environment, read into a buffer of 24 bytes.
    pub fn nls_territory(&self) -> (r: OciCall)
        ensures r == self.env_attr_get(OCI_ATTR_ENV_NLS_TERRITORY, AttrKind::TextInto(24)),
    {
        self.get_attr_into(OCI_ATTR_ENV_NLS_TERRITORY, 24)
    }

    /// Sets the territory used for the database sessions created in the environment.
    pub fn set_nls_territory(&self, territory: &str) -> (r: OciCall)
        ensures
            r matches OciCall::AttrSet { value: AttrValue::Text(t), .. } && t@ == territory@
                && r == self.env_attr_set(OCI_ATTR_ENV_NLS_TERRITORY, AttrValue::Text(t)),
    {
        self.set_attr(OCI_ATTR_ENV_NLS_TERRITORY, AttrValue::Text(String::from_str(territory)))
    }

    /// Creates and begins a user session for a given user to connect to the specified database.
    pub fn connect(&self, dbname: &str, username: &str, password: &str) -> (r: (SessionFlow, OciCall))
        ensures
            r.0.wf(),
            r.0.stage() == 0,
            r.0.env_addr() == self.env_addr(),
            r.0.source() matches SessionSource::Direct { dblink, user, pass, mode }
                && dblink@ == dbname@ && user@ == username@ && pass@ == password@ && mode == OCI_DEFAULT,
            r.1 == (OciCall::HandleAlloc { env: self.env_addr(), htype: OCI_HTYPE_ERROR }),
    {
        Session::new(self.env.get_ptr(), dbname, username, password, OCI_DEFAULT)
    }

    /// Creates and begins a session with the SYSDBA privilege.
    pub fn connect_as_sysdba(&self, dbname: &str, username: &str, password: &str) -> (r: (SessionFlow, OciCall))
        ensures
            r.0.wf(),
            r.0.stage() == 0,
            r.0.env_addr() == self.env_addr(),
            r.0.source() matches SessionSource::Direct { dblink, user, pass, mode }
                && dblink@ == dbname@ && user@ == username@ && pass@ == password@ && mode == OCI_SESSGET_SYSDBA,
            r.1 == (OciCall::HandleAlloc { env: self.env_addr(), htype: OCI_HTYPE_ERROR }),
    {
        Session::new(self.env.get_ptr(), dbname, username, password, OCI_SESSGET_SYSDBA)
    }

    /// Creates a new session pool of `min` to `max` sessions that grows by `inc`.
    pub fn create_session_pool(&self, dbname: &str, username: &str, password: &str, min: usize, inc: usize, max: usize) -> (r: (SPoolFlow, OciCall))
        ensures
            r.0.wf(),
            r.0.stage() == 0,
            r.0.env_addr() == self.env_addr(),
            r.0.params().0@ == dbname@,
            r.0.params().1@ == username@,
            r.0.params().2@ == password@,
            r.0.params().3 == min as u32,
            r.0.params().4 == inc as u32,
            r.0.params().5 == max as u32,
            r.0.params().6@.len() == 0,
            r.1 == (OciCall::HandleAlloc { env: self.env_addr(), htype: OCI_HTYPE_ERROR }),
    {
        proof { reveal_strlit(""); }
        SessionPool::new(self.env.get_ptr(), dbname, username, password, min, inc, max, "")
    }

    /// Creates a new session pool whose sessions are fixed up by the PL/SQL procedure
    /// `session_state_fixup_callback` when their state does not match the requested one.
    pub fn create_session_pool_with_session_state_fixup(&self, dbname: &str, username: &str, password: &str, min: usize, inc: usize, max: usize, session_state_fixup_callback: &str) -> (r: (SPoolFlow, OciCall))
        ensures
            r.0.wf(),
            r.0.stage() == 0,
            r.0.env_addr() == self.env_addr(),
            r.0.params().0@ == dbname@,
            r.0.params().1@ == username@,
            r.0.params().2@ == password@,
            r.0.params().3 == min as u32,
            r.0.params().4 == inc as u32,
            r.0.params().5 == max as u32,
            r.0.params().6@ == session_state_fixup_callback@,
            r.1 == (OciCall::HandleAlloc { env: self.env_addr(), htype: OCI_HTYPE_ERROR }),
    {
        SessionPool::new(self.env.get_ptr(), dbname, username, password, min, inc, max, session_state_fixup_callback)
    }

    /// Creates a new connection pool of `min` to `max` connections that grows by `inc`.
    pub fn create_connection_pool(&self, dbname: &str, username: &str, password: &str, min: usize, inc: usize, max: usize) -> (r: (CPoolFlow, OciCall))
        ensures
            r.0.wf(),
            r.0.stage() == 0,
            r.0.env_addr() == self.env_addr(),
            r.0.env_err() == self.err_addr(),
            r.0.params().0@ == dbname@,
            r.0.params().1@ == username@,
            r.0.params().2@ == password@,
            r.0.params().3 == min as u32,
            r.0.params().4 == inc as u32,
            r.0.params().5 == max as u32,
            r.1 == (OciCall::HandleAlloc { env: self.env_addr(), htype: OCI_HTYPE_ERROR }),
    {
        ConnectionPool::new(self.env.get_ptr(), self.err.get_ptr(), dbname, username, password, min, inc, max)
    }
}

/// What an environment's cache size setters write, its getters read back; a size of 0
/// sets the default (10 percent for the maximum size, 8 MB for the optimal size).
pub proof fn lemma_cache_sizes_read_back(e: Environment, store: AttrStore, max: u32, opt: u32)
    ensures
        store_read(store_after(store, e.env_attr_set(OCI_ATTR_CACHE_MAX_SIZE, AttrValue::U32(max))),
            e.env_attr_get(OCI_ATTR_CACHE_MAX_SIZE, AttrKind::U32))
            == Some(AttrValue::U32(if max == 0 { DEFAULT_CACHE_MAX_SIZE } else { max })),
        store_read(store_after(store, e.env_attr_set(OCI_ATTR_CACHE_OPT_SIZE, AttrValue::U32(opt))),
            e.env_attr_get(OCI_ATTR_CACHE_OPT_SIZE, AttrKind::U32))
            == Some(AttrValue::U32(if opt == 0 { DEFAULT_CACHE_OPT_SIZE } else { opt })),
{
}

} // verus!
