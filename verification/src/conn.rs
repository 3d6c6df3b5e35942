//! Connections: user sessions with the attribute API of the earlier interface.

use vstd::prelude::*;
use vstd::string::*;
use crate::oci::ptr::Ptr;
use crate::oci::call::{AttrKind, AttrValue, OciCall};
use crate::oci::{attr, calls};
use crate::oci::{
    OCIEnv, OCIError, OCISession, OCISvcCtx, OCI_ATTR_ACTION, OCI_ATTR_CALL_TIME,
    OCI_ATTR_CLIENT_IDENTIFIER, OCI_ATTR_CLIENT_INFO, OCI_ATTR_COLLECT_CALL_TIME,
    OCI_ATTR_CURRENT_SCHEMA, OCI_ATTR_DEFAULT_LOBPREFETCH_SIZE, OCI_ATTR_MODULE, OCI_DEFAULT,
    OCI_HTYPE_ERROR, OCI_HTYPE_SESSION,
};
use crate::session::{server_handle_call, ServerPurpose, ServerQuery, Session, SessionFlow, SessionSource, SvcCtx};
use crate::pool::connection::ConnectionPool;
use crate::pool::session::SessionPool;

verus! {

/// A user session reached through the connection interface.
pub struct Connection {
    session: Session,
}

impl Connection {
    pub closed spec fn session(&self) -> Session { self.session }

    pub open spec fn svc_addr(&self) -> usize { self.session().ctx().svc_addr() }
    pub open spec fn err_addr(&self) -> usize { self.session().ctx().err_addr() }
    pub open spec fn usr_addr(&self) -> usize { self.session().usr_addr() }

    /// The call that writes an attribute of the session.
    pub open spec fn session_attr_set(&self, attr: u32, value: AttrValue) -> OciCall {
        OciCall::AttrSet { target: self.usr_addr(), htype: OCI_HTYPE_SESSION, attr, value, err: self.err_addr() }
    }

    /// The call that reads an attribute of the session.
    pub open spec fn session_attr_get(&self, attr: u32, kind: AttrKind) -> OciCall {
        OciCall::AttrGet { target: self.usr_addr(), htype: OCI_HTYPE_SESSION, attr, kind, err: self.err_addr() }
    }

    /// Wraps an opened session.
    pub fn from_session(session: Session) -> (r: Connection)
        ensures r.session() == session,
    {
        Connection { session }
    }

    /// Opens a connection for `dblink` as `user`, with statement caching.
    pub fn new(env: Ptr<OCIEnv>, dblink: &str, user: &str, pass: &str) -> (r: (SessionFlow, OciCall))
        ensures
            r.0.wf(),
            r.0.stage() == 0,
            r.0.env_addr() == env.addr(),
            r.0.source() matches SessionSource::Direct { dblink: d, user: u, pass: p, mode }
                && d@ == dblink@ && u@ == user@ && p@ == pass@ && mode == OCI_DEFAULT,
            r.1 == (OciCall::HandleAlloc { env: env.addr(), htype: OCI_HTYPE_ERROR }),
    {
        Session::new(env, dblink, user, pass, OCI_DEFAULT)
    }

    /// Opens a connection from a session pool.
    pub fn from_session_pool(pool: &SessionPool) -> (r: (SessionFlow, OciCall))
        ensures
            r.0.wf(),
            r.0.stage() == 0,
            r.0.source() matches SessionSource::SessionPool { name, tag, .. }
                && name == pool.inner().name() && tag@.len() == 0,
    {
        pool.get_session()
    }

    /// Opens a connection from a connection pool.
    pub fn from_connection_pool(pool: &ConnectionPool, user: &str, pass: &str) -> (r: (SessionFlow, OciCall))
        ensures
            r.0.wf(),
            r.0.stage() == 0,
            r.0.source() matches SessionSource::ConnectionPool { pool_err, name, user: u, pass: p }
                && pool_err.addr() == pool.err_addr() && name == pool.name() && u@ == user@ && p@ == pass@,
    {
        pool.get_session(user, pass)
    }

    pub fn svc_ptr(&self) -> (r: Ptr<OCISvcCtx>)
        ensures r.addr() == self.svc_addr(),
    {
        self.session.get_svc().svc_ptr()
    }

    pub fn get_svc_ptr(&self) -> (r: Ptr<OCISvcCtx>)
        ensures r.addr() == self.svc_addr(),
    {
        self.session.get_svc().svc_ptr()
    }

    pub fn usr_ptr(&self) -> (r: Ptr<OCISession>)
        ensures r.addr() == self.usr_addr(),
    {
        self.session.usr_ptr()
    }

    /// The handles behind the connection.
    pub fn clone_session(&self) -> (r: &SvcCtx)
        ensures *r == self.session().ctx(),
    {
        self.session.get_svc()
    }

    fn set_session_attr(&self, attr_type: u32, attr_val: AttrValue) -> (r: OciCall)
        ensures r == self.session_attr_set(attr_type, attr_val),
    {
        attr::set(attr_type, attr_val, OCI_HTYPE_SESSION, self.session.usr_ptr().get(), self.session.get_svc().err_ptr())
    }

    fn get_session_attr(&self, attr_type: u32, kind: AttrKind) -> (r: OciCall)
        ensures r == self.session_attr_get(attr_type, kind),
    {
        attr::get(attr_type, OCI_HTYPE_SESSION, self.session.usr_ptr().get(), kind, self.session.get_svc().err_ptr())
    }

    /// Reports whether self is connected to the server.
    pub fn is_connected(&self) -> (r: (ServerQuery, OciCall))
        ensures
            r.0.purpose() == ServerPurpose::IsConnected,
            r.0.err_addr() == self.err_addr(),
            r.0.stage() == 0,
            r.1 == server_handle_call(self.svc_addr(), self.err_addr()),
    {
        self.session.is_connected()
    }

    /// Reports whether the connection is established in non-blocking mode.
    pub fn is_async(&self) -> (r: (ServerQuery, OciCall))
        ensures
            r.0.purpose() == ServerPurpose::IsAsync,
            r.0.err_addr() == self.err_addr(),
            r.0.stage() == 0,
            r.1 == server_handle_call(self.svc_addr(), self.err_addr()),
    {
        self.session.is_async()
    }

    /// Causes the server to measure call time for each subsequent OCI call.
    pub fn start_call_time_measurements(&self) -> (r: OciCall)
        ensures r == self.session_attr_set(OCI_ATTR_COLLECT_CALL_TIME, AttrValue::U8(1)),
    {
        self.set_session_attr(OCI_ATTR_COLLECT_CALL_TIME, AttrValue::U8(1))
    }

    /// Returns the server-side time for the preceding call in microseconds.
    pub fn call_time(&self) -> (r: OciCall)
        ensures r == self.session_attr_get(OCI_ATTR_CALL_TIME, AttrKind::U64),
    {
        self.get_session_attr(OCI_ATTR_CALL_TIME, AttrKind::U64)
    }

    /// Terminates call time measurements.
    pub fn stop_call_time_measurements(&self) -> (r: OciCall)
        ensures r == self.session_attr_set(OCI_ATTR_COLLECT_CALL_TIME, AttrValue::U8(0)),
    {
        self.set_session_attr(OCI_ATTR_COLLECT_CALL_TIME, AttrValue::U8(0))
    }

    /// Sets the name of the current module.
    pub fn set_module(&self, name: &str) -> (r: OciCall)
        ensures
            r matches OciCall::AttrSet { value: AttrValue::Text(t), .. } && t@ == name@
                && r == self.session_attr_set(OCI_ATTR_MODULE, AttrValue::Text(t)),
    {
        self.set_session_attr(OCI_ATTR_MODULE, AttrValue::Text(String::from_str(name)))
    }

    /// Sets the name of the current action within the current module.
    pub fn set_action(&self, action: &str) -> (r: OciCall)
        ensures
            r matches OciCall::AttrSet { value: AttrValue::Text(t), .. } && t@ == action@
                && r == self.session_attr_set(OCI_ATTR_ACTION, AttrValue::Text(t)),
    {
        self.set_session_attr(OCI_ATTR_ACTION, AttrValue::Text(String::from_str(action)))
    }

    /// Sets the user identifier in the session handle.
    pub fn set_client_identifier(&self, id: &str) -> (r: OciCall)
        ensures
            r matches OciCall::AttrSet { value: AttrValue::Text(t), .. } && t@ == id@
                && r == self.session_attr_set(OCI_ATTR_CLIENT_IDENTIFIER, AttrValue::Text(t)),
    {
        self.set_session_attr(OCI_ATTR_CLIENT_IDENTIFIER, AttrValue::Text(String::from_str(id)))
    }

    /// Sets additional client application information.
    pub fn set_client_info(&self, info: &str) -> (r: OciCall)
        ensures
            r matches OciCall::AttrSet { value: AttrValue::Text(t), .. } && t@ == info@
                && r == self.session_attr_set(OCI_ATTR_CLIENT_INFO, AttrValue::Text(t)),
    {
        self.set_session_attr(OCI_ATTR_CLIENT_INFO, AttrValue::Text(String::from_str(info)))
    }

    /// Returns the current schema.
    pub fn current_schema(&self) -> (r: OciCall)
        ensures r == self.session_attr_get(OCI_ATTR_CURRENT_SCHEMA, AttrKind::Text),
    {
        self.get_session_attr(OCI_ATTR_CURRENT_SCHEMA, AttrKind::Text)
    }

    /// Sets the current schema.
    pub fn set_current_schema(&self, schema_name: &str) -> (r: OciCall)
        ensures
            r matches OciCall::AttrSet { value: AttrValue::Text(t), .. } && t@ == schema_name@
                && r == self.session_attr_set(OCI_ATTR_CURRENT_SCHEMA, AttrValue::Text(t)),
    {
        self.set_session_attr(OCI_ATTR_CURRENT_SCHEMA, AttrValue::Text(String::from_str(schema_name)))
    }

    /// Sets the default prefetch buffer size for each LOB locator.
    pub fn set_lob_prefetch_size(&self, size: u32) -> (r: OciCall)
        ensures r == self.session_attr_set(OCI_ATTR_DEFAULT_LOBPREFETCH_SIZE, AttrValue::U32(size)),
    {
        self.set_session_attr(OCI_ATTR_DEFAULT_LOBPREFETCH_SIZE, AttrValue::U32(size))
    }

    /// Prepares a SQL or PL/SQL statement for execution.
    pub fn prepare(&self, sql: &str) -> (r: OciCall)
        ensures
            r matches OciCall::StmtPrepare { svc, err, sql: s, language, mode }
                && svc == self.svc_addr() && err == self.err_addr() && s@ == sql@
                && language == crate::oci::OCI_NTV_SYNTAX && mode == crate::oci::OCI_DEFAULT,
    {
        self.session.prepare(sql)
    }

    /// Confirms that the connection and the server are active.
    pub fn ping(&self) -> (r: OciCall)
        ensures r == (OciCall::Ping { svc: self.svc_addr(), err: self.err_addr() }),
    {
        self.session.ping()
    }

    /// Commits the current transaction.
    pub fn commit(&self) -> (r: OciCall)
        ensures r == (OciCall::TransCommit { svc: self.svc_addr(), err: self.err_addr() }),
    {
        self.session.commit()
    }

    /// Rolls back the current transaction.
    pub fn rollback(&self) -> (r: OciCall)
        ensures r == (OciCall::TransRollback { svc: self.svc_addr(), err: self.err_addr() }),
    {
        self.session.rollback()
    }
}

} // verus!
