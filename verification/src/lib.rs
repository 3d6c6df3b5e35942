//! Sibyl: an OCI-based interface between Rust applications and Oracle databases.
//!
//! The library decides every OCI call that an operation makes and what OCI's answers
//! mean. Each operation hands back the call it needs as an `OciCall` value, or a flow
//! that hands out one call at a time and takes OCI's `Reply` to each; the application
//! layer performs the calls against the OCI client library.

pub mod oci;
pub mod text;
pub mod err;
pub mod session;
pub mod pool;
pub mod env;
pub mod conn;
pub mod lob;
pub mod column;
pub mod cursor;
pub mod rows;
pub mod stmt;
pub mod rowid;
pub mod ptr;
pub mod fromsql;

pub use err::Error;
pub use env::Environment;
pub use session::Session;
pub use conn::Connection;
pub use pool::session::{SessionPool, SessionPoolGetMode};
pub use pool::connection::ConnectionPool;
pub use lob::{LOB, CLOB, BLOB, BFile};
pub use oci::{Cache, CharSetForm};
pub use oci::call::{OciCall, OciValue, Reply, Step};

use vstd::prelude::*;
use crate::env::{env_create_call, EnvironmentFlow};

verus! {

/// Returns a new environment handle, which is then used by the OCI functions.
pub fn env() -> (r: (EnvironmentFlow, OciCall))
    ensures
        r.0.stage() == 0,
        r.1 == env_create_call(),
{
    Environment::new()
}

} // verus!
