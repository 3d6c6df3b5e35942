//! Session and Connection Pools

pub mod session;
pub mod connection;
