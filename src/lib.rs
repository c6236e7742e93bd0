//! A small key-value store with named shell commands and hooks that fire
//! after a get, set or delete on a given key.

pub mod kv;
pub mod store;
pub mod hooks;
pub mod laws;
pub mod session;
