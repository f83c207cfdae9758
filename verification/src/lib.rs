//! Verified core of a small RPC-over-HTTP identity service: an RPC method
//! registry with dispatch, a credential store with unique usernames and
//! emails, password hashing, and signed, time-bound session tokens.

pub mod auth;
pub mod hashing;
pub mod jsonrpc;
pub mod jwt;
pub mod store;
pub mod strmap;
pub mod webserver;
