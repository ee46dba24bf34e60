//! An allow-list of administrators for contract-like programs.
//!
//! The registry keeps an ordered list of canonical addresses as one value in
//! the host's key-value store, offers operations to add to it and to list it,
//! and a guard that turns away any caller who is not on it. A small tool wires
//! that guard into handler functions by prepending one statement to them.
pub mod dispatch;
pub mod error;
pub mod host;
pub mod laws;
pub mod registry;
pub mod require_admin;
pub mod storage;
