//! Zendesk Support tickets as subjects.
//!
//! The crate holds what the backend decides: which requests it makes to an account, what the
//! replies mean, how a ticket becomes a subject, and what an update writes. It sends nothing
//! itself.
pub mod backend;
pub mod config;
pub mod fields;
pub mod filter;
pub mod http;
pub mod json;
pub mod labels;
pub mod laws;
pub mod list;
pub mod native;
pub mod protocol;
pub mod text;
pub mod ticket;
pub mod update;
pub mod url;
