//! Directory lookups: credential resolution, the connect/bind/search protocol
//! as a decision procedure, and the projection of raw entries to flat records.

pub mod config;
pub mod credential;
pub mod entry;
pub mod failure;
pub mod identity;
pub mod pipeline;
pub mod projection;
pub mod request;
pub mod trace;
