//! In-memory record stores for projects, tasks and customers, with the
//! services that turn a creation request into a stored record.
pub mod entity;
pub mod laws;
pub mod service;
mod sources;
pub mod store;
