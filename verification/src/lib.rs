//! Rules of a rebuildable full-text index that answers with source references only.
//!
//! Trusted plugin instances fill the index and search it. Each operation is a session that names
//! the next thing to do in the database and takes the answer, so the rules hold whatever runs the
//! statements. [`model`] says what the operations do to the index as a whole, and [`laws`] what
//! holds of them.

pub mod agent_tools;
pub mod config;
pub mod contract;
pub mod delete;
pub mod failure;
pub mod laws;
pub mod lifecycle;
pub mod model;
pub mod query;
pub mod rules;
pub mod schema;
pub mod store;
pub mod text;
pub mod upsert;
