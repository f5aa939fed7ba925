//! From an identifier to the queries that resolve it.

pub mod laws;
pub mod parser;
pub mod query;
pub mod resolver;
pub mod revisions;
pub mod selector;
pub mod session;
pub mod transformer;
