pub mod laws;
pub mod query;
pub mod session;
pub mod types;
