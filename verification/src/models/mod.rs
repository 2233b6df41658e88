pub mod connection;
pub mod query;
