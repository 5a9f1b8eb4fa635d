//! Materialises the rows of a query whose column types are known only at run
//! time into generic values, and drives one query execution over a stream of
//! rows.

pub mod common;
pub mod config;
pub mod executor;
pub mod mapper;
pub mod preview;
pub mod row;
pub mod server;
pub mod value;
