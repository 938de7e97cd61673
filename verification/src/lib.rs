//! The decisions of a small HTTP service that keeps one table of users.
//!
//! The crate performs no I/O. For every request it says which SQL statement
//! to run, and for every reply of the storage engine which statement comes
//! next or which HTTP response goes out. A program around it owns the
//! connection pool and the sockets.

pub mod db;
pub mod handlers;
pub mod models;
pub mod response;
pub mod routes;
pub mod service;
pub mod storage;
pub mod table;
