//! A small user-record resource library: it assembles the SQL statements a
//! pooled Postgres client executes, folds fetched rows into typed records,
//! classifies the failures that can arise along the way, and decides the
//! HTTP status and body every handler answers with.
//!
//! The surrounding process (routing, TLS, the connection pool, the actual
//! asynchronous statement execution) hands this library plain values and
//! receives plain values back; everything the library itself does is
//! verified.

pub mod db;
pub mod errors;
pub mod handlers;
pub mod models;
pub mod statement;
