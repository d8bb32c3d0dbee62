//! Verified core of a pizza-order service: the order records and request
//! bodies with their validation rules, the error taxonomy and its HTTP
//! mapping, and the decisions that each request handler and the data-access
//! layer take between two exchanges with the backing store.
//!
//! The store itself is reached by the caller; this crate decides which query
//! to send and what each reply means.

pub mod models;
pub mod errors;
pub mod db;
pub mod routes;
pub mod service;
