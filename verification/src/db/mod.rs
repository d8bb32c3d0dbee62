//! The data-access layer: the queries it sends to the store, the replies it
//! reads, and how it narrows every failure to an absent result.

pub mod database;
pub mod store;

pub use database::{Access, AccessView, Database, Waiting, WaitingView};
pub use store::{Query, QueryView, Reply, ReplyView, StoreError};
