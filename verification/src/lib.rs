//! Chatyk: the request-handling rules of a chat service.
//!
//! The crate holds the decisions of the service (validation, error mapping,
//! cache keys, message merging, notification fan-out and the cache-refresh
//! protocol for recent messages). Reading and writing the database, the cache,
//! sockets and files is left to the caller, which hands the results back in.

pub mod text;
pub mod cache;
pub mod config;
pub mod dto;
pub mod error;
pub mod service;
pub mod handler;
pub mod util;
pub mod password;
pub mod model;
pub mod srv;
