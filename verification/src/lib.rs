//! Verified core of a small blog-post CRUD service.
//!
//! The library models the service's logic: the semantics of the post table
//! (create, read, update, delete, list), the REST handler decisions, the
//! GraphQL request/response adaptation layer, configuration defaulting, and
//! the mapping of errors to HTTP statuses. The surrounding web server, the
//! database connection and all I/O live outside the library and hand it
//! plain values.

pub mod config;
pub mod error;
pub mod graphql;
pub mod http;
pub mod post;
pub mod rest;
pub mod store;
