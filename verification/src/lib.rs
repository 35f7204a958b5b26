//! Verified core of a link-shortening service: the fixed-window rate limiter
//! that guards the API, and the decisions of the cache-backed clip store.
//!
//! The crate reaches neither the database nor the cache. A lookup or a
//! creation says, as a plain value, what is to be asked of them next, and is
//! continued with what they answered. Of the world outside, the crate reads
//! the clock and a random generator, and it calls a URL parser and a
//! regular-expression matcher.

pub mod cache;
pub mod db;
pub mod id;
pub mod models;
pub mod rate_limit;
pub mod service;
pub mod store;
pub mod structs;
pub mod world;
