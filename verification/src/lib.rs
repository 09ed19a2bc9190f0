//! Synchronises the issues of a GitHub project into a MongoDB store.
//!
//! The library holds the decisions and the data conversions of the
//! synchronisation; the I/O with GitHub and MongoDB is driven from outside.

pub mod application;
pub mod decimal;
pub mod domain;
pub mod github;
pub mod ids;
pub mod models;
pub mod sync;
pub mod text;
pub mod time;
