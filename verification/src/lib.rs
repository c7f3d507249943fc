//! One-time links: a payload is stored under an identifier and can be read a
//! bounded number of times within a bounded time window. The read that uses
//! up the last of its reads, or the first one after its time, deletes it.
//!
//! The store is `db::DB`, over an engine that keeps the records
//! (`db::DbEngine`). `model` says what a store holds and what each call makes
//! of it; `laws` proves what follows for any number of calls. A store takes
//! its calls one at a time: who shares it between threads keeps it behind a
//! lock, and each call is then one step.

pub mod api;
pub mod config;
pub mod db;
pub mod handlers;
pub mod laws;
pub mod layout;
pub mod logger;
pub mod model;
pub mod request;
pub mod utils;
