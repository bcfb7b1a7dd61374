//! Access-control core of a small multi-tenant task tracker.
//!
//! Users register and sign in; each task is bound to exactly one owning user,
//! and every task-level read, update and delete is filtered by the
//! (owner, task) compound key. The credential and task stores are verified
//! in-memory tables; password hashing and token signing are performed by
//! outside crates behind trusted wrappers.

pub mod auth;
pub mod errors;
pub mod hashing;
pub mod handlers;
pub mod jwt;
pub mod laws;
pub mod models;
pub mod tasks;
pub mod users;
