//! Supervision of one locally spawned backend service, and a small facade
//! over the operating system's credential store.
//!
//! The crate holds the decisions; the host around it performs the work that
//! has an effect on the outside world (binding a socket, spawning a process,
//! issuing HTTP requests, sleeping) and reports back what happened.

pub mod health;
pub mod process;
pub mod service;
pub mod text;
pub mod vault;
