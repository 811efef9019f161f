//! Supervision core for a tray application that keeps a single `sslocal`
//! proxy-client subprocess running: named launch profiles, a leaky-bucket
//! restart limiter, a single-slot supervisor state machine, and lossless
//! capture of the worker's output into a backlog and a bounded fan-out.
//!
//! Everything here is plain data and decisions. The surrounding runtime owns
//! the actual subprocess, threads and sockets and drives these types with the
//! values it observes.

pub mod api;
pub mod app_state;
pub mod backlog;
pub mod event;
pub mod fanout;
pub mod instance;
pub mod leaky_bucket;
pub mod monitor;
pub mod output;
pub mod profile;
pub mod profile_folder;
pub mod profile_manager;
pub mod strfmt;
pub mod sync;
