//! A minimal authorization-gated price registry.
//!
//! A single owner, fixed at initialization, may write per-symbol prices into
//! a persistent store; any caller may read them. The store is an explicit
//! value threaded through every handler, so the host runtime (which persists
//! it and delivers requests) stays outside this crate.

pub mod contract;
pub mod error;
pub mod msg;
pub mod state;
