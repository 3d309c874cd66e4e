//! Watching nodes while they bootstrap.
//!
//! Each watched node publishes, over HTTP, the block level it has reached.
//! A monitor polls one node until that level reaches a threshold and decides,
//! after every probe, whether to wait and poll again, to finish, or to give
//! the run up. The decisions are made here and are verified; sending the
//! requests, sleeping and measuring time are left to the caller.

pub mod config;
pub mod decimal;
pub mod laws;
pub mod monitor;
pub mod probe;
pub mod supervisor;
