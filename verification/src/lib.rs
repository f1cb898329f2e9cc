//! Decision logic of a presence poller: on a fixed period it looks for one
//! tracked device in a router's device list and turns what it finds into a
//! message for a pub/sub broker.
//!
//! Nothing here performs I/O. The caller feeds events in and carries the
//! returned actions out.

pub mod config;
pub mod cycle;
pub mod device;
pub mod error;
pub mod json;
pub mod message;
pub mod poll_loop;
pub mod trace;
