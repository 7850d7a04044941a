//! Verified core of a fact-of-the-day command-line tool.
//!
//! The library holds everything that decides or computes: the category
//! model, the local fact tables, the fallback-selection policy, the
//! terminal presenter, the messaging formatter, configuration
//! validation, and the state machine of the scheduled delivery loop.
//! Network and terminal I/O live outside, in a thin unverified shell
//! that hands plain values in and takes plain values back.

pub mod batch;
pub mod category;
pub mod chat_id;
pub mod config;
pub mod message;
pub mod presenter;
pub mod schedule;
pub mod selector;
pub mod tables;

mod rng;
