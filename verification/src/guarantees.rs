//! What callers can rely on: each operation from its arguments to its results, in plain terms.
//!
//! The statements speak of the operations themselves and of values, bytes and bounds, so that they
//! can be read without the definitions that the contracts are written in.

pub mod frames;
pub mod messages;
pub mod opening;
pub mod receiving;
pub mod scanning;
pub mod sending;
