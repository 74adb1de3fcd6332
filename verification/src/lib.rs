//! Persisting a byte buffer to a caller-chosen path: the decisions around the
//! single filesystem write, with the write itself left to the caller.

pub mod command;
pub mod failure;
pub mod outcome;
mod target;
