//! The ownership registry: toys under consecutive numbers, each with an owner.

pub mod contract;
pub mod laws;
pub mod msg;
pub mod state;
