//! The play-scenario store: named scenarios, each holding a list of toys.

pub mod contract;
pub mod laws;
pub mod msg;
pub mod state;
