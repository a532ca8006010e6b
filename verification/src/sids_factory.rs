//! The customization workshop: what was done to each toy, and its repair log.

pub mod contract;
pub mod laws;
pub mod msg;
pub mod state;
