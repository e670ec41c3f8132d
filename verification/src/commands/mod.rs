//! The commands an operator can choose, by group, with the texts shown for
//! each.

pub mod account;
pub mod cluster;
pub mod config;
pub mod stake;
pub mod transaction;
pub mod vote;
