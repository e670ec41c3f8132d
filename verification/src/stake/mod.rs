//! Stake accounts: their state, the rules of each operation on them, and
//! the instructions that carry an operation out.

pub mod history;
pub mod instruction;
pub mod plan;
pub mod rules;
pub mod state;
