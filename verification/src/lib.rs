//! Client-side core of a command-line tool for a proof-of-stake network:
//! decoding of stake and vote accounts, the rules that decide whether a
//! staking or voting operation is legal on the state an account is in, and
//! the instructions that carry the operation out.
//!
//! Nothing here touches the network. An operation runs as a sequence of
//! steps ([`flow::advance`]): the caller asks the remote service what the
//! step names, hands the answer back, and in the end signs and submits the
//! instructions that come out, or shows the refusal.
//!
//! - [`address`], [`account`], [`instruction`]: identities, fetched
//!   snapshots and instructions as plain values.
//! - [`stake`] and [`vote`]: the state of each kind of account, the rules
//!   of each operation, the instructions, and the plans that join the
//!   three.
//! - [`flow`]: the steps of each operation; [`signers`]: who signs what is
//!   submitted.
//! - [`params`], [`encoding`]: scalars and encoded transactions typed by
//!   the operator.
//! - [`nonce`]: durable-nonce accounts.
//! - [`commands`]: the menus.
//! - [`error`]: the refusals.

use vstd::prelude::*;

pub mod account;
pub mod address;
pub mod commands;
pub mod encoding;
pub mod error;
pub mod flow;
pub mod instruction;
pub mod nonce;
pub mod params;
pub mod signers;
pub mod stake;
pub mod vote;

verus! {

/// Number of lamports in one SOL.
pub const LAMPORTS_PER_SOL: u64 = 1_000_000_000;

} // verus!
