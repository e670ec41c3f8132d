//! Snapshots of what the remote service reported.

use crate::address::Address;
use vstd::prelude::*;

verus! {

/// An account as fetched: a snapshot that is never changed locally.
#[derive(Clone, Debug, PartialEq, Eq)]
pub struct Account {
    pub owner: Address,
    pub lamports: u64,
    pub data: Vec<u8>,
    pub executable: bool,
    pub rent_epoch: u64,
}

/// The epoch the cluster is in, as fetched.
#[derive(Clone, Copy, Debug, PartialEq, Eq)]
pub struct EpochInfo {
    pub epoch: u64,
    pub slot_index: u64,
    pub slots_in_epoch: u64,
}

} // verus!
