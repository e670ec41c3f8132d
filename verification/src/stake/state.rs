//! The state of a stake account and its decoding from account bytes.

use crate::account::Account;
use crate::address::{is_stake_program, stake_program_address, Address};
use crate::error::{Rejection, StakeStateKind};
use solana_stake_interface::state::{
    Delegation as ChainDelegation, Meta as ChainMeta, StakeStateV2,
};
use vstd::prelude::*;

verus! {

/// The deactivation epoch of a delegation that is not deactivating.
pub const ACTIVE_STAKE_EPOCH_BOUND: u64 = u64::MAX;

/// Until when, and by whom, withdrawals from a stake account are held back.
#[derive(Clone, Copy, Debug, PartialEq, Eq)]
pub struct Lockup {
    pub unix_timestamp: i64,
    pub epoch: u64,
    pub custodian: Address,
}

/// Who may act on a stake account.
#[derive(Clone, Copy, Debug, PartialEq, Eq)]
pub struct Meta {
    pub staker: Address,
    pub withdrawer: Address,
    pub lockup: Lockup,
}

impl Meta {
    /// The authorities and lockup with the given parts.
    pub fn from_parts(
        staker: [u8; 32],
        withdrawer: [u8; 32],
        unix_timestamp: i64,
        epoch: u64,
        custodian: [u8; 32],
    ) -> (r: Meta)
        ensures
            r == (Meta {
                staker: Address { bytes: staker },
                withdrawer: Address { bytes: withdrawer },
                lockup: Lockup { unix_timestamp, epoch, custodian: Address { bytes: custodian } },
            }),
    {
        Meta {
            staker: Address { bytes: staker },
            withdrawer: Address { bytes: withdrawer },
            lockup: Lockup { unix_timestamp, epoch, custodian: Address { bytes: custodian } },
        }
    }
}

/// To whom a stake is delegated, and since and until when.
#[derive(Clone, Copy, Debug, PartialEq, Eq)]
pub struct Delegation {
    pub voter: Address,
    pub stake: u64,
    pub activation_epoch: u64,
    pub deactivation_epoch: u64,
}

impl Delegation {
    /// The delegation with the given parts.
    pub fn from_parts(
        voter: [u8; 32],
        stake: u64,
        activation_epoch: u64,
        deactivation_epoch: u64,
    ) -> (r: Delegation)
        ensures
            r == (Delegation {
                voter: Address { bytes: voter },
                stake,
                activation_epoch,
                deactivation_epoch,
            }),
    {
        Delegation { voter: Address { bytes: voter }, stake, activation_epoch, deactivation_epoch }
    }

    /// Whether a deactivation was requested for this delegation.
    pub open spec fn is_deactivating(self) -> bool {
        self.deactivation_epoch != ACTIVE_STAKE_EPOCH_BOUND
    }

    /// Whether a deactivation was requested for this delegation.
    pub fn deactivating(&self) -> (r: bool)
        ensures
            r == self.is_deactivating(),
    {
        self.deactivation_epoch != ACTIVE_STAKE_EPOCH_BOUND
    }
}

/// The state of a stake account.
#[derive(Clone, Copy, Debug, PartialEq, Eq)]
pub enum StakeState {
    Uninitialized,
    Initialized(Meta),
    Stake(Meta, Delegation),
    RewardsPool,
}

impl StakeState {
    /// Which of the four states this is.
    pub open spec fn kind_of(self) -> StakeStateKind {
        match self {
            StakeState::Uninitialized => StakeStateKind::Uninitialized,
            StakeState::Initialized(_) => StakeStateKind::Initialized,
            StakeState::Stake(_, _) => StakeStateKind::Stake,
            StakeState::RewardsPool => StakeStateKind::RewardsPool,
        }
    }

    /// Which of the four states this is.
    pub fn kind(&self) -> (r: StakeStateKind)
        ensures
            r == self.kind_of(),
    {
        match self {
            StakeState::Uninitialized => StakeStateKind::Uninitialized,
            StakeState::Initialized(_) => StakeStateKind::Initialized,
            StakeState::Stake(_, _) => StakeStateKind::Stake,
            StakeState::RewardsPool => StakeStateKind::RewardsPool,
        }
    }
}

/// The stake state that the stake program's encoding assigns to `data`, if
/// `data` starts with the encoding of one.
pub uninterp spec fn stake_state_decoding(data: Seq<u8>) -> Option<StakeState>;

/// Calls `bincode::deserialize` for `solana_stake_interface::state::StakeStateV2`
/// and copies the authorities, the lockup and the delegation out of what it
/// returns. The result depends on the bytes alone: it is `None` where the
/// call fails, and the contract gives it the name `stake_state_decoding`.
#[verifier::external_body]
pub(crate) fn decode_stake_bytes(data: &[u8]) -> (r: Option<StakeState>)
    ensures
        r == stake_state_decoding(data@),
{
    let meta = |m: &ChainMeta| Meta::from_parts(
        m.authorized.staker.to_bytes(), m.authorized.withdrawer.to_bytes(),
        m.lockup.unix_timestamp, m.lockup.epoch, m.lockup.custodian.to_bytes());
    let delegation = |d: &ChainDelegation| Delegation::from_parts(
        d.voter_pubkey.to_bytes(), d.stake, d.activation_epoch, d.deactivation_epoch);
    match bincode::deserialize::<StakeStateV2>(data).ok()? {
        StakeStateV2::Uninitialized => Some(StakeState::Uninitialized),
        StakeStateV2::Initialized(m) => Some(StakeState::Initialized(meta(&m))),
        StakeStateV2::Stake(m, s, _) => Some(StakeState::Stake(meta(&m), delegation(&s.delegation))),
        StakeStateV2::RewardsPool => Some(StakeState::RewardsPool),
    }
}

/// Whether an account that `owner` owns can be a stake account: only the
/// stake program owns stake accounts.
pub open spec fn stake_owner_verdict(owner: Address) -> Result<(), Rejection> {
    if owner != stake_program_address() {
        Err(Rejection::WrongOwner { expected: stake_program_address(), actual: owner })
    } else {
        Ok(())
    }
}

/// Refuses an account that the stake program does not own, without
/// looking at its bytes.
pub fn check_stake_owner(account: &Account) -> (r: Result<(), Rejection>)
    ensures
        r == stake_owner_verdict(account.owner),
{
    if !is_stake_program(&account.owner) {
        Err(
            Rejection::WrongOwner {
                expected: crate::address::stake_program(),
                actual: account.owner,
            },
        )
    } else {
        Ok(())
    }
}

/// What the decoder makes of an account that `owner` owns and that holds
/// `data`: the owner is looked at first, the bytes only if the stake
/// program owns the account.
pub open spec fn stake_account_state(owner: Address, data: Seq<u8>) -> Result<
    StakeState,
    Rejection,
> {
    match stake_owner_verdict(owner) {
        Err(e) => Err(e),
        Ok(()) => match stake_state_decoding(data) {
            Some(state) => Ok(state),
            None => Err(Rejection::MalformedAccountData),
        },
    }
}

/// Decodes a stake account. Fails with `WrongOwner` unless the stake
/// program owns the account, whatever its bytes are, and with
/// `MalformedAccountData` if its bytes are not a stake state.
pub fn decode_stake_account(account: &Account) -> (r: Result<StakeState, Rejection>)
    ensures
        r == stake_account_state(account.owner, account.data@),
{
    match check_stake_owner(account) {
        Ok(()) => {},
        Err(e) => {
            return Err(e);
        },
    }
    match decode_stake_bytes(account.data.as_slice()) {
        Some(state) => Ok(state),
        None => Err(Rejection::MalformedAccountData),
    }
}

} // verus!
