//! The rules that decide whether an operation is legal on a stake account
//! in a given state. Each rule is a function of the state, the signing
//! identity and the epoch alone, so it can be asked without any network.

use crate::address::Address;
use crate::error::Rejection;
use crate::stake::state::{Delegation, Meta, StakeState, ACTIVE_STAKE_EPOCH_BOUND};
use vstd::prelude::*;

verus! {

/// The refusal for a signer that is not the one authority recorded.
pub open spec fn not_authorized(expected: Address, provided: Address) -> Rejection {
    Rejection::NotAuthorized { expected, also_accepted: None, provided }
}

/// Whether `caller` may deactivate a stake account in `state`: only a
/// delegated stake that is not deactivating yet can be deactivated, and
/// only by its staker. That a stake is deactivating already is reported
/// before the signer is looked at.
pub open spec fn deactivate_verdict(state: StakeState, caller: Address) -> Result<(), Rejection> {
    match state {
        StakeState::Stake(meta, delegation) => {
            if delegation.is_deactivating() {
                Err(
                    Rejection::AlreadyDeactivating {
                        deactivation_epoch: delegation.deactivation_epoch,
                    },
                )
            } else if meta.staker != caller {
                Err(not_authorized(meta.staker, caller))
            } else {
                Ok(())
            }
        },
        _ => Err(Rejection::WrongState { observed: state.kind_of() }),
    }
}

/// Decides whether `caller` may deactivate a stake account in `state`.
pub fn check_deactivate(state: &StakeState, caller: &Address) -> (r: Result<(), Rejection>)
    ensures
        r == deactivate_verdict(*state, *caller),
{
    match state {
        StakeState::Stake(meta, delegation) => {
            if delegation.deactivating() {
                Err(
                    Rejection::AlreadyDeactivating {
                        deactivation_epoch: delegation.deactivation_epoch,
                    },
                )
            } else if meta.staker != *caller {
                Err(
                    Rejection::NotAuthorized {
                        expected: meta.staker,
                        also_accepted: None,
                        provided: *caller,
                    },
                )
            } else {
                Ok(())
            }
        },
        _ => Err(Rejection::WrongState { observed: state.kind() }),
    }
}

/// Whether `caller` may withdraw from a stake account in `state` during
/// `current_epoch`, the amount aside. The signer is looked at first. An
/// initialized account can always be withdrawn from by its withdrawer; a
/// delegated one only once the current epoch is past the epoch of its
/// deactivation.
pub open spec fn withdraw_authority_verdict(
    state: StakeState,
    caller: Address,
    current_epoch: u64,
) -> Result<(), Rejection> {
    match state {
        StakeState::Stake(meta, delegation) => {
            if meta.withdrawer != caller {
                Err(not_authorized(meta.withdrawer, caller))
            } else if !delegation.is_deactivating() {
                Err(Rejection::StillActive)
            } else if current_epoch <= delegation.deactivation_epoch {
                Err(
                    Rejection::CoolingDown {
                        current_epoch,
                        deactivation_epoch: delegation.deactivation_epoch,
                        epochs_remaining: (delegation.deactivation_epoch - current_epoch) as u64,
                    },
                )
            } else {
                Ok(())
            }
        },
        StakeState::Initialized(meta) => {
            if meta.withdrawer != caller {
                Err(not_authorized(meta.withdrawer, caller))
            } else {
                Ok(())
            }
        },
        _ => Err(Rejection::WrongState { observed: state.kind_of() }),
    }
}

/// Whether `caller` may withdraw `requested` lamports from a stake account
/// in `state` that holds `available` lamports: the amount is looked at
/// only after the state and the signer were accepted.
pub open spec fn withdraw_verdict(
    state: StakeState,
    caller: Address,
    current_epoch: u64,
    available: u64,
    requested: u64,
) -> Result<(), Rejection> {
    match withdraw_authority_verdict(state, caller, current_epoch) {
        Err(e) => Err(e),
        Ok(()) => {
            if requested > available {
                Err(Rejection::InsufficientBalance { available, requested })
            } else {
                Ok(())
            }
        },
    }
}

/// Decides whether `caller` may withdraw `requested` lamports from a stake
/// account in `state` that holds `available` lamports.
pub fn check_withdraw(
    state: &StakeState,
    caller: &Address,
    current_epoch: u64,
    available: u64,
    requested: u64,
) -> (r: Result<(), Rejection>)
    ensures
        r == withdraw_verdict(*state, *caller, current_epoch, available, requested),
{
    match state {
        StakeState::Stake(meta, delegation) => {
            if meta.withdrawer != *caller {
                return Err(
                    Rejection::NotAuthorized {
                        expected: meta.withdrawer,
                        also_accepted: None,
                        provided: *caller,
                    },
                );
            }
            if !delegation.deactivating() {
                return Err(Rejection::StillActive);
            }
            if current_epoch <= delegation.deactivation_epoch {
                return Err(
                    Rejection::CoolingDown {
                        current_epoch,
                        deactivation_epoch: delegation.deactivation_epoch,
                        epochs_remaining: delegation.deactivation_epoch - current_epoch,
                    },
                );
            }
        },
        StakeState::Initialized(meta) => {
            if meta.withdrawer != *caller {
                return Err(
                    Rejection::NotAuthorized {
                        expected: meta.withdrawer,
                        also_accepted: None,
                        provided: *caller,
                    },
                );
            }
        },
        _ => {
            return Err(Rejection::WrongState { observed: state.kind() });
        },
    }
    if requested > available {
        Err(Rejection::InsufficientBalance { available, requested })
    } else {
        Ok(())
    }
}

/// Whether a stake account in `state` can be the source of a merge that
/// `authority` signs: it is initialized or delegated, `authority` is its
/// staker, and it is not deactivating.
pub open spec fn merge_source_verdict(state: StakeState, authority: Address) -> Result<
    (),
    Rejection,
> {
    match state {
        StakeState::Initialized(meta) => {
            if meta.staker != authority {
                Err(not_authorized(meta.staker, authority))
            } else {
                Ok(())
            }
        },
        StakeState::Stake(meta, delegation) => {
            if meta.staker != authority {
                Err(not_authorized(meta.staker, authority))
            } else if delegation.is_deactivating() {
                Err(
                    Rejection::SourceDeactivating {
                        deactivation_epoch: delegation.deactivation_epoch,
                    },
                )
            } else {
                Ok(())
            }
        },
        _ => Err(Rejection::InvalidSourceState { observed: state.kind_of() }),
    }
}

/// Whether a stake account in `state` can be the destination of a merge:
/// it is initialized or delegated.
pub open spec fn merge_destination_verdict(state: StakeState) -> Result<(), Rejection> {
    match state {
        StakeState::Initialized(_) | StakeState::Stake(_, _) => Ok(()),
        _ => Err(Rejection::InvalidDestinationState { observed: state.kind_of() }),
    }
}

/// Whether two accounts that must differ do.
pub open spec fn distinct_verdict(first: Address, second: Address) -> Result<(), Rejection> {
    if first == second {
        Err(Rejection::SameAccount { address: first })
    } else {
        Ok(())
    }
}

/// Whether the stake account `source` may be merged into `destination`
/// with `authority` signing. The two identities are compared before either
/// state is looked at, then the destination's state, then the source's.
pub open spec fn merge_verdict(
    destination: Address,
    source: Address,
    destination_state: StakeState,
    source_state: StakeState,
    authority: Address,
) -> Result<(), Rejection> {
    if distinct_verdict(destination, source) is Err {
        distinct_verdict(destination, source)
    } else if merge_destination_verdict(destination_state) is Err {
        merge_destination_verdict(destination_state)
    } else {
        merge_source_verdict(source_state, authority)
    }
}

/// Refuses two accounts that must differ and are the same.
pub fn check_distinct(first: &Address, second: &Address) -> (r: Result<(), Rejection>)
    ensures
        r == distinct_verdict(*first, *second),
{
    if *first == *second {
        Err(Rejection::SameAccount { address: *first })
    } else {
        Ok(())
    }
}

/// Decides whether a stake account in `state` can be the destination of a
/// merge.
pub fn check_merge_destination(state: &StakeState) -> (r: Result<(), Rejection>)
    ensures
        r == merge_destination_verdict(*state),
{
    match state {
        StakeState::Initialized(_) => Ok(()),
        StakeState::Stake(_, _) => Ok(()),
        _ => Err(Rejection::InvalidDestinationState { observed: state.kind() }),
    }
}

/// Decides whether a stake account in `state` can be the source of a merge
/// that `authority` signs.
pub fn check_merge_source(state: &StakeState, authority: &Address) -> (r: Result<(), Rejection>)
    ensures
        r == merge_source_verdict(*state, *authority),
{
    match state {
        StakeState::Initialized(meta) => {
            if meta.staker != *authority {
                Err(
                    Rejection::NotAuthorized {
                        expected: meta.staker,
                        also_accepted: None,
                        provided: *authority,
                    },
                )
            } else {
                Ok(())
            }
        },
        StakeState::Stake(meta, delegation) => {
            if meta.staker != *authority {
                Err(
                    Rejection::NotAuthorized {
                        expected: meta.staker,
                        also_accepted: None,
                        provided: *authority,
                    },
                )
            } else if delegation.deactivating() {
                Err(
                    Rejection::SourceDeactivating {
                        deactivation_epoch: delegation.deactivation_epoch,
                    },
                )
            } else {
                Ok(())
            }
        },
        _ => Err(Rejection::InvalidSourceState { observed: state.kind() }),
    }
}

/// Decides whether the stake account `source` may be merged into
/// `destination` with `authority` signing.
pub fn check_merge(
    destination: &Address,
    source: &Address,
    destination_state: &StakeState,
    source_state: &StakeState,
    authority: &Address,
) -> (r: Result<(), Rejection>)
    ensures
        r == merge_verdict(
            *destination,
            *source,
            *destination_state,
            *source_state,
            *authority,
        ),
{
    match check_distinct(destination, source) {
        Err(e) => Err(e),
        Ok(()) => match check_merge_destination(destination_state) {
            Err(e) => Err(e),
            Ok(()) => check_merge_source(source_state, authority),
        },
    }
}

/// Whether `lamports` may be split off the stake account `stake` into
/// `split_stake` where a delegation must hold at least
/// `minimum_delegation`: the two identities are compared first, then the
/// amount.
pub open spec fn split_verdict(
    stake: Address,
    split_stake: Address,
    lamports: u64,
    minimum_delegation: u64,
) -> Result<(), Rejection> {
    if stake == split_stake {
        Err(Rejection::SameAccount { address: stake })
    } else if lamports < minimum_delegation {
        Err(Rejection::BelowMinimumDelegation { minimum: minimum_delegation, requested: lamports })
    } else {
        Ok(())
    }
}

/// Decides whether `lamports` may be split off `stake` into `split_stake`.
pub fn check_split(
    stake: &Address,
    split_stake: &Address,
    lamports: u64,
    minimum_delegation: u64,
) -> (r: Result<(), Rejection>)
    ensures
        r == split_verdict(*stake, *split_stake, lamports, minimum_delegation),
{
    if *stake == *split_stake {
        Err(Rejection::SameAccount { address: *stake })
    } else if lamports < minimum_delegation {
        Err(Rejection::BelowMinimumDelegation { minimum: minimum_delegation, requested: lamports })
    } else {
        Ok(())
    }
}

/// A delegated stake that is not deactivating can be deactivated by its
/// staker and by nobody else: any other signer is refused as not
/// authorized.
pub proof fn law_deactivate_active_stake(meta: Meta, delegation: Delegation, caller: Address)
    requires
        delegation.deactivation_epoch == ACTIVE_STAKE_EPOCH_BOUND,
    ensures
        deactivate_verdict(StakeState::Stake(meta, delegation), caller) is Ok <==> caller
            == meta.staker,
        caller != meta.staker ==> deactivate_verdict(StakeState::Stake(meta, delegation), caller)
            == Err::<(), Rejection>(not_authorized(meta.staker, caller)),
{
}

/// A stake that is deactivating cannot be deactivated again, whoever signs.
pub proof fn law_deactivate_deactivating_stake(
    meta: Meta,
    delegation: Delegation,
    caller: Address,
)
    requires
        delegation.deactivation_epoch != ACTIVE_STAKE_EPOCH_BOUND,
    ensures
        deactivate_verdict(StakeState::Stake(meta, delegation), caller) == Err::<(), Rejection>(
            Rejection::AlreadyDeactivating { deactivation_epoch: delegation.deactivation_epoch },
        ),
{
}

/// The withdrawer of a delegated stake that was never deactivated is told
/// that the stake is still active, whatever the epoch and the amount.
pub proof fn law_withdraw_active_stake(
    meta: Meta,
    delegation: Delegation,
    current_epoch: u64,
    available: u64,
    requested: u64,
)
    requires
        delegation.deactivation_epoch == ACTIVE_STAKE_EPOCH_BOUND,
    ensures
        withdraw_verdict(
            StakeState::Stake(meta, delegation),
            meta.withdrawer,
            current_epoch,
            available,
            requested,
        ) == Err::<(), Rejection>(Rejection::StillActive),
{
}

/// The withdrawer of a stake that was deactivated in an epoch not yet past
/// is told how many epochs remain: the deactivation epoch less the current
/// one.
pub proof fn law_withdraw_cooling_stake(
    meta: Meta,
    delegation: Delegation,
    current_epoch: u64,
    available: u64,
    requested: u64,
)
    requires
        delegation.deactivation_epoch != ACTIVE_STAKE_EPOCH_BOUND,
        current_epoch <= delegation.deactivation_epoch,
    ensures
        withdraw_verdict(
            StakeState::Stake(meta, delegation),
            meta.withdrawer,
            current_epoch,
            available,
            requested,
        ) matches Err(Rejection::CoolingDown { current_epoch: c, deactivation_epoch: d, epochs_remaining })
            && c == current_epoch && d == delegation.deactivation_epoch && epochs_remaining
            == delegation.deactivation_epoch - current_epoch,
{
}

/// Asking for more than the account holds is refused as an insufficient
/// balance whenever the state and the signer are accepted, and only then.
pub proof fn law_withdraw_amount_checked_last(
    state: StakeState,
    caller: Address,
    current_epoch: u64,
    available: u64,
    requested: u64,
)
    ensures
        withdraw_verdict(state, caller, current_epoch, available, requested) == Err::<
            (),
            Rejection,
        >(Rejection::InsufficientBalance { available, requested }) <==> (
        withdraw_authority_verdict(state, caller, current_epoch) is Ok && requested > available),
{
}

/// An account cannot be merged into itself, whatever state it is in and
/// whoever signs.
pub proof fn law_merge_same_account(
    account: Address,
    destination_state: StakeState,
    source_state: StakeState,
    authority: Address,
)
    ensures
        merge_verdict(account, account, destination_state, source_state, authority) == Err::<
            (),
            Rejection,
        >(Rejection::SameAccount { address: account }),
{
}

/// Between two distinct accounts a split is refused exactly when it asks
/// for less than the minimum delegation.
pub proof fn law_split_minimum(
    stake: Address,
    split_stake: Address,
    lamports: u64,
    minimum_delegation: u64,
)
    requires
        stake != split_stake,
    ensures
        lamports < minimum_delegation ==> split_verdict(
            stake,
            split_stake,
            lamports,
            minimum_delegation,
        ) == Err::<(), Rejection>(
            Rejection::BelowMinimumDelegation { minimum: minimum_delegation, requested: lamports },
        ),
        lamports >= minimum_delegation ==> split_verdict(
            stake,
            split_stake,
            lamports,
            minimum_delegation,
        ) is Ok,
{
}

} // verus!
