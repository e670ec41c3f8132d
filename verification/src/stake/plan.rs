//! From a fetched snapshot to the instructions of an operation, or to the
//! reason why none are sent: decode, decide, build.

use crate::account::Account;
use crate::address::{stake_program_address, Address};
use crate::error::Rejection;
use crate::instruction::{instruction_views, Instruction, InstructionView};
use crate::stake::instruction::{
    build_deactivate, build_merge, build_split, build_withdraw, deactivate_instruction,
    merge_instructions, split_instructions, withdraw_instruction,
};
use crate::stake::rules::{
    check_deactivate, check_distinct, check_merge_destination, check_merge_source, check_split,
    check_withdraw, deactivate_verdict, merge_destination_verdict, merge_source_verdict,
    merge_verdict, split_verdict, withdraw_verdict,
};
use crate::stake::state::{
    check_stake_owner, decode_stake_account, stake_account_state, stake_owner_verdict, StakeState,
};
use vstd::prelude::*;

verus! {

/// What deactivating the stake account `stake` comes to when `caller`
/// signs and the account was fetched with the given owner and bytes.
pub open spec fn deactivate_plan(
    stake: Address,
    owner: Address,
    data: Seq<u8>,
    caller: Address,
) -> Result<InstructionView, Rejection> {
    match stake_account_state(owner, data) {
        Err(e) => Err(e),
        Ok(state) => match deactivate_verdict(state, caller) {
            Err(e) => Err(e),
            Ok(()) => Ok(deactivate_instruction(stake, caller)),
        },
    }
}

/// Decodes the fetched stake account, decides whether `caller` may
/// deactivate it, and builds the instruction if so.
pub fn plan_deactivate(stake: &Address, account: &Account, caller: &Address) -> (r: Result<
    Instruction,
    Rejection,
>)
    ensures
        match r {
            Ok(ix) => deactivate_plan(*stake, account.owner, account.data@, *caller) == Ok::<
                InstructionView,
                Rejection,
            >(ix@),
            Err(e) => deactivate_plan(*stake, account.owner, account.data@, *caller) == Err::<
                InstructionView,
                Rejection,
            >(e),
        },
{
    let state = match decode_stake_account(account) {
        Ok(state) => state,
        Err(e) => {
            return Err(e);
        },
    };
    match check_deactivate(&state, caller) {
        Ok(()) => Ok(build_deactivate(stake, caller)),
        Err(e) => Err(e),
    }
}

/// What withdrawing `lamports` from the stake account `stake` to
/// `recipient` comes to when `caller` signs during `current_epoch` and the
/// account was fetched with the given owner, balance and bytes.
pub open spec fn withdraw_plan(
    stake: Address,
    owner: Address,
    available: u64,
    data: Seq<u8>,
    current_epoch: u64,
    caller: Address,
    recipient: Address,
    lamports: u64,
) -> Result<InstructionView, Rejection> {
    match stake_account_state(owner, data) {
        Err(e) => Err(e),
        Ok(state) => match withdraw_verdict(state, caller, current_epoch, available, lamports) {
            Err(e) => Err(e),
            Ok(()) => Ok(withdraw_instruction(stake, caller, recipient, lamports)),
        },
    }
}

/// Decodes the fetched stake account, decides whether `caller` may
/// withdraw `lamports` from it during `current_epoch`, and builds the
/// instruction if so.
pub fn plan_withdraw(
    stake: &Address,
    account: &Account,
    current_epoch: u64,
    caller: &Address,
    recipient: &Address,
    lamports: u64,
) -> (r: Result<Instruction, Rejection>)
    ensures
        match r {
            Ok(ix) => withdraw_plan(
                *stake,
                account.owner,
                account.lamports,
                account.data@,
                current_epoch,
                *caller,
                *recipient,
                lamports,
            ) == Ok::<InstructionView, Rejection>(ix@),
            Err(e) => withdraw_plan(
                *stake,
                account.owner,
                account.lamports,
                account.data@,
                current_epoch,
                *caller,
                *recipient,
                lamports,
            ) == Err::<InstructionView, Rejection>(e),
        },
{
    let state = match decode_stake_account(account) {
        Ok(state) => state,
        Err(e) => {
            return Err(e);
        },
    };
    match check_withdraw(&state, caller, current_epoch, account.lamports, lamports) {
        Ok(()) => Ok(build_withdraw(stake, caller, recipient, lamports)),
        Err(e) => Err(e),
    }
}

/// The account at position `index` of what a fetch of several accounts
/// returned, where `address` was asked for there: a position that is
/// missing or empty means that the account does not exist.
pub open spec fn fetched_account(
    fetched: Seq<Option<Account>>,
    index: int,
    address: Address,
) -> Result<Account, Rejection> {
    if 0 <= index < fetched.len() && fetched[index] is Some {
        Ok(fetched[index]->Some_0)
    } else {
        Err(Rejection::AccountNotFound { address })
    }
}

/// The state of the stake account at position `index` of a fetch.
pub open spec fn fetched_stake_state(
    fetched: Seq<Option<Account>>,
    index: int,
    address: Address,
) -> Result<StakeState, Rejection> {
    match fetched_account(fetched, index, address) {
        Err(e) => Err(e),
        Ok(account) => stake_account_state(account.owner, account.data@),
    }
}

/// What merging `source` into `destination` comes to when `authority`
/// signs and `fetched` is what a fetch of the two accounts, the
/// destination first, returned. The two identities are compared before
/// anything fetched is looked at; then both accounts must exist; then the
/// stake program must own both, the destination being looked at first;
/// then both must decode; and only then are the two states judged.
pub open spec fn merge_plan(
    destination: Address,
    source: Address,
    fetched: Seq<Option<Account>>,
    authority: Address,
) -> Result<Seq<InstructionView>, Rejection> {
    if destination == source {
        Err(Rejection::SameAccount { address: destination })
    } else if fetched_account(fetched, 0, destination) is Err {
        Err(Rejection::AccountNotFound { address: destination })
    } else if fetched_account(fetched, 1, source) is Err {
        Err(Rejection::AccountNotFound { address: source })
    } else {
        match stake_owner_verdict(fetched[0]->Some_0.owner) {
            Err(e) => Err(e),
            Ok(()) => match stake_owner_verdict(fetched[1]->Some_0.owner) {
                Err(e) => Err(e),
                Ok(()) => match fetched_stake_state(fetched, 0, destination) {
                    Err(e) => Err(e),
                    Ok(destination_state) => match fetched_stake_state(fetched, 1, source) {
                        Err(e) => Err(e),
                        Ok(source_state) => match merge_destination_verdict(destination_state) {
                            Err(e) => Err(e),
                            Ok(()) => match merge_source_verdict(source_state, authority) {
                                Err(e) => Err(e),
                                Ok(()) => Ok(merge_instructions(destination, source, authority)),
                            },
                        },
                    },
                },
            },
        }
    }
}

/// Decides whether `source` may be merged into `destination` with
/// `authority` signing, on what a fetch of the two accounts returned, and
/// builds the instructions if so.
pub fn plan_merge(
    destination: &Address,
    source: &Address,
    fetched: &Vec<Option<Account>>,
    authority: &Address,
) -> (r: Result<Vec<Instruction>, Rejection>)
    ensures
        match r {
            Ok(ixs) => merge_plan(*destination, *source, fetched@, *authority) == Ok::<
                Seq<InstructionView>,
                Rejection,
            >(instruction_views(ixs@)),
            Err(e) => merge_plan(*destination, *source, fetched@, *authority) == Err::<
                Seq<InstructionView>,
                Rejection,
            >(e),
        },
{
    match check_distinct(destination, source) {
        Ok(()) => {},
        Err(e) => {
            return Err(e);
        },
    }
    if fetched.len() < 1 || fetched[0].is_none() {
        return Err(Rejection::AccountNotFound { address: *destination });
    }
    if fetched.len() < 2 || fetched[1].is_none() {
        return Err(Rejection::AccountNotFound { address: *source });
    }
    let (destination_account, source_account) = match (&fetched[0], &fetched[1]) {
        (Some(destination_account), Some(source_account)) => (destination_account, source_account),
        (None, _) => {
            return Err(Rejection::AccountNotFound { address: *destination });
        },
        (_, None) => {
            return Err(Rejection::AccountNotFound { address: *source });
        },
    };
    match check_stake_owner(destination_account) {
        Ok(()) => {},
        Err(e) => {
            return Err(e);
        },
    }
    match check_stake_owner(source_account) {
        Ok(()) => {},
        Err(e) => {
            return Err(e);
        },
    }
    let destination_state = match decode_stake_account(destination_account) {
        Ok(state) => state,
        Err(e) => {
            return Err(e);
        },
    };
    let source_state = match decode_stake_account(source_account) {
        Ok(state) => state,
        Err(e) => {
            return Err(e);
        },
    };
    match check_merge_destination(&destination_state) {
        Ok(()) => {},
        Err(e) => {
            return Err(e);
        },
    }
    match check_merge_source(&source_state, authority) {
        Ok(()) => Ok(build_merge(destination, source, authority)),
        Err(e) => Err(e),
    }
}

/// What splitting `lamports` off `stake` into `split_stake` comes to when
/// `authority` signs and a delegation must hold at least
/// `minimum_delegation`.
pub open spec fn split_plan(
    stake: Address,
    split_stake: Address,
    authority: Address,
    lamports: u64,
    minimum_delegation: u64,
) -> Result<Seq<InstructionView>, Rejection> {
    match split_verdict(stake, split_stake, lamports, minimum_delegation) {
        Err(e) => Err(e),
        Ok(()) => Ok(split_instructions(stake, authority, lamports, split_stake)),
    }
}

/// Decides whether `lamports` may be split off `stake` into `split_stake`
/// and builds the instructions if so.
pub fn plan_split(
    stake: &Address,
    split_stake: &Address,
    authority: &Address,
    lamports: u64,
    minimum_delegation: u64,
) -> (r: Result<Vec<Instruction>, Rejection>)
    ensures
        match r {
            Ok(ixs) => split_plan(*stake, *split_stake, *authority, lamports, minimum_delegation)
                == Ok::<Seq<InstructionView>, Rejection>(instruction_views(ixs@)),
            Err(e) => split_plan(*stake, *split_stake, *authority, lamports, minimum_delegation)
                == Err::<Seq<InstructionView>, Rejection>(e),
        },
{
    match check_split(stake, split_stake, lamports, minimum_delegation) {
        Ok(()) => Ok(build_split(stake, authority, lamports, split_stake)),
        Err(e) => Err(e),
    }
}

/// An account that the stake program does not own is refused as wrongly
/// owned before its bytes or the signer are looked at.
pub proof fn law_wrong_owner_first(
    stake: Address,
    owner: Address,
    available: u64,
    data: Seq<u8>,
    current_epoch: u64,
    caller: Address,
    recipient: Address,
    lamports: u64,
)
    requires
        owner != stake_program_address(),
    ensures
        deactivate_plan(stake, owner, data, caller) == Err::<InstructionView, Rejection>(
            Rejection::WrongOwner { expected: stake_program_address(), actual: owner },
        ),
        withdraw_plan(stake, owner, available, data, current_epoch, caller, recipient, lamports)
            == Err::<InstructionView, Rejection>(
            Rejection::WrongOwner { expected: stake_program_address(), actual: owner },
        ),
{
}

/// In a merge of two distinct accounts that both exist, an account that
/// the stake program does not own is refused as wrongly owned before the
/// bytes of either account are looked at, the destination first.
pub proof fn law_merge_wrong_owner_first(
    destination: Address,
    source: Address,
    fetched: Seq<Option<Account>>,
    authority: Address,
)
    requires
        destination != source,
        fetched.len() >= 2,
        fetched[0] is Some,
        fetched[1] is Some,
    ensures
        fetched[0]->Some_0.owner != stake_program_address() ==> merge_plan(
            destination,
            source,
            fetched,
            authority,
        ) == Err::<Seq<InstructionView>, Rejection>(
            Rejection::WrongOwner {
                expected: stake_program_address(),
                actual: fetched[0]->Some_0.owner,
            },
        ),
        fetched[0]->Some_0.owner == stake_program_address() && fetched[1]->Some_0.owner
            != stake_program_address() ==> merge_plan(destination, source, fetched, authority)
            == Err::<Seq<InstructionView>, Rejection>(
            Rejection::WrongOwner {
                expected: stake_program_address(),
                actual: fetched[1]->Some_0.owner,
            },
        ),
{
}

/// Merging an account into itself is refused as such whatever a fetch
/// returned: missing, foreign or malformed accounts make no difference.
pub proof fn law_merge_plan_same_account(
    account: Address,
    fetched: Seq<Option<Account>>,
    authority: Address,
)
    ensures
        merge_plan(account, account, fetched, authority) == Err::<
            Seq<InstructionView>,
            Rejection,
        >(Rejection::SameAccount { address: account }),
{
}

/// Where both accounts of a merge were found and decode, the plan is what
/// the rule says of their two states: its refusal, or the instructions.
pub proof fn law_merge_plan_follows_rule(
    destination: Address,
    source: Address,
    fetched: Seq<Option<Account>>,
    authority: Address,
    destination_state: StakeState,
    source_state: StakeState,
)
    requires
        fetched_stake_state(fetched, 0, destination) == Ok::<StakeState, Rejection>(
            destination_state,
        ),
        fetched_stake_state(fetched, 1, source) == Ok::<StakeState, Rejection>(source_state),
    ensures
        merge_plan(destination, source, fetched, authority) == match merge_verdict(
            destination,
            source,
            destination_state,
            source_state,
            authority,
        ) {
            Err(e) => Err::<Seq<InstructionView>, Rejection>(e),
            Ok(()) => Ok(merge_instructions(destination, source, authority)),
        },
{
}

/// A split between two distinct accounts yields its instructions exactly
/// when it asks for at least the minimum delegation, and is refused as
/// below the minimum otherwise.
pub proof fn law_split_plan(
    stake: Address,
    split_stake: Address,
    authority: Address,
    lamports: u64,
    minimum_delegation: u64,
)
    requires
        stake != split_stake,
    ensures
        lamports >= minimum_delegation ==> split_plan(
            stake,
            split_stake,
            authority,
            lamports,
            minimum_delegation,
        ) == Ok::<Seq<InstructionView>, Rejection>(
            split_instructions(stake, authority, lamports, split_stake),
        ),
        lamports < minimum_delegation ==> split_plan(
            stake,
            split_stake,
            authority,
            lamports,
            minimum_delegation,
        ) == Err::<Seq<InstructionView>, Rejection>(
            Rejection::BelowMinimumDelegation { minimum: minimum_delegation, requested: lamports },
        ),
{
}

} // verus!
