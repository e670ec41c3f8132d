//! From fetched facts to the instructions of an operation on a vote
//! account, or to the reason why none are sent: decode, decide, build.

use crate::account::Account;
use crate::address::{vote_program_address, Address};
use crate::error::Rejection;
use crate::instruction::{instruction_views, Instruction, InstructionView};
use crate::vote::instruction::{
    authorize_voter_instruction, build_authorize_voter, build_create_vote_account,
    build_vote_withdraw, create_vote_account_instructions, vote_withdraw_instruction,
};
use crate::vote::rules::{
    check_close, check_create_identities, check_rotation, check_vacancy, check_vote_withdraw,
    close_verdict, create_identities_verdict, rotation_verdict, vacancy_verdict,
    vote_withdraw_verdict, VoteAccountInfo, VoteAccountStatus,
};
use crate::vote::state::{decode_vote_account, vote_account_state};
use vstd::prelude::*;

verus! {

/// What creating the vote account `vote_account` comes to, where
/// `existing_owner` is the owner of the account found at its address, if
/// one was found, and `rent_exempt_minimum` the balance that keeps a vote
/// account free of rent: the account is created with exactly that
/// balance. The validator identity is made the authorized voter.
pub open spec fn create_vote_account_plan(
    fee_payer: Address,
    vote_account: Address,
    identity: Address,
    withdrawer: Address,
    commission: u8,
    existing_owner: Option<Address>,
    rent_exempt_minimum: u64,
) -> Result<Seq<InstructionView>, Rejection> {
    match create_identities_verdict(fee_payer, vote_account, identity) {
        Err(e) => Err(e),
        Ok(()) => match vacancy_verdict(vote_account, existing_owner) {
            Err(e) => Err(e),
            Ok(()) => Ok(
                create_vote_account_instructions(
                    fee_payer,
                    vote_account,
                    identity,
                    identity,
                    withdrawer,
                    commission,
                    rent_exempt_minimum,
                ),
            ),
        },
    }
}

/// Decides whether the vote account can be created and builds the
/// instructions if so.
pub fn plan_create_vote_account(
    fee_payer: &Address,
    vote_account: &Address,
    identity: &Address,
    withdrawer: &Address,
    commission: u8,
    existing_owner: Option<Address>,
    rent_exempt_minimum: u64,
) -> (r: Result<Vec<Instruction>, Rejection>)
    ensures
        match r {
            Ok(ixs) => create_vote_account_plan(
                *fee_payer,
                *vote_account,
                *identity,
                *withdrawer,
                commission,
                existing_owner,
                rent_exempt_minimum,
            ) == Ok::<Seq<InstructionView>, Rejection>(instruction_views(ixs@)),
            Err(e) => create_vote_account_plan(
                *fee_payer,
                *vote_account,
                *identity,
                *withdrawer,
                commission,
                existing_owner,
                rent_exempt_minimum,
            ) == Err::<Seq<InstructionView>, Rejection>(e),
        },
{
    match check_create_identities(fee_payer, vote_account, identity) {
        Ok(()) => {},
        Err(e) => {
            return Err(e);
        },
    }
    match check_vacancy(vote_account, existing_owner) {
        Ok(()) => {},
        Err(e) => {
            return Err(e);
        },
    }
    Ok(
        build_create_vote_account(
            fee_payer,
            vote_account,
            identity,
            identity,
            withdrawer,
            commission,
            rent_exempt_minimum,
        ),
    )
}

/// What setting `new_voter` as the authorized voter of `vote_account`
/// comes to when `authority` signs during `current_epoch` and the account
/// was fetched with the given owner and bytes.
pub open spec fn authorize_voter_plan(
    vote_account: Address,
    owner: Address,
    data: Seq<u8>,
    current_epoch: u64,
    authority: Address,
    new_voter: Address,
) -> Result<InstructionView, Rejection> {
    match vote_account_state(vote_account, owner, data) {
        Err(e) => Err(e),
        Ok(state) => match rotation_verdict(state, authority, current_epoch) {
            Err(e) => Err(e),
            Ok(()) => Ok(authorize_voter_instruction(vote_account, authority, new_voter)),
        },
    }
}

/// Decodes the fetched vote account, decides whether `authority` may set a
/// new authorized voter during `current_epoch`, and builds the instruction
/// if so.
pub fn plan_authorize_voter(
    vote_account: &Address,
    account: &Account,
    current_epoch: u64,
    authority: &Address,
    new_voter: &Address,
) -> (r: Result<Instruction, Rejection>)
    ensures
        match r {
            Ok(ix) => authorize_voter_plan(
                *vote_account,
                account.owner,
                account.data@,
                current_epoch,
                *authority,
                *new_voter,
            ) == Ok::<InstructionView, Rejection>(ix@),
            Err(e) => authorize_voter_plan(
                *vote_account,
                account.owner,
                account.data@,
                current_epoch,
                *authority,
                *new_voter,
            ) == Err::<InstructionView, Rejection>(e),
        },
{
    let state = match decode_vote_account(vote_account, account) {
        Ok(state) => state,
        Err(e) => {
            return Err(e);
        },
    };
    match check_rotation(&state, authority, current_epoch) {
        Ok(()) => Ok(build_authorize_voter(vote_account, authority, new_voter)),
        Err(e) => Err(e),
    }
}

/// What withdrawing `lamports` from `vote_account` to `recipient` comes to
/// when `withdrawer` signs and the account was fetched with the given
/// owner and bytes.
pub open spec fn vote_withdraw_plan(
    vote_account: Address,
    owner: Address,
    data: Seq<u8>,
    withdrawer: Address,
    recipient: Address,
    lamports: u64,
) -> Result<InstructionView, Rejection> {
    match vote_account_state(vote_account, owner, data) {
        Err(e) => Err(e),
        Ok(state) => match vote_withdraw_verdict(state, withdrawer) {
            Err(e) => Err(e),
            Ok(()) => Ok(vote_withdraw_instruction(vote_account, withdrawer, lamports, recipient)),
        },
    }
}

/// Decodes the fetched vote account, decides whether `withdrawer` may
/// withdraw from it, and builds the instruction if so.
pub fn plan_vote_withdraw(
    vote_account: &Address,
    account: &Account,
    withdrawer: &Address,
    recipient: &Address,
    lamports: u64,
) -> (r: Result<Instruction, Rejection>)
    ensures
        match r {
            Ok(ix) => vote_withdraw_plan(
                *vote_account,
                account.owner,
                account.data@,
                *withdrawer,
                *recipient,
                lamports,
            ) == Ok::<InstructionView, Rejection>(ix@),
            Err(e) => vote_withdraw_plan(
                *vote_account,
                account.owner,
                account.data@,
                *withdrawer,
                *recipient,
                lamports,
            ) == Err::<InstructionView, Rejection>(e),
        },
{
    let state = match decode_vote_account(vote_account, account) {
        Ok(state) => state,
        Err(e) => {
            return Err(e);
        },
    };
    match check_vote_withdraw(&state, withdrawer) {
        Ok(()) => Ok(build_vote_withdraw(vote_account, withdrawer, lamports, recipient)),
        Err(e) => Err(e),
    }
}

/// What closing `vote_account` comes to, on the cluster's view of it and
/// on the `balance` that it holds: where no entry of the view reports
/// activated stake and the account holds something, the whole balance is
/// withdrawn to `destination`, signed by `authority`.
pub open spec fn close_vote_account_plan(
    vote_account: Address,
    current: Seq<VoteAccountInfo>,
    delinquent: Seq<VoteAccountInfo>,
    balance: u64,
    authority: Address,
    destination: Address,
) -> Result<InstructionView, Rejection> {
    match close_verdict(vote_account, current, delinquent, balance) {
        Err(e) => Err(e),
        Ok(()) => Ok(vote_withdraw_instruction(vote_account, authority, balance, destination)),
    }
}

/// Decides whether the vote account can be closed, on the cluster's view
/// of it and on its balance, and builds the instruction that withdraws
/// all of it if so.
pub fn plan_close_vote_account(
    vote_account: &Address,
    status: &VoteAccountStatus,
    balance: u64,
    authority: &Address,
    destination: &Address,
) -> (r: Result<Instruction, Rejection>)
    ensures
        match r {
            Ok(ix) => close_vote_account_plan(
                *vote_account,
                status.current@,
                status.delinquent@,
                balance,
                *authority,
                *destination,
            ) == Ok::<InstructionView, Rejection>(ix@),
            Err(e) => close_vote_account_plan(
                *vote_account,
                status.current@,
                status.delinquent@,
                balance,
                *authority,
                *destination,
            ) == Err::<InstructionView, Rejection>(e),
        },
{
    match check_close(vote_account, status, balance) {
        Ok(()) => Ok(build_vote_withdraw(vote_account, authority, balance, destination)),
        Err(e) => Err(e),
    }
}

/// An account that the vote program does not own is refused as wrongly
/// owned before its bytes or the signer are looked at.
pub proof fn law_vote_wrong_owner_first(
    vote_account: Address,
    owner: Address,
    data: Seq<u8>,
    current_epoch: u64,
    authority: Address,
    other: Address,
    lamports: u64,
)
    requires
        owner != vote_program_address(),
    ensures
        authorize_voter_plan(vote_account, owner, data, current_epoch, authority, other) == Err::<
            InstructionView,
            Rejection,
        >(Rejection::WrongOwner { expected: vote_program_address(), actual: owner }),
        vote_withdraw_plan(vote_account, owner, data, authority, other, lamports) == Err::<
            InstructionView,
            Rejection,
        >(Rejection::WrongOwner { expected: vote_program_address(), actual: owner }),
{
}

/// A vote account of which some entry of the view, current or delinquent,
/// reports activated stake is not closed, whatever balance it holds and
/// whoever signs.
pub proof fn law_close_plan_with_active_stake(
    vote_account: Address,
    current: Seq<VoteAccountInfo>,
    delinquent: Seq<VoteAccountInfo>,
    i: int,
    balance: u64,
    authority: Address,
    destination: Address,
)
    requires
        (0 <= i < current.len() && current[i].activated_stake != 0) || (0 <= i < delinquent.len()
            && delinquent[i].activated_stake != 0),
    ensures
        close_vote_account_plan(vote_account, current, delinquent, balance, authority, destination)
            == Err::<InstructionView, Rejection>(Rejection::ActiveStake { address: vote_account }),
{
}

/// A vote account is created with the rent-exempt minimum as its balance:
/// the amount in the system program's instruction is the minimum itself.
pub proof fn law_create_funds_with_rent_exempt_minimum(
    fee_payer: Address,
    vote_account: Address,
    identity: Address,
    withdrawer: Address,
    commission: u8,
    rent_exempt_minimum: u64,
)
    requires
        fee_payer != vote_account,
        vote_account != identity,
    ensures
        create_vote_account_plan(
            fee_payer,
            vote_account,
            identity,
            withdrawer,
            commission,
            None,
            rent_exempt_minimum,
        ) == Ok::<Seq<InstructionView>, Rejection>(
            create_vote_account_instructions(
                fee_payer,
                vote_account,
                identity,
                identity,
                withdrawer,
                commission,
                rent_exempt_minimum,
            ),
        ),
{
}

} // verus!
