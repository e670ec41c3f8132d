//! An operation as a sequence of steps: what to ask the remote service
//! next, given what it has answered so far, and in the end what to submit
//! or why nothing is submitted. The caller performs each step and hands
//! the answer back; nothing here touches the network.

use crate::account::{Account, EpochInfo};
use crate::address::Address;
use crate::error::{ErrorKind, Rejection};
use crate::instruction::{instruction_views, Instruction, InstructionView};
use crate::stake::plan::{
    deactivate_plan, merge_plan, plan_deactivate, plan_merge, plan_split, plan_withdraw,
    split_plan, withdraw_plan,
};
use crate::stake::rules::{check_distinct, distinct_verdict};
use crate::vote::instruction::{vote_account_space, VOTE_ACCOUNT_SPACE};
use crate::vote::plan::{
    authorize_voter_plan, close_vote_account_plan, create_vote_account_plan,
    plan_authorize_voter, plan_close_vote_account, plan_create_vote_account, plan_vote_withdraw,
    vote_withdraw_plan,
};
use crate::vote::rules::{
    check_close_stake, check_create_identities, check_vacancy, close_stake_verdict,
    create_identities_verdict, shows_activated_stake, vacancy_verdict, VoteAccountStatus,
};
use vstd::prelude::*;

verus! {

/// An operation that ends in a transaction, with what the operator gave
/// for it.
#[derive(Clone, Copy, Debug, PartialEq, Eq)]
pub enum Operation {
    /// Deactivate the stake account `stake`; the fee payer signs as staker.
    DeactivateStake { stake: Address },
    /// Withdraw `lamports` from `stake` to `recipient`; the fee payer signs
    /// as withdrawer.
    WithdrawStake { stake: Address, recipient: Address, lamports: u64 },
    /// Merge `source` into `destination`; `authority` signs as staker.
    MergeStake { destination: Address, source: Address, authority: Address },
    /// Split `lamports` off `stake` into `split_stake`; `authority` signs as
    /// staker.
    SplitStake { stake: Address, split_stake: Address, authority: Address, lamports: u64 },
    /// Create the vote account `vote_account` for the validator `identity`.
    CreateVoteAccount {
        vote_account: Address,
        identity: Address,
        withdrawer: Address,
        commission: u8,
    },
    /// Make `new_voter` the authorized voter of `vote_account`; `authority`
    /// signs.
    AuthorizeVoter { vote_account: Address, authority: Address, new_voter: Address },
    /// Withdraw `lamports` from `vote_account` to `recipient`; `withdrawer`
    /// signs.
    WithdrawFromVoteAccount {
        vote_account: Address,
        withdrawer: Address,
        recipient: Address,
        lamports: u64,
    },
    /// Withdraw all that `vote_account` holds to `destination`; `authority`
    /// signs.
    CloseVoteAccount { vote_account: Address, authority: Address, destination: Address },
}

/// A question to the remote service.
#[derive(Clone, Copy, Debug, PartialEq, Eq)]
pub enum Query {
    /// The account at `address`.
    Account { address: Address },
    /// The account at `address` together with the current epoch, both
    /// asked for at once.
    AccountWithEpoch { address: Address },
    /// The accounts at `first` and `second`, in this order.
    Accounts { first: Address, second: Address },
    /// The least number of lamports that a delegation must hold.
    MinimumDelegation,
    /// The balance that keeps an account of `space` bytes free of rent.
    RentExemptMinimum { space: u64 },
    /// The cluster's view of the vote account at `vote_account`.
    VoteAccounts { vote_account: Address },
    /// The balance of the account at `address`.
    Balance { address: Address },
}

/// An answer of the remote service. `None` in place of an account means
/// that no account exists at the address.
#[derive(Clone, Debug, PartialEq, Eq)]
pub enum Reply {
    Account(Option<Account>),
    AccountWithEpoch(Option<Account>, EpochInfo),
    Accounts(Vec<Option<Account>>),
    MinimumDelegation(u64),
    RentExemptMinimum(u64),
    VoteAccounts(VoteAccountStatus),
    Balance(u64),
    /// The service could not be reached, or answered with an error.
    Failed,
}

/// The answer that two reads made at once come to: the lookup of an
/// account, where `None` means that no account exists, and the read of
/// the current epoch, where `None` means that the read failed. If either
/// read fails the whole answer does.
pub open spec fn joined_reply(account: Option<Option<Account>>, epoch: Option<EpochInfo>) -> Reply {
    match (account, epoch) {
        (Some(account), Some(epoch)) => Reply::AccountWithEpoch(account, epoch),
        _ => Reply::Failed,
    }
}

impl Reply {
    /// Joins the outcomes of the two reads that answer
    /// `Query::AccountWithEpoch`; `None` stands for a read that failed.
    pub fn joined(account: Option<Option<Account>>, epoch: Option<EpochInfo>) -> (r: Reply)
        ensures
            r == joined_reply(account, epoch),
    {
        match (account, epoch) {
            (Some(account), Some(epoch)) => Reply::AccountWithEpoch(account, epoch),
            _ => Reply::Failed,
        }
    }
}

/// Why an operation ended without a transaction.
#[derive(Clone, Copy, Debug, PartialEq, Eq)]
pub enum Failure {
    /// A check on this side refused the operation.
    Rejected(Rejection),
    /// The remote service failed to answer a question.
    Transport,
    /// An answer was handed back that belongs to no question asked.
    UnexpectedReply,
}

impl Failure {
    /// The kind of failure each way of ending belongs to: a question that
    /// went unanswered, or was answered out of turn, is a failed lookup.
    pub open spec fn kind_of(self) -> ErrorKind {
        match self {
            Failure::Rejected(rejection) => rejection.kind_of(),
            Failure::Transport => ErrorKind::Lookup,
            Failure::UnexpectedReply => ErrorKind::Lookup,
        }
    }

    /// The kind of failure this way of ending belongs to.
    pub fn kind(&self) -> (r: ErrorKind)
        ensures
            r == self.kind_of(),
    {
        match self {
            Failure::Rejected(rejection) => rejection.kind(),
            Failure::Transport => ErrorKind::Lookup,
            Failure::UnexpectedReply => ErrorKind::Lookup,
        }
    }
}

/// What to do next.
#[derive(Clone, Debug, PartialEq, Eq)]
pub enum Step {
    /// Ask the remote service and hand back its answer.
    Ask(Query),
    /// Sign the instructions with the keys of `signers`, the fee payer's
    /// first, and submit them.
    Submit { instructions: Vec<Instruction>, signers: Vec<Address> },
    /// Stop: nothing is submitted.
    Fail(Failure),
}

/// A step, as mathematical values.
pub enum StepView {
    Ask(Query),
    Submit { instructions: Seq<InstructionView>, signers: Seq<Address> },
    Fail(Failure),
}

impl View for Step {
    type V = StepView;

    open spec fn view(&self) -> StepView {
        match self {
            Step::Ask(query) => StepView::Ask(*query),
            Step::Submit { instructions, signers } => StepView::Submit {
                instructions: instruction_views(instructions@),
                signers: signers@,
            },
            Step::Fail(failure) => StepView::Fail(*failure),
        }
    }
}

/// The last step of an operation whose checks came to `plan`: submit what
/// was planned, or stop with the refusal.
pub open spec fn conclusion(
    plan: Result<Seq<InstructionView>, Rejection>,
    signers: Seq<Address>,
) -> StepView {
    match plan {
        Ok(instructions) => StepView::Submit { instructions, signers },
        Err(e) => StepView::Fail(Failure::Rejected(e)),
    }
}

/// A plan of one instruction as a plan of a list.
pub open spec fn single(plan: Result<InstructionView, Rejection>) -> Result<
    Seq<InstructionView>,
    Rejection,
> {
    match plan {
        Ok(instruction) => Ok(seq![instruction]),
        Err(e) => Err(e),
    }
}

/// The step after `replies` of deactivating `stake`.
pub open spec fn deactivate_step(stake: Address, fee_payer: Address, replies: Seq<Reply>) -> StepView {
    if replies.len() == 0 {
        StepView::Ask(Query::Account { address: stake })
    } else if replies.len() == 1 {
        match replies[0] {
            Reply::Account(Some(account)) => conclusion(
                single(deactivate_plan(stake, account.owner, account.data@, fee_payer)),
                seq![fee_payer],
            ),
            Reply::Account(None) => StepView::Fail(
                Failure::Rejected(Rejection::AccountNotFound { address: stake }),
            ),
            Reply::Failed => StepView::Fail(Failure::Transport),
            _ => StepView::Fail(Failure::UnexpectedReply),
        }
    } else {
        StepView::Fail(Failure::UnexpectedReply)
    }
}

/// The step after `replies` of withdrawing from `stake`.
pub open spec fn withdraw_stake_step(
    stake: Address,
    recipient: Address,
    lamports: u64,
    fee_payer: Address,
    replies: Seq<Reply>,
) -> StepView {
    if replies.len() == 0 {
        StepView::Ask(Query::AccountWithEpoch { address: stake })
    } else if replies.len() == 1 {
        match replies[0] {
            Reply::AccountWithEpoch(Some(account), epoch) => conclusion(
                single(
                    withdraw_plan(
                        stake,
                        account.owner,
                        account.lamports,
                        account.data@,
                        epoch.epoch,
                        fee_payer,
                        recipient,
                        lamports,
                    ),
                ),
                seq![fee_payer],
            ),
            Reply::AccountWithEpoch(None, _) => StepView::Fail(
                Failure::Rejected(Rejection::AccountNotFound { address: stake }),
            ),
            Reply::Failed => StepView::Fail(Failure::Transport),
            _ => StepView::Fail(Failure::UnexpectedReply),
        }
    } else {
        StepView::Fail(Failure::UnexpectedReply)
    }
}

/// The step after `replies` of merging `source` into `destination`. That
/// the two are the same account ends the operation before anything is
/// asked.
pub open spec fn merge_step(
    destination: Address,
    source: Address,
    authority: Address,
    fee_payer: Address,
    replies: Seq<Reply>,
) -> StepView {
    if distinct_verdict(destination, source) is Err {
        StepView::Fail(Failure::Rejected(Rejection::SameAccount { address: destination }))
    } else if replies.len() == 0 {
        StepView::Ask(Query::Accounts { first: destination, second: source })
    } else if replies.len() == 1 {
        match replies[0] {
            Reply::Accounts(fetched) => conclusion(
                merge_plan(destination, source, fetched@, authority),
                seq![fee_payer, authority],
            ),
            Reply::Failed => StepView::Fail(Failure::Transport),
            _ => StepView::Fail(Failure::UnexpectedReply),
        }
    } else {
        StepView::Fail(Failure::UnexpectedReply)
    }
}

/// The step after `replies` of splitting `stake`. That the two accounts
/// are the same ends the operation before anything is asked.
pub open spec fn split_step(
    stake: Address,
    split_stake: Address,
    authority: Address,
    lamports: u64,
    fee_payer: Address,
    replies: Seq<Reply>,
) -> StepView {
    if distinct_verdict(stake, split_stake) is Err {
        StepView::Fail(Failure::Rejected(Rejection::SameAccount { address: stake }))
    } else if replies.len() == 0 {
        StepView::Ask(Query::MinimumDelegation)
    } else if replies.len() == 1 {
        match replies[0] {
            Reply::MinimumDelegation(minimum) => conclusion(
                split_plan(stake, split_stake, authority, lamports, minimum),
                seq![fee_payer, authority],
            ),
            Reply::Failed => StepView::Fail(Failure::Transport),
            _ => StepView::Fail(Failure::UnexpectedReply),
        }
    } else {
        StepView::Fail(Failure::UnexpectedReply)
    }
}

/// The owner of the account that a lookup found, if it found one. A
/// lookup that failed says nothing of the address: it is a failure of the
/// transport, not a free address.
pub open spec fn found_owner(reply: Reply) -> Result<Option<Address>, Failure> {
    match reply {
        Reply::Account(Some(account)) => Ok(Some(account.owner)),
        Reply::Account(None) => Ok(None),
        Reply::Failed => Err(Failure::Transport),
        _ => Err(Failure::UnexpectedReply),
    }
}

/// The step after `replies` of creating a vote account: the identities
/// are judged before anything is asked, then the address must be known to
/// be free, and only then is the rent-exempt minimum asked for. A lookup
/// that failed ends the operation as a failure of the transport.
pub open spec fn create_vote_account_step(
    vote_account: Address,
    identity: Address,
    withdrawer: Address,
    commission: u8,
    fee_payer: Address,
    replies: Seq<Reply>,
) -> StepView {
    match create_identities_verdict(fee_payer, vote_account, identity) {
        Err(e) => StepView::Fail(Failure::Rejected(e)),
        Ok(()) => {
            if replies.len() == 0 {
                StepView::Ask(Query::Account { address: vote_account })
            } else if replies.len() > 2 {
                StepView::Fail(Failure::UnexpectedReply)
            } else {
                match found_owner(replies[0]) {
                    Err(failure) => StepView::Fail(failure),
                    Ok(existing_owner) => match vacancy_verdict(vote_account, existing_owner) {
                        Err(e) => StepView::Fail(Failure::Rejected(e)),
                        Ok(()) => {
                            if replies.len() == 1 {
                                StepView::Ask(
                                    Query::RentExemptMinimum { space: VOTE_ACCOUNT_SPACE },
                                )
                            } else {
                                match replies[1] {
                                    Reply::RentExemptMinimum(minimum) => conclusion(
                                        create_vote_account_plan(
                                            fee_payer,
                                            vote_account,
                                            identity,
                                            withdrawer,
                                            commission,
                                            existing_owner,
                                            minimum,
                                        ),
                                        seq![fee_payer, vote_account, identity],
                                    ),
                                    Reply::Failed => StepView::Fail(Failure::Transport),
                                    _ => StepView::Fail(Failure::UnexpectedReply),
                                }
                            }
                        },
                    },
                }
            }
        },
    }
}

/// The step after `replies` of rotating the authorized voter.
pub open spec fn authorize_voter_step(
    vote_account: Address,
    authority: Address,
    new_voter: Address,
    fee_payer: Address,
    replies: Seq<Reply>,
) -> StepView {
    if replies.len() == 0 {
        StepView::Ask(Query::AccountWithEpoch { address: vote_account })
    } else if replies.len() == 1 {
        match replies[0] {
            Reply::AccountWithEpoch(Some(account), epoch) => conclusion(
                single(
                    authorize_voter_plan(
                        vote_account,
                        account.owner,
                        account.data@,
                        epoch.epoch,
                        authority,
                        new_voter,
                    ),
                ),
                seq![fee_payer, authority],
            ),
            Reply::AccountWithEpoch(None, _) => StepView::Fail(
                Failure::Rejected(Rejection::AccountNotFound { address: vote_account }),
            ),
            Reply::Failed => StepView::Fail(Failure::Transport),
            _ => StepView::Fail(Failure::UnexpectedReply),
        }
    } else {
        StepView::Fail(Failure::UnexpectedReply)
    }
}

/// The step after `replies` of withdrawing from a vote account. An
/// account that does not exist and a lookup that failed are told apart.
pub open spec fn withdraw_vote_step(
    vote_account: Address,
    withdrawer: Address,
    recipient: Address,
    lamports: u64,
    fee_payer: Address,
    replies: Seq<Reply>,
) -> StepView {
    if replies.len() == 0 {
        StepView::Ask(Query::Account { address: vote_account })
    } else if replies.len() == 1 {
        match replies[0] {
            Reply::Account(Some(account)) => conclusion(
                single(
                    vote_withdraw_plan(
                        vote_account,
                        account.owner,
                        account.data@,
                        withdrawer,
                        recipient,
                        lamports,
                    ),
                ),
                seq![fee_payer, withdrawer],
            ),
            Reply::Account(None) => StepView::Fail(
                Failure::Rejected(Rejection::AccountNotFound { address: vote_account }),
            ),
            Reply::Failed => StepView::Fail(Failure::Transport),
            _ => StepView::Fail(Failure::UnexpectedReply),
        }
    } else {
        StepView::Fail(Failure::UnexpectedReply)
    }
}

/// The step after `replies` of closing a vote account: the cluster's view
/// is asked for first, and the balance only if no entry of that view
/// reports activated stake.
pub open spec fn close_vote_account_step(
    vote_account: Address,
    authority: Address,
    destination: Address,
    fee_payer: Address,
    replies: Seq<Reply>,
) -> StepView {
    if replies.len() == 0 {
        StepView::Ask(Query::VoteAccounts { vote_account })
    } else if replies.len() > 2 {
        StepView::Fail(Failure::UnexpectedReply)
    } else {
        match replies[0] {
            Reply::VoteAccounts(status) => {
                match close_stake_verdict(vote_account, status.current@, status.delinquent@) {
                    Err(e) => StepView::Fail(Failure::Rejected(e)),
                    Ok(()) => {
                        if replies.len() == 1 {
                            StepView::Ask(Query::Balance { address: vote_account })
                        } else {
                            match replies[1] {
                                Reply::Balance(balance) => conclusion(
                                    single(
                                        close_vote_account_plan(
                                            vote_account,
                                            status.current@,
                                            status.delinquent@,
                                            balance,
                                            authority,
                                            destination,
                                        ),
                                    ),
                                    seq![fee_payer, authority],
                                ),
                                Reply::Failed => StepView::Fail(Failure::Transport),
                                _ => StepView::Fail(Failure::UnexpectedReply),
                            }
                        }
                    },
                }
            },
            Reply::Failed => StepView::Fail(Failure::Transport),
            _ => StepView::Fail(Failure::UnexpectedReply),
        }
    }
}

/// The step that follows when the remote service has given `replies`, in
/// this order, to the questions that `operation` has asked so far, with
/// `fee_payer` paying and signing first.
pub open spec fn next_step(operation: Operation, fee_payer: Address, replies: Seq<Reply>) -> StepView {
    match operation {
        Operation::DeactivateStake { stake } => deactivate_step(stake, fee_payer, replies),
        Operation::WithdrawStake { stake, recipient, lamports } => withdraw_stake_step(
            stake,
            recipient,
            lamports,
            fee_payer,
            replies,
        ),
        Operation::MergeStake { destination, source, authority } => merge_step(
            destination,
            source,
            authority,
            fee_payer,
            replies,
        ),
        Operation::SplitStake { stake, split_stake, authority, lamports } => split_step(
            stake,
            split_stake,
            authority,
            lamports,
            fee_payer,
            replies,
        ),
        Operation::CreateVoteAccount {
            vote_account,
            identity,
            withdrawer,
            commission,
        } => create_vote_account_step(
            vote_account,
            identity,
            withdrawer,
            commission,
            fee_payer,
            replies,
        ),
        Operation::AuthorizeVoter { vote_account, authority, new_voter } => authorize_voter_step(
            vote_account,
            authority,
            new_voter,
            fee_payer,
            replies,
        ),
        Operation::WithdrawFromVoteAccount {
            vote_account,
            withdrawer,
            recipient,
            lamports,
        } => withdraw_vote_step(vote_account, withdrawer, recipient, lamports, fee_payer, replies),
        Operation::CloseVoteAccount {
            vote_account,
            authority,
            destination,
        } => close_vote_account_step(vote_account, authority, destination, fee_payer, replies),
    }
}

/// Ends an operation on the plan that its checks came to.
fn conclude(plan: Result<Vec<Instruction>, Rejection>, signers: Vec<Address>) -> (r: Step)
    ensures
        match plan {
            Ok(instructions) => r@ == conclusion(
                Ok(instruction_views(instructions@)),
                signers@,
            ),
            Err(e) => r@ == conclusion(Err(e), signers@),
        },
{
    match plan {
        Ok(instructions) => Step::Submit { instructions, signers },
        Err(e) => Step::Fail(Failure::Rejected(e)),
    }
}

/// Ends an operation on the plan of one instruction that its checks came
/// to.
fn conclude_single(plan: Result<Instruction, Rejection>, signers: Vec<Address>) -> (r: Step)
    ensures
        match plan {
            Ok(instruction) => r@ == conclusion(single(Ok(instruction@)), signers@),
            Err(e) => r@ == conclusion(single(Err(e)), signers@),
        },
{
    match plan {
        Ok(instruction) => {
            let ghost view = instruction@;
            let mut instructions: Vec<Instruction> = Vec::new();
            instructions.push(instruction);
            assert(instruction_views(instructions@) =~= seq![view]);
            Step::Submit { instructions, signers }
        },
        Err(e) => Step::Fail(Failure::Rejected(e)),
    }
}

/// The fee payer as the only signer.
fn payer_alone(fee_payer: &Address) -> (r: Vec<Address>)
    ensures
        r@ == seq![*fee_payer],
{
    let mut signers: Vec<Address> = Vec::new();
    signers.push(*fee_payer);
    assert(signers@ =~= seq![*fee_payer]);
    signers
}

/// The fee payer and one more signer.
fn payer_and(fee_payer: &Address, other: &Address) -> (r: Vec<Address>)
    ensures
        r@ == seq![*fee_payer, *other],
{
    let mut signers: Vec<Address> = Vec::new();
    signers.push(*fee_payer);
    signers.push(*other);
    assert(signers@ =~= seq![*fee_payer, *other]);
    signers
}

/// Decides the next step of deactivating a stake account.
fn deactivate_next(stake: &Address, fee_payer: &Address, replies: &Vec<Reply>) -> (r: Step)
    ensures
        r@ == deactivate_step(*stake, *fee_payer, replies@),
{
    if replies.len() == 0 {
        return Step::Ask(Query::Account { address: *stake });
    }
    if replies.len() != 1 {
        return Step::Fail(Failure::UnexpectedReply);
    }
    match &replies[0] {
        Reply::Account(Some(account)) => conclude_single(
            plan_deactivate(stake, account, fee_payer),
            payer_alone(fee_payer),
        ),
        Reply::Account(None) => Step::Fail(
            Failure::Rejected(Rejection::AccountNotFound { address: *stake }),
        ),
        Reply::Failed => Step::Fail(Failure::Transport),
        _ => Step::Fail(Failure::UnexpectedReply),
    }
}

/// Decides the next step of withdrawing from a stake account.
fn withdraw_stake_next(
    stake: &Address,
    recipient: &Address,
    lamports: u64,
    fee_payer: &Address,
    replies: &Vec<Reply>,
) -> (r: Step)
    ensures
        r@ == withdraw_stake_step(*stake, *recipient, lamports, *fee_payer, replies@),
{
    if replies.len() == 0 {
        return Step::Ask(Query::AccountWithEpoch { address: *stake });
    }
    if replies.len() != 1 {
        return Step::Fail(Failure::UnexpectedReply);
    }
    match &replies[0] {
        Reply::AccountWithEpoch(Some(account), epoch) => conclude_single(
            plan_withdraw(stake, account, epoch.epoch, fee_payer, recipient, lamports),
            payer_alone(fee_payer),
        ),
        Reply::AccountWithEpoch(None, _) => Step::Fail(
            Failure::Rejected(Rejection::AccountNotFound { address: *stake }),
        ),
        Reply::Failed => Step::Fail(Failure::Transport),
        _ => Step::Fail(Failure::UnexpectedReply),
    }
}

/// Decides the next step of merging two stake accounts.
fn merge_next(
    destination: &Address,
    source: &Address,
    authority: &Address,
    fee_payer: &Address,
    replies: &Vec<Reply>,
) -> (r: Step)
    ensures
        r@ == merge_step(*destination, *source, *authority, *fee_payer, replies@),
{
    match check_distinct(destination, source) {
        Ok(()) => {},
        Err(e) => {
            return Step::Fail(Failure::Rejected(e));
        },
    }
    if replies.len() == 0 {
        return Step::Ask(Query::Accounts { first: *destination, second: *source });
    }
    if replies.len() != 1 {
        return Step::Fail(Failure::UnexpectedReply);
    }
    match &replies[0] {
        Reply::Accounts(fetched) => conclude(
            plan_merge(destination, source, fetched, authority),
            payer_and(fee_payer, authority),
        ),
        Reply::Failed => Step::Fail(Failure::Transport),
        _ => Step::Fail(Failure::UnexpectedReply),
    }
}

/// Decides the next step of splitting a stake account.
fn split_next(
    stake: &Address,
    split_stake: &Address,
    authority: &Address,
    lamports: u64,
    fee_payer: &Address,
    replies: &Vec<Reply>,
) -> (r: Step)
    ensures
        r@ == split_step(*stake, *split_stake, *authority, lamports, *fee_payer, replies@),
{
    match check_distinct(stake, split_stake) {
        Ok(()) => {},
        Err(e) => {
            return Step::Fail(Failure::Rejected(e));
        },
    }
    if replies.len() == 0 {
        return Step::Ask(Query::MinimumDelegation);
    }
    if replies.len() != 1 {
        return Step::Fail(Failure::UnexpectedReply);
    }
    match &replies[0] {
        Reply::MinimumDelegation(minimum) => conclude(
            plan_split(stake, split_stake, authority, lamports, *minimum),
            payer_and(fee_payer, authority),
        ),
        Reply::Failed => Step::Fail(Failure::Transport),
        _ => Step::Fail(Failure::UnexpectedReply),
    }
}

/// Reads the answer to the lookup of an address that should be free.
fn owner_found(reply: &Reply) -> (r: Result<Option<Address>, Failure>)
    ensures
        r == found_owner(*reply),
{
    match reply {
        Reply::Account(Some(account)) => Ok(Some(account.owner)),
        Reply::Account(None) => Ok(None),
        Reply::Failed => Err(Failure::Transport),
        _ => Err(Failure::UnexpectedReply),
    }
}

/// Decides the next step of creating a vote account.
fn create_vote_account_next(
    vote_account: &Address,
    identity: &Address,
    withdrawer: &Address,
    commission: u8,
    fee_payer: &Address,
    replies: &Vec<Reply>,
) -> (r: Step)
    ensures
        r@ == create_vote_account_step(
            *vote_account,
            *identity,
            *withdrawer,
            commission,
            *fee_payer,
            replies@,
        ),
{
    match check_create_identities(fee_payer, vote_account, identity) {
        Ok(()) => {},
        Err(e) => {
            return Step::Fail(Failure::Rejected(e));
        },
    }
    if replies.len() == 0 {
        return Step::Ask(Query::Account { address: *vote_account });
    }
    if replies.len() > 2 {
        return Step::Fail(Failure::UnexpectedReply);
    }
    let existing_owner = match owner_found(&replies[0]) {
        Ok(existing_owner) => existing_owner,
        Err(failure) => {
            return Step::Fail(failure);
        },
    };
    match check_vacancy(vote_account, existing_owner) {
        Ok(()) => {},
        Err(e) => {
            return Step::Fail(Failure::Rejected(e));
        },
    }
    if replies.len() == 1 {
        return Step::Ask(Query::RentExemptMinimum { space: vote_account_space() });
    }
    match &replies[1] {
        Reply::RentExemptMinimum(minimum) => {
            let mut signers = payer_and(fee_payer, vote_account);
            signers.push(*identity);
            assert(signers@ =~= seq![*fee_payer, *vote_account, *identity]);
            conclude(
                plan_create_vote_account(
                    fee_payer,
                    vote_account,
                    identity,
                    withdrawer,
                    commission,
                    existing_owner,
                    *minimum,
                ),
                signers,
            )
        },
        Reply::Failed => Step::Fail(Failure::Transport),
        _ => Step::Fail(Failure::UnexpectedReply),
    }
}

/// Decides the next step of rotating the authorized voter.
fn authorize_voter_next(
    vote_account: &Address,
    authority: &Address,
    new_voter: &Address,
    fee_payer: &Address,
    replies: &Vec<Reply>,
) -> (r: Step)
    ensures
        r@ == authorize_voter_step(*vote_account, *authority, *new_voter, *fee_payer, replies@),
{
    if replies.len() == 0 {
        return Step::Ask(Query::AccountWithEpoch { address: *vote_account });
    }
    if replies.len() != 1 {
        return Step::Fail(Failure::UnexpectedReply);
    }
    match &replies[0] {
        Reply::AccountWithEpoch(Some(account), epoch) => conclude_single(
            plan_authorize_voter(vote_account, account, epoch.epoch, authority, new_voter),
            payer_and(fee_payer, authority),
        ),
        Reply::AccountWithEpoch(None, _) => Step::Fail(
            Failure::Rejected(Rejection::AccountNotFound { address: *vote_account }),
        ),
        Reply::Failed => Step::Fail(Failure::Transport),
        _ => Step::Fail(Failure::UnexpectedReply),
    }
}

/// Decides the next step of withdrawing from a vote account.
fn withdraw_vote_next(
    vote_account: &Address,
    withdrawer: &Address,
    recipient: &Address,
    lamports: u64,
    fee_payer: &Address,
    replies: &Vec<Reply>,
) -> (r: Step)
    ensures
        r@ == withdraw_vote_step(
            *vote_account,
            *withdrawer,
            *recipient,
            lamports,
            *fee_payer,
            replies@,
        ),
{
    if replies.len() == 0 {
        return Step::Ask(Query::Account { address: *vote_account });
    }
    if replies.len() != 1 {
        return Step::Fail(Failure::UnexpectedReply);
    }
    match &replies[0] {
        Reply::Account(Some(account)) => conclude_single(
            plan_vote_withdraw(vote_account, account, withdrawer, recipient, lamports),
            payer_and(fee_payer, withdrawer),
        ),
        Reply::Account(None) => Step::Fail(
            Failure::Rejected(Rejection::AccountNotFound { address: *vote_account }),
        ),
        Reply::Failed => Step::Fail(Failure::Transport),
        _ => Step::Fail(Failure::UnexpectedReply),
    }
}

/// Decides the next step of closing a vote account.
fn close_vote_account_next(
    vote_account: &Address,
    authority: &Address,
    destination: &Address,
    fee_payer: &Address,
    replies: &Vec<Reply>,
) -> (r: Step)
    ensures
        r@ == close_vote_account_step(
            *vote_account,
            *authority,
            *destination,
            *fee_payer,
            replies@,
        ),
{
    if replies.len() == 0 {
        return Step::Ask(Query::VoteAccounts { vote_account: *vote_account });
    }
    if replies.len() > 2 {
        return Step::Fail(Failure::UnexpectedReply);
    }
    match &replies[0] {
        Reply::VoteAccounts(status) => {
            match check_close_stake(vote_account, status) {
                Ok(()) => {},
                Err(e) => {
                    return Step::Fail(Failure::Rejected(e));
                },
            }
            if replies.len() == 1 {
                return Step::Ask(Query::Balance { address: *vote_account });
            }
            match &replies[1] {
                Reply::Balance(balance) => conclude_single(
                    plan_close_vote_account(vote_account, status, *balance, authority, destination),
                    payer_and(fee_payer, authority),
                ),
                Reply::Failed => Step::Fail(Failure::Transport),
                _ => Step::Fail(Failure::UnexpectedReply),
            }
        },
        Reply::Failed => Step::Fail(Failure::Transport),
        _ => Step::Fail(Failure::UnexpectedReply),
    }
}

/// Decides the next step of `operation` from the answers received so far.
/// Called first with no answers; after each `Ask` the caller adds the
/// answer to `replies` and calls again, until the step is `Submit` or
/// `Fail`.
pub fn advance(operation: &Operation, fee_payer: &Address, replies: &Vec<Reply>) -> (r: Step)
    ensures
        r@ == next_step(*operation, *fee_payer, replies@),
{
    match operation {
        Operation::DeactivateStake { stake } => deactivate_next(stake, fee_payer, replies),
        Operation::WithdrawStake { stake, recipient, lamports } => withdraw_stake_next(
            stake,
            recipient,
            *lamports,
            fee_payer,
            replies,
        ),
        Operation::MergeStake { destination, source, authority } => merge_next(
            destination,
            source,
            authority,
            fee_payer,
            replies,
        ),
        Operation::SplitStake { stake, split_stake, authority, lamports } => split_next(
            stake,
            split_stake,
            authority,
            *lamports,
            fee_payer,
            replies,
        ),
        Operation::CreateVoteAccount {
            vote_account,
            identity,
            withdrawer,
            commission,
        } => create_vote_account_next(
            vote_account,
            identity,
            withdrawer,
            *commission,
            fee_payer,
            replies,
        ),
        Operation::AuthorizeVoter { vote_account, authority, new_voter } => authorize_voter_next(
            vote_account,
            authority,
            new_voter,
            fee_payer,
            replies,
        ),
        Operation::WithdrawFromVoteAccount {
            vote_account,
            withdrawer,
            recipient,
            lamports,
        } => withdraw_vote_next(vote_account, withdrawer, recipient, *lamports, fee_payer, replies),
        Operation::CloseVoteAccount {
            vote_account,
            authority,
            destination,
        } => close_vote_account_next(vote_account, authority, destination, fee_payer, replies),
    }
}

/// No operation asks more than two questions: after two answers the next
/// step submits or stops.
pub proof fn law_at_most_two_questions(operation: Operation, fee_payer: Address, replies: Seq<Reply>)
    requires
        replies.len() >= 2,
    ensures
        !(next_step(operation, fee_payer, replies) is Ask),
{
}

/// Merging an account into itself stops before anything is asked, and
/// whatever was answered.
pub proof fn law_merge_same_account_asks_nothing(
    account: Address,
    authority: Address,
    fee_payer: Address,
    replies: Seq<Reply>,
)
    ensures
        next_step(
            Operation::MergeStake { destination: account, source: account, authority },
            fee_payer,
            replies,
        ) == StepView::Fail(Failure::Rejected(Rejection::SameAccount { address: account })),
{
}

/// A vote account of which some entry of the cluster's view, current or
/// delinquent, first or not, reports activated stake is not closed: the
/// operation stops on that view, before the balance is asked for and
/// whatever balance is handed in.
pub proof fn law_close_stops_on_active_stake(
    vote_account: Address,
    authority: Address,
    destination: Address,
    fee_payer: Address,
    replies: Seq<Reply>,
)
    requires
        1 <= replies.len() <= 2,
        replies[0] matches Reply::VoteAccounts(status) && shows_activated_stake(
            status.current@,
            status.delinquent@,
        ),
    ensures
        next_step(
            Operation::CloseVoteAccount { vote_account, authority, destination },
            fee_payer,
            replies,
        ) == StepView::Fail(Failure::Rejected(Rejection::ActiveStake { address: vote_account })),
{
}

/// Whatever is submitted was planned without a refusal: a step that
/// submits never comes out of a refused plan.
pub proof fn law_conclusion_submits_only_accepted_plans(
    plan: Result<Seq<InstructionView>, Rejection>,
    signers: Seq<Address>,
)
    ensures
        conclusion(plan, signers) is Submit <==> plan is Ok,
        plan matches Err(e) ==> conclusion(plan, signers) == StepView::Fail(Failure::Rejected(e)),
{
}

/// A question that the remote service failed to answer ends every
/// operation as a failure of the transport, unless a check on what the
/// operator gave has refused the operation before: a failed lookup is
/// never taken for a missing account or for a free address.
pub proof fn law_failed_answer_is_a_transport_failure(operation: Operation, fee_payer: Address)
    ensures
        next_step(operation, fee_payer, seq![]) is Ask ==> next_step(
            operation,
            fee_payer,
            seq![Reply::Failed],
        ) == StepView::Fail(Failure::Transport),
{
    let replies = seq![Reply::Failed];
    assert(replies.len() == 1);
    assert(replies[0] == Reply::Failed);
}

} // verus!
