use scilla::account::{Account, EpochInfo};
use scilla::address::{Address, STAKE_PROGRAM_ID, VOTE_PROGRAM_ID};
use scilla::error::{ErrorKind, Rejection};
use scilla::flow::{advance, Failure, Operation, Query, Reply, Step};
use scilla::stake::plan::{plan_deactivate, plan_merge, plan_split, plan_withdraw};
use scilla::vote::plan::{
    plan_authorize_voter, plan_close_vote_account, plan_create_vote_account, plan_vote_withdraw,
};
use scilla::vote::rules::{VoteAccountInfo, VoteAccountStatus};
use solana_pubkey::Pubkey;
use solana_stake_interface::stake_flags::StakeFlags;
use solana_stake_interface::state::{Authorized, Delegation, Lockup, Meta, Stake, StakeStateV2};
use solana_vote_program::authorized_voters::AuthorizedVoters;
use solana_vote_program::vote_state::{VoteStateV4, VoteStateVersions};

fn addr(n: u8) -> Address {
    Address { bytes: [n; 32] }
}

fn key(n: u8) -> Pubkey {
    Pubkey::new_from_array([n; 32])
}

fn epoch(epoch: u64) -> EpochInfo {
    EpochInfo { epoch, slot_index: 3, slots_in_epoch: 432_000 }
}

fn stake_account(staker: u8, withdrawer: u8, deactivation_epoch: u64, lamports: u64) -> Account {
    let meta = Meta {
        rent_exempt_reserve: 0,
        authorized: Authorized { staker: key(staker), withdrawer: key(withdrawer) },
        lockup: Lockup::default(),
    };
    #[allow(deprecated)]
    let delegation = Delegation { deactivation_epoch, ..Delegation::default() };
    let stake = Stake { delegation, credits_observed: 0 };
    let mut data =
        bincode::serialize(&StakeStateV2::Stake(meta, stake, StakeFlags::empty())).unwrap();
    data.resize(200, 0);
    Account {
        owner: Address { bytes: STAKE_PROGRAM_ID },
        lamports,
        data,
        executable: false,
        rent_epoch: 0,
    }
}

fn vote_account(voter: u8, withdrawer: u8) -> Account {
    let state = VoteStateV4 {
        node_pubkey: key(10),
        authorized_withdrawer: key(withdrawer),
        authorized_voters: AuthorizedVoters::new(4, key(voter)),
        ..VoteStateV4::default()
    };
    let mut data = bincode::serialize(&VoteStateVersions::new_v4(state)).unwrap();
    data.resize(3762, 0);
    Account {
        owner: Address { bytes: VOTE_PROGRAM_ID },
        lamports: 9,
        data,
        executable: false,
        rent_epoch: 0,
    }
}

fn rejected(rejection: Rejection) -> Step {
    Step::Fail(Failure::Rejected(rejection))
}

const PAYER: u8 = 1;

#[test]
fn deactivate_asks_for_the_account_then_submits() {
    let op = Operation::DeactivateStake { stake: addr(50) };
    assert_eq!(advance(&op, &addr(PAYER), &vec![]), Step::Ask(Query::Account { address: addr(50) }));
    let account = stake_account(PAYER, 2, u64::MAX, 10);
    let step = advance(&op, &addr(PAYER), &vec![Reply::Account(Some(account.clone()))]);
    let expected = plan_deactivate(&addr(50), &account, &addr(PAYER)).unwrap();
    assert_eq!(step, Step::Submit { instructions: vec![expected], signers: vec![addr(PAYER)] });
}

#[test]
fn deactivate_stops_on_refusal_missing_account_and_transport() {
    let op = Operation::DeactivateStake { stake: addr(50) };
    let foreign = stake_account(9, 2, u64::MAX, 10);
    assert_eq!(
        advance(&op, &addr(PAYER), &vec![Reply::Account(Some(foreign))]),
        rejected(Rejection::NotAuthorized {
            expected: addr(9),
            also_accepted: None,
            provided: addr(PAYER)
        })
    );
    assert_eq!(
        advance(&op, &addr(PAYER), &vec![Reply::Account(None)]),
        rejected(Rejection::AccountNotFound { address: addr(50) })
    );
    assert_eq!(advance(&op, &addr(PAYER), &vec![Reply::Failed]), Step::Fail(Failure::Transport));
}

#[test]
fn an_answer_to_another_question_is_not_accepted() {
    let op = Operation::DeactivateStake { stake: addr(50) };
    assert_eq!(
        advance(&op, &addr(PAYER), &vec![Reply::Balance(5)]),
        Step::Fail(Failure::UnexpectedReply)
    );
    assert_eq!(
        advance(&op, &addr(PAYER), &vec![Reply::Account(None), Reply::Account(None)]),
        Step::Fail(Failure::UnexpectedReply)
    );
    let split = Operation::SplitStake {
        stake: addr(50),
        split_stake: addr(51),
        authority: addr(3),
        lamports: 5,
    };
    assert_eq!(
        advance(&split, &addr(PAYER), &vec![Reply::RentExemptMinimum(5)]),
        Step::Fail(Failure::UnexpectedReply)
    );
}

#[test]
fn withdraw_asks_for_account_and_epoch_at_once() {
    let op = Operation::WithdrawStake { stake: addr(50), recipient: addr(60), lamports: 7 };
    assert_eq!(
        advance(&op, &addr(PAYER), &vec![]),
        Step::Ask(Query::AccountWithEpoch { address: addr(50) })
    );
    let account = stake_account(2, PAYER, 300, 10);
    let expected = plan_withdraw(&addr(50), &account, 301, &addr(PAYER), &addr(60), 7).unwrap();
    assert_eq!(
        advance(&op, &addr(PAYER), &vec![Reply::AccountWithEpoch(Some(account.clone()), epoch(301))]),
        Step::Submit { instructions: vec![expected], signers: vec![addr(PAYER)] }
    );
    assert_eq!(
        advance(&op, &addr(PAYER), &vec![Reply::AccountWithEpoch(Some(account), epoch(299))]),
        rejected(Rejection::CoolingDown {
            current_epoch: 299,
            deactivation_epoch: 300,
            epochs_remaining: 1
        })
    );
    assert_eq!(
        advance(&op, &addr(PAYER), &vec![Reply::AccountWithEpoch(None, epoch(299))]),
        rejected(Rejection::AccountNotFound { address: addr(50) })
    );
    assert_eq!(advance(&op, &addr(PAYER), &vec![Reply::Failed]), Step::Fail(Failure::Transport));
}

#[test]
fn merge_into_itself_asks_nothing() {
    let op = Operation::MergeStake { destination: addr(50), source: addr(50), authority: addr(3) };
    let refusal = rejected(Rejection::SameAccount { address: addr(50) });
    assert_eq!(advance(&op, &addr(PAYER), &vec![]), refusal);
    assert_eq!(advance(&op, &addr(PAYER), &vec![Reply::Accounts(vec![None, None])]), refusal);
    assert_eq!(advance(&op, &addr(PAYER), &vec![Reply::Failed]), refusal);
}

#[test]
fn merge_asks_for_both_accounts_destination_first() {
    let op = Operation::MergeStake { destination: addr(50), source: addr(51), authority: addr(3) };
    assert_eq!(
        advance(&op, &addr(PAYER), &vec![]),
        Step::Ask(Query::Accounts { first: addr(50), second: addr(51) })
    );
    let fetched =
        vec![Some(stake_account(3, 2, u64::MAX, 10)), Some(stake_account(3, 2, u64::MAX, 10))];
    let expected = plan_merge(&addr(50), &addr(51), &fetched, &addr(3)).unwrap();
    assert_eq!(
        advance(&op, &addr(PAYER), &vec![Reply::Accounts(fetched.clone())]),
        Step::Submit { instructions: expected, signers: vec![addr(PAYER), addr(3)] }
    );
    assert_eq!(
        advance(&op, &addr(PAYER), &vec![Reply::Accounts(vec![fetched[0].clone(), None])]),
        rejected(Rejection::AccountNotFound { address: addr(51) })
    );
    assert_eq!(advance(&op, &addr(PAYER), &vec![Reply::Failed]), Step::Fail(Failure::Transport));
}

#[test]
fn split_compares_the_accounts_before_asking_for_the_minimum() {
    let same = Operation::SplitStake {
        stake: addr(50),
        split_stake: addr(50),
        authority: addr(3),
        lamports: 5,
    };
    assert_eq!(
        advance(&same, &addr(PAYER), &vec![]),
        rejected(Rejection::SameAccount { address: addr(50) })
    );
    let op = Operation::SplitStake {
        stake: addr(50),
        split_stake: addr(51),
        authority: addr(3),
        lamports: 5,
    };
    assert_eq!(advance(&op, &addr(PAYER), &vec![]), Step::Ask(Query::MinimumDelegation));
    assert_eq!(
        advance(&op, &addr(PAYER), &vec![Reply::MinimumDelegation(6)]),
        rejected(Rejection::BelowMinimumDelegation { minimum: 6, requested: 5 })
    );
    let expected = plan_split(&addr(50), &addr(51), &addr(3), 5, 5).unwrap();
    assert_eq!(
        advance(&op, &addr(PAYER), &vec![Reply::MinimumDelegation(5)]),
        Step::Submit { instructions: expected, signers: vec![addr(PAYER), addr(3)] }
    );
    assert_eq!(advance(&op, &addr(PAYER), &vec![Reply::Failed]), Step::Fail(Failure::Transport));
}

#[test]
fn create_vote_account_takes_two_questions() {
    let op = Operation::CreateVoteAccount {
        vote_account: addr(50),
        identity: addr(10),
        withdrawer: addr(20),
        commission: 5,
    };
    assert_eq!(advance(&op, &addr(PAYER), &vec![]), Step::Ask(Query::Account { address: addr(50) }));
    assert_eq!(
        advance(&op, &addr(PAYER), &vec![Reply::Account(None)]),
        Step::Ask(Query::RentExemptMinimum { space: 3762 })
    );
    assert_eq!(advance(&op, &addr(PAYER), &vec![Reply::Failed]), Step::Fail(Failure::Transport));
    assert_eq!(
        advance(&op, &addr(PAYER), &vec![Reply::Failed, Reply::RentExemptMinimum(777)]),
        Step::Fail(Failure::Transport)
    );
    let expected =
        plan_create_vote_account(&addr(PAYER), &addr(50), &addr(10), &addr(20), 5, None, 777)
            .unwrap();
    assert_eq!(
        advance(&op, &addr(PAYER), &vec![Reply::Account(None), Reply::RentExemptMinimum(777)]),
        Step::Submit { instructions: expected, signers: vec![addr(PAYER), addr(50), addr(10)] }
    );
    assert_eq!(
        advance(&op, &addr(PAYER), &vec![Reply::Account(None), Reply::Failed]),
        Step::Fail(Failure::Transport)
    );
    assert_eq!(
        advance(
            &op,
            &addr(PAYER),
            &vec![Reply::Account(None), Reply::RentExemptMinimum(7), Reply::Balance(1)]
        ),
        Step::Fail(Failure::UnexpectedReply)
    );
}

#[test]
fn create_vote_account_stops_on_self_reference_and_occupied_address() {
    let own = Operation::CreateVoteAccount {
        vote_account: addr(PAYER),
        identity: addr(10),
        withdrawer: addr(20),
        commission: 5,
    };
    assert_eq!(
        advance(&own, &addr(PAYER), &vec![]),
        rejected(Rejection::FeePayerIsVoteAccount { address: addr(PAYER) })
    );
    let identity = Operation::CreateVoteAccount {
        vote_account: addr(50),
        identity: addr(50),
        withdrawer: addr(20),
        commission: 5,
    };
    assert_eq!(
        advance(&identity, &addr(PAYER), &vec![]),
        rejected(Rejection::VoteAccountIsIdentity { address: addr(50) })
    );
    let op = Operation::CreateVoteAccount {
        vote_account: addr(50),
        identity: addr(10),
        withdrawer: addr(20),
        commission: 5,
    };
    assert_eq!(
        advance(&op, &addr(PAYER), &vec![Reply::Account(Some(vote_account(1, 2)))]),
        rejected(Rejection::AccountAlreadyExists { address: addr(50), is_vote_account: true })
    );
    assert_eq!(
        advance(&op, &addr(PAYER), &vec![Reply::Account(Some(stake_account(1, 2, 3, 4)))]),
        rejected(Rejection::AccountAlreadyExists { address: addr(50), is_vote_account: false })
    );
    assert_eq!(
        advance(
            &op,
            &addr(PAYER),
            &vec![Reply::Account(Some(vote_account(1, 2))), Reply::RentExemptMinimum(5)]
        ),
        rejected(Rejection::AccountAlreadyExists { address: addr(50), is_vote_account: true })
    );
}

#[test]
fn authorize_voter_signs_with_payer_and_authority() {
    let op =
        Operation::AuthorizeVoter { vote_account: addr(50), authority: addr(30), new_voter: addr(31) };
    assert_eq!(
        advance(&op, &addr(PAYER), &vec![]),
        Step::Ask(Query::AccountWithEpoch { address: addr(50) })
    );
    let account = vote_account(30, 20);
    let expected = plan_authorize_voter(&addr(50), &account, 6, &addr(30), &addr(31)).unwrap();
    assert_eq!(
        advance(&op, &addr(PAYER), &vec![Reply::AccountWithEpoch(Some(account.clone()), epoch(6))]),
        Step::Submit { instructions: vec![expected], signers: vec![addr(PAYER), addr(30)] }
    );
    assert_eq!(
        advance(&op, &addr(PAYER), &vec![Reply::AccountWithEpoch(Some(account), epoch(3))]),
        rejected(Rejection::NoAuthorizedVoter { epoch: 3 })
    );
    assert_eq!(
        advance(&op, &addr(PAYER), &vec![Reply::AccountWithEpoch(None, epoch(3))]),
        rejected(Rejection::AccountNotFound { address: addr(50) })
    );
    assert_eq!(advance(&op, &addr(PAYER), &vec![Reply::Failed]), Step::Fail(Failure::Transport));
}

#[test]
fn withdraw_from_vote_account_tells_a_failed_lookup_from_a_missing_account() {
    let op = Operation::WithdrawFromVoteAccount {
        vote_account: addr(50),
        withdrawer: addr(20),
        recipient: addr(60),
        lamports: 5,
    };
    assert_eq!(advance(&op, &addr(PAYER), &vec![]), Step::Ask(Query::Account { address: addr(50) }));
    let missing = rejected(Rejection::AccountNotFound { address: addr(50) });
    assert_eq!(advance(&op, &addr(PAYER), &vec![Reply::Failed]), Step::Fail(Failure::Transport));
    assert_eq!(advance(&op, &addr(PAYER), &vec![Reply::Account(None)]), missing);
    let account = vote_account(30, 20);
    let expected = plan_vote_withdraw(&addr(50), &account, &addr(20), &addr(60), 5).unwrap();
    assert_eq!(
        advance(&op, &addr(PAYER), &vec![Reply::Account(Some(account))]),
        Step::Submit { instructions: vec![expected], signers: vec![addr(PAYER), addr(20)] }
    );
}

#[test]
fn close_asks_for_the_balance_only_without_activated_stake() {
    let op = Operation::CloseVoteAccount {
        vote_account: addr(50),
        authority: addr(20),
        destination: addr(60),
    };
    assert_eq!(
        advance(&op, &addr(PAYER), &vec![]),
        Step::Ask(Query::VoteAccounts { vote_account: addr(50) })
    );
    let staked = VoteAccountStatus {
        current: vec![VoteAccountInfo { activated_stake: 12 }],
        delinquent: vec![],
    };
    let refusal = rejected(Rejection::ActiveStake { address: addr(50) });
    assert_eq!(advance(&op, &addr(PAYER), &vec![Reply::VoteAccounts(staked.clone())]), refusal);
    assert_eq!(
        advance(&op, &addr(PAYER), &vec![Reply::VoteAccounts(staked), Reply::Balance(1_000)]),
        refusal
    );
    let staked_later = VoteAccountStatus {
        current: vec![VoteAccountInfo { activated_stake: 0 }],
        delinquent: vec![VoteAccountInfo { activated_stake: 7 }],
    };
    assert_eq!(
        advance(&op, &addr(PAYER), &vec![Reply::VoteAccounts(staked_later.clone())]),
        refusal
    );
    assert_eq!(
        advance(&op, &addr(PAYER), &vec![Reply::VoteAccounts(staked_later), Reply::Balance(5)]),
        refusal
    );
    let idle = VoteAccountStatus {
        current: vec![VoteAccountInfo { activated_stake: 0 }],
        delinquent: vec![],
    };
    assert_eq!(
        advance(&op, &addr(PAYER), &vec![Reply::VoteAccounts(idle.clone())]),
        Step::Ask(Query::Balance { address: addr(50) })
    );
    assert_eq!(
        advance(&op, &addr(PAYER), &vec![Reply::VoteAccounts(idle.clone()), Reply::Balance(0)]),
        rejected(Rejection::ZeroBalance { address: addr(50) })
    );
    let expected = plan_close_vote_account(&addr(50), &idle, 1_000, &addr(20), &addr(60)).unwrap();
    assert_eq!(
        advance(&op, &addr(PAYER), &vec![Reply::VoteAccounts(idle.clone()), Reply::Balance(1_000)]),
        Step::Submit { instructions: vec![expected], signers: vec![addr(PAYER), addr(20)] }
    );
    assert_eq!(advance(&op, &addr(PAYER), &vec![Reply::Failed]), Step::Fail(Failure::Transport));
    assert_eq!(
        advance(&op, &addr(PAYER), &vec![Reply::VoteAccounts(idle), Reply::Failed]),
        Step::Fail(Failure::Transport)
    );
}

#[test]
fn no_operation_asks_after_two_answers() {
    let operations = [
        Operation::DeactivateStake { stake: addr(50) },
        Operation::WithdrawStake { stake: addr(50), recipient: addr(60), lamports: 7 },
        Operation::MergeStake { destination: addr(50), source: addr(51), authority: addr(3) },
        Operation::SplitStake {
            stake: addr(50),
            split_stake: addr(51),
            authority: addr(3),
            lamports: 5,
        },
        Operation::CreateVoteAccount {
            vote_account: addr(50),
            identity: addr(10),
            withdrawer: addr(20),
            commission: 5,
        },
        Operation::AuthorizeVoter { vote_account: addr(50), authority: addr(30), new_voter: addr(31) },
        Operation::WithdrawFromVoteAccount {
            vote_account: addr(50),
            withdrawer: addr(20),
            recipient: addr(60),
            lamports: 5,
        },
        Operation::CloseVoteAccount {
            vote_account: addr(50),
            authority: addr(20),
            destination: addr(60),
        },
    ];
    let idle = VoteAccountStatus { current: vec![], delinquent: vec![] };
    let answers = [
        vec![Reply::Account(None), Reply::RentExemptMinimum(4)],
        vec![Reply::VoteAccounts(idle), Reply::Balance(4)],
        vec![Reply::Failed, Reply::Failed],
        vec![Reply::Account(None), Reply::RentExemptMinimum(4), Reply::Balance(1)],
    ];
    for operation in &operations {
        for replies in &answers {
            assert!(!matches!(advance(operation, &addr(PAYER), replies), Step::Ask(_)));
        }
    }
}

#[test]
fn every_way_of_ending_has_its_kind() {
    assert_eq!(Failure::Transport.kind(), ErrorKind::Lookup);
    assert_eq!(Failure::UnexpectedReply.kind(), ErrorKind::Lookup);
    assert_eq!(
        Failure::Rejected(Rejection::AccountNotFound { address: addr(1) }).kind(),
        ErrorKind::Lookup
    );
    assert_eq!(Failure::Rejected(Rejection::MalformedAccountData).kind(), ErrorKind::Decode);
    assert_eq!(
        Failure::Rejected(Rejection::ZeroBalance { address: addr(1) }).kind(),
        ErrorKind::Precondition
    );
}

#[test]
fn a_failed_first_answer_is_a_transport_failure_for_every_operation() {
    let operations = [
        Operation::DeactivateStake { stake: addr(50) },
        Operation::WithdrawStake { stake: addr(50), recipient: addr(60), lamports: 7 },
        Operation::MergeStake { destination: addr(50), source: addr(51), authority: addr(3) },
        Operation::SplitStake {
            stake: addr(50),
            split_stake: addr(51),
            authority: addr(3),
            lamports: 5,
        },
        Operation::CreateVoteAccount {
            vote_account: addr(50),
            identity: addr(10),
            withdrawer: addr(20),
            commission: 5,
        },
        Operation::AuthorizeVoter { vote_account: addr(50), authority: addr(30), new_voter: addr(31) },
        Operation::WithdrawFromVoteAccount {
            vote_account: addr(50),
            withdrawer: addr(20),
            recipient: addr(60),
            lamports: 5,
        },
        Operation::CloseVoteAccount {
            vote_account: addr(50),
            authority: addr(20),
            destination: addr(60),
        },
    ];
    for operation in &operations {
        assert!(matches!(advance(operation, &addr(PAYER), &vec![]), Step::Ask(_)));
        assert_eq!(
            advance(operation, &addr(PAYER), &vec![Reply::Failed]),
            Step::Fail(Failure::Transport)
        );
    }
}
