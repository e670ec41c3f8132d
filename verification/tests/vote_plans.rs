use scilla::account::Account;
use scilla::address::{Address, CLOCK_SYSVAR_ID, RENT_SYSVAR_ID, SYSTEM_PROGRAM_ID, VOTE_PROGRAM_ID};
use scilla::error::{ErrorKind, Rejection};
use scilla::instruction::{AccountMeta, Instruction};
use scilla::vote::instruction::{vote_account_space, VOTE_ACCOUNT_SPACE};
use scilla::vote::plan::{
    plan_authorize_voter, plan_close_vote_account, plan_create_vote_account, plan_vote_withdraw,
};
use scilla::vote::rules::{VoteAccountInfo, VoteAccountStatus};
use scilla::vote::state::{decode_vote_account, EpochCredits, VoteState, VoterEntry};
use solana_pubkey::Pubkey;
use solana_vote_program::authorized_voters::AuthorizedVoters;
use solana_vote_program::vote_state::{BlockTimestamp, VoteStateV4, VoteStateVersions};

fn addr(n: u8) -> Address {
    Address { bytes: [n; 32] }
}

fn key(n: u8) -> Pubkey {
    Pubkey::new_from_array([n; 32])
}

fn meta(address: Address, is_signer: bool, is_writable: bool) -> AccountMeta {
    AccountMeta { address, is_signer, is_writable }
}

fn chain_state(voters: &[(u64, u8)]) -> VoteStateV4 {
    let mut authorized_voters = AuthorizedVoters::default();
    for (epoch, voter) in voters {
        authorized_voters.insert(*epoch, key(*voter));
    }
    VoteStateV4 {
        node_pubkey: key(10),
        authorized_withdrawer: key(20),
        inflation_rewards_commission_bps: 750,
        root_slot: Some(123_456),
        authorized_voters,
        epoch_credits: vec![(5, 100, 0), (6, 250, 100)],
        last_timestamp: BlockTimestamp { slot: 999, timestamp: 1_700_000_000 },
        ..VoteStateV4::default()
    }
}

fn vote_account(state: VoteStateV4, lamports: u64) -> Account {
    let mut data = bincode::serialize(&VoteStateVersions::new_v4(state)).unwrap();
    data.resize(VOTE_ACCOUNT_SPACE as usize, 0);
    Account {
        owner: Address { bytes: VOTE_PROGRAM_ID },
        lamports,
        data,
        executable: false,
        rent_epoch: 0,
    }
}

fn plain_state(voters: Vec<VoterEntry>) -> VoteState {
    VoteState {
        node: addr(10),
        withdrawer: addr(20),
        voters,
        epoch_credits: vec![],
        commission_bps: 0,
        root_slot: None,
        last_vote_slot: 0,
        last_vote_timestamp: 0,
    }
}

#[test]
fn vote_program_addresses_are_the_declared_ones() {
    assert_eq!(VOTE_PROGRAM_ID, solana_vote_program::id().to_bytes());
    assert_eq!(
        bs58::decode("Vote111111111111111111111111111111111111111").into_vec().unwrap(),
        VOTE_PROGRAM_ID.to_vec()
    );
    assert_eq!(
        bs58::decode("SysvarRent111111111111111111111111111111111").into_vec().unwrap(),
        RENT_SYSVAR_ID.to_vec()
    );
    assert_eq!(vote_account_space(), 3762);
    assert_eq!(VoteStateV4::size_of() as u64, VOTE_ACCOUNT_SPACE);
}

#[test]
fn decode_copies_the_fields_of_a_vote_state() {
    let account = vote_account(chain_state(&[(7, 31), (3, 30)]), 5);
    let state = decode_vote_account(&addr(50), &account).unwrap();
    assert_eq!(
        state,
        VoteState {
            node: addr(10),
            withdrawer: addr(20),
            voters: vec![
                VoterEntry { epoch: 3, voter: addr(30) },
                VoterEntry { epoch: 7, voter: addr(31) },
            ],
            epoch_credits: vec![
                EpochCredits { epoch: 5, credits: 100, previous_credits: 0 },
                EpochCredits { epoch: 6, credits: 250, previous_credits: 100 },
            ],
            commission_bps: 750,
            root_slot: Some(123_456),
            last_vote_slot: 999,
            last_vote_timestamp: 1_700_000_000,
        }
    );
    assert_eq!(state.credits(), 250);
    assert_eq!(state.commission_percent(), 7);
    assert_eq!(state.latest_voter(), addr(31));
}

#[test]
fn summary_of_an_empty_history() {
    let state = plain_state(vec![]);
    assert_eq!(state.credits(), 0);
    assert_eq!(state.latest_voter(), addr(10));
    assert_eq!(state.commission_percent(), 0);
    assert_eq!(state.authorized_voter(0), None);
    assert_eq!(state.authorized_voter(u64::MAX), None);
}

#[test]
fn decode_refuses_foreign_and_malformed_vote_accounts() {
    let mut account = vote_account(chain_state(&[(3, 30)]), 5);
    account.data.truncate(50);
    assert_eq!(decode_vote_account(&addr(50), &account), Err(Rejection::MalformedAccountData));
    account.data = vec![];
    assert_eq!(decode_vote_account(&addr(50), &account), Err(Rejection::MalformedAccountData));
    account.data = vec![200, 0, 0, 0, 1, 2, 3];
    assert_eq!(decode_vote_account(&addr(50), &account), Err(Rejection::MalformedAccountData));
    account.owner = addr(9);
    let refusal =
        Rejection::WrongOwner { expected: Address { bytes: VOTE_PROGRAM_ID }, actual: addr(9) };
    assert_eq!(decode_vote_account(&addr(50), &account), Err(refusal));
    assert_eq!(refusal.kind(), ErrorKind::Decode);
    assert_eq!(Rejection::MalformedAccountData.kind(), ErrorKind::Decode);
    assert_eq!(Rejection::AccountNotFound { address: addr(1) }.kind(), ErrorKind::Lookup);
    assert_eq!(Rejection::StillActive.kind(), ErrorKind::Precondition);
}

#[test]
fn voter_lookup_agrees_with_the_vote_program() {
    let histories: Vec<Vec<(u64, u8)>> = vec![
        vec![],
        vec![(5, 1)],
        vec![(0, 1), (5, 2), (9, 3)],
        vec![(3, 1), (4, 2), (5, 3), (u64::MAX, 4)],
        vec![(10, 1), (20, 2)],
    ];
    for history in histories {
        let mut chain = AuthorizedVoters::default();
        let mut voters = vec![];
        for (epoch, voter) in &history {
            chain.insert(*epoch, key(*voter));
            voters.push(VoterEntry { epoch: *epoch, voter: addr(*voter) });
        }
        let state = plain_state(voters);
        for epoch in [0u64, 1, 2, 3, 4, 5, 6, 8, 9, 10, 11, 19, 20, 21, u64::MAX - 1, u64::MAX] {
            let expected = chain.get_authorized_voter(epoch).map(|k| Address { bytes: k.to_bytes() });
            assert_eq!(state.authorized_voter(epoch), expected);
        }
    }
}

#[test]
fn voter_lookup_goes_by_epoch() {
    let state = plain_state(vec![
        VoterEntry { epoch: 3, voter: addr(30) },
        VoterEntry { epoch: 7, voter: addr(31) },
        VoterEntry { epoch: 12, voter: addr(32) },
    ]);
    assert_eq!(state.authorized_voter(2), None);
    assert_eq!(state.authorized_voter(3), Some(addr(30)));
    assert_eq!(state.authorized_voter(6), Some(addr(30)));
    assert_eq!(state.authorized_voter(7), Some(addr(31)));
    assert_eq!(state.authorized_voter(11), Some(addr(31)));
    assert_eq!(state.authorized_voter(12), Some(addr(32)));
    assert_eq!(state.authorized_voter(500), Some(addr(32)));
}

#[test]
fn voter_lookup_takes_the_last_record_of_an_epoch_in_any_order() {
    let state = plain_state(vec![
        VoterEntry { epoch: 9, voter: addr(1) },
        VoterEntry { epoch: 4, voter: addr(2) },
        VoterEntry { epoch: 9, voter: addr(3) },
        VoterEntry { epoch: 6, voter: addr(4) },
    ]);
    assert_eq!(state.authorized_voter(3), None);
    assert_eq!(state.authorized_voter(5), Some(addr(2)));
    assert_eq!(state.authorized_voter(8), Some(addr(4)));
    assert_eq!(state.authorized_voter(9), Some(addr(3)));
}

#[test]
fn latest_voter_is_the_one_of_the_greatest_epoch() {
    let unordered = plain_state(vec![
        VoterEntry { epoch: 9, voter: addr(1) },
        VoterEntry { epoch: 4, voter: addr(2) },
        VoterEntry { epoch: 12, voter: addr(3) },
        VoterEntry { epoch: 6, voter: addr(4) },
    ]);
    assert_eq!(unordered.latest_voter(), addr(3));
    let repeated = plain_state(vec![
        VoterEntry { epoch: 9, voter: addr(1) },
        VoterEntry { epoch: 9, voter: addr(2) },
        VoterEntry { epoch: 3, voter: addr(3) },
    ]);
    assert_eq!(repeated.latest_voter(), addr(2));
    let at_the_end = plain_state(vec![VoterEntry { epoch: u64::MAX, voter: addr(8) }]);
    assert_eq!(at_the_end.latest_voter(), addr(8));
    let histories: Vec<Vec<(u64, u8)>> =
        vec![vec![], vec![(5, 1)], vec![(0, 1), (5, 2), (9, 3)], vec![(3, 1), (u64::MAX, 4)]];
    for history in histories {
        let mut chain = AuthorizedVoters::default();
        let mut voters = vec![];
        for (epoch, voter) in &history {
            chain.insert(*epoch, key(*voter));
            voters.push(VoterEntry { epoch: *epoch, voter: addr(*voter) });
        }
        let expected = chain.last().map(|(_, k)| Address { bytes: k.to_bytes() }).unwrap_or(addr(10));
        assert_eq!(plain_state(voters).latest_voter(), expected);
    }
}

#[test]
fn rotation_accepts_the_voter_of_the_current_epoch() {
    let account = vote_account(chain_state(&[(3, 30), (7, 31)]), 5);
    let expected = Instruction {
        program: Address { bytes: VOTE_PROGRAM_ID },
        accounts: vec![
            meta(addr(50), false, true),
            meta(Address { bytes: CLOCK_SYSVAR_ID }, false, false),
            meta(addr(31), true, false),
        ],
        data: {
            let mut data = vec![1, 0, 0, 0];
            data.extend_from_slice(&[77; 32]);
            data.extend_from_slice(&[0, 0, 0, 0]);
            data
        },
    };
    assert_eq!(plan_authorize_voter(&addr(50), &account, 7, &addr(31), &addr(77)), Ok(expected));
    assert!(plan_authorize_voter(&addr(50), &account, 8, &addr(31), &addr(77)).is_ok());
    assert!(plan_authorize_voter(&addr(50), &account, 5, &addr(30), &addr(77)).is_ok());
}

#[test]
fn rotation_refuses_the_voter_of_another_epoch() {
    let account = vote_account(chain_state(&[(3, 30), (7, 31)]), 5);
    assert_eq!(
        plan_authorize_voter(&addr(50), &account, 7, &addr(30), &addr(77)),
        Err(Rejection::NotAuthorized {
            expected: addr(31),
            also_accepted: Some(addr(20)),
            provided: addr(30)
        })
    );
    assert_eq!(
        plan_authorize_voter(&addr(50), &account, 5, &addr(31), &addr(77)),
        Err(Rejection::NotAuthorized {
            expected: addr(30),
            also_accepted: Some(addr(20)),
            provided: addr(31)
        })
    );
}

#[test]
fn rotation_accepts_the_withdrawer() {
    let account = vote_account(chain_state(&[(3, 30), (7, 31)]), 5);
    let built = plan_authorize_voter(&addr(50), &account, 7, &addr(20), &addr(77)).unwrap();
    assert_eq!(built.accounts[2], meta(addr(20), true, false));
}

#[test]
fn rotation_needs_a_voter_in_force() {
    let account = vote_account(chain_state(&[(3, 30), (7, 31)]), 5);
    assert_eq!(
        plan_authorize_voter(&addr(50), &account, 2, &addr(30), &addr(77)),
        Err(Rejection::NoAuthorizedVoter { epoch: 2 })
    );
    assert_eq!(
        plan_authorize_voter(&addr(50), &account, 2, &addr(20), &addr(77)),
        Err(Rejection::NoAuthorizedVoter { epoch: 2 })
    );
    let mut foreign = account.clone();
    foreign.owner = addr(1);
    assert_eq!(
        plan_authorize_voter(&addr(50), &foreign, 7, &addr(31), &addr(77)),
        Err(Rejection::WrongOwner { expected: Address { bytes: VOTE_PROGRAM_ID }, actual: addr(1) })
    );
}

#[test]
fn vote_withdraw_is_for_the_withdrawer_alone() {
    let account = vote_account(chain_state(&[(3, 30)]), 5);
    let expected = Instruction {
        program: Address { bytes: VOTE_PROGRAM_ID },
        accounts: vec![
            meta(addr(50), false, true),
            meta(addr(60), false, true),
            meta(addr(20), true, false),
        ],
        data: vec![3, 0, 0, 0, 0x15, 0xcd, 0x5b, 0x07, 0, 0, 0, 0],
    };
    assert_eq!(
        plan_vote_withdraw(&addr(50), &account, &addr(20), &addr(60), 123_456_789),
        Ok(expected)
    );
    assert_eq!(
        plan_vote_withdraw(&addr(50), &account, &addr(30), &addr(60), 1),
        Err(Rejection::NotAuthorized { expected: addr(20), also_accepted: None, provided: addr(30) })
    );
    assert_eq!(
        plan_vote_withdraw(&addr(50), &account, &addr(10), &addr(60), 1),
        Err(Rejection::NotAuthorized { expected: addr(20), also_accepted: None, provided: addr(10) })
    );
}

#[test]
fn create_builds_two_instructions() {
    let mut create = vec![0, 0, 0, 0];
    create.extend_from_slice(&27_074_400u64.to_le_bytes());
    create.extend_from_slice(&3762u64.to_le_bytes());
    create.extend_from_slice(&VOTE_PROGRAM_ID);
    let mut init = vec![0, 0, 0, 0];
    init.extend_from_slice(&[10; 32]);
    init.extend_from_slice(&[10; 32]);
    init.extend_from_slice(&[20; 32]);
    init.push(7);
    let expected = vec![
        Instruction {
            program: Address { bytes: SYSTEM_PROGRAM_ID },
            accounts: vec![meta(addr(1), true, true), meta(addr(50), true, true)],
            data: create,
        },
        Instruction {
            program: Address { bytes: VOTE_PROGRAM_ID },
            accounts: vec![
                meta(addr(50), false, true),
                meta(Address { bytes: RENT_SYSVAR_ID }, false, false),
                meta(Address { bytes: CLOCK_SYSVAR_ID }, false, false),
                meta(addr(10), true, false),
            ],
            data: init,
        },
    ];
    assert_eq!(
        plan_create_vote_account(&addr(1), &addr(50), &addr(10), &addr(20), 7, None, 27_074_400),
        Ok(expected)
    );
}

#[test]
fn create_funds_the_account_with_the_rent_exempt_minimum() {
    for minimum in [0u64, 1, 2, 27_074_400, u64::MAX] {
        let built =
            plan_create_vote_account(&addr(1), &addr(50), &addr(10), &addr(20), 0, None, minimum)
                .unwrap();
        assert_eq!(&built[0].data[4..12], &minimum.to_le_bytes());
    }
}

#[test]
fn create_refuses_self_reference() {
    assert_eq!(
        plan_create_vote_account(&addr(50), &addr(50), &addr(10), &addr(20), 7, None, 5),
        Err(Rejection::FeePayerIsVoteAccount { address: addr(50) })
    );
    assert_eq!(
        plan_create_vote_account(&addr(1), &addr(50), &addr(50), &addr(20), 7, None, 5),
        Err(Rejection::VoteAccountIsIdentity { address: addr(50) })
    );
    assert_eq!(
        plan_create_vote_account(&addr(50), &addr(50), &addr(50), &addr(20), 7, Some(addr(3)), 5),
        Err(Rejection::FeePayerIsVoteAccount { address: addr(50) })
    );
}

#[test]
fn create_tells_a_vote_account_from_another_occupant() {
    let vote_program = Address { bytes: VOTE_PROGRAM_ID };
    assert_eq!(
        plan_create_vote_account(&addr(1), &addr(50), &addr(10), &addr(20), 7, Some(vote_program), 5),
        Err(Rejection::AccountAlreadyExists { address: addr(50), is_vote_account: true })
    );
    assert_eq!(
        plan_create_vote_account(&addr(1), &addr(50), &addr(10), &addr(20), 7, Some(addr(3)), 5),
        Err(Rejection::AccountAlreadyExists { address: addr(50), is_vote_account: false })
    );
}

#[test]
fn close_with_activated_stake_is_refused() {
    let status = VoteAccountStatus {
        current: vec![VoteAccountInfo { activated_stake: 1 }],
        delinquent: vec![],
    };
    assert_eq!(
        plan_close_vote_account(&addr(50), &status, 5_000, &addr(20), &addr(60)),
        Err(Rejection::ActiveStake { address: addr(50) })
    );
    assert_eq!(
        plan_close_vote_account(&addr(50), &status, 0, &addr(20), &addr(60)),
        Err(Rejection::ActiveStake { address: addr(50) })
    );
    let delinquent = VoteAccountStatus {
        current: vec![],
        delinquent: vec![VoteAccountInfo { activated_stake: 9 }],
    };
    assert_eq!(
        plan_close_vote_account(&addr(50), &delinquent, 5_000, &addr(20), &addr(60)),
        Err(Rejection::ActiveStake { address: addr(50) })
    );
}

#[test]
fn close_is_refused_for_stake_in_any_listed_entry() {
    let refusal = Err(Rejection::ActiveStake { address: addr(50) });
    let later_current = VoteAccountStatus {
        current: vec![VoteAccountInfo { activated_stake: 0 }, VoteAccountInfo { activated_stake: 4 }],
        delinquent: vec![],
    };
    assert!(later_current.has_activated_stake());
    assert_eq!(
        plan_close_vote_account(&addr(50), &later_current, 5_000, &addr(20), &addr(60)),
        refusal
    );
    let delinquent_behind_idle = VoteAccountStatus {
        current: vec![VoteAccountInfo { activated_stake: 0 }],
        delinquent: vec![VoteAccountInfo { activated_stake: 7 }],
    };
    assert!(delinquent_behind_idle.has_activated_stake());
    assert_eq!(
        plan_close_vote_account(&addr(50), &delinquent_behind_idle, 5, &addr(20), &addr(60)),
        refusal
    );
    let last_delinquent = VoteAccountStatus {
        current: vec![],
        delinquent: vec![
            VoteAccountInfo { activated_stake: 0 },
            VoteAccountInfo { activated_stake: 0 },
            VoteAccountInfo { activated_stake: u64::MAX },
        ],
    };
    assert_eq!(
        plan_close_vote_account(&addr(50), &last_delinquent, 0, &addr(20), &addr(60)),
        refusal
    );
}

#[test]
fn close_goes_ahead_when_no_listed_entry_has_stake() {
    let idle = VoteAccountStatus {
        current: vec![VoteAccountInfo { activated_stake: 0 }, VoteAccountInfo { activated_stake: 0 }],
        delinquent: vec![VoteAccountInfo { activated_stake: 0 }],
    };
    assert!(!idle.has_activated_stake());
    assert!(plan_close_vote_account(&addr(50), &idle, 5_000, &addr(20), &addr(60)).is_ok());
    assert_eq!(
        plan_close_vote_account(&addr(50), &idle, 0, &addr(20), &addr(60)),
        Err(Rejection::ZeroBalance { address: addr(50) })
    );
}

#[test]
fn close_withdraws_the_whole_balance() {
    let status = VoteAccountStatus { current: vec![], delinquent: vec![] };
    assert!(!status.has_activated_stake());
    let expected = Instruction {
        program: Address { bytes: VOTE_PROGRAM_ID },
        accounts: vec![
            meta(addr(50), false, true),
            meta(addr(60), false, true),
            meta(addr(20), true, false),
        ],
        data: vec![3, 0, 0, 0, 0x88, 0x13, 0, 0, 0, 0, 0, 0],
    };
    assert_eq!(
        plan_close_vote_account(&addr(50), &status, 5_000, &addr(20), &addr(60)),
        Ok(expected)
    );
}

#[test]
fn close_refuses_an_empty_account() {
    let status = VoteAccountStatus { current: vec![], delinquent: vec![] };
    assert_eq!(
        plan_close_vote_account(&addr(50), &status, 0, &addr(20), &addr(60)),
        Err(Rejection::ZeroBalance { address: addr(50) })
    );
}
