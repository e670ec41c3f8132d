//! The instructions of the vote program that the operations send, and what
//! each of them holds.

use crate::address::{
    clock_sysvar_address, rent_sysvar_address, system_program_address, vote_program_address,
    Address,
};
use crate::instruction::{
    instruction_views, le_u64, readonly, readonly_signer, variant_tag, writable, writable_signer,
    AccountMeta, Instruction, InstructionView,
};
use solana_pubkey::Pubkey;
use solana_vote_program::vote_instruction::CreateVoteAccountConfig;
use solana_vote_program::vote_state::{VoteAuthorize, VoteInit, VoteStateV4};
use vstd::prelude::*;

verus! {

/// Number of bytes of a newly created vote account.
pub const VOTE_ACCOUNT_SPACE: u64 = 3762;

/// Calls `VoteStateV4::size_of` of `solana_vote_program::vote_state`, the
/// number of bytes that a vote account takes. The contract claims the
/// constant that the function's source returns.
#[verifier::external_body]
pub(crate) fn vote_state_size() -> (r: u64)
    ensures
        r == VOTE_ACCOUNT_SPACE,
{
    VoteStateV4::size_of() as u64
}

/// Number of bytes for which the rent-exempt minimum of a new vote account
/// is asked.
pub fn vote_account_space() -> (r: u64)
    ensures
        r == VOTE_ACCOUNT_SPACE,
{
    vote_state_size()
}

/// The two instructions that create the vote account `vote_account`: the
/// system program creates the account with `lamports`, paid by
/// `fee_payer`, in the space of a vote account and owned by the vote
/// program; then the vote program initializes it with the validator
/// identity `node`, which signs, the authorized voter, the authorized
/// withdrawer and the commission in percent.
pub open spec fn create_vote_account_instructions(
    fee_payer: Address,
    vote_account: Address,
    node: Address,
    voter: Address,
    withdrawer: Address,
    commission: u8,
    lamports: u64,
) -> Seq<InstructionView> {
    seq![
        InstructionView {
            program: system_program_address(),
            accounts: seq![writable_signer(fee_payer), writable_signer(vote_account)],
            data: variant_tag(0) + le_u64(lamports) + le_u64(VOTE_ACCOUNT_SPACE)
                + vote_program_address()@,
        },
        InstructionView {
            program: vote_program_address(),
            accounts: seq![
                writable(vote_account),
                readonly(rent_sysvar_address()),
                readonly(clock_sysvar_address()),
                readonly_signer(node),
            ],
            data: variant_tag(0) + node@ + voter@ + withdrawer@ + seq![commission],
        },
    ]
}

/// The instruction that makes `new_voter` the authorized voter of
/// `vote_account`, signed by `authority`.
pub open spec fn authorize_voter_instruction(
    vote_account: Address,
    authority: Address,
    new_voter: Address,
) -> InstructionView {
    InstructionView {
        program: vote_program_address(),
        accounts: seq![
            writable(vote_account),
            readonly(clock_sysvar_address()),
            readonly_signer(authority),
        ],
        data: variant_tag(1) + new_voter@ + variant_tag(0),
    }
}

/// The instruction that moves `lamports` from `vote_account` to
/// `recipient`, signed by the withdrawer of `vote_account`.
pub open spec fn vote_withdraw_instruction(
    vote_account: Address,
    withdrawer: Address,
    lamports: u64,
    recipient: Address,
) -> InstructionView {
    InstructionView {
        program: vote_program_address(),
        accounts: seq![writable(vote_account), writable(recipient), readonly_signer(withdrawer)],
        data: variant_tag(3) + le_u64(lamports),
    }
}

/// Calls `solana_vote_program::vote_instruction::create_account_with_config`
/// with the default configuration: no seed, and the space of a vote
/// account. The contract claims what the function's source shows: the
/// system program's `CreateAccount`, which the payer and the new account
/// sign, and the vote program's `InitializeAccount`, which the validator
/// identity signs, each payload being the index of the instruction
/// followed by its fields in order.
#[verifier::external_body]
pub(crate) fn build_create_vote_account(
    fee_payer: &Address,
    vote_account: &Address,
    node: &Address,
    voter: &Address,
    withdrawer: &Address,
    commission: u8,
    lamports: u64,
) -> (r: Vec<Instruction>)
    ensures
        instruction_views(r@) == create_vote_account_instructions(
            *fee_payer,
            *vote_account,
            *node,
            *voter,
            *withdrawer,
            commission,
            lamports,
        ),
{
    let key = |a: &Address| Pubkey::new_from_array(a.bytes);
    let init = VoteInit {
        node_pubkey: key(node),
        authorized_voter: key(voter),
        authorized_withdrawer: key(withdrawer),
        commission,
    };
    let ixs = solana_vote_program::vote_instruction::create_account_with_config(
        &key(fee_payer), &key(vote_account), &init, lamports, CreateVoteAccountConfig::default());
    ixs.into_iter().map(|ix| {
        let accounts = ix.accounts.iter().map(
            |m| AccountMeta::from_parts(m.pubkey.to_bytes(), m.is_signer, m.is_writable),
        ).collect();
        Instruction::from_parts(ix.program_id.to_bytes(), accounts, ix.data)
    }).collect()
}

/// Calls `solana_vote_program::vote_instruction::authorize` for the voter
/// authority. The contract claims what the function's source shows: the
/// vote program as the target, the vote account, the clock sysvar and the
/// signing authority as accounts, and as payload the index of `Authorize`,
/// the new voter and the index of `Voter` among the authorities.
#[verifier::external_body]
pub(crate) fn build_authorize_voter(
    vote_account: &Address,
    authority: &Address,
    new_voter: &Address,
) -> (r: Instruction)
    ensures
        r@ == authorize_voter_instruction(*vote_account, *authority, *new_voter),
{
    let ix = solana_vote_program::vote_instruction::authorize(
        &Pubkey::new_from_array(vote_account.bytes),
        &Pubkey::new_from_array(authority.bytes),
        &Pubkey::new_from_array(new_voter.bytes),
        VoteAuthorize::Voter,
    );
    let accounts = ix.accounts.iter().map(
        |m| AccountMeta::from_parts(m.pubkey.to_bytes(), m.is_signer, m.is_writable),
    ).collect();
    Instruction::from_parts(ix.program_id.to_bytes(), accounts, ix.data)
}

/// Calls `solana_vote_program::vote_instruction::withdraw`. The contract
/// claims what the function's source shows: the vote program as the
/// target, the vote account, the recipient and the signing withdrawer as
/// accounts, and as payload the index of `Withdraw` followed by the
/// amount.
#[verifier::external_body]
pub(crate) fn build_vote_withdraw(
    vote_account: &Address,
    withdrawer: &Address,
    lamports: u64,
    recipient: &Address,
) -> (r: Instruction)
    ensures
        r@ == vote_withdraw_instruction(*vote_account, *withdrawer, lamports, *recipient),
{
    let ix = solana_vote_program::vote_instruction::withdraw(
        &Pubkey::new_from_array(vote_account.bytes),
        &Pubkey::new_from_array(withdrawer.bytes),
        lamports,
        &Pubkey::new_from_array(recipient.bytes),
    );
    let accounts = ix.accounts.iter().map(
        |m| AccountMeta::from_parts(m.pubkey.to_bytes(), m.is_signer, m.is_writable),
    ).collect();
    Instruction::from_parts(ix.program_id.to_bytes(), accounts, ix.data)
}

} // verus!
