//! The instructions of the stake program that the operations send, and what
//! each of them holds.

use crate::address::{
    clock_sysvar_address, stake_history_sysvar_address, stake_program_address,
    system_program_address, Address,
};
use crate::instruction::{
    instruction_views, le_u64, readonly, readonly_signer, variant_tag, writable, writable_signer,
    AccountMeta, Instruction, InstructionView,
};
use solana_pubkey::Pubkey;
use vstd::prelude::*;

verus! {

/// Number of bytes of a stake account.
pub const STAKE_ACCOUNT_SPACE: u64 = 200;

/// The instruction that deactivates the delegation of `stake`, signed by
/// its staker `authority`.
pub open spec fn deactivate_instruction(stake: Address, authority: Address) -> InstructionView {
    InstructionView {
        program: stake_program_address(),
        accounts: seq![
            writable(stake),
            readonly(clock_sysvar_address()),
            readonly_signer(authority),
        ],
        data: variant_tag(5),
    }
}

/// The instruction that moves `lamports` from `stake` to `recipient`,
/// signed by the withdrawer of `stake` and by no custodian.
pub open spec fn withdraw_instruction(
    stake: Address,
    withdrawer: Address,
    recipient: Address,
    lamports: u64,
) -> InstructionView {
    InstructionView {
        program: stake_program_address(),
        accounts: seq![
            writable(stake),
            writable(recipient),
            readonly(clock_sysvar_address()),
            readonly(stake_history_sysvar_address()),
            readonly_signer(withdrawer),
        ],
        data: variant_tag(4) + le_u64(lamports),
    }
}

/// The one instruction that merges `source` into `destination`, signed by
/// the staker `authority` of both.
pub open spec fn merge_instructions(
    destination: Address,
    source: Address,
    authority: Address,
) -> Seq<InstructionView> {
    seq![
        InstructionView {
            program: stake_program_address(),
            accounts: seq![
                writable(destination),
                writable(source),
                readonly(clock_sysvar_address()),
                readonly(stake_history_sysvar_address()),
                readonly_signer(authority),
            ],
            data: variant_tag(7),
        },
    ]
}

/// The three instructions that split `lamports` off `stake` into
/// `split_stake`: the system program gives `split_stake` the space of a
/// stake account and hands it to the stake program, then the stake program
/// splits, signed by the staker `authority`.
pub open spec fn split_instructions(
    stake: Address,
    authority: Address,
    lamports: u64,
    split_stake: Address,
) -> Seq<InstructionView> {
    seq![
        InstructionView {
            program: system_program_address(),
            accounts: seq![writable_signer(split_stake)],
            data: variant_tag(8) + le_u64(STAKE_ACCOUNT_SPACE),
        },
        InstructionView {
            program: system_program_address(),
            accounts: seq![writable_signer(split_stake)],
            data: variant_tag(1) + stake_program_address()@,
        },
        InstructionView {
            program: stake_program_address(),
            accounts: seq![writable(stake), writable(split_stake), readonly_signer(authority)],
            data: variant_tag(3) + le_u64(lamports),
        },
    ]
}

/// Calls `solana_stake_interface::instruction::deactivate_stake`. The
/// contract claims what the function's source shows: the stake program as
/// the target, the stake account, the clock sysvar and the signing
/// authority as accounts, and as payload the index of `Deactivate` in the
/// program's instruction set.
#[verifier::external_body]
pub(crate) fn build_deactivate(stake: &Address, authority: &Address) -> (r: Instruction)
    ensures
        r@ == deactivate_instruction(*stake, *authority),
{
    let ix = solana_stake_interface::instruction::deactivate_stake(
        &Pubkey::new_from_array(stake.bytes),
        &Pubkey::new_from_array(authority.bytes),
    );
    let accounts = ix.accounts.iter().map(
        |m| AccountMeta::from_parts(m.pubkey.to_bytes(), m.is_signer, m.is_writable),
    ).collect();
    Instruction::from_parts(ix.program_id.to_bytes(), accounts, ix.data)
}

/// Calls `solana_stake_interface::instruction::withdraw` without a
/// custodian. The contract claims what the function's source shows: the
/// stake program as the target, five accounts of which the withdrawer
/// signs, and as payload the index of `Withdraw` followed by the amount.
#[verifier::external_body]
pub(crate) fn build_withdraw(
    stake: &Address,
    withdrawer: &Address,
    recipient: &Address,
    lamports: u64,
) -> (r: Instruction)
    ensures
        r@ == withdraw_instruction(*stake, *withdrawer, *recipient, lamports),
{
    let ix = solana_stake_interface::instruction::withdraw(
        &Pubkey::new_from_array(stake.bytes),
        &Pubkey::new_from_array(withdrawer.bytes),
        &Pubkey::new_from_array(recipient.bytes),
        lamports,
        None,
    );
    let accounts = ix.accounts.iter().map(
        |m| AccountMeta::from_parts(m.pubkey.to_bytes(), m.is_signer, m.is_writable),
    ).collect();
    Instruction::from_parts(ix.program_id.to_bytes(), accounts, ix.data)
}

/// Calls `solana_stake_interface::instruction::merge`. The contract claims
/// what the function's source shows: one instruction to the stake program
/// over five accounts of which the authority signs, with the index of
/// `Merge` as payload.
#[verifier::external_body]
pub(crate) fn build_merge(destination: &Address, source: &Address, authority: &Address) -> (r:
    Vec<Instruction>)
    ensures
        instruction_views(r@) == merge_instructions(*destination, *source, *authority),
{
    let ixs = solana_stake_interface::instruction::merge(
        &Pubkey::new_from_array(destination.bytes),
        &Pubkey::new_from_array(source.bytes),
        &Pubkey::new_from_array(authority.bytes),
    );
    ixs.into_iter().map(|ix| {
        let accounts = ix.accounts.iter().map(
            |m| AccountMeta::from_parts(m.pubkey.to_bytes(), m.is_signer, m.is_writable),
        ).collect();
        Instruction::from_parts(ix.program_id.to_bytes(), accounts, ix.data)
    }).collect()
}

/// Calls `solana_stake_interface::instruction::split`. The contract claims
/// what the function's source shows: the system program's `Allocate` of
/// the space of a stake account and its `Assign` to the stake program,
/// both on the new account, which signs them, and then the stake
/// program's `Split` of the amount, which the authority signs.
#[verifier::external_body]
pub(crate) fn build_split(
    stake: &Address,
    authority: &Address,
    lamports: u64,
    split_stake: &Address,
) -> (r: Vec<Instruction>)
    ensures
        instruction_views(r@) == split_instructions(*stake, *authority, lamports, *split_stake),
{
    let ixs = solana_stake_interface::instruction::split(
        &Pubkey::new_from_array(stake.bytes),
        &Pubkey::new_from_array(authority.bytes),
        lamports,
        &Pubkey::new_from_array(split_stake.bytes),
    );
    ixs.into_iter().map(|ix| {
        let accounts = ix.accounts.iter().map(
            |m| AccountMeta::from_parts(m.pubkey.to_bytes(), m.is_signer, m.is_writable),
        ).collect();
        Instruction::from_parts(ix.program_id.to_bytes(), accounts, ix.data)
    }).collect()
}

} // verus!
