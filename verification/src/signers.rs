//! Which identities must sign what an operation submits.

use crate::address::Address;
use crate::flow::{next_step, Operation, Reply, StepView};
use crate::instruction::InstructionView;
use crate::stake::instruction::{deactivate_instruction, merge_instructions, withdraw_instruction};
use crate::vote::instruction::{
    authorize_voter_instruction, create_vote_account_instructions, vote_withdraw_instruction,
};
use vstd::prelude::*;

verus! {

/// Whether every account that `instruction` marks as a signer is one of
/// `signers`.
pub open spec fn signed_by(instruction: InstructionView, signers: Seq<Address>) -> bool {
    forall|j: int|
        0 <= j < instruction.accounts.len() && (#[trigger] instruction.accounts[j]).is_signer
            ==> signers.contains(instruction.accounts[j].address)
}

/// Whether every account that one of `instructions` marks as a signer is
/// one of `signers`.
pub open spec fn signers_cover(instructions: Seq<InstructionView>, signers: Seq<Address>) -> bool {
    forall|i: int| 0 <= i < instructions.len() ==> signed_by(#[trigger] instructions[i], signers)
}

/// A list of one instruction is covered where the instruction is.
proof fn lemma_single_covered(instruction: InstructionView, signers: Seq<Address>)
    requires
        signed_by(instruction, signers),
    ensures
        signers_cover(seq![instruction], signers),
{
    assert forall|i: int| 0 <= i < seq![instruction].len() implies signed_by(
        #[trigger] seq![instruction][i],
        signers,
    ) by {
        assert(seq![instruction][i] == instruction);
    }
}

/// The deactivation is signed by its authority alone.
proof fn lemma_deactivate_signed(stake: Address, authority: Address, signers: Seq<Address>)
    requires
        signers.contains(authority),
    ensures
        signed_by(deactivate_instruction(stake, authority), signers),
{
}

/// The withdrawal from a stake account is signed by the withdrawer alone.
proof fn lemma_withdraw_signed(
    stake: Address,
    withdrawer: Address,
    recipient: Address,
    lamports: u64,
    signers: Seq<Address>,
)
    requires
        signers.contains(withdrawer),
    ensures
        signed_by(withdraw_instruction(stake, withdrawer, recipient, lamports), signers),
{
}

/// The merge is signed by its authority alone.
proof fn lemma_merge_signed(
    destination: Address,
    source: Address,
    authority: Address,
    signers: Seq<Address>,
)
    requires
        signers.contains(authority),
    ensures
        signers_cover(merge_instructions(destination, source, authority), signers),
{
    let ixs = merge_instructions(destination, source, authority);
    assert forall|i: int| 0 <= i < ixs.len() implies signed_by(#[trigger] ixs[i], signers) by {
        assert(i == 0);
    }
}

/// The creation of a vote account is signed by the payer, the new account
/// and the validator identity.
proof fn lemma_create_signed(
    fee_payer: Address,
    vote_account: Address,
    node: Address,
    voter: Address,
    withdrawer: Address,
    commission: u8,
    lamports: u64,
    signers: Seq<Address>,
)
    requires
        signers.contains(fee_payer),
        signers.contains(vote_account),
        signers.contains(node),
    ensures
        signers_cover(
            create_vote_account_instructions(
                fee_payer,
                vote_account,
                node,
                voter,
                withdrawer,
                commission,
                lamports,
            ),
            signers,
        ),
{
    let ixs = create_vote_account_instructions(
        fee_payer,
        vote_account,
        node,
        voter,
        withdrawer,
        commission,
        lamports,
    );
    assert forall|i: int| 0 <= i < ixs.len() implies signed_by(#[trigger] ixs[i], signers) by {
        assert(i == 0 || i == 1);
    }
}

/// The rotation of the voter is signed by its authority alone.
proof fn lemma_authorize_signed(
    vote_account: Address,
    authority: Address,
    new_voter: Address,
    signers: Seq<Address>,
)
    requires
        signers.contains(authority),
    ensures
        signed_by(authorize_voter_instruction(vote_account, authority, new_voter), signers),
{
}

/// The withdrawal from a vote account is signed by the withdrawer alone.
proof fn lemma_vote_withdraw_signed(
    vote_account: Address,
    withdrawer: Address,
    lamports: u64,
    recipient: Address,
    signers: Seq<Address>,
)
    requires
        signers.contains(withdrawer),
    ensures
        signed_by(vote_withdraw_instruction(vote_account, withdrawer, lamports, recipient), signers),
{
}

/// Whatever an operation other than a split submits, every account that
/// its instructions mark as a signer is among the signers named with
/// them, so that signing cannot fail for want of a signer. A split is
/// left out: its first two instructions are to be signed by the new
/// account, which is not among its signers.
pub proof fn law_signers_cover_submitted(
    operation: Operation,
    fee_payer: Address,
    replies: Seq<Reply>,
)
    requires
        !(operation is SplitStake),
    ensures
        next_step(operation, fee_payer, replies) matches StepView::Submit { instructions, signers }
            ==> signers_cover(instructions, signers),
{
    let step = next_step(operation, fee_payer, replies);
    if step is Submit {
        match operation {
            Operation::DeactivateStake { stake } => {
                let signers = seq![fee_payer];
                assert(signers[0] == fee_payer);
                lemma_deactivate_signed(stake, fee_payer, signers);
                lemma_single_covered(deactivate_instruction(stake, fee_payer), signers);
            },
            Operation::WithdrawStake { stake, recipient, lamports } => {
                let signers = seq![fee_payer];
                assert(signers[0] == fee_payer);
                lemma_withdraw_signed(stake, fee_payer, recipient, lamports, signers);
                lemma_single_covered(
                    withdraw_instruction(stake, fee_payer, recipient, lamports),
                    signers,
                );
            },
            Operation::MergeStake { destination, source, authority } => {
                let signers = seq![fee_payer, authority];
                assert(signers[1] == authority);
                lemma_merge_signed(destination, source, authority, signers);
            },
            Operation::SplitStake { .. } => {},
            Operation::CreateVoteAccount { vote_account, identity, withdrawer, commission } => {
                let signers = seq![fee_payer, vote_account, identity];
                assert(signers[0] == fee_payer);
                assert(signers[1] == vote_account);
                assert(signers[2] == identity);
                assert forall|lamports: u64|
                    signers_cover(
                        #[trigger] create_vote_account_instructions(
                            fee_payer,
                            vote_account,
                            identity,
                            identity,
                            withdrawer,
                            commission,
                            lamports,
                        ),
                        signers,
                    ) by {
                    lemma_create_signed(
                        fee_payer,
                        vote_account,
                        identity,
                        identity,
                        withdrawer,
                        commission,
                        lamports,
                        signers,
                    );
                }
            },
            Operation::AuthorizeVoter { vote_account, authority, new_voter } => {
                let signers = seq![fee_payer, authority];
                assert(signers[1] == authority);
                lemma_authorize_signed(vote_account, authority, new_voter, signers);
                lemma_single_covered(
                    authorize_voter_instruction(vote_account, authority, new_voter),
                    signers,
                );
            },
            Operation::WithdrawFromVoteAccount { vote_account, withdrawer, recipient, lamports } => {
                let signers = seq![fee_payer, withdrawer];
                assert(signers[1] == withdrawer);
                lemma_vote_withdraw_signed(vote_account, withdrawer, lamports, recipient, signers);
                lemma_single_covered(
                    vote_withdraw_instruction(vote_account, withdrawer, lamports, recipient),
                    signers,
                );
            },
            Operation::CloseVoteAccount { vote_account, authority, destination } => {
                let signers = seq![fee_payer, authority];
                assert(signers[1] == authority);
                assert forall|balance: u64|
                    signers_cover(
                        seq![
                            #[trigger] vote_withdraw_instruction(
                                vote_account,
                                authority,
                                balance,
                                destination,
                            ),
                        ],
                        signers,
                    ) by {
                    lemma_vote_withdraw_signed(
                        vote_account,
                        authority,
                        balance,
                        destination,
                        signers,
                    );
                    lemma_single_covered(
                        vote_withdraw_instruction(vote_account, authority, balance, destination),
                        signers,
                    );
                }
            },
        }
    }
}

} // verus!
