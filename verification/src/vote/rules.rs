//! The rules that decide whether an operation is legal on a vote account.
//! Each rule is a function of plain facts, so it can be asked without any
//! network.

use crate::address::{is_vote_program, vote_program_address, Address};
use crate::error::Rejection;
use crate::stake::rules::not_authorized;
use crate::vote::state::{active_voter, in_force, lemma_active_voter_of_entry, VoteState,
    VoteStateView, VoterEntry};
use vstd::prelude::*;

verus! {

/// What the cluster reports of a vote account in its view of all vote
/// accounts.
#[derive(Clone, Copy, Debug, PartialEq, Eq)]
pub struct VoteAccountInfo {
    pub activated_stake: u64,
}

/// The cluster's view of the vote accounts asked for: those that vote, and
/// those that fell behind.
#[derive(Clone, Debug, PartialEq, Eq)]
pub struct VoteAccountStatus {
    pub current: Vec<VoteAccountInfo>,
    pub delinquent: Vec<VoteAccountInfo>,
}

/// Whether some entry of a list reports activated stake.
pub open spec fn lists_activated_stake(entries: Seq<VoteAccountInfo>) -> bool {
    exists|i: int| 0 <= i < entries.len() && (#[trigger] entries[i]).activated_stake != 0
}

/// Whether the view reports activated stake: some entry of it, current or
/// delinquent, has activated stake that is not zero.
pub open spec fn shows_activated_stake(
    current: Seq<VoteAccountInfo>,
    delinquent: Seq<VoteAccountInfo>,
) -> bool {
    lists_activated_stake(current) || lists_activated_stake(delinquent)
}

/// Whether some entry of a list reports activated stake.
fn any_activated_stake(entries: &Vec<VoteAccountInfo>) -> (r: bool)
    ensures
        r == lists_activated_stake(entries@),
{
    let mut i: usize = 0;
    while i < entries.len()
        invariant
            i <= entries.len(),
            forall|j: int| 0 <= j < i ==> (#[trigger] entries@[j]).activated_stake == 0,
        decreases entries.len() - i,
    {
        if entries[i].activated_stake != 0 {
            return true;
        }
        i = i + 1;
    }
    false
}

impl VoteAccountStatus {
    /// Whether the view reports activated stake in any of its entries.
    pub fn has_activated_stake(&self) -> (r: bool)
        ensures
            r == shows_activated_stake(self.current@, self.delinquent@),
    {
        any_activated_stake(&self.current) || any_activated_stake(&self.delinquent)
    }
}

/// Whether a vote account at `vote_account` with the validator identity
/// `identity` can be created at the expense of `fee_payer`: the payer
/// cannot be the new account, and the new account cannot be its own
/// identity.
pub open spec fn create_identities_verdict(
    fee_payer: Address,
    vote_account: Address,
    identity: Address,
) -> Result<(), Rejection> {
    if fee_payer == vote_account {
        Err(Rejection::FeePayerIsVoteAccount { address: vote_account })
    } else if vote_account == identity {
        Err(Rejection::VoteAccountIsIdentity { address: vote_account })
    } else {
        Ok(())
    }
}

/// Decides whether the three identities of a vote account to create are
/// distinct enough.
pub fn check_create_identities(fee_payer: &Address, vote_account: &Address, identity: &Address) -> (r:
    Result<(), Rejection>)
    ensures
        r == create_identities_verdict(*fee_payer, *vote_account, *identity),
{
    if *fee_payer == *vote_account {
        Err(Rejection::FeePayerIsVoteAccount { address: *vote_account })
    } else if *vote_account == *identity {
        Err(Rejection::VoteAccountIsIdentity { address: *vote_account })
    } else {
        Ok(())
    }
}

/// Whether the address `vote_account` is free, where `existing_owner` is
/// the owner of the account found there, if one was found.
pub open spec fn vacancy_verdict(vote_account: Address, existing_owner: Option<Address>) -> Result<
    (),
    Rejection,
> {
    match existing_owner {
        None => Ok(()),
        Some(owner) => Err(
            Rejection::AccountAlreadyExists {
                address: vote_account,
                is_vote_account: owner == vote_program_address(),
            },
        ),
    }
}

/// Decides whether the address of a vote account to create is free, and
/// tells a vote account found there from any other account.
pub fn check_vacancy(vote_account: &Address, existing_owner: Option<Address>) -> (r: Result<
    (),
    Rejection,
>)
    ensures
        r == vacancy_verdict(*vote_account, existing_owner),
{
    match existing_owner {
        None => Ok(()),
        Some(owner) => Err(
            Rejection::AccountAlreadyExists {
                address: *vote_account,
                is_vote_account: is_vote_program(&owner),
            },
        ),
    }
}

/// Whether `caller` may set a new authorized voter on a vote account in
/// `state` during `epoch`: it must be the voter in force at `epoch`, which
/// is looked up by epoch in the history, or the withdrawer.
pub open spec fn rotation_verdict(state: VoteStateView, caller: Address, epoch: u64) -> Result<
    (),
    Rejection,
> {
    match active_voter(state.voters, epoch) {
        None => Err(Rejection::NoAuthorizedVoter { epoch }),
        Some(voter) => {
            if caller != voter && caller != state.withdrawer {
                Err(
                    Rejection::NotAuthorized {
                        expected: voter,
                        also_accepted: Some(state.withdrawer),
                        provided: caller,
                    },
                )
            } else {
                Ok(())
            }
        },
    }
}

/// Decides whether `caller` may set a new authorized voter during `epoch`.
pub fn check_rotation(state: &VoteState, caller: &Address, epoch: u64) -> (r: Result<
    (),
    Rejection,
>)
    ensures
        r == rotation_verdict(state@, *caller, epoch),
{
    match state.authorized_voter(epoch) {
        None => Err(Rejection::NoAuthorizedVoter { epoch }),
        Some(voter) => {
            if *caller != voter && *caller != state.withdrawer {
                Err(
                    Rejection::NotAuthorized {
                        expected: voter,
                        also_accepted: Some(state.withdrawer),
                        provided: *caller,
                    },
                )
            } else {
                Ok(())
            }
        },
    }
}

/// Whether `caller` may withdraw from a vote account in `state`: it must
/// be the withdrawer itself.
pub open spec fn vote_withdraw_verdict(state: VoteStateView, caller: Address) -> Result<
    (),
    Rejection,
> {
    if caller != state.withdrawer {
        Err(not_authorized(state.withdrawer, caller))
    } else {
        Ok(())
    }
}

/// Decides whether `caller` may withdraw from a vote account in `state`.
pub fn check_vote_withdraw(state: &VoteState, caller: &Address) -> (r: Result<(), Rejection>)
    ensures
        r == vote_withdraw_verdict(state@, *caller),
{
    if *caller != state.withdrawer {
        Err(
            Rejection::NotAuthorized {
                expected: state.withdrawer,
                also_accepted: None,
                provided: *caller,
            },
        )
    } else {
        Ok(())
    }
}

/// Whether the cluster's view forbids closing `vote_account`: any
/// activated stake that the view reports does.
pub open spec fn close_stake_verdict(
    vote_account: Address,
    current: Seq<VoteAccountInfo>,
    delinquent: Seq<VoteAccountInfo>,
) -> Result<(), Rejection> {
    if shows_activated_stake(current, delinquent) {
        Err(Rejection::ActiveStake { address: vote_account })
    } else {
        Ok(())
    }
}

/// Whether the vote account `vote_account` can be closed, on the
/// cluster's view of it and on the `balance` that it holds: activated
/// stake in any entry of the view forbids it, whatever the balance is, and
/// an empty account has nothing to reclaim.
pub open spec fn close_verdict(
    vote_account: Address,
    current: Seq<VoteAccountInfo>,
    delinquent: Seq<VoteAccountInfo>,
    balance: u64,
) -> Result<(), Rejection> {
    if shows_activated_stake(current, delinquent) {
        Err(Rejection::ActiveStake { address: vote_account })
    } else if balance == 0 {
        Err(Rejection::ZeroBalance { address: vote_account })
    } else {
        Ok(())
    }
}

/// Decides whether the cluster's view forbids closing `vote_account`.
pub fn check_close_stake(vote_account: &Address, status: &VoteAccountStatus) -> (r: Result<
    (),
    Rejection,
>)
    ensures
        r == close_stake_verdict(*vote_account, status.current@, status.delinquent@),
{
    if status.has_activated_stake() {
        Err(Rejection::ActiveStake { address: *vote_account })
    } else {
        Ok(())
    }
}

/// Decides whether the vote account `vote_account` can be closed.
pub fn check_close(vote_account: &Address, status: &VoteAccountStatus, balance: u64) -> (r: Result<
    (),
    Rejection,
>)
    ensures
        r == close_verdict(*vote_account, status.current@, status.delinquent@, balance),
{
    match check_close_stake(vote_account, status) {
        Err(e) => Err(e),
        Ok(()) => {
            if balance == 0 {
                Err(Rejection::ZeroBalance { address: *vote_account })
            } else {
                Ok(())
            }
        },
    }
}

/// The voter recorded for the current epoch may rotate the authorized
/// voter, whatever the history records for other epochs. Where the history
/// holds several records for the epoch, the last of them counts.
pub proof fn law_rotation_by_current_voter(state: VoteStateView, epoch: u64, i: int)
    requires
        0 <= i < state.voters.len(),
        state.voters[i].epoch == epoch,
        forall|j: int|
            i < j < state.voters.len() ==> (#[trigger] state.voters[j]).epoch != epoch,
    ensures
        active_voter(state.voters, epoch) == Some(state.voters[i].voter),
        rotation_verdict(state, state.voters[i].voter, epoch) is Ok,
{
    assert(in_force(state.voters, epoch, i));
    lemma_active_voter_of_entry(state.voters, epoch, i);
}

/// The lookup goes by epoch and not by recency: an identity that the
/// history records only for other epochs than the one in force, and that
/// is neither the voter in force nor the withdrawer, is refused, be its
/// entry the most recent one or not.
pub proof fn law_rotation_lookup_by_epoch(state: VoteStateView, epoch: u64, i: int, caller: Address)
    requires
        in_force(state.voters, epoch, i),
        caller != state.voters[i].voter,
        caller != state.withdrawer,
    ensures
        rotation_verdict(state, caller, epoch) == Err::<(), Rejection>(
            Rejection::NotAuthorized {
                expected: state.voters[i].voter,
                also_accepted: Some(state.withdrawer),
                provided: caller,
            },
        ),
{
    lemma_active_voter_of_entry(state.voters, epoch, i);
}

/// Whoever is the voter in force at an epoch, or the withdrawer while some
/// voter is in force, may rotate the authorized voter.
pub proof fn law_rotation_accepts(state: VoteStateView, epoch: u64, i: int, caller: Address)
    requires
        in_force(state.voters, epoch, i),
        caller == state.voters[i].voter || caller == state.withdrawer,
    ensures
        rotation_verdict(state, caller, epoch) is Ok,
{
    lemma_active_voter_of_entry(state.voters, epoch, i);
}

/// An epoch without an entry of its own keeps the voter of the latest
/// epoch before it: in a history in ascending order of epoch, the entry in
/// force is the last one that is not for a later epoch.
pub proof fn law_voter_carried_forward(voters: Seq<VoterEntry>, epoch: u64, i: int)
    requires
        forall|a: int, b: int|
            0 <= a < b < voters.len() ==> (#[trigger] voters[a]).epoch < (#[trigger] voters[b]).epoch,
        0 <= i < voters.len(),
        voters[i].epoch <= epoch,
        i + 1 < voters.len() ==> voters[i + 1].epoch > epoch,
    ensures
        active_voter(voters, epoch) == Some(voters[i].voter),
{
    assert forall|j: int| 0 <= j < voters.len() && (#[trigger] voters[j]).epoch <= epoch implies (
    voters[j].epoch < voters[i].epoch || (voters[j].epoch == voters[i].epoch && j <= i)) by {
        if j > i {
            if j > i + 1 {
                assert(voters[i + 1].epoch < voters[j].epoch);
            }
        } else if j < i {
            assert(voters[j].epoch < voters[i].epoch);
        }
    }
    assert(in_force(voters, epoch, i));
    lemma_active_voter_of_entry(voters, epoch, i);
}

/// Activated stake in any entry of the view, current or delinquent,
/// first or not, forbids closing a vote account whatever it holds.
pub proof fn law_close_with_active_stake(
    vote_account: Address,
    current: Seq<VoteAccountInfo>,
    delinquent: Seq<VoteAccountInfo>,
    i: int,
    balance: u64,
)
    requires
        (0 <= i < current.len() && current[i].activated_stake != 0) || (0 <= i < delinquent.len()
            && delinquent[i].activated_stake != 0),
    ensures
        close_verdict(vote_account, current, delinquent, balance) == Err::<(), Rejection>(
            Rejection::ActiveStake { address: vote_account },
        ),
{
}

/// A vote account of which no entry of the view reports activated stake
/// can be closed exactly when it holds something.
pub proof fn law_close_without_active_stake(
    vote_account: Address,
    current: Seq<VoteAccountInfo>,
    delinquent: Seq<VoteAccountInfo>,
    balance: u64,
)
    requires
        forall|i: int| 0 <= i < current.len() ==> (#[trigger] current[i]).activated_stake == 0,
        forall|i: int| 0 <= i < delinquent.len() ==> (#[trigger] delinquent[i]).activated_stake == 0,
    ensures
        close_verdict(vote_account, current, delinquent, balance) is Ok <==> balance != 0,
        balance == 0 ==> close_verdict(vote_account, current, delinquent, balance) == Err::<
            (),
            Rejection,
        >(Rejection::ZeroBalance { address: vote_account }),
{
}

} // verus!
