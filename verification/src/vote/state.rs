//! The state of a vote account, its decoding from account bytes, and the
//! lookups that the operations make in it.

use crate::account::Account;
use crate::address::{is_vote_program, vote_program_address, Address};
use crate::error::Rejection;
use solana_pubkey::Pubkey;
use solana_vote_program::vote_state::VoteStateV4;
use vstd::prelude::*;

verus! {

/// From which epoch on an identity is authorized to vote.
#[derive(Clone, Copy, Debug, PartialEq, Eq)]
pub struct VoterEntry {
    pub epoch: u64,
    pub voter: Address,
}

impl VoterEntry {
    /// The entry with the given epoch and address bytes.
    pub fn from_parts(epoch: u64, voter: [u8; 32]) -> (r: VoterEntry)
        ensures
            r == (VoterEntry { epoch, voter: Address { bytes: voter } }),
    {
        VoterEntry { epoch, voter: Address { bytes: voter } }
    }
}

/// The credits a vote account had earned by the end of an epoch, and by
/// the end of the epoch before.
#[derive(Clone, Copy, Debug, PartialEq, Eq)]
pub struct EpochCredits {
    pub epoch: u64,
    pub credits: u64,
    pub previous_credits: u64,
}

impl EpochCredits {
    /// The entry with the given parts.
    pub fn from_parts(epoch: u64, credits: u64, previous_credits: u64) -> (r: EpochCredits)
        ensures
            r == (EpochCredits { epoch, credits, previous_credits }),
    {
        EpochCredits { epoch, credits, previous_credits }
    }
}

/// The state of a vote account. `voters` is the history of authorized
/// voters, one entry for each epoch in which the authorized voter was set.
#[derive(Clone, Debug, PartialEq, Eq)]
pub struct VoteState {
    pub node: Address,
    pub withdrawer: Address,
    pub voters: Vec<VoterEntry>,
    pub epoch_credits: Vec<EpochCredits>,
    pub commission_bps: u16,
    pub root_slot: Option<u64>,
    pub last_vote_slot: u64,
    pub last_vote_timestamp: i64,
}

/// What a vote state holds, as mathematical values.
pub struct VoteStateView {
    pub node: Address,
    pub withdrawer: Address,
    pub voters: Seq<VoterEntry>,
    pub epoch_credits: Seq<EpochCredits>,
    pub commission_bps: u16,
    pub root_slot: Option<u64>,
    pub last_vote_slot: u64,
    pub last_vote_timestamp: i64,
}

impl View for VoteState {
    type V = VoteStateView;

    open spec fn view(&self) -> VoteStateView {
        VoteStateView {
            node: self.node,
            withdrawer: self.withdrawer,
            voters: self.voters@,
            epoch_credits: self.epoch_credits@,
            commission_bps: self.commission_bps,
            root_slot: self.root_slot,
            last_vote_slot: self.last_vote_slot,
            last_vote_timestamp: self.last_vote_timestamp,
        }
    }
}

/// Whether the entry at `j` yields to the entry at `i`: it is for an
/// earlier epoch, or for the same epoch and not recorded later.
pub open spec fn yields_to(voters: Seq<VoterEntry>, j: int, i: int) -> bool {
    voters[j].epoch < voters[i].epoch || (voters[j].epoch == voters[i].epoch && j <= i)
}

/// Whether the entry at `i` is the one in force at `epoch`: it is for
/// `epoch` or an earlier epoch, and every other such entry yields to it.
pub open spec fn in_force(voters: Seq<VoterEntry>, epoch: u64, i: int) -> bool {
    &&& 0 <= i < voters.len()
    &&& voters[i].epoch <= epoch
    &&& forall|j: int|
        0 <= j < voters.len() && (#[trigger] voters[j]).epoch <= epoch ==> yields_to(voters, j, i)
}

/// The identity authorized to vote at `epoch`: the voter of the entry in
/// force then. An epoch without an entry of its own keeps the voter of the
/// latest epoch before it; an epoch before every entry has none.
pub open spec fn active_voter(voters: Seq<VoterEntry>, epoch: u64) -> Option<Address> {
    if exists|i: int| in_force(voters, epoch, i) {
        Some(voters[choose|i: int| in_force(voters, epoch, i)].voter)
    } else {
        None
    }
}

/// At most one entry is in force at an epoch.
pub proof fn lemma_in_force_unique(voters: Seq<VoterEntry>, epoch: u64, i: int, k: int)
    requires
        in_force(voters, epoch, i),
        in_force(voters, epoch, k),
    ensures
        i == k,
{
    assert(yields_to(voters, k, i));
    assert(yields_to(voters, i, k));
}

/// The voter of an entry that is in force at an epoch is the active voter
/// of that epoch.
pub proof fn lemma_active_voter_of_entry(voters: Seq<VoterEntry>, epoch: u64, i: int)
    requires
        in_force(voters, epoch, i),
    ensures
        active_voter(voters, epoch) == Some(voters[i].voter),
{
    let k = choose|k: int| in_force(voters, epoch, k);
    lemma_in_force_unique(voters, epoch, i, k);
}

/// The latest voter of a history that is not empty is recorded in it, for
/// an epoch that no entry exceeds; where several entries are for that
/// epoch it is the one recorded last. An empty history has the validator
/// identity in its place.
pub proof fn law_latest_voter_is_of_greatest_epoch(state: VoteStateView)
    ensures
        state.voters.len() == 0 ==> VoteState::latest_voter_of(state) == state.node,
        state.voters.len() > 0 ==> exists|i: int|
            0 <= i < state.voters.len() && VoteState::latest_voter_of(state)
                == (#[trigger] state.voters[i]).voter && forall|j: int|
                0 <= j < state.voters.len() ==> yields_to(state.voters, j, i),
{
    let voters = state.voters;
    if voters.len() > 0 {
        let i = greatest_entry(voters, voters.len() as int);
        assert(in_force(voters, u64::MAX, i));
        lemma_active_voter_of_entry(voters, u64::MAX, i);
        assert(VoteState::latest_voter_of(state) == voters[i].voter);
    } else {
        assert forall|k: int| !in_force(voters, u64::MAX, k) by {}
    }
}

/// An entry among the first `n` to which each of them yields.
proof fn greatest_entry(voters: Seq<VoterEntry>, n: int) -> (i: int)
    requires
        0 < n <= voters.len(),
    ensures
        0 <= i < n,
        forall|j: int| 0 <= j < n ==> yields_to(voters, j, i),
    decreases n,
{
    if n == 1 {
        0
    } else {
        let before = greatest_entry(voters, n - 1);
        let i = if voters[before].epoch <= voters[n - 1].epoch {
            n - 1
        } else {
            before
        };
        assert forall|j: int| 0 <= j < n implies yields_to(voters, j, i) by {
            if j < n - 1 {
                assert(yields_to(voters, j, before));
            }
        }
        i
    }
}

impl VoteState {
    /// The vote state with the given parts.
    pub fn from_parts(
        node: [u8; 32],
        withdrawer: [u8; 32],
        voters: Vec<VoterEntry>,
        epoch_credits: Vec<EpochCredits>,
        commission_bps: u16,
        root_slot: Option<u64>,
        last_vote_slot: u64,
        last_vote_timestamp: i64,
    ) -> (r: VoteState)
        ensures
            r@ == (VoteStateView {
                node: Address { bytes: node },
                withdrawer: Address { bytes: withdrawer },
                voters: voters@,
                epoch_credits: epoch_credits@,
                commission_bps,
                root_slot,
                last_vote_slot,
                last_vote_timestamp,
            }),
    {
        VoteState {
            node: Address { bytes: node },
            withdrawer: Address { bytes: withdrawer },
            voters,
            epoch_credits,
            commission_bps,
            root_slot,
            last_vote_slot,
            last_vote_timestamp,
        }
    }

    /// The identity authorized to vote at `epoch`, looked up by epoch in
    /// the history of authorized voters.
    pub fn authorized_voter(&self, epoch: u64) -> (r: Option<Address>)
        ensures
            r == active_voter(self.voters@, epoch),
    {
        let ghost voters = self.voters@;
        let mut best: Option<usize> = None;
        let mut i: usize = 0;
        while i < self.voters.len()
            invariant
                i <= self.voters.len(),
                voters == self.voters@,
                match best {
                    None => forall|j: int| 0 <= j < i ==> (#[trigger] voters[j]).epoch > epoch,
                    Some(b) => {
                        &&& b < i
                        &&& voters[b as int].epoch <= epoch
                        &&& forall|j: int|
                            0 <= j < i && (#[trigger] voters[j]).epoch <= epoch ==> yields_to(
                                voters,
                                j,
                                b as int,
                            )
                    },
                },
            decreases self.voters.len() - i,
        {
            let candidate = self.voters[i].epoch;
            if candidate <= epoch {
                match best {
                    None => {
                        best = Some(i);
                    },
                    Some(b) => {
                        if self.voters[b].epoch <= candidate {
                            best = Some(i);
                        }
                    },
                }
            }
            i = i + 1;
        }
        match best {
            None => {
                assert forall|k: int| !in_force(voters, epoch, k) by {
                    if 0 <= k < voters.len() {
                        assert(voters[k].epoch > epoch);
                    }
                }
                None
            },
            Some(b) => {
                proof {
                    assert(in_force(voters, epoch, b as int));
                    lemma_active_voter_of_entry(voters, epoch, b as int);
                }
                Some(self.voters[b].voter)
            },
        }
    }

    /// The voter recorded for the greatest epoch of the history, in
    /// whatever order the history holds its entries, or the validator
    /// identity where no voter is recorded at all. That is the voter in
    /// force at the last epoch there is, since no entry is for a later one.
    pub open spec fn latest_voter_of(state: VoteStateView) -> Address {
        match active_voter(state.voters, u64::MAX) {
            Some(voter) => voter,
            None => state.node,
        }
    }

    /// The voter recorded for the greatest epoch of the history, or the
    /// validator identity where the history is empty.
    pub fn latest_voter(&self) -> (r: Address)
        ensures
            r == Self::latest_voter_of(self@),
    {
        match self.authorized_voter(u64::MAX) {
            Some(voter) => voter,
            None => self.node,
        }
    }

    /// The credits of the last entry of the credit history, or zero where
    /// the history is empty.
    pub open spec fn credits_of(state: VoteStateView) -> u64 {
        if state.epoch_credits.len() == 0 {
            0
        } else {
            state.epoch_credits.last().credits
        }
    }

    /// Number of credits owed to the account.
    pub fn credits(&self) -> (r: u64)
        ensures
            r == Self::credits_of(self@),
    {
        let n = self.epoch_credits.len();
        if n == 0 {
            0
        } else {
            self.epoch_credits[n - 1].credits
        }
    }

    /// The commission on inflation rewards in whole percent: the basis
    /// points divided by one hundred, rounded down.
    pub fn commission_percent(&self) -> (r: u16)
        ensures
            r == self.commission_bps / 100,
    {
        self.commission_bps / 100
    }
}

/// The vote state that the vote program's encoding assigns to `data` for
/// the vote account at `address`, if `data` is the encoding of one in any
/// version of the program.
pub uninterp spec fn vote_state_decoding(data: Seq<u8>, address: Seq<u8>) -> Option<VoteStateView>;

/// Calls `VoteStateV4::deserialize` of `solana_vote_program::vote_state`
/// and copies out of what it returns the identities, the history of
/// authorized voters in ascending order of epoch, the credit history, the
/// commission, the root slot and the last timestamp. The result depends on
/// the bytes and the address alone: it is `None` where the call fails, and
/// the contract gives it the name `vote_state_decoding`.
#[verifier::external_body]
pub(crate) fn decode_vote_bytes(data: &[u8], address: &Address) -> (r: Option<VoteState>)
    ensures
        match r {
            Some(state) => vote_state_decoding(data@, address@) == Some(state@),
            None => vote_state_decoding(data@, address@) is None,
        },
{
    let s = VoteStateV4::deserialize(data, &Pubkey::new_from_array(address.bytes)).ok()?;
    let voters = s.authorized_voters.iter().map(
        |(epoch, voter)| VoterEntry::from_parts(*epoch, voter.to_bytes()),
    ).collect();
    let credits = s.epoch_credits.iter().map(|c| EpochCredits::from_parts(c.0, c.1, c.2)).collect();
    Some(VoteState::from_parts(
        s.node_pubkey.to_bytes(),
        s.authorized_withdrawer.to_bytes(),
        voters,
        credits,
        s.inflation_rewards_commission_bps,
        s.root_slot,
        s.last_timestamp.slot,
        s.last_timestamp.timestamp,
    ))
}

/// What the decoder makes of an account at `address` that `owner` owns and
/// that holds `data`: the owner is looked at first, the bytes only if the
/// vote program owns the account.
pub open spec fn vote_account_state(address: Address, owner: Address, data: Seq<u8>) -> Result<
    VoteStateView,
    Rejection,
> {
    if owner != vote_program_address() {
        Err(Rejection::WrongOwner { expected: vote_program_address(), actual: owner })
    } else {
        match vote_state_decoding(data, address@) {
            Some(state) => Ok(state),
            None => Err(Rejection::MalformedAccountData),
        }
    }
}

/// Decodes the vote account at `address`. Fails with `WrongOwner` unless
/// the vote program owns the account, whatever its bytes are, and with
/// `MalformedAccountData` if its bytes are not a vote state.
pub fn decode_vote_account(address: &Address, account: &Account) -> (r: Result<
    VoteState,
    Rejection,
>)
    ensures
        match r {
            Ok(state) => vote_account_state(*address, account.owner, account.data@) == Ok::<
                VoteStateView,
                Rejection,
            >(state@),
            Err(e) => vote_account_state(*address, account.owner, account.data@) == Err::<
                VoteStateView,
                Rejection,
            >(e),
        },
{
    if !is_vote_program(&account.owner) {
        return Err(
            Rejection::WrongOwner {
                expected: crate::address::vote_program(),
                actual: account.owner,
            },
        );
    }
    match decode_vote_bytes(account.data.as_slice(), address) {
        Some(state) => Ok(state),
        None => Err(Rejection::MalformedAccountData),
    }
}

} // verus!
