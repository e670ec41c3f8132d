//! Why an operation was refused before anything was sent.

use crate::address::Address;
use vstd::prelude::*;

verus! {

/// The state a stake account was found in.
#[derive(Clone, Copy, Debug, PartialEq, Eq, Structural)]
pub enum StakeStateKind {
    Uninitialized,
    Initialized,
    Stake,
    RewardsPool,
}

/// The kinds of failure an operation can end in.
#[derive(Clone, Copy, Debug, PartialEq, Eq, Structural)]
pub enum ErrorKind {
    /// A scalar given by the operator is malformed.
    InputValidation,
    /// The remote service has no such account, or could not be reached.
    Lookup,
    /// The account is not of the expected kind.
    Decode,
    /// The operation is not legal on the state the account is in.
    Precondition,
    /// The network refused the transaction.
    Submission,
}

/// A refusal computed on this side, with what was observed and what was
/// expected.
#[derive(Clone, Copy, Debug, PartialEq, Eq)]
pub enum Rejection {
    /// A requested account does not exist remotely.
    AccountNotFound { address: Address },
    /// The account belongs to another program than the one expected.
    WrongOwner { expected: Address, actual: Address },
    /// The account's bytes do not decode to a state of the expected program.
    MalformedAccountData,
    /// The signing identity is not the authority the account records. For a
    /// voter rotation `also_accepted` holds the withdrawer, which may sign
    /// in place of the active voter.
    NotAuthorized { expected: Address, also_accepted: Option<Address>, provided: Address },
    /// The stake account is in a state on which the operation cannot act.
    WrongState { observed: StakeStateKind },
    /// The stake is deactivating already.
    AlreadyDeactivating { deactivation_epoch: u64 },
    /// The stake was never deactivated.
    StillActive,
    /// The stake was deactivated and has not cooled down yet.
    CoolingDown { current_epoch: u64, deactivation_epoch: u64, epochs_remaining: u64 },
    /// More lamports were requested than the account holds.
    InsufficientBalance { available: u64, requested: u64 },
    /// The destination of a merge is neither initialized nor delegated.
    InvalidDestinationState { observed: StakeStateKind },
    /// The source of a merge is neither initialized nor delegated.
    InvalidSourceState { observed: StakeStateKind },
    /// The source of a merge is deactivating.
    SourceDeactivating { deactivation_epoch: u64 },
    /// Two accounts that must differ are the same.
    SameAccount { address: Address },
    /// Fewer lamports were requested than a delegation must hold.
    BelowMinimumDelegation { minimum: u64, requested: u64 },
    /// The fee payer cannot be the vote account that it creates.
    FeePayerIsVoteAccount { address: Address },
    /// A vote account cannot be its own validator identity.
    VoteAccountIsIdentity { address: Address },
    /// An account exists already at the address of the vote account to
    /// create; `is_vote_account` tells whether the vote program owns it.
    AccountAlreadyExists { address: Address, is_vote_account: bool },
    /// The vote account records no authorized voter for the epoch.
    NoAuthorizedVoter { epoch: u64 },
    /// The vote account still has activated stake.
    ActiveStake { address: Address },
    /// The vote account holds nothing to reclaim.
    ZeroBalance { address: Address },
    /// The nonce account was never initialized.
    NonceNotInitialized,
}

impl Rejection {
    /// The kind of failure a rejection belongs to.
    pub open spec fn kind_of(self) -> ErrorKind {
        match self {
            Rejection::AccountNotFound { .. } => ErrorKind::Lookup,
            Rejection::WrongOwner { .. } | Rejection::MalformedAccountData => ErrorKind::Decode,
            _ => ErrorKind::Precondition,
        }
    }

    /// The kind of failure this rejection belongs to.
    pub fn kind(&self) -> (r: ErrorKind)
        ensures
            r == self.kind_of(),
    {
        match self {
            Rejection::AccountNotFound { .. } => ErrorKind::Lookup,
            Rejection::WrongOwner { .. } => ErrorKind::Decode,
            Rejection::MalformedAccountData => ErrorKind::Decode,
            _ => ErrorKind::Precondition,
        }
    }
}

} // verus!
