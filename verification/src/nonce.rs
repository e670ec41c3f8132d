//! Durable-nonce accounts and their decoding from account bytes.

use crate::account::Account;
use crate::address::Address;
use crate::error::Rejection;
use solana_nonce::state::State;
use solana_nonce::versions::Versions;
use vstd::prelude::*;

verus! {

/// What an initialized nonce account holds.
#[derive(Clone, Copy, Debug, PartialEq, Eq)]
pub struct NonceData {
    /// Who signs transactions that use the nonce.
    pub authority: Address,
    /// The value to use in place of a recent blockhash.
    pub blockhash: [u8; 32],
    /// The fee for each signature of the next transaction that uses the
    /// nonce.
    pub lamports_per_signature: u64,
}

/// The state of a nonce account.
#[derive(Clone, Copy, Debug, PartialEq, Eq)]
pub enum NonceState {
    Uninitialized,
    Initialized(NonceData),
}

impl NonceState {
    /// The initialized state with the given parts.
    pub fn from_parts(authority: [u8; 32], blockhash: [u8; 32], lamports_per_signature: u64) -> (r:
        NonceState)
        ensures
            r == NonceState::Initialized(
                NonceData {
                    authority: Address { bytes: authority },
                    blockhash,
                    lamports_per_signature,
                },
            ),
    {
        NonceState::Initialized(
            NonceData { authority: Address { bytes: authority }, blockhash, lamports_per_signature },
        )
    }
}

/// The nonce state that the system program's encoding assigns to `data`,
/// in its current or its legacy version, if `data` starts with the
/// encoding of one.
pub uninterp spec fn nonce_state_decoding(data: Seq<u8>) -> Option<NonceState>;

/// Calls `bincode::deserialize` for `solana_nonce::versions::Versions` and
/// copies the authority, the nonce value and the fee out of the state that
/// either version holds. The result depends on the bytes alone: it is
/// `None` where the call fails, and the contract gives it the name
/// `nonce_state_decoding`.
#[verifier::external_body]
pub(crate) fn decode_nonce_bytes(data: &[u8]) -> (r: Option<NonceState>)
    ensures
        r == nonce_state_decoding(data@),
{
    match bincode::deserialize::<Versions>(data).ok()?.state() {
        State::Uninitialized => Some(NonceState::Uninitialized),
        State::Initialized(d) => Some(NonceState::from_parts(
            d.authority.to_bytes(),
            d.blockhash().to_bytes(),
            d.get_lamports_per_signature(),
        )),
    }
}

/// What is shown of a nonce account that holds `data`.
pub open spec fn nonce_account_data(data: Seq<u8>) -> Result<NonceData, Rejection> {
    match nonce_state_decoding(data) {
        None => Err(Rejection::MalformedAccountData),
        Some(NonceState::Uninitialized) => Err(Rejection::NonceNotInitialized),
        Some(NonceState::Initialized(nonce)) => Ok(nonce),
    }
}

/// Decodes a nonce account. Fails with `MalformedAccountData` if its bytes
/// are no nonce state, and with `NonceNotInitialized` if they are the
/// state of an account that was never initialized.
pub fn decode_nonce_account(account: &Account) -> (r: Result<NonceData, Rejection>)
    ensures
        r == nonce_account_data(account.data@),
{
    match decode_nonce_bytes(account.data.as_slice()) {
        None => Err(Rejection::MalformedAccountData),
        Some(NonceState::Uninitialized) => Err(Rejection::NonceNotInitialized),
        Some(NonceState::Initialized(nonce)) => Ok(nonce),
    }
}

} // verus!
