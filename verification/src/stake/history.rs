//! The cluster's stake history, as the stake-history sysvar holds it.

use crate::error::Rejection;
use bincode::Options;
use solana_stake_interface::stake_history::StakeHistory;
use vstd::prelude::*;

verus! {

/// How much stake was effective, warming up and cooling down in an epoch.
#[derive(Clone, Copy, Debug, PartialEq, Eq)]
pub struct StakeHistoryEntry {
    pub epoch: u64,
    pub effective: u64,
    pub activating: u64,
    pub deactivating: u64,
}

impl StakeHistoryEntry {
    /// The entry with the given parts.
    pub fn from_parts(epoch: u64, effective: u64, activating: u64, deactivating: u64) -> (r:
        StakeHistoryEntry)
        ensures
            r == (StakeHistoryEntry { epoch, effective, activating, deactivating }),
    {
        StakeHistoryEntry { epoch, effective, activating, deactivating }
    }
}

/// The entries that the sysvar's encoding assigns to `data`, in the order
/// in which `data` holds them, if `data` is the encoding of a history and
/// decoding it stays within `limit` bytes.
pub uninterp spec fn stake_history_decoding(limit: u64, data: Seq<u8>) -> Option<
    Seq<StakeHistoryEntry>,
>;

/// Calls `deserialize` of `bincode::options()` with fixed-width integers
/// and a limit of `limit` bytes, for
/// `solana_stake_interface::stake_history::StakeHistory`, and copies the
/// entries out in order. The result depends on the limit and the bytes
/// alone: it is `None` where the call fails, and the contract gives it
/// the name `stake_history_decoding`.
#[verifier::external_body]
pub(crate) fn decode_history_bytes(limit: u64, data: &[u8]) -> (r: Option<Vec<StakeHistoryEntry>>)
    ensures
        match r {
            Some(entries) => stake_history_decoding(limit, data@) == Some(entries@),
            None => stake_history_decoding(limit, data@) is None,
        },
{
    let options = bincode::options().with_fixint_encoding().with_limit(limit);
    let history = options.deserialize::<StakeHistory>(data).ok()?;
    Some(history.iter().map(|(epoch, entry)| StakeHistoryEntry::from_parts(
        *epoch,
        entry.effective,
        entry.activating,
        entry.deactivating,
    )).collect())
}

/// Decodes the bytes of the stake-history sysvar. The decoder is held to
/// the length of the bytes, so that a length written in them cannot make
/// it reserve more. Fails with `MalformedAccountData` exactly when the
/// bytes are no history within that limit.
pub fn decode_stake_history(data: &[u8]) -> (r: Result<Vec<StakeHistoryEntry>, Rejection>)
    ensures
        match r {
            Ok(entries) => stake_history_decoding(data@.len() as u64, data@) == Some(entries@),
            Err(e) => e == Rejection::MalformedAccountData && stake_history_decoding(
                data@.len() as u64,
                data@,
            ) is None,
        },
{
    match decode_history_bytes(data.len() as u64, data) {
        Some(entries) => Ok(entries),
        None => Err(Rejection::MalformedAccountData),
    }
}

/// The first `limit` entries of a history, or all of them where it holds
/// fewer.
pub open spec fn leading_entries(history: Seq<StakeHistoryEntry>, limit: nat) -> Seq<
    StakeHistoryEntry,
> {
    if limit < history.len() {
        history.take(limit as int)
    } else {
        history
    }
}

/// The entries of a history that are shown: the first `limit` of them.
pub fn shown_entries(history: &Vec<StakeHistoryEntry>, limit: usize) -> (r: Vec<StakeHistoryEntry>)
    ensures
        r@ == leading_entries(history@, limit as nat),
{
    let n = if limit < history.len() {
        limit
    } else {
        history.len()
    };
    let mut shown: Vec<StakeHistoryEntry> = Vec::new();
    let mut i: usize = 0;
    while i < n
        invariant
            i <= n <= history.len(),
            shown@ == history@.take(i as int),
        decreases n - i,
    {
        shown.push(history[i]);
        assert(history@.take(i + 1) =~= history@.take(i as int).push(history@[i as int]));
        i = i + 1;
    }
    assert(history@.take(history.len() as int) =~= history@);
    shown
}

} // verus!
