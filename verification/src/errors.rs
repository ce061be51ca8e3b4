use vstd::prelude::*;

verus! {

/// The failures this protocol core can surface.
///
/// None of these is transient: every failure is deterministic in the inputs
/// and must be resolved by supplying corrected inputs.
#[derive(Clone, Copy, Debug, PartialEq, Eq, Structural)]
pub enum FsDkrError {
    /// A join message was consumed before the coordination layer assigned
    /// its party index.
    NewPartyUnassignedIndexError,
    /// The refresh messages of one batch disagree on the group public key;
    /// evidence of a faulty or Byzantine existing party.
    BroadcastedPublicKeyError,
    /// A refresh batch does not hold exactly `t + 1` messages.
    PartiesCountError,
    /// A refresh message carries a party index outside `1..=n`.
    PartyIndexRangeError,
    /// Two refresh messages in one batch carry the same party index.
    DuplicatePartyIndexError,
    /// A refresh message's per-party vectors do not have `n` entries.
    SizeMismatchError,
    /// A refresh message carries a negative integer where a Paillier
    /// ciphertext — a residue, hence non-negative — is expected.
    InvalidCiphertextError,
    /// Sampling an exponent invertible modulo the Euler totient failed at
    /// every allowed retry; overwhelmingly unlikely, but surfaced rather
    /// than looping forever.
    SetupSamplingError,
}

pub type FsDkrResult<T> = Result<T, FsDkrError>;

} // verus!
