//! Error taxonomy surfaced at the RPC boundary.

use vstd::prelude::*;

verus! {

/// A domain-rule violation inside the wallet.
#[derive(Clone, Debug, PartialEq, Eq)]
pub enum WalletError {
    /// A numeric account reference was used while the wallet manages a
    /// number of seeds different from one; numeric references are only
    /// meaningful for single-seed wallets.
    AmbiguousSeeds,
    /// The wallet manages exactly one seed, but no seed-derived account
    /// exists at the requested index.
    AccountNotGenerated,
    /// The account lacks key material for an explicitly requested
    /// receiver type.
    ReceiverTypeUnsupported,
    /// A unified address was already derived at the requested diversifier
    /// index with a different receiver-type list.
    AddressConflict,
    /// Every diversifier index usable by the next-unused allocation policy
    /// has already been allocated.
    DiversifierSpaceExhausted,
}

/// An error surfaced to the RPC caller.
///
/// `Database` preserves the store's message verbatim for diagnostics; the
/// remaining variants are closed categories that the boundary layer renders
/// into wire messages.
#[derive(Clone, Debug, PartialEq, Eq)]
pub enum RpcError {
    /// The request was malformed: wrong shape or type.
    InvalidParams,
    /// A well-formed value lies outside its allowed domain.
    InvalidParameter,
    /// The persistent store failed; the message is passed through verbatim.
    Database(String),
    /// A wallet business rule was violated.
    Wallet(WalletError),
    /// A detected invariant breach, such as an account vanishing between
    /// enumeration and lookup.
    InternalError,
}

} // verus!
