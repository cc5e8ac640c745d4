//! The account data model: opaque identifiers, seed-derivation metadata,
//! and the closed shape of a caller-supplied account reference.

use vstd::prelude::*;

verus! {

/// Opaque, globally unique identifier for an account (128-bit value
/// space). Assigned once at account creation and never reused.
#[derive(Clone, Copy, Debug, PartialEq, Eq, Structural)]
pub struct AccountId {
    /// The identifier's 128-bit value.
    pub value: u128,
}

/// Fingerprint of a managed key seed.
#[derive(Clone, Copy, Debug)]
pub struct SeedFingerprint {
    /// The fingerprint bytes.
    pub bytes: [u8; 32],
}

impl View for SeedFingerprint {
    type V = Seq<u8>;

    open spec fn view(&self) -> Seq<u8> {
        self.bytes@
    }
}

impl SeedFingerprint {
    /// Whether two fingerprints hold the same bytes.
    pub fn same_as(&self, other: &SeedFingerprint) -> (r: bool)
        ensures
            r == (self@ == other@),
    {
        let mut i: usize = 0;
        while i < 32
            invariant
                0 <= i <= 32,
                forall|k: int| 0 <= k < i ==> self.bytes@[k] == other.bytes@[k],
            decreases 32 - i,
        {
            if self.bytes[i] != other.bytes[i] {
                assert(self@ != other@);
                return false;
            }
            i += 1;
        }
        assert(self@ =~= other@);
        return true;
    }
}

/// How an account's key material descends from a managed seed: the seed's
/// fingerprint and the account's position under it.
#[derive(Clone, Copy, Debug)]
pub struct SeedDerivation {
    /// Fingerprint of the seed the account descends from.
    pub seed_fingerprint: SeedFingerprint,
    /// The account's index in the derivation path under that seed.
    pub account_index: u32,
}

/// One persisted account: its identifier, and its seed derivation when the
/// account descends from a managed seed (absent for imported key
/// material).
#[derive(Clone, Copy, Debug)]
pub struct AccountRecord {
    /// The account's opaque identifier.
    pub id: AccountId,
    /// Present only for accounts derived from a managed seed.
    pub key_derivation: Option<SeedDerivation>,
}

/// A caller-supplied account reference, decided once at the RPC boundary:
/// a legacy numeric index, the textual form of an opaque identifier, or a
/// value of any other shape.
#[derive(Clone, Debug)]
pub enum AccountRef {
    /// A non-negative integer, as the legacy numeric account scheme used.
    Integer(u64),
    /// A string, expected to hold an account identifier in UUID form.
    Text(String),
    /// Any other parameter shape; always malformed.
    Other,
}

} // verus!
