//! Diversifier indices: per-account integers selecting one of many valid
//! addresses derivable from the same key material, constrained to an
//! 88-bit range.

use vstd::prelude::*;
use crate::errors::RpcError;

verus! {

/// The largest valid diversifier index: the 88-bit range is inclusive of
/// this value.
pub const DIVERSIFIER_INDEX_MAX: u128 = 0xFF_FFFF_FFFF_FFFF_FFFF_FFFF;

/// A validated diversifier index, guaranteed to lie within the 88-bit
/// range.
#[derive(Clone, Copy, Debug, PartialEq, Eq, Structural)]
pub struct DiversifierIndex {
    value: u128,
}

impl DiversifierIndex {
    /// The numeric value of this index.
    pub closed spec fn spec_value(self) -> u128 {
        self.value
    }

    /// Every constructed index lies within the 88-bit range.
    pub open spec fn wf(self) -> bool {
        self.spec_value() <= DIVERSIFIER_INDEX_MAX
    }

    /// Validates an externally supplied diversifier index.
    ///
    /// Values with any bit set above bit 87 are out of domain and are
    /// rejected before use.
    pub fn from_u128(v: u128) -> (r: Result<DiversifierIndex, RpcError>)
        ensures
            v <= DIVERSIFIER_INDEX_MAX ==> (r matches Ok(d) && d.spec_value() == v && d.wf()),
            v > DIVERSIFIER_INDEX_MAX ==> r == Err::<DiversifierIndex, RpcError>(
                RpcError::InvalidParameter,
            ),
    {
        if v <= DIVERSIFIER_INDEX_MAX {
            Ok(DiversifierIndex { value: v })
        } else {
            Err(RpcError::InvalidParameter)
        }
    }

    /// The numeric value of this index.
    pub fn value(&self) -> (r: u128)
        ensures
            r == self.spec_value(),
    {
        self.value
    }
}

} // verus!
