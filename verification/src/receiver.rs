//! Receiver types bundled into unified addresses, and the fixed preference
//! order used for default selection.

use vstd::prelude::*;

verus! {

/// One supported address-encoding/pool variant.
///
/// The variants are listed in preference order: the best shielded pool
/// first, then the second-best shielded pool, then the transparent type.
#[derive(Clone, Copy, Debug, PartialEq, Eq, Structural)]
pub enum ReceiverType {
    /// The best shielded pool type.
    Orchard,
    /// The second-best shielded pool type.
    Sapling,
    /// The transparent (pay-to-public-key-hash) type.
    P2pkh,
}

/// The position of a receiver type in the fixed preference order
/// (lower is better).
pub open spec fn preference_rank(t: ReceiverType) -> int {
    match t {
        ReceiverType::Orchard => 0,
        ReceiverType::Sapling => 1,
        ReceiverType::P2pkh => 2,
    }
}

/// Which receiver types an account's key material can support.
#[derive(Clone, Copy, Debug, PartialEq, Eq, Structural)]
pub struct SupportedReceivers {
    /// The account can derive receivers for the best shielded pool.
    pub orchard: bool,
    /// The account can derive receivers for the second-best shielded pool.
    pub sapling: bool,
    /// The account can derive transparent receivers.
    pub p2pkh: bool,
}

impl SupportedReceivers {
    /// Whether `t` is among the receiver types this account supports.
    pub open spec fn spec_supports(self, t: ReceiverType) -> bool {
        match t {
            ReceiverType::Orchard => self.orchard,
            ReceiverType::Sapling => self.sapling,
            ReceiverType::P2pkh => self.p2pkh,
        }
    }

    /// Whether `t` is among the receiver types this account supports.
    pub fn supports(&self, t: ReceiverType) -> (r: bool)
        ensures
            r == self.spec_supports(t),
    {
        match t {
            ReceiverType::Orchard => self.orchard,
            ReceiverType::Sapling => self.sapling,
            ReceiverType::P2pkh => self.p2pkh,
        }
    }
}

/// Two receiver-type lists name the same set of receivers, regardless of
/// order and multiplicity.
pub open spec fn same_receiver_set(a: Seq<ReceiverType>, b: Seq<ReceiverType>) -> bool {
    forall|t: ReceiverType| a.contains(t) <==> b.contains(t)
}

/// Whether `v` lists `t`.
pub fn receivers_contain(v: &Vec<ReceiverType>, t: ReceiverType) -> (r: bool)
    ensures
        r == v@.contains(t),
{
    let mut i: usize = 0;
    while i < v.len()
        invariant
            0 <= i <= v@.len(),
            forall|k: int| 0 <= k < i ==> v@[k] != t,
        decreases v@.len() - i,
    {
        if v[i] == t {
            assert(v@.contains(t));
            return true;
        }
        i += 1;
    }
    return false;
}

/// Whether two receiver-type lists name the same set of receivers.
pub fn receiver_sets_equal(a: &Vec<ReceiverType>, b: &Vec<ReceiverType>) -> (r: bool)
    ensures
        r == same_receiver_set(a@, b@),
{
    let fwd = receivers_subset(a, b);
    let bwd = receivers_subset(b, a);
    fwd && bwd
}

/// Whether every receiver type listed in `a` is also listed in `b`.
fn receivers_subset(a: &Vec<ReceiverType>, b: &Vec<ReceiverType>) -> (r: bool)
    ensures
        r == forall|t: ReceiverType| a@.contains(t) ==> b@.contains(t),
{
    let mut i: usize = 0;
    while i < a.len()
        invariant
            0 <= i <= a@.len(),
            forall|k: int| 0 <= k < i ==> b@.contains(a@[k]),
        decreases a@.len() - i,
    {
        if !receivers_contain(b, a[i]) {
            return false;
        }
        i += 1;
    }
    assert(forall|t: ReceiverType| a@.contains(t) ==> b@.contains(t));
    return true;
}

/// Parses a receiver-type name as supplied in RPC requests.
///
/// Unrecognized names yield `None`; the boundary layer reports them as
/// malformed parameters.
pub fn parse_receiver_type(s: &str) -> (r: Option<ReceiverType>)
    ensures
        r == spec_parse_receiver_type(s@),
{
    let owned = s.to_owned();
    if owned == orchard_name() {
        Some(ReceiverType::Orchard)
    } else if owned == sapling_name() {
        Some(ReceiverType::Sapling)
    } else if owned == p2pkh_name() {
        Some(ReceiverType::P2pkh)
    } else {
        None
    }
}

/// The receiver type named by `s`, if any.
pub open spec fn spec_parse_receiver_type(s: Seq<char>) -> Option<ReceiverType> {
    if s == "orchard"@ {
        Some(ReceiverType::Orchard)
    } else if s == "sapling"@ {
        Some(ReceiverType::Sapling)
    } else if s == "p2pkh"@ {
        Some(ReceiverType::P2pkh)
    } else {
        None
    }
}

/// The RPC name of the best shielded receiver type.
fn orchard_name() -> (r: String)
    ensures
        r@ == "orchard"@,
{
    "orchard".to_owned()
}

/// The RPC name of the second-best shielded receiver type.
fn sapling_name() -> (r: String)
    ensures
        r@ == "sapling"@,
{
    "sapling".to_owned()
}

/// The RPC name of the transparent receiver type.
fn p2pkh_name() -> (r: String)
    ensures
        r@ == "p2pkh"@,
{
    "p2pkh".to_owned()
}

} // verus!
