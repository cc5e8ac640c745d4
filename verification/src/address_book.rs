//! Unified-address derivation: receiver-type defaulting, diversifier-index
//! allocation policy, and the idempotence/conflict rule over the per-account
//! book of previously derived addresses.
//!
//! The cryptographic derivation itself is a collaborator's capability: the
//! caller runs the returned plan, asks the key-derivation engine for the
//! address bytes when the plan calls for a fresh derivation, and records the
//! result back into the book.

use vstd::prelude::*;
use crate::account::AccountId;
use crate::diversifier::{DiversifierIndex, DIVERSIFIER_INDEX_MAX};
use crate::errors::{RpcError, WalletError};
use crate::receiver::{same_receiver_set, ReceiverType, SupportedReceivers};
use crate::receiver::{receiver_sets_equal, receivers_contain};

verus! {

/// The immutable result of one derivation: for a fixed account and
/// diversifier index, at most one receiver-type list may ever be recorded.
#[derive(Debug)]
pub struct UnifiedAddressRecord {
    /// The account the address belongs to.
    pub account: AccountId,
    /// The diversifier index the address was derived at.
    pub diversifier_index: DiversifierIndex,
    /// The receiver types bundled into the address.
    pub receiver_types: Vec<ReceiverType>,
    /// The encoded address.
    pub address: Vec<u8>,
}

/// The per-account book of previously derived unified addresses, with the
/// allocation watermark for transparent-inclusive indices.
#[derive(Debug)]
pub struct AddressBook {
    /// The account all records belong to.
    pub account: AccountId,
    /// Previously derived addresses, at most one per diversifier index.
    pub records: Vec<UnifiedAddressRecord>,
    /// The highest diversifier index so far allocated by the next-unused
    /// policy for a receiver-type combination including the transparent
    /// type; `None` when no such allocation was ever made.
    pub transparent_watermark: Option<u128>,
}

impl AddressBook {
    /// Well-formedness: records belong to this account, indices are
    /// distinct, and the watermark lies in the diversifier range.
    pub open spec fn wf(self) -> bool {
        (forall|i: int|
            0 <= i < self.records@.len() ==> (#[trigger] self.records@[i]).account
                == self.account) && (forall|i: int, j: int|
            (0 <= i < self.records@.len() && 0 <= j < self.records@.len() && i != j)
                ==> self.records@[i].diversifier_index.spec_value()
                != self.records@[j].diversifier_index.spec_value()) && match self
            .transparent_watermark {
            Some(w) => w <= DIVERSIFIER_INDEX_MAX,
            None => true,
        }
    }

    /// The next index the transparent-inclusive next-unused policy would
    /// allocate: one above the watermark, or the first index when nothing
    /// was ever allocated.
    pub open spec fn spec_next_unused(self) -> u128 {
        match self.transparent_watermark {
            Some(w) => (w + 1) as u128,
            None => 0,
        }
    }

    /// An empty book for `account`.
    pub fn new(account: AccountId) -> (r: AddressBook)
        ensures
            r.account == account,
            r.records@.len() == 0,
            r.transparent_watermark is None,
            r.wf(),
    {
        AddressBook { account, records: Vec::new(), transparent_watermark: None }
    }
}

/// The first record in `records` with diversifier index `di`, if any.
/// Under `AddressBook::wf` it is the only one.
pub open spec fn spec_find_record(
    records: Seq<UnifiedAddressRecord>,
    di: u128,
) -> Option<UnifiedAddressRecord>
    decreases records.len(),
{
    if records.len() == 0 {
        None
    } else if records[0].diversifier_index.spec_value() == di {
        Some(records[0])
    } else {
        spec_find_record(records.drop_first(), di)
    }
}

/// The effective receiver-type list for a request: an absent or empty
/// request falls back to the supported part of the default set, in
/// preference order; an explicit non-empty request is taken exactly as
/// given and must be fully supported.
pub open spec fn spec_effective_receivers(
    requested: Option<Seq<ReceiverType>>,
    supported: SupportedReceivers,
) -> Result<Seq<ReceiverType>, RpcError> {
    match requested {
        None => Ok(spec_default_receivers(supported)),
        Some(list) => if list.len() == 0 {
            Ok(spec_default_receivers(supported))
        } else if forall|k: int| 0 <= k < list.len() ==> supported.spec_supports(#[trigger] list[k]) {
            Ok(list)
        } else {
            Err(RpcError::Wallet(WalletError::ReceiverTypeUnsupported))
        },
    }
}

/// The default receiver set — best shielded, second-best shielded,
/// transparent — intersected with what the account supports, in
/// preference order.
pub open spec fn spec_default_receivers(supported: SupportedReceivers) -> Seq<ReceiverType> {
    let orchard: Seq<ReceiverType> = if supported.orchard {
        seq![ReceiverType::Orchard]
    } else {
        Seq::empty()
    };
    let sapling: Seq<ReceiverType> = if supported.sapling {
        seq![ReceiverType::Sapling]
    } else {
        Seq::empty()
    };
    let p2pkh: Seq<ReceiverType> = if supported.p2pkh {
        seq![ReceiverType::P2pkh]
    } else {
        Seq::empty()
    };
    orchard + sapling + p2pkh
}

/// The diversifier index a request uses, with whether it was produced by
/// the transparent-inclusive next-unused allocation policy (the only case
/// that moves the watermark).
pub open spec fn spec_selected_index(
    requested: Option<u128>,
    effective: Seq<ReceiverType>,
    book: AddressBook,
    now_secs: u64,
) -> Result<(u128, bool), RpcError> {
    match requested {
        Some(v) => if v > DIVERSIFIER_INDEX_MAX {
            Err(RpcError::InvalidParameter)
        } else {
            Ok((v, false))
        },
        None => if effective.contains(ReceiverType::P2pkh) {
            if book.spec_next_unused() > DIVERSIFIER_INDEX_MAX {
                Err(RpcError::Wallet(WalletError::DiversifierSpaceExhausted))
            } else {
                Ok((book.spec_next_unused(), true))
            }
        } else {
            Ok((now_secs as u128, false))
        },
    }
}

/// What step four of a derivation decides for the chosen index: reuse the
/// recorded address when the receiver sets agree, derive afresh when
/// nothing is recorded, and refuse to overwrite otherwise.
pub open spec fn spec_existing_outcome(
    records: Seq<UnifiedAddressRecord>,
    di: u128,
    effective: Seq<ReceiverType>,
) -> Result<Option<UnifiedAddressRecord>, RpcError> {
    match spec_find_record(records, di) {
        None => Ok(None),
        Some(rec) => if same_receiver_set(rec.receiver_types@, effective) {
            Ok(Some(rec))
        } else {
            Err(RpcError::Wallet(WalletError::AddressConflict))
        },
    }
}

/// A derivation plan: either the recorded address to return unchanged, or
/// the inputs of a fresh derivation for the caller to run through the
/// key-derivation engine and record.
#[derive(Debug)]
pub enum DerivationPlan {
    /// A record already exists at the chosen index with the same receiver
    /// set; return it unchanged.
    Cached(UnifiedAddressRecord),
    /// No record exists at the chosen index: derive afresh.
    Fresh {
        /// The diversifier index to derive at.
        diversifier_index: DiversifierIndex,
        /// The effective receiver-type list to derive with.
        receiver_types: Vec<ReceiverType>,
        /// Whether the index came from the transparent-inclusive
        /// next-unused allocation policy, which moves the watermark when
        /// the fresh record is stored.
        next_unused_allocation: bool,
    },
}

/// Plans one unified-address derivation: resolves the effective receiver
/// set, chooses or validates the diversifier index, and applies the
/// idempotence/conflict rule against the book. Read-only; the book is not
/// modified. `now_secs` is the caller's coarse clock reading, used only
/// for the time-based index of shielded-only requests.
pub fn plan_derivation(
    book: &AddressBook,
    supported: &SupportedReceivers,
    requested_receivers: &Option<Vec<ReceiverType>>,
    requested_index: &Option<u128>,
    now_secs: u64,
) -> (r: Result<DerivationPlan, RpcError>)
    requires
        book.wf(),
    ensures
        ({
            let req = match *requested_receivers {
                Some(v) => Some(v@),
                None => None,
            };
            match spec_effective_receivers(req, *supported) {
                Err(e) => r == Err::<DerivationPlan, RpcError>(e),
                Ok(eff) => match spec_selected_index(*requested_index, eff, *book, now_secs) {
                    Err(e) => r == Err::<DerivationPlan, RpcError>(e),
                    Ok((di, alloc)) => match spec_existing_outcome(book.records@, di, eff) {
                        Err(e) => r == Err::<DerivationPlan, RpcError>(e),
                        Ok(Some(rec)) => r matches Ok(DerivationPlan::Cached(c))
                        && c.account == rec.account && c.diversifier_index
                        == rec.diversifier_index && c.receiver_types@ == rec.receiver_types@
                        && c.address@ == rec.address@,
                        Ok(None) => r matches Ok(
                            DerivationPlan::Fresh { diversifier_index, receiver_types, next_unused_allocation },
                        ) && diversifier_index.spec_value() == di && receiver_types@ == eff
                            && next_unused_allocation == alloc,
                    },
                },
            }
        }),
{
    let effective = match resolve_receiver_types(requested_receivers, supported) {
        Ok(v) => v,
        Err(e) => { return Err(e) },
    };
    let (index, allocated) = match select_diversifier_index(
        requested_index,
        &effective,
        book,
        now_secs,
    ) {
        Ok(p) => p,
        Err(e) => { return Err(e) },
    };
    match find_record(book, index.value()) {
        Some(pos) => {
            if receiver_sets_equal(&book.records[pos].receiver_types, &effective) {
                let rec = copy_record(&book.records[pos]);
                Ok(DerivationPlan::Cached(rec))
            } else {
                Err(RpcError::Wallet(WalletError::AddressConflict))
            }
        },
        None => Ok(
            DerivationPlan::Fresh {
                diversifier_index: index,
                receiver_types: effective,
                next_unused_allocation: allocated,
            },
        ),
    }
}

/// Resolves the effective receiver-type list for a request: the supported
/// part of the default set when the request is absent or empty, exactly
/// the requested list otherwise, failing when the account lacks key
/// material for a requested type.
pub fn resolve_receiver_types(
    requested: &Option<Vec<ReceiverType>>,
    supported: &SupportedReceivers,
) -> (r: Result<Vec<ReceiverType>, RpcError>)
    ensures
        ({
            let req = match *requested {
                Some(v) => Some(v@),
                None => None,
            };
            match spec_effective_receivers(req, *supported) {
                Ok(eff) => r matches Ok(v) && v@ == eff,
                Err(e) => r == Err::<Vec<ReceiverType>, RpcError>(e),
            }
        }),
{
    match requested {
        None => Ok(default_receivers(supported)),
        Some(list) => {
            if list.len() == 0 {
                Ok(default_receivers(supported))
            } else if !receivers_all_supported(list, supported) {
                Err(RpcError::Wallet(WalletError::ReceiverTypeUnsupported))
            } else {
                Ok(copy_receivers(list))
            }
        },
    }
}

/// Whether the account supports every receiver type in `list`.
fn receivers_all_supported(list: &Vec<ReceiverType>, supported: &SupportedReceivers) -> (r: bool)
    ensures
        r == (forall|k: int| 0 <= k < list@.len() ==> supported.spec_supports(#[trigger] list@[k])),
{
    let mut i: usize = 0;
    while i < list.len()
        invariant
            0 <= i <= list@.len(),
            forall|k: int| 0 <= k < i ==> supported.spec_supports(#[trigger] list@[k]),
        decreases list@.len() - i,
    {
        if !supported.supports(list[i]) {
            assert(!supported.spec_supports(list@[i as int]));
            return false;
        }
        i += 1;
    }
    return true;
}

/// An element-for-element copy of a receiver-type list.
fn copy_receivers(list: &Vec<ReceiverType>) -> (r: Vec<ReceiverType>)
    ensures
        r@ == list@,
{
    let mut out: Vec<ReceiverType> = Vec::new();
    let mut j: usize = 0;
    while j < list.len()
        invariant
            0 <= j <= list@.len(),
            out@ == list@.take(j as int),
        decreases list@.len() - j,
    {
        out.push(list[j]);
        proof {
            assert(list@.take(j as int + 1) =~= list@.take(j as int).push(list@[j as int]));
        }
        j += 1;
    }
    proof {
        assert(list@.take(list@.len() as int) =~= list@);
    }
    out
}

/// Builds the supported part of the default receiver set, in preference
/// order.
fn default_receivers(supported: &SupportedReceivers) -> (r: Vec<ReceiverType>)
    ensures
        r@ == spec_default_receivers(*supported),
{
    let mut out: Vec<ReceiverType> = Vec::new();
    if supported.orchard {
        out.push(ReceiverType::Orchard);
    }
    if supported.sapling {
        out.push(ReceiverType::Sapling);
    }
    if supported.p2pkh {
        out.push(ReceiverType::P2pkh);
    }
    proof {
        assert(out@ =~= spec_default_receivers(*supported));
    }
    out
}

/// Chooses or validates the diversifier index for a request, per the
/// allocation policy: an explicit index is validated against the 88-bit
/// range and owned by the caller; otherwise a transparent-inclusive set
/// takes the next unused index, and a shielded-only set takes a
/// time-based one.
pub fn select_diversifier_index(
    requested: &Option<u128>,
    effective: &Vec<ReceiverType>,
    book: &AddressBook,
    now_secs: u64,
) -> (r: Result<(DiversifierIndex, bool), RpcError>)
    requires
        book.wf(),
    ensures
        ({
            match spec_selected_index(*requested, effective@, *book, now_secs) {
                Ok((di, alloc)) => r matches Ok((d, a)) && d.spec_value() == di && a == alloc,
                Err(e) => r == Err::<(DiversifierIndex, bool), RpcError>(e),
            }
        }),
{
    match requested {
        Some(v) => match DiversifierIndex::from_u128(*v) {
            Ok(d) => Ok((d, false)),
            Err(e) => Err(e),
        },
        None => {
            if receivers_contain(effective, ReceiverType::P2pkh) {
                let next: u128 = match book.transparent_watermark {
                    Some(w) => w + 1,
                    None => 0,
                };
                match DiversifierIndex::from_u128(next) {
                    Ok(d) => Ok((d, true)),
                    Err(_) => Err(RpcError::Wallet(WalletError::DiversifierSpaceExhausted)),
                }
            } else {
                let reduced: u128 = now_secs as u128;
                match DiversifierIndex::from_u128(reduced) {
                    Ok(d) => Ok((d, false)),
                    Err(_) => Err(RpcError::InternalError),
                }
            }
        },
    }
}

/// The position of the record at diversifier index `di`, if any.
fn find_record(book: &AddressBook, di: u128) -> (r: Option<usize>)
    ensures
        match r {
            Some(pos) => 0 <= pos < book.records@.len() && spec_find_record(book.records@, di)
                == Some(book.records@[pos as int]),
            None => spec_find_record(book.records@, di) is None,
        },
{
    let ghost grecords = book.records@;
    let mut i: usize = 0;
    while i < book.records.len()
        invariant
            0 <= i <= grecords.len(),
            book.records@ == grecords,
            forall|k: int| 0 <= k < i ==> grecords[k].diversifier_index.spec_value() != di,
        decreases grecords.len() - i,
    {
        if book.records[i].diversifier_index.value() == di {
            proof {
                lemma_find_record_at(grecords, di, i as int);
            }
            return Some(i);
        }
        i += 1;
    }
    proof {
        lemma_find_record_none(grecords, di);
    }
    return None;
}

/// When the first `pos` records miss `di` and the record at `pos` hits
/// it, the search finds that record.
proof fn lemma_find_record_at(records: Seq<UnifiedAddressRecord>, di: u128, pos: int)
    requires
        0 <= pos < records.len(),
        forall|k: int| 0 <= k < pos ==> records[k].diversifier_index.spec_value() != di,
        records[pos].diversifier_index.spec_value() == di,
    ensures
        spec_find_record(records, di) == Some(records[pos]),
    decreases records.len(),
{
    if pos == 0 {
    } else {
        assert(records.drop_first()[pos - 1] == records[pos]);
        assert forall|k: int|
            0 <= k < pos - 1 implies records.drop_first()[k].diversifier_index.spec_value()
            != di by {
            assert(records.drop_first()[k] == records[k + 1]);
        }
        lemma_find_record_at(records.drop_first(), di, pos - 1);
    }
}

/// When no record carries `di`, the search finds nothing.
proof fn lemma_find_record_none(records: Seq<UnifiedAddressRecord>, di: u128)
    requires
        forall|k: int| 0 <= k < records.len() ==> records[k].diversifier_index.spec_value() != di,
    ensures
        spec_find_record(records, di) is None,
    decreases records.len(),
{
    if records.len() == 0 {
    } else {
        assert forall|k: int|
            0 <= k < records.drop_first().len() implies records.drop_first()[k].diversifier_index.spec_value()
            != di by {
            assert(records.drop_first()[k] == records[k + 1]);
        }
        lemma_find_record_none(records.drop_first(), di);
    }
}

/// A field-for-field copy of a record.
fn copy_record(rec: &UnifiedAddressRecord) -> (r: UnifiedAddressRecord)
    ensures
        r.account == rec.account,
        r.diversifier_index == rec.diversifier_index,
        r.receiver_types@ == rec.receiver_types@,
        r.address@ == rec.address@,
{
    let mut receiver_types: Vec<ReceiverType> = Vec::new();
    let mut i: usize = 0;
    while i < rec.receiver_types.len()
        invariant
            0 <= i <= rec.receiver_types@.len(),
            receiver_types@ == rec.receiver_types@.take(i as int),
        decreases rec.receiver_types@.len() - i,
    {
        receiver_types.push(rec.receiver_types[i]);
        proof {
            assert(rec.receiver_types@.take(i as int + 1) =~= rec.receiver_types@.take(
                i as int,
            ).push(rec.receiver_types@[i as int]));
        }
        i += 1;
    }
    let mut address: Vec<u8> = Vec::new();
    let mut j: usize = 0;
    while j < rec.address.len()
        invariant
            0 <= j <= rec.address@.len(),
            address@ == rec.address@.take(j as int),
        decreases rec.address@.len() - j,
    {
        address.push(rec.address[j]);
        proof {
            assert(rec.address@.take(j as int + 1) =~= rec.address@.take(j as int).push(
                rec.address@[j as int],
            ));
        }
        j += 1;
    }
    proof {
        assert(rec.receiver_types@.take(rec.receiver_types@.len() as int) =~= rec.receiver_types@);
        assert(rec.address@.take(rec.address@.len() as int) =~= rec.address@);
    }
    UnifiedAddressRecord {
        account: rec.account,
        diversifier_index: rec.diversifier_index,
        receiver_types,
        address,
    }
}

/// Stores the result of a fresh derivation in the book and moves the
/// watermark when the index came from the next-unused allocation policy.
/// The caller derived `address` through the key-derivation engine for
/// exactly this account, index and receiver list.
pub fn record_fresh_derivation(
    book: &mut AddressBook,
    diversifier_index: DiversifierIndex,
    receiver_types: Vec<ReceiverType>,
    address: Vec<u8>,
    next_unused_allocation: bool,
)
    requires
        old(book).wf(),
        diversifier_index.wf(),
        spec_find_record(old(book).records@, diversifier_index.spec_value()) is None,
        next_unused_allocation ==> receiver_types@.contains(ReceiverType::P2pkh)
            && diversifier_index.spec_value() == old(book).spec_next_unused(),
    ensures
        final(book).wf(),
        final(book).account == old(book).account,
        final(book).records@ == old(book).records@.push(
            UnifiedAddressRecord {
                account: old(book).account,
                diversifier_index,
                receiver_types,
                address,
            },
        ),
        final(book).transparent_watermark == if next_unused_allocation {
            Some(diversifier_index.spec_value())
        } else {
            old(book).transparent_watermark
        },
{
    let ghost gold = *book;
    let account = book.account;
    let rec = UnifiedAddressRecord { account, diversifier_index, receiver_types, address };
    book.records.push(rec);
    if next_unused_allocation {
        book.transparent_watermark = Some(diversifier_index.value());
    }
    proof {
        lemma_find_record_none_no_match(gold.records@, diversifier_index.spec_value());
        assert forall|i: int, j: int|
            (0 <= i < book.records@.len() && 0 <= j < book.records@.len() && i != j)
                implies book.records@[i].diversifier_index.spec_value()
            != book.records@[j].diversifier_index.spec_value() by {
            if i < gold.records@.len() && j < gold.records@.len() {
            } else if i == gold.records@.len() as int {
                assert(book.records@[j] == gold.records@[j]);
            } else {
                assert(book.records@[i] == gold.records@[i]);
            }
        }
    }
}

/// When the search finds nothing at `di`, no record carries `di`.
proof fn lemma_find_record_none_no_match(records: Seq<UnifiedAddressRecord>, di: u128)
    requires
        spec_find_record(records, di) is None,
    ensures
        forall|k: int| 0 <= k < records.len() ==> records[k].diversifier_index.spec_value() != di,
    decreases records.len(),
{
    if records.len() == 0 {
    } else {
        lemma_find_record_none_no_match(records.drop_first(), di);
        assert forall|k: int|
            0 <= k < records.len() implies records[k].diversifier_index.spec_value() != di by {
            if k > 0 {
                assert(records.drop_first()[k - 1] == records[k]);
            }
        }
    }
}

/// Law: once a record is stored at an index, a later derivation at that
/// index with a set-equal receiver list finds exactly that record, so
/// re-deriving returns the recorded address bit for bit; and one with a
/// different receiver set is refused as a conflict, leaving every record
/// unchanged.
pub proof fn lemma_address_idempotence(
    records: Seq<UnifiedAddressRecord>,
    rec: UnifiedAddressRecord,
    effective: Seq<ReceiverType>,
)
    requires
        spec_find_record(records, rec.diversifier_index.spec_value()) is None,
    ensures
        same_receiver_set(effective, rec.receiver_types@) ==> spec_existing_outcome(
            records.push(rec),
            rec.diversifier_index.spec_value(),
            effective,
        ) == Ok::<Option<UnifiedAddressRecord>, RpcError>(Some(rec)),
        !same_receiver_set(effective, rec.receiver_types@) ==> spec_existing_outcome(
            records.push(rec),
            rec.diversifier_index.spec_value(),
            effective,
        ) == Err::<Option<UnifiedAddressRecord>, RpcError>(
            RpcError::Wallet(WalletError::AddressConflict),
        ),
{
    lemma_find_after_push(records, rec);
    assert(same_receiver_set(effective, rec.receiver_types@) == same_receiver_set(
        rec.receiver_types@,
        effective,
    ));
}

/// Pushing a record at a previously unrecorded index makes it the record
/// the search finds at that index, and leaves every other index's search
/// result unchanged.
pub proof fn lemma_find_after_push(records: Seq<UnifiedAddressRecord>, rec: UnifiedAddressRecord)
    requires
        spec_find_record(records, rec.diversifier_index.spec_value()) is None,
    ensures
        spec_find_record(records.push(rec), rec.diversifier_index.spec_value()) == Some(rec),
        forall|di: u128|
            di != rec.diversifier_index.spec_value() ==> spec_find_record(records.push(rec), di)
                == spec_find_record(records, di),
    decreases records.len(),
{
    if records.len() == 0 {
        assert(records.push(rec)[0] == rec);
        assert(records.push(rec).drop_first() =~= Seq::empty());
        assert forall|di: u128| di != rec.diversifier_index.spec_value() implies spec_find_record(
            records.push(rec),
            di,
        ) == spec_find_record(records, di) by {
            assert(spec_find_record(records.push(rec).drop_first(), di) is None);
        }
    } else {
        lemma_find_after_push(records.drop_first(), rec);
        assert(records.push(rec)[0] == records[0]);
        assert(records.push(rec).drop_first() =~= records.drop_first().push(rec));
        assert forall|di: u128| di != rec.diversifier_index.spec_value() implies spec_find_record(
            records.push(rec),
            di,
        ) == spec_find_record(records, di) by {
            assert(spec_find_record(records.drop_first().push(rec), di) == spec_find_record(
                records.drop_first(),
                di,
            ));
        }
    }
}

/// Law: with no receiver list requested, an account supporting the
/// transparent type and both shielded types gets exactly the default
/// set — best shielded, second-best shielded, transparent — in preference
/// order, and, with no index requested, the next unused
/// transparent-inclusive index.
pub proof fn lemma_default_receiver_selection(book: AddressBook, now_secs: u64)
    requires
        book.wf(),
        book.spec_next_unused() <= DIVERSIFIER_INDEX_MAX,
    ensures
        ({
            let supported = SupportedReceivers { orchard: true, sapling: true, p2pkh: true };
            let eff = seq![ReceiverType::Orchard, ReceiverType::Sapling, ReceiverType::P2pkh];
            spec_effective_receivers(None, supported) == Ok::<Seq<ReceiverType>, RpcError>(eff)
                && spec_selected_index(None, eff, book, now_secs) == Ok::<(u128, bool), RpcError>(
                (book.spec_next_unused(), true),
            )
        }),
{
    let supported = SupportedReceivers { orchard: true, sapling: true, p2pkh: true };
    let eff = seq![ReceiverType::Orchard, ReceiverType::Sapling, ReceiverType::P2pkh];
    assert(spec_default_receivers(supported) =~= eff);
    assert(eff[2] == ReceiverType::P2pkh);
    assert(eff.contains(ReceiverType::P2pkh));
}

} // verus!
