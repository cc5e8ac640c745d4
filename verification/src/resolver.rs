//! Resolution of caller-supplied account references to canonical account
//! identifiers.
//!
//! A numeric reference is only meaningful when the wallet manages exactly
//! one seed; it names the seed-derived account at that derivation index.
//! A textual reference is parsed as the identifier's UUID form. The
//! resolver works on a snapshot of the store's accounts, taken by the
//! caller: each listed account comes with its record, or with `None` when
//! the account vanished between enumeration and lookup (a detected race).

use vstd::prelude::*;
use crate::account::{AccountId, AccountRecord, AccountRef};
use crate::errors::{RpcError, WalletError};

verus! {

/// The largest account index the legacy numeric scheme admits.
pub const LEGACY_ACCOUNT_INDEX_MAX: u64 = 0x7FFF_FFFE;

/// Whether this snapshot entry is a seed-derived account.
pub open spec fn is_seed_entry(e: Option<AccountRecord>) -> bool {
    match e {
        Some(r) => r.key_derivation is Some,
        None => false,
    }
}

/// The seed fingerprint of a seed-derived snapshot entry.
pub open spec fn entry_fingerprint(e: Option<AccountRecord>) -> Seq<u8> {
    match e {
        Some(r) => match r.key_derivation {
            Some(d) => d.seed_fingerprint@,
            None => Seq::empty(),
        },
        None => Seq::empty(),
    }
}

/// The derivation index of a seed-derived snapshot entry.
pub open spec fn entry_index(e: Option<AccountRecord>) -> u64 {
    match e {
        Some(r) => match r.key_derivation {
            Some(d) => d.account_index as u64,
            None => 0,
        },
        None => 0,
    }
}

/// The account identifier of a present snapshot entry.
pub open spec fn entry_id(e: Option<AccountRecord>) -> AccountId {
    match e {
        Some(r) => r.id,
        None => AccountId { value: 0 },
    }
}

/// Whether some enumerated account was no longer fetchable when it was
/// looked up: the detected race with concurrent account deletion.
pub open spec fn has_vanished(entries: Seq<Option<AccountRecord>>) -> bool {
    exists|i: int| 0 <= i < entries.len() && entries[i] is None
}

/// Whether the snapshot's seed-derived accounts descend from exactly one
/// distinct seed: at least one seed-derived account exists, and all of
/// them share one fingerprint.
pub open spec fn single_seed(entries: Seq<Option<AccountRecord>>) -> bool {
    (exists|i: int| 0 <= i < entries.len() && is_seed_entry(entries[i])) && (forall|i: int, j: int|
        (0 <= i < entries.len() && 0 <= j < entries.len() && is_seed_entry(entries[i])
            && is_seed_entry(entries[j])) ==> entry_fingerprint(entries[i]) == entry_fingerprint(
            entries[j],
        ))
}

/// The identifier of the last seed-derived account in the snapshot whose
/// derivation index equals `n`, if any. The scan keeps the last match, so
/// the last one is what resolution returns.
pub open spec fn last_index_match(entries: Seq<Option<AccountRecord>>, n: u64) -> Option<
    AccountId,
>
    decreases entries.len(),
{
    if entries.len() == 0 {
        None
    } else {
        let e = entries.last();
        if is_seed_entry(e) && entry_index(e) == n {
            Some(entry_id(e))
        } else {
            last_index_match(entries.drop_last(), n)
        }
    }
}

/// The 128-bit value a textual account reference denotes, when the text
/// is a well-formed UUID.
pub uninterp spec fn parsed_account_uuid(s: Seq<char>) -> Option<u128>;

/// Relies on `uuid::Uuid::parse_str`: whether a string is a well-formed
/// textual UUID, and which 128-bit value it denotes (read back with
/// `uuid::Uuid::as_u128`), depend on the characters alone.
#[verifier::external_body]
fn parse_uuid_text(s: &str) -> (r: Option<u128>)
    ensures
        r == parsed_account_uuid(s@),
{
    match uuid::Uuid::parse_str(s) {
        Ok(u) => Some(u.as_u128()),
        Err(_) => None,
    }
}

/// What resolution returns for a snapshot and an account reference.
pub open spec fn spec_resolve_account(
    entries: Seq<Option<AccountRecord>>,
    account: AccountRef,
) -> Result<AccountId, RpcError> {
    match account {
        AccountRef::Integer(n) => if n > LEGACY_ACCOUNT_INDEX_MAX {
            Err(RpcError::InvalidParameter)
        } else if has_vanished(entries) {
            Err(RpcError::InternalError)
        } else if single_seed(entries) {
            match last_index_match(entries, n) {
                Some(id) => Ok(id),
                None => Err(RpcError::Wallet(WalletError::AccountNotGenerated)),
            }
        } else {
            Err(RpcError::Wallet(WalletError::AmbiguousSeeds))
        },
        AccountRef::Text(s) => match parsed_account_uuid(s@) {
            Some(u) => Ok(AccountId { value: u }),
            None => Err(RpcError::InvalidParams),
        },
        AccountRef::Other => Err(RpcError::InvalidParams),
    }
}

/// Maps a caller-supplied account reference to a canonical account
/// identifier against a snapshot of the store's accounts.
///
/// A numeric reference must lie in the legacy range and names the
/// seed-derived account at that index, and only when the wallet manages
/// exactly one seed. A vanished snapshot entry is the detected
/// enumeration/lookup race. A textual reference is parsed as a UUID.
/// Read-only: the snapshot is not modified.
pub fn resolve_account(
    entries: &Vec<Option<AccountRecord>>,
    account: &AccountRef,
) -> (r: Result<AccountId, RpcError>)
    ensures
        r == spec_resolve_account(entries@, *account),
{
    match account {
        AccountRef::Integer(n) => resolve_numeric(entries, *n),
        AccountRef::Text(s) => match parse_uuid_text(s.as_str()) {
            Some(u) => Ok(AccountId { value: u }),
            None => Err(RpcError::InvalidParams),
        },
        AccountRef::Other => Err(RpcError::InvalidParams),
    }
}

/// Resolves a legacy numeric account reference by scanning the snapshot.
fn resolve_numeric(entries: &Vec<Option<AccountRecord>>, n: u64) -> (r: Result<
    AccountId,
    RpcError,
>)
    ensures
        r == spec_resolve_account(entries@, AccountRef::Integer(n)),
{
    if n > LEGACY_ACCOUNT_INDEX_MAX {
        return Err(RpcError::InvalidParameter);
    }
    let ghost gentries = entries@;
    let mut i: usize = 0;
    let mut first_fp: Option<crate::account::SeedFingerprint> = None;
    let mut uniform: bool = true;
    let mut found: Option<AccountId> = None;
    while i < entries.len()
        invariant
            0 <= i <= gentries.len(),
            entries@ == gentries,
            n <= LEGACY_ACCOUNT_INDEX_MAX,
            forall|k: int| 0 <= k < i ==> gentries[k] is Some,
            first_fp is None ==> (forall|k: int| 0 <= k < i ==> !is_seed_entry(gentries[k]))
                && uniform,
            first_fp matches Some(fp) ==> exists|k: int|
                0 <= k < i && is_seed_entry(gentries[k]) && entry_fingerprint(gentries[k]) == fp@,
            first_fp matches Some(fp) ==> (uniform <==> (forall|k: int|
                (0 <= k < i && is_seed_entry(gentries[k])) ==> entry_fingerprint(gentries[k])
                    == fp@)),
            found == last_index_match(gentries.take(i as int), n),
        decreases gentries.len() - i,
    {
        proof {
            assert(gentries.take(i as int + 1).drop_last() =~= gentries.take(i as int));
            assert(gentries.take(i as int + 1).last() == gentries[i as int]);
        }
        let e = entries[i];
        match e {
            None => {
                assert(has_vanished(gentries));
                return Err(RpcError::InternalError);
            },
            Some(rec) => {
                match rec.key_derivation {
                    None => {},
                    Some(d) => {
                        match &first_fp {
                            None => { first_fp = Some(d.seed_fingerprint) },
                            Some(fp) => {
                                if !fp.same_as(&d.seed_fingerprint) {
                                    uniform = false;
                                }
                            },
                        }
                        if d.account_index as u64 == n {
                            found = Some(rec.id);
                        }
                    },
                }
            },
        }
        i += 1;
    }
    proof {
        assert(gentries.take(gentries.len() as int) =~= gentries);
        assert(!has_vanished(gentries));
    }
    if first_fp.is_some() && uniform {
        assert(single_seed(gentries));
        match found {
            Some(id) => Ok(id),
            None => Err(RpcError::Wallet(WalletError::AccountNotGenerated)),
        }
    } else {
        assert(!single_seed(gentries));
        Err(RpcError::Wallet(WalletError::AmbiguousSeeds))
    }
}

/// Law: in a wallet whose seed-derived accounts descend from two distinct
/// seeds, every in-range numeric account resolution fails with a
/// wallet-rule error, regardless of the index value.
pub proof fn lemma_numeric_ambiguity(
    entries: Seq<Option<AccountRecord>>,
    n: u64,
    i: int,
    j: int,
)
    requires
        n <= LEGACY_ACCOUNT_INDEX_MAX,
        !has_vanished(entries),
        0 <= i < entries.len(),
        0 <= j < entries.len(),
        is_seed_entry(entries[i]),
        is_seed_entry(entries[j]),
        entry_fingerprint(entries[i]) != entry_fingerprint(entries[j]),
    ensures
        spec_resolve_account(entries, AccountRef::Integer(n)) == Err::<AccountId, RpcError>(
            RpcError::Wallet(WalletError::AmbiguousSeeds),
        ),
{
    assert(!single_seed(entries));
}

/// Law: in a single-seed wallet, an in-range numeric reference resolves
/// to an account identifier exactly when a seed-derived account exists at
/// that index, and fails with a wallet-rule error otherwise.
pub proof fn lemma_numeric_uniqueness(entries: Seq<Option<AccountRecord>>, n: u64)
    requires
        n <= LEGACY_ACCOUNT_INDEX_MAX,
        !has_vanished(entries),
        single_seed(entries),
    ensures
        (exists|i: int|
            0 <= i < entries.len() && is_seed_entry(entries[i]) && entry_index(entries[i]) == n)
            ==> (spec_resolve_account(entries, AccountRef::Integer(n)) matches Ok(id)
            && exists|i: int|
            0 <= i < entries.len() && is_seed_entry(entries[i]) && entry_index(entries[i]) == n
                && entry_id(entries[i]) == id),
        (forall|i: int|
            (0 <= i < entries.len() && is_seed_entry(entries[i])) ==> entry_index(entries[i])
                != n) ==> spec_resolve_account(entries, AccountRef::Integer(n)) == Err::<
            AccountId,
            RpcError,
        >(RpcError::Wallet(WalletError::AccountNotGenerated)),
{
    lemma_last_index_match_characterized(entries, n);
}

/// `last_index_match` finds an identifier exactly when some seed-derived
/// entry has derivation index `n`, and the identifier is such an entry's.
pub proof fn lemma_last_index_match_characterized(entries: Seq<Option<AccountRecord>>, n: u64)
    ensures
        (last_index_match(entries, n) is Some) <==> exists|i: int|
            0 <= i < entries.len() && is_seed_entry(entries[i]) && entry_index(entries[i]) == n,
        last_index_match(entries, n) matches Some(id) ==> exists|i: int|
            0 <= i < entries.len() && is_seed_entry(entries[i]) && entry_index(entries[i]) == n
                && entry_id(entries[i]) == id,
    decreases entries.len(),
{
    if entries.len() == 0 {
    } else {
        let e = entries.last();
        if is_seed_entry(e) && entry_index(e) == n {
            assert(entries[entries.len() - 1] == e);
        } else {
            lemma_last_index_match_characterized(entries.drop_last(), n);
            assert forall|i: int|
                0 <= i < entries.len() && is_seed_entry(entries[i]) && entry_index(entries[i])
                    == n implies 0 <= i < entries.drop_last().len() && is_seed_entry(
                entries.drop_last()[i],
            ) && entry_index(entries.drop_last()[i]) == n by {
                assert(i != entries.len() - 1);
                assert(entries.drop_last()[i] == entries[i]);
            }
            assert forall|i: int|
                0 <= i < entries.drop_last().len() && is_seed_entry(entries.drop_last()[i])
                    && entry_index(entries.drop_last()[i]) == n implies 0 <= i < entries.len()
                && is_seed_entry(entries[i]) && entry_index(entries[i]) == n by {
                assert(entries.drop_last()[i] == entries[i]);
            }
        }
    }
}

} // verus!
