use zallet::account::{AccountId, AccountRecord, AccountRef, SeedDerivation, SeedFingerprint};
use zallet::errors::{RpcError, WalletError};
use zallet::resolver::resolve_account;

fn seed_account(id: u128, seed: u8, index: u32) -> Option<AccountRecord> {
    Some(AccountRecord {
        id: AccountId { value: id },
        key_derivation: Some(SeedDerivation {
            seed_fingerprint: SeedFingerprint { bytes: [seed; 32] },
            account_index: index,
        }),
    })
}

fn imported_account(id: u128) -> Option<AccountRecord> {
    Some(AccountRecord { id: AccountId { value: id }, key_derivation: None })
}

#[test]
fn numeric_ambiguity_two_seeds() {
    let entries = vec![seed_account(1, 0xAA, 0), seed_account(2, 0xBB, 1)];
    for n in [0u64, 1, 5, 0x7FFF_FFFE] {
        let r = resolve_account(&entries, &AccountRef::Integer(n));
        assert_eq!(r, Err(RpcError::Wallet(WalletError::AmbiguousSeeds)));
    }
}

#[test]
fn numeric_uniqueness_single_seed() {
    let entries = vec![
        seed_account(10, 0xAA, 0),
        seed_account(11, 0xAA, 1),
        seed_account(15, 0xAA, 5),
    ];
    let miss = resolve_account(&entries, &AccountRef::Integer(3));
    assert_eq!(miss, Err(RpcError::Wallet(WalletError::AccountNotGenerated)));
    let hit = resolve_account(&entries, &AccountRef::Integer(5));
    assert_eq!(hit, Ok(AccountId { value: 15 }));
    let too_big = resolve_account(&entries, &AccountRef::Integer(0x7FFF_FFFF));
    assert_eq!(too_big, Err(RpcError::InvalidParameter));
}

#[test]
fn numeric_range_check_comes_first() {
    let entries = vec![seed_account(1, 0xAA, 0), seed_account(2, 0xBB, 0)];
    let r = resolve_account(&entries, &AccountRef::Integer(u64::MAX));
    assert_eq!(r, Err(RpcError::InvalidParameter));
}

#[test]
fn imported_accounts_are_ignored() {
    let entries = vec![imported_account(99), seed_account(10, 0xAA, 0), imported_account(98)];
    let hit = resolve_account(&entries, &AccountRef::Integer(0));
    assert_eq!(hit, Ok(AccountId { value: 10 }));
}

#[test]
fn wallet_without_seed_accounts_rejects_numbers() {
    let entries = vec![imported_account(99)];
    let r = resolve_account(&entries, &AccountRef::Integer(0));
    assert_eq!(r, Err(RpcError::Wallet(WalletError::AmbiguousSeeds)));
}

#[test]
fn vanished_account_is_a_detected_race() {
    let entries = vec![seed_account(10, 0xAA, 0), None];
    let r = resolve_account(&entries, &AccountRef::Integer(0));
    assert_eq!(r, Err(RpcError::InternalError));
}

#[test]
fn uuid_text_resolves_to_its_value() {
    let entries = vec![seed_account(10, 0xAA, 0)];
    let text = AccountRef::Text(String::from("550e8400-e29b-41d4-a716-446655440000"));
    let r = resolve_account(&entries, &text);
    assert_eq!(r, Ok(AccountId { value: 0x550e8400_e29b_41d4_a716_446655440000u128 }));
}

#[test]
fn malformed_text_is_invalid_params() {
    let entries = vec![seed_account(10, 0xAA, 0)];
    let text = AccountRef::Text(String::from("not-a-uuid"));
    let r = resolve_account(&entries, &text);
    assert_eq!(r, Err(RpcError::InvalidParams));
}

#[test]
fn other_shapes_are_invalid_params() {
    let entries = vec![seed_account(10, 0xAA, 0)];
    let r = resolve_account(&entries, &AccountRef::Other);
    assert_eq!(r, Err(RpcError::InvalidParams));
}

#[test]
fn last_matching_account_wins() {
    let entries = vec![seed_account(10, 0xAA, 4), seed_account(11, 0xAA, 4)];
    let r = resolve_account(&entries, &AccountRef::Integer(4));
    assert_eq!(r, Ok(AccountId { value: 11 }));
}
