use zallet::account::AccountId;
use zallet::address_book::{
    plan_derivation, record_fresh_derivation, resolve_receiver_types, select_diversifier_index,
    AddressBook, DerivationPlan,
};
use zallet::diversifier::{DiversifierIndex, DIVERSIFIER_INDEX_MAX};
use zallet::errors::{RpcError, WalletError};
use zallet::receiver::{parse_receiver_type, ReceiverType, SupportedReceivers};

fn all_supported() -> SupportedReceivers {
    SupportedReceivers { orchard: true, sapling: true, p2pkh: true }
}

#[test]
fn diversifier_bound_is_exact() {
    let max: u128 = (1u128 << 88) - 1;
    assert_eq!(max, DIVERSIFIER_INDEX_MAX);
    let over = DiversifierIndex::from_u128(1u128 << 88);
    assert_eq!(over, Err(RpcError::InvalidParameter));
    let at_max = DiversifierIndex::from_u128(max).unwrap();
    assert_eq!(at_max.value(), max);
}

#[test]
fn default_receivers_and_next_unused_index() {
    let book = AddressBook::new(AccountId { value: 7 });
    let plan = plan_derivation(&book, &all_supported(), &None, &None, 1_000).unwrap();
    match plan {
        DerivationPlan::Fresh { diversifier_index, receiver_types, next_unused_allocation } => {
            assert_eq!(diversifier_index.value(), 0);
            assert!(next_unused_allocation);
            assert_eq!(
                receiver_types,
                vec![ReceiverType::Orchard, ReceiverType::Sapling, ReceiverType::P2pkh]
            );
        }
        DerivationPlan::Cached(_) => panic!("empty book cannot have a cached address"),
    }
}

#[test]
fn watermark_advances_only_on_fresh_next_unused_allocations() {
    let mut book = AddressBook::new(AccountId { value: 7 });
    let idx0 = DiversifierIndex::from_u128(0).unwrap();
    record_fresh_derivation(
        &mut book,
        idx0,
        vec![ReceiverType::Orchard, ReceiverType::Sapling, ReceiverType::P2pkh],
        vec![0xAB, 0xCD],
        true,
    );
    assert_eq!(book.transparent_watermark, Some(0));
    let plan = plan_derivation(&book, &all_supported(), &None, &None, 1_000).unwrap();
    match plan {
        DerivationPlan::Fresh { diversifier_index, next_unused_allocation, .. } => {
            assert_eq!(diversifier_index.value(), 1);
            assert!(next_unused_allocation);
        }
        DerivationPlan::Cached(_) => panic!("index 1 has no record yet"),
    }
    // An explicit-index derivation is owned by the caller and moves no watermark.
    let idx9 = DiversifierIndex::from_u128(9).unwrap();
    record_fresh_derivation(&mut book, idx9, vec![ReceiverType::P2pkh], vec![0x01], false);
    assert_eq!(book.transparent_watermark, Some(0));
}

#[test]
fn address_idempotence_and_conflict() {
    let mut book = AddressBook::new(AccountId { value: 3 });
    let requested = Some(vec![ReceiverType::P2pkh, ReceiverType::Orchard]);
    let plan = plan_derivation(&book, &all_supported(), &requested, &Some(7), 0).unwrap();
    let (idx, receivers, alloc) = match plan {
        DerivationPlan::Fresh { diversifier_index, receiver_types, next_unused_allocation } => {
            (diversifier_index, receiver_types, next_unused_allocation)
        }
        DerivationPlan::Cached(_) => panic!("nothing recorded at index 7 yet"),
    };
    assert_eq!(idx.value(), 7);
    assert!(!alloc);
    let address = vec![0xDE, 0xAD, 0xBE, 0xEF];
    record_fresh_derivation(&mut book, idx, receivers, address.clone(), alloc);

    // Re-deriving with the same receiver set (any order) returns the record
    // bit for bit, twice.
    for _ in 0..2 {
        let again = plan_derivation(&book, &all_supported(), &requested, &Some(7), 0).unwrap();
        match again {
            DerivationPlan::Cached(rec) => {
                assert_eq!(rec.address, address);
                assert_eq!(rec.diversifier_index.value(), 7);
            }
            DerivationPlan::Fresh { .. } => panic!("the record at index 7 must be reused"),
        }
    }
    let reordered = Some(vec![ReceiverType::Orchard, ReceiverType::P2pkh]);
    match plan_derivation(&book, &all_supported(), &reordered, &Some(7), 0).unwrap() {
        DerivationPlan::Cached(rec) => assert_eq!(rec.address, address),
        DerivationPlan::Fresh { .. } => panic!("receiver order must not matter"),
    }

    // A different receiver set at the same index is a conflict, and the
    // recorded address stays unchanged.
    let different = Some(vec![ReceiverType::Orchard]);
    let conflict = plan_derivation(&book, &all_supported(), &different, &Some(7), 0);
    match conflict {
        Err(RpcError::Wallet(WalletError::AddressConflict)) => {}
        other => panic!("expected an address conflict, got {:?}", other),
    }
    assert_eq!(book.records.len(), 1);
    assert_eq!(book.records[0].address, address);
}

#[test]
fn explicit_oversized_index_is_rejected() {
    let book = AddressBook::new(AccountId { value: 3 });
    let r = plan_derivation(&book, &all_supported(), &None, &Some(1u128 << 88), 0);
    assert_eq!(
        r.err(),
        Some(RpcError::InvalidParameter),
        "an index one above the maximum must be out of domain"
    );
    let ok = plan_derivation(&book, &all_supported(), &None, &Some((1u128 << 88) - 1), 0);
    assert!(ok.is_ok());
}

#[test]
fn shielded_only_requests_use_a_time_based_index() {
    let book = AddressBook::new(AccountId { value: 3 });
    let requested = Some(vec![ReceiverType::Orchard, ReceiverType::Sapling]);
    let now: u64 = 1_700_000_123;
    match plan_derivation(&book, &all_supported(), &requested, &None, now).unwrap() {
        DerivationPlan::Fresh { diversifier_index, next_unused_allocation, .. } => {
            assert_eq!(diversifier_index.value(), now as u128);
            assert!(!next_unused_allocation);
        }
        DerivationPlan::Cached(_) => panic!("empty book cannot have a cached address"),
    }
}

#[test]
fn defaults_silently_omit_unsupported_types() {
    let partial = SupportedReceivers { orchard: false, sapling: true, p2pkh: true };
    let eff = resolve_receiver_types(&None, &partial).unwrap();
    assert_eq!(eff, vec![ReceiverType::Sapling, ReceiverType::P2pkh]);
    let empty_request = resolve_receiver_types(&Some(vec![]), &partial).unwrap();
    assert_eq!(empty_request, vec![ReceiverType::Sapling, ReceiverType::P2pkh]);
}

#[test]
fn explicit_unsupported_type_is_refused() {
    let partial = SupportedReceivers { orchard: false, sapling: true, p2pkh: true };
    let r = resolve_receiver_types(&Some(vec![ReceiverType::Orchard]), &partial);
    assert_eq!(r, Err(RpcError::Wallet(WalletError::ReceiverTypeUnsupported)));
}

#[test]
fn next_unused_selection_reads_the_watermark() {
    let mut book = AddressBook::new(AccountId { value: 1 });
    book.transparent_watermark = Some(41);
    let eff = vec![ReceiverType::Orchard, ReceiverType::P2pkh];
    let (d, alloc) = select_diversifier_index(&None, &eff, &book, 0).unwrap();
    assert_eq!(d.value(), 42);
    assert!(alloc);
}

#[test]
fn receiver_names_parse() {
    assert_eq!(parse_receiver_type("orchard"), Some(ReceiverType::Orchard));
    assert_eq!(parse_receiver_type("sapling"), Some(ReceiverType::Sapling));
    assert_eq!(parse_receiver_type("p2pkh"), Some(ReceiverType::P2pkh));
    assert_eq!(parse_receiver_type("p2sh"), None);
    assert_eq!(parse_receiver_type(""), None);
}
