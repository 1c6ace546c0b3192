//! Tests of the document registry: creation, version appends, queries, the
//! mirrored attribute table, and collaborator-failure handling.

use document_management_platform::contracts::managing_logic::NftCollection;
use document_management_platform::contracts::native_token::NativeToken;
use document_management_platform::contracts::nft_token::{NftToken, RejectingNftToken};
use document_management_platform::data_structure::DocumentState;
use document_management_platform::traits::managing_logic::{Error, ManagingLogic};
use document_management_platform::traits::native_token::NativeToken as NativeTokenCapability;

const ALICE: u64 = 1;
const BOB: u64 = 2;

fn fresh_collection() -> NftCollection<NftToken, NativeToken> {
    let native = NativeToken::new(ALICE, 1_000_000, Some("Native".to_string()), Some("NTV".to_string()), 12);
    let nft = NftToken::new();
    NftCollection::new(native, nft)
}

#[test]
fn create_document_test() {
    let mut nft_collection = fresh_collection();
    assert_eq!(
        nft_collection
            .create_document(
                ALICE,
                "New Doc".to_string(),
                "https://www.facebook.com/".to_string()
            )
            .unwrap()
            .id,
        0
    )
}

#[test]
fn update_document_test() {
    let mut nft_collection = fresh_collection();
    assert_eq!(
        nft_collection
            .create_document(
                ALICE,
                "New Doc".to_string(),
                "https://www.facebook.com/".to_string()
            )
            .unwrap()
            .id,
        0
    );
    let updated = nft_collection.create_version_document(
        ALICE,
        0,
        "https://www.facebook.com.vn/".to_string(),
    );
    assert!(updated.is_ok());
    assert_eq!(
        updated.unwrap().ipfs_hash,
        "https://www.facebook.com.vn/".to_string()
    );
}

#[test]
fn scenario_create_first_document() {
    let mut c = fresh_collection();
    let doc = c
        .create_document(ALICE, "Spec".to_string(), "h0".to_string())
        .unwrap();
    assert_eq!(doc.id, 0);
    assert_eq!(doc.owner, ALICE);
    assert_eq!(doc.title, "Spec".to_string());
    assert_eq!(doc.versions.len(), 1);
    assert_eq!(doc.versions[0].version_id, 0);
    assert_eq!(doc.versions[0].state, DocumentState::Published);
    assert_eq!(doc.versions[0].ipfs_hash, "h0".to_string());
    assert_eq!(doc.number_upload, 1);
}

#[test]
fn scenario_append_second_version() {
    let mut c = fresh_collection();
    c.create_document(ALICE, "Spec".to_string(), "h0".to_string())
        .unwrap();
    let version = c
        .create_version_document(BOB, 0, "h1".to_string())
        .unwrap();
    assert_eq!(version.version_id, 1);
    assert_eq!(version.state, DocumentState::Published);
    assert_eq!(version.ipfs_hash, "h1".to_string());
    assert_eq!(version.contributor, BOB);
    let doc = c.get_document(0).unwrap();
    assert_eq!(doc.versions[0].state, DocumentState::Archived);
    assert_eq!(doc.versions[1].state, DocumentState::Published);
    assert_eq!(doc.version_id_publish, 1);
    assert_eq!(doc.number_upload, 2);
    assert_eq!(doc.ipfs_hash_doc, "h1".to_string());
}

#[test]
fn scenario_archived_attributes_remain_retrievable() {
    let mut c = fresh_collection();
    c.create_document(ALICE, "Spec".to_string(), "h0".to_string())
        .unwrap();
    c.create_version_document(ALICE, 0, "h1".to_string())
        .unwrap();
    assert_eq!(c.get_attribute_version(0, vec![1]), Some("h1".to_string()));
    assert_eq!(c.get_attribute_version(0, vec![0]), Some("h0".to_string()));
}

#[test]
fn scenario_version_append_on_empty_store_fails() {
    let mut c = fresh_collection();
    assert_eq!(
        c.create_version_document(ALICE, 99, "hx".to_string()),
        Err(Error::DocumentNotFound)
    );
    assert_eq!(c.get_nfts_length(), 0);
    assert!(c.get_document(99).is_none());
}

#[test]
fn document_count_matches_number_of_creations() {
    let mut c = fresh_collection();
    for expected_id in 0u32..3 {
        let doc = c
            .create_document(ALICE, format!("Doc {}", expected_id), "h".to_string())
            .unwrap();
        assert_eq!(doc.id, expected_id);
        assert_eq!(c.get_nfts_length(), expected_id + 1);
    }
    let all = c.get_nfts();
    assert_eq!(all.len(), 3);
    for (position, doc) in all.iter().enumerate() {
        assert_eq!(doc.id as usize, position);
    }
}

#[test]
fn version_append_advances_counts_and_archives() {
    let mut c = fresh_collection();
    c.create_document(ALICE, "Spec".to_string(), "h0".to_string())
        .unwrap();
    c.create_version_document(ALICE, 0, "h1".to_string())
        .unwrap();
    c.create_version_document(BOB, 0, "h2".to_string()).unwrap();
    let doc = c.get_document(0).unwrap();
    assert_eq!(doc.number_upload, 3);
    assert_eq!(doc.version_id_publish, 2);
    assert_eq!(doc.versions.len(), 3);
    let published: Vec<u8> = doc
        .versions
        .iter()
        .filter(|v| v.state == DocumentState::Published)
        .map(|v| v.version_id)
        .collect();
    assert_eq!(published, vec![2]);
    assert_eq!(c.get_version_doc_length(0), Ok(3));
}

#[test]
fn get_document_round_trip_equals_created_document() {
    let mut c = fresh_collection();
    let created = c
        .create_document(ALICE, "Spec".to_string(), "h0".to_string())
        .unwrap();
    let fetched = c.get_document(0).unwrap();
    assert_eq!(fetched, created);
}

#[test]
fn version_count_fails_for_unknown_document() {
    let c = fresh_collection();
    assert_eq!(c.get_version_doc_length(7), Err(Error::DocumentNotFound));
}

#[test]
fn total_supply_delegates_to_asset_ledger() {
    let mut c = fresh_collection();
    assert_eq!(c.get_total_supply(None), 0);
    assert_eq!(c.get_total_supply(Some(0)), 0);
    c.create_document(ALICE, "A".to_string(), "h0".to_string())
        .unwrap();
    assert_eq!(c.get_total_supply(Some(0)), 100000);
    assert_eq!(c.get_total_supply(None), 1);
    c.create_document(BOB, "B".to_string(), "h1".to_string())
        .unwrap();
    assert_eq!(c.get_total_supply(Some(1)), 100000);
    assert_eq!(c.get_total_supply(None), 2);
}

#[test]
fn unset_attribute_reads_empty() {
    let c = fresh_collection();
    assert_eq!(c.get_attribute_version(0, vec![0]), None);
}

#[test]
fn collaborator_failure_leaves_store_unchanged() {
    let native = NativeToken::new(ALICE, 10, None, None, 0);
    let rejecting = RejectingNftToken::new();
    let mut c = NftCollection::new(native, rejecting);
    assert_eq!(
        c.create_document(ALICE, "Spec".to_string(), "h0".to_string()),
        Err(Error::CollaboratorCallFailed)
    );
    assert_eq!(c.get_nfts_length(), 0);
    assert!(c.get_nfts().is_empty());
    assert!(c.get_document(0).is_none());
}

#[test]
fn native_token_mints_initial_supply_to_creator() {
    let ledger = NativeToken::new(ALICE, 500, Some("Native".to_string()), None, 6);
    assert_eq!(ledger.balance_of(ALICE), 500);
    assert_eq!(ledger.balance_of(BOB), 0);
    assert_eq!(ledger.name, Some("Native".to_string()));
    assert_eq!(ledger.symbol, None);
    assert_eq!(ledger.decimals, 6);
}

#[test]
fn native_token_mint_and_burn_move_balances() {
    let mut ledger = NativeToken::new(ALICE, 100, None, None, 0);
    assert_eq!(ledger.mint(BOB, 40), Ok(()));
    assert_eq!(ledger.balance_of(BOB), 40);
    assert_eq!(ledger.burn(BOB, 15), Ok(()));
    assert_eq!(ledger.balance_of(BOB), 25);
    assert!(ledger.burn(BOB, 26).is_err());
    assert_eq!(ledger.balance_of(BOB), 25);
}
