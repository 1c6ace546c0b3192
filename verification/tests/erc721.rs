//! Tests of the single-asset ownership registry.

use document_management_platform::erc721::{Erc721, Error, Event, Transfer};

const ALICE: u64 = 1;
const BOB: u64 = 2;
const EVE: u64 = 5;
const FRANK: u64 = 6;
const ZERO: u64 = 0;

#[test]
fn mint_works() {
    // Create a new contract instance.
    let mut erc721 = Erc721::new();
    // Token 1 does not exists.
    assert_eq!(erc721.owner_of(1), None);
    // Alice does not owns tokens.
    assert_eq!(erc721.balance_of(ALICE), 0);
    // Create token Id 1.
    assert_eq!(erc721.mint(ALICE, 1), Ok(()));
    // Alice owns 1 token.
    assert_eq!(erc721.balance_of(ALICE), 1);
}

#[test]
fn mint_existing_should_fail() {
    // Create a new contract instance.
    let mut erc721 = Erc721::new();
    // Create token Id 1.
    assert_eq!(erc721.mint(ALICE, 1), Ok(()));
    // The first Transfer event takes place.
    assert_eq!(1, erc721.recorded_events().len());
    // Alice owns 1 token.
    assert_eq!(erc721.balance_of(ALICE), 1);
    // Alice owns token Id 1.
    assert_eq!(erc721.owner_of(1), Some(ALICE));
    // Cannot create token Id if it exists.
    assert_eq!(erc721.mint(ALICE, 1), Err(Error::TokenExists));
}

#[test]
fn transfer_works() {
    // Create a new contract instance.
    let mut erc721 = Erc721::new();
    // Create token Id 1 for Alice.
    assert_eq!(erc721.mint(ALICE, 1), Ok(()));
    // Alice owns token 1.
    assert_eq!(erc721.balance_of(ALICE), 1);
    // Bob does not owns any token.
    assert_eq!(erc721.balance_of(BOB), 0);
    // The first Transfer event takes place.
    assert_eq!(1, erc721.recorded_events().len());
    // Alice transfers token 1 to Bob.
    assert_eq!(erc721.transfer(ALICE, BOB, 1), Ok(()));
    // The second Transfer event takes place.
    assert_eq!(2, erc721.recorded_events().len());
    // Bob owns token 1.
    assert_eq!(erc721.balance_of(BOB), 1);
}

#[test]
fn invalid_transfer_should_fail() {
    // Create a new contract instance.
    let mut erc721 = Erc721::new();
    // Transfer token fails if it does not exists.
    assert_eq!(erc721.transfer(ALICE, BOB, 2), Err(Error::TokenNotFound));
    // Token Id 2 does not exists.
    assert_eq!(erc721.owner_of(2), None);
    // Create token Id 2.
    assert_eq!(erc721.mint(ALICE, 2), Ok(()));
    // Alice owns 1 token.
    assert_eq!(erc721.balance_of(ALICE), 1);
    // Token Id 2 is owned by Alice.
    assert_eq!(erc721.owner_of(2), Some(ALICE));
    // Bob cannot transfer not owned tokens.
    assert_eq!(erc721.transfer(BOB, EVE, 2), Err(Error::NotApproved));
}

#[test]
fn approved_transfer_works() {
    // Create a new contract instance.
    let mut erc721 = Erc721::new();
    // Create token Id 1.
    assert_eq!(erc721.mint(ALICE, 1), Ok(()));
    // Token Id 1 is owned by Alice.
    assert_eq!(erc721.owner_of(1), Some(ALICE));
    // Approve token Id 1 transfer for Bob on behalf of Alice.
    assert_eq!(erc721.approve(ALICE, BOB, 1), Ok(()));
    // Bob transfers token Id 1 from Alice to Eve.
    assert_eq!(erc721.transfer_from(BOB, ALICE, EVE, 1), Ok(()));
    // Token Id 1 is owned by Eve.
    assert_eq!(erc721.owner_of(1), Some(EVE));
    // Alice does not owns tokens.
    assert_eq!(erc721.balance_of(ALICE), 0);
    // Bob does not owns tokens.
    assert_eq!(erc721.balance_of(BOB), 0);
    // Eve owns 1 token.
    assert_eq!(erc721.balance_of(EVE), 1);
}

#[test]
fn approved_for_all_works() {
    // Create a new contract instance.
    let mut erc721 = Erc721::new();
    // Create token Id 1.
    assert_eq!(erc721.mint(ALICE, 1), Ok(()));
    // Create token Id 2.
    assert_eq!(erc721.mint(ALICE, 2), Ok(()));
    // Alice owns 2 tokens.
    assert_eq!(erc721.balance_of(ALICE), 2);
    // Approve all of Alice's tokens for Bob.
    assert_eq!(erc721.set_approval_for_all(ALICE, BOB, true), Ok(()));
    // Bob is an approved operator for Alice.
    assert!(erc721.is_approved_for_all(ALICE, BOB));
    // Bob transfers token Id 1 from Alice to Eve.
    assert_eq!(erc721.transfer_from(BOB, ALICE, EVE, 1), Ok(()));
    // Token Id 1 is owned by Eve.
    assert_eq!(erc721.owner_of(1), Some(EVE));
    // Alice owns 1 token.
    assert_eq!(erc721.balance_of(ALICE), 1);
    // Bob transfers token Id 2 from Alice to Eve.
    assert_eq!(erc721.transfer_from(BOB, ALICE, EVE, 2), Ok(()));
    // Bob does not own tokens.
    assert_eq!(erc721.balance_of(BOB), 0);
    // Eve owns 2 tokens.
    assert_eq!(erc721.balance_of(EVE), 2);
    // Remove operator approval for Bob on behalf of Alice.
    assert_eq!(erc721.set_approval_for_all(ALICE, BOB, false), Ok(()));
    // Bob is not an approved operator for Alice.
    assert!(!erc721.is_approved_for_all(ALICE, BOB));
}

#[test]
fn not_approved_transfer_should_fail() {
    // Create a new contract instance.
    let mut erc721 = Erc721::new();
    // Create token Id 1.
    assert_eq!(erc721.mint(ALICE, 1), Ok(()));
    // Alice owns 1 token.
    assert_eq!(erc721.balance_of(ALICE), 1);
    // Bob does not owns tokens.
    assert_eq!(erc721.balance_of(BOB), 0);
    // Eve does not owns tokens.
    assert_eq!(erc721.balance_of(EVE), 0);
    // Eve is not an approved operator by Alice.
    assert_eq!(
        erc721.transfer_from(EVE, ALICE, FRANK, 1),
        Err(Error::NotApproved)
    );
    // Alice owns 1 token.
    assert_eq!(erc721.balance_of(ALICE), 1);
    // Bob does not owns tokens.
    assert_eq!(erc721.balance_of(BOB), 0);
    // Eve does not owns tokens.
    assert_eq!(erc721.balance_of(EVE), 0);
}

#[test]
fn burn_works() {
    // Create a new contract instance.
    let mut erc721 = Erc721::new();
    // Create token Id 1 for Alice.
    assert_eq!(erc721.mint(ALICE, 1), Ok(()));
    // Alice owns 1 token.
    assert_eq!(erc721.balance_of(ALICE), 1);
    // Alice owns token Id 1.
    assert_eq!(erc721.owner_of(1), Some(ALICE));
    // Destroy token Id 1.
    assert_eq!(erc721.burn(ALICE, 1), Ok(()));
    // Alice does not owns tokens.
    assert_eq!(erc721.balance_of(ALICE), 0);
    // Token Id 1 does not exists.
    assert_eq!(erc721.owner_of(1), None);
}

#[test]
fn burn_fails_token_not_found() {
    // Create a new contract instance.
    let mut erc721 = Erc721::new();
    // Try burning a non existent token.
    assert_eq!(erc721.burn(ALICE, 1), Err(Error::TokenNotFound));
}

#[test]
fn burn_fails_not_owner() {
    // Create a new contract instance.
    let mut erc721 = Erc721::new();
    // Create token Id 1 for Alice.
    assert_eq!(erc721.mint(ALICE, 1), Ok(()));
    // Try burning this token with a different account.
    assert_eq!(erc721.burn(EVE, 1), Err(Error::NotOwner));
}

#[test]
fn approve_twice_cannot_insert() {
    let mut erc721 = Erc721::new();
    assert_eq!(erc721.mint(ALICE, 1), Ok(()));
    assert_eq!(erc721.approve(ALICE, BOB, 1), Ok(()));
    assert_eq!(erc721.get_approved(1), Some(BOB));
    assert_eq!(erc721.approve(ALICE, EVE, 1), Err(Error::CannotInsert));
    assert_eq!(erc721.get_approved(1), Some(BOB));
}

#[test]
fn approve_by_stranger_not_allowed() {
    let mut erc721 = Erc721::new();
    assert_eq!(erc721.mint(ALICE, 1), Ok(()));
    assert_eq!(erc721.approve(EVE, BOB, 1), Err(Error::NotAllowed));
}

#[test]
fn approve_zero_account_not_allowed() {
    let mut erc721 = Erc721::new();
    assert_eq!(erc721.mint(ALICE, 1), Ok(()));
    assert_eq!(erc721.approve(ALICE, ZERO, 1), Err(Error::NotAllowed));
}

#[test]
fn self_approval_not_allowed() {
    let mut erc721 = Erc721::new();
    assert_eq!(
        erc721.set_approval_for_all(ALICE, ALICE, true),
        Err(Error::NotAllowed)
    );
}

#[test]
fn transfer_to_zero_account_not_allowed() {
    let mut erc721 = Erc721::new();
    assert_eq!(erc721.mint(ALICE, 1), Ok(()));
    assert_eq!(erc721.transfer(ALICE, ZERO, 1), Err(Error::NotAllowed));
}

#[test]
fn transfer_from_account_without_holdings_cannot_fetch_value() {
    let mut erc721 = Erc721::new();
    assert_eq!(erc721.mint(ALICE, 1), Ok(()));
    // Alice owns the token, so the move is authorized, but Eve has no
    // recorded holdings to subtract from.
    assert_eq!(
        erc721.transfer_from(ALICE, EVE, BOB, 1),
        Err(Error::CannotFetchValue)
    );
}

#[test]
fn mint_by_zero_account_not_allowed() {
    let mut erc721 = Erc721::new();
    assert_eq!(erc721.mint(ZERO, 1), Err(Error::NotAllowed));
}

#[test]
fn mint_records_transfer_event_from_zero_account() {
    let mut erc721 = Erc721::new();
    assert_eq!(erc721.mint(ALICE, 7), Ok(()));
    assert_eq!(
        erc721.recorded_events()[0],
        Event::Transfer(Transfer {
            from: Some(ZERO),
            to: Some(ALICE),
            token_id: 7,
        })
    );
}
