//! Capability contract of the multi-asset ledger: per (asset, account)
//! quantities, per-asset supply, and an (asset, sub-key) attribute table.
//! The registry consumes the ledger exclusively through this trait, so a
//! test double can stand in for the real ledger and inject failures.

use vstd::prelude::*;

use crate::data_structure::{AccountId, Balance};

verus! {

/// Failure of a multi-asset ledger operation.
#[derive(Clone, Copy, Debug, PartialEq, Eq, Structural)]
pub enum NftTokenError {
    /// A quantity or counter cannot be advanced without overflowing.
    Overflow,
    /// The ledger declined the operation.
    Rejected,
}

/// The balance the ledger records under `k`, zero when none is recorded.
pub open spec fn balance_or_zero(m: Map<(u32, AccountId), Balance>, k: (u32, AccountId)) -> Balance {
    if m.contains_key(k) {
        m[k]
    } else {
        0
    }
}

/// The supply the ledger records for asset `id`, zero when none is recorded.
pub open spec fn supply_or_zero(m: Map<u32, Balance>, id: u32) -> Balance {
    if m.contains_key(id) {
        m[id]
    } else {
        0
    }
}

/// What a successful mint of `amount` units of asset `id` to `to` does to a
/// ledger: the recipient's balance and the asset's supply both grow by
/// `amount` without overflowing, and the count of distinct asset classes
/// grows by one exactly when the asset had no supply before.
pub open spec fn mint_effect(
    balances0: Map<(u32, AccountId), Balance>,
    balances1: Map<(u32, AccountId), Balance>,
    supply0: Map<u32, Balance>,
    supply1: Map<u32, Balance>,
    classes0: Balance,
    classes1: Balance,
    id: u32,
    to: AccountId,
    amount: Balance,
) -> bool {
    &&& balance_or_zero(balances0, (id, to)) + amount <= u128::MAX
    &&& balances1 == balances0.insert(
        (id, to),
        (balance_or_zero(balances0, (id, to)) + amount) as Balance,
    )
    &&& supply_or_zero(supply0, id) + amount <= u128::MAX
    &&& supply1 == supply0.insert(id, (supply_or_zero(supply0, id) + amount) as Balance)
    &&& classes1 as int == if supply_or_zero(supply0, id) == 0 && amount > 0 {
        classes0 + 1
    } else {
        classes0 as int
    }
}

/// The multi-asset ledger capability the registry consumes: mint, attribute
/// write, attribute read, and total-supply query.  Mutating operations may
/// fail; on failure they must leave the ledger exactly as it was.
pub trait NftToken: Sized {
    /// Per (asset, account) quantities.
    spec fn balances(&self) -> Map<(u32, AccountId), Balance>;

    /// Per-asset total supply.
    spec fn asset_supply(&self) -> Map<u32, Balance>;

    /// Number of distinct asset classes with a recorded supply.
    spec fn class_count(&self) -> Balance;

    /// The (asset, sub-key) attribute table.
    spec fn attributes(&self) -> Map<(u32, Seq<u8>), Seq<char>>;

    /// Whether a mint of `amount` units of asset `id` to `to` would succeed
    /// on the ledger as it now stands.
    spec fn mint_ok(&self, to: AccountId, id: u32, amount: Balance) -> bool;

    /// Whether writing attribute `key` of asset `id` to `value` would
    /// succeed on the ledger as it now stands.
    spec fn set_attribute_ok(&self, id: u32, key: Seq<u8>, value: Seq<char>) -> bool;

    /// Mints `amount` units of asset `id` to `to`.  Succeeds exactly when
    /// `mint_ok` held beforehand; a successful mint does not change which
    /// attribute writes succeed; a failed one leaves the ledger untouched.
    fn mint(&mut self, to: AccountId, id: u32, amount: Balance) -> (r: Result<(), NftTokenError>)
        ensures
            r.is_ok() <==> old(self).mint_ok(to, id, amount),
            r.is_ok() ==> mint_effect(
                old(self).balances(),
                final(self).balances(),
                old(self).asset_supply(),
                final(self).asset_supply(),
                old(self).class_count(),
                final(self).class_count(),
                id,
                to,
                amount,
            ),
            r.is_ok() ==> final(self).attributes() == old(self).attributes(),
            forall|i: u32, k: Seq<u8>, v: Seq<char>|
                final(self).set_attribute_ok(i, k, v) == old(self).set_attribute_ok(i, k, v),
            r.is_err() ==> *final(self) == *old(self),
    ;

    /// Writes attribute `key` of asset `id`, replacing any earlier value.
    /// Succeeds exactly when `set_attribute_ok` held beforehand; a failed
    /// write leaves the ledger untouched.
    fn set_attribute(&mut self, id: u32, key: Vec<u8>, value: String) -> (r: Result<
        (),
        NftTokenError,
    >)
        ensures
            r.is_ok() <==> old(self).set_attribute_ok(id, key@, value@),
            r.is_ok() ==> final(self).attributes() == old(self).attributes().insert(
                (id, key@),
                value@,
            ),
            r.is_err() ==> *final(self) == *old(self),
            final(self).balances() == old(self).balances(),
            final(self).asset_supply() == old(self).asset_supply(),
            final(self).class_count() == old(self).class_count(),
    ;

    /// Reads attribute `key` of asset `id`; empty when unset.
    fn get_attribute(&self, id: u32, key: Vec<u8>) -> (r: Option<String>)
        ensures
            match r {
                Some(v) => self.attributes().contains_key((id, key@)) && v@ == self.attributes()[
                    (id, key@)
                ],
                None => !self.attributes().contains_key((id, key@)),
            },
    ;

    /// Total supply of asset `id`, or the number of distinct asset classes
    /// when no asset is named.
    fn total_supply(&self, id: Option<u32>) -> (r: Balance)
        ensures
            r == match id {
                Some(i) => supply_or_zero(self.asset_supply(), i),
                None => self.class_count(),
            },
    ;
}

} // verus!
