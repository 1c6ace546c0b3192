//! Capability contract of the fungible balance ledger.  The registry
//! consumes it only at construction time, to seed the creating account's
//! balance.

use vstd::prelude::*;

use crate::data_structure::{AccountId, Balance};

verus! {

/// Failure of a balance ledger operation.
#[derive(Clone, Copy, Debug, PartialEq, Eq, Structural)]
pub enum NativeTokenError {
    /// A balance cannot be advanced without overflowing.
    Overflow,
    /// The account's balance does not cover the requested burn.
    InsufficientBalance,
    /// The ledger declined the operation.
    Rejected,
}

/// The balance the ledger records for `account`, zero when none is recorded.
pub open spec fn account_balance_or_zero(m: Map<AccountId, Balance>, account: AccountId) -> Balance {
    if m.contains_key(account) {
        m[account]
    } else {
        0
    }
}

/// The fungible balance ledger capability: a quantity per account with mint
/// and burn.  Mutating operations may fail; on failure they must leave the
/// ledger exactly as it was.
pub trait NativeToken: Sized {
    /// Per-account balances.
    spec fn balances(&self) -> Map<AccountId, Balance>;

    /// Whether a mint of `amount` to `account` would succeed on the ledger
    /// as it now stands.
    spec fn mint_ok(&self, account: AccountId, amount: Balance) -> bool;

    /// Whether a burn of `amount` from `account` would succeed on the
    /// ledger as it now stands.
    spec fn burn_ok(&self, account: AccountId, amount: Balance) -> bool;

    /// Mints `amount` to `account`.  Succeeds exactly when `mint_ok` held
    /// beforehand; a failed mint leaves the ledger untouched.
    fn mint(&mut self, account: AccountId, amount: Balance) -> (r: Result<(), NativeTokenError>)
        ensures
            r.is_ok() <==> old(self).mint_ok(account, amount),
            r.is_ok() ==> account_balance_or_zero(old(self).balances(), account) + amount
                <= u128::MAX && final(self).balances() == old(self).balances().insert(
                account,
                (account_balance_or_zero(old(self).balances(), account) + amount) as Balance,
            ),
            r.is_err() ==> *final(self) == *old(self),
    ;

    /// Burns `amount` from `account`.  Succeeds exactly when `burn_ok` held
    /// beforehand; a failed burn leaves the ledger untouched.
    fn burn(&mut self, account: AccountId, amount: Balance) -> (r: Result<(), NativeTokenError>)
        ensures
            r.is_ok() <==> old(self).burn_ok(account, amount),
            r.is_ok() ==> account_balance_or_zero(old(self).balances(), account) >= amount
                && final(self).balances() == old(self).balances().insert(
                account,
                (account_balance_or_zero(old(self).balances(), account) - amount) as Balance,
            ),
            r.is_err() ==> *final(self) == *old(self),
    ;
}

} // verus!
