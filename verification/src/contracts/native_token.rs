//! Reference in-memory fungible balance ledger.

use vstd::prelude::*;

use crate::data_structure::{AccountId, Balance};
use crate::traits::native_token::{
    NativeToken as NativeTokenCapability, NativeTokenError, account_balance_or_zero,
};

verus! {

/// The balance table folded into a map: later entries override earlier ones.
pub open spec fn account_balances_map(s: Seq<(AccountId, Balance)>) -> Map<AccountId, Balance>
    decreases s.len(),
{
    if s.len() == 0 {
        Map::empty()
    } else {
        account_balances_map(s.drop_last()).insert(s.last().0, s.last().1)
    }
}

/// Reference in-memory fungible balance ledger with token metadata.
pub struct NativeToken {
    /// Per-account balance entries; the newest entry wins.
    pub balances: Vec<(AccountId, Balance)>,
    /// Display name of the token.
    pub name: Option<String>,
    /// Ticker symbol of the token.
    pub symbol: Option<String>,
    /// Number of decimals the token is displayed with.
    pub decimals: u8,
}

impl NativeToken {
    /// A fresh ledger holding `initial_supply` on the creating account.
    pub fn new(
        caller: AccountId,
        initial_supply: Balance,
        name: Option<String>,
        symbol: Option<String>,
        decimal: u8,
    ) -> (r: Self)
        ensures
            r.balances() == Map::<AccountId, Balance>::empty().insert(caller, initial_supply),
            r.name == name,
            r.symbol == symbol,
            r.decimals == decimal,
    {
        let mut balances: Vec<(AccountId, Balance)> = Vec::new();
        balances.push((caller, initial_supply));
        proof {
            assert(balances@.drop_last() =~= Seq::<(AccountId, Balance)>::empty());
            assert(account_balances_map(Seq::<(AccountId, Balance)>::empty())
                == Map::<AccountId, Balance>::empty());
            assert(account_balances_map(balances@) =~= Map::<AccountId, Balance>::empty().insert(
                caller,
                initial_supply,
            ));
        }
        NativeToken { balances, name, symbol, decimals: decimal }
    }

    /// The balance the ledger holds for `account`.
    pub fn balance_of(&self, account: AccountId) -> (r: Balance)
        ensures
            r == account_balance_or_zero(account_balances_map(self.balances@), account),
    {
        self.balance_entry(account)
    }

    /// The recorded balance of `account`, zero when none.
    fn balance_entry(&self, account: AccountId) -> (r: Balance)
        ensures
            r == account_balance_or_zero(account_balances_map(self.balances@), account),
    {
        let mut i: usize = 0;
        let mut cur: Balance = 0;
        while i < self.balances.len()
            invariant
                i <= self.balances.len(),
                cur == account_balance_or_zero(
                    account_balances_map(self.balances@.take(i as int)),
                    account,
                ),
            decreases self.balances.len() - i,
        {
            let e = self.balances[i];
            proof {
                assert(self.balances@.take(i + 1).drop_last() =~= self.balances@.take(i as int));
                assert(self.balances@.take(i + 1).last() == self.balances@[i as int]);
            }
            if e.0 == account {
                cur = e.1;
            }
            i = i + 1;
        }
        proof {
            assert(self.balances@.take(self.balances@.len() as int) =~= self.balances@);
        }
        cur
    }
}

impl NativeTokenCapability for NativeToken {
    open spec fn balances(&self) -> Map<AccountId, Balance> {
        account_balances_map(self.balances@)
    }

    open spec fn mint_ok(&self, account: AccountId, amount: Balance) -> bool {
        account_balance_or_zero(account_balances_map(self.balances@), account) + amount
            <= u128::MAX
    }

    open spec fn burn_ok(&self, account: AccountId, amount: Balance) -> bool {
        amount <= account_balance_or_zero(account_balances_map(self.balances@), account)
    }

    fn mint(&mut self, account: AccountId, amount: Balance) -> (r: Result<(), NativeTokenError>)
        ensures
            r.is_err() ==> r == Err::<(), NativeTokenError>(NativeTokenError::Overflow),
    {
        let old_bal = self.balance_entry(account);
        if amount > u128::MAX - old_bal {
            return Err(NativeTokenError::Overflow);
        }
        self.balances.push((account, old_bal + amount));
        proof {
            assert(self.balances@.drop_last() =~= old(self).balances@);
        }
        Ok(())
    }

    fn burn(&mut self, account: AccountId, amount: Balance) -> (r: Result<(), NativeTokenError>)
        ensures
            r.is_err() ==> r == Err::<(), NativeTokenError>(
                NativeTokenError::InsufficientBalance,
            ),
    {
        let old_bal = self.balance_entry(account);
        if amount > old_bal {
            return Err(NativeTokenError::InsufficientBalance);
        }
        self.balances.push((account, old_bal - amount));
        proof {
            assert(self.balances@.drop_last() =~= old(self).balances@);
        }
        Ok(())
    }
}

} // verus!
