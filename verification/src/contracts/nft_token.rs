//! Reference in-memory multi-asset ledger, and a rejecting test double for
//! failure injection.
//!
//! The ledger keeps each table as an append-only association list in which
//! the newest entry for a key wins; the spec views fold the lists into maps.

use vstd::prelude::*;

use crate::data_structure::{AccountId, Balance};
use crate::traits::nft_token::{
    NftToken as NftTokenCapability, NftTokenError, balance_or_zero, supply_or_zero,
};

verus! {

/// The balance table folded into a map: later entries override earlier ones.
pub open spec fn balances_map(s: Seq<(u32, AccountId, Balance)>) -> Map<(u32, AccountId), Balance>
    decreases s.len(),
{
    if s.len() == 0 {
        Map::empty()
    } else {
        balances_map(s.drop_last()).insert((s.last().0, s.last().1), s.last().2)
    }
}

/// The supply table folded into a map: later entries override earlier ones.
pub open spec fn supply_map(s: Seq<(u32, Balance)>) -> Map<u32, Balance>
    decreases s.len(),
{
    if s.len() == 0 {
        Map::empty()
    } else {
        supply_map(s.drop_last()).insert(s.last().0, s.last().1)
    }
}

/// The attribute table folded into a map: later entries override earlier
/// ones.
pub open spec fn attributes_map(s: Seq<(u32, Vec<u8>, String)>) -> Map<(u32, Seq<u8>), Seq<char>>
    decreases s.len(),
{
    if s.len() == 0 {
        Map::empty()
    } else {
        attributes_map(s.drop_last()).insert((s.last().0, s.last().1@), s.last().2@)
    }
}

/// Byte-vector equality.
fn eq_bytes(a: &Vec<u8>, b: &Vec<u8>) -> (r: bool)
    ensures
        r == (a@ == b@),
{
    if a.len() != b.len() {
        return false;
    }
    let mut i: usize = 0;
    while i < a.len()
        invariant
            i <= a.len(),
            a.len() == b.len(),
            forall|k: int| 0 <= k < i ==> a@[k] == b@[k],
        decreases a.len() - i,
    {
        if a[i] != b[i] {
            return false;
        }
        i = i + 1;
    }
    proof {
        assert(a@ =~= b@);
    }
    true
}

/// Reference in-memory multi-asset ledger: per (asset, account) quantities,
/// per-asset supply, a class count, and an (asset, sub-key) attribute table.
pub struct NftToken {
    /// Per (asset, account) balance entries; the newest entry wins.
    pub balances: Vec<(u32, AccountId, Balance)>,
    /// Per-asset supply entries; the newest entry wins.
    pub supply: Vec<(u32, Balance)>,
    /// Number of distinct asset classes with a recorded supply.
    pub classes: Balance,
    /// Attribute entries; the newest entry wins.
    pub attributes: Vec<(u32, Vec<u8>, String)>,
}

impl NftToken {
    /// A fresh, empty ledger.
    pub fn new() -> (r: Self)
        ensures
            r.balances() == Map::<(u32, AccountId), Balance>::empty(),
            r.asset_supply() == Map::<u32, Balance>::empty(),
            r.class_count() == 0,
            r.attributes() == Map::<(u32, Seq<u8>), Seq<char>>::empty(),
    {
        NftToken { balances: Vec::new(), supply: Vec::new(), classes: 0, attributes: Vec::new() }
    }

    /// The recorded balance of `account` for asset `id`, zero when none.
    fn balance_entry(&self, id: u32, account: AccountId) -> (r: Balance)
        ensures
            r == balance_or_zero(balances_map(self.balances@), (id, account)),
    {
        let mut i: usize = 0;
        let mut cur: Balance = 0;
        while i < self.balances.len()
            invariant
                i <= self.balances.len(),
                cur == balance_or_zero(
                    balances_map(self.balances@.take(i as int)),
                    (id, account),
                ),
            decreases self.balances.len() - i,
        {
            let e = self.balances[i];
            proof {
                assert(self.balances@.take(i + 1).drop_last() =~= self.balances@.take(i as int));
                assert(self.balances@.take(i + 1).last() == self.balances@[i as int]);
            }
            if e.0 == id && e.1 == account {
                cur = e.2;
            }
            i = i + 1;
        }
        proof {
            assert(self.balances@.take(self.balances@.len() as int) =~= self.balances@);
        }
        cur
    }

    /// The recorded supply of asset `id`, zero when none.
    fn supply_entry(&self, id: u32) -> (r: Balance)
        ensures
            r == supply_or_zero(supply_map(self.supply@), id),
    {
        let mut i: usize = 0;
        let mut cur: Balance = 0;
        while i < self.supply.len()
            invariant
                i <= self.supply.len(),
                cur == supply_or_zero(supply_map(self.supply@.take(i as int)), id),
            decreases self.supply.len() - i,
        {
            let e = self.supply[i];
            proof {
                assert(self.supply@.take(i + 1).drop_last() =~= self.supply@.take(i as int));
                assert(self.supply@.take(i + 1).last() == self.supply@[i as int]);
            }
            if e.0 == id {
                cur = e.1;
            }
            i = i + 1;
        }
        proof {
            assert(self.supply@.take(self.supply@.len() as int) =~= self.supply@);
        }
        cur
    }
}

impl NftTokenCapability for NftToken {
    open spec fn balances(&self) -> Map<(u32, AccountId), Balance> {
        balances_map(self.balances@)
    }

    open spec fn mint_ok(&self, to: AccountId, id: u32, amount: Balance) -> bool {
        &&& balance_or_zero(balances_map(self.balances@), (id, to)) + amount <= u128::MAX
        &&& supply_or_zero(supply_map(self.supply@), id) + amount <= u128::MAX
        &&& !(supply_or_zero(supply_map(self.supply@), id) == 0 && amount > 0 && self.classes
            == u128::MAX)
    }

    open spec fn set_attribute_ok(&self, id: u32, key: Seq<u8>, value: Seq<char>) -> bool {
        true
    }

    open spec fn asset_supply(&self) -> Map<u32, Balance> {
        supply_map(self.supply@)
    }

    open spec fn class_count(&self) -> Balance {
        self.classes
    }

    open spec fn attributes(&self) -> Map<(u32, Seq<u8>), Seq<char>> {
        attributes_map(self.attributes@)
    }

    fn mint(&mut self, to: AccountId, id: u32, amount: Balance) -> (r: Result<(), NftTokenError>)
        ensures
            r.is_err() ==> r == Err::<(), NftTokenError>(NftTokenError::Overflow),
    {
        let old_bal = self.balance_entry(id, to);
        let old_sup = self.supply_entry(id);
        if amount > u128::MAX - old_bal {
            return Err(NftTokenError::Overflow);
        }
        if amount > u128::MAX - old_sup {
            return Err(NftTokenError::Overflow);
        }
        let new_classes: Balance = if old_sup == 0 && amount > 0 {
            if self.classes == u128::MAX {
                return Err(NftTokenError::Overflow);
            }
            self.classes + 1
        } else {
            self.classes
        };
        self.balances.push((id, to, old_bal + amount));
        self.supply.push((id, old_sup + amount));
        self.classes = new_classes;
        proof {
            assert(self.balances@.drop_last() =~= old(self).balances@);
            assert(self.supply@.drop_last() =~= old(self).supply@);
        }
        Ok(())
    }

    fn set_attribute(&mut self, id: u32, key: Vec<u8>, value: String) -> (r: Result<
        (),
        NftTokenError,
    >) {
        self.attributes.push((id, key, value));
        proof {
            assert(self.attributes@.drop_last() =~= old(self).attributes@);
        }
        Ok(())
    }

    fn get_attribute(&self, id: u32, key: Vec<u8>) -> (r: Option<String>) {
        let mut i: usize = 0;
        let mut found: Option<usize> = None;
        while i < self.attributes.len()
            invariant
                i <= self.attributes.len(),
                match found {
                    Some(k) => k < i && attributes_map(
                        self.attributes@.take(i as int),
                    ).contains_key((id, key@)) && attributes_map(self.attributes@.take(i as int))[
                        (id, key@)
                    ] == self.attributes@[k as int].2@,
                    None => !attributes_map(self.attributes@.take(i as int)).contains_key(
                        (id, key@),
                    ),
                },
            decreases self.attributes.len() - i,
        {
            let matches_key = self.attributes[i].0 == id && eq_bytes(&self.attributes[i].1, &key);
            proof {
                assert(self.attributes@.take(i + 1).drop_last() =~= self.attributes@.take(
                    i as int,
                ));
                assert(self.attributes@.take(i + 1).last() == self.attributes@[i as int]);
            }
            if matches_key {
                found = Some(i);
            }
            i = i + 1;
        }
        proof {
            assert(self.attributes@.take(self.attributes@.len() as int) =~= self.attributes@);
        }
        match found {
            Some(k) => Some(self.attributes[k].2.clone()),
            None => None,
        }
    }

    fn total_supply(&self, id: Option<u32>) -> (r: Balance) {
        match id {
            Some(i) => self.supply_entry(i),
            None => self.classes,
        }
    }
}

/// A test double that declines every mutation: it lets callers exercise the
/// registry's collaborator-failure paths.
pub struct RejectingNftToken {}

impl RejectingNftToken {
    /// A fresh double.
    pub fn new() -> (r: Self)
        ensures
            r.balances() == Map::<(u32, AccountId), Balance>::empty(),
            r.asset_supply() == Map::<u32, Balance>::empty(),
            r.class_count() == 0,
            r.attributes() == Map::<(u32, Seq<u8>), Seq<char>>::empty(),
    {
        RejectingNftToken {  }
    }
}

impl NftTokenCapability for RejectingNftToken {
    open spec fn balances(&self) -> Map<(u32, AccountId), Balance> {
        Map::empty()
    }

    open spec fn mint_ok(&self, to: AccountId, id: u32, amount: Balance) -> bool {
        false
    }

    open spec fn set_attribute_ok(&self, id: u32, key: Seq<u8>, value: Seq<char>) -> bool {
        false
    }

    open spec fn asset_supply(&self) -> Map<u32, Balance> {
        Map::empty()
    }

    open spec fn class_count(&self) -> Balance {
        0
    }

    open spec fn attributes(&self) -> Map<(u32, Seq<u8>), Seq<char>> {
        Map::empty()
    }

    fn mint(&mut self, to: AccountId, id: u32, amount: Balance) -> (r: Result<(), NftTokenError>)
        ensures
            r == Err::<(), NftTokenError>(NftTokenError::Rejected),
    {
        Err(NftTokenError::Rejected)
    }

    fn set_attribute(&mut self, id: u32, key: Vec<u8>, value: String) -> (r: Result<
        (),
        NftTokenError,
    >)
        ensures
            r == Err::<(), NftTokenError>(NftTokenError::Rejected),
    {
        Err(NftTokenError::Rejected)
    }

    fn get_attribute(&self, id: u32, key: Vec<u8>) -> (r: Option<String>) {
        None
    }

    fn total_supply(&self, id: Option<u32>) -> (r: Balance) {
        0
    }
}

} // verus!
