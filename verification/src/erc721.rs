//! A standalone single-asset ownership registry: one owner per token id,
//! per-account token counts, per-token and per-operator approvals.
//!
//! The hosting environment's event stream is modeled as an event log kept by
//! the registry: every successful mutation appends the event record it would
//! have emitted.

use vstd::prelude::*;
use vstd::hash_map::HashMapWithView;

use crate::data_structure::{AccountId, Balance};

verus! {

/// Identity of a token in the registry.
pub type TokenId = u32;

/// The account identity that stands for "no account": tokens cannot be
/// assigned or approved to it.
pub const ZERO_ACCOUNT: AccountId = 0;

/// Failure of a registry operation.
#[derive(Clone, Copy, Debug, PartialEq, Eq, Structural)]
pub enum Error {
    NotOwner,
    NotApproved,
    TokenExists,
    TokenNotFound,
    CannotInsert,
    CannotFetchValue,
    NotAllowed,
}

/// Event record of an operator approval being granted or revoked.
#[derive(Clone, Copy, Debug, PartialEq, Eq)]
pub struct ApprovalForAll {
    pub owner: AccountId,
    pub operator: AccountId,
    pub approved: bool,
}

/// Event record of a per-token approval.
#[derive(Clone, Copy, Debug, PartialEq, Eq)]
pub struct Approval {
    pub owner: Option<AccountId>,
    pub to: AccountId,
    pub token_id: TokenId,
}

/// Event record of a token transfer, mint (`from` is the zero account) or
/// burn (`to` is the zero account).
#[derive(Clone, Copy, Debug, PartialEq, Eq)]
pub struct Transfer {
    pub from: Option<AccountId>,
    pub to: Option<AccountId>,
    pub token_id: TokenId,
}

/// One recorded event.
#[derive(Clone, Copy, Debug, PartialEq, Eq)]
pub enum Event {
    Transfer(Transfer),
    Approval(Approval),
    ApprovalForAll(ApprovalForAll),
}

/// The token count the registry records for `a`, zero when none.
pub open spec fn bal_of(m: Map<AccountId, Balance>, a: AccountId) -> Balance {
    if m.contains_key(a) {
        m[a]
    } else {
        0
    }
}

/// The owner the registry records for `t`, if any.
pub open spec fn owner_lookup(m: Map<TokenId, AccountId>, t: TokenId) -> Option<AccountId> {
    if m.contains_key(t) {
        Some(m[t])
    } else {
        None
    }
}

/// The operator-approval log folded into the effective approval: the newest
/// grant or revocation for an (owner, operator) pair wins, no entry means
/// not approved.
pub open spec fn approved_for_all_rec(
    s: Seq<(AccountId, AccountId, bool)>,
    owner: AccountId,
    operator: AccountId,
) -> bool
    decreases s.len(),
{
    if s.len() == 0 {
        false
    } else if s.last().0 == owner && s.last().1 == operator {
        s.last().2
    } else {
        approved_for_all_rec(s.drop_last(), owner, operator)
    }
}

/// Whether `spender` may move token `t`: it is a real account and is the
/// owner, the per-token approved account, or an approved operator of the
/// owner.
pub open spec fn is_approved_or_owner_spec(
    owners: Map<TokenId, AccountId>,
    approvals: Map<TokenId, AccountId>,
    operators: Seq<(AccountId, AccountId, bool)>,
    spender: AccountId,
    t: TokenId,
) -> bool {
    &&& spender != ZERO_ACCOUNT
    &&& {
        ||| owner_lookup(owners, t) == Some(spender)
        ||| owner_lookup(approvals, t) == Some(spender)
        ||| (owners.contains_key(t) && approved_for_all_rec(operators, owners[t], spender))
    }
}

/// The single-asset ownership registry.
pub struct Erc721 {
    _owners: HashMapWithView<TokenId, AccountId>,
    _balances: HashMapWithView<AccountId, Balance>,
    _token_approvals: HashMapWithView<TokenId, AccountId>,
    _operator_approvals: Vec<(AccountId, AccountId, bool)>,
    events: Vec<Event>,
}

impl Erc721 {
    /// Token-to-owner assignments.
    pub closed spec fn owners_view(&self) -> Map<TokenId, AccountId> {
        self._owners@
    }

    /// Per-account token counts.
    pub closed spec fn balances_view(&self) -> Map<AccountId, Balance> {
        self._balances@
    }

    /// Per-token approvals.
    pub closed spec fn approvals_view(&self) -> Map<TokenId, AccountId> {
        self._token_approvals@
    }

    /// The operator-approval log.
    pub closed spec fn operators_view(&self) -> Seq<(AccountId, AccountId, bool)> {
        self._operator_approvals@
    }

    /// Whether `operator` is currently an approved operator of `owner`.
    pub open spec fn approved_for_all_view(&self, owner: AccountId, operator: AccountId) -> bool {
        approved_for_all_rec(self.operators_view(), owner, operator)
    }

    /// The events recorded so far, oldest first.
    pub closed spec fn events_view(&self) -> Seq<Event> {
        self.events@
    }

    /// A fresh, empty registry.
    pub fn new() -> (r: Self)
        ensures
            r.owners_view() == Map::<TokenId, AccountId>::empty(),
            r.balances_view() == Map::<AccountId, Balance>::empty(),
            r.approvals_view() == Map::<TokenId, AccountId>::empty(),
            r.operators_view() == Seq::<(AccountId, AccountId, bool)>::empty(),
            r.events_view() == Seq::<Event>::empty(),
    {
        Erc721 {
            _owners: HashMapWithView::new(),
            _balances: HashMapWithView::new(),
            _token_approvals: HashMapWithView::new(),
            _operator_approvals: Vec::new(),
            events: Vec::new(),
        }
    }

    /// The events recorded so far, oldest first.
    pub fn recorded_events(&self) -> (r: &Vec<Event>)
        ensures
            r@ == self.events_view(),
    {
        &self.events
    }

    /// The number of tokens `owner` holds.
    pub fn balance_of(&self, owner: AccountId) -> (r: Balance)
        ensures
            r == bal_of(self.balances_view(), owner),
    {
        self._balance_of(&owner)
    }

    fn _balance_of(&self, owner: &AccountId) -> (r: Balance)
        ensures
            r == bal_of(self.balances_view(), *owner),
    {
        match self._balances.get(owner) {
            Some(c) => *c,
            None => 0,
        }
    }

    /// The owner of `token_id`, if the token exists.
    pub fn owner_of(&self, token_id: TokenId) -> (r: Option<AccountId>)
        ensures
            r == owner_lookup(self.owners_view(), token_id),
    {
        match self._owners.get(&token_id) {
            Some(a) => Some(*a),
            None => None,
        }
    }

    /// The account approved for `token_id`, if any.
    pub fn get_approved(&self, token_id: TokenId) -> (r: Option<AccountId>)
        ensures
            r == owner_lookup(self.approvals_view(), token_id),
    {
        match self._token_approvals.get(&token_id) {
            Some(a) => Some(*a),
            None => None,
        }
    }

    /// Whether `operator` is an approved operator of `owner`.
    pub fn is_approved_for_all(&self, owner: AccountId, operator: AccountId) -> (r: bool)
        ensures
            r == self.approved_for_all_view(owner, operator),
    {
        self._is_approved_for_all(owner, operator)
    }

    fn _is_approved_for_all(&self, owner: AccountId, operator: AccountId) -> (r: bool)
        ensures
            r == self.approved_for_all_view(owner, operator),
    {
        let mut i: usize = 0;
        let mut cur: bool = false;
        while i < self._operator_approvals.len()
            invariant
                i <= self._operator_approvals.len(),
                cur == approved_for_all_rec(
                    self._operator_approvals@.take(i as int),
                    owner,
                    operator,
                ),
            decreases self._operator_approvals.len() - i,
        {
            let e = self._operator_approvals[i];
            proof {
                assert(self._operator_approvals@.take(i + 1).drop_last()
                    =~= self._operator_approvals@.take(i as int));
                assert(self._operator_approvals@.take(i + 1).last()
                    == self._operator_approvals@[i as int]);
            }
            if e.0 == owner && e.1 == operator {
                cur = e.2;
            }
            i = i + 1;
        }
        proof {
            assert(self._operator_approvals@.take(self._operator_approvals@.len() as int)
                =~= self._operator_approvals@);
        }
        cur
    }

    /// Grants or revokes `to` as an operator for every token of `caller`.
    /// An account cannot name itself.
    pub fn set_approval_for_all(&mut self, caller: AccountId, to: AccountId, approved: bool) -> (r:
        Result<(), Error>)
        ensures
            match r {
                Ok(u) => {
                    &&& to != caller
                    &&& final(self).operators_view() == old(self).operators_view().push(
                        (caller, to, approved),
                    )
                    &&& final(self).approved_for_all_view(caller, to) == approved
                    &&& forall|o: AccountId, p: AccountId|
                        !(o == caller && p == to) ==> final(self).approved_for_all_view(o, p)
                            == old(self).approved_for_all_view(o, p)
                    &&& final(self).events_view() == old(self).events_view().push(
                        Event::ApprovalForAll(
                            ApprovalForAll { owner: caller, operator: to, approved },
                        ),
                    )
                    &&& final(self).owners_view() == old(self).owners_view()
                    &&& final(self).balances_view() == old(self).balances_view()
                    &&& final(self).approvals_view() == old(self).approvals_view()
                },
                Err(e) => {
                    &&& e == Error::NotAllowed
                    &&& to == caller
                    &&& *final(self) == *old(self)
                },
            },
    {
        self._set_approval_for_all(caller, to, approved)
    }

    fn _set_approval_for_all(&mut self, caller: AccountId, to: AccountId, approved: bool) -> (r:
        Result<(), Error>)
        ensures
            match r {
                Ok(u) => {
                    &&& to != caller
                    &&& final(self).operators_view() == old(self).operators_view().push(
                        (caller, to, approved),
                    )
                    &&& final(self).approved_for_all_view(caller, to) == approved
                    &&& forall|o: AccountId, p: AccountId|
                        !(o == caller && p == to) ==> final(self).approved_for_all_view(o, p)
                            == old(self).approved_for_all_view(o, p)
                    &&& final(self).events_view() == old(self).events_view().push(
                        Event::ApprovalForAll(
                            ApprovalForAll { owner: caller, operator: to, approved },
                        ),
                    )
                    &&& final(self).owners_view() == old(self).owners_view()
                    &&& final(self).balances_view() == old(self).balances_view()
                    &&& final(self).approvals_view() == old(self).approvals_view()
                },
                Err(e) => {
                    &&& e == Error::NotAllowed
                    &&& to == caller
                    &&& *final(self) == *old(self)
                },
            },
    {
        if to == caller {
            return Err(Error::NotAllowed);
        }
        self.events.push(
            Event::ApprovalForAll(ApprovalForAll { owner: caller, operator: to, approved }),
        );
        self._operator_approvals.push((caller, to, approved));
        proof {
            assert(self._operator_approvals@.drop_last() =~= old(self)._operator_approvals@);
            assert forall|o: AccountId, p: AccountId|
                !(o == caller && p == to) implies self.approved_for_all_view(o, p) == old(
                self,
            ).approved_for_all_view(o, p) by {
                assert(approved_for_all_rec(self._operator_approvals@, o, p)
                    == approved_for_all_rec(old(self)._operator_approvals@, o, p));
            }
        }
        Ok(())
    }

    /// Approves `to` for the single token `token_id`.  Only the owner or one
    /// of its operators may approve; the token must exist; an existing
    /// approval is not overwritten.
    pub fn approve(&mut self, caller: AccountId, to: AccountId, token_id: TokenId) -> (r: Result<
        (),
        Error,
    >)
        requires
            old(self).owners_view().contains_key(token_id),
        ensures
            match r {
                Ok(u) => {
                    &&& {
                        let owner = old(self).owners_view()[token_id];
                        owner == caller || approved_for_all_rec(
                            old(self).operators_view(),
                            owner,
                            caller,
                        )
                    }
                    &&& to != ZERO_ACCOUNT
                    &&& !old(self).approvals_view().contains_key(token_id)
                    &&& final(self).approvals_view() == old(self).approvals_view().insert(
                        token_id,
                        to,
                    )
                    &&& final(self).events_view() == old(self).events_view().push(
                        Event::Approval(
                            Approval {
                                owner: Some(old(self).owners_view()[token_id]),
                                to,
                                token_id,
                            },
                        ),
                    )
                    &&& final(self).owners_view() == old(self).owners_view()
                    &&& final(self).balances_view() == old(self).balances_view()
                    &&& final(self).operators_view() == old(self).operators_view()
                },
                Err(e) => {
                    &&& *final(self) == *old(self)
                    &&& {
                        let owner = old(self).owners_view()[token_id];
                        let authorized = owner == caller || approved_for_all_rec(
                            old(self).operators_view(),
                            owner,
                            caller,
                        );
                        &&& (e == Error::NotAllowed <==> (!authorized || to == ZERO_ACCOUNT))
                        &&& (e == Error::CannotInsert <==> (authorized && to != ZERO_ACCOUNT
                            && old(self).approvals_view().contains_key(token_id)))
                        &&& (e == Error::NotAllowed || e == Error::CannotInsert)
                    }
                },
            },
    {
        self._approve_for(caller, &to, token_id)
    }

    fn _approve_for(&mut self, caller: AccountId, to: &AccountId, token_id: TokenId) -> (r: Result<
        (),
        Error,
    >)
        requires
            old(self).owners_view().contains_key(token_id),
        ensures
            match r {
                Ok(u) => {
                    &&& {
                        let owner = old(self).owners_view()[token_id];
                        owner == caller || approved_for_all_rec(
                            old(self).operators_view(),
                            owner,
                            caller,
                        )
                    }
                    &&& *to != ZERO_ACCOUNT
                    &&& !old(self).approvals_view().contains_key(token_id)
                    &&& final(self).approvals_view() == old(self).approvals_view().insert(
                        token_id,
                        *to,
                    )
                    &&& final(self).events_view() == old(self).events_view().push(
                        Event::Approval(
                            Approval {
                                owner: Some(old(self).owners_view()[token_id]),
                                to: *to,
                                token_id,
                            },
                        ),
                    )
                    &&& final(self).owners_view() == old(self).owners_view()
                    &&& final(self).balances_view() == old(self).balances_view()
                    &&& final(self).operators_view() == old(self).operators_view()
                },
                Err(e) => {
                    &&& *final(self) == *old(self)
                    &&& {
                        let owner = old(self).owners_view()[token_id];
                        let authorized = owner == caller || approved_for_all_rec(
                            old(self).operators_view(),
                            owner,
                            caller,
                        );
                        &&& (e == Error::NotAllowed <==> (!authorized || *to == ZERO_ACCOUNT))
                        &&& (e == Error::CannotInsert <==> (authorized && *to != ZERO_ACCOUNT
                            && old(self).approvals_view().contains_key(token_id)))
                        &&& (e == Error::NotAllowed || e == Error::CannotInsert)
                    }
                },
            },
    {
        let owner = match self.owner_of(token_id) {
            Some(a) => a,
            None => {
                return Err(Error::CannotFetchValue);
            },
        };
        if !(owner == caller || self._is_approved_for_all(owner, caller)) {
            return Err(Error::NotAllowed);
        }
        if *to == ZERO_ACCOUNT {
            return Err(Error::NotAllowed);
        }
        if self._token_approvals.contains_key(&token_id) {
            return Err(Error::CannotInsert);
        }
        self._token_approvals.insert(token_id, *to);
        self.events.push(
            Event::Approval(Approval { owner: Some(owner), to: *to, token_id }),
        );
        Ok(())
    }

    /// Transfers `token_id` from the caller to `destination`.
    pub fn transfer(&mut self, caller: AccountId, destination: AccountId, token_id: TokenId) -> (r:
        Result<(), Error>)
        ensures
            transfer_from_contract(
                *old(self),
                *final(self),
                r,
                caller,
                caller,
                destination,
                token_id,
            ),
    {
        self._transfer_from(caller, &caller, &destination, token_id)
    }

    /// Transfers `token_id` from `from` to `destination` on behalf of the
    /// caller, who must be approved or the owner.
    pub fn transfer_from(
        &mut self,
        caller: AccountId,
        from: AccountId,
        destination: AccountId,
        token_id: TokenId,
    ) -> (r: Result<(), Error>)
        ensures
            transfer_from_contract(
                *old(self),
                *final(self),
                r,
                caller,
                from,
                destination,
                token_id,
            ),
    {
        self._transfer_from(caller, &from, &destination, token_id)
    }

    fn _transfer_from(
        &mut self,
        caller: AccountId,
        from: &AccountId,
        to: &AccountId,
        token_id: TokenId,
    ) -> (r: Result<(), Error>)
        ensures
            transfer_from_contract(*old(self), *final(self), r, caller, *from, *to, token_id),
    {
        if !self._exists(token_id) {
            return Err(Error::TokenNotFound);
        }
        if !self._is_approved_or_owner(caller, token_id) {
            return Err(Error::NotApproved);
        }
        self._clear_approval(token_id);
        match self._remove_token_from(from, token_id) {
            Ok(u) => {},
            Err(e) => {
                return Err(e);
            },
        }
        match self._add_token_to(to, token_id) {
            Ok(u) => {},
            Err(e) => {
                return Err(e);
            },
        }
        self.events.push(
            Event::Transfer(Transfer { from: Some(*from), to: Some(*to), token_id }),
        );
        Ok(())
    }

    fn _is_approved_or_owner(&self, spender: AccountId, token_id: TokenId) -> (r: bool)
        requires
            self.owners_view().contains_key(token_id),
        ensures
            r == is_approved_or_owner_spec(
                self.owners_view(),
                self.approvals_view(),
                self.operators_view(),
                spender,
                token_id,
            ),
    {
        let owner = match self.owner_of(token_id) {
            Some(a) => a,
            None => {
                return false;
            },
        };
        if spender == ZERO_ACCOUNT {
            return false;
        }
        if spender == owner {
            return true;
        }
        let approved = match self.get_approved(token_id) {
            Some(a) => a == spender,
            None => false,
        };
        if approved {
            return true;
        }
        self._is_approved_for_all(owner, spender)
    }

    fn _exists(&self, token_id: TokenId) -> (r: bool)
        ensures
            r == self.owners_view().contains_key(token_id),
    {
        self._owners.contains_key(&token_id)
    }

    /// Removes any per-token approval of `token_id`.
    fn _clear_approval(&mut self, token_id: TokenId)
        ensures
            final(self).approvals_view() == old(self).approvals_view().remove(token_id),
            final(self).owners_view() == old(self).owners_view(),
            final(self).balances_view() == old(self).balances_view(),
            final(self).operators_view() == old(self).operators_view(),
            final(self).events_view() == old(self).events_view(),
    {
        let removed = self._token_approvals.remove(&token_id);
        proof {
            if removed is None {
                assert(self.approvals_view() =~= old(self).approvals_view().remove(token_id));
            }
        }
    }

    /// Removes token `token_id` from `from`'s holdings.
    fn _remove_token_from(&mut self, from: &AccountId, token_id: TokenId) -> (r: Result<(), Error>)
        ensures
            match r {
                Ok(u) => {
                    &&& old(self).owners_view().contains_key(token_id)
                    &&& old(self).balances_view().contains_key(*from)
                    &&& old(self).balances_view()[*from] > 0
                    &&& final(self).owners_view() == old(self).owners_view().remove(token_id)
                    &&& final(self).balances_view() == old(self).balances_view().insert(
                        *from,
                        (old(self).balances_view()[*from] - 1) as Balance,
                    )
                    &&& final(self).approvals_view() == old(self).approvals_view()
                    &&& final(self).operators_view() == old(self).operators_view()
                    &&& final(self).events_view() == old(self).events_view()
                },
                Err(e) => {
                    &&& *final(self) == *old(self)
                    &&& (e == Error::TokenNotFound <==> !old(self).owners_view().contains_key(
                        token_id,
                    ))
                    &&& (e == Error::CannotFetchValue <==> (old(self).owners_view().contains_key(
                        token_id,
                    ) && bal_of(old(self).balances_view(), *from) == 0))
                    &&& (e == Error::TokenNotFound || e == Error::CannotFetchValue)
                },
            },
    {
        if !self._owners.contains_key(&token_id) {
            return Err(Error::TokenNotFound);
        }
        let count = match self._balances.get(from) {
            Some(c) => *c,
            None => {
                return Err(Error::CannotFetchValue);
            },
        };
        if count == 0 {
            // The recorded count of an actual holder is never zero; treat a
            // zero count like a missing one rather than underflow.
            return Err(Error::CannotFetchValue);
        }
        self._balances.insert(*from, count - 1);
        self._owners.remove(&token_id);
        Ok(())
    }

    /// Assigns token `token_id` to `to`.
    fn _add_token_to(&mut self, to: &AccountId, token_id: TokenId) -> (r: Result<(), Error>)
        ensures
            match r {
                Ok(u) => {
                    &&& !old(self).owners_view().contains_key(token_id)
                    &&& *to != ZERO_ACCOUNT
                    &&& bal_of(old(self).balances_view(), *to) < u128::MAX
                    &&& final(self).owners_view() == old(self).owners_view().insert(token_id, *to)
                    &&& final(self).balances_view() == old(self).balances_view().insert(
                        *to,
                        (bal_of(old(self).balances_view(), *to) + 1) as Balance,
                    )
                    &&& final(self).approvals_view() == old(self).approvals_view()
                    &&& final(self).operators_view() == old(self).operators_view()
                    &&& final(self).events_view() == old(self).events_view()
                },
                Err(e) => {
                    &&& *final(self) == *old(self)
                    &&& (e == Error::TokenExists <==> old(self).owners_view().contains_key(
                        token_id,
                    ))
                    &&& (e == Error::NotAllowed <==> (!old(self).owners_view().contains_key(
                        token_id,
                    ) && *to == ZERO_ACCOUNT))
                    &&& (e == Error::CannotInsert <==> (!old(self).owners_view().contains_key(
                        token_id,
                    ) && *to != ZERO_ACCOUNT && bal_of(old(self).balances_view(), *to)
                        == u128::MAX))
                    &&& (e == Error::TokenExists || e == Error::NotAllowed || e
                        == Error::CannotInsert)
                },
            },
    {
        if self._owners.contains_key(&token_id) {
            return Err(Error::TokenExists);
        }
        if *to == ZERO_ACCOUNT {
            return Err(Error::NotAllowed);
        }
        let count = match self._balances.get(to) {
            Some(c) => *c,
            None => 0,
        };
        if count == u128::MAX {
            // The count of distinct tokens can never reach the capacity of
            // the counter; refuse rather than overflow.
            return Err(Error::CannotInsert);
        }
        self._balances.insert(*to, count + 1);
        self._owners.insert(token_id, *to);
        Ok(())
    }

    /// Creates token `token_id` and assigns it to the caller.
    pub fn mint(&mut self, caller: AccountId, token_id: TokenId) -> (r: Result<(), Error>)
        ensures
            match r {
                Ok(u) => {
                    &&& !old(self).owners_view().contains_key(token_id)
                    &&& caller != ZERO_ACCOUNT
                    &&& bal_of(old(self).balances_view(), caller) < u128::MAX
                    &&& final(self).owners_view() == old(self).owners_view().insert(
                        token_id,
                        caller,
                    )
                    &&& final(self).balances_view() == old(self).balances_view().insert(
                        caller,
                        (bal_of(old(self).balances_view(), caller) + 1) as Balance,
                    )
                    &&& final(self).approvals_view() == old(self).approvals_view()
                    &&& final(self).operators_view() == old(self).operators_view()
                    &&& final(self).events_view() == old(self).events_view().push(
                        Event::Transfer(
                            Transfer {
                                from: Some(ZERO_ACCOUNT),
                                to: Some(caller),
                                token_id,
                            },
                        ),
                    )
                },
                Err(e) => {
                    &&& *final(self) == *old(self)
                    &&& (e == Error::TokenExists <==> old(self).owners_view().contains_key(
                        token_id,
                    ))
                    &&& (e == Error::NotAllowed <==> (!old(self).owners_view().contains_key(
                        token_id,
                    ) && caller == ZERO_ACCOUNT))
                    &&& (e == Error::CannotInsert <==> (!old(self).owners_view().contains_key(
                        token_id,
                    ) && caller != ZERO_ACCOUNT && bal_of(old(self).balances_view(), caller)
                        == u128::MAX))
                    &&& (e == Error::TokenExists || e == Error::NotAllowed || e
                        == Error::CannotInsert)
                },
            },
    {
        match self._add_token_to(&caller, token_id) {
            Ok(u) => {},
            Err(e) => {
                return Err(e);
            },
        }
        self.events.push(
            Event::Transfer(
                Transfer { from: Some(ZERO_ACCOUNT), to: Some(caller), token_id },
            ),
        );
        Ok(())
    }

    /// Deletes token `token_id`.  Only its owner may burn it.
    pub fn burn(&mut self, caller: AccountId, token_id: TokenId) -> (r: Result<(), Error>)
        ensures
            match r {
                Ok(u) => {
                    &&& old(self).owners_view().contains_key(token_id)
                    &&& old(self).owners_view()[token_id] == caller
                    &&& old(self).balances_view().contains_key(caller)
                    &&& old(self).balances_view()[caller] > 0
                    &&& final(self).owners_view() == old(self).owners_view().remove(token_id)
                    &&& final(self).balances_view() == old(self).balances_view().insert(
                        caller,
                        (old(self).balances_view()[caller] - 1) as Balance,
                    )
                    &&& final(self).approvals_view() == old(self).approvals_view()
                    &&& final(self).operators_view() == old(self).operators_view()
                    &&& final(self).events_view() == old(self).events_view().push(
                        Event::Transfer(
                            Transfer {
                                from: Some(caller),
                                to: Some(ZERO_ACCOUNT),
                                token_id,
                            },
                        ),
                    )
                },
                Err(e) => {
                    &&& *final(self) == *old(self)
                    &&& (e == Error::TokenNotFound <==> !old(self).owners_view().contains_key(
                        token_id,
                    ))
                    &&& (e == Error::NotOwner <==> (old(self).owners_view().contains_key(token_id)
                        && old(self).owners_view()[token_id] != caller))
                    &&& (e == Error::CannotFetchValue <==> (old(self).owners_view().contains_key(
                        token_id,
                    ) && old(self).owners_view()[token_id] == caller && bal_of(
                        old(self).balances_view(),
                        caller,
                    ) == 0))
                    &&& (e == Error::TokenNotFound || e == Error::NotOwner || e
                        == Error::CannotFetchValue)
                },
            },
    {
        let owner = match self._owners.get(&token_id) {
            Some(o) => *o,
            None => {
                return Err(Error::TokenNotFound);
            },
        };
        if owner != caller {
            return Err(Error::NotOwner);
        }
        let count = match self._balances.get(&caller) {
            Some(c) => *c,
            None => {
                return Err(Error::CannotFetchValue);
            },
        };
        if count == 0 {
            // The recorded count of an actual holder is never zero; treat a
            // zero count like a missing one rather than underflow.
            return Err(Error::CannotFetchValue);
        }
        self._balances.insert(caller, count - 1);
        self._owners.remove(&token_id);
        self.events.push(
            Event::Transfer(
                Transfer { from: Some(caller), to: Some(ZERO_ACCOUNT), token_id },
            ),
        );
        Ok(())
    }
}

/// Full contract of a transfer: on success the token moves from `from` to
/// `to`, the per-token approval is cleared and the counts move by one; each
/// error names its exact cause, and the state it leaves behind reflects how
/// far the operation came before failing.
pub open spec fn transfer_from_contract(
    pre: Erc721,
    post: Erc721,
    r: Result<(), Error>,
    caller: AccountId,
    from: AccountId,
    to: AccountId,
    token_id: TokenId,
) -> bool {
    let exists = pre.owners_view().contains_key(token_id);
    let approved = is_approved_or_owner_spec(
        pre.owners_view(),
        pre.approvals_view(),
        pre.operators_view(),
        caller,
        token_id,
    );
    let from_ok = pre.balances_view().contains_key(from) && pre.balances_view()[from] > 0;
    let bal1 = pre.balances_view().insert(from, (pre.balances_view()[from] - 1) as Balance);
    match r {
        Ok(u) => {
            &&& exists
            &&& approved
            &&& from_ok
            &&& to != ZERO_ACCOUNT
            &&& bal_of(bal1, to) < u128::MAX
            &&& post.owners_view() == pre.owners_view().remove(token_id).insert(token_id, to)
            &&& post.balances_view() == bal1.insert(to, (bal_of(bal1, to) + 1) as Balance)
            &&& post.approvals_view() == pre.approvals_view().remove(token_id)
            &&& post.operators_view() == pre.operators_view()
            &&& post.events_view() == pre.events_view().push(
                Event::Transfer(Transfer { from: Some(from), to: Some(to), token_id }),
            )
        },
        Err(e) => {
            &&& (e == Error::TokenNotFound <==> !exists)
            &&& (e == Error::NotApproved <==> (exists && !approved))
            &&& (e == Error::CannotFetchValue <==> (exists && approved && !from_ok))
            &&& (e == Error::NotAllowed <==> (exists && approved && from_ok && to == ZERO_ACCOUNT))
            &&& (e == Error::CannotInsert <==> (exists && approved && from_ok && to != ZERO_ACCOUNT
                && bal_of(bal1, to) == u128::MAX))
            &&& (e == Error::TokenNotFound || e == Error::NotApproved || e
                == Error::CannotFetchValue || e == Error::NotAllowed || e == Error::CannotInsert)
            &&& ((e == Error::TokenNotFound || e == Error::NotApproved) ==> post == pre)
            &&& (e == Error::CannotFetchValue ==> post.owners_view() == pre.owners_view()
                && post.balances_view() == pre.balances_view() && post.approvals_view()
                == pre.approvals_view().remove(token_id) && post.operators_view()
                == pre.operators_view() && post.events_view() == pre.events_view())
            &&& ((e == Error::NotAllowed || e == Error::CannotInsert) ==> post.owners_view()
                == pre.owners_view().remove(token_id) && post.balances_view() == bal1
                && post.approvals_view() == pre.approvals_view().remove(token_id)
                && post.operators_view() == pre.operators_view() && post.events_view()
                == pre.events_view())
        },
    }
}

} // verus!
