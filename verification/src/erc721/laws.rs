//! What holds of the token ledger whatever calls are made.

use vstd::prelude::*;
use crate::hash::H256;
use crate::erc721::{AccountId, Call, Error, OwnedSlot, TokenIndex};
use crate::erc721::state::Ledger;

verus! {

impl Ledger {
    /// The empty ledger is consistent.
    pub proof fn lemma_empty_inv()
        ensures
            Ledger::empty().inv(),
    {
    }

    /// A token that exists stands in both enumerations, so neither counter is
    /// at zero.
    pub proof fn lemma_owned_position(self, token_id: H256)
        requires
            self.inv(),
            self.has_token(token_id),
        ensures
            self.total_supply > 0,
            self.balance_of(self.token_owner[token_id]) > 0,
            self.all_tokens_index.contains_key(token_id),
            self.owned_tokens_index.contains_key(token_id),
            self.all_tokens.contains_key((self.total_supply - 1) as TokenIndex),
            self.owned_tokens.contains_key(
                OwnedSlot {
                    owner: self.token_owner[token_id],
                    index: (self.balance_of(self.token_owner[token_id]) - 1) as TokenIndex,
                },
            ),
            self.burn_error(token_id) is None,
    {
        let owner = self.token_owner[token_id];
        let slot = OwnedSlot { owner, index: (self.balance_of(owner) - 1) as TokenIndex };
        assert(self.owned_tokens.contains_key(slot) <==> slot.index < self.balance_of(slot.owner));
        assert(self.all_tokens.contains_key((self.total_supply - 1) as TokenIndex));
    }

    /// Minting keeps the ledger consistent.
    pub proof fn lemma_minted_inv(self, to: AccountId, token_id: H256)
        requires
            self.inv(),
            self.mint_error(to, token_id) is None,
        ensures
            self.minted(to, token_id).inv(),
    {
    }

    /// What minting does, seen from outside: the token gets its owner, stands
    /// last in both enumerations, both counters grow by one, and nothing
    /// else changes hands.
    pub proof fn lemma_minted_effect(self, to: AccountId, token_id: H256)
        requires
            self.inv(),
            self.mint_error(to, token_id) is None,
        ensures
            self.minted(to, token_id).owner_of(token_id) == Some(to),
            self.minted(to, token_id).get_approved(token_id) is None,
            self.minted(to, token_id).total_supply == self.total_supply + 1,
            self.minted(to, token_id).balance_of(to) == self.balance_of(to) + 1,
            self.minted(to, token_id).token_by_index(self.total_supply) == token_id,
            self.minted(to, token_id).token_of_owner_by_index(to, self.balance_of(to))
                == token_id,
            forall|t: H256|
                t != token_id ==> #[trigger] self.minted(to, token_id).owner_of(t)
                    == self.owner_of(t),
            forall|t: H256|
                t != token_id ==> #[trigger] self.minted(to, token_id).get_approved(t)
                    == self.get_approved(t),
            forall|a: AccountId|
                a != to ==> #[trigger] self.minted(to, token_id).balance_of(a) == self.balance_of(
                    a,
                ),
            forall|i: TokenIndex|
                i < self.total_supply ==> #[trigger] self.minted(to, token_id).token_by_index(i)
                    == self.token_by_index(i),
            forall|a: AccountId, i: TokenIndex|
                i < self.balance_of(a) ==> #[trigger] self.minted(
                    to,
                    token_id,
                ).token_of_owner_by_index(a, i) == self.token_of_owner_by_index(a, i),
    {
        if self.token_approvals.contains_key(token_id) {
            assert(self.token_owner.contains_key(token_id));
        }
    }

    /// What burning does, seen from outside: the token has no owner and no
    /// delegate any more, both counters shrink by one, the last token of each
    /// enumeration stands where the burnt one stood, and nothing else changes
    /// hands.
    pub proof fn lemma_burnt_effect(self, token_id: H256)
        requires
            self.inv(),
            self.has_token(token_id),
        ensures
            self.burnt(token_id).owner_of(token_id) is None,
            self.burnt(token_id).get_approved(token_id) is None,
            self.burnt(token_id).total_supply == self.total_supply - 1,
            self.burnt(token_id).balance_of(self.token_owner[token_id]) == self.balance_of(
                self.token_owner[token_id],
            ) - 1,
            forall|t: H256|
                t != token_id ==> #[trigger] self.burnt(token_id).owner_of(t) == self.owner_of(t),
            forall|t: H256|
                t != token_id ==> #[trigger] self.burnt(token_id).get_approved(t)
                    == self.get_approved(t),
            forall|a: AccountId|
                a != self.token_owner[token_id] ==> #[trigger] self.burnt(token_id).balance_of(a)
                    == self.balance_of(a),
            forall|i: TokenIndex|
                i < self.total_supply - 1 ==> #[trigger] self.burnt(token_id).token_by_index(i)
                    == if i == self.all_tokens_index[token_id] {
                    self.token_by_index((self.total_supply - 1) as TokenIndex)
                } else {
                    self.token_by_index(i)
                },
            forall|i: TokenIndex|
                i < self.balance_of(self.token_owner[token_id]) - 1 ==> #[trigger] self.burnt(
                    token_id,
                ).token_of_owner_by_index(self.token_owner[token_id], i) == if i
                    == self.owned_tokens_index[token_id] {
                    self.token_of_owner_by_index(
                        self.token_owner[token_id],
                        (self.balance_of(self.token_owner[token_id]) - 1) as TokenIndex,
                    )
                } else {
                    self.token_of_owner_by_index(self.token_owner[token_id], i)
                },
    {
        self.lemma_owned_position(token_id);
        let owner = self.token_owner[token_id];
        let last = (self.total_supply - 1) as TokenIndex;
        let own_last = (self.balance_of(owner) - 1) as TokenIndex;
        assert(self.all_tokens.contains_key(last));
        assert(self.owned_tokens.contains_key(OwnedSlot { owner, index: own_last }));
    }

    /// What a transfer does, seen from outside: the token has its new owner
    /// and no delegate, stands last in the new owner's enumeration, the last
    /// token of the old owner stands where it stood, the balances follow, and
    /// the enumeration of all tokens is as it was.
    pub proof fn lemma_transferred_effect(self, from: AccountId, to: AccountId, token_id: H256)
        requires
            self.inv(),
            self.has_token(token_id),
            self.token_owner[token_id] == from,
            to == from || self.balance_of(to) < TokenIndex::MAX,
        ensures
            self.transferred(from, to, token_id).owner_of(token_id) == Some(to),
            self.transferred(from, to, token_id).get_approved(token_id) is None,
            self.transferred(from, to, token_id).total_supply == self.total_supply,
            self.transferred(from, to, token_id).all_tokens == self.all_tokens,
            self.transferred(from, to, token_id).all_tokens_index == self.all_tokens_index,
            to != from ==> self.transferred(from, to, token_id).balance_of(from)
                == self.balance_of(from) - 1,
            to != from ==> self.transferred(from, to, token_id).balance_of(to) == self.balance_of(
                to,
            ) + 1,
            to == from ==> self.transferred(from, to, token_id).balance_of(to) == self.balance_of(
                to,
            ),
            self.transferred(from, to, token_id).token_of_owner_by_index(
                to,
                (self.transferred(from, to, token_id).balance_of(to) - 1) as TokenIndex,
            ) == token_id,
            forall|t: H256|
                t != token_id ==> #[trigger] self.transferred(from, to, token_id).owner_of(t)
                    == self.owner_of(t),
            forall|t: H256|
                t != token_id ==> #[trigger] self.transferred(from, to, token_id).get_approved(t)
                    == self.get_approved(t),
            forall|a: AccountId|
                a != from && a != to ==> #[trigger] self.transferred(from, to, token_id).balance_of(
                    a,
                ) == self.balance_of(a),
    {
        self.lemma_owned_position(token_id);
    }

    /// Burning keeps the ledger consistent.
    pub proof fn lemma_burnt_inv(self, token_id: H256)
        requires
            self.inv(),
            self.burn_error(token_id) is None,
        ensures
            self.burnt(token_id).inv(),
    {
        let owner = self.token_owner[token_id];
        let last = (self.total_supply - 1) as TokenIndex;
        let own_last = (self.balance_of(owner) - 1) as TokenIndex;
        let last_slot = OwnedSlot { owner, index: own_last };
        let after = self.burnt(token_id);
        assert(self.all_tokens.contains_key(last));
        assert(self.owned_tokens.contains_key(last_slot));
        assert(self.token_owner.contains_key(self.all_tokens[last]));
        assert(self.token_owner.contains_key(self.owned_tokens[last_slot]));
        assert(self.all_tokens.contains_key(self.all_tokens_index[token_id]));
        assert(self.owned_tokens.contains_key(
            OwnedSlot { owner, index: self.owned_tokens_index[token_id] },
        ));
        assert forall|t: H256| #[trigger] after.token_owner.contains_key(t) implies {
            &&& after.all_tokens_index.contains_key(t)
            &&& after.all_tokens_index[t] < after.total_supply
            &&& after.all_tokens[after.all_tokens_index[t]] == t
            &&& after.owned_tokens_index.contains_key(t)
            &&& after.owned_tokens_index[t] < after.balance_of(after.token_owner[t])
            &&& after.owned_tokens[OwnedSlot {
                owner: after.token_owner[t],
                index: after.owned_tokens_index[t],
            }] == t
        } by {
            assert(self.token_owner.contains_key(t));
            assert(self.all_tokens.contains_key(self.all_tokens_index[t]));
            assert(self.owned_tokens.contains_key(
                OwnedSlot { owner: self.token_owner[t], index: self.owned_tokens_index[t] },
            ));
        }
        assert forall|i: TokenIndex| #[trigger]
            after.all_tokens.contains_key(i) implies {
            &&& after.token_owner.contains_key(after.all_tokens[i])
            &&& after.all_tokens_index[after.all_tokens[i]] == i
        } by {
            assert(self.all_tokens.contains_key(i));
        }
        assert forall|s: OwnedSlot| #[trigger]
            after.owned_tokens.contains_key(s) implies {
            &&& after.token_owner.contains_key(after.owned_tokens[s])
            &&& after.token_owner[after.owned_tokens[s]] == s.owner
            &&& after.owned_tokens_index[after.owned_tokens[s]] == s.index
        } by {
            assert(self.owned_tokens.contains_key(s));
        }
        assert forall|s: OwnedSlot| #[trigger]
            after.owned_tokens.contains_key(s) <==> s.index < after.balance_of(s.owner) by {
            assert(self.owned_tokens.contains_key(s) <==> s.index < self.balance_of(s.owner));
        }
    }

    /// A transfer keeps the ledger consistent.
    pub proof fn lemma_transferred_inv(self, from: AccountId, to: AccountId, token_id: H256)
        requires
            self.inv(),
            self.has_token(token_id),
            self.token_owner[token_id] == from,
            to == from || self.balance_of(to) < TokenIndex::MAX,
        ensures
            self.transferred(from, to, token_id).inv(),
    {
        let own_last = (self.balance_of(from) - 1) as TokenIndex;
        let last_slot = OwnedSlot { owner: from, index: own_last };
        let after = self.transferred(from, to, token_id);
        assert(self.owned_tokens.contains_key(last_slot));
        assert(self.token_owner.contains_key(self.owned_tokens[last_slot]));
        assert(self.owned_tokens.contains_key(
            OwnedSlot { owner: from, index: self.owned_tokens_index[token_id] },
        ));
        assert forall|t: H256| #[trigger] after.token_owner.contains_key(t) implies {
            &&& after.all_tokens_index.contains_key(t)
            &&& after.all_tokens_index[t] < after.total_supply
            &&& after.all_tokens[after.all_tokens_index[t]] == t
            &&& after.owned_tokens_index.contains_key(t)
            &&& after.owned_tokens_index[t] < after.balance_of(after.token_owner[t])
            &&& after.owned_tokens[OwnedSlot {
                owner: after.token_owner[t],
                index: after.owned_tokens_index[t],
            }] == t
        } by {
            assert(self.token_owner.contains_key(t));
            assert(self.owned_tokens.contains_key(
                OwnedSlot { owner: self.token_owner[t], index: self.owned_tokens_index[t] },
            ));
        }
        assert forall|i: TokenIndex| #[trigger]
            after.all_tokens.contains_key(i) implies {
            &&& after.token_owner.contains_key(after.all_tokens[i])
            &&& after.all_tokens_index[after.all_tokens[i]] == i
        } by {
            assert(self.all_tokens.contains_key(i));
        }
        assert forall|s: OwnedSlot| #[trigger]
            after.owned_tokens.contains_key(s) <==> s.index < after.balance_of(s.owner) by {
            assert(self.owned_tokens.contains_key(s) <==> s.index < self.balance_of(s.owner));
        }
        assert forall|s: OwnedSlot| #[trigger]
            after.owned_tokens.contains_key(s) implies {
            &&& after.token_owner.contains_key(after.owned_tokens[s])
            &&& after.token_owner[after.owned_tokens[s]] == s.owner
            &&& after.owned_tokens_index[after.owned_tokens[s]] == s.index
        } by {
            assert(self.owned_tokens.contains_key(s) <==> s.index < self.balance_of(s.owner));
            if self.owned_tokens.contains_key(s) {
                assert(self.token_owner.contains_key(self.owned_tokens[s]));
            }
        }
    }

    /// Naming a delegate for a token that exists keeps the ledger consistent.
    pub proof fn lemma_approved_inv(self, to: AccountId, token_id: H256)
        requires
            self.inv(),
            self.has_token(token_id),
        ensures
            self.approved(to, token_id).inv(),
    {
        let after = self.approved(to, token_id);
        assert forall|t: H256| #[trigger] after.token_approvals.contains_key(t) implies
            after.token_owner.contains_key(t) by {
            if t != token_id {
                assert(self.token_approvals.contains_key(t));
            }
        }
    }

    /// Switching an operator on or off keeps the ledger consistent.
    pub proof fn lemma_with_approval_for_all_inv(self, sender: AccountId, to: AccountId, approved: bool)
        requires
            self.inv(),
        ensures
            self.with_approval_for_all(sender, to, approved).inv(),
    {
    }

    /// Every call keeps the ledger consistent, whether it goes through or is
    /// turned down.
    pub proof fn lemma_step_inv(self, origin: AccountId, call: Call)
        requires
            self.inv(),
        ensures
            self.step(origin, call).inv(),
    {
        if self.outcome(origin, call) is Ok {
            match call {
                Call::Mint { token_id } => {
                    self.lemma_minted_inv(origin, token_id);
                },
                Call::Burn { token_id } => {
                    self.lemma_burnt_inv(token_id);
                },
                Call::Approve { to, token_id } => {
                    self.lemma_approved_inv(to, token_id);
                },
                Call::SetApprovalForAll { to, approved } => {
                    self.lemma_with_approval_for_all_inv(origin, to, approved);
                },
                Call::TransferFrom { from, to, token_id } => {
                    self.lemma_transferred_inv(from, to, token_id);
                },
                Call::CreateToken { seed } => {
                    self.lemma_minted_inv(
                        origin,
                        crate::erc721::state::fresh_token_id(seed, origin, self.nonce),
                    );
                },
            }
        }
    }

    /// The ledger is consistent after every sequence of calls.
    pub proof fn lemma_run_inv(self, calls: Seq<(AccountId, Call)>)
        requires
            self.inv(),
        ensures
            self.run(calls).inv(),
        decreases calls.len(),
    {
        if calls.len() > 0 {
            self.lemma_run_inv(calls.drop_last());
            self.run(calls.drop_last()).lemma_step_inv(calls.last().0, calls.last().1);
        }
    }

    /// A call that is turned down changes nothing, so the same call made
    /// again is turned down in the same way and again changes nothing.
    pub proof fn lemma_rejected_call_repeats(self, origin: AccountId, call: Call)
        requires
            self.outcome(origin, call) is Err,
        ensures
            self.step(origin, call) == self,
            self.step(origin, call).outcome(origin, call) == self.outcome(origin, call),
            self.step(origin, call).step(origin, call) == self,
    {
    }

    /// The enumeration of an owner is exact: its positions below the balance
    /// are all filled, the tokens they hold are owned by that owner, no two
    /// of them hold the same token, and every token of the owner stands at
    /// the one position its index names.
    pub proof fn lemma_owner_enumeration_exact(self, owner: AccountId)
        requires
            self.inv(),
        ensures
            forall|i: TokenIndex|
                i < self.balance_of(owner) ==> {
                    &&& self.owned_tokens.contains_key(OwnedSlot { owner, index: i })
                    &&& self.owner_of(#[trigger] self.token_of_owner_by_index(owner, i)) == Some(
                        owner,
                    )
                    &&& self.owned_tokens_index[self.token_of_owner_by_index(owner, i)] == i
                },
            forall|i: TokenIndex, j: TokenIndex|
                i < self.balance_of(owner) && j < self.balance_of(owner) && i != j
                    ==> #[trigger] self.token_of_owner_by_index(owner, i)
                    != #[trigger] self.token_of_owner_by_index(owner, j),
            forall|t: H256|
                self.owner_of(t) == Some(owner) ==> {
                    &&& #[trigger] self.owned_tokens_index[t] < self.balance_of(owner)
                    &&& self.token_of_owner_by_index(owner, self.owned_tokens_index[t]) == t
                },
    {
        assert forall|i: TokenIndex| i < self.balance_of(owner) implies {
            &&& self.owned_tokens.contains_key(OwnedSlot { owner, index: i })
            &&& self.owner_of(#[trigger] self.token_of_owner_by_index(owner, i)) == Some(owner)
            &&& self.owned_tokens_index[self.token_of_owner_by_index(owner, i)] == i
        } by {
            let slot = OwnedSlot { owner, index: i };
            assert(self.owned_tokens.contains_key(slot) <==> slot.index < self.balance_of(
                slot.owner,
            ));
        }
        assert forall|t: H256| self.owner_of(t) == Some(owner) implies {
            &&& #[trigger] self.owned_tokens_index[t] < self.balance_of(owner)
            &&& self.token_of_owner_by_index(owner, self.owned_tokens_index[t]) == t
        } by {
            assert(self.token_owner.contains_key(t));
        }
    }

    /// The tokens of `owner` whose position in the owner's enumeration is
    /// below `n`.
    pub open spec fn tokens_below(self, owner: AccountId, n: nat) -> Set<H256> {
        Set::new(|t: H256| self.owner_of(t) == Some(owner) && self.owned_tokens_index[t] < n)
    }

    proof fn lemma_tokens_below_len(self, owner: AccountId, n: nat)
        requires
            self.inv(),
            n <= self.balance_of(owner),
        ensures
            self.tokens_below(owner, n).finite(),
            self.tokens_below(owner, n).len() == n,
        decreases n,
    {
        if n == 0 {
            assert(self.tokens_below(owner, 0) =~= Set::<H256>::empty());
        } else {
            let last = (n - 1) as TokenIndex;
            let slot = OwnedSlot { owner, index: last };
            let t = self.owned_tokens[slot];
            self.lemma_tokens_below_len(owner, (n - 1) as nat);
            assert(self.owned_tokens.contains_key(slot) <==> slot.index < self.balance_of(
                slot.owner,
            ));
            assert forall|u: H256| #[trigger]
                self.tokens_below(owner, n).contains(u) <==> self.tokens_below(
                    owner,
                    (n - 1) as nat,
                ).insert(t).contains(u) by {
                if self.owner_of(u) == Some(owner) && self.owned_tokens_index[u] == last {
                    assert(self.token_owner.contains_key(u));
                }
            }
            assert(self.tokens_below(owner, n) =~= self.tokens_below(owner, (n - 1) as nat).insert(
                t,
            ));
            assert(!self.tokens_below(owner, (n - 1) as nat).contains(t));
        }
    }

    /// The balance of an account is the number of tokens it owns.
    pub proof fn lemma_balance_counts_owned_tokens(self, owner: AccountId)
        requires
            self.inv(),
        ensures
            self.tokens_of(owner).finite(),
            self.tokens_of(owner).len() == self.balance_of(owner),
    {
        let n = self.balance_of(owner) as nat;
        self.lemma_tokens_below_len(owner, n);
        assert forall|t: H256| #[trigger] self.tokens_of(owner).contains(t) implies self.tokens_below(
            owner,
            n,
        ).contains(t) by {
            assert(self.token_owner.contains_key(t));
        }
        assert(self.tokens_of(owner) =~= self.tokens_below(owner, n));
    }

    /// The enumeration of all tokens is exact: its positions below the total
    /// supply are all filled with tokens that exist, no two of them hold the
    /// same token, and every token that exists stands at the one position
    /// its index names.
    pub proof fn lemma_all_tokens_enumeration_exact(self)
        requires
            self.inv(),
        ensures
            forall|i: TokenIndex|
                i < self.total_supply ==> {
                    &&& self.all_tokens.contains_key(i)
                    &&& self.has_token(#[trigger] self.token_by_index(i))
                    &&& self.all_tokens_index[self.token_by_index(i)] == i
                },
            forall|i: TokenIndex, j: TokenIndex|
                i < self.total_supply && j < self.total_supply && i != j
                    ==> #[trigger] self.token_by_index(i) != #[trigger] self.token_by_index(j),
            forall|t: H256|
                self.has_token(t) ==> {
                    &&& #[trigger] self.all_tokens_index[t] < self.total_supply
                    &&& self.token_by_index(self.all_tokens_index[t]) == t
                },
    {
        assert forall|i: TokenIndex| i < self.total_supply implies {
            &&& self.all_tokens.contains_key(i)
            &&& self.has_token(#[trigger] self.token_by_index(i))
            &&& self.all_tokens_index[self.token_by_index(i)] == i
        } by {
            assert(self.all_tokens.contains_key(i));
        }
    }

    /// The tokens whose position in the enumeration of all tokens is below
    /// `n`.
    pub open spec fn tokens_before(self, n: nat) -> Set<H256> {
        Set::new(|t: H256| self.has_token(t) && self.all_tokens_index[t] < n)
    }

    proof fn lemma_tokens_before_len(self, n: nat)
        requires
            self.inv(),
            n <= self.total_supply,
        ensures
            self.tokens_before(n).finite(),
            self.tokens_before(n).len() == n,
        decreases n,
    {
        if n == 0 {
            assert(self.tokens_before(0) =~= Set::<H256>::empty());
        } else {
            let last = (n - 1) as TokenIndex;
            let t = self.all_tokens[last];
            self.lemma_tokens_before_len((n - 1) as nat);
            assert(self.all_tokens.contains_key(last));
            assert forall|u: H256| #[trigger]
                self.tokens_before(n).contains(u) <==> self.tokens_before((n - 1) as nat).insert(
                    t,
                ).contains(u) by {
                if self.has_token(u) && self.all_tokens_index[u] == last {
                    assert(self.token_owner.contains_key(u));
                }
            }
            assert(self.tokens_before(n) =~= self.tokens_before((n - 1) as nat).insert(t));
            assert(!self.tokens_before((n - 1) as nat).contains(t));
        }
    }

    /// The total supply is the number of tokens that exist.
    pub proof fn lemma_total_supply_counts_tokens(self)
        requires
            self.inv(),
        ensures
            self.token_owner.dom().finite(),
            self.token_owner.dom().len() == self.total_supply,
    {
        let n = self.total_supply as nat;
        self.lemma_tokens_before_len(n);
        assert forall|t: H256| #[trigger] self.token_owner.dom().contains(t) implies self.tokens_before(
            n,
        ).contains(t) by {
            assert(self.token_owner.contains_key(t));
        }
        assert(self.token_owner.dom() =~= self.tokens_before(n));
    }

    /// The ledger invariant. After every sequence of calls made on an empty
    /// ledger, the balance of each account is the number of tokens it owns,
    /// and every token in the enumeration of an account is owned by that
    /// account.
    pub proof fn lemma_ledger_invariant(calls: Seq<(AccountId, Call)>, owner: AccountId)
        ensures
            Ledger::empty().run(calls).inv(),
            Ledger::empty().run(calls).tokens_of(owner).finite(),
            Ledger::empty().run(calls).tokens_of(owner).len() == Ledger::empty().run(
                calls,
            ).balance_of(owner),
            forall|i: TokenIndex|
                i < Ledger::empty().run(calls).balance_of(owner) ==> Ledger::empty().run(
                    calls,
                ).owner_of(
                    #[trigger] Ledger::empty().run(calls).token_of_owner_by_index(owner, i),
                ) == Some(owner),
    {
        Ledger::lemma_empty_inv();
        Ledger::empty().lemma_run_inv(calls);
        Ledger::empty().run(calls).lemma_balance_counts_owned_tokens(owner);
        Ledger::empty().run(calls).lemma_owner_enumeration_exact(owner);
    }
}

} // verus!
