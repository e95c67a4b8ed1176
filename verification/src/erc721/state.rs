//! The state of the token ledger and the effect of each operation on it.

use vstd::prelude::*;
use crate::hash::H256;
use crate::erc721::{AccountId, Call, Delegation, Error, Event, OwnedSlot, TokenIndex};
use crate::hashing::blake2_256_of;
use crate::scale::u64_le_bytes;

verus! {

/// The state of the token ledger.
pub struct Ledger {
    /// The number of tokens each account owns; an account without an entry
    /// owns none.
    pub owned_tokens_count: Map<AccountId, TokenIndex>,
    /// The owner of each token that exists.
    pub token_owner: Map<H256, AccountId>,
    /// The single delegate of a token, where one is set.
    pub token_approvals: Map<H256, AccountId>,
    /// Whether an operator may act for all tokens of an owner.
    pub operator_approvals: Map<Delegation, bool>,
    /// The number of tokens that exist.
    pub total_supply: TokenIndex,
    /// The enumeration of all tokens, by position.
    pub all_tokens: Map<TokenIndex, H256>,
    /// The position of each token in `all_tokens`.
    pub all_tokens_index: Map<H256, TokenIndex>,
    /// The enumeration of each owner's tokens, by owner and position.
    pub owned_tokens: Map<OwnedSlot, H256>,
    /// The position of each token in its owner's enumeration.
    pub owned_tokens_index: Map<H256, TokenIndex>,
    /// The counter from which fresh token identifiers are derived.
    pub nonce: u64,
}

/// The bytes that are hashed for the identifier of a token created for
/// `account`: the host's seed, the account and the ledger's counter, each in
/// its encoding.
pub open spec fn fresh_token_preimage(seed: H256, account: AccountId, nonce: u64) -> Seq<u8> {
    seed@ + u64_le_bytes(account) + u64_le_bytes(nonce)
}

/// The identifier of a token created for `account`: the Blake2 hash of the
/// host's seed, the account and the ledger's counter.
pub open spec fn fresh_token_id(seed: H256, account: AccountId, nonce: u64) -> H256 {
    H256(blake2_256_of(fresh_token_preimage(seed, account, nonce)))
}

impl Ledger {
    /// The ledger before anything happened.
    pub open spec fn empty() -> Ledger {
        Ledger {
            owned_tokens_count: Map::empty(),
            token_owner: Map::empty(),
            token_approvals: Map::empty(),
            operator_approvals: Map::empty(),
            total_supply: 0,
            all_tokens: Map::empty(),
            all_tokens_index: Map::empty(),
            owned_tokens: Map::empty(),
            owned_tokens_index: Map::empty(),
            nonce: 0,
        }
    }

    /// Whether the token exists.
    pub open spec fn has_token(self, token_id: H256) -> bool {
        self.token_owner.contains_key(token_id)
    }

    /// The owner of the token, if it exists.
    pub open spec fn owner_of(self, token_id: H256) -> Option<AccountId> {
        if self.token_owner.contains_key(token_id) {
            Some(self.token_owner[token_id])
        } else {
            None
        }
    }

    /// The number of tokens the account owns.
    pub open spec fn balance_of(self, who: AccountId) -> TokenIndex {
        if self.owned_tokens_count.contains_key(who) {
            self.owned_tokens_count[who]
        } else {
            0
        }
    }

    /// The token at a position of the enumeration of all tokens.
    pub open spec fn token_by_index(self, index: TokenIndex) -> H256 {
        self.all_tokens[index]
    }

    /// The token at a position of the enumeration of `owner`.
    pub open spec fn token_of_owner_by_index(self, owner: AccountId, index: TokenIndex) -> H256 {
        self.owned_tokens[OwnedSlot { owner, index }]
    }

    /// The delegate of the token, if one is set.
    pub open spec fn get_approved(self, token_id: H256) -> Option<AccountId> {
        if self.token_approvals.contains_key(token_id) {
            Some(self.token_approvals[token_id])
        } else {
            None
        }
    }

    /// Whether `operator` may act for all tokens of `owner`.
    pub open spec fn is_approved_for_all(self, owner: AccountId, operator: AccountId) -> bool {
        let d = Delegation { owner, operator };
        self.operator_approvals.contains_key(d) && self.operator_approvals[d]
    }

    /// Whether `spender` may move the token: as its owner, as its delegate,
    /// or as an operator of its owner.
    pub open spec fn is_approved_or_owner(self, spender: AccountId, token_id: H256) -> bool {
        ||| self.owner_of(token_id) == Some(spender)
        ||| self.get_approved(token_id) == Some(spender)
        ||| (self.has_token(token_id) && self.is_approved_for_all(
            self.token_owner[token_id],
            spender,
        ))
    }

    /// The two enumerations and the direct lookups agree.
    ///
    /// A token has an owner exactly if it stands once in the enumeration of
    /// all tokens, at the position its index names and below the total
    /// supply, and once in its owner's enumeration, at the position its index
    /// names and below the owner's balance. No position below a counter is
    /// empty and none at or above it is filled.
    pub open spec fn inv(self) -> bool {
        &&& forall|t: H256| #[trigger]
            self.token_owner.contains_key(t) ==> {
                &&& self.all_tokens_index.contains_key(t)
                &&& self.all_tokens_index[t] < self.total_supply
                &&& self.all_tokens[self.all_tokens_index[t]] == t
                &&& self.owned_tokens_index.contains_key(t)
                &&& self.owned_tokens_index[t] < self.balance_of(self.token_owner[t])
                &&& self.owned_tokens[OwnedSlot {
                    owner: self.token_owner[t],
                    index: self.owned_tokens_index[t],
                }] == t
            }
        &&& forall|t: H256| #[trigger]
            self.all_tokens_index.contains_key(t) ==> self.token_owner.contains_key(t)
        &&& forall|t: H256| #[trigger]
            self.owned_tokens_index.contains_key(t) ==> self.token_owner.contains_key(t)
        &&& forall|t: H256| #[trigger]
            self.token_approvals.contains_key(t) ==> self.token_owner.contains_key(t)
        &&& forall|i: TokenIndex| #[trigger]
            self.all_tokens.contains_key(i) <==> i < self.total_supply
        &&& forall|i: TokenIndex| #[trigger]
            self.all_tokens.contains_key(i) ==> {
                &&& self.token_owner.contains_key(self.all_tokens[i])
                &&& self.all_tokens_index[self.all_tokens[i]] == i
            }
        &&& forall|s: OwnedSlot| #[trigger]
            self.owned_tokens.contains_key(s) <==> s.index < self.balance_of(s.owner)
        &&& forall|s: OwnedSlot| #[trigger]
            self.owned_tokens.contains_key(s) ==> {
                &&& self.token_owner.contains_key(self.owned_tokens[s])
                &&& self.token_owner[self.owned_tokens[s]] == s.owner
                &&& self.owned_tokens_index[self.owned_tokens[s]] == s.index
            }
    }

    /// The state after `token_id` is appended to the enumeration of all
    /// tokens.
    pub open spec fn add_token_to_all_tokens_enumeration(self, token_id: H256) -> Ledger {
        Ledger {
            all_tokens_index: self.all_tokens_index.insert(token_id, self.total_supply),
            all_tokens: self.all_tokens.insert(self.total_supply, token_id),
            total_supply: (self.total_supply + 1) as TokenIndex,
            ..self
        }
    }

    /// The state after `token_id` is appended to the enumeration of `to`.
    pub open spec fn add_token_to_owner_enumeration(self, to: AccountId, token_id: H256) -> Ledger {
        let index = self.balance_of(to);
        Ledger {
            owned_tokens_index: self.owned_tokens_index.insert(token_id, index),
            owned_tokens: self.owned_tokens.insert(OwnedSlot { owner: to, index }, token_id),
            owned_tokens_count: self.owned_tokens_count.insert(to, (index + 1) as TokenIndex),
            ..self
        }
    }

    /// The state after `token_id` is taken out of the enumeration of all
    /// tokens: the token in the last position moves into the position that
    /// `token_id` leaves, unless `token_id` is the last itself, and the last
    /// position is dropped.
    pub open spec fn remove_token_from_all_tokens_enumeration(self, token_id: H256) -> Ledger {
        let last = (self.total_supply - 1) as TokenIndex;
        let index = self.all_tokens_index[token_id];
        let moved = self.all_tokens[last];
        let all_tokens = if index != last {
            self.all_tokens.insert(index, moved)
        } else {
            self.all_tokens
        };
        let all_tokens_index = if index != last {
            self.all_tokens_index.insert(moved, index)
        } else {
            self.all_tokens_index
        };
        Ledger {
            all_tokens: all_tokens.remove(last),
            all_tokens_index: all_tokens_index.remove(token_id),
            total_supply: last,
            ..self
        }
    }

    /// The state after `token_id` is taken out of the enumeration of `from`,
    /// in the same way: the owner's last token moves into the position that
    /// `token_id` leaves, unless `token_id` is the last itself, and the last
    /// position is dropped.
    pub open spec fn remove_token_from_owner_enumeration(
        self,
        from: AccountId,
        token_id: H256,
    ) -> Ledger {
        let last = (self.balance_of(from) - 1) as TokenIndex;
        let index = self.owned_tokens_index[token_id];
        let moved = self.owned_tokens[OwnedSlot { owner: from, index: last }];
        let owned_tokens = if index != last {
            self.owned_tokens.insert(OwnedSlot { owner: from, index }, moved)
        } else {
            self.owned_tokens
        };
        let owned_tokens_index = if index != last {
            self.owned_tokens_index.insert(moved, index)
        } else {
            self.owned_tokens_index
        };
        Ledger {
            owned_tokens: owned_tokens.remove(OwnedSlot { owner: from, index: last }),
            owned_tokens_index: owned_tokens_index.remove(token_id),
            owned_tokens_count: self.owned_tokens_count.insert(from, last),
            ..self
        }
    }

    /// Why minting `token_id` to `to` is turned down, if it is.
    pub open spec fn mint_error(self, to: AccountId, token_id: H256) -> Option<Error> {
        if self.has_token(token_id) {
            Some(Error::TokenAlreadyExists)
        } else if self.total_supply == TokenIndex::MAX || self.balance_of(to) == TokenIndex::MAX {
            Some(Error::Overflow)
        } else {
            None
        }
    }

    /// The state after `token_id` is minted to `to`.
    pub open spec fn minted(self, to: AccountId, token_id: H256) -> Ledger {
        let s = self.add_token_to_all_tokens_enumeration(token_id).add_token_to_owner_enumeration(
            to,
            token_id,
        );
        Ledger { token_owner: s.token_owner.insert(token_id, to), ..s }
    }

    /// Why burning `token_id` is turned down, if it is.
    pub open spec fn burn_error(self, token_id: H256) -> Option<Error> {
        if !self.has_token(token_id) {
            Some(Error::TokenNotExisted)
        } else if self.total_supply == 0 || self.balance_of(self.token_owner[token_id]) == 0 {
            Some(Error::Underflow)
        } else {
            None
        }
    }

    /// The state after `token_id` is burnt.
    pub open spec fn burnt(self, token_id: H256) -> Ledger {
        let owner = self.token_owner[token_id];
        let s = self.remove_token_from_all_tokens_enumeration(
            token_id,
        ).remove_token_from_owner_enumeration(owner, token_id);
        Ledger {
            token_approvals: s.token_approvals.remove(token_id),
            token_owner: s.token_owner.remove(token_id),
            ..s
        }
    }

    /// Why the transfer of `token_id` from `from` to `to`, asked for by
    /// `sender`, is turned down, if it is.
    pub open spec fn transfer_error(
        self,
        sender: AccountId,
        from: AccountId,
        to: AccountId,
        token_id: H256,
    ) -> Option<Error> {
        if !self.has_token(token_id) {
            Some(Error::TokenNotExisted)
        } else if self.token_owner[token_id] != from {
            Some(Error::NotTokenOwner)
        } else if !self.is_approved_or_owner(sender, token_id) {
            Some(Error::NotOwnerOrApprover)
        } else if self.balance_of(from) == 0 {
            Some(Error::Underflow)
        } else if to != from && self.balance_of(to) == TokenIndex::MAX {
            Some(Error::Overflow)
        } else {
            None
        }
    }

    /// The state after `token_id` moved from `from` to `to`: it leaves the
    /// enumeration of `from`, joins the end of the enumeration of `to`, and
    /// loses its delegate. The enumeration of all tokens stays as it is.
    pub open spec fn transferred(self, from: AccountId, to: AccountId, token_id: H256) -> Ledger {
        let s = self.remove_token_from_owner_enumeration(
            from,
            token_id,
        ).add_token_to_owner_enumeration(to, token_id);
        Ledger {
            token_approvals: s.token_approvals.remove(token_id),
            token_owner: s.token_owner.insert(token_id, to),
            ..s
        }
    }

    /// Why `sender` may not make `to` the delegate of `token_id`, if so.
    pub open spec fn approve_error(self, sender: AccountId, to: AccountId, token_id: H256) -> Option<
        Error,
    > {
        if !self.has_token(token_id) {
            Some(Error::TokenNotExisted)
        } else if to == self.token_owner[token_id] {
            Some(Error::OwnerAlwaysCanApprove)
        } else if !(sender == self.token_owner[token_id] || self.is_approved_for_all(
            self.token_owner[token_id],
            sender,
        )) {
            Some(Error::NotOwnerOrApprover)
        } else {
            None
        }
    }

    /// The state after `to` became the delegate of `token_id`.
    pub open spec fn approved(self, to: AccountId, token_id: H256) -> Ledger {
        Ledger { token_approvals: self.token_approvals.insert(token_id, to), ..self }
    }

    /// Why `sender` may not switch `to` as their operator, if so.
    pub open spec fn set_approval_for_all_error(self, sender: AccountId, to: AccountId) -> Option<
        Error,
    > {
        if to == sender {
            Some(Error::OwnerAlwaysCanApprove)
        } else {
            None
        }
    }

    /// The state after `sender` switched `to` on or off as their operator.
    pub open spec fn with_approval_for_all(
        self,
        sender: AccountId,
        to: AccountId,
        approved: bool,
    ) -> Ledger {
        Ledger {
            operator_approvals: self.operator_approvals.insert(
                Delegation { owner: sender, operator: to },
                approved,
            ),
            ..self
        }
    }

    /// Why `sender` may not burn `token_id` themselves, if so: only the
    /// owner of a token may.
    pub open spec fn burn_by_error(self, sender: AccountId, token_id: H256) -> Option<Error> {
        if !self.has_token(token_id) {
            Some(Error::TokenNotExisted)
        } else if self.token_owner[token_id] != sender {
            Some(Error::NotTokenOwner)
        } else {
            self.burn_error(token_id)
        }
    }

    /// The state after a token was created for `account` from `seed`: the
    /// token is minted and the counter moves on, stopping at its largest
    /// value.
    pub open spec fn with_created_token(self, account: AccountId, seed: H256) -> Ledger {
        let s = self.minted(account, fresh_token_id(seed, account, self.nonce));
        Ledger {
            nonce: if self.nonce == u64::MAX {
                u64::MAX
            } else {
                (self.nonce + 1) as u64
            },
            ..s
        }
    }

    /// What the call of `origin` returns.
    pub open spec fn outcome(self, origin: AccountId, call: Call) -> Result<Event, Error> {
        match call {
            Call::Mint { token_id } => match self.mint_error(origin, token_id) {
                Some(e) => Err(e),
                None => Ok(Event::Transfer(None, Some(origin), token_id)),
            },
            Call::Burn { token_id } => match self.burn_by_error(origin, token_id) {
                Some(e) => Err(e),
                None => Ok(Event::Transfer(Some(origin), None, token_id)),
            },
            Call::Approve { to, token_id } => match self.approve_error(origin, to, token_id) {
                Some(e) => Err(e),
                None => Ok(Event::Approval(self.token_owner[token_id], to, token_id)),
            },
            Call::SetApprovalForAll { to, approved } => match self.set_approval_for_all_error(
                origin,
                to,
            ) {
                Some(e) => Err(e),
                None => Ok(Event::ApprovalForAll(origin, to, approved)),
            },
            Call::TransferFrom { from, to, token_id } => match self.transfer_error(
                origin,
                from,
                to,
                token_id,
            ) {
                Some(e) => Err(e),
                None => Ok(Event::Transfer(Some(from), Some(to), token_id)),
            },
            Call::CreateToken { seed } => match self.mint_error(
                origin,
                fresh_token_id(seed, origin, self.nonce),
            ) {
                Some(e) => Err(e),
                None => Ok(
                    Event::Transfer(None, Some(origin), fresh_token_id(seed, origin, self.nonce)),
                ),
            },
        }
    }

    /// The state after the call of `origin`: the state the call leads to if
    /// it goes through, the state as it was if it is turned down.
    pub open spec fn step(self, origin: AccountId, call: Call) -> Ledger {
        if self.outcome(origin, call) is Err {
            self
        } else {
            match call {
                Call::Mint { token_id } => self.minted(origin, token_id),
                Call::Burn { token_id } => self.burnt(token_id),
                Call::Approve { to, token_id } => self.approved(to, token_id),
                Call::SetApprovalForAll { to, approved } => self.with_approval_for_all(
                    origin,
                    to,
                    approved,
                ),
                Call::TransferFrom { from, to, token_id } => self.transferred(from, to, token_id),
                Call::CreateToken { seed } => self.with_created_token(origin, seed),
            }
        }
    }

    /// The state after a sequence of calls, each with its origin.
    pub open spec fn run(self, calls: Seq<(AccountId, Call)>) -> Ledger
        decreases calls.len(),
    {
        if calls.len() == 0 {
            self
        } else {
            self.run(calls.drop_last()).step(calls.last().0, calls.last().1)
        }
    }

    /// The tokens that `owner` owns.
    pub open spec fn tokens_of(self, owner: AccountId) -> Set<H256> {
        Set::new(|t: H256| self.owner_of(t) == Some(owner))
    }
}

} // verus!
