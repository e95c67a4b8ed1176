//! The token ledger: who owns which token, who may move it, and the two
//! enumerations (all tokens, and the tokens of each owner) that make tokens
//! reachable by position.
//!
//! The ledger is modelled as a state of nine maps and counters, [`Ledger`],
//! with one spec function per operation. The executable ledger, [`Module`],
//! stores the same maps in tables and is proved to move from state to state
//! exactly as those functions say.

use vstd::prelude::*;
use crate::hash::H256;
use crate::store::{Key, Table};
use crate::erc721::state::{fresh_token_id, fresh_token_preimage, Ledger};
use crate::hashing::blake2_256;
use crate::scale::encode_u64;

pub mod state;
pub mod laws;

verus! {

/// An account of the host ledger.
pub type AccountId = u64;

/// A position in an enumeration of tokens.
pub type TokenIndex = u64;

/// A place in one owner's enumeration: the owner and a position in their
/// list.
#[derive(Clone, Copy, Debug, PartialEq, Eq)]
pub struct OwnedSlot {
    pub owner: AccountId,
    pub index: TokenIndex,
}

impl Key for OwnedSlot {
    fn same_key(&self, other: &OwnedSlot) -> (r: bool) {
        self.owner == other.owner && self.index == other.index
    }
}

/// An owner together with an account that may act for all of the owner's
/// tokens.
#[derive(Clone, Copy, Debug, PartialEq, Eq)]
pub struct Delegation {
    pub owner: AccountId,
    pub operator: AccountId,
}

impl Key for Delegation {
    fn same_key(&self, other: &Delegation) -> (r: bool) {
        self.owner == other.owner && self.operator == other.operator
    }
}

/// Why the ledger turned a call down.
#[derive(Clone, Copy, Debug, PartialEq, Eq)]
pub enum Error {
    /// The token is not in the ledger.
    TokenNotExisted,
    /// The token is in the ledger already.
    TokenAlreadyExists,
    /// No owner is recorded for the token.
    TokenOwnerNotSet,
    /// The account named as owner does not own the token.
    NotTokenOwner,
    /// The owner needs no approval: an owner cannot be made their own
    /// delegate.
    OwnerAlwaysCanApprove,
    /// The caller is neither the owner nor approved to act for the owner.
    NotOwnerOrApprover,
    /// A counter is at its largest value and cannot grow.
    Overflow,
    /// A counter is at zero and cannot shrink.
    Underflow,
}

/// What the ledger reports to the host after a call that went through.
#[derive(Clone, Copy, Debug, PartialEq, Eq)]
pub enum Event {
    /// A token moved: from nobody when minted, to nobody when burnt.
    Transfer(Option<AccountId>, Option<AccountId>, H256),
    /// The owner (first) made an account (second) the delegate of one token.
    Approval(AccountId, AccountId, H256),
    /// An owner switched an operator for all their tokens on or off.
    ApprovalForAll(AccountId, AccountId, bool),
}

/// A call into the token ledger, as an account of the host makes it.
#[derive(Clone, Copy, Debug, PartialEq, Eq)]
pub enum Call {
    /// Mint a token to the caller.
    Mint { token_id: H256 },
    /// Burn a token of the caller.
    Burn { token_id: H256 },
    /// Make an account the delegate of a token.
    Approve { to: AccountId, token_id: H256 },
    /// Switch an operator for all tokens of the caller on or off.
    SetApprovalForAll { to: AccountId, approved: bool },
    /// Move a token from one account to another.
    TransferFrom { from: AccountId, to: AccountId, token_id: H256 },
    /// Create a token for the caller, with an identifier derived from the
    /// host's seed.
    CreateToken { seed: H256 },
}

/// The token ledger.
pub struct Module {
    owned_tokens_count: Table<AccountId, TokenIndex>,
    token_owner: Table<H256, AccountId>,
    token_approvals: Table<H256, AccountId>,
    operator_approvals: Table<Delegation, bool>,
    total_supply: TokenIndex,
    all_tokens: Table<TokenIndex, H256>,
    all_tokens_index: Table<H256, TokenIndex>,
    owned_tokens: Table<OwnedSlot, H256>,
    owned_tokens_index: Table<H256, TokenIndex>,
    nonce: u64,
}

impl View for Module {
    type V = Ledger;

    closed spec fn view(&self) -> Ledger {
        Ledger {
            owned_tokens_count: self.owned_tokens_count@,
            token_owner: self.token_owner@,
            token_approvals: self.token_approvals@,
            operator_approvals: self.operator_approvals@,
            total_supply: self.total_supply,
            all_tokens: self.all_tokens@,
            all_tokens_index: self.all_tokens_index@,
            owned_tokens: self.owned_tokens@,
            owned_tokens_index: self.owned_tokens_index@,
            nonce: self.nonce,
        }
    }
}

impl Module {
    /// Every table of the ledger is well formed.
    pub closed spec fn tables_wf(&self) -> bool {
        &&& self.owned_tokens_count.wf()
        &&& self.token_owner.wf()
        &&& self.token_approvals.wf()
        &&& self.operator_approvals.wf()
        &&& self.all_tokens.wf()
        &&& self.all_tokens_index.wf()
        &&& self.owned_tokens.wf()
        &&& self.owned_tokens_index.wf()
    }

    /// The ledger is well formed: its tables are, and the state they hold is
    /// consistent.
    pub open spec fn wf(&self) -> bool {
        self.tables_wf() && self@.inv()
    }

    /// A ledger without tokens.
    pub fn new() -> (ledger: Module)
        ensures
            ledger.wf(),
            ledger@ == Ledger::empty(),
    {
        Module {
            owned_tokens_count: Table::new(),
            token_owner: Table::new(),
            token_approvals: Table::new(),
            operator_approvals: Table::new(),
            total_supply: 0,
            all_tokens: Table::new(),
            all_tokens_index: Table::new(),
            owned_tokens: Table::new(),
            owned_tokens_index: Table::new(),
            nonce: 0,
        }
    }

    /// The number of tokens that `who` owns.
    pub fn balance_of(&self, who: &AccountId) -> (count: TokenIndex)
        requires
            self.tables_wf(),
        ensures
            count == self@.balance_of(*who),
    {
        match self.owned_tokens_count.get(who) {
            Some(count) => *count,
            None => 0,
        }
    }

    /// The owner of the token, if it exists.
    pub fn owner_of(&self, token_id: &H256) -> (owner: Option<AccountId>)
        requires
            self.tables_wf(),
        ensures
            owner == self@.owner_of(*token_id),
    {
        match self.token_owner.get(token_id) {
            Some(owner) => Some(*owner),
            None => None,
        }
    }

    /// The delegate of the token, if one is set.
    pub fn get_approved(&self, token_id: &H256) -> (delegate: Option<AccountId>)
        requires
            self.tables_wf(),
        ensures
            delegate == self@.get_approved(*token_id),
    {
        match self.token_approvals.get(token_id) {
            Some(delegate) => Some(*delegate),
            None => None,
        }
    }

    /// Whether `operator` may act for all tokens of `owner`.
    pub fn is_approved_for_all(&self, owner: &AccountId, operator: &AccountId) -> (approved: bool)
        requires
            self.tables_wf(),
        ensures
            approved == self@.is_approved_for_all(*owner, *operator),
    {
        match self.operator_approvals.get(&Delegation { owner: *owner, operator: *operator }) {
            Some(approved) => *approved,
            None => false,
        }
    }

    /// The number of tokens that exist.
    pub fn total_supply(&self) -> (count: TokenIndex)
        ensures
            count == self@.total_supply,
    {
        self.total_supply
    }

    /// The token at a position of the enumeration of all tokens.
    pub fn token_by_index(&self, index: TokenIndex) -> (token: Option<H256>)
        requires
            self.wf(),
        ensures
            token == if index < self@.total_supply {
                Some(self@.token_by_index(index))
            } else {
                None
            },
    {
        assert(self@.all_tokens.contains_key(index) <==> index < self@.total_supply);
        match self.all_tokens.get(&index) {
            Some(token) => Some(*token),
            None => None,
        }
    }

    /// The token at a position of the enumeration of `owner`.
    pub fn token_of_owner_by_index(&self, owner: &AccountId, index: TokenIndex) -> (token: Option<
        H256,
    >)
        requires
            self.wf(),
        ensures
            token == if index < self@.balance_of(*owner) {
                Some(self@.token_of_owner_by_index(*owner, index))
            } else {
                None
            },
    {
        let slot = OwnedSlot { owner: *owner, index };
        assert(self@.owned_tokens.contains_key(slot) <==> slot.index < self@.balance_of(slot.owner));
        match self.owned_tokens.get(&slot) {
            Some(token) => Some(*token),
            None => None,
        }
    }

    /// Whether the token exists.
    pub fn _exists(&self, token_id: &H256) -> (r: bool)
        requires
            self.tables_wf(),
        ensures
            r == self@.has_token(*token_id),
    {
        self.token_owner.contains_key(token_id)
    }

    /// Whether `spender` may move the token: as its owner, as its delegate,
    /// or as an operator of its owner.
    pub fn _is_approved_or_owner(&self, spender: &AccountId, token_id: &H256) -> (r: bool)
        requires
            self.tables_wf(),
        ensures
            r == self@.is_approved_or_owner(*spender, *token_id),
    {
        let owner = self.owner_of(token_id);
        let approved_user = self.get_approved(token_id);
        let approved_as_owner = match owner {
            Some(o) => o == *spender,
            None => false,
        };
        let approved_as_delegate = match owner {
            Some(d) => self.is_approved_for_all(&d, spender),
            None => false,
        };
        let approved_as_user = match approved_user {
            Some(u) => u == *spender,
            None => false,
        };
        approved_as_owner || approved_as_user || approved_as_delegate
    }

    /// The owner of the token; fails with `TokenOwnerNotSet` if there is
    /// none.
    pub fn ensure_get_token_owner(&self, token_id: &H256) -> (r: Result<AccountId, Error>)
        requires
            self.tables_wf(),
        ensures
            r == match self@.owner_of(*token_id) {
                Some(owner) => Ok::<AccountId, Error>(owner),
                None => Err(Error::TokenOwnerNotSet),
            },
    {
        match self.owner_of(token_id) {
            Some(owner) => Ok(owner),
            None => Err(Error::TokenOwnerNotSet),
        }
    }

    /// Passes if the token exists; fails with `TokenNotExisted` otherwise.
    pub fn ensure_token_exists(&self, token_id: &H256) -> (r: Result<(), Error>)
        requires
            self.tables_wf(),
        ensures
            r == if self@.has_token(*token_id) {
                Ok::<(), Error>(())
            } else {
                Err(Error::TokenNotExisted)
            },
    {
        if self.token_owner.contains_key(token_id) {
            Ok(())
        } else {
            Err(Error::TokenNotExisted)
        }
    }

    /// Passes if the token does not exist; fails with `TokenAlreadyExists`
    /// otherwise.
    pub fn ensure_token_not_existed(&self, token_id: &H256) -> (r: Result<(), Error>)
        requires
            self.tables_wf(),
        ensures
            r == if self@.has_token(*token_id) {
                Err::<(), Error>(Error::TokenAlreadyExists)
            } else {
                Ok(())
            },
    {
        if self.token_owner.contains_key(token_id) {
            Err(Error::TokenAlreadyExists)
        } else {
            Ok(())
        }
    }

    /// Passes if `sender` may move the token, as its owner, as an operator of
    /// its owner or as its delegate; fails with `NotOwnerOrApprover`
    /// otherwise.
    pub fn ensure_approver_or_owner(&self, sender: &AccountId, token_id: &H256) -> (r: Result<
        (),
        Error,
    >)
        requires
            self.tables_wf(),
        ensures
            r == if self@.is_approved_or_owner(*sender, *token_id) {
                Ok::<(), Error>(())
            } else {
                Err(Error::NotOwnerOrApprover)
            },
    {
        let token_owner = self.owner_of(token_id);
        let approved_or_owner = match token_owner {
            Some(owner) => owner == *sender || self.is_approved_for_all(&owner, sender),
            None => false,
        };
        if approved_or_owner {
            return Ok(());
        }
        let approved_user = self.get_approved(token_id);
        let approved_as_user = match approved_user {
            Some(user) => user == *sender,
            None => false,
        };
        if approved_as_user {
            Ok(())
        } else {
            Err(Error::NotOwnerOrApprover)
        }
    }

    /// Passes if `sender` is `owner` or an operator of `owner`; fails with
    /// `NotOwnerOrApprover` otherwise.
    pub fn ensure_owner_or_approved_for_all(&self, sender: &AccountId, owner: &AccountId) -> (r:
        Result<(), Error>)
        requires
            self.tables_wf(),
        ensures
            r == if *sender == *owner || self@.is_approved_for_all(*owner, *sender) {
                Ok::<(), Error>(())
            } else {
                Err(Error::NotOwnerOrApprover)
            },
    {
        if *sender == *owner || self.is_approved_for_all(owner, sender) {
            Ok(())
        } else {
            Err(Error::NotOwnerOrApprover)
        }
    }

    fn add_token_to_owner_enumeration(&mut self, to: &AccountId, token_id: &H256)
        requires
            old(self).tables_wf(),
            old(self)@.balance_of(*to) < TokenIndex::MAX,
        ensures
            final(self).tables_wf(),
            final(self)@ == old(self)@.add_token_to_owner_enumeration(*to, *token_id),
    {
        let new_token_index = self.balance_of(to);
        self.owned_tokens_index.insert(*token_id, new_token_index);
        self.owned_tokens.insert(OwnedSlot { owner: *to, index: new_token_index }, *token_id);
        self.owned_tokens_count.insert(*to, new_token_index + 1);
    }

    fn add_token_to_all_tokens_enumeration(&mut self, token_id: &H256)
        requires
            old(self).tables_wf(),
            old(self)@.total_supply < TokenIndex::MAX,
        ensures
            final(self).tables_wf(),
            final(self)@ == old(self)@.add_token_to_all_tokens_enumeration(*token_id),
    {
        let new_token_index = self.total_supply;
        self.all_tokens_index.insert(*token_id, new_token_index);
        self.all_tokens.insert(new_token_index, *token_id);
        self.total_supply = new_token_index + 1;
    }

    fn remove_token_from_owner_enumeration(&mut self, from: &AccountId, token_id: &H256)
        requires
            old(self).tables_wf(),
            old(self)@.balance_of(*from) > 0,
            old(self)@.owned_tokens_index.contains_key(*token_id),
            old(self)@.owned_tokens.contains_key(
                OwnedSlot { owner: *from, index: (old(self)@.balance_of(*from) - 1) as TokenIndex },
            ),
        ensures
            final(self).tables_wf(),
            final(self)@ == old(self)@.remove_token_from_owner_enumeration(*from, *token_id),
    {
        let last_token_index = self.balance_of(from) - 1;
        let last_slot = OwnedSlot { owner: *from, index: last_token_index };
        let token_index = self.owned_tokens_index.value(token_id);
        if token_index != last_token_index {
            let last_token_id = self.owned_tokens.value(&last_slot);
            self.owned_tokens.insert(OwnedSlot { owner: *from, index: token_index }, last_token_id);
            self.owned_tokens_index.insert(last_token_id, token_index);
        }
        self.owned_tokens.remove(&last_slot);
        self.owned_tokens_index.remove(token_id);
        self.owned_tokens_count.insert(*from, last_token_index);
    }

    fn remove_token_from_all_tokens_enumeration(&mut self, token_id: &H256)
        requires
            old(self).tables_wf(),
            old(self)@.total_supply > 0,
            old(self)@.all_tokens_index.contains_key(*token_id),
            old(self)@.all_tokens.contains_key((old(self)@.total_supply - 1) as TokenIndex),
        ensures
            final(self).tables_wf(),
            final(self)@ == old(self)@.remove_token_from_all_tokens_enumeration(*token_id),
    {
        let last_token_index = self.total_supply - 1;
        let token_index = self.all_tokens_index.value(token_id);
        if token_index != last_token_index {
            let last_token_id = self.all_tokens.value(&last_token_index);
            self.all_tokens.insert(token_index, last_token_id);
            self.all_tokens_index.insert(last_token_id, token_index);
        }
        self.all_tokens.remove(&last_token_index);
        self.all_tokens_index.remove(token_id);
        self.total_supply = last_token_index;
    }

    fn _clear_approval(&mut self, token_id: &H256)
        requires
            old(self).tables_wf(),
        ensures
            final(self).tables_wf(),
            final(self)@ == (Ledger {
                token_approvals: old(self)@.token_approvals.remove(*token_id),
                ..old(self)@
            }),
    {
        self.token_approvals.remove(token_id);
    }

    /// Why minting `token_id` to `to` would be turned down, if it would.
    pub fn check_mint(&self, to: &AccountId, token_id: &H256) -> (r: Option<Error>)
        requires
            self.tables_wf(),
        ensures
            r == self@.mint_error(*to, *token_id),
    {
        if self._exists(token_id) {
            Some(Error::TokenAlreadyExists)
        } else if self.total_supply == TokenIndex::MAX || self.balance_of(to) == TokenIndex::MAX {
            Some(Error::Overflow)
        } else {
            None
        }
    }

    /// Why burning `token_id` would be turned down, if it would. On a
    /// well-formed ledger only a token that does not exist is.
    pub fn check_burn(&self, token_id: &H256) -> (r: Option<Error>)
        requires
            self.wf(),
        ensures
            r == self@.burn_error(*token_id),
            r == if self@.has_token(*token_id) {
                None
            } else {
                Some(Error::TokenNotExisted)
            },
    {
        let owner = match self.owner_of(token_id) {
            Some(owner) => owner,
            None => { return Some(Error::TokenNotExisted); },
        };
        proof {
            self@.lemma_owned_position(*token_id);
        }
        if self.total_supply == 0 || self.balance_of(&owner) == 0 {
            Some(Error::Underflow)
        } else {
            None
        }
    }

    /// Why the transfer of `token_id` from `from` to `to`, asked for by
    /// `sender`, would be turned down, if it would.
    pub fn check_transfer_from(
        &self,
        sender: &AccountId,
        from: &AccountId,
        to: &AccountId,
        token_id: &H256,
    ) -> (r: Option<Error>)
        requires
            self.wf(),
        ensures
            r == self@.transfer_error(*sender, *from, *to, *token_id),
            r != Some(Error::Underflow),
    {
        let owner = match self.owner_of(token_id) {
            Some(owner) => owner,
            None => { return Some(Error::TokenNotExisted); },
        };
        if owner != *from {
            return Some(Error::NotTokenOwner);
        }
        if !self._is_approved_or_owner(sender, token_id) {
            return Some(Error::NotOwnerOrApprover);
        }
        proof {
            self@.lemma_owned_position(*token_id);
        }
        if self.balance_of(from) == 0 {
            return Some(Error::Underflow);
        }
        if *to != *from && self.balance_of(to) == TokenIndex::MAX {
            return Some(Error::Overflow);
        }
        None
    }

    /// Why `sender` could not make `to` the delegate of `token_id`, if so.
    pub fn check_approve(&self, sender: &AccountId, to: &AccountId, token_id: &H256) -> (r: Option<
        Error,
    >)
        requires
            self.tables_wf(),
        ensures
            r == self@.approve_error(*sender, *to, *token_id),
    {
        let owner = match self.owner_of(token_id) {
            Some(owner) => owner,
            None => { return Some(Error::TokenNotExisted); },
        };
        if *to == owner {
            return Some(Error::OwnerAlwaysCanApprove);
        }
        match self.ensure_owner_or_approved_for_all(sender, &owner) {
            Ok(()) => None,
            Err(e) => Some(e),
        }
    }

    /// Mints `token_id` to `to`.
    ///
    /// Fails with `TokenAlreadyExists` if the token exists, and with
    /// `Overflow` if the total supply or the balance of `to` cannot grow. A
    /// call that fails changes nothing. Otherwise the token is appended to
    /// both enumerations, `to` becomes its owner, both counters grow by one,
    /// and the call reports the transfer from nobody to `to`.
    pub fn _mint(&mut self, to: &AccountId, token_id: &H256) -> (r: Result<Event, Error>)
        requires
            old(self).wf(),
        ensures
            final(self).wf(),
            match r {
                Ok(event) => {
                    &&& old(self)@.mint_error(*to, *token_id) is None
                    &&& final(self)@ == old(self)@.minted(*to, *token_id)
                    &&& event == Event::Transfer(None, Some(*to), *token_id)
                },
                Err(e) => {
                    &&& old(self)@.mint_error(*to, *token_id) == Some(e)
                    &&& *final(self) == *old(self)
                },
            },
    {
        match self.check_mint(to, token_id) {
            Some(e) => { return Err(e); },
            None => {},
        }
        self.add_token_to_all_tokens_enumeration(token_id);
        self.add_token_to_owner_enumeration(to, token_id);
        self.token_owner.insert(*token_id, *to);
        proof {
            old(self)@.lemma_minted_inv(*to, *token_id);
        }
        Ok(Event::Transfer(None, Some(*to), *token_id))
    }

    /// Burns `token_id`.
    ///
    /// Fails with `TokenNotExisted` if the token does not exist; a call that
    /// fails changes nothing. Otherwise the token leaves both enumerations
    /// (the last token of each moves into the position it leaves), loses its
    /// delegate and its owner, both counters shrink by one, and the call
    /// reports the transfer from the owner to nobody. On a well-formed ledger
    /// no counter can be at zero here, so `Underflow` never comes back.
    pub fn _burn(&mut self, token_id: &H256) -> (r: Result<Event, Error>)
        requires
            old(self).wf(),
        ensures
            final(self).wf(),
            match r {
                Ok(event) => {
                    &&& old(self)@.burn_error(*token_id) is None
                    &&& final(self)@ == old(self)@.burnt(*token_id)
                    &&& event == Event::Transfer(
                        Some(old(self)@.token_owner[*token_id]),
                        None,
                        *token_id,
                    )
                },
                Err(e) => {
                    &&& old(self)@.burn_error(*token_id) == Some(e)
                    &&& e == Error::TokenNotExisted
                    &&& *final(self) == *old(self)
                },
            },
    {
        match self.check_burn(token_id) {
            Some(e) => { return Err(e); },
            None => {},
        }
        let owner = self.token_owner.value(token_id);
        proof {
            old(self)@.lemma_owned_position(*token_id);
        }
        self.remove_token_from_all_tokens_enumeration(token_id);
        self.remove_token_from_owner_enumeration(&owner, token_id);
        self._clear_approval(token_id);
        self.token_owner.remove(token_id);
        proof {
            old(self)@.lemma_burnt_inv(*token_id);
        }
        Ok(Event::Transfer(Some(owner), None, *token_id))
    }

    /// Moves `token_id` from `from` to `to` on behalf of `sender`.
    ///
    /// Fails with `TokenNotExisted` if the token does not exist, with
    /// `NotTokenOwner` if `from` is not its owner, with `NotOwnerOrApprover`
    /// unless `sender` is the owner, the token's delegate or an operator of
    /// the owner, and with `Overflow` if the balance of `to` cannot grow; a
    /// call that fails changes nothing. Otherwise the token leaves the
    /// enumeration of `from`, joins the end of the enumeration of `to`, loses
    /// its delegate, and the call reports the transfer. The enumeration of
    /// all tokens is not touched.
    pub fn _transfer_from(
        &mut self,
        sender: &AccountId,
        from: &AccountId,
        to: &AccountId,
        token_id: &H256,
    ) -> (r: Result<Event, Error>)
        requires
            old(self).wf(),
        ensures
            final(self).wf(),
            match r {
                Ok(event) => {
                    &&& old(self)@.transfer_error(*sender, *from, *to, *token_id) is None
                    &&& final(self)@ == old(self)@.transferred(*from, *to, *token_id)
                    &&& event == Event::Transfer(Some(*from), Some(*to), *token_id)
                },
                Err(e) => {
                    &&& old(self)@.transfer_error(*sender, *from, *to, *token_id) == Some(e)
                    &&& e != Error::Underflow
                    &&& *final(self) == *old(self)
                },
            },
    {
        match self.check_transfer_from(sender, from, to, token_id) {
            Some(e) => { return Err(e); },
            None => {},
        }
        proof {
            old(self)@.lemma_owned_position(*token_id);
        }
        self.remove_token_from_owner_enumeration(from, token_id);
        self.add_token_to_owner_enumeration(to, token_id);
        self._clear_approval(token_id);
        self.token_owner.insert(*token_id, *to);
        proof {
            old(self)@.lemma_transferred_inv(*from, *to, *token_id);
        }
        Ok(Event::Transfer(Some(*from), Some(*to), *token_id))
    }

    /// Makes `to` the delegate of `token_id` on behalf of `sender`.
    ///
    /// Fails with `TokenNotExisted` if the token does not exist, with
    /// `OwnerAlwaysCanApprove` if `to` is its owner, and with
    /// `NotOwnerOrApprover` unless `sender` is the owner or an operator of
    /// the owner; a call that fails changes nothing. Otherwise `to` replaces
    /// the delegate, and the call reports the approval by the owner.
    pub fn _approve(&mut self, sender: &AccountId, to: &AccountId, token_id: &H256) -> (r: Result<
        Event,
        Error,
    >)
        requires
            old(self).wf(),
        ensures
            final(self).wf(),
            match r {
                Ok(event) => {
                    &&& old(self)@.approve_error(*sender, *to, *token_id) is None
                    &&& final(self)@ == old(self)@.approved(*to, *token_id)
                    &&& event == Event::Approval(old(self)@.token_owner[*token_id], *to, *token_id)
                },
                Err(e) => {
                    &&& old(self)@.approve_error(*sender, *to, *token_id) == Some(e)
                    &&& *final(self) == *old(self)
                },
            },
    {
        match self.check_approve(sender, to, token_id) {
            Some(e) => { return Err(e); },
            None => {},
        }
        let owner = self.token_owner.value(token_id);
        self.token_approvals.insert(*token_id, *to);
        proof {
            old(self)@.lemma_approved_inv(*to, *token_id);
        }
        Ok(Event::Approval(owner, *to, *token_id))
    }

    /// Switches `to` on or off as an operator for all tokens of `sender`.
    ///
    /// Fails with `OwnerAlwaysCanApprove` if `to` is `sender`, changing
    /// nothing. Otherwise the flag is recorded and the call reports it.
    pub fn _set_approval_for_all(&mut self, sender: &AccountId, to: &AccountId, approved: bool) -> (r:
        Result<Event, Error>)
        requires
            old(self).wf(),
        ensures
            final(self).wf(),
            match r {
                Ok(event) => {
                    &&& *to != *sender
                    &&& final(self)@ == old(self)@.with_approval_for_all(*sender, *to, approved)
                    &&& event == Event::ApprovalForAll(*sender, *to, approved)
                },
                Err(e) => {
                    &&& *to == *sender
                    &&& e == Error::OwnerAlwaysCanApprove
                    &&& *final(self) == *old(self)
                },
            },
    {
        if *to == *sender {
            return Err(Error::OwnerAlwaysCanApprove);
        }
        self.operator_approvals.insert(Delegation { owner: *sender, operator: *to }, approved);
        proof {
            old(self)@.lemma_with_approval_for_all_inv(*sender, *to, approved);
        }
        Ok(Event::ApprovalForAll(*sender, *to, approved))
    }

    /// The bytes that are hashed for the identifier of a fresh token: the
    /// host's seed, the account and the counter, each in its encoding.
    pub fn token_seed_bytes(seed: &H256, account_id: AccountId, nonce: u64) -> (bytes: Vec<u8>)
        ensures
            bytes@ == fresh_token_preimage(*seed, account_id, nonce),
    {
        let mut bytes: Vec<u8> = Vec::new();
        seed.append_to(&mut bytes);
        let mut account = encode_u64(account_id);
        bytes.append(&mut account);
        let mut counter = encode_u64(nonce);
        bytes.append(&mut counter);
        bytes
    }

    /// Creates a token for `account_id`. Its identifier is the Blake2 hash of
    /// the host's `seed`, the account and the ledger's counter.
    ///
    /// Fails as minting that token to `account_id` fails, changing nothing.
    /// Otherwise the token is minted, the counter moves on (it stops at its
    /// largest value), and the call returns the identifier and reports the
    /// transfer from nobody.
    pub fn _create_token(&mut self, account_id: &AccountId, seed: &H256) -> (r: Result<
        (H256, Event),
        Error,
    >)
        requires
            old(self).wf(),
        ensures
            final(self).wf(),
            match r {
                Ok((token_id, event)) => {
                    &&& token_id == fresh_token_id(*seed, *account_id, old(self)@.nonce)
                    &&& old(self)@.mint_error(*account_id, token_id) is None
                    &&& final(self)@ == old(self)@.with_created_token(*account_id, *seed)
                    &&& event == Event::Transfer(None, Some(*account_id), token_id)
                },
                Err(e) => {
                    &&& old(self)@.mint_error(
                        *account_id,
                        fresh_token_id(*seed, *account_id, old(self)@.nonce),
                    ) == Some(e)
                    &&& *final(self) == *old(self)
                },
            },
    {
        let nonce = self.nonce;
        let encoded = Self::token_seed_bytes(seed, *account_id, nonce);
        let random_hash = H256(blake2_256(encoded.as_slice()));
        let event = match self._mint(account_id, &random_hash) {
            Ok(event) => event,
            Err(e) => { return Err(e); },
        };
        self.nonce = nonce.saturating_add(1);
        Ok((random_hash, event))
    }

    /// All tokens that `account_id` owns, in the order of the owner's
    /// enumeration.
    pub fn get_tokens_owned_account(&self, account_id: AccountId) -> (tokens: Vec<H256>)
        requires
            self.wf(),
        ensures
            tokens@.len() == self@.balance_of(account_id),
            forall|i: int|
                0 <= i < tokens@.len() ==> tokens@[i] == self@.token_of_owner_by_index(
                    account_id,
                    i as TokenIndex,
                ),
    {
        let count = self.balance_of(&account_id);
        let mut tokens: Vec<H256> = Vec::new();
        let mut index: TokenIndex = 0;
        while index < count
            invariant
                self.wf(),
                count == self@.balance_of(account_id),
                0 <= index <= count,
                tokens@.len() == index,
                forall|i: int|
                    0 <= i < tokens@.len() ==> tokens@[i] == self@.token_of_owner_by_index(
                        account_id,
                        i as TokenIndex,
                    ),
            decreases count - index,
        {
            let slot = OwnedSlot { owner: account_id, index };
            assert(self@.owned_tokens.contains_key(slot) <==> slot.index < self@.balance_of(
                slot.owner,
            ));
            tokens.push(self.owned_tokens.value(&slot));
            index = index + 1;
        }
        tokens
    }

    /// Mints `token_id` to `sender`, as [`Module::_mint`] does.
    pub fn mint(&mut self, sender: AccountId, token_id: H256) -> (r: Result<Event, Error>)
        requires
            old(self).wf(),
        ensures
            final(self).wf(),
            r == old(self)@.outcome(sender, Call::Mint { token_id }),
            final(self)@ == old(self)@.step(sender, Call::Mint { token_id }),
            r is Err ==> *final(self) == *old(self),
    {
        self._mint(&sender, &token_id)
    }

    /// Burns `token_id` on behalf of `sender`, who has to own it.
    ///
    /// Fails with `TokenNotExisted` if the token does not exist and with
    /// `NotTokenOwner` if `sender` does not own it, changing nothing.
    /// Otherwise the token is burnt as [`Module::_burn`] does.
    pub fn burn(&mut self, sender: AccountId, token_id: H256) -> (r: Result<Event, Error>)
        requires
            old(self).wf(),
        ensures
            final(self).wf(),
            r == old(self)@.outcome(sender, Call::Burn { token_id }),
            final(self)@ == old(self)@.step(sender, Call::Burn { token_id }),
            r is Err ==> *final(self) == *old(self),
    {
        let owner = match self.owner_of(&token_id) {
            Some(owner) => owner,
            None => { return Err(Error::TokenNotExisted); },
        };
        if sender != owner {
            return Err(Error::NotTokenOwner);
        }
        self._burn(&token_id)
    }

    /// Makes `to` the delegate of `token_id` on behalf of `sender`, as
    /// [`Module::_approve`] does.
    pub fn approve(&mut self, sender: AccountId, to: AccountId, token_id: H256) -> (r: Result<
        Event,
        Error,
    >)
        requires
            old(self).wf(),
        ensures
            final(self).wf(),
            r == old(self)@.outcome(sender, Call::Approve { to, token_id }),
            final(self)@ == old(self)@.step(sender, Call::Approve { to, token_id }),
            r is Err ==> *final(self) == *old(self),
    {
        self._approve(&sender, &to, &token_id)
    }

    /// Switches `to` on or off as an operator of `sender`, as
    /// [`Module::_set_approval_for_all`] does.
    pub fn set_approval_for_all(&mut self, sender: AccountId, to: AccountId, approved: bool) -> (r:
        Result<Event, Error>)
        requires
            old(self).wf(),
        ensures
            final(self).wf(),
            r == old(self)@.outcome(sender, Call::SetApprovalForAll { to, approved }),
            final(self)@ == old(self)@.step(sender, Call::SetApprovalForAll { to, approved }),
            r is Err ==> *final(self) == *old(self),
    {
        self._set_approval_for_all(&sender, &to, approved)
    }

    /// Moves `token_id` from `from` to `to` on behalf of `sender`, as
    /// [`Module::_transfer_from`] does.
    pub fn transfer_from(&mut self, sender: AccountId, from: AccountId, to: AccountId, token_id: H256) -> (r:
        Result<Event, Error>)
        requires
            old(self).wf(),
        ensures
            final(self).wf(),
            r == old(self)@.outcome(sender, Call::TransferFrom { from, to, token_id }),
            final(self)@ == old(self)@.step(sender, Call::TransferFrom { from, to, token_id }),
            r is Err ==> *final(self) == *old(self),
    {
        self._transfer_from(&sender, &from, &to, &token_id)
    }

    /// Creates a token for `sender` from the host's `seed`, as
    /// [`Module::_create_token`] does.
    pub fn create_token(&mut self, sender: AccountId, seed: H256) -> (r: Result<Event, Error>)
        requires
            old(self).wf(),
        ensures
            final(self).wf(),
            r == old(self)@.outcome(sender, Call::CreateToken { seed }),
            final(self)@ == old(self)@.step(sender, Call::CreateToken { seed }),
            r is Err ==> *final(self) == *old(self),
    {
        match self._create_token(&sender, &seed) {
            Ok((_, event)) => Ok(event),
            Err(e) => Err(e),
        }
    }

    /// Makes the call of `origin`: the state moves as the call says if it
    /// goes through, and stays as it is if the call is turned down.
    pub fn dispatch(&mut self, origin: AccountId, call: Call) -> (r: Result<Event, Error>)
        requires
            old(self).wf(),
        ensures
            final(self).wf(),
            r == old(self)@.outcome(origin, call),
            final(self)@ == old(self)@.step(origin, call),
            r is Err ==> *final(self) == *old(self),
    {
        match call {
            Call::Mint { token_id } => self.mint(origin, token_id),
            Call::Burn { token_id } => self.burn(origin, token_id),
            Call::Approve { to, token_id } => self.approve(origin, to, token_id),
            Call::SetApprovalForAll { to, approved } => self.set_approval_for_all(
                origin,
                to,
                approved,
            ),
            Call::TransferFrom { from, to, token_id } => self.transfer_from(
                origin,
                from,
                to,
                token_id,
            ),
            Call::CreateToken { seed } => self.create_token(origin, seed),
        }
    }
}

} // verus!
