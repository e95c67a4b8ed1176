//! What holds of the registry whatever calls are made.

use vstd::prelude::*;
use crate::erc721::{AccountId, TokenIndex};
use crate::erc721::state::Ledger;
use crate::hash::H256;
use crate::registry::{Call, Config, RegistryUid};
use crate::registry::state::{metadata_fee, Registry};

verus! {

impl Registry {
    /// The empty registry is consistent.
    pub proof fn lemma_empty_inv(config: Config)
        ensures
            Registry::empty().inv(config),
    {
    }

    /// Registering a validator that is not bound yet keeps the registry
    /// consistent.
    pub proof fn lemma_with_new_registry_inv(self, config: Config, validation_fn_addr: AccountId)
        requires
            self.inv(config),
            !self.is_bound(validation_fn_addr),
            self.next_registry_id < RegistryUid::MAX,
        ensures
            self.with_new_registry(validation_fn_addr).inv(config),
    {
        let after = self.with_new_registry(validation_fn_addr);
        assert forall|uid: RegistryUid| #[trigger]
            after.validation_fn.contains_key(uid) implies after.is_bound(
            after.validation_fn[uid],
        ) by {
            if uid != self.next_registry_id {
                assert(self.validation_fn.contains_key(uid));
            }
        }
        assert forall|uid: RegistryUid, other: RegistryUid|
            #[trigger] after.validation_fn.contains_key(uid)
                && #[trigger] after.validation_fn.contains_key(other) && uid
                != other implies after.validation_fn[uid] != after.validation_fn[other] by {
            if uid != self.next_registry_id {
                assert(self.validation_fn.contains_key(uid));
            }
            if other != self.next_registry_id {
                assert(self.validation_fn.contains_key(other));
            }
        }
        assert forall|t: H256| #[trigger]
            after.token_metadata.contains_key(t) implies after.validation_fn.contains_key(
            after.registry_uid_for_token_id[t],
        ) by {
            assert(self.token_metadata.contains_key(t));
        }
    }

    /// Finishing a mint keeps the registry consistent.
    pub proof fn lemma_finish_minted_inv(
        self,
        config: Config,
        uid: RegistryUid,
        token_id: H256,
        token_owner: AccountId,
        metadata: Seq<u8>,
    )
        requires
            self.inv(config),
            self.validation_fn.contains_key(uid),
            self.tokens.mint_error(token_owner, token_id) is None,
        ensures
            self.finish_minted(config, uid, token_id, token_owner, metadata).inv(config),
    {
        self.tokens.lemma_minted_inv(token_owner, token_id);
        let after = self.finish_minted(config, uid, token_id, token_owner, metadata);
        assert forall|t: H256| #[trigger]
            after.tokens.has_token(t) <==> after.token_metadata.contains_key(t) by {
            assert(self.tokens.has_token(t) <==> self.token_metadata.contains_key(t));
        }
        assert forall|t: H256| #[trigger]
            after.deposit_by_token_id.contains_key(t) <==> after.token_metadata.contains_key(
                t,
            ) by {
            assert(self.deposit_by_token_id.contains_key(t) <==> self.token_metadata.contains_key(
                t,
            ));
        }
        assert forall|t: H256| #[trigger]
            after.registry_uid_for_token_id.contains_key(t) <==> after.token_metadata.contains_key(
                t,
            ) by {
            assert(self.registry_uid_for_token_id.contains_key(t)
                <==> self.token_metadata.contains_key(t));
        }
        assert forall|t: H256| #[trigger] after.token_metadata.contains_key(t) implies {
            &&& after.deposit_by_token_id[t] == metadata_fee(config, after.token_metadata[t].len())
            &&& after.validation_fn.contains_key(after.registry_uid_for_token_id[t])
        } by {
            if t != token_id {
                assert(self.token_metadata.contains_key(t));
            }
        }
    }

    /// A transfer keeps the registry consistent.
    pub proof fn lemma_transferred_inv(
        self,
        config: Config,
        from: AccountId,
        to: AccountId,
        token_id: H256,
    )
        requires
            self.inv(config),
            self.tokens.has_token(token_id),
            self.tokens.token_owner[token_id] == from,
            to == from || self.tokens.balance_of(to) < TokenIndex::MAX,
        ensures
            self.transferred(from, to, token_id).inv(config),
    {
        self.tokens.lemma_transferred_inv(from, to, token_id);
        let after = self.transferred(from, to, token_id);
        assert forall|t: H256| #[trigger]
            after.tokens.has_token(t) <==> after.token_metadata.contains_key(t) by {
            assert(self.tokens.has_token(t) <==> self.token_metadata.contains_key(t));
        }
    }

    /// Burning a token keeps the registry consistent.
    pub proof fn lemma_burnt_inv(self, config: Config, token_id: H256)
        requires
            self.inv(config),
            self.tokens.has_token(token_id),
        ensures
            self.burnt(token_id).inv(config),
    {
        self.tokens.lemma_owned_position(token_id);
        self.tokens.lemma_burnt_inv(token_id);
        let after = self.burnt(token_id);
        assert forall|t: H256| #[trigger]
            after.tokens.has_token(t) <==> after.token_metadata.contains_key(t) by {
            assert(self.tokens.has_token(t) <==> self.token_metadata.contains_key(t));
        }
        assert forall|t: H256| #[trigger]
            after.deposit_by_token_id.contains_key(t) <==> after.token_metadata.contains_key(
                t,
            ) by {
            assert(self.deposit_by_token_id.contains_key(t) <==> self.token_metadata.contains_key(
                t,
            ));
        }
        assert forall|t: H256| #[trigger]
            after.registry_uid_for_token_id.contains_key(t) <==> after.token_metadata.contains_key(
                t,
            ) by {
            assert(self.registry_uid_for_token_id.contains_key(t)
                <==> self.token_metadata.contains_key(t));
        }
        assert forall|t: H256| #[trigger] after.token_metadata.contains_key(t) implies {
            &&& after.deposit_by_token_id[t] == metadata_fee(config, after.token_metadata[t].len())
            &&& after.validation_fn.contains_key(after.registry_uid_for_token_id[t])
        } by {
            assert(self.token_metadata.contains_key(t));
        }
    }

    /// A change of the token ledger that leaves the set of tokens as it is
    /// keeps the registry consistent.
    pub proof fn lemma_tokens_replaced_inv(self, config: Config, tokens: Ledger)
        requires
            self.inv(config),
            tokens.inv(),
            tokens.token_owner.dom() == self.tokens.token_owner.dom(),
        ensures
            (Registry { tokens, ..self }).inv(config),
    {
        let after = Registry { tokens, ..self };
        assert forall|t: H256| #[trigger]
            after.tokens.has_token(t) <==> after.token_metadata.contains_key(t) by {
            assert(self.tokens.has_token(t) <==> self.token_metadata.contains_key(t));
            assert(tokens.token_owner.dom().contains(t) <==> self.tokens.token_owner.dom().contains(
                t,
            ));
        }
    }

    /// Every call keeps the registry consistent, whether it goes through or
    /// is turned down.
    pub proof fn lemma_step_inv(self, config: Config, origin: AccountId, call: Call, currency_ok: bool)
        requires
            self.inv(config),
        ensures
            self.step(config, origin, call, currency_ok).inv(config),
    {
        if self.call_error(origin, call, currency_ok) is None {
            match call {
                Call::NewRegistry { validation_fn_addr } => {
                    self.lemma_with_new_registry_inv(config, validation_fn_addr);
                },
                Call::FinishMint { uid, token_id, token_owner, metadata } => {
                    self.lemma_finish_minted_inv(config, uid, token_id, token_owner, metadata@);
                },
                Call::TransferFrom { from, to, token_id } => {
                    self.lemma_transferred_inv(config, from, to, token_id);
                },
                Call::Burn { token_id } => {
                    self.lemma_burnt_inv(config, token_id);
                },
                Call::Approve { to, token_id } => {
                    self.tokens.lemma_approved_inv(to, token_id);
                    self.lemma_tokens_replaced_inv(config, self.tokens.approved(to, token_id));
                },
                Call::SetApprovalForAll { to, approved } => {
                    self.tokens.lemma_with_approval_for_all_inv(origin, to, approved);
                    self.lemma_tokens_replaced_inv(
                        config,
                        self.tokens.with_approval_for_all(origin, to, approved),
                    );
                },
            }
        }
    }

    /// The state after a sequence of calls, each with its origin and the
    /// answer of the host.
    pub open spec fn run(self, config: Config, calls: Seq<(AccountId, Call, bool)>) -> Registry
        decreases calls.len(),
    {
        if calls.len() == 0 {
            self
        } else {
            self.run(config, calls.drop_last()).step(
                config,
                calls.last().0,
                calls.last().1,
                calls.last().2,
            )
        }
    }

    /// The registry is consistent after every sequence of calls.
    pub proof fn lemma_run_inv(self, config: Config, calls: Seq<(AccountId, Call, bool)>)
        requires
            self.inv(config),
        ensures
            self.run(config, calls).inv(config),
        decreases calls.len(),
    {
        if calls.len() > 0 {
            self.lemma_run_inv(config, calls.drop_last());
            self.run(config, calls.drop_last()).lemma_step_inv(
                config,
                calls.last().0,
                calls.last().1,
                calls.last().2,
            );
        }
    }

    /// Whatever calls were made since the registry was set up, the deposit
    /// recorded for a token is the one due for its metadata: the base deposit
    /// plus the deposit per byte for every byte, capped at the largest
    /// balance.
    pub proof fn lemma_deposit_is_due_for_metadata(
        config: Config,
        calls: Seq<(AccountId, Call, bool)>,
        token_id: H256,
    )
        requires
            Registry::empty().run(config, calls).tokens.has_token(token_id),
        ensures
            Registry::empty().run(config, calls).token_metadata.contains_key(token_id),
            Registry::empty().run(config, calls).deposit_of(token_id) == metadata_fee(
                config,
                Registry::empty().run(config, calls).token_metadata[token_id].len(),
            ),
    {
        Registry::lemma_empty_inv(config);
        Registry::empty().lemma_run_inv(config, calls);
        let s = Registry::empty().run(config, calls);
        assert(s.tokens.has_token(token_id) <==> s.token_metadata.contains_key(token_id));
        assert(s.deposit_by_token_id.contains_key(token_id) <==> s.token_metadata.contains_key(
            token_id,
        ));
    }

    /// A call that is turned down changes nothing, so the same call made
    /// again, with the same answer of the host, is turned down for the same
    /// reason and again changes nothing.
    pub proof fn lemma_rejected_call_repeats(
        self,
        config: Config,
        origin: AccountId,
        call: Call,
        currency_ok: bool,
    )
        requires
            self.call_error(origin, call, currency_ok) is Some,
        ensures
            self.step(config, origin, call, currency_ok) == self,
            self.step(config, origin, call, currency_ok).call_error(origin, call, currency_ok)
                == self.call_error(origin, call, currency_ok),
            self.step(config, origin, call, currency_ok).step(config, origin, call, currency_ok)
                == self,
    {
    }
}

} // verus!
