//! The state of the registry and the effect of each operation on it.

use vstd::prelude::*;
use crate::anchor::{AnchorData, BlockNumber};
use crate::erc721;
use crate::erc721::AccountId;
use crate::erc721::state::Ledger;
use crate::hash::H256;
use crate::hashing::keccak_256_of;
use crate::proofs::{leaves, proofs_valid, ProofView};
use crate::registry::{Balance, Call, Config, Effect, Error, Event, RegistryUid};
use crate::scale::{compact_u32, concat_hashes, u64_le_bytes};

verus! {

/// The state of the registry.
pub struct Registry {
    /// The token ledger the registry mints into.
    pub tokens: Ledger,
    /// The validator registered for each registry.
    pub validation_fn: Map<RegistryUid, AccountId>,
    /// The identifier the next registry will get.
    pub next_registry_id: RegistryUid,
    /// The registry each token was minted in.
    pub registry_uid_for_token_id: Map<H256, RegistryUid>,
    /// The metadata stored with each token.
    pub token_metadata: Map<H256, Seq<u8>>,
    /// The amount reserved for each token.
    pub deposit_by_token_id: Map<H256, Balance>,
    /// The validators that are bound to a registry.
    pub validation_function_map: Map<AccountId, bool>,
}

/// The bytes of the name of the method that a validator is called at.
pub open spec fn validate_method_name() -> Seq<u8> {
    seq![118u8, 97u8, 108u8, 105u8, 100u8, 97u8, 116u8, 101u8]
}

/// The selector of that method: the first four bytes of the Keccak hash of
/// its name.
pub open spec fn validate_selector() -> Seq<u8> {
    keccak_256_of(validate_method_name())@.take(4)
}

/// The parameter of a call to a validator, in bytes: the registry, the
/// token, the owner-to-be, the metadata and the leaves that were proven, each
/// in its encoding and in this order.
pub open spec fn encoded_parameter(
    uid: RegistryUid,
    token_id: H256,
    token_owner: AccountId,
    metadata: Seq<u8>,
    proof_leaves: Seq<H256>,
) -> Seq<u8> {
    u64_le_bytes(uid) + token_id@ + u64_le_bytes(token_owner) + (compact_u32(
        metadata.len() as u32,
    ) + metadata) + (compact_u32(proof_leaves.len() as u32) + concat_hashes(proof_leaves))
}

/// The input of a call to a validator: the selector, then the parameter.
pub open spec fn validate_call_data(
    uid: RegistryUid,
    token_id: H256,
    token_owner: AccountId,
    metadata: Seq<u8>,
    proof_leaves: Seq<H256>,
) -> Seq<u8> {
    validate_selector() + encoded_parameter(uid, token_id, token_owner, metadata, proof_leaves)
}

/// The deposit for metadata of a given length: the base deposit and the
/// deposit per byte for every byte, capped at the largest balance.
pub open spec fn metadata_fee(config: Config, metadata_length: nat) -> Balance {
    let fee = metadata_length * config.nft_deposit_per_byte + config.nft_deposit_base;
    if fee > Balance::MAX {
        Balance::MAX
    } else {
        fee as Balance
    }
}

impl Registry {
    /// The registry before anything happened.
    pub open spec fn empty() -> Registry {
        Registry {
            tokens: Ledger::empty(),
            validation_fn: Map::empty(),
            next_registry_id: 0,
            registry_uid_for_token_id: Map::empty(),
            token_metadata: Map::empty(),
            deposit_by_token_id: Map::empty(),
            validation_function_map: Map::empty(),
        }
    }

    /// The registry is consistent.
    ///
    /// Its token ledger is consistent. A token exists exactly if its
    /// metadata, its deposit and its registry are recorded; the deposit is
    /// the one due for the metadata, and the registry is registered. The
    /// registries are numbered from zero up to the next identifier, each has
    /// one validator, and no validator is bound to two registries.
    pub open spec fn inv(self, config: Config) -> bool {
        &&& self.tokens.inv()
        &&& forall|t: H256| #[trigger]
            self.tokens.has_token(t) <==> self.token_metadata.contains_key(t)
        &&& forall|t: H256| #[trigger]
            self.deposit_by_token_id.contains_key(t) <==> self.token_metadata.contains_key(t)
        &&& forall|t: H256| #[trigger]
            self.registry_uid_for_token_id.contains_key(t) <==> self.token_metadata.contains_key(t)
        &&& forall|t: H256| #[trigger]
            self.token_metadata.contains_key(t) ==> {
                &&& self.deposit_by_token_id[t] == metadata_fee(config, self.token_metadata[t].len())
                &&& self.validation_fn.contains_key(self.registry_uid_for_token_id[t])
            }
        &&& forall|uid: RegistryUid| #[trigger]
            self.validation_fn.contains_key(uid) <==> uid < self.next_registry_id
        &&& forall|uid: RegistryUid| #[trigger]
            self.validation_fn.contains_key(uid) ==> self.is_bound(self.validation_fn[uid])
        &&& forall|uid: RegistryUid, other: RegistryUid|
            #[trigger] self.validation_fn.contains_key(uid)
                && #[trigger] self.validation_fn.contains_key(other) && uid != other
                ==> self.validation_fn[uid] != self.validation_fn[other]
    }

    /// Whether the validator is bound to a registry.
    pub open spec fn is_bound(self, validator: AccountId) -> bool {
        self.validation_function_map.contains_key(validator)
            && self.validation_function_map[validator]
    }

    /// The amount reserved for the token; nothing if none is recorded.
    pub open spec fn deposit_of(self, token_id: H256) -> Balance {
        if self.deposit_by_token_id.contains_key(token_id) {
            self.deposit_by_token_id[token_id]
        } else {
            0
        }
    }

    /// Why registering `validation_fn_addr` is turned down, if it is.
    pub open spec fn new_registry_error(self, validation_fn_addr: AccountId, can_reserve: bool) -> Option<
        Error,
    > {
        if self.is_bound(validation_fn_addr) {
            Some(Error::ValidationFunctionAlreadyExists)
        } else if self.next_registry_id == RegistryUid::MAX {
            Some(Error::Overflow)
        } else if !can_reserve {
            Some(Error::InsufficientFunds)
        } else {
            None
        }
    }

    /// The state after `validation_fn_addr` was registered.
    pub open spec fn with_new_registry(self, validation_fn_addr: AccountId) -> Registry {
        Registry {
            validation_fn: self.validation_fn.insert(self.next_registry_id, validation_fn_addr),
            next_registry_id: (self.next_registry_id + 1) as RegistryUid,
            validation_function_map: self.validation_function_map.insert(validation_fn_addr, true),
            ..self
        }
    }

    /// Why a request to mint is turned down, if it is. The checks come in
    /// this order: the registry, the token, the metadata, the anchor, the
    /// proofs.
    pub open spec fn mint_error(
        self,
        config: Config,
        anchors: Map<H256, AnchorData<H256, BlockNumber>>,
        registry_uid: RegistryUid,
        token_id: H256,
        metadata: Seq<u8>,
        anchor_id: H256,
        proofs: Seq<ProofView>,
        static_proofs: [H256; 3],
    ) -> Option<Error> {
        if !self.validation_fn.contains_key(registry_uid) {
            Some(Error::ValidationFunctionNotRegistered)
        } else if self.tokens.has_token(token_id) {
            Some(Error::Token(erc721::Error::TokenAlreadyExists))
        } else if metadata.len() < config.min_token_metadata_length || metadata.len()
            > config.max_token_metadata_length {
            Some(Error::MetadataLengthInvalid)
        } else if !anchors.contains_key(anchor_id) {
            Some(Error::DocumentNotAnchored)
        } else if !proofs_valid(anchors[anchor_id].doc_root, proofs, static_proofs) {
            Some(Error::ProofValidationFailure)
        } else {
            None
        }
    }

    /// Why finishing a mint is turned down, if it is.
    pub open spec fn finish_mint_error(
        self,
        sender: AccountId,
        uid: RegistryUid,
        token_id: H256,
        token_owner: AccountId,
        can_reserve: bool,
    ) -> Option<Error> {
        if !self.validation_fn.contains_key(uid) {
            Some(Error::ValidationFunctionNotRegistered)
        } else if self.validation_fn[uid] != sender {
            Some(Error::NotValidationFunction)
        } else if self.tokens.mint_error(token_owner, token_id) is Some {
            Some(Error::Token(self.tokens.mint_error(token_owner, token_id)->0))
        } else if !can_reserve {
            Some(Error::InsufficientFunds)
        } else {
            None
        }
    }

    /// The state after a mint was finished.
    pub open spec fn finish_minted(
        self,
        config: Config,
        uid: RegistryUid,
        token_id: H256,
        token_owner: AccountId,
        metadata: Seq<u8>,
    ) -> Registry {
        Registry {
            tokens: self.tokens.minted(token_owner, token_id),
            registry_uid_for_token_id: self.registry_uid_for_token_id.insert(token_id, uid),
            token_metadata: self.token_metadata.insert(token_id, metadata),
            deposit_by_token_id: self.deposit_by_token_id.insert(
                token_id,
                metadata_fee(config, metadata.len()),
            ),
            ..self
        }
    }

    /// What the host has to carry out after a mint was finished.
    pub open spec fn finish_mint_effects(
        config: Config,
        uid: RegistryUid,
        token_id: H256,
        token_owner: AccountId,
        metadata: Seq<u8>,
    ) -> Seq<Effect> {
        seq![
            Effect::Token(erc721::Event::Transfer(None, Some(token_owner), token_id)),
            Effect::Reserve { who: token_owner, amount: metadata_fee(config, metadata.len()) },
            Effect::Registry(Event::MintNft(uid, token_id)),
        ]
    }

    /// Why a transfer is turned down, if it is.
    pub open spec fn transfer_error(
        self,
        sender: AccountId,
        from: AccountId,
        to: AccountId,
        token_id: H256,
        can_repatriate: bool,
    ) -> Option<Error> {
        if self.tokens.transfer_error(sender, from, to, token_id) is Some {
            Some(Error::Token(self.tokens.transfer_error(sender, from, to, token_id)->0))
        } else if !can_repatriate {
            Some(Error::DepositNotTransferable)
        } else {
            None
        }
    }

    /// The state after a transfer.
    pub open spec fn transferred(self, from: AccountId, to: AccountId, token_id: H256) -> Registry {
        Registry { tokens: self.tokens.transferred(from, to, token_id), ..self }
    }

    /// Why burning a token is turned down, if it is.
    pub open spec fn burn_error(self, sender: AccountId, token_id: H256) -> Option<Error> {
        if !self.tokens.has_token(token_id) {
            Some(Error::Token(erc721::Error::TokenNotExisted))
        } else if !self.tokens.is_approved_or_owner(sender, token_id) {
            Some(Error::Token(erc721::Error::NotOwnerOrApprover))
        } else {
            None
        }
    }

    /// The state after a token was burnt: the token is gone from the ledger,
    /// and with it its metadata, its deposit and its registry.
    pub open spec fn burnt(self, token_id: H256) -> Registry {
        Registry {
            tokens: self.tokens.burnt(token_id),
            token_metadata: self.token_metadata.remove(token_id),
            deposit_by_token_id: self.deposit_by_token_id.remove(token_id),
            registry_uid_for_token_id: self.registry_uid_for_token_id.remove(token_id),
            ..self
        }
    }

    /// Why the call of `origin` is turned down, if it is. `currency_ok` is
    /// the host's answer to whether its currency goes along with what the
    /// call needs.
    pub open spec fn call_error(self, origin: AccountId, call: Call, currency_ok: bool) -> Option<
        Error,
    > {
        match call {
            Call::NewRegistry { validation_fn_addr } => self.new_registry_error(
                validation_fn_addr,
                currency_ok,
            ),
            Call::FinishMint { uid, token_id, token_owner, metadata } => self.finish_mint_error(
                origin,
                uid,
                token_id,
                token_owner,
                currency_ok,
            ),
            Call::TransferFrom { from, to, token_id } => self.transfer_error(
                origin,
                from,
                to,
                token_id,
                currency_ok,
            ),
            Call::Burn { token_id } => self.burn_error(origin, token_id),
            Call::Approve { to, token_id } => match self.tokens.approve_error(origin, to, token_id) {
                Some(e) => Some(Error::Token(e)),
                None => None,
            },
            Call::SetApprovalForAll { to, approved } => match self.tokens.set_approval_for_all_error(
                origin,
                to,
            ) {
                Some(e) => Some(Error::Token(e)),
                None => None,
            },
        }
    }

    /// What the host has to carry out after the call of `origin` went
    /// through, in order.
    pub open spec fn call_effects(self, config: Config, origin: AccountId, call: Call) -> Seq<
        Effect,
    > {
        match call {
            Call::NewRegistry { validation_fn_addr } => seq![
                Effect::Reserve { who: origin, amount: config.nft_validation_registry_deposit },
                Effect::Registry(Event::NewRegistry(origin, self.next_registry_id)),
            ],
            Call::FinishMint { uid, token_id, token_owner, metadata } => Self::finish_mint_effects(
                config,
                uid,
                token_id,
                token_owner,
                metadata@,
            ),
            Call::TransferFrom { from, to, token_id } => seq![
                Effect::Token(erc721::Event::Transfer(Some(from), Some(to), token_id)),
                Effect::RepatriateReserved { from, to, amount: self.deposit_of(token_id) },
            ],
            Call::Burn { token_id } => seq![
                Effect::Token(
                    erc721::Event::Transfer(Some(self.tokens.token_owner[token_id]), None, token_id),
                ),
                Effect::Unreserve { who: origin, amount: self.deposit_of(token_id) },
            ],
            Call::Approve { to, token_id } => seq![
                Effect::Token(
                    erc721::Event::Approval(self.tokens.token_owner[token_id], to, token_id),
                ),
            ],
            Call::SetApprovalForAll { to, approved } => seq![
                Effect::Token(erc721::Event::ApprovalForAll(origin, to, approved)),
            ],
        }
    }

    /// The state after the call of `origin`: the state the call leads to if
    /// it goes through, the state as it was if it is turned down.
    pub open spec fn step(
        self,
        config: Config,
        origin: AccountId,
        call: Call,
        currency_ok: bool,
    ) -> Registry {
        if self.call_error(origin, call, currency_ok) is Some {
            self
        } else {
            match call {
                Call::NewRegistry { validation_fn_addr } => self.with_new_registry(
                    validation_fn_addr,
                ),
                Call::FinishMint { uid, token_id, token_owner, metadata } => self.finish_minted(
                    config,
                    uid,
                    token_id,
                    token_owner,
                    metadata@,
                ),
                Call::TransferFrom { from, to, token_id } => self.transferred(from, to, token_id),
                Call::Burn { token_id } => self.burnt(token_id),
                Call::Approve { to, token_id } => Registry {
                    tokens: self.tokens.approved(to, token_id),
                    ..self
                },
                Call::SetApprovalForAll { to, approved } => Registry {
                    tokens: self.tokens.with_approval_for_all(origin, to, approved),
                    ..self
                },
            }
        }
    }
}

} // verus!
