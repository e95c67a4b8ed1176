//! The registry: validators are registered per registry, a mint is requested
//! with an anchored document and proofs against its root, and the validator's
//! callback finishes the mint.
//!
//! The registry decides; the host acts. Every operation checks all its
//! conditions first, changes the state only if all of them hold, and returns
//! what the host then has to carry out: currency to reserve, release or move,
//! events to record, the call to a validator. Where an operation depends on
//! the host's currency, the host says beforehand whether the currency will
//! go along.

use vstd::prelude::*;
use crate::anchor;
use crate::erc721;
use crate::erc721::AccountId;
use crate::hash::H256;
use crate::hashing::keccak_256;
use crate::proofs::{leaves, proofs_valid, views, Proof};
use crate::registry::state::{
    encoded_parameter, metadata_fee, validate_call_data, validate_method_name, Registry,
};
use crate::scale::{encode_bytes, encode_hashes, encode_u64};
use crate::store::Table;

pub mod state;
pub mod laws;

verus! {

/// The identifier of a registry.
pub type RegistryUid = u64;

/// An amount of the host's currency.
pub type Balance = u128;

/// The constants the registry is set up with.
#[derive(Clone, Copy, Debug, PartialEq, Eq)]
pub struct Config {
    /// The deposit for metadata, whatever its length.
    pub nft_deposit_base: Balance,
    /// The deposit for each byte of metadata.
    pub nft_deposit_per_byte: Balance,
    /// The deposit for registering a validator.
    pub nft_validation_registry_deposit: Balance,
    /// The least number of bytes of metadata a token may carry.
    pub min_token_metadata_length: u32,
    /// The largest number of bytes of metadata a token may carry.
    pub max_token_metadata_length: u32,
}

/// Why the registry turned a call down.
#[derive(Clone, Copy, Debug, PartialEq, Eq)]
pub enum Error {
    /// No validator is registered under the registry identifier.
    ValidationFunctionNotRegistered,
    /// The validator is bound to a registry already.
    ValidationFunctionAlreadyExists,
    /// The caller is not the validator of the registry.
    NotValidationFunction,
    /// The proofs do not hold against the anchored document root.
    ProofValidationFailure,
    /// No document is anchored under the anchor identifier.
    DocumentNotAnchored,
    /// The metadata is shorter or longer than the registry accepts.
    MetadataLengthInvalid,
    /// The currency cannot reserve the deposit.
    InsufficientFunds,
    /// The currency cannot move the deposit to the new owner.
    DepositNotTransferable,
    /// No registry identifier is left.
    Overflow,
    /// The token ledger turned the call down.
    Token(erc721::Error),
}

/// What the registry reports to the host.
#[derive(Clone, Copy, Debug, PartialEq, Eq)]
pub enum Event {
    /// An account registered a validator under a new registry identifier.
    NewRegistry(AccountId, RegistryUid),
    /// A token was minted in a registry.
    MintNft(RegistryUid, H256),
}

/// One thing the host has to carry out after a call went through.
#[derive(Clone, Copy, Debug, PartialEq, Eq)]
pub enum Effect {
    /// Reserve `amount` from the free balance of `who`.
    Reserve { who: AccountId, amount: Balance },
    /// Release `amount` of what is reserved from `who`.
    Unreserve { who: AccountId, amount: Balance },
    /// Move `amount` of what is reserved from `from` to `to`.
    RepatriateReserved { from: AccountId, to: AccountId, amount: Balance },
    /// Record an event of the token ledger.
    Token(erc721::Event),
    /// Record an event of the registry.
    Registry(Event),
}

/// The call to a validator that a request to mint leads to.
#[derive(Clone, Debug, PartialEq, Eq)]
pub struct ValidationCall {
    /// The account that asked for the mint and pays for the call.
    pub origin: AccountId,
    /// The validator to call.
    pub dest: AccountId,
    /// The currency sent along.
    pub value: Balance,
    /// The gas the call may use.
    pub gas_limit: u64,
    /// The input of the call.
    pub data: Vec<u8>,
}

/// What a validator is asked to approve: the parameter of the call that a
/// request to mint leads to.
#[derive(Clone, Debug, PartialEq, Eq)]
pub struct ContractParameter {
    /// The registry the token is to be minted in.
    pub uid: RegistryUid,
    /// The token to be minted.
    pub token_id: H256,
    /// The account that is to own the token.
    pub token_owner: AccountId,
    /// The metadata to be stored with the token.
    pub metadata: Vec<u8>,
    /// The leaves that were proven against the anchored document.
    pub proof_leaves: Vec<H256>,
}

impl ContractParameter {
    /// The parameter in bytes: the registry, the token, the owner-to-be, the
    /// metadata and the proven leaves, each in its encoding and in this
    /// order.
    pub open spec fn encoded(&self) -> Seq<u8> {
        encoded_parameter(
            self.uid,
            self.token_id,
            self.token_owner,
            self.metadata@,
            self.proof_leaves@,
        )
    }

    /// Encodes the parameter. Neither list may hold more than `u32::MAX`
    /// items: the length of a longer list has no encoding.
    pub fn encode(&self) -> (bytes: Vec<u8>)
        requires
            self.metadata@.len() <= u32::MAX,
            self.proof_leaves@.len() <= u32::MAX,
        ensures
            bytes@ == self.encoded(),
    {
        let mut bytes = encode_u64(self.uid);
        self.token_id.append_to(&mut bytes);
        let mut owner = encode_u64(self.token_owner);
        bytes.append(&mut owner);
        let mut data = encode_bytes(&self.metadata);
        bytes.append(&mut data);
        let mut hashes = encode_hashes(&self.proof_leaves);
        bytes.append(&mut hashes);
        bytes
    }
}

/// A call into the registry that may change it, as an account of the host
/// makes it.
#[derive(Clone, Debug, PartialEq, Eq)]
pub enum Call {
    /// Register a validator under a new registry identifier.
    NewRegistry { validation_fn_addr: AccountId },
    /// Finish a mint: the callback of a registry's validator.
    FinishMint { uid: RegistryUid, token_id: H256, token_owner: AccountId, metadata: Vec<u8> },
    /// Move a token, and its deposit, from one account to another.
    TransferFrom { from: AccountId, to: AccountId, token_id: H256 },
    /// Burn a token and give up its deposit.
    Burn { token_id: H256 },
    /// Make an account the delegate of a token.
    Approve { to: AccountId, token_id: H256 },
    /// Switch an operator for all tokens of the caller on or off.
    SetApprovalForAll { to: AccountId, approved: bool },
}

/// The registry.
pub struct Module {
    config: Config,
    tokens: erc721::Module,
    validation_fn: Table<RegistryUid, AccountId>,
    next_registry_id: RegistryUid,
    registry_uid_for_token_id: Table<H256, RegistryUid>,
    token_metadata: Table<H256, Vec<u8>>,
    deposit_by_token_id: Table<H256, Balance>,
    validation_function_map: Table<AccountId, bool>,
}

impl View for Module {
    type V = Registry;

    closed spec fn view(&self) -> Registry {
        Registry {
            tokens: self.tokens@,
            validation_fn: self.validation_fn@,
            next_registry_id: self.next_registry_id,
            registry_uid_for_token_id: self.registry_uid_for_token_id@,
            token_metadata: self.token_metadata@.map_values(|bytes: Vec<u8>| bytes@),
            deposit_by_token_id: self.deposit_by_token_id@,
            validation_function_map: self.validation_function_map@,
        }
    }
}

impl Module {
    /// The constants the registry was set up with.
    pub closed spec fn spec_config(&self) -> Config {
        self.config
    }

    /// Every table of the registry is well formed.
    pub closed spec fn tables_wf(&self) -> bool {
        &&& self.tokens.tables_wf()
        &&& self.validation_fn.wf()
        &&& self.registry_uid_for_token_id.wf()
        &&& self.token_metadata.wf()
        &&& self.deposit_by_token_id.wf()
        &&& self.validation_function_map.wf()
    }

    /// The registry is well formed: its tables are, and the state they hold
    /// is consistent.
    pub open spec fn wf(&self) -> bool {
        self.tables_wf() && self@.inv(self.spec_config())
    }

    /// A registry without validators and tokens.
    pub fn new(config: Config) -> (registry: Module)
        ensures
            registry.wf(),
            registry@ == Registry::empty(),
            registry.spec_config() == config,
    {
        let registry = Module {
            config,
            tokens: erc721::Module::new(),
            validation_fn: Table::new(),
            next_registry_id: 0,
            registry_uid_for_token_id: Table::new(),
            token_metadata: Table::new(),
            deposit_by_token_id: Table::new(),
            validation_function_map: Table::new(),
        };
        assert(registry@.token_metadata =~= Map::<H256, Seq<u8>>::empty());
        registry
    }

    /// The constants the registry was set up with.
    #[verifier::when_used_as_spec(spec_config)]
    pub fn config(&self) -> (config: Config)
        ensures
            config == self.spec_config(),
    {
        self.config
    }

    /// The token ledger, to read.
    pub fn tokens(&self) -> (tokens: &erc721::Module)
        requires
            self.wf(),
        ensures
            tokens.wf(),
            tokens@ == self@.tokens,
    {
        &self.tokens
    }

    /// The validator registered under `uid`, if there is one.
    pub fn validator_fn(&self, uid: RegistryUid) -> (validator: Option<AccountId>)
        requires
            self.wf(),
        ensures
            validator == if self@.validation_fn.contains_key(uid) {
                Some(self@.validation_fn[uid])
            } else {
                None
            },
    {
        match self.validation_fn.get(&uid) {
            Some(validator) => Some(*validator),
            None => None,
        }
    }

    /// The registry the token was minted in, if it was minted in one.
    pub fn registry_uid_for_token_id(&self, token_id: &H256) -> (uid: Option<RegistryUid>)
        requires
            self.wf(),
        ensures
            uid == if self@.registry_uid_for_token_id.contains_key(*token_id) {
                Some(self@.registry_uid_for_token_id[*token_id])
            } else {
                None
            },
    {
        match self.registry_uid_for_token_id.get(token_id) {
            Some(uid) => Some(*uid),
            None => None,
        }
    }

    /// The metadata stored with the token, if any is.
    pub fn token_metadata(&self, token_id: &H256) -> (metadata: Option<&Vec<u8>>)
        requires
            self.wf(),
        ensures
            match metadata {
                Some(bytes) => self@.token_metadata.contains_key(*token_id)
                    && self@.token_metadata[*token_id] == bytes@,
                None => !self@.token_metadata.contains_key(*token_id),
            },
    {
        self.token_metadata.get(token_id)
    }

    /// The amount reserved for the token; nothing if none is recorded.
    pub fn deposit_by_token_id(&self, token_id: &H256) -> (deposit: Balance)
        requires
            self.wf(),
        ensures
            deposit == self@.deposit_of(*token_id),
    {
        match self.deposit_by_token_id.get(token_id) {
            Some(deposit) => *deposit,
            None => 0,
        }
    }

    /// Whether the validator is bound to a registry.
    pub fn validation_function_map(&self, validator: &AccountId) -> (bound: bool)
        requires
            self.wf(),
        ensures
            bound == (self@.validation_function_map.contains_key(*validator)
                && self@.validation_function_map[*validator]),
    {
        match self.validation_function_map.get(validator) {
            Some(bound) => *bound,
            None => false,
        }
    }

    /// The document root anchored under `anchor_id`; fails with
    /// `DocumentNotAnchored` if there is none.
    pub fn get_document_root(anchors: &anchor::Module, anchor_id: &H256) -> (r: Result<H256, Error>)
        requires
            anchors.wf(),
        ensures
            r == if anchors@.contains_key(*anchor_id) {
                Ok::<H256, Error>(anchors@[*anchor_id].doc_root)
            } else {
                Err(Error::DocumentNotAnchored)
            },
    {
        match anchors.get_anchor_by_id(*anchor_id) {
            Some(anchor_data) => Ok(anchor_data.doc_root),
            None => Err(Error::DocumentNotAnchored),
        }
    }

    /// The deposit for metadata of the given length: the base deposit plus
    /// the deposit per byte for every byte, capped at the largest balance.
    pub fn compute_metadata_fee(&self, metadata_length: usize) -> (fee: Balance)
        ensures
            fee == metadata_fee(self.spec_config(), metadata_length as nat),
    {
        let bytes_deposit = match (metadata_length as Balance).checked_mul(
            self.config.nft_deposit_per_byte,
        ) {
            Some(deposit) => deposit,
            None => Balance::MAX,
        };
        bytes_deposit.saturating_add(self.config.nft_deposit_base)
    }

    /// Passes if `sender` is the validator registered under `uid`. Fails with
    /// `ValidationFunctionNotRegistered` if none is registered, and with
    /// `NotValidationFunction` if another account is.
    pub fn ensure_sender_is_validation_function(&self, uid: RegistryUid, sender: &AccountId) -> (r:
        Result<(), Error>)
        requires
            self.wf(),
        ensures
            r == if !self@.validation_fn.contains_key(uid) {
                Err::<(), Error>(Error::ValidationFunctionNotRegistered)
            } else if self@.validation_fn[uid] != *sender {
                Err(Error::NotValidationFunction)
            } else {
                Ok(())
            },
    {
        let validation_function = match self.ensure_validation_fn_exists(uid) {
            Ok(validation_function) => validation_function,
            Err(e) => { return Err(e); },
        };
        if validation_function == *sender {
            Ok(())
        } else {
            Err(Error::NotValidationFunction)
        }
    }

    /// The validator registered under `uid`; fails with
    /// `ValidationFunctionNotRegistered` if there is none.
    pub fn ensure_validation_fn_exists(&self, uid: RegistryUid) -> (r: Result<AccountId, Error>)
        requires
            self.wf(),
        ensures
            r == if self@.validation_fn.contains_key(uid) {
                Ok::<AccountId, Error>(self@.validation_fn[uid])
            } else {
                Err(Error::ValidationFunctionNotRegistered)
            },
    {
        match self.validation_fn.get(&uid) {
            Some(validation_function) => Ok(*validation_function),
            None => Err(Error::ValidationFunctionNotRegistered),
        }
    }

    /// Passes if the batch of proofs is valid for `doc_root`; fails with
    /// `ProofValidationFailure` otherwise.
    pub fn validate_proofs(doc_root: &H256, proofs: &Vec<Proof>, static_proofs: &[H256; 3]) -> (r:
        Result<(), Error>)
        ensures
            r == if proofs_valid(*doc_root, views(proofs@), *static_proofs) {
                Ok::<(), Error>(())
            } else {
                Err(Error::ProofValidationFailure)
            },
    {
        if crate::proofs::validate_proofs(*doc_root, proofs, *static_proofs) {
            Ok(())
        } else {
            Err(Error::ProofValidationFailure)
        }
    }

    /// The leaves of the proofs, in the order of the proofs.
    pub fn proof_leaves(proofs: &Vec<Proof>) -> (hashes: Vec<H256>)
        ensures
            hashes@ == leaves(views(proofs@)),
    {
        let mut hashes: Vec<H256> = Vec::new();
        let mut i: usize = 0;
        while i < proofs.len()
            invariant
                0 <= i <= proofs@.len(),
                hashes@ == leaves(views(proofs@)).take(i as int),
            decreases proofs@.len() - i,
        {
            hashes.push(proofs[i].leaf_hash);
            assert(leaves(views(proofs@)).take(i + 1) == leaves(views(proofs@)).take(
                i as int,
            ).push(proofs@[i as int].leaf_hash));
            i = i + 1;
        }
        assert(leaves(views(proofs@)).take(proofs@.len() as int) == leaves(views(proofs@)));
        hashes
    }

    /// The input of a call to a validator: the first four bytes of the digest
    /// of the method's name, then the encoded parameter.
    pub fn call_data(name_digest: &[u8; 32], parameter: &ContractParameter) -> (data: Vec<u8>)
        requires
            parameter.metadata@.len() <= u32::MAX,
            parameter.proof_leaves@.len() <= u32::MAX,
        ensures
            data@ == name_digest@.take(4) + parameter.encoded(),
    {
        let mut data: Vec<u8> = Vec::new();
        data.push(name_digest[0]);
        data.push(name_digest[1]);
        data.push(name_digest[2]);
        data.push(name_digest[3]);
        assert(data@ =~= name_digest@.take(4));
        let mut encoded = parameter.encode();
        data.append(&mut encoded);
        data
    }

    /// Registers `validation_fn_addr` as the validator of a new registry, on
    /// behalf of `sender`. `can_reserve` is the host's answer to whether the
    /// registration deposit can be reserved from `sender`.
    ///
    /// Fails with `ValidationFunctionAlreadyExists` if the validator is bound
    /// to a registry already, with `Overflow` if no identifier is left, and
    /// with `InsufficientFunds` if the deposit cannot be reserved; a call
    /// that fails changes nothing. Otherwise the registry gets the next
    /// identifier, and the host is to reserve the deposit and to record the
    /// event.
    pub fn new_registry(&mut self, sender: AccountId, validation_fn_addr: AccountId, can_reserve: bool) -> (r:
        Result<Vec<Effect>, Error>)
        requires
            old(self).wf(),
        ensures
            final(self).wf(),
            final(self).spec_config() == old(self).spec_config(),
            match r {
                Ok(effects) => {
                    &&& old(self)@.new_registry_error(validation_fn_addr, can_reserve) is None
                    &&& final(self)@ == old(self)@.with_new_registry(validation_fn_addr)
                    &&& effects@ == seq![
                        Effect::Reserve {
                            who: sender,
                            amount: old(self).spec_config().nft_validation_registry_deposit,
                        },
                        Effect::Registry(Event::NewRegistry(sender, old(self)@.next_registry_id)),
                    ]
                },
                Err(e) => {
                    &&& old(self)@.new_registry_error(validation_fn_addr, can_reserve) == Some(e)
                    &&& *final(self) == *old(self)
                },
            },
    {
        if self.validation_function_map(&validation_fn_addr) {
            return Err(Error::ValidationFunctionAlreadyExists);
        }
        let uid = self.next_registry_id;
        if uid == RegistryUid::MAX {
            return Err(Error::Overflow);
        }
        if !can_reserve {
            return Err(Error::InsufficientFunds);
        }
        self.validation_fn.insert(uid, validation_fn_addr);
        self.next_registry_id = uid + 1;
        self.validation_function_map.insert(validation_fn_addr, true);
        let mut effects: Vec<Effect> = Vec::new();
        effects.push(
            Effect::Reserve { who: sender, amount: self.config.nft_validation_registry_deposit },
        );
        effects.push(Effect::Registry(Event::NewRegistry(sender, uid)));
        proof {
            assert(final(self)@.token_metadata =~= old(self)@.token_metadata);
            old(self)@.lemma_with_new_registry_inv(old(self).spec_config(), validation_fn_addr);
        }
        Ok(effects)
    }

    /// Requests a mint: checks the request and, if it holds, returns the call
    /// to the registry's validator that the host is to make. Nothing is
    /// minted yet and the registry does not change.
    ///
    /// The checks come in this order. Fails with
    /// `ValidationFunctionNotRegistered` if no validator is registered under
    /// `registry_uid`, with `TokenAlreadyExists` if the token exists, with
    /// `MetadataLengthInvalid` if the metadata is shorter or longer than the
    /// registry accepts, with `DocumentNotAnchored` if nothing is anchored
    /// under `anchor_id`, and with `ProofValidationFailure` if the proofs do
    /// not hold against the anchored document root. In particular, metadata
    /// of a length out of bounds never leads to a call.
    pub fn mint(
        &self,
        anchors: &anchor::Module,
        sender: AccountId,
        registry_uid: RegistryUid,
        token_id: H256,
        metadata: Vec<u8>,
        anchor_id: H256,
        proofs: Vec<Proof>,
        static_proofs: [H256; 3],
        value: Balance,
        gas_limit: u64,
    ) -> (r: Result<ValidationCall, Error>)
        requires
            self.wf(),
            anchors.wf(),
            proofs@.len() <= u32::MAX,
        ensures
            match r {
                Ok(call) => {
                    &&& self@.mint_error(
                        self.spec_config(),
                        anchors@,
                        registry_uid,
                        token_id,
                        metadata@,
                        anchor_id,
                        views(proofs@),
                        static_proofs,
                    ) is None
                    &&& call.origin == sender
                    &&& call.dest == self@.validation_fn[registry_uid]
                    &&& call.value == value
                    &&& call.gas_limit == gas_limit
                    &&& call.data@ == validate_call_data(
                        registry_uid,
                        token_id,
                        sender,
                        metadata@,
                        leaves(views(proofs@)),
                    )
                },
                Err(e) => self@.mint_error(
                    self.spec_config(),
                    anchors@,
                    registry_uid,
                    token_id,
                    metadata@,
                    anchor_id,
                    views(proofs@),
                    static_proofs,
                ) == Some(e),
            },
            !self@.validation_fn.contains_key(registry_uid) ==> r == Err::<ValidationCall, Error>(
                Error::ValidationFunctionNotRegistered,
            ),
            metadata@.len() < self.spec_config().min_token_metadata_length || metadata@.len()
                > self.spec_config().max_token_metadata_length ==> r is Err,
            self@.validation_fn.contains_key(registry_uid) && !self@.tokens.has_token(token_id) && (
            metadata@.len() < self.spec_config().min_token_metadata_length || metadata@.len()
                > self.spec_config().max_token_metadata_length) ==> r == Err::<
                ValidationCall,
                Error,
            >(Error::MetadataLengthInvalid),
    {
        let validation_function = match self.ensure_validation_fn_exists(registry_uid) {
            Ok(validation_function) => validation_function,
            Err(e) => { return Err(e); },
        };
        match self.tokens.ensure_token_not_existed(&token_id) {
            Ok(()) => {},
            Err(e) => { return Err(Error::Token(e)); },
        }
        if metadata.len() < self.config.min_token_metadata_length as usize || metadata.len()
            > self.config.max_token_metadata_length as usize {
            return Err(Error::MetadataLengthInvalid);
        }
        let doc_root = match Self::get_document_root(anchors, &anchor_id) {
            Ok(doc_root) => doc_root,
            Err(e) => { return Err(e); },
        };
        match Self::validate_proofs(&doc_root, &proofs, &static_proofs) {
            Ok(()) => {},
            Err(e) => { return Err(e); },
        }
        let name: [u8; 8] = [118, 97, 108, 105, 100, 97, 116, 101];
        assert(name@ =~= validate_method_name());
        let keccak = keccak_256(name.as_slice());
        let contract_parameter = ContractParameter {
            uid: registry_uid,
            token_id,
            token_owner: sender,
            metadata,
            proof_leaves: Self::proof_leaves(&proofs),
        };
        let call = Self::call_data(&keccak, &contract_parameter);
        Ok(ValidationCall { origin: sender, dest: validation_function, value, gas_limit, data: call })
    }

    /// Finishes a mint: the callback of the validator of registry `uid`.
    /// `can_reserve` is the host's answer to whether the deposit for the
    /// metadata can be reserved from `token_owner`.
    ///
    /// The checks come in this order. Fails with
    /// `ValidationFunctionNotRegistered` if no validator is registered under
    /// `uid`, with `NotValidationFunction` if `sender` is not that validator,
    /// with the token ledger's error if the token cannot be minted to
    /// `token_owner`, and with `InsufficientFunds` if the deposit cannot be
    /// reserved; a call that fails changes nothing. Otherwise the token is
    /// minted to `token_owner`, its registry, metadata and deposit are
    /// recorded, and the host is to record the transfer, to reserve the
    /// deposit and to record the mint, in this order.
    pub fn finish_mint(
        &mut self,
        sender: AccountId,
        uid: RegistryUid,
        token_id: H256,
        token_owner: AccountId,
        metadata: Vec<u8>,
        can_reserve: bool,
    ) -> (r: Result<Vec<Effect>, Error>)
        requires
            old(self).wf(),
        ensures
            final(self).wf(),
            final(self).spec_config() == old(self).spec_config(),
            match r {
                Ok(effects) => {
                    &&& old(self)@.finish_mint_error(sender, uid, token_id, token_owner, can_reserve)
                        is None
                    &&& final(self)@ == old(self)@.finish_minted(
                        old(self).spec_config(),
                        uid,
                        token_id,
                        token_owner,
                        metadata@,
                    )
                    &&& effects@ == Registry::finish_mint_effects(
                        old(self).spec_config(),
                        uid,
                        token_id,
                        token_owner,
                        metadata@,
                    )
                },
                Err(e) => {
                    &&& old(self)@.finish_mint_error(sender, uid, token_id, token_owner, can_reserve)
                        == Some(e)
                    &&& *final(self) == *old(self)
                },
            },
            old(self)@.validation_fn.contains_key(uid) && old(self)@.validation_fn[uid] != sender
                ==> r == Err::<Vec<Effect>, Error>(Error::NotValidationFunction),
    {
        match self.ensure_sender_is_validation_function(uid, &sender) {
            Ok(()) => {},
            Err(e) => { return Err(e); },
        }
        match self.tokens.check_mint(&token_owner, &token_id) {
            Some(e) => { return Err(Error::Token(e)); },
            None => {},
        }
        if !can_reserve {
            return Err(Error::InsufficientFunds);
        }
        let total_deposit = self.compute_metadata_fee(metadata.len());
        let transfer = match self.tokens._mint(&token_owner, &token_id) {
            Ok(event) => event,
            Err(e) => { return Err(Error::Token(e)); },
        };
        let ghost bytes = metadata@;
        self.registry_uid_for_token_id.insert(token_id, uid);
        self.token_metadata.insert(token_id, metadata);
        self.deposit_by_token_id.insert(token_id, total_deposit);
        let mut effects: Vec<Effect> = Vec::new();
        effects.push(Effect::Token(transfer));
        effects.push(Effect::Reserve { who: token_owner, amount: total_deposit });
        effects.push(Effect::Registry(Event::MintNft(uid, token_id)));
        proof {
            assert(final(self)@.token_metadata =~= old(self)@.token_metadata.insert(
                token_id,
                bytes,
            ));
            old(self)@.lemma_finish_minted_inv(
                old(self).spec_config(),
                uid,
                token_id,
                token_owner,
                bytes,
            );
        }
        Ok(effects)
    }

    /// Moves `token_id` from `from` to `to` on behalf of `sender`, and its
    /// deposit with it. `can_repatriate` is the host's answer to whether the
    /// amount reserved for the token can be moved from `from` to `to`.
    ///
    /// Fails with the token ledger's error if the ledger turns the transfer
    /// down, and with `DepositNotTransferable` if the deposit cannot be
    /// moved; a call that fails changes nothing. Otherwise the token moves,
    /// and the host is to record the transfer and to move the deposit.
    pub fn transfer_from(
        &mut self,
        sender: AccountId,
        from: AccountId,
        to: AccountId,
        token_id: H256,
        can_repatriate: bool,
    ) -> (r: Result<Vec<Effect>, Error>)
        requires
            old(self).wf(),
        ensures
            final(self).wf(),
            final(self).spec_config() == old(self).spec_config(),
            match r {
                Ok(effects) => {
                    &&& old(self)@.transfer_error(sender, from, to, token_id, can_repatriate) is None
                    &&& final(self)@ == old(self)@.transferred(from, to, token_id)
                    &&& effects@ == seq![
                        Effect::Token(erc721::Event::Transfer(Some(from), Some(to), token_id)),
                        Effect::RepatriateReserved {
                            from,
                            to,
                            amount: old(self)@.deposit_of(token_id),
                        },
                    ]
                },
                Err(e) => {
                    &&& old(self)@.transfer_error(sender, from, to, token_id, can_repatriate) == Some(
                        e,
                    )
                    &&& *final(self) == *old(self)
                },
            },
    {
        match self.tokens.check_transfer_from(&sender, &from, &to, &token_id) {
            Some(e) => { return Err(Error::Token(e)); },
            None => {},
        }
        if !can_repatriate {
            return Err(Error::DepositNotTransferable);
        }
        let total_deposit = self.deposit_by_token_id(&token_id);
        let transfer = match self.tokens._transfer_from(&sender, &from, &to, &token_id) {
            Ok(event) => event,
            Err(e) => { return Err(Error::Token(e)); },
        };
        let mut effects: Vec<Effect> = Vec::new();
        effects.push(Effect::Token(transfer));
        effects.push(Effect::RepatriateReserved { from, to, amount: total_deposit });
        proof {
            assert(final(self)@.token_metadata =~= old(self)@.token_metadata);
            old(self)@.lemma_transferred_inv(old(self).spec_config(), from, to, token_id);
        }
        Ok(effects)
    }

    /// Burns `token_id` on behalf of `sender` and gives up its deposit.
    ///
    /// Fails with `TokenNotExisted` if the token does not exist, and with
    /// `NotOwnerOrApprover` unless `sender` is its owner, its delegate or an
    /// operator of its owner; a call that fails changes nothing. Otherwise
    /// the token is burnt, its metadata, deposit and registry are forgotten,
    /// and the host is to record the transfer to nobody and to release the
    /// deposit to `sender`.
    pub fn burn(&mut self, sender: AccountId, token_id: H256) -> (r: Result<Vec<Effect>, Error>)
        requires
            old(self).wf(),
        ensures
            final(self).wf(),
            final(self).spec_config() == old(self).spec_config(),
            match r {
                Ok(effects) => {
                    &&& old(self)@.burn_error(sender, token_id) is None
                    &&& final(self)@ == old(self)@.burnt(token_id)
                    &&& effects@ == seq![
                        Effect::Token(
                            erc721::Event::Transfer(
                                Some(old(self)@.tokens.token_owner[token_id]),
                                None,
                                token_id,
                            ),
                        ),
                        Effect::Unreserve { who: sender, amount: old(self)@.deposit_of(token_id) },
                    ]
                },
                Err(e) => {
                    &&& old(self)@.burn_error(sender, token_id) == Some(e)
                    &&& *final(self) == *old(self)
                },
            },
    {
        match self.tokens.ensure_token_exists(&token_id) {
            Ok(()) => {},
            Err(e) => { return Err(Error::Token(e)); },
        }
        match self.tokens.ensure_approver_or_owner(&sender, &token_id) {
            Ok(()) => {},
            Err(e) => { return Err(Error::Token(e)); },
        }
        let total_deposit = self.deposit_by_token_id(&token_id);
        let transfer = match self.tokens._burn(&token_id) {
            Ok(event) => event,
            Err(e) => { return Err(Error::Token(e)); },
        };
        self.token_metadata.remove(&token_id);
        self.deposit_by_token_id.remove(&token_id);
        self.registry_uid_for_token_id.remove(&token_id);
        let mut effects: Vec<Effect> = Vec::new();
        effects.push(Effect::Token(transfer));
        effects.push(Effect::Unreserve { who: sender, amount: total_deposit });
        proof {
            assert(final(self)@.token_metadata =~= old(self)@.token_metadata.remove(token_id));
            old(self)@.lemma_burnt_inv(old(self).spec_config(), token_id);
        }
        Ok(effects)
    }

    /// Makes `to` the delegate of `token_id` on behalf of `sender`, as the
    /// token ledger does. The host is to record the approval.
    pub fn approve(&mut self, sender: AccountId, to: AccountId, token_id: H256) -> (r: Result<
        Vec<Effect>,
        Error,
    >)
        requires
            old(self).wf(),
        ensures
            final(self).wf(),
            final(self).spec_config() == old(self).spec_config(),
            match r {
                Ok(effects) => {
                    &&& old(self)@.tokens.approve_error(sender, to, token_id) is None
                    &&& final(self)@ == (Registry {
                        tokens: old(self)@.tokens.approved(to, token_id),
                        ..old(self)@
                    })
                    &&& effects@ == seq![
                        Effect::Token(
                            erc721::Event::Approval(
                                old(self)@.tokens.token_owner[token_id],
                                to,
                                token_id,
                            ),
                        ),
                    ]
                },
                Err(e) => {
                    &&& old(self)@.tokens.approve_error(sender, to, token_id) is Some
                    &&& e == Error::Token(old(self)@.tokens.approve_error(sender, to, token_id)->0)
                    &&& *final(self) == *old(self)
                },
            },
    {
        match self.tokens.check_approve(&sender, &to, &token_id) {
            Some(e) => { return Err(Error::Token(e)); },
            None => {},
        }
        let approval = match self.tokens._approve(&sender, &to, &token_id) {
            Ok(event) => event,
            Err(e) => { return Err(Error::Token(e)); },
        };
        let mut effects: Vec<Effect> = Vec::new();
        effects.push(Effect::Token(approval));
        proof {
            assert(final(self)@.token_metadata =~= old(self)@.token_metadata);
            old(self)@.lemma_tokens_replaced_inv(
                old(self).spec_config(),
                old(self)@.tokens.approved(to, token_id),
            );
        }
        Ok(effects)
    }

    /// Switches `to` on or off as an operator for all tokens of `sender`, as
    /// the token ledger does. The host is to record the switch.
    pub fn set_approval_for_all(&mut self, sender: AccountId, to: AccountId, approved: bool) -> (r:
        Result<Vec<Effect>, Error>)
        requires
            old(self).wf(),
        ensures
            final(self).wf(),
            final(self).spec_config() == old(self).spec_config(),
            match r {
                Ok(effects) => {
                    &&& to != sender
                    &&& final(self)@ == (Registry {
                        tokens: old(self)@.tokens.with_approval_for_all(sender, to, approved),
                        ..old(self)@
                    })
                    &&& effects@ == seq![
                        Effect::Token(erc721::Event::ApprovalForAll(sender, to, approved)),
                    ]
                },
                Err(e) => {
                    &&& to == sender
                    &&& e == Error::Token(erc721::Error::OwnerAlwaysCanApprove)
                    &&& *final(self) == *old(self)
                },
            },
    {
        if to == sender {
            return Err(Error::Token(erc721::Error::OwnerAlwaysCanApprove));
        }
        let switch = match self.tokens._set_approval_for_all(&sender, &to, approved) {
            Ok(event) => event,
            Err(e) => { return Err(Error::Token(e)); },
        };
        let mut effects: Vec<Effect> = Vec::new();
        effects.push(Effect::Token(switch));
        proof {
            assert(final(self)@.token_metadata =~= old(self)@.token_metadata);
            old(self)@.lemma_tokens_replaced_inv(
                old(self).spec_config(),
                old(self)@.tokens.with_approval_for_all(sender, to, approved),
            );
        }
        Ok(effects)
    }

    /// Makes the call of `origin`. `currency_ok` is the host's answer to
    /// whether its currency goes along with what the call needs: the reserve
    /// of a registration or a mint, the move of a transfer.
    ///
    /// If the call goes through, the state moves as the call says and the
    /// host is handed what it has to carry out. If the call is turned down,
    /// the state stays as it is.
    pub fn dispatch(&mut self, origin: AccountId, call: Call, currency_ok: bool) -> (r: Result<
        Vec<Effect>,
        Error,
    >)
        requires
            old(self).wf(),
        ensures
            final(self).wf(),
            final(self).spec_config() == old(self).spec_config(),
            final(self)@ == old(self)@.step(old(self).spec_config(), origin, call, currency_ok),
            match r {
                Ok(effects) => {
                    &&& old(self)@.call_error(origin, call, currency_ok) is None
                    &&& effects@ == old(self)@.call_effects(old(self).spec_config(), origin, call)
                },
                Err(e) => {
                    &&& old(self)@.call_error(origin, call, currency_ok) == Some(e)
                    &&& *final(self) == *old(self)
                },
            },
    {
        match call {
            Call::NewRegistry { validation_fn_addr } => self.new_registry(
                origin,
                validation_fn_addr,
                currency_ok,
            ),
            Call::FinishMint { uid, token_id, token_owner, metadata } => self.finish_mint(
                origin,
                uid,
                token_id,
                token_owner,
                metadata,
                currency_ok,
            ),
            Call::TransferFrom { from, to, token_id } => self.transfer_from(
                origin,
                from,
                to,
                token_id,
                currency_ok,
            ),
            Call::Burn { token_id } => self.burn(origin, token_id),
            Call::Approve { to, token_id } => self.approve(origin, to, token_id),
            Call::SetApprovalForAll { to, approved } => self.set_approval_for_all(
                origin,
                to,
                approved,
            ),
        }
    }
}

} // verus!
