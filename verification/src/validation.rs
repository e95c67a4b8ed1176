//! A validator that approves every request to mint but those of registry
//! zero.

use vstd::prelude::*;
use crate::erc721::AccountId;
use crate::hash::H256;
use crate::registry::{Call, ContractParameter, RegistryUid};

verus! {

/// The call that finishes a mint.
pub fn finish_mint(uid: RegistryUid, token_id: H256, account: AccountId, metadata: Vec<u8>) -> (call:
    Call)
    ensures
        call == (Call::FinishMint { uid, token_id, token_owner: account, metadata }),
{
    Call::FinishMint { uid, token_id, token_owner: account, metadata }
}

/// Decides on a request to mint: the call back into the registry that
/// finishes the mint, for a request of any registry but registry zero, and
/// nothing for a request of registry zero.
pub fn validate(parameters: ContractParameter) -> (call: Option<Call>)
    ensures
        call == if parameters.uid > 0 {
            Some(
                Call::FinishMint {
                    uid: parameters.uid,
                    token_id: parameters.token_id,
                    token_owner: parameters.token_owner,
                    metadata: parameters.metadata,
                },
            )
        } else {
            None
        },
{
    if parameters.uid > 0 {
        Some(
            finish_mint(
                parameters.uid,
                parameters.token_id,
                parameters.token_owner,
                parameters.metadata,
            ),
        )
    } else {
        None
    }
}

} // verus!
