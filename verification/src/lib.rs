//! An NFT registry whose tokens are minted only after a document has been
//! anchored and a batch of Merkle proofs against the anchored root has been
//! checked, together with the ERC721-style token ledger and the anchor store
//! it builds on.

pub mod anchor;
pub mod hash;
pub mod hashing;
pub mod store;
pub mod validation;
pub mod erc721;
pub mod proofs;
pub mod registry;
pub mod scale;
