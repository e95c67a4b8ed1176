//! The anchor store: document roots committed under an anchor identifier.

use vstd::prelude::*;
use crate::hash::H256;
use crate::store::Table;

verus! {

/// The height of a block of the host ledger.
pub type BlockNumber = u64;

/// A committed anchor: the document root that an identifier is bound to.
#[derive(Clone, Copy, Debug, PartialEq, Eq)]
pub struct AnchorData<Hash, BlockNumber> {
    pub id: Hash,
    pub doc_root: Hash,
    pub anchored_block: BlockNumber,
}

impl<Hash, BlockNumber> AnchorData<Hash, BlockNumber> {
    /// The document root of the anchor.
    pub fn get_doc_root(self) -> (root: Hash)
        ensures
            root == self.doc_root,
    {
        self.doc_root
    }
}

/// The anchor store.
pub struct Module {
    anchor_data_by_id: Table<H256, AnchorData<H256, BlockNumber>>,
}

impl View for Module {
    type V = Map<H256, AnchorData<H256, BlockNumber>>;

    closed spec fn view(&self) -> Map<H256, AnchorData<H256, BlockNumber>> {
        self.anchor_data_by_id@
    }
}

impl Module {
    /// The store is well formed.
    pub closed spec fn wf(&self) -> bool {
        self.anchor_data_by_id.wf()
    }

    /// A store without anchors.
    pub fn new() -> (store: Module)
        ensures
            store.wf(),
            store@ == Map::<H256, AnchorData<H256, BlockNumber>>::empty(),
    {
        Module { anchor_data_by_id: Table::new() }
    }

    /// The anchor committed under `anchor_id`, if there is one.
    pub fn get_anchor_by_id(&self, anchor_id: H256) -> (anchor: Option<
        AnchorData<H256, BlockNumber>,
    >)
        requires
            self.wf(),
        ensures
            anchor == if self@.contains_key(anchor_id) {
                Some(self@[anchor_id])
            } else {
                None
            },
    {
        match self.anchor_data_by_id.get(&anchor_id) {
            Some(anchor) => Some(*anchor),
            None => None,
        }
    }

    /// Commits `doc_root` under `anchor_id`, in place of whatever was
    /// committed under it before. The anchor is recorded at block zero; every
    /// other anchor stays as it is.
    pub fn insert_anchor_data(&mut self, anchor_id: H256, doc_root: H256)
        requires
            old(self).wf(),
        ensures
            final(self).wf(),
            final(self)@ == old(self)@.insert(
                anchor_id,
                AnchorData { id: anchor_id, doc_root: doc_root, anchored_block: 0 },
            ),
    {
        self.anchor_data_by_id.insert(
            anchor_id,
            AnchorData { id: anchor_id, doc_root: doc_root, anchored_block: 0 },
        );
    }
}

} // verus!
