use nft_registry::anchor::{AnchorData, Module};
use nft_registry::hash::H256;
use nft_registry::store::Table;

#[test]
fn anchor_is_found_under_its_identifier() {
    let mut anchors = Module::new();
    let id = H256([1; 32]);
    let root = H256([2; 32]);
    assert_eq!(anchors.get_anchor_by_id(id), None);
    anchors.insert_anchor_data(id, root);
    let anchor = anchors.get_anchor_by_id(id).unwrap();
    assert_eq!(anchor, AnchorData { id, doc_root: root, anchored_block: 0 });
    assert_eq!(anchor.get_doc_root(), root);
    assert_eq!(anchors.get_anchor_by_id(root), None);
}

#[test]
fn anchor_is_replaced_by_a_second_insert() {
    let mut anchors = Module::new();
    let id = H256([1; 32]);
    let other = H256([5; 32]);
    anchors.insert_anchor_data(id, H256([2; 32]));
    anchors.insert_anchor_data(other, H256([6; 32]));
    anchors.insert_anchor_data(id, H256([3; 32]));
    assert_eq!(anchors.get_anchor_by_id(id).unwrap().get_doc_root(), H256([3; 32]));
    assert_eq!(anchors.get_anchor_by_id(other).unwrap().get_doc_root(), H256([6; 32]));
}

#[test]
fn doc_root_of_any_anchor_data() {
    let anchor = AnchorData { id: 1u8, doc_root: 2u8, anchored_block: 3u32 };
    assert_eq!(anchor.get_doc_root(), 2);
}

#[test]
fn table_holds_one_value_per_key() {
    let mut table: Table<u64, u8> = Table::new();
    assert!(!table.contains_key(&1));
    assert_eq!(table.get(&1), None);
    table.insert(1, 10);
    table.insert(2, 20);
    table.insert(3, 30);
    table.insert(2, 21);
    assert_eq!(table.get(&1), Some(&10));
    assert_eq!(table.get(&2), Some(&21));
    assert_eq!(table.value(&3), 30);
    table.remove(&1);
    assert!(!table.contains_key(&1));
    assert_eq!(table.get(&2), Some(&21));
    assert_eq!(table.get(&3), Some(&30));
    table.remove(&7);
    table.remove(&3);
    table.remove(&2);
    assert_eq!(table.get(&2), None);
    table.insert(2, 22);
    assert_eq!(table.value(&2), 22);
}

#[test]
fn table_tells_hashes_apart() {
    let mut table: Table<H256, u64> = Table::new();
    let mut a = [0u8; 32];
    let mut b = [0u8; 32];
    a[31] = 1;
    b[0] = 1;
    table.insert(H256(a), 1);
    table.insert(H256(b), 2);
    assert_eq!(table.get(&H256(a)), Some(&1));
    assert_eq!(table.get(&H256(b)), Some(&2));
    assert_eq!(table.get(&H256([0; 32])), None);
}
