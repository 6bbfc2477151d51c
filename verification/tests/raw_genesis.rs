use domains_core::hashing::{
    compute_evm_chain_id_storage_key, compute_self_domain_id_storage_key, compute_storage_prefix,
};
use domains_core::primitives::{bytes_eq, bytes_less, keys_in_order, DomainId};
use domains_core::raw_genesis::RawGenesis;
use parity_scale_codec::Encode;
use std::collections::BTreeMap;

type Top = BTreeMap<Vec<u8>, Vec<u8>>;
type Children = BTreeMap<Vec<u8>, BTreeMap<Vec<u8>, Vec<u8>>>;

#[test]
fn storage_prefix_of_a_known_item() {
    // the prefix of the account storage of the system pallet
    let expected: [u8; 32] = [
        0x26, 0xaa, 0x39, 0x4e, 0xea, 0x56, 0x30, 0xe0, 0x7c, 0x48, 0xae, 0x0c, 0x95, 0x58, 0xce,
        0xf7, 0xb9, 0x9d, 0x88, 0x0e, 0xc6, 0x81, 0x79, 0x9c, 0x0c, 0xf3, 0x0e, 0x88, 0x86, 0x37,
        0x1d, 0xa9,
    ];
    assert_eq!(compute_storage_prefix(b"System", b"Account"), expected.to_vec());
}

#[test]
fn storage_keys_of_the_domain_identity() {
    let domain_key = compute_self_domain_id_storage_key();
    assert_eq!(domain_key.len(), 32);
    assert_eq!(domain_key[..16], sp_io::hashing::twox_128(b"SelfDomainId"));
    assert_eq!(domain_key[16..], sp_io::hashing::twox_128(b"SelfDomainId"));
    let chain_key = compute_evm_chain_id_storage_key();
    assert_eq!(chain_key[..16], sp_io::hashing::twox_128(b"EVMChainId"));
    assert_eq!(chain_key[16..], sp_io::hashing::twox_128(b"ChainId"));
    assert_ne!(domain_key, chain_key);
}

#[test]
fn byte_strings_are_compared_by_content() {
    assert!(bytes_eq(&[], &[]));
    assert!(bytes_eq(&[1, 2, 3], &[1, 2, 3]));
    assert!(!bytes_eq(&[1, 2, 3], &[1, 2]));
    assert!(!bytes_eq(&[1, 2, 3], &[1, 2, 4]));
    assert!(!bytes_eq(&[], &[0]));
}

#[test]
fn dummy_holds_the_code_only() {
    let genesis = RawGenesis::dummy(vec![1, 2, 3, 4]);
    assert_eq!(genesis.get_runtime_code(), Some(&[1u8, 2, 3, 4][..]));
    assert_eq!(genesis.get_top_storage(b":code"), Some(&[1u8, 2, 3, 4][..]));
    assert_eq!(genesis.get_top_storage(b":cod"), None);
    assert_eq!(genesis.get_top_storage(b""), None);
}

#[test]
fn decodes_what_the_codec_encodes() {
    let mut top = Top::new();
    top.insert(b"b".to_vec(), vec![2]);
    top.insert(b":code".to_vec(), vec![9, 9]);
    top.insert(b"a".to_vec(), vec![]);
    let mut child = BTreeMap::new();
    child.insert(b"k".to_vec(), b"v".to_vec());
    let mut children = Children::new();
    children.insert(b"root".to_vec(), child);
    let bytes = (top, children).encode();

    let genesis = RawGenesis::decode(&bytes).unwrap();
    assert_eq!(genesis.get_runtime_code(), Some(&[9u8, 9][..]));
    assert_eq!(genesis.get_top_storage(b"a"), Some(&[][..]));
    assert_eq!(genesis.get_top_storage(b"b"), Some(&[2u8][..]));
    assert_eq!(genesis.get_top_storage(b"c"), None);

    // bytes after the image are ignored
    let mut longer = bytes.clone();
    longer.extend_from_slice(&[1, 2, 3]);
    assert_eq!(RawGenesis::decode(&longer), Some(genesis));
}

#[test]
fn decoding_the_encoded_dummy_gives_the_dummy() {
    let mut top = Top::new();
    top.insert(b":code".to_vec(), vec![1, 2, 3, 4]);
    let bytes = (top, Children::new()).encode();
    assert_eq!(RawGenesis::decode(&bytes), Some(RawGenesis::dummy(vec![1, 2, 3, 4])));
}

#[test]
fn malformed_images_are_not_decoded() {
    assert_eq!(RawGenesis::decode(&[]), None);
    // one map only
    assert_eq!(RawGenesis::decode(&Top::new().encode()), None);
    // a length that the bytes do not hold
    assert_eq!(RawGenesis::decode(&[8, 0, 0]), None);
    // two empty maps
    let empty = RawGenesis::decode(&[0, 0]).unwrap();
    assert_eq!(empty.get_runtime_code(), None);
}

#[test]
fn storage_is_a_map() {
    let mut genesis = RawGenesis::dummy(vec![1]);
    genesis.set_top_storage(b"x".to_vec(), vec![1]);
    genesis.set_top_storage(b"y".to_vec(), vec![2]);
    genesis.set_top_storage(b"x".to_vec(), vec![3]);
    assert_eq!(genesis.get_top_storage(b"x"), Some(&[3u8][..]));
    assert_eq!(genesis.get_top_storage(b"y"), Some(&[2u8][..]));
    assert_eq!(genesis.get_runtime_code(), Some(&[1u8][..]));
    genesis.set_top_storage(b":code".to_vec(), vec![7, 7]);
    assert_eq!(genesis.get_runtime_code(), Some(&[7u8, 7][..]));
    assert_eq!(genesis.get_top_storage(b"x"), Some(&[3u8][..]));
}

#[test]
fn identity_is_written_in_little_endian() {
    let mut genesis = RawGenesis::dummy(vec![]);
    genesis.set_domain_id(DomainId(0xaabb_ccdd));
    genesis.set_evm_chain_id(0x0102_0304_0506_0708);
    assert_eq!(
        genesis.get_top_storage(&compute_self_domain_id_storage_key()),
        Some(&[0xddu8, 0xcc, 0xbb, 0xaa][..])
    );
    assert_eq!(
        genesis.get_top_storage(&compute_evm_chain_id_storage_key()),
        Some(&[8u8, 7, 6, 5, 4, 3, 2, 1][..])
    );
    genesis.set_domain_id(DomainId(1));
    assert_eq!(
        genesis.get_top_storage(&compute_self_domain_id_storage_key()),
        Some(&[1u8, 0, 0, 0][..])
    );
    assert_eq!(genesis.get_runtime_code(), Some(&[][..]));
}

#[test]
fn byte_strings_are_ordered_by_their_first_difference() {
    assert!(bytes_less(&[], &[0]));
    assert!(!bytes_less(&[], &[]));
    assert!(!bytes_less(&[0], &[]));
    assert!(bytes_less(&[1, 2], &[1, 3]));
    assert!(!bytes_less(&[1, 3], &[1, 2]));
    assert!(!bytes_less(&[1, 2], &[1, 2]));
    assert!(bytes_less(&[1, 2], &[1, 2, 0]));
    assert!(!bytes_less(&[1, 2, 0], &[1, 2]));
    assert!(bytes_less(&[1, 255, 255], &[2]));
    assert!(bytes_less(&[127], &[128]));
    // as the ordered maps of the standard library order them
    let samples: [&[u8]; 7] = [&[], &[0], &[0, 0], &[1], &[1, 0], &[255], &[58, 99]];
    for a in samples {
        for b in samples {
            assert_eq!(bytes_less(a, b), a < b);
        }
    }
}

#[test]
fn keys_are_in_order_where_each_comes_before_the_next() {
    let list = |keys: &[&[u8]]| -> Vec<(Vec<u8>, u8)> {
        keys.iter().map(|key| (key.to_vec(), 0u8)).collect()
    };
    assert!(keys_in_order(&list(&[])));
    assert!(keys_in_order(&list(&[&[5]])));
    assert!(keys_in_order(&list(&[&[], &[0], &[0, 1], &[1]])));
    assert!(!keys_in_order(&list(&[&[1], &[0]])));
    assert!(!keys_in_order(&list(&[&[1], &[1]])));
    assert!(!keys_in_order(&list(&[&[0], &[2], &[1]])));
}

#[test]
fn images_that_hold_the_same_are_the_same() {
    let mut forwards = RawGenesis::dummy(vec![1]);
    forwards.set_top_storage(b"a".to_vec(), vec![1]);
    forwards.set_top_storage(b"b".to_vec(), vec![2]);
    forwards.set_top_storage(b"".to_vec(), vec![3]);
    forwards.set_top_storage(b"zz".to_vec(), vec![4]);

    let mut backwards = RawGenesis::dummy(vec![0]);
    backwards.set_top_storage(b"zz".to_vec(), vec![4]);
    backwards.set_top_storage(b"".to_vec(), vec![0]);
    backwards.set_top_storage(b"b".to_vec(), vec![2]);
    backwards.set_top_storage(b"a".to_vec(), vec![1]);
    backwards.set_top_storage(b"".to_vec(), vec![3]);
    backwards.set_top_storage(b":code".to_vec(), vec![1]);
    assert_eq!(forwards, backwards);

    // and the same as what is decoded from the encoded map
    let mut top = Top::new();
    for (key, value) in [(&b"a"[..], 1u8), (b"b", 2), (b"", 3), (b"zz", 4), (b":code", 1)] {
        top.insert(key.to_vec(), vec![value]);
    }
    let decoded = RawGenesis::decode(&(top.clone(), Children::new()).encode()).unwrap();
    assert_eq!(decoded, forwards);
    let keys: Vec<Vec<u8>> = decoded.top().iter().map(|(key, _)| key.clone()).collect();
    assert_eq!(keys, top.keys().cloned().collect::<Vec<_>>());
    assert!(keys_in_order(forwards.top()));

    // the identity of a domain finds its place among the keys
    let mut completed = decoded.clone();
    completed.set_evm_chain_id(9);
    completed.set_domain_id(DomainId(1));
    let mut again = forwards.clone();
    again.set_domain_id(DomainId(1));
    again.set_evm_chain_id(9);
    assert_eq!(completed, again);
    assert!(keys_in_order(completed.top()));
    assert_eq!(completed.top().len(), 7);
}

#[test]
fn image_is_made_of_ordered_storages_only() {
    let entries = |keys: &[&[u8]]| -> Vec<(Vec<u8>, Vec<u8>)> {
        keys.iter().map(|key| (key.to_vec(), key.to_vec())).collect()
    };
    let made = RawGenesis::from_storage(
        entries(&[b":code", b"a"]),
        vec![(b"r1".to_vec(), entries(&[b"x", b"y"])), (b"r2".to_vec(), entries(&[]))],
    )
    .unwrap();
    assert_eq!(made.get_runtime_code(), Some(&b":code"[..]));
    assert_eq!(made.top(), &entries(&[b":code", b"a"]));
    assert_eq!(made.children_default().len(), 2);

    // it is what the codec decodes from the same maps
    let mut top = Top::new();
    top.insert(b":code".to_vec(), b":code".to_vec());
    top.insert(b"a".to_vec(), b"a".to_vec());
    let mut children = Children::new();
    children.insert(
        b"r1".to_vec(),
        [(b"x".to_vec(), b"x".to_vec()), (b"y".to_vec(), b"y".to_vec())].into_iter().collect(),
    );
    children.insert(b"r2".to_vec(), BTreeMap::new());
    assert_eq!(RawGenesis::decode(&(top, children).encode()), Some(made));

    assert_eq!(RawGenesis::from_storage(entries(&[b"b", b"a"]), vec![]), None);
    assert_eq!(RawGenesis::from_storage(entries(&[b"a", b"a"]), vec![]), None);
    assert_eq!(
        RawGenesis::from_storage(
            entries(&[b"a"]),
            vec![(b"r2".to_vec(), entries(&[])), (b"r1".to_vec(), entries(&[]))],
        ),
        None
    );
    assert_eq!(
        RawGenesis::from_storage(entries(&[b"a"]), vec![(b"r".to_vec(), entries(&[b"y", b"x"]))]),
        None
    );
    assert!(RawGenesis::from_storage(vec![], vec![]).is_some());
}
