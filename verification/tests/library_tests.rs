use meta_assets::hashing::{hash_of_asset, hash_of_collection};
use meta_assets::json::json_is_valid;
use meta_assets::pallet::{ensure_signed, Pallet};
use meta_assets::scale::{encode_asset, encode_collection};
use meta_assets::types::{AssetItem, Collection, Config, DispatchError, Error, Event, Origin, H256};
use sp_core::{Encode, Hasher};

const ALICE: u64 = 1;
const BOB: u64 = 2;

fn new_pallet() -> Pallet {
    Pallet::new(Config { string_limit: 256, json_limit: 100_000 })
}

fn refused(e: Error) -> Result<(), DispatchError> {
    Err(DispatchError::Module(e))
}

fn blake2(bytes: &[u8]) -> H256 {
    <sp_core::Blake2Hasher as Hasher>::hash(bytes).0
}

/// Creates "Collection 1" of Alice's and returns its hash.
fn alice_collection(p: &mut Pallet) -> H256 {
    assert_eq!(
        p.create_collection(
            Origin::Signed(ALICE),
            b"Collection 1".to_vec(),
            b"Description xyz".to_vec(),
            b"{}".to_vec()
        ),
        Ok(())
    );
    match p.events().last().unwrap() {
        Event::CollectionCreated { collection_hash, .. } => *collection_hash,
        _ => panic!("unexpected event"),
    }
}

/// Adds "Asset 1" of Alice's to the collection and returns its hash.
fn alice_asset(p: &mut Pallet, collection_hash: H256) -> H256 {
    assert_eq!(
        p.add_asset(Origin::Signed(ALICE), b"Asset 1".to_vec(), collection_hash, b"{}".to_vec()),
        Ok(())
    );
    match p.events().last().unwrap() {
        Event::AssetWasStored { asset_hash, .. } => *asset_hash,
        _ => panic!("unexpected event"),
    }
}

#[test]
fn ensure_signed_gives_the_signer() {
    assert_eq!(ensure_signed(Origin::Signed(7)), Ok(7));
    assert_eq!(ensure_signed(Origin::Root), Err(DispatchError::BadOrigin));
    assert_eq!(ensure_signed(Origin::Unsigned), Err(DispatchError::BadOrigin));
}

#[test]
fn calls_from_root_or_unsigned_are_refused() {
    let mut p = new_pallet();
    let c = alice_collection(&mut p);
    let a = alice_asset(&mut p, c);
    for origin in [Origin::Root, Origin::Unsigned] {
        assert_eq!(
            p.create_collection(origin, b"Other one".to_vec(), vec![], b"{}".to_vec()),
            Err(DispatchError::BadOrigin)
        );
        assert_eq!(
            p.add_asset(origin, b"Asset 2".to_vec(), c, b"{}".to_vec()),
            Err(DispatchError::BadOrigin)
        );
        assert_eq!(p.update_meta(origin, c, a, b"[]".to_vec()), Err(DispatchError::BadOrigin));
        assert_eq!(p.transfer_asset(origin, c, a, BOB), Err(DispatchError::BadOrigin));
        assert_eq!(p.remove_asset(origin, c, a), Err(DispatchError::BadOrigin));
        assert_eq!(p.remove_collection(origin, c), Err(DispatchError::BadOrigin));
    }
    assert_eq!(p.events().len(), 3);
}

#[test]
fn created_collection_is_stored_with_no_items() {
    let mut p = new_pallet();
    let c = alice_collection(&mut p);
    let stored = p.collections(&c).unwrap();
    assert_eq!(stored.name, b"Collection 1".to_vec());
    assert_eq!(stored.description, b"Description xyz".to_vec());
    assert_eq!(stored.author, ALICE);
    assert_eq!(stored.schema, b"{}".to_vec());
    assert_eq!(stored.items_count, 0);
    assert_eq!(p.events()[0], Event::CollectionCreated { collection_hash: c, owner: ALICE });
}

#[test]
fn collection_key_is_blake2_of_the_scale_encoding() {
    let mut p = new_pallet();
    let c = alice_collection(&mut p);
    let encoded =
        (b"Collection 1".to_vec(), b"Description xyz".to_vec(), ALICE, b"{}".to_vec(), 0u32).encode();
    assert_eq!(c, blake2(&encoded));
    assert_ne!(c[..], encoded[..32]);
}

#[test]
fn asset_key_is_blake2_of_the_scale_encoding() {
    let mut p = new_pallet();
    let c = alice_collection(&mut p);
    let a = alice_asset(&mut p, c);
    let encoded = (b"Asset 1".to_vec(), ALICE, b"{}".to_vec()).encode();
    assert_eq!(a, blake2(&encoded));
}

#[test]
fn encoding_of_a_collection_field_by_field() {
    let c = Collection {
        name: b"abcd".to_vec(),
        description: vec![],
        author: 0x0102,
        schema: b"{}".to_vec(),
        items_count: 5,
    };
    let expected: Vec<u8> = vec![
        16, b'a', b'b', b'c', b'd', 0, 0x02, 0x01, 0, 0, 0, 0, 0, 0, 8, b'{', b'}', 5, 0, 0, 0,
    ];
    assert_eq!(encode_collection(&c), expected);
}

#[test]
fn encoding_uses_the_longer_length_prefixes() {
    let c = Collection {
        name: vec![b'n'; 64],
        description: vec![b'd'; 20_000],
        author: u64::MAX,
        schema: vec![b' '; 63],
        items_count: u32::MAX,
    };
    let bytes = encode_collection(&c);
    assert_eq!(&bytes[..2], &[0x01, 0x01]);
    assert_eq!(&bytes[66..70], &[0x82, 0x38, 0x01, 0x00]);
    let expected = (c.name.clone(), c.description.clone(), c.author, c.schema.clone(), c.items_count)
        .encode();
    assert_eq!(bytes, expected);
    assert_eq!(hash_of_collection(&c), blake2(&expected));
}

#[test]
fn encoding_of_an_asset_field_by_field() {
    let a = AssetItem { name: b"xy".to_vec(), owner: 3, meta: b"1".to_vec() };
    let expected: Vec<u8> = vec![8, b'x', b'y', 3, 0, 0, 0, 0, 0, 0, 0, 4, b'1'];
    assert_eq!(encode_asset(&a), expected);
    assert_eq!(hash_of_asset(&a), blake2(&expected));
    assert_ne!(hash_of_asset(&a)[..13], expected[..]);
}

#[test]
fn json_documents_are_recognised() {
    assert!(json_is_valid(&b"{}".to_vec()));
    assert!(json_is_valid(&b" [1, 2, {\"a\": null}] ".to_vec()));
    assert!(json_is_valid(&b"\"\xc3\xa9\"".to_vec()));
    assert!(!json_is_valid(&b"{".to_vec()));
    assert!(!json_is_valid(&b"".to_vec()));
    assert!(!json_is_valid(&b"{} {}".to_vec()));
    assert!(!json_is_valid(&b"not json".to_vec()));
}

#[test]
fn collection_with_a_bad_schema_is_refused() {
    let mut p = new_pallet();
    assert_eq!(
        p.create_collection(Origin::Signed(ALICE), b"Collection 1".to_vec(), vec![], b"{".to_vec()),
        refused(Error::InvalidJson)
    );
    assert_eq!(p.events().len(), 0);
}

#[test]
fn collection_name_length_bounds() {
    let mut p = new_pallet();
    let create = |p: &mut Pallet, n: usize| {
        p.create_collection(Origin::Signed(ALICE), vec![b'x'; n], vec![], b"{}".to_vec())
    };
    assert_eq!(create(&mut p, 0), refused(Error::ShortNameProvided));
    assert_eq!(create(&mut p, 3), refused(Error::ShortNameProvided));
    assert_eq!(create(&mut p, 4), Ok(()));
    assert_eq!(create(&mut p, 199), Ok(()));
    assert_eq!(create(&mut p, 200), refused(Error::LongNameProvided));
    assert_eq!(create(&mut p, 256), refused(Error::LongNameProvided));
    assert_eq!(p.events().len(), 2);
}

#[test]
fn json_is_checked_before_the_name() {
    let mut p = new_pallet();
    assert_eq!(
        p.create_collection(Origin::Signed(ALICE), b"ab".to_vec(), vec![], b"nope".to_vec()),
        refused(Error::InvalidJson)
    );
}

#[test]
fn the_same_collection_of_another_author_is_another_collection() {
    let mut p = new_pallet();
    let c = alice_collection(&mut p);
    assert_eq!(
        p.create_collection(
            Origin::Signed(BOB),
            b"Collection 1".to_vec(),
            b"Description xyz".to_vec(),
            b"{}".to_vec()
        ),
        Ok(())
    );
    match p.events()[1] {
        Event::CollectionCreated { collection_hash, owner } => {
            assert_ne!(collection_hash, c);
            assert_eq!(owner, BOB);
        },
        _ => panic!("unexpected event"),
    }
}

#[test]
fn adding_an_asset_counts_it_and_reports_it() {
    let mut p = new_pallet();
    let c = alice_collection(&mut p);
    let a = alice_asset(&mut p, c);
    assert_eq!(p.collections(&c).unwrap().items_count, 1);
    let asset = p.assets(&c, &a).unwrap();
    assert_eq!(asset.name, b"Asset 1".to_vec());
    assert_eq!(asset.owner, ALICE);
    assert_eq!(asset.meta, b"{}".to_vec());
    assert_eq!(p.events()[1], Event::CollectionUpdated { collection_hash: c, owner: ALICE });
    assert_eq!(p.events()[2], Event::AssetWasStored { asset_hash: a, owner: ALICE });
}

#[test]
fn anyone_may_add_to_a_collection() {
    let mut p = new_pallet();
    let c = alice_collection(&mut p);
    assert_eq!(
        p.add_asset(Origin::Signed(BOB), b"Bob's asset".to_vec(), c, b"{}".to_vec()),
        Ok(())
    );
}

#[test]
fn asset_errors() {
    let mut p = new_pallet();
    let c = alice_collection(&mut p);
    let missing: H256 = [9u8; 32];
    assert_eq!(
        p.add_asset(Origin::Signed(ALICE), b"abc".to_vec(), c, b"{}".to_vec()),
        refused(Error::ShortNameProvided)
    );
    assert_eq!(
        p.add_asset(Origin::Signed(ALICE), vec![b'a'; 200], c, b"{}".to_vec()),
        refused(Error::LongNameProvided)
    );
    assert_eq!(
        p.add_asset(Origin::Signed(ALICE), b"Asset 1".to_vec(), missing, b"{}".to_vec()),
        refused(Error::InvalidCollection)
    );
    assert_eq!(
        p.add_asset(Origin::Signed(ALICE), b"Asset 1".to_vec(), c, b"{,}".to_vec()),
        refused(Error::InvalidJson)
    );
    let _ = alice_asset(&mut p, c);
    assert_eq!(
        p.add_asset(Origin::Signed(ALICE), b"Asset 1".to_vec(), c, b"{}".to_vec()),
        refused(Error::AssetAlreadyExists)
    );
    assert_eq!(p.collections(&c).unwrap().items_count, 1);
    assert_eq!(p.events().len(), 3);
}

#[test]
fn only_the_collection_author_updates_meta() {
    let mut p = new_pallet();
    let c = alice_collection(&mut p);
    let a = alice_asset(&mut p, c);
    assert_eq!(p.transfer_asset(Origin::Signed(ALICE), c, a, BOB), Ok(()));
    assert_eq!(p.update_meta(Origin::Signed(BOB), c, a, b"[]".to_vec()), refused(Error::Unauthorized));
    assert_eq!(p.update_meta(Origin::Signed(ALICE), c, a, b"[".to_vec()), refused(Error::InvalidJson));
    assert_eq!(
        p.update_meta(Origin::Signed(ALICE), c, [1u8; 32], b"[]".to_vec()),
        refused(Error::InvalidHash)
    );
    assert_eq!(
        p.update_meta(Origin::Signed(ALICE), [1u8; 32], a, b"[]".to_vec()),
        refused(Error::InvalidCollection)
    );
    assert_eq!(p.update_meta(Origin::Signed(ALICE), c, a, b"{\"k\": 1}".to_vec()), Ok(()));
    let asset = p.assets(&c, &a).unwrap();
    assert_eq!(asset.meta, b"{\"k\": 1}".to_vec());
    assert_eq!(asset.owner, BOB);
    assert_eq!(asset.name, b"Asset 1".to_vec());
    assert_eq!(*p.events().last().unwrap(), Event::MetaUpdated { asset_hash: a, owner: ALICE });
}

#[test]
fn only_the_owner_transfers() {
    let mut p = new_pallet();
    let c = alice_collection(&mut p);
    let a = alice_asset(&mut p, c);
    assert_eq!(p.transfer_asset(Origin::Signed(BOB), c, a, BOB), refused(Error::Unauthorized));
    assert_eq!(p.transfer_asset(Origin::Signed(ALICE), c, [3u8; 32], BOB), refused(Error::InvalidHash));
    assert_eq!(p.transfer_asset(Origin::Signed(ALICE), c, a, BOB), Ok(()));
    assert_eq!(
        *p.events().last().unwrap(),
        Event::AssetWasTransferred { asset_hash: a, from: ALICE, to: BOB }
    );
    assert_eq!(p.transfer_asset(Origin::Signed(ALICE), c, a, ALICE), refused(Error::Unauthorized));
    assert_eq!(p.transfer_asset(Origin::Signed(BOB), c, a, ALICE), Ok(()));
    assert_eq!(p.assets(&c, &a).unwrap().owner, ALICE);
}

#[test]
fn removing_an_asset_counts_one_item_less() {
    let mut p = new_pallet();
    let c = alice_collection(&mut p);
    let a = alice_asset(&mut p, c);
    assert_eq!(p.remove_asset(Origin::Signed(BOB), c, a), refused(Error::Unauthorized));
    assert_eq!(p.remove_asset(Origin::Signed(ALICE), [4u8; 32], a), refused(Error::InvalidCollection));
    assert_eq!(p.remove_asset(Origin::Signed(ALICE), c, [4u8; 32]), refused(Error::InvalidHash));
    assert_eq!(p.collections(&c).unwrap().items_count, 1);
    assert_eq!(p.remove_asset(Origin::Signed(ALICE), c, a), Ok(()));
    assert!(p.assets(&c, &a).is_none());
    assert_eq!(p.collections(&c).unwrap().items_count, 0);
    let n = p.events().len();
    assert_eq!(p.events()[n - 2], Event::CollectionUpdated { collection_hash: c, owner: ALICE });
    assert_eq!(p.events()[n - 1], Event::AssetWasRemoved { asset_hash: a, owner: ALICE });
    assert_eq!(p.remove_asset(Origin::Signed(ALICE), c, a), refused(Error::InvalidHash));
}

#[test]
fn emptied_collection_can_be_removed() {
    let mut p = new_pallet();
    let c = alice_collection(&mut p);
    let a = alice_asset(&mut p, c);
    assert_eq!(
        p.add_asset(Origin::Signed(BOB), b"Asset 2".to_vec(), c, b"[]".to_vec()),
        Ok(())
    );
    let b = match p.events().last().unwrap() {
        Event::AssetWasStored { asset_hash, .. } => *asset_hash,
        _ => panic!("unexpected event"),
    };
    assert_eq!(p.collections(&c).unwrap().items_count, 2);
    assert_eq!(p.remove_asset(Origin::Signed(ALICE), c, a), Ok(()));
    assert_eq!(p.remove_collection(Origin::Signed(ALICE), c), refused(Error::SomeAssetsExists));
    assert_eq!(p.remove_asset(Origin::Signed(BOB), c, b), Ok(()));
    assert_eq!(p.collections(&c).unwrap().items_count, 0);
    assert_eq!(p.remove_collection(Origin::Signed(ALICE), c), Ok(()));
    assert!(p.collections(&c).is_none());
}

#[test]
fn add_then_remove_gives_the_storage_back() {
    let mut p = new_pallet();
    let c = alice_collection(&mut p);
    let a = alice_asset(&mut p, c);
    assert_eq!(p.remove_asset(Origin::Signed(ALICE), c, a), Ok(()));
    let stored = p.collections(&c).unwrap();
    assert_eq!(stored.items_count, 0);
    assert_eq!(stored.name, b"Collection 1".to_vec());
    assert_eq!(stored.author, ALICE);
    assert!(p.assets(&c, &a).is_none());
    assert_eq!(p.events().len(), 5);
}

#[test]
fn collection_removal_errors() {
    let mut p = new_pallet();
    let c = alice_collection(&mut p);
    assert_eq!(p.remove_collection(Origin::Signed(BOB), c), refused(Error::Unauthorized));
    assert_eq!(p.remove_collection(Origin::Signed(ALICE), [5u8; 32]), refused(Error::InvalidHash));
    assert_eq!(p.remove_collection(Origin::Signed(ALICE), c), Ok(()));
    assert!(p.collections(&c).is_none());
    assert_eq!(*p.events().last().unwrap(), Event::CollectionRemoved { collection_hash: c, owner: ALICE });
    assert_eq!(p.remove_collection(Origin::Signed(ALICE), c), refused(Error::InvalidHash));
    // once removed, the same collection can be created again
    assert_eq!(alice_collection(&mut p), c);
}

#[test]
fn decisions_with_given_outside_results() {
    let mut p = new_pallet();
    let c: H256 = [1u8; 32];
    let a: H256 = [2u8; 32];
    assert_eq!(
        p.create_collection_with(Origin::Signed(ALICE), b"Name".to_vec(), vec![], vec![], false, c),
        refused(Error::InvalidJson)
    );
    assert_eq!(
        p.create_collection_with(Origin::Signed(ALICE), b"Name".to_vec(), vec![], vec![], true, c),
        Ok(())
    );
    assert_eq!(
        p.add_asset_with(Origin::Signed(BOB), b"Item".to_vec(), c, vec![], false, a),
        refused(Error::InvalidJson)
    );
    assert_eq!(p.add_asset_with(Origin::Signed(BOB), b"Item".to_vec(), c, vec![], true, a), Ok(()));
    assert_eq!(p.assets(&c, &a).unwrap().owner, BOB);
    assert_eq!(p.update_meta_with(Origin::Signed(ALICE), c, a, b"x".to_vec(), false), refused(Error::InvalidJson));
    assert_eq!(p.update_meta_with(Origin::Signed(ALICE), c, a, b"x".to_vec(), true), Ok(()));
    assert_eq!(p.assets(&c, &a).unwrap().meta, b"x".to_vec());
    assert_eq!(p.config().string_limit, 256);
}

#[test]
fn try_add_asset_adds_where_no_count_overflows() {
    let mut p = new_pallet();
    let c = alice_collection(&mut p);
    assert_eq!(
        p.try_add_asset(Origin::Signed(ALICE), b"Asset 1".to_vec(), c, b"{}".to_vec()),
        Some(Ok(()))
    );
    assert_eq!(
        p.try_add_asset(Origin::Signed(ALICE), b"Asset 1".to_vec(), c, b"{}".to_vec()),
        Some(refused(Error::AssetAlreadyExists))
    );
    assert_eq!(
        p.try_add_asset(Origin::Root, b"Asset 1".to_vec(), c, b"{}".to_vec()),
        Some(Err(DispatchError::BadOrigin))
    );
    assert_eq!(p.collections(&c).unwrap().items_count, 1);
}
