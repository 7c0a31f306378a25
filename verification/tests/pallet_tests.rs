use meta_assets::pallet::Pallet;
use meta_assets::types::{Config, DispatchError, Error, Event, Origin, H256};

const ALICE: u64 = 1;
const BOB: u64 = 2;

fn new_pallet() -> Pallet {
    Pallet::new(Config { string_limit: 256, json_limit: 1024 })
}

fn create_collection(
    p: &mut Pallet,
    name: &[u8],
    description: &[u8],
    schema: &[u8],
) -> Result<(), DispatchError> {
    p.create_collection(Origin::Signed(ALICE), name.to_vec(), description.to_vec(), schema.to_vec())
}

fn create_asset(
    p: &mut Pallet,
    collection_hash: H256,
    name: &[u8],
    meta: &[u8],
) -> Result<(), DispatchError> {
    p.add_asset(Origin::Signed(ALICE), name.to_vec(), collection_hash, meta.to_vec())
}

fn last_collection_created(p: &Pallet) -> H256 {
    match p.events().last().unwrap().to_owned() {
        Event::CollectionCreated { collection_hash, owner: _ } => collection_hash,
        _ => panic!("Unexpected event"),
    }
}

fn last_asset_stored(p: &Pallet) -> H256 {
    match p.events().last().unwrap().to_owned() {
        Event::AssetWasStored { asset_hash, owner: _ } => asset_hash,
        _ => panic!("Unexpected event"),
    }
}

/// The number of collections and assets found under the given keys, and the
/// number of events: what a refused call must leave as it was.
fn footprint(p: &Pallet, keys: &[(H256, H256)]) -> (usize, usize, usize) {
    let mut collections = 0;
    let mut assets = 0;
    for (c, a) in keys {
        if p.collections(c).is_some() {
            collections += 1;
        }
        if p.assets(c, a).is_some() {
            assets += 1;
        }
    }
    (collections, assets, p.events().len())
}

#[test]
fn it_creates_collection() {
    let mut p = new_pallet();
    assert_eq!(create_collection(&mut p, b"Collection 1", b"Description xyz", b"{}"), Ok(()));

    let events = p.events();

    assert_eq!(events.len(), 1);
}

#[test]
fn it_should_not_create_duplicate_collection() {
    let mut p = new_pallet();
    assert_eq!(create_collection(&mut p, b"Collection 1", b"Description xyz", b"{}"), Ok(()));
    let hash = last_collection_created(&p);
    let before = footprint(&p, &[(hash, hash)]);
    assert_eq!(
        create_collection(&mut p, b"Collection 1", b"Description xyz", b"{}"),
        Err(DispatchError::Module(Error::CollectionAlreadyExists))
    );
    assert_eq!(footprint(&p, &[(hash, hash)]), before);
}

#[test]
fn it_removes_collection() {
    let mut p = new_pallet();
    assert_eq!(create_collection(&mut p, b"Collection 1", b"Description xyz", b"{}"), Ok(()));

    let collection_hash = last_collection_created(&p);
    assert_eq!(p.remove_collection(Origin::Signed(ALICE), collection_hash), Ok(()));

    assert_eq!(p.events().len(), 2);
}

#[test]
fn it_should_not_remove_collection() {
    let mut p = new_pallet();
    assert_eq!(create_collection(&mut p, b"Collection 1", b"Description xyz", b"{}"), Ok(()));

    let collection_hash = last_collection_created(&p);
    assert_eq!(create_asset(&mut p, collection_hash, b"Asset 1", b"{}"), Ok(()));

    let before = footprint(&p, &[(collection_hash, collection_hash)]);
    assert_eq!(
        p.remove_collection(Origin::Signed(ALICE), collection_hash),
        Err(DispatchError::Module(Error::SomeAssetsExists))
    );
    assert_eq!(footprint(&p, &[(collection_hash, collection_hash)]), before);
}

#[test]
fn it_creates_asset_in_collection() {
    let mut p = new_pallet();
    assert_eq!(create_collection(&mut p, b"Collection 1", b"Description xyz", b"{}"), Ok(()));

    let collection_hash = last_collection_created(&p);

    assert_eq!(create_asset(&mut p, collection_hash, b"Asset 1", b"{}"), Ok(()));

    assert_eq!(p.events().len(), 3);
}

#[test]
fn it_should_not_create_asset_with_short_name() {
    let mut p = new_pallet();
    assert_eq!(create_collection(&mut p, b"Collection 1", b"Description xyz", b"{}"), Ok(()));

    let collection_hash = last_collection_created(&p);

    let before = footprint(&p, &[(collection_hash, collection_hash)]);
    assert_eq!(
        create_asset(&mut p, collection_hash, b"", b"{}"),
        Err(DispatchError::Module(Error::ShortNameProvided))
    );
    assert_eq!(footprint(&p, &[(collection_hash, collection_hash)]), before);
}

#[test]
fn it_should_not_create_asset_with_long_name() {
    let mut p = new_pallet();
    assert_eq!(create_collection(&mut p, b"Collection 1", b"Description xyz", b"{}"), Ok(()));

    let collection_hash = last_collection_created(&p);

    let before = footprint(&p, &[(collection_hash, collection_hash)]);
    assert_eq!(create_asset(&mut p, collection_hash, b"Her extensive perceived may any sincerity extremity. Indeed add rather may pretty see. Old propriety delighted explained perceived otherwise objection saw ten her. Doubt merit sir the right these alone keeps. ", b"{}"), Err(DispatchError::Module(Error::LongNameProvided)));
    assert_eq!(footprint(&p, &[(collection_hash, collection_hash)]), before);
}

#[test]
fn it_transfers_asset_to_bob() {
    let mut p = new_pallet();
    assert_eq!(create_collection(&mut p, b"Collection 1", b"Description xyz", b"{}"), Ok(()));

    let collection_hash = last_collection_created(&p);

    assert_eq!(create_asset(&mut p, collection_hash, b"Asset 1", b"{}"), Ok(()));

    let asset_hash = last_asset_stored(&p);

    assert_eq!(p.transfer_asset(Origin::Signed(ALICE), collection_hash, asset_hash, BOB), Ok(()));

    let asset = p.assets(&collection_hash, &asset_hash).unwrap();
    assert_eq!(asset.owner, BOB);
}
