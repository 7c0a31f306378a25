//! What each call accepts, refuses and leaves behind, stated field by field.
use crate::pallet::{
    add_asset_effect, add_asset_error, create_collection_effect, create_collection_error,
    new_collection, refused, remove_asset_effect, remove_asset_error, remove_collection_effect,
    remove_collection_error, signer, transfer_asset_effect, transfer_asset_error,
    update_meta_effect, update_meta_error, PalletModel,
};
use crate::types::{
    AccountId, AssetModel, CollectionModel, DispatchError, Error, Event, Origin, H256,
};
use vstd::prelude::*;

verus! {

/// The signer of a signed origin is its account.
pub proof fn law_signer(who: AccountId)
    ensures
        signer(Origin::Signed(who)) == who,
{
}

/// A collection is created exactly when a signed account asks, its schema is
/// JSON, its name is 4 to 199 bytes long and its key is free. It is then
/// stored under its key with the given name, description and schema, the
/// signer as author and no item; nothing else is stored or changed, and one
/// `CollectionCreated` event reports the key and the signer.
pub proof fn law_create_collection(
    m: PalletModel,
    origin: Origin,
    name: Seq<u8>,
    description: Seq<u8>,
    schema: Seq<u8>,
    schema_is_json: bool,
    collection_hash: H256,
)
    ensures
        create_collection_error(m, origin, name, schema_is_json, collection_hash) is None <==> (
        origin is Signed && schema_is_json && 4 <= name.len() <= 199
            && !m.collections.contains_key(collection_hash)),
        origin is Signed && !schema_is_json ==> create_collection_error(
            m,
            origin,
            name,
            schema_is_json,
            collection_hash,
        ) == Some(DispatchError::Module(Error::InvalidJson)),
        origin is Signed && schema_is_json && name.len() < 4 ==> create_collection_error(
            m,
            origin,
            name,
            schema_is_json,
            collection_hash,
        ) == Some(DispatchError::Module(Error::ShortNameProvided)),
        origin is Signed && schema_is_json && name.len() > 199 ==> create_collection_error(
            m,
            origin,
            name,
            schema_is_json,
            collection_hash,
        ) == Some(DispatchError::Module(Error::LongNameProvided)),
        origin is Signed && schema_is_json && 4 <= name.len() <= 199 && m.collections.contains_key(
            collection_hash,
        ) ==> create_collection_error(m, origin, name, schema_is_json, collection_hash) == Some(
            DispatchError::Module(Error::CollectionAlreadyExists),
        ),
        new_collection(origin, name, description, schema) == (CollectionModel {
            name,
            description,
            author: signer(origin),
            schema,
            items_count: 0,
        }),
        ({
            let n = create_collection_effect(m, origin, name, description, schema, collection_hash);
            &&& n.collections.dom() == m.collections.dom().insert(collection_hash)
            &&& n.collections[collection_hash] == (CollectionModel {
                name,
                description,
                author: signer(origin),
                schema,
                items_count: 0,
            })
            &&& forall|c: H256|
                c != collection_hash ==> #[trigger] n.collections[c] == m.collections[c]
            &&& n.assets == m.assets
            &&& n.events == m.events + seq![
                Event::CollectionCreated { collection_hash, owner: signer(origin) },
            ]
        }),
{
    let n = create_collection_effect(m, origin, name, description, schema, collection_hash);
    assert(n.collections.dom() =~= m.collections.dom().insert(collection_hash));
    assert(n.events =~= m.events + seq![
        Event::CollectionCreated { collection_hash, owner: signer(origin) },
    ]);
}

/// An asset is added exactly when a signed account asks, its name is 4 to 199
/// bytes long, its collection is stored, its metadata is JSON and its key is
/// free under the collection. It is then stored with the given name and
/// metadata and the signer as owner, its collection counts one more item,
/// nothing else changes, and `CollectionUpdated` then `AssetWasStored` report
/// it.
pub proof fn law_add_asset(
    m: PalletModel,
    origin: Origin,
    asset_name: Seq<u8>,
    collection_hash: H256,
    meta: Seq<u8>,
    meta_is_json: bool,
    asset_hash: H256,
)
    ensures
        add_asset_error(m, origin, asset_name, collection_hash, meta_is_json, asset_hash) is None
            <==> (origin is Signed && 4 <= asset_name.len() <= 199 && m.collections.contains_key(
            collection_hash,
        ) && meta_is_json && !m.assets.contains_key((collection_hash, asset_hash))),
        origin is Signed && 4 <= asset_name.len() <= 199 && !m.collections.contains_key(
            collection_hash,
        ) ==> add_asset_error(m, origin, asset_name, collection_hash, meta_is_json, asset_hash)
            == Some(DispatchError::Module(Error::InvalidCollection)),
        origin is Signed && asset_name.len() < 4 ==> add_asset_error(
            m,
            origin,
            asset_name,
            collection_hash,
            meta_is_json,
            asset_hash,
        ) == Some(DispatchError::Module(Error::ShortNameProvided)),
        origin is Signed && asset_name.len() > 199 ==> add_asset_error(
            m,
            origin,
            asset_name,
            collection_hash,
            meta_is_json,
            asset_hash,
        ) == Some(DispatchError::Module(Error::LongNameProvided)),
        origin is Signed && 4 <= asset_name.len() <= 199 && m.collections.contains_key(
            collection_hash,
        ) && !meta_is_json ==> add_asset_error(
            m,
            origin,
            asset_name,
            collection_hash,
            meta_is_json,
            asset_hash,
        ) == Some(DispatchError::Module(Error::InvalidJson)),
        origin is Signed && 4 <= asset_name.len() <= 199 && m.collections.contains_key(
            collection_hash,
        ) && meta_is_json && m.assets.contains_key((collection_hash, asset_hash))
            ==> add_asset_error(m, origin, asset_name, collection_hash, meta_is_json, asset_hash)
            == Some(DispatchError::Module(Error::AssetAlreadyExists)),
        ({
            let n = add_asset_effect(m, origin, asset_name, collection_hash, meta, asset_hash);
            let k = (collection_hash, asset_hash);
            &&& n.assets.dom() == m.assets.dom().insert(k)
            &&& n.assets[k] == (AssetModel { name: asset_name, owner: signer(origin), meta })
            &&& forall|j: (H256, H256)| j != k ==> #[trigger] n.assets[j] == m.assets[j]
            &&& n.collections[collection_hash].items_count as int
                == m.collections[collection_hash].items_count as int + 1
                || m.collections[collection_hash].items_count == u32::MAX
            &&& n.collections[collection_hash].author == m.collections[collection_hash].author
            &&& n.collections[collection_hash].description
                == m.collections[collection_hash].description
            &&& n.collections[collection_hash].name == m.collections[collection_hash].name
            &&& n.collections[collection_hash].schema == m.collections[collection_hash].schema
            &&& n.collections.dom() == m.collections.dom().insert(collection_hash)
            &&& forall|c: H256|
                c != collection_hash ==> #[trigger] n.collections[c] == m.collections[c]
            &&& n.events == m.events + seq![
                Event::CollectionUpdated { collection_hash, owner: signer(origin) },
                Event::AssetWasStored { asset_hash, owner: signer(origin) },
            ]
        }),
{
    let n = add_asset_effect(m, origin, asset_name, collection_hash, meta, asset_hash);
    assert(n.collections.dom() =~= m.collections.dom().insert(collection_hash));
    assert(n.assets.dom() =~= m.assets.dom().insert((collection_hash, asset_hash)));
    assert(n.events =~= m.events + seq![
        Event::CollectionUpdated { collection_hash, owner: signer(origin) },
        Event::AssetWasStored { asset_hash, owner: signer(origin) },
    ]);
}

/// Metadata is replaced exactly when a signed account asks that authored the
/// asset's collection, the new metadata is JSON and the asset is stored;
/// whoever owns the asset does not matter. Only the asset's metadata changes,
/// and `MetaUpdated` reports it.
pub proof fn law_update_meta(
    m: PalletModel,
    origin: Origin,
    collection_hash: H256,
    asset_hash: H256,
    meta: Seq<u8>,
    meta_is_json: bool,
    new_owner: AccountId,
)
    ensures
        update_meta_error(m, origin, collection_hash, asset_hash, meta_is_json) is None <==> (
        origin is Signed && m.collections.contains_key(collection_hash)
            && m.collections[collection_hash].author == signer(origin) && meta_is_json
            && m.assets.contains_key((collection_hash, asset_hash))),
        origin is Signed && m.collections.contains_key(collection_hash)
            && m.collections[collection_hash].author != signer(origin) ==> update_meta_error(
            m,
            origin,
            collection_hash,
            asset_hash,
            meta_is_json,
        ) == Some(DispatchError::Module(Error::Unauthorized)),
        origin is Signed && !m.collections.contains_key(collection_hash) ==> update_meta_error(
            m,
            origin,
            collection_hash,
            asset_hash,
            meta_is_json,
        ) == Some(DispatchError::Module(Error::InvalidCollection)),
        origin is Signed && m.collections.contains_key(collection_hash)
            && m.collections[collection_hash].author == signer(origin) && !meta_is_json
            ==> update_meta_error(m, origin, collection_hash, asset_hash, meta_is_json) == Some(
            DispatchError::Module(Error::InvalidJson),
        ),
        origin is Signed && m.collections.contains_key(collection_hash)
            && m.collections[collection_hash].author == signer(origin) && meta_is_json
            && !m.assets.contains_key((collection_hash, asset_hash)) ==> update_meta_error(
            m,
            origin,
            collection_hash,
            asset_hash,
            meta_is_json,
        ) == Some(DispatchError::Module(Error::InvalidHash)),
        ({
            let k = (collection_hash, asset_hash);
            let other = PalletModel {
                collections: m.collections,
                assets: m.assets.insert(
                    k,
                    AssetModel { name: m.assets[k].name, owner: new_owner, meta: m.assets[k].meta },
                ),
                events: m.events,
            };
            m.assets.contains_key(k) ==> update_meta_error(
                other,
                origin,
                collection_hash,
                asset_hash,
                meta_is_json,
            ) == update_meta_error(m, origin, collection_hash, asset_hash, meta_is_json)
        }),
        ({
            let n = update_meta_effect(m, origin, collection_hash, asset_hash, meta);
            let k = (collection_hash, asset_hash);
            &&& n.collections == m.collections
            &&& m.assets.contains_key(k) ==> n.assets.dom() == m.assets.dom()
            &&& n.assets[k] == (AssetModel { name: m.assets[k].name, owner: m.assets[k].owner, meta })
            &&& forall|j: (H256, H256)| j != k ==> #[trigger] n.assets[j] == m.assets[j]
            &&& n.events == m.events + seq![
                Event::MetaUpdated { asset_hash, owner: signer(origin) },
            ]
        }),
{
    let n = update_meta_effect(m, origin, collection_hash, asset_hash, meta);
    let k = (collection_hash, asset_hash);
    if m.assets.contains_key(k) {
        assert(n.assets.dom() =~= m.assets.dom());
    }
    assert(n.events =~= m.events + seq![Event::MetaUpdated { asset_hash, owner: signer(origin) }]);
}

/// An asset is transferred exactly when its owner asks; only its owner
/// changes, to the destination, and `AssetWasTransferred` reports the move.
pub proof fn law_transfer_asset(
    m: PalletModel,
    origin: Origin,
    collection_hash: H256,
    asset_hash: H256,
    destination: AccountId,
)
    ensures
        transfer_asset_error(m, origin, collection_hash, asset_hash) is None <==> (origin is Signed
            && m.assets.contains_key((collection_hash, asset_hash))
            && m.assets[(collection_hash, asset_hash)].owner == signer(origin)),
        origin is Signed && m.assets.contains_key((collection_hash, asset_hash))
            && m.assets[(collection_hash, asset_hash)].owner != signer(origin)
            ==> transfer_asset_error(m, origin, collection_hash, asset_hash) == Some(
            DispatchError::Module(Error::Unauthorized),
        ),
        origin is Signed && !m.assets.contains_key((collection_hash, asset_hash))
            ==> transfer_asset_error(m, origin, collection_hash, asset_hash) == Some(
            DispatchError::Module(Error::InvalidHash),
        ),
        ({
            let n = transfer_asset_effect(m, origin, collection_hash, asset_hash, destination);
            let k = (collection_hash, asset_hash);
            &&& n.collections == m.collections
            &&& m.assets.contains_key(k) ==> n.assets.dom() == m.assets.dom()
            &&& n.assets[k] == (AssetModel {
                name: m.assets[k].name,
                owner: destination,
                meta: m.assets[k].meta,
            })
            &&& forall|j: (H256, H256)| j != k ==> #[trigger] n.assets[j] == m.assets[j]
            &&& n.events == m.events + seq![
                Event::AssetWasTransferred { asset_hash, from: signer(origin), to: destination },
            ]
        }),
{
    let n = transfer_asset_effect(m, origin, collection_hash, asset_hash, destination);
    let k = (collection_hash, asset_hash);
    if m.assets.contains_key(k) {
        assert(n.assets.dom() =~= m.assets.dom());
    }
    assert(n.events =~= m.events + seq![
        Event::AssetWasTransferred { asset_hash, from: signer(origin), to: destination },
    ]);
}

/// An asset is removed exactly when its owner asks and its collection is
/// stored: a signer who does not own the asset is refused with
/// `Unauthorized`, whoever authored the collection. The asset is then gone,
/// its collection counts one item less, nothing else changes, and
/// `CollectionUpdated` then `AssetWasRemoved` report it.
pub proof fn law_remove_asset(
    m: PalletModel,
    origin: Origin,
    collection_hash: H256,
    asset_hash: H256,
)
    ensures
        remove_asset_error(m, origin, collection_hash, asset_hash) is None <==> (origin is Signed
            && m.collections.contains_key(collection_hash) && m.assets.contains_key(
            (collection_hash, asset_hash),
        ) && m.assets[(collection_hash, asset_hash)].owner == signer(origin)),
        origin is Signed && m.collections.contains_key(collection_hash) && m.assets.contains_key(
            (collection_hash, asset_hash),
        ) && m.assets[(collection_hash, asset_hash)].owner != signer(origin) ==> remove_asset_error(
            m,
            origin,
            collection_hash,
            asset_hash,
        ) == Some(DispatchError::Module(Error::Unauthorized)),
        origin is Signed && !m.collections.contains_key(collection_hash) ==> remove_asset_error(
            m,
            origin,
            collection_hash,
            asset_hash,
        ) == Some(DispatchError::Module(Error::InvalidCollection)),
        origin is Signed && m.collections.contains_key(collection_hash) && !m.assets.contains_key(
            (collection_hash, asset_hash),
        ) ==> remove_asset_error(m, origin, collection_hash, asset_hash) == Some(
            DispatchError::Module(Error::InvalidHash),
        ),
        ({
            let n = remove_asset_effect(m, origin, collection_hash, asset_hash);
            let k = (collection_hash, asset_hash);
            &&& n.assets == m.assets.remove(k)
            &&& !n.assets.contains_key(k)
            &&& m.collections[collection_hash].items_count > 0 ==> n.collections[
                collection_hash
            ].items_count == m.collections[collection_hash].items_count - 1
            &&& n.collections[collection_hash].author == m.collections[collection_hash].author
            &&& n.collections[collection_hash].description
                == m.collections[collection_hash].description
            &&& n.collections[collection_hash].name == m.collections[collection_hash].name
            &&& n.collections[collection_hash].schema == m.collections[collection_hash].schema
            &&& forall|c: H256|
                c != collection_hash ==> #[trigger] n.collections[c] == m.collections[c]
            &&& n.events == m.events + seq![
                Event::CollectionUpdated { collection_hash, owner: m.assets[k].owner },
                Event::AssetWasRemoved { asset_hash, owner: signer(origin) },
            ]
        }),
{
    let n = remove_asset_effect(m, origin, collection_hash, asset_hash);
    let k = (collection_hash, asset_hash);
    assert(n.collections.dom() =~= m.collections.dom().insert(collection_hash));
    assert(n.events =~= m.events + seq![
        Event::CollectionUpdated { collection_hash, owner: m.assets[k].owner },
        Event::AssetWasRemoved { asset_hash, owner: signer(origin) },
    ]);
}

/// A collection is removed exactly when its author asks and it counts no
/// item: any other signer is refused with `Unauthorized`. Only that
/// collection goes, and `CollectionRemoved` reports it.
pub proof fn law_remove_collection(m: PalletModel, origin: Origin, collection_hash: H256)
    ensures
        remove_collection_error(m, origin, collection_hash) is None <==> (origin is Signed
            && m.collections.contains_key(collection_hash)
            && m.collections[collection_hash].author == signer(origin)
            && m.collections[collection_hash].items_count == 0),
        origin is Signed && m.collections.contains_key(collection_hash)
            && m.collections[collection_hash].author != signer(origin) ==> remove_collection_error(
            m,
            origin,
            collection_hash,
        ) == Some(DispatchError::Module(Error::Unauthorized)),
        origin is Signed && !m.collections.contains_key(collection_hash) ==> remove_collection_error(
            m,
            origin,
            collection_hash,
        ) == refused(Error::InvalidHash),
        origin is Signed && m.collections.contains_key(collection_hash)
            && m.collections[collection_hash].author == signer(origin)
            && m.collections[collection_hash].items_count != 0 ==> remove_collection_error(
            m,
            origin,
            collection_hash,
        ) == Some(DispatchError::Module(Error::SomeAssetsExists)),
        ({
            let n = remove_collection_effect(m, origin, collection_hash);
            &&& n.collections == m.collections.remove(collection_hash)
            &&& n.assets == m.assets
            &&& n.events == m.events + seq![
                Event::CollectionRemoved { collection_hash, owner: signer(origin) },
            ]
        }),
{
    let n = remove_collection_effect(m, origin, collection_hash);
    assert(n.events =~= m.events + seq![
        Event::CollectionRemoved { collection_hash, owner: signer(origin) },
    ]);
}

} // verus!
