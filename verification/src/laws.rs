//! What holds of the calls taken together.
use crate::item_counts::{assets_of, counts_match_assets, lemma_asset_counted};
use crate::pallet::{
    add_asset_effect, add_asset_error, count_one_more, create_collection_effect,
    create_collection_error, refused, remove_asset_effect, remove_asset_error,
    remove_collection_effect, remove_collection_error, signer, transfer_asset_effect,
    transfer_asset_error, update_meta_effect, update_meta_error, PalletModel,
};
use crate::types::{AccountId, DispatchError, Error, Origin, H256};
use vstd::prelude::*;

verus! {

/// Creating a collection a second time, with the same arguments, is refused
/// with `CollectionAlreadyExists`.
pub proof fn law_duplicate_collection_refused(
    m: PalletModel,
    origin: Origin,
    name: Seq<u8>,
    description: Seq<u8>,
    schema: Seq<u8>,
    schema_is_json: bool,
    collection_hash: H256,
)
    requires
        create_collection_error(m, origin, name, schema_is_json, collection_hash) is None,
    ensures
        create_collection_error(
            create_collection_effect(m, origin, name, description, schema, collection_hash),
            origin,
            name,
            schema_is_json,
            collection_hash,
        ) == refused(Error::CollectionAlreadyExists),
{
}

/// The author of a collection just created may remove it again.
pub proof fn law_new_collection_removable(
    m: PalletModel,
    origin: Origin,
    name: Seq<u8>,
    description: Seq<u8>,
    schema: Seq<u8>,
    schema_is_json: bool,
    collection_hash: H256,
)
    requires
        create_collection_error(m, origin, name, schema_is_json, collection_hash) is None,
    ensures
        remove_collection_error(
            create_collection_effect(m, origin, name, description, schema, collection_hash),
            origin,
            collection_hash,
        ) is None,
{
}

/// A collection that holds an asset cannot be removed, whoever asks; its
/// author is refused with `SomeAssetsExists`.
pub proof fn law_collection_with_asset_not_removable(
    m: PalletModel,
    origin: Origin,
    collection_hash: H256,
    asset_hash: H256,
)
    requires
        counts_match_assets(m),
        m.assets.contains_key((collection_hash, asset_hash)),
    ensures
        remove_collection_error(m, origin, collection_hash) is Some,
        origin is Signed && m.collections[collection_hash].author == signer(origin)
            ==> remove_collection_error(m, origin, collection_hash) == refused(
            Error::SomeAssetsExists,
        ),
{
    lemma_asset_counted(m, (collection_hash, asset_hash));
}

/// After an asset is added to a collection, the collection cannot be removed.
pub proof fn law_added_asset_blocks_removal(
    m: PalletModel,
    origin: Origin,
    asset_name: Seq<u8>,
    collection_hash: H256,
    meta: Seq<u8>,
    meta_is_json: bool,
    asset_hash: H256,
    remover: Origin,
)
    requires
        add_asset_error(m, origin, asset_name, collection_hash, meta_is_json, asset_hash) is None,
        m.collections[collection_hash].items_count < u32::MAX,
    ensures
        remove_collection_error(
            add_asset_effect(m, origin, asset_name, collection_hash, meta, asset_hash),
            remover,
            collection_hash,
        ) is Some,
{
}

/// An asset just added is stored under its collection and hash, owned by the
/// signer, and is found again by its owner for a transfer, after which the
/// destination owns it.
pub proof fn law_add_then_transfer(
    m: PalletModel,
    origin: Origin,
    asset_name: Seq<u8>,
    collection_hash: H256,
    meta: Seq<u8>,
    meta_is_json: bool,
    asset_hash: H256,
    destination: AccountId,
)
    requires
        add_asset_error(m, origin, asset_name, collection_hash, meta_is_json, asset_hash) is None,
    ensures
        ({
            let m2 = add_asset_effect(m, origin, asset_name, collection_hash, meta, asset_hash);
            let m3 = transfer_asset_effect(m2, origin, collection_hash, asset_hash, destination);
            &&& m2.assets.contains_key((collection_hash, asset_hash))
            &&& m2.assets[(collection_hash, asset_hash)].owner == signer(origin)
            &&& transfer_asset_error(m2, origin, collection_hash, asset_hash) is None
            &&& m3.assets[(collection_hash, asset_hash)].owner == destination
            &&& m3.assets[(collection_hash, asset_hash)].name == asset_name
            &&& m3.assets[(collection_hash, asset_hash)].meta == meta
        }),
{
}

/// Only the owner of an asset can transfer it, and a transfer changes only its
/// owner.
pub proof fn law_transfer_only_by_owner(
    m: PalletModel,
    origin: Origin,
    collection_hash: H256,
    asset_hash: H256,
    destination: AccountId,
)
    requires
        m.assets.contains_key((collection_hash, asset_hash)),
    ensures
        transfer_asset_error(m, origin, collection_hash, asset_hash) is None <==> (origin is Signed
            && m.assets[(collection_hash, asset_hash)].owner == signer(origin)),
        transfer_asset_error(m, origin, collection_hash, asset_hash) is None ==> ({
            let before = m.assets[(collection_hash, asset_hash)];
            let after = transfer_asset_effect(
                m,
                origin,
                collection_hash,
                asset_hash,
                destination,
            ).assets[(collection_hash, asset_hash)];
            after.owner == destination && after.name == before.name && after.meta == before.meta
        }),
{
}

/// Only the author of a collection can update the metadata of its assets;
/// the update keeps the asset's name and owner and sets its metadata.
pub proof fn law_update_meta_only_by_author(
    m: PalletModel,
    origin: Origin,
    collection_hash: H256,
    asset_hash: H256,
    meta: Seq<u8>,
)
    requires
        m.assets.contains_key((collection_hash, asset_hash)),
        m.collections.contains_key(collection_hash),
    ensures
        update_meta_error(m, origin, collection_hash, asset_hash, true) is None <==> (origin is Signed
            && m.collections[collection_hash].author == signer(origin)),
        update_meta_error(m, origin, collection_hash, asset_hash, false) is Some,
        ({
            let before = m.assets[(collection_hash, asset_hash)];
            let after = update_meta_effect(
                m,
                origin,
                collection_hash,
                asset_hash,
                meta,
            ).assets[(collection_hash, asset_hash)];
            after.meta == meta && after.name == before.name && after.owner == before.owner
        }),
{
}

/// Adding an asset changes no collection but its own, and of that one only
/// the item count, which goes one up.
pub proof fn law_add_asset_changes_only_count(
    m: PalletModel,
    origin: Origin,
    asset_name: Seq<u8>,
    collection_hash: H256,
    meta: Seq<u8>,
    meta_is_json: bool,
    asset_hash: H256,
)
    requires
        add_asset_error(m, origin, asset_name, collection_hash, meta_is_json, asset_hash) is None,
        m.collections[collection_hash].items_count < u32::MAX,
    ensures
        ({
            let n = add_asset_effect(m, origin, asset_name, collection_hash, meta, asset_hash);
            &&& n.collections.dom() == m.collections.dom()
            &&& n.collections[collection_hash] == count_one_more(m.collections[collection_hash])
            &&& n.collections[collection_hash].items_count == m.collections[collection_hash].items_count
                + 1
            &&& forall|c: H256| c != collection_hash ==> #[trigger] n.collections[c] == m.collections[c]
        }),
{
    let n = add_asset_effect(m, origin, asset_name, collection_hash, meta, asset_hash);
    assert(n.collections.dom() =~= m.collections.dom());
}

/// Removing an asset just added gives back the collections and assets stored
/// before (only the events remain).
pub proof fn law_add_then_remove_restores(
    m: PalletModel,
    origin: Origin,
    asset_name: Seq<u8>,
    collection_hash: H256,
    meta: Seq<u8>,
    meta_is_json: bool,
    asset_hash: H256,
)
    requires
        add_asset_error(m, origin, asset_name, collection_hash, meta_is_json, asset_hash) is None,
        m.collections[collection_hash].items_count < u32::MAX,
    ensures
        ({
            let m2 = add_asset_effect(m, origin, asset_name, collection_hash, meta, asset_hash);
            let m3 = remove_asset_effect(m2, origin, collection_hash, asset_hash);
            &&& remove_asset_error(m2, origin, collection_hash, asset_hash) is None
            &&& m3.collections == m.collections
            &&& m3.assets == m.assets
        }),
{
    let m2 = add_asset_effect(m, origin, asset_name, collection_hash, meta, asset_hash);
    let m3 = remove_asset_effect(m2, origin, collection_hash, asset_hash);
    assert(m3.collections =~= m.collections);
    assert(m3.assets =~= m.assets);
}

/// A collection that holds no asset can be removed by its author.
pub proof fn law_empty_collection_removable(m: PalletModel, origin: Origin, collection_hash: H256)
    requires
        counts_match_assets(m),
        m.collections.contains_key(collection_hash),
        origin is Signed,
        m.collections[collection_hash].author == signer(origin),
        forall|k: (H256, H256)| #[trigger] m.assets.contains_key(k) ==> k.0 != collection_hash,
    ensures
        remove_collection_error(m, origin, collection_hash) is None,
        !remove_collection_effect(m, origin, collection_hash).collections.contains_key(
            collection_hash,
        ),
{
    assert(assets_of(m, collection_hash) =~= Set::<(H256, H256)>::empty());
}

/// A collection created, given an asset, and emptied again by the same
/// account can be removed.
pub proof fn law_emptied_collection_removable(
    m: PalletModel,
    origin: Origin,
    name: Seq<u8>,
    description: Seq<u8>,
    schema: Seq<u8>,
    schema_is_json: bool,
    collection_hash: H256,
    asset_name: Seq<u8>,
    meta: Seq<u8>,
    meta_is_json: bool,
    asset_hash: H256,
)
    requires
        create_collection_error(m, origin, name, schema_is_json, collection_hash) is None,
        add_asset_error(
            create_collection_effect(m, origin, name, description, schema, collection_hash),
            origin,
            asset_name,
            collection_hash,
            meta_is_json,
            asset_hash,
        ) is None,
    ensures
        ({
            let m1 = create_collection_effect(m, origin, name, description, schema, collection_hash);
            let m2 = add_asset_effect(m1, origin, asset_name, collection_hash, meta, asset_hash);
            let m3 = remove_asset_effect(m2, origin, collection_hash, asset_hash);
            &&& remove_asset_error(m2, origin, collection_hash, asset_hash) is None
            &&& m3.collections[collection_hash].items_count == 0
            &&& remove_collection_error(m3, origin, collection_hash) is None
        }),
{
    let m1 = create_collection_effect(m, origin, name, description, schema, collection_hash);
    law_add_then_remove_restores(
        m1,
        origin,
        asset_name,
        collection_hash,
        meta,
        meta_is_json,
        asset_hash,
    );
}

/// Updating metadata never changes the collections nor which assets are
/// stored.
pub proof fn law_update_meta_keeps_keys(
    m: PalletModel,
    origin: Origin,
    collection_hash: H256,
    asset_hash: H256,
    meta: Seq<u8>,
    meta_is_json: bool,
)
    requires
        update_meta_error(m, origin, collection_hash, asset_hash, meta_is_json) is None,
    ensures
        update_meta_effect(m, origin, collection_hash, asset_hash, meta).collections
            == m.collections,
        update_meta_effect(m, origin, collection_hash, asset_hash, meta).assets.dom()
            == m.assets.dom(),
{
    assert(update_meta_effect(m, origin, collection_hash, asset_hash, meta).assets.dom()
        =~= m.assets.dom());
}

/// A call from an origin that is not a signed account is refused with
/// `BadOrigin`, whatever it asks.
pub proof fn law_unsigned_refused(m: PalletModel, origin: Origin, h1: H256, h2: H256, name: Seq<u8>, json: bool)
    requires
        !(origin is Signed),
    ensures
        create_collection_error(m, origin, name, json, h1) == Some(DispatchError::BadOrigin),
        add_asset_error(m, origin, name, h1, json, h2) == Some(DispatchError::BadOrigin),
        update_meta_error(m, origin, h1, h2, json) == Some(DispatchError::BadOrigin),
        transfer_asset_error(m, origin, h1, h2) == Some(DispatchError::BadOrigin),
        remove_asset_error(m, origin, h1, h2) == Some(DispatchError::BadOrigin),
        remove_collection_error(m, origin, h1) == Some(DispatchError::BadOrigin),
{
}

} // verus!
