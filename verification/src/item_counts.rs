//! The invariant of the pallet's state: every asset lies in a stored
//! collection, and a collection's item count is the number of assets stored
//! under it. Every call keeps it.
use crate::pallet::{
    add_asset_effect, add_asset_error, create_collection_effect, create_collection_error,
    remove_asset_effect, remove_asset_error, remove_collection_effect, remove_collection_error,
    PalletModel,
};
use crate::types::{Origin, H256};
use vstd::prelude::*;

verus! {

/// The keys of the assets stored under a collection.
pub open spec fn assets_of(m: PalletModel, collection_hash: H256) -> Set<(H256, H256)> {
    m.assets.dom().filter(|k: (H256, H256)| k.0 == collection_hash)
}

/// Finitely many assets are stored, each in a stored collection, and each
/// collection's item count is the number of its assets.
pub open spec fn counts_match_assets(m: PalletModel) -> bool {
    &&& m.assets.dom().finite()
    &&& forall|k: (H256, H256)| #[trigger] m.assets.contains_key(k) ==> m.collections.contains_key(k.0)
    &&& forall|c: H256| #[trigger] m.collections.contains_key(c) ==> m.collections[c].items_count
        == assets_of(m, c).len()
}

proof fn lemma_assets_of_finite(m: PalletModel, c: H256)
    requires
        m.assets.dom().finite(),
    ensures
        assets_of(m, c).finite(),
{
    vstd::set_lib::lemma_set_subset_finite(m.assets.dom(), assets_of(m, c));
}

/// A stored asset is counted: its collection's item count is not 0.
pub proof fn lemma_asset_counted(m: PalletModel, k: (H256, H256))
    requires
        counts_match_assets(m),
        m.assets.contains_key(k),
    ensures
        m.collections.contains_key(k.0),
        m.collections[k.0].items_count > 0,
{
    lemma_assets_of_finite(m, k.0);
    assert(assets_of(m, k.0).contains(k));
    vstd::set::axiom_set_contains_len(assets_of(m, k.0), k);
}

/// A collection that counts no item holds no asset.
pub proof fn lemma_uncounted_is_empty(m: PalletModel, c: H256)
    requires
        counts_match_assets(m),
        m.collections.contains_key(c),
        m.collections[c].items_count == 0,
    ensures
        forall|k: (H256, H256)| #[trigger] m.assets.contains_key(k) ==> k.0 != c,
{
    assert forall|k: (H256, H256)| #[trigger] m.assets.contains_key(k) implies k.0 != c by {
        if k.0 == c {
            lemma_asset_counted(m, k);
        }
    }
}

/// A change that keeps the collections and the set of asset keys keeps the
/// invariant (updating or transferring an asset).
pub proof fn lemma_same_keys_keep_counts(m: PalletModel, n: PalletModel)
    requires
        counts_match_assets(m),
        n.collections == m.collections,
        n.assets.dom() == m.assets.dom(),
    ensures
        counts_match_assets(n),
{
    assert forall|c: H256| #[trigger] n.collections.contains_key(c) implies n.collections[c].items_count
        == assets_of(n, c).len() by {
        assert(assets_of(n, c) =~= assets_of(m, c));
    }
}

/// Creating a collection keeps the invariant: nothing is stored under the new
/// key, and it counts no item.
pub proof fn lemma_create_collection_keeps_counts(
    m: PalletModel,
    origin: Origin,
    name: Seq<u8>,
    description: Seq<u8>,
    schema: Seq<u8>,
    schema_is_json: bool,
    collection_hash: H256,
)
    requires
        counts_match_assets(m),
        create_collection_error(m, origin, name, schema_is_json, collection_hash) is None,
    ensures
        counts_match_assets(
            create_collection_effect(m, origin, name, description, schema, collection_hash),
        ),
{
    let n = create_collection_effect(m, origin, name, description, schema, collection_hash);
    assert forall|c: H256| #[trigger] n.collections.contains_key(c) implies n.collections[c].items_count
        == assets_of(n, c).len() by {
        assert(assets_of(n, c) =~= assets_of(m, c));
        if c == collection_hash {
            assert(assets_of(m, c) =~= Set::<(H256, H256)>::empty());
        }
    }
}

/// Adding an asset keeps the invariant: its collection counts one more item.
pub proof fn lemma_add_asset_keeps_counts(
    m: PalletModel,
    origin: Origin,
    asset_name: Seq<u8>,
    collection_hash: H256,
    meta: Seq<u8>,
    meta_is_json: bool,
    asset_hash: H256,
)
    requires
        counts_match_assets(m),
        add_asset_error(m, origin, asset_name, collection_hash, meta_is_json, asset_hash) is None,
        m.collections[collection_hash].items_count < u32::MAX,
    ensures
        counts_match_assets(
            add_asset_effect(m, origin, asset_name, collection_hash, meta, asset_hash),
        ),
{
    let n = add_asset_effect(m, origin, asset_name, collection_hash, meta, asset_hash);
    let key = (collection_hash, asset_hash);
    assert forall|c: H256| #[trigger] n.collections.contains_key(c) implies n.collections[c].items_count
        == assets_of(n, c).len() by {
        lemma_assets_of_finite(m, c);
        if c == collection_hash {
            assert(assets_of(n, c) =~= assets_of(m, c).insert(key));
        } else {
            assert(assets_of(n, c) =~= assets_of(m, c));
        }
    }
}

/// Removing an asset keeps the invariant: its collection counts one item
/// less.
pub proof fn lemma_remove_asset_keeps_counts(
    m: PalletModel,
    origin: Origin,
    collection_hash: H256,
    asset_hash: H256,
)
    requires
        counts_match_assets(m),
        remove_asset_error(m, origin, collection_hash, asset_hash) is None,
    ensures
        counts_match_assets(remove_asset_effect(m, origin, collection_hash, asset_hash)),
{
    let n = remove_asset_effect(m, origin, collection_hash, asset_hash);
    let key = (collection_hash, asset_hash);
    lemma_asset_counted(m, key);
    assert forall|c: H256| #[trigger] n.collections.contains_key(c) implies n.collections[c].items_count
        == assets_of(n, c).len() by {
        lemma_assets_of_finite(m, c);
        if c == collection_hash {
            assert(assets_of(n, c) =~= assets_of(m, c).remove(key));
        } else {
            assert(assets_of(n, c) =~= assets_of(m, c));
        }
    }
}

/// Removing a collection keeps the invariant: it held no asset.
pub proof fn lemma_remove_collection_keeps_counts(
    m: PalletModel,
    origin: Origin,
    collection_hash: H256,
)
    requires
        counts_match_assets(m),
        remove_collection_error(m, origin, collection_hash) is None,
    ensures
        counts_match_assets(remove_collection_effect(m, origin, collection_hash)),
{
    let n = remove_collection_effect(m, origin, collection_hash);
    lemma_uncounted_is_empty(m, collection_hash);
    assert forall|c: H256| #[trigger] n.collections.contains_key(c) implies n.collections[c].items_count
        == assets_of(n, c).len() by {
        assert(assets_of(n, c) =~= assets_of(m, c));
    }
}

} // verus!
