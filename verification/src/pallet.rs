//! The pallet: its storage, and the calls that create, update, transfer and
//! remove collections and assets.
//!
//! Each call that reads an outside result (whether bytes are JSON, the hash
//! of an encoding) comes in two forms: `name` makes the outside calls, and
//! `name_with` takes their results as arguments and decides.
use crate::hashing::{asset_key, collection_key, hash_of_asset, hash_of_collection};
use crate::json::{is_json_document, json_is_valid};
use crate::item_counts::{
    counts_match_assets, lemma_add_asset_keeps_counts, lemma_asset_counted,
    lemma_create_collection_keeps_counts, lemma_remove_asset_keeps_counts,
    lemma_remove_collection_keeps_counts, lemma_same_keys_keep_counts,
};
use crate::store::Store;
use crate::types::{
    AccountId, AssetItem, AssetModel, Collection, CollectionModel, Config, DispatchError, Error,
    Event, Origin, H256,
};
use vstd::prelude::*;
use vstd::utf8::valid_utf8;

verus! {

/// The state of the pallet, as a value.
pub struct PalletModel {
    /// The collections, by their hash.
    pub collections: Map<H256, CollectionModel>,
    /// The assets, by the hash of their collection and their own hash.
    pub assets: Map<(H256, H256), AssetModel>,
    /// The events deposited so far, oldest first.
    pub events: Seq<Event>,
}

/// The account that signed the call (0 where none did).
pub open spec fn signer(origin: Origin) -> AccountId {
    match origin {
        Origin::Signed(who) => who,
        _ => 0,
    }
}

/// The signer of a signed origin; any other origin is refused.
pub fn ensure_signed(origin: Origin) -> (r: Result<AccountId, DispatchError>)
    ensures
        r == match origin {
            Origin::Signed(who) => Ok::<AccountId, DispatchError>(who),
            _ => Err(DispatchError::BadOrigin),
        },
{
    match origin {
        Origin::Signed(who) => Ok(who),
        _ => Err(DispatchError::BadOrigin),
    }
}

/// A pallet error, as the error of a call.
pub open spec fn refused(e: Error) -> Option<DispatchError> {
    Some(DispatchError::Module(e))
}

/// What a call returns and leaves behind: on an error, the error and the state
/// unchanged; else `Ok` and the state that the call makes.
pub open spec fn outcome(
    pre: PalletModel,
    error: Option<DispatchError>,
    effect: PalletModel,
    r: Result<(), DispatchError>,
    post: PalletModel,
) -> bool {
    match error {
        Some(e) => r == Err::<(), DispatchError>(e) && post == pre,
        None => r == Ok::<(), DispatchError>(()) && post == effect,
    }
}

/// The collection that a signed origin creates.
pub open spec fn new_collection(
    origin: Origin,
    name: Seq<u8>,
    description: Seq<u8>,
    schema: Seq<u8>,
) -> CollectionModel {
    CollectionModel { name, description, author: signer(origin), schema, items_count: 0 }
}

/// The first check of `create_collection` that fails, if any.
pub open spec fn create_collection_error(
    m: PalletModel,
    origin: Origin,
    name: Seq<u8>,
    schema_is_json: bool,
    collection_hash: H256,
) -> Option<DispatchError> {
    if !(origin is Signed) {
        Some(DispatchError::BadOrigin)
    } else if !schema_is_json {
        refused(Error::InvalidJson)
    } else if name.len() <= 3 {
        refused(Error::ShortNameProvided)
    } else if name.len() >= 200 {
        refused(Error::LongNameProvided)
    } else if m.collections.contains_key(collection_hash) {
        refused(Error::CollectionAlreadyExists)
    } else {
        None
    }
}

/// The state after a successful `create_collection`.
pub open spec fn create_collection_effect(
    m: PalletModel,
    origin: Origin,
    name: Seq<u8>,
    description: Seq<u8>,
    schema: Seq<u8>,
    collection_hash: H256,
) -> PalletModel {
    PalletModel {
        collections: m.collections.insert(
            collection_hash,
            new_collection(origin, name, description, schema),
        ),
        assets: m.assets,
        events: m.events.push(
            Event::CollectionCreated { collection_hash, owner: signer(origin) },
        ),
    }
}

/// The collection with one more item counted.
pub open spec fn count_one_more(c: CollectionModel) -> CollectionModel {
    CollectionModel {
        name: c.name,
        description: c.description,
        author: c.author,
        schema: c.schema,
        items_count: (c.items_count + 1) as u32,
    }
}

/// The collection with one item less counted.
pub open spec fn count_one_less(c: CollectionModel) -> CollectionModel {
    CollectionModel {
        name: c.name,
        description: c.description,
        author: c.author,
        schema: c.schema,
        items_count: (c.items_count - 1) as u32,
    }
}

/// The asset that a signed origin adds.
pub open spec fn new_asset(origin: Origin, name: Seq<u8>, meta: Seq<u8>) -> AssetModel {
    AssetModel { name, owner: signer(origin), meta }
}

/// The first check of `add_asset` that fails, if any.
pub open spec fn add_asset_error(
    m: PalletModel,
    origin: Origin,
    asset_name: Seq<u8>,
    collection_hash: H256,
    meta_is_json: bool,
    asset_hash: H256,
) -> Option<DispatchError> {
    if !(origin is Signed) {
        Some(DispatchError::BadOrigin)
    } else if asset_name.len() <= 3 {
        refused(Error::ShortNameProvided)
    } else if asset_name.len() >= 200 {
        refused(Error::LongNameProvided)
    } else if !m.collections.contains_key(collection_hash) {
        refused(Error::InvalidCollection)
    } else if !meta_is_json {
        refused(Error::InvalidJson)
    } else if m.assets.contains_key((collection_hash, asset_hash)) {
        refused(Error::AssetAlreadyExists)
    } else {
        None
    }
}

/// The state after a successful `add_asset`.
pub open spec fn add_asset_effect(
    m: PalletModel,
    origin: Origin,
    asset_name: Seq<u8>,
    collection_hash: H256,
    meta: Seq<u8>,
    asset_hash: H256,
) -> PalletModel {
    PalletModel {
        collections: m.collections.insert(
            collection_hash,
            count_one_more(m.collections[collection_hash]),
        ),
        assets: m.assets.insert((collection_hash, asset_hash), new_asset(origin, asset_name, meta)),
        events: m.events.push(
            Event::CollectionUpdated { collection_hash, owner: signer(origin) },
        ).push(Event::AssetWasStored { asset_hash, owner: signer(origin) }),
    }
}

/// The first check of `update_meta` that fails, if any.
pub open spec fn update_meta_error(
    m: PalletModel,
    origin: Origin,
    collection_hash: H256,
    asset_hash: H256,
    meta_is_json: bool,
) -> Option<DispatchError> {
    if !(origin is Signed) {
        Some(DispatchError::BadOrigin)
    } else if !m.collections.contains_key(collection_hash) {
        refused(Error::InvalidCollection)
    } else if m.collections[collection_hash].author != signer(origin) {
        refused(Error::Unauthorized)
    } else if !meta_is_json {
        refused(Error::InvalidJson)
    } else if !m.assets.contains_key((collection_hash, asset_hash)) {
        refused(Error::InvalidHash)
    } else {
        None
    }
}

/// The state after a successful `update_meta`.
pub open spec fn update_meta_effect(
    m: PalletModel,
    origin: Origin,
    collection_hash: H256,
    asset_hash: H256,
    meta: Seq<u8>,
) -> PalletModel {
    let a = m.assets[(collection_hash, asset_hash)];
    PalletModel {
        collections: m.collections,
        assets: m.assets.insert(
            (collection_hash, asset_hash),
            AssetModel { name: a.name, owner: a.owner, meta },
        ),
        events: m.events.push(Event::MetaUpdated { asset_hash, owner: signer(origin) }),
    }
}

/// The first check of `transfer_asset` that fails, if any.
pub open spec fn transfer_asset_error(
    m: PalletModel,
    origin: Origin,
    collection_hash: H256,
    asset_hash: H256,
) -> Option<DispatchError> {
    if !(origin is Signed) {
        Some(DispatchError::BadOrigin)
    } else if !m.assets.contains_key((collection_hash, asset_hash)) {
        refused(Error::InvalidHash)
    } else if m.assets[(collection_hash, asset_hash)].owner != signer(origin) {
        refused(Error::Unauthorized)
    } else {
        None
    }
}

/// The state after a successful `transfer_asset`.
pub open spec fn transfer_asset_effect(
    m: PalletModel,
    origin: Origin,
    collection_hash: H256,
    asset_hash: H256,
    destination: AccountId,
) -> PalletModel {
    let a = m.assets[(collection_hash, asset_hash)];
    PalletModel {
        collections: m.collections,
        assets: m.assets.insert(
            (collection_hash, asset_hash),
            AssetModel { name: a.name, owner: destination, meta: a.meta },
        ),
        events: m.events.push(
            Event::AssetWasTransferred { asset_hash, from: signer(origin), to: destination },
        ),
    }
}

/// The first check of `remove_asset` that fails, if any.
pub open spec fn remove_asset_error(
    m: PalletModel,
    origin: Origin,
    collection_hash: H256,
    asset_hash: H256,
) -> Option<DispatchError> {
    if !(origin is Signed) {
        Some(DispatchError::BadOrigin)
    } else if !m.collections.contains_key(collection_hash) {
        refused(Error::InvalidCollection)
    } else if !m.assets.contains_key((collection_hash, asset_hash)) {
        refused(Error::InvalidHash)
    } else if m.assets[(collection_hash, asset_hash)].owner != signer(origin) {
        refused(Error::Unauthorized)
    } else {
        None
    }
}

/// The state after a successful `remove_asset`: the asset is gone, and the
/// collection counts one item less.
pub open spec fn remove_asset_effect(
    m: PalletModel,
    origin: Origin,
    collection_hash: H256,
    asset_hash: H256,
) -> PalletModel {
    let a = m.assets[(collection_hash, asset_hash)];
    PalletModel {
        collections: m.collections.insert(
            collection_hash,
            count_one_less(m.collections[collection_hash]),
        ),
        assets: m.assets.remove((collection_hash, asset_hash)),
        events: m.events.push(Event::CollectionUpdated { collection_hash, owner: a.owner }).push(
            Event::AssetWasRemoved { asset_hash, owner: signer(origin) },
        ),
    }
}

/// The first check of `remove_collection` that fails, if any.
pub open spec fn remove_collection_error(
    m: PalletModel,
    origin: Origin,
    collection_hash: H256,
) -> Option<DispatchError> {
    if !(origin is Signed) {
        Some(DispatchError::BadOrigin)
    } else if !m.collections.contains_key(collection_hash) {
        refused(Error::InvalidHash)
    } else if m.collections[collection_hash].author != signer(origin) {
        refused(Error::Unauthorized)
    } else if m.collections[collection_hash].items_count != 0 {
        refused(Error::SomeAssetsExists)
    } else {
        None
    }
}

/// The state after a successful `remove_collection`.
pub open spec fn remove_collection_effect(
    m: PalletModel,
    origin: Origin,
    collection_hash: H256,
) -> PalletModel {
    PalletModel {
        collections: m.collections.remove(collection_hash),
        assets: m.assets,
        events: m.events.push(Event::CollectionRemoved { collection_hash, owner: signer(origin) }),
    }
}

/// The pallet: its configuration, its two stores and its events.
pub struct Pallet {
    config: Config,
    collection_store: Store<H256, Collection>,
    asset_store: Store<(H256, H256), AssetItem>,
    event_log: Vec<Event>,
}

impl View for Pallet {
    type V = PalletModel;

    closed spec fn view(&self) -> PalletModel {
        PalletModel {
            collections: self.collection_store@,
            assets: self.asset_store@,
            events: self.event_log@,
        }
    }
}

impl Pallet {
    /// Well-formedness: the stores hold each key once, every asset lies in a
    /// stored collection, and each collection counts the assets stored under
    /// it.
    pub closed spec fn wf(&self) -> bool {
        &&& self.collection_store.wf()
        &&& self.asset_store.wf()
        &&& counts_match_assets(self@)
    }

    /// The configured limits.
    pub closed spec fn limits(&self) -> Config {
        self.config
    }

    /// The configured limits.
    pub fn config(&self) -> (c: Config)
        ensures
            c == self.limits(),
    {
        self.config
    }

    /// What well-formedness says of the state.
    pub proof fn lemma_wf(&self)
        requires
            self.wf(),
        ensures
            counts_match_assets(self@),
    {
    }

    /// A pallet with no collection, no asset and no event.
    pub fn new(config: Config) -> (p: Pallet)
        ensures
            p.wf(),
            p.limits() == config,
            p@.collections == Map::<H256, CollectionModel>::empty(),
            p@.assets == Map::<(H256, H256), AssetModel>::empty(),
            p@.events == Seq::<Event>::empty(),
    {
        let p = Pallet {
            config,
            collection_store: Store::new(),
            asset_store: Store::new(),
            event_log: Vec::new(),
        };
        assert(p@.assets =~= Map::empty());
        p
    }

    /// The collection stored under the hash, if any.
    pub fn collections(&self, collection_hash: &H256) -> (r: Option<Collection>)
        requires
            self.wf(),
        ensures
            match r {
                Some(c) => self@.collections.contains_key(*collection_hash) && c@
                    == self@.collections[*collection_hash],
                None => !self@.collections.contains_key(*collection_hash),
            },
    {
        match self.collection_store.get(collection_hash) {
            Some(c) => Some(c.duplicate()),
            None => None,
        }
    }

    /// The asset stored under the two hashes, if any.
    pub fn assets(&self, collection_hash: &H256, asset_hash: &H256) -> (r: Option<AssetItem>)
        requires
            self.wf(),
        ensures
            match r {
                Some(a) => self@.assets.contains_key((*collection_hash, *asset_hash)) && a@
                    == self@.assets[(*collection_hash, *asset_hash)],
                None => !self@.assets.contains_key((*collection_hash, *asset_hash)),
            },
    {
        match self.asset_store.get(&(*collection_hash, *asset_hash)) {
            Some(a) => Some(a.duplicate()),
            None => None,
        }
    }

    /// The events deposited so far, oldest first.
    pub fn events(&self) -> (r: &Vec<Event>)
        ensures
            r@ == self@.events,
    {
        &self.event_log
    }

    /// Creates a collection, given whether its schema is JSON and its hash.
    pub fn create_collection_with(
        &mut self,
        origin: Origin,
        name: Vec<u8>,
        description: Vec<u8>,
        schema: Vec<u8>,
        schema_is_json: bool,
        collection_hash: H256,
    ) -> (r: Result<(), DispatchError>)
        requires
            old(self).wf(),
        ensures
            final(self).wf(),
            final(self).limits() == old(self).limits(),
            outcome(
                old(self)@,
                create_collection_error(old(self)@, origin, name@, schema_is_json, collection_hash),
                create_collection_effect(
                    old(self)@,
                    origin,
                    name@,
                    description@,
                    schema@,
                    collection_hash,
                ),
                r,
                final(self)@,
            ),
    {
        let ghost pre = self@;
        let owner = match ensure_signed(origin) {
            Ok(who) => who,
            Err(e) => return Err(e),
        };
        if !schema_is_json {
            return Err(DispatchError::Module(Error::InvalidJson));
        }
        if name.len() <= 3 {
            return Err(DispatchError::Module(Error::ShortNameProvided));
        }
        if name.len() >= 200 {
            return Err(DispatchError::Module(Error::LongNameProvided));
        }
        if self.collection_store.contains_key(&collection_hash) {
            return Err(DispatchError::Module(Error::CollectionAlreadyExists));
        }
        let collection = Collection { name, description, author: owner, schema, items_count: 0 };
        self.collection_store.insert(collection_hash, collection);
        self.event_log.push(Event::CollectionCreated { collection_hash, owner });
        proof {
            lemma_create_collection_keeps_counts(
                pre,
                origin,
                name@,
                description@,
                schema@,
                schema_is_json,
                collection_hash,
            );
        }
        Ok(())
    }

    /// Creates a collection of the signer's, with no item, under the hash of
    /// its encoding; its schema must be a JSON document and its name 4 to
    /// 199 bytes long.
    pub fn create_collection(
        &mut self,
        origin: Origin,
        name: Vec<u8>,
        description: Vec<u8>,
        schema: Vec<u8>,
    ) -> (r: Result<(), DispatchError>)
        requires
            old(self).wf(),
            name@.len() <= old(self).limits().string_limit,
            description@.len() <= old(self).limits().string_limit,
            schema@.len() <= old(self).limits().json_limit,
            origin is Signed ==> valid_utf8(schema@),
        ensures
            final(self).wf(),
            final(self).limits() == old(self).limits(),
            outcome(
                old(self)@,
                create_collection_error(
                    old(self)@,
                    origin,
                    name@,
                    is_json_document(schema@),
                    collection_key(new_collection(origin, name@, description@, schema@)),
                ),
                create_collection_effect(
                    old(self)@,
                    origin,
                    name@,
                    description@,
                    schema@,
                    collection_key(new_collection(origin, name@, description@, schema@)),
                ),
                r,
                final(self)@,
            ),
    {
        match origin {
            Origin::Signed(owner) => {
                let schema_is_json = json_is_valid(&schema);
                let collection = Collection {
                    name,
                    description,
                    author: owner,
                    schema,
                    items_count: 0,
                };
                let collection_hash = hash_of_collection(&collection);
                let Collection { name, description, schema, .. } = collection;
                self.create_collection_with(
                    origin,
                    name,
                    description,
                    schema,
                    schema_is_json,
                    collection_hash,
                )
            },
            _ => Err(DispatchError::BadOrigin),
        }
    }

    /// Adds an asset to a collection, given whether its metadata is JSON and
    /// its hash.
    pub fn add_asset_with(
        &mut self,
        origin: Origin,
        asset_name: Vec<u8>,
        collection_hash: H256,
        meta: Vec<u8>,
        meta_is_json: bool,
        asset_hash: H256,
    ) -> (r: Result<(), DispatchError>)
        requires
            old(self).wf(),
            add_asset_error(
                old(self)@,
                origin,
                asset_name@,
                collection_hash,
                meta_is_json,
                asset_hash,
            ) is None ==> old(self)@.collections[collection_hash].items_count < u32::MAX,
        ensures
            final(self).wf(),
            final(self).limits() == old(self).limits(),
            outcome(
                old(self)@,
                add_asset_error(
                    old(self)@,
                    origin,
                    asset_name@,
                    collection_hash,
                    meta_is_json,
                    asset_hash,
                ),
                add_asset_effect(
                    old(self)@,
                    origin,
                    asset_name@,
                    collection_hash,
                    meta@,
                    asset_hash,
                ),
                r,
                final(self)@,
            ),
    {
        let ghost pre = self@;
        let owner = match ensure_signed(origin) {
            Ok(who) => who,
            Err(e) => return Err(e),
        };
        if asset_name.len() <= 3 {
            return Err(DispatchError::Module(Error::ShortNameProvided));
        }
        if asset_name.len() >= 200 {
            return Err(DispatchError::Module(Error::LongNameProvided));
        }
        let collection = match self.collection_store.get(&collection_hash) {
            Some(c) => c.duplicate(),
            None => return Err(DispatchError::Module(Error::InvalidCollection)),
        };
        if !meta_is_json {
            return Err(DispatchError::Module(Error::InvalidJson));
        }
        if self.asset_store.contains_key(&(collection_hash, asset_hash)) {
            return Err(DispatchError::Module(Error::AssetAlreadyExists));
        }
        let asset = AssetItem { name: asset_name, owner, meta };
        self.asset_store.insert((collection_hash, asset_hash), asset);
        let updated = Collection {
            name: collection.name,
            description: collection.description,
            author: collection.author,
            schema: collection.schema,
            items_count: collection.items_count + 1,
        };
        self.collection_store.insert(collection_hash, updated);
        self.event_log.push(Event::CollectionUpdated { collection_hash, owner });
        self.event_log.push(Event::AssetWasStored { asset_hash, owner });
        proof {
            let eff = add_asset_effect(pre, origin, asset_name@, collection_hash, meta@, asset_hash);
            assert(self@.collections =~= eff.collections);
            assert(self@.assets =~= eff.assets);
            lemma_add_asset_keeps_counts(
                pre,
                origin,
                asset_name@,
                collection_hash,
                meta@,
                meta_is_json,
                asset_hash,
            );
        }
        Ok(())
    }

    /// Adds an asset of the signer's, under the hash of its encoding, to a
    /// stored collection, whose item count goes one up; its metadata must be a
    /// JSON document and its name 4 to 199 bytes long.
    pub fn add_asset(
        &mut self,
        origin: Origin,
        asset_name: Vec<u8>,
        collection_hash: H256,
        meta: Vec<u8>,
    ) -> (r: Result<(), DispatchError>)
        requires
            old(self).wf(),
            asset_name@.len() <= old(self).limits().string_limit,
            meta@.len() <= old(self).limits().json_limit,
            origin is Signed && 3 < asset_name@.len() < 200 && old(self)@.collections.contains_key(
                collection_hash,
            ) ==> valid_utf8(meta@),
            add_asset_error(
                old(self)@,
                origin,
                asset_name@,
                collection_hash,
                is_json_document(meta@),
                asset_key(new_asset(origin, asset_name@, meta@)),
            ) is None ==> old(self)@.collections[collection_hash].items_count < u32::MAX,
        ensures
            final(self).wf(),
            final(self).limits() == old(self).limits(),
            outcome(
                old(self)@,
                add_asset_error(
                    old(self)@,
                    origin,
                    asset_name@,
                    collection_hash,
                    is_json_document(meta@),
                    asset_key(new_asset(origin, asset_name@, meta@)),
                ),
                add_asset_effect(
                    old(self)@,
                    origin,
                    asset_name@,
                    collection_hash,
                    meta@,
                    asset_key(new_asset(origin, asset_name@, meta@)),
                ),
                r,
                final(self)@,
            ),
    {
        let owner = match ensure_signed(origin) {
            Ok(who) => who,
            Err(e) => return Err(e),
        };
        if asset_name.len() <= 3 || asset_name.len() >= 200 || !self.collection_store.contains_key(
            &collection_hash,
        ) {
            return self.add_asset_with(origin, asset_name, collection_hash, meta, false, collection_hash);
        }
        let meta_is_json = json_is_valid(&meta);
        let asset = AssetItem { name: asset_name, owner, meta };
        let asset_hash = hash_of_asset(&asset);
        let AssetItem { name, meta, .. } = asset;
        self.add_asset_with(origin, name, collection_hash, meta, meta_is_json, asset_hash)
    }

    /// `add_asset` where it would not overflow the collection's item count:
    /// `None`, and nothing changed, where the call would succeed on a
    /// collection that already counts `u32::MAX` items.
    pub fn try_add_asset(
        &mut self,
        origin: Origin,
        asset_name: Vec<u8>,
        collection_hash: H256,
        meta: Vec<u8>,
    ) -> (r: Option<Result<(), DispatchError>>)
        requires
            old(self).wf(),
            asset_name@.len() <= old(self).limits().string_limit,
            meta@.len() <= old(self).limits().json_limit,
            origin is Signed && 3 < asset_name@.len() < 200 && old(self)@.collections.contains_key(
                collection_hash,
            ) ==> valid_utf8(meta@),
        ensures
            final(self).wf(),
            final(self).limits() == old(self).limits(),
            r is None <==> add_asset_error(
                old(self)@,
                origin,
                asset_name@,
                collection_hash,
                is_json_document(meta@),
                asset_key(new_asset(origin, asset_name@, meta@)),
            ) is None && old(self)@.collections[collection_hash].items_count == u32::MAX,
            r is None ==> final(self)@ == old(self)@,
            r matches Some(res) ==> outcome(
                old(self)@,
                add_asset_error(
                    old(self)@,
                    origin,
                    asset_name@,
                    collection_hash,
                    is_json_document(meta@),
                    asset_key(new_asset(origin, asset_name@, meta@)),
                ),
                add_asset_effect(
                    old(self)@,
                    origin,
                    asset_name@,
                    collection_hash,
                    meta@,
                    asset_key(new_asset(origin, asset_name@, meta@)),
                ),
                res,
                final(self)@,
            ),
    {
        if let Origin::Signed(owner) = origin {
            if 3 < asset_name.len() && asset_name.len() < 200 {
                let full = match self.collection_store.get(&collection_hash) {
                    Some(c) => c.items_count == u32::MAX,
                    None => false,
                };
                if full {
                    let meta_is_json = json_is_valid(&meta);
                    let asset = AssetItem { name: asset_name, owner, meta };
                    let asset_hash = hash_of_asset(&asset);
                    let AssetItem { name, meta, .. } = asset;
                    if meta_is_json && !self.asset_store.contains_key(&(collection_hash, asset_hash)) {
                        return None;
                    }
                    return Some(self.add_asset(origin, name, collection_hash, meta));
                }
            }
        }
        Some(self.add_asset(origin, asset_name, collection_hash, meta))
    }

    /// Replaces an asset's metadata, given whether the new metadata is JSON.
    pub fn update_meta_with(
        &mut self,
        origin: Origin,
        collection_hash: H256,
        asset_hash: H256,
        meta: Vec<u8>,
        meta_is_json: bool,
    ) -> (r: Result<(), DispatchError>)
        requires
            old(self).wf(),
        ensures
            final(self).wf(),
            final(self).limits() == old(self).limits(),
            outcome(
                old(self)@,
                update_meta_error(old(self)@, origin, collection_hash, asset_hash, meta_is_json),
                update_meta_effect(old(self)@, origin, collection_hash, asset_hash, meta@),
                r,
                final(self)@,
            ),
    {
        let ghost pre = self@;
        let owner = match ensure_signed(origin) {
            Ok(who) => who,
            Err(e) => return Err(e),
        };
        let author = match self.collection_store.get(&collection_hash) {
            Some(c) => c.author,
            None => return Err(DispatchError::Module(Error::InvalidCollection)),
        };
        if author != owner {
            return Err(DispatchError::Module(Error::Unauthorized));
        }
        if !meta_is_json {
            return Err(DispatchError::Module(Error::InvalidJson));
        }
        let key = (collection_hash, asset_hash);
        let asset = match self.asset_store.get(&key) {
            Some(a) => a.duplicate(),
            None => return Err(DispatchError::Module(Error::InvalidHash)),
        };
        let new_asset = AssetItem { name: asset.name, owner: asset.owner, meta };
        self.asset_store.insert(key, new_asset);
        self.event_log.push(Event::MetaUpdated { asset_hash, owner });
        proof {
            let eff = update_meta_effect(pre, origin, collection_hash, asset_hash, meta@);
            assert(self@.assets =~= eff.assets);
            assert(eff.assets.dom() =~= pre.assets.dom());
            lemma_same_keys_keep_counts(pre, eff);
        }
        Ok(())
    }

    /// Replaces the metadata of a stored asset; only the author of its
    /// collection may, and the new metadata must be a JSON document.
    pub fn update_meta(
        &mut self,
        origin: Origin,
        collection_hash: H256,
        asset_hash: H256,
        meta: Vec<u8>,
    ) -> (r: Result<(), DispatchError>)
        requires
            old(self).wf(),
            meta@.len() <= old(self).limits().json_limit,
            origin is Signed && old(self)@.collections.contains_key(collection_hash)
                && old(self)@.collections[collection_hash].author == signer(origin) ==> valid_utf8(
                meta@,
            ),
        ensures
            final(self).wf(),
            final(self).limits() == old(self).limits(),
            outcome(
                old(self)@,
                update_meta_error(
                    old(self)@,
                    origin,
                    collection_hash,
                    asset_hash,
                    is_json_document(meta@),
                ),
                update_meta_effect(old(self)@, origin, collection_hash, asset_hash, meta@),
                r,
                final(self)@,
            ),
    {
        let owner = match ensure_signed(origin) {
            Ok(who) => who,
            Err(e) => return Err(e),
        };
        let reaches_check = match self.collection_store.get(&collection_hash) {
            Some(c) => c.author == owner,
            None => false,
        };
        if !reaches_check {
            return self.update_meta_with(origin, collection_hash, asset_hash, meta, false);
        }
        let meta_is_json = json_is_valid(&meta);
        self.update_meta_with(origin, collection_hash, asset_hash, meta, meta_is_json)
    }

    /// Gives a stored asset to another account; only its owner may.
    pub fn transfer_asset(
        &mut self,
        origin: Origin,
        collection_hash: H256,
        asset_hash: H256,
        destination: AccountId,
    ) -> (r: Result<(), DispatchError>)
        requires
            old(self).wf(),
        ensures
            final(self).wf(),
            final(self).limits() == old(self).limits(),
            outcome(
                old(self)@,
                transfer_asset_error(old(self)@, origin, collection_hash, asset_hash),
                transfer_asset_effect(old(self)@, origin, collection_hash, asset_hash, destination),
                r,
                final(self)@,
            ),
    {
        let ghost pre = self@;
        let owner = match ensure_signed(origin) {
            Ok(who) => who,
            Err(e) => return Err(e),
        };
        let key = (collection_hash, asset_hash);
        let asset = match self.asset_store.get(&key) {
            Some(a) => a.duplicate(),
            None => return Err(DispatchError::Module(Error::InvalidHash)),
        };
        if asset.owner != owner {
            return Err(DispatchError::Module(Error::Unauthorized));
        }
        let new_asset = AssetItem { name: asset.name, owner: destination, meta: asset.meta };
        self.asset_store.insert(key, new_asset);
        self.event_log.push(
            Event::AssetWasTransferred { asset_hash, from: owner, to: destination },
        );
        proof {
            let eff = transfer_asset_effect(pre, origin, collection_hash, asset_hash, destination);
            assert(self@.assets =~= eff.assets);
            assert(eff.assets.dom() =~= pre.assets.dom());
            lemma_same_keys_keep_counts(pre, eff);
        }
        Ok(())
    }

    /// Removes a stored asset of the signer's; its collection counts one item
    /// less.
    pub fn remove_asset(&mut self, origin: Origin, collection_hash: H256, asset_hash: H256) -> (r:
        Result<(), DispatchError>)
        requires
            old(self).wf(),
        ensures
            final(self).wf(),
            final(self).limits() == old(self).limits(),
            outcome(
                old(self)@,
                remove_asset_error(old(self)@, origin, collection_hash, asset_hash),
                remove_asset_effect(old(self)@, origin, collection_hash, asset_hash),
                r,
                final(self)@,
            ),
    {
        let ghost pre = self@;
        let owner = match ensure_signed(origin) {
            Ok(who) => who,
            Err(e) => return Err(e),
        };
        let collection = match self.collection_store.get(&collection_hash) {
            Some(c) => c.duplicate(),
            None => return Err(DispatchError::Module(Error::InvalidCollection)),
        };
        let key = (collection_hash, asset_hash);
        let asset_owner = match self.asset_store.get(&key) {
            Some(a) => a.owner,
            None => return Err(DispatchError::Module(Error::InvalidHash)),
        };
        if asset_owner != owner {
            return Err(DispatchError::Module(Error::Unauthorized));
        }
        proof {
            lemma_asset_counted(pre, key);
        }
        self.asset_store.remove(&key);
        let updated = Collection {
            name: collection.name,
            description: collection.description,
            author: collection.author,
            schema: collection.schema,
            items_count: collection.items_count - 1,
        };
        self.collection_store.insert(collection_hash, updated);
        self.event_log.push(Event::CollectionUpdated { collection_hash, owner: asset_owner });
        self.event_log.push(Event::AssetWasRemoved { asset_hash, owner });
        proof {
            let eff = remove_asset_effect(pre, origin, collection_hash, asset_hash);
            assert(self@.collections =~= eff.collections);
            assert(self@.assets =~= eff.assets);
            lemma_remove_asset_keeps_counts(pre, origin, collection_hash, asset_hash);
        }
        Ok(())
    }

    /// Removes a collection of the signer's that holds no asset.
    pub fn remove_collection(&mut self, origin: Origin, collection_hash: H256) -> (r: Result<
        (),
        DispatchError,
    >)
        requires
            old(self).wf(),
        ensures
            final(self).wf(),
            final(self).limits() == old(self).limits(),
            outcome(
                old(self)@,
                remove_collection_error(old(self)@, origin, collection_hash),
                remove_collection_effect(old(self)@, origin, collection_hash),
                r,
                final(self)@,
            ),
    {
        let ghost pre = self@;
        let owner = match ensure_signed(origin) {
            Ok(who) => who,
            Err(e) => return Err(e),
        };
        let (author, items_count) = match self.collection_store.get(&collection_hash) {
            Some(c) => (c.author, c.items_count),
            None => return Err(DispatchError::Module(Error::InvalidHash)),
        };
        if author != owner {
            return Err(DispatchError::Module(Error::Unauthorized));
        }
        if items_count != 0 {
            return Err(DispatchError::Module(Error::SomeAssetsExists));
        }
        self.collection_store.remove(&collection_hash);
        self.event_log.push(Event::CollectionRemoved { collection_hash, owner });
        proof {
            lemma_remove_collection_keeps_counts(pre, origin, collection_hash);
        }
        Ok(())
    }
}

} // verus!
