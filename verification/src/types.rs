//! The values the pallet stores, the events it emits and the errors it returns.
use vstd::prelude::*;

verus! {

/// An account of the chain.
pub type AccountId = u64;

/// The identifier of an asset.
pub type AssetId = u32;

/// A 256-bit hash; collections and assets are stored under such hashes.
pub type H256 = [u8; 32];

/// The limits that the runtime configures: the longest string and the
/// longest JSON document (in bytes) that a call may carry.
#[derive(Clone, Copy, Debug)]
pub struct Config {
    pub string_limit: u32,
    pub json_limit: u32,
}

/// Who signed a call.
#[derive(Clone, Copy, Debug, PartialEq, Eq, Structural)]
pub enum Origin {
    /// The root origin.
    Root,
    /// A call signed by an account.
    Signed(AccountId),
    /// An unsigned call.
    Unsigned,
}

/// A collection of assets, with the JSON schema that its assets follow.
#[derive(Debug)]
pub struct Collection {
    pub name: Vec<u8>,
    pub description: Vec<u8>,
    pub author: AccountId,
    pub schema: Vec<u8>,
    pub items_count: u32,
}

/// The mathematical value of a collection.
pub struct CollectionModel {
    pub name: Seq<u8>,
    pub description: Seq<u8>,
    pub author: AccountId,
    pub schema: Seq<u8>,
    pub items_count: u32,
}

impl View for Collection {
    type V = CollectionModel;

    open spec fn view(&self) -> CollectionModel {
        CollectionModel {
            name: self.name@,
            description: self.description@,
            author: self.author,
            schema: self.schema@,
            items_count: self.items_count,
        }
    }
}

/// An asset of a collection: its name, its owner and its JSON metadata.
#[derive(Debug)]
pub struct AssetItem {
    pub name: Vec<u8>,
    pub owner: AccountId,
    pub meta: Vec<u8>,
}

/// The mathematical value of an asset.
pub struct AssetModel {
    pub name: Seq<u8>,
    pub owner: AccountId,
    pub meta: Seq<u8>,
}

impl View for AssetItem {
    type V = AssetModel;

    open spec fn view(&self) -> AssetModel {
        AssetModel { name: self.name@, owner: self.owner, meta: self.meta@ }
    }
}

/// A copy of a byte string.
pub fn copy_bytes(v: &Vec<u8>) -> (r: Vec<u8>)
    ensures
        r@ == v@,
{
    let mut r: Vec<u8> = Vec::new();
    let n = v.len();
    for i in 0..n
        invariant
            n == v@.len(),
            r@ == v@.subrange(0, i as int),
    {
        r.push(v[i]);
        assert(r@ =~= v@.subrange(0, i + 1));
    }
    assert(r@ =~= v@);
    r
}

impl Collection {
    /// A copy of the collection.
    pub fn duplicate(&self) -> (r: Collection)
        ensures
            r@ == self@,
    {
        Collection {
            name: copy_bytes(&self.name),
            description: copy_bytes(&self.description),
            author: self.author,
            schema: copy_bytes(&self.schema),
            items_count: self.items_count,
        }
    }
}

impl AssetItem {
    /// A copy of the asset.
    pub fn duplicate(&self) -> (r: AssetItem)
        ensures
            r@ == self@,
    {
        AssetItem { name: copy_bytes(&self.name), owner: self.owner, meta: copy_bytes(&self.meta) }
    }
}

/// What the pallet reports of a successful call.
#[derive(Clone, Copy, Debug, PartialEq, Eq)]
pub enum Event {
    AssetWasStored { asset_hash: H256, owner: AccountId },
    AssetWasTransferred { asset_hash: H256, from: AccountId, to: AccountId },
    AssetWasRemoved { asset_hash: H256, owner: AccountId },
    MetaUpdated { asset_hash: H256, owner: AccountId },
    CollectionCreated { collection_hash: H256, owner: AccountId },
    CollectionUpdated { collection_hash: H256, owner: AccountId },
    CollectionRemoved { collection_hash: H256, owner: AccountId },
}

/// The pallet's own errors.
#[derive(Clone, Copy, Debug, PartialEq, Eq, Structural)]
pub enum Error {
    Unauthorized,
    InvalidHash,
    ShortNameProvided,
    LongNameProvided,
    InvalidCollection,
    CollectionAlreadyExists,
    AssetAlreadyExists,
    InvalidJson,
    InvalidJsonByCollectionSchema,
    SomeAssetsExists,
}

/// Why a call failed: its origin was not a signed account, or the pallet
/// refused it.
#[derive(Clone, Copy, Debug, PartialEq, Eq, Structural)]
pub enum DispatchError {
    BadOrigin,
    Module(Error),
}

} // verus!
