//! The keys of collections and assets: the Blake2-256 hash of their encoding.
use crate::scale::{asset_preimage, collection_preimage, encode_asset, encode_collection};
use crate::types::{AssetItem, AssetModel, Collection, CollectionModel, H256};
use vstd::prelude::*;

verus! {

/// The Blake2b hash, 256 bits long, of a byte string.
pub uninterp spec fn blake2_256(data: Seq<u8>) -> [u8; 32];

/// `<sp_core::Blake2Hasher as Hasher>::hash`: the Blake2-256 digest of the
/// bytes (the hasher behind the runtime's `BlakeTwo256`). What the digest is
/// stays unstated: the contract only names it.
#[verifier::external_body]
fn blake2_256_digest(data: &[u8]) -> (r: [u8; 32])
    ensures
        r == blake2_256(data@),
{
    <sp_core::Blake2Hasher as sp_core::Hasher>::hash(data).0
}

/// The key of a collection.
pub open spec fn collection_key(c: CollectionModel) -> H256 {
    blake2_256(collection_preimage(c))
}

/// The key of an asset.
pub open spec fn asset_key(a: AssetModel) -> H256 {
    blake2_256(asset_preimage(a))
}

/// The hash of an encoded collection.
pub fn hash_of_collection(c: &Collection) -> (r: H256)
    requires
        c.name@.len() <= u32::MAX,
        c.description@.len() <= u32::MAX,
        c.schema@.len() <= u32::MAX,
    ensures
        r == collection_key(c@),
{
    let bytes = encode_collection(c);
    blake2_256_digest(bytes.as_slice())
}

/// The hash of an encoded asset.
pub fn hash_of_asset(a: &AssetItem) -> (r: H256)
    requires
        a.name@.len() <= u32::MAX,
        a.meta@.len() <= u32::MAX,
    ensures
        r == asset_key(a@),
{
    let bytes = encode_asset(a);
    blake2_256_digest(bytes.as_slice())
}

} // verus!
