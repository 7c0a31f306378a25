//! The SCALE encoding of collections and assets: the bytes that are hashed
//! to give their keys. Each field is encoded by the codec; a struct encodes
//! as the concatenation of its fields in declaration order.
use crate::types::{AssetItem, AssetModel, Collection, CollectionModel};
use vstd::arithmetic::power::pow;
use vstd::prelude::*;

verus! {

/// The `n` low bytes of `x`, least significant first.
pub open spec fn le_bytes(x: nat, n: nat) -> Seq<u8> {
    Seq::new(n, |i: int| ((x as int / pow(256, i as nat)) % 256) as u8)
}

/// The compact encoding of a length that fits in 32 bits: one byte below 2^6,
/// two bytes below 2^14, four bytes below 2^30, else a marker byte and the
/// four bytes of the length.
pub open spec fn compact_length(n: nat) -> Seq<u8> {
    if n < 0x40 {
        seq![(n * 4) as u8]
    } else if n < 0x4000 {
        le_bytes(n * 4 + 1, 2)
    } else if n < 0x4000_0000 {
        le_bytes(n * 4 + 2, 4)
    } else {
        seq![3u8] + le_bytes(n, 4)
    }
}

/// The encoding of a byte string: its compact length, then its bytes.
pub open spec fn scale_bytes(b: Seq<u8>) -> Seq<u8> {
    compact_length(b.len()) + b
}

/// The encoding of a collection.
pub open spec fn collection_preimage(c: CollectionModel) -> Seq<u8> {
    scale_bytes(c.name) + scale_bytes(c.description) + le_bytes(c.author as nat, 8) + scale_bytes(
        c.schema,
    ) + le_bytes(c.items_count as nat, 4)
}

/// The encoding of an asset.
pub open spec fn asset_preimage(a: AssetModel) -> Seq<u8> {
    scale_bytes(a.name) + le_bytes(a.owner as nat, 8) + scale_bytes(a.meta)
}

/// `<Vec<u8> as Encode>::encode` of parity-scale-codec (through sp_core):
/// the compact length (a `u32`, the call panics above it) followed by the
/// bytes.
#[verifier::external_body]
fn encode_byte_string(v: &Vec<u8>) -> (r: Vec<u8>)
    requires
        v@.len() <= u32::MAX,
    ensures
        r@ == scale_bytes(v@),
{
    sp_core::Encode::encode(v)
}

/// `<u64 as Encode>::encode` of parity-scale-codec: the eight
/// little-endian bytes.
#[verifier::external_body]
fn encode_u64(x: u64) -> (r: Vec<u8>)
    ensures
        r@ == le_bytes(x as nat, 8),
{
    sp_core::Encode::encode(&x)
}

/// `<u32 as Encode>::encode` of parity-scale-codec: the four
/// little-endian bytes.
#[verifier::external_body]
fn encode_u32(x: u32) -> (r: Vec<u8>)
    ensures
        r@ == le_bytes(x as nat, 4),
{
    sp_core::Encode::encode(&x)
}

/// The encoding of a collection, field after field.
pub fn encode_collection(c: &Collection) -> (r: Vec<u8>)
    requires
        c.name@.len() <= u32::MAX,
        c.description@.len() <= u32::MAX,
        c.schema@.len() <= u32::MAX,
    ensures
        r@ == collection_preimage(c@),
{
    let mut out = encode_byte_string(&c.name);
    let mut part = encode_byte_string(&c.description);
    out.append(&mut part);
    let mut part = encode_u64(c.author);
    out.append(&mut part);
    let mut part = encode_byte_string(&c.schema);
    out.append(&mut part);
    let mut part = encode_u32(c.items_count);
    out.append(&mut part);
    out
}

/// The encoding of an asset, field after field.
pub fn encode_asset(a: &AssetItem) -> (r: Vec<u8>)
    requires
        a.name@.len() <= u32::MAX,
        a.meta@.len() <= u32::MAX,
    ensures
        r@ == asset_preimage(a@),
{
    let mut out = encode_byte_string(&a.name);
    let mut part = encode_u64(a.owner);
    out.append(&mut part);
    let mut part = encode_byte_string(&a.meta);
    out.append(&mut part);
    out
}

} // verus!
