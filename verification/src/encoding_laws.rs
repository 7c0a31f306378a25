//! What the keys and the JSON check are, byte by byte.
use crate::hashing::{asset_key, blake2_256, collection_key};
use crate::json::{is_json_document, json_parses};
use crate::scale::{asset_preimage, collection_preimage, compact_length, le_bytes, scale_bytes};
use crate::types::{AssetModel, CollectionModel};
use vstd::arithmetic::power::pow;
use vstd::prelude::*;
use vstd::utf8::{decode_utf8, encode_utf8, encode_utf8_decode_utf8};

verus! {

/// The first powers of 256.
pub proof fn lemma_powers_of_256()
    ensures
        pow(256, 0) == 1,
        pow(256, 1) == 0x100,
        pow(256, 2) == 0x1_0000,
        pow(256, 3) == 0x100_0000,
        pow(256, 4) == 0x1_0000_0000,
        pow(256, 5) == 0x100_0000_0000,
        pow(256, 6) == 0x1_0000_0000_0000,
        pow(256, 7) == 0x100_0000_0000_0000,
{
    reveal_with_fuel(pow, 8);
}

/// A length is encoded in one byte below 2^6 (the length times 4), in two
/// little-endian bytes below 2^14 (the length times 4, plus 1), in four
/// below 2^30 (the length times 4, plus 2), and else as the byte 3 followed
/// by the four little-endian bytes of the length.
pub proof fn law_compact_length_bytes(n: nat)
    ensures
        n < 0x40 ==> compact_length(n) == seq![(4 * n) as u8],
        0x40 <= n < 0x4000 ==> compact_length(n) == seq![
            ((4 * n + 1) % 0x100) as u8,
            ((4 * n + 1) / 0x100) as u8,
        ],
        0x4000 <= n < 0x4000_0000 ==> compact_length(n) == seq![
            ((4 * n + 2) % 0x100) as u8,
            ((4 * n + 2) / 0x100 % 0x100) as u8,
            ((4 * n + 2) / 0x1_0000 % 0x100) as u8,
            ((4 * n + 2) / 0x100_0000) as u8,
        ],
        0x4000_0000 <= n < 0x1_0000_0000 ==> compact_length(n) == seq![
            3u8,
            (n % 0x100) as u8,
            (n / 0x100 % 0x100) as u8,
            (n / 0x1_0000 % 0x100) as u8,
            (n / 0x100_0000) as u8,
        ],
{
    lemma_powers_of_256();
    if n < 0x40 {
    } else if n < 0x4000 {
        let x = 4 * n + 1;
        assert(x < 0x1_0000);
        assert(x / 0x100 < 0x100);
        assert(compact_length(n) =~= seq![(x % 0x100) as u8, (x / 0x100) as u8]);
    } else if n < 0x4000_0000 {
        let x = 4 * n + 2;
        assert(x / 0x100_0000 < 0x100);
        assert(x / 0x100_0000 % 0x100 == x / 0x100_0000);
        assert(compact_length(n) =~= seq![
            (x % 0x100) as u8,
            (x / 0x100 % 0x100) as u8,
            (x / 0x1_0000 % 0x100) as u8,
            (x / 0x100_0000) as u8,
        ]);
    } else if n < 0x1_0000_0000 {
        assert(n / 0x100_0000 < 0x100);
        assert(n / 0x100_0000 % 0x100 == n / 0x100_0000);
        assert(le_bytes(n, 4) =~= seq![
            (n % 0x100) as u8,
            (n / 0x100 % 0x100) as u8,
            (n / 0x1_0000 % 0x100) as u8,
            (n / 0x100_0000) as u8,
        ]);
        assert(compact_length(n) =~= seq![3u8] + le_bytes(n, 4));
    }
}

/// The bytes of a number, least significant first: byte `i` of `x` is
/// `x / 256^i mod 256`.
pub proof fn law_le_bytes(x: nat, n: nat, i: int)
    requires
        0 <= i < n,
    ensures
        le_bytes(x, n).len() == n,
        le_bytes(x, n)[i] as int == (x as int / pow(256, i as nat)) % 256,
        i == 0 ==> le_bytes(x, n)[i] as int == x % 256,
        i == 1 ==> le_bytes(x, n)[i] as int == x / 0x100 % 256,
{
    lemma_powers_of_256();
}

/// The number that little-endian bytes stand for.
pub open spec fn le_value(s: Seq<u8>) -> int
    decreases s.len(),
{
    if s.len() == 0 {
        0
    } else {
        le_value(s.drop_last()) + s.last() as int * pow(256, (s.len() - 1) as nat)
    }
}

/// The `n` little-endian bytes of a number stand for the number modulo
/// 256^n, so for the number itself when it is below 256^n.
pub proof fn law_le_bytes_value(x: nat, n: nat)
    ensures
        le_value(le_bytes(x, n)) == x as int % pow(256, n),
        (x as int) < pow(256, n) ==> le_value(le_bytes(x, n)) == x,
    decreases n,
{
    vstd::arithmetic::power::lemma_pow_positive(256, n);
    if n == 0 {
        reveal_with_fuel(pow, 1);
        assert(le_bytes(x, n) =~= Seq::<u8>::empty());
    } else {
        let m = (n - 1) as nat;
        law_le_bytes_value(x, m);
        assert(le_bytes(x, n).drop_last() =~= le_bytes(x, m));
        vstd::arithmetic::power::lemma_pow_positive(256, m);
        reveal_with_fuel(pow, 2);
        assert(pow(256, n) == 256 * pow(256, m));
        vstd::arithmetic::div_mod::lemma_mod_breakdown(x as int, pow(256, m), 256);
        vstd::arithmetic::mul::lemma_mul_is_commutative(pow(256, m), 256);
        vstd::arithmetic::mul::lemma_mul_is_commutative(pow(256, m), (x as int / pow(256, m)) % 256);
    }
    if (x as int) < pow(256, n) {
        vstd::arithmetic::div_mod::lemma_small_mod(x, pow(256, n) as nat);
    }
}

/// A byte string is encoded as the compact encoding of its length followed by
/// its bytes, whatever its length.
pub proof fn law_scale_bytes(b: Seq<u8>)
    ensures
        scale_bytes(b) == compact_length(b.len()) + b,
        scale_bytes(b).len() == compact_length(b.len()).len() + b.len(),
        scale_bytes(b).subrange(compact_length(b.len()).len() as int, scale_bytes(b).len() as int)
            == b,
{
    assert(scale_bytes(b).subrange(compact_length(b.len()).len() as int, scale_bytes(b).len() as int)
        =~= b);
}

/// A collection is encoded as its name, its description, its author (eight
/// bytes), its schema and its item count (four bytes), each string preceded
/// by the compact encoding of its length; its key is the Blake2-256 hash of
/// those bytes.
pub proof fn law_collection_encoding(c: CollectionModel)
    ensures
        collection_preimage(c) == compact_length(c.name.len()) + c.name + compact_length(
            c.description.len(),
        ) + c.description + le_bytes(c.author as nat, 8) + compact_length(c.schema.len())
            + c.schema + le_bytes(c.items_count as nat, 4),
        collection_key(c) == blake2_256(
            compact_length(c.name.len()) + c.name + compact_length(c.description.len())
                + c.description + le_bytes(c.author as nat, 8) + compact_length(c.schema.len())
                + c.schema + le_bytes(c.items_count as nat, 4),
        ),
{
    assert(collection_preimage(c) =~= compact_length(c.name.len()) + c.name + compact_length(
        c.description.len(),
    ) + c.description + le_bytes(c.author as nat, 8) + compact_length(c.schema.len()) + c.schema
        + le_bytes(c.items_count as nat, 4));
}

/// An asset is encoded as its name, its owner (eight bytes) and its metadata,
/// each string preceded by the compact encoding of its length; its key is the
/// Blake2-256 hash of those bytes.
pub proof fn law_asset_encoding(a: AssetModel)
    ensures
        asset_preimage(a) == compact_length(a.name.len()) + a.name + le_bytes(a.owner as nat, 8)
            + compact_length(a.meta.len()) + a.meta,
        asset_key(a) == blake2_256(
            compact_length(a.name.len()) + a.name + le_bytes(a.owner as nat, 8) + compact_length(
                a.meta.len(),
            ) + a.meta,
        ),
{
    assert(asset_preimage(a) =~= compact_length(a.name.len()) + a.name + le_bytes(a.owner as nat, 8)
        + compact_length(a.meta.len()) + a.meta);
}

/// UTF-8 bytes are a JSON document exactly when the parser accepts their text:
/// nothing else about the bytes matters.
pub proof fn law_json_judged_by_text(bytes: Seq<u8>)
    ensures
        is_json_document(bytes) == json_parses(decode_utf8(bytes)),
{
}

/// The UTF-8 encoding of a text is a JSON document exactly when the parser
/// accepts the text, whatever characters (newlines, spaces, any other) it
/// holds.
pub proof fn law_json_of_text(text: Seq<char>)
    ensures
        is_json_document(encode_utf8(text)) == json_parses(text),
{
    encode_utf8_decode_utf8(text);
}

/// Two UTF-8 byte strings with the same text are judged alike.
pub proof fn law_json_same_text_same_answer(a: Seq<u8>, b: Seq<u8>)
    requires
        decode_utf8(a) == decode_utf8(b),
    ensures
        is_json_document(a) == is_json_document(b),
{
}

} // verus!
