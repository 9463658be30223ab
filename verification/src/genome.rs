//! Genomes: sixteen opaque bytes per kitty, and the bitwise crossover
//! that breeds a child genome from two parents.

use parity_scale_codec::Encode;
use vstd::bytes::{spec_u32_to_le_bytes, spec_u64_to_le_bytes};
use vstd::prelude::*;

verus! {

/// Bit `k` of the byte `x`.
pub open spec fn bit(x: u8, k: u8) -> bool {
    (x >> k) & 1u8 == 1u8
}

/// One byte of a child: where the selector has a one the bit of `a`,
/// where it has a zero the bit of `b`.
pub open spec fn crossover_byte(a: u8, b: u8, selector: u8) -> u8 {
    (selector & a) | (!selector & b)
}

/// The child of two genomes under a selector, byte by byte.
pub open spec fn crossover_spec(a: Seq<u8>, b: Seq<u8>, selector: Seq<u8>) -> Seq<u8> {
    Seq::new(16, |i: int| crossover_byte(a[i], b[i], selector[i]))
}

/// Every bit of a crossed byte is the bit of the first parent where the
/// selector bit is set, and the bit of the second parent where it is not.
pub proof fn lemma_crossover_byte_bits(a: u8, b: u8, selector: u8, k: u8)
    requires
        k < 8,
    ensures
        bit(crossover_byte(a, b, selector), k) == (if bit(selector, k) {
            bit(a, k)
        } else {
            bit(b, k)
        }),
{
    assert(((((selector & a) | (!selector & b)) >> k) & 1u8 == 1u8) == (if (selector >> k) & 1u8
        == 1u8 {
        (a >> k) & 1u8 == 1u8
    } else {
        (b >> k) & 1u8 == 1u8
    })) by (bit_vector)
        requires
            k < 8,
    ;
}

/// Breeds a child genome: each bit comes from `a` where the selector bit
/// is one and from `b` where it is zero.
pub fn crossover(a: &[u8; 16], b: &[u8; 16], selector: &[u8; 16]) -> (child: [u8; 16])
    ensures
        child@ == crossover_spec(a@, b@, selector@),
        forall|i: int, k: u8|
            0 <= i < 16 && k < 8 ==> #[trigger] bit(child@[i], k) == (if bit(selector@[i], k) {
                bit(a@[i], k)
            } else {
                bit(b@[i], k)
            }),
{
    let mut child: [u8; 16] = [0u8; 16];
    let mut i: usize = 0;
    while i < 16
        invariant
            i <= 16,
            forall|j: int| 0 <= j < i ==> child@[j] == crossover_byte(a@[j], b@[j], selector@[j]),
        decreases 16 - i,
    {
        child[i] = (selector[i] & a[i]) | (!selector[i] & b[i]);
        i += 1;
    }
    assert(child@ =~= crossover_spec(a@, b@, selector@));
    assert forall|i: int, k: u8| 0 <= i < 16 && k < 8 implies #[trigger] bit(child@[i], k) == (if bit(
        selector@[i],
        k,
    ) {
        bit(a@[i], k)
    } else {
        bit(b@[i], k)
    }) by {
        lemma_crossover_byte_bits(a@[i], b@[i], selector@[i], k);
    }
    child
}

/// The 128-bit BLAKE2b digest of a byte string.
pub uninterp spec fn blake2_128_digest(data: Seq<u8>) -> Seq<u8>;

/// Calls `sp_io::hashing::blake2_128`. Trusted: the result is the 128-bit
/// BLAKE2b digest of `data`, a function of the bytes alone.
#[verifier::external_body]
fn blake2_128(data: &[u8]) -> (digest: [u8; 16])
    ensures
        digest@ == blake2_128_digest(data@),
{
    sp_io::hashing::blake2_128(data)
}

/// The SCALE encoding of an account identifier: its eight bytes, least
/// significant first.
pub open spec fn account_encoding(who: u64) -> Seq<u8> {
    spec_u64_to_le_bytes(who)
}

/// The SCALE encoding of an optional extrinsic index: a zero byte for
/// none; a one byte and the index's four bytes, least significant first,
/// for some.
pub open spec fn index_encoding(index: Option<u32>) -> Seq<u8> {
    match index {
        None => seq![0u8],
        Some(i) => seq![1u8] + spec_u32_to_le_bytes(i),
    }
}

/// Calls `parity_scale_codec::Encode::encode` on a `u64`. Trusted: the
/// codec writes a fixed-width integer as its little-endian bytes.
#[verifier::external_body]
fn encode_account(who: u64) -> (bytes: Vec<u8>)
    ensures
        bytes@ == account_encoding(who),
{
    who.encode()
}

/// Calls `parity_scale_codec::Encode::encode` on an `Option<u32>`.
/// Trusted: the codec writes the byte 0 for `None`, and the byte 1
/// followed by the encoded value for `Some`.
#[verifier::external_body]
fn encode_index(index: Option<u32>) -> (bytes: Vec<u8>)
    ensures
        bytes@ == index_encoding(index),
{
    index.encode()
}

/// The bytes that are hashed into a fresh genome: the randomness seed,
/// then the sender, then the index of the running extrinsic.
pub open spec fn payload(seed: Seq<u8>, sender: u64, extrinsic_index: Option<u32>) -> Seq<u8> {
    seed + account_encoding(sender) + index_encoding(extrinsic_index)
}

/// The genome that `random_value` draws from its three inputs.
pub open spec fn random_value_spec(
    seed: Seq<u8>,
    sender: u64,
    extrinsic_index: Option<u32>,
) -> Seq<u8> {
    blake2_128_digest(payload(seed, sender, extrinsic_index))
}

/// Draws a genome from the randomness seed, the sender and the index of
/// the running extrinsic. The seed is taken as encoded bytes; the index
/// tells apart two draws of one sender under one seed.
pub fn random_value(seed: &[u8], sender: u64, extrinsic_index: Option<u32>) -> (dna: [u8; 16])
    ensures
        dna@ == random_value_spec(seed@, sender, extrinsic_index),
{
    let mut bytes: Vec<u8> = Vec::new();
    bytes.extend_from_slice(seed);
    let mut who = encode_account(sender);
    bytes.append(&mut who);
    let mut index = encode_index(extrinsic_index);
    bytes.append(&mut index);
    assert(bytes@ =~= payload(seed@, sender, extrinsic_index));
    blake2_128(bytes.as_slice())
}

} // verus!
