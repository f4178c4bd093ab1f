//! Identifiers of operations: a digest of what the operation says and when
//! it was submitted.

use vstd::prelude::*;
use sha2::{Digest, Sha256};
use crate::types::{Amount, Id};

verus! {

/// The SHA-256 digest of a message.
pub uninterp spec fn sha256_of(message: Seq<u8>) -> Seq<u8>;

/// The eight bytes of `x`, most significant first.
pub open spec fn be_bytes(x: u64) -> Seq<u8> {
    seq![
        ((x / 0x0100_0000_0000_0000) % 256) as u8,
        ((x / 0x0001_0000_0000_0000) % 256) as u8,
        ((x / 0x0000_0100_0000_0000) % 256) as u8,
        ((x / 0x0000_0001_0000_0000) % 256) as u8,
        ((x / 0x0000_0000_0100_0000) % 256) as u8,
        ((x / 0x0000_0000_0001_0000) % 256) as u8,
        ((x / 0x0000_0000_0000_0100) % 256) as u8,
        (x % 256) as u8,
    ]
}

/// The number whose eight bytes, most significant first, are the first
/// eight of `bytes`.
pub open spec fn be_u64(bytes: Seq<u8>) -> int
    recommends
        bytes.len() >= 8,
{
    bytes[0] * 0x0100_0000_0000_0000 + bytes[1] * 0x0001_0000_0000_0000 + bytes[2]
        * 0x0000_0100_0000_0000 + bytes[3] * 0x0000_0001_0000_0000 + bytes[4]
        * 0x0000_0000_0100_0000 + bytes[5] * 0x0000_0000_0001_0000 + bytes[6]
        * 0x0000_0000_0000_0100 + bytes[7]
}

/// The message that identifies an operation: recipient, sender, amount (in
/// two's complement) and submission time in seconds, eight bytes each, most
/// significant byte first.
pub open spec fn preimage(to: Id, from: Id, amount: Amount, seconds: u64) -> Seq<u8> {
    be_bytes(to) + be_bytes(from) + be_bytes(amount as u64) + be_bytes(seconds)
}

/// The identifier of an operation: the first eight bytes of the SHA-256
/// digest of its message, read as a number, most significant byte first.
pub open spec fn id_of(to: Id, from: Id, amount: Amount, seconds: u64) -> int {
    be_u64(sha256_of(preimage(to, from, amount, seconds)))
}

/// Calls `Sha256::digest` of the `sha2` crate, which hashes the whole of
/// `message` in one go and returns the 32 bytes of the digest. Taken on
/// trust: the digest is a function of the message alone. Which function it
/// is, is left to the crate.
#[verifier::external_body]
fn sha256(message: &[u8]) -> (digest: [u8; 32])
    ensures
        digest@ == sha256_of(message@),
{
    Sha256::digest(message).into()
}

fn push_be(out: &mut Vec<u8>, x: u64)
    ensures
        final(out)@ == old(out)@ + be_bytes(x),
{
    let b0 = (x >> 56) as u8;
    let b1 = (x >> 48) as u8;
    let b2 = (x >> 40) as u8;
    let b3 = (x >> 32) as u8;
    let b4 = (x >> 24) as u8;
    let b5 = (x >> 16) as u8;
    let b6 = (x >> 8) as u8;
    let b7 = x as u8;
    assert(b0 == ((x / 0x0100_0000_0000_0000) % 256) as u8) by (bit_vector)
        requires
            b0 == (x >> 56) as u8,
    ;
    assert(b1 == ((x / 0x0001_0000_0000_0000) % 256) as u8) by (bit_vector)
        requires
            b1 == (x >> 48) as u8,
    ;
    assert(b2 == ((x / 0x0000_0100_0000_0000) % 256) as u8) by (bit_vector)
        requires
            b2 == (x >> 40) as u8,
    ;
    assert(b3 == ((x / 0x0000_0001_0000_0000) % 256) as u8) by (bit_vector)
        requires
            b3 == (x >> 32) as u8,
    ;
    assert(b4 == ((x / 0x0000_0000_0100_0000) % 256) as u8) by (bit_vector)
        requires
            b4 == (x >> 24) as u8,
    ;
    assert(b5 == ((x / 0x0000_0000_0001_0000) % 256) as u8) by (bit_vector)
        requires
            b5 == (x >> 16) as u8,
    ;
    assert(b6 == ((x / 0x0000_0000_0000_0100) % 256) as u8) by (bit_vector)
        requires
            b6 == (x >> 8) as u8,
    ;
    assert(b7 == (x % 256) as u8) by (bit_vector)
        requires
            b7 == x as u8,
    ;
    out.push(b0);
    out.push(b1);
    out.push(b2);
    out.push(b3);
    out.push(b4);
    out.push(b5);
    out.push(b6);
    out.push(b7);
    assert(out@ =~= old(out)@ + be_bytes(x));
}

/// Builds the message that identifies an operation.
pub fn id_preimage(to: Id, from: Id, amount: Amount, seconds: u64) -> (message: Vec<u8>)
    ensures
        message@ == preimage(to, from, amount, seconds),
{
    let mut message: Vec<u8> = Vec::new();
    push_be(&mut message, to);
    push_be(&mut message, from);
    push_be(&mut message, amount as u64);
    push_be(&mut message, seconds);
    assert(message@ =~= preimage(to, from, amount, seconds));
    message
}

/// Reads an identifier off the front of a digest.
pub fn id_from_digest(digest: &[u8; 32]) -> (id: Id)
    ensures
        id == be_u64(digest@),
{
    (digest[0] as u64) * 0x0100_0000_0000_0000 + (digest[1] as u64) * 0x0001_0000_0000_0000 + (
    digest[2] as u64) * 0x0000_0100_0000_0000 + (digest[3] as u64) * 0x0000_0001_0000_0000 + (
    digest[4] as u64) * 0x0000_0000_0100_0000 + (digest[5] as u64) * 0x0000_0000_0001_0000 + (
    digest[6] as u64) * 0x0000_0000_0000_0100 + (digest[7] as u64)
}

/// The identifier of the operation that moves `amount` from `from` to `to`
/// and was submitted `seconds` after the epoch. It depends on these four
/// values and on nothing else.
pub fn generate_id(to: Id, from: Id, amount: Amount, seconds: u64) -> (id: Id)
    ensures
        id == id_of(to, from, amount, seconds),
{
    let message = id_preimage(to, from, amount, seconds);
    let digest = sha256(message.as_slice());
    id_from_digest(&digest)
}

/// Equal arguments give equal identifiers.
pub proof fn lemma_generate_id_deterministic(
    to_a: Id,
    from_a: Id,
    amount_a: Amount,
    seconds_a: u64,
    to_b: Id,
    from_b: Id,
    amount_b: Amount,
    seconds_b: u64,
)
    requires
        to_a == to_b,
        from_a == from_b,
        amount_a == amount_b,
        seconds_a == seconds_b,
    ensures
        id_of(to_a, from_a, amount_a, seconds_a) == id_of(to_b, from_b, amount_b, seconds_b),
{
}

} // verus!
