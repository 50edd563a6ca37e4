use vstd::prelude::*;
use ink::env::hash::Blake2x256;
use crate::types::Digest;

verus! {

/// What BLAKE2b with a 256-bit output gives for the bytes `data`.
pub uninterp spec fn blake2x256_of(data: Seq<u8>) -> Seq<u8>;

/// Relies on `ink::env::hash_bytes::<Blake2x256>`: it writes the 32-byte
/// BLAKE2b-256 digest of `data`, which depends on `data` alone.
#[verifier::external_body]
fn hash_blake2x256(data: &Vec<u8>) -> (r: Digest)
    ensures
        r@ == blake2x256_of(data@),
{
    let mut output: [u8; 32] = [0u8; 32];
    ink::env::hash_bytes::<Blake2x256>(data.as_slice(), &mut output);
    output
}

/// Byte `i` of the little-endian encoding of `v`.
pub open spec fn le_byte(v: u128, i: int) -> u8 {
    (v >> (8 * i) as u128) as u8
}

/// The 16-byte little-endian encoding of `v`.
pub open spec fn le_bytes(v: u128) -> Seq<u8> {
    Seq::new(16, |i: int| le_byte(v, i))
}

/// The bytes that a commitment to `(amount, nonce)` hashes.
pub open spec fn commit_preimage(amount: u128, nonce: u128) -> Seq<u8> {
    le_bytes(amount) + le_bytes(nonce)
}

/// The commitment to a pledge `amount` hidden by `nonce`.
pub open spec fn commitment_of(amount: u128, nonce: u128) -> Seq<u8> {
    blake2x256_of(commit_preimage(amount, nonce))
}

fn push_le_bytes(out: &mut Vec<u8>, v: u128)
    ensures
        final(out)@ == old(out)@ + le_bytes(v),
{
    let ghost start = out@;
    let mut i: u32 = 0;
    while i < 16
        invariant
            i <= 16,
            out@ == start + Seq::new(i as nat, |j: int| le_byte(v, j)),
        decreases 16 - i,
    {
        out.push((v >> (8 * i) as u128) as u8);
        i = i + 1;
        assert(out@ =~= start + Seq::new(i as nat, |j: int| le_byte(v, j)));
    }
    assert(Seq::new(16, |j: int| le_byte(v, j)) =~= le_bytes(v));
}

/// Computes the commitment to `amount` and `nonce`: the BLAKE2b-256 digest of
/// their little-endian encodings, one after the other.
pub fn commit(amount: u128, nonce: u128) -> (r: Digest)
    ensures
        r@ == commitment_of(amount, nonce),
{
    let mut data: Vec<u8> = Vec::new();
    push_le_bytes(&mut data, amount);
    push_le_bytes(&mut data, nonce);
    assert(data@ =~= commit_preimage(amount, nonce));
    hash_blake2x256(&data)
}

/// Whether two 32-byte values are equal.
pub fn same_bytes32(a: &[u8; 32], b: &[u8; 32]) -> (r: bool)
    ensures
        r == (*a == *b),
        r == (a@ == b@),
{
    broadcast use vstd::array::group_array_axioms;
    let mut i: usize = 0;
    while i < 32
        invariant
            i <= 32,
            forall|j: int| 0 <= j < i ==> a[j] == b[j],
        decreases 32 - i,
    {
        if a[i] != b[i] {
            assert(a@[i as int] != b@[i as int]);
            return false;
        }
        i = i + 1;
    }
    assert(*a =~= *b);
    true
}

} // verus!
