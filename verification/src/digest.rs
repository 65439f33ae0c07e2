//! Digests and the hash chain of state commitments.
//!
//! A digest is thirty-two bytes: four lanes of 64-bit FNV-1a, lane `k`
//! hashing the byte `k` followed by the data, each lane written big-endian.
//! It is a fingerprint that anyone can recompute; it is not a
//! collision-resistant hash.

use vstd::prelude::*;

use crate::types::BackendType;

verus! {

pub const FNV_OFFSET_BASIS: u64 = 0xcbf2_9ce4_8422_2325;

pub const FNV_PRIME: u64 = 0x0000_0100_0000_01b3;

pub const DIGEST_LEN: usize = 32;

/// One round of FNV-1a: fold the byte in, then multiply modulo 2^64.
pub open spec fn fnv_step(h: u64, byte: u8) -> u64 {
    (((h ^ (byte as u64)) as int * FNV_PRIME as int) % 0x1_0000_0000_0000_0000) as u64
}

/// FNV-1a over `bytes`, started from `seed`.
pub open spec fn fnv1a_from(seed: u64, bytes: Seq<u8>) -> u64
    decreases bytes.len(),
{
    if bytes.len() == 0 {
        seed
    } else {
        fnv_step(fnv1a_from(seed, bytes.drop_last()), bytes.last())
    }
}

/// Lane `k` of the digest of `bytes`.
pub open spec fn lane(k: u8, bytes: Seq<u8>) -> u64 {
    fnv1a_from(fnv_step(FNV_OFFSET_BASIS, k), bytes)
}

pub open spec fn pow256(k: nat) -> nat
    decreases k,
{
    if k == 0 {
        1
    } else {
        256 * pow256((k - 1) as nat)
    }
}

/// Byte `j` of `x` written big-endian on eight bytes.
pub open spec fn be_byte(x: u64, j: int) -> u8
    recommends
        0 <= j < 8,
{
    ((x as nat / pow256((7 - j) as nat)) % 256) as u8
}

/// `x` written big-endian on eight bytes.
pub open spec fn be_bytes(x: u64) -> Seq<u8> {
    Seq::new(8, |j: int| be_byte(x, j))
}

/// The number that the first eight bytes of `s` write big-endian.
pub open spec fn be_value(s: Seq<u8>) -> nat
    recommends
        s.len() >= 8,
{
    s[0] as nat * pow256(7) + s[1] as nat * pow256(6) + s[2] as nat * pow256(5) + s[3] as nat
        * pow256(4) + s[4] as nat * pow256(3) + s[5] as nat * pow256(2) + s[6] as nat * pow256(1)
        + s[7] as nat
}

/// The digest of `bytes`: byte `i` is byte `i mod 8` of lane `i div 8`.
pub open spec fn digest(bytes: Seq<u8>) -> Seq<u8> {
    Seq::new(DIGEST_LEN as nat, |i: int| be_byte(lane((i / 8) as u8, bytes), i % 8))
}

/// What is hashed to make a commitment: the hash before it, the digest of
/// the proof that justifies it, the backend's tag, and the time.
pub open spec fn commitment_preimage(
    prior: Seq<u8>,
    proof_digest: Seq<u8>,
    backend: BackendType,
    timestamp: u64,
) -> Seq<u8> {
    prior + proof_digest + seq![backend.spec_tag()] + be_bytes(timestamp)
}

/// The hash of the commitment that follows `prior`.
pub open spec fn commitment_hash(
    prior: Seq<u8>,
    proof_digest: Seq<u8>,
    backend: BackendType,
    timestamp: u64,
) -> Seq<u8> {
    digest(commitment_preimage(prior, proof_digest, backend, timestamp))
}

/// The number a migration proof has to speak of: the first eight bytes of
/// the commitment's hash, read big-endian.
pub open spec fn commitment_tag(hash: Seq<u8>) -> nat
    recommends
        hash.len() >= 8,
{
    be_value(hash)
}

pub proof fn lemma_pow256_values()
    ensures
        pow256(0) == 1,
        pow256(1) == 0x100,
        pow256(2) == 0x1_0000,
        pow256(3) == 0x100_0000,
        pow256(4) == 0x1_0000_0000,
        pow256(5) == 0x100_0000_0000,
        pow256(6) == 0x1_0000_0000_0000,
        pow256(7) == 0x100_0000_0000_0000,
{
    reveal_with_fuel(pow256, 9);
}

fn pow256_of(k: usize) -> (p: u64)
    requires
        k < 8,
    ensures
        p == pow256(k as nat),
{
    proof {
        lemma_pow256_values();
    }
    if k == 0 {
        1
    } else if k == 1 {
        0x100
    } else if k == 2 {
        0x1_0000
    } else if k == 3 {
        0x100_0000
    } else if k == 4 {
        0x1_0000_0000
    } else if k == 5 {
        0x100_0000_0000
    } else if k == 6 {
        0x1_0000_0000_0000
    } else {
        0x100_0000_0000_0000
    }
}

fn byte_of(x: u64, j: usize) -> (b: u8)
    requires
        j < 8,
    ensures
        b == be_byte(x, j as int),
{
    proof {
        lemma_pow256_values();
    }
    let p = pow256_of(7 - j);
    ((x / p) % 256) as u8
}

fn mix(h: u64, byte: u8) -> (r: u64)
    ensures
        r == fnv_step(h, byte),
{
    let folded: u64 = h ^ (byte as u64);
    let product: u128 = (folded as u128) * (FNV_PRIME as u128);
    (product % 0x1_0000_0000_0000_0000u128) as u64
}

/// FNV-1a over `bytes`, started from `seed`.
pub fn fnv1a(seed: u64, bytes: &[u8]) -> (h: u64)
    ensures
        h == fnv1a_from(seed, bytes@),
{
    let mut h: u64 = seed;
    let mut i: usize = 0;
    while i < bytes.len()
        invariant
            i <= bytes.len(),
            h == fnv1a_from(seed, bytes@.take(i as int)),
        decreases bytes.len() - i,
    {
        proof {
            let next = bytes@.take(i + 1);
            assert(next.drop_last() =~= bytes@.take(i as int));
            assert(next.last() == bytes@[i as int]);
        }
        h = mix(h, bytes[i]);
        i += 1;
    }
    proof {
        assert(bytes@.take(i as int) =~= bytes@);
    }
    h
}

/// Computes the digest of `bytes`.
pub fn compute_digest(bytes: &[u8]) -> (out: [u8; 32])
    ensures
        out@ == digest(bytes@),
{
    let mut out: [u8; 32] = [0u8; 32];
    let mut k: usize = 0;
    while k < 4
        invariant
            k <= 4,
            forall|i: int| 0 <= i < 8 * k ==> out@[i] == digest(bytes@)[i],
        decreases 4 - k,
    {
        let h = fnv1a(mix(FNV_OFFSET_BASIS, k as u8), bytes);
        let mut j: usize = 0;
        while j < 8
            invariant
                k < 4,
                j <= 8,
                h == lane(k as u8, bytes@),
                forall|i: int| 0 <= i < 8 * k + j ==> out@[i] == digest(bytes@)[i],
            decreases 8 - j,
        {
            out[8 * k + j] = byte_of(h, j);
            j += 1;
        }
        k += 1;
    }
    assert(out@ =~= digest(bytes@));
    out
}

/// Derives the hash of the commitment that follows `prior`.
pub fn derive_commitment_hash(
    prior: &[u8; 32],
    proof_digest: &[u8; 32],
    backend: BackendType,
    timestamp: u64,
) -> (hash: [u8; 32])
    ensures
        hash@ == commitment_hash(prior@, proof_digest@, backend, timestamp),
{
    let mut preimage: Vec<u8> = Vec::new();
    let mut i: usize = 0;
    while i < 32
        invariant
            i <= 32,
            preimage@ == prior@.take(i as int),
        decreases 32 - i,
    {
        preimage.push(prior[i]);
        assert(preimage@ =~= prior@.take(i + 1));
        i += 1;
    }
    assert(prior@.take(32) =~= prior@);
    let mut i: usize = 0;
    while i < 32
        invariant
            i <= 32,
            preimage@ == prior@ + proof_digest@.take(i as int),
        decreases 32 - i,
    {
        preimage.push(proof_digest[i]);
        assert(preimage@ =~= prior@ + proof_digest@.take(i + 1));
        i += 1;
    }
    assert(proof_digest@.take(32) =~= proof_digest@);
    preimage.push(backend.tag());
    let mut j: usize = 0;
    while j < 8
        invariant
            j <= 8,
            preimage@ == prior@ + proof_digest@ + seq![backend.spec_tag()] + be_bytes(
                timestamp,
            ).take(j as int),
        decreases 8 - j,
    {
        preimage.push(byte_of(timestamp, j));
        assert(preimage@ =~= prior@ + proof_digest@ + seq![backend.spec_tag()] + be_bytes(
            timestamp,
        ).take(j + 1));
        j += 1;
    }
    assert(be_bytes(timestamp).take(8) =~= be_bytes(timestamp));
    compute_digest(preimage.as_slice())
}

/// Reads the tag of a commitment's hash.
pub fn read_commitment_tag(hash: &[u8; 32]) -> (tag: u64)
    ensures
        tag == commitment_tag(hash@),
{
    proof {
        lemma_pow256_values();
    }
    (hash[0] as u64) * 0x100_0000_0000_0000 + (hash[1] as u64) * 0x1_0000_0000_0000 + (
    hash[2] as u64) * 0x100_0000_0000 + (hash[3] as u64) * 0x1_0000_0000 + (hash[4] as u64)
        * 0x100_0000 + (hash[5] as u64) * 0x1_0000 + (hash[6] as u64) * 0x100 + (hash[7] as u64)
}

} // verus!
