use chameleon_zk::digest::{
    compute_digest, derive_commitment_hash, fnv1a, read_commitment_tag, FNV_OFFSET_BASIS,
};
use chameleon_zk::types::BackendType;

const DIGEST_OF_ABC: [u8; 32] = [
    46, 217, 50, 126, 251, 132, 79, 241, 202, 144, 118, 119, 233, 30, 158, 4, 111, 181, 222, 143,
    168, 180, 133, 235, 52, 24, 106, 137, 206, 220, 30, 86,
];

#[test]
fn fnv1a_matches_published_vectors() {
    assert_eq!(fnv1a(FNV_OFFSET_BASIS, b""), 0xcbf2_9ce4_8422_2325);
    assert_eq!(fnv1a(FNV_OFFSET_BASIS, b"a"), 0xaf63_dc4c_8601_ec8c);
    assert_eq!(fnv1a(FNV_OFFSET_BASIS, b"foobar"), 0x8594_4171_f739_67e8);
}

#[test]
fn digest_of_given_bytes() {
    assert_eq!(
        compute_digest(b""),
        [
            175, 99, 189, 76, 134, 1, 183, 223, 175, 99, 188, 76, 134, 1, 182, 44, 175, 99, 191,
            76, 134, 1, 187, 69, 175, 99, 190, 76, 134, 1, 185, 146,
        ]
    );
    assert_eq!(compute_digest(b"abc"), DIGEST_OF_ABC);
}

#[test]
fn digest_lanes_are_separated() {
    let d = compute_digest(b"abc");
    assert_eq!(&d[0..8], &fnv1a(fnv1a(FNV_OFFSET_BASIS, &[0]), b"abc").to_be_bytes());
    assert_eq!(&d[24..32], &fnv1a(fnv1a(FNV_OFFSET_BASIS, &[3]), b"abc").to_be_bytes());
    assert_ne!(&d[0..8], &d[8..16]);
}

#[test]
fn commitment_hash_of_given_inputs() {
    let genesis = [0u8; 32];
    let hash = derive_commitment_hash(&genesis, &DIGEST_OF_ABC, BackendType::BLS12_381, 1_700_000_000);
    assert_eq!(
        hash,
        [
            0, 213, 101, 61, 44, 178, 101, 8, 102, 117, 182, 197, 167, 183, 211, 169, 176, 159,
            182, 154, 17, 193, 163, 2, 72, 13, 80, 58, 203, 233, 52, 19,
        ]
    );
    assert_eq!(read_commitment_tag(&hash), 60_065_483_456_668_936);
}

#[test]
fn commitment_hash_is_the_digest_of_its_preimage() {
    let prior = compute_digest(b"prior");
    let proof_digest = compute_digest(b"proof");
    let mut preimage = Vec::new();
    preimage.extend_from_slice(&prior);
    preimage.extend_from_slice(&proof_digest);
    preimage.push(BackendType::BN254.tag());
    preimage.extend_from_slice(&42u64.to_be_bytes());
    assert_eq!(
        derive_commitment_hash(&prior, &proof_digest, BackendType::BN254, 42),
        compute_digest(&preimage)
    );
}

#[test]
fn commitment_hash_depends_on_every_input() {
    let genesis = [0u8; 32];
    let base = derive_commitment_hash(&genesis, &DIGEST_OF_ABC, BackendType::BN254, 1_700_000_000);
    assert_eq!(read_commitment_tag(&base), 7_290_704_696_400_712_833);
    let other_backend =
        derive_commitment_hash(&genesis, &DIGEST_OF_ABC, BackendType::BLS12_381, 1_700_000_000);
    let other_time = derive_commitment_hash(&genesis, &DIGEST_OF_ABC, BackendType::BN254, 1_700_000_001);
    let other_prior = derive_commitment_hash(&base, &DIGEST_OF_ABC, BackendType::BN254, 1_700_000_000);
    let other_proof = derive_commitment_hash(&genesis, &genesis, BackendType::BN254, 1_700_000_000);
    assert_ne!(base, other_backend);
    assert_ne!(base, other_time);
    assert_ne!(base, other_prior);
    assert_ne!(base, other_proof);
}

#[test]
fn tag_reads_the_first_eight_bytes_big_endian() {
    let mut hash = [0u8; 32];
    assert_eq!(read_commitment_tag(&hash), 0);
    hash[7] = 1;
    assert_eq!(read_commitment_tag(&hash), 1);
    hash[0] = 0xff;
    assert_eq!(read_commitment_tag(&hash), 0xff00_0000_0000_0001);
    hash[8] = 0xff;
    assert_eq!(read_commitment_tag(&hash), 0xff00_0000_0000_0001);
    let all = [0xffu8; 32];
    assert_eq!(read_commitment_tag(&all), u64::MAX);
}

#[test]
fn backend_tags_differ() {
    assert_eq!(BackendType::BN254.tag(), 1);
    assert_eq!(BackendType::BLS12_381.tag(), 2);
}
