//! The boundary to the pairing library.
//!
//! Keys and proofs cross this boundary in their canonical compressed
//! encoding, public inputs as decimal numerals. Nothing here is proved:
//! each function below hands its arguments to the pairing library and
//! reports what came back. What the library answers depends on its
//! arguments alone, so each answer has a name that contracts can speak of.

use ark_serialize::CanonicalDeserialize;
use ark_snark::SNARK;
use vstd::prelude::*;

use crate::types::BackendType;

verus! {

/// Whether `bytes` decode to a Groth16 proof over BN254.
pub uninterp spec fn bn254_proof_decodes(bytes: Seq<u8>) -> bool;

/// Whether `bytes` decode to a Groth16 verifying key over BN254.
pub uninterp spec fn bn254_key_decodes(bytes: Seq<u8>) -> bool;

/// The verdict of the Groth16 verifier over BN254 on a verifying key, a
/// proof and one public input; `None` where it reaches no verdict.
pub uninterp spec fn bn254_verdict(key: Seq<u8>, proof: Seq<u8>, input: Seq<char>) -> Option<bool>;

/// Whether `bytes` decode to a Groth16 proof over BLS12-381.
pub uninterp spec fn bls12_381_proof_decodes(bytes: Seq<u8>) -> bool;

/// Whether `bytes` decode to a Groth16 verifying key over BLS12-381.
pub uninterp spec fn bls12_381_key_decodes(bytes: Seq<u8>) -> bool;

/// The verdict of the Groth16 verifier over BLS12-381 on a verifying key, a
/// proof and one public input; `None` where it reaches no verdict.
pub uninterp spec fn bls12_381_verdict(key: Seq<u8>, proof: Seq<u8>, input: Seq<char>) -> Option<
    bool,
>;

/// Trusted: `ark_groth16::Proof::<Bn254>::deserialize_compressed` on the
/// bytes. The contract only names whether it returned `Ok`; it validates
/// the points it reads and ignores bytes after the proof.
#[verifier::external_body]
fn bn254_decode_proof(bytes: &Vec<u8>) -> (ok: bool)
    ensures
        ok == bn254_proof_decodes(bytes@),
{
    ark_groth16::Proof::<ark_bn254::Bn254>::deserialize_compressed(bytes.as_slice()).is_ok()
}

/// Trusted: `ark_groth16::VerifyingKey::<Bn254>::deserialize_compressed`
/// on the bytes. The contract only names whether it returned `Ok`.
#[verifier::external_body]
fn bn254_decode_key(bytes: &Vec<u8>) -> (ok: bool)
    ensures
        ok == bn254_key_decodes(bytes@),
{
    ark_groth16::VerifyingKey::<ark_bn254::Bn254>::deserialize_compressed(bytes.as_slice()).is_ok()
}

/// Trusted: `Groth16::<Bn254>::verify` on the key and proof that
/// `deserialize_compressed` reads from the bytes and the scalar that
/// `ark_bn254::Fr::from_str` reads from the numeral. `None` where one of
/// the three does not decode or the verifier returns an error. The
/// contract names the answer and claims nothing else of it.
#[verifier::external_body]
fn bn254_verify(key: &Vec<u8>, proof: &Vec<u8>, input: &str) -> (verdict: Option<bool>)
    ensures
        verdict == bn254_verdict(key@, proof@, input@),
{
    let key = ark_groth16::VerifyingKey::<ark_bn254::Bn254>::deserialize_compressed(
        key.as_slice(),
    ).ok()?;
    let proof = ark_groth16::Proof::<ark_bn254::Bn254>::deserialize_compressed(
        proof.as_slice(),
    ).ok()?;
    let scalar = input.parse::<ark_bn254::Fr>().ok()?;
    ark_groth16::Groth16::<ark_bn254::Bn254>::verify(&key, &[scalar], &proof).ok()
}

/// Trusted: `ark_groth16::Proof::<Bls12_381>::deserialize_compressed` on
/// the bytes. The contract only names whether it returned `Ok`; it
/// validates the points it reads and ignores bytes after the proof.
#[verifier::external_body]
fn bls12_381_decode_proof(bytes: &Vec<u8>) -> (ok: bool)
    ensures
        ok == bls12_381_proof_decodes(bytes@),
{
    ark_groth16::Proof::<ark_bls12_381::Bls12_381>::deserialize_compressed(
        bytes.as_slice(),
    ).is_ok()
}

/// Trusted: `ark_groth16::VerifyingKey::<Bls12_381>::deserialize_compressed`
/// on the bytes. The contract only names whether it returned `Ok`.
#[verifier::external_body]
fn bls12_381_decode_key(bytes: &Vec<u8>) -> (ok: bool)
    ensures
        ok == bls12_381_key_decodes(bytes@),
{
    ark_groth16::VerifyingKey::<ark_bls12_381::Bls12_381>::deserialize_compressed(
        bytes.as_slice(),
    ).is_ok()
}

/// Trusted: `Groth16::<Bls12_381>::verify` on the key and proof that
/// `deserialize_compressed` reads from the bytes and the scalar that
/// `ark_bls12_381::Fr::from_str` reads from the numeral. `None` where one
/// of the three does not decode or the verifier returns an error. The
/// contract names the answer and claims nothing else of it.
#[verifier::external_body]
fn bls12_381_verify(key: &Vec<u8>, proof: &Vec<u8>, input: &str) -> (verdict: Option<bool>)
    ensures
        verdict == bls12_381_verdict(key@, proof@, input@),
{
    let key = ark_groth16::VerifyingKey::<ark_bls12_381::Bls12_381>::deserialize_compressed(
        key.as_slice(),
    ).ok()?;
    let proof = ark_groth16::Proof::<ark_bls12_381::Bls12_381>::deserialize_compressed(
        proof.as_slice(),
    ).ok()?;
    let scalar = input.parse::<ark_bls12_381::Fr>().ok()?;
    ark_groth16::Groth16::<ark_bls12_381::Bls12_381>::verify(&key, &[scalar], &proof).ok()
}

/// Whether `bytes` decode to a proof of `backend`.
pub open spec fn proof_decodes(backend: BackendType, bytes: Seq<u8>) -> bool {
    match backend {
        BackendType::BN254 => bn254_proof_decodes(bytes),
        BackendType::BLS12_381 => bls12_381_proof_decodes(bytes),
    }
}

/// Whether `bytes` decode to a verifying key of `backend`.
pub open spec fn key_decodes(backend: BackendType, bytes: Seq<u8>) -> bool {
    match backend {
        BackendType::BN254 => bn254_key_decodes(bytes),
        BackendType::BLS12_381 => bls12_381_key_decodes(bytes),
    }
}

/// The verdict of `backend`'s verifier.
pub open spec fn verdict(
    backend: BackendType,
    key: Seq<u8>,
    proof: Seq<u8>,
    input: Seq<char>,
) -> Option<bool> {
    match backend {
        BackendType::BN254 => bn254_verdict(key, proof, input),
        BackendType::BLS12_381 => bls12_381_verdict(key, proof, input),
    }
}

/// Asks `backend`'s codec whether `bytes` are one of its proofs.
pub fn decode_proof(backend: BackendType, bytes: &Vec<u8>) -> (ok: bool)
    ensures
        ok == proof_decodes(backend, bytes@),
{
    match backend {
        BackendType::BN254 => bn254_decode_proof(bytes),
        BackendType::BLS12_381 => bls12_381_decode_proof(bytes),
    }
}

/// Asks `backend`'s codec whether `bytes` are one of its verifying keys.
pub fn decode_key(backend: BackendType, bytes: &Vec<u8>) -> (ok: bool)
    ensures
        ok == key_decodes(backend, bytes@),
{
    match backend {
        BackendType::BN254 => bn254_decode_key(bytes),
        BackendType::BLS12_381 => bls12_381_decode_key(bytes),
    }
}

/// Runs `backend`'s verifier.
pub fn run_verifier(backend: BackendType, key: &Vec<u8>, proof: &Vec<u8>, input: &str) -> (v:
    Option<bool>)
    ensures
        v == verdict(backend, key@, proof@, input@),
{
    match backend {
        BackendType::BN254 => bn254_verify(key, proof, input),
        BackendType::BLS12_381 => bls12_381_verify(key, proof, input),
    }
}

} // verus!
