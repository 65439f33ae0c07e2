//! The adapter for the BN254 curve.

use vstd::prelude::*;

pub use crate::circuit::MultiplyCircuit;

use crate::adapter::{
    accept_keys, check_envelope, export_outcome, export_verifying_key, keys_after_setup,
    proving_outcome, request_outcome, request_proof, seal_proof, setup_result,
    verification_outcome, view_request,
};
use crate::engine::{key_material, KeyGeneration, KeyMaterial, KeyPair, ProvingAttempt, ProvingRequest};
use crate::groth16;
use crate::types::{view_result, BackendType, ProverError, UniversalProof};

verus! {

/// The adapter for BN254. It owns the key pair of one setup; its view is
/// the key material it holds, or `None` before setup.
///
/// Setup may be repeated: the new pair replaces the old one, and envelopes
/// sealed under the old pair are judged against the new verifying key from
/// then on.
pub struct BN254Backend {
    keys: Option<KeyPair>,
}

impl View for BN254Backend {
    type V = Option<KeyMaterial>;

    closed spec fn view(&self) -> Option<KeyMaterial> {
        key_material(self.keys)
    }
}

impl BN254Backend {
    /// A stored verifying key always decodes.
    #[verifier::type_invariant]
    spec fn stored_key_decodes(self) -> bool {
        self.keys matches Some(pair) ==> groth16::key_decodes(
            BackendType::BN254,
            pair.verifying_key@,
        )
    }

    pub fn new() -> (backend: Self)
        ensures
            backend@ is None,
    {
        BN254Backend { keys: None }
    }

    pub fn backend_type(&self) -> (backend: BackendType)
        ensures
            backend == BackendType::BN254,
    {
        BackendType::BN254
    }

    /// Whether setup has stored a key pair.
    pub fn is_setup(&self) -> (ready: bool)
        ensures
            ready == (self@ is Some),
    {
        self.keys.is_some()
    }

    /// Stores the key pair that the engine generated for the circuit's
    /// shape. On refusal the adapter keeps what it held.
    pub fn setup(&mut self, generated: KeyGeneration) -> (r: Result<(), ProverError>)
        ensures
            view_result(r) == setup_result(BackendType::BN254, generated),
            final(self)@ == keys_after_setup(BackendType::BN254, old(self)@, generated),
    {
        match accept_keys(BackendType::BN254, generated) {
            Ok(pair) => {
                self.keys = Some(pair);
                Ok(())
            },
            Err(error) => Err(error),
        }
    }

    /// What the engine has to prove for the factors `a` and `b`, and the
    /// key to prove it with.
    pub fn proving_request(&self, a: u64, b: u64) -> (r: Result<ProvingRequest, ProverError>)
        ensures
            view_request(r) == request_outcome(BackendType::BN254, self@, a, b),
    {
        request_proof(BackendType::BN254, &self.keys, a, b)
    }

    /// Seals what the engine reports on proving `a * b` into an envelope.
    pub fn prove(&self, a: u64, b: u64, attempt: ProvingAttempt) -> (r: Result<
        UniversalProof,
        ProverError,
    >)
        ensures
            view_result(r) == proving_outcome(BackendType::BN254, self@, a, b, attempt),
    {
        seal_proof(BackendType::BN254, &self.keys, a, b, attempt)
    }

    /// Verifies an envelope. `Ok(false)` is the verdict on a well-formed
    /// proof that does not hold; it is no error.
    pub fn verify(&self, proof: &UniversalProof) -> (r: Result<bool, ProverError>)
        ensures
            view_result(r) == verification_outcome(BackendType::BN254, self@, proof@),
    {
        check_envelope(BackendType::BN254, &self.keys, proof)
    }

    /// The verifying key in its canonical compressed encoding, for
    /// verifiers that hold nothing else of this adapter.
    pub fn get_verifying_key_bytes(&self) -> (r: Result<Vec<u8>, ProverError>)
        ensures
            view_result(r) == export_outcome(self@),
            r matches Ok(bytes) ==> groth16::key_decodes(BackendType::BN254, bytes@),
    {
        proof {
            use_type_invariant(self);
        }
        export_verifying_key(&self.keys)
    }
}

} // verus!
