//! What every backend adapter does, whatever its curve.
//!
//! An adapter holds at most one key pair. The functions here take the
//! backend's identifier and the keys it holds; the adapters themselves
//! only say which curve they stand for.

use vstd::prelude::*;
use vstd::string::StringExecFns;

use crate::circuit::{public_input, MultiplyCircuit, PUBLIC_INPUT_COUNT};
use crate::decimal::{decimal, is_canonical_decimal, is_decimal_numeral, lemma_decimal_round_trip};
use crate::engine::{key_material, KeyGeneration, KeyMaterial, KeyPair, ProvingAttempt, ProvingRequest};
use crate::groth16;
use crate::types::{
    refusal, view_result, BackendType, Envelope, ErrorKind, ProverError, Refusal, UniversalProof,
};

verus! {

pub open spec fn setup_missing() -> Refusal {
    refusal(ErrorKind::SetupMissing, "Setup not performed"@)
}

/// What becomes of a report on key generation: the keys to store, or the
/// refusal. Keys are stored only if the verifying key decodes.
pub open spec fn setup_outcome(backend: BackendType, generated: KeyGeneration) -> Result<
    KeyMaterial,
    Refusal,
> {
    match generated {
        KeyGeneration::Generated(pair) => if groth16::key_decodes(backend, pair.verifying_key@) {
            Ok(pair@)
        } else {
            Err(
                refusal(
                    ErrorKind::SerializationError,
                    "Serialization failed: verifying key is not canonical"@,
                ),
            )
        },
        KeyGeneration::Failed(detail) => Err(
            refusal(ErrorKind::SetupFailed, "Setup failed: "@ + detail@),
        ),
        KeyGeneration::EncodingFailed(detail) => Err(
            refusal(ErrorKind::SerializationError, "Serialization failed: "@ + detail@),
        ),
    }
}

/// What setup answers to a report on key generation.
pub open spec fn setup_result(backend: BackendType, generated: KeyGeneration) -> Result<
    (),
    Refusal,
> {
    match setup_outcome(backend, generated) {
        Ok(_) => Ok(()),
        Err(refused) => Err(refused),
    }
}

/// The keys an adapter holds after setup: the new pair, which replaces any
/// pair held before, or what it held before where setup is refused.
pub open spec fn keys_after_setup(
    backend: BackendType,
    before: Option<KeyMaterial>,
    generated: KeyGeneration,
) -> Option<KeyMaterial> {
    match setup_outcome(backend, generated) {
        Ok(material) => Some(material),
        Err(_) => before,
    }
}

/// What becomes of a report on proving `a * b`: the envelope, or the
/// refusal. The envelope holds the engine's proof and the numeral of the
/// product, and nothing else of the witness. It is handed out only if the
/// proof decodes and the verifier finds it valid for that product under the
/// stored verifying key.
pub open spec fn proving_outcome(
    backend: BackendType,
    keys: Option<KeyMaterial>,
    a: u64,
    b: u64,
    attempt: ProvingAttempt,
) -> Result<Envelope, Refusal> {
    if keys is None {
        Err(setup_missing())
    } else {
        match attempt {
            ProvingAttempt::Proved(bytes) => if !groth16::proof_decodes(backend, bytes@) {
                Err(
                    refusal(
                        ErrorKind::SerializationError,
                        "Serialization failed: proof is not canonical"@,
                    ),
                )
            } else if groth16::verdict(
                backend,
                keys->0.verifying_key,
                bytes@,
                decimal(a as nat * b as nat),
            ) != Some(true) {
                Err(refusal(ErrorKind::ProvingFailed, "Proving failed: proof does not verify"@))
            } else {
                Ok(
                    Envelope {
                        backend,
                        proof_bytes: bytes@,
                        public_inputs: seq![decimal(a as nat * b as nat)],
                    },
                )
            },
            ProvingAttempt::Failed(detail) => Err(
                refusal(ErrorKind::ProvingFailed, "Proving failed: "@ + detail@),
            ),
            ProvingAttempt::EncodingFailed(detail) => Err(
                refusal(ErrorKind::SerializationError, "Serialization failed: "@ + detail@),
            ),
        }
    }
}

/// Whether the public inputs fit the circuit: there is one of them, and it
/// is a canonical decimal numeral.
pub open spec fn public_inputs_well_formed(inputs: Seq<Seq<char>>) -> bool {
    inputs.len() == PUBLIC_INPUT_COUNT && is_canonical_decimal(inputs[0])
}

/// What the verifier's answer means to the caller. Without a verdict the
/// proof is refused as malformed.
pub open spec fn verdict_outcome(verdict: Option<bool>) -> Result<bool, Refusal> {
    match verdict {
        Some(valid) => Ok(valid),
        None => Err(refusal(ErrorKind::MalformedProof, "Verification failed"@)),
    }
}

/// What verifying an envelope comes to. The checks are made in this order:
/// keys, backend tag, proof encoding, public inputs, and then the
/// verifier's own verdict.
pub open spec fn verification_outcome(
    backend: BackendType,
    keys: Option<KeyMaterial>,
    envelope: Envelope,
) -> Result<bool, Refusal> {
    if keys is None {
        Err(setup_missing())
    } else if envelope.backend != backend {
        Err(refusal(ErrorKind::BackendMismatch, "Proof was issued by another backend"@))
    } else if !groth16::proof_decodes(backend, envelope.proof_bytes) {
        Err(refusal(ErrorKind::MalformedProof, "Deserialization failed"@))
    } else if !public_inputs_well_formed(envelope.public_inputs) {
        Err(refusal(ErrorKind::InvalidPublicInput, "Invalid public input"@))
    } else {
        verdict_outcome(
            groth16::verdict(
                backend,
                keys->0.verifying_key,
                envelope.proof_bytes,
                envelope.public_inputs[0],
            ),
        )
    }
}

/// What exporting the verifying key comes to.
pub open spec fn export_outcome(keys: Option<KeyMaterial>) -> Result<Seq<u8>, Refusal> {
    match keys {
        Some(material) => Ok(material.verifying_key),
        None => Err(setup_missing()),
    }
}

/// What asking for a proving request comes to.
pub open spec fn request_outcome(
    backend: BackendType,
    keys: Option<KeyMaterial>,
    a: u64,
    b: u64,
) -> Result<(BackendType, Seq<u8>, MultiplyCircuit), Refusal> {
    match keys {
        Some(material) => Ok(
            (backend, material.proving_key, MultiplyCircuit { a: Some(a), b: Some(b) }),
        ),
        None => Err(setup_missing()),
    }
}

pub open spec fn view_request(r: Result<ProvingRequest, ProverError>) -> Result<
    (BackendType, Seq<u8>, MultiplyCircuit),
    Refusal,
> {
    match r {
        Ok(request) => Ok((request.backend, request.proving_key@, request.circuit)),
        Err(error) => Err(error@),
    }
}

/// Copies a byte string.
pub fn copy_bytes(bytes: &Vec<u8>) -> (copy: Vec<u8>)
    ensures
        copy@ == bytes@,
{
    let mut copy: Vec<u8> = Vec::new();
    let mut i: usize = 0;
    while i < bytes.len()
        invariant
            i <= bytes.len(),
            copy@ == bytes@.take(i as int),
        decreases bytes.len() - i,
    {
        copy.push(bytes[i]);
        assert(copy@ =~= bytes@.take(i + 1));
        i += 1;
    }
    assert(bytes@.take(i as int) =~= bytes@);
    copy
}

/// Decides what to do with a report on key generation.
pub fn accept_keys(backend: BackendType, generated: KeyGeneration) -> (r: Result<
    KeyPair,
    ProverError,
>)
    ensures
        view_result(r) == setup_outcome(backend, generated),
{
    match generated {
        KeyGeneration::Generated(pair) => {
            if groth16::decode_key(backend, &pair.verifying_key) {
                Ok(pair)
            } else {
                Err(
                    ProverError::new(
                        ErrorKind::SerializationError,
                        "Serialization failed: verifying key is not canonical",
                    ),
                )
            }
        },
        KeyGeneration::Failed(detail) => Err(
            ProverError::with_detail(ErrorKind::SetupFailed, "Setup failed: ", detail.as_str()),
        ),
        KeyGeneration::EncodingFailed(detail) => Err(
            ProverError::with_detail(
                ErrorKind::SerializationError,
                "Serialization failed: ",
                detail.as_str(),
            ),
        ),
    }
}

/// Tells the engine what to prove, if there is a key to prove it with.
pub fn request_proof(backend: BackendType, keys: &Option<KeyPair>, a: u64, b: u64) -> (r: Result<
    ProvingRequest,
    ProverError,
>)
    ensures
        view_request(r) == request_outcome(backend, key_material(*keys), a, b),
{
    match keys {
        Some(pair) => Ok(
            ProvingRequest {
                backend,
                proving_key: copy_bytes(&pair.proving_key),
                circuit: MultiplyCircuit::with_witness(a, b),
            },
        ),
        None => Err(ProverError::new(ErrorKind::SetupMissing, "Setup not performed")),
    }
}

/// Seals the engine's proof of `a * b` into an envelope.
pub fn seal_proof(
    backend: BackendType,
    keys: &Option<KeyPair>,
    a: u64,
    b: u64,
    attempt: ProvingAttempt,
) -> (r: Result<UniversalProof, ProverError>)
    ensures
        view_result(r) == proving_outcome(backend, key_material(*keys), a, b, attempt),
{
    let pair = match keys {
        Some(pair) => pair,
        None => {
            return Err(ProverError::new(ErrorKind::SetupMissing, "Setup not performed"));
        },
    };
    match attempt {
        ProvingAttempt::Proved(bytes) => {
            if !groth16::decode_proof(backend, &bytes) {
                return Err(
                    ProverError::new(
                        ErrorKind::SerializationError,
                        "Serialization failed: proof is not canonical",
                    ),
                );
            }
            let numeral = public_input(a, b);
            match groth16::run_verifier(backend, &pair.verifying_key, &bytes, numeral.as_str()) {
                Some(true) => {},
                _ => {
                    return Err(
                        ProverError::new(
                            ErrorKind::ProvingFailed,
                            "Proving failed: proof does not verify",
                        ),
                    );
                },
            }
            let mut public_inputs: Vec<String> = Vec::new();
            public_inputs.push(numeral);
            let envelope = UniversalProof { backend, proof_bytes: bytes, public_inputs };
            assert(envelope@.public_inputs =~= seq![decimal(a as nat * b as nat)]);
            Ok(envelope)
        },
        ProvingAttempt::Failed(detail) => Err(
            ProverError::with_detail(ErrorKind::ProvingFailed, "Proving failed: ", detail.as_str()),
        ),
        ProvingAttempt::EncodingFailed(detail) => Err(
            ProverError::with_detail(
                ErrorKind::SerializationError,
                "Serialization failed: ",
                detail.as_str(),
            ),
        ),
    }
}

/// Turns the verifier's answer into the caller's result.
pub fn conclude(verdict: Option<bool>) -> (r: Result<bool, ProverError>)
    ensures
        view_result(r) == verdict_outcome(verdict),
{
    match verdict {
        Some(valid) => Ok(valid),
        None => Err(ProverError::new(ErrorKind::MalformedProof, "Verification failed")),
    }
}

/// Verifies an envelope against the stored verifying key.
pub fn check_envelope(backend: BackendType, keys: &Option<KeyPair>, envelope: &UniversalProof) -> (r:
    Result<bool, ProverError>)
    ensures
        view_result(r) == verification_outcome(backend, key_material(*keys), envelope@),
{
    let pair = match keys {
        Some(pair) => pair,
        None => {
            return Err(ProverError::new(ErrorKind::SetupMissing, "Setup not performed"));
        },
    };
    if envelope.backend != backend {
        return Err(
            ProverError::new(ErrorKind::BackendMismatch, "Proof was issued by another backend"),
        );
    }
    if !groth16::decode_proof(backend, &envelope.proof_bytes) {
        return Err(ProverError::new(ErrorKind::MalformedProof, "Deserialization failed"));
    }
    if envelope.public_inputs.len() != PUBLIC_INPUT_COUNT {
        return Err(ProverError::new(ErrorKind::InvalidPublicInput, "Invalid public input"));
    }
    let input = envelope.public_inputs[0].as_str();
    assert(input@ == envelope@.public_inputs[0]);
    if !is_decimal_numeral(input) {
        return Err(ProverError::new(ErrorKind::InvalidPublicInput, "Invalid public input"));
    }
    conclude(groth16::run_verifier(backend, &pair.verifying_key, &envelope.proof_bytes, input))
}

/// Hands out a copy of the stored verifying key.
pub fn export_verifying_key(keys: &Option<KeyPair>) -> (r: Result<Vec<u8>, ProverError>)
    ensures
        view_result(r) == export_outcome(key_material(*keys)),
{
    match keys {
        Some(pair) => Ok(copy_bytes(&pair.verifying_key)),
        None => Err(ProverError::new(ErrorKind::SetupMissing, "Setup not performed")),
    }
}

/// Before keys are stored, proving and verifying are refused for want of
/// setup, whatever the backend and whatever is asked.
pub proof fn law_nothing_works_before_setup(
    backend: BackendType,
    a: u64,
    b: u64,
    attempt: ProvingAttempt,
    envelope: Envelope,
)
    ensures
        proving_outcome(backend, None, a, b, attempt) == Err::<Envelope, Refusal>(setup_missing()),
        verification_outcome(backend, None, envelope) == Err::<bool, Refusal>(setup_missing()),
        request_outcome(backend, None, a, b) is Err,
        export_outcome(None) == Err::<Seq<u8>, Refusal>(setup_missing()),
        setup_missing().kind == ErrorKind::SetupMissing,
{
}

/// An adapter that holds keys refuses every envelope tagged with another
/// backend, whatever else the envelope holds.
pub proof fn law_foreign_envelopes_are_refused(
    backend: BackendType,
    keys: KeyMaterial,
    envelope: Envelope,
)
    requires
        envelope.backend != backend,
    ensures
        verification_outcome(backend, Some(keys), envelope) matches Err(e) && e.kind
            == ErrorKind::BackendMismatch,
{
}

/// Whatever the backend and the factors: an envelope that the adapter
/// sealed carries the numeral of the product as its one public input, and
/// the same adapter verifies it and finds it valid.
pub proof fn law_sealed_proofs_verify(
    backend: BackendType,
    keys: KeyMaterial,
    a: u64,
    b: u64,
    attempt: ProvingAttempt,
)
    requires
        proving_outcome(backend, Some(keys), a, b, attempt) is Ok,
    ensures
        ({
            let envelope = proving_outcome(backend, Some(keys), a, b, attempt)->Ok_0;
            &&& envelope.backend == backend
            &&& envelope.public_inputs == seq![decimal(a as nat * b as nat)]
            &&& verification_outcome(backend, Some(keys), envelope) == Ok::<bool, Refusal>(true)
        }),
{
    lemma_decimal_round_trip(a as nat * b as nat);
}

/// Changing the proof bytes of an envelope that was verified, and nothing
/// else, leaves two ways out: a verdict, or the refusal of a malformed
/// proof.
pub proof fn law_tampered_proofs_are_judged_or_malformed(
    backend: BackendType,
    keys: Option<KeyMaterial>,
    envelope: Envelope,
    tampered: Seq<u8>,
)
    requires
        verification_outcome(backend, keys, envelope) is Ok,
    ensures
        ({
            let changed = Envelope { proof_bytes: tampered, ..envelope };
            match verification_outcome(backend, keys, changed) {
                Ok(_) => true,
                Err(e) => e.kind == ErrorKind::MalformedProof,
            }
        }),
{
}

} // verus!
