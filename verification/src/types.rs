//! Identifiers, envelopes, commitments and errors shared by every backend.

use vstd::prelude::*;
use vstd::string::StringExecFns;

verus! {

/// The closed set of curve instantiations the prover can run on.
#[allow(non_camel_case_types)]
#[derive(Debug, Clone, Copy, PartialEq, Eq, Structural)]
pub enum BackendType {
    BN254,
    BLS12_381,
}

impl BackendType {
    /// Human-readable name of the curve.
    pub open spec fn spec_name(&self) -> Seq<char> {
        match self {
            BackendType::BN254 => "BN254"@,
            BackendType::BLS12_381 => "BLS12-381"@,
        }
    }

    /// Claimed security strength of the curve, in bits.
    pub open spec fn spec_security_bits(&self) -> u32 {
        match self {
            BackendType::BN254 => 100,
            BackendType::BLS12_381 => 128,
        }
    }

    /// The byte that stands for the backend wherever it is hashed.
    pub open spec fn spec_tag(&self) -> u8 {
        match self {
            BackendType::BN254 => 1,
            BackendType::BLS12_381 => 2,
        }
    }

    pub fn name(&self) -> (name: &'static str)
        ensures
            name@ == self.spec_name(),
    {
        match self {
            BackendType::BN254 => "BN254",
            BackendType::BLS12_381 => "BLS12-381",
        }
    }

    #[verifier::when_used_as_spec(spec_security_bits)]
    pub fn security_bits(&self) -> (bits: u32)
        ensures
            bits == self.spec_security_bits(),
    {
        match self {
            BackendType::BN254 => 100,
            BackendType::BLS12_381 => 128,
        }
    }

    #[verifier::when_used_as_spec(spec_tag)]
    pub fn tag(&self) -> (tag: u8)
        ensures
            tag == self.spec_tag(),
    {
        match self {
            BackendType::BN254 => 1,
            BackendType::BLS12_381 => 2,
        }
    }
}

/// Why an operation was refused.
#[derive(Debug, Clone, Copy, PartialEq, Eq, Structural)]
pub enum ErrorKind {
    /// Keys are needed and none are stored.
    SetupMissing,
    /// Key generation did not produce a key pair.
    SetupFailed,
    /// The proving engine could not produce a proof.
    ProvingFailed,
    /// A key or a proof could not be encoded or decoded.
    SerializationError,
    /// The envelope is tagged with another backend.
    BackendMismatch,
    /// The proof bytes are not a proof of this backend.
    MalformedProof,
    /// A public input is not a field element of this backend.
    InvalidPublicInput,
    /// There is no commitment to continue from.
    NoPriorState,
    /// The migration proof does not authorise the transition.
    MigrationProofInvalid,
}

/// A refusal: its kind, and a diagnostic message for people.
#[derive(Debug, Clone)]
pub struct ProverError {
    pub kind: ErrorKind,
    pub message: String,
}

/// The mathematical content of a [`ProverError`].
pub struct Refusal {
    pub kind: ErrorKind,
    pub message: Seq<char>,
}

impl View for ProverError {
    type V = Refusal;

    open spec fn view(&self) -> Refusal {
        Refusal { kind: self.kind, message: self.message@ }
    }
}

/// A result as contracts see it: the view of the value, or of the error.
pub open spec fn view_result<T: View>(r: Result<T, ProverError>) -> Result<T::V, Refusal> {
    match r {
        Ok(value) => Ok(value@),
        Err(error) => Err(error@),
    }
}

/// The refusal of the given kind with the given message.
pub open spec fn refusal(kind: ErrorKind, message: Seq<char>) -> Refusal {
    Refusal { kind, message }
}

impl ProverError {
    pub fn new(kind: ErrorKind, message: &str) -> (e: ProverError)
        ensures
            e@ == refusal(kind, message@),
    {
        ProverError { kind, message: String::from_str(message) }
    }

    /// An error whose message is `prefix` followed by `detail`.
    pub fn with_detail(kind: ErrorKind, prefix: &str, detail: &str) -> (e: ProverError)
        ensures
            e@ == refusal(kind, prefix@ + detail@),
    {
        let mut message = String::from_str(prefix);
        message.append(detail);
        ProverError { kind, message }
    }
}

/// A proof in transit: the backend that issued it, the backend's own
/// encoding of the proof, and the public inputs as decimal numerals.
#[derive(Debug, Clone)]
pub struct UniversalProof {
    pub backend: BackendType,
    pub proof_bytes: Vec<u8>,
    pub public_inputs: Vec<String>,
}

/// The mathematical content of a [`UniversalProof`].
pub struct Envelope {
    pub backend: BackendType,
    pub proof_bytes: Seq<u8>,
    pub public_inputs: Seq<Seq<char>>,
}

impl View for UniversalProof {
    type V = Envelope;

    open spec fn view(&self) -> Envelope {
        Envelope {
            backend: self.backend,
            proof_bytes: self.proof_bytes@,
            public_inputs: self.public_inputs.deep_view(),
        }
    }
}

/// A snapshot of application state: a hash, the backend in force when it
/// was taken, and the time in seconds since the epoch.
#[derive(Debug, Clone, Copy, PartialEq, Eq)]
pub struct StateCommitment {
    pub hash: [u8; 32],
    pub backend: BackendType,
    pub timestamp: u64,
}

/// The record of one attempt to change backend.
#[derive(Debug, Clone)]
pub struct _MorphResult {
    pub success: bool,
    pub old_backend: BackendType,
    pub new_backend: BackendType,
    pub state_preserved: bool,
    pub proof_data: Vec<u8>,
}

/// The mathematical content of a [`_MorphResult`].
pub struct MorphRecord {
    pub success: bool,
    pub old_backend: BackendType,
    pub new_backend: BackendType,
    pub state_preserved: bool,
    pub proof_data: Seq<u8>,
}

impl View for _MorphResult {
    type V = MorphRecord;

    open spec fn view(&self) -> MorphRecord {
        MorphRecord {
            success: self.success,
            old_backend: self.old_backend,
            new_backend: self.new_backend,
            state_preserved: self.state_preserved,
            proof_data: self.proof_data@,
        }
    }
}

} // verus!
