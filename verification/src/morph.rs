//! Changing backend without losing the thread of state commitments.
//!
//! The controller keeps the backend in force, the latest commitment and one
//! adapter for each backend. Commitments form a chain: each hashes the one
//! before it, the digest of the proof that justified it, the backend it was
//! made under and the time. A morph moves the chain to another backend. It
//! is allowed by a migration proof: a proof under the old backend whose
//! public input is the tag of the latest commitment.

use vstd::prelude::*;

use crate::adapter::{
    copy_bytes, export_outcome, keys_after_setup, law_sealed_proofs_verify, proving_outcome,
    setup_outcome, setup_result, verification_outcome,
};
use crate::bls12_381_backend::BLS12_381Backend;
use crate::bn254_backend::BN254Backend;
use crate::decimal::{decimal, decimal_string};
use crate::digest::{
    commitment_hash, commitment_tag, compute_digest, derive_commitment_hash, digest,
    read_commitment_tag,
};
use crate::engine::{KeyGeneration, KeyMaterial, ProvingAttempt};
use crate::types::{
    refusal, view_result, BackendType, Envelope, ErrorKind, MorphRecord, ProverError, Refusal,
    StateCommitment, UniversalProof, _MorphResult,
};

verus! {

/// The controller of backend transitions.
pub struct _MorphController {
    pub current_backend: BackendType,
    pub state: Option<StateCommitment>,
    pub bn254: BN254Backend,
    pub bls12_381: BLS12_381Backend,
}

/// A morph that was refused: why, and the record of the attempt.
#[derive(Debug, Clone)]
pub struct MorphFailure {
    pub error: ProverError,
    pub result: _MorphResult,
}

/// How a morph ends.
pub enum MorphVerdict {
    /// There is no commitment to continue from.
    NoPriorState,
    /// The backend asked for is the one in force: nothing is to be done.
    Unchanged,
    /// The migration proof does not authorise the transition.
    ProofRejected,
    /// The new backend has no keys and none were brought.
    KeysMissing,
    /// The keys brought for the new backend were refused.
    KeysRefused(Refusal),
    /// The controller moves to the new backend.
    Committed,
}

/// The hash that the first commitment of a chain continues from.
pub open spec fn genesis() -> Seq<u8> {
    Seq::new(32, |i: int| 0u8)
}

/// The hash that the next commitment continues from.
pub open spec fn prior_hash(state: Option<StateCommitment>) -> Seq<u8> {
    match state {
        Some(commitment) => commitment.hash@,
        None => genesis(),
    }
}

/// The public input that a migration proof must carry for the commitment
/// with this hash.
pub open spec fn migration_statement(hash: Seq<u8>) -> Seq<char> {
    decimal(commitment_tag(hash))
}

/// Whether `proof` authorises leaving `backend`: it speaks of the
/// commitment with this hash, and `backend`'s adapter finds it valid.
pub open spec fn migration_accepted(
    backend: BackendType,
    keys: Option<KeyMaterial>,
    hash: Seq<u8>,
    proof: Envelope,
) -> bool {
    &&& proof.public_inputs == seq![migration_statement(hash)]
    &&& verification_outcome(backend, keys, proof) == Ok::<bool, Refusal>(true)
}

/// How a morph to `new_backend` ends, given what the controller holds.
pub open spec fn morph_verdict(
    current: BackendType,
    state: Option<StateCommitment>,
    old_keys: Option<KeyMaterial>,
    new_keys: Option<KeyMaterial>,
    new_backend: BackendType,
    proof: Envelope,
    fresh_keys: Option<KeyGeneration>,
) -> MorphVerdict {
    if state is None {
        MorphVerdict::NoPriorState
    } else if new_backend == current {
        MorphVerdict::Unchanged
    } else if !migration_accepted(current, old_keys, state->0.hash@, proof) {
        MorphVerdict::ProofRejected
    } else if new_keys is Some {
        MorphVerdict::Committed
    } else {
        match fresh_keys {
            None => MorphVerdict::KeysMissing,
            Some(generated) => match setup_outcome(new_backend, generated) {
                Ok(_) => MorphVerdict::Committed,
                Err(refused) => MorphVerdict::KeysRefused(refused),
            },
        }
    }
}

/// The refusal that goes with a verdict, if it is one.
pub open spec fn morph_refusal(verdict: MorphVerdict) -> Option<Refusal> {
    match verdict {
        MorphVerdict::NoPriorState => Some(
            refusal(ErrorKind::NoPriorState, "No prior state commitment"@),
        ),
        MorphVerdict::ProofRejected => Some(
            refusal(ErrorKind::MigrationProofInvalid, "Migration proof rejected"@),
        ),
        MorphVerdict::KeysMissing => Some(
            refusal(ErrorKind::SetupMissing, "Setup not performed"@),
        ),
        MorphVerdict::KeysRefused(refused) => Some(refused),
        MorphVerdict::Unchanged => None,
        MorphVerdict::Committed => None,
    }
}

/// The record of a morph that was refused.
pub open spec fn failure_record(old_backend: BackendType, new_backend: BackendType) -> MorphRecord {
    MorphRecord {
        success: false,
        old_backend,
        new_backend,
        state_preserved: false,
        proof_data: Seq::<u8>::empty(),
    }
}

/// The record of a morph that was carried out; `proof_data` holds the
/// migration proof, or nothing where there was nothing to do.
pub open spec fn success_record(
    old_backend: BackendType,
    new_backend: BackendType,
    proof_data: Seq<u8>,
) -> MorphRecord {
    MorphRecord { success: true, old_backend, new_backend, state_preserved: true, proof_data }
}

/// What a morph returns, as contracts see it.
pub open spec fn view_morph(r: Result<_MorphResult, MorphFailure>) -> Result<
    MorphRecord,
    (Refusal, MorphRecord),
> {
    match r {
        Ok(result) => Ok(result@),
        Err(failure) => Err((failure.error@, failure.result@)),
    }
}

/// Whether `state` holds exactly the commitment with these contents.
pub open spec fn holds_commitment(
    state: Option<StateCommitment>,
    hash: Seq<u8>,
    backend: BackendType,
    timestamp: u64,
) -> bool {
    state matches Some(commitment) && commitment.hash@ == hash && commitment.backend == backend
        && commitment.timestamp == timestamp
}

fn refuse(error: ProverError, old_backend: BackendType, new_backend: BackendType) -> (failure:
    MorphFailure)
    ensures
        failure.error == error,
        failure.result@ == failure_record(old_backend, new_backend),
{
    MorphFailure {
        error,
        result: _MorphResult {
            success: false,
            old_backend,
            new_backend,
            state_preserved: false,
            proof_data: Vec::new(),
        },
    }
}

impl _MorphController {
    /// The keys that the adapter of `backend` holds.
    pub open spec fn keys_of(&self, backend: BackendType) -> Option<KeyMaterial> {
        match backend {
            BackendType::BN254 => self.bn254@,
            BackendType::BLS12_381 => self.bls12_381@,
        }
    }

    /// A controller on `initial_backend`, with no commitment and no keys.
    pub fn _new(initial_backend: BackendType) -> (controller: Self)
        ensures
            controller.current_backend == initial_backend,
            controller.state is None,
            controller.keys_of(BackendType::BN254) is None,
            controller.keys_of(BackendType::BLS12_381) is None,
    {
        Self {
            current_backend: initial_backend,
            state: None,
            bn254: BN254Backend::new(),
            bls12_381: BLS12_381Backend::new(),
        }
    }

    /// Whether the adapter of `backend` holds keys.
    pub fn is_setup(&self, backend: BackendType) -> (ready: bool)
        ensures
            ready == (self.keys_of(backend) is Some),
    {
        match backend {
            BackendType::BN254 => self.bn254.is_setup(),
            BackendType::BLS12_381 => self.bls12_381.is_setup(),
        }
    }

    /// Hands a report on key generation to the adapter of `backend`.
    pub fn setup(&mut self, backend: BackendType, generated: KeyGeneration) -> (r: Result<
        (),
        ProverError,
    >)
        ensures
            view_result(r) == setup_result(backend, generated),
            final(self).keys_of(backend) == keys_after_setup(
                backend,
                old(self).keys_of(backend),
                generated,
            ),
            forall|other: BackendType|
                other != backend ==> final(self).keys_of(other) == old(self).keys_of(other),
            final(self).current_backend == old(self).current_backend,
            final(self).state == old(self).state,
    {
        match backend {
            BackendType::BN254 => self.bn254.setup(generated),
            BackendType::BLS12_381 => self.bls12_381.setup(generated),
        }
    }

    /// Verifies an envelope with the adapter of `backend`.
    pub fn verify(&self, backend: BackendType, proof: &UniversalProof) -> (r: Result<
        bool,
        ProverError,
    >)
        ensures
            view_result(r) == verification_outcome(backend, self.keys_of(backend), proof@),
    {
        match backend {
            BackendType::BN254 => self.bn254.verify(proof),
            BackendType::BLS12_381 => self.bls12_381.verify(proof),
        }
    }

    /// Seals the engine's proof of `a * b` under the backend in force and,
    /// if that succeeds, puts a new commitment at the head of the chain.
    /// On refusal nothing changes.
    pub fn prove(&mut self, a: u64, b: u64, attempt: ProvingAttempt, now: u64) -> (r: Result<
        UniversalProof,
        ProverError,
    >)
        ensures
            view_result(r) == proving_outcome(
                old(self).current_backend,
                old(self).keys_of(old(self).current_backend),
                a,
                b,
                attempt,
            ),
            final(self).current_backend == old(self).current_backend,
            forall|backend: BackendType| final(self).keys_of(backend) == old(self).keys_of(backend),
            r is Err ==> final(self).state == old(self).state,
            r matches Ok(envelope) ==> holds_commitment(
                final(self).state,
                commitment_hash(
                    prior_hash(old(self).state),
                    digest(envelope.proof_bytes@),
                    old(self).current_backend,
                    now,
                ),
                old(self).current_backend,
                now,
            ),
    {
        let sealed = match self.current_backend {
            BackendType::BN254 => self.bn254.prove(a, b, attempt),
            BackendType::BLS12_381 => self.bls12_381.prove(a, b, attempt),
        };
        match sealed {
            Ok(envelope) => {
                let prior = self.head();
                let proof_digest = compute_digest(envelope.proof_bytes.as_slice());
                let hash = derive_commitment_hash(
                    &prior,
                    &proof_digest,
                    self.current_backend,
                    now,
                );
                self.state = Some(
                    StateCommitment { hash, backend: self.current_backend, timestamp: now },
                );
                Ok(envelope)
            },
            Err(error) => Err(error),
        }
    }

    /// The hash that the next commitment continues from.
    pub fn head(&self) -> (hash: [u8; 32])
        ensures
            hash@ == prior_hash(self.state),
    {
        match &self.state {
            Some(commitment) => commitment.hash,
            None => {
                let zeros = [0u8;32];
                assert(zeros@ =~= genesis());
                zeros
            },
        }
    }

    /// The factors whose product a migration proof for the latest
    /// commitment has to be about, if there is a commitment.
    pub fn migration_witness(&self) -> (factors: Option<(u64, u64)>)
        ensures
            factors is Some <==> self.state is Some,
            factors matches Some((a, b)) ==> decimal(a as nat * b as nat) == migration_statement(
                self.state->0.hash@,
            ),
    {
        match &self.state {
            Some(commitment) => {
                let tag = read_commitment_tag(&commitment.hash);
                assert(1 * (tag as nat) == tag as nat);
                Some((1, tag))
            },
            None => None,
        }
    }

    /// Tells whether `proof` authorises leaving the backend in force.
    pub fn accepts_migration(&self, proof: &UniversalProof) -> (ok: bool)
        ensures
            ok == (self.state is Some && migration_accepted(
                self.current_backend,
                self.keys_of(self.current_backend),
                self.state->0.hash@,
                proof@,
            )),
    {
        let commitment = match &self.state {
            Some(commitment) => commitment,
            None => {
                return false;
            },
        };
        if proof.public_inputs.len() != 1 {
            return false;
        }
        let expected = decimal_string(read_commitment_tag(&commitment.hash) as u128);
        if !(proof.public_inputs[0] == expected) {
            assert(proof@.public_inputs[0] != migration_statement(commitment.hash@));
            return false;
        }
        assert(proof@.public_inputs =~= seq![migration_statement(commitment.hash@)]);
        match self.verify(self.current_backend, proof) {
            Ok(valid) => valid,
            Err(_) => false,
        }
    }

    /// Moves the controller to `new_backend`.
    ///
    /// The morph is carried out if there is a commitment, `migration_proof`
    /// authorises leaving the backend in force, and the new backend has
    /// keys: its own, or else those of `fresh_keys`, which are then stored.
    /// The new commitment hashes the old one, the digest of the migration
    /// proof, the new backend and `now`. Asking for the backend in force
    /// succeeds and changes nothing.
    ///
    /// A refused morph leaves the backend in force and the commitment as
    /// they were. The keys of the backend that is left are never touched.
    pub fn morph(
        &mut self,
        new_backend: BackendType,
        migration_proof: &UniversalProof,
        fresh_keys: Option<KeyGeneration>,
        now: u64,
    ) -> (r: Result<_MorphResult, MorphFailure>)
        ensures
            ({
                let old_backend = old(self).current_backend;
                let verdict = morph_verdict(
                    old_backend,
                    old(self).state,
                    old(self).keys_of(old_backend),
                    old(self).keys_of(new_backend),
                    new_backend,
                    migration_proof@,
                    fresh_keys,
                );
                &&& final(self).keys_of(old_backend) == old(self).keys_of(old_backend)
                &&& match verdict {
                    MorphVerdict::Committed => {
                        &&& view_morph(r) == Ok::<MorphRecord, (Refusal, MorphRecord)>(
                            success_record(old_backend, new_backend, migration_proof.proof_bytes@),
                        )
                        &&& final(self).current_backend == new_backend
                        &&& holds_commitment(
                            final(self).state,
                            commitment_hash(
                                old(self).state->0.hash@,
                                digest(migration_proof.proof_bytes@),
                                new_backend,
                                now,
                            ),
                            new_backend,
                            now,
                        )
                        &&& final(self).keys_of(new_backend) == if old(self).keys_of(new_backend)
                            is Some {
                            old(self).keys_of(new_backend)
                        } else {
                            keys_after_setup(new_backend, None, fresh_keys->0)
                        }
                    },
                    MorphVerdict::Unchanged => {
                        &&& view_morph(r) == Ok::<MorphRecord, (Refusal, MorphRecord)>(
                            success_record(old_backend, new_backend, Seq::<u8>::empty()),
                        )
                        &&& final(self).current_backend == old_backend
                        &&& final(self).state == old(self).state
                        &&& final(self).keys_of(new_backend) == old(self).keys_of(new_backend)
                    },
                    _ => {
                        &&& view_morph(r) == Err::<MorphRecord, (Refusal, MorphRecord)>(
                            (morph_refusal(verdict)->0, failure_record(old_backend, new_backend)),
                        )
                        &&& final(self).current_backend == old_backend
                        &&& final(self).state == old(self).state
                        &&& final(self).keys_of(new_backend) == old(self).keys_of(new_backend)
                    },
                }
            }),
    {
        let old_backend = self.current_backend;
        let commitment = match &self.state {
            Some(commitment) => *commitment,
            None => {
                return Err(
                    refuse(
                        ProverError::new(ErrorKind::NoPriorState, "No prior state commitment"),
                        old_backend,
                        new_backend,
                    ),
                );
            },
        };
        if new_backend == old_backend {
            return Ok(
                _MorphResult {
                    success: true,
                    old_backend,
                    new_backend,
                    state_preserved: true,
                    proof_data: Vec::new(),
                },
            );
        }
        if !self.accepts_migration(migration_proof) {
            return Err(
                refuse(
                    ProverError::new(ErrorKind::MigrationProofInvalid, "Migration proof rejected"),
                    old_backend,
                    new_backend,
                ),
            );
        }
        if !self.is_setup(new_backend) {
            match fresh_keys {
                None => {
                    return Err(
                        refuse(
                            ProverError::new(ErrorKind::SetupMissing, "Setup not performed"),
                            old_backend,
                            new_backend,
                        ),
                    );
                },
                Some(generated) => {
                    match self.setup(new_backend, generated) {
                        Ok(()) => {},
                        Err(error) => {
                            return Err(refuse(error, old_backend, new_backend));
                        },
                    }
                },
            }
        }
        let proof_digest = compute_digest(migration_proof.proof_bytes.as_slice());
        let hash = derive_commitment_hash(&commitment.hash, &proof_digest, new_backend, now);
        self.state = Some(StateCommitment { hash, backend: new_backend, timestamp: now });
        self.current_backend = new_backend;
        Ok(
            _MorphResult {
                success: true,
                old_backend,
                new_backend,
                state_preserved: true,
                proof_data: copy_bytes(&migration_proof.proof_bytes),
            },
        )
    }
}

/// A morph whose migration proof is not accepted is refused as such, with a
/// record that says the state was not preserved, whatever else is asked.
pub proof fn law_rejected_proof_refuses_morph(
    current: BackendType,
    state: StateCommitment,
    old_keys: Option<KeyMaterial>,
    new_keys: Option<KeyMaterial>,
    new_backend: BackendType,
    proof: Envelope,
    fresh_keys: Option<KeyGeneration>,
)
    requires
        new_backend != current,
        !migration_accepted(current, old_keys, state.hash@, proof),
    ensures
        morph_verdict(current, Some(state), old_keys, new_keys, new_backend, proof, fresh_keys)
            == MorphVerdict::ProofRejected,
        morph_refusal(MorphVerdict::ProofRejected)->0.kind == ErrorKind::MigrationProofInvalid,
        !failure_record(current, new_backend).state_preserved,
        !failure_record(current, new_backend).success,
{
}

/// A morph never touches the keys of the backend it leaves. So a proof that
/// the adapter of that backend sealed before the morph is still found valid
/// by it afterwards, and the verifying key it exports is still the one the
/// proof was sealed under.
pub proof fn law_proofs_outlive_the_morph(
    backend: BackendType,
    keys_before: KeyMaterial,
    keys_after: Option<KeyMaterial>,
    a: u64,
    b: u64,
    attempt: ProvingAttempt,
)
    requires
        proving_outcome(backend, Some(keys_before), a, b, attempt) is Ok,
        keys_after == Some(keys_before),
    ensures
        verification_outcome(
            backend,
            keys_after,
            proving_outcome(backend, Some(keys_before), a, b, attempt)->Ok_0,
        ) == Ok::<bool, Refusal>(true),
        export_outcome(keys_after) == Ok::<Seq<u8>, Refusal>(keys_before.verifying_key),
{
    law_sealed_proofs_verify(backend, keys_before, a, b, attempt);
}

} // verus!
