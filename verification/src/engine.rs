//! What passes between an adapter and the proving engine.
//!
//! Generating keys and proofs means synthesising the circuit's constraints
//! and running the proof system's generator and prover. That work is done
//! by a proving engine beside this library. An adapter tells the engine
//! what to do, takes what the engine reports, and decides what follows.
//! Keys and proofs pass in their canonical compressed encoding.

use vstd::prelude::*;

use crate::circuit::MultiplyCircuit;
use crate::types::BackendType;

verus! {

/// A proving key and the verifying key that was generated with it.
#[derive(Debug, Clone)]
pub struct KeyPair {
    pub proving_key: Vec<u8>,
    pub verifying_key: Vec<u8>,
}

/// The mathematical content of a [`KeyPair`].
pub struct KeyMaterial {
    pub proving_key: Seq<u8>,
    pub verifying_key: Seq<u8>,
}

impl View for KeyPair {
    type V = KeyMaterial;

    open spec fn view(&self) -> KeyMaterial {
        KeyMaterial { proving_key: self.proving_key@, verifying_key: self.verifying_key@ }
    }
}

/// The keys that are stored, if any, as contracts see them.
pub open spec fn key_material(keys: Option<KeyPair>) -> Option<KeyMaterial> {
    match keys {
        Some(pair) => Some(pair@),
        None => None,
    }
}

/// What the engine reports after it was asked for keys.
#[derive(Debug, Clone)]
pub enum KeyGeneration {
    /// The generator ran and both keys were encoded.
    Generated(KeyPair),
    /// The generator failed; the text says how.
    Failed(String),
    /// The generator ran but a key could not be encoded.
    EncodingFailed(String),
}

/// What the engine reports after it was asked for a proof.
#[derive(Debug, Clone)]
pub enum ProvingAttempt {
    /// The prover ran and the proof was encoded.
    Proved(Vec<u8>),
    /// Synthesis or the prover failed; the text says how.
    Failed(String),
    /// The prover ran but the proof could not be encoded.
    EncodingFailed(String),
}

/// What an adapter asks the engine to prove, and with which key.
#[derive(Debug, Clone)]
pub struct ProvingRequest {
    pub backend: BackendType,
    pub proving_key: Vec<u8>,
    pub circuit: MultiplyCircuit,
}

} // verus!
