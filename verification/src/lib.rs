pub mod adapter;
pub mod bls12_381_backend;
pub mod bn254_backend;
pub mod circuit;
pub mod decimal;
pub mod digest;
pub mod engine;
pub mod groth16;
pub mod morph;
pub mod types;
