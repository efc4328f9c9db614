//! ML-KEM key encapsulation for the three FIPS 203 parameter sets, with
//! verified parameter selection, input validation and command handling.
//!
//! The cryptographic primitives are those of the PQClean implementation in
//! `pqcrypto-mlkem`; this crate proves the selection of parameter sets, the
//! validation of serialized objects, the error that each malformed input
//! receives, and the JSON command contract built on top of them.

pub mod params;
pub mod backend;
pub mod kem;
pub mod laws;
pub mod seeds;
pub mod encoding;
pub mod cli;

pub use kem::{
    decapsulate, decapsulate_for, encapsulate, encapsulate_for, generate_keypair,
    generate_keypair_for, Encapsulation, KeyPair, SecretBytes,
};
pub use params::{
    Algorithm, Error, ALGORITHM, CIPHERTEXT_BYTES, PUBLIC_KEY_BYTES, SECRET_KEY_BYTES,
    SHARED_SECRET_BYTES,
};
