//! The calls into the PQClean ML-KEM implementation of `pqcrypto-mlkem`.
//!
//! Each wrapper takes and returns serialized bytes. Callers hand over objects
//! of exactly the standardized length, so the crate's `from_bytes` decoding
//! cannot fail inside them. Key generation and encapsulation draw their
//! coins from the operating system through `pqcrypto-internals`, which panics
//! only if the system's random number generator fails.

use pqcrypto_mlkem::{mlkem1024, mlkem512, mlkem768};
use pqcrypto_traits::kem::{Ciphertext, PublicKey, SecretKey, SharedSecret};
use vstd::prelude::*;

verus! {

/// The shared secret that ML-KEM-512 decapsulation (FIPS 203, with implicit
/// rejection) derives from a ciphertext and a secret key.
pub uninterp spec fn mlkem512_decapsulation(ciphertext: Seq<u8>, secret_key: Seq<u8>) -> Seq<u8>;

/// The shared secret that ML-KEM-768 decapsulation derives from a ciphertext
/// and a secret key.
pub uninterp spec fn mlkem768_decapsulation(ciphertext: Seq<u8>, secret_key: Seq<u8>) -> Seq<u8>;

/// The shared secret that ML-KEM-1024 decapsulation derives from a ciphertext
/// and a secret key.
pub uninterp spec fn mlkem1024_decapsulation(ciphertext: Seq<u8>, secret_key: Seq<u8>) -> Seq<u8>;

/// Whether `(public_key, secret_key)` is an output of ML-KEM-512 key
/// generation (FIPS 203 `ML-KEM.KeyGen_internal(d, z)`) for some seeds `d`
/// and `z`.
pub uninterp spec fn is_mlkem512_key_pair(public_key: Seq<u8>, secret_key: Seq<u8>) -> bool;

/// Whether `(public_key, secret_key)` is an output of ML-KEM-768 key
/// generation for some seeds.
pub uninterp spec fn is_mlkem768_key_pair(public_key: Seq<u8>, secret_key: Seq<u8>) -> bool;

/// Whether `(public_key, secret_key)` is an output of ML-KEM-1024 key
/// generation for some seeds.
pub uninterp spec fn is_mlkem1024_key_pair(public_key: Seq<u8>, secret_key: Seq<u8>) -> bool;

/// Whether `(ciphertext, shared_secret)` is an ML-KEM-512 encapsulation to
/// `public_key` (FIPS 203 `ML-KEM.Encaps_internal(ek, m)`) for some coins `m`.
pub uninterp spec fn is_mlkem512_encapsulation(public_key: Seq<u8>, ciphertext: Seq<u8>, shared_secret: Seq<u8>) -> bool;

/// Whether `(ciphertext, shared_secret)` is an ML-KEM-768 encapsulation to
/// `public_key` for some coins.
pub uninterp spec fn is_mlkem768_encapsulation(public_key: Seq<u8>, ciphertext: Seq<u8>, shared_secret: Seq<u8>) -> bool;

/// Whether `(ciphertext, shared_secret)` is an ML-KEM-1024 encapsulation to
/// `public_key` for some coins.
pub uninterp spec fn is_mlkem1024_encapsulation(public_key: Seq<u8>, ciphertext: Seq<u8>, shared_secret: Seq<u8>) -> bool;

/// SHA3-256 (FIPS 202), the hash `H` that PQClean's key generation applies to
/// the public key before storing it in the secret key.
pub uninterp spec fn sha3_256(bytes: Seq<u8>) -> Seq<u8>;

/// Calls `pqcrypto_mlkem::mlkem512::keypair` and serializes both keys with
/// `as_bytes`. The keys are drawn from the system's randomness; what holds of
/// every outcome is the FIPS 203 layout that PQClean's `keypair_derand`
/// writes: the secret key holds, after the 768-byte decryption key, the
/// public key and then its SHA3-256 hash; and the pair is an ML-KEM-512
/// key-generation output for some seeds.
#[verifier::external_body]
pub(crate) fn mlkem512_keypair() -> (keys: (Vec<u8>, Vec<u8>))
    ensures
        keys.0@.len() == 800,
        keys.1@.len() == 1632,
        keys.1@.subrange(768, 1568) == keys.0@,
        keys.1@.subrange(1568, 1600) == sha3_256(keys.0@),
        is_mlkem512_key_pair(keys.0@, keys.1@),
{
    let (public_key, secret_key) = mlkem512::keypair();
    (public_key.as_bytes().to_vec(), secret_key.as_bytes().to_vec())
}

/// Calls `pqcrypto_mlkem::mlkem768::keypair`. Of the random keys, their sizes
/// and the FIPS 203 layout are stated: after the 1152-byte decryption key the
/// secret key holds the public key and its SHA3-256 hash; and the pair is an
/// ML-KEM-768 key-generation output for some seeds.
#[verifier::external_body]
pub(crate) fn mlkem768_keypair() -> (keys: (Vec<u8>, Vec<u8>))
    ensures
        keys.0@.len() == 1184,
        keys.1@.len() == 2400,
        keys.1@.subrange(1152, 2336) == keys.0@,
        keys.1@.subrange(2336, 2368) == sha3_256(keys.0@),
        is_mlkem768_key_pair(keys.0@, keys.1@),
{
    let (public_key, secret_key) = mlkem768::keypair();
    (public_key.as_bytes().to_vec(), secret_key.as_bytes().to_vec())
}

/// Calls `pqcrypto_mlkem::mlkem1024::keypair`. Of the random keys, their sizes
/// and the FIPS 203 layout are stated: after the 1536-byte decryption key the
/// secret key holds the public key and its SHA3-256 hash; and the pair is an
/// ML-KEM-1024 key-generation output for some seeds.
#[verifier::external_body]
pub(crate) fn mlkem1024_keypair() -> (keys: (Vec<u8>, Vec<u8>))
    ensures
        keys.0@.len() == 1568,
        keys.1@.len() == 3168,
        keys.1@.subrange(1536, 3104) == keys.0@,
        keys.1@.subrange(3104, 3136) == sha3_256(keys.0@),
        is_mlkem1024_key_pair(keys.0@, keys.1@),
{
    let (public_key, secret_key) = mlkem1024::keypair();
    (public_key.as_bytes().to_vec(), secret_key.as_bytes().to_vec())
}

/// Decodes an 800-byte public key with `PublicKey::from_bytes` and calls
/// `pqcrypto_mlkem::mlkem512::encapsulate`, returning the ciphertext and the
/// shared secret. Encapsulation draws fresh coins, so what is stated is what
/// holds of every outcome: the sizes, and that the outputs are an ML-KEM-512
/// encapsulation to the given key. That the secret key of that public key
/// decapsulates the ciphertext to the same secret is not stated: ML-KEM has
/// a (negligible) decryption-failure rate.
#[verifier::external_body]
pub(crate) fn mlkem512_encapsulate(public_key: &[u8]) -> (out: (Vec<u8>, Vec<u8>))
    requires
        public_key@.len() == 800,
    ensures
        out.0@.len() == 768,
        out.1@.len() == 32,
        is_mlkem512_encapsulation(public_key@, out.0@, out.1@),
{
    let public_key = mlkem512::PublicKey::from_bytes(public_key).expect("800-byte public key");
    let (shared_secret, ciphertext) = mlkem512::encapsulate(&public_key);
    (ciphertext.as_bytes().to_vec(), shared_secret.as_bytes().to_vec())
}

/// Decodes a 1184-byte public key and calls
/// `pqcrypto_mlkem::mlkem768::encapsulate`; the outputs have the standard
/// sizes and are an ML-KEM-768 encapsulation to the given key for some coins.
#[verifier::external_body]
pub(crate) fn mlkem768_encapsulate(public_key: &[u8]) -> (out: (Vec<u8>, Vec<u8>))
    requires
        public_key@.len() == 1184,
    ensures
        out.0@.len() == 1088,
        out.1@.len() == 32,
        is_mlkem768_encapsulation(public_key@, out.0@, out.1@),
{
    let public_key = mlkem768::PublicKey::from_bytes(public_key).expect("1184-byte public key");
    let (shared_secret, ciphertext) = mlkem768::encapsulate(&public_key);
    (ciphertext.as_bytes().to_vec(), shared_secret.as_bytes().to_vec())
}

/// Decodes a 1568-byte public key and calls
/// `pqcrypto_mlkem::mlkem1024::encapsulate`; the outputs have the standard
/// sizes and are an ML-KEM-1024 encapsulation to the given key for some coins.
#[verifier::external_body]
pub(crate) fn mlkem1024_encapsulate(public_key: &[u8]) -> (out: (Vec<u8>, Vec<u8>))
    requires
        public_key@.len() == 1568,
    ensures
        out.0@.len() == 1568,
        out.1@.len() == 32,
        is_mlkem1024_encapsulation(public_key@, out.0@, out.1@),
{
    let public_key = mlkem1024::PublicKey::from_bytes(public_key).expect("1568-byte public key");
    let (shared_secret, ciphertext) = mlkem1024::encapsulate(&public_key);
    (ciphertext.as_bytes().to_vec(), shared_secret.as_bytes().to_vec())
}

/// Decodes a 768-byte ciphertext and a 1632-byte secret key with `from_bytes`
/// and calls `pqcrypto_mlkem::mlkem512::decapsulate`. The 32-byte result is
/// the named decapsulation of the two inputs.
#[verifier::external_body]
pub(crate) fn mlkem512_decapsulate(ciphertext: &[u8], secret_key: &[u8]) -> (shared_secret: Vec<u8>)
    requires
        ciphertext@.len() == 768,
        secret_key@.len() == 1632,
    ensures
        shared_secret@ == mlkem512_decapsulation(ciphertext@, secret_key@),
        shared_secret@.len() == 32,
{
    let secret_key = mlkem512::SecretKey::from_bytes(secret_key).expect("1632-byte secret key");
    let ciphertext = mlkem512::Ciphertext::from_bytes(ciphertext).expect("768-byte ciphertext");
    mlkem512::decapsulate(&ciphertext, &secret_key).as_bytes().to_vec()
}

/// Decodes a 1088-byte ciphertext and a 2400-byte secret key and calls
/// `pqcrypto_mlkem::mlkem768::decapsulate`; the 32-byte result is the named
/// decapsulation of the two inputs.
#[verifier::external_body]
pub(crate) fn mlkem768_decapsulate(ciphertext: &[u8], secret_key: &[u8]) -> (shared_secret: Vec<u8>)
    requires
        ciphertext@.len() == 1088,
        secret_key@.len() == 2400,
    ensures
        shared_secret@ == mlkem768_decapsulation(ciphertext@, secret_key@),
        shared_secret@.len() == 32,
{
    let secret_key = mlkem768::SecretKey::from_bytes(secret_key).expect("2400-byte secret key");
    let ciphertext = mlkem768::Ciphertext::from_bytes(ciphertext).expect("1088-byte ciphertext");
    mlkem768::decapsulate(&ciphertext, &secret_key).as_bytes().to_vec()
}

/// Decodes a 1568-byte ciphertext and a 3168-byte secret key and calls
/// `pqcrypto_mlkem::mlkem1024::decapsulate`; the 32-byte result is the named
/// decapsulation of the two inputs.
#[verifier::external_body]
pub(crate) fn mlkem1024_decapsulate(ciphertext: &[u8], secret_key: &[u8]) -> (shared_secret: Vec<u8>)
    requires
        ciphertext@.len() == 1568,
        secret_key@.len() == 3168,
    ensures
        shared_secret@ == mlkem1024_decapsulation(ciphertext@, secret_key@),
        shared_secret@.len() == 32,
{
    let secret_key = mlkem1024::SecretKey::from_bytes(secret_key).expect("3168-byte secret key");
    let ciphertext = mlkem1024::Ciphertext::from_bytes(ciphertext).expect("1568-byte ciphertext");
    mlkem1024::decapsulate(&ciphertext, &secret_key).as_bytes().to_vec()
}

} // verus!
