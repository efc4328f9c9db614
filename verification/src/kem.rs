//! Key generation, encapsulation and decapsulation over serialized objects.

use vstd::prelude::*;

use crate::backend::{
    mlkem1024_decapsulate, mlkem1024_decapsulation, mlkem1024_encapsulate, mlkem1024_keypair,
    mlkem512_decapsulate, mlkem512_decapsulation, mlkem512_encapsulate, mlkem512_keypair,
    mlkem768_decapsulate, mlkem768_decapsulation, mlkem768_encapsulate, mlkem768_keypair,
    is_mlkem1024_encapsulation, is_mlkem1024_key_pair, is_mlkem512_encapsulation,
    is_mlkem512_key_pair, is_mlkem768_encapsulation, is_mlkem768_key_pair, sha3_256,
};
use crate::params::{Algorithm, Error};

verus! {

/// Secret material: a private key or a shared secret. The bytes are only
/// reachable through `expose`, and they are overwritten when dropped.
#[derive(Debug, PartialEq, Eq)]
pub struct SecretBytes(Vec<u8>);

impl View for SecretBytes {
    type V = Seq<u8>;

    closed spec fn view(&self) -> Seq<u8> {
        self.0@
    }
}

/// Calls `<[u8]>::fill` with zero, which overwrites every byte of the
/// buffer and keeps its length.
#[verifier::external_body]
fn zero_fill(bytes: &mut Vec<u8>)
    ensures
        final(bytes)@ == Seq::new(old(bytes)@.len(), |i: int| 0u8),
    opens_invariants none
    no_unwind
{
    bytes.fill(0);
}

/// Calls `std::hint::black_box` on the buffer, which keeps it observable so
/// that the writes that wiped it are not removed as dead stores.
#[verifier::external_body]
fn retain_wiped(bytes: &Vec<u8>)
    opens_invariants none
    no_unwind
{
    std::hint::black_box(bytes);
}

impl SecretBytes {
    /// Takes ownership of freshly produced secret bytes.
    pub(crate) fn new(bytes: Vec<u8>) -> (secret: SecretBytes)
        ensures
            secret@ == bytes@,
    {
        SecretBytes(bytes)
    }

    /// Borrows the secret for an immediate cryptographic operation.
    ///
    /// Callers must not log, persist or otherwise expose the returned bytes.
    pub fn expose(&self) -> (bytes: &[u8])
        ensures
            bytes@ == self@,
    {
        self.0.as_slice()
    }
}

impl Drop for SecretBytes {
    /// Overwrites every byte of the secret with zero before it is released.
    fn drop(&mut self)
        ensures
            final(self)@ == Seq::new(old(self)@.len(), |i: int| 0u8),
        opens_invariants none
        no_unwind
    {
        zero_fill(&mut self.0);
        retain_wiped(&self.0);
    }
}


/// A freshly generated key pair: the serialized public (encapsulation) key
/// and the serialized secret (decapsulation) key.
#[derive(Debug, PartialEq, Eq)]
pub struct KeyPair {
    pub public_key: Vec<u8>,
    pub secret_key: SecretBytes,
}

/// The result of encapsulating to a public key: the ciphertext to transmit
/// and the shared secret it carries, under the selected parameter set.
#[derive(Debug, PartialEq, Eq)]
pub struct Encapsulation {
    pub algorithm: Algorithm,
    pub ciphertext: Vec<u8>,
    pub shared_secret: SecretBytes,
}

/// The shared secret that decapsulation under `algorithm` derives from a
/// well-sized ciphertext and secret key.
pub open spec fn spec_decapsulation(algorithm: Algorithm, ciphertext: Seq<u8>, secret_key: Seq<u8>) -> Seq<u8> {
    match algorithm {
        Algorithm::MlKem512 => mlkem512_decapsulation(ciphertext, secret_key),
        Algorithm::MlKem768 => mlkem768_decapsulation(ciphertext, secret_key),
        Algorithm::MlKem1024 => mlkem1024_decapsulation(ciphertext, secret_key),
    }
}

/// What `decapsulate_for` answers: the secret key is checked first, then the
/// ciphertext; inputs of the standardized sizes always yield a secret, so an
/// altered ciphertext is answered by implicit rejection, never by an error.
pub open spec fn decapsulation_outcome(algorithm: Algorithm, ciphertext: Seq<u8>, secret_key: Seq<u8>) -> Result<Seq<u8>, Error> {
    if secret_key.len() != algorithm.spec_secret_key_bytes() {
        Err(Error::InvalidSecretKey)
    } else if ciphertext.len() != algorithm.spec_ciphertext_bytes() {
        Err(Error::InvalidCiphertext)
    } else {
        Ok(spec_decapsulation(algorithm, ciphertext, secret_key))
    }
}

/// Whether the keys are a key-generation output of `algorithm` for some seeds.
pub open spec fn spec_is_key_pair(algorithm: Algorithm, public_key: Seq<u8>, secret_key: Seq<u8>) -> bool {
    match algorithm {
        Algorithm::MlKem512 => is_mlkem512_key_pair(public_key, secret_key),
        Algorithm::MlKem768 => is_mlkem768_key_pair(public_key, secret_key),
        Algorithm::MlKem1024 => is_mlkem1024_key_pair(public_key, secret_key),
    }
}

/// Whether `(ciphertext, shared_secret)` is an encapsulation of `algorithm`
/// to `public_key` for some coins.
pub open spec fn spec_is_encapsulation(
    algorithm: Algorithm,
    public_key: Seq<u8>,
    ciphertext: Seq<u8>,
    shared_secret: Seq<u8>,
) -> bool {
    match algorithm {
        Algorithm::MlKem512 => is_mlkem512_encapsulation(public_key, ciphertext, shared_secret),
        Algorithm::MlKem768 => is_mlkem768_encapsulation(public_key, ciphertext, shared_secret),
        Algorithm::MlKem1024 => is_mlkem1024_encapsulation(public_key, ciphertext, shared_secret),
    }
}

/// A key pair as generated for `algorithm`: a key-generation output of that
/// parameter set, with the standardized sizes and the FIPS 203 layout in
/// which the secret key holds, right after the decryption key, the public
/// key followed by its SHA3-256 hash.
pub open spec fn generated_key_pair(algorithm: Algorithm, public_key: Seq<u8>, secret_key: Seq<u8>) -> bool {
    let offset = algorithm.spec_decryption_key_bytes() as int;
    let end = offset + algorithm.spec_public_key_bytes();
    &&& public_key.len() == algorithm.spec_public_key_bytes()
    &&& secret_key.len() == algorithm.spec_secret_key_bytes()
    &&& secret_key.subrange(offset, end) == public_key
    &&& secret_key.subrange(end, end + 32) == sha3_256(public_key)
    &&& spec_is_key_pair(algorithm, public_key, secret_key)
}

/// What `encapsulate_for` answers: an error exactly when the public key does
/// not have the standardized size, otherwise an encapsulation to that key
/// (for some coins) with the standardized sizes, tagged with the parameter
/// set.
pub open spec fn encapsulation_answer(algorithm: Algorithm, public_key: Seq<u8>, result: Result<Encapsulation, Error>) -> bool {
    match result {
        Ok(encapsulation) => {
            &&& public_key.len() == algorithm.spec_public_key_bytes()
            &&& encapsulation.algorithm == algorithm
            &&& encapsulation.ciphertext@.len() == algorithm.spec_ciphertext_bytes()
            &&& encapsulation.shared_secret@.len() == algorithm.spec_shared_secret_bytes()
            &&& spec_is_encapsulation(
                algorithm,
                public_key,
                encapsulation.ciphertext@,
                encapsulation.shared_secret@,
            )
        },
        Err(error) => {
            &&& public_key.len() != algorithm.spec_public_key_bytes()
            &&& error == Error::InvalidPublicKey
        },
    }
}

/// `result` is the answer that `decapsulation_outcome` prescribes.
pub open spec fn decapsulation_answer(algorithm: Algorithm, ciphertext: Seq<u8>, secret_key: Seq<u8>, result: Result<SecretBytes, Error>) -> bool {
    match result {
        Ok(secret) => {
            &&& decapsulation_outcome(algorithm, ciphertext, secret_key) == Ok::<Seq<u8>, Error>(secret@)
            &&& secret@.len() == algorithm.spec_shared_secret_bytes()
        },
        Err(error) => decapsulation_outcome(algorithm, ciphertext, secret_key) == Err::<Seq<u8>, Error>(error),
    }
}

/// Generates a fresh key pair for the selected parameter set.
pub fn generate_keypair_for(algorithm: Algorithm) -> (keys: KeyPair)
    ensures
        generated_key_pair(algorithm, keys.public_key@, keys.secret_key@),
{
    let (public_key, secret_key) = match algorithm {
        Algorithm::MlKem512 => mlkem512_keypair(),
        Algorithm::MlKem768 => mlkem768_keypair(),
        Algorithm::MlKem1024 => mlkem1024_keypair(),
    };
    KeyPair { public_key, secret_key: SecretBytes::new(secret_key) }
}

/// Encapsulates a fresh shared secret to a serialized public key of the
/// selected parameter set.
pub fn encapsulate_for(algorithm: Algorithm, public_key: &[u8]) -> (result: Result<Encapsulation, Error>)
    ensures
        encapsulation_answer(algorithm, public_key@, result),
{
    if public_key.len() != algorithm.public_key_bytes() {
        return Err(Error::InvalidPublicKey);
    }
    let (ciphertext, shared_secret) = match algorithm {
        Algorithm::MlKem512 => mlkem512_encapsulate(public_key),
        Algorithm::MlKem768 => mlkem768_encapsulate(public_key),
        Algorithm::MlKem1024 => mlkem1024_encapsulate(public_key),
    };
    Ok(Encapsulation { algorithm, ciphertext, shared_secret: SecretBytes::new(shared_secret) })
}

/// Decapsulates a ciphertext with a serialized secret key of the selected
/// parameter set.
///
/// A correctly sized but altered ciphertext follows ML-KEM implicit rejection
/// and yields a pseudorandom secret instead of a validity oracle.
pub fn decapsulate_for(algorithm: Algorithm, ciphertext: &[u8], secret_key: &[u8]) -> (result: Result<SecretBytes, Error>)
    ensures
        decapsulation_answer(algorithm, ciphertext@, secret_key@, result),
        secret_key@.len() == algorithm.spec_secret_key_bytes()
            && ciphertext@.len() == algorithm.spec_ciphertext_bytes() ==> {
            &&& result is Ok
            &&& algorithm == Algorithm::MlKem512 ==> result->Ok_0@ == mlkem512_decapsulation(ciphertext@, secret_key@)
            &&& algorithm == Algorithm::MlKem768 ==> result->Ok_0@ == mlkem768_decapsulation(ciphertext@, secret_key@)
            &&& algorithm == Algorithm::MlKem1024 ==> result->Ok_0@ == mlkem1024_decapsulation(ciphertext@, secret_key@)
        },
{
    if secret_key.len() != algorithm.secret_key_bytes() {
        return Err(Error::InvalidSecretKey);
    }
    if ciphertext.len() != algorithm.ciphertext_bytes() {
        return Err(Error::InvalidCiphertext);
    }
    let shared_secret = match algorithm {
        Algorithm::MlKem512 => mlkem512_decapsulate(ciphertext, secret_key),
        Algorithm::MlKem768 => mlkem768_decapsulate(ciphertext, secret_key),
        Algorithm::MlKem1024 => mlkem1024_decapsulate(ciphertext, secret_key),
    };
    Ok(SecretBytes::new(shared_secret))
}

/// Generates a fresh ML-KEM-1024 key pair.
pub fn generate_keypair() -> (keys: KeyPair)
    ensures
        generated_key_pair(Algorithm::MlKem1024, keys.public_key@, keys.secret_key@),
{
    generate_keypair_for(Algorithm::MlKem1024)
}

/// Encapsulates a fresh shared secret for a serialized ML-KEM-1024 public key.
pub fn encapsulate(public_key: &[u8]) -> (result: Result<Encapsulation, Error>)
    ensures
        encapsulation_answer(Algorithm::MlKem1024, public_key@, result),
{
    encapsulate_for(Algorithm::MlKem1024, public_key)
}

/// Decapsulates a ciphertext with a serialized ML-KEM-1024 secret key.
///
/// A correctly sized but altered ciphertext follows ML-KEM implicit rejection
/// and yields a pseudorandom secret instead of a validity oracle.
pub fn decapsulate(ciphertext: &[u8], secret_key: &[u8]) -> (result: Result<SecretBytes, Error>)
    ensures
        decapsulation_answer(Algorithm::MlKem1024, ciphertext@, secret_key@, result),
        secret_key@.len() == 3168 && ciphertext@.len() == 1568 ==> {
            &&& result is Ok
            &&& result->Ok_0@ == mlkem1024_decapsulation(ciphertext@, secret_key@)
        },
{
    decapsulate_for(Algorithm::MlKem1024, ciphertext, secret_key)
}

} // verus!
