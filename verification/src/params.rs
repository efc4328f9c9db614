//! Parameter sets, their standardized dimensions and the library's errors.

use vstd::prelude::*;
use vstd::string::*;

verus! {

/// Identifier of the historical default parameter set.
pub const ALGORITHM: &'static str = "ML-KEM-1024";

/// Size in bytes of a serialized ML-KEM-1024 public key.
pub const PUBLIC_KEY_BYTES: usize = 1568;

/// Size in bytes of a serialized ML-KEM-1024 secret key.
pub const SECRET_KEY_BYTES: usize = 3168;

/// Size in bytes of a serialized ML-KEM-1024 ciphertext.
pub const CIPHERTEXT_BYTES: usize = 1568;

/// Size in bytes of an ML-KEM shared secret.
pub const SHARED_SECRET_BYTES: usize = 32;

/// One of the three ML-KEM parameter sets standardized by FIPS 203.
#[derive(Debug, Clone, Copy, PartialEq, Eq, Structural)]
pub enum Algorithm {
    MlKem512,
    MlKem768,
    MlKem1024,
}

impl Algorithm {
    /// Every supported parameter set, in increasing security level.
    pub const ALL: [Algorithm; 3] = [Algorithm::MlKem512, Algorithm::MlKem768, Algorithm::MlKem1024];

    /// The standardized identifier of the parameter set.
    pub open spec fn spec_identifier(self) -> Seq<char> {
        match self {
            Algorithm::MlKem512 => "ML-KEM-512"@,
            Algorithm::MlKem768 => "ML-KEM-768"@,
            Algorithm::MlKem1024 => "ML-KEM-1024"@,
        }
    }

    pub open spec fn spec_public_key_bytes(self) -> nat {
        match self {
            Algorithm::MlKem512 => 800,
            Algorithm::MlKem768 => 1184,
            Algorithm::MlKem1024 => 1568,
        }
    }

    pub open spec fn spec_secret_key_bytes(self) -> nat {
        match self {
            Algorithm::MlKem512 => 1632,
            Algorithm::MlKem768 => 2400,
            Algorithm::MlKem1024 => 3168,
        }
    }

    pub open spec fn spec_ciphertext_bytes(self) -> nat {
        match self {
            Algorithm::MlKem512 => 768,
            Algorithm::MlKem768 => 1088,
            Algorithm::MlKem1024 => 1568,
        }
    }

    pub open spec fn spec_shared_secret_bytes(self) -> nat {
        32
    }

    /// Size in bytes of the K-PKE decryption key (384 bytes per module rank)
    /// that opens a serialized secret key.
    pub open spec fn spec_decryption_key_bytes(self) -> nat {
        match self {
            Algorithm::MlKem512 => 768,
            Algorithm::MlKem768 => 1152,
            Algorithm::MlKem1024 => 1536,
        }
    }

    /// The standardized identifier, such as `ML-KEM-768`.
    pub fn identifier(&self) -> (id: &'static str)
        ensures
            id@ == self.spec_identifier(),
    {
        match self {
            Algorithm::MlKem512 => "ML-KEM-512",
            Algorithm::MlKem768 => "ML-KEM-768",
            Algorithm::MlKem1024 => "ML-KEM-1024",
        }
    }

    /// Size in bytes of a serialized public (encapsulation) key.
    pub fn public_key_bytes(&self) -> (n: usize)
        ensures
            n == self.spec_public_key_bytes(),
    {
        match self {
            Algorithm::MlKem512 => 800,
            Algorithm::MlKem768 => 1184,
            Algorithm::MlKem1024 => 1568,
        }
    }

    /// Size in bytes of a serialized secret (decapsulation) key.
    pub fn secret_key_bytes(&self) -> (n: usize)
        ensures
            n == self.spec_secret_key_bytes(),
    {
        match self {
            Algorithm::MlKem512 => 1632,
            Algorithm::MlKem768 => 2400,
            Algorithm::MlKem1024 => 3168,
        }
    }

    /// Size in bytes of a ciphertext.
    pub fn ciphertext_bytes(&self) -> (n: usize)
        ensures
            n == self.spec_ciphertext_bytes(),
    {
        match self {
            Algorithm::MlKem512 => 768,
            Algorithm::MlKem768 => 1088,
            Algorithm::MlKem1024 => 1568,
        }
    }

    /// Size in bytes of a shared secret.
    pub fn shared_secret_bytes(&self) -> (n: usize)
        ensures
            n == self.spec_shared_secret_bytes(),
    {
        32
    }
}


impl Default for Algorithm {
    /// ML-KEM-1024, the parameter set of the original single-level interface.
    fn default() -> (algorithm: Algorithm)
        ensures
            algorithm == Algorithm::MlKem1024,
    {
        Algorithm::MlKem1024
    }
}

/// The parameter set whose identifier is exactly `id`, if there is one.
pub open spec fn spec_from_identifier(id: Seq<char>) -> Option<Algorithm> {
    if id == Algorithm::MlKem512.spec_identifier() {
        Some(Algorithm::MlKem512)
    } else if id == Algorithm::MlKem768.spec_identifier() {
        Some(Algorithm::MlKem768)
    } else if id == Algorithm::MlKem1024.spec_identifier() {
        Some(Algorithm::MlKem1024)
    } else {
        None
    }
}

/// Compares two strings character by character.
pub fn str_equal(a: &str, b: &str) -> (equal: bool)
    ensures
        equal == (a@ == b@),
{
    let n = a.unicode_len();
    if n != b.unicode_len() {
        return false;
    }
    let mut i: usize = 0;
    while i < n
        invariant
            n == a@.len(),
            n == b@.len(),
            i <= n,
            forall|j: int| 0 <= j < i ==> a@[j] == b@[j],
        decreases n - i,
    {
        if a.get_char(i) != b.get_char(i) {
            return false;
        }
        i = i + 1;
    }
    assert(a@ =~= b@);
    true
}

impl Algorithm {
    /// Parses a standardized identifier. Only the exact strings `ML-KEM-512`,
    /// `ML-KEM-768` and `ML-KEM-1024` are accepted.
    pub fn from_identifier(identifier: &str) -> (algorithm: Option<Algorithm>)
        ensures
            algorithm == spec_from_identifier(identifier@),
    {
        if str_equal(identifier, "ML-KEM-512") {
            Some(Algorithm::MlKem512)
        } else if str_equal(identifier, "ML-KEM-768") {
            Some(Algorithm::MlKem768)
        } else if str_equal(identifier, "ML-KEM-1024") {
            Some(Algorithm::MlKem1024)
        } else {
            None
        }
    }
}

/// Rejection of a malformed serialized object.
#[derive(Debug, Clone, Copy, PartialEq, Eq, Structural)]
pub enum Error {
    InvalidPublicKey,
    InvalidSecretKey,
    InvalidCiphertext,
}

impl Error {
    /// The human-readable description of the error.
    pub open spec fn spec_message(self) -> Seq<char> {
        match self {
            Error::InvalidPublicKey => "invalid ML-KEM-1024 public key"@,
            Error::InvalidSecretKey => "invalid ML-KEM-1024 private key"@,
            Error::InvalidCiphertext => "invalid ML-KEM-1024 ciphertext"@,
        }
    }

    /// The human-readable description of the error, as an owned string.
    pub fn to_string(&self) -> (message: String)
        ensures
            message@ == self.spec_message(),
    {
        match self {
            Error::InvalidPublicKey => String::from_str("invalid ML-KEM-1024 public key"),
            Error::InvalidSecretKey => String::from_str("invalid ML-KEM-1024 private key"),
            Error::InvalidCiphertext => String::from_str("invalid ML-KEM-1024 ciphertext"),
        }
    }
}

} // verus!
