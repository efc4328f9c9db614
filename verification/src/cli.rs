//! The JSON command contract (`gen`, `enc` and `dec`) over decoded requests.
//!
//! Requests arrive as plain values; keys, ciphertexts and secrets travel as
//! standard base64 text, and every failure is answered by a message.

use vstd::prelude::*;
use vstd::std_specs::iter::IteratorSpec;
use vstd::string::*;

use crate::encoding::{
    base64_decode, base64_decode_error, base64_decoding, base64_encode, base64_encoding, is_base64,
    lemma_encoding_injective,
};
use crate::kem::{
    decapsulate_for, decapsulation_outcome, encapsulate_for, generate_keypair_for, generated_key_pair,
    spec_is_encapsulation,
};
use crate::params::{spec_from_identifier, str_equal, Algorithm, Error};

verus! {

/// One of the three commands of the command-line interface.
#[derive(Debug, Clone, Copy, PartialEq, Eq, Structural)]
pub enum Command {
    Generate,
    Encapsulate,
    Decapsulate,
}

/// The command named `name`, or the message that rejects it.
pub open spec fn spec_command(name: Seq<char>) -> Result<Command, Seq<char>> {
    if name == "gen"@ {
        Ok(Command::Generate)
    } else if name == "enc"@ {
        Ok(Command::Encapsulate)
    } else if name == "dec"@ {
        Ok(Command::Decapsulate)
    } else {
        Err("unsupported command: "@ + name)
    }
}

/// A result whose error message is taken by its view.
pub open spec fn message_view<T>(result: Result<T, String>) -> Result<T, Seq<char>> {
    match result {
        Ok(value) => Ok(value),
        Err(message) => Err(message@),
    }
}

/// A decoding result with both sides taken by their views.
pub open spec fn bytes_view(result: Result<Vec<u8>, String>) -> Result<Seq<u8>, Seq<char>> {
    match result {
        Ok(bytes) => Ok(bytes@),
        Err(message) => Err(message@),
    }
}

/// An optional string taken by its view.
pub open spec fn option_view(value: Option<String>) -> Option<Seq<char>> {
    match value {
        Some(text) => Some(text@),
        None => None,
    }
}

impl Command {
    /// Parses the command name given on the command line.
    pub fn from_name(name: &str) -> (command: Result<Command, String>)
        ensures
            message_view(command) == spec_command(name@),
    {
        if str_equal(name, "gen") {
            Ok(Command::Generate)
        } else if str_equal(name, "enc") {
            Ok(Command::Encapsulate)
        } else if str_equal(name, "dec") {
            Ok(Command::Decapsulate)
        } else {
            let mut message = String::from_str("unsupported command: ");
            message.append(name);
            Err(message)
        }
    }
}

/// The Unicode `White_Space` property (PropList.txt), which
/// `char::is_whitespace` and `str::trim` use.
pub open spec fn spec_is_white_space(c: char) -> bool {
    let v = c as u32;
    ||| 0x09 <= v <= 0x0d
    ||| v == 0x20
    ||| v == 0x85
    ||| v == 0xa0
    ||| v == 0x1680
    ||| 0x2000 <= v <= 0x200a
    ||| v == 0x2028
    ||| v == 0x2029
    ||| v == 0x202f
    ||| v == 0x205f
    ||| v == 0x3000
}

/// Whether a character has the Unicode `White_Space` property.
pub fn is_white_space(c: char) -> (white: bool)
    ensures
        white == spec_is_white_space(c),
{
    let v = c as u32;
    (0x09 <= v && v <= 0x0d) || v == 0x20 || v == 0x85 || v == 0xa0 || v == 0x1680 || (0x2000
        <= v && v <= 0x200a) || v == 0x2028 || v == 0x2029 || v == 0x202f || v == 0x205f || v
        == 0x3000
}

/// Whether a request text is empty once surrounding white space is trimmed,
/// that is, whether every character of it is white space.
pub fn is_blank(text: &str) -> (blank: bool)
    ensures
        blank == (forall|i: int| 0 <= i < text@.len() ==> spec_is_white_space(#[trigger] text@[i])),
{
    broadcast use vstd::string::group_string_axioms;

    let length = text.unicode_len();
    let mut position: usize = 0;
    let mut chars = text.chars();
    loop
        invariant
            length == text@.len(),
            chars.obeys_prophetic_iter_laws(),
            chars.remaining() == text@.subrange(position as int, text@.len() as int),
            position <= text@.len(),
            forall|i: int| 0 <= i < position ==> spec_is_white_space(#[trigger] text@[i]),
        decreases text@.len() - position,
    {
        match chars.next() {
            Some(c) => {
                assert(text@[position as int] == c);
                if !is_white_space(c) {
                    return false;
                }
                position = position + 1;
            },
            None => {
                return true;
            },
        }
    }
}

/// Fields shared by every request.
pub struct CommonInput {
    pub device_id: Option<String>,
    pub algo: Option<String>,
}

/// An encapsulation request.
pub struct EncInput {
    pub common: CommonInput,
    pub public_key: String,
}

/// A decapsulation request.
pub struct DecInput {
    pub common: CommonInput,
    pub private_key: String,
    pub ciphertext_b64: String,
}

/// The answer to a key generation request.
pub struct GenOutput {
    pub ok: bool,
    pub algo: &'static str,
    pub public_key: String,
    pub private_key: String,
}

/// The answer to an encapsulation request.
pub struct EncOutput {
    pub ok: bool,
    pub algo: &'static str,
    pub ciphertext_b64: String,
    pub shared_secret_b64: String,
}

/// The answer to a decapsulation request.
pub struct DecOutput {
    pub ok: bool,
    pub algo: &'static str,
    pub shared_secret_b64: String,
}

/// The message that rejects an unknown parameter-set identifier.
pub open spec fn unsupported_algorithm_message(identifier: Seq<char>) -> Seq<char> {
    "unsupported algorithm: "@ + identifier
}

/// The parameter set a request selects: ML-KEM-1024 when `algo` is absent,
/// otherwise the parameter set with exactly that identifier.
pub open spec fn spec_validate_common(algo: Option<Seq<char>>) -> Result<Algorithm, Seq<char>> {
    match algo {
        None => Ok(Algorithm::MlKem1024),
        Some(identifier) => match spec_from_identifier(identifier) {
            Some(algorithm) => Ok(algorithm),
            None => Err(unsupported_algorithm_message(identifier)),
        },
    }
}

/// Selects the parameter set of a request.
pub fn validate_common(input: &CommonInput) -> (algorithm: Result<Algorithm, String>)
    ensures
        message_view(algorithm) == spec_validate_common(option_view(input.algo)),
        input.algo is None ==> algorithm == Ok::<Algorithm, String>(Algorithm::MlKem1024),
{
    match &input.algo {
        Some(identifier) => match Algorithm::from_identifier(identifier.as_str()) {
            Some(algorithm) => Ok(algorithm),
            None => {
                let mut message = String::from_str("unsupported algorithm: ");
                message.append(identifier.as_str());
                Err(message)
            },
        },
        None => Ok(Algorithm::default()),
    }
}

/// The bytes that a base64 field holds, or the message that rejects it.
pub open spec fn spec_decode(value: Seq<char>, label: Seq<char>) -> Result<Seq<u8>, Seq<char>> {
    if is_base64(value) {
        Ok(base64_decoding(value))
    } else {
        Err("invalid base64 for "@ + label + ": "@ + base64_decode_error(value))
    }
}

/// Decodes the base64 field named `label`.
pub fn decode(value: &str, label: &str) -> (decoded: Result<Vec<u8>, String>)
    ensures
        bytes_view(decoded) == spec_decode(value@, label@),
{
    match base64_decode(value) {
        Ok(bytes) => {
            proof {
                assert(base64_encoding(bytes@) == value@);
                lemma_encoding_injective(bytes@, base64_decoding(value@));
            }
            Ok(bytes)
        },
        Err(description) => {
            let mut message = String::from_str("invalid base64 for ");
            message.append(label);
            message.append(": ");
            message.append(description.as_str());
            Err(message)
        },
    }
}

/// A key generation answer for `algorithm`: the base64 texts of a public key
/// and of a secret key that together are a generated key pair.
pub open spec fn generation_output(algorithm: Algorithm, output: GenOutput) -> bool {
    &&& output.ok
    &&& output.algo@ == algorithm.spec_identifier()
    &&& exists|public_key: Seq<u8>, secret_key: Seq<u8>|
        {
            &&& generated_key_pair(algorithm, public_key, secret_key)
            &&& output.public_key@ == base64_encoding(public_key)
            &&& output.private_key@ == base64_encoding(secret_key)
        }
}

/// Answers a key generation request with a fresh key pair.
pub fn generate(input: &CommonInput) -> (output: Result<GenOutput, String>)
    ensures
        match output {
            Ok(generated) => match spec_validate_common(option_view(input.algo)) {
                Ok(algorithm) => generation_output(algorithm, generated),
                Err(_) => false,
            },
            Err(message) => spec_validate_common(option_view(input.algo)) == Err::<Algorithm, Seq<char>>(message@),
        },
{
    let algorithm = match validate_common(input) {
        Ok(algorithm) => algorithm,
        Err(message) => return Err(message),
    };
    let keys = generate_keypair_for(algorithm);
    let public_key = base64_encode(keys.public_key.as_slice());
    let private_key = base64_encode(keys.secret_key.expose());
    let output = GenOutput { ok: true, algo: algorithm.identifier(), public_key, private_key };
    assert(output.public_key@ == base64_encoding(keys.public_key@));
    assert(output.private_key@ == base64_encoding(keys.secret_key@));
    Ok(output)
}

/// An encapsulation answer for `algorithm`: the base64 texts of a ciphertext
/// and of a shared secret of the standardized sizes that are an encapsulation
/// to `public_key` for some coins.
pub open spec fn encapsulation_output(algorithm: Algorithm, public_key: Seq<u8>, output: EncOutput) -> bool {
    &&& output.ok
    &&& output.algo@ == algorithm.spec_identifier()
    &&& exists|ciphertext: Seq<u8>, shared_secret: Seq<u8>|
        {
            &&& ciphertext.len() == algorithm.spec_ciphertext_bytes()
            &&& shared_secret.len() == algorithm.spec_shared_secret_bytes()
            &&& spec_is_encapsulation(algorithm, public_key, ciphertext, shared_secret)
            &&& output.ciphertext_b64@ == base64_encoding(ciphertext)
            &&& output.shared_secret_b64@ == base64_encoding(shared_secret)
        }
}

/// What an encapsulation request is answered: the parameter set is selected,
/// then the public key is decoded, then its size is checked.
pub open spec fn encapsulation_request_answer(
    algo: Option<Seq<char>>,
    public_key: Seq<char>,
    output: Result<EncOutput, String>,
) -> bool {
    match spec_validate_common(algo) {
        Err(message) => output is Err && output->Err_0@ == message,
        Ok(algorithm) => match spec_decode(public_key, "publicKey"@) {
            Err(message) => output is Err && output->Err_0@ == message,
            Ok(key) => if key.len() != algorithm.spec_public_key_bytes() {
                output is Err && output->Err_0@ == Error::InvalidPublicKey.spec_message()
            } else {
                output is Ok && encapsulation_output(algorithm, key, output->Ok_0)
            },
        },
    }
}

/// Answers an encapsulation request with a fresh ciphertext and secret.
pub fn encapsulate(input: &EncInput) -> (output: Result<EncOutput, String>)
    ensures
        encapsulation_request_answer(option_view(input.common.algo), input.public_key@, output),
{
    let algorithm = match validate_common(&input.common) {
        Ok(algorithm) => algorithm,
        Err(message) => return Err(message),
    };
    let public_key = match decode(input.public_key.as_str(), "publicKey") {
        Ok(bytes) => bytes,
        Err(message) => return Err(message),
    };
    let result = match encapsulate_for(algorithm, public_key.as_slice()) {
        Ok(result) => result,
        Err(error) => return Err(error.to_string()),
    };
    let ciphertext_b64 = base64_encode(result.ciphertext.as_slice());
    let shared_secret_b64 = base64_encode(result.shared_secret.expose());
    let output = EncOutput { ok: true, algo: algorithm.identifier(), ciphertext_b64, shared_secret_b64 };
    assert(output.ciphertext_b64@ == base64_encoding(result.ciphertext@));
    assert(output.shared_secret_b64@ == base64_encoding(result.shared_secret@));
    Ok(output)
}

/// What a decapsulation request is answered: the parameter set is selected,
/// the private key and then the ciphertext are decoded, and the decoded
/// objects are decapsulated.
pub open spec fn spec_decapsulation_request(
    algo: Option<Seq<char>>,
    private_key: Seq<char>,
    ciphertext: Seq<char>,
) -> Result<(Algorithm, Seq<u8>), Seq<char>> {
    match spec_validate_common(algo) {
        Err(message) => Err(message),
        Ok(algorithm) => match spec_decode(private_key, "privateKey"@) {
            Err(message) => Err(message),
            Ok(secret_key) => match spec_decode(ciphertext, "ciphertext_b64"@) {
                Err(message) => Err(message),
                Ok(ciphertext) => match decapsulation_outcome(algorithm, ciphertext, secret_key) {
                    Err(error) => Err(error.spec_message()),
                    Ok(shared_secret) => Ok((algorithm, shared_secret)),
                },
            },
        },
    }
}

/// `output` is the answer that `spec_decapsulation_request` prescribes: the
/// base64 text of the shared secret, or the message of the first failure.
pub open spec fn decapsulation_request_answer(
    algo: Option<Seq<char>>,
    private_key: Seq<char>,
    ciphertext: Seq<char>,
    output: Result<DecOutput, String>,
) -> bool {
    match spec_decapsulation_request(algo, private_key, ciphertext) {
        Ok((algorithm, shared_secret)) => {
            &&& output is Ok
            &&& output->Ok_0.ok
            &&& output->Ok_0.algo@ == algorithm.spec_identifier()
            &&& output->Ok_0.shared_secret_b64@ == base64_encoding(shared_secret)
        },
        Err(message) => output is Err && output->Err_0@ == message,
    }
}

/// Answers a decapsulation request.
pub fn decapsulate(input: &DecInput) -> (output: Result<DecOutput, String>)
    ensures
        decapsulation_request_answer(
            option_view(input.common.algo),
            input.private_key@,
            input.ciphertext_b64@,
            output,
        ),
{
    let algorithm = match validate_common(&input.common) {
        Ok(algorithm) => algorithm,
        Err(message) => return Err(message),
    };
    let private_key = match decode(input.private_key.as_str(), "privateKey") {
        Ok(bytes) => bytes,
        Err(message) => return Err(message),
    };
    let ciphertext = match decode(input.ciphertext_b64.as_str(), "ciphertext_b64") {
        Ok(bytes) => bytes,
        Err(message) => return Err(message),
    };
    let shared_secret = match decapsulate_for(algorithm, ciphertext.as_slice(), private_key.as_slice()) {
        Ok(secret) => secret,
        Err(error) => return Err(error.to_string()),
    };
    let shared_secret_b64 = base64_encode(shared_secret.expose());
    Ok(DecOutput { ok: true, algo: algorithm.identifier(), shared_secret_b64 })
}

} // verus!
