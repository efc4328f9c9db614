//! Properties that relate the operations of the library to one another.

use vstd::prelude::*;

use crate::kem::{
    decapsulation_answer, decapsulation_outcome, encapsulation_answer, generated_key_pair,
    spec_is_encapsulation, spec_is_key_pair, Encapsulation, KeyPair, SecretBytes,
};
use crate::backend::{mlkem1024_decapsulation, mlkem512_decapsulation, mlkem768_decapsulation};
use crate::cli::{
    spec_decapsulation_request, spec_validate_common, decapsulation_request_answer, encapsulation_output, encapsulation_request_answer,
    generation_output, spec_decode, DecOutput, EncOutput, GenOutput,
};
use crate::encoding::{base64_encoding, lemma_decoding_inverts_encoding};
use crate::seeds::{spec_algorithm, spec_expand};
use crate::params::{
    spec_from_identifier, Algorithm, Error, ALGORITHM, CIPHERTEXT_BYTES, PUBLIC_KEY_BYTES,
    SECRET_KEY_BYTES, SHARED_SECRET_BYTES,
};

verus! {

/// Identifier parsing accepts the identifier of every parameter set and
/// yields that parameter set back.
pub proof fn identifier_round_trip(algorithm: Algorithm)
    ensures
        spec_from_identifier(algorithm.spec_identifier()) == Some(algorithm),
{
    reveal_strlit("ML-KEM-512");
    reveal_strlit("ML-KEM-768");
    reveal_strlit("ML-KEM-1024");
    assert("ML-KEM-768"@[7] != "ML-KEM-512"@[7]);
    assert("ML-KEM-1024"@.len() != "ML-KEM-512"@.len());
    assert("ML-KEM-1024"@.len() != "ML-KEM-768"@.len());
}

/// Identifier parsing accepts nothing but the exact standardized identifiers.
pub proof fn identifier_is_exact(identifier: Seq<char>, algorithm: Algorithm)
    requires
        spec_from_identifier(identifier) == Some(algorithm),
    ensures
        identifier == algorithm.spec_identifier(),
{
    reveal_strlit("ML-KEM-512");
    reveal_strlit("ML-KEM-768");
    reveal_strlit("ML-KEM-1024");
}

/// The historical constants describe ML-KEM-1024.
pub proof fn legacy_constants_describe_ml_kem_1024()
    ensures
        ALGORITHM@ == Algorithm::MlKem1024.spec_identifier(),
        PUBLIC_KEY_BYTES == Algorithm::MlKem1024.spec_public_key_bytes(),
        SECRET_KEY_BYTES == Algorithm::MlKem1024.spec_secret_key_bytes(),
        CIPHERTEXT_BYTES == Algorithm::MlKem1024.spec_ciphertext_bytes(),
        SHARED_SECRET_BYTES == Algorithm::MlKem1024.spec_shared_secret_bytes(),
{
}

/// Two different parameter sets never share the size of a public key, of a
/// secret key or of a ciphertext.
pub proof fn parameter_sets_have_distinct_sizes(a: Algorithm, b: Algorithm)
    requires
        a != b,
    ensures
        a.spec_public_key_bytes() != b.spec_public_key_bytes(),
        a.spec_secret_key_bytes() != b.spec_secret_key_bytes(),
        a.spec_ciphertext_bytes() != b.spec_ciphertext_bytes(),
{
}

/// A public key of one parameter set is rejected by encapsulation under any
/// other parameter set.
pub proof fn foreign_public_key_is_rejected(
    source: Algorithm,
    target: Algorithm,
    public_key: Seq<u8>,
    result: Result<Encapsulation, Error>,
)
    requires
        source != target,
        public_key.len() == source.spec_public_key_bytes(),
        encapsulation_answer(target, public_key, result),
    ensures
        result == Err::<Encapsulation, Error>(Error::InvalidPublicKey),
{
}

/// A secret key of one parameter set is rejected by decapsulation under any
/// other parameter set, whatever the ciphertext.
pub proof fn foreign_secret_key_is_rejected(
    source: Algorithm,
    target: Algorithm,
    ciphertext: Seq<u8>,
    secret_key: Seq<u8>,
)
    requires
        source != target,
        secret_key.len() == source.spec_secret_key_bytes(),
    ensures
        decapsulation_outcome(target, ciphertext, secret_key) == Err::<Seq<u8>, Error>(Error::InvalidSecretKey),
{
}

/// Implicit rejection: a ciphertext and a secret key of the standardized
/// sizes always yield a shared secret, so decapsulation answers no question
/// about the validity of the ciphertext.
pub proof fn well_sized_inputs_always_yield_a_secret(
    algorithm: Algorithm,
    ciphertext: Seq<u8>,
    secret_key: Seq<u8>,
    result: Result<SecretBytes, Error>,
)
    requires
        ciphertext.len() == algorithm.spec_ciphertext_bytes(),
        secret_key.len() == algorithm.spec_secret_key_bytes(),
        decapsulation_answer(algorithm, ciphertext, secret_key, result),
    ensures
        result is Ok,
        result->Ok_0@.len() == algorithm.spec_shared_secret_bytes(),
{
}

/// Decapsulating the same inputs twice gives the same answer, so the
/// pseudorandom secret of implicit rejection is stable.
pub proof fn decapsulation_is_deterministic(
    algorithm: Algorithm,
    ciphertext: Seq<u8>,
    secret_key: Seq<u8>,
    first: Result<SecretBytes, Error>,
    second: Result<SecretBytes, Error>,
)
    requires
        decapsulation_answer(algorithm, ciphertext, secret_key, first),
        decapsulation_answer(algorithm, ciphertext, secret_key, second),
    ensures
        first is Ok <==> second is Ok,
        first is Ok ==> first->Ok_0@ == second->Ok_0@,
        first is Err ==> first->Err_0 == second->Err_0,
{
}

/// Material generated by the library is accepted by the library: a fresh
/// key pair is a key-generation output, its public key encapsulates (to that
/// very key), and the resulting ciphertext decapsulates with the matching
/// secret key without error.
pub proof fn generated_material_is_accepted(
    algorithm: Algorithm,
    keys: KeyPair,
    encapsulated: Result<Encapsulation, Error>,
    decapsulated: Result<SecretBytes, Error>,
)
    requires
        generated_key_pair(algorithm, keys.public_key@, keys.secret_key@),
        encapsulation_answer(algorithm, keys.public_key@, encapsulated),
        encapsulated is Ok ==> decapsulation_answer(
            algorithm,
            encapsulated->Ok_0.ciphertext@,
            keys.secret_key@,
            decapsulated,
        ),
    ensures
        spec_is_key_pair(algorithm, keys.public_key@, keys.secret_key@),
        encapsulated is Ok,
        encapsulated->Ok_0.algorithm == algorithm,
        spec_is_encapsulation(
            algorithm,
            keys.public_key@,
            encapsulated->Ok_0.ciphertext@,
            encapsulated->Ok_0.shared_secret@,
        ),
        decapsulated is Ok,
        decapsulated->Ok_0@.len() == encapsulated->Ok_0.shared_secret@.len(),
{
}


/// Base64 fields round-trip: a field holding the encoding of some bytes is
/// decoded to exactly those bytes, and a field is decoded only when it is the
/// canonical encoding of what it yields.
pub proof fn base64_fields_round_trip(bytes: Seq<u8>, value: Seq<char>, label: Seq<char>)
    ensures
        spec_decode(base64_encoding(bytes), label) == Ok::<Seq<u8>, Seq<char>>(bytes),
        spec_decode(value, label) is Ok ==> base64_encoding(spec_decode(value, label)->Ok_0) == value,
{
    lemma_decoding_inverts_encoding(bytes);
    if spec_decode(value, label) is Ok {
        let witness = choose|b: Seq<u8>| base64_encoding(b) == value;
        assert(base64_encoding(witness) == value);
    }
}

/// The `enc` command accepts the public key that the `gen` command printed
/// for the same parameter set.
pub proof fn enc_accepts_the_key_gen_prints(
    algorithm: Algorithm,
    generated: GenOutput,
    encapsulated: Result<EncOutput, String>,
)
    requires
        generation_output(algorithm, generated),
        encapsulation_request_answer(
            Some(algorithm.spec_identifier()),
            generated.public_key@,
            encapsulated,
        ),
    ensures
        encapsulated is Ok,
        encapsulated->Ok_0.ok,
        encapsulated->Ok_0.algo@ == algorithm.spec_identifier(),
{
    identifier_round_trip(algorithm);
    let (public_key, secret_key) = choose|public_key: Seq<u8>, secret_key: Seq<u8>|
        {
            &&& generated_key_pair(algorithm, public_key, secret_key)
            &&& generated.public_key@ == base64_encoding(public_key)
            &&& generated.private_key@ == base64_encoding(secret_key)
        };
    base64_fields_round_trip(public_key, generated.public_key@, "publicKey"@);
}

/// The `dec` command, given the private key that `gen` printed and a
/// ciphertext that `enc` printed for the same parameter set, answers with a
/// shared secret and never with an error.
pub proof fn dec_accepts_what_gen_and_enc_print(
    algorithm: Algorithm,
    generated: GenOutput,
    encapsulated_to: Seq<u8>,
    encapsulated: EncOutput,
    decapsulated: Result<DecOutput, String>,
)
    requires
        generation_output(algorithm, generated),
        encapsulation_output(algorithm, encapsulated_to, encapsulated),
        decapsulation_request_answer(
            Some(algorithm.spec_identifier()),
            generated.private_key@,
            encapsulated.ciphertext_b64@,
            decapsulated,
        ),
    ensures
        decapsulated is Ok,
        decapsulated->Ok_0.ok,
        decapsulated->Ok_0.algo@ == algorithm.spec_identifier(),
{
    identifier_round_trip(algorithm);
    let (public_key, secret_key) = choose|public_key: Seq<u8>, secret_key: Seq<u8>|
        {
            &&& generated_key_pair(algorithm, public_key, secret_key)
            &&& generated.public_key@ == base64_encoding(public_key)
            &&& generated.private_key@ == base64_encoding(secret_key)
        };
    let (ciphertext, shared_secret) = choose|ciphertext: Seq<u8>, shared_secret: Seq<u8>|
        {
            &&& ciphertext.len() == algorithm.spec_ciphertext_bytes()
            &&& shared_secret.len() == algorithm.spec_shared_secret_bytes()
            &&& spec_is_encapsulation(algorithm, encapsulated_to, ciphertext, shared_secret)
            &&& encapsulated.ciphertext_b64@ == base64_encoding(ciphertext)
            &&& encapsulated.shared_secret_b64@ == base64_encoding(shared_secret)
        };
    base64_fields_round_trip(secret_key, generated.private_key@, "privateKey"@);
    base64_fields_round_trip(ciphertext, encapsulated.ciphertext_b64@, "ciphertext_b64"@);
}


/// Decapsulation of a ciphertext and a secret key of the standardized sizes
/// answers the backend's decapsulation of exactly those two objects: the
/// whole secret key, rejection value `z` included, reaches the backend
/// unchanged, so implicit rejection is FIPS 203 `ML-KEM.Decaps`.
pub proof fn decapsulation_is_the_backend_decapsulation_of_the_given_objects(
    algorithm: Algorithm,
    ciphertext: Seq<u8>,
    secret_key: Seq<u8>,
    result: Result<SecretBytes, Error>,
)
    requires
        ciphertext.len() == algorithm.spec_ciphertext_bytes(),
        secret_key.len() == algorithm.spec_secret_key_bytes(),
        decapsulation_answer(algorithm, ciphertext, secret_key, result),
    ensures
        result is Ok,
        algorithm == Algorithm::MlKem512 ==> result->Ok_0@ == mlkem512_decapsulation(ciphertext, secret_key),
        algorithm == Algorithm::MlKem768 ==> result->Ok_0@ == mlkem768_decapsulation(ciphertext, secret_key),
        algorithm == Algorithm::MlKem1024 ==> result->Ok_0@ == mlkem1024_decapsulation(ciphertext, secret_key),
{
}

/// Omitting `algo` selects exactly what `"algo": "ML-KEM-1024"` selects.
pub proof fn absent_algo_is_ml_kem_1024()
    ensures
        spec_validate_common(None) == Ok::<Algorithm, Seq<char>>(Algorithm::MlKem1024),
        spec_validate_common(Some(Algorithm::MlKem1024.spec_identifier())) == spec_validate_common(None),
{
    identifier_round_trip(Algorithm::MlKem1024);
}

/// An `enc` request without `algo` is answered exactly as the same request
/// with `"algo": "ML-KEM-1024"`.
pub proof fn enc_without_algo_is_enc_with_ml_kem_1024(public_key: Seq<char>, output: Result<EncOutput, String>)
    ensures
        encapsulation_request_answer(None, public_key, output) == encapsulation_request_answer(
            Some(Algorithm::MlKem1024.spec_identifier()),
            public_key,
            output,
        ),
{
    absent_algo_is_ml_kem_1024();
}

/// A `dec` request without `algo` is answered exactly as the same request
/// with `"algo": "ML-KEM-1024"`.
pub proof fn dec_without_algo_is_dec_with_ml_kem_1024(private_key: Seq<char>, ciphertext: Seq<char>)
    ensures
        spec_decapsulation_request(None, private_key, ciphertext) == spec_decapsulation_request(
            Some(Algorithm::MlKem1024.spec_identifier()),
            private_key,
            ciphertext,
        ),
{
    absent_algo_is_ml_kem_1024();
}

/// With `algo` omitted everywhere, `enc` accepts the public key that `gen`
/// printed, and answers for ML-KEM-1024.
pub proof fn enc_accepts_the_key_gen_prints_by_default(
    generated: GenOutput,
    encapsulated: Result<EncOutput, String>,
)
    requires
        generation_output(Algorithm::MlKem1024, generated),
        encapsulation_request_answer(None, generated.public_key@, encapsulated),
    ensures
        encapsulated is Ok,
        encapsulated->Ok_0.algo@ == "ML-KEM-1024"@,
{
    enc_without_algo_is_enc_with_ml_kem_1024(generated.public_key@, encapsulated);
    enc_accepts_the_key_gen_prints(Algorithm::MlKem1024, generated, encapsulated);
}

/// With `algo` omitted everywhere, `dec` accepts the private key that `gen`
/// printed together with a ciphertext that `enc` printed, and answers for
/// ML-KEM-1024.
pub proof fn dec_accepts_what_gen_and_enc_print_by_default(
    generated: GenOutput,
    encapsulated_to: Seq<u8>,
    encapsulated: EncOutput,
    decapsulated: Result<DecOutput, String>,
)
    requires
        generation_output(Algorithm::MlKem1024, generated),
        encapsulation_output(Algorithm::MlKem1024, encapsulated_to, encapsulated),
        decapsulation_request_answer(
            None,
            generated.private_key@,
            encapsulated.ciphertext_b64@,
            decapsulated,
        ),
    ensures
        decapsulated is Ok,
        decapsulated->Ok_0.algo@ == "ML-KEM-1024"@,
{
    dec_without_algo_is_dec_with_ml_kem_1024(generated.private_key@, encapsulated.ciphertext_b64@);
    dec_accepts_what_gen_and_enc_print(
        Algorithm::MlKem1024,
        generated,
        encapsulated_to,
        encapsulated,
        decapsulated,
    );
}

/// A seed reads the input cyclically from the offset, so moving the offset
/// by the input's length changes nothing.
pub proof fn seeds_read_the_input_cyclically(data: Seq<u8>, offset: int)
    requires
        data.len() > 0,
        offset >= 0,
    ensures
        spec_expand(data, offset).len() == 32,
        forall|i: int| 0 <= i < 32 ==> #[trigger] spec_expand(data, offset)[i] == data[(offset + i) % (data.len() as int)],
        spec_expand(data, offset + data.len()) == spec_expand(data, offset),
{
    let n = data.len() as int;
    assert forall|i: int| 0 <= i < 32 implies #[trigger] spec_expand(data, offset + n)[i]
        == spec_expand(data, offset)[i] by {
        vstd::arithmetic::div_mod::lemma_mod_add_multiples_vanish(offset + i, n);
        assert(offset + n + i == n + (offset + i));
    }
    assert(spec_expand(data, offset + data.len()) =~= spec_expand(data, offset));
}

/// Selector bytes choose parameter sets with period three, starting from
/// ML-KEM-512, ML-KEM-768 and ML-KEM-1024: the choice is `ALL[selector % 3]`.
pub proof fn selectors_choose_with_period_three(selector: u8)
    ensures
        spec_algorithm(selector) == Algorithm::ALL@[(selector % 3) as int],
        selector <= 252 ==> spec_algorithm((selector + 3) as u8) == spec_algorithm(selector),
        spec_algorithm(0) == Algorithm::MlKem512,
        spec_algorithm(1) == Algorithm::MlKem768,
        spec_algorithm(2) == Algorithm::MlKem1024,
{
}

} // verus!
