use base64::{engine::general_purpose::STANDARD, Engine};
use majax_mlkem::cli::{
    decapsulate, decode, encapsulate, generate, is_blank, is_white_space, validate_common, Command,
    CommonInput, DecInput, EncInput,
};
use majax_mlkem::seeds::{algorithm, expand};
use majax_mlkem::{
    decapsulate_for, encapsulate_for, generate_keypair_for, Algorithm, Error, ALGORITHM,
};
use pqcrypto_mlkem::{mlkem1024, mlkem512, mlkem768};

#[test]
fn dimensions_match_the_pqclean_backend() {
    let expected = [
        (
            Algorithm::MlKem512,
            mlkem512::public_key_bytes(),
            mlkem512::secret_key_bytes(),
            mlkem512::ciphertext_bytes(),
            mlkem512::shared_secret_bytes(),
        ),
        (
            Algorithm::MlKem768,
            mlkem768::public_key_bytes(),
            mlkem768::secret_key_bytes(),
            mlkem768::ciphertext_bytes(),
            mlkem768::shared_secret_bytes(),
        ),
        (
            Algorithm::MlKem1024,
            mlkem1024::public_key_bytes(),
            mlkem1024::secret_key_bytes(),
            mlkem1024::ciphertext_bytes(),
            mlkem1024::shared_secret_bytes(),
        ),
    ];
    for (algorithm, public_key, secret_key, ciphertext, shared_secret) in expected {
        assert_eq!(algorithm.public_key_bytes(), public_key);
        assert_eq!(algorithm.secret_key_bytes(), secret_key);
        assert_eq!(algorithm.ciphertext_bytes(), ciphertext);
        assert_eq!(algorithm.shared_secret_bytes(), shared_secret);
    }
}

#[test]
fn standardized_dimension_table() {
    assert_eq!(Algorithm::MlKem512.public_key_bytes(), 800);
    assert_eq!(Algorithm::MlKem512.secret_key_bytes(), 1632);
    assert_eq!(Algorithm::MlKem512.ciphertext_bytes(), 768);
    assert_eq!(Algorithm::MlKem768.public_key_bytes(), 1184);
    assert_eq!(Algorithm::MlKem768.secret_key_bytes(), 2400);
    assert_eq!(Algorithm::MlKem768.ciphertext_bytes(), 1088);
    assert_eq!(Algorithm::MlKem1024.public_key_bytes(), 1568);
    assert_eq!(Algorithm::MlKem1024.secret_key_bytes(), 3168);
    assert_eq!(Algorithm::MlKem1024.ciphertext_bytes(), 1568);
    for algorithm in Algorithm::ALL {
        assert_eq!(algorithm.shared_secret_bytes(), 32);
    }
}

#[test]
fn identifiers_round_trip_and_are_exact() {
    assert_eq!(ALGORITHM, "ML-KEM-1024");
    for algorithm in Algorithm::ALL {
        assert_eq!(Algorithm::from_identifier(algorithm.identifier()), Some(algorithm));
    }
    assert_eq!(Algorithm::MlKem512.identifier(), "ML-KEM-512");
    assert_eq!(Algorithm::MlKem768.identifier(), "ML-KEM-768");
    assert_eq!(Algorithm::MlKem1024.identifier(), "ML-KEM-1024");
    for rejected in ["", "ML-KEM-999", "ml-kem-768", "ML-KEM-768 ", "ML-KEM-10240", "ML-KEM-51"] {
        assert_eq!(Algorithm::from_identifier(rejected), None);
    }
}

#[test]
fn default_parameter_set_is_ml_kem_1024() {
    assert_eq!(Algorithm::default(), Algorithm::MlKem1024);
    assert_eq!(
        Algorithm::ALL,
        [Algorithm::MlKem512, Algorithm::MlKem768, Algorithm::MlKem1024]
    );
}

#[test]
fn error_messages() {
    assert_eq!(Error::InvalidPublicKey.to_string(), "invalid ML-KEM-1024 public key");
    assert_eq!(Error::InvalidSecretKey.to_string(), "invalid ML-KEM-1024 private key");
    assert_eq!(Error::InvalidCiphertext.to_string(), "invalid ML-KEM-1024 ciphertext");
}

#[test]
fn secret_key_error_takes_precedence_over_ciphertext_error() {
    for algorithm in Algorithm::ALL {
        assert_eq!(
            decapsulate_for(algorithm, &[0; 3], &[0; 5]),
            Err(Error::InvalidSecretKey)
        );
    }
}

#[test]
fn zero_objects_of_the_right_size_still_decapsulate() {
    for algorithm in Algorithm::ALL {
        let ciphertext = vec![0; algorithm.ciphertext_bytes()];
        let secret_key = vec![0; algorithm.secret_key_bytes()];
        let first = decapsulate_for(algorithm, &ciphertext, &secret_key).expect("implicit rejection");
        let second = decapsulate_for(algorithm, &ciphertext, &secret_key).expect("implicit rejection");
        assert_eq!(first.expose().len(), 32);
        assert_eq!(first.expose(), second.expose());
    }
}

#[test]
fn generated_objects_have_standardized_sizes() {
    for algorithm in Algorithm::ALL {
        let keys = generate_keypair_for(algorithm);
        assert_eq!(keys.public_key.len(), algorithm.public_key_bytes());
        assert_eq!(keys.secret_key.expose().len(), algorithm.secret_key_bytes());
        let encapsulated = encapsulate_for(algorithm, &keys.public_key).expect("valid key");
        assert_eq!(encapsulated.algorithm, algorithm);
        assert_eq!(encapsulated.ciphertext.len(), algorithm.ciphertext_bytes());
        assert_eq!(encapsulated.shared_secret.expose().len(), 32);
    }
}

#[test]
fn command_names() {
    assert_eq!(Command::from_name("gen"), Ok(Command::Generate));
    assert_eq!(Command::from_name("enc"), Ok(Command::Encapsulate));
    assert_eq!(Command::from_name("dec"), Ok(Command::Decapsulate));
    assert_eq!(
        Command::from_name("sign"),
        Err("unsupported command: sign".to_string())
    );
}

#[test]
fn missing_algorithm_selects_ml_kem_1024() {
    let input = CommonInput { device_id: Some("device-1".to_string()), algo: None };
    assert_eq!(validate_common(&input), Ok(Algorithm::MlKem1024));
    let input = CommonInput { device_id: None, algo: Some("ML-KEM-512".to_string()) };
    assert_eq!(validate_common(&input), Ok(Algorithm::MlKem512));
}

#[test]
fn base64_fields_are_decoded_with_standard_alphabet() {
    assert_eq!(decode("aGVsbG8=", "publicKey"), Ok(b"hello".to_vec()));
    let error = decode("a$", "privateKey").expect_err("invalid symbol");
    assert!(error.starts_with("invalid base64 for privateKey: "));
    assert!(error.len() > "invalid base64 for privateKey: ".len());
}

#[test]
fn encapsulation_request_reports_each_failure() {
    let unknown = EncInput {
        common: CommonInput { device_id: None, algo: Some("ML-KEM-1".to_string()) },
        public_key: "AAAA".to_string(),
    };
    assert_eq!(encapsulate(&unknown).err(), Some("unsupported algorithm: ML-KEM-1".to_string()));
    let short_key = EncInput {
        common: CommonInput { device_id: None, algo: None },
        public_key: "AAAA".to_string(),
    };
    assert_eq!(encapsulate(&short_key).err(), Some("invalid ML-KEM-1024 public key".to_string()));
    let bad_base64 = EncInput {
        common: CommonInput { device_id: None, algo: None },
        public_key: "!!".to_string(),
    };
    assert!(encapsulate(&bad_base64)
        .err()
        .expect("rejected")
        .starts_with("invalid base64 for publicKey: "));
}

#[test]
fn decapsulation_request_checks_private_key_then_ciphertext() {
    let request = DecInput {
        common: CommonInput { device_id: None, algo: None },
        private_key: "AAAA".to_string(),
        ciphertext_b64: "AAAA".to_string(),
    };
    assert_eq!(decapsulate(&request).err(), Some("invalid ML-KEM-1024 private key".to_string()));
    let keys = generate_keypair_for(Algorithm::MlKem768);
    let request = DecInput {
        common: CommonInput { device_id: None, algo: Some("ML-KEM-768".to_string()) },
        private_key: base64_text(keys.secret_key.expose()),
        ciphertext_b64: "AAAA".to_string(),
    };
    assert_eq!(decapsulate(&request).err(), Some(Error::InvalidCiphertext.to_string()));
    let request = DecInput {
        common: CommonInput { device_id: None, algo: Some("ML-KEM-768".to_string()) },
        private_key: base64_text(keys.secret_key.expose()),
        ciphertext_b64: "%%%%".to_string(),
    };
    assert!(decapsulate(&request)
        .err()
        .expect("rejected")
        .starts_with("invalid base64 for ciphertext_b64: "));
}

fn base64_text(bytes: &[u8]) -> String {
    STANDARD.encode(bytes)
}

#[test]
fn selector_bytes_choose_parameter_sets_cyclically() {
    assert_eq!(algorithm(0), Algorithm::MlKem512);
    assert_eq!(algorithm(1), Algorithm::MlKem768);
    assert_eq!(algorithm(2), Algorithm::MlKem1024);
    assert_eq!(algorithm(3), Algorithm::MlKem512);
    assert_eq!(algorithm(255), Algorithm::MlKem512);
    assert_eq!(algorithm(254), Algorithm::MlKem1024);
}

#[test]
fn seeds_wrap_around_the_input() {
    let data = [1u8, 2, 3];
    let seed = expand(&data, 1);
    for index in 0..32 {
        assert_eq!(seed[index], data[(1 + index) % 3]);
    }
    assert_eq!(&seed[..4], &[2, 3, 1, 2]);
    let long: Vec<u8> = (0..100).collect();
    let seed = expand(&long, 65);
    assert_eq!(seed[0], 65);
    assert_eq!(seed[31], 96);
}

#[test]
fn foreign_material_is_rejected_for_seeded_keys() {
    for selector in 0u8..3 {
        let source = algorithm(selector);
        let keys = generate_keypair_for(source);
        let encapsulated = encapsulate_for(source, &keys.public_key).expect("valid key");
        for target in Algorithm::ALL {
            if target == source {
                continue;
            }
            assert_eq!(
                decapsulate_for(target, &encapsulated.ciphertext, keys.secret_key.expose()),
                Err(Error::InvalidSecretKey)
            );
        }
    }
}

#[test]
fn secret_keys_embed_their_public_key() {
    for (algorithm, offset) in [
        (Algorithm::MlKem512, 768),
        (Algorithm::MlKem768, 1152),
        (Algorithm::MlKem1024, 1536),
    ] {
        let keys = generate_keypair_for(algorithm);
        let secret = keys.secret_key.expose();
        let end = offset + algorithm.public_key_bytes();
        assert_eq!(&secret[offset..end], keys.public_key.as_slice());
        assert_eq!(secret.len(), end + 64);
    }
}

#[test]
fn generated_texts_embed_the_public_key_in_the_private_key() {
    let generated = generate(&CommonInput { device_id: None, algo: Some("ML-KEM-512".to_string()) })
        .expect("generation succeeds");
    let public_key = STANDARD.decode(&generated.public_key).expect("base64");
    let private_key = STANDARD.decode(&generated.private_key).expect("base64");
    assert_eq!(public_key.len(), 800);
    assert_eq!(private_key.len(), 1632);
    assert_eq!(&private_key[768..1568], public_key.as_slice());
}

#[test]
fn base64_follows_rfc_4648_test_vectors() {
    let vectors: [(&str, &[u8]); 7] = [
        ("", b""),
        ("Zg==", b"f"),
        ("Zm8=", b"fo"),
        ("Zm9v", b"foo"),
        ("Zm9vYg==", b"foob"),
        ("Zm9vYmE=", b"fooba"),
        ("Zm9vYmFy", b"foobar"),
    ];
    for (text, bytes) in vectors {
        assert_eq!(decode(text, "value"), Ok(bytes.to_vec()));
        assert_eq!(STANDARD.encode(bytes), text);
    }
    assert_eq!(decode("+/+/", "value"), Ok(vec![0xfb, 0xff, 0xbf]));
}

#[test]
fn non_canonical_base64_is_rejected() {
    for text in ["Zh==", "Zg", "Zg=", "Zm9=", "Zg==Zg==", " Zg==", "Zg==\n", "-_-_"] {
        let error = decode(text, "value").expect_err("non-canonical text");
        assert!(error.starts_with("invalid base64 for value: "), "{error}");
    }
}

#[test]
fn white_space_matches_the_standard_library() {
    for value in 0u32..=0x10ffff {
        if let Some(c) = char::from_u32(value) {
            assert_eq!(is_white_space(c), c.is_whitespace(), "{value:#x}");
        }
    }
}

#[test]
fn blank_requests_are_recognized() {
    for text in ["", " ", "\n\t \r", "\u{3000}\u{a0}"] {
        assert!(is_blank(text));
        assert!(text.trim().is_empty());
    }
    for text in ["{}", " x ", "\u{200b}"] {
        assert!(!is_blank(text));
        assert!(!text.trim().is_empty());
    }
}
