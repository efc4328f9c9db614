use majax_mlkem::{decapsulate_for, encapsulate_for, generate_keypair_for, Algorithm, Error};

#[test]
fn every_encoded_object_rejects_short_and_extended_lengths() {
    for algorithm in Algorithm::ALL {
        let keys = generate_keypair_for(algorithm);
        let encapsulated =
            encapsulate_for(algorithm, &keys.public_key).expect("generated key is valid");

        for invalid_length in [
            algorithm.public_key_bytes() - 1,
            algorithm.public_key_bytes() + 1,
        ] {
            assert_eq!(
                encapsulate_for(algorithm, &vec![0; invalid_length]),
                Err(Error::InvalidPublicKey)
            );
        }

        for invalid_length in [
            algorithm.secret_key_bytes() - 1,
            algorithm.secret_key_bytes() + 1,
        ] {
            assert_eq!(
                decapsulate_for(
                    algorithm,
                    &encapsulated.ciphertext,
                    &vec![0; invalid_length],
                ),
                Err(Error::InvalidSecretKey)
            );
        }

        for invalid_length in [
            algorithm.ciphertext_bytes() - 1,
            algorithm.ciphertext_bytes() + 1,
        ] {
            assert_eq!(
                decapsulate_for(
                    algorithm,
                    &vec![0; invalid_length],
                    keys.secret_key.expose(),
                ),
                Err(Error::InvalidCiphertext)
            );
        }
    }
}

#[test]
fn parameter_sets_cannot_exchange_encoded_objects() {
    for source_algorithm in Algorithm::ALL {
        let source_keys = generate_keypair_for(source_algorithm);
        let source_encapsulation = encapsulate_for(source_algorithm, &source_keys.public_key)
            .expect("generated key is valid");

        for target_algorithm in Algorithm::ALL {
            if source_algorithm == target_algorithm {
                continue;
            }

            assert_eq!(
                encapsulate_for(target_algorithm, &source_keys.public_key),
                Err(Error::InvalidPublicKey)
            );
            assert_eq!(
                decapsulate_for(
                    target_algorithm,
                    &source_encapsulation.ciphertext,
                    source_keys.secret_key.expose(),
                ),
                Err(Error::InvalidSecretKey)
            );
        }
    }
}

#[test]
fn altered_ciphertexts_produce_stable_rejection_secrets() {
    for algorithm in Algorithm::ALL {
        let keys = generate_keypair_for(algorithm);
        let encapsulated =
            encapsulate_for(algorithm, &keys.public_key).expect("generated key is valid");

        for position in [
            0,
            algorithm.ciphertext_bytes() / 2,
            algorithm.ciphertext_bytes() - 1,
        ] {
            let mut altered = encapsulated.ciphertext.clone();
            altered[position] ^= 0x80;

            let first = decapsulate_for(algorithm, &altered, keys.secret_key.expose())
                .expect("implicit rejection returns a pseudorandom secret");
            let second = decapsulate_for(algorithm, &altered, keys.secret_key.expose())
                .expect("the rejection path must be deterministic");

            assert_ne!(first.expose(), encapsulated.shared_secret.expose());
            assert_eq!(first.expose(), second.expose());
        }
    }
}
