use majax_mlkem::{
    decapsulate, encapsulate, generate_keypair, Error, CIPHERTEXT_BYTES, PUBLIC_KEY_BYTES,
    SECRET_KEY_BYTES, SHARED_SECRET_BYTES,
};

#[test]
fn exposes_standardized_dimensions() {
    assert_eq!(PUBLIC_KEY_BYTES, 1568);
    assert_eq!(SECRET_KEY_BYTES, 3168);
    assert_eq!(CIPHERTEXT_BYTES, 1568);
    assert_eq!(SHARED_SECRET_BYTES, 32);
}

#[test]
fn encapsulation_and_decapsulation_are_reciprocal() {
    let keys = generate_keypair();
    let encapsulated = encapsulate(&keys.public_key).expect("valid public key");
    let decapsulated = decapsulate(&encapsulated.ciphertext, keys.secret_key.expose())
        .expect("valid ciphertext and private key");

    assert_eq!(encapsulated.shared_secret.expose(), decapsulated.expose());
}

#[test]
fn malformed_objects_are_rejected() {
    assert_eq!(encapsulate(&[0; 12]), Err(Error::InvalidPublicKey));
    assert_eq!(
        decapsulate(&[0; CIPHERTEXT_BYTES], &[0; 12]),
        Err(Error::InvalidSecretKey)
    );
    assert_eq!(
        decapsulate(&[0; 12], &[0; SECRET_KEY_BYTES]),
        Err(Error::InvalidCiphertext)
    );
}

#[test]
fn altered_ciphertext_uses_implicit_rejection() {
    let keys = generate_keypair();
    let encapsulated = encapsulate(&keys.public_key).expect("valid public key");
    let mut altered = encapsulated.ciphertext.clone();
    altered[0] ^= 1;
    let rejected_secret = decapsulate(&altered, keys.secret_key.expose())
        .expect("standardized implicit rejection returns a pseudorandom secret");

    assert_ne!(
        encapsulated.shared_secret.expose(),
        rejected_secret.expose()
    );
}
