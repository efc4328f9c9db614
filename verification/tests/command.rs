use majax_mlkem::cli::{
    decapsulate, encapsulate, generate, CommonInput, DecInput, EncInput,
};
use majax_mlkem::Algorithm;

fn common(algo: Option<&str>) -> CommonInput {
    CommonInput {
        device_id: None,
        algo: algo.map(|value| value.to_string()),
    }
}

#[test]
fn json_contract_supports_every_parameter_set() {
    for algorithm in Algorithm::ALL {
        let generated = generate(&common(Some(algorithm.identifier()))).expect("generation succeeds");
        let encapsulated = encapsulate(&EncInput {
            common: common(Some(algorithm.identifier())),
            public_key: generated.public_key.clone(),
        })
        .expect("encapsulation succeeds");
        let decapsulated = decapsulate(&DecInput {
            common: common(Some(algorithm.identifier())),
            private_key: generated.private_key.clone(),
            ciphertext_b64: encapsulated.ciphertext_b64.clone(),
        })
        .expect("decapsulation succeeds");

        assert_eq!(generated.algo, algorithm.identifier());
        assert_eq!(encapsulated.algo, algorithm.identifier());
        assert_eq!(decapsulated.algo, algorithm.identifier());
        assert_eq!(
            encapsulated.shared_secret_b64,
            decapsulated.shared_secret_b64
        );
    }
}

#[test]
fn json_contract_defaults_to_ml_kem_1024() {
    let generated = generate(&common(None)).expect("generation succeeds");
    assert_eq!(generated.algo, Algorithm::MlKem1024.identifier());
}

#[test]
fn json_contract_rejects_unknown_parameter_sets() {
    let error = generate(&common(Some("ML-KEM-999")))
        .err()
        .expect("algorithm is rejected");
    assert_eq!(error, "unsupported algorithm: ML-KEM-999");
}
