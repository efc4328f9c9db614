# majax-mlkem

ML-KEM key encapsulation (FIPS 203) for ML-KEM-512, ML-KEM-768 and
ML-KEM-1024 behind one typed Rust API, written in Verus.

- `src/params.rs`: parameter sets, identifiers, standardized sizes, errors.
- `src/kem.rs`: key generation, encapsulation and decapsulation; the
  validation of serialized objects and the error each malformed input gets.
- `src/backend.rs`: the calls into the PQClean implementation of
  `pqcrypto-mlkem`.
- `src/encoding.rs`: standard base64 through the `base64` crate.
- `src/cli.rs`: the `gen` / `enc` / `dec` JSON command contract over decoded
  requests.
- `src/seeds.rs`: parameter-set selection and seed expansion from raw bytes.
- `src/laws.rs`: properties relating the operations to one another.
- `app/main.rs`: the `mlkem-cli` program (stdin, JSON, exit codes).
