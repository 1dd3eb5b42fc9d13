# bolt12_payer_proof

Tools for BOLT 12 payer proofs, verified with Verus: reading and extending
TLV streams, hex text, test-vector records and their checks, the generation
of deterministic test vectors from invoices that answer refunds, and the
prefix check and error classification of payer-proof verification.

- `src/` is the verified library:
  - `bigsize.rs`, `tlv.rs`: BigSize integers and TLV streams, with round-trip
    and canonical-stream laws;
  - `hex_codec.rs`: hex text, with its round-trip law;
  - `keys.rs`, `invoice.rs`: secp256k1 keys and BOLT 12 invoices through the
    `bitcoin`, `secp256k1` and `lightning` crates;
  - `vectors.rs`, `generator.rs`: test-vector records, their check, and their
    generation around a payer-proof backend;
  - `payer_proof.rs`: `verify` and `verify_bytes` around a payer-proof parser;
  - `run.rs`: which vectors a generation run makes, and the tally of a
    verification run.
- `app/` is the command-line tool: argument handling, JSON files, printing,
  and the payer-proof backend of rust-lightning.
- `tests/` runs the library on concrete values.
