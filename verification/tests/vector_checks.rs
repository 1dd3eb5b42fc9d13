use bolt12_payer_proof::vectors::{
    verify_test_vector, ParsedProof, TestVector, TestVectorError, TestVectorExpected,
    TestVectorFile, TestVectorInput,
};

fn vector(valid: bool, proof_hex: &str, merkle_root_hex: &str, bech32: &str) -> TestVector {
    TestVector {
        description: "d".to_string(),
        name: "n".to_string(),
        input: TestVectorInput {
            invoice_hex: String::new(),
            preimage_hex: String::new(),
            payer_secret_key_hex: String::new(),
            included_tlv_types: vec![],
            note: None,
        },
        expected: TestVectorExpected {
            valid,
            merkle_root_hex: merkle_root_hex.to_string(),
            proof_hex: proof_hex.to_string(),
            proof_bech32: bech32.to_string(),
            payer_signature_hex: String::new(),
            error: None,
        },
        comments: None,
    }
}

fn root_hex() -> String {
    "07".repeat(32)
}

fn parsed_ok(bytes: Vec<u8>) -> Result<ParsedProof, String> {
    assert_eq!(bytes, vec![0xab, 0xcd]);
    Ok(ParsedProof { merkle_root: [7u8; 32], bech32: "lnp1xyz".to_string() })
}

#[test]
fn new_file_has_format_header_and_no_vectors() {
    let file = TestVectorFile::new();
    assert_eq!(file.version, "1.0.0");
    assert_eq!(file.description, "BOLT 12 Payer Proof Test Vectors");
    assert_eq!(file.bolt_reference, "https://github.com/lightning/bolts/pull/1295");
    assert_eq!(
        file.implementation_reference,
        "https://github.com/lightningdevkit/rust-lightning/pull/4297"
    );
    assert!(file.vectors.is_empty());
    let default_file = TestVectorFile::default();
    assert_eq!(default_file.version, "1.0.0");
}

#[test]
fn add_vector_appends_in_order() {
    let mut file = TestVectorFile::new();
    file.add_vector(vector(true, "", "", "first"));
    file.add_vector(vector(false, "", "", "second"));
    assert_eq!(file.vectors.len(), 2);
    assert_eq!(file.vectors[0].expected.proof_bech32, "first");
    assert_eq!(file.vectors[1].expected.proof_bech32, "second");
}

#[test]
fn invalid_vector_without_proof_passes_unparsed() {
    let v = vector(false, "", "", "");
    let r = verify_test_vector(&v, |_bytes: Vec<u8>| -> Result<ParsedProof, String> {
        panic!("must not parse")
    });
    assert!(matches!(r, Ok(true)));
}

#[test]
fn bad_proof_hex_is_a_parse_error() {
    let v = vector(true, "abc", "", "");
    let r = verify_test_vector(&v, |_bytes: Vec<u8>| -> Result<ParsedProof, String> {
        panic!("must not parse")
    });
    match r {
        Err(TestVectorError::Parse(m)) => assert_eq!(m, "Invalid proof hex: Odd number of digits"),
        other => panic!("unexpected {:?}", other),
    }
}

#[test]
fn parse_failure_fails_a_valid_vector() {
    let v = vector(true, "abcd", &root_hex(), "lnp1xyz");
    let r = verify_test_vector(&v, |_bytes: Vec<u8>| Err("Decode(InvalidValue)".to_string()));
    match r {
        Err(e @ TestVectorError::Parse(_)) => {
            assert_eq!(e.message(), "Parse error: Failed to parse proof: Decode(InvalidValue)")
        },
        other => panic!("unexpected {:?}", other),
    }
}

#[test]
fn parse_failure_passes_an_invalid_vector() {
    let v = vector(false, "abcd", &root_hex(), "lnp1xyz");
    let r = verify_test_vector(&v, |_bytes: Vec<u8>| Err("Decode(InvalidValue)".to_string()));
    assert!(matches!(r, Ok(true)));
}

#[test]
fn matching_proof_passes_a_valid_vector() {
    let v = vector(true, "ABCD", &root_hex(), "lnp1xyz");
    assert!(matches!(verify_test_vector(&v, parsed_ok), Ok(true)));
}

#[test]
fn merkle_root_mismatch_fails() {
    let v = vector(true, "abcd", &"08".repeat(32), "lnp1xyz");
    match verify_test_vector(&v, parsed_ok) {
        Err(TestVectorError::Verification(m)) => assert_eq!(
            m,
            format!("Merkle root mismatch: expected {}, got {}", "08".repeat(32), root_hex())
        ),
        other => panic!("unexpected {:?}", other),
    }
}

#[test]
fn bech32_mismatch_fails() {
    let v = vector(true, "abcd", &root_hex(), "lnp1other");
    match verify_test_vector(&v, parsed_ok) {
        Err(TestVectorError::Verification(m)) => {
            assert_eq!(m, "Bech32 mismatch: expected lnp1other, got lnp1xyz")
        },
        other => panic!("unexpected {:?}", other),
    }
}

#[test]
fn invalid_vector_whose_proof_verifies_fails() {
    let v = vector(false, "abcd", &root_hex(), "lnp1xyz");
    match verify_test_vector(&v, parsed_ok) {
        Err(TestVectorError::Verification(m)) => {
            assert_eq!(m, "Expected invalid proof but verification passed")
        },
        other => panic!("unexpected {:?}", other),
    }
}

#[test]
fn error_messages() {
    assert_eq!(TestVectorError::OfferBuild("x".into()).message(), "Failed to build offer: x");
    assert_eq!(TestVectorError::InvoiceBuild("y".into()).message(), "Failed to build invoice: y");
    assert_eq!(TestVectorError::Parse("z".into()).message(), "Parse error: z");
    assert_eq!(TestVectorError::Verification("w".into()).message(), "Verification failed: w");
}
