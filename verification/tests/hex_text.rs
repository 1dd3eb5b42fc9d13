use bolt12_payer_proof::vectors::{
    verify_test_vector, ParsedProof, TestVector, TestVectorError, TestVectorExpected,
    TestVectorInput,
};

fn vector(proof_hex: &str, merkle_root_hex: &str) -> TestVector {
    TestVector {
        description: "hex".to_string(),
        name: "hex".to_string(),
        input: TestVectorInput {
            invoice_hex: String::new(),
            preimage_hex: String::new(),
            payer_secret_key_hex: String::new(),
            included_tlv_types: vec![],
            note: None,
        },
        expected: TestVectorExpected {
            valid: true,
            merkle_root_hex: merkle_root_hex.to_string(),
            proof_hex: proof_hex.to_string(),
            proof_bech32: "lnp1hex".to_string(),
            payer_signature_hex: String::new(),
            error: None,
        },
        comments: None,
    }
}

/// The bytes that `verify_test_vector` hands to the parser for `proof_hex`,
/// or the error it reports.
fn decoded(proof_hex: &str) -> Result<Vec<u8>, TestVectorError> {
    let mut seen = None;
    let r = verify_test_vector(&vector(proof_hex, &"00".repeat(32)), |bytes: Vec<u8>| {
        seen = Some(bytes);
        Ok(ParsedProof { merkle_root: [0u8; 32], bech32: "lnp1hex".to_string() })
    });
    r.map(|_| seen.expect("the proof was parsed"))
}

/// The hex that `verify_test_vector` reports for a parsed merkle root.
fn encoded_root(root: [u8; 32]) -> String {
    let r = verify_test_vector(&vector("00", "not hex"), |_bytes: Vec<u8>| {
        Ok(ParsedProof { merkle_root: root, bech32: "lnp1hex".to_string() })
    });
    match r {
        Err(TestVectorError::Verification(m)) => m
            .strip_prefix("Merkle root mismatch: expected not hex, got ")
            .expect("a merkle root mismatch")
            .to_string(),
        other => panic!("unexpected {:?}", other),
    }
}

#[test]
fn encodes_lower_case_two_digits_per_byte() {
    let mut root = [0u8; 32];
    root[0] = 0x00;
    root[1] = 0x0f;
    root[2] = 0xa0;
    root[3] = 0xff;
    root[4] = 100;
    assert_eq!(encoded_root(root), format!("000fa0ff64{}", "00".repeat(27)));
}

#[test]
fn decodes_either_case() {
    assert_eq!(decoded("000fA0ff").unwrap(), vec![0x00, 0x0f, 0xa0, 0xff]);
    assert_eq!(decoded("").unwrap(), Vec::<u8>::new());
}

#[test]
fn decode_refusals_carry_the_message() {
    match decoded("abc") {
        Err(TestVectorError::Parse(m)) => assert_eq!(m, "Invalid proof hex: Odd number of digits"),
        other => panic!("unexpected {:?}", other),
    }
    match decoded("12g4") {
        Err(TestVectorError::Parse(m)) => {
            assert_eq!(m, "Invalid proof hex: Invalid character 'g' at position 2")
        },
        other => panic!("unexpected {:?}", other),
    }
}

#[test]
fn round_trip() {
    let bytes: Vec<u8> = (0..=255u8).collect();
    let mut root = [0u8; 32];
    root.copy_from_slice(&bytes[100..132]);
    let text = encoded_root(root);
    assert_eq!(decoded(&text).unwrap(), bytes[100..132].to_vec());
    assert_eq!(text, hex::encode(&bytes[100..132]));
}
