use bitcoin::hashes::sha256::Hash as Sha256;
use bolt12_payer_proof::generator::{
    PaymentProofRequest, ProvenPayment, TestVectorGenerator, EXPERIMENTAL_INVOICE_TLV_TYPE,
};
use bolt12_payer_proof::tlv::last_tlv_type;
use bolt12_payer_proof::vectors::{verify_test_vector, ParsedProof, TestVectorError};
use lightning::offers::invoice::Bolt12Invoice;
use lightning::offers::invoice::UnsignedBolt12Invoice;
use lightning::offers::refund::RefundBuilder;
use lightning::util::ser::Writeable;
use lightning_types::payment::PaymentHash;
use std::time::Duration;

fn sha256(data: &[u8]) -> [u8; 32] {
    <Sha256 as bitcoin::hashes::Hash>::to_byte_array(<Sha256 as bitcoin::hashes::Hash>::hash(data))
}

/// A stand-in for a payer-proof backend: it checks what it is asked and
/// reports a fixed proof.
fn fixed_proof(request: &PaymentProofRequest) -> ProvenPayment {
    ProvenPayment {
        merkle_root: [9u8; 32],
        proof_bytes: vec![request.payer_seed, 1, 2, 3],
        proof_bech32: format!("lnp1stub{}", request.payer_seed),
    }
}

#[test]
fn test_vectors_test_generator_determinism() {
    let gen1 = TestVectorGenerator::new(42);
    let gen2 = TestVectorGenerator::new(42);

    // Same seed should produce same keys
    assert_eq!(gen1.pubkey(1), gen2.pubkey(1));
    assert_eq!(gen1.secret_key(1), gen2.secret_key(1));
}

#[test]
fn extreme_seeds_make_valid_keys() {
    let g = TestVectorGenerator::default();
    assert_eq!(g.secret_key(1).secret_bytes(), [1u8; 32]);
    assert_eq!(g.secret_key(254).secret_bytes(), [254u8; 32]);
}

#[test]
fn basic_vector_from_a_real_invoice() {
    let g = TestVectorGenerator::default();
    let mut seen_hash = None;
    let v = g
        .generate_basic_vector("basic_1", "Basic payer proof", 100, 42, 43, |request| {
            assert_eq!(request.preimage, [100u8; 32]);
            assert_eq!(request.payer_seed, 42);
            assert!(request.note.is_none());
            assert!(request.included_types.is_empty());
            seen_hash = Some(request.invoice.payment_hash().0);
            assert_eq!(request.invoice.signing_pubkey(), g.pubkey(43));
            assert_eq!(request.invoice.amount_msats(), 100_000);
            Ok(fixed_proof(&request))
        })
        .expect("basic vector should generate");
    assert_eq!(seen_hash, Some(sha256(&[100u8; 32])));
    assert_eq!(v.name, "basic_1");
    assert_eq!(v.description, "Basic payer proof");
    assert_eq!(v.input.preimage_hex, "64".repeat(32));
    assert_eq!(v.input.payer_secret_key_hex, "2a".repeat(32));
    assert!(v.input.included_tlv_types.is_empty());
    assert!(v.input.note.is_none());
    assert!(v.expected.valid);
    assert_eq!(v.expected.merkle_root_hex, "09".repeat(32));
    assert_eq!(v.expected.proof_hex, "2a010203");
    assert_eq!(v.expected.proof_bech32, "lnp1stub42");
    assert_eq!(v.expected.payer_signature_hex, "");
    assert!(v.expected.error.is_none());
    assert!(v.comments.is_none());

    let invoice_bytes = hex::decode(&v.input.invoice_hex).expect("invoice hex decodes");
    let invoice = Bolt12Invoice::try_from(invoice_bytes).expect("invoice bytes parse");
    assert_eq!(invoice.payment_hash().0, sha256(&[100u8; 32]));
}

#[test]
fn vector_with_note() {
    let g = TestVectorGenerator::default();
    let v = g
        .generate_vector_with_note("with_note_simple", "Payment for coffee", 150, 50, 51, |request| {
            assert_eq!(request.note.as_deref(), Some("Payment for coffee"));
            Ok(fixed_proof(&request))
        })
        .expect("note vector should generate");
    assert_eq!(v.description, "Payer proof with note: Payment for coffee");
    assert_eq!(v.input.note.as_deref(), Some("Payment for coffee"));
    assert_eq!(v.comments.as_deref(), Some("Proof includes a payer note field"));
    assert_eq!(v.expected.proof_bech32, "lnp1stub50");
}

#[test]
fn backend_failure_is_a_verification_error() {
    let g = TestVectorGenerator::default();
    let r = g.generate_basic_vector("b", "d", 100, 42, 43, |_request| Err("Signing".to_string()));
    match r {
        Err(TestVectorError::Verification(m)) => assert_eq!(m, "Signing"),
        other => panic!("unexpected {:?}", other),
    }
}

#[test]
fn test_generates_vector_with_included_experimental_invoice_tlv() {
    let generator = TestVectorGenerator::default();

    let vector = generator
        .generate_vector_with_included_experimental_invoice_tlv(
            "included_experimental_invoice_tlv",
            210,
            70,
            71,
            |request| {
                assert_eq!(request.included_types, vec![EXPERIMENTAL_INVOICE_TLV_TYPE]);
                Ok(fixed_proof(&request))
            },
        )
        .expect("experimental invoice TLV vector should generate");

    assert_eq!(
        vector.input.included_tlv_types,
        vec![EXPERIMENTAL_INVOICE_TLV_TYPE]
    );
    let parse = |bytes: Vec<u8>| -> Result<ParsedProof, String> {
        assert_eq!(bytes, vec![70, 1, 2, 3]);
        Ok(ParsedProof { merkle_root: [9u8; 32], bech32: "lnp1stub70".to_string() })
    };
    assert!(verify_test_vector(&vector, parse).expect("vector should verify"));

    let invoice_bytes = hex::decode(&vector.input.invoice_hex).expect("invoice hex decodes");
    assert_eq!(last_tlv_type(&invoice_bytes), Some(EXPERIMENTAL_INVOICE_TLV_TYPE));
    Bolt12Invoice::try_from(invoice_bytes).expect("invoice with the experimental TLV parses");
}

#[test]
fn invalid_preimage_vector_records_the_refusal() {
    let g = TestVectorGenerator::default();
    let v = g
        .generate_invalid_preimage_vector("invalid_preimage", 200, 201, 60, 61, |request| {
            assert_eq!(request.preimage, [201u8; 32]);
            assert_ne!(request.invoice.payment_hash().0, sha256(&[201u8; 32]));
            Err("PreimageMismatch".to_string())
        })
        .expect("invalid vector should generate");
    assert_eq!(v.description, "Invalid proof - preimage does not match payment hash");
    assert_eq!(v.input.preimage_hex, "c9".repeat(32));
    assert!(!v.expected.valid);
    assert_eq!(v.expected.proof_hex, "");
    assert_eq!(v.expected.error.as_deref(), Some("PreimageMismatch"));
    assert!(matches!(
        verify_test_vector(&v, |_b: Vec<u8>| -> Result<ParsedProof, String> { panic!("no proof") }),
        Ok(true)
    ));
}

#[test]
fn accepted_wrong_preimage_is_an_error() {
    let g = TestVectorGenerator::default();
    let r = g.generate_invalid_preimage_vector("invalid_preimage", 200, 201, 60, 61, |_request| Ok(()));
    match r {
        Err(TestVectorError::Verification(m)) => {
            assert_eq!(m, "Expected preimage mismatch error but builder succeeded")
        },
        other => panic!("unexpected {:?}", other),
    }
}

#[test]
fn invoices_are_deterministic() {
    let g = TestVectorGenerator::new(1);
    let a = g.create_invoice_from_refund(42, 43, [5u8; 32]).expect("invoice");
    let b = g.create_invoice_from_refund(42, 43, [5u8; 32]).expect("invoice");
    assert_eq!(a.encode(), b.encode());
}

#[test]
fn test_generator_determinism() {
    let gen1 = TestVectorGenerator::new(42);
    let gen2 = TestVectorGenerator::new(42);

    // Same seed should produce same keys
    assert_eq!(gen1.pubkey(1), gen2.pubkey(1));
    assert_eq!(gen1.secret_key(1), gen2.secret_key(1));
}

#[test]
fn test_verify_rejects_tampered_proof_bytes() {
    let generator = TestVectorGenerator::default();

    // The stand-in backend accepts exactly the proof bytes it produced.
    let mut produced = Vec::new();
    let mut vector = generator
        .generate_basic_vector("basic_tampered", "Tampered payer proof", 100, 42, 43, |request| {
            let proven = fixed_proof(&request);
            produced = proven.proof_bytes.clone();
            Ok(proven)
        })
        .expect("basic vector should generate");

    let mut proof_bytes = hex::decode(&vector.expected.proof_hex).expect("proof hex is valid");
    let last_byte = proof_bytes
        .last_mut()
        .expect("generated payer proof should not be empty");
    *last_byte ^= 0x01;
    vector.expected.proof_hex = hex::encode(&proof_bytes);

    let parse = |bytes: Vec<u8>| -> Result<ParsedProof, String> {
        if bytes == produced {
            Ok(ParsedProof { merkle_root: [9u8; 32], bech32: "lnp1stub42".to_string() })
        } else {
            Err("Decode(InvalidValue)".to_string())
        }
    };
    assert!(verify_test_vector(&vector, parse).is_err());
}

#[test]
fn keys_come_from_the_seed_bytes() {
    let g = TestVectorGenerator::new(7);
    let secret = bitcoin::secp256k1::SecretKey::from_slice(&[9u8; 32]).expect("valid key");
    assert_eq!(g.secret_key(9), secret);
    assert_eq!(g.keypair(9).secret_key(), secret);
    assert_eq!(g.keypair(9).public_key(), g.pubkey(9));
    assert_eq!(g.pubkey(9), bitcoin::secp256k1::PublicKey::from_secret_key_global(&secret));
}

#[test]
fn paths_are_deterministic() {
    let a = TestVectorGenerator::new(1);
    let b = TestVectorGenerator::new(2);
    assert_eq!(a.blinded_path(), b.blinded_path());
    assert_eq!(a.payment_paths(), b.payment_paths());
    assert_eq!(a.payment_paths().len(), 1);
}

/// The unsigned invoice that answers the refund of `payer` for `hash`, built
/// with lightning directly.
fn unsigned_invoice(g: &TestVectorGenerator, payer: u8, recipient: u8, hash: [u8; 32]) -> UnsignedBolt12Invoice {
    RefundBuilder::new(vec![payer; 32], g.pubkey(payer), 100_000)
        .expect("refund builder")
        .description("Test refund".into())
        .build()
        .expect("refund")
        .respond_with_no_std(
            g.payment_paths(),
            PaymentHash(hash),
            g.pubkey(recipient),
            Duration::from_secs(1_700_000_000),
        )
        .expect("invoice builder")
        .build()
        .expect("unsigned invoice")
}

#[test]
fn signatures_depend_on_seed_and_message() {
    let g = TestVectorGenerator::default();
    let unsigned = unsigned_invoice(&g, 42, 43, [5u8; 32]);
    let sig1 = g.invoice_sign(43, &unsigned).expect("signature");
    let sig2 = g.invoice_sign(43, &unsigned).expect("signature");
    let sig3 = g.invoice_sign(44, &unsigned).expect("signature");
    assert_eq!(sig1, sig2);
    assert_ne!(sig1, sig3);
    assert_eq!(g.payer_proof_sign(43, &unsigned).expect("signature"), sig1);
    let other = unsigned_invoice(&g, 42, 43, [6u8; 32]);
    assert_ne!(g.invoice_sign(43, &other).expect("signature"), sig1);
    let signed = unsigned
        .sign(|m: &UnsignedBolt12Invoice| g.invoice_sign(43, m))
        .expect("signed invoice");
    assert_eq!(signed.signature(), sig1);
    let made = g.create_invoice_from_refund(42, 43, [5u8; 32]).expect("invoice");
    assert_eq!(made.encode(), signed.encode());
}

#[test]
fn test_experimental_tlv_proof_parses_on_fixed_revision() {
    let generator = TestVectorGenerator::default();

    // lightning 0.2.7 has no payer-proof parser: a stand-in backend and parser
    // agree on the proof bytes, root and bech32 text.
    let mut produced = Vec::new();
    let vector = generator
        .generate_vector_with_included_experimental_invoice_tlv(
            "experimental_regression",
            210,
            70,
            71,
            |request| {
                let proven = fixed_proof(&request);
                produced = proven.proof_bytes.clone();
                Ok(proven)
            },
        )
        .expect("experimental invoice TLV vector should generate");

    let proof_bytes =
        hex::decode(&vector.expected.proof_hex).expect("generated proof hex must be valid");
    assert_eq!(proof_bytes, produced);
    let parse = |bytes: Vec<u8>| -> Result<ParsedProof, String> {
        if bytes == produced {
            Ok(ParsedProof { merkle_root: [9u8; 32], bech32: "lnp1stub70".to_string() })
        } else {
            Err("Decode(InvalidValue)".to_string())
        }
    };
    assert_eq!(hex::encode([9u8; 32]), vector.expected.merkle_root_hex);
    assert_eq!("lnp1stub70", vector.expected.proof_bech32);
    assert!(verify_test_vector(&vector, parse).expect("vector should verify"));

    // The signed invoice ends with the experimental record, after its signature.
    let invoice_bytes = hex::decode(&vector.input.invoice_hex).expect("invoice hex decodes");
    let record: Vec<u8> = [&[0xfe, 0xb2, 0xd0, 0x5e, 0x01, 30][..], &b"experimental-payer-proof-field"[..]].concat();
    assert!(invoice_bytes.ends_with(&record));
}

#[test]
fn note_and_basic_vectors_share_the_invoice() {
    let g = TestVectorGenerator::default();
    let vb = g
        .generate_basic_vector("basic", "d", 150, 50, 51, |request| Ok(fixed_proof(&request)))
        .expect("basic vector");
    let vn = g
        .generate_vector_with_note("note", "Payment for coffee", 150, 50, 51, |request| {
            Ok(fixed_proof(&request))
        })
        .expect("note vector");
    assert_eq!(vn.input.invoice_hex, vb.input.invoice_hex);
    assert_eq!(vn.input.preimage_hex, vb.input.preimage_hex);
    assert_eq!(vn.input.payer_secret_key_hex, vb.input.payer_secret_key_hex);
}

#[test]
fn invalid_and_basic_vectors_share_the_invoice() {
    let g = TestVectorGenerator::default();
    let vb = g
        .generate_basic_vector("basic", "d", 200, 60, 61, |request| Ok(fixed_proof(&request)))
        .expect("basic vector");
    let vi = g
        .generate_invalid_preimage_vector("invalid", 200, 201, 60, 61, |_request| {
            Err("PreimageMismatch".to_string())
        })
        .expect("invalid vector");
    assert_eq!(vi.input.invoice_hex, vb.input.invoice_hex);
    assert_eq!(vi.input.payer_secret_key_hex, vb.input.payer_secret_key_hex);
    assert_eq!(vi.input.preimage_hex, "c9".repeat(32));
    assert_eq!(vb.input.preimage_hex, "c8".repeat(32));
}

#[test]
fn generation_is_deterministic() {
    let v1 = TestVectorGenerator::new(5)
        .generate_basic_vector("b", "d", 100, 42, 43, |request| Ok(fixed_proof(&request)))
        .expect("vector");
    let v2 = TestVectorGenerator::new(5)
        .generate_basic_vector("b", "d", 100, 42, 43, |request| Ok(fixed_proof(&request)))
        .expect("vector");
    assert_eq!(v1.input.invoice_hex, v2.input.invoice_hex);
    assert_eq!(v1.expected.proof_hex, v2.expected.proof_hex);
    assert_eq!(v1.expected.merkle_root_hex, v2.expected.merkle_root_hex);
    assert_eq!(v1.expected.proof_bech32, v2.expected.proof_bech32);
}

#[test]
fn vector_records_the_invoice_for_the_preimage_hash() {
    let g = TestVectorGenerator::default();
    let v = g
        .generate_basic_vector("b", "d", 100, 42, 43, |request| Ok(fixed_proof(&request)))
        .expect("vector");
    let invoice = g.create_invoice_from_refund(42, 43, sha256(&[100u8; 32])).expect("invoice");
    assert_eq!(v.input.invoice_hex, hex::encode(invoice.encode()));
}

#[test]
fn experimental_vector_records_the_extended_invoice() {
    let g = TestVectorGenerator::default();
    let v = g
        .generate_vector_with_included_experimental_invoice_tlv("x", 210, 70, 71, |request| {
            Ok(fixed_proof(&request))
        })
        .expect("vector");
    let bytes = hex::decode(&v.input.invoice_hex).expect("invoice hex decodes");
    let record: Vec<u8> = [&[0xfe, 0xb2, 0xd0, 0x5e, 0x01, 30][..], &b"experimental-payer-proof-field"[..]].concat();
    assert!(bytes.windows(record.len()).any(|w| w == &record[..]));
}
