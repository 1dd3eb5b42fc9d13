//! lightning 0.2.7 has no payer-proof parser; where a parser must run, the
//! BOLT 12 invoice parser, which fails with the same error type, stands in.

use bolt12_payer_proof::payer_proof::{
    map_parse_error, verify, verify_bytes, verify_error_for_kind, DecodeErrorKind, ParseErrorKind,
    VerifyError,
};
use lightning::ln::msgs::DecodeError;
use lightning::offers::offer::Offer;
use lightning::offers::invoice::Bolt12Invoice;
use lightning::offers::parse::{Bolt12ParseError, Bolt12SemanticError};

fn never_parse(_s: &str) -> Result<(), Bolt12ParseError> {
    panic!("text without the payer-proof prefix must not be parsed")
}

fn parse_as_invoice(bytes: Vec<u8>) -> Result<Bolt12Invoice, Bolt12ParseError> {
    Bolt12Invoice::try_from(bytes)
}

#[test]
fn empty_string_is_invalid_bech32() {
    assert_eq!(verify("", never_parse).unwrap_err(), VerifyError::InvalidBech32);
}

#[test]
fn wrong_prefix_is_invalid_bech32() {
    assert_eq!(verify("lno1...", never_parse).unwrap_err(), VerifyError::InvalidBech32);
    assert_eq!(verify("hello", never_parse).unwrap_err(), VerifyError::InvalidBech32);
}

#[test]
fn invalid_bech32_prefix_rejected() {
    assert_eq!(verify("lni1qqqs", never_parse).unwrap_err(), VerifyError::InvalidBech32);
    assert_eq!(verify("", never_parse).unwrap_err(), VerifyError::InvalidBech32);
}

#[test]
fn prefixed_text_is_handed_to_the_parser() {
    let r = verify("lnp1abc", |s: &str| -> Result<usize, Bolt12ParseError> { Ok(s.len()) });
    assert_eq!(r, Ok(7));
    let r = verify("lnp1abc", |_s: &str| -> Result<usize, Bolt12ParseError> {
        Err(Bolt12ParseError::InvalidSemantics(Bolt12SemanticError::MissingAmount))
    });
    assert_eq!(r, Err(VerifyError::MalformedProof));
    let r = verify("lnp1abc", |_s: &str| -> Result<usize, Bolt12ParseError> {
        Err(Bolt12ParseError::InvalidBech32Hrp)
    });
    assert_eq!(r, Err(VerifyError::InvalidBech32));
    let r = verify("lnp1abc", |_s: &str| -> Result<usize, Bolt12ParseError> {
        Err(Bolt12ParseError::Decode(DecodeError::InvalidValue))
    });
    assert_eq!(r, Err(VerifyError::VerificationFailed));
}

#[test]
fn empty_bytes_fail() {
    assert!(verify_bytes(&[], parse_as_invoice).is_err());
}

fn never_parse_bytes(_b: Vec<u8>) -> Result<(), Bolt12ParseError> {
    panic!("bytes that are not a canonical TLV stream must not be parsed")
}

#[test]
fn invalid_tlv_stream_is_malformed() {
    // a record whose length runs past the end
    assert_eq!(verify_bytes(&[0xff; 64], never_parse_bytes).unwrap_err(), VerifyError::MalformedProof);
    assert_eq!(verify_bytes(&[0xff; 64], parse_as_invoice).unwrap_err(), VerifyError::MalformedProof);
    // types out of order
    assert_eq!(verify_bytes(&[3, 0, 1, 0], never_parse_bytes).unwrap_err(), VerifyError::MalformedProof);
    // a repeated type
    assert_eq!(verify_bytes(&[1, 0, 1, 0], never_parse_bytes).unwrap_err(), VerifyError::MalformedProof);
    // a type cut short
    assert_eq!(verify_bytes(&[0xfd, 0x01], never_parse_bytes).unwrap_err(), VerifyError::MalformedProof);
}

#[test]
fn bad_encoding_after_the_prefix_is_invalid_bech32() {
    let r = verify("lnp1qqqq", |s: &str| s.parse::<Offer>());
    assert_eq!(r.unwrap_err(), VerifyError::InvalidBech32);
}

#[test]
fn garbage_bytes_fail() {
    assert!(verify_bytes(&[0xff; 64], parse_as_invoice).is_err());
}

#[test]
fn bytes_are_handed_over_unchanged() {
    let r = verify_bytes(&[1, 1, 3, 5, 0], |b: Vec<u8>| -> Result<Vec<u8>, Bolt12ParseError> { Ok(b) });
    assert_eq!(r, Ok(vec![1, 1, 3, 5, 0]));
}

#[test]
fn parse_errors_map_by_kind() {
    assert_eq!(
        map_parse_error(Bolt12ParseError::InvalidSemantics(Bolt12SemanticError::MissingAmount)),
        VerifyError::MalformedProof
    );
    assert_eq!(map_parse_error(Bolt12ParseError::InvalidContinuation), VerifyError::InvalidBech32);
    assert_eq!(map_parse_error(Bolt12ParseError::InvalidLeadingWhitespace), VerifyError::InvalidBech32);
    assert_eq!(map_parse_error(Bolt12ParseError::InvalidBech32Hrp), VerifyError::InvalidBech32);
    assert_eq!(
        map_parse_error(Bolt12ParseError::Decode(DecodeError::ShortRead)),
        VerifyError::MalformedProof
    );
    assert_eq!(
        map_parse_error(Bolt12ParseError::Decode(DecodeError::BadLengthDescriptor)),
        VerifyError::MalformedProof
    );
    assert_eq!(
        map_parse_error(Bolt12ParseError::Decode(DecodeError::UnknownRequiredFeature)),
        VerifyError::MalformedProof
    );
    assert_eq!(
        map_parse_error(Bolt12ParseError::Decode(DecodeError::InvalidValue)),
        VerifyError::VerificationFailed
    );
    assert_eq!(
        map_parse_error(Bolt12ParseError::InvalidSignature(bitcoin::secp256k1::Error::InvalidSignature)),
        VerifyError::VerificationFailed
    );
    assert_eq!(verify_error_for_kind(ParseErrorKind::InvalidSemantics), VerifyError::MalformedProof);
    assert_eq!(verify_error_for_kind(ParseErrorKind::Bech32), VerifyError::InvalidBech32);
    assert_eq!(
        verify_error_for_kind(ParseErrorKind::Decode(DecodeErrorKind::ShortRead)),
        VerifyError::MalformedProof
    );
    assert_eq!(
        verify_error_for_kind(ParseErrorKind::Decode(DecodeErrorKind::InvalidValue)),
        VerifyError::VerificationFailed
    );
    assert_eq!(verify_error_for_kind(ParseErrorKind::InvalidSignature), VerifyError::VerificationFailed);
}

#[test]
fn verify_error_messages() {
    assert_eq!(
        VerifyError::InvalidBech32.message(),
        "not a valid bech32 payer proof string (expected 'lnp1...' prefix)"
    );
    assert_eq!(
        VerifyError::MalformedProof.message(),
        "the proof is structurally malformed (missing or inconsistent TLV fields)"
    );
    assert_eq!(
        VerifyError::VerificationFailed.message(),
        "cryptographic verification failed (preimage hash or signature mismatch)"
    );
}
