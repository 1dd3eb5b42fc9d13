//! Verifying payer proofs: the bech32 prefix check and the classification of
//! parse failures. The parser itself, which validates the preimage hash and
//! both signatures, is handed in by the caller.

use vstd::prelude::*;
use lightning::ln::msgs::DecodeError;
use crate::payer_proof::DecodeErrorKind as K;
use lightning::offers::parse::Bolt12ParseError;
use vstd::slice::slice_to_vec;
use vstd::std_specs::iter::IteratorSpec;
use crate::tlv::{canonical_tlv_stream, is_canonical_tlv_stream};

verus! {

/// Why a payer proof failed verification.
#[derive(Debug, Clone, Copy, PartialEq, Eq, Structural)]
pub enum VerifyError {
    /// The input string is not a valid bech32 payer proof (wrong prefix, bad
    /// checksum, or unparseable encoding).
    InvalidBech32,
    /// The proof is structurally malformed: required TLVs are missing, the
    /// merkle proof is inconsistent, or the TLV stream is invalid.
    MalformedProof,
    /// Cryptographic verification failed: the preimage does not match the
    /// payment hash, or the invoice or payer signature is invalid.
    VerificationFailed,
}

impl VerifyError {
    /// The text that describes the error.
    pub open spec fn text(self) -> Seq<char> {
        match self {
            VerifyError::InvalidBech32 => "not a valid bech32 payer proof string (expected 'lnp1...' prefix)"@,
            VerifyError::MalformedProof => "the proof is structurally malformed (missing or inconsistent TLV fields)"@,
            VerifyError::VerificationFailed => "cryptographic verification failed (preimage hash or signature mismatch)"@,
        }
    }

    /// The text that describes the error.
    pub fn message(&self) -> (s: String)
        ensures
            s@ == self.text(),
    {
        match self {
            VerifyError::InvalidBech32 => String::from_str(
                "not a valid bech32 payer proof string (expected 'lnp1...' prefix)",
            ),
            VerifyError::MalformedProof => String::from_str(
                "the proof is structurally malformed (missing or inconsistent TLV fields)",
            ),
            VerifyError::VerificationFailed => String::from_str(
                "cryptographic verification failed (preimage hash or signature mismatch)",
            ),
        }
    }
}

/// Which way decoding a message's TLV stream failed, one variant for each
/// variant of lightning's `DecodeError`.
#[derive(Debug, Clone, Copy, PartialEq, Eq, Structural)]
pub enum DecodeErrorKind {
    UnknownVersion,
    UnknownRequiredFeature,
    InvalidValue,
    ShortRead,
    BadLengthDescriptor,
    Io,
    UnsupportedCompression,
    DangerousValue,
}

/// Which way parsing a BOLT 12 message failed, one variant for each variant
/// of lightning's `Bolt12ParseError`.
#[derive(Debug, Clone, Copy, PartialEq, Eq, Structural)]
pub enum ParseErrorKind {
    InvalidContinuation,
    InvalidLeadingWhitespace,
    InvalidBech32Hrp,
    Bech32,
    Decode(DecodeErrorKind),
    InvalidSemantics,
    InvalidSignature,
}

/// The human-readable part that starts every bech32 payer proof, with its
/// separator.
pub open spec fn proof_prefix() -> Seq<char> {
    "lnp1"@
}

/// `s` begins with `prefix`.
pub open spec fn has_prefix(s: Seq<char>, prefix: Seq<char>) -> bool {
    prefix.len() <= s.len() && s.subrange(0, prefix.len() as int) == prefix
}

/// Whether `s` begins with `prefix`, compared character by character.
pub(crate) fn str_starts_with(s: &str, prefix: &str) -> (r: bool)
    ensures
        r == has_prefix(s@, prefix@),
{
    broadcast use vstd::string::axiom_spec_iter, vstd::string::next_postcondition;

    let mut rest = s.chars();
    let mut wanted = prefix.chars();
    let ghost mut k: int = 0;
    loop
        invariant
            0 <= k <= prefix@.len(),
            k <= s@.len(),
            IteratorSpec::remaining(&rest) == s@.skip(k),
            IteratorSpec::remaining(&wanted) == prefix@.skip(k),
            s@.take(k) == prefix@.take(k),
        decreases prefix@.len() - k,
    {
        let w = wanted.next();
        match w {
            None => {
                assert(prefix@.take(k) =~= prefix@);
                assert(s@.subrange(0, prefix@.len() as int) =~= s@.take(k));
                return true;
            },
            Some(c) => {
                let g = rest.next();
                match g {
                    None => {
                        return false;
                    },
                    Some(d) => {
                        if c != d {
                            proof {
                                assert(s@.skip(k)[0] == d);
                                assert(prefix@.skip(k)[0] == c);
                                if prefix@.len() <= s@.len() {
                                    let head = s@.subrange(0, prefix@.len() as int);
                                    assert(head[k] == s@[k]);
                                    assert(head[k] != prefix@[k]);
                                }
                            }
                            return false;
                        }
                    },
                }
            },
        }
        proof {
            assert(s@.take(k + 1) =~= s@.take(k).push(s@[k]));
            assert(prefix@.take(k + 1) =~= prefix@.take(k).push(prefix@[k]));
            k = k + 1;
        }
    }
}

/// The variant of a lightning `Bolt12ParseError`.
pub uninterp spec fn parse_error_kind_of(e: Bolt12ParseError) -> ParseErrorKind;

/// Which variant of `Bolt12ParseError` an error is, and for a decode error
/// which variant of `DecodeError` it carries.
///
/// Matches the variants of lightning's `Bolt12ParseError` and `DecodeError`,
/// one arm each.
#[verifier::external_body]
pub(crate) fn parse_error_kind(e: &Bolt12ParseError) -> (r: ParseErrorKind)
    ensures
        r == parse_error_kind_of(*e),
{
    match e {
        Bolt12ParseError::InvalidContinuation => ParseErrorKind::InvalidContinuation,
        Bolt12ParseError::InvalidLeadingWhitespace => ParseErrorKind::InvalidLeadingWhitespace,
        Bolt12ParseError::InvalidBech32Hrp => ParseErrorKind::InvalidBech32Hrp,
        Bolt12ParseError::Bech32(_) => ParseErrorKind::Bech32,
        Bolt12ParseError::Decode(d) => ParseErrorKind::Decode(match d {
            DecodeError::UnknownVersion => K::UnknownVersion, DecodeError::InvalidValue => K::InvalidValue,
            DecodeError::UnknownRequiredFeature => K::UnknownRequiredFeature, DecodeError::Io(_) => K::Io,
            DecodeError::ShortRead => K::ShortRead, DecodeError::BadLengthDescriptor => K::BadLengthDescriptor,
            DecodeError::UnsupportedCompression => K::UnsupportedCompression, DecodeError::DangerousValue => K::DangerousValue,
        }),
        Bolt12ParseError::InvalidSemantics(_) => ParseErrorKind::InvalidSemantics,
        Bolt12ParseError::InvalidSignature(_) => ParseErrorKind::InvalidSignature,
    }
}

/// The verification error for a kind of parse failure:
/// - text that is not a valid bech32 encoding (bad continuation, leading
///   whitespace, wrong human-readable part, bad checksum or characters) is
///   invalid bech32;
/// - missing required fields, and a TLV stream that cannot be read (cut
///   short, bad lengths, unknown even types, unknown versions), make a
///   malformed proof;
/// - an invalid value, which is how a failed hash or signature check inside
///   the TLV stream is reported, a dangerous value and an invalid signature
///   are verification failures, since the proof cannot be trusted.
pub open spec fn verify_error_of_kind(kind: ParseErrorKind) -> VerifyError {
    match kind {
        ParseErrorKind::InvalidContinuation => VerifyError::InvalidBech32,
        ParseErrorKind::InvalidLeadingWhitespace => VerifyError::InvalidBech32,
        ParseErrorKind::InvalidBech32Hrp => VerifyError::InvalidBech32,
        ParseErrorKind::Bech32 => VerifyError::InvalidBech32,
        ParseErrorKind::InvalidSemantics => VerifyError::MalformedProof,
        ParseErrorKind::Decode(DecodeErrorKind::InvalidValue) => VerifyError::VerificationFailed,
        ParseErrorKind::Decode(DecodeErrorKind::DangerousValue) => VerifyError::VerificationFailed,
        ParseErrorKind::Decode(_) => VerifyError::MalformedProof,
        ParseErrorKind::InvalidSignature => VerifyError::VerificationFailed,
    }
}

/// The verification error for a kind of parse failure.
pub fn verify_error_for_kind(kind: ParseErrorKind) -> (r: VerifyError)
    ensures
        r == verify_error_of_kind(kind),
{
    match kind {
        ParseErrorKind::InvalidContinuation => VerifyError::InvalidBech32,
        ParseErrorKind::InvalidLeadingWhitespace => VerifyError::InvalidBech32,
        ParseErrorKind::InvalidBech32Hrp => VerifyError::InvalidBech32,
        ParseErrorKind::Bech32 => VerifyError::InvalidBech32,
        ParseErrorKind::InvalidSemantics => VerifyError::MalformedProof,
        ParseErrorKind::Decode(DecodeErrorKind::InvalidValue) => VerifyError::VerificationFailed,
        ParseErrorKind::Decode(DecodeErrorKind::DangerousValue) => VerifyError::VerificationFailed,
        ParseErrorKind::Decode(_) => VerifyError::MalformedProof,
        ParseErrorKind::InvalidSignature => VerifyError::VerificationFailed,
    }
}

/// Map a lightning `Bolt12ParseError` to the library's error type, by the
/// classes of [`verify_error_of_kind`].
pub fn map_parse_error(e: Bolt12ParseError) -> (r: VerifyError)
    ensures
        r == verify_error_of_kind(parse_error_kind_of(e)),
{
    verify_error_for_kind(parse_error_kind(&e))
}

/// Verify a payer proof from its bech32 encoding (`lnp1...`).
///
/// Text without the `lnp1` prefix is refused at once as invalid bech32;
/// otherwise `parse` decodes it and performs full cryptographic validation
/// (preimage hash, invoice signature, payer signature), and its errors are
/// mapped by [`map_parse_error`].
pub fn verify<P, F: FnOnce(&str) -> Result<P, Bolt12ParseError>>(proof: &str, parse: F) -> (r: Result<
    P,
    VerifyError,
>)
    requires
        call_requires(parse, (proof,)),
    ensures
        !has_prefix(proof@, proof_prefix()) ==> r == Err::<P, VerifyError>(VerifyError::InvalidBech32),
        has_prefix(proof@, proof_prefix()) ==> exists|out: Result<P, Bolt12ParseError>|
            {
                &&& call_ensures(parse, (proof,), out)
                &&& match out {
                    Ok(p) => r == Ok::<P, VerifyError>(p),
                    Err(e) => r == Err::<P, VerifyError>(verify_error_of_kind(parse_error_kind_of(e))),
                }
            },
{
    if !str_starts_with(proof, "lnp1") {
        return Err(VerifyError::InvalidBech32);
    }
    let out = parse(proof);
    proof {
        assert(call_ensures(parse, (proof,), out));
    }
    match out {
        Ok(p) => Ok(p),
        Err(e) => Err(map_parse_error(e)),
    }
}

/// Verify a payer proof from its raw TLV bytes.
///
/// Bytes that are not a canonical TLV stream (records that do not end
/// exactly at the end, or types that do not strictly ascend) are refused at
/// once as a malformed proof; otherwise `parse` reads a copy of the bytes as
/// a payer proof with full cryptographic validation, and its errors are
/// mapped by [`map_parse_error`].
pub fn verify_bytes<P, F: FnOnce(Vec<u8>) -> Result<P, Bolt12ParseError>>(bytes: &[u8], parse: F) -> (r: Result<
    P,
    VerifyError,
>)
    requires
        forall|b: Vec<u8>| call_requires(parse, (b,)),
    ensures
        !canonical_tlv_stream(bytes@) ==> r == Err::<P, VerifyError>(VerifyError::MalformedProof),
        canonical_tlv_stream(bytes@) ==> exists|input: Vec<u8>, out: Result<P, Bolt12ParseError>|
            {
                &&& input@ == bytes@
                &&& call_ensures(parse, (input,), out)
                &&& match out {
                    Ok(p) => r == Ok::<P, VerifyError>(p),
                    Err(e) => r == Err::<P, VerifyError>(verify_error_of_kind(parse_error_kind_of(e))),
                }
            },
{
    if !is_canonical_tlv_stream(bytes) {
        return Err(VerifyError::MalformedProof);
    }
    let input = slice_to_vec(bytes);
    let ghost copied = input;
    let out = parse(input);
    proof {
        assert(call_ensures(parse, (copied,), out));
    }
    match out {
        Ok(p) => Ok(p),
        Err(e) => Err(map_parse_error(e)),
    }
}

} // verus!
