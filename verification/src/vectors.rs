//! Test-vector records for payer proofs, the file that collects them, their
//! errors, and the check of one vector against a parsed proof.

use vstd::prelude::*;
use crate::hex_codec::{hex_decode, hex_decode_error_text, hex_decoding, hex_encode, hex_encoding};

verus! {

/// A single test vector for payer proof verification.
#[derive(Debug, Clone)]
pub struct TestVector {
    /// Human-readable description of this test vector.
    pub description: String,
    /// The test case name/identifier.
    pub name: String,
    /// Input data for the test.
    pub input: TestVectorInput,
    /// Expected output/results.
    pub expected: TestVectorExpected,
    /// Optional comments or notes.
    pub comments: Option<String>,
}

/// Input data for a test vector.
#[derive(Debug, Clone)]
pub struct TestVectorInput {
    /// The BOLT 12 invoice bytes in hex.
    pub invoice_hex: String,
    /// The payment preimage in hex (32 bytes).
    pub preimage_hex: String,
    /// The payer's secret key in hex (32 bytes).
    pub payer_secret_key_hex: String,
    /// TLV types to include in the proof (for selective disclosure).
    pub included_tlv_types: Vec<u64>,
    /// Optional note to include in the proof.
    pub note: Option<String>,
}

/// Expected outputs for a test vector.
#[derive(Debug, Clone)]
pub struct TestVectorExpected {
    /// Whether the proof should be valid.
    pub valid: bool,
    /// The expected merkle root in hex.
    pub merkle_root_hex: String,
    /// The expected payer proof bytes in hex.
    pub proof_hex: String,
    /// The expected bech32-encoded proof.
    pub proof_bech32: String,
    /// Expected payer signature in hex; left empty, as the proof does not
    /// expose the signature apart from its bytes.
    pub payer_signature_hex: String,
    /// Optional error message if invalid.
    pub error: Option<String>,
}

/// A collection of test vectors.
#[derive(Debug, Clone)]
pub struct TestVectorFile {
    /// File format version.
    pub version: String,
    /// Description of this test vector file.
    pub description: String,
    /// Reference to the BOLT specification.
    pub bolt_reference: String,
    /// Reference to the implementation.
    pub implementation_reference: String,
    /// The test vectors.
    pub vectors: Vec<TestVector>,
}

/// The text of an optional string.
pub open spec fn opt_text(o: Option<String>) -> Option<Seq<char>> {
    match o {
        Some(s) => Some(s@),
        None => None,
    }
}

/// The content of a [`TestVectorInput`].
pub struct InputView {
    pub invoice_hex: Seq<char>,
    pub preimage_hex: Seq<char>,
    pub payer_secret_key_hex: Seq<char>,
    pub included_tlv_types: Seq<u64>,
    pub note: Option<Seq<char>>,
}

/// The content of a [`TestVectorExpected`].
pub struct ExpectedView {
    pub valid: bool,
    pub merkle_root_hex: Seq<char>,
    pub proof_hex: Seq<char>,
    pub proof_bech32: Seq<char>,
    pub payer_signature_hex: Seq<char>,
    pub error: Option<Seq<char>>,
}

/// The content of a [`TestVector`].
pub struct VectorView {
    pub description: Seq<char>,
    pub name: Seq<char>,
    pub input: InputView,
    pub expected: ExpectedView,
    pub comments: Option<Seq<char>>,
}

impl View for TestVectorInput {
    type V = InputView;

    open spec fn view(&self) -> InputView {
        InputView {
            invoice_hex: self.invoice_hex@,
            preimage_hex: self.preimage_hex@,
            payer_secret_key_hex: self.payer_secret_key_hex@,
            included_tlv_types: self.included_tlv_types@,
            note: opt_text(self.note),
        }
    }
}

impl View for TestVectorExpected {
    type V = ExpectedView;

    open spec fn view(&self) -> ExpectedView {
        ExpectedView {
            valid: self.valid,
            merkle_root_hex: self.merkle_root_hex@,
            proof_hex: self.proof_hex@,
            proof_bech32: self.proof_bech32@,
            payer_signature_hex: self.payer_signature_hex@,
            error: opt_text(self.error),
        }
    }
}

impl View for TestVector {
    type V = VectorView;

    open spec fn view(&self) -> VectorView {
        VectorView {
            description: self.description@,
            name: self.name@,
            input: self.input@,
            expected: self.expected@,
            comments: opt_text(self.comments),
        }
    }
}

/// Errors specific to test vector operations.
#[derive(Debug, Clone)]
pub enum TestVectorError {
    OfferBuild(String),
    InvoiceBuild(String),
    Parse(String),
    Verification(String),
}

/// The content of a [`TestVectorError`].
pub enum TestVectorFailure {
    OfferBuild(Seq<char>),
    InvoiceBuild(Seq<char>),
    Parse(Seq<char>),
    Verification(Seq<char>),
}

impl View for TestVectorError {
    type V = TestVectorFailure;

    open spec fn view(&self) -> TestVectorFailure {
        match self {
            TestVectorError::OfferBuild(s) => TestVectorFailure::OfferBuild(s@),
            TestVectorError::InvoiceBuild(s) => TestVectorFailure::InvoiceBuild(s@),
            TestVectorError::Parse(s) => TestVectorFailure::Parse(s@),
            TestVectorError::Verification(s) => TestVectorFailure::Verification(s@),
        }
    }
}

impl TestVectorFailure {
    /// The text that describes the failure.
    pub open spec fn message(self) -> Seq<char> {
        match self {
            TestVectorFailure::OfferBuild(s) => "Failed to build offer: "@ + s,
            TestVectorFailure::InvoiceBuild(s) => "Failed to build invoice: "@ + s,
            TestVectorFailure::Parse(s) => "Parse error: "@ + s,
            TestVectorFailure::Verification(s) => "Verification failed: "@ + s,
        }
    }
}

/// The content of an outcome that may carry a [`TestVectorError`].
pub open spec fn outcome_view<T>(r: Result<T, TestVectorError>) -> Result<T, TestVectorFailure> {
    match r {
        Ok(x) => Ok(x),
        Err(e) => Err(e@),
    }
}

impl TestVectorError {
    /// The text that describes the error.
    pub fn message(&self) -> (s: String)
        ensures
            s@ == self@.message(),
    {
        let (mut s, detail) = match self {
            TestVectorError::OfferBuild(d) => (String::from_str("Failed to build offer: "), d),
            TestVectorError::InvoiceBuild(d) => (String::from_str("Failed to build invoice: "), d),
            TestVectorError::Parse(d) => (String::from_str("Parse error: "), d),
            TestVectorError::Verification(d) => (String::from_str("Verification failed: "), d),
        };
        s.append(detail.as_str());
        s
    }
}

impl TestVectorFile {
    /// A file with this format's version, description and references, and no
    /// vectors yet.
    pub open spec fn is_fresh(&self) -> bool {
        &&& self.version@ == "1.0.0"@
        &&& self.description@ == "BOLT 12 Payer Proof Test Vectors"@
        &&& self.bolt_reference@ == "https://github.com/lightning/bolts/pull/1295"@
        &&& self.implementation_reference@
            == "https://github.com/lightningdevkit/rust-lightning/pull/4297"@
        &&& self.vectors@.len() == 0
    }

    pub fn new() -> (f: Self)
        ensures
            f.is_fresh(),
    {
        Self {
            version: String::from_str("1.0.0"),
            description: String::from_str("BOLT 12 Payer Proof Test Vectors"),
            bolt_reference: String::from_str("https://github.com/lightning/bolts/pull/1295"),
            implementation_reference: String::from_str(
                "https://github.com/lightningdevkit/rust-lightning/pull/4297",
            ),
            vectors: Vec::new(),
        }
    }

    pub fn add_vector(&mut self, vector: TestVector)
        ensures
            final(self).vectors@ == old(self).vectors@.push(vector),
            final(self).version == old(self).version,
            final(self).description == old(self).description,
            final(self).bolt_reference == old(self).bolt_reference,
            final(self).implementation_reference == old(self).implementation_reference,
    {
        self.vectors.push(vector);
    }
}

impl Default for TestVectorFile {
    fn default() -> (f: Self)
        ensures
            f.is_fresh(),
    {
        Self::new()
    }
}

/// The files of a run of additions: `files[0]` is fresh, and each next file
/// holds the vectors of the one before with the next vector appended, as
/// `add_vector` leaves it.
pub open spec fn successive_additions(files: Seq<TestVectorFile>, vs: Seq<TestVector>) -> bool {
    &&& files.len() == vs.len() + 1
    &&& files[0].is_fresh()
    &&& forall|i: int|
        0 <= i < vs.len() ==> #[trigger] files[i + 1].vectors@ == files[i].vectors@.push(vs[i])
}

proof fn lemma_additions_prefix(files: Seq<TestVectorFile>, vs: Seq<TestVector>, k: int)
    requires
        successive_additions(files, vs),
        0 <= k <= vs.len(),
    ensures
        files[k].vectors@ == vs.take(k),
    decreases k,
{
    if k > 0 {
        lemma_additions_prefix(files, vs, k - 1);
        assert(files[k].vectors@ == files[k - 1].vectors@.push(vs[k - 1]));
        assert(vs.take(k - 1).push(vs[k - 1]) =~= vs.take(k));
    } else {
        assert(vs.take(0) =~= Seq::<TestVector>::empty());
    }
}

/// Adding vectors one by one to a fresh file keeps them all, in the order
/// they were added, equal vectors included.
pub proof fn lemma_added_vectors_in_order(files: Seq<TestVectorFile>, vs: Seq<TestVector>)
    requires
        successive_additions(files, vs),
    ensures
        files.last().vectors@ == vs,
        files.last().vectors@.len() == vs.len(),
{
    lemma_additions_prefix(files, vs, vs.len() as int);
    assert(vs.take(vs.len() as int) =~= vs);
}

/// What the check of a vector reads from a proof that parsed and verified:
/// its merkle root and its bech32 text.
pub struct ParsedProof {
    pub merkle_root: [u8; 32],
    pub bech32: String,
}

/// The content of the outcome of parsing a proof.
pub open spec fn parsed_view(r: Result<ParsedProof, String>) -> Result<(Seq<u8>, Seq<char>), Seq<char>> {
    match r {
        Ok(p) => Ok((p.merkle_root@, p.bech32@)),
        Err(e) => Err(e@),
    }
}

/// Where the check of a vector stands before the proof is parsed.
pub enum VectorCheckStart {
    /// The outcome is known without parsing.
    Settled(Result<bool, TestVectorFailure>),
    /// The proof bytes to parse.
    Parse(Seq<u8>),
}

/// The first part of checking a vector: an invalid vector without proof
/// passes, proof hex that does not decode is a parse error, and otherwise its
/// bytes are to be parsed.
pub open spec fn vector_check_start(v: VectorView) -> VectorCheckStart {
    if !v.expected.valid && v.expected.proof_hex.len() == 0 {
        VectorCheckStart::Settled(Ok(true))
    } else {
        match hex_decoding(v.expected.proof_hex) {
            None => VectorCheckStart::Settled(
                Err(
                    TestVectorFailure::Parse(
                        "Invalid proof hex: "@ + hex_decode_error_text(v.expected.proof_hex),
                    ),
                ),
            ),
            Some(b) => VectorCheckStart::Parse(b),
        }
    }
}

/// The second part of checking a vector, given the outcome of parsing its
/// proof (merkle root and bech32 text, or the parse error's text): a failed
/// parse passes only an invalid vector; a parsed proof must have the expected
/// merkle root and bech32 text, and then passes only a valid vector.
pub open spec fn vector_check_finish(
    v: VectorView,
    parsed: Result<(Seq<u8>, Seq<char>), Seq<char>>,
) -> Result<bool, TestVectorFailure> {
    match parsed {
        Err(msg) => if !v.expected.valid {
            Ok(true)
        } else {
            Err(TestVectorFailure::Parse("Failed to parse proof: "@ + msg))
        },
        Ok((root, bech32)) => {
            let actual_root = hex_encoding(root);
            if v.expected.merkle_root_hex != actual_root {
                Err(
                    TestVectorFailure::Verification(
                        "Merkle root mismatch: expected "@ + v.expected.merkle_root_hex + ", got "@
                            + actual_root,
                    ),
                )
            } else if v.expected.proof_bech32 != bech32 {
                Err(
                    TestVectorFailure::Verification(
                        "Bech32 mismatch: expected "@ + v.expected.proof_bech32 + ", got "@ + bech32,
                    ),
                )
            } else if !v.expected.valid {
                Err(TestVectorFailure::Verification("Expected invalid proof but verification passed"@))
            } else {
                Ok(true)
            }
        },
    }
}

/// Once a vector's proof parses, the check passes only for a vector marked
/// valid whose expected merkle root hex and bech32 text are those of the
/// parsed proof; a vector marked invalid whose proof parses always fails,
/// and the check never answers `false`. A proof that does not parse passes
/// exactly the vectors marked invalid.
pub proof fn lemma_check_passes_only_matching_valid(
    v: VectorView,
    root: Seq<u8>,
    bech32: Seq<char>,
    msg: Seq<char>,
)
    ensures
        vector_check_finish(v, Ok((root, bech32))) == Ok::<bool, TestVectorFailure>(true) <==> {
            &&& v.expected.valid
            &&& v.expected.merkle_root_hex == hex_encoding(root)
            &&& v.expected.proof_bech32 == bech32
        },
        !v.expected.valid ==> vector_check_finish(v, Ok((root, bech32))) is Err,
        vector_check_finish(v, Ok((root, bech32))) != Ok::<bool, TestVectorFailure>(false),
        vector_check_finish(v, Err(msg)) is Ok <==> !v.expected.valid,
        vector_check_finish(v, Err(msg)) != Ok::<bool, TestVectorFailure>(false),
{
}

/// `a`, `b`, `c` and `d` one after the other.
fn concat4(a: &str, b: &str, c: &str, d: &str) -> (s: String)
    ensures
        s@ == a@ + b@ + c@ + d@,
{
    let mut s = String::from_str(a);
    s.append(b);
    s.append(c);
    s.append(d);
    s
}

/// Verifies a test vector by parsing and validating its proof.
///
/// `parse` reads proof bytes as a payer proof, with full cryptographic
/// validation, and returns its merkle root and bech32 text, or the text of its
/// error; it is called only when the vector's proof is to be parsed.
pub fn verify_test_vector<F: FnOnce(Vec<u8>) -> Result<ParsedProof, String>>(
    vector: &TestVector,
    parse: F,
) -> (r: Result<bool, TestVectorError>)
    requires
        forall|b: Vec<u8>| call_requires(parse, (b,)),
    ensures
        match vector_check_start(vector@) {
            VectorCheckStart::Settled(o) => outcome_view(r) == o,
            VectorCheckStart::Parse(b) => exists|input: Vec<u8>, out: Result<ParsedProof, String>|
                {
                    &&& input@ == b
                    &&& call_ensures(parse, (input,), out)
                    &&& outcome_view(r) == vector_check_finish(vector@, parsed_view(out))
                },
        },
        r is Ok ==> r == Ok::<bool, TestVectorError>(true),
        r is Ok && vector.expected.valid ==> exists|input: Vec<u8>, p: ParsedProof|
            {
                &&& call_ensures(parse, (input,), Ok::<ParsedProof, String>(p))
                &&& vector.expected.merkle_root_hex@ == hex_encoding(p.merkle_root@)
                &&& vector.expected.proof_bech32@ == p.bech32@
            },
        r is Ok && !vector.expected.valid ==> vector.expected.proof_hex@.len() == 0 || exists|
            input: Vec<u8>,
            e: String,
        | call_ensures(parse, (input,), Err::<ParsedProof, String>(e)),
{
    let expected = &vector.expected;
    if !expected.valid && expected.proof_hex.as_str().is_empty() {
        return Ok(true);
    }
    let proof_bytes = match hex_decode(expected.proof_hex.as_str()) {
        Ok(b) => b,
        Err(e) => {
            let mut msg = String::from_str("Invalid proof hex: ");
            msg.append(e.as_str());
            return Err(TestVectorError::Parse(msg));
        },
    };
    let ghost input = proof_bytes;
    let out = parse(proof_bytes);
    let proof = match out {
        Ok(p) => p,
        Err(e) => {
            if !expected.valid {
                return Ok(true);
            }
            let mut msg = String::from_str("Failed to parse proof: ");
            msg.append(e.as_str());
            return Err(TestVectorError::Parse(msg));
        },
    };
    let actual_merkle_root = hex_encode(&proof.merkle_root);
    if expected.merkle_root_hex != actual_merkle_root {
        return Err(
            TestVectorError::Verification(
                concat4(
                    "Merkle root mismatch: expected ",
                    expected.merkle_root_hex.as_str(),
                    ", got ",
                    actual_merkle_root.as_str(),
                ),
            ),
        );
    }
    if expected.proof_bech32 != proof.bech32 {
        return Err(
            TestVectorError::Verification(
                concat4(
                    "Bech32 mismatch: expected ",
                    expected.proof_bech32.as_str(),
                    ", got ",
                    proof.bech32.as_str(),
                ),
            ),
        );
    }
    if !expected.valid {
        return Err(
            TestVectorError::Verification(
                String::from_str("Expected invalid proof but verification passed"),
            ),
        );
    }
    Ok(true)
}

} // verus!
