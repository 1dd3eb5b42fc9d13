//! Deterministic generation of payer-proof test vectors: keys from seed
//! bytes, invoices answering refunds, and the vectors built around the proof
//! that a payer-proof backend makes for each invoice.

use vstd::prelude::*;
use bitcoin::secp256k1::schnorr::Signature;
use bitcoin::secp256k1::{Keypair, PublicKey, SecretKey};
use lightning::blinded_path::message::BlindedMessagePath;
use lightning::blinded_path::payment::BlindedPaymentPath;
use lightning::blinded_path::BlindedHop;
use lightning::offers::invoice::{Bolt12Invoice, UnsignedBolt12Invoice};
use lightning::offers::merkle::TaggedHash;
use lightning::offers::refund::Refund;
use lightning::util::ser::Writeable;
use rand::SeedableRng;
use rand_chacha::ChaCha20Rng;
use crate::hex_codec::{hex_encode, hex_encoding, lemma_hex_roundtrip};
use crate::invoice::{
    answers_built_refund, built_refund, invoice_bytes_of, invoice_tagged_hash_of,
    unsigned_invoice_tagged_hash, invoice_signs_with, records_below,
    unsigned_experimental_bytes_of, unsigned_invoice_bytes_of, unsigned_invoice_readable,
    unsigned_invoice_read_of, sha256_of,
    blinded_hop, blinded_hop_of, blinded_message_path, blinded_message_path_of, blinded_pay_info,
    blinded_pay_info_of, blinded_payment_path, blinded_payment_path_of, build_refund, refund_of,
    refund_invoice_of, signed_invoice_of, tagged_hash_message,
    debug_text, respond_to_refund, sha256_digest, sign_invoice, tagged_hash_digest,
    tagged_hash_of, unsigned_invoice_from_bytes, MAX_VALUE_MSAT,
};
use crate::keys::{
    keypair_from_secret_key, keypair_of, lemma_seed_key_valid, public_key_from_secret_key,
    public_key_of, schnorr_signature_of, secret_key_from, secret_key_from_bytes,
    sign_schnorr_no_aux_rand, valid_key_seed,
};
use crate::tlv::{append_raw_tlv_record, scan_tlv_stream, tlv_record, tlv_scan, tlv_type_may_follow};
use crate::vectors::{
    outcome_view, opt_text, ExpectedView, InputView, TestVector, TestVectorError, TestVectorExpected,
    TestVectorFailure, TestVectorInput, VectorView, VectorCheckStart, vector_check_finish,
    vector_check_start,
};

verus! {

#[verifier::external_type_specification]
#[verifier::external_body]
pub struct ExChaCha20Rng(ChaCha20Rng);

/// A ChaCha20 generator seeded from a `u64`.
///
/// Calls `SeedableRng::seed_from_u64` of `ChaCha20Rng`.
#[verifier::external_body]
pub(crate) fn chacha20_from_seed(seed: u64) -> ChaCha20Rng {
    ChaCha20Rng::seed_from_u64(seed)
}

/// An odd experimental invoice TLV type, above the range that payer proofs
/// and signatures reserve.
pub const EXPERIMENTAL_INVOICE_TLV_TYPE: u64 = 3_000_000_001;

/// The value of the experimental invoice TLV: the ASCII text
/// `experimental-payer-proof-field`.
pub const EXPERIMENTAL_INVOICE_TLV_VALUE: [u8; 30] = [
    101, 120, 112, 101, 114, 105, 109, 101, 110, 116, 97, 108, 45, 112, 97, 121, 101, 114, 45, 112,
    114, 111, 111, 102, 45, 102, 105, 101, 108, 100,
];

/// The amount, in millisatoshis, of the refunds that invoices answer.
pub const REFUND_AMOUNT_MSATS: u64 = 100_000;

/// The creation time of every invoice, in seconds since the Unix epoch.
pub const INVOICE_CREATED_AT_SECS: u64 = 1_700_000_000;

/// 32 copies of a seed byte: how keys and preimages are made from seeds.
pub open spec fn seed_bytes(seed: u8) -> Seq<u8> {
    Seq::new(32, |i: int| seed)
}

/// The secret key made of 32 copies of `seed`.
pub open spec fn seed_key(seed: u8) -> SecretKey {
    secret_key_from(seed_bytes(seed))
}

/// The key pair of the secret key of `seed`.
pub open spec fn seed_keypair(seed: u8) -> Keypair {
    keypair_of(seed_key(seed))
}

/// The public key of the secret key of `seed`.
pub open spec fn seed_pubkey(seed: u8) -> PublicKey {
    public_key_of(seed_key(seed))
}

/// `n` zero bytes.
pub open spec fn zero_bytes(n: nat) -> Seq<u8> {
    Seq::new(n, |i: int| 0u8)
}

/// The one payment path of every invoice: introduced by the key of 40,
/// blinded with the key of 41, through hops of the keys of 43 and 44 with 43
/// and 44 zero bytes of payload.
pub open spec fn test_payment_path() -> BlindedPaymentPath {
    blinded_payment_path_of(
        seed_pubkey(40),
        seed_pubkey(41),
        seq![
            blinded_hop_of(seed_pubkey(43), zero_bytes(43)),
            blinded_hop_of(seed_pubkey(44), zero_bytes(44)),
        ],
        blinded_pay_info_of(1, 1_000, 42, 100, 1_000_000_000_000),
    )
}

/// The payment path of every invoice is introduced by the key of 40 and
/// blinded with the key of 41, charges a base fee of 1 msat and 1000
/// millionths, asks for a CLTV delta of 42, and carries HTLCs from 100 msat
/// to 1 000 000 000 000 msat, a range that holds the refund amount.
pub proof fn lemma_payment_path_carries_refund()
    ensures
        exists|hops: Seq<BlindedHop>|
            test_payment_path() == #[trigger] blinded_payment_path_of(
                seed_pubkey(40),
                seed_pubkey(41),
                hops,
                blinded_pay_info_of(1, 1000, 42, 100, 1_000_000_000_000),
            ),
        exists|fee_base: u32, fee_millionths: u32, cltv: u16, htlc_min: u64, htlc_max: u64, hops: Seq<BlindedHop>|
            {
                &&& test_payment_path() == #[trigger] blinded_payment_path_of(
                    seed_pubkey(40),
                    seed_pubkey(41),
                    hops,
                    blinded_pay_info_of(fee_base, fee_millionths, cltv, htlc_min, htlc_max),
                )
                &&& htlc_min <= REFUND_AMOUNT_MSATS <= htlc_max
            },
{
    let hops = seq![
        blinded_hop_of(seed_pubkey(43), zero_bytes(43)),
        blinded_hop_of(seed_pubkey(44), zero_bytes(44)),
    ];
    assert(test_payment_path() == blinded_payment_path_of(
        seed_pubkey(40),
        seed_pubkey(41),
        hops,
        blinded_pay_info_of(1, 1000, 42, 100, 1_000_000_000_000),
    ));
}

/// The blinded message path: introduced by the key of 40, blinded with the
/// key of 41, through hops of the keys of 42 and 43 with 43 and 44 zero bytes
/// of payload.
pub open spec fn test_blinded_path() -> BlindedMessagePath {
    blinded_message_path_of(
        seed_pubkey(40),
        seed_pubkey(41),
        seq![
            blinded_hop_of(seed_pubkey(42), zero_bytes(43)),
            blinded_hop_of(seed_pubkey(43), zero_bytes(44)),
        ],
    )
}

/// The refund of the payer of `payer_seed`: its seed bytes as metadata, its
/// public key, 100 000 msat and the description `Test refund`.
pub open spec fn test_refund(payer_seed: u8) -> Refund {
    refund_of(seed_bytes(payer_seed), seed_pubkey(payer_seed), REFUND_AMOUNT_MSATS, "Test refund"@)
}

/// The unsigned invoice with which the recipient of `recipient_seed` answers
/// the refund of `payer_seed` for `payment_hash`, on the one payment path, at
/// the fixed creation time.
pub open spec fn test_unsigned_invoice(
    payer_seed: u8,
    recipient_seed: u8,
    payment_hash: Seq<u8>,
) -> UnsignedBolt12Invoice {
    refund_invoice_of(
        test_refund(payer_seed),
        seq![test_payment_path()],
        payment_hash,
        seed_pubkey(recipient_seed),
        INVOICE_CREATED_AT_SECS,
    )
}

/// What a payer-proof backend is asked to prove: that the preimage pays the
/// invoice, signed with the payer key of `payer_seed`, disclosing the given
/// invoice TLV types and carrying the optional note.
pub struct PaymentProofRequest {
    pub invoice: Bolt12Invoice,
    pub preimage: [u8; 32],
    pub payer_seed: u8,
    pub note: Option<String>,
    pub included_types: Vec<u64>,
}

/// What a payer-proof backend hands back for a proof it built, signed and
/// verified: the merkle root, the proof bytes and the bech32 text.
pub struct ProvenPayment {
    pub merkle_root: [u8; 32],
    pub proof_bytes: Vec<u8>,
    pub proof_bech32: String,
}

/// The content of a [`ProvenPayment`].
pub open spec fn proven_view(p: ProvenPayment) -> (Seq<u8>, Seq<u8>, Seq<char>) {
    (p.merkle_root@, p.proof_bytes@, p.proof_bech32@)
}

/// `q` asks for a proof of `invoice` with the preimage of `preimage_seed`,
/// the payer key of `payer_seed`, the note `note` and the disclosed types
/// `included`.
pub open spec fn request_for(
    q: PaymentProofRequest,
    invoice: Bolt12Invoice,
    preimage_seed: u8,
    payer_seed: u8,
    note: Option<Seq<char>>,
    included: Seq<u64>,
) -> bool {
    &&& q.invoice == invoice
    &&& q.preimage@ == seed_bytes(preimage_seed)
    &&& q.payer_seed == payer_seed
    &&& opt_text(q.note) == note
    &&& q.included_types@ == included
}

/// What a request asks, in plain values.
pub open spec fn request_view(q: PaymentProofRequest) -> (
    Bolt12Invoice,
    Seq<u8>,
    u8,
    Option<Seq<char>>,
    Seq<u64>,
) {
    (q.invoice, q.preimage@, q.payer_seed, opt_text(q.note), q.included_types@)
}

/// Two backends that prove requests asking the same thing the same way.
pub open spec fn backends_agree<
    F1: FnOnce(PaymentProofRequest) -> Result<ProvenPayment, String>,
    F2: FnOnce(PaymentProofRequest) -> Result<ProvenPayment, String>,
>(prove1: F1, prove2: F2) -> bool {
    forall|q1: PaymentProofRequest, q2: PaymentProofRequest, p1: ProvenPayment, p2: ProvenPayment|
        #![trigger call_ensures(prove1, (q1,), Ok::<ProvenPayment, String>(p1)), call_ensures(prove2, (q2,), Ok::<ProvenPayment, String>(p2))]
        request_view(q1) == request_view(q2) && call_ensures(
            prove1,
            (q1,),
            Ok::<ProvenPayment, String>(p1),
        ) && call_ensures(prove2, (q2,), Ok::<ProvenPayment, String>(p2)) ==> proven_view(p1)
            == proven_view(p2)
}

/// The signed invoice with which the recipient of `recipient_seed` answers
/// the refund of `payer_seed` for `payment_hash`.
pub open spec fn test_invoice(payer_seed: u8, recipient_seed: u8, payment_hash: Seq<u8>) -> Bolt12Invoice {
    signed_invoice_of(test_unsigned_invoice(payer_seed, recipient_seed, payment_hash), recipient_seed)
}

/// The invoice for the SHA-256 hash of the preimage of `preimage_seed`.
pub open spec fn preimage_invoice(payer_seed: u8, recipient_seed: u8, preimage_seed: u8) -> Bolt12Invoice {
    test_invoice(payer_seed, recipient_seed, sha256_of(seed_bytes(preimage_seed)))
}

/// The bytes of the unsigned invoice for the SHA-256 hash of the preimage of
/// `preimage_seed`.
pub open spec fn preimage_unsigned_bytes(payer_seed: u8, recipient_seed: u8, preimage_seed: u8) -> Seq<u8> {
    unsigned_invoice_bytes_of(
        test_unsigned_invoice(payer_seed, recipient_seed, sha256_of(seed_bytes(preimage_seed))),
    )
}

/// The experimental invoice TLV record.
pub open spec fn experimental_record() -> Seq<u8> {
    tlv_record(EXPERIMENTAL_INVOICE_TLV_TYPE, EXPERIMENTAL_INVOICE_TLV_VALUE@)
}

/// The invoice with the experimental record: the unsigned invoice for the
/// preimage, its bytes extended by the record, read back and signed by the
/// recipient.
pub open spec fn experimental_invoice(payer_seed: u8, recipient_seed: u8, preimage_seed: u8) -> Bolt12Invoice {
    signed_invoice_of(
        unsigned_invoice_read_of(
            preimage_unsigned_bytes(payer_seed, recipient_seed, preimage_seed) + experimental_record(),
        ),
        recipient_seed,
    )
}

/// The vector of a proof that was built and verified.
pub open spec fn valid_vector(
    name: Seq<char>,
    description: Seq<char>,
    invoice_bytes: Seq<u8>,
    preimage_seed: u8,
    payer_seed: u8,
    included: Seq<u64>,
    note: Option<Seq<char>>,
    proven: (Seq<u8>, Seq<u8>, Seq<char>),
    comments: Option<Seq<char>>,
) -> VectorView {
    VectorView {
        description,
        name,
        input: InputView {
            invoice_hex: hex_encoding(invoice_bytes),
            preimage_hex: hex_encoding(seed_bytes(preimage_seed)),
            payer_secret_key_hex: hex_encoding(seed_bytes(payer_seed)),
            included_tlv_types: included,
            note,
        },
        expected: ExpectedView {
            valid: true,
            merkle_root_hex: hex_encoding(proven.0),
            proof_hex: hex_encoding(proven.1),
            proof_bech32: proven.2,
            payer_signature_hex: Seq::empty(),
            error: None,
        },
        comments,
    }
}

/// What generating a valid vector of `invoice` gives: the vector of the
/// proof that the backend returned for the request that hands it the invoice
/// (whose bytes the vector records), or the backend's error as a
/// verification failure.
pub open spec fn valid_vector_outcome<F: FnOnce(PaymentProofRequest) -> Result<ProvenPayment, String>>(
    r: Result<TestVector, TestVectorError>,
    prove: F,
    name: Seq<char>,
    description: Seq<char>,
    invoice: Bolt12Invoice,
    preimage_seed: u8,
    payer_seed: u8,
    note: Option<Seq<char>>,
    included: Seq<u64>,
    comments: Option<Seq<char>>,
) -> bool {
    match r {
        Ok(v) => exists|q: PaymentProofRequest, p: ProvenPayment|
            {
                &&& call_ensures(prove, (q,), Ok(p))
                &&& request_for(q, invoice, preimage_seed, payer_seed, note, included)
                &&& v@ == valid_vector(
                    name,
                    description,
                    invoice_bytes_of(invoice),
                    preimage_seed,
                    payer_seed,
                    included,
                    note,
                    proven_view(p),
                    comments,
                )
            },
        Err(e) => exists|q: PaymentProofRequest, msg: String|
            {
                &&& call_ensures(prove, (q,), Err(msg))
                &&& request_for(q, invoice, preimage_seed, payer_seed, note, included)
                &&& e@ == TestVectorFailure::Verification(msg@)
            },
    }
}

/// What generating an invalid-preimage vector of `invoice` gives: the vector
/// that records the backend's refusal of the wrong preimage, or a
/// verification failure where the backend accepted it.
pub open spec fn invalid_preimage_outcome<G: FnOnce(PaymentProofRequest) -> Result<(), String>>(
    r: Result<TestVector, TestVectorError>,
    prove: G,
    name: Seq<char>,
    invoice: Bolt12Invoice,
    wrong_preimage_seed: u8,
    payer_seed: u8,
) -> bool {
    match r {
        Ok(v) => exists|q: PaymentProofRequest, msg: String|
            {
                &&& call_ensures(prove, (q,), Err(msg))
                &&& request_for(q, invoice, wrong_preimage_seed, payer_seed, None, Seq::empty())
                &&& v@ == invalid_preimage_vector(
                    name,
                    invoice_bytes_of(invoice),
                    wrong_preimage_seed,
                    payer_seed,
                    msg@,
                )
            },
        Err(e) => exists|q: PaymentProofRequest, o: Result<(), String>|
            {
                &&& call_ensures(prove, (q,), o)
                &&& o is Ok
                &&& request_for(q, invoice, wrong_preimage_seed, payer_seed, None, Seq::empty())
                &&& e@ == TestVectorFailure::Verification(
                    "Expected preimage mismatch error but builder succeeded"@,
                )
            },
    }
}

/// The vector of a proof that a wrong preimage could not be built into.
pub open spec fn invalid_preimage_vector(
    name: Seq<char>,
    invoice_bytes: Seq<u8>,
    wrong_preimage_seed: u8,
    payer_seed: u8,
    error: Seq<char>,
) -> VectorView {
    VectorView {
        description: "Invalid proof - preimage does not match payment hash"@,
        name,
        input: InputView {
            invoice_hex: hex_encoding(invoice_bytes),
            preimage_hex: hex_encoding(seed_bytes(wrong_preimage_seed)),
            payer_secret_key_hex: hex_encoding(seed_bytes(payer_seed)),
            included_tlv_types: Seq::empty(),
            note: None,
        },
        expected: ExpectedView {
            valid: false,
            merkle_root_hex: Seq::empty(),
            proof_hex: Seq::empty(),
            proof_bech32: Seq::empty(),
            payer_signature_hex: Seq::empty(),
            error: Some(error),
        },
        comments: Some("This vector tests that implementations correctly reject invalid preimages"@),
    }
}

/// The vector of a proof that was built and verified, from its parts.
fn assemble_valid_vector(
    name: String,
    description: String,
    invoice_bytes: &Vec<u8>,
    preimage_seed: u8,
    payer_seed: u8,
    included_tlv_types: Vec<u64>,
    note: Option<String>,
    proven: &ProvenPayment,
    comments: Option<String>,
) -> (v: TestVector)
    ensures
        v@ == valid_vector(
            name@,
            description@,
            invoice_bytes@,
            preimage_seed,
            payer_seed,
            included_tlv_types@,
            opt_text(note),
            proven_view(*proven),
            opt_text(comments),
        ),
{
    let preimage: [u8; 32] = [preimage_seed; 32];
    let payer_key: [u8; 32] = [payer_seed; 32];
    proof {
        assert(preimage@ =~= seed_bytes(preimage_seed));
        assert(payer_key@ =~= seed_bytes(payer_seed));
    }
    TestVector {
        description,
        name,
        input: TestVectorInput {
            invoice_hex: hex_encode(invoice_bytes.as_slice()),
            preimage_hex: hex_encode(&preimage),
            payer_secret_key_hex: hex_encode(&payer_key),
            included_tlv_types,
            note,
        },
        expected: TestVectorExpected {
            valid: true,
            merkle_root_hex: hex_encode(&proven.merkle_root),
            proof_hex: hex_encode(proven.proof_bytes.as_slice()),
            proof_bech32: proven.proof_bech32.clone(),
            payer_signature_hex: String::new(),
            error: None,
        },
        comments,
    }
}

/// A generated valid vector passes its own check: its proof hex decodes to
/// the proof bytes that are to be parsed, and when the parser reports the
/// merkle root and bech32 text that the proof was generated with, the check
/// passes.
pub proof fn lemma_generated_vector_verifies(
    name: Seq<char>,
    description: Seq<char>,
    invoice_bytes: Seq<u8>,
    preimage_seed: u8,
    payer_seed: u8,
    included: Seq<u64>,
    note: Option<Seq<char>>,
    proven: (Seq<u8>, Seq<u8>, Seq<char>),
    comments: Option<Seq<char>>,
)
    ensures
        ({
            let v = valid_vector(
                name,
                description,
                invoice_bytes,
                preimage_seed,
                payer_seed,
                included,
                note,
                proven,
                comments,
            );
            &&& vector_check_start(v) == VectorCheckStart::Parse(proven.1)
            &&& vector_check_finish(v, Ok((proven.0, proven.2))) == Ok::<bool, TestVectorFailure>(true)
        }),
{
    lemma_hex_roundtrip(proven.1);
}

/// A generated invalid-preimage vector passes its own check without any proof
/// being parsed.
pub proof fn lemma_invalid_preimage_vector_passes(
    name: Seq<char>,
    invoice_bytes: Seq<u8>,
    wrong_preimage_seed: u8,
    payer_seed: u8,
    error: Seq<char>,
)
    ensures
        vector_check_start(
            invalid_preimage_vector(name, invoice_bytes, wrong_preimage_seed, payer_seed, error),
        ) == VectorCheckStart::Settled(Ok::<bool, TestVectorFailure>(true)),
{
}

/// Generation is deterministic: two vectors generated with the same
/// arguments, whose backends prove requests that ask the same thing the same
/// way, are equal.
pub proof fn lemma_generation_deterministic<
    F1: FnOnce(PaymentProofRequest) -> Result<ProvenPayment, String>,
    F2: FnOnce(PaymentProofRequest) -> Result<ProvenPayment, String>,
>(
    r1: Result<TestVector, TestVectorError>,
    r2: Result<TestVector, TestVectorError>,
    prove1: F1,
    prove2: F2,
    name: Seq<char>,
    description: Seq<char>,
    invoice: Bolt12Invoice,
    preimage_seed: u8,
    payer_seed: u8,
    note: Option<Seq<char>>,
    included: Seq<u64>,
    comments: Option<Seq<char>>,
)
    requires
        valid_vector_outcome(r1, prove1, name, description, invoice, preimage_seed, payer_seed, note, included, comments),
        valid_vector_outcome(r2, prove2, name, description, invoice, preimage_seed, payer_seed, note, included, comments),
        backends_agree(prove1, prove2),
        r1 is Ok,
        r2 is Ok,
    ensures
        r1->Ok_0@ == r2->Ok_0@,
{
    let (q1, p1) = choose|q: PaymentProofRequest, p: ProvenPayment|
        {
            &&& call_ensures(prove1, (q,), Ok(p))
            &&& request_for(q, invoice, preimage_seed, payer_seed, note, included)
            &&& r1->Ok_0@ == valid_vector(name, description, invoice_bytes_of(invoice), preimage_seed, payer_seed, included, note, proven_view(p), comments)
        };
    let (q2, p2) = choose|q: PaymentProofRequest, p: ProvenPayment|
        {
            &&& call_ensures(prove2, (q,), Ok(p))
            &&& request_for(q, invoice, preimage_seed, payer_seed, note, included)
            &&& r2->Ok_0@ == valid_vector(name, description, invoice_bytes_of(invoice), preimage_seed, payer_seed, included, note, proven_view(p), comments)
        };
    assert(request_view(q1) == request_view(q2));
    assert(call_ensures(prove1, (q1,), Ok::<ProvenPayment, String>(p1)));
    assert(call_ensures(prove2, (q2,), Ok::<ProvenPayment, String>(p2)));
    assert(proven_view(p1) == proven_view(p2));
}

/// Vectors generated for one invoice, preimage and payer (a basic vector and
/// a vector with a note, say) record the same invoice, preimage and payer
/// key: the note is carried by the proof, not by the invoice.
pub proof fn lemma_vectors_of_one_invoice_share_inputs<
    F1: FnOnce(PaymentProofRequest) -> Result<ProvenPayment, String>,
    F2: FnOnce(PaymentProofRequest) -> Result<ProvenPayment, String>,
>(
    r1: Result<TestVector, TestVectorError>,
    r2: Result<TestVector, TestVectorError>,
    prove1: F1,
    prove2: F2,
    name1: Seq<char>,
    name2: Seq<char>,
    description1: Seq<char>,
    description2: Seq<char>,
    invoice: Bolt12Invoice,
    preimage_seed: u8,
    payer_seed: u8,
    note1: Option<Seq<char>>,
    note2: Option<Seq<char>>,
    included1: Seq<u64>,
    included2: Seq<u64>,
    comments1: Option<Seq<char>>,
    comments2: Option<Seq<char>>,
)
    requires
        valid_vector_outcome(r1, prove1, name1, description1, invoice, preimage_seed, payer_seed, note1, included1, comments1),
        valid_vector_outcome(r2, prove2, name2, description2, invoice, preimage_seed, payer_seed, note2, included2, comments2),
        r1 is Ok,
        r2 is Ok,
    ensures
        r1->Ok_0@.input.invoice_hex == r2->Ok_0@.input.invoice_hex,
        r1->Ok_0@.input.invoice_hex == hex_encoding(invoice_bytes_of(invoice)),
        r1->Ok_0@.input.preimage_hex == r2->Ok_0@.input.preimage_hex,
        r1->Ok_0@.input.payer_secret_key_hex == r2->Ok_0@.input.payer_secret_key_hex,
{
}

/// An invalid-preimage vector and a valid vector generated for the invoice of
/// the real preimage and the same payer record the same invoice and payer
/// key; the invalid vector records the wrong preimage.
pub proof fn lemma_invalid_vector_shares_invoice<
    G: FnOnce(PaymentProofRequest) -> Result<(), String>,
    F: FnOnce(PaymentProofRequest) -> Result<ProvenPayment, String>,
>(
    ri: Result<TestVector, TestVectorError>,
    rv: Result<TestVector, TestVectorError>,
    prove_invalid: G,
    prove_valid: F,
    name_invalid: Seq<char>,
    name_valid: Seq<char>,
    description: Seq<char>,
    invoice: Bolt12Invoice,
    real_preimage_seed: u8,
    wrong_preimage_seed: u8,
    payer_seed: u8,
    note: Option<Seq<char>>,
    included: Seq<u64>,
    comments: Option<Seq<char>>,
)
    requires
        invalid_preimage_outcome(ri, prove_invalid, name_invalid, invoice, wrong_preimage_seed, payer_seed),
        valid_vector_outcome(rv, prove_valid, name_valid, description, invoice, real_preimage_seed, payer_seed, note, included, comments),
        ri is Ok,
        rv is Ok,
    ensures
        ri->Ok_0@.input.invoice_hex == rv->Ok_0@.input.invoice_hex,
        ri->Ok_0@.input.payer_secret_key_hex == rv->Ok_0@.input.payer_secret_key_hex,
        ri->Ok_0@.input.preimage_hex == hex_encoding(seed_bytes(wrong_preimage_seed)),
        rv->Ok_0@.input.preimage_hex == hex_encoding(seed_bytes(real_preimage_seed)),
{
}

/// Generator for creating deterministic test vectors.
pub struct TestVectorGenerator {
    #[allow(dead_code)]
    rng: ChaCha20Rng,
    seed: Ghost<u64>,
}

impl TestVectorGenerator {
    /// The seed this generator was made with.
    pub closed spec fn seed(&self) -> u64 {
        self.seed@
    }

    /// Creates a new generator with a fixed seed for reproducibility.
    pub fn new(seed: u64) -> (g: Self)
        ensures
            g.seed() == seed,
    {
        Self { rng: chacha20_from_seed(seed), seed: Ghost(seed) }
    }

    /// Creates a deterministic secret key from a byte pattern.
    pub fn secret_key(&self, seed: u8) -> (k: SecretKey)
        requires
            valid_key_seed(seed),
        ensures
            k == seed_key(seed),
    {
        let bytes: [u8; 32] = [seed; 32];
        proof {
            lemma_seed_key_valid(seed);
            assert(bytes@ =~= Seq::new(32, |i: int| seed));
            assert(bytes@ =~= seed_bytes(seed));
        }
        match secret_key_from_bytes(&bytes) {
            Some(key) => key,
            None => unreached(),
        }
    }

    /// Creates a keypair from a byte pattern.
    pub fn keypair(&self, seed: u8) -> (kp: Keypair)
        requires
            valid_key_seed(seed),
        ensures
            kp == seed_keypair(seed),
    {
        keypair_from_secret_key(&self.secret_key(seed))
    }

    /// Creates a public key from a byte pattern.
    pub fn pubkey(&self, seed: u8) -> (pk: PublicKey)
        requires
            valid_key_seed(seed),
        ensures
            pk == seed_pubkey(seed),
    {
        public_key_from_secret_key(&self.secret_key(seed))
    }

    /// Creates deterministic payment paths for testing: one path through two
    /// blinded hops.
    pub fn payment_paths(&self) -> (paths: Vec<BlindedPaymentPath>)
        ensures
            paths@.len() == 1,
            paths@ == seq![test_payment_path()],
            exists|hops: Seq<BlindedHop>|
                paths@[0] == #[trigger] blinded_payment_path_of(
                    seed_pubkey(40),
                    seed_pubkey(41),
                    hops,
                    blinded_pay_info_of(1, 1000, 42, 100, 1_000_000_000_000),
                ),
    {
        let p43 = vec![0u8; 43];
        let p44 = vec![0u8; 44];
        assert(p43@ =~= zero_bytes(43));
        assert(p44@ =~= zero_bytes(44));
        let mut hops = Vec::new();
        hops.push(blinded_hop(self.pubkey(43), p43));
        hops.push(blinded_hop(self.pubkey(44), p44));
        assert(hops@ =~= seq![
            blinded_hop_of(seed_pubkey(43), zero_bytes(43)),
            blinded_hop_of(seed_pubkey(44), zero_bytes(44)),
        ]);
        let payinfo = blinded_pay_info(1, 1_000, 42, 100, 1_000_000_000_000);
        let mut paths = Vec::new();
        paths.push(blinded_payment_path(self.pubkey(40), self.pubkey(41), hops, payinfo));
        assert(paths@ =~= seq![test_payment_path()]);
        paths
    }

    /// Creates a deterministic blinded message path.
    pub fn blinded_path(&self) -> (path: BlindedMessagePath)
        ensures
            path == test_blinded_path(),
    {
        let p43 = vec![0u8; 43];
        let p44 = vec![0u8; 44];
        assert(p43@ =~= zero_bytes(43));
        assert(p44@ =~= zero_bytes(44));
        let mut hops = Vec::new();
        hops.push(blinded_hop(self.pubkey(42), p43));
        hops.push(blinded_hop(self.pubkey(43), p44));
        assert(hops@ =~= seq![
            blinded_hop_of(seed_pubkey(42), zero_bytes(43)),
            blinded_hop_of(seed_pubkey(43), zero_bytes(44)),
        ]);
        blinded_message_path(self.pubkey(40), self.pubkey(41), hops)
    }

    /// Signs the tagged hash of an unsigned invoice with the key of `seed`.
    pub fn invoice_sign(&self, seed: u8, message: &UnsignedBolt12Invoice) -> (r: Result<Signature, ()>)
        requires
            valid_key_seed(seed),
        ensures
            r == Ok::<Signature, ()>(
                schnorr_signature_of(
                    tagged_hash_message(invoice_tagged_hash_of(*message)),
                    seed_keypair(seed),
                ),
            ),
    {
        let keys = self.keypair(seed);
        let hash = unsigned_invoice_tagged_hash(message);
        Ok(sign_schnorr_no_aux_rand(tagged_hash_digest(hash), &keys))
    }

    /// Signs the tagged hash of an unsigned payer proof with the key of `seed`.
    pub fn payer_proof_sign<T: AsRef<TaggedHash>>(&self, seed: u8, proof: &T) -> (r: Result<Signature, ()>)
        requires
            valid_key_seed(seed),
        ensures
            r is Ok,
            exists|h: TaggedHash|
                r == Ok::<Signature, ()>(
                    schnorr_signature_of(tagged_hash_message(h), seed_keypair(seed)),
                ),
    {
        let keys = self.keypair(seed);
        let hash = tagged_hash_of(proof);
        let sig = sign_schnorr_no_aux_rand(tagged_hash_digest(hash), &keys);
        assert(sig == schnorr_signature_of(tagged_hash_message(*hash), seed_keypair(seed)));
        Ok(sig)
    }

    /// Creates an invoice from a refund (uses explicit payer signing pubkey).
    ///
    /// The refund, from the payer of `payer_seed`, asks for 100 000 msat with
    /// the description `Test refund`; the recipient of `recipient_seed`
    /// answers it with an invoice for `payment_hash` on the one payment path,
    /// made at a fixed time, and signs it. For valid seeds none of these
    /// steps fails.
    pub fn create_invoice_from_refund(
        &self,
        payer_seed: u8,
        recipient_seed: u8,
        payment_hash: [u8; 32],
    ) -> (r: Result<Bolt12Invoice, TestVectorError>)
        requires
            valid_key_seed(payer_seed),
            valid_key_seed(recipient_seed),
        ensures
            r == Ok::<Bolt12Invoice, TestVectorError>(
                test_invoice(payer_seed, recipient_seed, payment_hash@),
            ),
    {
        let unsigned = self.unsigned_invoice_from_refund(payer_seed, recipient_seed, payment_hash)?;
        proof {
            let refund = test_refund(payer_seed);
            assert(built_refund(refund)) by {
                assert(REFUND_AMOUNT_MSATS <= MAX_VALUE_MSAT);
                assert(refund == refund_of(
                    seed_bytes(payer_seed),
                    seed_pubkey(payer_seed),
                    REFUND_AMOUNT_MSATS,
                    "Test refund"@,
                ));
            }
            let paths = seq![test_payment_path()];
            assert(paths.len() > 0);
            assert(payment_hash@.len() == 32);
            assert(unsigned == refund_invoice_of(
                refund,
                paths,
                payment_hash@,
                seed_pubkey(recipient_seed),
                INVOICE_CREATED_AT_SECS,
            ));
            assert(answers_built_refund(unsigned, seed_pubkey(recipient_seed)));
        }
        match sign_invoice(unsigned, self, recipient_seed) {
            Ok(invoice) => Ok(invoice),
            Err(e) => Err(TestVectorError::InvoiceBuild(debug_text(&e))),
        }
    }

    /// The unsigned invoice with which the recipient answers the payer's
    /// refund.
    fn unsigned_invoice_from_refund(
        &self,
        payer_seed: u8,
        recipient_seed: u8,
        payment_hash: [u8; 32],
    ) -> (r: Result<UnsignedBolt12Invoice, TestVectorError>)
        requires
            valid_key_seed(payer_seed),
            valid_key_seed(recipient_seed),
        ensures
            r == Ok::<UnsignedBolt12Invoice, TestVectorError>(
                test_unsigned_invoice(payer_seed, recipient_seed, payment_hash@),
            ),
    {
        let payer_pubkey = self.pubkey(payer_seed);
        let payment_paths = self.payment_paths();
        let metadata = vec![payer_seed; 32];
        assert(metadata@ =~= seed_bytes(payer_seed));
        let description = String::from_str("Test refund");
        let refund = match build_refund(
            metadata,
            payer_pubkey,
            REFUND_AMOUNT_MSATS,
            description,
        ) {
            Ok(refund) => refund,
            Err(_) => {
                assert(REFUND_AMOUNT_MSATS <= MAX_VALUE_MSAT);
                return unreached();
            },
        };
        proof {
            assert(REFUND_AMOUNT_MSATS <= MAX_VALUE_MSAT);
            assert(refund == test_refund(payer_seed));
            assert(built_refund(refund));
        }
        let recipient_pubkey = self.pubkey(recipient_seed);
        match respond_to_refund(
            &refund,
            payment_paths,
            payment_hash,
            recipient_pubkey,
            INVOICE_CREATED_AT_SECS,
        ) {
            Ok(unsigned) => Ok(unsigned),
            Err(e) => Err(TestVectorError::InvoiceBuild(debug_text(&e))),
        }
    }

    /// Generates a basic test vector.
    ///
    /// The preimage is 32 copies of `preimage_seed`; the invoice answers the
    /// refund of `payer_seed` for its SHA-256 hash; `prove` builds, signs and
    /// verifies the payer proof, disclosing the required fields only.
    pub fn generate_basic_vector<F: FnOnce(PaymentProofRequest) -> Result<ProvenPayment, String>>(
        &self,
        name: &str,
        description: &str,
        preimage_seed: u8,
        payer_seed: u8,
        recipient_seed: u8,
        prove: F,
    ) -> (r: Result<TestVector, TestVectorError>)
        requires
            valid_key_seed(payer_seed),
            valid_key_seed(recipient_seed),
            forall|q: PaymentProofRequest| call_requires(prove, (q,)),
        ensures
            valid_vector_outcome(
                r,
                prove,
                name@,
                description@,
                preimage_invoice(payer_seed, recipient_seed, preimage_seed),
                preimage_seed,
                payer_seed,
                None,
                Seq::empty(),
                None,
            ),
    {
        let preimage: [u8; 32] = [preimage_seed; 32];
        assert(preimage@ =~= seed_bytes(preimage_seed));
        let invoice = self.create_invoice_from_refund(payer_seed, recipient_seed, sha256_digest(&preimage))?;
        let invoice_bytes = Self::invoice_bytes(&invoice);
        let ghost inv = invoice;
        let request = PaymentProofRequest {
            invoice,
            preimage,
            payer_seed,
            note: None,
            included_types: Vec::new(),
        };
        proof {
            assert(request.included_types@ =~= Seq::<u64>::empty());
        }
        let ghost q = request;
        let out = prove(request);
        match out {
            Ok(proven) => {
                let v = assemble_valid_vector(
                    String::from_str(name),
                    String::from_str(description),
                    &invoice_bytes,
                    preimage_seed,
                    payer_seed,
                    Vec::new(),
                    None,
                    &proven,
                    None,
                );
                proof {
                    assert(call_ensures(prove, (q,), Ok(proven)));
                    assert(request_for(q, inv, preimage_seed, payer_seed, None, Seq::empty()));
                }
                Ok(v)
            },
            Err(msg) => {
                proof {
                    assert(call_ensures(prove, (q,), Err(msg)));
                    assert(request_for(q, inv, preimage_seed, payer_seed, None, Seq::empty()));
                }
                Err(TestVectorError::Verification(msg))
            },
        }
    }

    /// Generates a test vector with a note.
    ///
    /// As [`Self::generate_basic_vector`], with the note in the proof and a
    /// description and comment that say so.
    pub fn generate_vector_with_note<F: FnOnce(PaymentProofRequest) -> Result<ProvenPayment, String>>(
        &self,
        name: &str,
        note: &str,
        preimage_seed: u8,
        payer_seed: u8,
        recipient_seed: u8,
        prove: F,
    ) -> (r: Result<TestVector, TestVectorError>)
        requires
            valid_key_seed(payer_seed),
            valid_key_seed(recipient_seed),
            forall|q: PaymentProofRequest| call_requires(prove, (q,)),
        ensures
            valid_vector_outcome(
                r,
                prove,
                name@,
                "Payer proof with note: "@ + note@,
                preimage_invoice(payer_seed, recipient_seed, preimage_seed),
                preimage_seed,
                payer_seed,
                Some(note@),
                Seq::empty(),
                Some("Proof includes a payer note field"@),
            ),
    {
        let preimage: [u8; 32] = [preimage_seed; 32];
        assert(preimage@ =~= seed_bytes(preimage_seed));
        let invoice = self.create_invoice_from_refund(payer_seed, recipient_seed, sha256_digest(&preimage))?;
        let invoice_bytes = Self::invoice_bytes(&invoice);
        let ghost inv = invoice;
        let request = PaymentProofRequest {
            invoice,
            preimage,
            payer_seed,
            note: Some(String::from_str(note)),
            included_types: Vec::new(),
        };
        proof {
            assert(request.included_types@ =~= Seq::<u64>::empty());
        }
        let ghost q = request;
        let out = prove(request);
        match out {
            Ok(proven) => {
                let mut description = String::from_str("Payer proof with note: ");
                description.append(note);
                let v = assemble_valid_vector(
                    String::from_str(name),
                    description,
                    &invoice_bytes,
                    preimage_seed,
                    payer_seed,
                    Vec::new(),
                    Some(String::from_str(note)),
                    &proven,
                    Some(String::from_str("Proof includes a payer note field")),
                );
                proof {
                    assert(call_ensures(prove, (q,), Ok(proven)));
                    assert(request_for(q, inv, preimage_seed, payer_seed, Some(note@), Seq::empty()));
                }
                Ok(v)
            },
            Err(msg) => {
                proof {
                    assert(call_ensures(prove, (q,), Err(msg)));
                    assert(request_for(q, inv, preimage_seed, payer_seed, Some(note@), Seq::empty()));
                }
                Err(TestVectorError::Verification(msg))
            },
        }
    }

    /// Generates a payer proof vector that includes an odd experimental
    /// invoice TLV.
    ///
    /// The unsigned invoice gets one more record, of type
    /// `EXPERIMENTAL_INVOICE_TLV_TYPE`, appended to its bytes before it is
    /// read back and signed; the proof discloses that type. Bytes that are not
    /// a TLV stream ordered below that type are refused as an invoice error;
    /// so are extended bytes that lightning does not read back or sign.
    pub fn generate_vector_with_included_experimental_invoice_tlv<F: FnOnce(PaymentProofRequest) -> Result<ProvenPayment, String>>(
        &self,
        name: &str,
        preimage_seed: u8,
        payer_seed: u8,
        recipient_seed: u8,
        prove: F,
    ) -> (r: Result<TestVector, TestVectorError>)
        requires
            valid_key_seed(payer_seed),
            valid_key_seed(recipient_seed),
            forall|q: PaymentProofRequest| call_requires(prove, (q,)),
        ensures
            ({
                let ub = preimage_unsigned_bytes(payer_seed, recipient_seed, preimage_seed);
                &&& tlv_scan(ub) is None ==> outcome_view(r) == Err::<TestVector, TestVectorFailure>(
                    TestVectorFailure::InvoiceBuild("invoice bytes should contain valid TLVs"@),
                )
                &&& tlv_scan(ub) is Some && !tlv_type_may_follow(ub, EXPERIMENTAL_INVOICE_TLV_TYPE)
                    ==> outcome_view(r) == Err::<TestVector, TestVectorFailure>(
                    TestVectorFailure::InvoiceBuild(
                        "appended TLV types must preserve strict ascending order"@,
                    ),
                )
                &&& tlv_scan(ub) is Some && tlv_type_may_follow(ub, EXPERIMENTAL_INVOICE_TLV_TYPE)
                    && !unsigned_invoice_readable(ub + experimental_record()) ==> (r matches Err(e)
                    && e is InvoiceBuild)
                &&& tlv_scan(ub) is Some && tlv_type_may_follow(ub, EXPERIMENTAL_INVOICE_TLV_TYPE)
                    && unsigned_invoice_readable(ub + experimental_record()) && !invoice_signs_with(
                    unsigned_invoice_read_of(ub + experimental_record()),
                    recipient_seed,
                ) ==> (r matches Err(e) && e is InvoiceBuild)
                &&& tlv_scan(ub) is Some && tlv_type_may_follow(ub, EXPERIMENTAL_INVOICE_TLV_TYPE)
                    && unsigned_invoice_readable(ub + experimental_record()) && invoice_signs_with(
                    unsigned_invoice_read_of(ub + experimental_record()),
                    recipient_seed,
                ) ==> valid_vector_outcome(
                        r,
                        prove,
                        name@,
                        "Payer proof selectively disclosing an odd experimental invoice TLV above the reserved signature range"@,
                        experimental_invoice(payer_seed, recipient_seed, preimage_seed),
                        preimage_seed,
                        payer_seed,
                        None,
                        seq![EXPERIMENTAL_INVOICE_TLV_TYPE],
                        Some(
                            "BOLT PR #1295 reserves only TLV types 240..=1000 for signature and payer-proof fields; experimental invoice TLVs above that range remain selectively disclosable."@,
                        ),
                    )
                &&& r is Ok && records_below(ub, 240) ==> exists|signature_record: Seq<u8>|
                    invoice_bytes_of(experimental_invoice(payer_seed, recipient_seed, preimage_seed))
                        == ub + signature_record + experimental_record()
            }),
    {
        let preimage: [u8; 32] = [preimage_seed; 32];
        assert(preimage@ =~= seed_bytes(preimage_seed));
        let unsigned = self.unsigned_invoice_from_refund(
            payer_seed,
            recipient_seed,
            sha256_digest(&preimage),
        )?;
        let mut unsigned_bytes = Self::unsigned_invoice_bytes(&unsigned);
        let value: [u8; 30] = EXPERIMENTAL_INVOICE_TLV_VALUE;
        match scan_tlv_stream(&unsigned_bytes) {
            Some(Some(last)) if last >= EXPERIMENTAL_INVOICE_TLV_TYPE => {
                return Err(TestVectorError::InvoiceBuild(
                    String::from_str("appended TLV types must preserve strict ascending order"),
                ));
            },
            None => {
                return Err(TestVectorError::InvoiceBuild(
                    String::from_str("invoice bytes should contain valid TLVs"),
                ));
            },
            _ => {},
        }
        append_raw_tlv_record(&mut unsigned_bytes, EXPERIMENTAL_INVOICE_TLV_TYPE, &value);
        assert(unsigned_bytes@ == preimage_unsigned_bytes(payer_seed, recipient_seed, preimage_seed)
            + experimental_record());
        let ghost ub = preimage_unsigned_bytes(payer_seed, recipient_seed, preimage_seed);
        let unsigned = match unsigned_invoice_from_bytes(unsigned_bytes) {
            Ok(u) => u,
            Err(e) => return Err(TestVectorError::InvoiceBuild(debug_text(&e))),
        };
        proof {
            if records_below(ub, 240) {
                assert(ub + experimental_record() == ub + tlv_record(
                    EXPERIMENTAL_INVOICE_TLV_TYPE,
                    EXPERIMENTAL_INVOICE_TLV_VALUE@,
                ));
                assert(unsigned_invoice_bytes_of(unsigned) == ub);
                let e = unsigned_experimental_bytes_of(unsigned);
                let whole = ub + experimental_record();
                assert(whole == ub + e);
                assert((ub + e).skip(ub.len() as int) =~= e);
                assert(whole.skip(ub.len() as int) =~= experimental_record());
                assert(e =~= experimental_record());
            }
        }
        let ghost read = unsigned;
        let invoice = match sign_invoice(unsigned, self, recipient_seed) {
            Ok(invoice) => invoice,
            Err(e) => return Err(TestVectorError::InvoiceBuild(debug_text(&e))),
        };
        let invoice_bytes = Self::invoice_bytes(&invoice);
        let ghost inv = invoice;
        let mut included_types = Vec::new();
        included_types.push(EXPERIMENTAL_INVOICE_TLV_TYPE);
        let request = PaymentProofRequest {
            invoice,
            preimage,
            payer_seed,
            note: None,
            included_types,
        };
        proof {
            assert(request.included_types@ =~= seq![EXPERIMENTAL_INVOICE_TLV_TYPE]);
        }
        let ghost q = request;
        let out = prove(request);
        match out {
            Ok(proven) => {
                let mut types = Vec::new();
                types.push(EXPERIMENTAL_INVOICE_TLV_TYPE);
                proof {
                    assert(types@ =~= seq![EXPERIMENTAL_INVOICE_TLV_TYPE]);
                }
                let v = assemble_valid_vector(
                    String::from_str(name),
                    String::from_str(
                        "Payer proof selectively disclosing an odd experimental invoice TLV above the reserved signature range",
                    ),
                    &invoice_bytes,
                    preimage_seed,
                    payer_seed,
                    types,
                    None,
                    &proven,
                    Some(String::from_str(
                        "BOLT PR #1295 reserves only TLV types 240..=1000 for signature and payer-proof fields; experimental invoice TLVs above that range remain selectively disclosable.",
                    )),
                );
                proof {
                    assert(call_ensures(prove, (q,), Ok(proven)));
                    assert(request_for(
                        q,
                        inv,
                        preimage_seed,
                        payer_seed,
                        None,
                        seq![EXPERIMENTAL_INVOICE_TLV_TYPE],
                    ));
                }
                Ok(v)
            },
            Err(msg) => {
                proof {
                    assert(call_ensures(prove, (q,), Err(msg)));
                    assert(request_for(
                        q,
                        inv,
                        preimage_seed,
                        payer_seed,
                        None,
                        seq![EXPERIMENTAL_INVOICE_TLV_TYPE],
                    ));
                }
                Err(TestVectorError::Verification(msg))
            },
        }
    }

    /// Generates an invalid test vector (wrong preimage).
    ///
    /// The invoice is for the hash of the preimage of `real_preimage_seed`;
    /// `prove` is asked to start a proof of it with the preimage of
    /// `wrong_preimage_seed` and is expected to refuse, with the text of its
    /// error. When it accepts, that is a verification failure.
    pub fn generate_invalid_preimage_vector<G: FnOnce(PaymentProofRequest) -> Result<(), String>>(
        &self,
        name: &str,
        real_preimage_seed: u8,
        wrong_preimage_seed: u8,
        payer_seed: u8,
        recipient_seed: u8,
        prove: G,
    ) -> (r: Result<TestVector, TestVectorError>)
        requires
            valid_key_seed(payer_seed),
            valid_key_seed(recipient_seed),
            forall|q: PaymentProofRequest| call_requires(prove, (q,)),
        ensures
            invalid_preimage_outcome(
                r,
                prove,
                name@,
                preimage_invoice(payer_seed, recipient_seed, real_preimage_seed),
                wrong_preimage_seed,
                payer_seed,
            ),
    {
        let real_preimage: [u8; 32] = [real_preimage_seed; 32];
        let wrong_preimage: [u8; 32] = [wrong_preimage_seed; 32];
        assert(real_preimage@ =~= seed_bytes(real_preimage_seed));
        let invoice = self.create_invoice_from_refund(
            payer_seed,
            recipient_seed,
            sha256_digest(&real_preimage),
        )?;
        let invoice_bytes = Self::invoice_bytes(&invoice);
        let ghost inv = invoice;
        let request = PaymentProofRequest {
            invoice,
            preimage: wrong_preimage,
            payer_seed,
            note: None,
            included_types: Vec::new(),
        };
        proof {
            assert(request.preimage@ =~= seed_bytes(wrong_preimage_seed));
            assert(request.included_types@ =~= Seq::<u64>::empty());
        }
        let ghost q = request;
        let payer_key: [u8; 32] = [payer_seed; 32];
        let out = prove(request);
        match out {
            Err(msg) => {
                let v = TestVector {
                    description: String::from_str("Invalid proof - preimage does not match payment hash"),
                    name: String::from_str(name),
                    input: TestVectorInput {
                        invoice_hex: hex_encode(&invoice_bytes),
                        preimage_hex: hex_encode(&wrong_preimage),
                        payer_secret_key_hex: hex_encode(&payer_key),
                        included_tlv_types: Vec::new(),
                        note: None,
                    },
                    expected: TestVectorExpected {
                        valid: false,
                        merkle_root_hex: String::new(),
                        proof_hex: String::new(),
                        proof_bech32: String::new(),
                        payer_signature_hex: String::new(),
                        error: Some(msg),
                    },
                    comments: Some(String::from_str(
                        "This vector tests that implementations correctly reject invalid preimages",
                    )),
                };
                proof {
                    assert(payer_key@ =~= seed_bytes(payer_seed));
                    assert(wrong_preimage@ =~= seed_bytes(wrong_preimage_seed));
                    assert(v.input.included_tlv_types@ =~= Seq::<u64>::empty());
                    assert(call_ensures(prove, (q,), Err(msg)));
                    assert(request_for(q, inv, wrong_preimage_seed, payer_seed, None, Seq::empty()));
                    assert(v@ == invalid_preimage_vector(
                        name@,
                        invoice_bytes_of(inv),
                        wrong_preimage_seed,
                        payer_seed,
                        msg@,
                    ));
                }
                Ok(v)
            },
            Ok(()) => {
                proof {
                    assert(call_ensures(prove, (q,), out));
                    assert(request_for(q, inv, wrong_preimage_seed, payer_seed, None, Seq::empty()));
                }
                Err(TestVectorError::Verification(String::from_str(
                    "Expected preimage mismatch error but builder succeeded",
                )))
            },
        }
    }

    /// Get invoice bytes using Writeable trait.
    ///
    /// Calls `Writeable::write` of `Bolt12Invoice` into a `Vec`, which does
    /// not fail; the bytes depend on the invoice alone.
    #[verifier::external_body]
    fn invoice_bytes(invoice: &Bolt12Invoice) -> (r: Vec<u8>)
        ensures
            r@ == invoice_bytes_of(*invoice),
    {
        let mut bytes = Vec::new();
        invoice.write(&mut bytes).expect("Vec write should not fail");
        bytes
    }

    /// Get unsigned invoice bytes using Writeable trait.
    ///
    /// Calls `Writeable::write` of `UnsignedBolt12Invoice` into a `Vec`, which
    /// does not fail; the bytes depend on the invoice alone.
    #[verifier::external_body]
    fn unsigned_invoice_bytes(invoice: &UnsignedBolt12Invoice) -> (r: Vec<u8>)
        ensures
            r@ == unsigned_invoice_bytes_of(*invoice),
    {
        let mut bytes = Vec::new();
        invoice.write(&mut bytes).expect("Vec write should not fail");
        bytes
    }
}

impl Default for TestVectorGenerator {
    /// A generator with the default deterministic seed, 12345.
    fn default() -> (g: Self)
        ensures
            g.seed() == 12345,
    {
        Self::new(12345)
    }
}

} // verus!
