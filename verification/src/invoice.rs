//! BOLT 12 invoices for refunds, through the `lightning` crate: blinded
//! payment paths, refunds, invoice building and signing, and invoice bytes.

use vstd::prelude::*;
use std::time::Duration;
use bitcoin::hashes::sha256::Hash as Sha256;
use bitcoin::secp256k1::{Message, PublicKey};
use lightning::blinded_path::message::BlindedMessagePath;
use lightning::blinded_path::payment::{BlindedPayInfo, BlindedPaymentPath};
use lightning::blinded_path::BlindedHop;
use lightning::offers::invoice::{Bolt12Invoice, UnsignedBolt12Invoice};
use lightning::offers::merkle::{SignError, TaggedHash};
use lightning::offers::parse::{Bolt12ParseError, Bolt12SemanticError};
use lightning::offers::refund::{Refund, RefundBuilder};
use lightning::types::features::BlindedHopFeatures;
use lightning_types::payment::PaymentHash;
use crate::generator::{seed_pubkey, TestVectorGenerator};
use crate::keys::valid_key_seed;
use crate::tlv::{tlv_record, tlv_record_types};

verus! {

#[verifier::external_type_specification]
#[verifier::external_body]
pub struct ExBolt12Invoice(Bolt12Invoice);

#[verifier::external_type_specification]
#[verifier::external_body]
pub struct ExUnsignedBolt12Invoice(UnsignedBolt12Invoice);

#[verifier::external_type_specification]
#[verifier::external_body]
pub struct ExTaggedHash(TaggedHash);

#[verifier::external_type_specification]
#[verifier::external_body]
pub struct ExRefund(Refund);

#[verifier::external_type_specification]
#[verifier::external_body]
pub struct ExBlindedPaymentPath(BlindedPaymentPath);

#[verifier::external_type_specification]
#[verifier::external_body]
pub struct ExBlindedMessagePath(BlindedMessagePath);

#[verifier::external_type_specification]
#[verifier::external_body]
pub struct ExBlindedHop(BlindedHop);

#[verifier::external_type_specification]
#[verifier::external_body]
pub struct ExBlindedPayInfo(BlindedPayInfo);

#[verifier::external_type_specification]
#[verifier::external_body]
pub struct ExBolt12SemanticError(Bolt12SemanticError);

#[verifier::external_type_specification]
#[verifier::external_body]
pub struct ExBolt12ParseError(Bolt12ParseError);

#[verifier::external_type_specification]
#[verifier::external_body]
pub struct ExSignError(SignError);

/// The largest amount, in millisatoshis, that a refund may ask for.
pub const MAX_VALUE_MSAT: u64 = 21_000_000_0000_0000_000;

/// What SHA-256 gives for `data`.
pub uninterp spec fn sha256_of(data: Seq<u8>) -> Seq<u8>;

/// The SHA-256 digest of `data`.
///
/// Calls `sha256::Hash::hash` of `bitcoin::hashes` and takes its 32 bytes.
#[verifier::external_body]
pub(crate) fn sha256_digest(data: &[u8]) -> (r: [u8; 32])
    ensures
        r@ == sha256_of(data@),
{
    <Sha256 as bitcoin::hashes::Hash>::to_byte_array(<Sha256 as bitcoin::hashes::Hash>::hash(data))
}

/// The `Debug` text of a value, which is how this library reports errors of
/// the `lightning` crate.
///
/// Calls `format!` with `{:?}`.
#[verifier::external_body]
pub(crate) fn debug_text<T: core::fmt::Debug>(value: &T) -> String {
    format!("{:?}", value)
}

/// The `BlindedHop` with the given node id and payload.
pub uninterp spec fn blinded_hop_of(blinded_node_id: PublicKey, encrypted_payload: Seq<u8>) -> BlindedHop;

/// The `BlindedPayInfo` with the given fees and limits and no features.
pub uninterp spec fn blinded_pay_info_of(
    fee_base_msat: u32,
    fee_proportional_millionths: u32,
    cltv_expiry_delta: u16,
    htlc_minimum_msat: u64,
    htlc_maximum_msat: u64,
) -> BlindedPayInfo;

/// The path that `BlindedPaymentPath::from_blinded_path_and_payinfo` makes.
pub uninterp spec fn blinded_payment_path_of(
    introduction_node_id: PublicKey,
    blinding_point: PublicKey,
    blinded_hops: Seq<BlindedHop>,
    payinfo: BlindedPayInfo,
) -> BlindedPaymentPath;

/// The path that `BlindedMessagePath::from_blinded_path` makes.
pub uninterp spec fn blinded_message_path_of(
    introduction_node_id: PublicKey,
    blinding_point: PublicKey,
    blinded_hops: Seq<BlindedHop>,
) -> BlindedMessagePath;

/// The refund that `RefundBuilder` builds from explicit metadata, a payer
/// signing key, an amount and a description.
pub uninterp spec fn refund_of(
    metadata: Seq<u8>,
    payer_signing_pubkey: PublicKey,
    amount_msats: u64,
    description: Seq<char>,
) -> Refund;

/// The unsigned invoice that answering a refund builds, when it is built.
pub uninterp spec fn refund_invoice_of(
    refund: Refund,
    payment_paths: Seq<BlindedPaymentPath>,
    payment_hash: Seq<u8>,
    signing_pubkey: PublicKey,
    created_at_secs: u64,
) -> UnsignedBolt12Invoice;

/// The invoice that signing an unsigned invoice with the key of `seed` gives,
/// when signing succeeds.
pub uninterp spec fn signed_invoice_of(unsigned: UnsignedBolt12Invoice, seed: u8) -> Bolt12Invoice;

/// The bytes that `Writeable::write` writes for a signed invoice.
pub uninterp spec fn invoice_bytes_of(invoice: Bolt12Invoice) -> Seq<u8>;

/// The bytes that `Writeable::write` writes for an unsigned invoice.
pub uninterp spec fn unsigned_invoice_bytes_of(invoice: UnsignedBolt12Invoice) -> Seq<u8>;

/// The unsigned invoice that `UnsignedBolt12Invoice::try_from` reads from
/// bytes, when it reads one.
pub uninterp spec fn unsigned_invoice_read_of(bytes: Seq<u8>) -> UnsignedBolt12Invoice;

/// The records of `s` end exactly at its end and all have types below
/// `bound`.
pub open spec fn records_below(s: Seq<u8>, bound: u64) -> bool {
    &&& tlv_record_types(s) is Some
    &&& forall|i: int| 0 <= i < tlv_record_types(s)->0.len() ==> tlv_record_types(s)->0[i] < bound
}

/// Whether `UnsignedBolt12Invoice::try_from` reads an unsigned invoice from
/// the bytes.
pub uninterp spec fn unsigned_invoice_readable(bytes: Seq<u8>) -> bool;

/// The experimental TLV records (types from 3 000 000 000 on, and any after
/// the last invoice record) that an unsigned invoice carries apart from the
/// bytes it writes.
pub uninterp spec fn unsigned_experimental_bytes_of(unsigned: UnsignedBolt12Invoice) -> Seq<u8>;

/// Whether `UnsignedBolt12Invoice::sign`, handed the signature of the key of
/// `seed`, signs the unsigned invoice: it does when the signature checks
/// against the invoice's signing key.
pub uninterp spec fn invoice_signs_with(unsigned: UnsignedBolt12Invoice, seed: u8) -> bool;

/// `refund` is one that `build_refund` built: explicit metadata, a payer
/// key, an amount within the limit and a description, with no expiry and no
/// required features.
pub open spec fn built_refund(refund: Refund) -> bool {
    exists|metadata: Seq<u8>, payer: PublicKey, amount_msats: u64, description: Seq<char>|
        amount_msats <= MAX_VALUE_MSAT && refund == #[trigger] refund_of(
            metadata,
            payer,
            amount_msats,
            description,
        )
}

/// `unsigned` answers a built refund on at least one payment path with a
/// 32-byte payment hash, and `signing_pubkey` is its signing key.
pub open spec fn answers_built_refund(unsigned: UnsignedBolt12Invoice, signing_pubkey: PublicKey) -> bool {
    exists|
        refund: Refund,
        paths: Seq<BlindedPaymentPath>,
        payment_hash: Seq<u8>,
        created_at_secs: u64,
    |
        built_refund(refund) && paths.len() > 0 && payment_hash.len() == 32 && unsigned
            == #[trigger] refund_invoice_of(refund, paths, payment_hash, signing_pubkey, created_at_secs)
}

/// The digest that `TaggedHash::as_digest` gives.
pub uninterp spec fn tagged_hash_message(hash: TaggedHash) -> Message;

/// One hop of a blinded path.
///
/// Builds lightning's `BlindedHop` from its two public fields.
#[verifier::external_body]
pub(crate) fn blinded_hop(blinded_node_id: PublicKey, encrypted_payload: Vec<u8>) -> (r: BlindedHop)
    ensures
        r == blinded_hop_of(blinded_node_id, encrypted_payload@),
{
    BlindedHop { blinded_node_id, encrypted_payload }
}

/// The fees and limits of a blinded payment path, with no features set.
///
/// Builds lightning's `BlindedPayInfo` from its fields, with
/// `BlindedHopFeatures::empty()`.
#[verifier::external_body]
pub(crate) fn blinded_pay_info(
    fee_base_msat: u32,
    fee_proportional_millionths: u32,
    cltv_expiry_delta: u16,
    htlc_minimum_msat: u64,
    htlc_maximum_msat: u64,
) -> (r: BlindedPayInfo)
    ensures
        r == blinded_pay_info_of(
            fee_base_msat,
            fee_proportional_millionths,
            cltv_expiry_delta,
            htlc_minimum_msat,
            htlc_maximum_msat,
        ),
{
    BlindedPayInfo {
        fee_base_msat,
        fee_proportional_millionths,
        cltv_expiry_delta,
        htlc_minimum_msat,
        htlc_maximum_msat,
        features: BlindedHopFeatures::empty(),
    }
}

/// A blinded payment path.
///
/// Calls `BlindedPaymentPath::from_blinded_path_and_payinfo`.
#[verifier::external_body]
pub(crate) fn blinded_payment_path(
    introduction_node_id: PublicKey,
    blinding_point: PublicKey,
    blinded_hops: Vec<BlindedHop>,
    payinfo: BlindedPayInfo,
) -> (r: BlindedPaymentPath)
    ensures
        r == blinded_payment_path_of(introduction_node_id, blinding_point, blinded_hops@, payinfo),
{
    BlindedPaymentPath::from_blinded_path_and_payinfo(
        introduction_node_id,
        blinding_point,
        blinded_hops,
        payinfo,
    )
}

/// A blinded message path.
///
/// Calls `BlindedMessagePath::from_blinded_path`.
#[verifier::external_body]
pub(crate) fn blinded_message_path(
    introduction_node_id: PublicKey,
    blinding_point: PublicKey,
    blinded_hops: Vec<BlindedHop>,
) -> (r: BlindedMessagePath)
    ensures
        r == blinded_message_path_of(introduction_node_id, blinding_point, blinded_hops@),
{
    BlindedMessagePath::from_blinded_path(introduction_node_id, blinding_point, blinded_hops)
}

/// A refund with the given payer metadata, payer signing key, amount and
/// description.
///
/// Calls `RefundBuilder::new`, `RefundBuilder::description` and
/// `RefundBuilder::build` in one go: the builder carries a signing-context
/// type parameter bounded by a `secp256k1` trait, so it is kept inside this
/// call rather than handed between calls.
/// `new` fails exactly when the amount is above `MAX_VALUE_MSAT`; setting the
/// description and building, with explicit metadata bytes, do not fail, and
/// the refund depends on the arguments alone.
#[verifier::external_body]
pub(crate) fn build_refund(
    metadata: Vec<u8>,
    payer_signing_pubkey: PublicKey,
    amount_msats: u64,
    description: String,
) -> (r: Result<Refund, Bolt12SemanticError>)
    ensures
        r is Err <==> amount_msats > MAX_VALUE_MSAT,
        r matches Ok(f) ==> f == refund_of(metadata@, payer_signing_pubkey, amount_msats, description@),
{
    match RefundBuilder::new(metadata, payer_signing_pubkey, amount_msats) {
        Ok(builder) => builder.description(description).build(),
        Err(e) => Err(e),
    }
}

/// The unsigned invoice that answers `refund`.
///
/// Calls `Refund::respond_with_no_std` and then `InvoiceBuilder::build`: the
/// builder carries a signing-key strategy type parameter bounded by a
/// `lightning` trait, so it is kept inside this call.
/// The payment hash and creation time are handed over as lightning's
/// `PaymentHash` and as a `Duration` of whole seconds. Answering fails on a
/// refund with unknown required features, on no payment paths, and (in
/// `build`) on a refund past its absolute expiry; a refund that `build_refund`
/// built has neither features nor an expiry, so answering it on at least one
/// path succeeds. The invoice depends on the arguments alone.
#[verifier::external_body]
pub(crate) fn respond_to_refund(
    refund: &Refund,
    payment_paths: Vec<BlindedPaymentPath>,
    payment_hash: [u8; 32],
    signing_pubkey: PublicKey,
    created_at_secs: u64,
) -> (r: Result<UnsignedBolt12Invoice, Bolt12SemanticError>)
    ensures
        built_refund(*refund) && payment_paths@.len() > 0 ==> r is Ok,
        r matches Ok(u) ==> u == refund_invoice_of(
            *refund,
            payment_paths@,
            payment_hash@,
            signing_pubkey,
            created_at_secs,
        ),
{
    match refund.respond_with_no_std(
        payment_paths,
        PaymentHash(payment_hash),
        signing_pubkey,
        Duration::from_secs(created_at_secs),
    ) {
        Ok(builder) => builder.build(),
        Err(e) => Err(e),
    }
}

/// Signs an unsigned invoice with the key of `seed`.
///
/// Calls `UnsignedBolt12Invoice::sign` with a closure that only calls the
/// verified `TestVectorGenerator::invoice_sign`, whose signature depends on
/// the seed and the invoice alone. The signature is checked against the
/// invoice's signing key before the invoice is returned: it passes where that
/// key is the public key of `seed`, as it is for an invoice that answers a
/// built refund with that key. The signed invoice writes the unsigned
/// invoice's bytes, then the signature record, then the experimental bytes.
#[verifier::external_body]
pub(crate) fn sign_invoice(
    unsigned: UnsignedBolt12Invoice,
    generator: &TestVectorGenerator,
    seed: u8,
) -> (r: Result<Bolt12Invoice, SignError>)
    requires
        valid_key_seed(seed),
    ensures
        r is Ok <==> invoice_signs_with(unsigned, seed),
        answers_built_refund(unsigned, seed_pubkey(seed)) ==> r is Ok,
        r matches Ok(invoice) ==> invoice == signed_invoice_of(unsigned, seed),
        r matches Ok(invoice) ==> exists|signature_record: Seq<u8>|
            invoice_bytes_of(invoice) == unsigned_invoice_bytes_of(unsigned) + signature_record
                + unsigned_experimental_bytes_of(unsigned),
{
    unsigned.sign(|message: &UnsignedBolt12Invoice| generator.invoice_sign(seed, message))
}

/// Reads an unsigned invoice back from its bytes.
///
/// Calls `UnsignedBolt12Invoice::try_from`; whether it reads an invoice, and
/// which, depends on the bytes alone. The invoice splits the bytes after the
/// last record with a type below 240 (the end of the invoice records): what
/// comes before is what it writes, what comes after its experimental bytes.
#[verifier::external_body]
pub(crate) fn unsigned_invoice_from_bytes(bytes: Vec<u8>) -> (r: Result<UnsignedBolt12Invoice, Bolt12ParseError>)
    ensures
        r is Ok <==> unsigned_invoice_readable(bytes@),
        r matches Ok(u) ==> u == unsigned_invoice_read_of(bytes@),
        r matches Ok(u) ==> unsigned_invoice_bytes_of(u) + unsigned_experimental_bytes_of(u) == bytes@,
        r matches Ok(u) ==> forall|front: Seq<u8>, t: u64, v: Seq<u8>|
            #![trigger front + tlv_record(t, v)]
            bytes@ == front + tlv_record(t, v) && records_below(front, 240) && t >= 240
                ==> unsigned_invoice_bytes_of(u) == front,
{
    UnsignedBolt12Invoice::try_from(bytes)
}

/// The tagged hash that an unsigned invoice carries for signing.
pub uninterp spec fn invoice_tagged_hash_of(unsigned: UnsignedBolt12Invoice) -> TaggedHash;

/// The tagged hash that an unsigned invoice carries for signing.
///
/// Calls `AsRef::<TaggedHash>::as_ref` of `UnsignedBolt12Invoice`, which
/// returns the hash computed when the invoice was made.
#[verifier::external_body]
pub(crate) fn unsigned_invoice_tagged_hash(unsigned: &UnsignedBolt12Invoice) -> (r: &TaggedHash)
    ensures
        *r == invoice_tagged_hash_of(*unsigned),
{
    unsigned.as_ref()
}

/// The tagged hash that a message to be signed carries.
///
/// Calls `AsRef::<TaggedHash>::as_ref`.
#[verifier::external_body]
pub(crate) fn tagged_hash_of<T: AsRef<TaggedHash>>(message: &T) -> &TaggedHash {
    message.as_ref()
}

/// The digest to sign for a tagged hash.
///
/// Calls `TaggedHash::as_digest`.
#[verifier::external_body]
pub(crate) fn tagged_hash_digest(hash: &TaggedHash) -> (r: &Message)
    ensures
        *r == tagged_hash_message(*hash),
{
    hash.as_digest()
}

} // verus!
