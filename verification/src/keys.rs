//! Secret keys, key pairs, public keys and BIP-340 signatures of secp256k1,
//! through the `bitcoin` crate and the global context of `secp256k1`.

use vstd::prelude::*;
use bitcoin::secp256k1::schnorr::Signature;
use bitcoin::secp256k1::{Keypair, Message, PublicKey, SecretKey, SECP256K1};
use crate::bigsize::{be_value, lemma_be_value_bound, pow256};

verus! {

#[verifier::external_type_specification]
#[verifier::external_body]
pub struct ExSecretKey(SecretKey);

#[verifier::external_type_specification]
#[verifier::external_body]
pub struct ExKeypair(Keypair);

#[verifier::external_type_specification]
#[verifier::external_body]
pub struct ExPublicKey(PublicKey);

#[verifier::external_type_specification]
#[verifier::external_body]
pub struct ExSignature(Signature);

#[verifier::external_type_specification]
#[verifier::external_body]
pub struct ExMessage(Message);

/// The order of the secp256k1 group, big-endian.
pub open spec fn curve_order() -> Seq<u8> {
    seq![
        0xffu8, 0xff, 0xff, 0xff, 0xff, 0xff, 0xff, 0xff,
        0xff, 0xff, 0xff, 0xff, 0xff, 0xff, 0xff, 0xfe,
        0xba, 0xae, 0xdc, 0xe6, 0xaf, 0x48, 0xa0, 0x3b,
        0xbf, 0xd2, 0x5e, 0x8c, 0xd0, 0x36, 0x41, 0x41,
    ]
}

/// 32 bytes that spell a number in `1 .. order`: a valid secret key.
pub open spec fn valid_secret_key_bytes(b: Seq<u8>) -> bool {
    &&& b.len() == 32
    &&& 0 < be_value(b)
    &&& be_value(b) < be_value(curve_order())
}

/// A byte with which `[seed; 32]` is a valid secret key.
pub open spec fn valid_key_seed(seed: u8) -> bool {
    1 <= seed <= 254
}

/// The secret key that `SecretKey::from_slice` makes of valid bytes: it
/// holds those bytes.
pub uninterp spec fn secret_key_from(bytes: Seq<u8>) -> SecretKey;

/// The key pair that `Keypair::from_secret_key` makes of a secret key.
pub uninterp spec fn keypair_of(key: SecretKey) -> Keypair;

/// The public key that `PublicKey::from_secret_key_global` makes of a secret
/// key.
pub uninterp spec fn public_key_of(key: SecretKey) -> PublicKey;

/// The BIP-340 signature that `sign_schnorr_no_aux_rand` makes of a message
/// with a key pair; without auxiliary randomness it depends on these alone.
pub uninterp spec fn schnorr_signature_of(msg: Message, keys: Keypair) -> Signature;

/// The secret key that 32 bytes spell, if they are a valid one.
///
/// Calls `SecretKey::from_slice`, which succeeds exactly when the bytes, read
/// big-endian, are neither zero nor at least the group order; the key it
/// returns is made of the bytes alone.
#[verifier::external_body]
pub(crate) fn secret_key_from_bytes(bytes: &[u8; 32]) -> (r: Option<SecretKey>)
    ensures
        r is Some <==> valid_secret_key_bytes(bytes@),
        r matches Some(k) ==> k == secret_key_from(bytes@),
{
    match SecretKey::from_slice(bytes) {
        Ok(key) => Some(key),
        Err(_) => None,
    }
}

/// The key pair of a secret key.
///
/// Calls `Keypair::from_secret_key` with the global signing context; the key
/// pair depends on the secret key alone.
#[verifier::external_body]
pub(crate) fn keypair_from_secret_key(key: &SecretKey) -> (r: Keypair)
    ensures
        r == keypair_of(*key),
{
    Keypair::from_secret_key(SECP256K1, key)
}

/// The public key of a secret key.
///
/// Calls `PublicKey::from_secret_key_global`; the public key depends on the
/// secret key alone.
#[verifier::external_body]
pub(crate) fn public_key_from_secret_key(key: &SecretKey) -> (r: PublicKey)
    ensures
        r == public_key_of(*key),
{
    PublicKey::from_secret_key_global(key)
}

/// A BIP-340 signature of `msg` without auxiliary randomness.
///
/// Calls `Secp256k1::sign_schnorr_no_aux_rand` on the global context, which
/// always returns a signature, and without auxiliary randomness the same one
/// for the same message and keys.
#[verifier::external_body]
pub(crate) fn sign_schnorr_no_aux_rand(msg: &Message, keys: &Keypair) -> (r: Signature)
    ensures
        r == schnorr_signature_of(*msg, *keys),
{
    SECP256K1.sign_schnorr_no_aux_rand(msg, keys)
}

/// Reading a byte string with a leading byte `b` gives `b * 256^(len-1)` plus
/// the rest.
proof fn lemma_be_value_split_first(s: Seq<u8>)
    requires
        s.len() > 0,
    ensures
        be_value(s) == s[0] as nat * pow256((s.len() - 1) as nat) + be_value(s.drop_first()),
    decreases s.len(),
{
    if s.len() == 1 {
        assert(s.drop_last().len() == 0);
        assert(s.drop_first().len() == 0);
        assert(be_value(s.drop_last()) == 0);
        assert(s.last() == s[0]);
        assert(pow256(0) == 1);
        assert(be_value(s.drop_first()) == 0);
        assert(be_value(s) == s[0] as nat);
        assert(s[0] as nat * pow256(0) == s[0] as nat);
    } else {
        let d = s.drop_last();
        let t = s.drop_first();
        lemma_be_value_split_first(d);
        assert(d.drop_first() =~= t.drop_last());
        assert(t.last() == s.last());
        assert(d[0] == s[0]);
        let p = pow256((d.len() - 1) as nat);
        assert(pow256((s.len() - 1) as nat) == 256 * p);
        let a = s[0] as nat;
        let r = be_value(t.drop_last());
        let l = s.last() as nat;
        assert(be_value(d) == a * p + r);
        assert(be_value(t) == r * 256 + l);
        assert(be_value(s) == be_value(d) * 256 + l);
        assert((a * p + r) * 256 + l == a * (256 * p) + (r * 256 + l)) by (nonlinear_arith);
        assert(a * pow256((s.len() - 1) as nat) == a * (256 * p));
        assert(be_value(s) == a * pow256((s.len() - 1) as nat) + be_value(t));
    }
}

/// Every seed from 1 to 254 spells a valid secret key when repeated 32 times.
pub proof fn lemma_seed_key_valid(seed: u8)
    requires
        valid_key_seed(seed),
    ensures
        valid_secret_key_bytes(Seq::new(32, |i: int| seed)),
{
    let s = Seq::new(32, |i: int| seed);
    let o = curve_order();
    lemma_be_value_split_first(s);
    lemma_be_value_split_first(o);
    lemma_be_value_bound(s.drop_first());
    let p = pow256(31);
    assert(p > 0) by {
        reveal_with_fuel(pow256, 32);
    }
    let rs = be_value(s.drop_first());
    let ro = be_value(o.drop_first());
    assert(seed as nat * p + rs < 255 * p + ro) by (nonlinear_arith)
        requires
            seed <= 254,
            rs < p,
    ;
    assert(0 < seed as nat * p + rs) by (nonlinear_arith)
        requires
            seed >= 1,
            p > 0,
    ;
}

} // verus!
