//! Lower-case hexadecimal text for byte strings, through the `hex` crate.

use vstd::prelude::*;

verus! {

/// The hex digit of a nibble, in lower case.
pub open spec fn hex_digit(n: u8) -> char {
    if n < 10 {
        (n + 48) as char
    } else {
        (n + 87) as char
    }
}

/// The value of a hex digit of either case.
pub open spec fn hex_value(c: char) -> Option<u8> {
    let x = c as int;
    if 48 <= x <= 57 {
        Some((x - 48) as u8)
    } else if 97 <= x <= 102 {
        Some((x - 87) as u8)
    } else if 65 <= x <= 70 {
        Some((x - 55) as u8)
    } else {
        None
    }
}

/// Two lower-case hex digits per byte, high nibble first.
pub open spec fn hex_encoding(b: Seq<u8>) -> Seq<char>
    decreases b.len(),
{
    if b.len() == 0 {
        Seq::empty()
    } else {
        seq![hex_digit(b[0] / 16), hex_digit(b[0] % 16)] + hex_encoding(b.drop_first())
    }
}

/// The bytes spelled by hex text of either case: `None` unless it has an even
/// number of characters, all hex digits.
pub open spec fn hex_decoding(s: Seq<char>) -> Option<Seq<u8>>
    decreases s.len(),
{
    if s.len() == 0 {
        Some(Seq::empty())
    } else if s.len() == 1 {
        None
    } else {
        match (hex_value(s[0]), hex_value(s[1]), hex_decoding(s.skip(2))) {
            (Some(h), Some(l), Some(rest)) => Some(seq![(h * 16 + l) as u8] + rest),
            _ => None,
        }
    }
}

/// The message with which `hex` rejects the text (which character, at which
/// byte position, or an odd length).
pub uninterp spec fn hex_decode_error_text(text: Seq<char>) -> Seq<char>;

/// Lower-case hex text of `bytes`.
///
/// Calls `hex::encode`, which writes two lower-case digits per byte, high
/// nibble first.
#[verifier::external_body]
pub(crate) fn hex_encode(bytes: &[u8]) -> (r: String)
    ensures
        r@ == hex_encoding(bytes@),
{
    hex::encode(bytes)
}

/// The bytes that hex text spells, or the message of the rejection.
///
/// Calls `hex::decode`, which accepts digits of either case, rejects text of
/// odd length and any other character, and on rejection returns an error
/// whose `Display` text is taken here.
#[verifier::external_body]
pub(crate) fn hex_decode(text: &str) -> (r: Result<Vec<u8>, String>)
    ensures
        match hex_decoding(text@) {
            Some(b) => r matches Ok(v) && v@ == b,
            None => r matches Err(e) && e@ == hex_decode_error_text(text@),
        },
{
    match hex::decode(text) {
        Ok(v) => Ok(v),
        Err(e) => Err(e.to_string()),
    }
}

/// Hex text has two characters per byte.
pub proof fn lemma_hex_encoding_len(b: Seq<u8>)
    ensures
        hex_encoding(b).len() == 2 * b.len(),
    decreases b.len(),
{
    if b.len() > 0 {
        lemma_hex_encoding_len(b.drop_first());
    }
}

proof fn lemma_hex_digit_value(n: u8)
    requires
        n < 16,
    ensures
        hex_value(hex_digit(n)) == Some(n),
{
}

/// Round trip: decoding the hex text of any bytes gives the bytes back.
pub proof fn lemma_hex_roundtrip(b: Seq<u8>)
    ensures
        hex_decoding(hex_encoding(b)) == Some(b),
    decreases b.len(),
{
    if b.len() > 0 {
        let x = b[0];
        let h = x / 16;
        let l = x % 16;
        lemma_hex_digit_value(h);
        lemma_hex_digit_value(l);
        let e = hex_encoding(b);
        assert(e.skip(2) =~= hex_encoding(b.drop_first()));
        lemma_hex_roundtrip(b.drop_first());
        assert(h * 16 + l == x);
        assert(seq![x] + b.drop_first() =~= b);
    }
}

} // verus!
