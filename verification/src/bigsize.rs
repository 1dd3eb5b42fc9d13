//! BigSize: the variable-length unsigned integer of the Lightning wire format.
//!
//! A value below `0xfd` is one byte; otherwise a marker byte (`0xfd`, `0xfe`,
//! `0xff`) is followed by the value in 2, 4 or 8 big-endian bytes, and only the
//! shortest encoding is accepted when reading.

use vstd::prelude::*;
use lightning::util::ser::{BigSize, Readable, Writeable};

verus! {

/// `256^n`.
pub open spec fn pow256(n: nat) -> nat
    decreases n,
{
    if n == 0 { 1 } else { 256 * pow256((n - 1) as nat) }
}

/// The low `n` bytes of `v`, most significant first.
pub open spec fn be_bytes(v: nat, n: nat) -> Seq<u8>
    decreases n,
{
    if n == 0 {
        Seq::empty()
    } else {
        be_bytes(v / 256, (n - 1) as nat).push((v % 256) as u8)
    }
}

/// The number that `s` spells in big-endian order.
pub open spec fn be_value(s: Seq<u8>) -> nat
    decreases s.len(),
{
    if s.len() == 0 {
        0
    } else {
        be_value(s.drop_last()) * 256 + s.last() as nat
    }
}

/// The canonical BigSize encoding of `v`.
pub open spec fn bigsize_encoding(v: u64) -> Seq<u8> {
    if v < 0xfd {
        seq![v as u8]
    } else if v <= 0xffff {
        seq![0xfdu8] + be_bytes(v as nat, 2)
    } else if v <= 0xffff_ffff {
        seq![0xfeu8] + be_bytes(v as nat, 4)
    } else {
        seq![0xffu8] + be_bytes(v as nat, 8)
    }
}

/// Reading a BigSize from the front of `s`: the value and the number of bytes
/// it took, or `None` when `s` is too short or the encoding is not the
/// shortest one.
pub open spec fn bigsize_decoding(s: Seq<u8>) -> Option<(u64, nat)> {
    if s.len() == 0 {
        None
    } else if s[0] == 0xff {
        if s.len() < 9 {
            None
        } else {
            let x = be_value(s.subrange(1, 9));
            if x < 0x1_0000_0000 { None } else { Some((x as u64, 9nat)) }
        }
    } else if s[0] == 0xfe {
        if s.len() < 5 {
            None
        } else {
            let x = be_value(s.subrange(1, 5));
            if x < 0x1_0000 { None } else { Some((x as u64, 5nat)) }
        }
    } else if s[0] == 0xfd {
        if s.len() < 3 {
            None
        } else {
            let x = be_value(s.subrange(1, 3));
            if x < 0xfd { None } else { Some((x as u64, 3nat)) }
        }
    } else {
        Some((s[0] as u64, 1nat))
    }
}

/// Appends the BigSize encoding of `value` to `bytes`.
///
/// Calls `Writeable::write` of lightning's `BigSize`, which writes one byte
/// below `0xfd` and otherwise a marker byte followed by the value as a
/// big-endian `u16`, `u32` or `u64`; writing into a `Vec` does not fail.
#[verifier::external_body]
pub(crate) fn write_bigsize(bytes: &mut Vec<u8>, value: u64)
    ensures
        final(bytes)@ == old(bytes)@ + bigsize_encoding(value),
{
    BigSize(value).write(bytes).expect("writing to a Vec cannot fail");
}

/// Reads a BigSize that starts at `pos` in `bytes` and returns it with the
/// position just after it.
///
/// Calls `Readable::read` of lightning's `BigSize` on a cursor set at `pos`;
/// it fails on a short read and on a non-shortest encoding.
#[verifier::external_body]
pub(crate) fn read_bigsize(bytes: &[u8], pos: usize) -> (r: Option<(u64, usize)>)
    requires
        pos <= bytes@.len(),
    ensures
        match bigsize_decoding(bytes@.skip(pos as int)) {
            None => r is None,
            Some((v, n)) => r == Some((v, (pos + n) as usize)),
        },
{
    let mut cursor = std::io::Cursor::new(bytes);
    cursor.set_position(pos as u64);
    let value: BigSize = Readable::read(&mut cursor).ok()?;
    Some((value.0, cursor.position() as usize))
}


proof fn lemma_pow256_values()
    ensures
        pow256(0) == 1,
        pow256(1) == 0x100,
        pow256(2) == 0x1_0000,
        pow256(4) == 0x1_0000_0000,
        pow256(8) == 0x1_0000_0000_0000_0000,
{
    reveal_with_fuel(pow256, 9);
}

proof fn lemma_be_bytes_len(v: nat, n: nat)
    ensures
        be_bytes(v, n).len() == n,
    decreases n,
{
    if n > 0 {
        lemma_be_bytes_len(v / 256, (n - 1) as nat);
    }
}

/// Spelling a number below `256^n` in `n` bytes and reading it back gives it.
proof fn lemma_be_value_of_bytes(v: nat, n: nat)
    requires
        v < pow256(n),
    ensures
        be_value(be_bytes(v, n)) == v,
    decreases n,
{
    if n == 0 {
    } else {
        let q = v / 256;
        let r = v % 256;
        assert(v == q * 256 + r && r < 256) by (nonlinear_arith)
            requires
                q == v / 256,
                r == v % 256,
        ;
        assert(q < pow256((n - 1) as nat)) by (nonlinear_arith)
            requires
                v == q * 256 + r,
                r < 256,
                v < 256 * pow256((n - 1) as nat),
        ;
        lemma_be_value_of_bytes(q, (n - 1) as nat);
        let b = be_bytes(v, n);
        assert(b.drop_last() =~= be_bytes(q, (n - 1) as nat));
    }
}

/// A big-endian byte string reads as a number below `256^len`.
pub(crate) proof fn lemma_be_value_bound(s: Seq<u8>)
    ensures
        be_value(s) < pow256(s.len()),
    decreases s.len(),
{
    if s.len() > 0 {
        lemma_be_value_bound(s.drop_last());
        let a = be_value(s.drop_last());
        let p = pow256((s.len() - 1) as nat);
        let l = s.last() as nat;
        assert(a * 256 + l < 256 * p) by (nonlinear_arith)
            requires
                a < p,
                l < 256,
        ;
    }
}

/// Reading a byte string as a number and spelling it back in as many bytes
/// gives the string.
proof fn lemma_be_bytes_of_value(s: Seq<u8>)
    ensures
        be_bytes(be_value(s), s.len()) =~= s,
    decreases s.len(),
{
    if s.len() > 0 {
        let a = be_value(s.drop_last());
        let l = s.last() as nat;
        let v = a * 256 + l;
        assert(v / 256 == a && v % 256 == l) by (nonlinear_arith)
            requires
                v == a * 256 + l,
                l < 256,
        ;
        lemma_be_bytes_of_value(s.drop_last());
        assert(s =~= s.drop_last().push(s.last()));
    }
}

/// The encoding of a BigSize is 1, 3, 5 or 9 bytes long.
pub proof fn lemma_bigsize_encoding_len(v: u64)
    ensures
        bigsize_encoding(v).len() == (if v < 0xfd {
            1nat
        } else if v <= 0xffff {
            3nat
        } else if v <= 0xffff_ffff {
            5nat
        } else {
            9nat
        }),
{
    lemma_be_bytes_len(v as nat, 2);
    lemma_be_bytes_len(v as nat, 4);
    lemma_be_bytes_len(v as nat, 8);
}

/// A successful read consumes at least one byte and no more than it was given.
pub proof fn lemma_bigsize_decoding_len(s: Seq<u8>)
    ensures
        bigsize_decoding(s) matches Some((v, n)) ==> 1 <= n <= 9 && n <= s.len(),
{
}

/// Round trip: reading the encoding of `v`, whatever follows it, gives back
/// `v` and consumes exactly the encoding.
pub proof fn lemma_bigsize_roundtrip(v: u64, rest: Seq<u8>)
    ensures
        bigsize_decoding(bigsize_encoding(v) + rest) == Some((v, bigsize_encoding(v).len())),
{
    lemma_pow256_values();
    lemma_bigsize_encoding_len(v);
    let e = bigsize_encoding(v);
    let s = e + rest;
    if v < 0xfd {
    } else if v <= 0xffff {
        lemma_be_value_of_bytes(v as nat, 2);
        assert(s.subrange(1, 3) =~= be_bytes(v as nat, 2));
    } else if v <= 0xffff_ffff {
        lemma_be_value_of_bytes(v as nat, 4);
        assert(s.subrange(1, 5) =~= be_bytes(v as nat, 4));
    } else {
        lemma_be_value_of_bytes(v as nat, 8);
        assert(s.subrange(1, 9) =~= be_bytes(v as nat, 8));
    }
}

/// Only the shortest encoding is read: whatever is read from `s` was spelled
/// there as its canonical encoding.
pub proof fn lemma_bigsize_canonical(s: Seq<u8>)
    ensures
        bigsize_decoding(s) matches Some((v, n)) ==> s.take(n as int) =~= bigsize_encoding(v),
{
    lemma_pow256_values();
    if s.len() > 0 && s[0] >= 0xfd {
        let k: int = if s[0] == 0xff { 9 } else if s[0] == 0xfe { 5 } else { 3 };
        if s.len() >= k {
            let body = s.subrange(1, k);
            lemma_be_value_bound(body);
            lemma_be_bytes_of_value(body);
            assert(s.take(k) =~= seq![s[0]] + body);
        }
    }
}

/// Bytes after an encoding do not change what is read.
pub proof fn lemma_bigsize_decoding_prefix(a: Seq<u8>, b: Seq<u8>)
    ensures
        bigsize_decoding(a) matches Some((v, n)) ==> bigsize_decoding(a + b) == Some((v, n)),
{
    if bigsize_decoding(a) is Some && a.len() > 0 && a[0] >= 0xfd {
        let k: int = if a[0] == 0xff { 9 } else if a[0] == 0xfe { 5 } else { 3 };
        assert((a + b).subrange(1, k) =~= a.subrange(1, k));
    }
}

} // verus!
