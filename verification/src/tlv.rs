//! TLV streams: a sequence of records, each a BigSize type, a BigSize length
//! and that many value bytes.

use vstd::prelude::*;
use crate::bigsize::{
    bigsize_decoding, bigsize_encoding, lemma_bigsize_decoding_len, lemma_bigsize_decoding_prefix,
    lemma_bigsize_encoding_len, lemma_bigsize_roundtrip, read_bigsize, write_bigsize,
};

verus! {

/// Walks the stream `s` from `pos` the way a reader with a cursor does: read
/// a type, read a length, jump over the value, and stop once the cursor is
/// at or past the end. The result is the last type read (or `last` when no
/// record starts at or after `pos`), or `None` where a type or a length
/// cannot be read or the jump overflows a `u64` position.
pub open spec fn tlv_scan_from(s: Seq<u8>, pos: nat, last: Option<u64>) -> Option<Option<u64>>
    decreases s.len() - pos,
{
    if pos >= s.len() {
        Some(last)
    } else {
        match bigsize_decoding(s.skip(pos as int)) {
            None => None,
            Some((t, n1)) => match bigsize_decoding(s.skip((pos + n1) as int)) {
                None => None,
                Some((l, n2)) => {
                    let next = pos + n1 + n2 + l;
                    if next > u64::MAX {
                        None
                    } else if next >= s.len() {
                        Some(Some(t))
                    } else {
                        tlv_scan_from(s, next as nat, Some(t))
                    }
                },
            },
        }
    }
}

/// The outcome of walking the whole stream: `Some(last type)`, with
/// `Some(None)` for an empty stream, or `None` when it cannot be walked.
pub open spec fn tlv_scan(s: Seq<u8>) -> Option<Option<u64>> {
    tlv_scan_from(s, 0, None)
}

/// Every type and length of the stream can be read.
pub open spec fn tlv_stream_readable(s: Seq<u8>) -> bool {
    tlv_scan(s) is Some
}

/// A record of type `t` may follow the stream `s`: its type is above the
/// last type of `s`, if there is one.
pub open spec fn tlv_type_may_follow(s: Seq<u8>, t: u64) -> bool {
    match tlv_scan(s) {
        Some(Some(last)) => last < t,
        _ => true,
    }
}

/// The bytes of one record.
pub open spec fn tlv_record(t: u64, value: Seq<u8>) -> Seq<u8> {
    bigsize_encoding(t) + bigsize_encoding(value.len() as u64) + value
}

/// The types of the records of `s` from `pos` on, in order, when the records
/// from `pos` end exactly at the end of `s`; `None` otherwise.
pub open spec fn tlv_record_types_from(s: Seq<u8>, pos: nat) -> Option<Seq<u64>>
    decreases s.len() - pos,
{
    if pos >= s.len() {
        if pos == s.len() { Some(Seq::empty()) } else { None }
    } else {
        match bigsize_decoding(s.skip(pos as int)) {
            None => None,
            Some((t, n1)) => match bigsize_decoding(s.skip((pos + n1) as int)) {
                None => None,
                Some((l, n2)) => {
                    let next = pos + n1 + n2 + l;
                    if next > s.len() {
                        None
                    } else {
                        match tlv_record_types_from(s, next as nat) {
                            None => None,
                            Some(ts) => Some(seq![t] + ts),
                        }
                    }
                },
            },
        }
    }
}

/// The record types of an exactly framed stream.
pub open spec fn tlv_record_types(s: Seq<u8>) -> Option<Seq<u64>> {
    tlv_record_types_from(s, 0)
}

/// Each type is above the one before it.
pub open spec fn strictly_ascending(ts: Seq<u64>) -> bool {
    forall|i: int, j: int| 0 <= i < j < ts.len() ==> ts[i] < ts[j]
}

/// A canonical TLV stream: records end exactly at the end of the stream and
/// their types strictly ascend.
pub open spec fn canonical_tlv_stream(s: Seq<u8>) -> bool {
    &&& tlv_record_types(s) is Some
    &&& strictly_ascending(tlv_record_types(s).unwrap())
}

/// The records of `s` from `pos` on end exactly at the end of `s`, and their
/// types strictly ascend, all above `last` where there is one.
pub open spec fn canonical_from(s: Seq<u8>, pos: nat, last: Option<u64>) -> bool
    decreases s.len() - pos,
{
    if pos >= s.len() {
        pos == s.len()
    } else {
        match bigsize_decoding(s.skip(pos as int)) {
            None => false,
            Some((t, n1)) => match bigsize_decoding(s.skip((pos + n1) as int)) {
                None => false,
                Some((l, n2)) => {
                    let next = pos + n1 + n2 + l;
                    &&& next <= s.len()
                    &&& (last is Some ==> last->0 < t)
                    &&& canonical_from(s, next as nat, Some(t))
                },
            },
        }
    }
}

/// The walk of `canonical_from` agrees with the record types.
proof fn lemma_canonical_from(s: Seq<u8>, pos: nat, last: Option<u64>)
    requires
        pos <= s.len(),
    ensures
        canonical_from(s, pos, last) <==> ({
            let r = tlv_record_types_from(s, pos);
            &&& r is Some
            &&& strictly_ascending(r->0)
            &&& (last is Some && r->0.len() > 0 ==> last->0 < r->0[0])
        }),
    decreases s.len() - pos,
{
    if pos < s.len() {
        lemma_bigsize_decoding_len(s.skip(pos as int));
        match bigsize_decoding(s.skip(pos as int)) {
            None => {},
            Some((t, n1)) => {
                lemma_bigsize_decoding_len(s.skip((pos + n1) as int));
                match bigsize_decoding(s.skip((pos + n1) as int)) {
                    None => {},
                    Some((l, n2)) => {
                        let next = pos + n1 + n2 + l;
                        if next <= s.len() {
                            lemma_canonical_from(s, next as nat, Some(t));
                            match tlv_record_types_from(s, next as nat) {
                                None => {},
                                Some(ts) => {
                                    let all = seq![t] + ts;
                                    if strictly_ascending(ts) && (ts.len() > 0 ==> t < ts[0]) {
                                        assert forall|i: int, j: int| 0 <= i < j < all.len() implies all[i] < all[j] by {
                                            if i == 0 && j > 1 {
                                                assert(ts[0] < ts[j - 1]);
                                            }
                                        }
                                    }
                                    if strictly_ascending(all) {
                                        assert forall|i: int, j: int| 0 <= i < j < ts.len() implies ts[i] < ts[j] by {
                                            assert(all[i + 1] < all[j + 1]);
                                        }
                                        if ts.len() > 0 {
                                            assert(all[0] < all[1]);
                                        }
                                    }
                                },
                            }
                        }
                    },
                }
            },
        }
    }
}

/// Whether `bytes` is a canonical TLV stream: its records end exactly at its
/// end and their types strictly ascend.
pub fn is_canonical_tlv_stream(bytes: &[u8]) -> (b: bool)
    ensures
        b == canonical_tlv_stream(bytes@),
{
    proof {
        lemma_canonical_from(bytes@, 0, None);
    }
    let mut pos: usize = 0;
    let mut last: Option<u64> = None;
    while pos < bytes.len()
        invariant
            pos <= bytes@.len(),
            canonical_tlv_stream(bytes@) == canonical_from(bytes@, pos as nat, last),
        decreases bytes@.len() - pos,
    {
        let (t, after_type) = match read_bigsize(bytes, pos) {
            Some(x) => x,
            None => return false,
        };
        proof {
            lemma_bigsize_decoding_len(bytes@.skip(pos as int));
            assert(bytes@.skip(after_type as int) =~= bytes@.skip(pos as int + (after_type - pos)));
        }
        let (l, after_len) = match read_bigsize(bytes, after_type) {
            Some(x) => x,
            None => return false,
        };
        proof {
            lemma_bigsize_decoding_len(bytes@.skip(after_type as int));
        }
        if l > (bytes.len() - after_len) as u64 {
            return false;
        }
        match last {
            Some(x) => {
                if x >= t {
                    return false;
                }
            },
            None => {},
        }
        pos = after_len + l as usize;
        last = Some(t);
    }
    true
}

/// Walks `bytes` and returns the type of its last record (`Some(None)` for an
/// empty stream), or `None` where a type or a length cannot be read or a
/// jump would overflow.
pub fn scan_tlv_stream(bytes: &[u8]) -> (r: Option<Option<u64>>)
    ensures
        r == tlv_scan(bytes@),
{
    let mut pos: usize = 0;
    let mut last: Option<u64> = None;
    while pos < bytes.len()
        invariant
            pos <= bytes@.len(),
            tlv_scan(bytes@) == tlv_scan_from(bytes@, pos as nat, last),
        decreases bytes@.len() - pos,
    {
        let (t, after_type) = match read_bigsize(bytes, pos) {
            Some(x) => x,
            None => return None,
        };
        proof {
            lemma_bigsize_decoding_len(bytes@.skip(pos as int));
            assert(bytes@.skip(after_type as int) =~= bytes@.skip(pos as int + (after_type - pos)));
        }
        let (l, after_len) = match read_bigsize(bytes, after_type) {
            Some(x) => x,
            None => return None,
        };
        proof {
            lemma_bigsize_decoding_len(bytes@.skip(after_type as int));
        }
        let start = after_len as u64;
        if l > u64::MAX - start {
            return None;
        }
        let next = start + l;
        if next >= bytes.len() as u64 {
            return Some(Some(t));
        }
        pos = next as usize;
        last = Some(t);
    }
    Some(last)
}

/// The type of the last record of a TLV stream, `None` when it is empty.
pub fn last_tlv_type(bytes: &[u8]) -> (r: Option<u64>)
    requires
        tlv_stream_readable(bytes@),
    ensures
        tlv_scan(bytes@) == Some(r),
{
    match scan_tlv_stream(bytes) {
        Some(last) => last,
        None => None,
    }
}

/// Appends one record to a TLV stream whose records can all be read, with a
/// type above the stream's last type so that the order stays strictly
/// ascending.
pub fn append_raw_tlv_record(bytes: &mut Vec<u8>, tlv_type: u64, value: &[u8])
    requires
        tlv_stream_readable(old(bytes)@),
        tlv_type_may_follow(old(bytes)@, tlv_type),
    ensures
        final(bytes)@ == old(bytes)@ + tlv_record(tlv_type, value@),
{
    write_bigsize(bytes, tlv_type);
    write_bigsize(bytes, value.len() as u64);
    let ghost before = bytes@;
    bytes.extend_from_slice(value);
    assert(bytes@ =~= before + value@);
}


/// On an exactly framed stream the reader's walk ends on the type of the last
/// record.
proof fn lemma_framed_scan_from(s: Seq<u8>, pos: nat, last: Option<u64>)
    requires
        tlv_record_types_from(s, pos) is Some,
        s.len() <= u64::MAX,
    ensures
        tlv_scan_from(s, pos, last) == Some(
            if tlv_record_types_from(s, pos).unwrap().len() == 0 {
                last
            } else {
                Some(tlv_record_types_from(s, pos).unwrap().last())
            },
        ),
    decreases s.len() - pos,
{
    if pos < s.len() {
        lemma_bigsize_decoding_len(s.skip(pos as int));
        let (t, n1) = bigsize_decoding(s.skip(pos as int)).unwrap();
        lemma_bigsize_decoding_len(s.skip((pos + n1) as int));
        let (l, n2) = bigsize_decoding(s.skip((pos + n1) as int)).unwrap();
        let next = (pos + n1 + n2 + l) as nat;
        if next < s.len() {
            lemma_framed_scan_from(s, next, Some(t));
        }
    }
}

/// Records before `pos` do not change what follows when a record is appended.
#[verifier::spinoff_prover]
#[verifier::rlimit(40)]
proof fn lemma_append_record_types_from(s: Seq<u8>, pos: nat, t: u64, v: Seq<u8>)
    requires
        tlv_record_types_from(s, pos) is Some,
        pos <= s.len(),
        v.len() <= u64::MAX,
    ensures
        tlv_record_types_from(s + tlv_record(t, v), pos) == Some(
            tlv_record_types_from(s, pos).unwrap().push(t),
        ),
    decreases s.len() - pos,
{
    let r = tlv_record(t, v);
    let sr = s + r;
    let el = bigsize_encoding(v.len() as u64);
    lemma_bigsize_encoding_len(t);
    lemma_bigsize_encoding_len(v.len() as u64);
    if pos == s.len() {
        let et = bigsize_encoding(t);
        assert(sr.skip(pos as int) =~= et + (el + v));
        lemma_bigsize_roundtrip(t, el + v);
        assert(sr.skip((pos + et.len()) as int) =~= el + v);
        lemma_bigsize_roundtrip(v.len() as u64, v);
        let next = (pos + et.len() + el.len() + v.len()) as nat;
        assert(next == sr.len());
        assert(tlv_record_types_from(sr, next) == Some(Seq::<u64>::empty()));
        assert(tlv_record_types_from(sr, pos) == Some(seq![t] + Seq::<u64>::empty()));
        assert(seq![t] + Seq::<u64>::empty() =~= Seq::<u64>::empty().push(t));
    } else {
        lemma_bigsize_decoding_len(s.skip(pos as int));
        let (t0, n1) = bigsize_decoding(s.skip(pos as int)).unwrap();
        assert(sr.skip(pos as int) =~= s.skip(pos as int) + r);
        lemma_bigsize_decoding_prefix(s.skip(pos as int), r);
        lemma_bigsize_decoding_len(s.skip((pos + n1) as int));
        let (l, n2) = bigsize_decoding(s.skip((pos + n1) as int)).unwrap();
        assert(sr.skip((pos + n1) as int) =~= s.skip((pos + n1) as int) + r);
        lemma_bigsize_decoding_prefix(s.skip((pos + n1) as int), r);
        let next = (pos + n1 + n2 + l) as nat;
        lemma_append_record_types_from(s, next, t, v);
        let ts = tlv_record_types_from(s, next).unwrap();
        assert(seq![t0] + ts.push(t) =~= (seq![t0] + ts).push(t));
    }
}

/// Canonical streams can be walked, and the walk ends on their last type.
pub proof fn lemma_canonical_stream_last_type(s: Seq<u8>)
    requires
        tlv_record_types(s) is Some,
        s.len() <= u64::MAX,
    ensures
        tlv_stream_readable(s),
        tlv_scan(s) == Some(
            if tlv_record_types(s).unwrap().len() == 0 {
                None
            } else {
                Some(tlv_record_types(s).unwrap().last())
            },
        ),
{
    lemma_framed_scan_from(s, 0, None);
}

/// Appending a record whose type is above the last type of a canonical stream
/// keeps the stream canonical: its record types gain the new type at the end,
/// and a reader then finds the new type last.
pub proof fn lemma_append_keeps_stream_canonical(s: Seq<u8>, t: u64, v: Seq<u8>)
    requires
        canonical_tlv_stream(s),
        tlv_type_may_follow(s, t),
        s.len() + tlv_record(t, v).len() <= u64::MAX,
    ensures
        canonical_tlv_stream(s + tlv_record(t, v)),
        tlv_record_types(s + tlv_record(t, v)) == Some(tlv_record_types(s).unwrap().push(t)),
        tlv_scan(s + tlv_record(t, v)) == Some(Some(t)),
{
    let ts = tlv_record_types(s).unwrap();
    lemma_canonical_stream_last_type(s);
    lemma_append_record_types_from(s, 0, t, v);
    let ts2 = ts.push(t);
    assert forall|i: int, j: int| 0 <= i < j < ts2.len() implies ts2[i] < ts2[j] by {
        if j == ts.len() && i < j {
            assert(ts[i] <= ts.last());
        }
    }
    lemma_canonical_stream_last_type(s + tlv_record(t, v));
}

} // verus!
