use crate::types::{DealInfo, DealInfoView};
use vstd::prelude::*;
use vstd::string::StringSliceAdditionalSpecFns;
use vstd::utf8::encode_utf8;

verus! {

/// The eight bytes of `x`, least significant first.
pub open spec fn u64_le_bytes(x: u64) -> Seq<u8> {
    seq![
        (x & 0xff) as u8,
        ((x >> 8) & 0xff) as u8,
        ((x >> 16) & 0xff) as u8,
        ((x >> 24) & 0xff) as u8,
        ((x >> 32) & 0xff) as u8,
        ((x >> 40) & 0xff) as u8,
        ((x >> 48) & 0xff) as u8,
        ((x >> 56) & 0xff) as u8,
    ]
}

/// A string on the wire: the length of its UTF-8 form as eight
/// little-endian bytes, then the UTF-8 bytes themselves.
pub open spec fn string_encoding(s: Seq<char>) -> Seq<u8> {
    u64_le_bytes(encode_utf8(s).len() as u64) + encode_utf8(s)
}

/// The canonical bytes of deal terms, over which signatures are made:
/// the amount as eight little-endian bytes, then the deal identifier and
/// the buyer, each as a length-prefixed string, in this order.
pub open spec fn canonical_encoding(terms: DealInfoView) -> Seq<u8> {
    u64_le_bytes(terms.amount) + string_encoding(terms.deal_id) + string_encoding(terms.buyer)
}

/// The byte of `x` that starts at bit `shift`.
pub(crate) fn byte_at(x: u64, shift: u64) -> (b: u8)
    requires
        shift < 64,
    ensures
        b == ((x >> shift) & 0xff) as u8,
{
    let low: u64 = (x >> shift) & 0xff;
    assert(low <= 0xff) by (bit_vector)
        requires
            low == (x >> shift) & 0xff,
    ;
    low as u8
}

/// Appends the eight little-endian bytes of `x` to `out`.
pub fn push_u64_le(out: &mut Vec<u8>, x: u64)
    ensures
        final(out)@ == old(out)@ + u64_le_bytes(x),
{
    assert(x >> 0 == x) by (bit_vector);
    out.push(byte_at(x, 0));
    out.push(byte_at(x, 8));
    out.push(byte_at(x, 16));
    out.push(byte_at(x, 24));
    out.push(byte_at(x, 32));
    out.push(byte_at(x, 40));
    out.push(byte_at(x, 48));
    out.push(byte_at(x, 56));
}

/// Appends a length-prefixed string to `out`.
pub fn push_string(out: &mut Vec<u8>, s: &str)
    ensures
        final(out)@ == old(out)@ + string_encoding(s@),
{
    let bytes = s.as_bytes();
    let n: usize = bytes.len();
    push_u64_le(out, n as u64);
    let mut i: usize = 0;
    while i < n
        invariant
            i <= n,
            n == bytes@.len(),
            bytes@ == encode_utf8(s@),
            out@ == old(out)@ + u64_le_bytes(n as u64) + bytes@.subrange(0, i as int),
        decreases n - i,
    {
        out.push(bytes[i]);
        i += 1;
    }
}

/// Encodes deal terms into their canonical bytes.
pub fn canonical_bytes(terms: &DealInfo) -> (bytes: Vec<u8>)
    ensures
        bytes@ == canonical_encoding(terms@),
{
    let mut bytes: Vec<u8> = Vec::new();
    push_u64_le(&mut bytes, terms.amount);
    push_string(&mut bytes, terms.deal_id.as_str());
    push_string(&mut bytes, terms.buyer.as_str());
    bytes
}

/// Eight little-endian bytes stand for one number only.
pub proof fn lemma_u64_le_bytes_injective(x: u64, y: u64)
    requires
        u64_le_bytes(x) == u64_le_bytes(y),
    ensures
        x == y,
{
    let a = u64_le_bytes(x);
    let b = u64_le_bytes(y);
    assert(a[0] == b[0] && a[1] == b[1] && a[2] == b[2] && a[3] == b[3] && a[4] == b[4] && a[5]
        == b[5] && a[6] == b[6] && a[7] == b[7]);
    assert(x == y) by (bit_vector)
        requires
            (x & 0xff) as u8 == (y & 0xff) as u8,
            ((x >> 8) & 0xff) as u8 == ((y >> 8) & 0xff) as u8,
            ((x >> 16) & 0xff) as u8 == ((y >> 16) & 0xff) as u8,
            ((x >> 24) & 0xff) as u8 == ((y >> 24) & 0xff) as u8,
            ((x >> 32) & 0xff) as u8 == ((y >> 32) & 0xff) as u8,
            ((x >> 40) & 0xff) as u8 == ((y >> 40) & 0xff) as u8,
            ((x >> 48) & 0xff) as u8 == ((y >> 48) & 0xff) as u8,
            ((x >> 56) & 0xff) as u8 == ((y >> 56) & 0xff) as u8,
    ;
}

/// A string whose UTF-8 form is short enough for its length to be
/// written in eight bytes, as that of every string in memory is.
pub open spec fn fits_length_prefix(s: Seq<char>) -> bool {
    encode_utf8(s).len() <= u64::MAX
}

/// Where two encoded strings, each followed by more bytes, give the same
/// bytes, the strings are the same and so is what follows them.
pub proof fn lemma_string_encoding_splits(
    s: Seq<char>,
    after_s: Seq<u8>,
    t: Seq<char>,
    after_t: Seq<u8>,
)
    requires
        fits_length_prefix(s),
        fits_length_prefix(t),
        string_encoding(s) + after_s == string_encoding(t) + after_t,
    ensures
        s == t,
        after_s == after_t,
{
    let whole = string_encoding(s) + after_s;
    let us = encode_utf8(s);
    let ut = encode_utf8(t);
    assert(whole.subrange(0, 8) =~= u64_le_bytes(us.len() as u64));
    assert(whole.subrange(0, 8) =~= u64_le_bytes(ut.len() as u64));
    lemma_u64_le_bytes_injective(us.len() as u64, ut.len() as u64);
    let n = us.len() as int;
    assert(whole.subrange(8, 8 + n) =~= us);
    assert(whole.subrange(8, 8 + n) =~= ut);
    vstd::utf8::encode_utf8_decode_utf8(s);
    vstd::utf8::encode_utf8_decode_utf8(t);
    assert(whole.subrange(8 + n, whole.len() as int) =~= after_s);
    assert(whole.subrange(8 + n, whole.len() as int) =~= after_t);
}

/// The canonical bytes stand for one set of terms only: terms that differ
/// in amount, deal or buyer differ in their bytes.
pub proof fn lemma_canonical_encoding_injective(a: DealInfoView, b: DealInfoView)
    requires
        fits_length_prefix(a.deal_id),
        fits_length_prefix(a.buyer),
        fits_length_prefix(b.deal_id),
        fits_length_prefix(b.buyer),
        canonical_encoding(a) == canonical_encoding(b),
    ensures
        a == b,
{
    let whole = canonical_encoding(a);
    assert(whole.subrange(0, 8) =~= u64_le_bytes(a.amount));
    assert(whole.subrange(0, 8) =~= u64_le_bytes(b.amount));
    lemma_u64_le_bytes_injective(a.amount, b.amount);
    let rest = whole.subrange(8, whole.len() as int);
    assert(rest =~= string_encoding(a.deal_id) + string_encoding(a.buyer));
    assert(rest =~= string_encoding(b.deal_id) + string_encoding(b.buyer));
    lemma_string_encoding_splits(
        a.deal_id,
        string_encoding(a.buyer),
        b.deal_id,
        string_encoding(b.buyer),
    );
    lemma_string_encoding_splits(a.buyer, Seq::<u8>::empty(), b.buyer, Seq::<u8>::empty());
}

} // verus!
