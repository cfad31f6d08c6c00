//! Byte-string helpers: comparison, copying, and the length-prefixed framing
//! that makes a concatenation of fields decodable.
use vstd::prelude::*;

verus! {

/// Eight little-endian bytes of `n`.
pub open spec fn le_u64(n: u64) -> Seq<u8> {
    seq![
        (n & 0xff) as u8,
        ((n >> 8u64) & 0xff) as u8,
        ((n >> 16u64) & 0xff) as u8,
        ((n >> 24u64) & 0xff) as u8,
        ((n >> 32u64) & 0xff) as u8,
        ((n >> 40u64) & 0xff) as u8,
        ((n >> 48u64) & 0xff) as u8,
        ((n >> 56u64) & 0xff) as u8,
    ]
}

/// A byte string preceded by its length.
pub open spec fn frame(b: Seq<u8>) -> Seq<u8> {
    le_u64(b.len() as u64) + b
}

pub proof fn lemma_le_u64_injective(x: u64, y: u64)
    requires
        le_u64(x) == le_u64(y),
    ensures
        x == y,
{
    assert(le_u64(x)[0] == le_u64(y)[0]);
    assert(le_u64(x)[1] == le_u64(y)[1]);
    assert(le_u64(x)[2] == le_u64(y)[2]);
    assert(le_u64(x)[3] == le_u64(y)[3]);
    assert(le_u64(x)[4] == le_u64(y)[4]);
    assert(le_u64(x)[5] == le_u64(y)[5]);
    assert(le_u64(x)[6] == le_u64(y)[6]);
    assert(le_u64(x)[7] == le_u64(y)[7]);
    assert(x == y) by (bit_vector)
        requires
            (x & 0xff) as u8 == (y & 0xff) as u8,
            ((x >> 8u64) & 0xff) as u8 == ((y >> 8u64) & 0xff) as u8,
            ((x >> 16u64) & 0xff) as u8 == ((y >> 16u64) & 0xff) as u8,
            ((x >> 24u64) & 0xff) as u8 == ((y >> 24u64) & 0xff) as u8,
            ((x >> 32u64) & 0xff) as u8 == ((y >> 32u64) & 0xff) as u8,
            ((x >> 40u64) & 0xff) as u8 == ((y >> 40u64) & 0xff) as u8,
            ((x >> 48u64) & 0xff) as u8 == ((y >> 48u64) & 0xff) as u8,
            ((x >> 56u64) & 0xff) as u8 == ((y >> 56u64) & 0xff) as u8,
    ;
}

/// A framed string followed by anything can be split back into its parts.
pub proof fn lemma_frame_split(x: Seq<u8>, r1: Seq<u8>, y: Seq<u8>, r2: Seq<u8>)
    requires
        frame(x) + r1 == frame(y) + r2,
        x.len() <= u64::MAX,
        y.len() <= u64::MAX,
    ensures
        x == y,
        r1 == r2,
{
    let s1 = frame(x) + r1;
    let s2 = frame(y) + r2;
    assert(s1.subrange(0, 8) =~= le_u64(x.len() as u64));
    assert(s2.subrange(0, 8) =~= le_u64(y.len() as u64));
    lemma_le_u64_injective(x.len() as u64, y.len() as u64);
    assert(x.len() == y.len());
    let n = x.len() as int;
    assert(s1.subrange(8, 8 + n) =~= x);
    assert(s2.subrange(8, 8 + n) =~= y);
    assert(s1.subrange(8 + n, s1.len() as int) =~= r1);
    assert(s2.subrange(8 + n, s2.len() as int) =~= r2);
}

/// Equal suffixes can be cancelled.
pub proof fn lemma_cancel_suffix(x: Seq<u8>, y: Seq<u8>, k: Seq<u8>)
    requires
        x + k == y + k,
    ensures
        x == y,
{
    let s = x + k;
    assert(s.len() == x.len() + k.len());
    assert((y + k).len() == y.len() + k.len());
    assert(x.len() == y.len());
    assert(s.subrange(0, x.len() as int) =~= x);
    assert((y + k).subrange(0, y.len() as int) =~= y);
}

/// Byte-wise equality.
pub fn bytes_eq(a: &[u8], b: &[u8]) -> (r: bool)
    ensures
        r == (a@ == b@),
{
    if a.len() != b.len() {
        return false;
    }
    let mut i: usize = 0;
    while i < a.len()
        invariant
            a.len() == b.len(),
            0 <= i <= a.len(),
            forall|j: int| 0 <= j < i ==> a@[j] == b@[j],
        decreases a.len() - i,
    {
        if a[i] != b[i] {
            return false;
        }
        i = i + 1;
    }
    assert(a@ =~= b@);
    true
}

/// A fresh vector holding the same bytes.
pub fn copy_bytes(a: &[u8]) -> (r: Vec<u8>)
    ensures
        r@ == a@,
{
    let mut out: Vec<u8> = Vec::new();
    append_bytes(&mut out, a);
    assert(out@ =~= a@);
    out
}

/// Appends the bytes of `b` to `out`.
pub fn append_bytes(out: &mut Vec<u8>, b: &[u8])
    ensures
        final(out)@ == old(out)@ + b@,
{
    let ghost start = out@;
    let mut i: usize = 0;
    while i < b.len()
        invariant
            0 <= i <= b.len(),
            out@ == start + b@.subrange(0, i as int),
        decreases b.len() - i,
    {
        out.push(b[i]);
        i = i + 1;
        assert(out@ =~= start + b@.subrange(0, i as int));
    }
    assert(b@.subrange(0, b.len() as int) =~= b@);
}

/// Appends `b` preceded by its length.
pub fn append_frame(out: &mut Vec<u8>, b: &[u8])
    ensures
        final(out)@ == old(out)@ + frame(b@),
{
    let ghost start = out@;
    let n: u64 = b.len() as u64;
    out.push((n & 0xff) as u8);
    out.push(((n >> 8u64) & 0xff) as u8);
    out.push(((n >> 16u64) & 0xff) as u8);
    out.push(((n >> 24u64) & 0xff) as u8);
    out.push(((n >> 32u64) & 0xff) as u8);
    out.push(((n >> 40u64) & 0xff) as u8);
    out.push(((n >> 48u64) & 0xff) as u8);
    out.push(((n >> 56u64) & 0xff) as u8);
    assert(out@ =~= start + le_u64(n));
    append_bytes(out, b);
    assert(out@ =~= start + frame(b@));
}

} // verus!
