//! Building blocks of the byte format: little-endian integers and
//! length-prefixed byte strings, read from a position.

use vstd::prelude::*;

verus! {

/// The eight little-endian bytes of `x`.
pub open spec fn u64_le(x: u64) -> Seq<u8> {
    seq![
        x as u8,
        (x >> 8u64) as u8,
        (x >> 16u64) as u8,
        (x >> 24u64) as u8,
        (x >> 32u64) as u8,
        (x >> 40u64) as u8,
        (x >> 48u64) as u8,
        (x >> 56u64) as u8,
    ]
}

/// The integer whose little-endian bytes start at `pos`.
pub open spec fn read_u64_le(s: Seq<u8>, pos: int) -> u64 {
    (s[pos] as u64) | ((s[pos + 1] as u64) << 8u64) | ((s[pos + 2] as u64) << 16u64) | ((s[pos
        + 3] as u64) << 24u64) | ((s[pos + 4] as u64) << 32u64) | ((s[pos + 5] as u64) << 40u64)
        | ((s[pos + 6] as u64) << 48u64) | ((s[pos + 7] as u64) << 56u64)
}

/// The four little-endian bytes of `x`.
pub open spec fn u32_le(x: u32) -> Seq<u8> {
    seq![x as u8, (x >> 8u32) as u8, (x >> 16u32) as u8, (x >> 24u32) as u8]
}

/// The integer whose little-endian bytes start at `pos`.
pub open spec fn read_u32_le(s: Seq<u8>, pos: int) -> u32 {
    (s[pos] as u32) | ((s[pos + 1] as u32) << 8u32) | ((s[pos + 2] as u32) << 16u32) | ((s[pos
        + 3] as u32) << 24u32)
}

/// A byte string with its length in front, as eight little-endian bytes.
pub open spec fn framed(b: Seq<u8>) -> Seq<u8> {
    u64_le(b.len() as u64) + b
}

/// Reads a length-prefixed byte string at `pos`: the string and the
/// position after it.
pub open spec fn read_framed(s: Seq<u8>, pos: int) -> Option<(Seq<u8>, int)> {
    if 0 <= pos && pos + 8 <= s.len() {
        let n = read_u64_le(s, pos) as int;
        if pos + 8 + n <= s.len() {
            Some((s.subrange(pos + 8, pos + 8 + n), pos + 8 + n))
        } else {
            None
        }
    } else {
        None
    }
}

/// Reading the bytes of an integer gives the integer back.
pub proof fn lemma_u64_le(x: u64, s: Seq<u8>, pos: int)
    requires
        0 <= pos,
        pos + 8 <= s.len(),
        s.subrange(pos, pos + 8) == u64_le(x),
    ensures
        read_u64_le(s, pos) == x,
{
    assert(s[pos] == u64_le(x)[0]);
    assert(s[pos + 1] == u64_le(x)[1]);
    assert(s[pos + 2] == u64_le(x)[2]);
    assert(s[pos + 3] == u64_le(x)[3]);
    assert(s[pos + 4] == u64_le(x)[4]);
    assert(s[pos + 5] == u64_le(x)[5]);
    assert(s[pos + 6] == u64_le(x)[6]);
    assert(s[pos + 7] == u64_le(x)[7]);
    let b0 = s[pos];
    let b1 = s[pos + 1];
    let b2 = s[pos + 2];
    let b3 = s[pos + 3];
    let b4 = s[pos + 4];
    let b5 = s[pos + 5];
    let b6 = s[pos + 6];
    let b7 = s[pos + 7];
    assert((b0 as u64) | ((b1 as u64) << 8u64) | ((b2 as u64) << 16u64) | ((b3 as u64) << 24u64)
        | ((b4 as u64) << 32u64) | ((b5 as u64) << 40u64) | ((b6 as u64) << 48u64) | ((b7 as u64)
        << 56u64) == x) by (bit_vector)
        requires
            b0 == x as u8,
            b1 == (x >> 8u64) as u8,
            b2 == (x >> 16u64) as u8,
            b3 == (x >> 24u64) as u8,
            b4 == (x >> 32u64) as u8,
            b5 == (x >> 40u64) as u8,
            b6 == (x >> 48u64) as u8,
            b7 == (x >> 56u64) as u8,
    ;
}

/// Reading the bytes of an integer gives the integer back.
pub proof fn lemma_u32_le(x: u32, s: Seq<u8>, pos: int)
    requires
        0 <= pos,
        pos + 4 <= s.len(),
        s.subrange(pos, pos + 4) == u32_le(x),
    ensures
        read_u32_le(s, pos) == x,
{
    assert(s[pos] == u32_le(x)[0]);
    assert(s[pos + 1] == u32_le(x)[1]);
    assert(s[pos + 2] == u32_le(x)[2]);
    assert(s[pos + 3] == u32_le(x)[3]);
    let b0 = s[pos];
    let b1 = s[pos + 1];
    let b2 = s[pos + 2];
    let b3 = s[pos + 3];
    assert((b0 as u32) | ((b1 as u32) << 8u32) | ((b2 as u32) << 16u32) | ((b3 as u32) << 24u32)
        == x) by (bit_vector)
        requires
            b0 == x as u8,
            b1 == (x >> 8u32) as u8,
            b2 == (x >> 16u32) as u8,
            b3 == (x >> 24u32) as u8,
    ;
}

/// A framed string placed at `pos` is read back whole, whatever follows.
pub proof fn lemma_framed(b: Seq<u8>, s: Seq<u8>, pos: int)
    requires
        0 <= pos,
        b.len() <= u64::MAX,
        pos + framed(b).len() <= s.len(),
        s.subrange(pos, pos + framed(b).len()) == framed(b),
    ensures
        read_framed(s, pos) == Some((b, pos + framed(b).len())),
{
    let f = framed(b);
    assert(s.subrange(pos, pos + 8) =~= f.subrange(0, 8));
    assert(f.subrange(0, 8) =~= u64_le(b.len() as u64));
    lemma_u64_le(b.len() as u64, s, pos);
    assert(s.subrange(pos + 8, pos + 8 + b.len()) =~= f.subrange(8, 8 + b.len() as int));
    assert(f.subrange(8, 8 + b.len() as int) =~= b);
}

/// A window on `a + b` splits into a window on `a` and one on `b`.
pub proof fn lemma_split(s: Seq<u8>, pos: int, a: Seq<u8>, b: Seq<u8>)
    requires
        0 <= pos,
        pos + a.len() + b.len() <= s.len(),
        s.subrange(pos, pos + a.len() + b.len()) == a + b,
    ensures
        s.subrange(pos, pos + a.len()) == a,
        s.subrange(pos + a.len(), pos + a.len() + b.len()) == b,
{
    let w = s.subrange(pos, pos + a.len() + b.len());
    assert(s.subrange(pos, pos + a.len()) =~= w.subrange(0, a.len() as int));
    assert((a + b).subrange(0, a.len() as int) =~= a);
    assert(s.subrange(pos + a.len(), pos + a.len() + b.len()) =~= w.subrange(
        a.len() as int,
        (a.len() + b.len()) as int,
    ));
    assert((a + b).subrange(a.len() as int, (a.len() + b.len()) as int) =~= b);
}

/// Appends the little-endian bytes of `x`.
pub fn write_u64_le(out: &mut Vec<u8>, x: u64)
    ensures
        final(out)@ == old(out)@ + u64_le(x),
{
    out.push(x as u8);
    out.push((x >> 8u64) as u8);
    out.push((x >> 16u64) as u8);
    out.push((x >> 24u64) as u8);
    out.push((x >> 32u64) as u8);
    out.push((x >> 40u64) as u8);
    out.push((x >> 48u64) as u8);
    out.push((x >> 56u64) as u8);
    assert(final(out)@ =~= old(out)@ + u64_le(x));
}

/// Appends the little-endian bytes of `x`.
pub fn write_u32_le(out: &mut Vec<u8>, x: u32)
    ensures
        final(out)@ == old(out)@ + u32_le(x),
{
    out.push(x as u8);
    out.push((x >> 8u32) as u8);
    out.push((x >> 16u32) as u8);
    out.push((x >> 24u32) as u8);
    assert(final(out)@ =~= old(out)@ + u32_le(x));
}

/// Appends a length-prefixed byte string.
pub fn write_framed(out: &mut Vec<u8>, b: &[u8])
    ensures
        final(out)@ == old(out)@ + framed(b@),
{
    write_u64_le(out, b.len() as u64);
    let mut i: usize = 0;
    let ghost start = out@;
    while i < b.len()
        invariant
            0 <= i <= b@.len(),
            out@ == start + b@.subrange(0, i as int),
        decreases b@.len() - i,
    {
        out.push(b[i]);
        assert(out@ =~= start + b@.subrange(0, i as int + 1));
        i = i + 1;
    }
    assert(b@.subrange(0, b@.len() as int) =~= b@);
    assert(final(out)@ =~= old(out)@ + framed(b@));
}

/// Reads the little-endian integer at `pos`.
pub fn take_u64_le(s: &[u8], pos: usize) -> (r: u64)
    requires
        pos + 8 <= s@.len(),
    ensures
        r == read_u64_le(s@, pos as int),
{
    (s[pos] as u64) | ((s[pos + 1] as u64) << 8u64) | ((s[pos + 2] as u64) << 16u64) | ((s[pos
        + 3] as u64) << 24u64) | ((s[pos + 4] as u64) << 32u64) | ((s[pos + 5] as u64) << 40u64)
        | ((s[pos + 6] as u64) << 48u64) | ((s[pos + 7] as u64) << 56u64)
}

/// Reads the little-endian integer at `pos`.
pub fn take_u32_le(s: &[u8], pos: usize) -> (r: u32)
    requires
        pos + 4 <= s@.len(),
    ensures
        r == read_u32_le(s@, pos as int),
{
    (s[pos] as u32) | ((s[pos + 1] as u32) << 8u32) | ((s[pos + 2] as u32) << 16u32) | ((s[pos
        + 3] as u32) << 24u32)
}

/// Reads a length-prefixed byte string at `pos`.
pub fn take_framed(s: &[u8], pos: usize) -> (r: Option<(Vec<u8>, usize)>)
    ensures
        match (r, read_framed(s@, pos as int)) {
            (Some((b, next)), Some((sb, snext))) => b@ == sb && next == snext,
            (None, None) => true,
            _ => false,
        },
{
    if pos > s.len() || s.len() - pos < 8 {
        return None;
    }
    let n = take_u64_le(s, pos);
    if n > (s.len() - pos - 8) as u64 {
        return None;
    }
    let n = n as usize;
    let start = pos + 8;
    let mut out: Vec<u8> = Vec::with_capacity(n);
    let mut i: usize = 0;
    while i < n
        invariant
            start + n <= s@.len(),
            s@.len() == s.len(),
            0 <= i <= n,
            out@ == s@.subrange(start as int, start + i),
        decreases n - i,
    {
        out.push(s[start + i]);
        assert(out@ =~= s@.subrange(start as int, start + i + 1));
        i = i + 1;
    }
    Some((out, start + n))
}

} // verus!
