//! Big-endian byte-level primitives shared by every record codec: encoding
//! specifications over `Seq<u8>`, executable readers and writers proved
//! against them, and the eight-octet padding rule.

use vstd::prelude::*;
use crate::errors::DisError;

verus! {

// ---------------------------------------------------------------------------
// Encoding specifications
// ---------------------------------------------------------------------------

/// Big-endian bytes of a `u16`.
pub open spec fn enc_u16(v: u16) -> Seq<u8> {
    seq![((v >> 8) & 0xff) as u8, (v & 0xff) as u8]
}

/// Big-endian bytes of a `u32`.
pub open spec fn enc_u32(v: u32) -> Seq<u8> {
    seq![
        ((v >> 24) & 0xff) as u8,
        ((v >> 16) & 0xff) as u8,
        ((v >> 8) & 0xff) as u8,
        (v & 0xff) as u8,
    ]
}

/// Big-endian bytes of a `u64`.
pub open spec fn enc_u64(v: u64) -> Seq<u8> {
    seq![
        ((v >> 56) & 0xff) as u8,
        ((v >> 48) & 0xff) as u8,
        ((v >> 40) & 0xff) as u8,
        ((v >> 32) & 0xff) as u8,
        ((v >> 24) & 0xff) as u8,
        ((v >> 16) & 0xff) as u8,
        ((v >> 8) & 0xff) as u8,
        (v & 0xff) as u8,
    ]
}

/// The `u16` stored big-endian at index `i` of `b`.
pub open spec fn dec_u16(b: Seq<u8>, i: int) -> u16
    recommends
        0 <= i,
        i + 2 <= b.len(),
{
    ((b[i] as u16) << 8) | (b[i + 1] as u16)
}

/// The `u32` stored big-endian at index `i` of `b`.
pub open spec fn dec_u32(b: Seq<u8>, i: int) -> u32
    recommends
        0 <= i,
        i + 4 <= b.len(),
{
    ((b[i] as u32) << 24) | ((b[i + 1] as u32) << 16) | ((b[i + 2] as u32) << 8) | (b[i
        + 3] as u32)
}

/// The `u64` stored big-endian at index `i` of `b`.
pub open spec fn dec_u64(b: Seq<u8>, i: int) -> u64
    recommends
        0 <= i,
        i + 8 <= b.len(),
{
    ((b[i] as u64) << 56) | ((b[i + 1] as u64) << 48) | ((b[i + 2] as u64) << 40) | ((b[i
        + 3] as u64) << 32) | ((b[i + 4] as u64) << 24) | ((b[i + 5] as u64) << 16) | ((b[i
        + 6] as u64) << 8) | (b[i + 7] as u64)
}

/// True when the bytes of `e` stand in `s` starting at index `i`.
pub open spec fn bytes_at(s: Seq<u8>, i: int, e: Seq<u8>) -> bool {
    &&& 0 <= i
    &&& i + e.len() <= s.len()
    &&& s.subrange(i, i + e.len()) =~= e
}

/// Splitting a concatenated encoding: when `a + b` stands at `i`, `a` stands
/// at `i` and `b` right after it.
pub proof fn lemma_bytes_at_split(s: Seq<u8>, i: int, a: Seq<u8>, b: Seq<u8>)
    requires
        bytes_at(s, i, a + b),
    ensures
        bytes_at(s, i, a),
        bytes_at(s, i + a.len(), b),
{
    let ab = a + b;
    assert forall|k: int| 0 <= k < a.len() implies s[i + k] == a[k] by {
        assert(ab[k] == a[k]);
        assert(s.subrange(i, i + ab.len())[k] == s[i + k]);
    }
    assert(s.subrange(i, i + a.len()) =~= a);
    assert forall|k: int| 0 <= k < b.len() implies s[i + a.len() + k] == b[k] by {
        assert(ab[a.len() + k] == b[k]);
        assert(s.subrange(i, i + ab.len())[a.len() + k] == s[i + a.len() + k]);
    }
    assert(s.subrange(i + a.len(), i + a.len() + b.len()) =~= b);
}

/// `n` zero bytes.
pub open spec fn zeros(n: int) -> Seq<u8> {
    Seq::new(n as nat, |i: int| 0u8)
}

// ---------------------------------------------------------------------------
// Round-trip lemmas
// ---------------------------------------------------------------------------

pub proof fn lemma_dec_enc_u16(s: Seq<u8>, i: int, v: u16)
    requires
        bytes_at(s, i, enc_u16(v)),
    ensures
        dec_u16(s, i) == v,
{
    assert(s[i] == ((v >> 8) & 0xff) as u8);
    assert(s[i + 1] == (v & 0xff) as u8);
    assert(((((v >> 8) & 0xff) as u8 as u16) << 8) | ((v & 0xff) as u8 as u16) == v)
        by (bit_vector);
}

pub proof fn lemma_dec_enc_u32(s: Seq<u8>, i: int, v: u32)
    requires
        bytes_at(s, i, enc_u32(v)),
    ensures
        dec_u32(s, i) == v,
{
    assert(s[i] == ((v >> 24) & 0xff) as u8);
    assert(s[i + 1] == ((v >> 16) & 0xff) as u8);
    assert(s[i + 2] == ((v >> 8) & 0xff) as u8);
    assert(s[i + 3] == (v & 0xff) as u8);
    assert(((((v >> 24) & 0xff) as u8 as u32) << 24) | ((((v >> 16) & 0xff) as u8 as u32) << 16) | (
    (((v >> 8) & 0xff) as u8 as u32) << 8) | ((v & 0xff) as u8 as u32) == v) by (bit_vector);
}

pub proof fn lemma_dec_enc_u64(s: Seq<u8>, i: int, v: u64)
    requires
        bytes_at(s, i, enc_u64(v)),
    ensures
        dec_u64(s, i) == v,
{
    assert(s[i] == ((v >> 56) & 0xff) as u8);
    assert(s[i + 1] == ((v >> 48) & 0xff) as u8);
    assert(s[i + 2] == ((v >> 40) & 0xff) as u8);
    assert(s[i + 3] == ((v >> 32) & 0xff) as u8);
    assert(s[i + 4] == ((v >> 24) & 0xff) as u8);
    assert(s[i + 5] == ((v >> 16) & 0xff) as u8);
    assert(s[i + 6] == ((v >> 8) & 0xff) as u8);
    assert(s[i + 7] == (v & 0xff) as u8);
    assert(((((v >> 56) & 0xff) as u8 as u64) << 56) | ((((v >> 48) & 0xff) as u8 as u64) << 48) | (
    (((v >> 40) & 0xff) as u8 as u64) << 40) | ((((v >> 32) & 0xff) as u8 as u64) << 32) | ((((v
        >> 24) & 0xff) as u8 as u64) << 24) | ((((v >> 16) & 0xff) as u8 as u64) << 16) | ((((v
        >> 8) & 0xff) as u8 as u64) << 8) | ((v & 0xff) as u8 as u64) == v) by (bit_vector);
}

// ---------------------------------------------------------------------------
// Readers
// ---------------------------------------------------------------------------

/// Reads one byte at `pos`, staying inside `input[..end]`.
pub fn read_u8(input: &Vec<u8>, pos: usize, end: usize) -> (r: Result<(u8, usize), DisError>)
    requires
        end <= input@.len(),
    ensures
        r is Ok <==> pos + 1 <= end,
        r matches Ok((v, n)) ==> v == input@[pos as int] && n == pos + 1,
        r matches Err(e) ==> e == (DisError::InsufficientBytes {
            needed: 1,
            available: if pos <= end { (end - pos) as usize } else { 0 },
        }),
{
    if pos < end {
        Ok((input[pos], pos + 1))
    } else {
        Err(DisError::InsufficientBytes {
            needed: 1,
            available: if pos <= end { end - pos } else { 0 },
        })
    }
}

/// Reads a big-endian `u16` at `pos`, staying inside `input[..end]`.
pub fn read_u16(input: &Vec<u8>, pos: usize, end: usize) -> (r: Result<(u16, usize), DisError>)
    requires
        end <= input@.len(),
    ensures
        r is Ok <==> pos + 2 <= end,
        r matches Ok((v, n)) ==> v == dec_u16(input@, pos as int) && n == pos + 2,
        r matches Err(e) ==> e == (DisError::InsufficientBytes {
            needed: 2,
            available: if pos <= end { (end - pos) as usize } else { 0 },
        }),
{
    if pos <= end && end - pos >= 2 {
        let v = ((input[pos] as u16) << 8) | (input[pos + 1] as u16);
        Ok((v, pos + 2))
    } else {
        Err(DisError::InsufficientBytes {
            needed: 2,
            available: if pos <= end { end - pos } else { 0 },
        })
    }
}

/// Reads a big-endian `u32` at `pos`, staying inside `input[..end]`.
pub fn read_u32(input: &Vec<u8>, pos: usize, end: usize) -> (r: Result<(u32, usize), DisError>)
    requires
        end <= input@.len(),
    ensures
        r is Ok <==> pos + 4 <= end,
        r matches Ok((v, n)) ==> v == dec_u32(input@, pos as int) && n == pos + 4,
        r matches Err(e) ==> e == (DisError::InsufficientBytes {
            needed: 4,
            available: if pos <= end { (end - pos) as usize } else { 0 },
        }),
{
    if pos <= end && end - pos >= 4 {
        let v = ((input[pos] as u32) << 24) | ((input[pos + 1] as u32) << 16) | ((input[pos
            + 2] as u32) << 8) | (input[pos + 3] as u32);
        Ok((v, pos + 4))
    } else {
        Err(DisError::InsufficientBytes {
            needed: 4,
            available: if pos <= end { end - pos } else { 0 },
        })
    }
}

/// Reads a big-endian `u64` at `pos`, staying inside `input[..end]`.
pub fn read_u64(input: &Vec<u8>, pos: usize, end: usize) -> (r: Result<(u64, usize), DisError>)
    requires
        end <= input@.len(),
    ensures
        r is Ok <==> pos + 8 <= end,
        r matches Ok((v, n)) ==> v == dec_u64(input@, pos as int) && n == pos + 8,
        r matches Err(e) ==> e == (DisError::InsufficientBytes {
            needed: 8,
            available: if pos <= end { (end - pos) as usize } else { 0 },
        }),
{
    if pos <= end && end - pos >= 8 {
        let v = ((input[pos] as u64) << 56) | ((input[pos + 1] as u64) << 48) | ((input[pos
            + 2] as u64) << 40) | ((input[pos + 3] as u64) << 32) | ((input[pos + 4] as u64) << 24)
            | ((input[pos + 5] as u64) << 16) | ((input[pos + 6] as u64) << 8) | (input[pos
            + 7] as u64);
        Ok((v, pos + 8))
    } else {
        Err(DisError::InsufficientBytes {
            needed: 8,
            available: if pos <= end { end - pos } else { 0 },
        })
    }
}

/// Copies `input[pos .. pos + n]` out as a fresh vector, staying inside `input[..end]`.
pub fn read_bytes(input: &Vec<u8>, pos: usize, n: usize, end: usize) -> (r: Result<
    (Vec<u8>, usize),
    DisError,
>)
    requires
        end <= input@.len(),
    ensures
        r is Ok <==> pos + n <= end,
        r matches Ok((v, m)) ==> v@ == input@.subrange(pos as int, pos + n) && m == pos + n,
        r matches Err(e) ==> e == (DisError::InsufficientBytes {
            needed: n,
            available: if pos <= end { (end - pos) as usize } else { 0 },
        }),
{
    if pos <= end && end - pos >= n {
        let mut v: Vec<u8> = Vec::new();
        let mut i: usize = 0;
        while i < n
            invariant
                pos + n <= end <= input@.len(),
                i <= n,
                v@ =~= input@.subrange(pos as int, pos + i),
            decreases n - i,
        {
            v.push(input[pos + i]);
            i = i + 1;
        }
        Ok((v, pos + n))
    } else {
        Err(DisError::InsufficientBytes {
            needed: n,
            available: if pos <= end { end - pos } else { 0 },
        })
    }
}

// ---------------------------------------------------------------------------
// Writers
// ---------------------------------------------------------------------------

/// Appends one byte.
pub fn write_u8(out: &mut Vec<u8>, v: u8)
    ensures
        final(out)@ == old(out)@ + seq![v],
{
    out.push(v);
    assert(final(out)@ =~= old(out)@ + seq![v]);
}

/// Appends a `u16` big-endian.
pub fn write_u16(out: &mut Vec<u8>, v: u16)
    ensures
        final(out)@ == old(out)@ + enc_u16(v),
{
    out.push(((v >> 8) & 0xff) as u8);
    out.push((v & 0xff) as u8);
    assert(final(out)@ =~= old(out)@ + enc_u16(v));
}

/// Appends a `u32` big-endian.
pub fn write_u32(out: &mut Vec<u8>, v: u32)
    ensures
        final(out)@ == old(out)@ + enc_u32(v),
{
    out.push(((v >> 24) & 0xff) as u8);
    out.push(((v >> 16) & 0xff) as u8);
    out.push(((v >> 8) & 0xff) as u8);
    out.push((v & 0xff) as u8);
    assert(final(out)@ =~= old(out)@ + enc_u32(v));
}

/// Appends a `u64` big-endian.
pub fn write_u64(out: &mut Vec<u8>, v: u64)
    ensures
        final(out)@ == old(out)@ + enc_u64(v),
{
    out.push(((v >> 56) & 0xff) as u8);
    out.push(((v >> 48) & 0xff) as u8);
    out.push(((v >> 40) & 0xff) as u8);
    out.push(((v >> 32) & 0xff) as u8);
    out.push(((v >> 24) & 0xff) as u8);
    out.push(((v >> 16) & 0xff) as u8);
    out.push(((v >> 8) & 0xff) as u8);
    out.push((v & 0xff) as u8);
    assert(final(out)@ =~= old(out)@ + enc_u64(v));
}

/// Appends every byte of `src`.
pub fn write_bytes(out: &mut Vec<u8>, src: &Vec<u8>)
    ensures
        final(out)@ == old(out)@ + src@,
{
    let mut i: usize = 0;
    while i < src.len()
        invariant
            i <= src@.len(),
            out@ =~= old(out)@ + src@.subrange(0, i as int),
        decreases src@.len() - i,
    {
        out.push(src[i]);
        i = i + 1;
    }
    assert(final(out)@ =~= old(out)@ + src@);
}

/// Appends `n` zero bytes.
pub fn write_zeros(out: &mut Vec<u8>, n: usize)
    ensures
        final(out)@ == old(out)@ + zeros(n as int),
{
    let mut i: usize = 0;
    while i < n
        invariant
            i <= n,
            out@ =~= old(out)@ + zeros(i as int),
        decreases n - i,
    {
        out.push(0u8);
        i = i + 1;
    }
    assert(final(out)@ =~= old(out)@ + zeros(n as int));
}

// ---------------------------------------------------------------------------
// The eight-octet padding rule
// ---------------------------------------------------------------------------

/// The smallest multiple of eight no smaller than `n`.
pub open spec fn pad8(n: int) -> int
    recommends
        n >= 0,
{
    ((n + 7) / 8) * 8
}

pub proof fn lemma_pad8(n: int)
    requires
        n >= 0,
    ensures
        n <= pad8(n) < n + 8,
        pad8(n) % 8 == 0,
        n % 8 == 0 ==> pad8(n) == n,
        pad8(n) == n + ((8 - n % 8) % 8),
{
    let d = n / 8;
    let m = n % 8;
    vstd::arithmetic::div_mod::lemma_fundamental_div_mod(n, 8);
    if m == 0 {
        vstd::arithmetic::div_mod::lemma_fundamental_div_mod_converse(n + 7, 8, d, 7);
        assert(pad8(n) == 8 * d);
    } else {
        vstd::arithmetic::div_mod::lemma_fundamental_div_mod_converse(n + 7, 8, d + 1, m - 1);
        assert(pad8(n) == 8 * (d + 1));
        vstd::arithmetic::div_mod::lemma_small_mod((8 - m) as nat, 8);
    }
    assert(pad8(n) % 8 == 0) by {
        vstd::arithmetic::div_mod::lemma_mod_multiples_basic((n + 7) / 8, 8);
    }
}

/// Padded record length: given the content length in bytes, the total
/// length after padding to an eight-octet boundary, and the pad itself.
pub fn length_padded_to_eight(content_bytes: usize) -> (r: (usize, usize))
    requires
        content_bytes + 7 <= usize::MAX,
    ensures
        r.0 == pad8(content_bytes as int),
        r.1 == pad8(content_bytes as int) - content_bytes,
        r.1 < 8,
{
    proof {
        lemma_pad8(content_bytes as int);
    }
    let rem = content_bytes % 8;
    if rem == 0 {
        (content_bytes, 0)
    } else {
        (content_bytes + (8 - rem), 8 - rem)
    }
}

} // verus!
