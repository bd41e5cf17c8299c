//! Little-endian integers as bytes, and a bounds-checked reader over a buffer.
//!
//! The byte forms are opaque to keep proofs about whole messages small; `reveal`
//! the ones that a statement about single bytes rests on.
use vstd::prelude::*;

use super::ProtocolError;

verus! {

/// The two bytes of `v`, least significant first.
#[verifier::opaque]
pub open spec fn le_u16(v: u16) -> Seq<u8> {
    seq![(v % 0x100) as u8, (v / 0x100) as u8]
}

/// The four bytes of `v`, least significant first.
#[verifier::opaque]
pub open spec fn le_u32(v: u32) -> Seq<u8> {
    le_u16((v % 0x1_0000) as u16) + le_u16((v / 0x1_0000) as u16)
}

/// The eight bytes of `v`, least significant first.
#[verifier::opaque]
pub open spec fn le_u64(v: u64) -> Seq<u8> {
    le_u32((v % 0x1_0000_0000) as u32) + le_u32((v / 0x1_0000_0000) as u32)
}

/// The little-endian `u16` that stands at `i` in `s`.
#[verifier::opaque]
pub open spec fn u16_at(s: Seq<u8>, i: int) -> u16 {
    (s[i] + 0x100 * s[i + 1]) as u16
}

/// The little-endian `u32` that stands at `i` in `s`.
#[verifier::opaque]
pub open spec fn u32_at(s: Seq<u8>, i: int) -> u32 {
    (u16_at(s, i) + 0x1_0000 * u16_at(s, i + 2)) as u32
}

/// The little-endian `u64` that stands at `i` in `s`.
#[verifier::opaque]
pub open spec fn u64_at(s: Seq<u8>, i: int) -> u64 {
    (u32_at(s, i) + 0x1_0000_0000 * u32_at(s, i + 4)) as u64
}

/// A `u16` takes two bytes.
pub broadcast proof fn lemma_len_u16(v: u16)
    ensures
        #[trigger] le_u16(v).len() == 2,
{
    reveal(le_u16);
}

/// A `u32` takes four bytes.
pub broadcast proof fn lemma_len_u32(v: u32)
    ensures
        #[trigger] le_u32(v).len() == 4,
{
    reveal(le_u16);
    reveal(le_u32);
}

/// A `u64` takes eight bytes.
pub broadcast proof fn lemma_len_u64(v: u64)
    ensures
        #[trigger] le_u64(v).len() == 8,
{
    reveal(le_u16);
    reveal(le_u32);
    reveal(le_u64);
}

/// How many bytes the integers take.
pub broadcast group group_le_len {
    lemma_len_u16,
    lemma_len_u32,
    lemma_len_u64,
}

/// What is appended to nothing stands alone.
pub broadcast proof fn lemma_append_to_empty(s: Seq<u8>)
    ensures
        #[trigger] (Seq::<u8>::empty() + s) == s,
{
    assert(Seq::<u8>::empty() + s =~= s);
}

/// Reading where the bytes of `v` stand gives `v`.
pub proof fn lemma_u16_at(s: Seq<u8>, i: int, v: u16)
    requires
        0 <= i,
        i + 2 <= s.len(),
        s.subrange(i, i + 2) =~= le_u16(v),
    ensures
        u16_at(s, i) == v,
{
    reveal(le_u16);
    reveal(u16_at);
    assert(s.subrange(i, i + 2)[0] == s[i]);
    assert(s.subrange(i, i + 2)[1] == s[i + 1]);
}

/// Reading where the bytes of `v` stand gives `v`.
pub proof fn lemma_u32_at(s: Seq<u8>, i: int, v: u32)
    requires
        0 <= i,
        i + 4 <= s.len(),
        s.subrange(i, i + 4) =~= le_u32(v),
    ensures
        u32_at(s, i) == v,
{
    reveal(le_u16);
    reveal(le_u32);
    reveal(u32_at);
    let b = s.subrange(i, i + 4);
    assert(b.subrange(0, 2) =~= le_u16((v % 0x1_0000) as u16));
    assert(b.subrange(2, 4) =~= le_u16((v / 0x1_0000) as u16));
    assert(s.subrange(i, i + 2) =~= b.subrange(0, 2));
    assert(s.subrange(i + 2, i + 4) =~= b.subrange(2, 4));
    lemma_u16_at(s, i, (v % 0x1_0000) as u16);
    lemma_u16_at(s, i + 2, (v / 0x1_0000) as u16);
}

/// Reading where the bytes of `v` stand gives `v`.
pub proof fn lemma_u64_at(s: Seq<u8>, i: int, v: u64)
    requires
        0 <= i,
        i + 8 <= s.len(),
        s.subrange(i, i + 8) =~= le_u64(v),
    ensures
        u64_at(s, i) == v,
{
    reveal(le_u16);
    reveal(le_u32);
    reveal(le_u64);
    reveal(u64_at);
    let b = s.subrange(i, i + 8);
    assert(b.subrange(0, 4) =~= le_u32((v % 0x1_0000_0000) as u32));
    assert(b.subrange(4, 8) =~= le_u32((v / 0x1_0000_0000) as u32));
    assert(s.subrange(i, i + 4) =~= b.subrange(0, 4));
    assert(s.subrange(i + 4, i + 8) =~= b.subrange(4, 8));
    lemma_u32_at(s, i, (v % 0x1_0000_0000) as u32);
    lemma_u32_at(s, i + 4, (v / 0x1_0000_0000) as u32);
}

/// The bytes of what is read at `i` are the bytes that stand there.
pub proof fn lemma_le_u16(s: Seq<u8>, i: int)
    requires
        0 <= i,
        i + 2 <= s.len(),
    ensures
        le_u16(u16_at(s, i)) == s.subrange(i, i + 2),
{
    reveal(le_u16);
    reveal(u16_at);
    assert(le_u16(u16_at(s, i)) =~= s.subrange(i, i + 2));
}

/// The bytes of what is read at `i` are the bytes that stand there.
pub proof fn lemma_le_u32(s: Seq<u8>, i: int)
    requires
        0 <= i,
        i + 4 <= s.len(),
    ensures
        le_u32(u32_at(s, i)) == s.subrange(i, i + 4),
{
    reveal(le_u32);
    reveal(u32_at);
    lemma_le_u16(s, i);
    lemma_le_u16(s, i + 2);
    assert(s.subrange(i, i + 2) + s.subrange(i + 2, i + 4) =~= s.subrange(i, i + 4));
}

/// A `u64` made of two halves has those halves.
proof fn lemma_halves(low: u32, high: u32)
    ensures
        (low + 0x1_0000_0000 * high) as u64 % 0x1_0000_0000 == low,
        (low + 0x1_0000_0000 * high) as u64 / 0x1_0000_0000 == high,
{
}

/// The bytes of what is read at `i` are the bytes that stand there.
pub proof fn lemma_le_u64(s: Seq<u8>, i: int)
    requires
        0 <= i,
        i + 8 <= s.len(),
    ensures
        le_u64(u64_at(s, i)) == s.subrange(i, i + 8),
{
    reveal(le_u64);
    reveal(u64_at);
    lemma_le_u32(s, i);
    lemma_le_u32(s, i + 4);
    lemma_halves(u32_at(s, i), u32_at(s, i + 4));
    assert(s.subrange(i, i + 4) + s.subrange(i + 4, i + 8) =~= s.subrange(i, i + 8));
}

/// The low 32 bits of a length.
pub open spec fn low_u32(n: nat) -> u32 {
    (n % 0x1_0000_0000) as u32
}

/// The low 32 bits of a length, as a length field on the wire carries them.
pub fn len_u32(n: usize) -> (r: u32)
    ensures
        r == low_u32(n as nat),
{
    let wide: u64 = n as u64;
    assert((wide as u32) == wide % 0x1_0000_0000) by (bit_vector);
    wide as u32
}

/// Append `v` to `out`, least significant byte first.
pub fn put_u16(out: &mut Vec<u8>, v: u16)
    ensures
        final(out)@ == old(out)@ + le_u16(v),
{
    reveal(le_u16);
    out.push((v % 0x100) as u8);
    out.push((v / 0x100) as u8);
}

/// Append `v` to `out`, least significant byte first.
pub fn put_u32(out: &mut Vec<u8>, v: u32)
    ensures
        final(out)@ == old(out)@ + le_u32(v),
{
    reveal(le_u32);
    put_u16(out, (v % 0x1_0000) as u16);
    put_u16(out, (v / 0x1_0000) as u16);
}

/// Append `v` to `out`, least significant byte first.
pub fn put_u64(out: &mut Vec<u8>, v: u64)
    ensures
        final(out)@ == old(out)@ + le_u64(v),
{
    reveal(le_u64);
    put_u32(out, (v % 0x1_0000_0000) as u32);
    put_u32(out, (v / 0x1_0000_0000) as u32);
}

/// A bounds-checked little-endian reader over a byte slice.
pub struct Reader<'a> {
    /// The buffer that is read.
    pub buf: &'a [u8],
    /// Offset of the next byte to read.
    pub pos: usize,
}

impl<'a> Reader<'a> {
    /// A reader at the front of `buf`.
    pub fn new(buf: &'a [u8]) -> (r: Self)
        ensures
            r.buf == buf,
            r.pos == 0,
    {
        Self { buf, pos: 0 }
    }

    /// Read a `u16` and advance past it.
    pub fn u16(&mut self) -> (r: Result<u16, ProtocolError>)
        requires
            old(self).pos <= old(self).buf@.len(),
        ensures
            final(self).buf == old(self).buf,
            old(self).pos + 2 <= old(self).buf@.len() ==> {
                &&& r == Ok::<u16, ProtocolError>(u16_at(old(self).buf@, old(self).pos as int))
                &&& final(self).pos == old(self).pos + 2
            },
            old(self).pos + 2 > old(self).buf@.len() ==> {
                &&& r == Err::<u16, ProtocolError>(ProtocolError::UnexpectedEof)
                &&& final(self).pos == old(self).pos
            },
    {
        reveal(u16_at);
        if self.buf.len() - self.pos < 2 {
            return Err(ProtocolError::UnexpectedEof);
        }
        let v: u16 = self.buf[self.pos] as u16 + 0x100 * (self.buf[self.pos + 1] as u16);
        self.pos = self.pos + 2;
        Ok(v)
    }

    /// Read a `u32` and advance past it.
    pub fn u32(&mut self) -> (r: Result<u32, ProtocolError>)
        requires
            old(self).pos <= old(self).buf@.len(),
        ensures
            final(self).buf == old(self).buf,
            old(self).pos + 4 <= old(self).buf@.len() ==> {
                &&& r == Ok::<u32, ProtocolError>(u32_at(old(self).buf@, old(self).pos as int))
                &&& final(self).pos == old(self).pos + 4
            },
            old(self).pos + 4 > old(self).buf@.len() ==> {
                &&& r == Err::<u32, ProtocolError>(ProtocolError::UnexpectedEof)
                &&& final(self).pos == old(self).pos
            },
    {
        reveal(u32_at);
        if self.buf.len() - self.pos < 4 {
            return Err(ProtocolError::UnexpectedEof);
        }
        let low: u16 = self.u16()?;
        let high: u16 = self.u16()?;
        Ok(low as u32 + 0x1_0000 * (high as u32))
    }

    /// Read a `u64` and advance past it.
    pub fn u64(&mut self) -> (r: Result<u64, ProtocolError>)
        requires
            old(self).pos <= old(self).buf@.len(),
        ensures
            final(self).buf == old(self).buf,
            old(self).pos + 8 <= old(self).buf@.len() ==> {
                &&& r == Ok::<u64, ProtocolError>(u64_at(old(self).buf@, old(self).pos as int))
                &&& final(self).pos == old(self).pos + 8
            },
            old(self).pos + 8 > old(self).buf@.len() ==> {
                &&& r == Err::<u64, ProtocolError>(ProtocolError::UnexpectedEof)
                &&& final(self).pos == old(self).pos
            },
    {
        reveal(u64_at);
        if self.buf.len() - self.pos < 8 {
            return Err(ProtocolError::UnexpectedEof);
        }
        let low: u32 = self.u32()?;
        let high: u32 = self.u32()?;
        Ok(low as u64 + 0x1_0000_0000 * (high as u64))
    }
}

/// Integers go on the wire least significant byte first.
pub proof fn law_little_endian(v: u16, w: u32, x: u64)
    ensures
        ({
            let b = le_u16(v);
            b.len() == 2 && v == b[0] + 0x100 * b[1]
        }),
        ({
            let b = le_u32(w);
            b.len() == 4 && w == b[0] + 0x100 * b[1] + 0x1_0000 * b[2] + 0x100_0000 * b[3]
        }),
        ({
            let b = le_u64(x);
            b.len() == 8 && x == b[0] + 0x100 * b[1] + 0x1_0000 * b[2] + 0x100_0000 * b[3]
                + 0x1_0000_0000 * b[4] + 0x100_0000_0000 * b[5] + 0x1_0000_0000_0000 * b[6]
                + 0x100_0000_0000_0000 * b[7]
        }),
{
    lemma_bytes_of_u32(w);
    reveal(le_u16);
    reveal(le_u64);
    let (low, high) = ((x % 0x1_0000_0000) as u32, (x / 0x1_0000_0000) as u32);
    lemma_bytes_of_u32(low);
    lemma_bytes_of_u32(high);
    let b = le_u64(x);
    assert(b =~= le_u32(low) + le_u32(high));
    assert(b[4] == le_u32(high)[0] && b[5] == le_u32(high)[1] && b[6] == le_u32(high)[2] && b[7]
        == le_u32(high)[3]);
    assert(x == low + 0x1_0000_0000 * high);
}

/// The bytes of a `u32` make it up.
proof fn lemma_bytes_of_u32(w: u32)
    ensures
        ({
            let b = le_u32(w);
            b.len() == 4 && w == b[0] + 0x100 * b[1] + 0x1_0000 * b[2] + 0x100_0000 * b[3]
        }),
{
    reveal(le_u16);
    reveal(le_u32);
    let (low, high) = ((w % 0x1_0000) as u16, (w / 0x1_0000) as u16);
    let b = le_u32(w);
    assert(b =~= le_u16(low) + le_u16(high));
    assert(b[2] == le_u16(high)[0] && b[3] == le_u16(high)[1]);
}

/// What is read where bytes stand is the integer they make up, least significant
/// byte first.
pub proof fn law_reads_little_endian(s: Seq<u8>, i: int)
    ensures
        u16_at(s, i) == s[i] + 0x100 * s[i + 1],
        u32_at(s, i) == s[i] + 0x100 * s[i + 1] + 0x1_0000 * s[i + 2] + 0x100_0000 * s[i + 3],
        u64_at(s, i) == s[i] + 0x100 * s[i + 1] + 0x1_0000 * s[i + 2] + 0x100_0000 * s[i + 3]
            + 0x1_0000_0000 * s[i + 4] + 0x100_0000_0000 * s[i + 5] + 0x1_0000_0000_0000 * s[i + 6]
            + 0x100_0000_0000_0000 * s[i + 7],
{
    reveal(u16_at);
    reveal(u32_at);
    reveal(u64_at);
}

} // verus!
