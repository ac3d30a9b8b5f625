//! Reading and writing fixed-size integers in byte buffers.
use vstd::prelude::*;

verus! {

/// The ways in which reading or writing a frame or element can fail.
#[derive(Clone, Copy, Debug, PartialEq, Eq)]
pub enum Error {
    /// The input ended before the value was complete, or the output buffer is too short.
    TooShort,
    /// The input is longer than the value may be.
    TooBig,
    /// The input holds a value that isn't allowed.
    BadInput,
}

/// The little-endian `u16` at `o`.
pub open spec fn le_u16(s: Seq<u8>, o: int) -> u16 {
    (s[o] + 256 * s[o + 1]) as u16
}

/// The big-endian `u16` at `o`.
pub open spec fn be_u16(s: Seq<u8>, o: int) -> u16 {
    (256 * s[o] + s[o + 1]) as u16
}

/// The little-endian `u32` at `o`.
pub open spec fn le_u32(s: Seq<u8>, o: int) -> u32 {
    (le_u16(s, o) + 0x1_0000 * le_u16(s, o + 2)) as u32
}

/// The big-endian `u32` at `o`.
pub open spec fn be_u32(s: Seq<u8>, o: int) -> u32 {
    (0x1_0000 * be_u16(s, o) + be_u16(s, o + 2)) as u32
}

/// The little-endian `u64` at `o`.
pub open spec fn le_u64(s: Seq<u8>, o: int) -> u64 {
    (le_u32(s, o) + 0x1_0000_0000 * le_u32(s, o + 4)) as u64
}

/// The big-endian `u64` at `o`.
pub open spec fn be_u64(s: Seq<u8>, o: int) -> u64 {
    (0x1_0000_0000 * be_u32(s, o) + be_u32(s, o + 4)) as u64
}

/// The two bytes of `x`, least significant first.
pub open spec fn u16_le_bytes(x: u16) -> Seq<u8> {
    seq![(x % 256) as u8, (x / 256) as u8]
}

/// The two bytes of `x`, most significant first.
pub open spec fn u16_be_bytes(x: u16) -> Seq<u8> {
    seq![(x / 256) as u8, (x % 256) as u8]
}

/// The four bytes of `x`, least significant first.
pub open spec fn u32_le_bytes(x: u32) -> Seq<u8> {
    u16_le_bytes((x % 0x1_0000) as u16) + u16_le_bytes((x / 0x1_0000) as u16)
}

/// The four bytes of `x`, most significant first.
pub open spec fn u32_be_bytes(x: u32) -> Seq<u8> {
    u16_be_bytes((x / 0x1_0000) as u16) + u16_be_bytes((x % 0x1_0000) as u16)
}

/// The eight bytes of `x`, least significant first.
pub open spec fn u64_le_bytes(x: u64) -> Seq<u8> {
    u32_le_bytes((x % 0x1_0000_0000) as u32) + u32_le_bytes((x / 0x1_0000_0000) as u32)
}

/// The eight bytes of `x`, most significant first.
pub open spec fn u64_be_bytes(x: u64) -> Seq<u8> {
    u32_be_bytes((x / 0x1_0000_0000) as u32) + u32_be_bytes((x % 0x1_0000_0000) as u32)
}

/// Reading back the bytes of a `u16` gives the `u16`.
pub proof fn lemma_u16_roundtrip(x: u16, pre: Seq<u8>, post: Seq<u8>)
    ensures
        le_u16(pre + u16_le_bytes(x) + post, pre.len() as int) == x,
        be_u16(pre + u16_be_bytes(x) + post, pre.len() as int) == x,
{
    let s = pre + u16_le_bytes(x) + post;
    assert(s[pre.len() as int] == (x % 256) as u8);
    assert(s[pre.len() as int + 1] == (x / 256) as u8);
    let t = pre + u16_be_bytes(x) + post;
    assert(t[pre.len() as int] == (x / 256) as u8);
    assert(t[pre.len() as int + 1] == (x % 256) as u8);
}

/// Reading back the bytes of a `u32` gives the `u32`.
pub proof fn lemma_u32_roundtrip(x: u32, pre: Seq<u8>, post: Seq<u8>)
    ensures
        le_u32(pre + u32_le_bytes(x) + post, pre.len() as int) == x,
        be_u32(pre + u32_be_bytes(x) + post, pre.len() as int) == x,
{
    let lo = (x % 0x1_0000) as u16;
    let hi = (x / 0x1_0000) as u16;
    assert(pre + u32_le_bytes(x) + post =~= pre + u16_le_bytes(lo) + (u16_le_bytes(hi) + post));
    assert(pre + u32_le_bytes(x) + post =~= (pre + u16_le_bytes(lo)) + u16_le_bytes(hi) + post);
    lemma_u16_roundtrip(lo, pre, u16_le_bytes(hi) + post);
    lemma_u16_roundtrip(hi, pre + u16_le_bytes(lo), post);
    assert(pre + u32_be_bytes(x) + post =~= pre + u16_be_bytes(hi) + (u16_be_bytes(lo) + post));
    assert(pre + u32_be_bytes(x) + post =~= (pre + u16_be_bytes(hi)) + u16_be_bytes(lo) + post);
    lemma_u16_roundtrip(hi, pre, u16_be_bytes(lo) + post);
    lemma_u16_roundtrip(lo, pre + u16_be_bytes(hi), post);
}

/// Reading back the bytes of a `u64` gives the `u64`.
pub proof fn lemma_u64_roundtrip(x: u64, pre: Seq<u8>, post: Seq<u8>)
    ensures
        le_u64(pre + u64_le_bytes(x) + post, pre.len() as int) == x,
        be_u64(pre + u64_be_bytes(x) + post, pre.len() as int) == x,
{
    let lo = (x % 0x1_0000_0000) as u32;
    let hi = (x / 0x1_0000_0000) as u32;
    assert(pre + u64_le_bytes(x) + post =~= pre + u32_le_bytes(lo) + (u32_le_bytes(hi) + post));
    assert(pre + u64_le_bytes(x) + post =~= (pre + u32_le_bytes(lo)) + u32_le_bytes(hi) + post);
    lemma_u32_roundtrip(lo, pre, u32_le_bytes(hi) + post);
    lemma_u32_roundtrip(hi, pre + u32_le_bytes(lo), post);
    assert(pre + u64_be_bytes(x) + post =~= pre + u32_be_bytes(hi) + (u32_be_bytes(lo) + post));
    assert(pre + u64_be_bytes(x) + post =~= (pre + u32_be_bytes(hi)) + u32_be_bytes(lo) + post);
    lemma_u32_roundtrip(hi, pre, u32_be_bytes(lo) + post);
    lemma_u32_roundtrip(lo, pre + u32_be_bytes(hi), post);
}

/// The `u16` whose bytes stand at `o` is read back from there.
pub proof fn lemma_u16_at(s: Seq<u8>, o: int, x: u16)
    requires
        0 <= o,
        o + 2 <= s.len(),
        s.subrange(o, o + 2) == u16_le_bytes(x) || s.subrange(o, o + 2) == u16_be_bytes(x),
    ensures
        s.subrange(o, o + 2) == u16_le_bytes(x) ==> le_u16(s, o) == x,
        s.subrange(o, o + 2) == u16_be_bytes(x) ==> be_u16(s, o) == x,
{
    assert(s[o] == s.subrange(o, o + 2)[0]);
    assert(s[o + 1] == s.subrange(o, o + 2)[1]);
}

/// The `u32` whose bytes stand at `o` is read back from there.
pub proof fn lemma_u32_at(s: Seq<u8>, o: int, x: u32)
    requires
        0 <= o,
        o + 4 <= s.len(),
        s.subrange(o, o + 4) == u32_le_bytes(x) || s.subrange(o, o + 4) == u32_be_bytes(x),
    ensures
        s.subrange(o, o + 4) == u32_le_bytes(x) ==> le_u32(s, o) == x,
        s.subrange(o, o + 4) == u32_be_bytes(x) ==> be_u32(s, o) == x,
{
    let lo = (x % 0x1_0000) as u16;
    let hi = (x / 0x1_0000) as u16;
    if s.subrange(o, o + 4) == u32_le_bytes(x) {
        assert(s.subrange(o, o + 2) =~= s.subrange(o, o + 4).subrange(0, 2));
        assert(s.subrange(o + 2, o + 4) =~= s.subrange(o, o + 4).subrange(2, 4));
        assert(u32_le_bytes(x).subrange(0, 2) =~= u16_le_bytes(lo));
        assert(u32_le_bytes(x).subrange(2, 4) =~= u16_le_bytes(hi));
        lemma_u16_at(s, o, lo);
        lemma_u16_at(s, o + 2, hi);
    }
    if s.subrange(o, o + 4) == u32_be_bytes(x) {
        assert(s.subrange(o, o + 2) =~= s.subrange(o, o + 4).subrange(0, 2));
        assert(s.subrange(o + 2, o + 4) =~= s.subrange(o, o + 4).subrange(2, 4));
        assert(u32_be_bytes(x).subrange(0, 2) =~= u16_be_bytes(hi));
        assert(u32_be_bytes(x).subrange(2, 4) =~= u16_be_bytes(lo));
        lemma_u16_at(s, o, hi);
        lemma_u16_at(s, o + 2, lo);
    }
}

/// The `u64` whose bytes stand at `o` is read back from there.
pub proof fn lemma_u64_at(s: Seq<u8>, o: int, x: u64)
    requires
        0 <= o,
        o + 8 <= s.len(),
        s.subrange(o, o + 8) == u64_le_bytes(x) || s.subrange(o, o + 8) == u64_be_bytes(x),
    ensures
        s.subrange(o, o + 8) == u64_le_bytes(x) ==> le_u64(s, o) == x,
        s.subrange(o, o + 8) == u64_be_bytes(x) ==> be_u64(s, o) == x,
{
    let lo = (x % 0x1_0000_0000) as u32;
    let hi = (x / 0x1_0000_0000) as u32;
    if s.subrange(o, o + 8) == u64_le_bytes(x) {
        assert(s.subrange(o, o + 4) =~= s.subrange(o, o + 8).subrange(0, 4));
        assert(s.subrange(o + 4, o + 8) =~= s.subrange(o, o + 8).subrange(4, 8));
        assert(u64_le_bytes(x).subrange(0, 4) =~= u32_le_bytes(lo));
        assert(u64_le_bytes(x).subrange(4, 8) =~= u32_le_bytes(hi));
        lemma_u32_at(s, o, lo);
        lemma_u32_at(s, o + 4, hi);
    }
    if s.subrange(o, o + 8) == u64_be_bytes(x) {
        assert(s.subrange(o, o + 4) =~= s.subrange(o, o + 8).subrange(0, 4));
        assert(s.subrange(o + 4, o + 8) =~= s.subrange(o, o + 8).subrange(4, 8));
        assert(u64_be_bytes(x).subrange(0, 4) =~= u32_be_bytes(hi));
        assert(u64_be_bytes(x).subrange(4, 8) =~= u32_be_bytes(lo));
        lemma_u32_at(s, o, hi);
        lemma_u32_at(s, o + 4, lo);
    }
}

/// Read a little-endian `u16` at `offset`.
pub fn read_u16_le(from: &[u8], offset: usize) -> (r: u16)
    requires
        offset + 2 <= from.len(),
    ensures
        r == le_u16(from@, offset as int),
{
    (from[offset] as u16) + (from[offset + 1] as u16) * 256
}

/// Read a big-endian `u16` at `offset`.
pub fn read_u16_be(from: &[u8], offset: usize) -> (r: u16)
    requires
        offset + 2 <= from.len(),
    ensures
        r == be_u16(from@, offset as int),
{
    (from[offset] as u16) * 256 + (from[offset + 1] as u16)
}

/// Read a little-endian `u32` at `offset`.
pub fn read_u32_le(from: &[u8], offset: usize) -> (r: u32)
    requires
        offset + 4 <= from.len(),
    ensures
        r == le_u32(from@, offset as int),
{
    (read_u16_le(from, offset) as u32) + (read_u16_le(from, offset + 2) as u32) * 0x1_0000
}

/// Read a big-endian `u32` at `offset`.
pub fn read_u32_be(from: &[u8], offset: usize) -> (r: u32)
    requires
        offset + 4 <= from.len(),
    ensures
        r == be_u32(from@, offset as int),
{
    (read_u16_be(from, offset) as u32) * 0x1_0000 + (read_u16_be(from, offset + 2) as u32)
}

/// Read a little-endian `u64` at `offset`.
pub fn read_u64_le(from: &[u8], offset: usize) -> (r: u64)
    requires
        offset + 8 <= from.len(),
    ensures
        r == le_u64(from@, offset as int),
{
    (read_u32_le(from, offset) as u64) + (read_u32_le(from, offset + 4) as u64) * 0x1_0000_0000
}

/// Read a big-endian `u64` at `offset`.
pub fn read_u64_be(from: &[u8], offset: usize) -> (r: u64)
    requires
        offset + 8 <= from.len(),
    ensures
        r == be_u64(from@, offset as int),
{
    (read_u32_be(from, offset) as u64) * 0x1_0000_0000 + (read_u32_be(from, offset + 4) as u64)
}

/// Append the bytes of `x`, least significant first.
pub fn push_u16_le(out: &mut Vec<u8>, x: u16)
    ensures
        final(out)@ == old(out)@ + u16_le_bytes(x),
{
    out.push((x % 256) as u8);
    out.push((x / 256) as u8);
}

/// Append the bytes of `x`, most significant first.
pub fn push_u16_be(out: &mut Vec<u8>, x: u16)
    ensures
        final(out)@ == old(out)@ + u16_be_bytes(x),
{
    out.push((x / 256) as u8);
    out.push((x % 256) as u8);
}

/// Append the bytes of `x`, least significant first.
pub fn push_u32_le(out: &mut Vec<u8>, x: u32)
    ensures
        final(out)@ == old(out)@ + u32_le_bytes(x),
{
    push_u16_le(out, (x % 0x1_0000) as u16);
    push_u16_le(out, (x / 0x1_0000) as u16);
    assert(final(out)@ =~= old(out)@ + u32_le_bytes(x));
}

/// Append the bytes of `x`, most significant first.
pub fn push_u32_be(out: &mut Vec<u8>, x: u32)
    ensures
        final(out)@ == old(out)@ + u32_be_bytes(x),
{
    push_u16_be(out, (x / 0x1_0000) as u16);
    push_u16_be(out, (x % 0x1_0000) as u16);
    assert(final(out)@ =~= old(out)@ + u32_be_bytes(x));
}

/// Append the bytes of `x`, least significant first.
pub fn push_u64_le(out: &mut Vec<u8>, x: u64)
    ensures
        final(out)@ == old(out)@ + u64_le_bytes(x),
{
    push_u32_le(out, (x % 0x1_0000_0000) as u32);
    push_u32_le(out, (x / 0x1_0000_0000) as u32);
    assert(final(out)@ =~= old(out)@ + u64_le_bytes(x));
}

/// Append the bytes of `x`, most significant first.
pub fn push_u64_be(out: &mut Vec<u8>, x: u64)
    ensures
        final(out)@ == old(out)@ + u64_be_bytes(x),
{
    push_u32_be(out, (x / 0x1_0000_0000) as u32);
    push_u32_be(out, (x % 0x1_0000_0000) as u32);
    assert(final(out)@ =~= old(out)@ + u64_be_bytes(x));
}

/// Append all of `bytes`.
pub fn push_bytes(out: &mut Vec<u8>, bytes: &[u8])
    ensures
        final(out)@ == old(out)@ + bytes@,
{
    let mut i: usize = 0;
    while i < bytes.len()
        invariant
            i <= bytes@.len(),
            out@ == old(out)@ + bytes@.take(i as int),
        decreases bytes@.len() - i,
    {
        out.push(bytes[i]);
        i = i + 1;
        assert(out@ =~= old(out)@ + bytes@.take(i as int));
    }
    assert(bytes@.take(i as int) =~= bytes@);
}

/// Copy `bytes` to the start of `buf`.
///
/// Fails with [Error::TooShort], and writes nothing, if `buf` can't hold all of `bytes`.
pub fn write_all(buf: &mut [u8], bytes: &[u8]) -> (r: Result<usize, Error>)
    ensures
        final(buf)@.len() == old(buf)@.len(),
        bytes@.len() <= old(buf)@.len() ==> r == Ok::<usize, Error>(bytes@.len() as usize)
            && final(buf)@ == bytes@ + old(buf)@.skip(bytes@.len() as int),
        bytes@.len() > old(buf)@.len() ==> r == Err::<usize, Error>(Error::TooShort)
            && final(buf)@ == old(buf)@,
{
    if bytes.len() > buf.len() {
        return Err(Error::TooShort);
    }
    let mut i: usize = 0;
    while i < bytes.len()
        invariant
            i <= bytes@.len(),
            bytes@.len() <= buf@.len(),
            buf@.len() == old(buf)@.len(),
            buf@ == bytes@.take(i as int) + old(buf)@.skip(i as int),
        decreases bytes@.len() - i,
    {
        buf[i] = bytes[i];
        i = i + 1;
        assert(buf@ =~= bytes@.take(i as int) + old(buf)@.skip(i as int));
    }
    assert(bytes@.take(i as int) =~= bytes@);
    Ok(bytes.len())
}

/// The bytes of `s` from `start` up to `end`.
pub fn slice_range<'a>(s: &'a [u8], start: usize, end: usize) -> (r: &'a [u8])
    requires
        start <= end <= s@.len(),
    ensures
        r@ == s@.subrange(start as int, end as int),
{
    let (head, _) = s.split_at(end);
    let (_, tail) = head.split_at(start);
    tail
}


/// The big-endian `u128` at `o`.
pub open spec fn be_u128(s: Seq<u8>, o: int) -> u128 {
    (0x1_0000_0000_0000_0000 * be_u64(s, o) + be_u64(s, o + 8)) as u128
}

/// The sixteen bytes of `x`, most significant first.
pub open spec fn u128_be_bytes(x: u128) -> Seq<u8> {
    u64_be_bytes((x / 0x1_0000_0000_0000_0000) as u64) + u64_be_bytes(
        (x % 0x1_0000_0000_0000_0000) as u64,
    )
}

/// The `u128` whose bytes stand at `o`, most significant first, is read back from there.
pub proof fn lemma_u128_at(s: Seq<u8>, o: int, x: u128)
    requires
        0 <= o,
        o + 16 <= s.len(),
        s.subrange(o, o + 16) == u128_be_bytes(x),
    ensures
        be_u128(s, o) == x,
{
    let hi = (x / 0x1_0000_0000_0000_0000) as u64;
    let lo = (x % 0x1_0000_0000_0000_0000) as u64;
    assert(s.subrange(o, o + 8) =~= s.subrange(o, o + 16).subrange(0, 8));
    assert(s.subrange(o + 8, o + 16) =~= s.subrange(o, o + 16).subrange(8, 16));
    assert(u128_be_bytes(x).subrange(0, 8) =~= u64_be_bytes(hi));
    assert(u128_be_bytes(x).subrange(8, 16) =~= u64_be_bytes(lo));
    lemma_u64_at(s, o, hi);
    lemma_u64_at(s, o + 8, lo);
}

/// Read a big-endian `u128` at `offset`.
pub fn read_u128_be(from: &[u8], offset: usize) -> (r: u128)
    requires
        offset + 16 <= from.len(),
    ensures
        r == be_u128(from@, offset as int),
{
    (read_u64_be(from, offset) as u128) * 0x1_0000_0000_0000_0000 + (read_u64_be(from, offset + 8) as u128)
}

/// Append the bytes of `x`, most significant first.
pub fn push_u128_be(out: &mut Vec<u8>, x: u128)
    ensures
        final(out)@ == old(out)@ + u128_be_bytes(x),
{
    push_u64_be(out, (x / 0x1_0000_0000_0000_0000) as u64);
    push_u64_be(out, (x % 0x1_0000_0000_0000_0000) as u64);
    assert(final(out)@ =~= old(out)@ + u128_be_bytes(x));
}

/// A piece of a piece of `s` is a piece of `s`.
pub proof fn lemma_subrange_of(s: Seq<u8>, o: int, t: Seq<u8>, a: int, b: int)
    requires
        0 <= o,
        o + t.len() <= s.len(),
        s.subrange(o, o + t.len()) == t,
        0 <= a <= b <= t.len(),
    ensures
        s.subrange(o + a, o + b) == t.subrange(a, b),
{
    assert forall|i: int| 0 <= i < b - a implies #[trigger] s.subrange(o + a, o + b)[i] == t.subrange(a, b)[i] by {
        assert(s.subrange(o, o + t.len())[a + i] == t[a + i]);
    }
    assert(s.subrange(o + a, o + b) =~= t.subrange(a, b));
}

} // verus!
