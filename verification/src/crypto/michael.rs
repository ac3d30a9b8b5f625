//! The Michael message integrity code used by TKIP.
use vstd::prelude::*;

verus! {

/// Rotating `x` left by `n` bits.
pub open spec fn rotl32(x: u32, n: u32) -> u32
    recommends
        0 < n < 32,
{
    (x << n) | (x >> ((32 - n) as u32))
}

/// Swapping the two bytes within each 16-bit half of `l`.
pub open spec fn spec_xswap(l: u32) -> u32 {
    ((l & 0xff00ff00u32) >> 8u32) | ((l & 0x00ff00ffu32) << 8u32)
}

/// Reversing the byte order of a word.
pub open spec fn spec_bswap32(x: u32) -> u32 {
    ((x & 0xffu32) << 24u32) | ((x & 0xff00u32) << 8u32) | ((x & 0xff0000u32) >> 8u32) | (x
        >> 24u32)
}

/// The Michael block function on the pair `(l, r)`.
pub open spec fn spec_michael_block(l: u32, r: u32) -> (u32, u32) {
    let r1 = r ^ rotl32(l, 17);
    let l1 = l.wrapping_add(r1);
    let r2 = r1 ^ spec_xswap(l1);
    let l2 = l1.wrapping_add(r2);
    let r3 = r2 ^ rotl32(l2, 3);
    let l3 = l2.wrapping_add(r3);
    let r4 = r3 ^ rotl32(l3, 30);
    let l4 = l3.wrapping_add(r4);
    (l4, r4)
}

/// The little-endian word made of the bytes `b0` (least significant) to `b3`.
pub open spec fn le_word(b0: u8, b1: u8, b2: u8, b3: u8) -> u32 {
    (b0 as u32) | ((b1 as u32) << 8u32) | ((b2 as u32) << 16u32) | ((b3 as u32) << 24u32)
}

/// The byte at `i` of the message after padding: the message itself, then `0x5a`, then zeroes.
pub open spec fn padded_byte(bytes: Seq<u8>, i: int) -> u8 {
    if i < bytes.len() {
        bytes[i]
    } else if i == bytes.len() {
        0x5au8
    } else {
        0u8
    }
}

/// The `k`-th little-endian word of the padded message.
pub open spec fn padded_word(bytes: Seq<u8>, k: int) -> u32 {
    le_word(
        padded_byte(bytes, 4 * k),
        padded_byte(bytes, 4 * k + 1),
        padded_byte(bytes, 4 * k + 2),
        padded_byte(bytes, 4 * k + 3),
    )
}

/// The words Michael absorbs for a message: every full block, the padded last block and a zero
/// block.
pub open spec fn michael_words(bytes: Seq<u8>) -> Seq<u32> {
    Seq::new((bytes.len() / 4 + 1) as nat, |k: int| padded_word(bytes, k)).push(0u32)
}

/// The state after absorbing `words`, starting from `state`.
pub open spec fn michael_absorb(state: (u32, u32), words: Seq<u32>) -> (u32, u32)
    decreases words.len(),
{
    if words.len() == 0 {
        state
    } else {
        let (l, r) = michael_absorb(state, words.drop_last());
        spec_michael_block(l ^ words.last(), r)
    }
}

/// The Michael MIC of `bytes` under `key`.
///
/// The key's two halves are taken in network byte order, and the final state is read back the
/// same way.
pub open spec fn spec_michael(key: u64, bytes: Seq<u8>) -> u64 {
    let init = (spec_bswap32((key >> 32u64) as u32), spec_bswap32(key as u32));
    let (l, r) = michael_absorb(init, michael_words(bytes));
    ((spec_bswap32(l) as u64) << 32u64) | (spec_bswap32(r) as u64)
}

fn xswap(l: u32) -> (r: u32)
    ensures
        r == spec_xswap(l),
{
    ((l & 0xff00ff00) >> 8) | ((l & 0x00ff00ff) << 8)
}

fn bswap32(x: u32) -> (r: u32)
    ensures
        r == spec_bswap32(x),
{
    ((x & 0xff) << 24) | ((x & 0xff00) << 8) | ((x & 0xff0000) >> 8) | (x >> 24)
}

/// Compute the michael block function.
pub fn michael_block_function(l: u32, r: u32) -> (res: (u32, u32))
    ensures
        res == spec_michael_block(l, r),
{
    let mut r = r ^ ((l << 17) | (l >> 15));
    let mut l = l.wrapping_add(r);
    r = r ^ xswap(l);
    l = l.wrapping_add(r);
    r = r ^ ((l << 3) | (l >> 29));
    l = l.wrapping_add(r);
    r = r ^ ((l << 30) | (l >> 2));
    l = l.wrapping_add(r);
    (l, r)
}

/// Compute the michael MIC of the bytes, with the key.
pub fn michael(key: u64, bytes: &[u8]) -> (mic: u64)
    ensures
        mic == spec_michael(key, bytes@),
{
    let ghost words = michael_words(bytes@);
    let mut l = bswap32((key >> 32) as u32);
    let mut r = bswap32(key as u32);
    let ghost init = (l, r);
    let n = bytes.len();
    let blocks = n / 4;
    let left = n % 4;
    let mut i: usize = 0;
    while i < blocks
        invariant
            n == bytes@.len(),
            blocks == bytes@.len() / 4,
            4 * blocks <= bytes@.len(),
            i <= blocks,
            words == michael_words(bytes@),
            (l, r) == michael_absorb(init, words.take(i as int)),
        decreases blocks - i,
    {
        assert(4 * i + 3 < bytes@.len());
        let block = (bytes[4 * i] as u32) | ((bytes[4 * i + 1] as u32) << 8) | ((bytes[4 * i + 2]
            as u32) << 16) | ((bytes[4 * i + 3] as u32) << 24);
        assert(block == words[i as int]);
        assert(words.take(i as int + 1).drop_last() =~= words.take(i as int));
        let (nl, nr) = michael_block_function(l ^ block, r);
        l = nl;
        r = nr;
        i = i + 1;
    }
    let mut last = [0u8; 4];
    let mut j: usize = 0;
    while j < 4
        invariant
            j <= 4,
            n == bytes@.len(),
            blocks == bytes@.len() / 4,
            left == bytes@.len() % 4,
            4 * blocks + left == bytes@.len(),
            forall|k: int| 0 <= k < j ==> last@[k] == padded_byte(bytes@, 4 * blocks + k),
            forall|k: int| j <= k < 4 ==> last@[k] == 0u8,
        decreases 4 - j,
    {
        if j < left {
            assert(4 * blocks + j < bytes@.len());
            last[j] = bytes[4 * blocks + j];
        } else if j == left {
            last[j] = 0x5a;
        }
        j = j + 1;
    }
    let block = (last[0] as u32) | ((last[1] as u32) << 8) | ((last[2] as u32) << 16) | ((last[3]
        as u32) << 24);
    assert(block == words[blocks as int]);
    assert(words.take(blocks as int + 1).drop_last() =~= words.take(blocks as int));
    let (nl, nr) = michael_block_function(l ^ block, r);
    assert((nl, nr) == michael_absorb(init, words.take(blocks as int + 1)));
    // The final block is all zeroes.
    assert(words.drop_last() =~= words.take(blocks as int + 1));
    assert(words.last() == 0u32);
    assert(nl ^ 0u32 == nl) by (bit_vector);
    let (fl, fr) = michael_block_function(nl, nr);
    assert((fl, fr) == michael_absorb(init, words));
    ((bswap32(fl) as u64) << 32) | (bswap32(fr) as u64)
}

} // verus!
