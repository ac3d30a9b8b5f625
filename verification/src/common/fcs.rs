//! The frame check sequence (FCS) at the end of a frame.
use crate::common::wire::{le_u32, lemma_u32_roundtrip, read_u32_le, u32_le_bytes, Error};
use vstd::prelude::*;

verus! {

/// The CRC-32 checksum of `data`, as `crc32fast::hash` computes it.
pub uninterp spec fn crc32(data: Seq<u8>) -> u32;

/// Calls `crc32fast::hash`, which returns the CRC-32 (IEEE) checksum of `data`.
///
/// The contract names the result and says nothing of its value: that it is the standard CRC-32
/// is left to `crc32fast`.
#[verifier::external_body]
pub(crate) fn crc32_hash(data: &[u8]) -> (r: u32)
    ensures
        r == crc32(data@),
{
    crc32fast::hash(data)
}

/// Check the FCS in the last four bytes of `bytes` and return the bytes before it.
///
/// Fails with [Error::BadInput] if the little-endian FCS isn't the CRC-32 of the other bytes.
pub fn strip_and_validate_fcs(bytes: &[u8]) -> (r: Result<&[u8], Error>)
    requires
        bytes@.len() >= 4,
    ensures
        r is Ok <==> le_u32(bytes@, bytes@.len() - 4) == crc32(bytes@.take(bytes@.len() - 4)),
        r matches Ok(stripped) ==> stripped@ == bytes@.take(bytes@.len() - 4),
        r matches Err(e) ==> e == Error::BadInput,
{
    let (slice_without_fcs, _fcs) = bytes.split_at(bytes.len() - 4);
    let fcs = read_u32_le(bytes, bytes.len() - 4);
    if fcs == crc32_hash(slice_without_fcs) {
        Ok(slice_without_fcs)
    } else {
        Err(Error::BadInput)
    }
}

/// Write the FCS of `buf[..offset]` at `offset` and advance `offset` past it.
///
/// Fails with [Error::TooShort], leaving everything as it was, if fewer than four bytes follow
/// `offset`.
pub fn attach_fcs(buf: &mut [u8], offset: &mut usize) -> (r: Result<usize, Error>)
    requires
        *old(offset) <= old(buf)@.len(),
    ensures
        final(buf)@.len() == old(buf)@.len(),
        *old(offset) + 4 <= old(buf)@.len() ==> {
            &&& r == Ok::<usize, Error>(4)
            &&& *final(offset) == *old(offset) + 4
            &&& final(buf)@ == old(buf)@.take(*old(offset) as int) + u32_le_bytes(
                crc32(old(buf)@.take(*old(offset) as int)),
            ) + old(buf)@.skip(*old(offset) + 4)
        },
        *old(offset) + 4 > old(buf)@.len() ==> r == Err::<usize, Error>(Error::TooShort)
            && final(buf)@ == old(buf)@ && *final(offset) == *old(offset),
{
    let o = *offset;
    let fcs = {
        let (head, _) = buf.split_at(o);
        crc32_hash(head)
    };
    if buf.len() - o < 4 {
        return Err(Error::TooShort);
    }
    let ghost before = buf@;
    buf[o] = (fcs % 256) as u8;
    buf[o + 1] = ((fcs / 0x100) % 256) as u8;
    buf[o + 2] = ((fcs / 0x1_0000) % 256) as u8;
    buf[o + 3] = (fcs / 0x100_0000) as u8;
    assert(buf@ =~= before.take(o as int) + u32_le_bytes(fcs) + before.skip(o + 4));
    *offset = o + 4;
    Ok(4)
}

/// A frame that [attach_fcs] has completed passes [strip_and_validate_fcs], which gives back the
/// frame without its FCS.
pub proof fn lemma_attach_then_validate(body: Seq<u8>)
    ensures
        ({
            let frame = body + u32_le_bytes(crc32(body));
            &&& le_u32(frame, frame.len() - 4) == crc32(frame.take(frame.len() - 4))
            &&& frame.take(frame.len() - 4) == body
        }),
{
    let frame = body + u32_le_bytes(crc32(body));
    lemma_u32_roundtrip(crc32(body), body, Seq::empty());
    assert(body + u32_le_bytes(crc32(body)) + Seq::empty() =~= frame);
    assert(frame.take(frame.len() - 4) =~= body);
}

} // verus!
