//! A generic IEEE 802.11 frame: the frame control field, the body and the frame check sequence.
use crate::common::fcs::{crc32, crc32_hash};
use crate::common::frame_control::FrameControlField;
use crate::common::wire::{
    le_u16, lemma_u16_roundtrip, push_bytes, push_u16_le, push_u32_le, read_u16_le, slice_range, u16_le_bytes,
    u32_le_bytes, write_all, Error,
};
use vstd::prelude::*;

verus! {

/// An IEEE 802.11 frame, with its body as bytes.
#[derive(Clone, Debug, PartialEq, Eq, Hash)]
pub struct IEEE80211Frame {
    /// The frame control field.
    pub fcf: FrameControlField,
    /// The body of the frame.
    pub body: Vec<u8>,
}

/// The serialized frame: the frame control field, the body, and the CRC-32 of both.
pub open spec fn frame_bytes(fcf: FrameControlField, body: Seq<u8>) -> Seq<u8> {
    u16_le_bytes(fcf.0) + body + u32_le_bytes(crc32(u16_le_bytes(fcf.0) + body))
}

impl IEEE80211Frame {
    /// The length of the serialized frame: two bytes of frame control, the body and four bytes of
    /// FCS.
    pub fn measure_with(&self) -> (r: usize)
        requires
            self.body@.len() + 6 <= usize::MAX,
        ensures
            r == 6 + self.body@.len(),
    {
        6 + self.body.len()
    }

    /// Read a frame: the frame control field, then the body, which takes all but the last four
    /// bytes. The FCS in those is not checked.
    pub fn try_from_ctx(from: &[u8]) -> (r: Result<(Self, usize), Error>)
        requires
            from@.len() < 2 || from@.len() >= 6,
        ensures
            from@.len() < 2 ==> r == Err::<(Self, usize), Error>(Error::TooShort),
            from@.len() >= 6 ==> (r matches Ok((f, n)) && f.fcf.0 == le_u16(from@, 0) && f.body@
                == from@.subrange(2, from@.len() - 4) && n == from@.len() - 4),
    {
        if from.len() < 2 {
            return Err(Error::TooShort);
        }
        let fcf = FrameControlField::from_bits(read_u16_le(from, 0));
        let body_len = from.len() - 2 - 4;
        let mut body: Vec<u8> = Vec::new();
        push_bytes(&mut body, slice_range(from, 2, 2 + body_len));
        Ok((IEEE80211Frame { fcf, body }, 2 + body_len))
    }

    /// The serialized frame.
    pub fn to_bytes(&self) -> (r: Vec<u8>)
        ensures
            r@ == frame_bytes(self.fcf, self.body@),
    {
        let mut out: Vec<u8> = Vec::new();
        push_u16_le(&mut out, self.fcf.into_bits());
        push_bytes(&mut out, self.body.as_slice());
        let fcs = crc32_hash(out.as_slice());
        push_u32_le(&mut out, fcs);
        out
    }

    /// Write the frame to the start of `buf`, with the CRC-32 of what was written before it.
    pub fn try_into_ctx(&self, buf: &mut [u8]) -> (r: Result<usize, Error>)
        ensures
            final(buf)@.len() == old(buf)@.len(),
            ({
                let bytes = frame_bytes(self.fcf, self.body@);
                &&& bytes.len() <= old(buf)@.len() ==> r == Ok::<usize, Error>(bytes.len() as usize)
                    && final(buf)@ == bytes + old(buf)@.skip(bytes.len() as int)
                &&& bytes.len() > old(buf)@.len() ==> r == Err::<usize, Error>(Error::TooShort)
            }),
    {
        let bytes = self.to_bytes();
        write_all(buf, bytes.as_slice())
    }
}


/// Reading a written frame gives back its frame control field and its body.
pub proof fn lemma_frame_roundtrip(fcf: FrameControlField, body: Seq<u8>)
    ensures
        ({
            let b = frame_bytes(fcf, body);
            &&& b.len() == body.len() + 6
            &&& le_u16(b, 0) == fcf.0
            &&& b.subrange(2, b.len() - 4) == body
        }),
{
    let b = frame_bytes(fcf, body);
    let fcs = u32_le_bytes(crc32(u16_le_bytes(fcf.0) + body));
    lemma_u16_roundtrip(fcf.0, Seq::empty(), body + fcs);
    assert(Seq::<u8>::empty() + u16_le_bytes(fcf.0) + (body + fcs) =~= b);
    assert(b.subrange(2, b.len() - 4) =~= body);
}

} // verus!
