//! The BSS Load element.
use crate::common::wire::{Error, le_u16, lemma_u16_at, push_u16_le, read_u16_le, u16_le_bytes, write_all};
use crate::elements::{Element, ElementID};
use vstd::prelude::*;

verus! {

/// The BSS Load element contains information on the current STA population and traffic levels in the BSS.
#[derive(Clone, Copy, Debug, PartialEq, Eq, Hash, Structural)]
pub struct BSSLoadElement {
    /// The number of STAs associated with the BSS.
    pub station_count: u16,
    /// The percentage of time, linearly scaled with 255 representing 100%, that the AP sensed the medium was busy.
    pub channel_utilization: u8,
    /// The remaining amount of medium time available via explicit admission control, in units of 32 µs/s.
    pub available_admission_capacity: u16,
}

impl BSSLoadElement {
    /// The result of reading the element body at the start of `s`.
    pub open spec fn spec_parse(s: Seq<u8>) -> Result<(BSSLoadElement, usize), Error> {
        if s.len() < 5 {
            Err(Error::TooShort)
        } else {
            Ok((BSSLoadElement {
                station_count: le_u16(s, 0),
                channel_utilization: s[2],
                available_admission_capacity: le_u16(s, 3),
            }, 5))
        }
    }

    /// The serialized element body.
    pub open spec fn spec_bytes(self) -> Seq<u8> {
        u16_le_bytes(self.station_count) + seq![self.channel_utilization] + u16_le_bytes(self.available_admission_capacity)
    }

    /// Read the element body at the start of `from`.
    ///
    /// Fails with [Error::TooShort] on fewer than 5 bytes.
    pub fn try_from_ctx(from: &[u8]) -> (r: Result<(Self, usize), Error>)
        ensures
            r == Self::spec_parse(from@),
    {
        if from.len() < 5 {
            return Err(Error::TooShort);
        }
        Ok((BSSLoadElement {
            station_count: read_u16_le(from, 0),
            channel_utilization: from[2],
            available_admission_capacity: read_u16_le(from, 3),
        }, 5))
    }

    /// The serialized element body.
    pub fn to_bytes(&self) -> (r: Vec<u8>)
        ensures
            r@ == self.spec_bytes(),
    {
        let mut out: Vec<u8> = Vec::new();
        push_u16_le(&mut out, self.station_count);
        out.push(self.channel_utilization);
        push_u16_le(&mut out, self.available_admission_capacity);
        assert(out@ =~= self.spec_bytes());
        out
    }

    /// Write the element body to the start of `buf`, returning the number of bytes written.
    pub fn try_into_ctx(self, buf: &mut [u8]) -> (r: Result<usize, Error>)
        ensures
            final(buf)@.len() == old(buf)@.len(),
            old(buf)@.len() >= 5 ==> r == Ok::<usize, Error>(5) && final(buf)@ == self.spec_bytes()
                + old(buf)@.skip(5),
            old(buf)@.len() < 5 ==> r == Err::<usize, Error>(Error::TooShort),
    {
        let bytes = self.to_bytes();
        write_all(buf, bytes.as_slice())
    }

    /// The length of the serialized element body.
    pub fn measure_with(&self) -> (r: usize)
        ensures
            r == self.spec_bytes().len(),
    {
        5
    }

    /// Reading back a written element body gives the same element.
    pub proof fn lemma_roundtrip(self, rest: Seq<u8>)
        ensures
            Self::spec_parse(self.spec_bytes() + rest) == Ok::<(BSSLoadElement, usize), Error>((self, 5usize)),
    {
        let s = self.spec_bytes() + rest;
        assert(s.subrange(0, 2) =~= u16_le_bytes(self.station_count));
        lemma_u16_at(s, 0, self.station_count);
        assert(s[2] == self.channel_utilization);
        assert(s.subrange(3, 5) =~= u16_le_bytes(self.available_admission_capacity));
        lemma_u16_at(s, 3, self.available_admission_capacity);
        assert((BSSLoadElement::spec_parse(self.spec_bytes() + rest)->Ok_0).0 =~= self);
    }
}

impl Element for BSSLoadElement {
    type ReadType<'a> = BSSLoadElement;

    open spec fn spec_body(&self) -> Seq<u8> {
        self.spec_bytes()
    }

    fn body_bytes(&self) -> (r: Vec<u8>) {
        self.to_bytes()
    }

    open spec fn spec_element_id() -> ElementID {
        ElementID::Id(0x0b)
    }

    open spec fn spec_read<'a>(body: Seq<u8>, r: Option<BSSLoadElement>) -> bool {
        r == match Self::spec_parse(body) {
            Ok((e, _)) => Some(e),
            Err(_) => None::<BSSLoadElement>,
        }
    }

    fn element_id() -> (r: ElementID) {
        ElementID::Id(0x0b)
    }

    fn read<'a>(body: &'a [u8]) -> (r: Option<BSSLoadElement>) {
        match Self::try_from_ctx(body) {
            Ok((e, _)) => Some(e),
            Err(_) => None,
        }
    }
}

} // verus!
