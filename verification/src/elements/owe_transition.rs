//! The OWE transition mode element.
use crate::common::wire::{push_bytes, slice_range, write_all, Error};
use crate::elements::ssid::str_from_utf8;
use crate::elements::ElementID;
use crate::elements::{lemma_vendor_specific_id, vendor_specific_id, Element};
use vstd::prelude::*;
use vstd::string::StringSliceAdditionalSpecFns;
use vstd::utf8::valid_utf8;

verus! {

/// The band and channel of the BSS in transition mode.
#[derive(Clone, Copy, Debug, Default, PartialEq, Eq, Hash, Structural)]
pub struct BandAndChannelInfo {
    /// The operating class.
    pub band: u8,
    /// The channel.
    pub channel: u8,
}

/// The OWE transition mode element names the BSS, that is the counterpart of this one in OWE
/// transition mode.
#[derive(Clone, Copy, Debug, PartialEq, Eq, Hash)]
pub struct OWETransitionModeElement<'a> {
    /// The BSSID of the other BSS.
    pub bssid: [u8; 6],
    /// The SSID of the other BSS.
    pub ssid: &'a str,
    /// The band and channel of the other BSS, if it is on another one.
    pub band_and_channel_info: Option<BandAndChannelInfo>,
}

/// The bytes of an OWE transition mode element: the BSSID, the length of the SSID as one byte,
/// the SSID, and the band and channel if present.
pub open spec fn owe_transition_bytes(bssid: Seq<u8>, ssid: Seq<u8>, info: Option<BandAndChannelInfo>) -> Seq<u8> {
    bssid + seq![(ssid.len() % 256) as u8] + ssid + match info {
        Some(i) => seq![i.band, i.channel],
        None => Seq::empty(),
    }
}

impl<'a> OWETransitionModeElement<'a> {
}


impl<'a> OWETransitionModeElement<'a> {
    /// Read the element body: six bytes of BSSID, the SSID with its length before it, which must
    /// be valid UTF-8, and then the band and channel, if two bytes are left.
    pub fn try_from_ctx(from: &'a [u8]) -> (r: Result<(Self, usize), Error>)
        ensures
            from@.len() < 7 ==> r == Err::<(Self, usize), Error>(Error::TooShort),
            from@.len() >= 7 && from@.len() < 7 + from@[6] ==> r == Err::<(Self, usize), Error>(
                Error::TooShort,
            ),
            from@.len() >= 7 + from@[6] && !valid_utf8(from@.subrange(7, 7 + from@[6])) ==> r
                == Err::<(Self, usize), Error>(Error::BadInput),
            from@.len() >= 7 + from@[6] && valid_utf8(from@.subrange(7, 7 + from@[6])) ==> ({
                let o = 7 + from@[6];
                &&& r matches Ok((e, n))
                &&& e.bssid@ == from@.take(6)
                &&& e.ssid.spec_bytes() == from@.subrange(7, o)
                &&& from@.len() >= o + 2 ==> n == o + 2 && e.band_and_channel_info == Some(
                    BandAndChannelInfo { band: from@[o], channel: from@[o + 1] },
                )
                &&& from@.len() < o + 2 ==> n == o && e.band_and_channel_info is None
            }),
    {
        if from.len() < 7 {
            return Err(Error::TooShort);
        }
        let bssid: [u8; 6] = [from[0], from[1], from[2], from[3], from[4], from[5]];
        assert(bssid@ =~= from@.take(6));
        let ssid_len = from[6] as usize;
        if from.len() - 7 < ssid_len {
            return Err(Error::TooShort);
        }
        let ssid = match str_from_utf8(slice_range(from, 7, 7 + ssid_len)) {
            Some(s) => s,
            None => {
                return Err(Error::BadInput);
            },
        };
        let o = 7 + ssid_len;
        if from.len() - o >= 2 {
            let info = BandAndChannelInfo { band: from[o], channel: from[o + 1] };
            Ok((OWETransitionModeElement { bssid, ssid, band_and_channel_info: Some(info) }, o + 2))
        } else {
            Ok((OWETransitionModeElement { bssid, ssid, band_and_channel_info: None }, o))
        }
    }

    /// The length of the serialized body.
    pub fn measure_with(&self) -> (r: usize)
        requires
            self.ssid.spec_bytes().len() + 9 <= usize::MAX,
        ensures
            r == 7 + self.ssid.spec_bytes().len() + if self.band_and_channel_info is Some {
                2int
            } else {
                0
            },
    {
        7 + self.ssid.as_bytes().len() + if self.band_and_channel_info.is_some() {
            2
        } else {
            0
        }
    }

    /// The serialized body.
    pub fn to_bytes(&self) -> (r: Vec<u8>)
        ensures
            r@ == owe_transition_bytes(self.bssid@, self.ssid.spec_bytes(), self.band_and_channel_info),
    {
        let mut out: Vec<u8> = Vec::new();
        push_bytes(&mut out, self.bssid.as_slice());
        let ssid = self.ssid.as_bytes();
        out.push((ssid.len() % 256) as u8);
        push_bytes(&mut out, ssid);
        if let Some(info) = self.band_and_channel_info {
            out.push(info.band);
            out.push(info.channel);
        }
        assert(out@ =~= owe_transition_bytes(
            self.bssid@,
            self.ssid.spec_bytes(),
            self.band_and_channel_info,
        ));
        out
    }

    /// Write the body to the start of `buf`, returning the number of bytes written.
    pub fn try_into_ctx(&self, buf: &mut [u8]) -> (r: Result<usize, Error>)
        ensures
            final(buf)@.len() == old(buf)@.len(),
            ({
                let bytes = owe_transition_bytes(
                    self.bssid@,
                    self.ssid.spec_bytes(),
                    self.band_and_channel_info,
                );
                &&& bytes.len() <= old(buf)@.len() ==> r == Ok::<usize, Error>(bytes.len() as usize)
                    && final(buf)@ == bytes + old(buf)@.skip(bytes.len() as int)
                &&& bytes.len() > old(buf)@.len() ==> r == Err::<usize, Error>(Error::TooShort)
            }),
    {
        let bytes = self.to_bytes();
        write_all(buf, bytes.as_slice())
    }
}

/// Reading a written OWE transition mode element gives back its BSSID, SSID and band and
/// channel, when the SSID is shorter than 256 bytes.
pub proof fn lemma_owe_transition_roundtrip(bssid: Seq<u8>, ssid: &str, info: Option<BandAndChannelInfo>)
    requires
        bssid.len() == 6,
        ssid.spec_bytes().len() < 256,
    ensures
        ({
            let s = owe_transition_bytes(bssid, ssid.spec_bytes(), info);
            let o = 7 + s[6];
            &&& s.len() >= o
            &&& s.take(6) == bssid
            &&& s.subrange(7, o) == ssid.spec_bytes()
            &&& valid_utf8(s.subrange(7, o))
            &&& info matches Some(i) ==> s.len() >= o + 2 && s[o] == i.band && s[o + 1] == i.channel
            &&& info is None ==> s.len() < o + 2
        }),
{
    let b = ssid.spec_bytes();
    let s = owe_transition_bytes(bssid, b, info);
    assert(s[6] == b.len());
    assert(s.take(6) =~= bssid);
    assert(s.subrange(7, 7 + b.len() as int) =~= b);
    vstd::utf8::encode_utf8_valid_utf8(ssid@);
}

impl<'b> Element for OWETransitionModeElement<'b> {
    type ReadType<'a> = OWETransitionModeElement<'a>;

    open spec fn spec_body(&self) -> Seq<u8> {
        owe_transition_bytes(self.bssid@, self.ssid.spec_bytes(), self.band_and_channel_info)
    }

    fn body_bytes(&self) -> (r: Vec<u8>) {
        self.to_bytes()
    }

    open spec fn spec_element_id() -> ElementID {
        vendor_specific_id(seq![0x50u8, 0x6f, 0x9a, 0x1c])
    }

    open spec fn spec_read<'a>(body: Seq<u8>, r: Option<OWETransitionModeElement<'a>>) -> bool {
        match r {
            None => body.len() < 7 || body.len() < 7 + body[6] || !valid_utf8(
                body.subrange(7, 7 + body[6]),
            ),
            Some(e) => {
                let o = 7 + body[6];
                &&& body.len() >= 7 && body.len() >= o && valid_utf8(body.subrange(7, o))
                &&& e.bssid@ == body.take(6)
                &&& e.ssid.spec_bytes() == body.subrange(7, o)
                &&& body.len() >= o + 2 ==> e.band_and_channel_info == Some(
                    BandAndChannelInfo { band: body[o], channel: body[o + 1] },
                )
                &&& body.len() < o + 2 ==> e.band_and_channel_info is None
            },
        }
    }

    fn element_id() -> (r: ElementID) {
        let prefix: &'static [u8] = &[0x50u8, 0x6f, 0x9a, 0x1c];
        proof {
            assert(prefix@ == seq![0x50u8, 0x6f, 0x9a, 0x1c]);
            lemma_vendor_specific_id(prefix);
        }
        ElementID::VendorSpecific { prefix }
    }

    fn read<'a>(body: &'a [u8]) -> (r: Option<OWETransitionModeElement<'a>>) {
        match OWETransitionModeElement::try_from_ctx(body) {
            Ok((e, _)) => Some(e),
            Err(_) => None,
        }
    }
}

} // verus!
