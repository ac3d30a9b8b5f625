//! The CCMP/GCMP header and the wrapper that places a payload behind it.
use crate::common::wire::{push_bytes, slice_range, write_all, Error};
use vstd::prelude::*;

verus! {

/// The largest representable packet number.
pub const MAX_PN: u64 = 0xffff_ffff_ffff;

/// The largest representable key ID.
pub const MAX_KEY_ID: u8 = 3;

/// The little-endian number made of six bytes.
pub open spec fn le48(b0: u8, b1: u8, b2: u8, b3: u8, b4: u8, b5: u8) -> u64 {
    (b0 + 0x100 * b1 + 0x1_0000 * b2 + 0x100_0000 * b3 + 0x1_0000_0000 * b4 + 0x100_0000_0000
        * b5) as u64
}

/// Splitting a 48-bit number into six bytes and joining them again gives the number.
proof fn lemma_le48_split(x: u64)
    requires
        x <= MAX_PN,
    ensures
        le48(
            (x % 0x100) as u8,
            ((x / 0x100) % 0x100) as u8,
            ((x / 0x1_0000) % 0x100) as u8,
            ((x / 0x100_0000) % 0x100) as u8,
            ((x / 0x1_0000_0000) % 0x100) as u8,
            ((x / 0x100_0000_0000) % 0x100) as u8,
        ) == x,
{
    let q1 = x / 0x100;
    let q2 = x / 0x1_0000;
    let q3 = x / 0x100_0000;
    let q4 = x / 0x1_0000_0000;
    let q5 = x / 0x100_0000_0000;
    assert(q2 == q1 / 0x100) by (nonlinear_arith)
        requires
            q1 == x / 0x100,
            q2 == x / 0x1_0000,
    ;
    assert(q3 == q2 / 0x100) by (nonlinear_arith)
        requires
            q2 == x / 0x1_0000,
            q3 == x / 0x100_0000,
    ;
    assert(q4 == q3 / 0x100) by (nonlinear_arith)
        requires
            q3 == x / 0x100_0000,
            q4 == x / 0x1_0000_0000,
    ;
    assert(q5 == q4 / 0x100) by (nonlinear_arith)
        requires
            q4 == x / 0x1_0000_0000,
            q5 == x / 0x100_0000_0000,
    ;
    assert(q5 < 0x100);
}

/// The packet number held by a serialized header: bytes zero, one, four, five, six and seven.
pub open spec fn header_packet_number(s: Seq<u8>) -> u64 {
    le48(s[0], s[1], s[4], s[5], s[6], s[7])
}

/// The key ID held by a serialized header: the two top bits of byte three.
pub open spec fn header_key_id(s: Seq<u8>) -> u8 {
    (s[3] / 64) as u8
}

/// The Ext IV bit (bit five of byte three) of a serialized header.
pub open spec fn header_ext_iv(s: Seq<u8>) -> bool {
    (s[3] / 32) % 2 == 1
}

/// The header used by CCMP and GCMP cryptographic encapsulation.
///
/// This currently does not support WEP and TKIP.
#[derive(Clone, Copy, Debug, PartialEq, Eq, Hash)]
pub struct CryptoHeader {
    packet_number: [u8; 6],
    key_id: u8,
}

impl CryptoHeader {
    #[verifier::type_invariant]
    spec fn key_id_in_range(self) -> bool {
        self.key_id <= MAX_KEY_ID
    }

    /// The packet number.
    pub closed spec fn spec_packet_number(self) -> u64 {
        le48(
            self.packet_number[0],
            self.packet_number[1],
            self.packet_number[2],
            self.packet_number[3],
            self.packet_number[4],
            self.packet_number[5],
        )
    }

    /// The key ID.
    pub closed spec fn spec_key_id(self) -> u8 {
        self.key_id
    }

    /// The eight bytes of the header on the wire.
    pub closed spec fn spec_bytes(self) -> Seq<u8> {
        seq![
            self.packet_number[0],
            self.packet_number[1],
            0u8,
            (32 + 64 * self.key_id) as u8,
            self.packet_number[2],
            self.packet_number[3],
            self.packet_number[4],
            self.packet_number[5],
        ]
    }

    /// Create a new [CryptoHeader].
    ///
    /// Returns [Option::None] if `packet_number` is larger than [MAX_PN] or `key_id` is larger
    /// than [MAX_KEY_ID].
    pub fn new(packet_number: u64, key_id: u8) -> (r: Option<Self>)
        ensures
            r is Some <==> packet_number <= MAX_PN && key_id <= MAX_KEY_ID,
            r matches Some(h) ==> h.spec_packet_number() == packet_number && h.spec_key_id()
                == key_id,
    {
        if Self::pn_and_key_id_valid(packet_number, key_id) {
            let bytes = [
                (packet_number % 0x100) as u8,
                ((packet_number / 0x100) % 0x100) as u8,
                ((packet_number / 0x1_0000) % 0x100) as u8,
                ((packet_number / 0x100_0000) % 0x100) as u8,
                ((packet_number / 0x1_0000_0000) % 0x100) as u8,
                ((packet_number / 0x100_0000_0000) % 0x100) as u8,
            ];
            proof {
                lemma_le48_split(packet_number);
            }
            Some(Self { packet_number: bytes, key_id })
        } else {
            None
        }
    }

    /// Check if the packet number and key ID are in range.
    fn pn_and_key_id_valid(packet_number: u64, key_id: u8) -> (r: bool)
        ensures
            r == (packet_number <= MAX_PN && key_id <= MAX_KEY_ID),
    {
        packet_number <= MAX_PN && key_id <= MAX_KEY_ID
    }

    /// Get the packet number as a [u64].
    ///
    /// This will return a number between 0 and including [MAX_PN].
    pub fn packet_number(&self) -> (r: u64)
        ensures
            r == self.spec_packet_number(),
            r <= MAX_PN,
    {
        let b = self.packet_number;
        (b[0] as u64) + 0x100 * (b[1] as u64) + 0x1_0000 * (b[2] as u64) + 0x100_0000 * (b[3]
            as u64) + 0x1_0000_0000 * (b[4] as u64) + 0x100_0000_0000 * (b[5] as u64)
    }

    /// Get the key ID.
    ///
    /// This will return a number between 0 and including [MAX_KEY_ID].
    pub fn key_id(&self) -> (r: u8)
        ensures
            r == self.spec_key_id(),
            r <= MAX_KEY_ID,
    {
        proof {
            use_type_invariant(self);
        }
        self.key_id
    }

    /// Read a header from the start of `from`.
    ///
    /// Fails with [Error::TooShort] on fewer than eight bytes and with [Error::BadInput] if the
    /// Ext IV bit isn't set. On success, eight bytes were read.
    pub fn try_from_ctx(from: &[u8]) -> (r: Result<(Self, usize), Error>)
        ensures
            from@.len() < 8 ==> r == Err::<(Self, usize), Error>(Error::TooShort),
            from@.len() >= 8 && !header_ext_iv(from@) ==> r == Err::<(Self, usize), Error>(
                Error::BadInput,
            ),
            r is Ok <==> from@.len() >= 8 && header_ext_iv(from@),
            r matches Ok((h, n)) ==> {
                &&& n == 8
                &&& h.spec_packet_number() == header_packet_number(from@)
                &&& h.spec_key_id() == header_key_id(from@)
            },
    {
        if from.len() < 8 {
            return Err(Error::TooShort);
        }
        if (from[3] / 32) % 2 != 1 {
            return Err(Error::BadInput);
        }
        let packet_number = [from[0], from[1], from[4], from[5], from[6], from[7]];
        let key_id = from[3] / 64;
        Ok((Self { packet_number, key_id }, 8))
    }

    /// The serialized header.
    pub fn to_bytes(&self) -> (r: Vec<u8>)
        ensures
            r@ == self.spec_bytes(),
    {
        proof {
            use_type_invariant(self);
        }
        let mut out = Vec::new();
        out.push(self.packet_number[0]);
        out.push(self.packet_number[1]);
        out.push(0u8);
        out.push(32 + 64 * self.key_id);
        out.push(self.packet_number[2]);
        out.push(self.packet_number[3]);
        out.push(self.packet_number[4]);
        out.push(self.packet_number[5]);
        assert(out@ =~= self.spec_bytes());
        out
    }

    /// Write the header to the start of `buf`, returning the number of bytes written.
    pub fn try_into_ctx(self, buf: &mut [u8]) -> (r: Result<usize, Error>)
        ensures
            final(buf)@.len() == old(buf)@.len(),
            old(buf)@.len() >= 8 ==> r == Ok::<usize, Error>(8) && final(buf)@ == self.spec_bytes()
                + old(buf)@.skip(8),
            old(buf)@.len() < 8 ==> r == Err::<usize, Error>(Error::TooShort),
    {
        let bytes = self.to_bytes();
        write_all(buf, bytes.as_slice())
    }

    /// The length of the serialized header.
    pub fn measure_with(&self) -> (r: usize)
        ensures
            r == self.spec_bytes().len(),
    {
        8
    }

    /// Reading back a written header gives the same header.
    pub proof fn lemma_roundtrip(self)
        requires
            self.spec_key_id() <= MAX_KEY_ID,
        ensures
            self.spec_bytes().len() == 8,
            header_ext_iv(self.spec_bytes()),
            header_packet_number(self.spec_bytes()) == self.spec_packet_number(),
            header_key_id(self.spec_bytes()) == self.spec_key_id(),
    {
    }
}

/// The state of the MIC in a frame.
#[derive(Clone, Copy, Debug, PartialEq, Eq, Hash, Structural)]
pub enum MicState {
    /// No MIC is present.
    NotPresent,
    /// An 8 byte MIC is present.
    Short,
    /// A 16 byte MIC is present.
    Long,
}

impl MicState {
    /// The length of the MIC.
    pub open spec fn spec_mic_length(self) -> usize {
        match self {
            MicState::NotPresent => 0,
            MicState::Short => 8,
            MicState::Long => 16,
        }
    }

    /// The length of the MIC.
    pub fn mic_length(&self) -> (r: usize)
        ensures
            r == self.spec_mic_length(),
    {
        match self {
            MicState::NotPresent => 0,
            MicState::Short => 8,
            MicState::Long => 16,
        }
    }
}

/// Wrapper around a payload, which adds fields required for cryptographic algorithms.
///
/// This currently does not do any encryption or MIC calculation on it's own, but merely generates
/// the correctly layouted data and adds the CCMP/GCMP header.
pub struct CryptoWrapper<'a> {
    /// The cryptographic header prepended to the payload.
    pub crypto_header: CryptoHeader,
    /// The actual payload.
    pub payload: &'a [u8],
    /// The state of the MIC.
    pub mic_state: MicState,
}

impl<'a> CryptoWrapper<'a> {
    /// The serialized wrapper: the header, the payload and a zeroed MIC.
    pub open spec fn spec_bytes(&self) -> Seq<u8> {
        self.crypto_header.spec_bytes() + self.payload@ + Seq::new(
            self.mic_state.spec_mic_length() as nat,
            |i: int| 0u8,
        )
    }

    /// Read a wrapper spanning all of `from`: the header, the payload and a MIC of the length
    /// that `mic_state` gives.
    ///
    /// Fails as [CryptoHeader::try_from_ctx] does; on success all of `from` was read.
    pub fn try_from_ctx(from: &'a [u8], mic_state: MicState) -> (r: Result<(Self, usize), Error>)
        requires
            from@.len() >= 8 && header_ext_iv(from@) ==> from@.len() >= 8
                + mic_state.spec_mic_length(),
        ensures
            r is Ok <==> from@.len() >= 8 && header_ext_iv(from@),
            from@.len() < 8 ==> r == Err::<(Self, usize), Error>(Error::TooShort),
            from@.len() >= 8 && !header_ext_iv(from@) ==> r == Err::<(Self, usize), Error>(
                Error::BadInput,
            ),
            r matches Ok((w, n)) ==> {
                &&& n == from@.len()
                &&& w.crypto_header.spec_packet_number() == header_packet_number(from@)
                &&& w.crypto_header.spec_key_id() == header_key_id(from@)
                &&& w.payload@ == from@.subrange(8, from@.len() - mic_state.spec_mic_length())
                &&& w.mic_state == mic_state
            },
    {
        let (crypto_header, offset) = CryptoHeader::try_from_ctx(from)?;
        let mic_length = mic_state.mic_length();
        let end = from.len() - mic_length;
        let payload = slice_range(from, offset, end);
        Ok((CryptoWrapper { crypto_header, payload, mic_state }, from.len()))
    }

    /// The serialized wrapper.
    pub fn to_bytes(&self) -> (r: Vec<u8>)
        ensures
            r@ == self.spec_bytes(),
    {
        let mut out = self.crypto_header.to_bytes();
        push_bytes(&mut out, self.payload);
        let mic_length = self.mic_state.mic_length();
        let mut i: usize = 0;
        let ghost start = out@;
        while i < mic_length
            invariant
                i <= mic_length,
                mic_length == self.mic_state.spec_mic_length(),
                out@ == start + Seq::new(i as nat, |k: int| 0u8),
            decreases mic_length - i,
        {
            out.push(0u8);
            i = i + 1;
            assert(out@ =~= start + Seq::new(i as nat, |k: int| 0u8));
        }
        out
    }

    /// Write the wrapper to the start of `buf`, returning the number of bytes written.
    ///
    /// Fails with [Error::TooShort] if `buf` is shorter than the serialized wrapper.
    pub fn try_into_ctx(self, buf: &mut [u8]) -> (r: Result<usize, Error>)
        ensures
            final(buf)@.len() == old(buf)@.len(),
            self.spec_bytes().len() <= old(buf)@.len() ==> r == Ok::<usize, Error>(
                self.spec_bytes().len() as usize,
            ) && final(buf)@ == self.spec_bytes() + old(buf)@.skip(self.spec_bytes().len() as int),
            self.spec_bytes().len() > old(buf)@.len() ==> r == Err::<usize, Error>(
                Error::TooShort,
            ),
    {
        let bytes = self.to_bytes();
        write_all(buf, bytes.as_slice())
    }

    /// The length of the serialized wrapper.
    pub fn measure_with(&self) -> (r: usize)
        requires
            8 + self.payload@.len() + 16 <= usize::MAX,
        ensures
            r == self.spec_bytes().len(),
    {
        self.crypto_header.measure_with() + self.payload.len() + self.mic_state.mic_length()
    }
}

} // verus!
