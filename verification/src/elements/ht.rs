//! The HT capabilities and HT operation elements, and the supported MCS set they share.
use crate::common::bits::{
    fits_u16, fits_u32, fits_u64, fits_u8, get_bits_u16, get_bits_u32, get_bits_u64, get_bits_u8,
    lemma_set_bit, lemma_set_bits_u16, lemma_set_bits_u32, lemma_set_bits_u64, lemma_set_bits_u8,
    lemma_test_bit, set_bits_u16, set_bits_u32, set_bits_u64, set_bits_u8,
};
use crate::common::wire::{
    le_u16, le_u32, lemma_subrange_of, lemma_u16_at, lemma_u32_at, push_bytes, push_u16_le,
    push_u32_le, read_u16_le, read_u32_le, u16_le_bytes, u32_le_bytes,
    write_all, Error,
};
use crate::elements::tim::bitmap_bit;
use crate::elements::ElementID;
use crate::elements::Element;
use vstd::prelude::*;

verus! {

/// The flags of the supported MCS set.
#[derive(Clone, Copy, Debug, PartialEq, Eq, Hash, Structural)]
pub struct SupportedMCSSetFlags(pub u32);

impl SupportedMCSSetFlags {
    /// A value with every field at its default.
    pub fn new() -> (r: Self)
        ensures
            r.0 == 0x0,
    {
        Self(0x0)
    }

    /// Wrap the raw bits.
    pub fn from_bits(bits: u32) -> (r: Self)
        ensures
            r.0 == bits,
    {
        Self(bits)
    }

    /// Every field mask fits in the backing integer.
    proof fn lemma_masks_fit()
        by (bit_vector)
        ensures
            fits_u32(0, 0x3ff),
            fits_u32(16, 0x1),
            fits_u32(17, 0x1),
            fits_u32(18, 0x3),
            fits_u32(20, 0x1),
            (0x3ffu32 << 0u32) & (0x1u32 << 16u32) == 0,
            (0x1u32 << 16u32) & (0x3ffu32 << 0u32) == 0,
            (0x3ffu32 << 0u32) & (0x1u32 << 17u32) == 0,
            (0x1u32 << 17u32) & (0x3ffu32 << 0u32) == 0,
            (0x3ffu32 << 0u32) & (0x3u32 << 18u32) == 0,
            (0x3u32 << 18u32) & (0x3ffu32 << 0u32) == 0,
            (0x3ffu32 << 0u32) & (0x1u32 << 20u32) == 0,
            (0x1u32 << 20u32) & (0x3ffu32 << 0u32) == 0,
            (0x1u32 << 16u32) & (0x1u32 << 17u32) == 0,
            (0x1u32 << 17u32) & (0x1u32 << 16u32) == 0,
            (0x1u32 << 16u32) & (0x3u32 << 18u32) == 0,
            (0x3u32 << 18u32) & (0x1u32 << 16u32) == 0,
            (0x1u32 << 16u32) & (0x1u32 << 20u32) == 0,
            (0x1u32 << 20u32) & (0x1u32 << 16u32) == 0,
            (0x1u32 << 17u32) & (0x3u32 << 18u32) == 0,
            (0x3u32 << 18u32) & (0x1u32 << 17u32) == 0,
            (0x1u32 << 17u32) & (0x1u32 << 20u32) == 0,
            (0x1u32 << 20u32) & (0x1u32 << 17u32) == 0,
            (0x3u32 << 18u32) & (0x1u32 << 20u32) == 0,
            (0x1u32 << 20u32) & (0x3u32 << 18u32) == 0,
            1u32 & 1u32 == 1,
            0u32 & 1u32 == 0,
    {
    }

    /// The raw bits.
    pub fn into_bits(self) -> (r: u32)
        ensures
            r == self.0,
    {
        self.0
    }

    /// The highest data rate supported for reception, in Mbit/s.
    pub open spec fn spec_rx_highest_supported_data_rate(self) -> u16 {
        get_bits_u32(self.0, 0, 0x3ff) as u16
    }

    /// The highest data rate supported for reception, in Mbit/s.
    pub fn rx_highest_supported_data_rate(&self) -> (r: u16)
        ensures
            r == self.spec_rx_highest_supported_data_rate(),
    {
        ((self.0 >> 0) & 0x3ff) as u16
    }

    /// Returns a copy with the field replaced by `value`.
    pub fn with_rx_highest_supported_data_rate(self, value: u16) -> (r: Self)
        ensures
            r.0 == set_bits_u32(self.0, 0, 0x3ff, (value as u32)),
            r.spec_rx_highest_supported_data_rate() == ((value as u32) & 0x3ff) as u16,
            r.spec_tx_mcs_set_defined() == self.spec_tx_mcs_set_defined(),
            r.spec_tx_rx_mcs_set_not_equal() == self.spec_tx_rx_mcs_set_not_equal(),
            r.spec_tx_maximum_number_spatial_streams_supported() == self.spec_tx_maximum_number_spatial_streams_supported(),
            r.spec_tx_unequal_modulation_supported() == self.spec_tx_unequal_modulation_supported(),
    {
        let v: u32 = value as u32;
        proof {
            Self::lemma_masks_fit();
            lemma_set_bits_u32(self.0, 0, 0x3ff, v, 0, 0x3ff);
            lemma_set_bits_u32(self.0, 0, 0x3ff, v, 16, 0x1);
            lemma_set_bits_u32(self.0, 0, 0x3ff, v, 17, 0x1);
            lemma_set_bits_u32(self.0, 0, 0x3ff, v, 18, 0x3);
            lemma_set_bits_u32(self.0, 0, 0x3ff, v, 20, 0x1);
        }
        Self((self.0 & !(0x3ffu32 << 0u32)) | ((v & 0x3ff) << 0u32))
    }

    /// The transmit MCS set is defined.
    pub open spec fn spec_tx_mcs_set_defined(self) -> bool {
        get_bits_u32(self.0, 16, 1) == 1
    }

    /// The transmit MCS set is defined.
    pub fn tx_mcs_set_defined(&self) -> (r: bool)
        ensures
            r == self.spec_tx_mcs_set_defined(),
    {
        (self.0 >> 16) & 1 == 1
    }

    /// Returns a copy with the field replaced by `value`.
    pub fn with_tx_mcs_set_defined(self, value: bool) -> (r: Self)
        ensures
            r.0 == set_bits_u32(self.0, 16, 0x1, (if value {
                1u32
            } else {
                0u32
            })),
            r.spec_tx_mcs_set_defined() == value,
            r.spec_rx_highest_supported_data_rate() == self.spec_rx_highest_supported_data_rate(),
            r.spec_tx_rx_mcs_set_not_equal() == self.spec_tx_rx_mcs_set_not_equal(),
            r.spec_tx_maximum_number_spatial_streams_supported() == self.spec_tx_maximum_number_spatial_streams_supported(),
            r.spec_tx_unequal_modulation_supported() == self.spec_tx_unequal_modulation_supported(),
    {
        let v: u32 = if value {
            1
        } else {
            0
        };
        proof {
            Self::lemma_masks_fit();
            lemma_set_bits_u32(self.0, 16, 0x1, v, 16, 0x1);
            lemma_set_bits_u32(self.0, 16, 0x1, v, 0, 0x3ff);
            lemma_set_bits_u32(self.0, 16, 0x1, v, 17, 0x1);
            lemma_set_bits_u32(self.0, 16, 0x1, v, 18, 0x3);
            lemma_set_bits_u32(self.0, 16, 0x1, v, 20, 0x1);
        }
        Self((self.0 & !(0x1u32 << 16u32)) | ((v & 0x1) << 16u32))
    }

    /// The transmit and receive MCS sets are not equal.
    pub open spec fn spec_tx_rx_mcs_set_not_equal(self) -> bool {
        get_bits_u32(self.0, 17, 1) == 1
    }

    /// The transmit and receive MCS sets are not equal.
    pub fn tx_rx_mcs_set_not_equal(&self) -> (r: bool)
        ensures
            r == self.spec_tx_rx_mcs_set_not_equal(),
    {
        (self.0 >> 17) & 1 == 1
    }

    /// Returns a copy with the field replaced by `value`.
    pub fn with_tx_rx_mcs_set_not_equal(self, value: bool) -> (r: Self)
        ensures
            r.0 == set_bits_u32(self.0, 17, 0x1, (if value {
                1u32
            } else {
                0u32
            })),
            r.spec_tx_rx_mcs_set_not_equal() == value,
            r.spec_rx_highest_supported_data_rate() == self.spec_rx_highest_supported_data_rate(),
            r.spec_tx_mcs_set_defined() == self.spec_tx_mcs_set_defined(),
            r.spec_tx_maximum_number_spatial_streams_supported() == self.spec_tx_maximum_number_spatial_streams_supported(),
            r.spec_tx_unequal_modulation_supported() == self.spec_tx_unequal_modulation_supported(),
    {
        let v: u32 = if value {
            1
        } else {
            0
        };
        proof {
            Self::lemma_masks_fit();
            lemma_set_bits_u32(self.0, 17, 0x1, v, 17, 0x1);
            lemma_set_bits_u32(self.0, 17, 0x1, v, 0, 0x3ff);
            lemma_set_bits_u32(self.0, 17, 0x1, v, 16, 0x1);
            lemma_set_bits_u32(self.0, 17, 0x1, v, 18, 0x3);
            lemma_set_bits_u32(self.0, 17, 0x1, v, 20, 0x1);
        }
        Self((self.0 & !(0x1u32 << 17u32)) | ((v & 0x1) << 17u32))
    }

    /// The maximum number of spatial streams supported for transmission, minus one.
    pub open spec fn spec_tx_maximum_number_spatial_streams_supported(self) -> u8 {
        get_bits_u32(self.0, 18, 0x3) as u8
    }

    /// The maximum number of spatial streams supported for transmission, minus one.
    pub fn tx_maximum_number_spatial_streams_supported(&self) -> (r: u8)
        ensures
            r == self.spec_tx_maximum_number_spatial_streams_supported(),
    {
        ((self.0 >> 18) & 0x3) as u8
    }

    /// Returns a copy with the field replaced by `value`.
    pub fn with_tx_maximum_number_spatial_streams_supported(self, value: u8) -> (r: Self)
        ensures
            r.0 == set_bits_u32(self.0, 18, 0x3, (value as u32)),
            r.spec_tx_maximum_number_spatial_streams_supported() == ((value as u32) & 0x3) as u8,
            r.spec_rx_highest_supported_data_rate() == self.spec_rx_highest_supported_data_rate(),
            r.spec_tx_mcs_set_defined() == self.spec_tx_mcs_set_defined(),
            r.spec_tx_rx_mcs_set_not_equal() == self.spec_tx_rx_mcs_set_not_equal(),
            r.spec_tx_unequal_modulation_supported() == self.spec_tx_unequal_modulation_supported(),
    {
        let v: u32 = value as u32;
        proof {
            Self::lemma_masks_fit();
            lemma_set_bits_u32(self.0, 18, 0x3, v, 18, 0x3);
            lemma_set_bits_u32(self.0, 18, 0x3, v, 0, 0x3ff);
            lemma_set_bits_u32(self.0, 18, 0x3, v, 16, 0x1);
            lemma_set_bits_u32(self.0, 18, 0x3, v, 17, 0x1);
            lemma_set_bits_u32(self.0, 18, 0x3, v, 20, 0x1);
        }
        Self((self.0 & !(0x3u32 << 18u32)) | ((v & 0x3) << 18u32))
    }

    /// Unequal modulation is supported for transmission.
    pub open spec fn spec_tx_unequal_modulation_supported(self) -> bool {
        get_bits_u32(self.0, 20, 1) == 1
    }

    /// Unequal modulation is supported for transmission.
    pub fn tx_unequal_modulation_supported(&self) -> (r: bool)
        ensures
            r == self.spec_tx_unequal_modulation_supported(),
    {
        (self.0 >> 20) & 1 == 1
    }

    /// Returns a copy with the field replaced by `value`.
    pub fn with_tx_unequal_modulation_supported(self, value: bool) -> (r: Self)
        ensures
            r.0 == set_bits_u32(self.0, 20, 0x1, (if value {
                1u32
            } else {
                0u32
            })),
            r.spec_tx_unequal_modulation_supported() == value,
            r.spec_rx_highest_supported_data_rate() == self.spec_rx_highest_supported_data_rate(),
            r.spec_tx_mcs_set_defined() == self.spec_tx_mcs_set_defined(),
            r.spec_tx_rx_mcs_set_not_equal() == self.spec_tx_rx_mcs_set_not_equal(),
            r.spec_tx_maximum_number_spatial_streams_supported() == self.spec_tx_maximum_number_spatial_streams_supported(),
    {
        let v: u32 = if value {
            1
        } else {
            0
        };
        proof {
            Self::lemma_masks_fit();
            lemma_set_bits_u32(self.0, 20, 0x1, v, 20, 0x1);
            lemma_set_bits_u32(self.0, 20, 0x1, v, 0, 0x3ff);
            lemma_set_bits_u32(self.0, 20, 0x1, v, 16, 0x1);
            lemma_set_bits_u32(self.0, 20, 0x1, v, 17, 0x1);
            lemma_set_bits_u32(self.0, 20, 0x1, v, 18, 0x3);
        }
        Self((self.0 & !(0x1u32 << 20u32)) | ((v & 0x1) << 20u32))
    }
}

impl SupportedMCSSetFlags {
    /// No transmit MCS set is defined.
    pub open spec fn spec_is_tx_mcs_undefined(&self) -> bool {
        !self.spec_tx_mcs_set_defined()
    }

    /// Returns true, if no transmit MCS set is defined.
    pub fn is_tx_mcs_undefined(&self) -> (r: bool)
        ensures
            r == self.spec_is_tx_mcs_undefined(),
    {
        !self.tx_mcs_set_defined()
    }

    /// Returns true, if the transmit and receive MCS sets are defined to be equal.
    pub fn is_tx_rx_mcs_defined_equal(&self) -> (r: bool)
        ensures
            r == (self.spec_tx_mcs_set_defined() && !self.spec_tx_rx_mcs_set_not_equal()
                && self.spec_tx_maximum_number_spatial_streams_supported() == 0
                && !self.spec_tx_unequal_modulation_supported()),
    {
        self.tx_mcs_set_defined() && !self.tx_rx_mcs_set_not_equal()
            && self.tx_maximum_number_spatial_streams_supported() == 0
            && !self.tx_unequal_modulation_supported()
    }

    /// Returns true, if the transmit MCS set is defined and may differ from the receive MCS set.
    pub fn may_tx_mcs_set_differ_from_rx(&self) -> (r: bool)
        ensures
            r == (self.spec_tx_mcs_set_defined() && self.spec_tx_rx_mcs_set_not_equal()),
    {
        self.tx_mcs_set_defined() && self.tx_rx_mcs_set_not_equal()
    }
}

/// The supported MCS set: a bit for each MCS index supported for reception, and flags.
#[derive(Clone, Copy, Debug, PartialEq, Eq, Hash)]
pub struct SupportedMCSSet {
    /// A bit for each MCS index supported for reception.
    pub supported_rx_mcs_set: [u8; 10],
    /// The flags.
    pub supported_rx_mcs_set_flags: SupportedMCSSetFlags,
}

/// The serialized supported MCS set: the ten bytes of the MCS bitmap, the flags and two zero
/// bytes.
pub open spec fn mcs_set_bytes(m: SupportedMCSSet) -> Seq<u8> {
    m.supported_rx_mcs_set@ + u32_le_bytes(m.supported_rx_mcs_set_flags.0) + seq![0u8, 0u8]
}

/// Reading a supported MCS set: ten bytes of bitmap and four of flags. Sixteen bytes are
/// reported as read, even if only fourteen are there.
pub open spec fn parse_mcs_set(s: Seq<u8>) -> Result<(Seq<u8>, u32, int), Error> {
    if s.len() < 14 {
        Err(Error::TooShort)
    } else {
        Ok((s.take(10), le_u32(s, 10), 16))
    }
}

impl Default for SupportedMCSSet {
    fn default() -> (r: Self)
        ensures
            r.supported_rx_mcs_set@ == Seq::new(10, |i: int| 0u8),
            r.supported_rx_mcs_set_flags.0 == 0,
    {
        let r = SupportedMCSSet {
            supported_rx_mcs_set: [0u8; 10],
            supported_rx_mcs_set_flags: SupportedMCSSetFlags(0),
        };
        assert(r.supported_rx_mcs_set@ =~= Seq::new(10, |i: int| 0u8));
        r
    }
}

impl SupportedMCSSet {
    /// A flag for each of the eighty MCS indices, telling if it is supported for reception.
    pub fn supported_rx_mcs_indices(&self) -> (r: Vec<bool>)
        ensures
            r@.len() == 80,
            forall|i: int| 0 <= i < 80 ==> r@[i] == bitmap_bit(self.supported_rx_mcs_set@, i),
    {
        let mut out: Vec<bool> = Vec::new();
        let mut i: usize = 0;
        while i < 80
            invariant
                i <= 80,
                out@.len() == i,
                forall|k: int| 0 <= k < i ==> out@[k] == bitmap_bit(self.supported_rx_mcs_set@, k),
            decreases 80 - i,
        {
            let byte = self.supported_rx_mcs_set[i / 8];
            let bit = (i % 8) as u8;
            proof {
                lemma_test_bit(byte, bit);
            }
            out.push(byte & (1u8 << bit) != 0);
            i = i + 1;
        }
        out
    }

    /// The length of the serialized set, which is sixteen bytes.
    pub fn measure_with(&self) -> (r: usize)
        ensures
            r == 16,
    {
        16
    }

    /// Read a supported MCS set.
    pub fn try_from_ctx(from: &[u8]) -> (r: Result<(Self, usize), Error>)
        ensures
            match parse_mcs_set(from@) {
                Ok((bitmap, flags, n)) => r matches Ok((m, k)) && m.supported_rx_mcs_set@ == bitmap
                    && m.supported_rx_mcs_set_flags.0 == flags && k == n,
                Err(e) => r == Err::<(Self, usize), Error>(e),
            },
    {
        if from.len() < 14 {
            return Err(Error::TooShort);
        }
        let mut bitmap = [0u8; 10];
        let mut i: usize = 0;
        while i < 10
            invariant
                from@.len() >= 14,
                i <= 10,
                forall|k: int| 0 <= k < i ==> bitmap@[k] == from@[k],
            decreases 10 - i,
        {
            bitmap[i] = from[i];
            i = i + 1;
        }
        assert(bitmap@ =~= from@.take(10));
        let flags = SupportedMCSSetFlags::from_bits(read_u32_le(from, 10));
        Ok((SupportedMCSSet { supported_rx_mcs_set: bitmap, supported_rx_mcs_set_flags: flags }, 16))
    }

    /// Append the serialized set.
    fn push_to(&self, out: &mut Vec<u8>)
        ensures
            final(out)@ == old(out)@ + mcs_set_bytes(*self),
    {
        push_bytes(out, self.supported_rx_mcs_set.as_slice());
        push_u32_le(out, self.supported_rx_mcs_set_flags.into_bits());
        out.push(0u8);
        out.push(0u8);
        assert(final(out)@ =~= old(out)@ + mcs_set_bytes(*self));
    }

    /// Write the set to the start of `buf`.
    pub fn try_into_ctx(&self, buf: &mut [u8]) -> (r: Result<usize, Error>)
        ensures
            final(buf)@.len() == old(buf)@.len(),
            16 <= old(buf)@.len() ==> r == Ok::<usize, Error>(16) && final(buf)@ == mcs_set_bytes(*self)
                + old(buf)@.skip(16),
            16 > old(buf)@.len() ==> r == Err::<usize, Error>(Error::TooShort),
    {
        let mut bytes: Vec<u8> = Vec::new();
        self.push_to(&mut bytes);
        write_all(buf, bytes.as_slice())
    }
}

/// Reading a written supported MCS set gives it back, and sixteen bytes.
pub proof fn lemma_mcs_set_roundtrip(m: SupportedMCSSet, rest: Seq<u8>)
    ensures
        parse_mcs_set(mcs_set_bytes(m) + rest) == Ok::<(Seq<u8>, u32, int), Error>(
            (m.supported_rx_mcs_set@, m.supported_rx_mcs_set_flags.0, 16),
        ),
{
    let s = mcs_set_bytes(m) + rest;
    assert(s.take(10) =~= m.supported_rx_mcs_set@);
    assert(s.subrange(10, 14) =~= u32_le_bytes(m.supported_rx_mcs_set_flags.0));
    lemma_u32_at(s, 10, m.supported_rx_mcs_set_flags.0);
}

/// The MCS bitmap marks index `i` exactly when `i` is among the first 76 flags and its flag
/// is set.
pub open spec fn generated_mcs_bit(mcs_indices: Seq<bool>, i: int) -> bool {
    i < 76 && i < mcs_indices.len() && mcs_indices[i]
}

/// Generate the supported receive MCS bitmap from a flag for each MCS index.
///
/// Only the first 76 flags are used.
pub fn generate_supported_rx_mcs_set(mcs_indices: &[bool]) -> (r: [u8; 10])
    ensures
        forall|i: int| 0 <= i < 80 ==> bitmap_bit(r@, i) == generated_mcs_bit(mcs_indices@, i),
{
    let mut set = [0u8; 10];
    let n: usize = if mcs_indices.len() < 76 {
        mcs_indices.len()
    } else {
        76
    };
    proof {
        assert forall|a: int| 0 <= a < 80 implies !#[trigger] bitmap_bit(set@, a) by {
            let z = set@[a / 8];
            let s = (a % 8) as u8;
            assert(z == 0);
            assert((0u8 >> s) & 1u8 == 0u8) by (bit_vector);
        }
    }
    let mut i: usize = 0;
    while i < n
        invariant
            i <= n,
            n <= 76,
            n <= mcs_indices@.len(),
            n == 76 || n == mcs_indices@.len(),
            forall|a: int|
                0 <= a < 80 ==> #[trigger] bitmap_bit(set@, a) == (a < i && mcs_indices@[a]),
        decreases n - i,
    {
        if mcs_indices[i] {
            let byte_index = i >> 3;
            let bit_index = (i & 0b111) as u8;
            assert(byte_index == i / 8 && bit_index == i % 8) by (bit_vector)
                requires
                    byte_index == i >> 3,
                    bit_index == (i & 0b111) as u8,
            ;
            let ghost before = set@;
            set[byte_index] = set[byte_index] | (1u8 << bit_index);
            proof {
                assert forall|a: int| 0 <= a < 80 implies #[trigger] bitmap_bit(set@, a) == (a < i + 1
                    && mcs_indices@[a]) by {
                    assert(bitmap_bit(before, a) == (a < i && mcs_indices@[a]));
                    if a / 8 == byte_index {
                        lemma_set_bit(before[a / 8], bit_index, (a % 8) as u8);
                    } else {
                        assert(set@[a / 8] == before[a / 8]);
                    }
                }
            }
        } else {
            proof {
                assert forall|a: int| 0 <= a < 80 implies #[trigger] bitmap_bit(set@, a) == (a < i + 1
                    && mcs_indices@[a]) by {
                    assert(bitmap_bit(set@, a) == (a < i && mcs_indices@[a]));
                }
            }
        }
        i = i + 1;
    }
    set
}

/// Reading back a generated MCS bitmap gives the first 76 flags it was generated from, and no
/// other index.
pub proof fn lemma_generated_mcs_set_indices(mcs_indices: Seq<bool>, set: Seq<u8>)
    requires
        forall|i: int| 0 <= i < 80 ==> bitmap_bit(set, i) == generated_mcs_bit(mcs_indices, i),
    ensures
        forall|i: int| 0 <= i < 76 && i < mcs_indices.len() ==> bitmap_bit(set, i) == mcs_indices[i],
        forall|i: int| (76 <= i < 80 || mcs_indices.len() <= i < 80) ==> !bitmap_bit(set, i),
{
}

/// The position of the secondary channel.
#[derive(Clone, Copy, Debug, PartialEq, Eq, Hash, Structural)]
pub enum SecondaryChannelOffset {
    /// No secondary channel.
    NotPresent,
    /// The secondary channel is above the primary one.
    Above,
    /// A reserved value.
    Reserved,
    /// The secondary channel is below the primary one.
    Below,
    /// A value without a name.
    Unknown(u8),
}

impl SecondaryChannelOffset {
    /// The variant that `value` encodes.
    pub open spec fn spec_from_bits(value: u8) -> Self {
        match value {
            0x00 => SecondaryChannelOffset::NotPresent,
            0x01 => SecondaryChannelOffset::Above,
            0x02 => SecondaryChannelOffset::Reserved,
            0x03 => SecondaryChannelOffset::Below,
            x => SecondaryChannelOffset::Unknown(x),
        }
    }

    /// The encoding of this variant.
    pub open spec fn spec_into_bits(self) -> u8 {
        match self {
            SecondaryChannelOffset::NotPresent => 0x00,
            SecondaryChannelOffset::Above => 0x01,
            SecondaryChannelOffset::Reserved => 0x02,
            SecondaryChannelOffset::Below => 0x03,
            SecondaryChannelOffset::Unknown(x) => x,
        }
    }

    /// Decode a variant from its representation.
    pub fn from_bits(value: u8) -> (r: Self)
        ensures
            r == Self::spec_from_bits(value),
            r.spec_into_bits() == value,
    {
        match value {
            0x00 => SecondaryChannelOffset::NotPresent,
            0x01 => SecondaryChannelOffset::Above,
            0x02 => SecondaryChannelOffset::Reserved,
            0x03 => SecondaryChannelOffset::Below,
            x => SecondaryChannelOffset::Unknown(x),
        }
    }

    /// Encode this variant.
    pub fn into_bits(self) -> (r: u8)
        ensures
            r == self.spec_into_bits(),
    {
        match self {
            SecondaryChannelOffset::NotPresent => 0x00,
            SecondaryChannelOffset::Above => 0x01,
            SecondaryChannelOffset::Reserved => 0x02,
            SecondaryChannelOffset::Below => 0x03,
            SecondaryChannelOffset::Unknown(x) => x,
        }
    }
}

impl Default for SecondaryChannelOffset {
    fn default() -> (r: Self)
        ensures
            r == SecondaryChannelOffset::NotPresent,
    {
        SecondaryChannelOffset::NotPresent
    }
}

/// The HT protection mode.
#[derive(Clone, Copy, Debug, PartialEq, Eq, Hash, Structural)]
pub enum HTProtectionMode {
    /// No protection.
    NoProtection,
    /// Non-member protection.
    NonMember,
    /// Protection for 20 MHz STAs.
    TwentyMHz,
    /// Non-HT mixed mode.
    NonHTMixed,
    /// A value without a name.
    Unknown(u8),
}

impl HTProtectionMode {
    /// The variant that `value` encodes.
    pub open spec fn spec_from_bits(value: u8) -> Self {
        match value {
            0x00 => HTProtectionMode::NoProtection,
            0x01 => HTProtectionMode::NonMember,
            0x02 => HTProtectionMode::TwentyMHz,
            0x03 => HTProtectionMode::NonHTMixed,
            x => HTProtectionMode::Unknown(x),
        }
    }

    /// The encoding of this variant.
    pub open spec fn spec_into_bits(self) -> u8 {
        match self {
            HTProtectionMode::NoProtection => 0x00,
            HTProtectionMode::NonMember => 0x01,
            HTProtectionMode::TwentyMHz => 0x02,
            HTProtectionMode::NonHTMixed => 0x03,
            HTProtectionMode::Unknown(x) => x,
        }
    }

    /// Decode a variant from its representation.
    pub fn from_bits(value: u8) -> (r: Self)
        ensures
            r == Self::spec_from_bits(value),
            r.spec_into_bits() == value,
    {
        match value {
            0x00 => HTProtectionMode::NoProtection,
            0x01 => HTProtectionMode::NonMember,
            0x02 => HTProtectionMode::TwentyMHz,
            0x03 => HTProtectionMode::NonHTMixed,
            x => HTProtectionMode::Unknown(x),
        }
    }

    /// Encode this variant.
    pub fn into_bits(self) -> (r: u8)
        ensures
            r == self.spec_into_bits(),
    {
        match self {
            HTProtectionMode::NoProtection => 0x00,
            HTProtectionMode::NonMember => 0x01,
            HTProtectionMode::TwentyMHz => 0x02,
            HTProtectionMode::NonHTMixed => 0x03,
            HTProtectionMode::Unknown(x) => x,
        }
    }
}

impl Default for HTProtectionMode {
    fn default() -> (r: Self)
        ensures
            r == HTProtectionMode::NoProtection,
    {
        HTProtectionMode::NoProtection
    }
}

/// The HT operation information.
#[derive(Clone, Copy, Debug, PartialEq, Eq, Hash, Structural)]
pub struct HTOperationInformation(pub u64);

impl HTOperationInformation {
    /// A value with every field at its default.
    pub fn new() -> (r: Self)
        ensures
            r.0 == 0x0,
    {
        Self(0x0)
    }

    /// Wrap the raw bits.
    pub fn from_bits(bits: u64) -> (r: Self)
        ensures
            r.0 == bits,
    {
        Self(bits)
    }

    /// Every field mask fits in the backing integer.
    proof fn lemma_masks_fit()
        by (bit_vector)
        ensures
            fits_u64(0, 0x3),
            fits_u64(2, 0x1),
            fits_u64(3, 0x1),
            fits_u64(8, 0x3),
            fits_u64(10, 0x1),
            fits_u64(12, 0x1),
            fits_u64(13, 0xff),
            fits_u64(30, 0x1),
            fits_u64(31, 0x1),
            fits_u64(32, 0x1),
            (0x3u64 << 0u64) & (0x1u64 << 2u64) == 0,
            (0x1u64 << 2u64) & (0x3u64 << 0u64) == 0,
            (0x3u64 << 0u64) & (0x1u64 << 3u64) == 0,
            (0x1u64 << 3u64) & (0x3u64 << 0u64) == 0,
            (0x3u64 << 0u64) & (0x3u64 << 8u64) == 0,
            (0x3u64 << 8u64) & (0x3u64 << 0u64) == 0,
            (0x3u64 << 0u64) & (0x1u64 << 10u64) == 0,
            (0x1u64 << 10u64) & (0x3u64 << 0u64) == 0,
            (0x3u64 << 0u64) & (0x1u64 << 12u64) == 0,
            (0x1u64 << 12u64) & (0x3u64 << 0u64) == 0,
            (0x3u64 << 0u64) & (0xffu64 << 13u64) == 0,
            (0xffu64 << 13u64) & (0x3u64 << 0u64) == 0,
            (0x3u64 << 0u64) & (0x1u64 << 30u64) == 0,
            (0x1u64 << 30u64) & (0x3u64 << 0u64) == 0,
            (0x3u64 << 0u64) & (0x1u64 << 31u64) == 0,
            (0x1u64 << 31u64) & (0x3u64 << 0u64) == 0,
            (0x3u64 << 0u64) & (0x1u64 << 32u64) == 0,
            (0x1u64 << 32u64) & (0x3u64 << 0u64) == 0,
            (0x1u64 << 2u64) & (0x1u64 << 3u64) == 0,
            (0x1u64 << 3u64) & (0x1u64 << 2u64) == 0,
            (0x1u64 << 2u64) & (0x3u64 << 8u64) == 0,
            (0x3u64 << 8u64) & (0x1u64 << 2u64) == 0,
            (0x1u64 << 2u64) & (0x1u64 << 10u64) == 0,
            (0x1u64 << 10u64) & (0x1u64 << 2u64) == 0,
            (0x1u64 << 2u64) & (0x1u64 << 12u64) == 0,
            (0x1u64 << 12u64) & (0x1u64 << 2u64) == 0,
            (0x1u64 << 2u64) & (0xffu64 << 13u64) == 0,
            (0xffu64 << 13u64) & (0x1u64 << 2u64) == 0,
            (0x1u64 << 2u64) & (0x1u64 << 30u64) == 0,
            (0x1u64 << 30u64) & (0x1u64 << 2u64) == 0,
            (0x1u64 << 2u64) & (0x1u64 << 31u64) == 0,
            (0x1u64 << 31u64) & (0x1u64 << 2u64) == 0,
            (0x1u64 << 2u64) & (0x1u64 << 32u64) == 0,
            (0x1u64 << 32u64) & (0x1u64 << 2u64) == 0,
            (0x1u64 << 3u64) & (0x3u64 << 8u64) == 0,
            (0x3u64 << 8u64) & (0x1u64 << 3u64) == 0,
            (0x1u64 << 3u64) & (0x1u64 << 10u64) == 0,
            (0x1u64 << 10u64) & (0x1u64 << 3u64) == 0,
            (0x1u64 << 3u64) & (0x1u64 << 12u64) == 0,
            (0x1u64 << 12u64) & (0x1u64 << 3u64) == 0,
            (0x1u64 << 3u64) & (0xffu64 << 13u64) == 0,
            (0xffu64 << 13u64) & (0x1u64 << 3u64) == 0,
            (0x1u64 << 3u64) & (0x1u64 << 30u64) == 0,
            (0x1u64 << 30u64) & (0x1u64 << 3u64) == 0,
            (0x1u64 << 3u64) & (0x1u64 << 31u64) == 0,
            (0x1u64 << 31u64) & (0x1u64 << 3u64) == 0,
            (0x1u64 << 3u64) & (0x1u64 << 32u64) == 0,
            (0x1u64 << 32u64) & (0x1u64 << 3u64) == 0,
            (0x3u64 << 8u64) & (0x1u64 << 10u64) == 0,
            (0x1u64 << 10u64) & (0x3u64 << 8u64) == 0,
            (0x3u64 << 8u64) & (0x1u64 << 12u64) == 0,
            (0x1u64 << 12u64) & (0x3u64 << 8u64) == 0,
            (0x3u64 << 8u64) & (0xffu64 << 13u64) == 0,
            (0xffu64 << 13u64) & (0x3u64 << 8u64) == 0,
            (0x3u64 << 8u64) & (0x1u64 << 30u64) == 0,
            (0x1u64 << 30u64) & (0x3u64 << 8u64) == 0,
            (0x3u64 << 8u64) & (0x1u64 << 31u64) == 0,
            (0x1u64 << 31u64) & (0x3u64 << 8u64) == 0,
            (0x3u64 << 8u64) & (0x1u64 << 32u64) == 0,
            (0x1u64 << 32u64) & (0x3u64 << 8u64) == 0,
            (0x1u64 << 10u64) & (0x1u64 << 12u64) == 0,
            (0x1u64 << 12u64) & (0x1u64 << 10u64) == 0,
            (0x1u64 << 10u64) & (0xffu64 << 13u64) == 0,
            (0xffu64 << 13u64) & (0x1u64 << 10u64) == 0,
            (0x1u64 << 10u64) & (0x1u64 << 30u64) == 0,
            (0x1u64 << 30u64) & (0x1u64 << 10u64) == 0,
            (0x1u64 << 10u64) & (0x1u64 << 31u64) == 0,
            (0x1u64 << 31u64) & (0x1u64 << 10u64) == 0,
            (0x1u64 << 10u64) & (0x1u64 << 32u64) == 0,
            (0x1u64 << 32u64) & (0x1u64 << 10u64) == 0,
            (0x1u64 << 12u64) & (0xffu64 << 13u64) == 0,
            (0xffu64 << 13u64) & (0x1u64 << 12u64) == 0,
            (0x1u64 << 12u64) & (0x1u64 << 30u64) == 0,
            (0x1u64 << 30u64) & (0x1u64 << 12u64) == 0,
            (0x1u64 << 12u64) & (0x1u64 << 31u64) == 0,
            (0x1u64 << 31u64) & (0x1u64 << 12u64) == 0,
            (0x1u64 << 12u64) & (0x1u64 << 32u64) == 0,
            (0x1u64 << 32u64) & (0x1u64 << 12u64) == 0,
            (0xffu64 << 13u64) & (0x1u64 << 30u64) == 0,
            (0x1u64 << 30u64) & (0xffu64 << 13u64) == 0,
            (0xffu64 << 13u64) & (0x1u64 << 31u64) == 0,
            (0x1u64 << 31u64) & (0xffu64 << 13u64) == 0,
            (0xffu64 << 13u64) & (0x1u64 << 32u64) == 0,
            (0x1u64 << 32u64) & (0xffu64 << 13u64) == 0,
            (0x1u64 << 30u64) & (0x1u64 << 31u64) == 0,
            (0x1u64 << 31u64) & (0x1u64 << 30u64) == 0,
            (0x1u64 << 30u64) & (0x1u64 << 32u64) == 0,
            (0x1u64 << 32u64) & (0x1u64 << 30u64) == 0,
            (0x1u64 << 31u64) & (0x1u64 << 32u64) == 0,
            (0x1u64 << 32u64) & (0x1u64 << 31u64) == 0,
            1u64 & 1u64 == 1,
            0u64 & 1u64 == 0,
    {
    }

    /// The raw bits.
    pub fn into_bits(self) -> (r: u64)
        ensures
            r == self.0,
    {
        self.0
    }

    /// The position of the secondary channel.
    pub open spec fn spec_secondary_channel_offset(self) -> SecondaryChannelOffset {
        SecondaryChannelOffset::spec_from_bits(get_bits_u64(self.0, 0, 0x3) as u8)
    }

    /// The position of the secondary channel.
    pub fn secondary_channel_offset(&self) -> (r: SecondaryChannelOffset)
        ensures
            r == self.spec_secondary_channel_offset(),
    {
        SecondaryChannelOffset::from_bits(((self.0 >> 0) & 0x3) as u8)
    }

    /// Returns a copy with the field replaced by `value`.
    pub fn with_secondary_channel_offset(self, value: SecondaryChannelOffset) -> (r: Self)
        ensures
            r.0 == set_bits_u64(self.0, 0, 0x3, (value.spec_into_bits() as u64)),
            r.spec_secondary_channel_offset() == SecondaryChannelOffset::spec_from_bits(((value.spec_into_bits() as u64) & 0x3) as u8),
            r.spec_any_channel_width() == self.spec_any_channel_width(),
            r.spec_rifs_permitted() == self.spec_rifs_permitted(),
            r.spec_ht_protection_mode() == self.spec_ht_protection_mode(),
            r.spec_nongreenfield_ht_sta_present() == self.spec_nongreenfield_ht_sta_present(),
            r.spec_obss_non_ht_sta_present() == self.spec_obss_non_ht_sta_present(),
            r.spec_channel_center_frequency_segment_2() == self.spec_channel_center_frequency_segment_2(),
            r.spec_dual_beacon() == self.spec_dual_beacon(),
            r.spec_dual_cts_protection() == self.spec_dual_cts_protection(),
            r.spec_stbc_beacon() == self.spec_stbc_beacon(),
    {
        let v: u64 = value.into_bits() as u64;
        proof {
            Self::lemma_masks_fit();
            lemma_set_bits_u64(self.0, 0, 0x3, v, 0, 0x3);
            lemma_set_bits_u64(self.0, 0, 0x3, v, 2, 0x1);
            lemma_set_bits_u64(self.0, 0, 0x3, v, 3, 0x1);
            lemma_set_bits_u64(self.0, 0, 0x3, v, 8, 0x3);
            lemma_set_bits_u64(self.0, 0, 0x3, v, 10, 0x1);
            lemma_set_bits_u64(self.0, 0, 0x3, v, 12, 0x1);
            lemma_set_bits_u64(self.0, 0, 0x3, v, 13, 0xff);
            lemma_set_bits_u64(self.0, 0, 0x3, v, 30, 0x1);
            lemma_set_bits_u64(self.0, 0, 0x3, v, 31, 0x1);
            lemma_set_bits_u64(self.0, 0, 0x3, v, 32, 0x1);
        }
        Self((self.0 & !(0x3u64 << 0u64)) | ((v & 0x3) << 0u64))
    }

    /// Any channel width is allowed.
    pub open spec fn spec_any_channel_width(self) -> bool {
        get_bits_u64(self.0, 2, 1) == 1
    }

    /// Any channel width is allowed.
    pub fn any_channel_width(&self) -> (r: bool)
        ensures
            r == self.spec_any_channel_width(),
    {
        (self.0 >> 2) & 1 == 1
    }

    /// Returns a copy with the field replaced by `value`.
    pub fn with_any_channel_width(self, value: bool) -> (r: Self)
        ensures
            r.0 == set_bits_u64(self.0, 2, 0x1, (if value {
                1u64
            } else {
                0u64
            })),
            r.spec_any_channel_width() == value,
            r.spec_secondary_channel_offset() == self.spec_secondary_channel_offset(),
            r.spec_rifs_permitted() == self.spec_rifs_permitted(),
            r.spec_ht_protection_mode() == self.spec_ht_protection_mode(),
            r.spec_nongreenfield_ht_sta_present() == self.spec_nongreenfield_ht_sta_present(),
            r.spec_obss_non_ht_sta_present() == self.spec_obss_non_ht_sta_present(),
            r.spec_channel_center_frequency_segment_2() == self.spec_channel_center_frequency_segment_2(),
            r.spec_dual_beacon() == self.spec_dual_beacon(),
            r.spec_dual_cts_protection() == self.spec_dual_cts_protection(),
            r.spec_stbc_beacon() == self.spec_stbc_beacon(),
    {
        let v: u64 = if value {
            1
        } else {
            0
        };
        proof {
            Self::lemma_masks_fit();
            lemma_set_bits_u64(self.0, 2, 0x1, v, 2, 0x1);
            lemma_set_bits_u64(self.0, 2, 0x1, v, 0, 0x3);
            lemma_set_bits_u64(self.0, 2, 0x1, v, 3, 0x1);
            lemma_set_bits_u64(self.0, 2, 0x1, v, 8, 0x3);
            lemma_set_bits_u64(self.0, 2, 0x1, v, 10, 0x1);
            lemma_set_bits_u64(self.0, 2, 0x1, v, 12, 0x1);
            lemma_set_bits_u64(self.0, 2, 0x1, v, 13, 0xff);
            lemma_set_bits_u64(self.0, 2, 0x1, v, 30, 0x1);
            lemma_set_bits_u64(self.0, 2, 0x1, v, 31, 0x1);
            lemma_set_bits_u64(self.0, 2, 0x1, v, 32, 0x1);
        }
        Self((self.0 & !(0x1u64 << 2u64)) | ((v & 0x1) << 2u64))
    }

    /// Reduced interframe spacing is permitted.
    pub open spec fn spec_rifs_permitted(self) -> bool {
        get_bits_u64(self.0, 3, 1) == 1
    }

    /// Reduced interframe spacing is permitted.
    pub fn rifs_permitted(&self) -> (r: bool)
        ensures
            r == self.spec_rifs_permitted(),
    {
        (self.0 >> 3) & 1 == 1
    }

    /// Returns a copy with the field replaced by `value`.
    pub fn with_rifs_permitted(self, value: bool) -> (r: Self)
        ensures
            r.0 == set_bits_u64(self.0, 3, 0x1, (if value {
                1u64
            } else {
                0u64
            })),
            r.spec_rifs_permitted() == value,
            r.spec_secondary_channel_offset() == self.spec_secondary_channel_offset(),
            r.spec_any_channel_width() == self.spec_any_channel_width(),
            r.spec_ht_protection_mode() == self.spec_ht_protection_mode(),
            r.spec_nongreenfield_ht_sta_present() == self.spec_nongreenfield_ht_sta_present(),
            r.spec_obss_non_ht_sta_present() == self.spec_obss_non_ht_sta_present(),
            r.spec_channel_center_frequency_segment_2() == self.spec_channel_center_frequency_segment_2(),
            r.spec_dual_beacon() == self.spec_dual_beacon(),
            r.spec_dual_cts_protection() == self.spec_dual_cts_protection(),
            r.spec_stbc_beacon() == self.spec_stbc_beacon(),
    {
        let v: u64 = if value {
            1
        } else {
            0
        };
        proof {
            Self::lemma_masks_fit();
            lemma_set_bits_u64(self.0, 3, 0x1, v, 3, 0x1);
            lemma_set_bits_u64(self.0, 3, 0x1, v, 0, 0x3);
            lemma_set_bits_u64(self.0, 3, 0x1, v, 2, 0x1);
            lemma_set_bits_u64(self.0, 3, 0x1, v, 8, 0x3);
            lemma_set_bits_u64(self.0, 3, 0x1, v, 10, 0x1);
            lemma_set_bits_u64(self.0, 3, 0x1, v, 12, 0x1);
            lemma_set_bits_u64(self.0, 3, 0x1, v, 13, 0xff);
            lemma_set_bits_u64(self.0, 3, 0x1, v, 30, 0x1);
            lemma_set_bits_u64(self.0, 3, 0x1, v, 31, 0x1);
            lemma_set_bits_u64(self.0, 3, 0x1, v, 32, 0x1);
        }
        Self((self.0 & !(0x1u64 << 3u64)) | ((v & 0x1) << 3u64))
    }

    /// The HT protection mode.
    pub open spec fn spec_ht_protection_mode(self) -> HTProtectionMode {
        HTProtectionMode::spec_from_bits(get_bits_u64(self.0, 8, 0x3) as u8)
    }

    /// The HT protection mode.
    pub fn ht_protection_mode(&self) -> (r: HTProtectionMode)
        ensures
            r == self.spec_ht_protection_mode(),
    {
        HTProtectionMode::from_bits(((self.0 >> 8) & 0x3) as u8)
    }

    /// Returns a copy with the field replaced by `value`.
    pub fn with_ht_protection_mode(self, value: HTProtectionMode) -> (r: Self)
        ensures
            r.0 == set_bits_u64(self.0, 8, 0x3, (value.spec_into_bits() as u64)),
            r.spec_ht_protection_mode() == HTProtectionMode::spec_from_bits(((value.spec_into_bits() as u64) & 0x3) as u8),
            r.spec_secondary_channel_offset() == self.spec_secondary_channel_offset(),
            r.spec_any_channel_width() == self.spec_any_channel_width(),
            r.spec_rifs_permitted() == self.spec_rifs_permitted(),
            r.spec_nongreenfield_ht_sta_present() == self.spec_nongreenfield_ht_sta_present(),
            r.spec_obss_non_ht_sta_present() == self.spec_obss_non_ht_sta_present(),
            r.spec_channel_center_frequency_segment_2() == self.spec_channel_center_frequency_segment_2(),
            r.spec_dual_beacon() == self.spec_dual_beacon(),
            r.spec_dual_cts_protection() == self.spec_dual_cts_protection(),
            r.spec_stbc_beacon() == self.spec_stbc_beacon(),
    {
        let v: u64 = value.into_bits() as u64;
        proof {
            Self::lemma_masks_fit();
            lemma_set_bits_u64(self.0, 8, 0x3, v, 8, 0x3);
            lemma_set_bits_u64(self.0, 8, 0x3, v, 0, 0x3);
            lemma_set_bits_u64(self.0, 8, 0x3, v, 2, 0x1);
            lemma_set_bits_u64(self.0, 8, 0x3, v, 3, 0x1);
            lemma_set_bits_u64(self.0, 8, 0x3, v, 10, 0x1);
            lemma_set_bits_u64(self.0, 8, 0x3, v, 12, 0x1);
            lemma_set_bits_u64(self.0, 8, 0x3, v, 13, 0xff);
            lemma_set_bits_u64(self.0, 8, 0x3, v, 30, 0x1);
            lemma_set_bits_u64(self.0, 8, 0x3, v, 31, 0x1);
            lemma_set_bits_u64(self.0, 8, 0x3, v, 32, 0x1);
        }
        Self((self.0 & !(0x3u64 << 8u64)) | ((v & 0x3) << 8u64))
    }

    /// Non-greenfield HT STAs are present.
    pub open spec fn spec_nongreenfield_ht_sta_present(self) -> bool {
        get_bits_u64(self.0, 10, 1) == 1
    }

    /// Non-greenfield HT STAs are present.
    pub fn nongreenfield_ht_sta_present(&self) -> (r: bool)
        ensures
            r == self.spec_nongreenfield_ht_sta_present(),
    {
        (self.0 >> 10) & 1 == 1
    }

    /// Returns a copy with the field replaced by `value`.
    pub fn with_nongreenfield_ht_sta_present(self, value: bool) -> (r: Self)
        ensures
            r.0 == set_bits_u64(self.0, 10, 0x1, (if value {
                1u64
            } else {
                0u64
            })),
            r.spec_nongreenfield_ht_sta_present() == value,
            r.spec_secondary_channel_offset() == self.spec_secondary_channel_offset(),
            r.spec_any_channel_width() == self.spec_any_channel_width(),
            r.spec_rifs_permitted() == self.spec_rifs_permitted(),
            r.spec_ht_protection_mode() == self.spec_ht_protection_mode(),
            r.spec_obss_non_ht_sta_present() == self.spec_obss_non_ht_sta_present(),
            r.spec_channel_center_frequency_segment_2() == self.spec_channel_center_frequency_segment_2(),
            r.spec_dual_beacon() == self.spec_dual_beacon(),
            r.spec_dual_cts_protection() == self.spec_dual_cts_protection(),
            r.spec_stbc_beacon() == self.spec_stbc_beacon(),
    {
        let v: u64 = if value {
            1
        } else {
            0
        };
        proof {
            Self::lemma_masks_fit();
            lemma_set_bits_u64(self.0, 10, 0x1, v, 10, 0x1);
            lemma_set_bits_u64(self.0, 10, 0x1, v, 0, 0x3);
            lemma_set_bits_u64(self.0, 10, 0x1, v, 2, 0x1);
            lemma_set_bits_u64(self.0, 10, 0x1, v, 3, 0x1);
            lemma_set_bits_u64(self.0, 10, 0x1, v, 8, 0x3);
            lemma_set_bits_u64(self.0, 10, 0x1, v, 12, 0x1);
            lemma_set_bits_u64(self.0, 10, 0x1, v, 13, 0xff);
            lemma_set_bits_u64(self.0, 10, 0x1, v, 30, 0x1);
            lemma_set_bits_u64(self.0, 10, 0x1, v, 31, 0x1);
            lemma_set_bits_u64(self.0, 10, 0x1, v, 32, 0x1);
        }
        Self((self.0 & !(0x1u64 << 10u64)) | ((v & 0x1) << 10u64))
    }

    /// Non-HT STAs are present in an overlapping BSS.
    pub open spec fn spec_obss_non_ht_sta_present(self) -> bool {
        get_bits_u64(self.0, 12, 1) == 1
    }

    /// Non-HT STAs are present in an overlapping BSS.
    pub fn obss_non_ht_sta_present(&self) -> (r: bool)
        ensures
            r == self.spec_obss_non_ht_sta_present(),
    {
        (self.0 >> 12) & 1 == 1
    }

    /// Returns a copy with the field replaced by `value`.
    pub fn with_obss_non_ht_sta_present(self, value: bool) -> (r: Self)
        ensures
            r.0 == set_bits_u64(self.0, 12, 0x1, (if value {
                1u64
            } else {
                0u64
            })),
            r.spec_obss_non_ht_sta_present() == value,
            r.spec_secondary_channel_offset() == self.spec_secondary_channel_offset(),
            r.spec_any_channel_width() == self.spec_any_channel_width(),
            r.spec_rifs_permitted() == self.spec_rifs_permitted(),
            r.spec_ht_protection_mode() == self.spec_ht_protection_mode(),
            r.spec_nongreenfield_ht_sta_present() == self.spec_nongreenfield_ht_sta_present(),
            r.spec_channel_center_frequency_segment_2() == self.spec_channel_center_frequency_segment_2(),
            r.spec_dual_beacon() == self.spec_dual_beacon(),
            r.spec_dual_cts_protection() == self.spec_dual_cts_protection(),
            r.spec_stbc_beacon() == self.spec_stbc_beacon(),
    {
        let v: u64 = if value {
            1
        } else {
            0
        };
        proof {
            Self::lemma_masks_fit();
            lemma_set_bits_u64(self.0, 12, 0x1, v, 12, 0x1);
            lemma_set_bits_u64(self.0, 12, 0x1, v, 0, 0x3);
            lemma_set_bits_u64(self.0, 12, 0x1, v, 2, 0x1);
            lemma_set_bits_u64(self.0, 12, 0x1, v, 3, 0x1);
            lemma_set_bits_u64(self.0, 12, 0x1, v, 8, 0x3);
            lemma_set_bits_u64(self.0, 12, 0x1, v, 10, 0x1);
            lemma_set_bits_u64(self.0, 12, 0x1, v, 13, 0xff);
            lemma_set_bits_u64(self.0, 12, 0x1, v, 30, 0x1);
            lemma_set_bits_u64(self.0, 12, 0x1, v, 31, 0x1);
            lemma_set_bits_u64(self.0, 12, 0x1, v, 32, 0x1);
        }
        Self((self.0 & !(0x1u64 << 12u64)) | ((v & 0x1) << 12u64))
    }

    /// The channel center frequency segment two.
    pub open spec fn spec_channel_center_frequency_segment_2(self) -> u8 {
        get_bits_u64(self.0, 13, 0xff) as u8
    }

    /// The channel center frequency segment two.
    pub fn channel_center_frequency_segment_2(&self) -> (r: u8)
        ensures
            r == self.spec_channel_center_frequency_segment_2(),
    {
        ((self.0 >> 13) & 0xff) as u8
    }

    /// Returns a copy with the field replaced by `value`.
    pub fn with_channel_center_frequency_segment_2(self, value: u8) -> (r: Self)
        ensures
            r.0 == set_bits_u64(self.0, 13, 0xff, (value as u64)),
            r.spec_channel_center_frequency_segment_2() == ((value as u64) & 0xff) as u8,
            r.spec_secondary_channel_offset() == self.spec_secondary_channel_offset(),
            r.spec_any_channel_width() == self.spec_any_channel_width(),
            r.spec_rifs_permitted() == self.spec_rifs_permitted(),
            r.spec_ht_protection_mode() == self.spec_ht_protection_mode(),
            r.spec_nongreenfield_ht_sta_present() == self.spec_nongreenfield_ht_sta_present(),
            r.spec_obss_non_ht_sta_present() == self.spec_obss_non_ht_sta_present(),
            r.spec_dual_beacon() == self.spec_dual_beacon(),
            r.spec_dual_cts_protection() == self.spec_dual_cts_protection(),
            r.spec_stbc_beacon() == self.spec_stbc_beacon(),
    {
        let v: u64 = value as u64;
        proof {
            Self::lemma_masks_fit();
            lemma_set_bits_u64(self.0, 13, 0xff, v, 13, 0xff);
            lemma_set_bits_u64(self.0, 13, 0xff, v, 0, 0x3);
            lemma_set_bits_u64(self.0, 13, 0xff, v, 2, 0x1);
            lemma_set_bits_u64(self.0, 13, 0xff, v, 3, 0x1);
            lemma_set_bits_u64(self.0, 13, 0xff, v, 8, 0x3);
            lemma_set_bits_u64(self.0, 13, 0xff, v, 10, 0x1);
            lemma_set_bits_u64(self.0, 13, 0xff, v, 12, 0x1);
            lemma_set_bits_u64(self.0, 13, 0xff, v, 30, 0x1);
            lemma_set_bits_u64(self.0, 13, 0xff, v, 31, 0x1);
            lemma_set_bits_u64(self.0, 13, 0xff, v, 32, 0x1);
        }
        Self((self.0 & !(0xffu64 << 13u64)) | ((v & 0xff) << 13u64))
    }

    /// A secondary beacon is transmitted.
    pub open spec fn spec_dual_beacon(self) -> bool {
        get_bits_u64(self.0, 30, 1) == 1
    }

    /// A secondary beacon is transmitted.
    pub fn dual_beacon(&self) -> (r: bool)
        ensures
            r == self.spec_dual_beacon(),
    {
        (self.0 >> 30) & 1 == 1
    }

    /// Returns a copy with the field replaced by `value`.
    pub fn with_dual_beacon(self, value: bool) -> (r: Self)
        ensures
            r.0 == set_bits_u64(self.0, 30, 0x1, (if value {
                1u64
            } else {
                0u64
            })),
            r.spec_dual_beacon() == value,
            r.spec_secondary_channel_offset() == self.spec_secondary_channel_offset(),
            r.spec_any_channel_width() == self.spec_any_channel_width(),
            r.spec_rifs_permitted() == self.spec_rifs_permitted(),
            r.spec_ht_protection_mode() == self.spec_ht_protection_mode(),
            r.spec_nongreenfield_ht_sta_present() == self.spec_nongreenfield_ht_sta_present(),
            r.spec_obss_non_ht_sta_present() == self.spec_obss_non_ht_sta_present(),
            r.spec_channel_center_frequency_segment_2() == self.spec_channel_center_frequency_segment_2(),
            r.spec_dual_cts_protection() == self.spec_dual_cts_protection(),
            r.spec_stbc_beacon() == self.spec_stbc_beacon(),
    {
        let v: u64 = if value {
            1
        } else {
            0
        };
        proof {
            Self::lemma_masks_fit();
            lemma_set_bits_u64(self.0, 30, 0x1, v, 30, 0x1);
            lemma_set_bits_u64(self.0, 30, 0x1, v, 0, 0x3);
            lemma_set_bits_u64(self.0, 30, 0x1, v, 2, 0x1);
            lemma_set_bits_u64(self.0, 30, 0x1, v, 3, 0x1);
            lemma_set_bits_u64(self.0, 30, 0x1, v, 8, 0x3);
            lemma_set_bits_u64(self.0, 30, 0x1, v, 10, 0x1);
            lemma_set_bits_u64(self.0, 30, 0x1, v, 12, 0x1);
            lemma_set_bits_u64(self.0, 30, 0x1, v, 13, 0xff);
            lemma_set_bits_u64(self.0, 30, 0x1, v, 31, 0x1);
            lemma_set_bits_u64(self.0, 30, 0x1, v, 32, 0x1);
        }
        Self((self.0 & !(0x1u64 << 30u64)) | ((v & 0x1) << 30u64))
    }

    /// Dual CTS protection is used.
    pub open spec fn spec_dual_cts_protection(self) -> bool {
        get_bits_u64(self.0, 31, 1) == 1
    }

    /// Dual CTS protection is used.
    pub fn dual_cts_protection(&self) -> (r: bool)
        ensures
            r == self.spec_dual_cts_protection(),
    {
        (self.0 >> 31) & 1 == 1
    }

    /// Returns a copy with the field replaced by `value`.
    pub fn with_dual_cts_protection(self, value: bool) -> (r: Self)
        ensures
            r.0 == set_bits_u64(self.0, 31, 0x1, (if value {
                1u64
            } else {
                0u64
            })),
            r.spec_dual_cts_protection() == value,
            r.spec_secondary_channel_offset() == self.spec_secondary_channel_offset(),
            r.spec_any_channel_width() == self.spec_any_channel_width(),
            r.spec_rifs_permitted() == self.spec_rifs_permitted(),
            r.spec_ht_protection_mode() == self.spec_ht_protection_mode(),
            r.spec_nongreenfield_ht_sta_present() == self.spec_nongreenfield_ht_sta_present(),
            r.spec_obss_non_ht_sta_present() == self.spec_obss_non_ht_sta_present(),
            r.spec_channel_center_frequency_segment_2() == self.spec_channel_center_frequency_segment_2(),
            r.spec_dual_beacon() == self.spec_dual_beacon(),
            r.spec_stbc_beacon() == self.spec_stbc_beacon(),
    {
        let v: u64 = if value {
            1
        } else {
            0
        };
        proof {
            Self::lemma_masks_fit();
            lemma_set_bits_u64(self.0, 31, 0x1, v, 31, 0x1);
            lemma_set_bits_u64(self.0, 31, 0x1, v, 0, 0x3);
            lemma_set_bits_u64(self.0, 31, 0x1, v, 2, 0x1);
            lemma_set_bits_u64(self.0, 31, 0x1, v, 3, 0x1);
            lemma_set_bits_u64(self.0, 31, 0x1, v, 8, 0x3);
            lemma_set_bits_u64(self.0, 31, 0x1, v, 10, 0x1);
            lemma_set_bits_u64(self.0, 31, 0x1, v, 12, 0x1);
            lemma_set_bits_u64(self.0, 31, 0x1, v, 13, 0xff);
            lemma_set_bits_u64(self.0, 31, 0x1, v, 30, 0x1);
            lemma_set_bits_u64(self.0, 31, 0x1, v, 32, 0x1);
        }
        Self((self.0 & !(0x1u64 << 31u64)) | ((v & 0x1) << 31u64))
    }

    /// The beacon is a STBC beacon.
    pub open spec fn spec_stbc_beacon(self) -> bool {
        get_bits_u64(self.0, 32, 1) == 1
    }

    /// The beacon is a STBC beacon.
    pub fn stbc_beacon(&self) -> (r: bool)
        ensures
            r == self.spec_stbc_beacon(),
    {
        (self.0 >> 32) & 1 == 1
    }

    /// Returns a copy with the field replaced by `value`.
    pub fn with_stbc_beacon(self, value: bool) -> (r: Self)
        ensures
            r.0 == set_bits_u64(self.0, 32, 0x1, (if value {
                1u64
            } else {
                0u64
            })),
            r.spec_stbc_beacon() == value,
            r.spec_secondary_channel_offset() == self.spec_secondary_channel_offset(),
            r.spec_any_channel_width() == self.spec_any_channel_width(),
            r.spec_rifs_permitted() == self.spec_rifs_permitted(),
            r.spec_ht_protection_mode() == self.spec_ht_protection_mode(),
            r.spec_nongreenfield_ht_sta_present() == self.spec_nongreenfield_ht_sta_present(),
            r.spec_obss_non_ht_sta_present() == self.spec_obss_non_ht_sta_present(),
            r.spec_channel_center_frequency_segment_2() == self.spec_channel_center_frequency_segment_2(),
            r.spec_dual_beacon() == self.spec_dual_beacon(),
            r.spec_dual_cts_protection() == self.spec_dual_cts_protection(),
    {
        let v: u64 = if value {
            1
        } else {
            0
        };
        proof {
            Self::lemma_masks_fit();
            lemma_set_bits_u64(self.0, 32, 0x1, v, 32, 0x1);
            lemma_set_bits_u64(self.0, 32, 0x1, v, 0, 0x3);
            lemma_set_bits_u64(self.0, 32, 0x1, v, 2, 0x1);
            lemma_set_bits_u64(self.0, 32, 0x1, v, 3, 0x1);
            lemma_set_bits_u64(self.0, 32, 0x1, v, 8, 0x3);
            lemma_set_bits_u64(self.0, 32, 0x1, v, 10, 0x1);
            lemma_set_bits_u64(self.0, 32, 0x1, v, 12, 0x1);
            lemma_set_bits_u64(self.0, 32, 0x1, v, 13, 0xff);
            lemma_set_bits_u64(self.0, 32, 0x1, v, 30, 0x1);
            lemma_set_bits_u64(self.0, 32, 0x1, v, 31, 0x1);
        }
        Self((self.0 & !(0x1u64 << 32u64)) | ((v & 0x1) << 32u64))
    }
}

/// The HT operation element describes the operation of the HT STAs in a BSS.
#[derive(Clone, Copy, Debug, PartialEq, Eq, Hash)]
pub struct HTOperationElement {
    /// The primary channel.
    pub primary_channel: u8,
    /// The HT operation information.
    pub ht_operation_information: HTOperationInformation,
    /// The MCS set supported by all HT STAs in the BSS.
    pub basic_ht_mcs_set: SupportedMCSSet,
}

/// The serialized HT operation element: the primary channel, the five low-order bytes of the
/// operation information, least significant first, and the MCS set.
pub open spec fn ht_operation_bytes(e: HTOperationElement) -> Seq<u8> {
    let info = e.ht_operation_information.0;
    seq![e.primary_channel] + u32_le_bytes((info % 0x1_0000_0000) as u32) + seq![
        ((info / 0x1_0000_0000) % 256) as u8,
    ] + mcs_set_bytes(e.basic_ht_mcs_set)
}

/// The operation information read from five bytes at `o`, least significant first.
pub open spec fn five_bytes_le(s: Seq<u8>, o: int) -> u64 {
    (le_u32(s, o) + s[o + 4] * 0x1_0000_0000) as u64
}

impl HTOperationElement {

    /// The length of the serialized element.
    pub fn measure_with(&self) -> (r: usize)
        ensures
            r == 22,
    {
        22
    }

    /// Read the element: the primary channel, five bytes of operation information, least
    /// significant first, and the MCS set.
    pub fn try_from_ctx(from: &[u8]) -> (r: Result<(Self, usize), Error>)
        ensures
            from@.len() < 20 ==> r == Err::<(Self, usize), Error>(Error::TooShort),
            from@.len() >= 20 ==> (r matches Ok((e, n)) && n == 22 && e.primary_channel == from@[0]
                && e.ht_operation_information.0 == five_bytes_le(from@, 1)
                && e.basic_ht_mcs_set.supported_rx_mcs_set@ == from@.subrange(6, 16)
                && e.basic_ht_mcs_set.supported_rx_mcs_set_flags.0 == le_u32(from@, 16)),
    {
        if from.len() < 20 {
            return Err(Error::TooShort);
        }
        let primary_channel = from[0];
        let info = (read_u32_le(from, 1) as u64) + (from[5] as u64) * 0x1_0000_0000;
        let mcs = crate::common::wire::slice_range(from, 6, from.len());
        let (basic_ht_mcs_set, _) = match SupportedMCSSet::try_from_ctx(mcs) {
            Ok(x) => x,
            Err(e) => {
                return Err(e);
            },
        };
        assert(mcs@.take(10) =~= from@.subrange(6, 16));
        assert(mcs@.subrange(10, 14) =~= from@.subrange(16, 20));
        assert(le_u32(mcs@, 10) == le_u32(from@, 16));
        Ok(
            (
                HTOperationElement {
                    primary_channel,
                    ht_operation_information: HTOperationInformation::from_bits(info),
                    basic_ht_mcs_set,
                },
                22,
            ),
        )
    }

    /// The serialized element.
    pub fn to_bytes(&self) -> (r: Vec<u8>)
        ensures
            r@ == ht_operation_bytes(*self),
    {
        let mut out: Vec<u8> = Vec::new();
        out.push(self.primary_channel);
        let info = self.ht_operation_information.into_bits();
        push_u32_le(&mut out, (info % 0x1_0000_0000) as u32);
        out.push(((info / 0x1_0000_0000) % 256) as u8);
        self.basic_ht_mcs_set.push_to(&mut out);
        out
    }

    /// Write the element to the start of `buf`.
    pub fn try_into_ctx(&self, buf: &mut [u8]) -> (r: Result<usize, Error>)
        ensures
            final(buf)@.len() == old(buf)@.len(),
            22 <= old(buf)@.len() ==> r == Ok::<usize, Error>(22) && final(buf)@ == ht_operation_bytes(
                *self,
            ) + old(buf)@.skip(22),
            22 > old(buf)@.len() ==> r == Err::<usize, Error>(Error::TooShort),
    {
        let bytes = self.to_bytes();
        write_all(buf, bytes.as_slice())
    }
}

/// Reading a written HT operation element gives back its primary channel, its MCS set, and
/// the five low-order bytes of its operation information, which is all of it when it fits in
/// forty bits.
pub proof fn lemma_ht_operation_roundtrip(e: HTOperationElement, rest: Seq<u8>)
    ensures
        ({
            let s = ht_operation_bytes(e) + rest;
            &&& s.len() >= 22
            &&& s[0] == e.primary_channel
            &&& s.subrange(6, 16) == e.basic_ht_mcs_set.supported_rx_mcs_set@
            &&& le_u32(s, 16) == e.basic_ht_mcs_set.supported_rx_mcs_set_flags.0
            &&& five_bytes_le(s, 1) == e.ht_operation_information.0 % 0x100_0000_0000
        }),
        e.ht_operation_information.0 < 0x100_0000_0000 ==> five_bytes_le(ht_operation_bytes(e) + rest, 1)
            == e.ht_operation_information.0,
{
    let s = ht_operation_bytes(e) + rest;
    let m = e.basic_ht_mcs_set;
    let info = e.ht_operation_information.0;
    let lo = (info % 0x1_0000_0000) as u32;
    assert(s.subrange(1, 5) =~= u32_le_bytes(lo));
    lemma_u32_at(s, 1, lo);
    assert(s[5] == ((info / 0x1_0000_0000) % 256) as u8);
    assert(info % 0x1_0000_0000 + ((info / 0x1_0000_0000) % 256) * 0x1_0000_0000 == info
        % 0x100_0000_0000) by (nonlinear_arith);
    assert(s.subrange(6, 16) =~= m.supported_rx_mcs_set@);
    assert(s.subrange(16, 20) =~= u32_le_bytes(m.supported_rx_mcs_set_flags.0));
    lemma_u32_at(s, 16, m.supported_rx_mcs_set_flags.0);
}

/// The spatial multiplexing power save mode.
#[derive(Clone, Copy, Debug, PartialEq, Eq, Hash, Structural)]
pub enum SmPwSave {
    Static,
    Dynamic,
    Reserved,
    Disabled,
    /// A value without a name.
    Unknown(u8),
}

impl SmPwSave {
    /// The variant that `value` encodes.
    pub open spec fn spec_from_bits(value: u8) -> Self {
        match value {
            0 => SmPwSave::Static,
            1 => SmPwSave::Dynamic,
            2 => SmPwSave::Reserved,
            3 => SmPwSave::Disabled,
            x => SmPwSave::Unknown(x),
        }
    }

    /// The encoding of this variant.
    pub open spec fn spec_into_bits(self) -> u8 {
        match self {
            SmPwSave::Static => 0,
            SmPwSave::Dynamic => 1,
            SmPwSave::Reserved => 2,
            SmPwSave::Disabled => 3,
            SmPwSave::Unknown(x) => x,
        }
    }

    /// Decode a variant from its representation.
    pub fn from_bits(value: u8) -> (r: Self)
        ensures
            r == Self::spec_from_bits(value),
            r.spec_into_bits() == value,
    {
        match value {
            0 => SmPwSave::Static,
            1 => SmPwSave::Dynamic,
            2 => SmPwSave::Reserved,
            3 => SmPwSave::Disabled,
            x => SmPwSave::Unknown(x),
        }
    }

    /// Encode this variant.
    pub fn into_bits(self) -> (r: u8)
        ensures
            r == self.spec_into_bits(),
    {
        match self {
            SmPwSave::Static => 0,
            SmPwSave::Dynamic => 1,
            SmPwSave::Reserved => 2,
            SmPwSave::Disabled => 3,
            SmPwSave::Unknown(x) => x,
        }
    }
}

impl Default for SmPwSave {
    fn default() -> (r: Self)
        ensures
            r == SmPwSave::Disabled,
    {
        SmPwSave::Disabled
    }
}

/// The maximum length of an A-MPDU.
#[derive(Clone, Copy, Debug, PartialEq, Eq, Hash, Structural)]
pub enum MAXAMpduLength {
    Small,
    Medium,
    Large,
    VeryLarge,
    /// A value without a name.
    Unknown(u8),
}

impl MAXAMpduLength {
    /// The variant that `value` encodes.
    pub open spec fn spec_from_bits(value: u8) -> Self {
        match value {
            0 => MAXAMpduLength::Small,
            1 => MAXAMpduLength::Medium,
            2 => MAXAMpduLength::Large,
            3 => MAXAMpduLength::VeryLarge,
            x => MAXAMpduLength::Unknown(x),
        }
    }

    /// The encoding of this variant.
    pub open spec fn spec_into_bits(self) -> u8 {
        match self {
            MAXAMpduLength::Small => 0,
            MAXAMpduLength::Medium => 1,
            MAXAMpduLength::Large => 2,
            MAXAMpduLength::VeryLarge => 3,
            MAXAMpduLength::Unknown(x) => x,
        }
    }

    /// Decode a variant from its representation.
    pub fn from_bits(value: u8) -> (r: Self)
        ensures
            r == Self::spec_from_bits(value),
            r.spec_into_bits() == value,
    {
        match value {
            0 => MAXAMpduLength::Small,
            1 => MAXAMpduLength::Medium,
            2 => MAXAMpduLength::Large,
            3 => MAXAMpduLength::VeryLarge,
            x => MAXAMpduLength::Unknown(x),
        }
    }

    /// Encode this variant.
    pub fn into_bits(self) -> (r: u8)
        ensures
            r == self.spec_into_bits(),
    {
        match self {
            MAXAMpduLength::Small => 0,
            MAXAMpduLength::Medium => 1,
            MAXAMpduLength::Large => 2,
            MAXAMpduLength::VeryLarge => 3,
            MAXAMpduLength::Unknown(x) => x,
        }
    }
}

impl Default for MAXAMpduLength {
    fn default() -> (r: Self)
        ensures
            r == MAXAMpduLength::Small,
    {
        MAXAMpduLength::Small
    }
}

/// The minimum spacing between MPDUs in an A-MPDU, in microseconds.
#[derive(Clone, Copy, Debug, PartialEq, Eq, Hash, Structural)]
pub enum MpduDensity {
    NoRestriction,
    Quarter,
    Half,
    One,
    Two,
    Four,
    Eight,
    Sixteen,
    /// A value without a name.
    Unknown(u8),
}

impl MpduDensity {
    /// The variant that `value` encodes.
    pub open spec fn spec_from_bits(value: u8) -> Self {
        match value {
            0 => MpduDensity::NoRestriction,
            1 => MpduDensity::Quarter,
            2 => MpduDensity::Half,
            3 => MpduDensity::One,
            4 => MpduDensity::Two,
            5 => MpduDensity::Four,
            6 => MpduDensity::Eight,
            7 => MpduDensity::Sixteen,
            x => MpduDensity::Unknown(x),
        }
    }

    /// The encoding of this variant.
    pub open spec fn spec_into_bits(self) -> u8 {
        match self {
            MpduDensity::NoRestriction => 0,
            MpduDensity::Quarter => 1,
            MpduDensity::Half => 2,
            MpduDensity::One => 3,
            MpduDensity::Two => 4,
            MpduDensity::Four => 5,
            MpduDensity::Eight => 6,
            MpduDensity::Sixteen => 7,
            MpduDensity::Unknown(x) => x,
        }
    }

    /// Decode a variant from its representation.
    pub fn from_bits(value: u8) -> (r: Self)
        ensures
            r == Self::spec_from_bits(value),
            r.spec_into_bits() == value,
    {
        match value {
            0 => MpduDensity::NoRestriction,
            1 => MpduDensity::Quarter,
            2 => MpduDensity::Half,
            3 => MpduDensity::One,
            4 => MpduDensity::Two,
            5 => MpduDensity::Four,
            6 => MpduDensity::Eight,
            7 => MpduDensity::Sixteen,
            x => MpduDensity::Unknown(x),
        }
    }

    /// Encode this variant.
    pub fn into_bits(self) -> (r: u8)
        ensures
            r == self.spec_into_bits(),
    {
        match self {
            MpduDensity::NoRestriction => 0,
            MpduDensity::Quarter => 1,
            MpduDensity::Half => 2,
            MpduDensity::One => 3,
            MpduDensity::Two => 4,
            MpduDensity::Four => 5,
            MpduDensity::Eight => 6,
            MpduDensity::Sixteen => 7,
            MpduDensity::Unknown(x) => x,
        }
    }
}

impl Default for MpduDensity {
    fn default() -> (r: Self)
        ensures
            r == MpduDensity::NoRestriction,
    {
        MpduDensity::NoRestriction
    }
}

/// The transition time of the phased coexistence operation.
#[derive(Clone, Copy, Debug, PartialEq, Eq, Hash, Structural)]
pub enum PCOTransitionTime {
    NoTransition,
    FourHundredMicroSeconds,
    OnePointFiveMilliSeconds,
    FiveMilliSeconds,
    /// A value without a name.
    Unknown(u8),
}

impl PCOTransitionTime {
    /// The variant that `value` encodes.
    pub open spec fn spec_from_bits(value: u8) -> Self {
        match value {
            0 => PCOTransitionTime::NoTransition,
            1 => PCOTransitionTime::FourHundredMicroSeconds,
            2 => PCOTransitionTime::OnePointFiveMilliSeconds,
            3 => PCOTransitionTime::FiveMilliSeconds,
            x => PCOTransitionTime::Unknown(x),
        }
    }

    /// The encoding of this variant.
    pub open spec fn spec_into_bits(self) -> u8 {
        match self {
            PCOTransitionTime::NoTransition => 0,
            PCOTransitionTime::FourHundredMicroSeconds => 1,
            PCOTransitionTime::OnePointFiveMilliSeconds => 2,
            PCOTransitionTime::FiveMilliSeconds => 3,
            PCOTransitionTime::Unknown(x) => x,
        }
    }

    /// Decode a variant from its representation.
    pub fn from_bits(value: u8) -> (r: Self)
        ensures
            r == Self::spec_from_bits(value),
            r.spec_into_bits() == value,
    {
        match value {
            0 => PCOTransitionTime::NoTransition,
            1 => PCOTransitionTime::FourHundredMicroSeconds,
            2 => PCOTransitionTime::OnePointFiveMilliSeconds,
            3 => PCOTransitionTime::FiveMilliSeconds,
            x => PCOTransitionTime::Unknown(x),
        }
    }

    /// Encode this variant.
    pub fn into_bits(self) -> (r: u8)
        ensures
            r == self.spec_into_bits(),
    {
        match self {
            PCOTransitionTime::NoTransition => 0,
            PCOTransitionTime::FourHundredMicroSeconds => 1,
            PCOTransitionTime::OnePointFiveMilliSeconds => 2,
            PCOTransitionTime::FiveMilliSeconds => 3,
            PCOTransitionTime::Unknown(x) => x,
        }
    }
}

impl Default for PCOTransitionTime {
    fn default() -> (r: Self)
        ensures
            r == PCOTransitionTime::NoTransition,
    {
        PCOTransitionTime::NoTransition
    }
}

/// The beamforming calibration support.
#[derive(Clone, Copy, Debug, PartialEq, Eq, Hash, Structural)]
pub enum BeamformingCalibration {
    NotSupported,
    CanRespondButCantInitiate,
    Reserved,
    CanRespondAndInitiate,
    /// A value without a name.
    Unknown(u8),
}

impl BeamformingCalibration {
    /// The variant that `value` encodes.
    pub open spec fn spec_from_bits(value: u8) -> Self {
        match value {
            0 => BeamformingCalibration::NotSupported,
            1 => BeamformingCalibration::CanRespondButCantInitiate,
            2 => BeamformingCalibration::Reserved,
            3 => BeamformingCalibration::CanRespondAndInitiate,
            x => BeamformingCalibration::Unknown(x),
        }
    }

    /// The encoding of this variant.
    pub open spec fn spec_into_bits(self) -> u8 {
        match self {
            BeamformingCalibration::NotSupported => 0,
            BeamformingCalibration::CanRespondButCantInitiate => 1,
            BeamformingCalibration::Reserved => 2,
            BeamformingCalibration::CanRespondAndInitiate => 3,
            BeamformingCalibration::Unknown(x) => x,
        }
    }

    /// Decode a variant from its representation.
    pub fn from_bits(value: u8) -> (r: Self)
        ensures
            r == Self::spec_from_bits(value),
            r.spec_into_bits() == value,
    {
        match value {
            0 => BeamformingCalibration::NotSupported,
            1 => BeamformingCalibration::CanRespondButCantInitiate,
            2 => BeamformingCalibration::Reserved,
            3 => BeamformingCalibration::CanRespondAndInitiate,
            x => BeamformingCalibration::Unknown(x),
        }
    }

    /// Encode this variant.
    pub fn into_bits(self) -> (r: u8)
        ensures
            r == self.spec_into_bits(),
    {
        match self {
            BeamformingCalibration::NotSupported => 0,
            BeamformingCalibration::CanRespondButCantInitiate => 1,
            BeamformingCalibration::Reserved => 2,
            BeamformingCalibration::CanRespondAndInitiate => 3,
            BeamformingCalibration::Unknown(x) => x,
        }
    }
}

impl Default for BeamformingCalibration {
    fn default() -> (r: Self)
        ensures
            r == BeamformingCalibration::NotSupported,
    {
        BeamformingCalibration::NotSupported
    }
}

/// The beamforming feedback support.
#[derive(Clone, Copy, Debug, PartialEq, Eq, Hash, Structural)]
pub enum BeamformingFeedback {
    NotSupported,
    DelayedFeedback,
    ImmediateFeedback,
    DelayedAndImmediateFeedback,
    /// A value without a name.
    Unknown(u8),
}

impl BeamformingFeedback {
    /// The variant that `value` encodes.
    pub open spec fn spec_from_bits(value: u8) -> Self {
        match value {
            0 => BeamformingFeedback::NotSupported,
            1 => BeamformingFeedback::DelayedFeedback,
            2 => BeamformingFeedback::ImmediateFeedback,
            3 => BeamformingFeedback::DelayedAndImmediateFeedback,
            x => BeamformingFeedback::Unknown(x),
        }
    }

    /// The encoding of this variant.
    pub open spec fn spec_into_bits(self) -> u8 {
        match self {
            BeamformingFeedback::NotSupported => 0,
            BeamformingFeedback::DelayedFeedback => 1,
            BeamformingFeedback::ImmediateFeedback => 2,
            BeamformingFeedback::DelayedAndImmediateFeedback => 3,
            BeamformingFeedback::Unknown(x) => x,
        }
    }

    /// Decode a variant from its representation.
    pub fn from_bits(value: u8) -> (r: Self)
        ensures
            r == Self::spec_from_bits(value),
            r.spec_into_bits() == value,
    {
        match value {
            0 => BeamformingFeedback::NotSupported,
            1 => BeamformingFeedback::DelayedFeedback,
            2 => BeamformingFeedback::ImmediateFeedback,
            3 => BeamformingFeedback::DelayedAndImmediateFeedback,
            x => BeamformingFeedback::Unknown(x),
        }
    }

    /// Encode this variant.
    pub fn into_bits(self) -> (r: u8)
        ensures
            r == self.spec_into_bits(),
    {
        match self {
            BeamformingFeedback::NotSupported => 0,
            BeamformingFeedback::DelayedFeedback => 1,
            BeamformingFeedback::ImmediateFeedback => 2,
            BeamformingFeedback::DelayedAndImmediateFeedback => 3,
            BeamformingFeedback::Unknown(x) => x,
        }
    }
}

impl Default for BeamformingFeedback {
    fn default() -> (r: Self)
        ensures
            r == BeamformingFeedback::NotSupported,
    {
        BeamformingFeedback::NotSupported
    }
}

/// The grouping capability.
#[derive(Clone, Copy, Debug, PartialEq, Eq, Hash, Structural)]
pub enum GroupingCapability {
    NoGrouping,
    GroupsOfTwo,
    GroupsOfFour,
    GroupsOfTwoAndFour,
    /// A value without a name.
    Unknown(u8),
}

impl GroupingCapability {
    /// The variant that `value` encodes.
    pub open spec fn spec_from_bits(value: u8) -> Self {
        match value {
            0 => GroupingCapability::NoGrouping,
            1 => GroupingCapability::GroupsOfTwo,
            2 => GroupingCapability::GroupsOfFour,
            3 => GroupingCapability::GroupsOfTwoAndFour,
            x => GroupingCapability::Unknown(x),
        }
    }

    /// The encoding of this variant.
    pub open spec fn spec_into_bits(self) -> u8 {
        match self {
            GroupingCapability::NoGrouping => 0,
            GroupingCapability::GroupsOfTwo => 1,
            GroupingCapability::GroupsOfFour => 2,
            GroupingCapability::GroupsOfTwoAndFour => 3,
            GroupingCapability::Unknown(x) => x,
        }
    }

    /// Decode a variant from its representation.
    pub fn from_bits(value: u8) -> (r: Self)
        ensures
            r == Self::spec_from_bits(value),
            r.spec_into_bits() == value,
    {
        match value {
            0 => GroupingCapability::NoGrouping,
            1 => GroupingCapability::GroupsOfTwo,
            2 => GroupingCapability::GroupsOfFour,
            3 => GroupingCapability::GroupsOfTwoAndFour,
            x => GroupingCapability::Unknown(x),
        }
    }

    /// Encode this variant.
    pub fn into_bits(self) -> (r: u8)
        ensures
            r == self.spec_into_bits(),
    {
        match self {
            GroupingCapability::NoGrouping => 0,
            GroupingCapability::GroupsOfTwo => 1,
            GroupingCapability::GroupsOfFour => 2,
            GroupingCapability::GroupsOfTwoAndFour => 3,
            GroupingCapability::Unknown(x) => x,
        }
    }
}

impl Default for GroupingCapability {
    fn default() -> (r: Self)
        ensures
            r == GroupingCapability::NoGrouping,
    {
        GroupingCapability::NoGrouping
    }
}

/// The HT capabilities information.
#[derive(Clone, Copy, Debug, PartialEq, Eq, Hash, Structural)]
pub struct HTCapabilitiesInfo(pub u16);

impl HTCapabilitiesInfo {
    /// A value with every field at its default.
    pub fn new() -> (r: Self)
        ensures
            r.0 == 0x0,
    {
        Self(0x0)
    }

    /// Wrap the raw bits.
    pub fn from_bits(bits: u16) -> (r: Self)
        ensures
            r.0 == bits,
    {
        Self(bits)
    }

    /// Every field mask fits in the backing integer.
    proof fn lemma_masks_fit()
        by (bit_vector)
        ensures
            fits_u16(0, 0x1),
            fits_u16(1, 0x1),
            fits_u16(2, 0x3),
            fits_u16(4, 0x1),
            fits_u16(5, 0x1),
            fits_u16(6, 0x1),
            fits_u16(7, 0x1),
            fits_u16(8, 0x3),
            fits_u16(10, 0x1),
            fits_u16(11, 0x1),
            fits_u16(12, 0x1),
            fits_u16(13, 0x1),
            fits_u16(14, 0x1),
            fits_u16(15, 0x1),
            (0x1u16 << 0u16) & (0x1u16 << 1u16) == 0,
            (0x1u16 << 1u16) & (0x1u16 << 0u16) == 0,
            (0x1u16 << 0u16) & (0x3u16 << 2u16) == 0,
            (0x3u16 << 2u16) & (0x1u16 << 0u16) == 0,
            (0x1u16 << 0u16) & (0x1u16 << 4u16) == 0,
            (0x1u16 << 4u16) & (0x1u16 << 0u16) == 0,
            (0x1u16 << 0u16) & (0x1u16 << 5u16) == 0,
            (0x1u16 << 5u16) & (0x1u16 << 0u16) == 0,
            (0x1u16 << 0u16) & (0x1u16 << 6u16) == 0,
            (0x1u16 << 6u16) & (0x1u16 << 0u16) == 0,
            (0x1u16 << 0u16) & (0x1u16 << 7u16) == 0,
            (0x1u16 << 7u16) & (0x1u16 << 0u16) == 0,
            (0x1u16 << 0u16) & (0x3u16 << 8u16) == 0,
            (0x3u16 << 8u16) & (0x1u16 << 0u16) == 0,
            (0x1u16 << 0u16) & (0x1u16 << 10u16) == 0,
            (0x1u16 << 10u16) & (0x1u16 << 0u16) == 0,
            (0x1u16 << 0u16) & (0x1u16 << 11u16) == 0,
            (0x1u16 << 11u16) & (0x1u16 << 0u16) == 0,
            (0x1u16 << 0u16) & (0x1u16 << 12u16) == 0,
            (0x1u16 << 12u16) & (0x1u16 << 0u16) == 0,
            (0x1u16 << 0u16) & (0x1u16 << 13u16) == 0,
            (0x1u16 << 13u16) & (0x1u16 << 0u16) == 0,
            (0x1u16 << 0u16) & (0x1u16 << 14u16) == 0,
            (0x1u16 << 14u16) & (0x1u16 << 0u16) == 0,
            (0x1u16 << 0u16) & (0x1u16 << 15u16) == 0,
            (0x1u16 << 15u16) & (0x1u16 << 0u16) == 0,
            (0x1u16 << 1u16) & (0x3u16 << 2u16) == 0,
            (0x3u16 << 2u16) & (0x1u16 << 1u16) == 0,
            (0x1u16 << 1u16) & (0x1u16 << 4u16) == 0,
            (0x1u16 << 4u16) & (0x1u16 << 1u16) == 0,
            (0x1u16 << 1u16) & (0x1u16 << 5u16) == 0,
            (0x1u16 << 5u16) & (0x1u16 << 1u16) == 0,
            (0x1u16 << 1u16) & (0x1u16 << 6u16) == 0,
            (0x1u16 << 6u16) & (0x1u16 << 1u16) == 0,
            (0x1u16 << 1u16) & (0x1u16 << 7u16) == 0,
            (0x1u16 << 7u16) & (0x1u16 << 1u16) == 0,
            (0x1u16 << 1u16) & (0x3u16 << 8u16) == 0,
            (0x3u16 << 8u16) & (0x1u16 << 1u16) == 0,
            (0x1u16 << 1u16) & (0x1u16 << 10u16) == 0,
            (0x1u16 << 10u16) & (0x1u16 << 1u16) == 0,
            (0x1u16 << 1u16) & (0x1u16 << 11u16) == 0,
            (0x1u16 << 11u16) & (0x1u16 << 1u16) == 0,
            (0x1u16 << 1u16) & (0x1u16 << 12u16) == 0,
            (0x1u16 << 12u16) & (0x1u16 << 1u16) == 0,
            (0x1u16 << 1u16) & (0x1u16 << 13u16) == 0,
            (0x1u16 << 13u16) & (0x1u16 << 1u16) == 0,
            (0x1u16 << 1u16) & (0x1u16 << 14u16) == 0,
            (0x1u16 << 14u16) & (0x1u16 << 1u16) == 0,
            (0x1u16 << 1u16) & (0x1u16 << 15u16) == 0,
            (0x1u16 << 15u16) & (0x1u16 << 1u16) == 0,
            (0x3u16 << 2u16) & (0x1u16 << 4u16) == 0,
            (0x1u16 << 4u16) & (0x3u16 << 2u16) == 0,
            (0x3u16 << 2u16) & (0x1u16 << 5u16) == 0,
            (0x1u16 << 5u16) & (0x3u16 << 2u16) == 0,
            (0x3u16 << 2u16) & (0x1u16 << 6u16) == 0,
            (0x1u16 << 6u16) & (0x3u16 << 2u16) == 0,
            (0x3u16 << 2u16) & (0x1u16 << 7u16) == 0,
            (0x1u16 << 7u16) & (0x3u16 << 2u16) == 0,
            (0x3u16 << 2u16) & (0x3u16 << 8u16) == 0,
            (0x3u16 << 8u16) & (0x3u16 << 2u16) == 0,
            (0x3u16 << 2u16) & (0x1u16 << 10u16) == 0,
            (0x1u16 << 10u16) & (0x3u16 << 2u16) == 0,
            (0x3u16 << 2u16) & (0x1u16 << 11u16) == 0,
            (0x1u16 << 11u16) & (0x3u16 << 2u16) == 0,
            (0x3u16 << 2u16) & (0x1u16 << 12u16) == 0,
            (0x1u16 << 12u16) & (0x3u16 << 2u16) == 0,
            (0x3u16 << 2u16) & (0x1u16 << 13u16) == 0,
            (0x1u16 << 13u16) & (0x3u16 << 2u16) == 0,
            (0x3u16 << 2u16) & (0x1u16 << 14u16) == 0,
            (0x1u16 << 14u16) & (0x3u16 << 2u16) == 0,
            (0x3u16 << 2u16) & (0x1u16 << 15u16) == 0,
            (0x1u16 << 15u16) & (0x3u16 << 2u16) == 0,
            (0x1u16 << 4u16) & (0x1u16 << 5u16) == 0,
            (0x1u16 << 5u16) & (0x1u16 << 4u16) == 0,
            (0x1u16 << 4u16) & (0x1u16 << 6u16) == 0,
            (0x1u16 << 6u16) & (0x1u16 << 4u16) == 0,
            (0x1u16 << 4u16) & (0x1u16 << 7u16) == 0,
            (0x1u16 << 7u16) & (0x1u16 << 4u16) == 0,
            (0x1u16 << 4u16) & (0x3u16 << 8u16) == 0,
            (0x3u16 << 8u16) & (0x1u16 << 4u16) == 0,
            (0x1u16 << 4u16) & (0x1u16 << 10u16) == 0,
            (0x1u16 << 10u16) & (0x1u16 << 4u16) == 0,
            (0x1u16 << 4u16) & (0x1u16 << 11u16) == 0,
            (0x1u16 << 11u16) & (0x1u16 << 4u16) == 0,
            (0x1u16 << 4u16) & (0x1u16 << 12u16) == 0,
            (0x1u16 << 12u16) & (0x1u16 << 4u16) == 0,
            (0x1u16 << 4u16) & (0x1u16 << 13u16) == 0,
            (0x1u16 << 13u16) & (0x1u16 << 4u16) == 0,
            (0x1u16 << 4u16) & (0x1u16 << 14u16) == 0,
            (0x1u16 << 14u16) & (0x1u16 << 4u16) == 0,
            (0x1u16 << 4u16) & (0x1u16 << 15u16) == 0,
            (0x1u16 << 15u16) & (0x1u16 << 4u16) == 0,
            (0x1u16 << 5u16) & (0x1u16 << 6u16) == 0,
            (0x1u16 << 6u16) & (0x1u16 << 5u16) == 0,
            (0x1u16 << 5u16) & (0x1u16 << 7u16) == 0,
            (0x1u16 << 7u16) & (0x1u16 << 5u16) == 0,
            (0x1u16 << 5u16) & (0x3u16 << 8u16) == 0,
            (0x3u16 << 8u16) & (0x1u16 << 5u16) == 0,
            (0x1u16 << 5u16) & (0x1u16 << 10u16) == 0,
            (0x1u16 << 10u16) & (0x1u16 << 5u16) == 0,
            (0x1u16 << 5u16) & (0x1u16 << 11u16) == 0,
            (0x1u16 << 11u16) & (0x1u16 << 5u16) == 0,
            (0x1u16 << 5u16) & (0x1u16 << 12u16) == 0,
            (0x1u16 << 12u16) & (0x1u16 << 5u16) == 0,
            (0x1u16 << 5u16) & (0x1u16 << 13u16) == 0,
            (0x1u16 << 13u16) & (0x1u16 << 5u16) == 0,
            (0x1u16 << 5u16) & (0x1u16 << 14u16) == 0,
            (0x1u16 << 14u16) & (0x1u16 << 5u16) == 0,
            (0x1u16 << 5u16) & (0x1u16 << 15u16) == 0,
            (0x1u16 << 15u16) & (0x1u16 << 5u16) == 0,
            (0x1u16 << 6u16) & (0x1u16 << 7u16) == 0,
            (0x1u16 << 7u16) & (0x1u16 << 6u16) == 0,
            (0x1u16 << 6u16) & (0x3u16 << 8u16) == 0,
            (0x3u16 << 8u16) & (0x1u16 << 6u16) == 0,
            (0x1u16 << 6u16) & (0x1u16 << 10u16) == 0,
            (0x1u16 << 10u16) & (0x1u16 << 6u16) == 0,
            (0x1u16 << 6u16) & (0x1u16 << 11u16) == 0,
            (0x1u16 << 11u16) & (0x1u16 << 6u16) == 0,
            (0x1u16 << 6u16) & (0x1u16 << 12u16) == 0,
            (0x1u16 << 12u16) & (0x1u16 << 6u16) == 0,
            (0x1u16 << 6u16) & (0x1u16 << 13u16) == 0,
            (0x1u16 << 13u16) & (0x1u16 << 6u16) == 0,
            (0x1u16 << 6u16) & (0x1u16 << 14u16) == 0,
            (0x1u16 << 14u16) & (0x1u16 << 6u16) == 0,
            (0x1u16 << 6u16) & (0x1u16 << 15u16) == 0,
            (0x1u16 << 15u16) & (0x1u16 << 6u16) == 0,
            (0x1u16 << 7u16) & (0x3u16 << 8u16) == 0,
            (0x3u16 << 8u16) & (0x1u16 << 7u16) == 0,
            (0x1u16 << 7u16) & (0x1u16 << 10u16) == 0,
            (0x1u16 << 10u16) & (0x1u16 << 7u16) == 0,
            (0x1u16 << 7u16) & (0x1u16 << 11u16) == 0,
            (0x1u16 << 11u16) & (0x1u16 << 7u16) == 0,
            (0x1u16 << 7u16) & (0x1u16 << 12u16) == 0,
            (0x1u16 << 12u16) & (0x1u16 << 7u16) == 0,
            (0x1u16 << 7u16) & (0x1u16 << 13u16) == 0,
            (0x1u16 << 13u16) & (0x1u16 << 7u16) == 0,
            (0x1u16 << 7u16) & (0x1u16 << 14u16) == 0,
            (0x1u16 << 14u16) & (0x1u16 << 7u16) == 0,
            (0x1u16 << 7u16) & (0x1u16 << 15u16) == 0,
            (0x1u16 << 15u16) & (0x1u16 << 7u16) == 0,
            (0x3u16 << 8u16) & (0x1u16 << 10u16) == 0,
            (0x1u16 << 10u16) & (0x3u16 << 8u16) == 0,
            (0x3u16 << 8u16) & (0x1u16 << 11u16) == 0,
            (0x1u16 << 11u16) & (0x3u16 << 8u16) == 0,
            (0x3u16 << 8u16) & (0x1u16 << 12u16) == 0,
            (0x1u16 << 12u16) & (0x3u16 << 8u16) == 0,
            (0x3u16 << 8u16) & (0x1u16 << 13u16) == 0,
            (0x1u16 << 13u16) & (0x3u16 << 8u16) == 0,
            (0x3u16 << 8u16) & (0x1u16 << 14u16) == 0,
            (0x1u16 << 14u16) & (0x3u16 << 8u16) == 0,
            (0x3u16 << 8u16) & (0x1u16 << 15u16) == 0,
            (0x1u16 << 15u16) & (0x3u16 << 8u16) == 0,
            (0x1u16 << 10u16) & (0x1u16 << 11u16) == 0,
            (0x1u16 << 11u16) & (0x1u16 << 10u16) == 0,
            (0x1u16 << 10u16) & (0x1u16 << 12u16) == 0,
            (0x1u16 << 12u16) & (0x1u16 << 10u16) == 0,
            (0x1u16 << 10u16) & (0x1u16 << 13u16) == 0,
            (0x1u16 << 13u16) & (0x1u16 << 10u16) == 0,
            (0x1u16 << 10u16) & (0x1u16 << 14u16) == 0,
            (0x1u16 << 14u16) & (0x1u16 << 10u16) == 0,
            (0x1u16 << 10u16) & (0x1u16 << 15u16) == 0,
            (0x1u16 << 15u16) & (0x1u16 << 10u16) == 0,
            (0x1u16 << 11u16) & (0x1u16 << 12u16) == 0,
            (0x1u16 << 12u16) & (0x1u16 << 11u16) == 0,
            (0x1u16 << 11u16) & (0x1u16 << 13u16) == 0,
            (0x1u16 << 13u16) & (0x1u16 << 11u16) == 0,
            (0x1u16 << 11u16) & (0x1u16 << 14u16) == 0,
            (0x1u16 << 14u16) & (0x1u16 << 11u16) == 0,
            (0x1u16 << 11u16) & (0x1u16 << 15u16) == 0,
            (0x1u16 << 15u16) & (0x1u16 << 11u16) == 0,
            (0x1u16 << 12u16) & (0x1u16 << 13u16) == 0,
            (0x1u16 << 13u16) & (0x1u16 << 12u16) == 0,
            (0x1u16 << 12u16) & (0x1u16 << 14u16) == 0,
            (0x1u16 << 14u16) & (0x1u16 << 12u16) == 0,
            (0x1u16 << 12u16) & (0x1u16 << 15u16) == 0,
            (0x1u16 << 15u16) & (0x1u16 << 12u16) == 0,
            (0x1u16 << 13u16) & (0x1u16 << 14u16) == 0,
            (0x1u16 << 14u16) & (0x1u16 << 13u16) == 0,
            (0x1u16 << 13u16) & (0x1u16 << 15u16) == 0,
            (0x1u16 << 15u16) & (0x1u16 << 13u16) == 0,
            (0x1u16 << 14u16) & (0x1u16 << 15u16) == 0,
            (0x1u16 << 15u16) & (0x1u16 << 14u16) == 0,
            1u16 & 1u16 == 1,
            0u16 & 1u16 == 0,
    {
    }

    /// The raw bits.
    pub fn into_bits(self) -> (r: u16)
        ensures
            r == self.0,
    {
        self.0
    }

    /// LDPC coding is supported.
    pub open spec fn spec_ldpc_coding_capability(self) -> bool {
        get_bits_u16(self.0, 0, 1) == 1
    }

    /// LDPC coding is supported.
    pub fn ldpc_coding_capability(&self) -> (r: bool)
        ensures
            r == self.spec_ldpc_coding_capability(),
    {
        (self.0 >> 0) & 1 == 1
    }

    /// Returns a copy with the field replaced by `value`.
    pub fn with_ldpc_coding_capability(self, value: bool) -> (r: Self)
        ensures
            r.0 == set_bits_u16(self.0, 0, 0x1, (if value {
                1u16
            } else {
                0u16
            })),
            r.spec_ldpc_coding_capability() == value,
            r.spec_supported_channel_width_set() == self.spec_supported_channel_width_set(),
            r.spec_sm_power_save() == self.spec_sm_power_save(),
            r.spec_green_field() == self.spec_green_field(),
            r.spec_short_gi_20mhz() == self.spec_short_gi_20mhz(),
            r.spec_short_gi_40mhz() == self.spec_short_gi_40mhz(),
            r.spec_tx_stbc() == self.spec_tx_stbc(),
            r.spec_rx_stbc() == self.spec_rx_stbc(),
            r.spec_delayed_block_ack() == self.spec_delayed_block_ack(),
            r.spec_is_max_amsdu_large() == self.spec_is_max_amsdu_large(),
            r.spec_dsss_40mhz() == self.spec_dsss_40mhz(),
            r.spec_reserved() == self.spec_reserved(),
            r.spec_forty_mhz_intolerant() == self.spec_forty_mhz_intolerant(),
            r.spec_l_sig_txop_protection_support() == self.spec_l_sig_txop_protection_support(),
    {
        let v: u16 = if value {
            1
        } else {
            0
        };
        proof {
            Self::lemma_masks_fit();
            lemma_set_bits_u16(self.0, 0, 0x1, v, 0, 0x1);
            lemma_set_bits_u16(self.0, 0, 0x1, v, 1, 0x1);
            lemma_set_bits_u16(self.0, 0, 0x1, v, 2, 0x3);
            lemma_set_bits_u16(self.0, 0, 0x1, v, 4, 0x1);
            lemma_set_bits_u16(self.0, 0, 0x1, v, 5, 0x1);
            lemma_set_bits_u16(self.0, 0, 0x1, v, 6, 0x1);
            lemma_set_bits_u16(self.0, 0, 0x1, v, 7, 0x1);
            lemma_set_bits_u16(self.0, 0, 0x1, v, 8, 0x3);
            lemma_set_bits_u16(self.0, 0, 0x1, v, 10, 0x1);
            lemma_set_bits_u16(self.0, 0, 0x1, v, 11, 0x1);
            lemma_set_bits_u16(self.0, 0, 0x1, v, 12, 0x1);
            lemma_set_bits_u16(self.0, 0, 0x1, v, 13, 0x1);
            lemma_set_bits_u16(self.0, 0, 0x1, v, 14, 0x1);
            lemma_set_bits_u16(self.0, 0, 0x1, v, 15, 0x1);
        }
        Self((self.0 & !(0x1u16 << 0u16)) | ((v & 0x1) << 0u16))
    }

    /// Both 20 and 40 MHz are supported.
    pub open spec fn spec_supported_channel_width_set(self) -> bool {
        get_bits_u16(self.0, 1, 1) == 1
    }

    /// Both 20 and 40 MHz are supported.
    pub fn supported_channel_width_set(&self) -> (r: bool)
        ensures
            r == self.spec_supported_channel_width_set(),
    {
        (self.0 >> 1) & 1 == 1
    }

    /// Returns a copy with the field replaced by `value`.
    pub fn with_supported_channel_width_set(self, value: bool) -> (r: Self)
        ensures
            r.0 == set_bits_u16(self.0, 1, 0x1, (if value {
                1u16
            } else {
                0u16
            })),
            r.spec_supported_channel_width_set() == value,
            r.spec_ldpc_coding_capability() == self.spec_ldpc_coding_capability(),
            r.spec_sm_power_save() == self.spec_sm_power_save(),
            r.spec_green_field() == self.spec_green_field(),
            r.spec_short_gi_20mhz() == self.spec_short_gi_20mhz(),
            r.spec_short_gi_40mhz() == self.spec_short_gi_40mhz(),
            r.spec_tx_stbc() == self.spec_tx_stbc(),
            r.spec_rx_stbc() == self.spec_rx_stbc(),
            r.spec_delayed_block_ack() == self.spec_delayed_block_ack(),
            r.spec_is_max_amsdu_large() == self.spec_is_max_amsdu_large(),
            r.spec_dsss_40mhz() == self.spec_dsss_40mhz(),
            r.spec_reserved() == self.spec_reserved(),
            r.spec_forty_mhz_intolerant() == self.spec_forty_mhz_intolerant(),
            r.spec_l_sig_txop_protection_support() == self.spec_l_sig_txop_protection_support(),
    {
        let v: u16 = if value {
            1
        } else {
            0
        };
        proof {
            Self::lemma_masks_fit();
            lemma_set_bits_u16(self.0, 1, 0x1, v, 1, 0x1);
            lemma_set_bits_u16(self.0, 1, 0x1, v, 0, 0x1);
            lemma_set_bits_u16(self.0, 1, 0x1, v, 2, 0x3);
            lemma_set_bits_u16(self.0, 1, 0x1, v, 4, 0x1);
            lemma_set_bits_u16(self.0, 1, 0x1, v, 5, 0x1);
            lemma_set_bits_u16(self.0, 1, 0x1, v, 6, 0x1);
            lemma_set_bits_u16(self.0, 1, 0x1, v, 7, 0x1);
            lemma_set_bits_u16(self.0, 1, 0x1, v, 8, 0x3);
            lemma_set_bits_u16(self.0, 1, 0x1, v, 10, 0x1);
            lemma_set_bits_u16(self.0, 1, 0x1, v, 11, 0x1);
            lemma_set_bits_u16(self.0, 1, 0x1, v, 12, 0x1);
            lemma_set_bits_u16(self.0, 1, 0x1, v, 13, 0x1);
            lemma_set_bits_u16(self.0, 1, 0x1, v, 14, 0x1);
            lemma_set_bits_u16(self.0, 1, 0x1, v, 15, 0x1);
        }
        Self((self.0 & !(0x1u16 << 1u16)) | ((v & 0x1) << 1u16))
    }

    /// The spatial multiplexing power save mode.
    pub open spec fn spec_sm_power_save(self) -> SmPwSave {
        SmPwSave::spec_from_bits(get_bits_u16(self.0, 2, 0x3) as u8)
    }

    /// The spatial multiplexing power save mode.
    pub fn sm_power_save(&self) -> (r: SmPwSave)
        ensures
            r == self.spec_sm_power_save(),
    {
        SmPwSave::from_bits(((self.0 >> 2) & 0x3) as u8)
    }

    /// Returns a copy with the field replaced by `value`.
    pub fn with_sm_power_save(self, value: SmPwSave) -> (r: Self)
        ensures
            r.0 == set_bits_u16(self.0, 2, 0x3, (value.spec_into_bits() as u16)),
            r.spec_sm_power_save() == SmPwSave::spec_from_bits(((value.spec_into_bits() as u16) & 0x3) as u8),
            r.spec_ldpc_coding_capability() == self.spec_ldpc_coding_capability(),
            r.spec_supported_channel_width_set() == self.spec_supported_channel_width_set(),
            r.spec_green_field() == self.spec_green_field(),
            r.spec_short_gi_20mhz() == self.spec_short_gi_20mhz(),
            r.spec_short_gi_40mhz() == self.spec_short_gi_40mhz(),
            r.spec_tx_stbc() == self.spec_tx_stbc(),
            r.spec_rx_stbc() == self.spec_rx_stbc(),
            r.spec_delayed_block_ack() == self.spec_delayed_block_ack(),
            r.spec_is_max_amsdu_large() == self.spec_is_max_amsdu_large(),
            r.spec_dsss_40mhz() == self.spec_dsss_40mhz(),
            r.spec_reserved() == self.spec_reserved(),
            r.spec_forty_mhz_intolerant() == self.spec_forty_mhz_intolerant(),
            r.spec_l_sig_txop_protection_support() == self.spec_l_sig_txop_protection_support(),
    {
        let v: u16 = value.into_bits() as u16;
        proof {
            Self::lemma_masks_fit();
            lemma_set_bits_u16(self.0, 2, 0x3, v, 2, 0x3);
            lemma_set_bits_u16(self.0, 2, 0x3, v, 0, 0x1);
            lemma_set_bits_u16(self.0, 2, 0x3, v, 1, 0x1);
            lemma_set_bits_u16(self.0, 2, 0x3, v, 4, 0x1);
            lemma_set_bits_u16(self.0, 2, 0x3, v, 5, 0x1);
            lemma_set_bits_u16(self.0, 2, 0x3, v, 6, 0x1);
            lemma_set_bits_u16(self.0, 2, 0x3, v, 7, 0x1);
            lemma_set_bits_u16(self.0, 2, 0x3, v, 8, 0x3);
            lemma_set_bits_u16(self.0, 2, 0x3, v, 10, 0x1);
            lemma_set_bits_u16(self.0, 2, 0x3, v, 11, 0x1);
            lemma_set_bits_u16(self.0, 2, 0x3, v, 12, 0x1);
            lemma_set_bits_u16(self.0, 2, 0x3, v, 13, 0x1);
            lemma_set_bits_u16(self.0, 2, 0x3, v, 14, 0x1);
            lemma_set_bits_u16(self.0, 2, 0x3, v, 15, 0x1);
        }
        Self((self.0 & !(0x3u16 << 2u16)) | ((v & 0x3) << 2u16))
    }

    /// Greenfield PPDUs can be received.
    pub open spec fn spec_green_field(self) -> bool {
        get_bits_u16(self.0, 4, 1) == 1
    }

    /// Greenfield PPDUs can be received.
    pub fn green_field(&self) -> (r: bool)
        ensures
            r == self.spec_green_field(),
    {
        (self.0 >> 4) & 1 == 1
    }

    /// Returns a copy with the field replaced by `value`.
    pub fn with_green_field(self, value: bool) -> (r: Self)
        ensures
            r.0 == set_bits_u16(self.0, 4, 0x1, (if value {
                1u16
            } else {
                0u16
            })),
            r.spec_green_field() == value,
            r.spec_ldpc_coding_capability() == self.spec_ldpc_coding_capability(),
            r.spec_supported_channel_width_set() == self.spec_supported_channel_width_set(),
            r.spec_sm_power_save() == self.spec_sm_power_save(),
            r.spec_short_gi_20mhz() == self.spec_short_gi_20mhz(),
            r.spec_short_gi_40mhz() == self.spec_short_gi_40mhz(),
            r.spec_tx_stbc() == self.spec_tx_stbc(),
            r.spec_rx_stbc() == self.spec_rx_stbc(),
            r.spec_delayed_block_ack() == self.spec_delayed_block_ack(),
            r.spec_is_max_amsdu_large() == self.spec_is_max_amsdu_large(),
            r.spec_dsss_40mhz() == self.spec_dsss_40mhz(),
            r.spec_reserved() == self.spec_reserved(),
            r.spec_forty_mhz_intolerant() == self.spec_forty_mhz_intolerant(),
            r.spec_l_sig_txop_protection_support() == self.spec_l_sig_txop_protection_support(),
    {
        let v: u16 = if value {
            1
        } else {
            0
        };
        proof {
            Self::lemma_masks_fit();
            lemma_set_bits_u16(self.0, 4, 0x1, v, 4, 0x1);
            lemma_set_bits_u16(self.0, 4, 0x1, v, 0, 0x1);
            lemma_set_bits_u16(self.0, 4, 0x1, v, 1, 0x1);
            lemma_set_bits_u16(self.0, 4, 0x1, v, 2, 0x3);
            lemma_set_bits_u16(self.0, 4, 0x1, v, 5, 0x1);
            lemma_set_bits_u16(self.0, 4, 0x1, v, 6, 0x1);
            lemma_set_bits_u16(self.0, 4, 0x1, v, 7, 0x1);
            lemma_set_bits_u16(self.0, 4, 0x1, v, 8, 0x3);
            lemma_set_bits_u16(self.0, 4, 0x1, v, 10, 0x1);
            lemma_set_bits_u16(self.0, 4, 0x1, v, 11, 0x1);
            lemma_set_bits_u16(self.0, 4, 0x1, v, 12, 0x1);
            lemma_set_bits_u16(self.0, 4, 0x1, v, 13, 0x1);
            lemma_set_bits_u16(self.0, 4, 0x1, v, 14, 0x1);
            lemma_set_bits_u16(self.0, 4, 0x1, v, 15, 0x1);
        }
        Self((self.0 & !(0x1u16 << 4u16)) | ((v & 0x1) << 4u16))
    }

    /// Short guard intervals are supported at 20 MHz.
    pub open spec fn spec_short_gi_20mhz(self) -> bool {
        get_bits_u16(self.0, 5, 1) == 1
    }

    /// Short guard intervals are supported at 20 MHz.
    pub fn short_gi_20mhz(&self) -> (r: bool)
        ensures
            r == self.spec_short_gi_20mhz(),
    {
        (self.0 >> 5) & 1 == 1
    }

    /// Returns a copy with the field replaced by `value`.
    pub fn with_short_gi_20mhz(self, value: bool) -> (r: Self)
        ensures
            r.0 == set_bits_u16(self.0, 5, 0x1, (if value {
                1u16
            } else {
                0u16
            })),
            r.spec_short_gi_20mhz() == value,
            r.spec_ldpc_coding_capability() == self.spec_ldpc_coding_capability(),
            r.spec_supported_channel_width_set() == self.spec_supported_channel_width_set(),
            r.spec_sm_power_save() == self.spec_sm_power_save(),
            r.spec_green_field() == self.spec_green_field(),
            r.spec_short_gi_40mhz() == self.spec_short_gi_40mhz(),
            r.spec_tx_stbc() == self.spec_tx_stbc(),
            r.spec_rx_stbc() == self.spec_rx_stbc(),
            r.spec_delayed_block_ack() == self.spec_delayed_block_ack(),
            r.spec_is_max_amsdu_large() == self.spec_is_max_amsdu_large(),
            r.spec_dsss_40mhz() == self.spec_dsss_40mhz(),
            r.spec_reserved() == self.spec_reserved(),
            r.spec_forty_mhz_intolerant() == self.spec_forty_mhz_intolerant(),
            r.spec_l_sig_txop_protection_support() == self.spec_l_sig_txop_protection_support(),
    {
        let v: u16 = if value {
            1
        } else {
            0
        };
        proof {
            Self::lemma_masks_fit();
            lemma_set_bits_u16(self.0, 5, 0x1, v, 5, 0x1);
            lemma_set_bits_u16(self.0, 5, 0x1, v, 0, 0x1);
            lemma_set_bits_u16(self.0, 5, 0x1, v, 1, 0x1);
            lemma_set_bits_u16(self.0, 5, 0x1, v, 2, 0x3);
            lemma_set_bits_u16(self.0, 5, 0x1, v, 4, 0x1);
            lemma_set_bits_u16(self.0, 5, 0x1, v, 6, 0x1);
            lemma_set_bits_u16(self.0, 5, 0x1, v, 7, 0x1);
            lemma_set_bits_u16(self.0, 5, 0x1, v, 8, 0x3);
            lemma_set_bits_u16(self.0, 5, 0x1, v, 10, 0x1);
            lemma_set_bits_u16(self.0, 5, 0x1, v, 11, 0x1);
            lemma_set_bits_u16(self.0, 5, 0x1, v, 12, 0x1);
            lemma_set_bits_u16(self.0, 5, 0x1, v, 13, 0x1);
            lemma_set_bits_u16(self.0, 5, 0x1, v, 14, 0x1);
            lemma_set_bits_u16(self.0, 5, 0x1, v, 15, 0x1);
        }
        Self((self.0 & !(0x1u16 << 5u16)) | ((v & 0x1) << 5u16))
    }

    /// Short guard intervals are supported at 40 MHz.
    pub open spec fn spec_short_gi_40mhz(self) -> bool {
        get_bits_u16(self.0, 6, 1) == 1
    }

    /// Short guard intervals are supported at 40 MHz.
    pub fn short_gi_40mhz(&self) -> (r: bool)
        ensures
            r == self.spec_short_gi_40mhz(),
    {
        (self.0 >> 6) & 1 == 1
    }

    /// Returns a copy with the field replaced by `value`.
    pub fn with_short_gi_40mhz(self, value: bool) -> (r: Self)
        ensures
            r.0 == set_bits_u16(self.0, 6, 0x1, (if value {
                1u16
            } else {
                0u16
            })),
            r.spec_short_gi_40mhz() == value,
            r.spec_ldpc_coding_capability() == self.spec_ldpc_coding_capability(),
            r.spec_supported_channel_width_set() == self.spec_supported_channel_width_set(),
            r.spec_sm_power_save() == self.spec_sm_power_save(),
            r.spec_green_field() == self.spec_green_field(),
            r.spec_short_gi_20mhz() == self.spec_short_gi_20mhz(),
            r.spec_tx_stbc() == self.spec_tx_stbc(),
            r.spec_rx_stbc() == self.spec_rx_stbc(),
            r.spec_delayed_block_ack() == self.spec_delayed_block_ack(),
            r.spec_is_max_amsdu_large() == self.spec_is_max_amsdu_large(),
            r.spec_dsss_40mhz() == self.spec_dsss_40mhz(),
            r.spec_reserved() == self.spec_reserved(),
            r.spec_forty_mhz_intolerant() == self.spec_forty_mhz_intolerant(),
            r.spec_l_sig_txop_protection_support() == self.spec_l_sig_txop_protection_support(),
    {
        let v: u16 = if value {
            1
        } else {
            0
        };
        proof {
            Self::lemma_masks_fit();
            lemma_set_bits_u16(self.0, 6, 0x1, v, 6, 0x1);
            lemma_set_bits_u16(self.0, 6, 0x1, v, 0, 0x1);
            lemma_set_bits_u16(self.0, 6, 0x1, v, 1, 0x1);
            lemma_set_bits_u16(self.0, 6, 0x1, v, 2, 0x3);
            lemma_set_bits_u16(self.0, 6, 0x1, v, 4, 0x1);
            lemma_set_bits_u16(self.0, 6, 0x1, v, 5, 0x1);
            lemma_set_bits_u16(self.0, 6, 0x1, v, 7, 0x1);
            lemma_set_bits_u16(self.0, 6, 0x1, v, 8, 0x3);
            lemma_set_bits_u16(self.0, 6, 0x1, v, 10, 0x1);
            lemma_set_bits_u16(self.0, 6, 0x1, v, 11, 0x1);
            lemma_set_bits_u16(self.0, 6, 0x1, v, 12, 0x1);
            lemma_set_bits_u16(self.0, 6, 0x1, v, 13, 0x1);
            lemma_set_bits_u16(self.0, 6, 0x1, v, 14, 0x1);
            lemma_set_bits_u16(self.0, 6, 0x1, v, 15, 0x1);
        }
        Self((self.0 & !(0x1u16 << 6u16)) | ((v & 0x1) << 6u16))
    }

    /// STBC transmission is supported.
    pub open spec fn spec_tx_stbc(self) -> bool {
        get_bits_u16(self.0, 7, 1) == 1
    }

    /// STBC transmission is supported.
    pub fn tx_stbc(&self) -> (r: bool)
        ensures
            r == self.spec_tx_stbc(),
    {
        (self.0 >> 7) & 1 == 1
    }

    /// Returns a copy with the field replaced by `value`.
    pub fn with_tx_stbc(self, value: bool) -> (r: Self)
        ensures
            r.0 == set_bits_u16(self.0, 7, 0x1, (if value {
                1u16
            } else {
                0u16
            })),
            r.spec_tx_stbc() == value,
            r.spec_ldpc_coding_capability() == self.spec_ldpc_coding_capability(),
            r.spec_supported_channel_width_set() == self.spec_supported_channel_width_set(),
            r.spec_sm_power_save() == self.spec_sm_power_save(),
            r.spec_green_field() == self.spec_green_field(),
            r.spec_short_gi_20mhz() == self.spec_short_gi_20mhz(),
            r.spec_short_gi_40mhz() == self.spec_short_gi_40mhz(),
            r.spec_rx_stbc() == self.spec_rx_stbc(),
            r.spec_delayed_block_ack() == self.spec_delayed_block_ack(),
            r.spec_is_max_amsdu_large() == self.spec_is_max_amsdu_large(),
            r.spec_dsss_40mhz() == self.spec_dsss_40mhz(),
            r.spec_reserved() == self.spec_reserved(),
            r.spec_forty_mhz_intolerant() == self.spec_forty_mhz_intolerant(),
            r.spec_l_sig_txop_protection_support() == self.spec_l_sig_txop_protection_support(),
    {
        let v: u16 = if value {
            1
        } else {
            0
        };
        proof {
            Self::lemma_masks_fit();
            lemma_set_bits_u16(self.0, 7, 0x1, v, 7, 0x1);
            lemma_set_bits_u16(self.0, 7, 0x1, v, 0, 0x1);
            lemma_set_bits_u16(self.0, 7, 0x1, v, 1, 0x1);
            lemma_set_bits_u16(self.0, 7, 0x1, v, 2, 0x3);
            lemma_set_bits_u16(self.0, 7, 0x1, v, 4, 0x1);
            lemma_set_bits_u16(self.0, 7, 0x1, v, 5, 0x1);
            lemma_set_bits_u16(self.0, 7, 0x1, v, 6, 0x1);
            lemma_set_bits_u16(self.0, 7, 0x1, v, 8, 0x3);
            lemma_set_bits_u16(self.0, 7, 0x1, v, 10, 0x1);
            lemma_set_bits_u16(self.0, 7, 0x1, v, 11, 0x1);
            lemma_set_bits_u16(self.0, 7, 0x1, v, 12, 0x1);
            lemma_set_bits_u16(self.0, 7, 0x1, v, 13, 0x1);
            lemma_set_bits_u16(self.0, 7, 0x1, v, 14, 0x1);
            lemma_set_bits_u16(self.0, 7, 0x1, v, 15, 0x1);
        }
        Self((self.0 & !(0x1u16 << 7u16)) | ((v & 0x1) << 7u16))
    }

    /// The number of spatial streams supported for STBC reception.
    pub open spec fn spec_rx_stbc(self) -> u8 {
        get_bits_u16(self.0, 8, 0x3) as u8
    }

    /// The number of spatial streams supported for STBC reception.
    pub fn rx_stbc(&self) -> (r: u8)
        ensures
            r == self.spec_rx_stbc(),
    {
        ((self.0 >> 8) & 0x3) as u8
    }

    /// Returns a copy with the field replaced by `value`.
    pub fn with_rx_stbc(self, value: u8) -> (r: Self)
        ensures
            r.0 == set_bits_u16(self.0, 8, 0x3, (value as u16)),
            r.spec_rx_stbc() == ((value as u16) & 0x3) as u8,
            r.spec_ldpc_coding_capability() == self.spec_ldpc_coding_capability(),
            r.spec_supported_channel_width_set() == self.spec_supported_channel_width_set(),
            r.spec_sm_power_save() == self.spec_sm_power_save(),
            r.spec_green_field() == self.spec_green_field(),
            r.spec_short_gi_20mhz() == self.spec_short_gi_20mhz(),
            r.spec_short_gi_40mhz() == self.spec_short_gi_40mhz(),
            r.spec_tx_stbc() == self.spec_tx_stbc(),
            r.spec_delayed_block_ack() == self.spec_delayed_block_ack(),
            r.spec_is_max_amsdu_large() == self.spec_is_max_amsdu_large(),
            r.spec_dsss_40mhz() == self.spec_dsss_40mhz(),
            r.spec_reserved() == self.spec_reserved(),
            r.spec_forty_mhz_intolerant() == self.spec_forty_mhz_intolerant(),
            r.spec_l_sig_txop_protection_support() == self.spec_l_sig_txop_protection_support(),
    {
        let v: u16 = value as u16;
        proof {
            Self::lemma_masks_fit();
            lemma_set_bits_u16(self.0, 8, 0x3, v, 8, 0x3);
            lemma_set_bits_u16(self.0, 8, 0x3, v, 0, 0x1);
            lemma_set_bits_u16(self.0, 8, 0x3, v, 1, 0x1);
            lemma_set_bits_u16(self.0, 8, 0x3, v, 2, 0x3);
            lemma_set_bits_u16(self.0, 8, 0x3, v, 4, 0x1);
            lemma_set_bits_u16(self.0, 8, 0x3, v, 5, 0x1);
            lemma_set_bits_u16(self.0, 8, 0x3, v, 6, 0x1);
            lemma_set_bits_u16(self.0, 8, 0x3, v, 7, 0x1);
            lemma_set_bits_u16(self.0, 8, 0x3, v, 10, 0x1);
            lemma_set_bits_u16(self.0, 8, 0x3, v, 11, 0x1);
            lemma_set_bits_u16(self.0, 8, 0x3, v, 12, 0x1);
            lemma_set_bits_u16(self.0, 8, 0x3, v, 13, 0x1);
            lemma_set_bits_u16(self.0, 8, 0x3, v, 14, 0x1);
            lemma_set_bits_u16(self.0, 8, 0x3, v, 15, 0x1);
        }
        Self((self.0 & !(0x3u16 << 8u16)) | ((v & 0x3) << 8u16))
    }

    /// Delayed block ack is supported.
    pub open spec fn spec_delayed_block_ack(self) -> bool {
        get_bits_u16(self.0, 10, 1) == 1
    }

    /// Delayed block ack is supported.
    pub fn delayed_block_ack(&self) -> (r: bool)
        ensures
            r == self.spec_delayed_block_ack(),
    {
        (self.0 >> 10) & 1 == 1
    }

    /// Returns a copy with the field replaced by `value`.
    pub fn with_delayed_block_ack(self, value: bool) -> (r: Self)
        ensures
            r.0 == set_bits_u16(self.0, 10, 0x1, (if value {
                1u16
            } else {
                0u16
            })),
            r.spec_delayed_block_ack() == value,
            r.spec_ldpc_coding_capability() == self.spec_ldpc_coding_capability(),
            r.spec_supported_channel_width_set() == self.spec_supported_channel_width_set(),
            r.spec_sm_power_save() == self.spec_sm_power_save(),
            r.spec_green_field() == self.spec_green_field(),
            r.spec_short_gi_20mhz() == self.spec_short_gi_20mhz(),
            r.spec_short_gi_40mhz() == self.spec_short_gi_40mhz(),
            r.spec_tx_stbc() == self.spec_tx_stbc(),
            r.spec_rx_stbc() == self.spec_rx_stbc(),
            r.spec_is_max_amsdu_large() == self.spec_is_max_amsdu_large(),
            r.spec_dsss_40mhz() == self.spec_dsss_40mhz(),
            r.spec_reserved() == self.spec_reserved(),
            r.spec_forty_mhz_intolerant() == self.spec_forty_mhz_intolerant(),
            r.spec_l_sig_txop_protection_support() == self.spec_l_sig_txop_protection_support(),
    {
        let v: u16 = if value {
            1
        } else {
            0
        };
        proof {
            Self::lemma_masks_fit();
            lemma_set_bits_u16(self.0, 10, 0x1, v, 10, 0x1);
            lemma_set_bits_u16(self.0, 10, 0x1, v, 0, 0x1);
            lemma_set_bits_u16(self.0, 10, 0x1, v, 1, 0x1);
            lemma_set_bits_u16(self.0, 10, 0x1, v, 2, 0x3);
            lemma_set_bits_u16(self.0, 10, 0x1, v, 4, 0x1);
            lemma_set_bits_u16(self.0, 10, 0x1, v, 5, 0x1);
            lemma_set_bits_u16(self.0, 10, 0x1, v, 6, 0x1);
            lemma_set_bits_u16(self.0, 10, 0x1, v, 7, 0x1);
            lemma_set_bits_u16(self.0, 10, 0x1, v, 8, 0x3);
            lemma_set_bits_u16(self.0, 10, 0x1, v, 11, 0x1);
            lemma_set_bits_u16(self.0, 10, 0x1, v, 12, 0x1);
            lemma_set_bits_u16(self.0, 10, 0x1, v, 13, 0x1);
            lemma_set_bits_u16(self.0, 10, 0x1, v, 14, 0x1);
            lemma_set_bits_u16(self.0, 10, 0x1, v, 15, 0x1);
        }
        Self((self.0 & !(0x1u16 << 10u16)) | ((v & 0x1) << 10u16))
    }

    /// The maximum A-MSDU length is 7935 bytes.
    pub open spec fn spec_is_max_amsdu_large(self) -> bool {
        get_bits_u16(self.0, 11, 1) == 1
    }

    /// The maximum A-MSDU length is 7935 bytes.
    pub fn is_max_amsdu_large(&self) -> (r: bool)
        ensures
            r == self.spec_is_max_amsdu_large(),
    {
        (self.0 >> 11) & 1 == 1
    }

    /// Returns a copy with the field replaced by `value`.
    pub fn with_is_max_amsdu_large(self, value: bool) -> (r: Self)
        ensures
            r.0 == set_bits_u16(self.0, 11, 0x1, (if value {
                1u16
            } else {
                0u16
            })),
            r.spec_is_max_amsdu_large() == value,
            r.spec_ldpc_coding_capability() == self.spec_ldpc_coding_capability(),
            r.spec_supported_channel_width_set() == self.spec_supported_channel_width_set(),
            r.spec_sm_power_save() == self.spec_sm_power_save(),
            r.spec_green_field() == self.spec_green_field(),
            r.spec_short_gi_20mhz() == self.spec_short_gi_20mhz(),
            r.spec_short_gi_40mhz() == self.spec_short_gi_40mhz(),
            r.spec_tx_stbc() == self.spec_tx_stbc(),
            r.spec_rx_stbc() == self.spec_rx_stbc(),
            r.spec_delayed_block_ack() == self.spec_delayed_block_ack(),
            r.spec_dsss_40mhz() == self.spec_dsss_40mhz(),
            r.spec_reserved() == self.spec_reserved(),
            r.spec_forty_mhz_intolerant() == self.spec_forty_mhz_intolerant(),
            r.spec_l_sig_txop_protection_support() == self.spec_l_sig_txop_protection_support(),
    {
        let v: u16 = if value {
            1
        } else {
            0
        };
        proof {
            Self::lemma_masks_fit();
            lemma_set_bits_u16(self.0, 11, 0x1, v, 11, 0x1);
            lemma_set_bits_u16(self.0, 11, 0x1, v, 0, 0x1);
            lemma_set_bits_u16(self.0, 11, 0x1, v, 1, 0x1);
            lemma_set_bits_u16(self.0, 11, 0x1, v, 2, 0x3);
            lemma_set_bits_u16(self.0, 11, 0x1, v, 4, 0x1);
            lemma_set_bits_u16(self.0, 11, 0x1, v, 5, 0x1);
            lemma_set_bits_u16(self.0, 11, 0x1, v, 6, 0x1);
            lemma_set_bits_u16(self.0, 11, 0x1, v, 7, 0x1);
            lemma_set_bits_u16(self.0, 11, 0x1, v, 8, 0x3);
            lemma_set_bits_u16(self.0, 11, 0x1, v, 10, 0x1);
            lemma_set_bits_u16(self.0, 11, 0x1, v, 12, 0x1);
            lemma_set_bits_u16(self.0, 11, 0x1, v, 13, 0x1);
            lemma_set_bits_u16(self.0, 11, 0x1, v, 14, 0x1);
            lemma_set_bits_u16(self.0, 11, 0x1, v, 15, 0x1);
        }
        Self((self.0 & !(0x1u16 << 11u16)) | ((v & 0x1) << 11u16))
    }

    /// DSSS/CCK is used in 40 MHz.
    pub open spec fn spec_dsss_40mhz(self) -> bool {
        get_bits_u16(self.0, 12, 1) == 1
    }

    /// DSSS/CCK is used in 40 MHz.
    pub fn dsss_40mhz(&self) -> (r: bool)
        ensures
            r == self.spec_dsss_40mhz(),
    {
        (self.0 >> 12) & 1 == 1
    }

    /// Returns a copy with the field replaced by `value`.
    pub fn with_dsss_40mhz(self, value: bool) -> (r: Self)
        ensures
            r.0 == set_bits_u16(self.0, 12, 0x1, (if value {
                1u16
            } else {
                0u16
            })),
            r.spec_dsss_40mhz() == value,
            r.spec_ldpc_coding_capability() == self.spec_ldpc_coding_capability(),
            r.spec_supported_channel_width_set() == self.spec_supported_channel_width_set(),
            r.spec_sm_power_save() == self.spec_sm_power_save(),
            r.spec_green_field() == self.spec_green_field(),
            r.spec_short_gi_20mhz() == self.spec_short_gi_20mhz(),
            r.spec_short_gi_40mhz() == self.spec_short_gi_40mhz(),
            r.spec_tx_stbc() == self.spec_tx_stbc(),
            r.spec_rx_stbc() == self.spec_rx_stbc(),
            r.spec_delayed_block_ack() == self.spec_delayed_block_ack(),
            r.spec_is_max_amsdu_large() == self.spec_is_max_amsdu_large(),
            r.spec_reserved() == self.spec_reserved(),
            r.spec_forty_mhz_intolerant() == self.spec_forty_mhz_intolerant(),
            r.spec_l_sig_txop_protection_support() == self.spec_l_sig_txop_protection_support(),
    {
        let v: u16 = if value {
            1
        } else {
            0
        };
        proof {
            Self::lemma_masks_fit();
            lemma_set_bits_u16(self.0, 12, 0x1, v, 12, 0x1);
            lemma_set_bits_u16(self.0, 12, 0x1, v, 0, 0x1);
            lemma_set_bits_u16(self.0, 12, 0x1, v, 1, 0x1);
            lemma_set_bits_u16(self.0, 12, 0x1, v, 2, 0x3);
            lemma_set_bits_u16(self.0, 12, 0x1, v, 4, 0x1);
            lemma_set_bits_u16(self.0, 12, 0x1, v, 5, 0x1);
            lemma_set_bits_u16(self.0, 12, 0x1, v, 6, 0x1);
            lemma_set_bits_u16(self.0, 12, 0x1, v, 7, 0x1);
            lemma_set_bits_u16(self.0, 12, 0x1, v, 8, 0x3);
            lemma_set_bits_u16(self.0, 12, 0x1, v, 10, 0x1);
            lemma_set_bits_u16(self.0, 12, 0x1, v, 11, 0x1);
            lemma_set_bits_u16(self.0, 12, 0x1, v, 13, 0x1);
            lemma_set_bits_u16(self.0, 12, 0x1, v, 14, 0x1);
            lemma_set_bits_u16(self.0, 12, 0x1, v, 15, 0x1);
        }
        Self((self.0 & !(0x1u16 << 12u16)) | ((v & 0x1) << 12u16))
    }

    /// A reserved bit.
    pub open spec fn spec_reserved(self) -> bool {
        get_bits_u16(self.0, 13, 1) == 1
    }

    /// A reserved bit.
    pub fn reserved(&self) -> (r: bool)
        ensures
            r == self.spec_reserved(),
    {
        (self.0 >> 13) & 1 == 1
    }

    /// Returns a copy with the field replaced by `value`.
    pub fn with_reserved(self, value: bool) -> (r: Self)
        ensures
            r.0 == set_bits_u16(self.0, 13, 0x1, (if value {
                1u16
            } else {
                0u16
            })),
            r.spec_reserved() == value,
            r.spec_ldpc_coding_capability() == self.spec_ldpc_coding_capability(),
            r.spec_supported_channel_width_set() == self.spec_supported_channel_width_set(),
            r.spec_sm_power_save() == self.spec_sm_power_save(),
            r.spec_green_field() == self.spec_green_field(),
            r.spec_short_gi_20mhz() == self.spec_short_gi_20mhz(),
            r.spec_short_gi_40mhz() == self.spec_short_gi_40mhz(),
            r.spec_tx_stbc() == self.spec_tx_stbc(),
            r.spec_rx_stbc() == self.spec_rx_stbc(),
            r.spec_delayed_block_ack() == self.spec_delayed_block_ack(),
            r.spec_is_max_amsdu_large() == self.spec_is_max_amsdu_large(),
            r.spec_dsss_40mhz() == self.spec_dsss_40mhz(),
            r.spec_forty_mhz_intolerant() == self.spec_forty_mhz_intolerant(),
            r.spec_l_sig_txop_protection_support() == self.spec_l_sig_txop_protection_support(),
    {
        let v: u16 = if value {
            1
        } else {
            0
        };
        proof {
            Self::lemma_masks_fit();
            lemma_set_bits_u16(self.0, 13, 0x1, v, 13, 0x1);
            lemma_set_bits_u16(self.0, 13, 0x1, v, 0, 0x1);
            lemma_set_bits_u16(self.0, 13, 0x1, v, 1, 0x1);
            lemma_set_bits_u16(self.0, 13, 0x1, v, 2, 0x3);
            lemma_set_bits_u16(self.0, 13, 0x1, v, 4, 0x1);
            lemma_set_bits_u16(self.0, 13, 0x1, v, 5, 0x1);
            lemma_set_bits_u16(self.0, 13, 0x1, v, 6, 0x1);
            lemma_set_bits_u16(self.0, 13, 0x1, v, 7, 0x1);
            lemma_set_bits_u16(self.0, 13, 0x1, v, 8, 0x3);
            lemma_set_bits_u16(self.0, 13, 0x1, v, 10, 0x1);
            lemma_set_bits_u16(self.0, 13, 0x1, v, 11, 0x1);
            lemma_set_bits_u16(self.0, 13, 0x1, v, 12, 0x1);
            lemma_set_bits_u16(self.0, 13, 0x1, v, 14, 0x1);
            lemma_set_bits_u16(self.0, 13, 0x1, v, 15, 0x1);
        }
        Self((self.0 & !(0x1u16 << 13u16)) | ((v & 0x1) << 13u16))
    }

    /// The STA is 40 MHz intolerant.
    pub open spec fn spec_forty_mhz_intolerant(self) -> bool {
        get_bits_u16(self.0, 14, 1) == 1
    }

    /// The STA is 40 MHz intolerant.
    pub fn forty_mhz_intolerant(&self) -> (r: bool)
        ensures
            r == self.spec_forty_mhz_intolerant(),
    {
        (self.0 >> 14) & 1 == 1
    }

    /// Returns a copy with the field replaced by `value`.
    pub fn with_forty_mhz_intolerant(self, value: bool) -> (r: Self)
        ensures
            r.0 == set_bits_u16(self.0, 14, 0x1, (if value {
                1u16
            } else {
                0u16
            })),
            r.spec_forty_mhz_intolerant() == value,
            r.spec_ldpc_coding_capability() == self.spec_ldpc_coding_capability(),
            r.spec_supported_channel_width_set() == self.spec_supported_channel_width_set(),
            r.spec_sm_power_save() == self.spec_sm_power_save(),
            r.spec_green_field() == self.spec_green_field(),
            r.spec_short_gi_20mhz() == self.spec_short_gi_20mhz(),
            r.spec_short_gi_40mhz() == self.spec_short_gi_40mhz(),
            r.spec_tx_stbc() == self.spec_tx_stbc(),
            r.spec_rx_stbc() == self.spec_rx_stbc(),
            r.spec_delayed_block_ack() == self.spec_delayed_block_ack(),
            r.spec_is_max_amsdu_large() == self.spec_is_max_amsdu_large(),
            r.spec_dsss_40mhz() == self.spec_dsss_40mhz(),
            r.spec_reserved() == self.spec_reserved(),
            r.spec_l_sig_txop_protection_support() == self.spec_l_sig_txop_protection_support(),
    {
        let v: u16 = if value {
            1
        } else {
            0
        };
        proof {
            Self::lemma_masks_fit();
            lemma_set_bits_u16(self.0, 14, 0x1, v, 14, 0x1);
            lemma_set_bits_u16(self.0, 14, 0x1, v, 0, 0x1);
            lemma_set_bits_u16(self.0, 14, 0x1, v, 1, 0x1);
            lemma_set_bits_u16(self.0, 14, 0x1, v, 2, 0x3);
            lemma_set_bits_u16(self.0, 14, 0x1, v, 4, 0x1);
            lemma_set_bits_u16(self.0, 14, 0x1, v, 5, 0x1);
            lemma_set_bits_u16(self.0, 14, 0x1, v, 6, 0x1);
            lemma_set_bits_u16(self.0, 14, 0x1, v, 7, 0x1);
            lemma_set_bits_u16(self.0, 14, 0x1, v, 8, 0x3);
            lemma_set_bits_u16(self.0, 14, 0x1, v, 10, 0x1);
            lemma_set_bits_u16(self.0, 14, 0x1, v, 11, 0x1);
            lemma_set_bits_u16(self.0, 14, 0x1, v, 12, 0x1);
            lemma_set_bits_u16(self.0, 14, 0x1, v, 13, 0x1);
            lemma_set_bits_u16(self.0, 14, 0x1, v, 15, 0x1);
        }
        Self((self.0 & !(0x1u16 << 14u16)) | ((v & 0x1) << 14u16))
    }

    /// L-SIG TXOP protection is supported.
    pub open spec fn spec_l_sig_txop_protection_support(self) -> bool {
        get_bits_u16(self.0, 15, 1) == 1
    }

    /// L-SIG TXOP protection is supported.
    pub fn l_sig_txop_protection_support(&self) -> (r: bool)
        ensures
            r == self.spec_l_sig_txop_protection_support(),
    {
        (self.0 >> 15) & 1 == 1
    }

    /// Returns a copy with the field replaced by `value`.
    pub fn with_l_sig_txop_protection_support(self, value: bool) -> (r: Self)
        ensures
            r.0 == set_bits_u16(self.0, 15, 0x1, (if value {
                1u16
            } else {
                0u16
            })),
            r.spec_l_sig_txop_protection_support() == value,
            r.spec_ldpc_coding_capability() == self.spec_ldpc_coding_capability(),
            r.spec_supported_channel_width_set() == self.spec_supported_channel_width_set(),
            r.spec_sm_power_save() == self.spec_sm_power_save(),
            r.spec_green_field() == self.spec_green_field(),
            r.spec_short_gi_20mhz() == self.spec_short_gi_20mhz(),
            r.spec_short_gi_40mhz() == self.spec_short_gi_40mhz(),
            r.spec_tx_stbc() == self.spec_tx_stbc(),
            r.spec_rx_stbc() == self.spec_rx_stbc(),
            r.spec_delayed_block_ack() == self.spec_delayed_block_ack(),
            r.spec_is_max_amsdu_large() == self.spec_is_max_amsdu_large(),
            r.spec_dsss_40mhz() == self.spec_dsss_40mhz(),
            r.spec_reserved() == self.spec_reserved(),
            r.spec_forty_mhz_intolerant() == self.spec_forty_mhz_intolerant(),
    {
        let v: u16 = if value {
            1
        } else {
            0
        };
        proof {
            Self::lemma_masks_fit();
            lemma_set_bits_u16(self.0, 15, 0x1, v, 15, 0x1);
            lemma_set_bits_u16(self.0, 15, 0x1, v, 0, 0x1);
            lemma_set_bits_u16(self.0, 15, 0x1, v, 1, 0x1);
            lemma_set_bits_u16(self.0, 15, 0x1, v, 2, 0x3);
            lemma_set_bits_u16(self.0, 15, 0x1, v, 4, 0x1);
            lemma_set_bits_u16(self.0, 15, 0x1, v, 5, 0x1);
            lemma_set_bits_u16(self.0, 15, 0x1, v, 6, 0x1);
            lemma_set_bits_u16(self.0, 15, 0x1, v, 7, 0x1);
            lemma_set_bits_u16(self.0, 15, 0x1, v, 8, 0x3);
            lemma_set_bits_u16(self.0, 15, 0x1, v, 10, 0x1);
            lemma_set_bits_u16(self.0, 15, 0x1, v, 11, 0x1);
            lemma_set_bits_u16(self.0, 15, 0x1, v, 12, 0x1);
            lemma_set_bits_u16(self.0, 15, 0x1, v, 13, 0x1);
            lemma_set_bits_u16(self.0, 15, 0x1, v, 14, 0x1);
        }
        Self((self.0 & !(0x1u16 << 15u16)) | ((v & 0x1) << 15u16))
    }
}

/// The A-MPDU parameters.
#[derive(Clone, Copy, Debug, PartialEq, Eq, Hash, Structural)]
pub struct AMpduParameters(pub u8);

impl AMpduParameters {
    /// A value with every field at its default.
    pub fn new() -> (r: Self)
        ensures
            r.0 == 0x0,
    {
        Self(0x0)
    }

    /// Wrap the raw bits.
    pub fn from_bits(bits: u8) -> (r: Self)
        ensures
            r.0 == bits,
    {
        Self(bits)
    }

    /// Every field mask fits in the backing integer.
    proof fn lemma_masks_fit()
        by (bit_vector)
        ensures
            fits_u8(0, 0x3),
            fits_u8(2, 0x7),
            fits_u8(5, 0x7),
            (0x3u8 << 0u8) & (0x7u8 << 2u8) == 0,
            (0x7u8 << 2u8) & (0x3u8 << 0u8) == 0,
            (0x3u8 << 0u8) & (0x7u8 << 5u8) == 0,
            (0x7u8 << 5u8) & (0x3u8 << 0u8) == 0,
            (0x7u8 << 2u8) & (0x7u8 << 5u8) == 0,
            (0x7u8 << 5u8) & (0x7u8 << 2u8) == 0,
            1u8 & 1u8 == 1,
            0u8 & 1u8 == 0,
    {
    }

    /// The raw bits.
    pub fn into_bits(self) -> (r: u8)
        ensures
            r == self.0,
    {
        self.0
    }

    /// The maximum length of an A-MPDU.
    pub open spec fn spec_max_a_mpdu_length(self) -> MAXAMpduLength {
        MAXAMpduLength::spec_from_bits(get_bits_u8(self.0, 0, 0x3) as u8)
    }

    /// The maximum length of an A-MPDU.
    pub fn max_a_mpdu_length(&self) -> (r: MAXAMpduLength)
        ensures
            r == self.spec_max_a_mpdu_length(),
    {
        MAXAMpduLength::from_bits(((self.0 >> 0) & 0x3) as u8)
    }

    /// Returns a copy with the field replaced by `value`.
    pub fn with_max_a_mpdu_length(self, value: MAXAMpduLength) -> (r: Self)
        ensures
            r.0 == set_bits_u8(self.0, 0, 0x3, (value.spec_into_bits() as u8)),
            r.spec_max_a_mpdu_length() == MAXAMpduLength::spec_from_bits(((value.spec_into_bits() as u8) & 0x3) as u8),
            r.spec_mpdu_density() == self.spec_mpdu_density(),
            r.spec_reserved() == self.spec_reserved(),
    {
        let v: u8 = value.into_bits() as u8;
        proof {
            Self::lemma_masks_fit();
            lemma_set_bits_u8(self.0, 0, 0x3, v, 0, 0x3);
            lemma_set_bits_u8(self.0, 0, 0x3, v, 2, 0x7);
            lemma_set_bits_u8(self.0, 0, 0x3, v, 5, 0x7);
        }
        Self((self.0 & !(0x3u8 << 0u8)) | ((v & 0x3) << 0u8))
    }

    /// The minimum spacing between MPDUs.
    pub open spec fn spec_mpdu_density(self) -> MpduDensity {
        MpduDensity::spec_from_bits(get_bits_u8(self.0, 2, 0x7) as u8)
    }

    /// The minimum spacing between MPDUs.
    pub fn mpdu_density(&self) -> (r: MpduDensity)
        ensures
            r == self.spec_mpdu_density(),
    {
        MpduDensity::from_bits(((self.0 >> 2) & 0x7) as u8)
    }

    /// Returns a copy with the field replaced by `value`.
    pub fn with_mpdu_density(self, value: MpduDensity) -> (r: Self)
        ensures
            r.0 == set_bits_u8(self.0, 2, 0x7, (value.spec_into_bits() as u8)),
            r.spec_mpdu_density() == MpduDensity::spec_from_bits(((value.spec_into_bits() as u8) & 0x7) as u8),
            r.spec_max_a_mpdu_length() == self.spec_max_a_mpdu_length(),
            r.spec_reserved() == self.spec_reserved(),
    {
        let v: u8 = value.into_bits() as u8;
        proof {
            Self::lemma_masks_fit();
            lemma_set_bits_u8(self.0, 2, 0x7, v, 2, 0x7);
            lemma_set_bits_u8(self.0, 2, 0x7, v, 0, 0x3);
            lemma_set_bits_u8(self.0, 2, 0x7, v, 5, 0x7);
        }
        Self((self.0 & !(0x7u8 << 2u8)) | ((v & 0x7) << 2u8))
    }

    /// Reserved bits.
    pub open spec fn spec_reserved(self) -> u8 {
        get_bits_u8(self.0, 5, 0x7) as u8
    }

    /// Reserved bits.
    pub fn reserved(&self) -> (r: u8)
        ensures
            r == self.spec_reserved(),
    {
        ((self.0 >> 5) & 0x7) as u8
    }

    /// Returns a copy with the field replaced by `value`.
    pub fn with_reserved(self, value: u8) -> (r: Self)
        ensures
            r.0 == set_bits_u8(self.0, 5, 0x7, (value as u8)),
            r.spec_reserved() == ((value as u8) & 0x7) as u8,
            r.spec_max_a_mpdu_length() == self.spec_max_a_mpdu_length(),
            r.spec_mpdu_density() == self.spec_mpdu_density(),
    {
        let v: u8 = value as u8;
        proof {
            Self::lemma_masks_fit();
            lemma_set_bits_u8(self.0, 5, 0x7, v, 5, 0x7);
            lemma_set_bits_u8(self.0, 5, 0x7, v, 0, 0x3);
            lemma_set_bits_u8(self.0, 5, 0x7, v, 2, 0x7);
        }
        Self((self.0 & !(0x7u8 << 5u8)) | ((v & 0x7) << 5u8))
    }
}

/// The HT extended capabilities.
#[derive(Clone, Copy, Debug, PartialEq, Eq, Hash, Structural)]
pub struct HTExtendedCapabilities(pub u16);

impl HTExtendedCapabilities {
    /// A value with every field at its default.
    pub fn new() -> (r: Self)
        ensures
            r.0 == 0x0,
    {
        Self(0x0)
    }

    /// Wrap the raw bits.
    pub fn from_bits(bits: u16) -> (r: Self)
        ensures
            r.0 == bits,
    {
        Self(bits)
    }

    /// Every field mask fits in the backing integer.
    proof fn lemma_masks_fit()
        by (bit_vector)
        ensures
            fits_u16(0, 0x1),
            fits_u16(1, 0x3),
            fits_u16(3, 0x1f),
            fits_u16(8, 0x3),
            fits_u16(10, 0x1),
            fits_u16(11, 0x1),
            fits_u16(12, 0xf),
            (0x1u16 << 0u16) & (0x3u16 << 1u16) == 0,
            (0x3u16 << 1u16) & (0x1u16 << 0u16) == 0,
            (0x1u16 << 0u16) & (0x1fu16 << 3u16) == 0,
            (0x1fu16 << 3u16) & (0x1u16 << 0u16) == 0,
            (0x1u16 << 0u16) & (0x3u16 << 8u16) == 0,
            (0x3u16 << 8u16) & (0x1u16 << 0u16) == 0,
            (0x1u16 << 0u16) & (0x1u16 << 10u16) == 0,
            (0x1u16 << 10u16) & (0x1u16 << 0u16) == 0,
            (0x1u16 << 0u16) & (0x1u16 << 11u16) == 0,
            (0x1u16 << 11u16) & (0x1u16 << 0u16) == 0,
            (0x1u16 << 0u16) & (0xfu16 << 12u16) == 0,
            (0xfu16 << 12u16) & (0x1u16 << 0u16) == 0,
            (0x3u16 << 1u16) & (0x1fu16 << 3u16) == 0,
            (0x1fu16 << 3u16) & (0x3u16 << 1u16) == 0,
            (0x3u16 << 1u16) & (0x3u16 << 8u16) == 0,
            (0x3u16 << 8u16) & (0x3u16 << 1u16) == 0,
            (0x3u16 << 1u16) & (0x1u16 << 10u16) == 0,
            (0x1u16 << 10u16) & (0x3u16 << 1u16) == 0,
            (0x3u16 << 1u16) & (0x1u16 << 11u16) == 0,
            (0x1u16 << 11u16) & (0x3u16 << 1u16) == 0,
            (0x3u16 << 1u16) & (0xfu16 << 12u16) == 0,
            (0xfu16 << 12u16) & (0x3u16 << 1u16) == 0,
            (0x1fu16 << 3u16) & (0x3u16 << 8u16) == 0,
            (0x3u16 << 8u16) & (0x1fu16 << 3u16) == 0,
            (0x1fu16 << 3u16) & (0x1u16 << 10u16) == 0,
            (0x1u16 << 10u16) & (0x1fu16 << 3u16) == 0,
            (0x1fu16 << 3u16) & (0x1u16 << 11u16) == 0,
            (0x1u16 << 11u16) & (0x1fu16 << 3u16) == 0,
            (0x1fu16 << 3u16) & (0xfu16 << 12u16) == 0,
            (0xfu16 << 12u16) & (0x1fu16 << 3u16) == 0,
            (0x3u16 << 8u16) & (0x1u16 << 10u16) == 0,
            (0x1u16 << 10u16) & (0x3u16 << 8u16) == 0,
            (0x3u16 << 8u16) & (0x1u16 << 11u16) == 0,
            (0x1u16 << 11u16) & (0x3u16 << 8u16) == 0,
            (0x3u16 << 8u16) & (0xfu16 << 12u16) == 0,
            (0xfu16 << 12u16) & (0x3u16 << 8u16) == 0,
            (0x1u16 << 10u16) & (0x1u16 << 11u16) == 0,
            (0x1u16 << 11u16) & (0x1u16 << 10u16) == 0,
            (0x1u16 << 10u16) & (0xfu16 << 12u16) == 0,
            (0xfu16 << 12u16) & (0x1u16 << 10u16) == 0,
            (0x1u16 << 11u16) & (0xfu16 << 12u16) == 0,
            (0xfu16 << 12u16) & (0x1u16 << 11u16) == 0,
            1u16 & 1u16 == 1,
            0u16 & 1u16 == 0,
    {
    }

    /// The raw bits.
    pub fn into_bits(self) -> (r: u16)
        ensures
            r == self.0,
    {
        self.0
    }

    /// Phased coexistence operation is supported.
    pub open spec fn spec_pco_supported(self) -> bool {
        get_bits_u16(self.0, 0, 1) == 1
    }

    /// Phased coexistence operation is supported.
    pub fn pco_supported(&self) -> (r: bool)
        ensures
            r == self.spec_pco_supported(),
    {
        (self.0 >> 0) & 1 == 1
    }

    /// Returns a copy with the field replaced by `value`.
    pub fn with_pco_supported(self, value: bool) -> (r: Self)
        ensures
            r.0 == set_bits_u16(self.0, 0, 0x1, (if value {
                1u16
            } else {
                0u16
            })),
            r.spec_pco_supported() == value,
            r.spec_pco_transition_time() == self.spec_pco_transition_time(),
            r.spec_reserved() == self.spec_reserved(),
            r.spec_mcs_feedback() == self.spec_mcs_feedback(),
            r.spec_plus_htc_support() == self.spec_plus_htc_support(),
            r.spec_rd_responder() == self.spec_rd_responder(),
            r.spec_reserved_2() == self.spec_reserved_2(),
    {
        let v: u16 = if value {
            1
        } else {
            0
        };
        proof {
            Self::lemma_masks_fit();
            lemma_set_bits_u16(self.0, 0, 0x1, v, 0, 0x1);
            lemma_set_bits_u16(self.0, 0, 0x1, v, 1, 0x3);
            lemma_set_bits_u16(self.0, 0, 0x1, v, 3, 0x1f);
            lemma_set_bits_u16(self.0, 0, 0x1, v, 8, 0x3);
            lemma_set_bits_u16(self.0, 0, 0x1, v, 10, 0x1);
            lemma_set_bits_u16(self.0, 0, 0x1, v, 11, 0x1);
            lemma_set_bits_u16(self.0, 0, 0x1, v, 12, 0xf);
        }
        Self((self.0 & !(0x1u16 << 0u16)) | ((v & 0x1) << 0u16))
    }

    /// The transition time of the phased coexistence operation.
    pub open spec fn spec_pco_transition_time(self) -> PCOTransitionTime {
        PCOTransitionTime::spec_from_bits(get_bits_u16(self.0, 1, 0x3) as u8)
    }

    /// The transition time of the phased coexistence operation.
    pub fn pco_transition_time(&self) -> (r: PCOTransitionTime)
        ensures
            r == self.spec_pco_transition_time(),
    {
        PCOTransitionTime::from_bits(((self.0 >> 1) & 0x3) as u8)
    }

    /// Returns a copy with the field replaced by `value`.
    pub fn with_pco_transition_time(self, value: PCOTransitionTime) -> (r: Self)
        ensures
            r.0 == set_bits_u16(self.0, 1, 0x3, (value.spec_into_bits() as u16)),
            r.spec_pco_transition_time() == PCOTransitionTime::spec_from_bits(((value.spec_into_bits() as u16) & 0x3) as u8),
            r.spec_pco_supported() == self.spec_pco_supported(),
            r.spec_reserved() == self.spec_reserved(),
            r.spec_mcs_feedback() == self.spec_mcs_feedback(),
            r.spec_plus_htc_support() == self.spec_plus_htc_support(),
            r.spec_rd_responder() == self.spec_rd_responder(),
            r.spec_reserved_2() == self.spec_reserved_2(),
    {
        let v: u16 = value.into_bits() as u16;
        proof {
            Self::lemma_masks_fit();
            lemma_set_bits_u16(self.0, 1, 0x3, v, 1, 0x3);
            lemma_set_bits_u16(self.0, 1, 0x3, v, 0, 0x1);
            lemma_set_bits_u16(self.0, 1, 0x3, v, 3, 0x1f);
            lemma_set_bits_u16(self.0, 1, 0x3, v, 8, 0x3);
            lemma_set_bits_u16(self.0, 1, 0x3, v, 10, 0x1);
            lemma_set_bits_u16(self.0, 1, 0x3, v, 11, 0x1);
            lemma_set_bits_u16(self.0, 1, 0x3, v, 12, 0xf);
        }
        Self((self.0 & !(0x3u16 << 1u16)) | ((v & 0x3) << 1u16))
    }

    /// Reserved bits.
    pub open spec fn spec_reserved(self) -> u8 {
        get_bits_u16(self.0, 3, 0x1f) as u8
    }

    /// Reserved bits.
    pub fn reserved(&self) -> (r: u8)
        ensures
            r == self.spec_reserved(),
    {
        ((self.0 >> 3) & 0x1f) as u8
    }

    /// Returns a copy with the field replaced by `value`.
    pub fn with_reserved(self, value: u8) -> (r: Self)
        ensures
            r.0 == set_bits_u16(self.0, 3, 0x1f, (value as u16)),
            r.spec_reserved() == ((value as u16) & 0x1f) as u8,
            r.spec_pco_supported() == self.spec_pco_supported(),
            r.spec_pco_transition_time() == self.spec_pco_transition_time(),
            r.spec_mcs_feedback() == self.spec_mcs_feedback(),
            r.spec_plus_htc_support() == self.spec_plus_htc_support(),
            r.spec_rd_responder() == self.spec_rd_responder(),
            r.spec_reserved_2() == self.spec_reserved_2(),
    {
        let v: u16 = value as u16;
        proof {
            Self::lemma_masks_fit();
            lemma_set_bits_u16(self.0, 3, 0x1f, v, 3, 0x1f);
            lemma_set_bits_u16(self.0, 3, 0x1f, v, 0, 0x1);
            lemma_set_bits_u16(self.0, 3, 0x1f, v, 1, 0x3);
            lemma_set_bits_u16(self.0, 3, 0x1f, v, 8, 0x3);
            lemma_set_bits_u16(self.0, 3, 0x1f, v, 10, 0x1);
            lemma_set_bits_u16(self.0, 3, 0x1f, v, 11, 0x1);
            lemma_set_bits_u16(self.0, 3, 0x1f, v, 12, 0xf);
        }
        Self((self.0 & !(0x1fu16 << 3u16)) | ((v & 0x1f) << 3u16))
    }

    /// The MCS feedback capability.
    pub open spec fn spec_mcs_feedback(self) -> u8 {
        get_bits_u16(self.0, 8, 0x3) as u8
    }

    /// The MCS feedback capability.
    pub fn mcs_feedback(&self) -> (r: u8)
        ensures
            r == self.spec_mcs_feedback(),
    {
        ((self.0 >> 8) & 0x3) as u8
    }

    /// Returns a copy with the field replaced by `value`.
    pub fn with_mcs_feedback(self, value: u8) -> (r: Self)
        ensures
            r.0 == set_bits_u16(self.0, 8, 0x3, (value as u16)),
            r.spec_mcs_feedback() == ((value as u16) & 0x3) as u8,
            r.spec_pco_supported() == self.spec_pco_supported(),
            r.spec_pco_transition_time() == self.spec_pco_transition_time(),
            r.spec_reserved() == self.spec_reserved(),
            r.spec_plus_htc_support() == self.spec_plus_htc_support(),
            r.spec_rd_responder() == self.spec_rd_responder(),
            r.spec_reserved_2() == self.spec_reserved_2(),
    {
        let v: u16 = value as u16;
        proof {
            Self::lemma_masks_fit();
            lemma_set_bits_u16(self.0, 8, 0x3, v, 8, 0x3);
            lemma_set_bits_u16(self.0, 8, 0x3, v, 0, 0x1);
            lemma_set_bits_u16(self.0, 8, 0x3, v, 1, 0x3);
            lemma_set_bits_u16(self.0, 8, 0x3, v, 3, 0x1f);
            lemma_set_bits_u16(self.0, 8, 0x3, v, 10, 0x1);
            lemma_set_bits_u16(self.0, 8, 0x3, v, 11, 0x1);
            lemma_set_bits_u16(self.0, 8, 0x3, v, 12, 0xf);
        }
        Self((self.0 & !(0x3u16 << 8u16)) | ((v & 0x3) << 8u16))
    }

    /// The HT variant HT control field is supported.
    pub open spec fn spec_plus_htc_support(self) -> bool {
        get_bits_u16(self.0, 10, 1) == 1
    }

    /// The HT variant HT control field is supported.
    pub fn plus_htc_support(&self) -> (r: bool)
        ensures
            r == self.spec_plus_htc_support(),
    {
        (self.0 >> 10) & 1 == 1
    }

    /// Returns a copy with the field replaced by `value`.
    pub fn with_plus_htc_support(self, value: bool) -> (r: Self)
        ensures
            r.0 == set_bits_u16(self.0, 10, 0x1, (if value {
                1u16
            } else {
                0u16
            })),
            r.spec_plus_htc_support() == value,
            r.spec_pco_supported() == self.spec_pco_supported(),
            r.spec_pco_transition_time() == self.spec_pco_transition_time(),
            r.spec_reserved() == self.spec_reserved(),
            r.spec_mcs_feedback() == self.spec_mcs_feedback(),
            r.spec_rd_responder() == self.spec_rd_responder(),
            r.spec_reserved_2() == self.spec_reserved_2(),
    {
        let v: u16 = if value {
            1
        } else {
            0
        };
        proof {
            Self::lemma_masks_fit();
            lemma_set_bits_u16(self.0, 10, 0x1, v, 10, 0x1);
            lemma_set_bits_u16(self.0, 10, 0x1, v, 0, 0x1);
            lemma_set_bits_u16(self.0, 10, 0x1, v, 1, 0x3);
            lemma_set_bits_u16(self.0, 10, 0x1, v, 3, 0x1f);
            lemma_set_bits_u16(self.0, 10, 0x1, v, 8, 0x3);
            lemma_set_bits_u16(self.0, 10, 0x1, v, 11, 0x1);
            lemma_set_bits_u16(self.0, 10, 0x1, v, 12, 0xf);
        }
        Self((self.0 & !(0x1u16 << 10u16)) | ((v & 0x1) << 10u16))
    }

    /// The STA can act as a reverse direction responder.
    pub open spec fn spec_rd_responder(self) -> bool {
        get_bits_u16(self.0, 11, 1) == 1
    }

    /// The STA can act as a reverse direction responder.
    pub fn rd_responder(&self) -> (r: bool)
        ensures
            r == self.spec_rd_responder(),
    {
        (self.0 >> 11) & 1 == 1
    }

    /// Returns a copy with the field replaced by `value`.
    pub fn with_rd_responder(self, value: bool) -> (r: Self)
        ensures
            r.0 == set_bits_u16(self.0, 11, 0x1, (if value {
                1u16
            } else {
                0u16
            })),
            r.spec_rd_responder() == value,
            r.spec_pco_supported() == self.spec_pco_supported(),
            r.spec_pco_transition_time() == self.spec_pco_transition_time(),
            r.spec_reserved() == self.spec_reserved(),
            r.spec_mcs_feedback() == self.spec_mcs_feedback(),
            r.spec_plus_htc_support() == self.spec_plus_htc_support(),
            r.spec_reserved_2() == self.spec_reserved_2(),
    {
        let v: u16 = if value {
            1
        } else {
            0
        };
        proof {
            Self::lemma_masks_fit();
            lemma_set_bits_u16(self.0, 11, 0x1, v, 11, 0x1);
            lemma_set_bits_u16(self.0, 11, 0x1, v, 0, 0x1);
            lemma_set_bits_u16(self.0, 11, 0x1, v, 1, 0x3);
            lemma_set_bits_u16(self.0, 11, 0x1, v, 3, 0x1f);
            lemma_set_bits_u16(self.0, 11, 0x1, v, 8, 0x3);
            lemma_set_bits_u16(self.0, 11, 0x1, v, 10, 0x1);
            lemma_set_bits_u16(self.0, 11, 0x1, v, 12, 0xf);
        }
        Self((self.0 & !(0x1u16 << 11u16)) | ((v & 0x1) << 11u16))
    }

    /// More reserved bits.
    pub open spec fn spec_reserved_2(self) -> u8 {
        get_bits_u16(self.0, 12, 0xf) as u8
    }

    /// More reserved bits.
    pub fn reserved_2(&self) -> (r: u8)
        ensures
            r == self.spec_reserved_2(),
    {
        ((self.0 >> 12) & 0xf) as u8
    }

    /// Returns a copy with the field replaced by `value`.
    pub fn with_reserved_2(self, value: u8) -> (r: Self)
        ensures
            r.0 == set_bits_u16(self.0, 12, 0xf, (value as u16)),
            r.spec_reserved_2() == ((value as u16) & 0xf) as u8,
            r.spec_pco_supported() == self.spec_pco_supported(),
            r.spec_pco_transition_time() == self.spec_pco_transition_time(),
            r.spec_reserved() == self.spec_reserved(),
            r.spec_mcs_feedback() == self.spec_mcs_feedback(),
            r.spec_plus_htc_support() == self.spec_plus_htc_support(),
            r.spec_rd_responder() == self.spec_rd_responder(),
    {
        let v: u16 = value as u16;
        proof {
            Self::lemma_masks_fit();
            lemma_set_bits_u16(self.0, 12, 0xf, v, 12, 0xf);
            lemma_set_bits_u16(self.0, 12, 0xf, v, 0, 0x1);
            lemma_set_bits_u16(self.0, 12, 0xf, v, 1, 0x3);
            lemma_set_bits_u16(self.0, 12, 0xf, v, 3, 0x1f);
            lemma_set_bits_u16(self.0, 12, 0xf, v, 8, 0x3);
            lemma_set_bits_u16(self.0, 12, 0xf, v, 10, 0x1);
            lemma_set_bits_u16(self.0, 12, 0xf, v, 11, 0x1);
        }
        Self((self.0 & !(0xfu16 << 12u16)) | ((v & 0xf) << 12u16))
    }
}

/// The transmit beamforming capabilities.
#[derive(Clone, Copy, Debug, PartialEq, Eq, Hash, Structural)]
pub struct TransmitBeamformingCapabilities(pub u32);

impl TransmitBeamformingCapabilities {
    /// A value with every field at its default.
    pub fn new() -> (r: Self)
        ensures
            r.0 == 0x0,
    {
        Self(0x0)
    }

    /// Wrap the raw bits.
    pub fn from_bits(bits: u32) -> (r: Self)
        ensures
            r.0 == bits,
    {
        Self(bits)
    }

    /// Every field mask fits in the backing integer.
    proof fn lemma_masks_fit()
        by (bit_vector)
        ensures
            fits_u32(0, 0x1),
            fits_u32(1, 0x1),
            fits_u32(2, 0x1),
            fits_u32(3, 0x1),
            fits_u32(4, 0x1),
            fits_u32(5, 0x1),
            fits_u32(6, 0x3),
            fits_u32(8, 0x1),
            fits_u32(9, 0x1),
            fits_u32(10, 0x1),
            fits_u32(11, 0x3),
            fits_u32(13, 0x3),
            fits_u32(15, 0x3),
            fits_u32(17, 0x3),
            fits_u32(19, 0x3),
            fits_u32(21, 0x3),
            fits_u32(23, 0x3),
            fits_u32(25, 0x3),
            fits_u32(27, 0x3),
            fits_u32(29, 0x7),
            (0x1u32 << 0u32) & (0x1u32 << 1u32) == 0,
            (0x1u32 << 1u32) & (0x1u32 << 0u32) == 0,
            (0x1u32 << 0u32) & (0x1u32 << 2u32) == 0,
            (0x1u32 << 2u32) & (0x1u32 << 0u32) == 0,
            (0x1u32 << 0u32) & (0x1u32 << 3u32) == 0,
            (0x1u32 << 3u32) & (0x1u32 << 0u32) == 0,
            (0x1u32 << 0u32) & (0x1u32 << 4u32) == 0,
            (0x1u32 << 4u32) & (0x1u32 << 0u32) == 0,
            (0x1u32 << 0u32) & (0x1u32 << 5u32) == 0,
            (0x1u32 << 5u32) & (0x1u32 << 0u32) == 0,
            (0x1u32 << 0u32) & (0x3u32 << 6u32) == 0,
            (0x3u32 << 6u32) & (0x1u32 << 0u32) == 0,
            (0x1u32 << 0u32) & (0x1u32 << 8u32) == 0,
            (0x1u32 << 8u32) & (0x1u32 << 0u32) == 0,
            (0x1u32 << 0u32) & (0x1u32 << 9u32) == 0,
            (0x1u32 << 9u32) & (0x1u32 << 0u32) == 0,
            (0x1u32 << 0u32) & (0x1u32 << 10u32) == 0,
            (0x1u32 << 10u32) & (0x1u32 << 0u32) == 0,
            (0x1u32 << 0u32) & (0x3u32 << 11u32) == 0,
            (0x3u32 << 11u32) & (0x1u32 << 0u32) == 0,
            (0x1u32 << 0u32) & (0x3u32 << 13u32) == 0,
            (0x3u32 << 13u32) & (0x1u32 << 0u32) == 0,
            (0x1u32 << 0u32) & (0x3u32 << 15u32) == 0,
            (0x3u32 << 15u32) & (0x1u32 << 0u32) == 0,
            (0x1u32 << 0u32) & (0x3u32 << 17u32) == 0,
            (0x3u32 << 17u32) & (0x1u32 << 0u32) == 0,
            (0x1u32 << 0u32) & (0x3u32 << 19u32) == 0,
            (0x3u32 << 19u32) & (0x1u32 << 0u32) == 0,
            (0x1u32 << 0u32) & (0x3u32 << 21u32) == 0,
            (0x3u32 << 21u32) & (0x1u32 << 0u32) == 0,
            (0x1u32 << 0u32) & (0x3u32 << 23u32) == 0,
            (0x3u32 << 23u32) & (0x1u32 << 0u32) == 0,
            (0x1u32 << 0u32) & (0x3u32 << 25u32) == 0,
            (0x3u32 << 25u32) & (0x1u32 << 0u32) == 0,
            (0x1u32 << 0u32) & (0x3u32 << 27u32) == 0,
            (0x3u32 << 27u32) & (0x1u32 << 0u32) == 0,
            (0x1u32 << 0u32) & (0x7u32 << 29u32) == 0,
            (0x7u32 << 29u32) & (0x1u32 << 0u32) == 0,
            (0x1u32 << 1u32) & (0x1u32 << 2u32) == 0,
            (0x1u32 << 2u32) & (0x1u32 << 1u32) == 0,
            (0x1u32 << 1u32) & (0x1u32 << 3u32) == 0,
            (0x1u32 << 3u32) & (0x1u32 << 1u32) == 0,
            (0x1u32 << 1u32) & (0x1u32 << 4u32) == 0,
            (0x1u32 << 4u32) & (0x1u32 << 1u32) == 0,
            (0x1u32 << 1u32) & (0x1u32 << 5u32) == 0,
            (0x1u32 << 5u32) & (0x1u32 << 1u32) == 0,
            (0x1u32 << 1u32) & (0x3u32 << 6u32) == 0,
            (0x3u32 << 6u32) & (0x1u32 << 1u32) == 0,
            (0x1u32 << 1u32) & (0x1u32 << 8u32) == 0,
            (0x1u32 << 8u32) & (0x1u32 << 1u32) == 0,
            (0x1u32 << 1u32) & (0x1u32 << 9u32) == 0,
            (0x1u32 << 9u32) & (0x1u32 << 1u32) == 0,
            (0x1u32 << 1u32) & (0x1u32 << 10u32) == 0,
            (0x1u32 << 10u32) & (0x1u32 << 1u32) == 0,
            (0x1u32 << 1u32) & (0x3u32 << 11u32) == 0,
            (0x3u32 << 11u32) & (0x1u32 << 1u32) == 0,
            (0x1u32 << 1u32) & (0x3u32 << 13u32) == 0,
            (0x3u32 << 13u32) & (0x1u32 << 1u32) == 0,
            (0x1u32 << 1u32) & (0x3u32 << 15u32) == 0,
            (0x3u32 << 15u32) & (0x1u32 << 1u32) == 0,
            (0x1u32 << 1u32) & (0x3u32 << 17u32) == 0,
            (0x3u32 << 17u32) & (0x1u32 << 1u32) == 0,
            (0x1u32 << 1u32) & (0x3u32 << 19u32) == 0,
            (0x3u32 << 19u32) & (0x1u32 << 1u32) == 0,
            (0x1u32 << 1u32) & (0x3u32 << 21u32) == 0,
            (0x3u32 << 21u32) & (0x1u32 << 1u32) == 0,
            (0x1u32 << 1u32) & (0x3u32 << 23u32) == 0,
            (0x3u32 << 23u32) & (0x1u32 << 1u32) == 0,
            (0x1u32 << 1u32) & (0x3u32 << 25u32) == 0,
            (0x3u32 << 25u32) & (0x1u32 << 1u32) == 0,
            (0x1u32 << 1u32) & (0x3u32 << 27u32) == 0,
            (0x3u32 << 27u32) & (0x1u32 << 1u32) == 0,
            (0x1u32 << 1u32) & (0x7u32 << 29u32) == 0,
            (0x7u32 << 29u32) & (0x1u32 << 1u32) == 0,
            (0x1u32 << 2u32) & (0x1u32 << 3u32) == 0,
            (0x1u32 << 3u32) & (0x1u32 << 2u32) == 0,
            (0x1u32 << 2u32) & (0x1u32 << 4u32) == 0,
            (0x1u32 << 4u32) & (0x1u32 << 2u32) == 0,
            (0x1u32 << 2u32) & (0x1u32 << 5u32) == 0,
            (0x1u32 << 5u32) & (0x1u32 << 2u32) == 0,
            (0x1u32 << 2u32) & (0x3u32 << 6u32) == 0,
            (0x3u32 << 6u32) & (0x1u32 << 2u32) == 0,
            (0x1u32 << 2u32) & (0x1u32 << 8u32) == 0,
            (0x1u32 << 8u32) & (0x1u32 << 2u32) == 0,
            (0x1u32 << 2u32) & (0x1u32 << 9u32) == 0,
            (0x1u32 << 9u32) & (0x1u32 << 2u32) == 0,
            (0x1u32 << 2u32) & (0x1u32 << 10u32) == 0,
            (0x1u32 << 10u32) & (0x1u32 << 2u32) == 0,
            (0x1u32 << 2u32) & (0x3u32 << 11u32) == 0,
            (0x3u32 << 11u32) & (0x1u32 << 2u32) == 0,
            (0x1u32 << 2u32) & (0x3u32 << 13u32) == 0,
            (0x3u32 << 13u32) & (0x1u32 << 2u32) == 0,
            (0x1u32 << 2u32) & (0x3u32 << 15u32) == 0,
            (0x3u32 << 15u32) & (0x1u32 << 2u32) == 0,
            (0x1u32 << 2u32) & (0x3u32 << 17u32) == 0,
            (0x3u32 << 17u32) & (0x1u32 << 2u32) == 0,
            (0x1u32 << 2u32) & (0x3u32 << 19u32) == 0,
            (0x3u32 << 19u32) & (0x1u32 << 2u32) == 0,
            (0x1u32 << 2u32) & (0x3u32 << 21u32) == 0,
            (0x3u32 << 21u32) & (0x1u32 << 2u32) == 0,
            (0x1u32 << 2u32) & (0x3u32 << 23u32) == 0,
            (0x3u32 << 23u32) & (0x1u32 << 2u32) == 0,
            (0x1u32 << 2u32) & (0x3u32 << 25u32) == 0,
            (0x3u32 << 25u32) & (0x1u32 << 2u32) == 0,
            (0x1u32 << 2u32) & (0x3u32 << 27u32) == 0,
            (0x3u32 << 27u32) & (0x1u32 << 2u32) == 0,
            (0x1u32 << 2u32) & (0x7u32 << 29u32) == 0,
            (0x7u32 << 29u32) & (0x1u32 << 2u32) == 0,
            (0x1u32 << 3u32) & (0x1u32 << 4u32) == 0,
            (0x1u32 << 4u32) & (0x1u32 << 3u32) == 0,
            (0x1u32 << 3u32) & (0x1u32 << 5u32) == 0,
            (0x1u32 << 5u32) & (0x1u32 << 3u32) == 0,
            (0x1u32 << 3u32) & (0x3u32 << 6u32) == 0,
            (0x3u32 << 6u32) & (0x1u32 << 3u32) == 0,
            (0x1u32 << 3u32) & (0x1u32 << 8u32) == 0,
            (0x1u32 << 8u32) & (0x1u32 << 3u32) == 0,
            (0x1u32 << 3u32) & (0x1u32 << 9u32) == 0,
            (0x1u32 << 9u32) & (0x1u32 << 3u32) == 0,
            (0x1u32 << 3u32) & (0x1u32 << 10u32) == 0,
            (0x1u32 << 10u32) & (0x1u32 << 3u32) == 0,
            (0x1u32 << 3u32) & (0x3u32 << 11u32) == 0,
            (0x3u32 << 11u32) & (0x1u32 << 3u32) == 0,
            (0x1u32 << 3u32) & (0x3u32 << 13u32) == 0,
            (0x3u32 << 13u32) & (0x1u32 << 3u32) == 0,
            (0x1u32 << 3u32) & (0x3u32 << 15u32) == 0,
            (0x3u32 << 15u32) & (0x1u32 << 3u32) == 0,
            (0x1u32 << 3u32) & (0x3u32 << 17u32) == 0,
            (0x3u32 << 17u32) & (0x1u32 << 3u32) == 0,
            (0x1u32 << 3u32) & (0x3u32 << 19u32) == 0,
            (0x3u32 << 19u32) & (0x1u32 << 3u32) == 0,
            (0x1u32 << 3u32) & (0x3u32 << 21u32) == 0,
            (0x3u32 << 21u32) & (0x1u32 << 3u32) == 0,
            (0x1u32 << 3u32) & (0x3u32 << 23u32) == 0,
            (0x3u32 << 23u32) & (0x1u32 << 3u32) == 0,
            (0x1u32 << 3u32) & (0x3u32 << 25u32) == 0,
            (0x3u32 << 25u32) & (0x1u32 << 3u32) == 0,
            (0x1u32 << 3u32) & (0x3u32 << 27u32) == 0,
            (0x3u32 << 27u32) & (0x1u32 << 3u32) == 0,
            (0x1u32 << 3u32) & (0x7u32 << 29u32) == 0,
            (0x7u32 << 29u32) & (0x1u32 << 3u32) == 0,
            (0x1u32 << 4u32) & (0x1u32 << 5u32) == 0,
            (0x1u32 << 5u32) & (0x1u32 << 4u32) == 0,
            (0x1u32 << 4u32) & (0x3u32 << 6u32) == 0,
            (0x3u32 << 6u32) & (0x1u32 << 4u32) == 0,
            (0x1u32 << 4u32) & (0x1u32 << 8u32) == 0,
            (0x1u32 << 8u32) & (0x1u32 << 4u32) == 0,
            (0x1u32 << 4u32) & (0x1u32 << 9u32) == 0,
            (0x1u32 << 9u32) & (0x1u32 << 4u32) == 0,
            (0x1u32 << 4u32) & (0x1u32 << 10u32) == 0,
            (0x1u32 << 10u32) & (0x1u32 << 4u32) == 0,
            (0x1u32 << 4u32) & (0x3u32 << 11u32) == 0,
            (0x3u32 << 11u32) & (0x1u32 << 4u32) == 0,
            (0x1u32 << 4u32) & (0x3u32 << 13u32) == 0,
            (0x3u32 << 13u32) & (0x1u32 << 4u32) == 0,
            (0x1u32 << 4u32) & (0x3u32 << 15u32) == 0,
            (0x3u32 << 15u32) & (0x1u32 << 4u32) == 0,
            (0x1u32 << 4u32) & (0x3u32 << 17u32) == 0,
            (0x3u32 << 17u32) & (0x1u32 << 4u32) == 0,
            (0x1u32 << 4u32) & (0x3u32 << 19u32) == 0,
            (0x3u32 << 19u32) & (0x1u32 << 4u32) == 0,
            (0x1u32 << 4u32) & (0x3u32 << 21u32) == 0,
            (0x3u32 << 21u32) & (0x1u32 << 4u32) == 0,
            (0x1u32 << 4u32) & (0x3u32 << 23u32) == 0,
            (0x3u32 << 23u32) & (0x1u32 << 4u32) == 0,
            (0x1u32 << 4u32) & (0x3u32 << 25u32) == 0,
            (0x3u32 << 25u32) & (0x1u32 << 4u32) == 0,
            (0x1u32 << 4u32) & (0x3u32 << 27u32) == 0,
            (0x3u32 << 27u32) & (0x1u32 << 4u32) == 0,
            (0x1u32 << 4u32) & (0x7u32 << 29u32) == 0,
            (0x7u32 << 29u32) & (0x1u32 << 4u32) == 0,
            (0x1u32 << 5u32) & (0x3u32 << 6u32) == 0,
            (0x3u32 << 6u32) & (0x1u32 << 5u32) == 0,
            (0x1u32 << 5u32) & (0x1u32 << 8u32) == 0,
            (0x1u32 << 8u32) & (0x1u32 << 5u32) == 0,
            (0x1u32 << 5u32) & (0x1u32 << 9u32) == 0,
            (0x1u32 << 9u32) & (0x1u32 << 5u32) == 0,
            (0x1u32 << 5u32) & (0x1u32 << 10u32) == 0,
            (0x1u32 << 10u32) & (0x1u32 << 5u32) == 0,
            (0x1u32 << 5u32) & (0x3u32 << 11u32) == 0,
            (0x3u32 << 11u32) & (0x1u32 << 5u32) == 0,
            (0x1u32 << 5u32) & (0x3u32 << 13u32) == 0,
            (0x3u32 << 13u32) & (0x1u32 << 5u32) == 0,
            (0x1u32 << 5u32) & (0x3u32 << 15u32) == 0,
            (0x3u32 << 15u32) & (0x1u32 << 5u32) == 0,
            (0x1u32 << 5u32) & (0x3u32 << 17u32) == 0,
            (0x3u32 << 17u32) & (0x1u32 << 5u32) == 0,
            (0x1u32 << 5u32) & (0x3u32 << 19u32) == 0,
            (0x3u32 << 19u32) & (0x1u32 << 5u32) == 0,
            (0x1u32 << 5u32) & (0x3u32 << 21u32) == 0,
            (0x3u32 << 21u32) & (0x1u32 << 5u32) == 0,
            (0x1u32 << 5u32) & (0x3u32 << 23u32) == 0,
            (0x3u32 << 23u32) & (0x1u32 << 5u32) == 0,
            (0x1u32 << 5u32) & (0x3u32 << 25u32) == 0,
            (0x3u32 << 25u32) & (0x1u32 << 5u32) == 0,
            (0x1u32 << 5u32) & (0x3u32 << 27u32) == 0,
            (0x3u32 << 27u32) & (0x1u32 << 5u32) == 0,
            (0x1u32 << 5u32) & (0x7u32 << 29u32) == 0,
            (0x7u32 << 29u32) & (0x1u32 << 5u32) == 0,
            (0x3u32 << 6u32) & (0x1u32 << 8u32) == 0,
            (0x1u32 << 8u32) & (0x3u32 << 6u32) == 0,
            (0x3u32 << 6u32) & (0x1u32 << 9u32) == 0,
            (0x1u32 << 9u32) & (0x3u32 << 6u32) == 0,
            (0x3u32 << 6u32) & (0x1u32 << 10u32) == 0,
            (0x1u32 << 10u32) & (0x3u32 << 6u32) == 0,
            (0x3u32 << 6u32) & (0x3u32 << 11u32) == 0,
            (0x3u32 << 11u32) & (0x3u32 << 6u32) == 0,
            (0x3u32 << 6u32) & (0x3u32 << 13u32) == 0,
            (0x3u32 << 13u32) & (0x3u32 << 6u32) == 0,
            (0x3u32 << 6u32) & (0x3u32 << 15u32) == 0,
            (0x3u32 << 15u32) & (0x3u32 << 6u32) == 0,
            (0x3u32 << 6u32) & (0x3u32 << 17u32) == 0,
            (0x3u32 << 17u32) & (0x3u32 << 6u32) == 0,
            (0x3u32 << 6u32) & (0x3u32 << 19u32) == 0,
            (0x3u32 << 19u32) & (0x3u32 << 6u32) == 0,
            (0x3u32 << 6u32) & (0x3u32 << 21u32) == 0,
            (0x3u32 << 21u32) & (0x3u32 << 6u32) == 0,
            (0x3u32 << 6u32) & (0x3u32 << 23u32) == 0,
            (0x3u32 << 23u32) & (0x3u32 << 6u32) == 0,
            (0x3u32 << 6u32) & (0x3u32 << 25u32) == 0,
            (0x3u32 << 25u32) & (0x3u32 << 6u32) == 0,
            (0x3u32 << 6u32) & (0x3u32 << 27u32) == 0,
            (0x3u32 << 27u32) & (0x3u32 << 6u32) == 0,
            (0x3u32 << 6u32) & (0x7u32 << 29u32) == 0,
            (0x7u32 << 29u32) & (0x3u32 << 6u32) == 0,
            (0x1u32 << 8u32) & (0x1u32 << 9u32) == 0,
            (0x1u32 << 9u32) & (0x1u32 << 8u32) == 0,
            (0x1u32 << 8u32) & (0x1u32 << 10u32) == 0,
            (0x1u32 << 10u32) & (0x1u32 << 8u32) == 0,
            (0x1u32 << 8u32) & (0x3u32 << 11u32) == 0,
            (0x3u32 << 11u32) & (0x1u32 << 8u32) == 0,
            (0x1u32 << 8u32) & (0x3u32 << 13u32) == 0,
            (0x3u32 << 13u32) & (0x1u32 << 8u32) == 0,
            (0x1u32 << 8u32) & (0x3u32 << 15u32) == 0,
            (0x3u32 << 15u32) & (0x1u32 << 8u32) == 0,
            (0x1u32 << 8u32) & (0x3u32 << 17u32) == 0,
            (0x3u32 << 17u32) & (0x1u32 << 8u32) == 0,
            (0x1u32 << 8u32) & (0x3u32 << 19u32) == 0,
            (0x3u32 << 19u32) & (0x1u32 << 8u32) == 0,
            (0x1u32 << 8u32) & (0x3u32 << 21u32) == 0,
            (0x3u32 << 21u32) & (0x1u32 << 8u32) == 0,
            (0x1u32 << 8u32) & (0x3u32 << 23u32) == 0,
            (0x3u32 << 23u32) & (0x1u32 << 8u32) == 0,
            (0x1u32 << 8u32) & (0x3u32 << 25u32) == 0,
            (0x3u32 << 25u32) & (0x1u32 << 8u32) == 0,
            (0x1u32 << 8u32) & (0x3u32 << 27u32) == 0,
            (0x3u32 << 27u32) & (0x1u32 << 8u32) == 0,
            (0x1u32 << 8u32) & (0x7u32 << 29u32) == 0,
            (0x7u32 << 29u32) & (0x1u32 << 8u32) == 0,
            (0x1u32 << 9u32) & (0x1u32 << 10u32) == 0,
            (0x1u32 << 10u32) & (0x1u32 << 9u32) == 0,
            (0x1u32 << 9u32) & (0x3u32 << 11u32) == 0,
            (0x3u32 << 11u32) & (0x1u32 << 9u32) == 0,
            (0x1u32 << 9u32) & (0x3u32 << 13u32) == 0,
            (0x3u32 << 13u32) & (0x1u32 << 9u32) == 0,
            (0x1u32 << 9u32) & (0x3u32 << 15u32) == 0,
            (0x3u32 << 15u32) & (0x1u32 << 9u32) == 0,
            (0x1u32 << 9u32) & (0x3u32 << 17u32) == 0,
            (0x3u32 << 17u32) & (0x1u32 << 9u32) == 0,
            (0x1u32 << 9u32) & (0x3u32 << 19u32) == 0,
            (0x3u32 << 19u32) & (0x1u32 << 9u32) == 0,
            (0x1u32 << 9u32) & (0x3u32 << 21u32) == 0,
            (0x3u32 << 21u32) & (0x1u32 << 9u32) == 0,
            (0x1u32 << 9u32) & (0x3u32 << 23u32) == 0,
            (0x3u32 << 23u32) & (0x1u32 << 9u32) == 0,
            (0x1u32 << 9u32) & (0x3u32 << 25u32) == 0,
            (0x3u32 << 25u32) & (0x1u32 << 9u32) == 0,
            (0x1u32 << 9u32) & (0x3u32 << 27u32) == 0,
            (0x3u32 << 27u32) & (0x1u32 << 9u32) == 0,
            (0x1u32 << 9u32) & (0x7u32 << 29u32) == 0,
            (0x7u32 << 29u32) & (0x1u32 << 9u32) == 0,
            (0x1u32 << 10u32) & (0x3u32 << 11u32) == 0,
            (0x3u32 << 11u32) & (0x1u32 << 10u32) == 0,
            (0x1u32 << 10u32) & (0x3u32 << 13u32) == 0,
            (0x3u32 << 13u32) & (0x1u32 << 10u32) == 0,
            (0x1u32 << 10u32) & (0x3u32 << 15u32) == 0,
            (0x3u32 << 15u32) & (0x1u32 << 10u32) == 0,
            (0x1u32 << 10u32) & (0x3u32 << 17u32) == 0,
            (0x3u32 << 17u32) & (0x1u32 << 10u32) == 0,
            (0x1u32 << 10u32) & (0x3u32 << 19u32) == 0,
            (0x3u32 << 19u32) & (0x1u32 << 10u32) == 0,
            (0x1u32 << 10u32) & (0x3u32 << 21u32) == 0,
            (0x3u32 << 21u32) & (0x1u32 << 10u32) == 0,
            (0x1u32 << 10u32) & (0x3u32 << 23u32) == 0,
            (0x3u32 << 23u32) & (0x1u32 << 10u32) == 0,
            (0x1u32 << 10u32) & (0x3u32 << 25u32) == 0,
            (0x3u32 << 25u32) & (0x1u32 << 10u32) == 0,
            (0x1u32 << 10u32) & (0x3u32 << 27u32) == 0,
            (0x3u32 << 27u32) & (0x1u32 << 10u32) == 0,
            (0x1u32 << 10u32) & (0x7u32 << 29u32) == 0,
            (0x7u32 << 29u32) & (0x1u32 << 10u32) == 0,
            (0x3u32 << 11u32) & (0x3u32 << 13u32) == 0,
            (0x3u32 << 13u32) & (0x3u32 << 11u32) == 0,
            (0x3u32 << 11u32) & (0x3u32 << 15u32) == 0,
            (0x3u32 << 15u32) & (0x3u32 << 11u32) == 0,
            (0x3u32 << 11u32) & (0x3u32 << 17u32) == 0,
            (0x3u32 << 17u32) & (0x3u32 << 11u32) == 0,
            (0x3u32 << 11u32) & (0x3u32 << 19u32) == 0,
            (0x3u32 << 19u32) & (0x3u32 << 11u32) == 0,
            (0x3u32 << 11u32) & (0x3u32 << 21u32) == 0,
            (0x3u32 << 21u32) & (0x3u32 << 11u32) == 0,
            (0x3u32 << 11u32) & (0x3u32 << 23u32) == 0,
            (0x3u32 << 23u32) & (0x3u32 << 11u32) == 0,
            (0x3u32 << 11u32) & (0x3u32 << 25u32) == 0,
            (0x3u32 << 25u32) & (0x3u32 << 11u32) == 0,
            (0x3u32 << 11u32) & (0x3u32 << 27u32) == 0,
            (0x3u32 << 27u32) & (0x3u32 << 11u32) == 0,
            (0x3u32 << 11u32) & (0x7u32 << 29u32) == 0,
            (0x7u32 << 29u32) & (0x3u32 << 11u32) == 0,
            (0x3u32 << 13u32) & (0x3u32 << 15u32) == 0,
            (0x3u32 << 15u32) & (0x3u32 << 13u32) == 0,
            (0x3u32 << 13u32) & (0x3u32 << 17u32) == 0,
            (0x3u32 << 17u32) & (0x3u32 << 13u32) == 0,
            (0x3u32 << 13u32) & (0x3u32 << 19u32) == 0,
            (0x3u32 << 19u32) & (0x3u32 << 13u32) == 0,
            (0x3u32 << 13u32) & (0x3u32 << 21u32) == 0,
            (0x3u32 << 21u32) & (0x3u32 << 13u32) == 0,
            (0x3u32 << 13u32) & (0x3u32 << 23u32) == 0,
            (0x3u32 << 23u32) & (0x3u32 << 13u32) == 0,
            (0x3u32 << 13u32) & (0x3u32 << 25u32) == 0,
            (0x3u32 << 25u32) & (0x3u32 << 13u32) == 0,
            (0x3u32 << 13u32) & (0x3u32 << 27u32) == 0,
            (0x3u32 << 27u32) & (0x3u32 << 13u32) == 0,
            (0x3u32 << 13u32) & (0x7u32 << 29u32) == 0,
            (0x7u32 << 29u32) & (0x3u32 << 13u32) == 0,
            (0x3u32 << 15u32) & (0x3u32 << 17u32) == 0,
            (0x3u32 << 17u32) & (0x3u32 << 15u32) == 0,
            (0x3u32 << 15u32) & (0x3u32 << 19u32) == 0,
            (0x3u32 << 19u32) & (0x3u32 << 15u32) == 0,
            (0x3u32 << 15u32) & (0x3u32 << 21u32) == 0,
            (0x3u32 << 21u32) & (0x3u32 << 15u32) == 0,
            (0x3u32 << 15u32) & (0x3u32 << 23u32) == 0,
            (0x3u32 << 23u32) & (0x3u32 << 15u32) == 0,
            (0x3u32 << 15u32) & (0x3u32 << 25u32) == 0,
            (0x3u32 << 25u32) & (0x3u32 << 15u32) == 0,
            (0x3u32 << 15u32) & (0x3u32 << 27u32) == 0,
            (0x3u32 << 27u32) & (0x3u32 << 15u32) == 0,
            (0x3u32 << 15u32) & (0x7u32 << 29u32) == 0,
            (0x7u32 << 29u32) & (0x3u32 << 15u32) == 0,
            (0x3u32 << 17u32) & (0x3u32 << 19u32) == 0,
            (0x3u32 << 19u32) & (0x3u32 << 17u32) == 0,
            (0x3u32 << 17u32) & (0x3u32 << 21u32) == 0,
            (0x3u32 << 21u32) & (0x3u32 << 17u32) == 0,
            (0x3u32 << 17u32) & (0x3u32 << 23u32) == 0,
            (0x3u32 << 23u32) & (0x3u32 << 17u32) == 0,
            (0x3u32 << 17u32) & (0x3u32 << 25u32) == 0,
            (0x3u32 << 25u32) & (0x3u32 << 17u32) == 0,
            (0x3u32 << 17u32) & (0x3u32 << 27u32) == 0,
            (0x3u32 << 27u32) & (0x3u32 << 17u32) == 0,
            (0x3u32 << 17u32) & (0x7u32 << 29u32) == 0,
            (0x7u32 << 29u32) & (0x3u32 << 17u32) == 0,
            (0x3u32 << 19u32) & (0x3u32 << 21u32) == 0,
            (0x3u32 << 21u32) & (0x3u32 << 19u32) == 0,
            (0x3u32 << 19u32) & (0x3u32 << 23u32) == 0,
            (0x3u32 << 23u32) & (0x3u32 << 19u32) == 0,
            (0x3u32 << 19u32) & (0x3u32 << 25u32) == 0,
            (0x3u32 << 25u32) & (0x3u32 << 19u32) == 0,
            (0x3u32 << 19u32) & (0x3u32 << 27u32) == 0,
            (0x3u32 << 27u32) & (0x3u32 << 19u32) == 0,
            (0x3u32 << 19u32) & (0x7u32 << 29u32) == 0,
            (0x7u32 << 29u32) & (0x3u32 << 19u32) == 0,
            (0x3u32 << 21u32) & (0x3u32 << 23u32) == 0,
            (0x3u32 << 23u32) & (0x3u32 << 21u32) == 0,
            (0x3u32 << 21u32) & (0x3u32 << 25u32) == 0,
            (0x3u32 << 25u32) & (0x3u32 << 21u32) == 0,
            (0x3u32 << 21u32) & (0x3u32 << 27u32) == 0,
            (0x3u32 << 27u32) & (0x3u32 << 21u32) == 0,
            (0x3u32 << 21u32) & (0x7u32 << 29u32) == 0,
            (0x7u32 << 29u32) & (0x3u32 << 21u32) == 0,
            (0x3u32 << 23u32) & (0x3u32 << 25u32) == 0,
            (0x3u32 << 25u32) & (0x3u32 << 23u32) == 0,
            (0x3u32 << 23u32) & (0x3u32 << 27u32) == 0,
            (0x3u32 << 27u32) & (0x3u32 << 23u32) == 0,
            (0x3u32 << 23u32) & (0x7u32 << 29u32) == 0,
            (0x7u32 << 29u32) & (0x3u32 << 23u32) == 0,
            (0x3u32 << 25u32) & (0x3u32 << 27u32) == 0,
            (0x3u32 << 27u32) & (0x3u32 << 25u32) == 0,
            (0x3u32 << 25u32) & (0x7u32 << 29u32) == 0,
            (0x7u32 << 29u32) & (0x3u32 << 25u32) == 0,
            (0x3u32 << 27u32) & (0x7u32 << 29u32) == 0,
            (0x7u32 << 29u32) & (0x3u32 << 27u32) == 0,
            1u32 & 1u32 == 1,
            0u32 & 1u32 == 0,
    {
    }

    /// The raw bits.
    pub fn into_bits(self) -> (r: u32)
        ensures
            r == self.0,
    {
        self.0
    }

    /// Implicit transmit beamforming can be received.
    pub open spec fn spec_implicit_transmit_beamforming_receiving_capable(self) -> bool {
        get_bits_u32(self.0, 0, 1) == 1
    }

    /// Implicit transmit beamforming can be received.
    pub fn implicit_transmit_beamforming_receiving_capable(&self) -> (r: bool)
        ensures
            r == self.spec_implicit_transmit_beamforming_receiving_capable(),
    {
        (self.0 >> 0) & 1 == 1
    }

    /// Returns a copy with the field replaced by `value`.
    pub fn with_implicit_transmit_beamforming_receiving_capable(self, value: bool) -> (r: Self)
        ensures
            r.0 == set_bits_u32(self.0, 0, 0x1, (if value {
                1u32
            } else {
                0u32
            })),
            r.spec_implicit_transmit_beamforming_receiving_capable() == value,
            r.spec_receive_staggered_sounding_capable() == self.spec_receive_staggered_sounding_capable(),
            r.spec_transmit_staggered_sounding_capable() == self.spec_transmit_staggered_sounding_capable(),
            r.spec_receive_ndp_capable() == self.spec_receive_ndp_capable(),
            r.spec_transmit_ndp_capable() == self.spec_transmit_ndp_capable(),
            r.spec_implicit_transmit_beamforming_capable() == self.spec_implicit_transmit_beamforming_capable(),
            r.spec_calibration() == self.spec_calibration(),
            r.spec_explicit_csi_transmit_beamforming_capable() == self.spec_explicit_csi_transmit_beamforming_capable(),
            r.spec_explicit_noncompressed_steering_capable() == self.spec_explicit_noncompressed_steering_capable(),
            r.spec_explicit_compressed_steering_capable() == self.spec_explicit_compressed_steering_capable(),
            r.spec_explicit_transmit_beamforming_csi_feedback() == self.spec_explicit_transmit_beamforming_csi_feedback(),
            r.spec_explicit_noncompressed_beamforming_feedback_capable() == self.spec_explicit_noncompressed_beamforming_feedback_capable(),
            r.spec_explicit_compressed_beamforming_feedback_capable() == self.spec_explicit_compressed_beamforming_feedback_capable(),
            r.spec_minimal_grouping() == self.spec_minimal_grouping(),
            r.spec_csi_number_of_beamformer_antennas_supported() == self.spec_csi_number_of_beamformer_antennas_supported(),
            r.spec_noncompresssed_steering_number_of_beamformer_antennas_supported() == self.spec_noncompresssed_steering_number_of_beamformer_antennas_supported(),
            r.spec_compresssed_steering_number_of_beamformer_antennas_supported() == self.spec_compresssed_steering_number_of_beamformer_antennas_supported(),
            r.spec_csi_max_number_of_rows_beamformer_supported() == self.spec_csi_max_number_of_rows_beamformer_supported(),
            r.spec_channel_estimation_capability() == self.spec_channel_estimation_capability(),
            r.spec_reserved() == self.spec_reserved(),
    {
        let v: u32 = if value {
            1
        } else {
            0
        };
        proof {
            Self::lemma_masks_fit();
            lemma_set_bits_u32(self.0, 0, 0x1, v, 0, 0x1);
            lemma_set_bits_u32(self.0, 0, 0x1, v, 1, 0x1);
            lemma_set_bits_u32(self.0, 0, 0x1, v, 2, 0x1);
            lemma_set_bits_u32(self.0, 0, 0x1, v, 3, 0x1);
            lemma_set_bits_u32(self.0, 0, 0x1, v, 4, 0x1);
            lemma_set_bits_u32(self.0, 0, 0x1, v, 5, 0x1);
            lemma_set_bits_u32(self.0, 0, 0x1, v, 6, 0x3);
            lemma_set_bits_u32(self.0, 0, 0x1, v, 8, 0x1);
            lemma_set_bits_u32(self.0, 0, 0x1, v, 9, 0x1);
            lemma_set_bits_u32(self.0, 0, 0x1, v, 10, 0x1);
            lemma_set_bits_u32(self.0, 0, 0x1, v, 11, 0x3);
            lemma_set_bits_u32(self.0, 0, 0x1, v, 13, 0x3);
            lemma_set_bits_u32(self.0, 0, 0x1, v, 15, 0x3);
            lemma_set_bits_u32(self.0, 0, 0x1, v, 17, 0x3);
            lemma_set_bits_u32(self.0, 0, 0x1, v, 19, 0x3);
            lemma_set_bits_u32(self.0, 0, 0x1, v, 21, 0x3);
            lemma_set_bits_u32(self.0, 0, 0x1, v, 23, 0x3);
            lemma_set_bits_u32(self.0, 0, 0x1, v, 25, 0x3);
            lemma_set_bits_u32(self.0, 0, 0x1, v, 27, 0x3);
            lemma_set_bits_u32(self.0, 0, 0x1, v, 29, 0x7);
        }
        Self((self.0 & !(0x1u32 << 0u32)) | ((v & 0x1) << 0u32))
    }

    /// Staggered sounding can be received.
    pub open spec fn spec_receive_staggered_sounding_capable(self) -> bool {
        get_bits_u32(self.0, 1, 1) == 1
    }

    /// Staggered sounding can be received.
    pub fn receive_staggered_sounding_capable(&self) -> (r: bool)
        ensures
            r == self.spec_receive_staggered_sounding_capable(),
    {
        (self.0 >> 1) & 1 == 1
    }

    /// Returns a copy with the field replaced by `value`.
    pub fn with_receive_staggered_sounding_capable(self, value: bool) -> (r: Self)
        ensures
            r.0 == set_bits_u32(self.0, 1, 0x1, (if value {
                1u32
            } else {
                0u32
            })),
            r.spec_receive_staggered_sounding_capable() == value,
            r.spec_implicit_transmit_beamforming_receiving_capable() == self.spec_implicit_transmit_beamforming_receiving_capable(),
            r.spec_transmit_staggered_sounding_capable() == self.spec_transmit_staggered_sounding_capable(),
            r.spec_receive_ndp_capable() == self.spec_receive_ndp_capable(),
            r.spec_transmit_ndp_capable() == self.spec_transmit_ndp_capable(),
            r.spec_implicit_transmit_beamforming_capable() == self.spec_implicit_transmit_beamforming_capable(),
            r.spec_calibration() == self.spec_calibration(),
            r.spec_explicit_csi_transmit_beamforming_capable() == self.spec_explicit_csi_transmit_beamforming_capable(),
            r.spec_explicit_noncompressed_steering_capable() == self.spec_explicit_noncompressed_steering_capable(),
            r.spec_explicit_compressed_steering_capable() == self.spec_explicit_compressed_steering_capable(),
            r.spec_explicit_transmit_beamforming_csi_feedback() == self.spec_explicit_transmit_beamforming_csi_feedback(),
            r.spec_explicit_noncompressed_beamforming_feedback_capable() == self.spec_explicit_noncompressed_beamforming_feedback_capable(),
            r.spec_explicit_compressed_beamforming_feedback_capable() == self.spec_explicit_compressed_beamforming_feedback_capable(),
            r.spec_minimal_grouping() == self.spec_minimal_grouping(),
            r.spec_csi_number_of_beamformer_antennas_supported() == self.spec_csi_number_of_beamformer_antennas_supported(),
            r.spec_noncompresssed_steering_number_of_beamformer_antennas_supported() == self.spec_noncompresssed_steering_number_of_beamformer_antennas_supported(),
            r.spec_compresssed_steering_number_of_beamformer_antennas_supported() == self.spec_compresssed_steering_number_of_beamformer_antennas_supported(),
            r.spec_csi_max_number_of_rows_beamformer_supported() == self.spec_csi_max_number_of_rows_beamformer_supported(),
            r.spec_channel_estimation_capability() == self.spec_channel_estimation_capability(),
            r.spec_reserved() == self.spec_reserved(),
    {
        let v: u32 = if value {
            1
        } else {
            0
        };
        proof {
            Self::lemma_masks_fit();
            lemma_set_bits_u32(self.0, 1, 0x1, v, 1, 0x1);
            lemma_set_bits_u32(self.0, 1, 0x1, v, 0, 0x1);
            lemma_set_bits_u32(self.0, 1, 0x1, v, 2, 0x1);
            lemma_set_bits_u32(self.0, 1, 0x1, v, 3, 0x1);
            lemma_set_bits_u32(self.0, 1, 0x1, v, 4, 0x1);
            lemma_set_bits_u32(self.0, 1, 0x1, v, 5, 0x1);
            lemma_set_bits_u32(self.0, 1, 0x1, v, 6, 0x3);
            lemma_set_bits_u32(self.0, 1, 0x1, v, 8, 0x1);
            lemma_set_bits_u32(self.0, 1, 0x1, v, 9, 0x1);
            lemma_set_bits_u32(self.0, 1, 0x1, v, 10, 0x1);
            lemma_set_bits_u32(self.0, 1, 0x1, v, 11, 0x3);
            lemma_set_bits_u32(self.0, 1, 0x1, v, 13, 0x3);
            lemma_set_bits_u32(self.0, 1, 0x1, v, 15, 0x3);
            lemma_set_bits_u32(self.0, 1, 0x1, v, 17, 0x3);
            lemma_set_bits_u32(self.0, 1, 0x1, v, 19, 0x3);
            lemma_set_bits_u32(self.0, 1, 0x1, v, 21, 0x3);
            lemma_set_bits_u32(self.0, 1, 0x1, v, 23, 0x3);
            lemma_set_bits_u32(self.0, 1, 0x1, v, 25, 0x3);
            lemma_set_bits_u32(self.0, 1, 0x1, v, 27, 0x3);
            lemma_set_bits_u32(self.0, 1, 0x1, v, 29, 0x7);
        }
        Self((self.0 & !(0x1u32 << 1u32)) | ((v & 0x1) << 1u32))
    }

    /// Staggered sounding can be transmitted.
    pub open spec fn spec_transmit_staggered_sounding_capable(self) -> bool {
        get_bits_u32(self.0, 2, 1) == 1
    }

    /// Staggered sounding can be transmitted.
    pub fn transmit_staggered_sounding_capable(&self) -> (r: bool)
        ensures
            r == self.spec_transmit_staggered_sounding_capable(),
    {
        (self.0 >> 2) & 1 == 1
    }

    /// Returns a copy with the field replaced by `value`.
    pub fn with_transmit_staggered_sounding_capable(self, value: bool) -> (r: Self)
        ensures
            r.0 == set_bits_u32(self.0, 2, 0x1, (if value {
                1u32
            } else {
                0u32
            })),
            r.spec_transmit_staggered_sounding_capable() == value,
            r.spec_implicit_transmit_beamforming_receiving_capable() == self.spec_implicit_transmit_beamforming_receiving_capable(),
            r.spec_receive_staggered_sounding_capable() == self.spec_receive_staggered_sounding_capable(),
            r.spec_receive_ndp_capable() == self.spec_receive_ndp_capable(),
            r.spec_transmit_ndp_capable() == self.spec_transmit_ndp_capable(),
            r.spec_implicit_transmit_beamforming_capable() == self.spec_implicit_transmit_beamforming_capable(),
            r.spec_calibration() == self.spec_calibration(),
            r.spec_explicit_csi_transmit_beamforming_capable() == self.spec_explicit_csi_transmit_beamforming_capable(),
            r.spec_explicit_noncompressed_steering_capable() == self.spec_explicit_noncompressed_steering_capable(),
            r.spec_explicit_compressed_steering_capable() == self.spec_explicit_compressed_steering_capable(),
            r.spec_explicit_transmit_beamforming_csi_feedback() == self.spec_explicit_transmit_beamforming_csi_feedback(),
            r.spec_explicit_noncompressed_beamforming_feedback_capable() == self.spec_explicit_noncompressed_beamforming_feedback_capable(),
            r.spec_explicit_compressed_beamforming_feedback_capable() == self.spec_explicit_compressed_beamforming_feedback_capable(),
            r.spec_minimal_grouping() == self.spec_minimal_grouping(),
            r.spec_csi_number_of_beamformer_antennas_supported() == self.spec_csi_number_of_beamformer_antennas_supported(),
            r.spec_noncompresssed_steering_number_of_beamformer_antennas_supported() == self.spec_noncompresssed_steering_number_of_beamformer_antennas_supported(),
            r.spec_compresssed_steering_number_of_beamformer_antennas_supported() == self.spec_compresssed_steering_number_of_beamformer_antennas_supported(),
            r.spec_csi_max_number_of_rows_beamformer_supported() == self.spec_csi_max_number_of_rows_beamformer_supported(),
            r.spec_channel_estimation_capability() == self.spec_channel_estimation_capability(),
            r.spec_reserved() == self.spec_reserved(),
    {
        let v: u32 = if value {
            1
        } else {
            0
        };
        proof {
            Self::lemma_masks_fit();
            lemma_set_bits_u32(self.0, 2, 0x1, v, 2, 0x1);
            lemma_set_bits_u32(self.0, 2, 0x1, v, 0, 0x1);
            lemma_set_bits_u32(self.0, 2, 0x1, v, 1, 0x1);
            lemma_set_bits_u32(self.0, 2, 0x1, v, 3, 0x1);
            lemma_set_bits_u32(self.0, 2, 0x1, v, 4, 0x1);
            lemma_set_bits_u32(self.0, 2, 0x1, v, 5, 0x1);
            lemma_set_bits_u32(self.0, 2, 0x1, v, 6, 0x3);
            lemma_set_bits_u32(self.0, 2, 0x1, v, 8, 0x1);
            lemma_set_bits_u32(self.0, 2, 0x1, v, 9, 0x1);
            lemma_set_bits_u32(self.0, 2, 0x1, v, 10, 0x1);
            lemma_set_bits_u32(self.0, 2, 0x1, v, 11, 0x3);
            lemma_set_bits_u32(self.0, 2, 0x1, v, 13, 0x3);
            lemma_set_bits_u32(self.0, 2, 0x1, v, 15, 0x3);
            lemma_set_bits_u32(self.0, 2, 0x1, v, 17, 0x3);
            lemma_set_bits_u32(self.0, 2, 0x1, v, 19, 0x3);
            lemma_set_bits_u32(self.0, 2, 0x1, v, 21, 0x3);
            lemma_set_bits_u32(self.0, 2, 0x1, v, 23, 0x3);
            lemma_set_bits_u32(self.0, 2, 0x1, v, 25, 0x3);
            lemma_set_bits_u32(self.0, 2, 0x1, v, 27, 0x3);
            lemma_set_bits_u32(self.0, 2, 0x1, v, 29, 0x7);
        }
        Self((self.0 & !(0x1u32 << 2u32)) | ((v & 0x1) << 2u32))
    }

    /// NDPs can be received.
    pub open spec fn spec_receive_ndp_capable(self) -> bool {
        get_bits_u32(self.0, 3, 1) == 1
    }

    /// NDPs can be received.
    pub fn receive_ndp_capable(&self) -> (r: bool)
        ensures
            r == self.spec_receive_ndp_capable(),
    {
        (self.0 >> 3) & 1 == 1
    }

    /// Returns a copy with the field replaced by `value`.
    pub fn with_receive_ndp_capable(self, value: bool) -> (r: Self)
        ensures
            r.0 == set_bits_u32(self.0, 3, 0x1, (if value {
                1u32
            } else {
                0u32
            })),
            r.spec_receive_ndp_capable() == value,
            r.spec_implicit_transmit_beamforming_receiving_capable() == self.spec_implicit_transmit_beamforming_receiving_capable(),
            r.spec_receive_staggered_sounding_capable() == self.spec_receive_staggered_sounding_capable(),
            r.spec_transmit_staggered_sounding_capable() == self.spec_transmit_staggered_sounding_capable(),
            r.spec_transmit_ndp_capable() == self.spec_transmit_ndp_capable(),
            r.spec_implicit_transmit_beamforming_capable() == self.spec_implicit_transmit_beamforming_capable(),
            r.spec_calibration() == self.spec_calibration(),
            r.spec_explicit_csi_transmit_beamforming_capable() == self.spec_explicit_csi_transmit_beamforming_capable(),
            r.spec_explicit_noncompressed_steering_capable() == self.spec_explicit_noncompressed_steering_capable(),
            r.spec_explicit_compressed_steering_capable() == self.spec_explicit_compressed_steering_capable(),
            r.spec_explicit_transmit_beamforming_csi_feedback() == self.spec_explicit_transmit_beamforming_csi_feedback(),
            r.spec_explicit_noncompressed_beamforming_feedback_capable() == self.spec_explicit_noncompressed_beamforming_feedback_capable(),
            r.spec_explicit_compressed_beamforming_feedback_capable() == self.spec_explicit_compressed_beamforming_feedback_capable(),
            r.spec_minimal_grouping() == self.spec_minimal_grouping(),
            r.spec_csi_number_of_beamformer_antennas_supported() == self.spec_csi_number_of_beamformer_antennas_supported(),
            r.spec_noncompresssed_steering_number_of_beamformer_antennas_supported() == self.spec_noncompresssed_steering_number_of_beamformer_antennas_supported(),
            r.spec_compresssed_steering_number_of_beamformer_antennas_supported() == self.spec_compresssed_steering_number_of_beamformer_antennas_supported(),
            r.spec_csi_max_number_of_rows_beamformer_supported() == self.spec_csi_max_number_of_rows_beamformer_supported(),
            r.spec_channel_estimation_capability() == self.spec_channel_estimation_capability(),
            r.spec_reserved() == self.spec_reserved(),
    {
        let v: u32 = if value {
            1
        } else {
            0
        };
        proof {
            Self::lemma_masks_fit();
            lemma_set_bits_u32(self.0, 3, 0x1, v, 3, 0x1);
            lemma_set_bits_u32(self.0, 3, 0x1, v, 0, 0x1);
            lemma_set_bits_u32(self.0, 3, 0x1, v, 1, 0x1);
            lemma_set_bits_u32(self.0, 3, 0x1, v, 2, 0x1);
            lemma_set_bits_u32(self.0, 3, 0x1, v, 4, 0x1);
            lemma_set_bits_u32(self.0, 3, 0x1, v, 5, 0x1);
            lemma_set_bits_u32(self.0, 3, 0x1, v, 6, 0x3);
            lemma_set_bits_u32(self.0, 3, 0x1, v, 8, 0x1);
            lemma_set_bits_u32(self.0, 3, 0x1, v, 9, 0x1);
            lemma_set_bits_u32(self.0, 3, 0x1, v, 10, 0x1);
            lemma_set_bits_u32(self.0, 3, 0x1, v, 11, 0x3);
            lemma_set_bits_u32(self.0, 3, 0x1, v, 13, 0x3);
            lemma_set_bits_u32(self.0, 3, 0x1, v, 15, 0x3);
            lemma_set_bits_u32(self.0, 3, 0x1, v, 17, 0x3);
            lemma_set_bits_u32(self.0, 3, 0x1, v, 19, 0x3);
            lemma_set_bits_u32(self.0, 3, 0x1, v, 21, 0x3);
            lemma_set_bits_u32(self.0, 3, 0x1, v, 23, 0x3);
            lemma_set_bits_u32(self.0, 3, 0x1, v, 25, 0x3);
            lemma_set_bits_u32(self.0, 3, 0x1, v, 27, 0x3);
            lemma_set_bits_u32(self.0, 3, 0x1, v, 29, 0x7);
        }
        Self((self.0 & !(0x1u32 << 3u32)) | ((v & 0x1) << 3u32))
    }

    /// NDPs can be transmitted.
    pub open spec fn spec_transmit_ndp_capable(self) -> bool {
        get_bits_u32(self.0, 4, 1) == 1
    }

    /// NDPs can be transmitted.
    pub fn transmit_ndp_capable(&self) -> (r: bool)
        ensures
            r == self.spec_transmit_ndp_capable(),
    {
        (self.0 >> 4) & 1 == 1
    }

    /// Returns a copy with the field replaced by `value`.
    pub fn with_transmit_ndp_capable(self, value: bool) -> (r: Self)
        ensures
            r.0 == set_bits_u32(self.0, 4, 0x1, (if value {
                1u32
            } else {
                0u32
            })),
            r.spec_transmit_ndp_capable() == value,
            r.spec_implicit_transmit_beamforming_receiving_capable() == self.spec_implicit_transmit_beamforming_receiving_capable(),
            r.spec_receive_staggered_sounding_capable() == self.spec_receive_staggered_sounding_capable(),
            r.spec_transmit_staggered_sounding_capable() == self.spec_transmit_staggered_sounding_capable(),
            r.spec_receive_ndp_capable() == self.spec_receive_ndp_capable(),
            r.spec_implicit_transmit_beamforming_capable() == self.spec_implicit_transmit_beamforming_capable(),
            r.spec_calibration() == self.spec_calibration(),
            r.spec_explicit_csi_transmit_beamforming_capable() == self.spec_explicit_csi_transmit_beamforming_capable(),
            r.spec_explicit_noncompressed_steering_capable() == self.spec_explicit_noncompressed_steering_capable(),
            r.spec_explicit_compressed_steering_capable() == self.spec_explicit_compressed_steering_capable(),
            r.spec_explicit_transmit_beamforming_csi_feedback() == self.spec_explicit_transmit_beamforming_csi_feedback(),
            r.spec_explicit_noncompressed_beamforming_feedback_capable() == self.spec_explicit_noncompressed_beamforming_feedback_capable(),
            r.spec_explicit_compressed_beamforming_feedback_capable() == self.spec_explicit_compressed_beamforming_feedback_capable(),
            r.spec_minimal_grouping() == self.spec_minimal_grouping(),
            r.spec_csi_number_of_beamformer_antennas_supported() == self.spec_csi_number_of_beamformer_antennas_supported(),
            r.spec_noncompresssed_steering_number_of_beamformer_antennas_supported() == self.spec_noncompresssed_steering_number_of_beamformer_antennas_supported(),
            r.spec_compresssed_steering_number_of_beamformer_antennas_supported() == self.spec_compresssed_steering_number_of_beamformer_antennas_supported(),
            r.spec_csi_max_number_of_rows_beamformer_supported() == self.spec_csi_max_number_of_rows_beamformer_supported(),
            r.spec_channel_estimation_capability() == self.spec_channel_estimation_capability(),
            r.spec_reserved() == self.spec_reserved(),
    {
        let v: u32 = if value {
            1
        } else {
            0
        };
        proof {
            Self::lemma_masks_fit();
            lemma_set_bits_u32(self.0, 4, 0x1, v, 4, 0x1);
            lemma_set_bits_u32(self.0, 4, 0x1, v, 0, 0x1);
            lemma_set_bits_u32(self.0, 4, 0x1, v, 1, 0x1);
            lemma_set_bits_u32(self.0, 4, 0x1, v, 2, 0x1);
            lemma_set_bits_u32(self.0, 4, 0x1, v, 3, 0x1);
            lemma_set_bits_u32(self.0, 4, 0x1, v, 5, 0x1);
            lemma_set_bits_u32(self.0, 4, 0x1, v, 6, 0x3);
            lemma_set_bits_u32(self.0, 4, 0x1, v, 8, 0x1);
            lemma_set_bits_u32(self.0, 4, 0x1, v, 9, 0x1);
            lemma_set_bits_u32(self.0, 4, 0x1, v, 10, 0x1);
            lemma_set_bits_u32(self.0, 4, 0x1, v, 11, 0x3);
            lemma_set_bits_u32(self.0, 4, 0x1, v, 13, 0x3);
            lemma_set_bits_u32(self.0, 4, 0x1, v, 15, 0x3);
            lemma_set_bits_u32(self.0, 4, 0x1, v, 17, 0x3);
            lemma_set_bits_u32(self.0, 4, 0x1, v, 19, 0x3);
            lemma_set_bits_u32(self.0, 4, 0x1, v, 21, 0x3);
            lemma_set_bits_u32(self.0, 4, 0x1, v, 23, 0x3);
            lemma_set_bits_u32(self.0, 4, 0x1, v, 25, 0x3);
            lemma_set_bits_u32(self.0, 4, 0x1, v, 27, 0x3);
            lemma_set_bits_u32(self.0, 4, 0x1, v, 29, 0x7);
        }
        Self((self.0 & !(0x1u32 << 4u32)) | ((v & 0x1) << 4u32))
    }

    /// Implicit transmit beamforming is supported.
    pub open spec fn spec_implicit_transmit_beamforming_capable(self) -> bool {
        get_bits_u32(self.0, 5, 1) == 1
    }

    /// Implicit transmit beamforming is supported.
    pub fn implicit_transmit_beamforming_capable(&self) -> (r: bool)
        ensures
            r == self.spec_implicit_transmit_beamforming_capable(),
    {
        (self.0 >> 5) & 1 == 1
    }

    /// Returns a copy with the field replaced by `value`.
    pub fn with_implicit_transmit_beamforming_capable(self, value: bool) -> (r: Self)
        ensures
            r.0 == set_bits_u32(self.0, 5, 0x1, (if value {
                1u32
            } else {
                0u32
            })),
            r.spec_implicit_transmit_beamforming_capable() == value,
            r.spec_implicit_transmit_beamforming_receiving_capable() == self.spec_implicit_transmit_beamforming_receiving_capable(),
            r.spec_receive_staggered_sounding_capable() == self.spec_receive_staggered_sounding_capable(),
            r.spec_transmit_staggered_sounding_capable() == self.spec_transmit_staggered_sounding_capable(),
            r.spec_receive_ndp_capable() == self.spec_receive_ndp_capable(),
            r.spec_transmit_ndp_capable() == self.spec_transmit_ndp_capable(),
            r.spec_calibration() == self.spec_calibration(),
            r.spec_explicit_csi_transmit_beamforming_capable() == self.spec_explicit_csi_transmit_beamforming_capable(),
            r.spec_explicit_noncompressed_steering_capable() == self.spec_explicit_noncompressed_steering_capable(),
            r.spec_explicit_compressed_steering_capable() == self.spec_explicit_compressed_steering_capable(),
            r.spec_explicit_transmit_beamforming_csi_feedback() == self.spec_explicit_transmit_beamforming_csi_feedback(),
            r.spec_explicit_noncompressed_beamforming_feedback_capable() == self.spec_explicit_noncompressed_beamforming_feedback_capable(),
            r.spec_explicit_compressed_beamforming_feedback_capable() == self.spec_explicit_compressed_beamforming_feedback_capable(),
            r.spec_minimal_grouping() == self.spec_minimal_grouping(),
            r.spec_csi_number_of_beamformer_antennas_supported() == self.spec_csi_number_of_beamformer_antennas_supported(),
            r.spec_noncompresssed_steering_number_of_beamformer_antennas_supported() == self.spec_noncompresssed_steering_number_of_beamformer_antennas_supported(),
            r.spec_compresssed_steering_number_of_beamformer_antennas_supported() == self.spec_compresssed_steering_number_of_beamformer_antennas_supported(),
            r.spec_csi_max_number_of_rows_beamformer_supported() == self.spec_csi_max_number_of_rows_beamformer_supported(),
            r.spec_channel_estimation_capability() == self.spec_channel_estimation_capability(),
            r.spec_reserved() == self.spec_reserved(),
    {
        let v: u32 = if value {
            1
        } else {
            0
        };
        proof {
            Self::lemma_masks_fit();
            lemma_set_bits_u32(self.0, 5, 0x1, v, 5, 0x1);
            lemma_set_bits_u32(self.0, 5, 0x1, v, 0, 0x1);
            lemma_set_bits_u32(self.0, 5, 0x1, v, 1, 0x1);
            lemma_set_bits_u32(self.0, 5, 0x1, v, 2, 0x1);
            lemma_set_bits_u32(self.0, 5, 0x1, v, 3, 0x1);
            lemma_set_bits_u32(self.0, 5, 0x1, v, 4, 0x1);
            lemma_set_bits_u32(self.0, 5, 0x1, v, 6, 0x3);
            lemma_set_bits_u32(self.0, 5, 0x1, v, 8, 0x1);
            lemma_set_bits_u32(self.0, 5, 0x1, v, 9, 0x1);
            lemma_set_bits_u32(self.0, 5, 0x1, v, 10, 0x1);
            lemma_set_bits_u32(self.0, 5, 0x1, v, 11, 0x3);
            lemma_set_bits_u32(self.0, 5, 0x1, v, 13, 0x3);
            lemma_set_bits_u32(self.0, 5, 0x1, v, 15, 0x3);
            lemma_set_bits_u32(self.0, 5, 0x1, v, 17, 0x3);
            lemma_set_bits_u32(self.0, 5, 0x1, v, 19, 0x3);
            lemma_set_bits_u32(self.0, 5, 0x1, v, 21, 0x3);
            lemma_set_bits_u32(self.0, 5, 0x1, v, 23, 0x3);
            lemma_set_bits_u32(self.0, 5, 0x1, v, 25, 0x3);
            lemma_set_bits_u32(self.0, 5, 0x1, v, 27, 0x3);
            lemma_set_bits_u32(self.0, 5, 0x1, v, 29, 0x7);
        }
        Self((self.0 & !(0x1u32 << 5u32)) | ((v & 0x1) << 5u32))
    }

    /// The calibration support.
    pub open spec fn spec_calibration(self) -> BeamformingCalibration {
        BeamformingCalibration::spec_from_bits(get_bits_u32(self.0, 6, 0x3) as u8)
    }

    /// The calibration support.
    pub fn calibration(&self) -> (r: BeamformingCalibration)
        ensures
            r == self.spec_calibration(),
    {
        BeamformingCalibration::from_bits(((self.0 >> 6) & 0x3) as u8)
    }

    /// Returns a copy with the field replaced by `value`.
    pub fn with_calibration(self, value: BeamformingCalibration) -> (r: Self)
        ensures
            r.0 == set_bits_u32(self.0, 6, 0x3, (value.spec_into_bits() as u32)),
            r.spec_calibration() == BeamformingCalibration::spec_from_bits(((value.spec_into_bits() as u32) & 0x3) as u8),
            r.spec_implicit_transmit_beamforming_receiving_capable() == self.spec_implicit_transmit_beamforming_receiving_capable(),
            r.spec_receive_staggered_sounding_capable() == self.spec_receive_staggered_sounding_capable(),
            r.spec_transmit_staggered_sounding_capable() == self.spec_transmit_staggered_sounding_capable(),
            r.spec_receive_ndp_capable() == self.spec_receive_ndp_capable(),
            r.spec_transmit_ndp_capable() == self.spec_transmit_ndp_capable(),
            r.spec_implicit_transmit_beamforming_capable() == self.spec_implicit_transmit_beamforming_capable(),
            r.spec_explicit_csi_transmit_beamforming_capable() == self.spec_explicit_csi_transmit_beamforming_capable(),
            r.spec_explicit_noncompressed_steering_capable() == self.spec_explicit_noncompressed_steering_capable(),
            r.spec_explicit_compressed_steering_capable() == self.spec_explicit_compressed_steering_capable(),
            r.spec_explicit_transmit_beamforming_csi_feedback() == self.spec_explicit_transmit_beamforming_csi_feedback(),
            r.spec_explicit_noncompressed_beamforming_feedback_capable() == self.spec_explicit_noncompressed_beamforming_feedback_capable(),
            r.spec_explicit_compressed_beamforming_feedback_capable() == self.spec_explicit_compressed_beamforming_feedback_capable(),
            r.spec_minimal_grouping() == self.spec_minimal_grouping(),
            r.spec_csi_number_of_beamformer_antennas_supported() == self.spec_csi_number_of_beamformer_antennas_supported(),
            r.spec_noncompresssed_steering_number_of_beamformer_antennas_supported() == self.spec_noncompresssed_steering_number_of_beamformer_antennas_supported(),
            r.spec_compresssed_steering_number_of_beamformer_antennas_supported() == self.spec_compresssed_steering_number_of_beamformer_antennas_supported(),
            r.spec_csi_max_number_of_rows_beamformer_supported() == self.spec_csi_max_number_of_rows_beamformer_supported(),
            r.spec_channel_estimation_capability() == self.spec_channel_estimation_capability(),
            r.spec_reserved() == self.spec_reserved(),
    {
        let v: u32 = value.into_bits() as u32;
        proof {
            Self::lemma_masks_fit();
            lemma_set_bits_u32(self.0, 6, 0x3, v, 6, 0x3);
            lemma_set_bits_u32(self.0, 6, 0x3, v, 0, 0x1);
            lemma_set_bits_u32(self.0, 6, 0x3, v, 1, 0x1);
            lemma_set_bits_u32(self.0, 6, 0x3, v, 2, 0x1);
            lemma_set_bits_u32(self.0, 6, 0x3, v, 3, 0x1);
            lemma_set_bits_u32(self.0, 6, 0x3, v, 4, 0x1);
            lemma_set_bits_u32(self.0, 6, 0x3, v, 5, 0x1);
            lemma_set_bits_u32(self.0, 6, 0x3, v, 8, 0x1);
            lemma_set_bits_u32(self.0, 6, 0x3, v, 9, 0x1);
            lemma_set_bits_u32(self.0, 6, 0x3, v, 10, 0x1);
            lemma_set_bits_u32(self.0, 6, 0x3, v, 11, 0x3);
            lemma_set_bits_u32(self.0, 6, 0x3, v, 13, 0x3);
            lemma_set_bits_u32(self.0, 6, 0x3, v, 15, 0x3);
            lemma_set_bits_u32(self.0, 6, 0x3, v, 17, 0x3);
            lemma_set_bits_u32(self.0, 6, 0x3, v, 19, 0x3);
            lemma_set_bits_u32(self.0, 6, 0x3, v, 21, 0x3);
            lemma_set_bits_u32(self.0, 6, 0x3, v, 23, 0x3);
            lemma_set_bits_u32(self.0, 6, 0x3, v, 25, 0x3);
            lemma_set_bits_u32(self.0, 6, 0x3, v, 27, 0x3);
            lemma_set_bits_u32(self.0, 6, 0x3, v, 29, 0x7);
        }
        Self((self.0 & !(0x3u32 << 6u32)) | ((v & 0x3) << 6u32))
    }

    /// Explicit CSI transmit beamforming is supported.
    pub open spec fn spec_explicit_csi_transmit_beamforming_capable(self) -> bool {
        get_bits_u32(self.0, 8, 1) == 1
    }

    /// Explicit CSI transmit beamforming is supported.
    pub fn explicit_csi_transmit_beamforming_capable(&self) -> (r: bool)
        ensures
            r == self.spec_explicit_csi_transmit_beamforming_capable(),
    {
        (self.0 >> 8) & 1 == 1
    }

    /// Returns a copy with the field replaced by `value`.
    pub fn with_explicit_csi_transmit_beamforming_capable(self, value: bool) -> (r: Self)
        ensures
            r.0 == set_bits_u32(self.0, 8, 0x1, (if value {
                1u32
            } else {
                0u32
            })),
            r.spec_explicit_csi_transmit_beamforming_capable() == value,
            r.spec_implicit_transmit_beamforming_receiving_capable() == self.spec_implicit_transmit_beamforming_receiving_capable(),
            r.spec_receive_staggered_sounding_capable() == self.spec_receive_staggered_sounding_capable(),
            r.spec_transmit_staggered_sounding_capable() == self.spec_transmit_staggered_sounding_capable(),
            r.spec_receive_ndp_capable() == self.spec_receive_ndp_capable(),
            r.spec_transmit_ndp_capable() == self.spec_transmit_ndp_capable(),
            r.spec_implicit_transmit_beamforming_capable() == self.spec_implicit_transmit_beamforming_capable(),
            r.spec_calibration() == self.spec_calibration(),
            r.spec_explicit_noncompressed_steering_capable() == self.spec_explicit_noncompressed_steering_capable(),
            r.spec_explicit_compressed_steering_capable() == self.spec_explicit_compressed_steering_capable(),
            r.spec_explicit_transmit_beamforming_csi_feedback() == self.spec_explicit_transmit_beamforming_csi_feedback(),
            r.spec_explicit_noncompressed_beamforming_feedback_capable() == self.spec_explicit_noncompressed_beamforming_feedback_capable(),
            r.spec_explicit_compressed_beamforming_feedback_capable() == self.spec_explicit_compressed_beamforming_feedback_capable(),
            r.spec_minimal_grouping() == self.spec_minimal_grouping(),
            r.spec_csi_number_of_beamformer_antennas_supported() == self.spec_csi_number_of_beamformer_antennas_supported(),
            r.spec_noncompresssed_steering_number_of_beamformer_antennas_supported() == self.spec_noncompresssed_steering_number_of_beamformer_antennas_supported(),
            r.spec_compresssed_steering_number_of_beamformer_antennas_supported() == self.spec_compresssed_steering_number_of_beamformer_antennas_supported(),
            r.spec_csi_max_number_of_rows_beamformer_supported() == self.spec_csi_max_number_of_rows_beamformer_supported(),
            r.spec_channel_estimation_capability() == self.spec_channel_estimation_capability(),
            r.spec_reserved() == self.spec_reserved(),
    {
        let v: u32 = if value {
            1
        } else {
            0
        };
        proof {
            Self::lemma_masks_fit();
            lemma_set_bits_u32(self.0, 8, 0x1, v, 8, 0x1);
            lemma_set_bits_u32(self.0, 8, 0x1, v, 0, 0x1);
            lemma_set_bits_u32(self.0, 8, 0x1, v, 1, 0x1);
            lemma_set_bits_u32(self.0, 8, 0x1, v, 2, 0x1);
            lemma_set_bits_u32(self.0, 8, 0x1, v, 3, 0x1);
            lemma_set_bits_u32(self.0, 8, 0x1, v, 4, 0x1);
            lemma_set_bits_u32(self.0, 8, 0x1, v, 5, 0x1);
            lemma_set_bits_u32(self.0, 8, 0x1, v, 6, 0x3);
            lemma_set_bits_u32(self.0, 8, 0x1, v, 9, 0x1);
            lemma_set_bits_u32(self.0, 8, 0x1, v, 10, 0x1);
            lemma_set_bits_u32(self.0, 8, 0x1, v, 11, 0x3);
            lemma_set_bits_u32(self.0, 8, 0x1, v, 13, 0x3);
            lemma_set_bits_u32(self.0, 8, 0x1, v, 15, 0x3);
            lemma_set_bits_u32(self.0, 8, 0x1, v, 17, 0x3);
            lemma_set_bits_u32(self.0, 8, 0x1, v, 19, 0x3);
            lemma_set_bits_u32(self.0, 8, 0x1, v, 21, 0x3);
            lemma_set_bits_u32(self.0, 8, 0x1, v, 23, 0x3);
            lemma_set_bits_u32(self.0, 8, 0x1, v, 25, 0x3);
            lemma_set_bits_u32(self.0, 8, 0x1, v, 27, 0x3);
            lemma_set_bits_u32(self.0, 8, 0x1, v, 29, 0x7);
        }
        Self((self.0 & !(0x1u32 << 8u32)) | ((v & 0x1) << 8u32))
    }

    /// Explicit noncompressed steering is supported.
    pub open spec fn spec_explicit_noncompressed_steering_capable(self) -> bool {
        get_bits_u32(self.0, 9, 1) == 1
    }

    /// Explicit noncompressed steering is supported.
    pub fn explicit_noncompressed_steering_capable(&self) -> (r: bool)
        ensures
            r == self.spec_explicit_noncompressed_steering_capable(),
    {
        (self.0 >> 9) & 1 == 1
    }

    /// Returns a copy with the field replaced by `value`.
    pub fn with_explicit_noncompressed_steering_capable(self, value: bool) -> (r: Self)
        ensures
            r.0 == set_bits_u32(self.0, 9, 0x1, (if value {
                1u32
            } else {
                0u32
            })),
            r.spec_explicit_noncompressed_steering_capable() == value,
            r.spec_implicit_transmit_beamforming_receiving_capable() == self.spec_implicit_transmit_beamforming_receiving_capable(),
            r.spec_receive_staggered_sounding_capable() == self.spec_receive_staggered_sounding_capable(),
            r.spec_transmit_staggered_sounding_capable() == self.spec_transmit_staggered_sounding_capable(),
            r.spec_receive_ndp_capable() == self.spec_receive_ndp_capable(),
            r.spec_transmit_ndp_capable() == self.spec_transmit_ndp_capable(),
            r.spec_implicit_transmit_beamforming_capable() == self.spec_implicit_transmit_beamforming_capable(),
            r.spec_calibration() == self.spec_calibration(),
            r.spec_explicit_csi_transmit_beamforming_capable() == self.spec_explicit_csi_transmit_beamforming_capable(),
            r.spec_explicit_compressed_steering_capable() == self.spec_explicit_compressed_steering_capable(),
            r.spec_explicit_transmit_beamforming_csi_feedback() == self.spec_explicit_transmit_beamforming_csi_feedback(),
            r.spec_explicit_noncompressed_beamforming_feedback_capable() == self.spec_explicit_noncompressed_beamforming_feedback_capable(),
            r.spec_explicit_compressed_beamforming_feedback_capable() == self.spec_explicit_compressed_beamforming_feedback_capable(),
            r.spec_minimal_grouping() == self.spec_minimal_grouping(),
            r.spec_csi_number_of_beamformer_antennas_supported() == self.spec_csi_number_of_beamformer_antennas_supported(),
            r.spec_noncompresssed_steering_number_of_beamformer_antennas_supported() == self.spec_noncompresssed_steering_number_of_beamformer_antennas_supported(),
            r.spec_compresssed_steering_number_of_beamformer_antennas_supported() == self.spec_compresssed_steering_number_of_beamformer_antennas_supported(),
            r.spec_csi_max_number_of_rows_beamformer_supported() == self.spec_csi_max_number_of_rows_beamformer_supported(),
            r.spec_channel_estimation_capability() == self.spec_channel_estimation_capability(),
            r.spec_reserved() == self.spec_reserved(),
    {
        let v: u32 = if value {
            1
        } else {
            0
        };
        proof {
            Self::lemma_masks_fit();
            lemma_set_bits_u32(self.0, 9, 0x1, v, 9, 0x1);
            lemma_set_bits_u32(self.0, 9, 0x1, v, 0, 0x1);
            lemma_set_bits_u32(self.0, 9, 0x1, v, 1, 0x1);
            lemma_set_bits_u32(self.0, 9, 0x1, v, 2, 0x1);
            lemma_set_bits_u32(self.0, 9, 0x1, v, 3, 0x1);
            lemma_set_bits_u32(self.0, 9, 0x1, v, 4, 0x1);
            lemma_set_bits_u32(self.0, 9, 0x1, v, 5, 0x1);
            lemma_set_bits_u32(self.0, 9, 0x1, v, 6, 0x3);
            lemma_set_bits_u32(self.0, 9, 0x1, v, 8, 0x1);
            lemma_set_bits_u32(self.0, 9, 0x1, v, 10, 0x1);
            lemma_set_bits_u32(self.0, 9, 0x1, v, 11, 0x3);
            lemma_set_bits_u32(self.0, 9, 0x1, v, 13, 0x3);
            lemma_set_bits_u32(self.0, 9, 0x1, v, 15, 0x3);
            lemma_set_bits_u32(self.0, 9, 0x1, v, 17, 0x3);
            lemma_set_bits_u32(self.0, 9, 0x1, v, 19, 0x3);
            lemma_set_bits_u32(self.0, 9, 0x1, v, 21, 0x3);
            lemma_set_bits_u32(self.0, 9, 0x1, v, 23, 0x3);
            lemma_set_bits_u32(self.0, 9, 0x1, v, 25, 0x3);
            lemma_set_bits_u32(self.0, 9, 0x1, v, 27, 0x3);
            lemma_set_bits_u32(self.0, 9, 0x1, v, 29, 0x7);
        }
        Self((self.0 & !(0x1u32 << 9u32)) | ((v & 0x1) << 9u32))
    }

    /// Explicit compressed steering is supported.
    pub open spec fn spec_explicit_compressed_steering_capable(self) -> bool {
        get_bits_u32(self.0, 10, 1) == 1
    }

    /// Explicit compressed steering is supported.
    pub fn explicit_compressed_steering_capable(&self) -> (r: bool)
        ensures
            r == self.spec_explicit_compressed_steering_capable(),
    {
        (self.0 >> 10) & 1 == 1
    }

    /// Returns a copy with the field replaced by `value`.
    pub fn with_explicit_compressed_steering_capable(self, value: bool) -> (r: Self)
        ensures
            r.0 == set_bits_u32(self.0, 10, 0x1, (if value {
                1u32
            } else {
                0u32
            })),
            r.spec_explicit_compressed_steering_capable() == value,
            r.spec_implicit_transmit_beamforming_receiving_capable() == self.spec_implicit_transmit_beamforming_receiving_capable(),
            r.spec_receive_staggered_sounding_capable() == self.spec_receive_staggered_sounding_capable(),
            r.spec_transmit_staggered_sounding_capable() == self.spec_transmit_staggered_sounding_capable(),
            r.spec_receive_ndp_capable() == self.spec_receive_ndp_capable(),
            r.spec_transmit_ndp_capable() == self.spec_transmit_ndp_capable(),
            r.spec_implicit_transmit_beamforming_capable() == self.spec_implicit_transmit_beamforming_capable(),
            r.spec_calibration() == self.spec_calibration(),
            r.spec_explicit_csi_transmit_beamforming_capable() == self.spec_explicit_csi_transmit_beamforming_capable(),
            r.spec_explicit_noncompressed_steering_capable() == self.spec_explicit_noncompressed_steering_capable(),
            r.spec_explicit_transmit_beamforming_csi_feedback() == self.spec_explicit_transmit_beamforming_csi_feedback(),
            r.spec_explicit_noncompressed_beamforming_feedback_capable() == self.spec_explicit_noncompressed_beamforming_feedback_capable(),
            r.spec_explicit_compressed_beamforming_feedback_capable() == self.spec_explicit_compressed_beamforming_feedback_capable(),
            r.spec_minimal_grouping() == self.spec_minimal_grouping(),
            r.spec_csi_number_of_beamformer_antennas_supported() == self.spec_csi_number_of_beamformer_antennas_supported(),
            r.spec_noncompresssed_steering_number_of_beamformer_antennas_supported() == self.spec_noncompresssed_steering_number_of_beamformer_antennas_supported(),
            r.spec_compresssed_steering_number_of_beamformer_antennas_supported() == self.spec_compresssed_steering_number_of_beamformer_antennas_supported(),
            r.spec_csi_max_number_of_rows_beamformer_supported() == self.spec_csi_max_number_of_rows_beamformer_supported(),
            r.spec_channel_estimation_capability() == self.spec_channel_estimation_capability(),
            r.spec_reserved() == self.spec_reserved(),
    {
        let v: u32 = if value {
            1
        } else {
            0
        };
        proof {
            Self::lemma_masks_fit();
            lemma_set_bits_u32(self.0, 10, 0x1, v, 10, 0x1);
            lemma_set_bits_u32(self.0, 10, 0x1, v, 0, 0x1);
            lemma_set_bits_u32(self.0, 10, 0x1, v, 1, 0x1);
            lemma_set_bits_u32(self.0, 10, 0x1, v, 2, 0x1);
            lemma_set_bits_u32(self.0, 10, 0x1, v, 3, 0x1);
            lemma_set_bits_u32(self.0, 10, 0x1, v, 4, 0x1);
            lemma_set_bits_u32(self.0, 10, 0x1, v, 5, 0x1);
            lemma_set_bits_u32(self.0, 10, 0x1, v, 6, 0x3);
            lemma_set_bits_u32(self.0, 10, 0x1, v, 8, 0x1);
            lemma_set_bits_u32(self.0, 10, 0x1, v, 9, 0x1);
            lemma_set_bits_u32(self.0, 10, 0x1, v, 11, 0x3);
            lemma_set_bits_u32(self.0, 10, 0x1, v, 13, 0x3);
            lemma_set_bits_u32(self.0, 10, 0x1, v, 15, 0x3);
            lemma_set_bits_u32(self.0, 10, 0x1, v, 17, 0x3);
            lemma_set_bits_u32(self.0, 10, 0x1, v, 19, 0x3);
            lemma_set_bits_u32(self.0, 10, 0x1, v, 21, 0x3);
            lemma_set_bits_u32(self.0, 10, 0x1, v, 23, 0x3);
            lemma_set_bits_u32(self.0, 10, 0x1, v, 25, 0x3);
            lemma_set_bits_u32(self.0, 10, 0x1, v, 27, 0x3);
            lemma_set_bits_u32(self.0, 10, 0x1, v, 29, 0x7);
        }
        Self((self.0 & !(0x1u32 << 10u32)) | ((v & 0x1) << 10u32))
    }

    /// The explicit transmit beamforming CSI feedback.
    pub open spec fn spec_explicit_transmit_beamforming_csi_feedback(self) -> BeamformingFeedback {
        BeamformingFeedback::spec_from_bits(get_bits_u32(self.0, 11, 0x3) as u8)
    }

    /// The explicit transmit beamforming CSI feedback.
    pub fn explicit_transmit_beamforming_csi_feedback(&self) -> (r: BeamformingFeedback)
        ensures
            r == self.spec_explicit_transmit_beamforming_csi_feedback(),
    {
        BeamformingFeedback::from_bits(((self.0 >> 11) & 0x3) as u8)
    }

    /// Returns a copy with the field replaced by `value`.
    pub fn with_explicit_transmit_beamforming_csi_feedback(self, value: BeamformingFeedback) -> (r: Self)
        ensures
            r.0 == set_bits_u32(self.0, 11, 0x3, (value.spec_into_bits() as u32)),
            r.spec_explicit_transmit_beamforming_csi_feedback() == BeamformingFeedback::spec_from_bits(((value.spec_into_bits() as u32) & 0x3) as u8),
            r.spec_implicit_transmit_beamforming_receiving_capable() == self.spec_implicit_transmit_beamforming_receiving_capable(),
            r.spec_receive_staggered_sounding_capable() == self.spec_receive_staggered_sounding_capable(),
            r.spec_transmit_staggered_sounding_capable() == self.spec_transmit_staggered_sounding_capable(),
            r.spec_receive_ndp_capable() == self.spec_receive_ndp_capable(),
            r.spec_transmit_ndp_capable() == self.spec_transmit_ndp_capable(),
            r.spec_implicit_transmit_beamforming_capable() == self.spec_implicit_transmit_beamforming_capable(),
            r.spec_calibration() == self.spec_calibration(),
            r.spec_explicit_csi_transmit_beamforming_capable() == self.spec_explicit_csi_transmit_beamforming_capable(),
            r.spec_explicit_noncompressed_steering_capable() == self.spec_explicit_noncompressed_steering_capable(),
            r.spec_explicit_compressed_steering_capable() == self.spec_explicit_compressed_steering_capable(),
            r.spec_explicit_noncompressed_beamforming_feedback_capable() == self.spec_explicit_noncompressed_beamforming_feedback_capable(),
            r.spec_explicit_compressed_beamforming_feedback_capable() == self.spec_explicit_compressed_beamforming_feedback_capable(),
            r.spec_minimal_grouping() == self.spec_minimal_grouping(),
            r.spec_csi_number_of_beamformer_antennas_supported() == self.spec_csi_number_of_beamformer_antennas_supported(),
            r.spec_noncompresssed_steering_number_of_beamformer_antennas_supported() == self.spec_noncompresssed_steering_number_of_beamformer_antennas_supported(),
            r.spec_compresssed_steering_number_of_beamformer_antennas_supported() == self.spec_compresssed_steering_number_of_beamformer_antennas_supported(),
            r.spec_csi_max_number_of_rows_beamformer_supported() == self.spec_csi_max_number_of_rows_beamformer_supported(),
            r.spec_channel_estimation_capability() == self.spec_channel_estimation_capability(),
            r.spec_reserved() == self.spec_reserved(),
    {
        let v: u32 = value.into_bits() as u32;
        proof {
            Self::lemma_masks_fit();
            lemma_set_bits_u32(self.0, 11, 0x3, v, 11, 0x3);
            lemma_set_bits_u32(self.0, 11, 0x3, v, 0, 0x1);
            lemma_set_bits_u32(self.0, 11, 0x3, v, 1, 0x1);
            lemma_set_bits_u32(self.0, 11, 0x3, v, 2, 0x1);
            lemma_set_bits_u32(self.0, 11, 0x3, v, 3, 0x1);
            lemma_set_bits_u32(self.0, 11, 0x3, v, 4, 0x1);
            lemma_set_bits_u32(self.0, 11, 0x3, v, 5, 0x1);
            lemma_set_bits_u32(self.0, 11, 0x3, v, 6, 0x3);
            lemma_set_bits_u32(self.0, 11, 0x3, v, 8, 0x1);
            lemma_set_bits_u32(self.0, 11, 0x3, v, 9, 0x1);
            lemma_set_bits_u32(self.0, 11, 0x3, v, 10, 0x1);
            lemma_set_bits_u32(self.0, 11, 0x3, v, 13, 0x3);
            lemma_set_bits_u32(self.0, 11, 0x3, v, 15, 0x3);
            lemma_set_bits_u32(self.0, 11, 0x3, v, 17, 0x3);
            lemma_set_bits_u32(self.0, 11, 0x3, v, 19, 0x3);
            lemma_set_bits_u32(self.0, 11, 0x3, v, 21, 0x3);
            lemma_set_bits_u32(self.0, 11, 0x3, v, 23, 0x3);
            lemma_set_bits_u32(self.0, 11, 0x3, v, 25, 0x3);
            lemma_set_bits_u32(self.0, 11, 0x3, v, 27, 0x3);
            lemma_set_bits_u32(self.0, 11, 0x3, v, 29, 0x7);
        }
        Self((self.0 & !(0x3u32 << 11u32)) | ((v & 0x3) << 11u32))
    }

    /// The explicit noncompressed beamforming feedback.
    pub open spec fn spec_explicit_noncompressed_beamforming_feedback_capable(self) -> BeamformingFeedback {
        BeamformingFeedback::spec_from_bits(get_bits_u32(self.0, 13, 0x3) as u8)
    }

    /// The explicit noncompressed beamforming feedback.
    pub fn explicit_noncompressed_beamforming_feedback_capable(&self) -> (r: BeamformingFeedback)
        ensures
            r == self.spec_explicit_noncompressed_beamforming_feedback_capable(),
    {
        BeamformingFeedback::from_bits(((self.0 >> 13) & 0x3) as u8)
    }

    /// Returns a copy with the field replaced by `value`.
    pub fn with_explicit_noncompressed_beamforming_feedback_capable(self, value: BeamformingFeedback) -> (r: Self)
        ensures
            r.0 == set_bits_u32(self.0, 13, 0x3, (value.spec_into_bits() as u32)),
            r.spec_explicit_noncompressed_beamforming_feedback_capable() == BeamformingFeedback::spec_from_bits(((value.spec_into_bits() as u32) & 0x3) as u8),
            r.spec_implicit_transmit_beamforming_receiving_capable() == self.spec_implicit_transmit_beamforming_receiving_capable(),
            r.spec_receive_staggered_sounding_capable() == self.spec_receive_staggered_sounding_capable(),
            r.spec_transmit_staggered_sounding_capable() == self.spec_transmit_staggered_sounding_capable(),
            r.spec_receive_ndp_capable() == self.spec_receive_ndp_capable(),
            r.spec_transmit_ndp_capable() == self.spec_transmit_ndp_capable(),
            r.spec_implicit_transmit_beamforming_capable() == self.spec_implicit_transmit_beamforming_capable(),
            r.spec_calibration() == self.spec_calibration(),
            r.spec_explicit_csi_transmit_beamforming_capable() == self.spec_explicit_csi_transmit_beamforming_capable(),
            r.spec_explicit_noncompressed_steering_capable() == self.spec_explicit_noncompressed_steering_capable(),
            r.spec_explicit_compressed_steering_capable() == self.spec_explicit_compressed_steering_capable(),
            r.spec_explicit_transmit_beamforming_csi_feedback() == self.spec_explicit_transmit_beamforming_csi_feedback(),
            r.spec_explicit_compressed_beamforming_feedback_capable() == self.spec_explicit_compressed_beamforming_feedback_capable(),
            r.spec_minimal_grouping() == self.spec_minimal_grouping(),
            r.spec_csi_number_of_beamformer_antennas_supported() == self.spec_csi_number_of_beamformer_antennas_supported(),
            r.spec_noncompresssed_steering_number_of_beamformer_antennas_supported() == self.spec_noncompresssed_steering_number_of_beamformer_antennas_supported(),
            r.spec_compresssed_steering_number_of_beamformer_antennas_supported() == self.spec_compresssed_steering_number_of_beamformer_antennas_supported(),
            r.spec_csi_max_number_of_rows_beamformer_supported() == self.spec_csi_max_number_of_rows_beamformer_supported(),
            r.spec_channel_estimation_capability() == self.spec_channel_estimation_capability(),
            r.spec_reserved() == self.spec_reserved(),
    {
        let v: u32 = value.into_bits() as u32;
        proof {
            Self::lemma_masks_fit();
            lemma_set_bits_u32(self.0, 13, 0x3, v, 13, 0x3);
            lemma_set_bits_u32(self.0, 13, 0x3, v, 0, 0x1);
            lemma_set_bits_u32(self.0, 13, 0x3, v, 1, 0x1);
            lemma_set_bits_u32(self.0, 13, 0x3, v, 2, 0x1);
            lemma_set_bits_u32(self.0, 13, 0x3, v, 3, 0x1);
            lemma_set_bits_u32(self.0, 13, 0x3, v, 4, 0x1);
            lemma_set_bits_u32(self.0, 13, 0x3, v, 5, 0x1);
            lemma_set_bits_u32(self.0, 13, 0x3, v, 6, 0x3);
            lemma_set_bits_u32(self.0, 13, 0x3, v, 8, 0x1);
            lemma_set_bits_u32(self.0, 13, 0x3, v, 9, 0x1);
            lemma_set_bits_u32(self.0, 13, 0x3, v, 10, 0x1);
            lemma_set_bits_u32(self.0, 13, 0x3, v, 11, 0x3);
            lemma_set_bits_u32(self.0, 13, 0x3, v, 15, 0x3);
            lemma_set_bits_u32(self.0, 13, 0x3, v, 17, 0x3);
            lemma_set_bits_u32(self.0, 13, 0x3, v, 19, 0x3);
            lemma_set_bits_u32(self.0, 13, 0x3, v, 21, 0x3);
            lemma_set_bits_u32(self.0, 13, 0x3, v, 23, 0x3);
            lemma_set_bits_u32(self.0, 13, 0x3, v, 25, 0x3);
            lemma_set_bits_u32(self.0, 13, 0x3, v, 27, 0x3);
            lemma_set_bits_u32(self.0, 13, 0x3, v, 29, 0x7);
        }
        Self((self.0 & !(0x3u32 << 13u32)) | ((v & 0x3) << 13u32))
    }

    /// The explicit compressed beamforming feedback.
    pub open spec fn spec_explicit_compressed_beamforming_feedback_capable(self) -> BeamformingFeedback {
        BeamformingFeedback::spec_from_bits(get_bits_u32(self.0, 15, 0x3) as u8)
    }

    /// The explicit compressed beamforming feedback.
    pub fn explicit_compressed_beamforming_feedback_capable(&self) -> (r: BeamformingFeedback)
        ensures
            r == self.spec_explicit_compressed_beamforming_feedback_capable(),
    {
        BeamformingFeedback::from_bits(((self.0 >> 15) & 0x3) as u8)
    }

    /// Returns a copy with the field replaced by `value`.
    pub fn with_explicit_compressed_beamforming_feedback_capable(self, value: BeamformingFeedback) -> (r: Self)
        ensures
            r.0 == set_bits_u32(self.0, 15, 0x3, (value.spec_into_bits() as u32)),
            r.spec_explicit_compressed_beamforming_feedback_capable() == BeamformingFeedback::spec_from_bits(((value.spec_into_bits() as u32) & 0x3) as u8),
            r.spec_implicit_transmit_beamforming_receiving_capable() == self.spec_implicit_transmit_beamforming_receiving_capable(),
            r.spec_receive_staggered_sounding_capable() == self.spec_receive_staggered_sounding_capable(),
            r.spec_transmit_staggered_sounding_capable() == self.spec_transmit_staggered_sounding_capable(),
            r.spec_receive_ndp_capable() == self.spec_receive_ndp_capable(),
            r.spec_transmit_ndp_capable() == self.spec_transmit_ndp_capable(),
            r.spec_implicit_transmit_beamforming_capable() == self.spec_implicit_transmit_beamforming_capable(),
            r.spec_calibration() == self.spec_calibration(),
            r.spec_explicit_csi_transmit_beamforming_capable() == self.spec_explicit_csi_transmit_beamforming_capable(),
            r.spec_explicit_noncompressed_steering_capable() == self.spec_explicit_noncompressed_steering_capable(),
            r.spec_explicit_compressed_steering_capable() == self.spec_explicit_compressed_steering_capable(),
            r.spec_explicit_transmit_beamforming_csi_feedback() == self.spec_explicit_transmit_beamforming_csi_feedback(),
            r.spec_explicit_noncompressed_beamforming_feedback_capable() == self.spec_explicit_noncompressed_beamforming_feedback_capable(),
            r.spec_minimal_grouping() == self.spec_minimal_grouping(),
            r.spec_csi_number_of_beamformer_antennas_supported() == self.spec_csi_number_of_beamformer_antennas_supported(),
            r.spec_noncompresssed_steering_number_of_beamformer_antennas_supported() == self.spec_noncompresssed_steering_number_of_beamformer_antennas_supported(),
            r.spec_compresssed_steering_number_of_beamformer_antennas_supported() == self.spec_compresssed_steering_number_of_beamformer_antennas_supported(),
            r.spec_csi_max_number_of_rows_beamformer_supported() == self.spec_csi_max_number_of_rows_beamformer_supported(),
            r.spec_channel_estimation_capability() == self.spec_channel_estimation_capability(),
            r.spec_reserved() == self.spec_reserved(),
    {
        let v: u32 = value.into_bits() as u32;
        proof {
            Self::lemma_masks_fit();
            lemma_set_bits_u32(self.0, 15, 0x3, v, 15, 0x3);
            lemma_set_bits_u32(self.0, 15, 0x3, v, 0, 0x1);
            lemma_set_bits_u32(self.0, 15, 0x3, v, 1, 0x1);
            lemma_set_bits_u32(self.0, 15, 0x3, v, 2, 0x1);
            lemma_set_bits_u32(self.0, 15, 0x3, v, 3, 0x1);
            lemma_set_bits_u32(self.0, 15, 0x3, v, 4, 0x1);
            lemma_set_bits_u32(self.0, 15, 0x3, v, 5, 0x1);
            lemma_set_bits_u32(self.0, 15, 0x3, v, 6, 0x3);
            lemma_set_bits_u32(self.0, 15, 0x3, v, 8, 0x1);
            lemma_set_bits_u32(self.0, 15, 0x3, v, 9, 0x1);
            lemma_set_bits_u32(self.0, 15, 0x3, v, 10, 0x1);
            lemma_set_bits_u32(self.0, 15, 0x3, v, 11, 0x3);
            lemma_set_bits_u32(self.0, 15, 0x3, v, 13, 0x3);
            lemma_set_bits_u32(self.0, 15, 0x3, v, 17, 0x3);
            lemma_set_bits_u32(self.0, 15, 0x3, v, 19, 0x3);
            lemma_set_bits_u32(self.0, 15, 0x3, v, 21, 0x3);
            lemma_set_bits_u32(self.0, 15, 0x3, v, 23, 0x3);
            lemma_set_bits_u32(self.0, 15, 0x3, v, 25, 0x3);
            lemma_set_bits_u32(self.0, 15, 0x3, v, 27, 0x3);
            lemma_set_bits_u32(self.0, 15, 0x3, v, 29, 0x7);
        }
        Self((self.0 & !(0x3u32 << 15u32)) | ((v & 0x3) << 15u32))
    }

    /// The minimal grouping.
    pub open spec fn spec_minimal_grouping(self) -> GroupingCapability {
        GroupingCapability::spec_from_bits(get_bits_u32(self.0, 17, 0x3) as u8)
    }

    /// The minimal grouping.
    pub fn minimal_grouping(&self) -> (r: GroupingCapability)
        ensures
            r == self.spec_minimal_grouping(),
    {
        GroupingCapability::from_bits(((self.0 >> 17) & 0x3) as u8)
    }

    /// Returns a copy with the field replaced by `value`.
    pub fn with_minimal_grouping(self, value: GroupingCapability) -> (r: Self)
        ensures
            r.0 == set_bits_u32(self.0, 17, 0x3, (value.spec_into_bits() as u32)),
            r.spec_minimal_grouping() == GroupingCapability::spec_from_bits(((value.spec_into_bits() as u32) & 0x3) as u8),
            r.spec_implicit_transmit_beamforming_receiving_capable() == self.spec_implicit_transmit_beamforming_receiving_capable(),
            r.spec_receive_staggered_sounding_capable() == self.spec_receive_staggered_sounding_capable(),
            r.spec_transmit_staggered_sounding_capable() == self.spec_transmit_staggered_sounding_capable(),
            r.spec_receive_ndp_capable() == self.spec_receive_ndp_capable(),
            r.spec_transmit_ndp_capable() == self.spec_transmit_ndp_capable(),
            r.spec_implicit_transmit_beamforming_capable() == self.spec_implicit_transmit_beamforming_capable(),
            r.spec_calibration() == self.spec_calibration(),
            r.spec_explicit_csi_transmit_beamforming_capable() == self.spec_explicit_csi_transmit_beamforming_capable(),
            r.spec_explicit_noncompressed_steering_capable() == self.spec_explicit_noncompressed_steering_capable(),
            r.spec_explicit_compressed_steering_capable() == self.spec_explicit_compressed_steering_capable(),
            r.spec_explicit_transmit_beamforming_csi_feedback() == self.spec_explicit_transmit_beamforming_csi_feedback(),
            r.spec_explicit_noncompressed_beamforming_feedback_capable() == self.spec_explicit_noncompressed_beamforming_feedback_capable(),
            r.spec_explicit_compressed_beamforming_feedback_capable() == self.spec_explicit_compressed_beamforming_feedback_capable(),
            r.spec_csi_number_of_beamformer_antennas_supported() == self.spec_csi_number_of_beamformer_antennas_supported(),
            r.spec_noncompresssed_steering_number_of_beamformer_antennas_supported() == self.spec_noncompresssed_steering_number_of_beamformer_antennas_supported(),
            r.spec_compresssed_steering_number_of_beamformer_antennas_supported() == self.spec_compresssed_steering_number_of_beamformer_antennas_supported(),
            r.spec_csi_max_number_of_rows_beamformer_supported() == self.spec_csi_max_number_of_rows_beamformer_supported(),
            r.spec_channel_estimation_capability() == self.spec_channel_estimation_capability(),
            r.spec_reserved() == self.spec_reserved(),
    {
        let v: u32 = value.into_bits() as u32;
        proof {
            Self::lemma_masks_fit();
            lemma_set_bits_u32(self.0, 17, 0x3, v, 17, 0x3);
            lemma_set_bits_u32(self.0, 17, 0x3, v, 0, 0x1);
            lemma_set_bits_u32(self.0, 17, 0x3, v, 1, 0x1);
            lemma_set_bits_u32(self.0, 17, 0x3, v, 2, 0x1);
            lemma_set_bits_u32(self.0, 17, 0x3, v, 3, 0x1);
            lemma_set_bits_u32(self.0, 17, 0x3, v, 4, 0x1);
            lemma_set_bits_u32(self.0, 17, 0x3, v, 5, 0x1);
            lemma_set_bits_u32(self.0, 17, 0x3, v, 6, 0x3);
            lemma_set_bits_u32(self.0, 17, 0x3, v, 8, 0x1);
            lemma_set_bits_u32(self.0, 17, 0x3, v, 9, 0x1);
            lemma_set_bits_u32(self.0, 17, 0x3, v, 10, 0x1);
            lemma_set_bits_u32(self.0, 17, 0x3, v, 11, 0x3);
            lemma_set_bits_u32(self.0, 17, 0x3, v, 13, 0x3);
            lemma_set_bits_u32(self.0, 17, 0x3, v, 15, 0x3);
            lemma_set_bits_u32(self.0, 17, 0x3, v, 19, 0x3);
            lemma_set_bits_u32(self.0, 17, 0x3, v, 21, 0x3);
            lemma_set_bits_u32(self.0, 17, 0x3, v, 23, 0x3);
            lemma_set_bits_u32(self.0, 17, 0x3, v, 25, 0x3);
            lemma_set_bits_u32(self.0, 17, 0x3, v, 27, 0x3);
            lemma_set_bits_u32(self.0, 17, 0x3, v, 29, 0x7);
        }
        Self((self.0 & !(0x3u32 << 17u32)) | ((v & 0x3) << 17u32))
    }

    /// The number of beamformer antennas supported for CSI feedback.
    pub open spec fn spec_csi_number_of_beamformer_antennas_supported(self) -> u8 {
        get_bits_u32(self.0, 19, 0x3) as u8
    }

    /// The number of beamformer antennas supported for CSI feedback.
    pub fn csi_number_of_beamformer_antennas_supported(&self) -> (r: u8)
        ensures
            r == self.spec_csi_number_of_beamformer_antennas_supported(),
    {
        ((self.0 >> 19) & 0x3) as u8
    }

    /// Returns a copy with the field replaced by `value`.
    pub fn with_csi_number_of_beamformer_antennas_supported(self, value: u8) -> (r: Self)
        ensures
            r.0 == set_bits_u32(self.0, 19, 0x3, (value as u32)),
            r.spec_csi_number_of_beamformer_antennas_supported() == ((value as u32) & 0x3) as u8,
            r.spec_implicit_transmit_beamforming_receiving_capable() == self.spec_implicit_transmit_beamforming_receiving_capable(),
            r.spec_receive_staggered_sounding_capable() == self.spec_receive_staggered_sounding_capable(),
            r.spec_transmit_staggered_sounding_capable() == self.spec_transmit_staggered_sounding_capable(),
            r.spec_receive_ndp_capable() == self.spec_receive_ndp_capable(),
            r.spec_transmit_ndp_capable() == self.spec_transmit_ndp_capable(),
            r.spec_implicit_transmit_beamforming_capable() == self.spec_implicit_transmit_beamforming_capable(),
            r.spec_calibration() == self.spec_calibration(),
            r.spec_explicit_csi_transmit_beamforming_capable() == self.spec_explicit_csi_transmit_beamforming_capable(),
            r.spec_explicit_noncompressed_steering_capable() == self.spec_explicit_noncompressed_steering_capable(),
            r.spec_explicit_compressed_steering_capable() == self.spec_explicit_compressed_steering_capable(),
            r.spec_explicit_transmit_beamforming_csi_feedback() == self.spec_explicit_transmit_beamforming_csi_feedback(),
            r.spec_explicit_noncompressed_beamforming_feedback_capable() == self.spec_explicit_noncompressed_beamforming_feedback_capable(),
            r.spec_explicit_compressed_beamforming_feedback_capable() == self.spec_explicit_compressed_beamforming_feedback_capable(),
            r.spec_minimal_grouping() == self.spec_minimal_grouping(),
            r.spec_noncompresssed_steering_number_of_beamformer_antennas_supported() == self.spec_noncompresssed_steering_number_of_beamformer_antennas_supported(),
            r.spec_compresssed_steering_number_of_beamformer_antennas_supported() == self.spec_compresssed_steering_number_of_beamformer_antennas_supported(),
            r.spec_csi_max_number_of_rows_beamformer_supported() == self.spec_csi_max_number_of_rows_beamformer_supported(),
            r.spec_channel_estimation_capability() == self.spec_channel_estimation_capability(),
            r.spec_reserved() == self.spec_reserved(),
    {
        let v: u32 = value as u32;
        proof {
            Self::lemma_masks_fit();
            lemma_set_bits_u32(self.0, 19, 0x3, v, 19, 0x3);
            lemma_set_bits_u32(self.0, 19, 0x3, v, 0, 0x1);
            lemma_set_bits_u32(self.0, 19, 0x3, v, 1, 0x1);
            lemma_set_bits_u32(self.0, 19, 0x3, v, 2, 0x1);
            lemma_set_bits_u32(self.0, 19, 0x3, v, 3, 0x1);
            lemma_set_bits_u32(self.0, 19, 0x3, v, 4, 0x1);
            lemma_set_bits_u32(self.0, 19, 0x3, v, 5, 0x1);
            lemma_set_bits_u32(self.0, 19, 0x3, v, 6, 0x3);
            lemma_set_bits_u32(self.0, 19, 0x3, v, 8, 0x1);
            lemma_set_bits_u32(self.0, 19, 0x3, v, 9, 0x1);
            lemma_set_bits_u32(self.0, 19, 0x3, v, 10, 0x1);
            lemma_set_bits_u32(self.0, 19, 0x3, v, 11, 0x3);
            lemma_set_bits_u32(self.0, 19, 0x3, v, 13, 0x3);
            lemma_set_bits_u32(self.0, 19, 0x3, v, 15, 0x3);
            lemma_set_bits_u32(self.0, 19, 0x3, v, 17, 0x3);
            lemma_set_bits_u32(self.0, 19, 0x3, v, 21, 0x3);
            lemma_set_bits_u32(self.0, 19, 0x3, v, 23, 0x3);
            lemma_set_bits_u32(self.0, 19, 0x3, v, 25, 0x3);
            lemma_set_bits_u32(self.0, 19, 0x3, v, 27, 0x3);
            lemma_set_bits_u32(self.0, 19, 0x3, v, 29, 0x7);
        }
        Self((self.0 & !(0x3u32 << 19u32)) | ((v & 0x3) << 19u32))
    }

    /// The number of beamformer antennas supported for noncompressed steering.
    pub open spec fn spec_noncompresssed_steering_number_of_beamformer_antennas_supported(self) -> u8 {
        get_bits_u32(self.0, 21, 0x3) as u8
    }

    /// The number of beamformer antennas supported for noncompressed steering.
    pub fn noncompresssed_steering_number_of_beamformer_antennas_supported(&self) -> (r: u8)
        ensures
            r == self.spec_noncompresssed_steering_number_of_beamformer_antennas_supported(),
    {
        ((self.0 >> 21) & 0x3) as u8
    }

    /// Returns a copy with the field replaced by `value`.
    pub fn with_noncompresssed_steering_number_of_beamformer_antennas_supported(self, value: u8) -> (r: Self)
        ensures
            r.0 == set_bits_u32(self.0, 21, 0x3, (value as u32)),
            r.spec_noncompresssed_steering_number_of_beamformer_antennas_supported() == ((value as u32) & 0x3) as u8,
            r.spec_implicit_transmit_beamforming_receiving_capable() == self.spec_implicit_transmit_beamforming_receiving_capable(),
            r.spec_receive_staggered_sounding_capable() == self.spec_receive_staggered_sounding_capable(),
            r.spec_transmit_staggered_sounding_capable() == self.spec_transmit_staggered_sounding_capable(),
            r.spec_receive_ndp_capable() == self.spec_receive_ndp_capable(),
            r.spec_transmit_ndp_capable() == self.spec_transmit_ndp_capable(),
            r.spec_implicit_transmit_beamforming_capable() == self.spec_implicit_transmit_beamforming_capable(),
            r.spec_calibration() == self.spec_calibration(),
            r.spec_explicit_csi_transmit_beamforming_capable() == self.spec_explicit_csi_transmit_beamforming_capable(),
            r.spec_explicit_noncompressed_steering_capable() == self.spec_explicit_noncompressed_steering_capable(),
            r.spec_explicit_compressed_steering_capable() == self.spec_explicit_compressed_steering_capable(),
            r.spec_explicit_transmit_beamforming_csi_feedback() == self.spec_explicit_transmit_beamforming_csi_feedback(),
            r.spec_explicit_noncompressed_beamforming_feedback_capable() == self.spec_explicit_noncompressed_beamforming_feedback_capable(),
            r.spec_explicit_compressed_beamforming_feedback_capable() == self.spec_explicit_compressed_beamforming_feedback_capable(),
            r.spec_minimal_grouping() == self.spec_minimal_grouping(),
            r.spec_csi_number_of_beamformer_antennas_supported() == self.spec_csi_number_of_beamformer_antennas_supported(),
            r.spec_compresssed_steering_number_of_beamformer_antennas_supported() == self.spec_compresssed_steering_number_of_beamformer_antennas_supported(),
            r.spec_csi_max_number_of_rows_beamformer_supported() == self.spec_csi_max_number_of_rows_beamformer_supported(),
            r.spec_channel_estimation_capability() == self.spec_channel_estimation_capability(),
            r.spec_reserved() == self.spec_reserved(),
    {
        let v: u32 = value as u32;
        proof {
            Self::lemma_masks_fit();
            lemma_set_bits_u32(self.0, 21, 0x3, v, 21, 0x3);
            lemma_set_bits_u32(self.0, 21, 0x3, v, 0, 0x1);
            lemma_set_bits_u32(self.0, 21, 0x3, v, 1, 0x1);
            lemma_set_bits_u32(self.0, 21, 0x3, v, 2, 0x1);
            lemma_set_bits_u32(self.0, 21, 0x3, v, 3, 0x1);
            lemma_set_bits_u32(self.0, 21, 0x3, v, 4, 0x1);
            lemma_set_bits_u32(self.0, 21, 0x3, v, 5, 0x1);
            lemma_set_bits_u32(self.0, 21, 0x3, v, 6, 0x3);
            lemma_set_bits_u32(self.0, 21, 0x3, v, 8, 0x1);
            lemma_set_bits_u32(self.0, 21, 0x3, v, 9, 0x1);
            lemma_set_bits_u32(self.0, 21, 0x3, v, 10, 0x1);
            lemma_set_bits_u32(self.0, 21, 0x3, v, 11, 0x3);
            lemma_set_bits_u32(self.0, 21, 0x3, v, 13, 0x3);
            lemma_set_bits_u32(self.0, 21, 0x3, v, 15, 0x3);
            lemma_set_bits_u32(self.0, 21, 0x3, v, 17, 0x3);
            lemma_set_bits_u32(self.0, 21, 0x3, v, 19, 0x3);
            lemma_set_bits_u32(self.0, 21, 0x3, v, 23, 0x3);
            lemma_set_bits_u32(self.0, 21, 0x3, v, 25, 0x3);
            lemma_set_bits_u32(self.0, 21, 0x3, v, 27, 0x3);
            lemma_set_bits_u32(self.0, 21, 0x3, v, 29, 0x7);
        }
        Self((self.0 & !(0x3u32 << 21u32)) | ((v & 0x3) << 21u32))
    }

    /// The number of beamformer antennas supported for compressed steering.
    pub open spec fn spec_compresssed_steering_number_of_beamformer_antennas_supported(self) -> u8 {
        get_bits_u32(self.0, 23, 0x3) as u8
    }

    /// The number of beamformer antennas supported for compressed steering.
    pub fn compresssed_steering_number_of_beamformer_antennas_supported(&self) -> (r: u8)
        ensures
            r == self.spec_compresssed_steering_number_of_beamformer_antennas_supported(),
    {
        ((self.0 >> 23) & 0x3) as u8
    }

    /// Returns a copy with the field replaced by `value`.
    pub fn with_compresssed_steering_number_of_beamformer_antennas_supported(self, value: u8) -> (r: Self)
        ensures
            r.0 == set_bits_u32(self.0, 23, 0x3, (value as u32)),
            r.spec_compresssed_steering_number_of_beamformer_antennas_supported() == ((value as u32) & 0x3) as u8,
            r.spec_implicit_transmit_beamforming_receiving_capable() == self.spec_implicit_transmit_beamforming_receiving_capable(),
            r.spec_receive_staggered_sounding_capable() == self.spec_receive_staggered_sounding_capable(),
            r.spec_transmit_staggered_sounding_capable() == self.spec_transmit_staggered_sounding_capable(),
            r.spec_receive_ndp_capable() == self.spec_receive_ndp_capable(),
            r.spec_transmit_ndp_capable() == self.spec_transmit_ndp_capable(),
            r.spec_implicit_transmit_beamforming_capable() == self.spec_implicit_transmit_beamforming_capable(),
            r.spec_calibration() == self.spec_calibration(),
            r.spec_explicit_csi_transmit_beamforming_capable() == self.spec_explicit_csi_transmit_beamforming_capable(),
            r.spec_explicit_noncompressed_steering_capable() == self.spec_explicit_noncompressed_steering_capable(),
            r.spec_explicit_compressed_steering_capable() == self.spec_explicit_compressed_steering_capable(),
            r.spec_explicit_transmit_beamforming_csi_feedback() == self.spec_explicit_transmit_beamforming_csi_feedback(),
            r.spec_explicit_noncompressed_beamforming_feedback_capable() == self.spec_explicit_noncompressed_beamforming_feedback_capable(),
            r.spec_explicit_compressed_beamforming_feedback_capable() == self.spec_explicit_compressed_beamforming_feedback_capable(),
            r.spec_minimal_grouping() == self.spec_minimal_grouping(),
            r.spec_csi_number_of_beamformer_antennas_supported() == self.spec_csi_number_of_beamformer_antennas_supported(),
            r.spec_noncompresssed_steering_number_of_beamformer_antennas_supported() == self.spec_noncompresssed_steering_number_of_beamformer_antennas_supported(),
            r.spec_csi_max_number_of_rows_beamformer_supported() == self.spec_csi_max_number_of_rows_beamformer_supported(),
            r.spec_channel_estimation_capability() == self.spec_channel_estimation_capability(),
            r.spec_reserved() == self.spec_reserved(),
    {
        let v: u32 = value as u32;
        proof {
            Self::lemma_masks_fit();
            lemma_set_bits_u32(self.0, 23, 0x3, v, 23, 0x3);
            lemma_set_bits_u32(self.0, 23, 0x3, v, 0, 0x1);
            lemma_set_bits_u32(self.0, 23, 0x3, v, 1, 0x1);
            lemma_set_bits_u32(self.0, 23, 0x3, v, 2, 0x1);
            lemma_set_bits_u32(self.0, 23, 0x3, v, 3, 0x1);
            lemma_set_bits_u32(self.0, 23, 0x3, v, 4, 0x1);
            lemma_set_bits_u32(self.0, 23, 0x3, v, 5, 0x1);
            lemma_set_bits_u32(self.0, 23, 0x3, v, 6, 0x3);
            lemma_set_bits_u32(self.0, 23, 0x3, v, 8, 0x1);
            lemma_set_bits_u32(self.0, 23, 0x3, v, 9, 0x1);
            lemma_set_bits_u32(self.0, 23, 0x3, v, 10, 0x1);
            lemma_set_bits_u32(self.0, 23, 0x3, v, 11, 0x3);
            lemma_set_bits_u32(self.0, 23, 0x3, v, 13, 0x3);
            lemma_set_bits_u32(self.0, 23, 0x3, v, 15, 0x3);
            lemma_set_bits_u32(self.0, 23, 0x3, v, 17, 0x3);
            lemma_set_bits_u32(self.0, 23, 0x3, v, 19, 0x3);
            lemma_set_bits_u32(self.0, 23, 0x3, v, 21, 0x3);
            lemma_set_bits_u32(self.0, 23, 0x3, v, 25, 0x3);
            lemma_set_bits_u32(self.0, 23, 0x3, v, 27, 0x3);
            lemma_set_bits_u32(self.0, 23, 0x3, v, 29, 0x7);
        }
        Self((self.0 & !(0x3u32 << 23u32)) | ((v & 0x3) << 23u32))
    }

    /// The maximum number of rows of CSI supported.
    pub open spec fn spec_csi_max_number_of_rows_beamformer_supported(self) -> u8 {
        get_bits_u32(self.0, 25, 0x3) as u8
    }

    /// The maximum number of rows of CSI supported.
    pub fn csi_max_number_of_rows_beamformer_supported(&self) -> (r: u8)
        ensures
            r == self.spec_csi_max_number_of_rows_beamformer_supported(),
    {
        ((self.0 >> 25) & 0x3) as u8
    }

    /// Returns a copy with the field replaced by `value`.
    pub fn with_csi_max_number_of_rows_beamformer_supported(self, value: u8) -> (r: Self)
        ensures
            r.0 == set_bits_u32(self.0, 25, 0x3, (value as u32)),
            r.spec_csi_max_number_of_rows_beamformer_supported() == ((value as u32) & 0x3) as u8,
            r.spec_implicit_transmit_beamforming_receiving_capable() == self.spec_implicit_transmit_beamforming_receiving_capable(),
            r.spec_receive_staggered_sounding_capable() == self.spec_receive_staggered_sounding_capable(),
            r.spec_transmit_staggered_sounding_capable() == self.spec_transmit_staggered_sounding_capable(),
            r.spec_receive_ndp_capable() == self.spec_receive_ndp_capable(),
            r.spec_transmit_ndp_capable() == self.spec_transmit_ndp_capable(),
            r.spec_implicit_transmit_beamforming_capable() == self.spec_implicit_transmit_beamforming_capable(),
            r.spec_calibration() == self.spec_calibration(),
            r.spec_explicit_csi_transmit_beamforming_capable() == self.spec_explicit_csi_transmit_beamforming_capable(),
            r.spec_explicit_noncompressed_steering_capable() == self.spec_explicit_noncompressed_steering_capable(),
            r.spec_explicit_compressed_steering_capable() == self.spec_explicit_compressed_steering_capable(),
            r.spec_explicit_transmit_beamforming_csi_feedback() == self.spec_explicit_transmit_beamforming_csi_feedback(),
            r.spec_explicit_noncompressed_beamforming_feedback_capable() == self.spec_explicit_noncompressed_beamforming_feedback_capable(),
            r.spec_explicit_compressed_beamforming_feedback_capable() == self.spec_explicit_compressed_beamforming_feedback_capable(),
            r.spec_minimal_grouping() == self.spec_minimal_grouping(),
            r.spec_csi_number_of_beamformer_antennas_supported() == self.spec_csi_number_of_beamformer_antennas_supported(),
            r.spec_noncompresssed_steering_number_of_beamformer_antennas_supported() == self.spec_noncompresssed_steering_number_of_beamformer_antennas_supported(),
            r.spec_compresssed_steering_number_of_beamformer_antennas_supported() == self.spec_compresssed_steering_number_of_beamformer_antennas_supported(),
            r.spec_channel_estimation_capability() == self.spec_channel_estimation_capability(),
            r.spec_reserved() == self.spec_reserved(),
    {
        let v: u32 = value as u32;
        proof {
            Self::lemma_masks_fit();
            lemma_set_bits_u32(self.0, 25, 0x3, v, 25, 0x3);
            lemma_set_bits_u32(self.0, 25, 0x3, v, 0, 0x1);
            lemma_set_bits_u32(self.0, 25, 0x3, v, 1, 0x1);
            lemma_set_bits_u32(self.0, 25, 0x3, v, 2, 0x1);
            lemma_set_bits_u32(self.0, 25, 0x3, v, 3, 0x1);
            lemma_set_bits_u32(self.0, 25, 0x3, v, 4, 0x1);
            lemma_set_bits_u32(self.0, 25, 0x3, v, 5, 0x1);
            lemma_set_bits_u32(self.0, 25, 0x3, v, 6, 0x3);
            lemma_set_bits_u32(self.0, 25, 0x3, v, 8, 0x1);
            lemma_set_bits_u32(self.0, 25, 0x3, v, 9, 0x1);
            lemma_set_bits_u32(self.0, 25, 0x3, v, 10, 0x1);
            lemma_set_bits_u32(self.0, 25, 0x3, v, 11, 0x3);
            lemma_set_bits_u32(self.0, 25, 0x3, v, 13, 0x3);
            lemma_set_bits_u32(self.0, 25, 0x3, v, 15, 0x3);
            lemma_set_bits_u32(self.0, 25, 0x3, v, 17, 0x3);
            lemma_set_bits_u32(self.0, 25, 0x3, v, 19, 0x3);
            lemma_set_bits_u32(self.0, 25, 0x3, v, 21, 0x3);
            lemma_set_bits_u32(self.0, 25, 0x3, v, 23, 0x3);
            lemma_set_bits_u32(self.0, 25, 0x3, v, 27, 0x3);
            lemma_set_bits_u32(self.0, 25, 0x3, v, 29, 0x7);
        }
        Self((self.0 & !(0x3u32 << 25u32)) | ((v & 0x3) << 25u32))
    }

    /// The channel estimation capability.
    pub open spec fn spec_channel_estimation_capability(self) -> u8 {
        get_bits_u32(self.0, 27, 0x3) as u8
    }

    /// The channel estimation capability.
    pub fn channel_estimation_capability(&self) -> (r: u8)
        ensures
            r == self.spec_channel_estimation_capability(),
    {
        ((self.0 >> 27) & 0x3) as u8
    }

    /// Returns a copy with the field replaced by `value`.
    pub fn with_channel_estimation_capability(self, value: u8) -> (r: Self)
        ensures
            r.0 == set_bits_u32(self.0, 27, 0x3, (value as u32)),
            r.spec_channel_estimation_capability() == ((value as u32) & 0x3) as u8,
            r.spec_implicit_transmit_beamforming_receiving_capable() == self.spec_implicit_transmit_beamforming_receiving_capable(),
            r.spec_receive_staggered_sounding_capable() == self.spec_receive_staggered_sounding_capable(),
            r.spec_transmit_staggered_sounding_capable() == self.spec_transmit_staggered_sounding_capable(),
            r.spec_receive_ndp_capable() == self.spec_receive_ndp_capable(),
            r.spec_transmit_ndp_capable() == self.spec_transmit_ndp_capable(),
            r.spec_implicit_transmit_beamforming_capable() == self.spec_implicit_transmit_beamforming_capable(),
            r.spec_calibration() == self.spec_calibration(),
            r.spec_explicit_csi_transmit_beamforming_capable() == self.spec_explicit_csi_transmit_beamforming_capable(),
            r.spec_explicit_noncompressed_steering_capable() == self.spec_explicit_noncompressed_steering_capable(),
            r.spec_explicit_compressed_steering_capable() == self.spec_explicit_compressed_steering_capable(),
            r.spec_explicit_transmit_beamforming_csi_feedback() == self.spec_explicit_transmit_beamforming_csi_feedback(),
            r.spec_explicit_noncompressed_beamforming_feedback_capable() == self.spec_explicit_noncompressed_beamforming_feedback_capable(),
            r.spec_explicit_compressed_beamforming_feedback_capable() == self.spec_explicit_compressed_beamforming_feedback_capable(),
            r.spec_minimal_grouping() == self.spec_minimal_grouping(),
            r.spec_csi_number_of_beamformer_antennas_supported() == self.spec_csi_number_of_beamformer_antennas_supported(),
            r.spec_noncompresssed_steering_number_of_beamformer_antennas_supported() == self.spec_noncompresssed_steering_number_of_beamformer_antennas_supported(),
            r.spec_compresssed_steering_number_of_beamformer_antennas_supported() == self.spec_compresssed_steering_number_of_beamformer_antennas_supported(),
            r.spec_csi_max_number_of_rows_beamformer_supported() == self.spec_csi_max_number_of_rows_beamformer_supported(),
            r.spec_reserved() == self.spec_reserved(),
    {
        let v: u32 = value as u32;
        proof {
            Self::lemma_masks_fit();
            lemma_set_bits_u32(self.0, 27, 0x3, v, 27, 0x3);
            lemma_set_bits_u32(self.0, 27, 0x3, v, 0, 0x1);
            lemma_set_bits_u32(self.0, 27, 0x3, v, 1, 0x1);
            lemma_set_bits_u32(self.0, 27, 0x3, v, 2, 0x1);
            lemma_set_bits_u32(self.0, 27, 0x3, v, 3, 0x1);
            lemma_set_bits_u32(self.0, 27, 0x3, v, 4, 0x1);
            lemma_set_bits_u32(self.0, 27, 0x3, v, 5, 0x1);
            lemma_set_bits_u32(self.0, 27, 0x3, v, 6, 0x3);
            lemma_set_bits_u32(self.0, 27, 0x3, v, 8, 0x1);
            lemma_set_bits_u32(self.0, 27, 0x3, v, 9, 0x1);
            lemma_set_bits_u32(self.0, 27, 0x3, v, 10, 0x1);
            lemma_set_bits_u32(self.0, 27, 0x3, v, 11, 0x3);
            lemma_set_bits_u32(self.0, 27, 0x3, v, 13, 0x3);
            lemma_set_bits_u32(self.0, 27, 0x3, v, 15, 0x3);
            lemma_set_bits_u32(self.0, 27, 0x3, v, 17, 0x3);
            lemma_set_bits_u32(self.0, 27, 0x3, v, 19, 0x3);
            lemma_set_bits_u32(self.0, 27, 0x3, v, 21, 0x3);
            lemma_set_bits_u32(self.0, 27, 0x3, v, 23, 0x3);
            lemma_set_bits_u32(self.0, 27, 0x3, v, 25, 0x3);
            lemma_set_bits_u32(self.0, 27, 0x3, v, 29, 0x7);
        }
        Self((self.0 & !(0x3u32 << 27u32)) | ((v & 0x3) << 27u32))
    }

    /// Reserved bits.
    pub open spec fn spec_reserved(self) -> u8 {
        get_bits_u32(self.0, 29, 0x7) as u8
    }

    /// Reserved bits.
    pub fn reserved(&self) -> (r: u8)
        ensures
            r == self.spec_reserved(),
    {
        ((self.0 >> 29) & 0x7) as u8
    }

    /// Returns a copy with the field replaced by `value`.
    pub fn with_reserved(self, value: u8) -> (r: Self)
        ensures
            r.0 == set_bits_u32(self.0, 29, 0x7, (value as u32)),
            r.spec_reserved() == ((value as u32) & 0x7) as u8,
            r.spec_implicit_transmit_beamforming_receiving_capable() == self.spec_implicit_transmit_beamforming_receiving_capable(),
            r.spec_receive_staggered_sounding_capable() == self.spec_receive_staggered_sounding_capable(),
            r.spec_transmit_staggered_sounding_capable() == self.spec_transmit_staggered_sounding_capable(),
            r.spec_receive_ndp_capable() == self.spec_receive_ndp_capable(),
            r.spec_transmit_ndp_capable() == self.spec_transmit_ndp_capable(),
            r.spec_implicit_transmit_beamforming_capable() == self.spec_implicit_transmit_beamforming_capable(),
            r.spec_calibration() == self.spec_calibration(),
            r.spec_explicit_csi_transmit_beamforming_capable() == self.spec_explicit_csi_transmit_beamforming_capable(),
            r.spec_explicit_noncompressed_steering_capable() == self.spec_explicit_noncompressed_steering_capable(),
            r.spec_explicit_compressed_steering_capable() == self.spec_explicit_compressed_steering_capable(),
            r.spec_explicit_transmit_beamforming_csi_feedback() == self.spec_explicit_transmit_beamforming_csi_feedback(),
            r.spec_explicit_noncompressed_beamforming_feedback_capable() == self.spec_explicit_noncompressed_beamforming_feedback_capable(),
            r.spec_explicit_compressed_beamforming_feedback_capable() == self.spec_explicit_compressed_beamforming_feedback_capable(),
            r.spec_minimal_grouping() == self.spec_minimal_grouping(),
            r.spec_csi_number_of_beamformer_antennas_supported() == self.spec_csi_number_of_beamformer_antennas_supported(),
            r.spec_noncompresssed_steering_number_of_beamformer_antennas_supported() == self.spec_noncompresssed_steering_number_of_beamformer_antennas_supported(),
            r.spec_compresssed_steering_number_of_beamformer_antennas_supported() == self.spec_compresssed_steering_number_of_beamformer_antennas_supported(),
            r.spec_csi_max_number_of_rows_beamformer_supported() == self.spec_csi_max_number_of_rows_beamformer_supported(),
            r.spec_channel_estimation_capability() == self.spec_channel_estimation_capability(),
    {
        let v: u32 = value as u32;
        proof {
            Self::lemma_masks_fit();
            lemma_set_bits_u32(self.0, 29, 0x7, v, 29, 0x7);
            lemma_set_bits_u32(self.0, 29, 0x7, v, 0, 0x1);
            lemma_set_bits_u32(self.0, 29, 0x7, v, 1, 0x1);
            lemma_set_bits_u32(self.0, 29, 0x7, v, 2, 0x1);
            lemma_set_bits_u32(self.0, 29, 0x7, v, 3, 0x1);
            lemma_set_bits_u32(self.0, 29, 0x7, v, 4, 0x1);
            lemma_set_bits_u32(self.0, 29, 0x7, v, 5, 0x1);
            lemma_set_bits_u32(self.0, 29, 0x7, v, 6, 0x3);
            lemma_set_bits_u32(self.0, 29, 0x7, v, 8, 0x1);
            lemma_set_bits_u32(self.0, 29, 0x7, v, 9, 0x1);
            lemma_set_bits_u32(self.0, 29, 0x7, v, 10, 0x1);
            lemma_set_bits_u32(self.0, 29, 0x7, v, 11, 0x3);
            lemma_set_bits_u32(self.0, 29, 0x7, v, 13, 0x3);
            lemma_set_bits_u32(self.0, 29, 0x7, v, 15, 0x3);
            lemma_set_bits_u32(self.0, 29, 0x7, v, 17, 0x3);
            lemma_set_bits_u32(self.0, 29, 0x7, v, 19, 0x3);
            lemma_set_bits_u32(self.0, 29, 0x7, v, 21, 0x3);
            lemma_set_bits_u32(self.0, 29, 0x7, v, 23, 0x3);
            lemma_set_bits_u32(self.0, 29, 0x7, v, 25, 0x3);
            lemma_set_bits_u32(self.0, 29, 0x7, v, 27, 0x3);
        }
        Self((self.0 & !(0x7u32 << 29u32)) | ((v & 0x7) << 29u32))
    }
}

/// The antenna selection capability.
#[derive(Clone, Copy, Debug, PartialEq, Eq, Hash, Structural)]
pub struct ASELCapability(pub u8);

impl ASELCapability {
    /// A value with every field at its default.
    pub fn new() -> (r: Self)
        ensures
            r.0 == 0x0,
    {
        Self(0x0)
    }

    /// Wrap the raw bits.
    pub fn from_bits(bits: u8) -> (r: Self)
        ensures
            r.0 == bits,
    {
        Self(bits)
    }

    /// Every field mask fits in the backing integer.
    proof fn lemma_masks_fit()
        by (bit_vector)
        ensures
            fits_u8(0, 0x1),
            fits_u8(1, 0x1),
            fits_u8(2, 0x1),
            fits_u8(3, 0x1),
            fits_u8(4, 0x1),
            fits_u8(5, 0x1),
            fits_u8(6, 0x1),
            fits_u8(7, 0x1),
            (0x1u8 << 0u8) & (0x1u8 << 1u8) == 0,
            (0x1u8 << 1u8) & (0x1u8 << 0u8) == 0,
            (0x1u8 << 0u8) & (0x1u8 << 2u8) == 0,
            (0x1u8 << 2u8) & (0x1u8 << 0u8) == 0,
            (0x1u8 << 0u8) & (0x1u8 << 3u8) == 0,
            (0x1u8 << 3u8) & (0x1u8 << 0u8) == 0,
            (0x1u8 << 0u8) & (0x1u8 << 4u8) == 0,
            (0x1u8 << 4u8) & (0x1u8 << 0u8) == 0,
            (0x1u8 << 0u8) & (0x1u8 << 5u8) == 0,
            (0x1u8 << 5u8) & (0x1u8 << 0u8) == 0,
            (0x1u8 << 0u8) & (0x1u8 << 6u8) == 0,
            (0x1u8 << 6u8) & (0x1u8 << 0u8) == 0,
            (0x1u8 << 0u8) & (0x1u8 << 7u8) == 0,
            (0x1u8 << 7u8) & (0x1u8 << 0u8) == 0,
            (0x1u8 << 1u8) & (0x1u8 << 2u8) == 0,
            (0x1u8 << 2u8) & (0x1u8 << 1u8) == 0,
            (0x1u8 << 1u8) & (0x1u8 << 3u8) == 0,
            (0x1u8 << 3u8) & (0x1u8 << 1u8) == 0,
            (0x1u8 << 1u8) & (0x1u8 << 4u8) == 0,
            (0x1u8 << 4u8) & (0x1u8 << 1u8) == 0,
            (0x1u8 << 1u8) & (0x1u8 << 5u8) == 0,
            (0x1u8 << 5u8) & (0x1u8 << 1u8) == 0,
            (0x1u8 << 1u8) & (0x1u8 << 6u8) == 0,
            (0x1u8 << 6u8) & (0x1u8 << 1u8) == 0,
            (0x1u8 << 1u8) & (0x1u8 << 7u8) == 0,
            (0x1u8 << 7u8) & (0x1u8 << 1u8) == 0,
            (0x1u8 << 2u8) & (0x1u8 << 3u8) == 0,
            (0x1u8 << 3u8) & (0x1u8 << 2u8) == 0,
            (0x1u8 << 2u8) & (0x1u8 << 4u8) == 0,
            (0x1u8 << 4u8) & (0x1u8 << 2u8) == 0,
            (0x1u8 << 2u8) & (0x1u8 << 5u8) == 0,
            (0x1u8 << 5u8) & (0x1u8 << 2u8) == 0,
            (0x1u8 << 2u8) & (0x1u8 << 6u8) == 0,
            (0x1u8 << 6u8) & (0x1u8 << 2u8) == 0,
            (0x1u8 << 2u8) & (0x1u8 << 7u8) == 0,
            (0x1u8 << 7u8) & (0x1u8 << 2u8) == 0,
            (0x1u8 << 3u8) & (0x1u8 << 4u8) == 0,
            (0x1u8 << 4u8) & (0x1u8 << 3u8) == 0,
            (0x1u8 << 3u8) & (0x1u8 << 5u8) == 0,
            (0x1u8 << 5u8) & (0x1u8 << 3u8) == 0,
            (0x1u8 << 3u8) & (0x1u8 << 6u8) == 0,
            (0x1u8 << 6u8) & (0x1u8 << 3u8) == 0,
            (0x1u8 << 3u8) & (0x1u8 << 7u8) == 0,
            (0x1u8 << 7u8) & (0x1u8 << 3u8) == 0,
            (0x1u8 << 4u8) & (0x1u8 << 5u8) == 0,
            (0x1u8 << 5u8) & (0x1u8 << 4u8) == 0,
            (0x1u8 << 4u8) & (0x1u8 << 6u8) == 0,
            (0x1u8 << 6u8) & (0x1u8 << 4u8) == 0,
            (0x1u8 << 4u8) & (0x1u8 << 7u8) == 0,
            (0x1u8 << 7u8) & (0x1u8 << 4u8) == 0,
            (0x1u8 << 5u8) & (0x1u8 << 6u8) == 0,
            (0x1u8 << 6u8) & (0x1u8 << 5u8) == 0,
            (0x1u8 << 5u8) & (0x1u8 << 7u8) == 0,
            (0x1u8 << 7u8) & (0x1u8 << 5u8) == 0,
            (0x1u8 << 6u8) & (0x1u8 << 7u8) == 0,
            (0x1u8 << 7u8) & (0x1u8 << 6u8) == 0,
            1u8 & 1u8 == 1,
            0u8 & 1u8 == 0,
    {
    }

    /// The raw bits.
    pub fn into_bits(self) -> (r: u8)
        ensures
            r == self.0,
    {
        self.0
    }

    /// Antenna selection is supported.
    pub open spec fn spec_antenna_selection_capable(self) -> bool {
        get_bits_u8(self.0, 0, 1) == 1
    }

    /// Antenna selection is supported.
    pub fn antenna_selection_capable(&self) -> (r: bool)
        ensures
            r == self.spec_antenna_selection_capable(),
    {
        (self.0 >> 0) & 1 == 1
    }

    /// Returns a copy with the field replaced by `value`.
    pub fn with_antenna_selection_capable(self, value: bool) -> (r: Self)
        ensures
            r.0 == set_bits_u8(self.0, 0, 0x1, (if value {
                1u8
            } else {
                0u8
            })),
            r.spec_antenna_selection_capable() == value,
            r.spec_explicit_csi_feedback_based_transmit_asel_capable() == self.spec_explicit_csi_feedback_based_transmit_asel_capable(),
            r.spec_antenna_indices_feedback_based_transmit_asel_capable() == self.spec_antenna_indices_feedback_based_transmit_asel_capable(),
            r.spec_explicit_csi_feedback_capable() == self.spec_explicit_csi_feedback_capable(),
            r.spec_antenna_indices_feedback_capable() == self.spec_antenna_indices_feedback_capable(),
            r.spec_receive_asel_capable() == self.spec_receive_asel_capable(),
            r.spec_transmit_sounding_ppdus_capable() == self.spec_transmit_sounding_ppdus_capable(),
            r.spec_reserved() == self.spec_reserved(),
    {
        let v: u8 = if value {
            1
        } else {
            0
        };
        proof {
            Self::lemma_masks_fit();
            lemma_set_bits_u8(self.0, 0, 0x1, v, 0, 0x1);
            lemma_set_bits_u8(self.0, 0, 0x1, v, 1, 0x1);
            lemma_set_bits_u8(self.0, 0, 0x1, v, 2, 0x1);
            lemma_set_bits_u8(self.0, 0, 0x1, v, 3, 0x1);
            lemma_set_bits_u8(self.0, 0, 0x1, v, 4, 0x1);
            lemma_set_bits_u8(self.0, 0, 0x1, v, 5, 0x1);
            lemma_set_bits_u8(self.0, 0, 0x1, v, 6, 0x1);
            lemma_set_bits_u8(self.0, 0, 0x1, v, 7, 0x1);
        }
        Self((self.0 & !(0x1u8 << 0u8)) | ((v & 0x1) << 0u8))
    }

    /// Explicit CSI feedback based transmit antenna selection is supported.
    pub open spec fn spec_explicit_csi_feedback_based_transmit_asel_capable(self) -> bool {
        get_bits_u8(self.0, 1, 1) == 1
    }

    /// Explicit CSI feedback based transmit antenna selection is supported.
    pub fn explicit_csi_feedback_based_transmit_asel_capable(&self) -> (r: bool)
        ensures
            r == self.spec_explicit_csi_feedback_based_transmit_asel_capable(),
    {
        (self.0 >> 1) & 1 == 1
    }

    /// Returns a copy with the field replaced by `value`.
    pub fn with_explicit_csi_feedback_based_transmit_asel_capable(self, value: bool) -> (r: Self)
        ensures
            r.0 == set_bits_u8(self.0, 1, 0x1, (if value {
                1u8
            } else {
                0u8
            })),
            r.spec_explicit_csi_feedback_based_transmit_asel_capable() == value,
            r.spec_antenna_selection_capable() == self.spec_antenna_selection_capable(),
            r.spec_antenna_indices_feedback_based_transmit_asel_capable() == self.spec_antenna_indices_feedback_based_transmit_asel_capable(),
            r.spec_explicit_csi_feedback_capable() == self.spec_explicit_csi_feedback_capable(),
            r.spec_antenna_indices_feedback_capable() == self.spec_antenna_indices_feedback_capable(),
            r.spec_receive_asel_capable() == self.spec_receive_asel_capable(),
            r.spec_transmit_sounding_ppdus_capable() == self.spec_transmit_sounding_ppdus_capable(),
            r.spec_reserved() == self.spec_reserved(),
    {
        let v: u8 = if value {
            1
        } else {
            0
        };
        proof {
            Self::lemma_masks_fit();
            lemma_set_bits_u8(self.0, 1, 0x1, v, 1, 0x1);
            lemma_set_bits_u8(self.0, 1, 0x1, v, 0, 0x1);
            lemma_set_bits_u8(self.0, 1, 0x1, v, 2, 0x1);
            lemma_set_bits_u8(self.0, 1, 0x1, v, 3, 0x1);
            lemma_set_bits_u8(self.0, 1, 0x1, v, 4, 0x1);
            lemma_set_bits_u8(self.0, 1, 0x1, v, 5, 0x1);
            lemma_set_bits_u8(self.0, 1, 0x1, v, 6, 0x1);
            lemma_set_bits_u8(self.0, 1, 0x1, v, 7, 0x1);
        }
        Self((self.0 & !(0x1u8 << 1u8)) | ((v & 0x1) << 1u8))
    }

    /// Antenna indices feedback based transmit antenna selection is supported.
    pub open spec fn spec_antenna_indices_feedback_based_transmit_asel_capable(self) -> bool {
        get_bits_u8(self.0, 2, 1) == 1
    }

    /// Antenna indices feedback based transmit antenna selection is supported.
    pub fn antenna_indices_feedback_based_transmit_asel_capable(&self) -> (r: bool)
        ensures
            r == self.spec_antenna_indices_feedback_based_transmit_asel_capable(),
    {
        (self.0 >> 2) & 1 == 1
    }

    /// Returns a copy with the field replaced by `value`.
    pub fn with_antenna_indices_feedback_based_transmit_asel_capable(self, value: bool) -> (r: Self)
        ensures
            r.0 == set_bits_u8(self.0, 2, 0x1, (if value {
                1u8
            } else {
                0u8
            })),
            r.spec_antenna_indices_feedback_based_transmit_asel_capable() == value,
            r.spec_antenna_selection_capable() == self.spec_antenna_selection_capable(),
            r.spec_explicit_csi_feedback_based_transmit_asel_capable() == self.spec_explicit_csi_feedback_based_transmit_asel_capable(),
            r.spec_explicit_csi_feedback_capable() == self.spec_explicit_csi_feedback_capable(),
            r.spec_antenna_indices_feedback_capable() == self.spec_antenna_indices_feedback_capable(),
            r.spec_receive_asel_capable() == self.spec_receive_asel_capable(),
            r.spec_transmit_sounding_ppdus_capable() == self.spec_transmit_sounding_ppdus_capable(),
            r.spec_reserved() == self.spec_reserved(),
    {
        let v: u8 = if value {
            1
        } else {
            0
        };
        proof {
            Self::lemma_masks_fit();
            lemma_set_bits_u8(self.0, 2, 0x1, v, 2, 0x1);
            lemma_set_bits_u8(self.0, 2, 0x1, v, 0, 0x1);
            lemma_set_bits_u8(self.0, 2, 0x1, v, 1, 0x1);
            lemma_set_bits_u8(self.0, 2, 0x1, v, 3, 0x1);
            lemma_set_bits_u8(self.0, 2, 0x1, v, 4, 0x1);
            lemma_set_bits_u8(self.0, 2, 0x1, v, 5, 0x1);
            lemma_set_bits_u8(self.0, 2, 0x1, v, 6, 0x1);
            lemma_set_bits_u8(self.0, 2, 0x1, v, 7, 0x1);
        }
        Self((self.0 & !(0x1u8 << 2u8)) | ((v & 0x1) << 2u8))
    }

    /// Explicit CSI feedback is supported.
    pub open spec fn spec_explicit_csi_feedback_capable(self) -> bool {
        get_bits_u8(self.0, 3, 1) == 1
    }

    /// Explicit CSI feedback is supported.
    pub fn explicit_csi_feedback_capable(&self) -> (r: bool)
        ensures
            r == self.spec_explicit_csi_feedback_capable(),
    {
        (self.0 >> 3) & 1 == 1
    }

    /// Returns a copy with the field replaced by `value`.
    pub fn with_explicit_csi_feedback_capable(self, value: bool) -> (r: Self)
        ensures
            r.0 == set_bits_u8(self.0, 3, 0x1, (if value {
                1u8
            } else {
                0u8
            })),
            r.spec_explicit_csi_feedback_capable() == value,
            r.spec_antenna_selection_capable() == self.spec_antenna_selection_capable(),
            r.spec_explicit_csi_feedback_based_transmit_asel_capable() == self.spec_explicit_csi_feedback_based_transmit_asel_capable(),
            r.spec_antenna_indices_feedback_based_transmit_asel_capable() == self.spec_antenna_indices_feedback_based_transmit_asel_capable(),
            r.spec_antenna_indices_feedback_capable() == self.spec_antenna_indices_feedback_capable(),
            r.spec_receive_asel_capable() == self.spec_receive_asel_capable(),
            r.spec_transmit_sounding_ppdus_capable() == self.spec_transmit_sounding_ppdus_capable(),
            r.spec_reserved() == self.spec_reserved(),
    {
        let v: u8 = if value {
            1
        } else {
            0
        };
        proof {
            Self::lemma_masks_fit();
            lemma_set_bits_u8(self.0, 3, 0x1, v, 3, 0x1);
            lemma_set_bits_u8(self.0, 3, 0x1, v, 0, 0x1);
            lemma_set_bits_u8(self.0, 3, 0x1, v, 1, 0x1);
            lemma_set_bits_u8(self.0, 3, 0x1, v, 2, 0x1);
            lemma_set_bits_u8(self.0, 3, 0x1, v, 4, 0x1);
            lemma_set_bits_u8(self.0, 3, 0x1, v, 5, 0x1);
            lemma_set_bits_u8(self.0, 3, 0x1, v, 6, 0x1);
            lemma_set_bits_u8(self.0, 3, 0x1, v, 7, 0x1);
        }
        Self((self.0 & !(0x1u8 << 3u8)) | ((v & 0x1) << 3u8))
    }

    /// Antenna indices feedback is supported.
    pub open spec fn spec_antenna_indices_feedback_capable(self) -> bool {
        get_bits_u8(self.0, 4, 1) == 1
    }

    /// Antenna indices feedback is supported.
    pub fn antenna_indices_feedback_capable(&self) -> (r: bool)
        ensures
            r == self.spec_antenna_indices_feedback_capable(),
    {
        (self.0 >> 4) & 1 == 1
    }

    /// Returns a copy with the field replaced by `value`.
    pub fn with_antenna_indices_feedback_capable(self, value: bool) -> (r: Self)
        ensures
            r.0 == set_bits_u8(self.0, 4, 0x1, (if value {
                1u8
            } else {
                0u8
            })),
            r.spec_antenna_indices_feedback_capable() == value,
            r.spec_antenna_selection_capable() == self.spec_antenna_selection_capable(),
            r.spec_explicit_csi_feedback_based_transmit_asel_capable() == self.spec_explicit_csi_feedback_based_transmit_asel_capable(),
            r.spec_antenna_indices_feedback_based_transmit_asel_capable() == self.spec_antenna_indices_feedback_based_transmit_asel_capable(),
            r.spec_explicit_csi_feedback_capable() == self.spec_explicit_csi_feedback_capable(),
            r.spec_receive_asel_capable() == self.spec_receive_asel_capable(),
            r.spec_transmit_sounding_ppdus_capable() == self.spec_transmit_sounding_ppdus_capable(),
            r.spec_reserved() == self.spec_reserved(),
    {
        let v: u8 = if value {
            1
        } else {
            0
        };
        proof {
            Self::lemma_masks_fit();
            lemma_set_bits_u8(self.0, 4, 0x1, v, 4, 0x1);
            lemma_set_bits_u8(self.0, 4, 0x1, v, 0, 0x1);
            lemma_set_bits_u8(self.0, 4, 0x1, v, 1, 0x1);
            lemma_set_bits_u8(self.0, 4, 0x1, v, 2, 0x1);
            lemma_set_bits_u8(self.0, 4, 0x1, v, 3, 0x1);
            lemma_set_bits_u8(self.0, 4, 0x1, v, 5, 0x1);
            lemma_set_bits_u8(self.0, 4, 0x1, v, 6, 0x1);
            lemma_set_bits_u8(self.0, 4, 0x1, v, 7, 0x1);
        }
        Self((self.0 & !(0x1u8 << 4u8)) | ((v & 0x1) << 4u8))
    }

    /// Receive antenna selection is supported.
    pub open spec fn spec_receive_asel_capable(self) -> bool {
        get_bits_u8(self.0, 5, 1) == 1
    }

    /// Receive antenna selection is supported.
    pub fn receive_asel_capable(&self) -> (r: bool)
        ensures
            r == self.spec_receive_asel_capable(),
    {
        (self.0 >> 5) & 1 == 1
    }

    /// Returns a copy with the field replaced by `value`.
    pub fn with_receive_asel_capable(self, value: bool) -> (r: Self)
        ensures
            r.0 == set_bits_u8(self.0, 5, 0x1, (if value {
                1u8
            } else {
                0u8
            })),
            r.spec_receive_asel_capable() == value,
            r.spec_antenna_selection_capable() == self.spec_antenna_selection_capable(),
            r.spec_explicit_csi_feedback_based_transmit_asel_capable() == self.spec_explicit_csi_feedback_based_transmit_asel_capable(),
            r.spec_antenna_indices_feedback_based_transmit_asel_capable() == self.spec_antenna_indices_feedback_based_transmit_asel_capable(),
            r.spec_explicit_csi_feedback_capable() == self.spec_explicit_csi_feedback_capable(),
            r.spec_antenna_indices_feedback_capable() == self.spec_antenna_indices_feedback_capable(),
            r.spec_transmit_sounding_ppdus_capable() == self.spec_transmit_sounding_ppdus_capable(),
            r.spec_reserved() == self.spec_reserved(),
    {
        let v: u8 = if value {
            1
        } else {
            0
        };
        proof {
            Self::lemma_masks_fit();
            lemma_set_bits_u8(self.0, 5, 0x1, v, 5, 0x1);
            lemma_set_bits_u8(self.0, 5, 0x1, v, 0, 0x1);
            lemma_set_bits_u8(self.0, 5, 0x1, v, 1, 0x1);
            lemma_set_bits_u8(self.0, 5, 0x1, v, 2, 0x1);
            lemma_set_bits_u8(self.0, 5, 0x1, v, 3, 0x1);
            lemma_set_bits_u8(self.0, 5, 0x1, v, 4, 0x1);
            lemma_set_bits_u8(self.0, 5, 0x1, v, 6, 0x1);
            lemma_set_bits_u8(self.0, 5, 0x1, v, 7, 0x1);
        }
        Self((self.0 & !(0x1u8 << 5u8)) | ((v & 0x1) << 5u8))
    }

    /// Sounding PPDUs can be transmitted.
    pub open spec fn spec_transmit_sounding_ppdus_capable(self) -> bool {
        get_bits_u8(self.0, 6, 1) == 1
    }

    /// Sounding PPDUs can be transmitted.
    pub fn transmit_sounding_ppdus_capable(&self) -> (r: bool)
        ensures
            r == self.spec_transmit_sounding_ppdus_capable(),
    {
        (self.0 >> 6) & 1 == 1
    }

    /// Returns a copy with the field replaced by `value`.
    pub fn with_transmit_sounding_ppdus_capable(self, value: bool) -> (r: Self)
        ensures
            r.0 == set_bits_u8(self.0, 6, 0x1, (if value {
                1u8
            } else {
                0u8
            })),
            r.spec_transmit_sounding_ppdus_capable() == value,
            r.spec_antenna_selection_capable() == self.spec_antenna_selection_capable(),
            r.spec_explicit_csi_feedback_based_transmit_asel_capable() == self.spec_explicit_csi_feedback_based_transmit_asel_capable(),
            r.spec_antenna_indices_feedback_based_transmit_asel_capable() == self.spec_antenna_indices_feedback_based_transmit_asel_capable(),
            r.spec_explicit_csi_feedback_capable() == self.spec_explicit_csi_feedback_capable(),
            r.spec_antenna_indices_feedback_capable() == self.spec_antenna_indices_feedback_capable(),
            r.spec_receive_asel_capable() == self.spec_receive_asel_capable(),
            r.spec_reserved() == self.spec_reserved(),
    {
        let v: u8 = if value {
            1
        } else {
            0
        };
        proof {
            Self::lemma_masks_fit();
            lemma_set_bits_u8(self.0, 6, 0x1, v, 6, 0x1);
            lemma_set_bits_u8(self.0, 6, 0x1, v, 0, 0x1);
            lemma_set_bits_u8(self.0, 6, 0x1, v, 1, 0x1);
            lemma_set_bits_u8(self.0, 6, 0x1, v, 2, 0x1);
            lemma_set_bits_u8(self.0, 6, 0x1, v, 3, 0x1);
            lemma_set_bits_u8(self.0, 6, 0x1, v, 4, 0x1);
            lemma_set_bits_u8(self.0, 6, 0x1, v, 5, 0x1);
            lemma_set_bits_u8(self.0, 6, 0x1, v, 7, 0x1);
        }
        Self((self.0 & !(0x1u8 << 6u8)) | ((v & 0x1) << 6u8))
    }

    /// A reserved bit.
    pub open spec fn spec_reserved(self) -> bool {
        get_bits_u8(self.0, 7, 1) == 1
    }

    /// A reserved bit.
    pub fn reserved(&self) -> (r: bool)
        ensures
            r == self.spec_reserved(),
    {
        (self.0 >> 7) & 1 == 1
    }

    /// Returns a copy with the field replaced by `value`.
    pub fn with_reserved(self, value: bool) -> (r: Self)
        ensures
            r.0 == set_bits_u8(self.0, 7, 0x1, (if value {
                1u8
            } else {
                0u8
            })),
            r.spec_reserved() == value,
            r.spec_antenna_selection_capable() == self.spec_antenna_selection_capable(),
            r.spec_explicit_csi_feedback_based_transmit_asel_capable() == self.spec_explicit_csi_feedback_based_transmit_asel_capable(),
            r.spec_antenna_indices_feedback_based_transmit_asel_capable() == self.spec_antenna_indices_feedback_based_transmit_asel_capable(),
            r.spec_explicit_csi_feedback_capable() == self.spec_explicit_csi_feedback_capable(),
            r.spec_antenna_indices_feedback_capable() == self.spec_antenna_indices_feedback_capable(),
            r.spec_receive_asel_capable() == self.spec_receive_asel_capable(),
            r.spec_transmit_sounding_ppdus_capable() == self.spec_transmit_sounding_ppdus_capable(),
    {
        let v: u8 = if value {
            1
        } else {
            0
        };
        proof {
            Self::lemma_masks_fit();
            lemma_set_bits_u8(self.0, 7, 0x1, v, 7, 0x1);
            lemma_set_bits_u8(self.0, 7, 0x1, v, 0, 0x1);
            lemma_set_bits_u8(self.0, 7, 0x1, v, 1, 0x1);
            lemma_set_bits_u8(self.0, 7, 0x1, v, 2, 0x1);
            lemma_set_bits_u8(self.0, 7, 0x1, v, 3, 0x1);
            lemma_set_bits_u8(self.0, 7, 0x1, v, 4, 0x1);
            lemma_set_bits_u8(self.0, 7, 0x1, v, 5, 0x1);
            lemma_set_bits_u8(self.0, 7, 0x1, v, 6, 0x1);
        }
        Self((self.0 & !(0x1u8 << 7u8)) | ((v & 0x1) << 7u8))
    }
}


/// The HT capabilities element describes the HT capabilities of a STA.
#[derive(Clone, Copy, Debug, PartialEq, Eq, Hash)]
pub struct HTCapabilitiesElement {
    /// The HT capabilities information.
    pub ht_capabilities_info: HTCapabilitiesInfo,
    /// The A-MPDU parameters.
    pub ampdu_parameters: AMpduParameters,
    /// The supported MCS set.
    pub supported_mcs_set: SupportedMCSSet,
    /// The HT extended capabilities.
    pub extended_capabilities: HTExtendedCapabilities,
    /// The transmit beamforming capabilities.
    pub transmit_beamforming_capabilities: TransmitBeamformingCapabilities,
    /// The antenna selection capability.
    pub asel_capability: ASELCapability,
}

/// The serialized HT capabilities element.
pub open spec fn ht_capabilities_bytes(e: HTCapabilitiesElement) -> Seq<u8> {
    u16_le_bytes(e.ht_capabilities_info.0) + seq![e.ampdu_parameters.0] + mcs_set_bytes(
        e.supported_mcs_set,
    ) + u16_le_bytes(e.extended_capabilities.0) + u32_le_bytes(e.transmit_beamforming_capabilities.0)
        + seq![e.asel_capability.0]
}

impl HTCapabilitiesElement {

    /// The length of the serialized element.
    pub fn measure_with(&self) -> (r: usize)
        ensures
            r == 26,
    {
        26
    }

    /// Read the element: the fields one after the other, least significant byte first.
    pub fn try_from_ctx(from: &[u8]) -> (r: Result<(Self, usize), Error>)
        ensures
            from@.len() < 26 ==> r == Err::<(Self, usize), Error>(Error::TooShort),
            from@.len() >= 26 ==> (r matches Ok((e, n)) && n == 26 && e.ht_capabilities_info.0
                == le_u16(from@, 0) && e.ampdu_parameters.0 == from@[2]
                && e.supported_mcs_set.supported_rx_mcs_set@ == from@.subrange(3, 13)
                && e.supported_mcs_set.supported_rx_mcs_set_flags.0 == le_u32(from@, 13)
                && e.extended_capabilities.0 == le_u16(from@, 19)
                && e.transmit_beamforming_capabilities.0 == le_u32(from@, 21)
                && e.asel_capability.0 == from@[25]),
    {
        if from.len() < 26 {
            return Err(Error::TooShort);
        }
        let ht_capabilities_info = HTCapabilitiesInfo::from_bits(read_u16_le(from, 0));
        let ampdu_parameters = AMpduParameters::from_bits(from[2]);
        let mcs = crate::common::wire::slice_range(from, 3, from.len());
        let (supported_mcs_set, _) = match SupportedMCSSet::try_from_ctx(mcs) {
            Ok(x) => x,
            Err(e) => {
                return Err(e);
            },
        };
        assert(mcs@.take(10) =~= from@.subrange(3, 13));
        assert(mcs@.subrange(10, 14) =~= from@.subrange(13, 17));
        assert(le_u32(mcs@, 10) == le_u32(from@, 13));
        let extended_capabilities = HTExtendedCapabilities::from_bits(read_u16_le(from, 19));
        let transmit_beamforming_capabilities = TransmitBeamformingCapabilities::from_bits(
            read_u32_le(from, 21),
        );
        let asel_capability = ASELCapability::from_bits(from[25]);
        Ok(
            (
                HTCapabilitiesElement {
                    ht_capabilities_info,
                    ampdu_parameters,
                    supported_mcs_set,
                    extended_capabilities,
                    transmit_beamforming_capabilities,
                    asel_capability,
                },
                26,
            ),
        )
    }

    /// The serialized element.
    pub fn to_bytes(&self) -> (r: Vec<u8>)
        ensures
            r@ == ht_capabilities_bytes(*self),
    {
        let mut out: Vec<u8> = Vec::new();
        push_u16_le(&mut out, self.ht_capabilities_info.into_bits());
        out.push(self.ampdu_parameters.into_bits());
        self.supported_mcs_set.push_to(&mut out);
        push_u16_le(&mut out, self.extended_capabilities.into_bits());
        push_u32_le(&mut out, self.transmit_beamforming_capabilities.into_bits());
        out.push(self.asel_capability.into_bits());
        assert(out@ =~= ht_capabilities_bytes(*self));
        out
    }

    /// Write the element to the start of `buf`.
    pub fn try_into_ctx(&self, buf: &mut [u8]) -> (r: Result<usize, Error>)
        ensures
            final(buf)@.len() == old(buf)@.len(),
            26 <= old(buf)@.len() ==> r == Ok::<usize, Error>(26) && final(buf)@
                == ht_capabilities_bytes(*self) + old(buf)@.skip(26),
            26 > old(buf)@.len() ==> r == Err::<usize, Error>(Error::TooShort),
    {
        let bytes = self.to_bytes();
        write_all(buf, bytes.as_slice())
    }
}

/// Reading a written HT capabilities element gives back each of its fields, and 26 bytes.
#[verifier::spinoff_prover]
#[verifier::rlimit(40)]
pub proof fn lemma_ht_capabilities_roundtrip(e: HTCapabilitiesElement)
    ensures
        ({
            let s = ht_capabilities_bytes(e);
            &&& s.len() == 26
            &&& le_u16(s, 0) == e.ht_capabilities_info.0
            &&& s[2] == e.ampdu_parameters.0
            &&& s.subrange(3, 13) == e.supported_mcs_set.supported_rx_mcs_set@
            &&& le_u32(s, 13) == e.supported_mcs_set.supported_rx_mcs_set_flags.0
            &&& le_u16(s, 19) == e.extended_capabilities.0
            &&& le_u32(s, 21) == e.transmit_beamforming_capabilities.0
            &&& s[25] == e.asel_capability.0
        }),
{
    let s = ht_capabilities_bytes(e);
    assert(s.subrange(0, 2) =~= u16_le_bytes(e.ht_capabilities_info.0));
    lemma_u16_at(s, 0, e.ht_capabilities_info.0);
    assert(s.subrange(3, 13) =~= e.supported_mcs_set.supported_rx_mcs_set@);
    assert(s.subrange(13, 17) =~= u32_le_bytes(e.supported_mcs_set.supported_rx_mcs_set_flags.0));
    lemma_u32_at(s, 13, e.supported_mcs_set.supported_rx_mcs_set_flags.0);
    assert(s.subrange(19, 21) =~= u16_le_bytes(e.extended_capabilities.0));
    lemma_u16_at(s, 19, e.extended_capabilities.0);
    assert(s.subrange(21, 25) =~= u32_le_bytes(e.transmit_beamforming_capabilities.0));
    lemma_u32_at(s, 21, e.transmit_beamforming_capabilities.0);
}

impl Element for HTOperationElement {
    type ReadType<'a> = HTOperationElement;

    open spec fn spec_body(&self) -> Seq<u8> {
        ht_operation_bytes(*self)
    }

    fn body_bytes(&self) -> (r: Vec<u8>) {
        self.to_bytes()
    }

    open spec fn spec_element_id() -> ElementID {
        ElementID::Id(0x3d)
    }

    open spec fn spec_read<'a>(body: Seq<u8>, r: Option<HTOperationElement>) -> bool {
        match r {
            None => body.len() < 20,
            Some(e) => body.len() >= 20 && e.primary_channel == body[0]
                && e.ht_operation_information.0 == five_bytes_le(body, 1)
                && e.basic_ht_mcs_set.supported_rx_mcs_set@ == body.subrange(6, 16)
                && e.basic_ht_mcs_set.supported_rx_mcs_set_flags.0 == le_u32(body, 16),
        }
    }

    fn element_id() -> (r: ElementID) {
        ElementID::Id(0x3d)
    }

    fn read<'a>(body: &'a [u8]) -> (r: Option<HTOperationElement>) {
        match HTOperationElement::try_from_ctx(body) {
            Ok((e, _)) => Some(e),
            Err(_) => None,
        }
    }
}

impl Element for HTCapabilitiesElement {
    type ReadType<'a> = HTCapabilitiesElement;

    open spec fn spec_body(&self) -> Seq<u8> {
        ht_capabilities_bytes(*self)
    }

    fn body_bytes(&self) -> (r: Vec<u8>) {
        self.to_bytes()
    }

    open spec fn spec_element_id() -> ElementID {
        ElementID::Id(0x2d)
    }

    open spec fn spec_read<'a>(body: Seq<u8>, r: Option<HTCapabilitiesElement>) -> bool {
        match r {
            None => body.len() < 26,
            Some(e) => body.len() >= 26 && e.ht_capabilities_info.0 == le_u16(body, 0)
                && e.ampdu_parameters.0 == body[2]
                && e.supported_mcs_set.supported_rx_mcs_set@ == body.subrange(3, 13)
                && e.supported_mcs_set.supported_rx_mcs_set_flags.0 == le_u32(body, 13)
                && e.extended_capabilities.0 == le_u16(body, 19)
                && e.transmit_beamforming_capabilities.0 == le_u32(body, 21)
                && e.asel_capability.0 == body[25],
        }
    }

    fn element_id() -> (r: ElementID) {
        ElementID::Id(0x2d)
    }

    fn read<'a>(body: &'a [u8]) -> (r: Option<HTCapabilitiesElement>) {
        match HTCapabilitiesElement::try_from_ctx(body) {
            Ok((e, _)) => Some(e),
            Err(_) => None,
        }
    }
}

/// The numbering of [SecondaryChannelOffset]: each named value is read from its own number and written as that
/// number, and any other number is kept as an unknown value.
pub proof fn lemma_secondary_channel_offset_numbering(value: u8)
    ensures
        (SecondaryChannelOffset::spec_from_bits(value) == SecondaryChannelOffset::NotPresent) == (value == 0x00),
        (SecondaryChannelOffset::spec_from_bits(value) == SecondaryChannelOffset::Above) == (value == 0x01),
        (SecondaryChannelOffset::spec_from_bits(value) == SecondaryChannelOffset::Reserved) == (value == 0x02),
        (SecondaryChannelOffset::spec_from_bits(value) == SecondaryChannelOffset::Below) == (value == 0x03),
        SecondaryChannelOffset::NotPresent.spec_into_bits() == 0x00,
        SecondaryChannelOffset::Above.spec_into_bits() == 0x01,
        SecondaryChannelOffset::Reserved.spec_into_bits() == 0x02,
        SecondaryChannelOffset::Below.spec_into_bits() == 0x03,
        (SecondaryChannelOffset::spec_from_bits(value) == SecondaryChannelOffset::Unknown(value)) == !(
            value == 0x00 || value == 0x01 || value == 0x02 || value == 0x03),
{
}

/// The numbering of [HTProtectionMode]: each named value is read from its own number and written as that
/// number, and any other number is kept as an unknown value.
pub proof fn lemma_ht_protection_mode_numbering(value: u8)
    ensures
        (HTProtectionMode::spec_from_bits(value) == HTProtectionMode::NoProtection) == (value == 0x00),
        (HTProtectionMode::spec_from_bits(value) == HTProtectionMode::NonMember) == (value == 0x01),
        (HTProtectionMode::spec_from_bits(value) == HTProtectionMode::TwentyMHz) == (value == 0x02),
        (HTProtectionMode::spec_from_bits(value) == HTProtectionMode::NonHTMixed) == (value == 0x03),
        HTProtectionMode::NoProtection.spec_into_bits() == 0x00,
        HTProtectionMode::NonMember.spec_into_bits() == 0x01,
        HTProtectionMode::TwentyMHz.spec_into_bits() == 0x02,
        HTProtectionMode::NonHTMixed.spec_into_bits() == 0x03,
        (HTProtectionMode::spec_from_bits(value) == HTProtectionMode::Unknown(value)) == !(
            value == 0x00 || value == 0x01 || value == 0x02 || value == 0x03),
{
}

/// The numbering of [SmPwSave]: each named value is read from its own number and written as that
/// number, and any other number is kept as an unknown value.
pub proof fn lemma_sm_pw_save_numbering(value: u8)
    ensures
        (SmPwSave::spec_from_bits(value) == SmPwSave::Static) == (value == 0),
        (SmPwSave::spec_from_bits(value) == SmPwSave::Dynamic) == (value == 1),
        (SmPwSave::spec_from_bits(value) == SmPwSave::Reserved) == (value == 2),
        (SmPwSave::spec_from_bits(value) == SmPwSave::Disabled) == (value == 3),
        SmPwSave::Static.spec_into_bits() == 0,
        SmPwSave::Dynamic.spec_into_bits() == 1,
        SmPwSave::Reserved.spec_into_bits() == 2,
        SmPwSave::Disabled.spec_into_bits() == 3,
        (SmPwSave::spec_from_bits(value) == SmPwSave::Unknown(value)) == !(
            value == 0 || value == 1 || value == 2 || value == 3),
{
}

/// The numbering of [MAXAMpduLength]: each named value is read from its own number and written as that
/// number, and any other number is kept as an unknown value.
pub proof fn lemma_maxa_mpdu_length_numbering(value: u8)
    ensures
        (MAXAMpduLength::spec_from_bits(value) == MAXAMpduLength::Small) == (value == 0),
        (MAXAMpduLength::spec_from_bits(value) == MAXAMpduLength::Medium) == (value == 1),
        (MAXAMpduLength::spec_from_bits(value) == MAXAMpduLength::Large) == (value == 2),
        (MAXAMpduLength::spec_from_bits(value) == MAXAMpduLength::VeryLarge) == (value == 3),
        MAXAMpduLength::Small.spec_into_bits() == 0,
        MAXAMpduLength::Medium.spec_into_bits() == 1,
        MAXAMpduLength::Large.spec_into_bits() == 2,
        MAXAMpduLength::VeryLarge.spec_into_bits() == 3,
        (MAXAMpduLength::spec_from_bits(value) == MAXAMpduLength::Unknown(value)) == !(
            value == 0 || value == 1 || value == 2 || value == 3),
{
}

/// The numbering of [MpduDensity]: each named value is read from its own number and written as that
/// number, and any other number is kept as an unknown value.
pub proof fn lemma_mpdu_density_numbering(value: u8)
    ensures
        (MpduDensity::spec_from_bits(value) == MpduDensity::NoRestriction) == (value == 0),
        (MpduDensity::spec_from_bits(value) == MpduDensity::Quarter) == (value == 1),
        (MpduDensity::spec_from_bits(value) == MpduDensity::Half) == (value == 2),
        (MpduDensity::spec_from_bits(value) == MpduDensity::One) == (value == 3),
        (MpduDensity::spec_from_bits(value) == MpduDensity::Two) == (value == 4),
        (MpduDensity::spec_from_bits(value) == MpduDensity::Four) == (value == 5),
        (MpduDensity::spec_from_bits(value) == MpduDensity::Eight) == (value == 6),
        (MpduDensity::spec_from_bits(value) == MpduDensity::Sixteen) == (value == 7),
        MpduDensity::NoRestriction.spec_into_bits() == 0,
        MpduDensity::Quarter.spec_into_bits() == 1,
        MpduDensity::Half.spec_into_bits() == 2,
        MpduDensity::One.spec_into_bits() == 3,
        MpduDensity::Two.spec_into_bits() == 4,
        MpduDensity::Four.spec_into_bits() == 5,
        MpduDensity::Eight.spec_into_bits() == 6,
        MpduDensity::Sixteen.spec_into_bits() == 7,
        (MpduDensity::spec_from_bits(value) == MpduDensity::Unknown(value)) == !(
            value == 0 || value == 1 || value == 2 || value == 3 || value == 4 || value == 5 ||
            value == 6 || value == 7),
{
}

/// The numbering of [PCOTransitionTime]: each named value is read from its own number and written as that
/// number, and any other number is kept as an unknown value.
pub proof fn lemma_pco_transition_time_numbering(value: u8)
    ensures
        (PCOTransitionTime::spec_from_bits(value) == PCOTransitionTime::NoTransition) == (value == 0),
        (PCOTransitionTime::spec_from_bits(value) == PCOTransitionTime::FourHundredMicroSeconds) == (value == 1),
        (PCOTransitionTime::spec_from_bits(value) == PCOTransitionTime::OnePointFiveMilliSeconds) == (value == 2),
        (PCOTransitionTime::spec_from_bits(value) == PCOTransitionTime::FiveMilliSeconds) == (value == 3),
        PCOTransitionTime::NoTransition.spec_into_bits() == 0,
        PCOTransitionTime::FourHundredMicroSeconds.spec_into_bits() == 1,
        PCOTransitionTime::OnePointFiveMilliSeconds.spec_into_bits() == 2,
        PCOTransitionTime::FiveMilliSeconds.spec_into_bits() == 3,
        (PCOTransitionTime::spec_from_bits(value) == PCOTransitionTime::Unknown(value)) == !(
            value == 0 || value == 1 || value == 2 || value == 3),
{
}

/// The numbering of [BeamformingCalibration]: each named value is read from its own number and written as that
/// number, and any other number is kept as an unknown value.
pub proof fn lemma_beamforming_calibration_numbering(value: u8)
    ensures
        (BeamformingCalibration::spec_from_bits(value) == BeamformingCalibration::NotSupported) == (value == 0),
        (BeamformingCalibration::spec_from_bits(value) == BeamformingCalibration::CanRespondButCantInitiate) == (value == 1),
        (BeamformingCalibration::spec_from_bits(value) == BeamformingCalibration::Reserved) == (value == 2),
        (BeamformingCalibration::spec_from_bits(value) == BeamformingCalibration::CanRespondAndInitiate) == (value == 3),
        BeamformingCalibration::NotSupported.spec_into_bits() == 0,
        BeamformingCalibration::CanRespondButCantInitiate.spec_into_bits() == 1,
        BeamformingCalibration::Reserved.spec_into_bits() == 2,
        BeamformingCalibration::CanRespondAndInitiate.spec_into_bits() == 3,
        (BeamformingCalibration::spec_from_bits(value) == BeamformingCalibration::Unknown(value)) == !(
            value == 0 || value == 1 || value == 2 || value == 3),
{
}

/// The numbering of [BeamformingFeedback]: each named value is read from its own number and written as that
/// number, and any other number is kept as an unknown value.
pub proof fn lemma_beamforming_feedback_numbering(value: u8)
    ensures
        (BeamformingFeedback::spec_from_bits(value) == BeamformingFeedback::NotSupported) == (value == 0),
        (BeamformingFeedback::spec_from_bits(value) == BeamformingFeedback::DelayedFeedback) == (value == 1),
        (BeamformingFeedback::spec_from_bits(value) == BeamformingFeedback::ImmediateFeedback) == (value == 2),
        (BeamformingFeedback::spec_from_bits(value) == BeamformingFeedback::DelayedAndImmediateFeedback) == (value == 3),
        BeamformingFeedback::NotSupported.spec_into_bits() == 0,
        BeamformingFeedback::DelayedFeedback.spec_into_bits() == 1,
        BeamformingFeedback::ImmediateFeedback.spec_into_bits() == 2,
        BeamformingFeedback::DelayedAndImmediateFeedback.spec_into_bits() == 3,
        (BeamformingFeedback::spec_from_bits(value) == BeamformingFeedback::Unknown(value)) == !(
            value == 0 || value == 1 || value == 2 || value == 3),
{
}

/// The numbering of [GroupingCapability]: each named value is read from its own number and written as that
/// number, and any other number is kept as an unknown value.
pub proof fn lemma_grouping_capability_numbering(value: u8)
    ensures
        (GroupingCapability::spec_from_bits(value) == GroupingCapability::NoGrouping) == (value == 0),
        (GroupingCapability::spec_from_bits(value) == GroupingCapability::GroupsOfTwo) == (value == 1),
        (GroupingCapability::spec_from_bits(value) == GroupingCapability::GroupsOfFour) == (value == 2),
        (GroupingCapability::spec_from_bits(value) == GroupingCapability::GroupsOfTwoAndFour) == (value == 3),
        GroupingCapability::NoGrouping.spec_into_bits() == 0,
        GroupingCapability::GroupsOfTwo.spec_into_bits() == 1,
        GroupingCapability::GroupsOfFour.spec_into_bits() == 2,
        GroupingCapability::GroupsOfTwoAndFour.spec_into_bits() == 3,
        (GroupingCapability::spec_from_bits(value) == GroupingCapability::Unknown(value)) == !(
            value == 0 || value == 1 || value == 2 || value == 3),
{
}

} // verus!
