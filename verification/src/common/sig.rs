//! The HT-SIG field of the HT preamble.
use crate::common::bits::{fits_u32, get_bits_u32, lemma_set_bits_u32, set_bits_u32};
use vstd::prelude::*;

verus! {

/// The HT-SIG field, contained in the HT preamble.
#[derive(Clone, Copy, Debug, PartialEq, Eq, Hash, Structural)]
pub struct HtSig(pub u32);

impl HtSig {
    /// A value with every field at its default.
    pub fn new() -> (r: Self)
        ensures
            r.0 == 0x4000000,
    {
        Self(0x4000000)
    }

    /// Wrap the raw bits.
    pub fn from_bits(bits: u32) -> (r: Self)
        ensures
            r.0 == bits,
    {
        Self(bits)
    }

    /// Every field mask fits in the backing integer.
    proof fn lemma_masks_fit()
        by (bit_vector)
        ensures
            fits_u32(0, 0x7f),
            fits_u32(7, 0x1),
            fits_u32(8, 0xffff),
            fits_u32(24, 0x1),
            fits_u32(25, 0x1),
            fits_u32(27, 0x1),
            fits_u32(28, 0x3),
            fits_u32(30, 0x1),
            fits_u32(31, 0x1),
            (0x7fu32 << 0u32) & (0x1u32 << 7u32) == 0,
            (0x1u32 << 7u32) & (0x7fu32 << 0u32) == 0,
            (0x7fu32 << 0u32) & (0xffffu32 << 8u32) == 0,
            (0xffffu32 << 8u32) & (0x7fu32 << 0u32) == 0,
            (0x7fu32 << 0u32) & (0x1u32 << 24u32) == 0,
            (0x1u32 << 24u32) & (0x7fu32 << 0u32) == 0,
            (0x7fu32 << 0u32) & (0x1u32 << 25u32) == 0,
            (0x1u32 << 25u32) & (0x7fu32 << 0u32) == 0,
            (0x7fu32 << 0u32) & (0x1u32 << 27u32) == 0,
            (0x1u32 << 27u32) & (0x7fu32 << 0u32) == 0,
            (0x7fu32 << 0u32) & (0x3u32 << 28u32) == 0,
            (0x3u32 << 28u32) & (0x7fu32 << 0u32) == 0,
            (0x7fu32 << 0u32) & (0x1u32 << 30u32) == 0,
            (0x1u32 << 30u32) & (0x7fu32 << 0u32) == 0,
            (0x7fu32 << 0u32) & (0x1u32 << 31u32) == 0,
            (0x1u32 << 31u32) & (0x7fu32 << 0u32) == 0,
            (0x1u32 << 7u32) & (0xffffu32 << 8u32) == 0,
            (0xffffu32 << 8u32) & (0x1u32 << 7u32) == 0,
            (0x1u32 << 7u32) & (0x1u32 << 24u32) == 0,
            (0x1u32 << 24u32) & (0x1u32 << 7u32) == 0,
            (0x1u32 << 7u32) & (0x1u32 << 25u32) == 0,
            (0x1u32 << 25u32) & (0x1u32 << 7u32) == 0,
            (0x1u32 << 7u32) & (0x1u32 << 27u32) == 0,
            (0x1u32 << 27u32) & (0x1u32 << 7u32) == 0,
            (0x1u32 << 7u32) & (0x3u32 << 28u32) == 0,
            (0x3u32 << 28u32) & (0x1u32 << 7u32) == 0,
            (0x1u32 << 7u32) & (0x1u32 << 30u32) == 0,
            (0x1u32 << 30u32) & (0x1u32 << 7u32) == 0,
            (0x1u32 << 7u32) & (0x1u32 << 31u32) == 0,
            (0x1u32 << 31u32) & (0x1u32 << 7u32) == 0,
            (0xffffu32 << 8u32) & (0x1u32 << 24u32) == 0,
            (0x1u32 << 24u32) & (0xffffu32 << 8u32) == 0,
            (0xffffu32 << 8u32) & (0x1u32 << 25u32) == 0,
            (0x1u32 << 25u32) & (0xffffu32 << 8u32) == 0,
            (0xffffu32 << 8u32) & (0x1u32 << 27u32) == 0,
            (0x1u32 << 27u32) & (0xffffu32 << 8u32) == 0,
            (0xffffu32 << 8u32) & (0x3u32 << 28u32) == 0,
            (0x3u32 << 28u32) & (0xffffu32 << 8u32) == 0,
            (0xffffu32 << 8u32) & (0x1u32 << 30u32) == 0,
            (0x1u32 << 30u32) & (0xffffu32 << 8u32) == 0,
            (0xffffu32 << 8u32) & (0x1u32 << 31u32) == 0,
            (0x1u32 << 31u32) & (0xffffu32 << 8u32) == 0,
            (0x1u32 << 24u32) & (0x1u32 << 25u32) == 0,
            (0x1u32 << 25u32) & (0x1u32 << 24u32) == 0,
            (0x1u32 << 24u32) & (0x1u32 << 27u32) == 0,
            (0x1u32 << 27u32) & (0x1u32 << 24u32) == 0,
            (0x1u32 << 24u32) & (0x3u32 << 28u32) == 0,
            (0x3u32 << 28u32) & (0x1u32 << 24u32) == 0,
            (0x1u32 << 24u32) & (0x1u32 << 30u32) == 0,
            (0x1u32 << 30u32) & (0x1u32 << 24u32) == 0,
            (0x1u32 << 24u32) & (0x1u32 << 31u32) == 0,
            (0x1u32 << 31u32) & (0x1u32 << 24u32) == 0,
            (0x1u32 << 25u32) & (0x1u32 << 27u32) == 0,
            (0x1u32 << 27u32) & (0x1u32 << 25u32) == 0,
            (0x1u32 << 25u32) & (0x3u32 << 28u32) == 0,
            (0x3u32 << 28u32) & (0x1u32 << 25u32) == 0,
            (0x1u32 << 25u32) & (0x1u32 << 30u32) == 0,
            (0x1u32 << 30u32) & (0x1u32 << 25u32) == 0,
            (0x1u32 << 25u32) & (0x1u32 << 31u32) == 0,
            (0x1u32 << 31u32) & (0x1u32 << 25u32) == 0,
            (0x1u32 << 27u32) & (0x3u32 << 28u32) == 0,
            (0x3u32 << 28u32) & (0x1u32 << 27u32) == 0,
            (0x1u32 << 27u32) & (0x1u32 << 30u32) == 0,
            (0x1u32 << 30u32) & (0x1u32 << 27u32) == 0,
            (0x1u32 << 27u32) & (0x1u32 << 31u32) == 0,
            (0x1u32 << 31u32) & (0x1u32 << 27u32) == 0,
            (0x3u32 << 28u32) & (0x1u32 << 30u32) == 0,
            (0x1u32 << 30u32) & (0x3u32 << 28u32) == 0,
            (0x3u32 << 28u32) & (0x1u32 << 31u32) == 0,
            (0x1u32 << 31u32) & (0x3u32 << 28u32) == 0,
            (0x1u32 << 30u32) & (0x1u32 << 31u32) == 0,
            (0x1u32 << 31u32) & (0x1u32 << 30u32) == 0,
            1u32 & 1u32 == 1,
            0u32 & 1u32 == 0,
    {
    }

    /// The raw bits.
    pub fn into_bits(self) -> (r: u32)
        ensures
            r == self.0,
    {
        self.0
    }

    /// An index into the HT-MCS table, used by the current transmission.
    pub open spec fn spec_mcs(self) -> u8 {
        get_bits_u32(self.0, 0, 0x7f) as u8
    }

    /// An index into the HT-MCS table, used by the current transmission.
    pub fn mcs(&self) -> (r: u8)
        ensures
            r == self.spec_mcs(),
    {
        ((self.0 >> 0) & 0x7f) as u8
    }

    /// Returns a copy with the field replaced by `value`.
    pub fn with_mcs(self, value: u8) -> (r: Self)
        ensures
            r.0 == set_bits_u32(self.0, 0, 0x7f, (value as u32)),
            r.spec_mcs() == ((value as u32) & 0x7f) as u8,
            r.spec_is_40mhz() == self.spec_is_40mhz(),
            r.spec_ht_length() == self.spec_ht_length(),
            r.spec_smoothing_recommended() == self.spec_smoothing_recommended(),
            r.spec_not_sounding() == self.spec_not_sounding(),
            r.spec_is_ampdu() == self.spec_is_ampdu(),
            r.spec_spatial_stream_count() == self.spec_spatial_stream_count(),
            r.spec_is_ldpc() == self.spec_is_ldpc(),
            r.spec_short_gi() == self.spec_short_gi(),
    {
        let v: u32 = value as u32;
        proof {
            Self::lemma_masks_fit();
            lemma_set_bits_u32(self.0, 0, 0x7f, v, 0, 0x7f);
            lemma_set_bits_u32(self.0, 0, 0x7f, v, 7, 0x1);
            lemma_set_bits_u32(self.0, 0, 0x7f, v, 8, 0xffff);
            lemma_set_bits_u32(self.0, 0, 0x7f, v, 24, 0x1);
            lemma_set_bits_u32(self.0, 0, 0x7f, v, 25, 0x1);
            lemma_set_bits_u32(self.0, 0, 0x7f, v, 27, 0x1);
            lemma_set_bits_u32(self.0, 0, 0x7f, v, 28, 0x3);
            lemma_set_bits_u32(self.0, 0, 0x7f, v, 30, 0x1);
            lemma_set_bits_u32(self.0, 0, 0x7f, v, 31, 0x1);
        }
        Self((self.0 & !(0x7fu32 << 0u32)) | ((v & 0x7f) << 0u32))
    }

    /// Indicates, wether this is a 40MHz transmission or not.
    pub open spec fn spec_is_40mhz(self) -> bool {
        get_bits_u32(self.0, 7, 1) == 1
    }

    /// Indicates, wether this is a 40MHz transmission or not.
    pub fn is_40mhz(&self) -> (r: bool)
        ensures
            r == self.spec_is_40mhz(),
    {
        (self.0 >> 7) & 1 == 1
    }

    /// Returns a copy with the field replaced by `value`.
    pub fn with_is_40mhz(self, value: bool) -> (r: Self)
        ensures
            r.0 == set_bits_u32(self.0, 7, 0x1, (if value {
                1u32
            } else {
                0u32
            })),
            r.spec_is_40mhz() == value,
            r.spec_mcs() == self.spec_mcs(),
            r.spec_ht_length() == self.spec_ht_length(),
            r.spec_smoothing_recommended() == self.spec_smoothing_recommended(),
            r.spec_not_sounding() == self.spec_not_sounding(),
            r.spec_is_ampdu() == self.spec_is_ampdu(),
            r.spec_spatial_stream_count() == self.spec_spatial_stream_count(),
            r.spec_is_ldpc() == self.spec_is_ldpc(),
            r.spec_short_gi() == self.spec_short_gi(),
    {
        let v: u32 = if value {
            1
        } else {
            0
        };
        proof {
            Self::lemma_masks_fit();
            lemma_set_bits_u32(self.0, 7, 0x1, v, 7, 0x1);
            lemma_set_bits_u32(self.0, 7, 0x1, v, 0, 0x7f);
            lemma_set_bits_u32(self.0, 7, 0x1, v, 8, 0xffff);
            lemma_set_bits_u32(self.0, 7, 0x1, v, 24, 0x1);
            lemma_set_bits_u32(self.0, 7, 0x1, v, 25, 0x1);
            lemma_set_bits_u32(self.0, 7, 0x1, v, 27, 0x1);
            lemma_set_bits_u32(self.0, 7, 0x1, v, 28, 0x3);
            lemma_set_bits_u32(self.0, 7, 0x1, v, 30, 0x1);
            lemma_set_bits_u32(self.0, 7, 0x1, v, 31, 0x1);
        }
        Self((self.0 & !(0x1u32 << 7u32)) | ((v & 0x1) << 7u32))
    }

    /// The length of the PPDU.
    pub open spec fn spec_ht_length(self) -> u16 {
        get_bits_u32(self.0, 8, 0xffff) as u16
    }

    /// The length of the PPDU.
    pub fn ht_length(&self) -> (r: u16)
        ensures
            r == self.spec_ht_length(),
    {
        ((self.0 >> 8) & 0xffff) as u16
    }

    /// Returns a copy with the field replaced by `value`.
    pub fn with_ht_length(self, value: u16) -> (r: Self)
        ensures
            r.0 == set_bits_u32(self.0, 8, 0xffff, (value as u32)),
            r.spec_ht_length() == ((value as u32) & 0xffff) as u16,
            r.spec_mcs() == self.spec_mcs(),
            r.spec_is_40mhz() == self.spec_is_40mhz(),
            r.spec_smoothing_recommended() == self.spec_smoothing_recommended(),
            r.spec_not_sounding() == self.spec_not_sounding(),
            r.spec_is_ampdu() == self.spec_is_ampdu(),
            r.spec_spatial_stream_count() == self.spec_spatial_stream_count(),
            r.spec_is_ldpc() == self.spec_is_ldpc(),
            r.spec_short_gi() == self.spec_short_gi(),
    {
        let v: u32 = value as u32;
        proof {
            Self::lemma_masks_fit();
            lemma_set_bits_u32(self.0, 8, 0xffff, v, 8, 0xffff);
            lemma_set_bits_u32(self.0, 8, 0xffff, v, 0, 0x7f);
            lemma_set_bits_u32(self.0, 8, 0xffff, v, 7, 0x1);
            lemma_set_bits_u32(self.0, 8, 0xffff, v, 24, 0x1);
            lemma_set_bits_u32(self.0, 8, 0xffff, v, 25, 0x1);
            lemma_set_bits_u32(self.0, 8, 0xffff, v, 27, 0x1);
            lemma_set_bits_u32(self.0, 8, 0xffff, v, 28, 0x3);
            lemma_set_bits_u32(self.0, 8, 0xffff, v, 30, 0x1);
            lemma_set_bits_u32(self.0, 8, 0xffff, v, 31, 0x1);
        }
        Self((self.0 & !(0xffffu32 << 8u32)) | ((v & 0xffff) << 8u32))
    }

    /// Indicates, wether channel estimate smoothing is recommended.
    pub open spec fn spec_smoothing_recommended(self) -> bool {
        get_bits_u32(self.0, 24, 1) == 1
    }

    /// Indicates, wether channel estimate smoothing is recommended.
    pub fn smoothing_recommended(&self) -> (r: bool)
        ensures
            r == self.spec_smoothing_recommended(),
    {
        (self.0 >> 24) & 1 == 1
    }

    /// Returns a copy with the field replaced by `value`.
    pub fn with_smoothing_recommended(self, value: bool) -> (r: Self)
        ensures
            r.0 == set_bits_u32(self.0, 24, 0x1, (if value {
                1u32
            } else {
                0u32
            })),
            r.spec_smoothing_recommended() == value,
            r.spec_mcs() == self.spec_mcs(),
            r.spec_is_40mhz() == self.spec_is_40mhz(),
            r.spec_ht_length() == self.spec_ht_length(),
            r.spec_not_sounding() == self.spec_not_sounding(),
            r.spec_is_ampdu() == self.spec_is_ampdu(),
            r.spec_spatial_stream_count() == self.spec_spatial_stream_count(),
            r.spec_is_ldpc() == self.spec_is_ldpc(),
            r.spec_short_gi() == self.spec_short_gi(),
    {
        let v: u32 = if value {
            1
        } else {
            0
        };
        proof {
            Self::lemma_masks_fit();
            lemma_set_bits_u32(self.0, 24, 0x1, v, 24, 0x1);
            lemma_set_bits_u32(self.0, 24, 0x1, v, 0, 0x7f);
            lemma_set_bits_u32(self.0, 24, 0x1, v, 7, 0x1);
            lemma_set_bits_u32(self.0, 24, 0x1, v, 8, 0xffff);
            lemma_set_bits_u32(self.0, 24, 0x1, v, 25, 0x1);
            lemma_set_bits_u32(self.0, 24, 0x1, v, 27, 0x1);
            lemma_set_bits_u32(self.0, 24, 0x1, v, 28, 0x3);
            lemma_set_bits_u32(self.0, 24, 0x1, v, 30, 0x1);
            lemma_set_bits_u32(self.0, 24, 0x1, v, 31, 0x1);
        }
        Self((self.0 & !(0x1u32 << 24u32)) | ((v & 0x1) << 24u32))
    }

    /// Indicates, wether this is a sounding PPDU or not.
    pub open spec fn spec_not_sounding(self) -> bool {
        get_bits_u32(self.0, 25, 1) == 1
    }

    /// Indicates, wether this is a sounding PPDU or not.
    pub fn not_sounding(&self) -> (r: bool)
        ensures
            r == self.spec_not_sounding(),
    {
        (self.0 >> 25) & 1 == 1
    }

    /// Returns a copy with the field replaced by `value`.
    pub fn with_not_sounding(self, value: bool) -> (r: Self)
        ensures
            r.0 == set_bits_u32(self.0, 25, 0x1, (if value {
                1u32
            } else {
                0u32
            })),
            r.spec_not_sounding() == value,
            r.spec_mcs() == self.spec_mcs(),
            r.spec_is_40mhz() == self.spec_is_40mhz(),
            r.spec_ht_length() == self.spec_ht_length(),
            r.spec_smoothing_recommended() == self.spec_smoothing_recommended(),
            r.spec_is_ampdu() == self.spec_is_ampdu(),
            r.spec_spatial_stream_count() == self.spec_spatial_stream_count(),
            r.spec_is_ldpc() == self.spec_is_ldpc(),
            r.spec_short_gi() == self.spec_short_gi(),
    {
        let v: u32 = if value {
            1
        } else {
            0
        };
        proof {
            Self::lemma_masks_fit();
            lemma_set_bits_u32(self.0, 25, 0x1, v, 25, 0x1);
            lemma_set_bits_u32(self.0, 25, 0x1, v, 0, 0x7f);
            lemma_set_bits_u32(self.0, 25, 0x1, v, 7, 0x1);
            lemma_set_bits_u32(self.0, 25, 0x1, v, 8, 0xffff);
            lemma_set_bits_u32(self.0, 25, 0x1, v, 24, 0x1);
            lemma_set_bits_u32(self.0, 25, 0x1, v, 27, 0x1);
            lemma_set_bits_u32(self.0, 25, 0x1, v, 28, 0x3);
            lemma_set_bits_u32(self.0, 25, 0x1, v, 30, 0x1);
            lemma_set_bits_u32(self.0, 25, 0x1, v, 31, 0x1);
        }
        Self((self.0 & !(0x1u32 << 25u32)) | ((v & 0x1) << 25u32))
    }

    /// Indicates, wether this is an A-MPDU or not.
    pub open spec fn spec_is_ampdu(self) -> bool {
        get_bits_u32(self.0, 27, 1) == 1
    }

    /// Indicates, wether this is an A-MPDU or not.
    pub fn is_ampdu(&self) -> (r: bool)
        ensures
            r == self.spec_is_ampdu(),
    {
        (self.0 >> 27) & 1 == 1
    }

    /// Returns a copy with the field replaced by `value`.
    pub fn with_is_ampdu(self, value: bool) -> (r: Self)
        ensures
            r.0 == set_bits_u32(self.0, 27, 0x1, (if value {
                1u32
            } else {
                0u32
            })),
            r.spec_is_ampdu() == value,
            r.spec_mcs() == self.spec_mcs(),
            r.spec_is_40mhz() == self.spec_is_40mhz(),
            r.spec_ht_length() == self.spec_ht_length(),
            r.spec_smoothing_recommended() == self.spec_smoothing_recommended(),
            r.spec_not_sounding() == self.spec_not_sounding(),
            r.spec_spatial_stream_count() == self.spec_spatial_stream_count(),
            r.spec_is_ldpc() == self.spec_is_ldpc(),
            r.spec_short_gi() == self.spec_short_gi(),
    {
        let v: u32 = if value {
            1
        } else {
            0
        };
        proof {
            Self::lemma_masks_fit();
            lemma_set_bits_u32(self.0, 27, 0x1, v, 27, 0x1);
            lemma_set_bits_u32(self.0, 27, 0x1, v, 0, 0x7f);
            lemma_set_bits_u32(self.0, 27, 0x1, v, 7, 0x1);
            lemma_set_bits_u32(self.0, 27, 0x1, v, 8, 0xffff);
            lemma_set_bits_u32(self.0, 27, 0x1, v, 24, 0x1);
            lemma_set_bits_u32(self.0, 27, 0x1, v, 25, 0x1);
            lemma_set_bits_u32(self.0, 27, 0x1, v, 28, 0x3);
            lemma_set_bits_u32(self.0, 27, 0x1, v, 30, 0x1);
            lemma_set_bits_u32(self.0, 27, 0x1, v, 31, 0x1);
        }
        Self((self.0 & !(0x1u32 << 27u32)) | ((v & 0x1) << 27u32))
    }

    /// Indicates the amount of spatial streams used.
    pub open spec fn spec_spatial_stream_count(self) -> u8 {
        get_bits_u32(self.0, 28, 0x3) as u8
    }

    /// Indicates the amount of spatial streams used.
    pub fn spatial_stream_count(&self) -> (r: u8)
        ensures
            r == self.spec_spatial_stream_count(),
    {
        ((self.0 >> 28) & 0x3) as u8
    }

    /// Returns a copy with the field replaced by `value`.
    pub fn with_spatial_stream_count(self, value: u8) -> (r: Self)
        ensures
            r.0 == set_bits_u32(self.0, 28, 0x3, (value as u32)),
            r.spec_spatial_stream_count() == ((value as u32) & 0x3) as u8,
            r.spec_mcs() == self.spec_mcs(),
            r.spec_is_40mhz() == self.spec_is_40mhz(),
            r.spec_ht_length() == self.spec_ht_length(),
            r.spec_smoothing_recommended() == self.spec_smoothing_recommended(),
            r.spec_not_sounding() == self.spec_not_sounding(),
            r.spec_is_ampdu() == self.spec_is_ampdu(),
            r.spec_is_ldpc() == self.spec_is_ldpc(),
            r.spec_short_gi() == self.spec_short_gi(),
    {
        let v: u32 = value as u32;
        proof {
            Self::lemma_masks_fit();
            lemma_set_bits_u32(self.0, 28, 0x3, v, 28, 0x3);
            lemma_set_bits_u32(self.0, 28, 0x3, v, 0, 0x7f);
            lemma_set_bits_u32(self.0, 28, 0x3, v, 7, 0x1);
            lemma_set_bits_u32(self.0, 28, 0x3, v, 8, 0xffff);
            lemma_set_bits_u32(self.0, 28, 0x3, v, 24, 0x1);
            lemma_set_bits_u32(self.0, 28, 0x3, v, 25, 0x1);
            lemma_set_bits_u32(self.0, 28, 0x3, v, 27, 0x1);
            lemma_set_bits_u32(self.0, 28, 0x3, v, 30, 0x1);
            lemma_set_bits_u32(self.0, 28, 0x3, v, 31, 0x1);
        }
        Self((self.0 & !(0x3u32 << 28u32)) | ((v & 0x3) << 28u32))
    }

    /// If true indicates LDPC coding, otherwise BCC coding.
    pub open spec fn spec_is_ldpc(self) -> bool {
        get_bits_u32(self.0, 30, 1) == 1
    }

    /// If true indicates LDPC coding, otherwise BCC coding.
    pub fn is_ldpc(&self) -> (r: bool)
        ensures
            r == self.spec_is_ldpc(),
    {
        (self.0 >> 30) & 1 == 1
    }

    /// Returns a copy with the field replaced by `value`.
    pub fn with_is_ldpc(self, value: bool) -> (r: Self)
        ensures
            r.0 == set_bits_u32(self.0, 30, 0x1, (if value {
                1u32
            } else {
                0u32
            })),
            r.spec_is_ldpc() == value,
            r.spec_mcs() == self.spec_mcs(),
            r.spec_is_40mhz() == self.spec_is_40mhz(),
            r.spec_ht_length() == self.spec_ht_length(),
            r.spec_smoothing_recommended() == self.spec_smoothing_recommended(),
            r.spec_not_sounding() == self.spec_not_sounding(),
            r.spec_is_ampdu() == self.spec_is_ampdu(),
            r.spec_spatial_stream_count() == self.spec_spatial_stream_count(),
            r.spec_short_gi() == self.spec_short_gi(),
    {
        let v: u32 = if value {
            1
        } else {
            0
        };
        proof {
            Self::lemma_masks_fit();
            lemma_set_bits_u32(self.0, 30, 0x1, v, 30, 0x1);
            lemma_set_bits_u32(self.0, 30, 0x1, v, 0, 0x7f);
            lemma_set_bits_u32(self.0, 30, 0x1, v, 7, 0x1);
            lemma_set_bits_u32(self.0, 30, 0x1, v, 8, 0xffff);
            lemma_set_bits_u32(self.0, 30, 0x1, v, 24, 0x1);
            lemma_set_bits_u32(self.0, 30, 0x1, v, 25, 0x1);
            lemma_set_bits_u32(self.0, 30, 0x1, v, 27, 0x1);
            lemma_set_bits_u32(self.0, 30, 0x1, v, 28, 0x3);
            lemma_set_bits_u32(self.0, 30, 0x1, v, 31, 0x1);
        }
        Self((self.0 & !(0x1u32 << 30u32)) | ((v & 0x1) << 30u32))
    }

    /// Indicates, wether this transmission uses short or long GI.
    pub open spec fn spec_short_gi(self) -> bool {
        get_bits_u32(self.0, 31, 1) == 1
    }

    /// Indicates, wether this transmission uses short or long GI.
    pub fn short_gi(&self) -> (r: bool)
        ensures
            r == self.spec_short_gi(),
    {
        (self.0 >> 31) & 1 == 1
    }

    /// Returns a copy with the field replaced by `value`.
    pub fn with_short_gi(self, value: bool) -> (r: Self)
        ensures
            r.0 == set_bits_u32(self.0, 31, 0x1, (if value {
                1u32
            } else {
                0u32
            })),
            r.spec_short_gi() == value,
            r.spec_mcs() == self.spec_mcs(),
            r.spec_is_40mhz() == self.spec_is_40mhz(),
            r.spec_ht_length() == self.spec_ht_length(),
            r.spec_smoothing_recommended() == self.spec_smoothing_recommended(),
            r.spec_not_sounding() == self.spec_not_sounding(),
            r.spec_is_ampdu() == self.spec_is_ampdu(),
            r.spec_spatial_stream_count() == self.spec_spatial_stream_count(),
            r.spec_is_ldpc() == self.spec_is_ldpc(),
    {
        let v: u32 = if value {
            1
        } else {
            0
        };
        proof {
            Self::lemma_masks_fit();
            lemma_set_bits_u32(self.0, 31, 0x1, v, 31, 0x1);
            lemma_set_bits_u32(self.0, 31, 0x1, v, 0, 0x7f);
            lemma_set_bits_u32(self.0, 31, 0x1, v, 7, 0x1);
            lemma_set_bits_u32(self.0, 31, 0x1, v, 8, 0xffff);
            lemma_set_bits_u32(self.0, 31, 0x1, v, 24, 0x1);
            lemma_set_bits_u32(self.0, 31, 0x1, v, 25, 0x1);
            lemma_set_bits_u32(self.0, 31, 0x1, v, 27, 0x1);
            lemma_set_bits_u32(self.0, 31, 0x1, v, 28, 0x3);
            lemma_set_bits_u32(self.0, 31, 0x1, v, 30, 0x1);
        }
        Self((self.0 & !(0x1u32 << 31u32)) | ((v & 0x1) << 31u32))
    }
}

} // verus!
