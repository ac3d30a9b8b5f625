//! The frame control field and the sequence control field.
use crate::common::bits::{
    fits_u16, fits_u8, get_bits_u16, get_bits_u8, lemma_set_bits_u16, lemma_set_bits_u8,
    set_bits_u16, set_bits_u8,
};
use crate::common::subtypes::{ControlFrameSubtype, DataFrameSubtype, ManagementFrameSubtype};
use vstd::prelude::*;

verus! {

/// The frame type of an IEEE 802.11 frame.
#[derive(Clone, Copy, Debug, PartialEq, Eq, Hash, Structural)]
pub enum FrameType {
    /// A management frame.
    Management(ManagementFrameSubtype),
    /// A control frame.
    Control(ControlFrameSubtype),
    /// A data frame.
    Data(DataFrameSubtype),
    /// The reserved frame type, with its subtype.
    Unknown(u8),
}

/// `subtype` moved above the two frame type bits, keeping the low eight bits.
pub open spec fn subtype_bits(subtype: u8) -> u8 {
    ((subtype * 4) % 256) as u8
}

fn shift_subtype(subtype: u8) -> (r: u8)
    ensures
        r == subtype_bits(subtype),
        r % 4 == 0,
{
    ((subtype as u16 * 4) % 256) as u8
}

impl FrameType {
    /// The frame type that the six low bits of `value` encode: two bits of type, then four bits
    /// of subtype.
    pub open spec fn spec_from_bits(value: u8) -> Self {
        let frame_type = value % 4;
        let subtype = ((value / 4) % 16) as u8;
        if frame_type == 0 {
            FrameType::Management(ManagementFrameSubtype::spec_from_bits(subtype))
        } else if frame_type == 1 {
            FrameType::Control(ControlFrameSubtype::spec_from_bits(subtype))
        } else if frame_type == 2 {
            FrameType::Data(DataFrameSubtype::spec_from_bits(subtype))
        } else {
            FrameType::Unknown(subtype)
        }
    }

    /// The representation of this frame type.
    pub open spec fn spec_into_bits(self) -> u8 {
        match self {
            FrameType::Management(subtype) => subtype_bits(subtype.spec_into_bits()),
            FrameType::Control(subtype) => (subtype_bits(subtype.spec_into_bits()) + 1) as u8,
            FrameType::Data(subtype) => (subtype_bits(subtype.spec_into_bits()) + 2) as u8,
            FrameType::Unknown(subtype) => (subtype_bits(subtype) + 3) as u8,
        }
    }

    /// Constructs the frame type from it's representation.
    ///
    /// Encoding the result again gives back the six low bits of `value`.
    pub fn from_bits(value: u8) -> (r: Self)
        ensures
            r == Self::spec_from_bits(value),
            r.spec_into_bits() == value % 64,
    {
        let frame_type = value % 4;
        let frame_subtype = (value / 4) % 16;
        if frame_type == 0 {
            FrameType::Management(ManagementFrameSubtype::from_bits(frame_subtype))
        } else if frame_type == 1 {
            FrameType::Control(ControlFrameSubtype::from_bits(frame_subtype))
        } else if frame_type == 2 {
            FrameType::Data(DataFrameSubtype::from_bits(frame_subtype))
        } else {
            FrameType::Unknown(frame_subtype)
        }
    }

    /// Turns the frame type into it's representation.
    pub fn into_bits(self) -> (r: u8)
        ensures
            r == self.spec_into_bits(),
    {
        match self {
            FrameType::Management(subtype) => shift_subtype(subtype.into_bits()),
            FrameType::Control(subtype) => shift_subtype(subtype.into_bits()) + 1,
            FrameType::Data(subtype) => shift_subtype(subtype.into_bits()) + 2,
            FrameType::Unknown(subtype) => shift_subtype(subtype) + 3,
        }
    }

    /// Check if both frame types are of the same kind, regardless of subtype.
    pub fn type_matches(&self, other: Self) -> (r: bool)
        ensures
            r == (self is Management && other is Management || self is Control && other is Control
                || self is Data && other is Data || self is Unknown && other is Unknown),
    {
        match (self, other) {
            (FrameType::Management(_), FrameType::Management(_)) => true,
            (FrameType::Control(_), FrameType::Control(_)) => true,
            (FrameType::Data(_), FrameType::Data(_)) => true,
            (FrameType::Unknown(_), FrameType::Unknown(_)) => true,
            _ => false,
        }
    }
}

/// These are the flags included in the frame control field.
#[derive(Clone, Copy, Debug, PartialEq, Eq, Hash, Structural)]
pub struct FCFFlags(pub u8);

impl FCFFlags {
    /// A value with every field at its default.
    pub fn new() -> (r: Self)
        ensures
            r.0 == 0x0,
    {
        Self(0x0)
    }

    /// Wrap the raw bits.
    pub fn from_bits(bits: u8) -> (r: Self)
        ensures
            r.0 == bits,
    {
        Self(bits)
    }

    /// Every field mask fits in the backing integer.
    proof fn lemma_masks_fit()
        by (bit_vector)
        ensures
            fits_u8(0, 0x1),
            fits_u8(1, 0x1),
            fits_u8(2, 0x1),
            fits_u8(3, 0x1),
            fits_u8(4, 0x1),
            fits_u8(5, 0x1),
            fits_u8(6, 0x1),
            fits_u8(7, 0x1),
            (0x1u8 << 0u8) & (0x1u8 << 1u8) == 0,
            (0x1u8 << 1u8) & (0x1u8 << 0u8) == 0,
            (0x1u8 << 0u8) & (0x1u8 << 2u8) == 0,
            (0x1u8 << 2u8) & (0x1u8 << 0u8) == 0,
            (0x1u8 << 0u8) & (0x1u8 << 3u8) == 0,
            (0x1u8 << 3u8) & (0x1u8 << 0u8) == 0,
            (0x1u8 << 0u8) & (0x1u8 << 4u8) == 0,
            (0x1u8 << 4u8) & (0x1u8 << 0u8) == 0,
            (0x1u8 << 0u8) & (0x1u8 << 5u8) == 0,
            (0x1u8 << 5u8) & (0x1u8 << 0u8) == 0,
            (0x1u8 << 0u8) & (0x1u8 << 6u8) == 0,
            (0x1u8 << 6u8) & (0x1u8 << 0u8) == 0,
            (0x1u8 << 0u8) & (0x1u8 << 7u8) == 0,
            (0x1u8 << 7u8) & (0x1u8 << 0u8) == 0,
            (0x1u8 << 1u8) & (0x1u8 << 2u8) == 0,
            (0x1u8 << 2u8) & (0x1u8 << 1u8) == 0,
            (0x1u8 << 1u8) & (0x1u8 << 3u8) == 0,
            (0x1u8 << 3u8) & (0x1u8 << 1u8) == 0,
            (0x1u8 << 1u8) & (0x1u8 << 4u8) == 0,
            (0x1u8 << 4u8) & (0x1u8 << 1u8) == 0,
            (0x1u8 << 1u8) & (0x1u8 << 5u8) == 0,
            (0x1u8 << 5u8) & (0x1u8 << 1u8) == 0,
            (0x1u8 << 1u8) & (0x1u8 << 6u8) == 0,
            (0x1u8 << 6u8) & (0x1u8 << 1u8) == 0,
            (0x1u8 << 1u8) & (0x1u8 << 7u8) == 0,
            (0x1u8 << 7u8) & (0x1u8 << 1u8) == 0,
            (0x1u8 << 2u8) & (0x1u8 << 3u8) == 0,
            (0x1u8 << 3u8) & (0x1u8 << 2u8) == 0,
            (0x1u8 << 2u8) & (0x1u8 << 4u8) == 0,
            (0x1u8 << 4u8) & (0x1u8 << 2u8) == 0,
            (0x1u8 << 2u8) & (0x1u8 << 5u8) == 0,
            (0x1u8 << 5u8) & (0x1u8 << 2u8) == 0,
            (0x1u8 << 2u8) & (0x1u8 << 6u8) == 0,
            (0x1u8 << 6u8) & (0x1u8 << 2u8) == 0,
            (0x1u8 << 2u8) & (0x1u8 << 7u8) == 0,
            (0x1u8 << 7u8) & (0x1u8 << 2u8) == 0,
            (0x1u8 << 3u8) & (0x1u8 << 4u8) == 0,
            (0x1u8 << 4u8) & (0x1u8 << 3u8) == 0,
            (0x1u8 << 3u8) & (0x1u8 << 5u8) == 0,
            (0x1u8 << 5u8) & (0x1u8 << 3u8) == 0,
            (0x1u8 << 3u8) & (0x1u8 << 6u8) == 0,
            (0x1u8 << 6u8) & (0x1u8 << 3u8) == 0,
            (0x1u8 << 3u8) & (0x1u8 << 7u8) == 0,
            (0x1u8 << 7u8) & (0x1u8 << 3u8) == 0,
            (0x1u8 << 4u8) & (0x1u8 << 5u8) == 0,
            (0x1u8 << 5u8) & (0x1u8 << 4u8) == 0,
            (0x1u8 << 4u8) & (0x1u8 << 6u8) == 0,
            (0x1u8 << 6u8) & (0x1u8 << 4u8) == 0,
            (0x1u8 << 4u8) & (0x1u8 << 7u8) == 0,
            (0x1u8 << 7u8) & (0x1u8 << 4u8) == 0,
            (0x1u8 << 5u8) & (0x1u8 << 6u8) == 0,
            (0x1u8 << 6u8) & (0x1u8 << 5u8) == 0,
            (0x1u8 << 5u8) & (0x1u8 << 7u8) == 0,
            (0x1u8 << 7u8) & (0x1u8 << 5u8) == 0,
            (0x1u8 << 6u8) & (0x1u8 << 7u8) == 0,
            (0x1u8 << 7u8) & (0x1u8 << 6u8) == 0,
            1u8 & 1u8 == 1,
            0u8 & 1u8 == 0,
    {
    }

    /// The raw bits.
    pub fn into_bits(self) -> (r: u8)
        ensures
            r == self.0,
    {
        self.0
    }

    /// This frame is going to the distribution system.
    pub open spec fn spec_to_ds(self) -> bool {
        get_bits_u8(self.0, 0, 1) == 1
    }

    /// This frame is going to the distribution system.
    pub fn to_ds(&self) -> (r: bool)
        ensures
            r == self.spec_to_ds(),
    {
        (self.0 >> 0) & 1 == 1
    }

    /// Returns a copy with the field replaced by `value`.
    pub fn with_to_ds(self, value: bool) -> (r: Self)
        ensures
            r.0 == set_bits_u8(self.0, 0, 0x1, (if value {
                1u8
            } else {
                0u8
            })),
            r.spec_to_ds() == value,
            r.spec_from_ds() == self.spec_from_ds(),
            r.spec_more_fragments() == self.spec_more_fragments(),
            r.spec_retry() == self.spec_retry(),
            r.spec_pwr_mgmt() == self.spec_pwr_mgmt(),
            r.spec_more_data() == self.spec_more_data(),
            r.spec_protected() == self.spec_protected(),
            r.spec_order() == self.spec_order(),
    {
        let v: u8 = if value {
            1
        } else {
            0
        };
        proof {
            Self::lemma_masks_fit();
            lemma_set_bits_u8(self.0, 0, 0x1, v, 0, 0x1);
            lemma_set_bits_u8(self.0, 0, 0x1, v, 1, 0x1);
            lemma_set_bits_u8(self.0, 0, 0x1, v, 2, 0x1);
            lemma_set_bits_u8(self.0, 0, 0x1, v, 3, 0x1);
            lemma_set_bits_u8(self.0, 0, 0x1, v, 4, 0x1);
            lemma_set_bits_u8(self.0, 0, 0x1, v, 5, 0x1);
            lemma_set_bits_u8(self.0, 0, 0x1, v, 6, 0x1);
            lemma_set_bits_u8(self.0, 0, 0x1, v, 7, 0x1);
        }
        Self((self.0 & !(0x1u8 << 0u8)) | ((v & 0x1) << 0u8))
    }

    /// This frame is coming from the distribution system.
    pub open spec fn spec_from_ds(self) -> bool {
        get_bits_u8(self.0, 1, 1) == 1
    }

    /// This frame is coming from the distribution system.
    pub fn from_ds(&self) -> (r: bool)
        ensures
            r == self.spec_from_ds(),
    {
        (self.0 >> 1) & 1 == 1
    }

    /// Returns a copy with the field replaced by `value`.
    pub fn with_from_ds(self, value: bool) -> (r: Self)
        ensures
            r.0 == set_bits_u8(self.0, 1, 0x1, (if value {
                1u8
            } else {
                0u8
            })),
            r.spec_from_ds() == value,
            r.spec_to_ds() == self.spec_to_ds(),
            r.spec_more_fragments() == self.spec_more_fragments(),
            r.spec_retry() == self.spec_retry(),
            r.spec_pwr_mgmt() == self.spec_pwr_mgmt(),
            r.spec_more_data() == self.spec_more_data(),
            r.spec_protected() == self.spec_protected(),
            r.spec_order() == self.spec_order(),
    {
        let v: u8 = if value {
            1
        } else {
            0
        };
        proof {
            Self::lemma_masks_fit();
            lemma_set_bits_u8(self.0, 1, 0x1, v, 1, 0x1);
            lemma_set_bits_u8(self.0, 1, 0x1, v, 0, 0x1);
            lemma_set_bits_u8(self.0, 1, 0x1, v, 2, 0x1);
            lemma_set_bits_u8(self.0, 1, 0x1, v, 3, 0x1);
            lemma_set_bits_u8(self.0, 1, 0x1, v, 4, 0x1);
            lemma_set_bits_u8(self.0, 1, 0x1, v, 5, 0x1);
            lemma_set_bits_u8(self.0, 1, 0x1, v, 6, 0x1);
            lemma_set_bits_u8(self.0, 1, 0x1, v, 7, 0x1);
        }
        Self((self.0 & !(0x1u8 << 1u8)) | ((v & 0x1) << 1u8))
    }

    /// This frame was fragmented and more are following.
    pub open spec fn spec_more_fragments(self) -> bool {
        get_bits_u8(self.0, 2, 1) == 1
    }

    /// This frame was fragmented and more are following.
    pub fn more_fragments(&self) -> (r: bool)
        ensures
            r == self.spec_more_fragments(),
    {
        (self.0 >> 2) & 1 == 1
    }

    /// Returns a copy with the field replaced by `value`.
    pub fn with_more_fragments(self, value: bool) -> (r: Self)
        ensures
            r.0 == set_bits_u8(self.0, 2, 0x1, (if value {
                1u8
            } else {
                0u8
            })),
            r.spec_more_fragments() == value,
            r.spec_to_ds() == self.spec_to_ds(),
            r.spec_from_ds() == self.spec_from_ds(),
            r.spec_retry() == self.spec_retry(),
            r.spec_pwr_mgmt() == self.spec_pwr_mgmt(),
            r.spec_more_data() == self.spec_more_data(),
            r.spec_protected() == self.spec_protected(),
            r.spec_order() == self.spec_order(),
    {
        let v: u8 = if value {
            1
        } else {
            0
        };
        proof {
            Self::lemma_masks_fit();
            lemma_set_bits_u8(self.0, 2, 0x1, v, 2, 0x1);
            lemma_set_bits_u8(self.0, 2, 0x1, v, 0, 0x1);
            lemma_set_bits_u8(self.0, 2, 0x1, v, 1, 0x1);
            lemma_set_bits_u8(self.0, 2, 0x1, v, 3, 0x1);
            lemma_set_bits_u8(self.0, 2, 0x1, v, 4, 0x1);
            lemma_set_bits_u8(self.0, 2, 0x1, v, 5, 0x1);
            lemma_set_bits_u8(self.0, 2, 0x1, v, 6, 0x1);
            lemma_set_bits_u8(self.0, 2, 0x1, v, 7, 0x1);
        }
        Self((self.0 & !(0x1u8 << 2u8)) | ((v & 0x1) << 2u8))
    }

    /// This frame is a retransmission.
    pub open spec fn spec_retry(self) -> bool {
        get_bits_u8(self.0, 3, 1) == 1
    }

    /// This frame is a retransmission.
    pub fn retry(&self) -> (r: bool)
        ensures
            r == self.spec_retry(),
    {
        (self.0 >> 3) & 1 == 1
    }

    /// Returns a copy with the field replaced by `value`.
    pub fn with_retry(self, value: bool) -> (r: Self)
        ensures
            r.0 == set_bits_u8(self.0, 3, 0x1, (if value {
                1u8
            } else {
                0u8
            })),
            r.spec_retry() == value,
            r.spec_to_ds() == self.spec_to_ds(),
            r.spec_from_ds() == self.spec_from_ds(),
            r.spec_more_fragments() == self.spec_more_fragments(),
            r.spec_pwr_mgmt() == self.spec_pwr_mgmt(),
            r.spec_more_data() == self.spec_more_data(),
            r.spec_protected() == self.spec_protected(),
            r.spec_order() == self.spec_order(),
    {
        let v: u8 = if value {
            1
        } else {
            0
        };
        proof {
            Self::lemma_masks_fit();
            lemma_set_bits_u8(self.0, 3, 0x1, v, 3, 0x1);
            lemma_set_bits_u8(self.0, 3, 0x1, v, 0, 0x1);
            lemma_set_bits_u8(self.0, 3, 0x1, v, 1, 0x1);
            lemma_set_bits_u8(self.0, 3, 0x1, v, 2, 0x1);
            lemma_set_bits_u8(self.0, 3, 0x1, v, 4, 0x1);
            lemma_set_bits_u8(self.0, 3, 0x1, v, 5, 0x1);
            lemma_set_bits_u8(self.0, 3, 0x1, v, 6, 0x1);
            lemma_set_bits_u8(self.0, 3, 0x1, v, 7, 0x1);
        }
        Self((self.0 & !(0x1u8 << 3u8)) | ((v & 0x1) << 3u8))
    }

    /// The sender will enter power save mode after this frame.
    pub open spec fn spec_pwr_mgmt(self) -> bool {
        get_bits_u8(self.0, 4, 1) == 1
    }

    /// The sender will enter power save mode after this frame.
    pub fn pwr_mgmt(&self) -> (r: bool)
        ensures
            r == self.spec_pwr_mgmt(),
    {
        (self.0 >> 4) & 1 == 1
    }

    /// Returns a copy with the field replaced by `value`.
    pub fn with_pwr_mgmt(self, value: bool) -> (r: Self)
        ensures
            r.0 == set_bits_u8(self.0, 4, 0x1, (if value {
                1u8
            } else {
                0u8
            })),
            r.spec_pwr_mgmt() == value,
            r.spec_to_ds() == self.spec_to_ds(),
            r.spec_from_ds() == self.spec_from_ds(),
            r.spec_more_fragments() == self.spec_more_fragments(),
            r.spec_retry() == self.spec_retry(),
            r.spec_more_data() == self.spec_more_data(),
            r.spec_protected() == self.spec_protected(),
            r.spec_order() == self.spec_order(),
    {
        let v: u8 = if value {
            1
        } else {
            0
        };
        proof {
            Self::lemma_masks_fit();
            lemma_set_bits_u8(self.0, 4, 0x1, v, 4, 0x1);
            lemma_set_bits_u8(self.0, 4, 0x1, v, 0, 0x1);
            lemma_set_bits_u8(self.0, 4, 0x1, v, 1, 0x1);
            lemma_set_bits_u8(self.0, 4, 0x1, v, 2, 0x1);
            lemma_set_bits_u8(self.0, 4, 0x1, v, 3, 0x1);
            lemma_set_bits_u8(self.0, 4, 0x1, v, 5, 0x1);
            lemma_set_bits_u8(self.0, 4, 0x1, v, 6, 0x1);
            lemma_set_bits_u8(self.0, 4, 0x1, v, 7, 0x1);
        }
        Self((self.0 & !(0x1u8 << 4u8)) | ((v & 0x1) << 4u8))
    }

    /// More frames are buffered for the receiver.
    pub open spec fn spec_more_data(self) -> bool {
        get_bits_u8(self.0, 5, 1) == 1
    }

    /// More frames are buffered for the receiver.
    pub fn more_data(&self) -> (r: bool)
        ensures
            r == self.spec_more_data(),
    {
        (self.0 >> 5) & 1 == 1
    }

    /// Returns a copy with the field replaced by `value`.
    pub fn with_more_data(self, value: bool) -> (r: Self)
        ensures
            r.0 == set_bits_u8(self.0, 5, 0x1, (if value {
                1u8
            } else {
                0u8
            })),
            r.spec_more_data() == value,
            r.spec_to_ds() == self.spec_to_ds(),
            r.spec_from_ds() == self.spec_from_ds(),
            r.spec_more_fragments() == self.spec_more_fragments(),
            r.spec_retry() == self.spec_retry(),
            r.spec_pwr_mgmt() == self.spec_pwr_mgmt(),
            r.spec_protected() == self.spec_protected(),
            r.spec_order() == self.spec_order(),
    {
        let v: u8 = if value {
            1
        } else {
            0
        };
        proof {
            Self::lemma_masks_fit();
            lemma_set_bits_u8(self.0, 5, 0x1, v, 5, 0x1);
            lemma_set_bits_u8(self.0, 5, 0x1, v, 0, 0x1);
            lemma_set_bits_u8(self.0, 5, 0x1, v, 1, 0x1);
            lemma_set_bits_u8(self.0, 5, 0x1, v, 2, 0x1);
            lemma_set_bits_u8(self.0, 5, 0x1, v, 3, 0x1);
            lemma_set_bits_u8(self.0, 5, 0x1, v, 4, 0x1);
            lemma_set_bits_u8(self.0, 5, 0x1, v, 6, 0x1);
            lemma_set_bits_u8(self.0, 5, 0x1, v, 7, 0x1);
        }
        Self((self.0 & !(0x1u8 << 5u8)) | ((v & 0x1) << 5u8))
    }

    /// This frames contents are encrypted.
    pub open spec fn spec_protected(self) -> bool {
        get_bits_u8(self.0, 6, 1) == 1
    }

    /// This frames contents are encrypted.
    pub fn protected(&self) -> (r: bool)
        ensures
            r == self.spec_protected(),
    {
        (self.0 >> 6) & 1 == 1
    }

    /// Returns a copy with the field replaced by `value`.
    pub fn with_protected(self, value: bool) -> (r: Self)
        ensures
            r.0 == set_bits_u8(self.0, 6, 0x1, (if value {
                1u8
            } else {
                0u8
            })),
            r.spec_protected() == value,
            r.spec_to_ds() == self.spec_to_ds(),
            r.spec_from_ds() == self.spec_from_ds(),
            r.spec_more_fragments() == self.spec_more_fragments(),
            r.spec_retry() == self.spec_retry(),
            r.spec_pwr_mgmt() == self.spec_pwr_mgmt(),
            r.spec_more_data() == self.spec_more_data(),
            r.spec_order() == self.spec_order(),
    {
        let v: u8 = if value {
            1
        } else {
            0
        };
        proof {
            Self::lemma_masks_fit();
            lemma_set_bits_u8(self.0, 6, 0x1, v, 6, 0x1);
            lemma_set_bits_u8(self.0, 6, 0x1, v, 0, 0x1);
            lemma_set_bits_u8(self.0, 6, 0x1, v, 1, 0x1);
            lemma_set_bits_u8(self.0, 6, 0x1, v, 2, 0x1);
            lemma_set_bits_u8(self.0, 6, 0x1, v, 3, 0x1);
            lemma_set_bits_u8(self.0, 6, 0x1, v, 4, 0x1);
            lemma_set_bits_u8(self.0, 6, 0x1, v, 5, 0x1);
            lemma_set_bits_u8(self.0, 6, 0x1, v, 7, 0x1);
        }
        Self((self.0 & !(0x1u8 << 6u8)) | ((v & 0x1) << 6u8))
    }

    /// The frame is sent with strict ordering or carries an HT control field.
    pub open spec fn spec_order(self) -> bool {
        get_bits_u8(self.0, 7, 1) == 1
    }

    /// The frame is sent with strict ordering or carries an HT control field.
    pub fn order(&self) -> (r: bool)
        ensures
            r == self.spec_order(),
    {
        (self.0 >> 7) & 1 == 1
    }

    /// Returns a copy with the field replaced by `value`.
    pub fn with_order(self, value: bool) -> (r: Self)
        ensures
            r.0 == set_bits_u8(self.0, 7, 0x1, (if value {
                1u8
            } else {
                0u8
            })),
            r.spec_order() == value,
            r.spec_to_ds() == self.spec_to_ds(),
            r.spec_from_ds() == self.spec_from_ds(),
            r.spec_more_fragments() == self.spec_more_fragments(),
            r.spec_retry() == self.spec_retry(),
            r.spec_pwr_mgmt() == self.spec_pwr_mgmt(),
            r.spec_more_data() == self.spec_more_data(),
            r.spec_protected() == self.spec_protected(),
    {
        let v: u8 = if value {
            1
        } else {
            0
        };
        proof {
            Self::lemma_masks_fit();
            lemma_set_bits_u8(self.0, 7, 0x1, v, 7, 0x1);
            lemma_set_bits_u8(self.0, 7, 0x1, v, 0, 0x1);
            lemma_set_bits_u8(self.0, 7, 0x1, v, 1, 0x1);
            lemma_set_bits_u8(self.0, 7, 0x1, v, 2, 0x1);
            lemma_set_bits_u8(self.0, 7, 0x1, v, 3, 0x1);
            lemma_set_bits_u8(self.0, 7, 0x1, v, 4, 0x1);
            lemma_set_bits_u8(self.0, 7, 0x1, v, 5, 0x1);
            lemma_set_bits_u8(self.0, 7, 0x1, v, 6, 0x1);
        }
        Self((self.0 & !(0x1u8 << 7u8)) | ((v & 0x1) << 7u8))
    }
}

/// This is the frame control field, which is at the beginning of every frame.
#[derive(Clone, Copy, Debug, PartialEq, Eq, Hash, Structural)]
pub struct FrameControlField(pub u16);

impl FrameControlField {
    /// A value with every field at its default.
    pub fn new() -> (r: Self)
        ensures
            r.0 == 0x0,
    {
        Self(0x0)
    }

    /// Wrap the raw bits.
    pub fn from_bits(bits: u16) -> (r: Self)
        ensures
            r.0 == bits,
    {
        Self(bits)
    }

    /// Every field mask fits in the backing integer.
    proof fn lemma_masks_fit()
        by (bit_vector)
        ensures
            fits_u16(0, 0x3),
            fits_u16(2, 0x3f),
            fits_u16(8, 0xff),
            (0x3u16 << 0u16) & (0x3fu16 << 2u16) == 0,
            (0x3fu16 << 2u16) & (0x3u16 << 0u16) == 0,
            (0x3u16 << 0u16) & (0xffu16 << 8u16) == 0,
            (0xffu16 << 8u16) & (0x3u16 << 0u16) == 0,
            (0x3fu16 << 2u16) & (0xffu16 << 8u16) == 0,
            (0xffu16 << 8u16) & (0x3fu16 << 2u16) == 0,
            1u16 & 1u16 == 1,
            0u16 & 1u16 == 0,
    {
    }

    /// The raw bits.
    pub fn into_bits(self) -> (r: u16)
        ensures
            r == self.0,
    {
        self.0
    }

    /// The protocol version.
    pub open spec fn spec_version(self) -> u8 {
        get_bits_u16(self.0, 0, 0x3) as u8
    }

    /// The protocol version.
    pub fn version(&self) -> (r: u8)
        ensures
            r == self.spec_version(),
    {
        ((self.0 >> 0) & 0x3) as u8
    }

    /// Returns a copy with the field replaced by `value`.
    pub fn with_version(self, value: u8) -> (r: Self)
        ensures
            r.0 == set_bits_u16(self.0, 0, 0x3, (value as u16)),
            r.spec_version() == ((value as u16) & 0x3) as u8,
            r.spec_frame_type() == self.spec_frame_type(),
            r.spec_flags() == self.spec_flags(),
    {
        let v: u16 = value as u16;
        proof {
            Self::lemma_masks_fit();
            lemma_set_bits_u16(self.0, 0, 0x3, v, 0, 0x3);
            lemma_set_bits_u16(self.0, 0, 0x3, v, 2, 0x3f);
            lemma_set_bits_u16(self.0, 0, 0x3, v, 8, 0xff);
        }
        Self((self.0 & !(0x3u16 << 0u16)) | ((v & 0x3) << 0u16))
    }

    /// The type and subtype of the frame.
    pub open spec fn spec_frame_type(self) -> FrameType {
        FrameType::spec_from_bits(get_bits_u16(self.0, 2, 0x3f) as u8)
    }

    /// The type and subtype of the frame.
    pub fn frame_type(&self) -> (r: FrameType)
        ensures
            r == self.spec_frame_type(),
    {
        FrameType::from_bits(((self.0 >> 2) & 0x3f) as u8)
    }

    /// Returns a copy with the field replaced by `value`.
    pub fn with_frame_type(self, value: FrameType) -> (r: Self)
        ensures
            r.0 == set_bits_u16(self.0, 2, 0x3f, (value.spec_into_bits() as u16)),
            r.spec_frame_type() == FrameType::spec_from_bits(((value.spec_into_bits() as u16) & 0x3f) as u8),
            r.spec_version() == self.spec_version(),
            r.spec_flags() == self.spec_flags(),
    {
        let v: u16 = value.into_bits() as u16;
        proof {
            Self::lemma_masks_fit();
            lemma_set_bits_u16(self.0, 2, 0x3f, v, 2, 0x3f);
            lemma_set_bits_u16(self.0, 2, 0x3f, v, 0, 0x3);
            lemma_set_bits_u16(self.0, 2, 0x3f, v, 8, 0xff);
        }
        Self((self.0 & !(0x3fu16 << 2u16)) | ((v & 0x3f) << 2u16))
    }

    /// The flags of the frame.
    pub open spec fn spec_flags(self) -> FCFFlags {
        FCFFlags(get_bits_u16(self.0, 8, 0xff) as u8)
    }

    /// The flags of the frame.
    pub fn flags(&self) -> (r: FCFFlags)
        ensures
            r == self.spec_flags(),
    {
        FCFFlags(((self.0 >> 8) & 0xff) as u8)
    }

    /// Returns a copy with the field replaced by `value`.
    pub fn with_flags(self, value: FCFFlags) -> (r: Self)
        ensures
            r.0 == set_bits_u16(self.0, 8, 0xff, (value.0 as u16)),
            r.spec_flags() == FCFFlags((((value.0 as u16) & 0xff) as u8)),
            r.spec_version() == self.spec_version(),
            r.spec_frame_type() == self.spec_frame_type(),
    {
        let v: u16 = value.0 as u16;
        proof {
            Self::lemma_masks_fit();
            lemma_set_bits_u16(self.0, 8, 0xff, v, 8, 0xff);
            lemma_set_bits_u16(self.0, 8, 0xff, v, 0, 0x3);
            lemma_set_bits_u16(self.0, 8, 0xff, v, 2, 0x3f);
        }
        Self((self.0 & !(0xffu16 << 8u16)) | ((v & 0xff) << 8u16))
    }
}

/// This is information about the sequence number and the potential fragment number.
#[derive(Clone, Copy, Debug, PartialEq, Eq, Hash, Structural)]
pub struct SequenceControl(pub u16);

impl SequenceControl {
    /// A value with every field at its default.
    pub fn new() -> (r: Self)
        ensures
            r.0 == 0x0,
    {
        Self(0x0)
    }

    /// Wrap the raw bits.
    pub fn from_bits(bits: u16) -> (r: Self)
        ensures
            r.0 == bits,
    {
        Self(bits)
    }

    /// Every field mask fits in the backing integer.
    proof fn lemma_masks_fit()
        by (bit_vector)
        ensures
            fits_u16(0, 0xf),
            fits_u16(4, 0xfff),
            (0xfu16 << 0u16) & (0xfffu16 << 4u16) == 0,
            (0xfffu16 << 4u16) & (0xfu16 << 0u16) == 0,
            1u16 & 1u16 == 1,
            0u16 & 1u16 == 0,
    {
    }

    /// The raw bits.
    pub fn into_bits(self) -> (r: u16)
        ensures
            r == self.0,
    {
        self.0
    }

    /// The number of this fragment.
    pub open spec fn spec_fragment_number(self) -> u8 {
        get_bits_u16(self.0, 0, 0xf) as u8
    }

    /// The number of this fragment.
    pub fn fragment_number(&self) -> (r: u8)
        ensures
            r == self.spec_fragment_number(),
    {
        ((self.0 >> 0) & 0xf) as u8
    }

    /// Returns a copy with the field replaced by `value`.
    pub fn with_fragment_number(self, value: u8) -> (r: Self)
        ensures
            r.0 == set_bits_u16(self.0, 0, 0xf, (value as u16)),
            r.spec_fragment_number() == ((value as u16) & 0xf) as u8,
            r.spec_sequence_number() == self.spec_sequence_number(),
    {
        let v: u16 = value as u16;
        proof {
            Self::lemma_masks_fit();
            lemma_set_bits_u16(self.0, 0, 0xf, v, 0, 0xf);
            lemma_set_bits_u16(self.0, 0, 0xf, v, 4, 0xfff);
        }
        Self((self.0 & !(0xfu16 << 0u16)) | ((v & 0xf) << 0u16))
    }

    /// The sequence number of the MSDU.
    pub open spec fn spec_sequence_number(self) -> u16 {
        get_bits_u16(self.0, 4, 0xfff) as u16
    }

    /// The sequence number of the MSDU.
    pub fn sequence_number(&self) -> (r: u16)
        ensures
            r == self.spec_sequence_number(),
    {
        ((self.0 >> 4) & 0xfff) as u16
    }

    /// Returns a copy with the field replaced by `value`.
    pub fn with_sequence_number(self, value: u16) -> (r: Self)
        ensures
            r.0 == set_bits_u16(self.0, 4, 0xfff, (value as u16)),
            r.spec_sequence_number() == ((value as u16) & 0xfff) as u16,
            r.spec_fragment_number() == self.spec_fragment_number(),
    {
        let v: u16 = value as u16;
        proof {
            Self::lemma_masks_fit();
            lemma_set_bits_u16(self.0, 4, 0xfff, v, 4, 0xfff);
            lemma_set_bits_u16(self.0, 4, 0xfff, v, 0, 0xf);
        }
        Self((self.0 & !(0xfffu16 << 4u16)) | ((v & 0xfff) << 4u16))
    }
}


/// An empty type, used for filling empty generics.
#[derive(Clone, Copy, Default, Debug, PartialEq, Eq, Hash, Structural)]
pub struct Empty;

impl Empty {
    /// Reading an empty value takes no bytes.
    pub fn try_from_ctx(from: &[u8]) -> (r: Result<(Self, usize), crate::common::wire::Error>)
        ensures
            r == Ok::<(Self, usize), crate::common::wire::Error>((Empty, 0)),
    {
        Ok((Empty, 0))
    }

    /// An empty value has no bytes.
    pub fn measure_with(&self) -> (r: usize)
        ensures
            r == 0,
    {
        0
    }

    /// Writing an empty value writes nothing.
    pub fn try_into_ctx(self, buf: &mut [u8]) -> (r: Result<usize, crate::common::wire::Error>)
        ensures
            r == Ok::<usize, crate::common::wire::Error>(0),
            final(buf)@ == old(buf)@,
    {
        Ok(0)
    }
}
/// The type and subtype that the frame control field `x` carries in its bits 2 to 7 (two bits
/// of type, then four of subtype), in the standard numbering: each named management (type 0),
/// control (type 1) and data (type 2) subtype is read from exactly its own six-bit value, and
/// written as it.
pub proof fn lemma_frame_type_numbering(x: u16)
    ensures
        (FrameControlField(x).spec_frame_type() == FrameType::Management(ManagementFrameSubtype::AssociationRequest)) == (get_bits_u16(x, 2, 0x3f) == 0),
        (FrameControlField(x).spec_frame_type() == FrameType::Management(ManagementFrameSubtype::AssociationResponse)) == (get_bits_u16(x, 2, 0x3f) == 4),
        (FrameControlField(x).spec_frame_type() == FrameType::Management(ManagementFrameSubtype::ReassociationRequest)) == (get_bits_u16(x, 2, 0x3f) == 8),
        (FrameControlField(x).spec_frame_type() == FrameType::Management(ManagementFrameSubtype::ReassociationResponse)) == (get_bits_u16(x, 2, 0x3f) == 12),
        (FrameControlField(x).spec_frame_type() == FrameType::Management(ManagementFrameSubtype::ProbeRequest)) == (get_bits_u16(x, 2, 0x3f) == 16),
        (FrameControlField(x).spec_frame_type() == FrameType::Management(ManagementFrameSubtype::ProbeResponse)) == (get_bits_u16(x, 2, 0x3f) == 20),
        (FrameControlField(x).spec_frame_type() == FrameType::Management(ManagementFrameSubtype::TimingAdvertisement)) == (get_bits_u16(x, 2, 0x3f) == 24),
        (FrameControlField(x).spec_frame_type() == FrameType::Management(ManagementFrameSubtype::Beacon)) == (get_bits_u16(x, 2, 0x3f) == 32),
        (FrameControlField(x).spec_frame_type() == FrameType::Management(ManagementFrameSubtype::ATIM)) == (get_bits_u16(x, 2, 0x3f) == 36),
        (FrameControlField(x).spec_frame_type() == FrameType::Management(ManagementFrameSubtype::Disassociation)) == (get_bits_u16(x, 2, 0x3f) == 40),
        (FrameControlField(x).spec_frame_type() == FrameType::Management(ManagementFrameSubtype::Authentication)) == (get_bits_u16(x, 2, 0x3f) == 44),
        (FrameControlField(x).spec_frame_type() == FrameType::Management(ManagementFrameSubtype::Deauthentication)) == (get_bits_u16(x, 2, 0x3f) == 48),
        (FrameControlField(x).spec_frame_type() == FrameType::Management(ManagementFrameSubtype::Action)) == (get_bits_u16(x, 2, 0x3f) == 52),
        (FrameControlField(x).spec_frame_type() == FrameType::Management(ManagementFrameSubtype::ActionNoAck)) == (get_bits_u16(x, 2, 0x3f) == 56),
        (FrameControlField(x).spec_frame_type() == FrameType::Control(ControlFrameSubtype::TACK)) == (get_bits_u16(x, 2, 0x3f) == 13),
        (FrameControlField(x).spec_frame_type() == FrameType::Control(ControlFrameSubtype::BeamformingReportPoll)) == (get_bits_u16(x, 2, 0x3f) == 17),
        (FrameControlField(x).spec_frame_type() == FrameType::Control(ControlFrameSubtype::VHTNDPAnnouncement)) == (get_bits_u16(x, 2, 0x3f) == 21),
        (FrameControlField(x).spec_frame_type() == FrameType::Control(ControlFrameSubtype::ControlFrameExtension)) == (get_bits_u16(x, 2, 0x3f) == 25),
        (FrameControlField(x).spec_frame_type() == FrameType::Control(ControlFrameSubtype::ControlWrapper)) == (get_bits_u16(x, 2, 0x3f) == 29),
        (FrameControlField(x).spec_frame_type() == FrameType::Control(ControlFrameSubtype::BlockAckRequest)) == (get_bits_u16(x, 2, 0x3f) == 33),
        (FrameControlField(x).spec_frame_type() == FrameType::Control(ControlFrameSubtype::BlockAck)) == (get_bits_u16(x, 2, 0x3f) == 37),
        (FrameControlField(x).spec_frame_type() == FrameType::Control(ControlFrameSubtype::PSPoll)) == (get_bits_u16(x, 2, 0x3f) == 41),
        (FrameControlField(x).spec_frame_type() == FrameType::Control(ControlFrameSubtype::RTS)) == (get_bits_u16(x, 2, 0x3f) == 45),
        (FrameControlField(x).spec_frame_type() == FrameType::Control(ControlFrameSubtype::CTS)) == (get_bits_u16(x, 2, 0x3f) == 49),
        (FrameControlField(x).spec_frame_type() == FrameType::Control(ControlFrameSubtype::Ack)) == (get_bits_u16(x, 2, 0x3f) == 53),
        (FrameControlField(x).spec_frame_type() == FrameType::Control(ControlFrameSubtype::CFEnd)) == (get_bits_u16(x, 2, 0x3f) == 57),
        (FrameControlField(x).spec_frame_type() == FrameType::Control(ControlFrameSubtype::CFEndAck)) == (get_bits_u16(x, 2, 0x3f) == 61),
        (FrameControlField(x).spec_frame_type() == FrameType::Data(DataFrameSubtype::Data)) == (get_bits_u16(x, 2, 0x3f) == 2),
        (FrameControlField(x).spec_frame_type() == FrameType::Data(DataFrameSubtype::DataCFAck)) == (get_bits_u16(x, 2, 0x3f) == 6),
        (FrameControlField(x).spec_frame_type() == FrameType::Data(DataFrameSubtype::DataCFPoll)) == (get_bits_u16(x, 2, 0x3f) == 10),
        (FrameControlField(x).spec_frame_type() == FrameType::Data(DataFrameSubtype::DataCFAckCFPoll)) == (get_bits_u16(x, 2, 0x3f) == 14),
        (FrameControlField(x).spec_frame_type() == FrameType::Data(DataFrameSubtype::Null)) == (get_bits_u16(x, 2, 0x3f) == 18),
        (FrameControlField(x).spec_frame_type() == FrameType::Data(DataFrameSubtype::CFAck)) == (get_bits_u16(x, 2, 0x3f) == 22),
        (FrameControlField(x).spec_frame_type() == FrameType::Data(DataFrameSubtype::CFPoll)) == (get_bits_u16(x, 2, 0x3f) == 26),
        (FrameControlField(x).spec_frame_type() == FrameType::Data(DataFrameSubtype::CFAckCFPoll)) == (get_bits_u16(x, 2, 0x3f) == 30),
        (FrameControlField(x).spec_frame_type() == FrameType::Data(DataFrameSubtype::QoSData)) == (get_bits_u16(x, 2, 0x3f) == 34),
        (FrameControlField(x).spec_frame_type() == FrameType::Data(DataFrameSubtype::QoSDataCFAck)) == (get_bits_u16(x, 2, 0x3f) == 38),
        (FrameControlField(x).spec_frame_type() == FrameType::Data(DataFrameSubtype::QoSDataCFPoll)) == (get_bits_u16(x, 2, 0x3f) == 42),
        (FrameControlField(x).spec_frame_type() == FrameType::Data(DataFrameSubtype::QoSDataCFAckCFPoll)) == (get_bits_u16(x, 2, 0x3f) == 46),
        (FrameControlField(x).spec_frame_type() == FrameType::Data(DataFrameSubtype::QoSNull)) == (get_bits_u16(x, 2, 0x3f) == 50),
        (FrameControlField(x).spec_frame_type() == FrameType::Data(DataFrameSubtype::QoSCFPoll)) == (get_bits_u16(x, 2, 0x3f) == 58),
        (FrameControlField(x).spec_frame_type() == FrameType::Data(DataFrameSubtype::QoSCFAckCFPoll)) == (get_bits_u16(x, 2, 0x3f) == 62),
        FrameType::Management(ManagementFrameSubtype::AssociationRequest).spec_into_bits() == 0,
        FrameType::Management(ManagementFrameSubtype::AssociationResponse).spec_into_bits() == 4,
        FrameType::Management(ManagementFrameSubtype::ReassociationRequest).spec_into_bits() == 8,
        FrameType::Management(ManagementFrameSubtype::ReassociationResponse).spec_into_bits() == 12,
        FrameType::Management(ManagementFrameSubtype::ProbeRequest).spec_into_bits() == 16,
        FrameType::Management(ManagementFrameSubtype::ProbeResponse).spec_into_bits() == 20,
        FrameType::Management(ManagementFrameSubtype::TimingAdvertisement).spec_into_bits() == 24,
        FrameType::Management(ManagementFrameSubtype::Beacon).spec_into_bits() == 32,
        FrameType::Management(ManagementFrameSubtype::ATIM).spec_into_bits() == 36,
        FrameType::Management(ManagementFrameSubtype::Disassociation).spec_into_bits() == 40,
        FrameType::Management(ManagementFrameSubtype::Authentication).spec_into_bits() == 44,
        FrameType::Management(ManagementFrameSubtype::Deauthentication).spec_into_bits() == 48,
        FrameType::Management(ManagementFrameSubtype::Action).spec_into_bits() == 52,
        FrameType::Management(ManagementFrameSubtype::ActionNoAck).spec_into_bits() == 56,
        FrameType::Control(ControlFrameSubtype::TACK).spec_into_bits() == 13,
        FrameType::Control(ControlFrameSubtype::BeamformingReportPoll).spec_into_bits() == 17,
        FrameType::Control(ControlFrameSubtype::VHTNDPAnnouncement).spec_into_bits() == 21,
        FrameType::Control(ControlFrameSubtype::ControlFrameExtension).spec_into_bits() == 25,
        FrameType::Control(ControlFrameSubtype::ControlWrapper).spec_into_bits() == 29,
        FrameType::Control(ControlFrameSubtype::BlockAckRequest).spec_into_bits() == 33,
        FrameType::Control(ControlFrameSubtype::BlockAck).spec_into_bits() == 37,
        FrameType::Control(ControlFrameSubtype::PSPoll).spec_into_bits() == 41,
        FrameType::Control(ControlFrameSubtype::RTS).spec_into_bits() == 45,
        FrameType::Control(ControlFrameSubtype::CTS).spec_into_bits() == 49,
        FrameType::Control(ControlFrameSubtype::Ack).spec_into_bits() == 53,
        FrameType::Control(ControlFrameSubtype::CFEnd).spec_into_bits() == 57,
        FrameType::Control(ControlFrameSubtype::CFEndAck).spec_into_bits() == 61,
        FrameType::Data(DataFrameSubtype::Data).spec_into_bits() == 2,
        FrameType::Data(DataFrameSubtype::DataCFAck).spec_into_bits() == 6,
        FrameType::Data(DataFrameSubtype::DataCFPoll).spec_into_bits() == 10,
        FrameType::Data(DataFrameSubtype::DataCFAckCFPoll).spec_into_bits() == 14,
        FrameType::Data(DataFrameSubtype::Null).spec_into_bits() == 18,
        FrameType::Data(DataFrameSubtype::CFAck).spec_into_bits() == 22,
        FrameType::Data(DataFrameSubtype::CFPoll).spec_into_bits() == 26,
        FrameType::Data(DataFrameSubtype::CFAckCFPoll).spec_into_bits() == 30,
        FrameType::Data(DataFrameSubtype::QoSData).spec_into_bits() == 34,
        FrameType::Data(DataFrameSubtype::QoSDataCFAck).spec_into_bits() == 38,
        FrameType::Data(DataFrameSubtype::QoSDataCFPoll).spec_into_bits() == 42,
        FrameType::Data(DataFrameSubtype::QoSDataCFAckCFPoll).spec_into_bits() == 46,
        FrameType::Data(DataFrameSubtype::QoSNull).spec_into_bits() == 50,
        FrameType::Data(DataFrameSubtype::QoSCFPoll).spec_into_bits() == 58,
        FrameType::Data(DataFrameSubtype::QoSCFAckCFPoll).spec_into_bits() == 62,
{
    let t = get_bits_u16(x, 2, 0x3f);
    assert(t <= 0x3f) by (bit_vector)
        requires
            t == (x >> 2u16) & 0x3fu16,
    ;
    crate::common::subtypes::lemma_management_frame_subtype_numbering(((t / 4) % 16) as u8);
    crate::common::subtypes::lemma_control_frame_subtype_numbering(((t / 4) % 16) as u8);
    crate::common::subtypes::lemma_data_frame_subtype_numbering(((t / 4) % 16) as u8);
}

} // verus!
