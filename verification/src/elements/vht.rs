//! The VHT Capabilities and VHT Operation elements.
use crate::common::bits::{fits_u32, get_bits_u32, lemma_set_bits_u32, set_bits_u32, fits_u64, get_bits_u64, lemma_set_bits_u64, set_bits_u64};
use crate::common::wire::{Error, le_u16, le_u32, le_u64, lemma_u16_at, lemma_u32_at, lemma_u64_at, push_u16_le, push_u32_le, push_u64_le, read_u16_le, read_u32_le, read_u64_le, u16_le_bytes, u32_le_bytes, u64_le_bytes, write_all};
use crate::elements::ElementID;
use crate::elements::Element;
use vstd::prelude::*;

verus! {

/// General information about the capabilites of the STA's VHT PHY.
#[derive(Clone, Copy, Debug, PartialEq, Eq, Hash, Structural)]
pub struct VHTCapabilitiesInfo(pub u32);

impl VHTCapabilitiesInfo {
    /// A value with every field at its default.
    pub fn new() -> (r: Self)
        ensures
            r.0 == 0x0,
    {
        Self(0x0)
    }

    /// Wrap the raw bits.
    pub fn from_bits(bits: u32) -> (r: Self)
        ensures
            r.0 == bits,
    {
        Self(bits)
    }

    /// Every field mask fits in the backing integer.
    proof fn lemma_masks_fit()
        by (bit_vector)
        ensures
            fits_u32(0, 0x3),
            fits_u32(2, 0x3),
            fits_u32(4, 0x1),
            fits_u32(5, 0x1),
            fits_u32(6, 0x1),
            fits_u32(7, 0x1),
            fits_u32(8, 0x7),
            fits_u32(11, 0x1),
            fits_u32(12, 0x1),
            fits_u32(13, 0x7),
            fits_u32(16, 0x7),
            fits_u32(19, 0x1),
            fits_u32(20, 0x1),
            fits_u32(21, 0x1),
            fits_u32(22, 0x1),
            fits_u32(23, 0x7),
            fits_u32(26, 0x3),
            fits_u32(28, 0x1),
            fits_u32(29, 0x1),
            fits_u32(30, 0x3),
            (0x3u32 << 0u32) & (0x3u32 << 2u32) == 0,
            (0x3u32 << 2u32) & (0x3u32 << 0u32) == 0,
            (0x3u32 << 0u32) & (0x1u32 << 4u32) == 0,
            (0x1u32 << 4u32) & (0x3u32 << 0u32) == 0,
            (0x3u32 << 0u32) & (0x1u32 << 5u32) == 0,
            (0x1u32 << 5u32) & (0x3u32 << 0u32) == 0,
            (0x3u32 << 0u32) & (0x1u32 << 6u32) == 0,
            (0x1u32 << 6u32) & (0x3u32 << 0u32) == 0,
            (0x3u32 << 0u32) & (0x1u32 << 7u32) == 0,
            (0x1u32 << 7u32) & (0x3u32 << 0u32) == 0,
            (0x3u32 << 0u32) & (0x7u32 << 8u32) == 0,
            (0x7u32 << 8u32) & (0x3u32 << 0u32) == 0,
            (0x3u32 << 0u32) & (0x1u32 << 11u32) == 0,
            (0x1u32 << 11u32) & (0x3u32 << 0u32) == 0,
            (0x3u32 << 0u32) & (0x1u32 << 12u32) == 0,
            (0x1u32 << 12u32) & (0x3u32 << 0u32) == 0,
            (0x3u32 << 0u32) & (0x7u32 << 13u32) == 0,
            (0x7u32 << 13u32) & (0x3u32 << 0u32) == 0,
            (0x3u32 << 0u32) & (0x7u32 << 16u32) == 0,
            (0x7u32 << 16u32) & (0x3u32 << 0u32) == 0,
            (0x3u32 << 0u32) & (0x1u32 << 19u32) == 0,
            (0x1u32 << 19u32) & (0x3u32 << 0u32) == 0,
            (0x3u32 << 0u32) & (0x1u32 << 20u32) == 0,
            (0x1u32 << 20u32) & (0x3u32 << 0u32) == 0,
            (0x3u32 << 0u32) & (0x1u32 << 21u32) == 0,
            (0x1u32 << 21u32) & (0x3u32 << 0u32) == 0,
            (0x3u32 << 0u32) & (0x1u32 << 22u32) == 0,
            (0x1u32 << 22u32) & (0x3u32 << 0u32) == 0,
            (0x3u32 << 0u32) & (0x7u32 << 23u32) == 0,
            (0x7u32 << 23u32) & (0x3u32 << 0u32) == 0,
            (0x3u32 << 0u32) & (0x3u32 << 26u32) == 0,
            (0x3u32 << 26u32) & (0x3u32 << 0u32) == 0,
            (0x3u32 << 0u32) & (0x1u32 << 28u32) == 0,
            (0x1u32 << 28u32) & (0x3u32 << 0u32) == 0,
            (0x3u32 << 0u32) & (0x1u32 << 29u32) == 0,
            (0x1u32 << 29u32) & (0x3u32 << 0u32) == 0,
            (0x3u32 << 0u32) & (0x3u32 << 30u32) == 0,
            (0x3u32 << 30u32) & (0x3u32 << 0u32) == 0,
            (0x3u32 << 2u32) & (0x1u32 << 4u32) == 0,
            (0x1u32 << 4u32) & (0x3u32 << 2u32) == 0,
            (0x3u32 << 2u32) & (0x1u32 << 5u32) == 0,
            (0x1u32 << 5u32) & (0x3u32 << 2u32) == 0,
            (0x3u32 << 2u32) & (0x1u32 << 6u32) == 0,
            (0x1u32 << 6u32) & (0x3u32 << 2u32) == 0,
            (0x3u32 << 2u32) & (0x1u32 << 7u32) == 0,
            (0x1u32 << 7u32) & (0x3u32 << 2u32) == 0,
            (0x3u32 << 2u32) & (0x7u32 << 8u32) == 0,
            (0x7u32 << 8u32) & (0x3u32 << 2u32) == 0,
            (0x3u32 << 2u32) & (0x1u32 << 11u32) == 0,
            (0x1u32 << 11u32) & (0x3u32 << 2u32) == 0,
            (0x3u32 << 2u32) & (0x1u32 << 12u32) == 0,
            (0x1u32 << 12u32) & (0x3u32 << 2u32) == 0,
            (0x3u32 << 2u32) & (0x7u32 << 13u32) == 0,
            (0x7u32 << 13u32) & (0x3u32 << 2u32) == 0,
            (0x3u32 << 2u32) & (0x7u32 << 16u32) == 0,
            (0x7u32 << 16u32) & (0x3u32 << 2u32) == 0,
            (0x3u32 << 2u32) & (0x1u32 << 19u32) == 0,
            (0x1u32 << 19u32) & (0x3u32 << 2u32) == 0,
            (0x3u32 << 2u32) & (0x1u32 << 20u32) == 0,
            (0x1u32 << 20u32) & (0x3u32 << 2u32) == 0,
            (0x3u32 << 2u32) & (0x1u32 << 21u32) == 0,
            (0x1u32 << 21u32) & (0x3u32 << 2u32) == 0,
            (0x3u32 << 2u32) & (0x1u32 << 22u32) == 0,
            (0x1u32 << 22u32) & (0x3u32 << 2u32) == 0,
            (0x3u32 << 2u32) & (0x7u32 << 23u32) == 0,
            (0x7u32 << 23u32) & (0x3u32 << 2u32) == 0,
            (0x3u32 << 2u32) & (0x3u32 << 26u32) == 0,
            (0x3u32 << 26u32) & (0x3u32 << 2u32) == 0,
            (0x3u32 << 2u32) & (0x1u32 << 28u32) == 0,
            (0x1u32 << 28u32) & (0x3u32 << 2u32) == 0,
            (0x3u32 << 2u32) & (0x1u32 << 29u32) == 0,
            (0x1u32 << 29u32) & (0x3u32 << 2u32) == 0,
            (0x3u32 << 2u32) & (0x3u32 << 30u32) == 0,
            (0x3u32 << 30u32) & (0x3u32 << 2u32) == 0,
            (0x1u32 << 4u32) & (0x1u32 << 5u32) == 0,
            (0x1u32 << 5u32) & (0x1u32 << 4u32) == 0,
            (0x1u32 << 4u32) & (0x1u32 << 6u32) == 0,
            (0x1u32 << 6u32) & (0x1u32 << 4u32) == 0,
            (0x1u32 << 4u32) & (0x1u32 << 7u32) == 0,
            (0x1u32 << 7u32) & (0x1u32 << 4u32) == 0,
            (0x1u32 << 4u32) & (0x7u32 << 8u32) == 0,
            (0x7u32 << 8u32) & (0x1u32 << 4u32) == 0,
            (0x1u32 << 4u32) & (0x1u32 << 11u32) == 0,
            (0x1u32 << 11u32) & (0x1u32 << 4u32) == 0,
            (0x1u32 << 4u32) & (0x1u32 << 12u32) == 0,
            (0x1u32 << 12u32) & (0x1u32 << 4u32) == 0,
            (0x1u32 << 4u32) & (0x7u32 << 13u32) == 0,
            (0x7u32 << 13u32) & (0x1u32 << 4u32) == 0,
            (0x1u32 << 4u32) & (0x7u32 << 16u32) == 0,
            (0x7u32 << 16u32) & (0x1u32 << 4u32) == 0,
            (0x1u32 << 4u32) & (0x1u32 << 19u32) == 0,
            (0x1u32 << 19u32) & (0x1u32 << 4u32) == 0,
            (0x1u32 << 4u32) & (0x1u32 << 20u32) == 0,
            (0x1u32 << 20u32) & (0x1u32 << 4u32) == 0,
            (0x1u32 << 4u32) & (0x1u32 << 21u32) == 0,
            (0x1u32 << 21u32) & (0x1u32 << 4u32) == 0,
            (0x1u32 << 4u32) & (0x1u32 << 22u32) == 0,
            (0x1u32 << 22u32) & (0x1u32 << 4u32) == 0,
            (0x1u32 << 4u32) & (0x7u32 << 23u32) == 0,
            (0x7u32 << 23u32) & (0x1u32 << 4u32) == 0,
            (0x1u32 << 4u32) & (0x3u32 << 26u32) == 0,
            (0x3u32 << 26u32) & (0x1u32 << 4u32) == 0,
            (0x1u32 << 4u32) & (0x1u32 << 28u32) == 0,
            (0x1u32 << 28u32) & (0x1u32 << 4u32) == 0,
            (0x1u32 << 4u32) & (0x1u32 << 29u32) == 0,
            (0x1u32 << 29u32) & (0x1u32 << 4u32) == 0,
            (0x1u32 << 4u32) & (0x3u32 << 30u32) == 0,
            (0x3u32 << 30u32) & (0x1u32 << 4u32) == 0,
            (0x1u32 << 5u32) & (0x1u32 << 6u32) == 0,
            (0x1u32 << 6u32) & (0x1u32 << 5u32) == 0,
            (0x1u32 << 5u32) & (0x1u32 << 7u32) == 0,
            (0x1u32 << 7u32) & (0x1u32 << 5u32) == 0,
            (0x1u32 << 5u32) & (0x7u32 << 8u32) == 0,
            (0x7u32 << 8u32) & (0x1u32 << 5u32) == 0,
            (0x1u32 << 5u32) & (0x1u32 << 11u32) == 0,
            (0x1u32 << 11u32) & (0x1u32 << 5u32) == 0,
            (0x1u32 << 5u32) & (0x1u32 << 12u32) == 0,
            (0x1u32 << 12u32) & (0x1u32 << 5u32) == 0,
            (0x1u32 << 5u32) & (0x7u32 << 13u32) == 0,
            (0x7u32 << 13u32) & (0x1u32 << 5u32) == 0,
            (0x1u32 << 5u32) & (0x7u32 << 16u32) == 0,
            (0x7u32 << 16u32) & (0x1u32 << 5u32) == 0,
            (0x1u32 << 5u32) & (0x1u32 << 19u32) == 0,
            (0x1u32 << 19u32) & (0x1u32 << 5u32) == 0,
            (0x1u32 << 5u32) & (0x1u32 << 20u32) == 0,
            (0x1u32 << 20u32) & (0x1u32 << 5u32) == 0,
            (0x1u32 << 5u32) & (0x1u32 << 21u32) == 0,
            (0x1u32 << 21u32) & (0x1u32 << 5u32) == 0,
            (0x1u32 << 5u32) & (0x1u32 << 22u32) == 0,
            (0x1u32 << 22u32) & (0x1u32 << 5u32) == 0,
            (0x1u32 << 5u32) & (0x7u32 << 23u32) == 0,
            (0x7u32 << 23u32) & (0x1u32 << 5u32) == 0,
            (0x1u32 << 5u32) & (0x3u32 << 26u32) == 0,
            (0x3u32 << 26u32) & (0x1u32 << 5u32) == 0,
            (0x1u32 << 5u32) & (0x1u32 << 28u32) == 0,
            (0x1u32 << 28u32) & (0x1u32 << 5u32) == 0,
            (0x1u32 << 5u32) & (0x1u32 << 29u32) == 0,
            (0x1u32 << 29u32) & (0x1u32 << 5u32) == 0,
            (0x1u32 << 5u32) & (0x3u32 << 30u32) == 0,
            (0x3u32 << 30u32) & (0x1u32 << 5u32) == 0,
            (0x1u32 << 6u32) & (0x1u32 << 7u32) == 0,
            (0x1u32 << 7u32) & (0x1u32 << 6u32) == 0,
            (0x1u32 << 6u32) & (0x7u32 << 8u32) == 0,
            (0x7u32 << 8u32) & (0x1u32 << 6u32) == 0,
            (0x1u32 << 6u32) & (0x1u32 << 11u32) == 0,
            (0x1u32 << 11u32) & (0x1u32 << 6u32) == 0,
            (0x1u32 << 6u32) & (0x1u32 << 12u32) == 0,
            (0x1u32 << 12u32) & (0x1u32 << 6u32) == 0,
            (0x1u32 << 6u32) & (0x7u32 << 13u32) == 0,
            (0x7u32 << 13u32) & (0x1u32 << 6u32) == 0,
            (0x1u32 << 6u32) & (0x7u32 << 16u32) == 0,
            (0x7u32 << 16u32) & (0x1u32 << 6u32) == 0,
            (0x1u32 << 6u32) & (0x1u32 << 19u32) == 0,
            (0x1u32 << 19u32) & (0x1u32 << 6u32) == 0,
            (0x1u32 << 6u32) & (0x1u32 << 20u32) == 0,
            (0x1u32 << 20u32) & (0x1u32 << 6u32) == 0,
            (0x1u32 << 6u32) & (0x1u32 << 21u32) == 0,
            (0x1u32 << 21u32) & (0x1u32 << 6u32) == 0,
            (0x1u32 << 6u32) & (0x1u32 << 22u32) == 0,
            (0x1u32 << 22u32) & (0x1u32 << 6u32) == 0,
            (0x1u32 << 6u32) & (0x7u32 << 23u32) == 0,
            (0x7u32 << 23u32) & (0x1u32 << 6u32) == 0,
            (0x1u32 << 6u32) & (0x3u32 << 26u32) == 0,
            (0x3u32 << 26u32) & (0x1u32 << 6u32) == 0,
            (0x1u32 << 6u32) & (0x1u32 << 28u32) == 0,
            (0x1u32 << 28u32) & (0x1u32 << 6u32) == 0,
            (0x1u32 << 6u32) & (0x1u32 << 29u32) == 0,
            (0x1u32 << 29u32) & (0x1u32 << 6u32) == 0,
            (0x1u32 << 6u32) & (0x3u32 << 30u32) == 0,
            (0x3u32 << 30u32) & (0x1u32 << 6u32) == 0,
            (0x1u32 << 7u32) & (0x7u32 << 8u32) == 0,
            (0x7u32 << 8u32) & (0x1u32 << 7u32) == 0,
            (0x1u32 << 7u32) & (0x1u32 << 11u32) == 0,
            (0x1u32 << 11u32) & (0x1u32 << 7u32) == 0,
            (0x1u32 << 7u32) & (0x1u32 << 12u32) == 0,
            (0x1u32 << 12u32) & (0x1u32 << 7u32) == 0,
            (0x1u32 << 7u32) & (0x7u32 << 13u32) == 0,
            (0x7u32 << 13u32) & (0x1u32 << 7u32) == 0,
            (0x1u32 << 7u32) & (0x7u32 << 16u32) == 0,
            (0x7u32 << 16u32) & (0x1u32 << 7u32) == 0,
            (0x1u32 << 7u32) & (0x1u32 << 19u32) == 0,
            (0x1u32 << 19u32) & (0x1u32 << 7u32) == 0,
            (0x1u32 << 7u32) & (0x1u32 << 20u32) == 0,
            (0x1u32 << 20u32) & (0x1u32 << 7u32) == 0,
            (0x1u32 << 7u32) & (0x1u32 << 21u32) == 0,
            (0x1u32 << 21u32) & (0x1u32 << 7u32) == 0,
            (0x1u32 << 7u32) & (0x1u32 << 22u32) == 0,
            (0x1u32 << 22u32) & (0x1u32 << 7u32) == 0,
            (0x1u32 << 7u32) & (0x7u32 << 23u32) == 0,
            (0x7u32 << 23u32) & (0x1u32 << 7u32) == 0,
            (0x1u32 << 7u32) & (0x3u32 << 26u32) == 0,
            (0x3u32 << 26u32) & (0x1u32 << 7u32) == 0,
            (0x1u32 << 7u32) & (0x1u32 << 28u32) == 0,
            (0x1u32 << 28u32) & (0x1u32 << 7u32) == 0,
            (0x1u32 << 7u32) & (0x1u32 << 29u32) == 0,
            (0x1u32 << 29u32) & (0x1u32 << 7u32) == 0,
            (0x1u32 << 7u32) & (0x3u32 << 30u32) == 0,
            (0x3u32 << 30u32) & (0x1u32 << 7u32) == 0,
            (0x7u32 << 8u32) & (0x1u32 << 11u32) == 0,
            (0x1u32 << 11u32) & (0x7u32 << 8u32) == 0,
            (0x7u32 << 8u32) & (0x1u32 << 12u32) == 0,
            (0x1u32 << 12u32) & (0x7u32 << 8u32) == 0,
            (0x7u32 << 8u32) & (0x7u32 << 13u32) == 0,
            (0x7u32 << 13u32) & (0x7u32 << 8u32) == 0,
            (0x7u32 << 8u32) & (0x7u32 << 16u32) == 0,
            (0x7u32 << 16u32) & (0x7u32 << 8u32) == 0,
            (0x7u32 << 8u32) & (0x1u32 << 19u32) == 0,
            (0x1u32 << 19u32) & (0x7u32 << 8u32) == 0,
            (0x7u32 << 8u32) & (0x1u32 << 20u32) == 0,
            (0x1u32 << 20u32) & (0x7u32 << 8u32) == 0,
            (0x7u32 << 8u32) & (0x1u32 << 21u32) == 0,
            (0x1u32 << 21u32) & (0x7u32 << 8u32) == 0,
            (0x7u32 << 8u32) & (0x1u32 << 22u32) == 0,
            (0x1u32 << 22u32) & (0x7u32 << 8u32) == 0,
            (0x7u32 << 8u32) & (0x7u32 << 23u32) == 0,
            (0x7u32 << 23u32) & (0x7u32 << 8u32) == 0,
            (0x7u32 << 8u32) & (0x3u32 << 26u32) == 0,
            (0x3u32 << 26u32) & (0x7u32 << 8u32) == 0,
            (0x7u32 << 8u32) & (0x1u32 << 28u32) == 0,
            (0x1u32 << 28u32) & (0x7u32 << 8u32) == 0,
            (0x7u32 << 8u32) & (0x1u32 << 29u32) == 0,
            (0x1u32 << 29u32) & (0x7u32 << 8u32) == 0,
            (0x7u32 << 8u32) & (0x3u32 << 30u32) == 0,
            (0x3u32 << 30u32) & (0x7u32 << 8u32) == 0,
            (0x1u32 << 11u32) & (0x1u32 << 12u32) == 0,
            (0x1u32 << 12u32) & (0x1u32 << 11u32) == 0,
            (0x1u32 << 11u32) & (0x7u32 << 13u32) == 0,
            (0x7u32 << 13u32) & (0x1u32 << 11u32) == 0,
            (0x1u32 << 11u32) & (0x7u32 << 16u32) == 0,
            (0x7u32 << 16u32) & (0x1u32 << 11u32) == 0,
            (0x1u32 << 11u32) & (0x1u32 << 19u32) == 0,
            (0x1u32 << 19u32) & (0x1u32 << 11u32) == 0,
            (0x1u32 << 11u32) & (0x1u32 << 20u32) == 0,
            (0x1u32 << 20u32) & (0x1u32 << 11u32) == 0,
            (0x1u32 << 11u32) & (0x1u32 << 21u32) == 0,
            (0x1u32 << 21u32) & (0x1u32 << 11u32) == 0,
            (0x1u32 << 11u32) & (0x1u32 << 22u32) == 0,
            (0x1u32 << 22u32) & (0x1u32 << 11u32) == 0,
            (0x1u32 << 11u32) & (0x7u32 << 23u32) == 0,
            (0x7u32 << 23u32) & (0x1u32 << 11u32) == 0,
            (0x1u32 << 11u32) & (0x3u32 << 26u32) == 0,
            (0x3u32 << 26u32) & (0x1u32 << 11u32) == 0,
            (0x1u32 << 11u32) & (0x1u32 << 28u32) == 0,
            (0x1u32 << 28u32) & (0x1u32 << 11u32) == 0,
            (0x1u32 << 11u32) & (0x1u32 << 29u32) == 0,
            (0x1u32 << 29u32) & (0x1u32 << 11u32) == 0,
            (0x1u32 << 11u32) & (0x3u32 << 30u32) == 0,
            (0x3u32 << 30u32) & (0x1u32 << 11u32) == 0,
            (0x1u32 << 12u32) & (0x7u32 << 13u32) == 0,
            (0x7u32 << 13u32) & (0x1u32 << 12u32) == 0,
            (0x1u32 << 12u32) & (0x7u32 << 16u32) == 0,
            (0x7u32 << 16u32) & (0x1u32 << 12u32) == 0,
            (0x1u32 << 12u32) & (0x1u32 << 19u32) == 0,
            (0x1u32 << 19u32) & (0x1u32 << 12u32) == 0,
            (0x1u32 << 12u32) & (0x1u32 << 20u32) == 0,
            (0x1u32 << 20u32) & (0x1u32 << 12u32) == 0,
            (0x1u32 << 12u32) & (0x1u32 << 21u32) == 0,
            (0x1u32 << 21u32) & (0x1u32 << 12u32) == 0,
            (0x1u32 << 12u32) & (0x1u32 << 22u32) == 0,
            (0x1u32 << 22u32) & (0x1u32 << 12u32) == 0,
            (0x1u32 << 12u32) & (0x7u32 << 23u32) == 0,
            (0x7u32 << 23u32) & (0x1u32 << 12u32) == 0,
            (0x1u32 << 12u32) & (0x3u32 << 26u32) == 0,
            (0x3u32 << 26u32) & (0x1u32 << 12u32) == 0,
            (0x1u32 << 12u32) & (0x1u32 << 28u32) == 0,
            (0x1u32 << 28u32) & (0x1u32 << 12u32) == 0,
            (0x1u32 << 12u32) & (0x1u32 << 29u32) == 0,
            (0x1u32 << 29u32) & (0x1u32 << 12u32) == 0,
            (0x1u32 << 12u32) & (0x3u32 << 30u32) == 0,
            (0x3u32 << 30u32) & (0x1u32 << 12u32) == 0,
            (0x7u32 << 13u32) & (0x7u32 << 16u32) == 0,
            (0x7u32 << 16u32) & (0x7u32 << 13u32) == 0,
            (0x7u32 << 13u32) & (0x1u32 << 19u32) == 0,
            (0x1u32 << 19u32) & (0x7u32 << 13u32) == 0,
            (0x7u32 << 13u32) & (0x1u32 << 20u32) == 0,
            (0x1u32 << 20u32) & (0x7u32 << 13u32) == 0,
            (0x7u32 << 13u32) & (0x1u32 << 21u32) == 0,
            (0x1u32 << 21u32) & (0x7u32 << 13u32) == 0,
            (0x7u32 << 13u32) & (0x1u32 << 22u32) == 0,
            (0x1u32 << 22u32) & (0x7u32 << 13u32) == 0,
            (0x7u32 << 13u32) & (0x7u32 << 23u32) == 0,
            (0x7u32 << 23u32) & (0x7u32 << 13u32) == 0,
            (0x7u32 << 13u32) & (0x3u32 << 26u32) == 0,
            (0x3u32 << 26u32) & (0x7u32 << 13u32) == 0,
            (0x7u32 << 13u32) & (0x1u32 << 28u32) == 0,
            (0x1u32 << 28u32) & (0x7u32 << 13u32) == 0,
            (0x7u32 << 13u32) & (0x1u32 << 29u32) == 0,
            (0x1u32 << 29u32) & (0x7u32 << 13u32) == 0,
            (0x7u32 << 13u32) & (0x3u32 << 30u32) == 0,
            (0x3u32 << 30u32) & (0x7u32 << 13u32) == 0,
            (0x7u32 << 16u32) & (0x1u32 << 19u32) == 0,
            (0x1u32 << 19u32) & (0x7u32 << 16u32) == 0,
            (0x7u32 << 16u32) & (0x1u32 << 20u32) == 0,
            (0x1u32 << 20u32) & (0x7u32 << 16u32) == 0,
            (0x7u32 << 16u32) & (0x1u32 << 21u32) == 0,
            (0x1u32 << 21u32) & (0x7u32 << 16u32) == 0,
            (0x7u32 << 16u32) & (0x1u32 << 22u32) == 0,
            (0x1u32 << 22u32) & (0x7u32 << 16u32) == 0,
            (0x7u32 << 16u32) & (0x7u32 << 23u32) == 0,
            (0x7u32 << 23u32) & (0x7u32 << 16u32) == 0,
            (0x7u32 << 16u32) & (0x3u32 << 26u32) == 0,
            (0x3u32 << 26u32) & (0x7u32 << 16u32) == 0,
            (0x7u32 << 16u32) & (0x1u32 << 28u32) == 0,
            (0x1u32 << 28u32) & (0x7u32 << 16u32) == 0,
            (0x7u32 << 16u32) & (0x1u32 << 29u32) == 0,
            (0x1u32 << 29u32) & (0x7u32 << 16u32) == 0,
            (0x7u32 << 16u32) & (0x3u32 << 30u32) == 0,
            (0x3u32 << 30u32) & (0x7u32 << 16u32) == 0,
            (0x1u32 << 19u32) & (0x1u32 << 20u32) == 0,
            (0x1u32 << 20u32) & (0x1u32 << 19u32) == 0,
            (0x1u32 << 19u32) & (0x1u32 << 21u32) == 0,
            (0x1u32 << 21u32) & (0x1u32 << 19u32) == 0,
            (0x1u32 << 19u32) & (0x1u32 << 22u32) == 0,
            (0x1u32 << 22u32) & (0x1u32 << 19u32) == 0,
            (0x1u32 << 19u32) & (0x7u32 << 23u32) == 0,
            (0x7u32 << 23u32) & (0x1u32 << 19u32) == 0,
            (0x1u32 << 19u32) & (0x3u32 << 26u32) == 0,
            (0x3u32 << 26u32) & (0x1u32 << 19u32) == 0,
            (0x1u32 << 19u32) & (0x1u32 << 28u32) == 0,
            (0x1u32 << 28u32) & (0x1u32 << 19u32) == 0,
            (0x1u32 << 19u32) & (0x1u32 << 29u32) == 0,
            (0x1u32 << 29u32) & (0x1u32 << 19u32) == 0,
            (0x1u32 << 19u32) & (0x3u32 << 30u32) == 0,
            (0x3u32 << 30u32) & (0x1u32 << 19u32) == 0,
            (0x1u32 << 20u32) & (0x1u32 << 21u32) == 0,
            (0x1u32 << 21u32) & (0x1u32 << 20u32) == 0,
            (0x1u32 << 20u32) & (0x1u32 << 22u32) == 0,
            (0x1u32 << 22u32) & (0x1u32 << 20u32) == 0,
            (0x1u32 << 20u32) & (0x7u32 << 23u32) == 0,
            (0x7u32 << 23u32) & (0x1u32 << 20u32) == 0,
            (0x1u32 << 20u32) & (0x3u32 << 26u32) == 0,
            (0x3u32 << 26u32) & (0x1u32 << 20u32) == 0,
            (0x1u32 << 20u32) & (0x1u32 << 28u32) == 0,
            (0x1u32 << 28u32) & (0x1u32 << 20u32) == 0,
            (0x1u32 << 20u32) & (0x1u32 << 29u32) == 0,
            (0x1u32 << 29u32) & (0x1u32 << 20u32) == 0,
            (0x1u32 << 20u32) & (0x3u32 << 30u32) == 0,
            (0x3u32 << 30u32) & (0x1u32 << 20u32) == 0,
            (0x1u32 << 21u32) & (0x1u32 << 22u32) == 0,
            (0x1u32 << 22u32) & (0x1u32 << 21u32) == 0,
            (0x1u32 << 21u32) & (0x7u32 << 23u32) == 0,
            (0x7u32 << 23u32) & (0x1u32 << 21u32) == 0,
            (0x1u32 << 21u32) & (0x3u32 << 26u32) == 0,
            (0x3u32 << 26u32) & (0x1u32 << 21u32) == 0,
            (0x1u32 << 21u32) & (0x1u32 << 28u32) == 0,
            (0x1u32 << 28u32) & (0x1u32 << 21u32) == 0,
            (0x1u32 << 21u32) & (0x1u32 << 29u32) == 0,
            (0x1u32 << 29u32) & (0x1u32 << 21u32) == 0,
            (0x1u32 << 21u32) & (0x3u32 << 30u32) == 0,
            (0x3u32 << 30u32) & (0x1u32 << 21u32) == 0,
            (0x1u32 << 22u32) & (0x7u32 << 23u32) == 0,
            (0x7u32 << 23u32) & (0x1u32 << 22u32) == 0,
            (0x1u32 << 22u32) & (0x3u32 << 26u32) == 0,
            (0x3u32 << 26u32) & (0x1u32 << 22u32) == 0,
            (0x1u32 << 22u32) & (0x1u32 << 28u32) == 0,
            (0x1u32 << 28u32) & (0x1u32 << 22u32) == 0,
            (0x1u32 << 22u32) & (0x1u32 << 29u32) == 0,
            (0x1u32 << 29u32) & (0x1u32 << 22u32) == 0,
            (0x1u32 << 22u32) & (0x3u32 << 30u32) == 0,
            (0x3u32 << 30u32) & (0x1u32 << 22u32) == 0,
            (0x7u32 << 23u32) & (0x3u32 << 26u32) == 0,
            (0x3u32 << 26u32) & (0x7u32 << 23u32) == 0,
            (0x7u32 << 23u32) & (0x1u32 << 28u32) == 0,
            (0x1u32 << 28u32) & (0x7u32 << 23u32) == 0,
            (0x7u32 << 23u32) & (0x1u32 << 29u32) == 0,
            (0x1u32 << 29u32) & (0x7u32 << 23u32) == 0,
            (0x7u32 << 23u32) & (0x3u32 << 30u32) == 0,
            (0x3u32 << 30u32) & (0x7u32 << 23u32) == 0,
            (0x3u32 << 26u32) & (0x1u32 << 28u32) == 0,
            (0x1u32 << 28u32) & (0x3u32 << 26u32) == 0,
            (0x3u32 << 26u32) & (0x1u32 << 29u32) == 0,
            (0x1u32 << 29u32) & (0x3u32 << 26u32) == 0,
            (0x3u32 << 26u32) & (0x3u32 << 30u32) == 0,
            (0x3u32 << 30u32) & (0x3u32 << 26u32) == 0,
            (0x1u32 << 28u32) & (0x1u32 << 29u32) == 0,
            (0x1u32 << 29u32) & (0x1u32 << 28u32) == 0,
            (0x1u32 << 28u32) & (0x3u32 << 30u32) == 0,
            (0x3u32 << 30u32) & (0x1u32 << 28u32) == 0,
            (0x1u32 << 29u32) & (0x3u32 << 30u32) == 0,
            (0x3u32 << 30u32) & (0x1u32 << 29u32) == 0,
            1u32 & 1u32 == 1,
            0u32 & 1u32 == 0,
    {
    }

    /// The raw bits.
    pub fn into_bits(self) -> (r: u32)
        ensures
            r == self.0,
    {
        self.0
    }

    /// The encoded maximum MPDU length.
    pub open spec fn spec_maximum_mpdu_length(self) -> u8 {
        get_bits_u32(self.0, 0, 0x3) as u8
    }

    /// The encoded maximum MPDU length.
    pub fn maximum_mpdu_length(&self) -> (r: u8)
        ensures
            r == self.spec_maximum_mpdu_length(),
    {
        ((self.0 >> 0) & 0x3) as u8
    }

    /// Returns a copy with the field replaced by `value`.
    pub fn with_maximum_mpdu_length(self, value: u8) -> (r: Self)
        ensures
            r.0 == set_bits_u32(self.0, 0, 0x3, (value as u32)),
            r.spec_maximum_mpdu_length() == ((value as u32) & 0x3) as u8,
            r.spec_supported_channel_width_set() == self.spec_supported_channel_width_set(),
            r.spec_rx_ldpc() == self.spec_rx_ldpc(),
            r.spec_short_gi_80mhz() == self.spec_short_gi_80mhz(),
            r.spec_short_gi_160mhz() == self.spec_short_gi_160mhz(),
            r.spec_tx_stbc() == self.spec_tx_stbc(),
            r.spec_rx_stbc() == self.spec_rx_stbc(),
            r.spec_su_beamformer_capable() == self.spec_su_beamformer_capable(),
            r.spec_su_beamformee_capable() == self.spec_su_beamformee_capable(),
            r.spec_beamformee_sts_capability() == self.spec_beamformee_sts_capability(),
            r.spec_number_of_sounding_dimensions() == self.spec_number_of_sounding_dimensions(),
            r.spec_mu_beamformer_capable() == self.spec_mu_beamformer_capable(),
            r.spec_mu_beamformee_capable() == self.spec_mu_beamformee_capable(),
            r.spec_txop_ps() == self.spec_txop_ps(),
            r.spec_htc_vht_capable() == self.spec_htc_vht_capable(),
            r.spec_maximum_ampdu_length_exponent() == self.spec_maximum_ampdu_length_exponent(),
            r.spec_vht_link_adaptation_capable() == self.spec_vht_link_adaptation_capable(),
            r.spec_rx_antenna_pattern_consistency() == self.spec_rx_antenna_pattern_consistency(),
            r.spec_tx_antenna_pattern_consistency() == self.spec_tx_antenna_pattern_consistency(),
            r.spec_extended_nss_bw_support() == self.spec_extended_nss_bw_support(),
    {
        let v: u32 = value as u32;
        proof {
            Self::lemma_masks_fit();
            lemma_set_bits_u32(self.0, 0, 0x3, v, 0, 0x3);
            lemma_set_bits_u32(self.0, 0, 0x3, v, 2, 0x3);
            lemma_set_bits_u32(self.0, 0, 0x3, v, 4, 0x1);
            lemma_set_bits_u32(self.0, 0, 0x3, v, 5, 0x1);
            lemma_set_bits_u32(self.0, 0, 0x3, v, 6, 0x1);
            lemma_set_bits_u32(self.0, 0, 0x3, v, 7, 0x1);
            lemma_set_bits_u32(self.0, 0, 0x3, v, 8, 0x7);
            lemma_set_bits_u32(self.0, 0, 0x3, v, 11, 0x1);
            lemma_set_bits_u32(self.0, 0, 0x3, v, 12, 0x1);
            lemma_set_bits_u32(self.0, 0, 0x3, v, 13, 0x7);
            lemma_set_bits_u32(self.0, 0, 0x3, v, 16, 0x7);
            lemma_set_bits_u32(self.0, 0, 0x3, v, 19, 0x1);
            lemma_set_bits_u32(self.0, 0, 0x3, v, 20, 0x1);
            lemma_set_bits_u32(self.0, 0, 0x3, v, 21, 0x1);
            lemma_set_bits_u32(self.0, 0, 0x3, v, 22, 0x1);
            lemma_set_bits_u32(self.0, 0, 0x3, v, 23, 0x7);
            lemma_set_bits_u32(self.0, 0, 0x3, v, 26, 0x3);
            lemma_set_bits_u32(self.0, 0, 0x3, v, 28, 0x1);
            lemma_set_bits_u32(self.0, 0, 0x3, v, 29, 0x1);
            lemma_set_bits_u32(self.0, 0, 0x3, v, 30, 0x3);
        }
        Self((self.0 & !(0x3u32 << 0u32)) | ((v & 0x3) << 0u32))
    }

    /// The supported channel widths.
    pub open spec fn spec_supported_channel_width_set(self) -> u8 {
        get_bits_u32(self.0, 2, 0x3) as u8
    }

    /// The supported channel widths.
    pub fn supported_channel_width_set(&self) -> (r: u8)
        ensures
            r == self.spec_supported_channel_width_set(),
    {
        ((self.0 >> 2) & 0x3) as u8
    }

    /// Returns a copy with the field replaced by `value`.
    pub fn with_supported_channel_width_set(self, value: u8) -> (r: Self)
        ensures
            r.0 == set_bits_u32(self.0, 2, 0x3, (value as u32)),
            r.spec_supported_channel_width_set() == ((value as u32) & 0x3) as u8,
            r.spec_maximum_mpdu_length() == self.spec_maximum_mpdu_length(),
            r.spec_rx_ldpc() == self.spec_rx_ldpc(),
            r.spec_short_gi_80mhz() == self.spec_short_gi_80mhz(),
            r.spec_short_gi_160mhz() == self.spec_short_gi_160mhz(),
            r.spec_tx_stbc() == self.spec_tx_stbc(),
            r.spec_rx_stbc() == self.spec_rx_stbc(),
            r.spec_su_beamformer_capable() == self.spec_su_beamformer_capable(),
            r.spec_su_beamformee_capable() == self.spec_su_beamformee_capable(),
            r.spec_beamformee_sts_capability() == self.spec_beamformee_sts_capability(),
            r.spec_number_of_sounding_dimensions() == self.spec_number_of_sounding_dimensions(),
            r.spec_mu_beamformer_capable() == self.spec_mu_beamformer_capable(),
            r.spec_mu_beamformee_capable() == self.spec_mu_beamformee_capable(),
            r.spec_txop_ps() == self.spec_txop_ps(),
            r.spec_htc_vht_capable() == self.spec_htc_vht_capable(),
            r.spec_maximum_ampdu_length_exponent() == self.spec_maximum_ampdu_length_exponent(),
            r.spec_vht_link_adaptation_capable() == self.spec_vht_link_adaptation_capable(),
            r.spec_rx_antenna_pattern_consistency() == self.spec_rx_antenna_pattern_consistency(),
            r.spec_tx_antenna_pattern_consistency() == self.spec_tx_antenna_pattern_consistency(),
            r.spec_extended_nss_bw_support() == self.spec_extended_nss_bw_support(),
    {
        let v: u32 = value as u32;
        proof {
            Self::lemma_masks_fit();
            lemma_set_bits_u32(self.0, 2, 0x3, v, 2, 0x3);
            lemma_set_bits_u32(self.0, 2, 0x3, v, 0, 0x3);
            lemma_set_bits_u32(self.0, 2, 0x3, v, 4, 0x1);
            lemma_set_bits_u32(self.0, 2, 0x3, v, 5, 0x1);
            lemma_set_bits_u32(self.0, 2, 0x3, v, 6, 0x1);
            lemma_set_bits_u32(self.0, 2, 0x3, v, 7, 0x1);
            lemma_set_bits_u32(self.0, 2, 0x3, v, 8, 0x7);
            lemma_set_bits_u32(self.0, 2, 0x3, v, 11, 0x1);
            lemma_set_bits_u32(self.0, 2, 0x3, v, 12, 0x1);
            lemma_set_bits_u32(self.0, 2, 0x3, v, 13, 0x7);
            lemma_set_bits_u32(self.0, 2, 0x3, v, 16, 0x7);
            lemma_set_bits_u32(self.0, 2, 0x3, v, 19, 0x1);
            lemma_set_bits_u32(self.0, 2, 0x3, v, 20, 0x1);
            lemma_set_bits_u32(self.0, 2, 0x3, v, 21, 0x1);
            lemma_set_bits_u32(self.0, 2, 0x3, v, 22, 0x1);
            lemma_set_bits_u32(self.0, 2, 0x3, v, 23, 0x7);
            lemma_set_bits_u32(self.0, 2, 0x3, v, 26, 0x3);
            lemma_set_bits_u32(self.0, 2, 0x3, v, 28, 0x1);
            lemma_set_bits_u32(self.0, 2, 0x3, v, 29, 0x1);
            lemma_set_bits_u32(self.0, 2, 0x3, v, 30, 0x3);
        }
        Self((self.0 & !(0x3u32 << 2u32)) | ((v & 0x3) << 2u32))
    }

    /// LDPC coded packets can be received.
    pub open spec fn spec_rx_ldpc(self) -> bool {
        get_bits_u32(self.0, 4, 1) == 1
    }

    /// LDPC coded packets can be received.
    pub fn rx_ldpc(&self) -> (r: bool)
        ensures
            r == self.spec_rx_ldpc(),
    {
        (self.0 >> 4) & 1 == 1
    }

    /// Returns a copy with the field replaced by `value`.
    pub fn with_rx_ldpc(self, value: bool) -> (r: Self)
        ensures
            r.0 == set_bits_u32(self.0, 4, 0x1, (if value {
                1u32
            } else {
                0u32
            })),
            r.spec_rx_ldpc() == value,
            r.spec_maximum_mpdu_length() == self.spec_maximum_mpdu_length(),
            r.spec_supported_channel_width_set() == self.spec_supported_channel_width_set(),
            r.spec_short_gi_80mhz() == self.spec_short_gi_80mhz(),
            r.spec_short_gi_160mhz() == self.spec_short_gi_160mhz(),
            r.spec_tx_stbc() == self.spec_tx_stbc(),
            r.spec_rx_stbc() == self.spec_rx_stbc(),
            r.spec_su_beamformer_capable() == self.spec_su_beamformer_capable(),
            r.spec_su_beamformee_capable() == self.spec_su_beamformee_capable(),
            r.spec_beamformee_sts_capability() == self.spec_beamformee_sts_capability(),
            r.spec_number_of_sounding_dimensions() == self.spec_number_of_sounding_dimensions(),
            r.spec_mu_beamformer_capable() == self.spec_mu_beamformer_capable(),
            r.spec_mu_beamformee_capable() == self.spec_mu_beamformee_capable(),
            r.spec_txop_ps() == self.spec_txop_ps(),
            r.spec_htc_vht_capable() == self.spec_htc_vht_capable(),
            r.spec_maximum_ampdu_length_exponent() == self.spec_maximum_ampdu_length_exponent(),
            r.spec_vht_link_adaptation_capable() == self.spec_vht_link_adaptation_capable(),
            r.spec_rx_antenna_pattern_consistency() == self.spec_rx_antenna_pattern_consistency(),
            r.spec_tx_antenna_pattern_consistency() == self.spec_tx_antenna_pattern_consistency(),
            r.spec_extended_nss_bw_support() == self.spec_extended_nss_bw_support(),
    {
        let v: u32 = if value {
            1
        } else {
            0
        };
        proof {
            Self::lemma_masks_fit();
            lemma_set_bits_u32(self.0, 4, 0x1, v, 4, 0x1);
            lemma_set_bits_u32(self.0, 4, 0x1, v, 0, 0x3);
            lemma_set_bits_u32(self.0, 4, 0x1, v, 2, 0x3);
            lemma_set_bits_u32(self.0, 4, 0x1, v, 5, 0x1);
            lemma_set_bits_u32(self.0, 4, 0x1, v, 6, 0x1);
            lemma_set_bits_u32(self.0, 4, 0x1, v, 7, 0x1);
            lemma_set_bits_u32(self.0, 4, 0x1, v, 8, 0x7);
            lemma_set_bits_u32(self.0, 4, 0x1, v, 11, 0x1);
            lemma_set_bits_u32(self.0, 4, 0x1, v, 12, 0x1);
            lemma_set_bits_u32(self.0, 4, 0x1, v, 13, 0x7);
            lemma_set_bits_u32(self.0, 4, 0x1, v, 16, 0x7);
            lemma_set_bits_u32(self.0, 4, 0x1, v, 19, 0x1);
            lemma_set_bits_u32(self.0, 4, 0x1, v, 20, 0x1);
            lemma_set_bits_u32(self.0, 4, 0x1, v, 21, 0x1);
            lemma_set_bits_u32(self.0, 4, 0x1, v, 22, 0x1);
            lemma_set_bits_u32(self.0, 4, 0x1, v, 23, 0x7);
            lemma_set_bits_u32(self.0, 4, 0x1, v, 26, 0x3);
            lemma_set_bits_u32(self.0, 4, 0x1, v, 28, 0x1);
            lemma_set_bits_u32(self.0, 4, 0x1, v, 29, 0x1);
            lemma_set_bits_u32(self.0, 4, 0x1, v, 30, 0x3);
        }
        Self((self.0 & !(0x1u32 << 4u32)) | ((v & 0x1) << 4u32))
    }

    /// Short GI is supported for 80 MHz.
    pub open spec fn spec_short_gi_80mhz(self) -> bool {
        get_bits_u32(self.0, 5, 1) == 1
    }

    /// Short GI is supported for 80 MHz.
    pub fn short_gi_80mhz(&self) -> (r: bool)
        ensures
            r == self.spec_short_gi_80mhz(),
    {
        (self.0 >> 5) & 1 == 1
    }

    /// Returns a copy with the field replaced by `value`.
    pub fn with_short_gi_80mhz(self, value: bool) -> (r: Self)
        ensures
            r.0 == set_bits_u32(self.0, 5, 0x1, (if value {
                1u32
            } else {
                0u32
            })),
            r.spec_short_gi_80mhz() == value,
            r.spec_maximum_mpdu_length() == self.spec_maximum_mpdu_length(),
            r.spec_supported_channel_width_set() == self.spec_supported_channel_width_set(),
            r.spec_rx_ldpc() == self.spec_rx_ldpc(),
            r.spec_short_gi_160mhz() == self.spec_short_gi_160mhz(),
            r.spec_tx_stbc() == self.spec_tx_stbc(),
            r.spec_rx_stbc() == self.spec_rx_stbc(),
            r.spec_su_beamformer_capable() == self.spec_su_beamformer_capable(),
            r.spec_su_beamformee_capable() == self.spec_su_beamformee_capable(),
            r.spec_beamformee_sts_capability() == self.spec_beamformee_sts_capability(),
            r.spec_number_of_sounding_dimensions() == self.spec_number_of_sounding_dimensions(),
            r.spec_mu_beamformer_capable() == self.spec_mu_beamformer_capable(),
            r.spec_mu_beamformee_capable() == self.spec_mu_beamformee_capable(),
            r.spec_txop_ps() == self.spec_txop_ps(),
            r.spec_htc_vht_capable() == self.spec_htc_vht_capable(),
            r.spec_maximum_ampdu_length_exponent() == self.spec_maximum_ampdu_length_exponent(),
            r.spec_vht_link_adaptation_capable() == self.spec_vht_link_adaptation_capable(),
            r.spec_rx_antenna_pattern_consistency() == self.spec_rx_antenna_pattern_consistency(),
            r.spec_tx_antenna_pattern_consistency() == self.spec_tx_antenna_pattern_consistency(),
            r.spec_extended_nss_bw_support() == self.spec_extended_nss_bw_support(),
    {
        let v: u32 = if value {
            1
        } else {
            0
        };
        proof {
            Self::lemma_masks_fit();
            lemma_set_bits_u32(self.0, 5, 0x1, v, 5, 0x1);
            lemma_set_bits_u32(self.0, 5, 0x1, v, 0, 0x3);
            lemma_set_bits_u32(self.0, 5, 0x1, v, 2, 0x3);
            lemma_set_bits_u32(self.0, 5, 0x1, v, 4, 0x1);
            lemma_set_bits_u32(self.0, 5, 0x1, v, 6, 0x1);
            lemma_set_bits_u32(self.0, 5, 0x1, v, 7, 0x1);
            lemma_set_bits_u32(self.0, 5, 0x1, v, 8, 0x7);
            lemma_set_bits_u32(self.0, 5, 0x1, v, 11, 0x1);
            lemma_set_bits_u32(self.0, 5, 0x1, v, 12, 0x1);
            lemma_set_bits_u32(self.0, 5, 0x1, v, 13, 0x7);
            lemma_set_bits_u32(self.0, 5, 0x1, v, 16, 0x7);
            lemma_set_bits_u32(self.0, 5, 0x1, v, 19, 0x1);
            lemma_set_bits_u32(self.0, 5, 0x1, v, 20, 0x1);
            lemma_set_bits_u32(self.0, 5, 0x1, v, 21, 0x1);
            lemma_set_bits_u32(self.0, 5, 0x1, v, 22, 0x1);
            lemma_set_bits_u32(self.0, 5, 0x1, v, 23, 0x7);
            lemma_set_bits_u32(self.0, 5, 0x1, v, 26, 0x3);
            lemma_set_bits_u32(self.0, 5, 0x1, v, 28, 0x1);
            lemma_set_bits_u32(self.0, 5, 0x1, v, 29, 0x1);
            lemma_set_bits_u32(self.0, 5, 0x1, v, 30, 0x3);
        }
        Self((self.0 & !(0x1u32 << 5u32)) | ((v & 0x1) << 5u32))
    }

    /// Short GI is supported for 160 and 80+80 MHz.
    pub open spec fn spec_short_gi_160mhz(self) -> bool {
        get_bits_u32(self.0, 6, 1) == 1
    }

    /// Short GI is supported for 160 and 80+80 MHz.
    pub fn short_gi_160mhz(&self) -> (r: bool)
        ensures
            r == self.spec_short_gi_160mhz(),
    {
        (self.0 >> 6) & 1 == 1
    }

    /// Returns a copy with the field replaced by `value`.
    pub fn with_short_gi_160mhz(self, value: bool) -> (r: Self)
        ensures
            r.0 == set_bits_u32(self.0, 6, 0x1, (if value {
                1u32
            } else {
                0u32
            })),
            r.spec_short_gi_160mhz() == value,
            r.spec_maximum_mpdu_length() == self.spec_maximum_mpdu_length(),
            r.spec_supported_channel_width_set() == self.spec_supported_channel_width_set(),
            r.spec_rx_ldpc() == self.spec_rx_ldpc(),
            r.spec_short_gi_80mhz() == self.spec_short_gi_80mhz(),
            r.spec_tx_stbc() == self.spec_tx_stbc(),
            r.spec_rx_stbc() == self.spec_rx_stbc(),
            r.spec_su_beamformer_capable() == self.spec_su_beamformer_capable(),
            r.spec_su_beamformee_capable() == self.spec_su_beamformee_capable(),
            r.spec_beamformee_sts_capability() == self.spec_beamformee_sts_capability(),
            r.spec_number_of_sounding_dimensions() == self.spec_number_of_sounding_dimensions(),
            r.spec_mu_beamformer_capable() == self.spec_mu_beamformer_capable(),
            r.spec_mu_beamformee_capable() == self.spec_mu_beamformee_capable(),
            r.spec_txop_ps() == self.spec_txop_ps(),
            r.spec_htc_vht_capable() == self.spec_htc_vht_capable(),
            r.spec_maximum_ampdu_length_exponent() == self.spec_maximum_ampdu_length_exponent(),
            r.spec_vht_link_adaptation_capable() == self.spec_vht_link_adaptation_capable(),
            r.spec_rx_antenna_pattern_consistency() == self.spec_rx_antenna_pattern_consistency(),
            r.spec_tx_antenna_pattern_consistency() == self.spec_tx_antenna_pattern_consistency(),
            r.spec_extended_nss_bw_support() == self.spec_extended_nss_bw_support(),
    {
        let v: u32 = if value {
            1
        } else {
            0
        };
        proof {
            Self::lemma_masks_fit();
            lemma_set_bits_u32(self.0, 6, 0x1, v, 6, 0x1);
            lemma_set_bits_u32(self.0, 6, 0x1, v, 0, 0x3);
            lemma_set_bits_u32(self.0, 6, 0x1, v, 2, 0x3);
            lemma_set_bits_u32(self.0, 6, 0x1, v, 4, 0x1);
            lemma_set_bits_u32(self.0, 6, 0x1, v, 5, 0x1);
            lemma_set_bits_u32(self.0, 6, 0x1, v, 7, 0x1);
            lemma_set_bits_u32(self.0, 6, 0x1, v, 8, 0x7);
            lemma_set_bits_u32(self.0, 6, 0x1, v, 11, 0x1);
            lemma_set_bits_u32(self.0, 6, 0x1, v, 12, 0x1);
            lemma_set_bits_u32(self.0, 6, 0x1, v, 13, 0x7);
            lemma_set_bits_u32(self.0, 6, 0x1, v, 16, 0x7);
            lemma_set_bits_u32(self.0, 6, 0x1, v, 19, 0x1);
            lemma_set_bits_u32(self.0, 6, 0x1, v, 20, 0x1);
            lemma_set_bits_u32(self.0, 6, 0x1, v, 21, 0x1);
            lemma_set_bits_u32(self.0, 6, 0x1, v, 22, 0x1);
            lemma_set_bits_u32(self.0, 6, 0x1, v, 23, 0x7);
            lemma_set_bits_u32(self.0, 6, 0x1, v, 26, 0x3);
            lemma_set_bits_u32(self.0, 6, 0x1, v, 28, 0x1);
            lemma_set_bits_u32(self.0, 6, 0x1, v, 29, 0x1);
            lemma_set_bits_u32(self.0, 6, 0x1, v, 30, 0x3);
        }
        Self((self.0 & !(0x1u32 << 6u32)) | ((v & 0x1) << 6u32))
    }

    /// STBC can be transmitted.
    pub open spec fn spec_tx_stbc(self) -> bool {
        get_bits_u32(self.0, 7, 1) == 1
    }

    /// STBC can be transmitted.
    pub fn tx_stbc(&self) -> (r: bool)
        ensures
            r == self.spec_tx_stbc(),
    {
        (self.0 >> 7) & 1 == 1
    }

    /// Returns a copy with the field replaced by `value`.
    pub fn with_tx_stbc(self, value: bool) -> (r: Self)
        ensures
            r.0 == set_bits_u32(self.0, 7, 0x1, (if value {
                1u32
            } else {
                0u32
            })),
            r.spec_tx_stbc() == value,
            r.spec_maximum_mpdu_length() == self.spec_maximum_mpdu_length(),
            r.spec_supported_channel_width_set() == self.spec_supported_channel_width_set(),
            r.spec_rx_ldpc() == self.spec_rx_ldpc(),
            r.spec_short_gi_80mhz() == self.spec_short_gi_80mhz(),
            r.spec_short_gi_160mhz() == self.spec_short_gi_160mhz(),
            r.spec_rx_stbc() == self.spec_rx_stbc(),
            r.spec_su_beamformer_capable() == self.spec_su_beamformer_capable(),
            r.spec_su_beamformee_capable() == self.spec_su_beamformee_capable(),
            r.spec_beamformee_sts_capability() == self.spec_beamformee_sts_capability(),
            r.spec_number_of_sounding_dimensions() == self.spec_number_of_sounding_dimensions(),
            r.spec_mu_beamformer_capable() == self.spec_mu_beamformer_capable(),
            r.spec_mu_beamformee_capable() == self.spec_mu_beamformee_capable(),
            r.spec_txop_ps() == self.spec_txop_ps(),
            r.spec_htc_vht_capable() == self.spec_htc_vht_capable(),
            r.spec_maximum_ampdu_length_exponent() == self.spec_maximum_ampdu_length_exponent(),
            r.spec_vht_link_adaptation_capable() == self.spec_vht_link_adaptation_capable(),
            r.spec_rx_antenna_pattern_consistency() == self.spec_rx_antenna_pattern_consistency(),
            r.spec_tx_antenna_pattern_consistency() == self.spec_tx_antenna_pattern_consistency(),
            r.spec_extended_nss_bw_support() == self.spec_extended_nss_bw_support(),
    {
        let v: u32 = if value {
            1
        } else {
            0
        };
        proof {
            Self::lemma_masks_fit();
            lemma_set_bits_u32(self.0, 7, 0x1, v, 7, 0x1);
            lemma_set_bits_u32(self.0, 7, 0x1, v, 0, 0x3);
            lemma_set_bits_u32(self.0, 7, 0x1, v, 2, 0x3);
            lemma_set_bits_u32(self.0, 7, 0x1, v, 4, 0x1);
            lemma_set_bits_u32(self.0, 7, 0x1, v, 5, 0x1);
            lemma_set_bits_u32(self.0, 7, 0x1, v, 6, 0x1);
            lemma_set_bits_u32(self.0, 7, 0x1, v, 8, 0x7);
            lemma_set_bits_u32(self.0, 7, 0x1, v, 11, 0x1);
            lemma_set_bits_u32(self.0, 7, 0x1, v, 12, 0x1);
            lemma_set_bits_u32(self.0, 7, 0x1, v, 13, 0x7);
            lemma_set_bits_u32(self.0, 7, 0x1, v, 16, 0x7);
            lemma_set_bits_u32(self.0, 7, 0x1, v, 19, 0x1);
            lemma_set_bits_u32(self.0, 7, 0x1, v, 20, 0x1);
            lemma_set_bits_u32(self.0, 7, 0x1, v, 21, 0x1);
            lemma_set_bits_u32(self.0, 7, 0x1, v, 22, 0x1);
            lemma_set_bits_u32(self.0, 7, 0x1, v, 23, 0x7);
            lemma_set_bits_u32(self.0, 7, 0x1, v, 26, 0x3);
            lemma_set_bits_u32(self.0, 7, 0x1, v, 28, 0x1);
            lemma_set_bits_u32(self.0, 7, 0x1, v, 29, 0x1);
            lemma_set_bits_u32(self.0, 7, 0x1, v, 30, 0x3);
        }
        Self((self.0 & !(0x1u32 << 7u32)) | ((v & 0x1) << 7u32))
    }

    /// The number of spatial streams in which STBC can be received.
    pub open spec fn spec_rx_stbc(self) -> u8 {
        get_bits_u32(self.0, 8, 0x7) as u8
    }

    /// The number of spatial streams in which STBC can be received.
    pub fn rx_stbc(&self) -> (r: u8)
        ensures
            r == self.spec_rx_stbc(),
    {
        ((self.0 >> 8) & 0x7) as u8
    }

    /// Returns a copy with the field replaced by `value`.
    pub fn with_rx_stbc(self, value: u8) -> (r: Self)
        ensures
            r.0 == set_bits_u32(self.0, 8, 0x7, (value as u32)),
            r.spec_rx_stbc() == ((value as u32) & 0x7) as u8,
            r.spec_maximum_mpdu_length() == self.spec_maximum_mpdu_length(),
            r.spec_supported_channel_width_set() == self.spec_supported_channel_width_set(),
            r.spec_rx_ldpc() == self.spec_rx_ldpc(),
            r.spec_short_gi_80mhz() == self.spec_short_gi_80mhz(),
            r.spec_short_gi_160mhz() == self.spec_short_gi_160mhz(),
            r.spec_tx_stbc() == self.spec_tx_stbc(),
            r.spec_su_beamformer_capable() == self.spec_su_beamformer_capable(),
            r.spec_su_beamformee_capable() == self.spec_su_beamformee_capable(),
            r.spec_beamformee_sts_capability() == self.spec_beamformee_sts_capability(),
            r.spec_number_of_sounding_dimensions() == self.spec_number_of_sounding_dimensions(),
            r.spec_mu_beamformer_capable() == self.spec_mu_beamformer_capable(),
            r.spec_mu_beamformee_capable() == self.spec_mu_beamformee_capable(),
            r.spec_txop_ps() == self.spec_txop_ps(),
            r.spec_htc_vht_capable() == self.spec_htc_vht_capable(),
            r.spec_maximum_ampdu_length_exponent() == self.spec_maximum_ampdu_length_exponent(),
            r.spec_vht_link_adaptation_capable() == self.spec_vht_link_adaptation_capable(),
            r.spec_rx_antenna_pattern_consistency() == self.spec_rx_antenna_pattern_consistency(),
            r.spec_tx_antenna_pattern_consistency() == self.spec_tx_antenna_pattern_consistency(),
            r.spec_extended_nss_bw_support() == self.spec_extended_nss_bw_support(),
    {
        let v: u32 = value as u32;
        proof {
            Self::lemma_masks_fit();
            lemma_set_bits_u32(self.0, 8, 0x7, v, 8, 0x7);
            lemma_set_bits_u32(self.0, 8, 0x7, v, 0, 0x3);
            lemma_set_bits_u32(self.0, 8, 0x7, v, 2, 0x3);
            lemma_set_bits_u32(self.0, 8, 0x7, v, 4, 0x1);
            lemma_set_bits_u32(self.0, 8, 0x7, v, 5, 0x1);
            lemma_set_bits_u32(self.0, 8, 0x7, v, 6, 0x1);
            lemma_set_bits_u32(self.0, 8, 0x7, v, 7, 0x1);
            lemma_set_bits_u32(self.0, 8, 0x7, v, 11, 0x1);
            lemma_set_bits_u32(self.0, 8, 0x7, v, 12, 0x1);
            lemma_set_bits_u32(self.0, 8, 0x7, v, 13, 0x7);
            lemma_set_bits_u32(self.0, 8, 0x7, v, 16, 0x7);
            lemma_set_bits_u32(self.0, 8, 0x7, v, 19, 0x1);
            lemma_set_bits_u32(self.0, 8, 0x7, v, 20, 0x1);
            lemma_set_bits_u32(self.0, 8, 0x7, v, 21, 0x1);
            lemma_set_bits_u32(self.0, 8, 0x7, v, 22, 0x1);
            lemma_set_bits_u32(self.0, 8, 0x7, v, 23, 0x7);
            lemma_set_bits_u32(self.0, 8, 0x7, v, 26, 0x3);
            lemma_set_bits_u32(self.0, 8, 0x7, v, 28, 0x1);
            lemma_set_bits_u32(self.0, 8, 0x7, v, 29, 0x1);
            lemma_set_bits_u32(self.0, 8, 0x7, v, 30, 0x3);
        }
        Self((self.0 & !(0x7u32 << 8u32)) | ((v & 0x7) << 8u32))
    }

    /// The STA can act as a single user beamformer.
    pub open spec fn spec_su_beamformer_capable(self) -> bool {
        get_bits_u32(self.0, 11, 1) == 1
    }

    /// The STA can act as a single user beamformer.
    pub fn su_beamformer_capable(&self) -> (r: bool)
        ensures
            r == self.spec_su_beamformer_capable(),
    {
        (self.0 >> 11) & 1 == 1
    }

    /// Returns a copy with the field replaced by `value`.
    pub fn with_su_beamformer_capable(self, value: bool) -> (r: Self)
        ensures
            r.0 == set_bits_u32(self.0, 11, 0x1, (if value {
                1u32
            } else {
                0u32
            })),
            r.spec_su_beamformer_capable() == value,
            r.spec_maximum_mpdu_length() == self.spec_maximum_mpdu_length(),
            r.spec_supported_channel_width_set() == self.spec_supported_channel_width_set(),
            r.spec_rx_ldpc() == self.spec_rx_ldpc(),
            r.spec_short_gi_80mhz() == self.spec_short_gi_80mhz(),
            r.spec_short_gi_160mhz() == self.spec_short_gi_160mhz(),
            r.spec_tx_stbc() == self.spec_tx_stbc(),
            r.spec_rx_stbc() == self.spec_rx_stbc(),
            r.spec_su_beamformee_capable() == self.spec_su_beamformee_capable(),
            r.spec_beamformee_sts_capability() == self.spec_beamformee_sts_capability(),
            r.spec_number_of_sounding_dimensions() == self.spec_number_of_sounding_dimensions(),
            r.spec_mu_beamformer_capable() == self.spec_mu_beamformer_capable(),
            r.spec_mu_beamformee_capable() == self.spec_mu_beamformee_capable(),
            r.spec_txop_ps() == self.spec_txop_ps(),
            r.spec_htc_vht_capable() == self.spec_htc_vht_capable(),
            r.spec_maximum_ampdu_length_exponent() == self.spec_maximum_ampdu_length_exponent(),
            r.spec_vht_link_adaptation_capable() == self.spec_vht_link_adaptation_capable(),
            r.spec_rx_antenna_pattern_consistency() == self.spec_rx_antenna_pattern_consistency(),
            r.spec_tx_antenna_pattern_consistency() == self.spec_tx_antenna_pattern_consistency(),
            r.spec_extended_nss_bw_support() == self.spec_extended_nss_bw_support(),
    {
        let v: u32 = if value {
            1
        } else {
            0
        };
        proof {
            Self::lemma_masks_fit();
            lemma_set_bits_u32(self.0, 11, 0x1, v, 11, 0x1);
            lemma_set_bits_u32(self.0, 11, 0x1, v, 0, 0x3);
            lemma_set_bits_u32(self.0, 11, 0x1, v, 2, 0x3);
            lemma_set_bits_u32(self.0, 11, 0x1, v, 4, 0x1);
            lemma_set_bits_u32(self.0, 11, 0x1, v, 5, 0x1);
            lemma_set_bits_u32(self.0, 11, 0x1, v, 6, 0x1);
            lemma_set_bits_u32(self.0, 11, 0x1, v, 7, 0x1);
            lemma_set_bits_u32(self.0, 11, 0x1, v, 8, 0x7);
            lemma_set_bits_u32(self.0, 11, 0x1, v, 12, 0x1);
            lemma_set_bits_u32(self.0, 11, 0x1, v, 13, 0x7);
            lemma_set_bits_u32(self.0, 11, 0x1, v, 16, 0x7);
            lemma_set_bits_u32(self.0, 11, 0x1, v, 19, 0x1);
            lemma_set_bits_u32(self.0, 11, 0x1, v, 20, 0x1);
            lemma_set_bits_u32(self.0, 11, 0x1, v, 21, 0x1);
            lemma_set_bits_u32(self.0, 11, 0x1, v, 22, 0x1);
            lemma_set_bits_u32(self.0, 11, 0x1, v, 23, 0x7);
            lemma_set_bits_u32(self.0, 11, 0x1, v, 26, 0x3);
            lemma_set_bits_u32(self.0, 11, 0x1, v, 28, 0x1);
            lemma_set_bits_u32(self.0, 11, 0x1, v, 29, 0x1);
            lemma_set_bits_u32(self.0, 11, 0x1, v, 30, 0x3);
        }
        Self((self.0 & !(0x1u32 << 11u32)) | ((v & 0x1) << 11u32))
    }

    /// The STA can act as a single user beamformee.
    pub open spec fn spec_su_beamformee_capable(self) -> bool {
        get_bits_u32(self.0, 12, 1) == 1
    }

    /// The STA can act as a single user beamformee.
    pub fn su_beamformee_capable(&self) -> (r: bool)
        ensures
            r == self.spec_su_beamformee_capable(),
    {
        (self.0 >> 12) & 1 == 1
    }

    /// Returns a copy with the field replaced by `value`.
    pub fn with_su_beamformee_capable(self, value: bool) -> (r: Self)
        ensures
            r.0 == set_bits_u32(self.0, 12, 0x1, (if value {
                1u32
            } else {
                0u32
            })),
            r.spec_su_beamformee_capable() == value,
            r.spec_maximum_mpdu_length() == self.spec_maximum_mpdu_length(),
            r.spec_supported_channel_width_set() == self.spec_supported_channel_width_set(),
            r.spec_rx_ldpc() == self.spec_rx_ldpc(),
            r.spec_short_gi_80mhz() == self.spec_short_gi_80mhz(),
            r.spec_short_gi_160mhz() == self.spec_short_gi_160mhz(),
            r.spec_tx_stbc() == self.spec_tx_stbc(),
            r.spec_rx_stbc() == self.spec_rx_stbc(),
            r.spec_su_beamformer_capable() == self.spec_su_beamformer_capable(),
            r.spec_beamformee_sts_capability() == self.spec_beamformee_sts_capability(),
            r.spec_number_of_sounding_dimensions() == self.spec_number_of_sounding_dimensions(),
            r.spec_mu_beamformer_capable() == self.spec_mu_beamformer_capable(),
            r.spec_mu_beamformee_capable() == self.spec_mu_beamformee_capable(),
            r.spec_txop_ps() == self.spec_txop_ps(),
            r.spec_htc_vht_capable() == self.spec_htc_vht_capable(),
            r.spec_maximum_ampdu_length_exponent() == self.spec_maximum_ampdu_length_exponent(),
            r.spec_vht_link_adaptation_capable() == self.spec_vht_link_adaptation_capable(),
            r.spec_rx_antenna_pattern_consistency() == self.spec_rx_antenna_pattern_consistency(),
            r.spec_tx_antenna_pattern_consistency() == self.spec_tx_antenna_pattern_consistency(),
            r.spec_extended_nss_bw_support() == self.spec_extended_nss_bw_support(),
    {
        let v: u32 = if value {
            1
        } else {
            0
        };
        proof {
            Self::lemma_masks_fit();
            lemma_set_bits_u32(self.0, 12, 0x1, v, 12, 0x1);
            lemma_set_bits_u32(self.0, 12, 0x1, v, 0, 0x3);
            lemma_set_bits_u32(self.0, 12, 0x1, v, 2, 0x3);
            lemma_set_bits_u32(self.0, 12, 0x1, v, 4, 0x1);
            lemma_set_bits_u32(self.0, 12, 0x1, v, 5, 0x1);
            lemma_set_bits_u32(self.0, 12, 0x1, v, 6, 0x1);
            lemma_set_bits_u32(self.0, 12, 0x1, v, 7, 0x1);
            lemma_set_bits_u32(self.0, 12, 0x1, v, 8, 0x7);
            lemma_set_bits_u32(self.0, 12, 0x1, v, 11, 0x1);
            lemma_set_bits_u32(self.0, 12, 0x1, v, 13, 0x7);
            lemma_set_bits_u32(self.0, 12, 0x1, v, 16, 0x7);
            lemma_set_bits_u32(self.0, 12, 0x1, v, 19, 0x1);
            lemma_set_bits_u32(self.0, 12, 0x1, v, 20, 0x1);
            lemma_set_bits_u32(self.0, 12, 0x1, v, 21, 0x1);
            lemma_set_bits_u32(self.0, 12, 0x1, v, 22, 0x1);
            lemma_set_bits_u32(self.0, 12, 0x1, v, 23, 0x7);
            lemma_set_bits_u32(self.0, 12, 0x1, v, 26, 0x3);
            lemma_set_bits_u32(self.0, 12, 0x1, v, 28, 0x1);
            lemma_set_bits_u32(self.0, 12, 0x1, v, 29, 0x1);
            lemma_set_bits_u32(self.0, 12, 0x1, v, 30, 0x3);
        }
        Self((self.0 & !(0x1u32 << 12u32)) | ((v & 0x1) << 12u32))
    }

    /// The maximum number of space-time streams the STA can receive as beamformee.
    pub open spec fn spec_beamformee_sts_capability(self) -> u8 {
        get_bits_u32(self.0, 13, 0x7) as u8
    }

    /// The maximum number of space-time streams the STA can receive as beamformee.
    pub fn beamformee_sts_capability(&self) -> (r: u8)
        ensures
            r == self.spec_beamformee_sts_capability(),
    {
        ((self.0 >> 13) & 0x7) as u8
    }

    /// Returns a copy with the field replaced by `value`.
    pub fn with_beamformee_sts_capability(self, value: u8) -> (r: Self)
        ensures
            r.0 == set_bits_u32(self.0, 13, 0x7, (value as u32)),
            r.spec_beamformee_sts_capability() == ((value as u32) & 0x7) as u8,
            r.spec_maximum_mpdu_length() == self.spec_maximum_mpdu_length(),
            r.spec_supported_channel_width_set() == self.spec_supported_channel_width_set(),
            r.spec_rx_ldpc() == self.spec_rx_ldpc(),
            r.spec_short_gi_80mhz() == self.spec_short_gi_80mhz(),
            r.spec_short_gi_160mhz() == self.spec_short_gi_160mhz(),
            r.spec_tx_stbc() == self.spec_tx_stbc(),
            r.spec_rx_stbc() == self.spec_rx_stbc(),
            r.spec_su_beamformer_capable() == self.spec_su_beamformer_capable(),
            r.spec_su_beamformee_capable() == self.spec_su_beamformee_capable(),
            r.spec_number_of_sounding_dimensions() == self.spec_number_of_sounding_dimensions(),
            r.spec_mu_beamformer_capable() == self.spec_mu_beamformer_capable(),
            r.spec_mu_beamformee_capable() == self.spec_mu_beamformee_capable(),
            r.spec_txop_ps() == self.spec_txop_ps(),
            r.spec_htc_vht_capable() == self.spec_htc_vht_capable(),
            r.spec_maximum_ampdu_length_exponent() == self.spec_maximum_ampdu_length_exponent(),
            r.spec_vht_link_adaptation_capable() == self.spec_vht_link_adaptation_capable(),
            r.spec_rx_antenna_pattern_consistency() == self.spec_rx_antenna_pattern_consistency(),
            r.spec_tx_antenna_pattern_consistency() == self.spec_tx_antenna_pattern_consistency(),
            r.spec_extended_nss_bw_support() == self.spec_extended_nss_bw_support(),
    {
        let v: u32 = value as u32;
        proof {
            Self::lemma_masks_fit();
            lemma_set_bits_u32(self.0, 13, 0x7, v, 13, 0x7);
            lemma_set_bits_u32(self.0, 13, 0x7, v, 0, 0x3);
            lemma_set_bits_u32(self.0, 13, 0x7, v, 2, 0x3);
            lemma_set_bits_u32(self.0, 13, 0x7, v, 4, 0x1);
            lemma_set_bits_u32(self.0, 13, 0x7, v, 5, 0x1);
            lemma_set_bits_u32(self.0, 13, 0x7, v, 6, 0x1);
            lemma_set_bits_u32(self.0, 13, 0x7, v, 7, 0x1);
            lemma_set_bits_u32(self.0, 13, 0x7, v, 8, 0x7);
            lemma_set_bits_u32(self.0, 13, 0x7, v, 11, 0x1);
            lemma_set_bits_u32(self.0, 13, 0x7, v, 12, 0x1);
            lemma_set_bits_u32(self.0, 13, 0x7, v, 16, 0x7);
            lemma_set_bits_u32(self.0, 13, 0x7, v, 19, 0x1);
            lemma_set_bits_u32(self.0, 13, 0x7, v, 20, 0x1);
            lemma_set_bits_u32(self.0, 13, 0x7, v, 21, 0x1);
            lemma_set_bits_u32(self.0, 13, 0x7, v, 22, 0x1);
            lemma_set_bits_u32(self.0, 13, 0x7, v, 23, 0x7);
            lemma_set_bits_u32(self.0, 13, 0x7, v, 26, 0x3);
            lemma_set_bits_u32(self.0, 13, 0x7, v, 28, 0x1);
            lemma_set_bits_u32(self.0, 13, 0x7, v, 29, 0x1);
            lemma_set_bits_u32(self.0, 13, 0x7, v, 30, 0x3);
        }
        Self((self.0 & !(0x7u32 << 13u32)) | ((v & 0x7) << 13u32))
    }

    /// The number of sounding dimensions.
    pub open spec fn spec_number_of_sounding_dimensions(self) -> u8 {
        get_bits_u32(self.0, 16, 0x7) as u8
    }

    /// The number of sounding dimensions.
    pub fn number_of_sounding_dimensions(&self) -> (r: u8)
        ensures
            r == self.spec_number_of_sounding_dimensions(),
    {
        ((self.0 >> 16) & 0x7) as u8
    }

    /// Returns a copy with the field replaced by `value`.
    pub fn with_number_of_sounding_dimensions(self, value: u8) -> (r: Self)
        ensures
            r.0 == set_bits_u32(self.0, 16, 0x7, (value as u32)),
            r.spec_number_of_sounding_dimensions() == ((value as u32) & 0x7) as u8,
            r.spec_maximum_mpdu_length() == self.spec_maximum_mpdu_length(),
            r.spec_supported_channel_width_set() == self.spec_supported_channel_width_set(),
            r.spec_rx_ldpc() == self.spec_rx_ldpc(),
            r.spec_short_gi_80mhz() == self.spec_short_gi_80mhz(),
            r.spec_short_gi_160mhz() == self.spec_short_gi_160mhz(),
            r.spec_tx_stbc() == self.spec_tx_stbc(),
            r.spec_rx_stbc() == self.spec_rx_stbc(),
            r.spec_su_beamformer_capable() == self.spec_su_beamformer_capable(),
            r.spec_su_beamformee_capable() == self.spec_su_beamformee_capable(),
            r.spec_beamformee_sts_capability() == self.spec_beamformee_sts_capability(),
            r.spec_mu_beamformer_capable() == self.spec_mu_beamformer_capable(),
            r.spec_mu_beamformee_capable() == self.spec_mu_beamformee_capable(),
            r.spec_txop_ps() == self.spec_txop_ps(),
            r.spec_htc_vht_capable() == self.spec_htc_vht_capable(),
            r.spec_maximum_ampdu_length_exponent() == self.spec_maximum_ampdu_length_exponent(),
            r.spec_vht_link_adaptation_capable() == self.spec_vht_link_adaptation_capable(),
            r.spec_rx_antenna_pattern_consistency() == self.spec_rx_antenna_pattern_consistency(),
            r.spec_tx_antenna_pattern_consistency() == self.spec_tx_antenna_pattern_consistency(),
            r.spec_extended_nss_bw_support() == self.spec_extended_nss_bw_support(),
    {
        let v: u32 = value as u32;
        proof {
            Self::lemma_masks_fit();
            lemma_set_bits_u32(self.0, 16, 0x7, v, 16, 0x7);
            lemma_set_bits_u32(self.0, 16, 0x7, v, 0, 0x3);
            lemma_set_bits_u32(self.0, 16, 0x7, v, 2, 0x3);
            lemma_set_bits_u32(self.0, 16, 0x7, v, 4, 0x1);
            lemma_set_bits_u32(self.0, 16, 0x7, v, 5, 0x1);
            lemma_set_bits_u32(self.0, 16, 0x7, v, 6, 0x1);
            lemma_set_bits_u32(self.0, 16, 0x7, v, 7, 0x1);
            lemma_set_bits_u32(self.0, 16, 0x7, v, 8, 0x7);
            lemma_set_bits_u32(self.0, 16, 0x7, v, 11, 0x1);
            lemma_set_bits_u32(self.0, 16, 0x7, v, 12, 0x1);
            lemma_set_bits_u32(self.0, 16, 0x7, v, 13, 0x7);
            lemma_set_bits_u32(self.0, 16, 0x7, v, 19, 0x1);
            lemma_set_bits_u32(self.0, 16, 0x7, v, 20, 0x1);
            lemma_set_bits_u32(self.0, 16, 0x7, v, 21, 0x1);
            lemma_set_bits_u32(self.0, 16, 0x7, v, 22, 0x1);
            lemma_set_bits_u32(self.0, 16, 0x7, v, 23, 0x7);
            lemma_set_bits_u32(self.0, 16, 0x7, v, 26, 0x3);
            lemma_set_bits_u32(self.0, 16, 0x7, v, 28, 0x1);
            lemma_set_bits_u32(self.0, 16, 0x7, v, 29, 0x1);
            lemma_set_bits_u32(self.0, 16, 0x7, v, 30, 0x3);
        }
        Self((self.0 & !(0x7u32 << 16u32)) | ((v & 0x7) << 16u32))
    }

    /// The STA can act as a multi user beamformer.
    pub open spec fn spec_mu_beamformer_capable(self) -> bool {
        get_bits_u32(self.0, 19, 1) == 1
    }

    /// The STA can act as a multi user beamformer.
    pub fn mu_beamformer_capable(&self) -> (r: bool)
        ensures
            r == self.spec_mu_beamformer_capable(),
    {
        (self.0 >> 19) & 1 == 1
    }

    /// Returns a copy with the field replaced by `value`.
    pub fn with_mu_beamformer_capable(self, value: bool) -> (r: Self)
        ensures
            r.0 == set_bits_u32(self.0, 19, 0x1, (if value {
                1u32
            } else {
                0u32
            })),
            r.spec_mu_beamformer_capable() == value,
            r.spec_maximum_mpdu_length() == self.spec_maximum_mpdu_length(),
            r.spec_supported_channel_width_set() == self.spec_supported_channel_width_set(),
            r.spec_rx_ldpc() == self.spec_rx_ldpc(),
            r.spec_short_gi_80mhz() == self.spec_short_gi_80mhz(),
            r.spec_short_gi_160mhz() == self.spec_short_gi_160mhz(),
            r.spec_tx_stbc() == self.spec_tx_stbc(),
            r.spec_rx_stbc() == self.spec_rx_stbc(),
            r.spec_su_beamformer_capable() == self.spec_su_beamformer_capable(),
            r.spec_su_beamformee_capable() == self.spec_su_beamformee_capable(),
            r.spec_beamformee_sts_capability() == self.spec_beamformee_sts_capability(),
            r.spec_number_of_sounding_dimensions() == self.spec_number_of_sounding_dimensions(),
            r.spec_mu_beamformee_capable() == self.spec_mu_beamformee_capable(),
            r.spec_txop_ps() == self.spec_txop_ps(),
            r.spec_htc_vht_capable() == self.spec_htc_vht_capable(),
            r.spec_maximum_ampdu_length_exponent() == self.spec_maximum_ampdu_length_exponent(),
            r.spec_vht_link_adaptation_capable() == self.spec_vht_link_adaptation_capable(),
            r.spec_rx_antenna_pattern_consistency() == self.spec_rx_antenna_pattern_consistency(),
            r.spec_tx_antenna_pattern_consistency() == self.spec_tx_antenna_pattern_consistency(),
            r.spec_extended_nss_bw_support() == self.spec_extended_nss_bw_support(),
    {
        let v: u32 = if value {
            1
        } else {
            0
        };
        proof {
            Self::lemma_masks_fit();
            lemma_set_bits_u32(self.0, 19, 0x1, v, 19, 0x1);
            lemma_set_bits_u32(self.0, 19, 0x1, v, 0, 0x3);
            lemma_set_bits_u32(self.0, 19, 0x1, v, 2, 0x3);
            lemma_set_bits_u32(self.0, 19, 0x1, v, 4, 0x1);
            lemma_set_bits_u32(self.0, 19, 0x1, v, 5, 0x1);
            lemma_set_bits_u32(self.0, 19, 0x1, v, 6, 0x1);
            lemma_set_bits_u32(self.0, 19, 0x1, v, 7, 0x1);
            lemma_set_bits_u32(self.0, 19, 0x1, v, 8, 0x7);
            lemma_set_bits_u32(self.0, 19, 0x1, v, 11, 0x1);
            lemma_set_bits_u32(self.0, 19, 0x1, v, 12, 0x1);
            lemma_set_bits_u32(self.0, 19, 0x1, v, 13, 0x7);
            lemma_set_bits_u32(self.0, 19, 0x1, v, 16, 0x7);
            lemma_set_bits_u32(self.0, 19, 0x1, v, 20, 0x1);
            lemma_set_bits_u32(self.0, 19, 0x1, v, 21, 0x1);
            lemma_set_bits_u32(self.0, 19, 0x1, v, 22, 0x1);
            lemma_set_bits_u32(self.0, 19, 0x1, v, 23, 0x7);
            lemma_set_bits_u32(self.0, 19, 0x1, v, 26, 0x3);
            lemma_set_bits_u32(self.0, 19, 0x1, v, 28, 0x1);
            lemma_set_bits_u32(self.0, 19, 0x1, v, 29, 0x1);
            lemma_set_bits_u32(self.0, 19, 0x1, v, 30, 0x3);
        }
        Self((self.0 & !(0x1u32 << 19u32)) | ((v & 0x1) << 19u32))
    }

    /// The STA can act as a multi user beamformee.
    pub open spec fn spec_mu_beamformee_capable(self) -> bool {
        get_bits_u32(self.0, 20, 1) == 1
    }

    /// The STA can act as a multi user beamformee.
    pub fn mu_beamformee_capable(&self) -> (r: bool)
        ensures
            r == self.spec_mu_beamformee_capable(),
    {
        (self.0 >> 20) & 1 == 1
    }

    /// Returns a copy with the field replaced by `value`.
    pub fn with_mu_beamformee_capable(self, value: bool) -> (r: Self)
        ensures
            r.0 == set_bits_u32(self.0, 20, 0x1, (if value {
                1u32
            } else {
                0u32
            })),
            r.spec_mu_beamformee_capable() == value,
            r.spec_maximum_mpdu_length() == self.spec_maximum_mpdu_length(),
            r.spec_supported_channel_width_set() == self.spec_supported_channel_width_set(),
            r.spec_rx_ldpc() == self.spec_rx_ldpc(),
            r.spec_short_gi_80mhz() == self.spec_short_gi_80mhz(),
            r.spec_short_gi_160mhz() == self.spec_short_gi_160mhz(),
            r.spec_tx_stbc() == self.spec_tx_stbc(),
            r.spec_rx_stbc() == self.spec_rx_stbc(),
            r.spec_su_beamformer_capable() == self.spec_su_beamformer_capable(),
            r.spec_su_beamformee_capable() == self.spec_su_beamformee_capable(),
            r.spec_beamformee_sts_capability() == self.spec_beamformee_sts_capability(),
            r.spec_number_of_sounding_dimensions() == self.spec_number_of_sounding_dimensions(),
            r.spec_mu_beamformer_capable() == self.spec_mu_beamformer_capable(),
            r.spec_txop_ps() == self.spec_txop_ps(),
            r.spec_htc_vht_capable() == self.spec_htc_vht_capable(),
            r.spec_maximum_ampdu_length_exponent() == self.spec_maximum_ampdu_length_exponent(),
            r.spec_vht_link_adaptation_capable() == self.spec_vht_link_adaptation_capable(),
            r.spec_rx_antenna_pattern_consistency() == self.spec_rx_antenna_pattern_consistency(),
            r.spec_tx_antenna_pattern_consistency() == self.spec_tx_antenna_pattern_consistency(),
            r.spec_extended_nss_bw_support() == self.spec_extended_nss_bw_support(),
    {
        let v: u32 = if value {
            1
        } else {
            0
        };
        proof {
            Self::lemma_masks_fit();
            lemma_set_bits_u32(self.0, 20, 0x1, v, 20, 0x1);
            lemma_set_bits_u32(self.0, 20, 0x1, v, 0, 0x3);
            lemma_set_bits_u32(self.0, 20, 0x1, v, 2, 0x3);
            lemma_set_bits_u32(self.0, 20, 0x1, v, 4, 0x1);
            lemma_set_bits_u32(self.0, 20, 0x1, v, 5, 0x1);
            lemma_set_bits_u32(self.0, 20, 0x1, v, 6, 0x1);
            lemma_set_bits_u32(self.0, 20, 0x1, v, 7, 0x1);
            lemma_set_bits_u32(self.0, 20, 0x1, v, 8, 0x7);
            lemma_set_bits_u32(self.0, 20, 0x1, v, 11, 0x1);
            lemma_set_bits_u32(self.0, 20, 0x1, v, 12, 0x1);
            lemma_set_bits_u32(self.0, 20, 0x1, v, 13, 0x7);
            lemma_set_bits_u32(self.0, 20, 0x1, v, 16, 0x7);
            lemma_set_bits_u32(self.0, 20, 0x1, v, 19, 0x1);
            lemma_set_bits_u32(self.0, 20, 0x1, v, 21, 0x1);
            lemma_set_bits_u32(self.0, 20, 0x1, v, 22, 0x1);
            lemma_set_bits_u32(self.0, 20, 0x1, v, 23, 0x7);
            lemma_set_bits_u32(self.0, 20, 0x1, v, 26, 0x3);
            lemma_set_bits_u32(self.0, 20, 0x1, v, 28, 0x1);
            lemma_set_bits_u32(self.0, 20, 0x1, v, 29, 0x1);
            lemma_set_bits_u32(self.0, 20, 0x1, v, 30, 0x3);
        }
        Self((self.0 & !(0x1u32 << 20u32)) | ((v & 0x1) << 20u32))
    }

    /// VHT TXOP power save is supported.
    pub open spec fn spec_txop_ps(self) -> bool {
        get_bits_u32(self.0, 21, 1) == 1
    }

    /// VHT TXOP power save is supported.
    pub fn txop_ps(&self) -> (r: bool)
        ensures
            r == self.spec_txop_ps(),
    {
        (self.0 >> 21) & 1 == 1
    }

    /// Returns a copy with the field replaced by `value`.
    pub fn with_txop_ps(self, value: bool) -> (r: Self)
        ensures
            r.0 == set_bits_u32(self.0, 21, 0x1, (if value {
                1u32
            } else {
                0u32
            })),
            r.spec_txop_ps() == value,
            r.spec_maximum_mpdu_length() == self.spec_maximum_mpdu_length(),
            r.spec_supported_channel_width_set() == self.spec_supported_channel_width_set(),
            r.spec_rx_ldpc() == self.spec_rx_ldpc(),
            r.spec_short_gi_80mhz() == self.spec_short_gi_80mhz(),
            r.spec_short_gi_160mhz() == self.spec_short_gi_160mhz(),
            r.spec_tx_stbc() == self.spec_tx_stbc(),
            r.spec_rx_stbc() == self.spec_rx_stbc(),
            r.spec_su_beamformer_capable() == self.spec_su_beamformer_capable(),
            r.spec_su_beamformee_capable() == self.spec_su_beamformee_capable(),
            r.spec_beamformee_sts_capability() == self.spec_beamformee_sts_capability(),
            r.spec_number_of_sounding_dimensions() == self.spec_number_of_sounding_dimensions(),
            r.spec_mu_beamformer_capable() == self.spec_mu_beamformer_capable(),
            r.spec_mu_beamformee_capable() == self.spec_mu_beamformee_capable(),
            r.spec_htc_vht_capable() == self.spec_htc_vht_capable(),
            r.spec_maximum_ampdu_length_exponent() == self.spec_maximum_ampdu_length_exponent(),
            r.spec_vht_link_adaptation_capable() == self.spec_vht_link_adaptation_capable(),
            r.spec_rx_antenna_pattern_consistency() == self.spec_rx_antenna_pattern_consistency(),
            r.spec_tx_antenna_pattern_consistency() == self.spec_tx_antenna_pattern_consistency(),
            r.spec_extended_nss_bw_support() == self.spec_extended_nss_bw_support(),
    {
        let v: u32 = if value {
            1
        } else {
            0
        };
        proof {
            Self::lemma_masks_fit();
            lemma_set_bits_u32(self.0, 21, 0x1, v, 21, 0x1);
            lemma_set_bits_u32(self.0, 21, 0x1, v, 0, 0x3);
            lemma_set_bits_u32(self.0, 21, 0x1, v, 2, 0x3);
            lemma_set_bits_u32(self.0, 21, 0x1, v, 4, 0x1);
            lemma_set_bits_u32(self.0, 21, 0x1, v, 5, 0x1);
            lemma_set_bits_u32(self.0, 21, 0x1, v, 6, 0x1);
            lemma_set_bits_u32(self.0, 21, 0x1, v, 7, 0x1);
            lemma_set_bits_u32(self.0, 21, 0x1, v, 8, 0x7);
            lemma_set_bits_u32(self.0, 21, 0x1, v, 11, 0x1);
            lemma_set_bits_u32(self.0, 21, 0x1, v, 12, 0x1);
            lemma_set_bits_u32(self.0, 21, 0x1, v, 13, 0x7);
            lemma_set_bits_u32(self.0, 21, 0x1, v, 16, 0x7);
            lemma_set_bits_u32(self.0, 21, 0x1, v, 19, 0x1);
            lemma_set_bits_u32(self.0, 21, 0x1, v, 20, 0x1);
            lemma_set_bits_u32(self.0, 21, 0x1, v, 22, 0x1);
            lemma_set_bits_u32(self.0, 21, 0x1, v, 23, 0x7);
            lemma_set_bits_u32(self.0, 21, 0x1, v, 26, 0x3);
            lemma_set_bits_u32(self.0, 21, 0x1, v, 28, 0x1);
            lemma_set_bits_u32(self.0, 21, 0x1, v, 29, 0x1);
            lemma_set_bits_u32(self.0, 21, 0x1, v, 30, 0x3);
        }
        Self((self.0 & !(0x1u32 << 21u32)) | ((v & 0x1) << 21u32))
    }

    /// The VHT variant of the HT control field can be received.
    pub open spec fn spec_htc_vht_capable(self) -> bool {
        get_bits_u32(self.0, 22, 1) == 1
    }

    /// The VHT variant of the HT control field can be received.
    pub fn htc_vht_capable(&self) -> (r: bool)
        ensures
            r == self.spec_htc_vht_capable(),
    {
        (self.0 >> 22) & 1 == 1
    }

    /// Returns a copy with the field replaced by `value`.
    pub fn with_htc_vht_capable(self, value: bool) -> (r: Self)
        ensures
            r.0 == set_bits_u32(self.0, 22, 0x1, (if value {
                1u32
            } else {
                0u32
            })),
            r.spec_htc_vht_capable() == value,
            r.spec_maximum_mpdu_length() == self.spec_maximum_mpdu_length(),
            r.spec_supported_channel_width_set() == self.spec_supported_channel_width_set(),
            r.spec_rx_ldpc() == self.spec_rx_ldpc(),
            r.spec_short_gi_80mhz() == self.spec_short_gi_80mhz(),
            r.spec_short_gi_160mhz() == self.spec_short_gi_160mhz(),
            r.spec_tx_stbc() == self.spec_tx_stbc(),
            r.spec_rx_stbc() == self.spec_rx_stbc(),
            r.spec_su_beamformer_capable() == self.spec_su_beamformer_capable(),
            r.spec_su_beamformee_capable() == self.spec_su_beamformee_capable(),
            r.spec_beamformee_sts_capability() == self.spec_beamformee_sts_capability(),
            r.spec_number_of_sounding_dimensions() == self.spec_number_of_sounding_dimensions(),
            r.spec_mu_beamformer_capable() == self.spec_mu_beamformer_capable(),
            r.spec_mu_beamformee_capable() == self.spec_mu_beamformee_capable(),
            r.spec_txop_ps() == self.spec_txop_ps(),
            r.spec_maximum_ampdu_length_exponent() == self.spec_maximum_ampdu_length_exponent(),
            r.spec_vht_link_adaptation_capable() == self.spec_vht_link_adaptation_capable(),
            r.spec_rx_antenna_pattern_consistency() == self.spec_rx_antenna_pattern_consistency(),
            r.spec_tx_antenna_pattern_consistency() == self.spec_tx_antenna_pattern_consistency(),
            r.spec_extended_nss_bw_support() == self.spec_extended_nss_bw_support(),
    {
        let v: u32 = if value {
            1
        } else {
            0
        };
        proof {
            Self::lemma_masks_fit();
            lemma_set_bits_u32(self.0, 22, 0x1, v, 22, 0x1);
            lemma_set_bits_u32(self.0, 22, 0x1, v, 0, 0x3);
            lemma_set_bits_u32(self.0, 22, 0x1, v, 2, 0x3);
            lemma_set_bits_u32(self.0, 22, 0x1, v, 4, 0x1);
            lemma_set_bits_u32(self.0, 22, 0x1, v, 5, 0x1);
            lemma_set_bits_u32(self.0, 22, 0x1, v, 6, 0x1);
            lemma_set_bits_u32(self.0, 22, 0x1, v, 7, 0x1);
            lemma_set_bits_u32(self.0, 22, 0x1, v, 8, 0x7);
            lemma_set_bits_u32(self.0, 22, 0x1, v, 11, 0x1);
            lemma_set_bits_u32(self.0, 22, 0x1, v, 12, 0x1);
            lemma_set_bits_u32(self.0, 22, 0x1, v, 13, 0x7);
            lemma_set_bits_u32(self.0, 22, 0x1, v, 16, 0x7);
            lemma_set_bits_u32(self.0, 22, 0x1, v, 19, 0x1);
            lemma_set_bits_u32(self.0, 22, 0x1, v, 20, 0x1);
            lemma_set_bits_u32(self.0, 22, 0x1, v, 21, 0x1);
            lemma_set_bits_u32(self.0, 22, 0x1, v, 23, 0x7);
            lemma_set_bits_u32(self.0, 22, 0x1, v, 26, 0x3);
            lemma_set_bits_u32(self.0, 22, 0x1, v, 28, 0x1);
            lemma_set_bits_u32(self.0, 22, 0x1, v, 29, 0x1);
            lemma_set_bits_u32(self.0, 22, 0x1, v, 30, 0x3);
        }
        Self((self.0 & !(0x1u32 << 22u32)) | ((v & 0x1) << 22u32))
    }

    /// The exponent of the maximum A-MPDU length.
    pub open spec fn spec_maximum_ampdu_length_exponent(self) -> u8 {
        get_bits_u32(self.0, 23, 0x7) as u8
    }

    /// The exponent of the maximum A-MPDU length.
    pub fn maximum_ampdu_length_exponent(&self) -> (r: u8)
        ensures
            r == self.spec_maximum_ampdu_length_exponent(),
    {
        ((self.0 >> 23) & 0x7) as u8
    }

    /// Returns a copy with the field replaced by `value`.
    pub fn with_maximum_ampdu_length_exponent(self, value: u8) -> (r: Self)
        ensures
            r.0 == set_bits_u32(self.0, 23, 0x7, (value as u32)),
            r.spec_maximum_ampdu_length_exponent() == ((value as u32) & 0x7) as u8,
            r.spec_maximum_mpdu_length() == self.spec_maximum_mpdu_length(),
            r.spec_supported_channel_width_set() == self.spec_supported_channel_width_set(),
            r.spec_rx_ldpc() == self.spec_rx_ldpc(),
            r.spec_short_gi_80mhz() == self.spec_short_gi_80mhz(),
            r.spec_short_gi_160mhz() == self.spec_short_gi_160mhz(),
            r.spec_tx_stbc() == self.spec_tx_stbc(),
            r.spec_rx_stbc() == self.spec_rx_stbc(),
            r.spec_su_beamformer_capable() == self.spec_su_beamformer_capable(),
            r.spec_su_beamformee_capable() == self.spec_su_beamformee_capable(),
            r.spec_beamformee_sts_capability() == self.spec_beamformee_sts_capability(),
            r.spec_number_of_sounding_dimensions() == self.spec_number_of_sounding_dimensions(),
            r.spec_mu_beamformer_capable() == self.spec_mu_beamformer_capable(),
            r.spec_mu_beamformee_capable() == self.spec_mu_beamformee_capable(),
            r.spec_txop_ps() == self.spec_txop_ps(),
            r.spec_htc_vht_capable() == self.spec_htc_vht_capable(),
            r.spec_vht_link_adaptation_capable() == self.spec_vht_link_adaptation_capable(),
            r.spec_rx_antenna_pattern_consistency() == self.spec_rx_antenna_pattern_consistency(),
            r.spec_tx_antenna_pattern_consistency() == self.spec_tx_antenna_pattern_consistency(),
            r.spec_extended_nss_bw_support() == self.spec_extended_nss_bw_support(),
    {
        let v: u32 = value as u32;
        proof {
            Self::lemma_masks_fit();
            lemma_set_bits_u32(self.0, 23, 0x7, v, 23, 0x7);
            lemma_set_bits_u32(self.0, 23, 0x7, v, 0, 0x3);
            lemma_set_bits_u32(self.0, 23, 0x7, v, 2, 0x3);
            lemma_set_bits_u32(self.0, 23, 0x7, v, 4, 0x1);
            lemma_set_bits_u32(self.0, 23, 0x7, v, 5, 0x1);
            lemma_set_bits_u32(self.0, 23, 0x7, v, 6, 0x1);
            lemma_set_bits_u32(self.0, 23, 0x7, v, 7, 0x1);
            lemma_set_bits_u32(self.0, 23, 0x7, v, 8, 0x7);
            lemma_set_bits_u32(self.0, 23, 0x7, v, 11, 0x1);
            lemma_set_bits_u32(self.0, 23, 0x7, v, 12, 0x1);
            lemma_set_bits_u32(self.0, 23, 0x7, v, 13, 0x7);
            lemma_set_bits_u32(self.0, 23, 0x7, v, 16, 0x7);
            lemma_set_bits_u32(self.0, 23, 0x7, v, 19, 0x1);
            lemma_set_bits_u32(self.0, 23, 0x7, v, 20, 0x1);
            lemma_set_bits_u32(self.0, 23, 0x7, v, 21, 0x1);
            lemma_set_bits_u32(self.0, 23, 0x7, v, 22, 0x1);
            lemma_set_bits_u32(self.0, 23, 0x7, v, 26, 0x3);
            lemma_set_bits_u32(self.0, 23, 0x7, v, 28, 0x1);
            lemma_set_bits_u32(self.0, 23, 0x7, v, 29, 0x1);
            lemma_set_bits_u32(self.0, 23, 0x7, v, 30, 0x3);
        }
        Self((self.0 & !(0x7u32 << 23u32)) | ((v & 0x7) << 23u32))
    }

    /// The VHT link adaptation capability.
    pub open spec fn spec_vht_link_adaptation_capable(self) -> u8 {
        get_bits_u32(self.0, 26, 0x3) as u8
    }

    /// The VHT link adaptation capability.
    pub fn vht_link_adaptation_capable(&self) -> (r: u8)
        ensures
            r == self.spec_vht_link_adaptation_capable(),
    {
        ((self.0 >> 26) & 0x3) as u8
    }

    /// Returns a copy with the field replaced by `value`.
    pub fn with_vht_link_adaptation_capable(self, value: u8) -> (r: Self)
        ensures
            r.0 == set_bits_u32(self.0, 26, 0x3, (value as u32)),
            r.spec_vht_link_adaptation_capable() == ((value as u32) & 0x3) as u8,
            r.spec_maximum_mpdu_length() == self.spec_maximum_mpdu_length(),
            r.spec_supported_channel_width_set() == self.spec_supported_channel_width_set(),
            r.spec_rx_ldpc() == self.spec_rx_ldpc(),
            r.spec_short_gi_80mhz() == self.spec_short_gi_80mhz(),
            r.spec_short_gi_160mhz() == self.spec_short_gi_160mhz(),
            r.spec_tx_stbc() == self.spec_tx_stbc(),
            r.spec_rx_stbc() == self.spec_rx_stbc(),
            r.spec_su_beamformer_capable() == self.spec_su_beamformer_capable(),
            r.spec_su_beamformee_capable() == self.spec_su_beamformee_capable(),
            r.spec_beamformee_sts_capability() == self.spec_beamformee_sts_capability(),
            r.spec_number_of_sounding_dimensions() == self.spec_number_of_sounding_dimensions(),
            r.spec_mu_beamformer_capable() == self.spec_mu_beamformer_capable(),
            r.spec_mu_beamformee_capable() == self.spec_mu_beamformee_capable(),
            r.spec_txop_ps() == self.spec_txop_ps(),
            r.spec_htc_vht_capable() == self.spec_htc_vht_capable(),
            r.spec_maximum_ampdu_length_exponent() == self.spec_maximum_ampdu_length_exponent(),
            r.spec_rx_antenna_pattern_consistency() == self.spec_rx_antenna_pattern_consistency(),
            r.spec_tx_antenna_pattern_consistency() == self.spec_tx_antenna_pattern_consistency(),
            r.spec_extended_nss_bw_support() == self.spec_extended_nss_bw_support(),
    {
        let v: u32 = value as u32;
        proof {
            Self::lemma_masks_fit();
            lemma_set_bits_u32(self.0, 26, 0x3, v, 26, 0x3);
            lemma_set_bits_u32(self.0, 26, 0x3, v, 0, 0x3);
            lemma_set_bits_u32(self.0, 26, 0x3, v, 2, 0x3);
            lemma_set_bits_u32(self.0, 26, 0x3, v, 4, 0x1);
            lemma_set_bits_u32(self.0, 26, 0x3, v, 5, 0x1);
            lemma_set_bits_u32(self.0, 26, 0x3, v, 6, 0x1);
            lemma_set_bits_u32(self.0, 26, 0x3, v, 7, 0x1);
            lemma_set_bits_u32(self.0, 26, 0x3, v, 8, 0x7);
            lemma_set_bits_u32(self.0, 26, 0x3, v, 11, 0x1);
            lemma_set_bits_u32(self.0, 26, 0x3, v, 12, 0x1);
            lemma_set_bits_u32(self.0, 26, 0x3, v, 13, 0x7);
            lemma_set_bits_u32(self.0, 26, 0x3, v, 16, 0x7);
            lemma_set_bits_u32(self.0, 26, 0x3, v, 19, 0x1);
            lemma_set_bits_u32(self.0, 26, 0x3, v, 20, 0x1);
            lemma_set_bits_u32(self.0, 26, 0x3, v, 21, 0x1);
            lemma_set_bits_u32(self.0, 26, 0x3, v, 22, 0x1);
            lemma_set_bits_u32(self.0, 26, 0x3, v, 23, 0x7);
            lemma_set_bits_u32(self.0, 26, 0x3, v, 28, 0x1);
            lemma_set_bits_u32(self.0, 26, 0x3, v, 29, 0x1);
            lemma_set_bits_u32(self.0, 26, 0x3, v, 30, 0x3);
        }
        Self((self.0 & !(0x3u32 << 26u32)) | ((v & 0x3) << 26u32))
    }

    /// The receive antenna pattern doesn't change.
    pub open spec fn spec_rx_antenna_pattern_consistency(self) -> bool {
        get_bits_u32(self.0, 28, 1) == 1
    }

    /// The receive antenna pattern doesn't change.
    pub fn rx_antenna_pattern_consistency(&self) -> (r: bool)
        ensures
            r == self.spec_rx_antenna_pattern_consistency(),
    {
        (self.0 >> 28) & 1 == 1
    }

    /// Returns a copy with the field replaced by `value`.
    pub fn with_rx_antenna_pattern_consistency(self, value: bool) -> (r: Self)
        ensures
            r.0 == set_bits_u32(self.0, 28, 0x1, (if value {
                1u32
            } else {
                0u32
            })),
            r.spec_rx_antenna_pattern_consistency() == value,
            r.spec_maximum_mpdu_length() == self.spec_maximum_mpdu_length(),
            r.spec_supported_channel_width_set() == self.spec_supported_channel_width_set(),
            r.spec_rx_ldpc() == self.spec_rx_ldpc(),
            r.spec_short_gi_80mhz() == self.spec_short_gi_80mhz(),
            r.spec_short_gi_160mhz() == self.spec_short_gi_160mhz(),
            r.spec_tx_stbc() == self.spec_tx_stbc(),
            r.spec_rx_stbc() == self.spec_rx_stbc(),
            r.spec_su_beamformer_capable() == self.spec_su_beamformer_capable(),
            r.spec_su_beamformee_capable() == self.spec_su_beamformee_capable(),
            r.spec_beamformee_sts_capability() == self.spec_beamformee_sts_capability(),
            r.spec_number_of_sounding_dimensions() == self.spec_number_of_sounding_dimensions(),
            r.spec_mu_beamformer_capable() == self.spec_mu_beamformer_capable(),
            r.spec_mu_beamformee_capable() == self.spec_mu_beamformee_capable(),
            r.spec_txop_ps() == self.spec_txop_ps(),
            r.spec_htc_vht_capable() == self.spec_htc_vht_capable(),
            r.spec_maximum_ampdu_length_exponent() == self.spec_maximum_ampdu_length_exponent(),
            r.spec_vht_link_adaptation_capable() == self.spec_vht_link_adaptation_capable(),
            r.spec_tx_antenna_pattern_consistency() == self.spec_tx_antenna_pattern_consistency(),
            r.spec_extended_nss_bw_support() == self.spec_extended_nss_bw_support(),
    {
        let v: u32 = if value {
            1
        } else {
            0
        };
        proof {
            Self::lemma_masks_fit();
            lemma_set_bits_u32(self.0, 28, 0x1, v, 28, 0x1);
            lemma_set_bits_u32(self.0, 28, 0x1, v, 0, 0x3);
            lemma_set_bits_u32(self.0, 28, 0x1, v, 2, 0x3);
            lemma_set_bits_u32(self.0, 28, 0x1, v, 4, 0x1);
            lemma_set_bits_u32(self.0, 28, 0x1, v, 5, 0x1);
            lemma_set_bits_u32(self.0, 28, 0x1, v, 6, 0x1);
            lemma_set_bits_u32(self.0, 28, 0x1, v, 7, 0x1);
            lemma_set_bits_u32(self.0, 28, 0x1, v, 8, 0x7);
            lemma_set_bits_u32(self.0, 28, 0x1, v, 11, 0x1);
            lemma_set_bits_u32(self.0, 28, 0x1, v, 12, 0x1);
            lemma_set_bits_u32(self.0, 28, 0x1, v, 13, 0x7);
            lemma_set_bits_u32(self.0, 28, 0x1, v, 16, 0x7);
            lemma_set_bits_u32(self.0, 28, 0x1, v, 19, 0x1);
            lemma_set_bits_u32(self.0, 28, 0x1, v, 20, 0x1);
            lemma_set_bits_u32(self.0, 28, 0x1, v, 21, 0x1);
            lemma_set_bits_u32(self.0, 28, 0x1, v, 22, 0x1);
            lemma_set_bits_u32(self.0, 28, 0x1, v, 23, 0x7);
            lemma_set_bits_u32(self.0, 28, 0x1, v, 26, 0x3);
            lemma_set_bits_u32(self.0, 28, 0x1, v, 29, 0x1);
            lemma_set_bits_u32(self.0, 28, 0x1, v, 30, 0x3);
        }
        Self((self.0 & !(0x1u32 << 28u32)) | ((v & 0x1) << 28u32))
    }

    /// The transmit antenna pattern doesn't change.
    pub open spec fn spec_tx_antenna_pattern_consistency(self) -> bool {
        get_bits_u32(self.0, 29, 1) == 1
    }

    /// The transmit antenna pattern doesn't change.
    pub fn tx_antenna_pattern_consistency(&self) -> (r: bool)
        ensures
            r == self.spec_tx_antenna_pattern_consistency(),
    {
        (self.0 >> 29) & 1 == 1
    }

    /// Returns a copy with the field replaced by `value`.
    pub fn with_tx_antenna_pattern_consistency(self, value: bool) -> (r: Self)
        ensures
            r.0 == set_bits_u32(self.0, 29, 0x1, (if value {
                1u32
            } else {
                0u32
            })),
            r.spec_tx_antenna_pattern_consistency() == value,
            r.spec_maximum_mpdu_length() == self.spec_maximum_mpdu_length(),
            r.spec_supported_channel_width_set() == self.spec_supported_channel_width_set(),
            r.spec_rx_ldpc() == self.spec_rx_ldpc(),
            r.spec_short_gi_80mhz() == self.spec_short_gi_80mhz(),
            r.spec_short_gi_160mhz() == self.spec_short_gi_160mhz(),
            r.spec_tx_stbc() == self.spec_tx_stbc(),
            r.spec_rx_stbc() == self.spec_rx_stbc(),
            r.spec_su_beamformer_capable() == self.spec_su_beamformer_capable(),
            r.spec_su_beamformee_capable() == self.spec_su_beamformee_capable(),
            r.spec_beamformee_sts_capability() == self.spec_beamformee_sts_capability(),
            r.spec_number_of_sounding_dimensions() == self.spec_number_of_sounding_dimensions(),
            r.spec_mu_beamformer_capable() == self.spec_mu_beamformer_capable(),
            r.spec_mu_beamformee_capable() == self.spec_mu_beamformee_capable(),
            r.spec_txop_ps() == self.spec_txop_ps(),
            r.spec_htc_vht_capable() == self.spec_htc_vht_capable(),
            r.spec_maximum_ampdu_length_exponent() == self.spec_maximum_ampdu_length_exponent(),
            r.spec_vht_link_adaptation_capable() == self.spec_vht_link_adaptation_capable(),
            r.spec_rx_antenna_pattern_consistency() == self.spec_rx_antenna_pattern_consistency(),
            r.spec_extended_nss_bw_support() == self.spec_extended_nss_bw_support(),
    {
        let v: u32 = if value {
            1
        } else {
            0
        };
        proof {
            Self::lemma_masks_fit();
            lemma_set_bits_u32(self.0, 29, 0x1, v, 29, 0x1);
            lemma_set_bits_u32(self.0, 29, 0x1, v, 0, 0x3);
            lemma_set_bits_u32(self.0, 29, 0x1, v, 2, 0x3);
            lemma_set_bits_u32(self.0, 29, 0x1, v, 4, 0x1);
            lemma_set_bits_u32(self.0, 29, 0x1, v, 5, 0x1);
            lemma_set_bits_u32(self.0, 29, 0x1, v, 6, 0x1);
            lemma_set_bits_u32(self.0, 29, 0x1, v, 7, 0x1);
            lemma_set_bits_u32(self.0, 29, 0x1, v, 8, 0x7);
            lemma_set_bits_u32(self.0, 29, 0x1, v, 11, 0x1);
            lemma_set_bits_u32(self.0, 29, 0x1, v, 12, 0x1);
            lemma_set_bits_u32(self.0, 29, 0x1, v, 13, 0x7);
            lemma_set_bits_u32(self.0, 29, 0x1, v, 16, 0x7);
            lemma_set_bits_u32(self.0, 29, 0x1, v, 19, 0x1);
            lemma_set_bits_u32(self.0, 29, 0x1, v, 20, 0x1);
            lemma_set_bits_u32(self.0, 29, 0x1, v, 21, 0x1);
            lemma_set_bits_u32(self.0, 29, 0x1, v, 22, 0x1);
            lemma_set_bits_u32(self.0, 29, 0x1, v, 23, 0x7);
            lemma_set_bits_u32(self.0, 29, 0x1, v, 26, 0x3);
            lemma_set_bits_u32(self.0, 29, 0x1, v, 28, 0x1);
            lemma_set_bits_u32(self.0, 29, 0x1, v, 30, 0x3);
        }
        Self((self.0 & !(0x1u32 << 29u32)) | ((v & 0x1) << 29u32))
    }

    /// The extended NSS bandwidth support.
    pub open spec fn spec_extended_nss_bw_support(self) -> u8 {
        get_bits_u32(self.0, 30, 0x3) as u8
    }

    /// The extended NSS bandwidth support.
    pub fn extended_nss_bw_support(&self) -> (r: u8)
        ensures
            r == self.spec_extended_nss_bw_support(),
    {
        ((self.0 >> 30) & 0x3) as u8
    }

    /// Returns a copy with the field replaced by `value`.
    pub fn with_extended_nss_bw_support(self, value: u8) -> (r: Self)
        ensures
            r.0 == set_bits_u32(self.0, 30, 0x3, (value as u32)),
            r.spec_extended_nss_bw_support() == ((value as u32) & 0x3) as u8,
            r.spec_maximum_mpdu_length() == self.spec_maximum_mpdu_length(),
            r.spec_supported_channel_width_set() == self.spec_supported_channel_width_set(),
            r.spec_rx_ldpc() == self.spec_rx_ldpc(),
            r.spec_short_gi_80mhz() == self.spec_short_gi_80mhz(),
            r.spec_short_gi_160mhz() == self.spec_short_gi_160mhz(),
            r.spec_tx_stbc() == self.spec_tx_stbc(),
            r.spec_rx_stbc() == self.spec_rx_stbc(),
            r.spec_su_beamformer_capable() == self.spec_su_beamformer_capable(),
            r.spec_su_beamformee_capable() == self.spec_su_beamformee_capable(),
            r.spec_beamformee_sts_capability() == self.spec_beamformee_sts_capability(),
            r.spec_number_of_sounding_dimensions() == self.spec_number_of_sounding_dimensions(),
            r.spec_mu_beamformer_capable() == self.spec_mu_beamformer_capable(),
            r.spec_mu_beamformee_capable() == self.spec_mu_beamformee_capable(),
            r.spec_txop_ps() == self.spec_txop_ps(),
            r.spec_htc_vht_capable() == self.spec_htc_vht_capable(),
            r.spec_maximum_ampdu_length_exponent() == self.spec_maximum_ampdu_length_exponent(),
            r.spec_vht_link_adaptation_capable() == self.spec_vht_link_adaptation_capable(),
            r.spec_rx_antenna_pattern_consistency() == self.spec_rx_antenna_pattern_consistency(),
            r.spec_tx_antenna_pattern_consistency() == self.spec_tx_antenna_pattern_consistency(),
    {
        let v: u32 = value as u32;
        proof {
            Self::lemma_masks_fit();
            lemma_set_bits_u32(self.0, 30, 0x3, v, 30, 0x3);
            lemma_set_bits_u32(self.0, 30, 0x3, v, 0, 0x3);
            lemma_set_bits_u32(self.0, 30, 0x3, v, 2, 0x3);
            lemma_set_bits_u32(self.0, 30, 0x3, v, 4, 0x1);
            lemma_set_bits_u32(self.0, 30, 0x3, v, 5, 0x1);
            lemma_set_bits_u32(self.0, 30, 0x3, v, 6, 0x1);
            lemma_set_bits_u32(self.0, 30, 0x3, v, 7, 0x1);
            lemma_set_bits_u32(self.0, 30, 0x3, v, 8, 0x7);
            lemma_set_bits_u32(self.0, 30, 0x3, v, 11, 0x1);
            lemma_set_bits_u32(self.0, 30, 0x3, v, 12, 0x1);
            lemma_set_bits_u32(self.0, 30, 0x3, v, 13, 0x7);
            lemma_set_bits_u32(self.0, 30, 0x3, v, 16, 0x7);
            lemma_set_bits_u32(self.0, 30, 0x3, v, 19, 0x1);
            lemma_set_bits_u32(self.0, 30, 0x3, v, 20, 0x1);
            lemma_set_bits_u32(self.0, 30, 0x3, v, 21, 0x1);
            lemma_set_bits_u32(self.0, 30, 0x3, v, 22, 0x1);
            lemma_set_bits_u32(self.0, 30, 0x3, v, 23, 0x7);
            lemma_set_bits_u32(self.0, 30, 0x3, v, 26, 0x3);
            lemma_set_bits_u32(self.0, 30, 0x3, v, 28, 0x1);
            lemma_set_bits_u32(self.0, 30, 0x3, v, 29, 0x1);
        }
        Self((self.0 & !(0x3u32 << 30u32)) | ((v & 0x3) << 30u32))
    }
}

/// The supported VHT MCS indices.
#[derive(Clone, Copy, Debug, PartialEq, Eq, Hash, Structural)]
pub enum VHTMCSSupport {
    ZeroToSeven,
    ZeroToEight,
    ZeroToNine,
    NotSupported,
    /// A value without a name.
    Unknown(u8),
}

impl VHTMCSSupport {
    /// The variant that `value` encodes.
    pub open spec fn spec_from_bits(value: u8) -> Self {
        match value {
            0 => VHTMCSSupport::ZeroToSeven,
            1 => VHTMCSSupport::ZeroToEight,
            2 => VHTMCSSupport::ZeroToNine,
            3 => VHTMCSSupport::NotSupported,
            x => VHTMCSSupport::Unknown(x),
        }
    }

    /// The encoding of this variant.
    pub open spec fn spec_into_bits(self) -> u8 {
        match self {
            VHTMCSSupport::ZeroToSeven => 0,
            VHTMCSSupport::ZeroToEight => 1,
            VHTMCSSupport::ZeroToNine => 2,
            VHTMCSSupport::NotSupported => 3,
            VHTMCSSupport::Unknown(x) => x,
        }
    }

    /// Decode a variant from its representation.
    pub fn from_bits(value: u8) -> (r: Self)
        ensures
            r == Self::spec_from_bits(value),
            r.spec_into_bits() == value,
    {
        match value {
            0 => VHTMCSSupport::ZeroToSeven,
            1 => VHTMCSSupport::ZeroToEight,
            2 => VHTMCSSupport::ZeroToNine,
            3 => VHTMCSSupport::NotSupported,
            x => VHTMCSSupport::Unknown(x),
        }
    }

    /// Encode this variant.
    pub fn into_bits(self) -> (r: u8)
        ensures
            r == self.spec_into_bits(),
    {
        match self {
            VHTMCSSupport::ZeroToSeven => 0,
            VHTMCSSupport::ZeroToEight => 1,
            VHTMCSSupport::ZeroToNine => 2,
            VHTMCSSupport::NotSupported => 3,
            VHTMCSSupport::Unknown(x) => x,
        }
    }
}

impl Default for VHTMCSSupport {
    fn default() -> (r: Self)
        ensures
            r == VHTMCSSupport::NotSupported,
    {
        VHTMCSSupport::NotSupported
    }
}

/// How far the bits for the spatial stream count `index + 1` are shifted.
pub open spec fn mcs_shift(index: u16) -> u16 {
    (2 * index) as u16
}

/// The two bits of `bits` that describe the support for `index + 1` spatial streams.
pub open spec fn mcs_bits_at(bits: u16, index: u16) -> u16 {
    (bits >> mcs_shift(index)) & 3u16
}

/// Placing the two-bit `value` above the bits for the first `i` stream counts of `acc` keeps
/// those bits and makes `value` readable at position `i`.
proof fn lemma_place_mcs_bits(acc: u16, value: u16, i: u16, j: u16)
    by (bit_vector)
    requires
        i < 8,
        j < 8,
        value <= 3,
        i == 0 ==> acc == 0,
        0 < i ==> acc < (1u16 << mcs_shift(i)),
    ensures
        mcs_bits_at(acc | (value << mcs_shift(i)), j) == (if j == i {
            value
        } else {
            mcs_bits_at(acc, j)
        }),
        i < 7 ==> (acc | (value << mcs_shift(i))) < (1u16 << mcs_shift((i + 1) as u16)),
        j >= i ==> mcs_bits_at(acc, j) == 0,
{
}

/// The combinations of VHT-MCSs and spatial streams supported by the STA's VHT PHY.
#[derive(Clone, Copy, Debug, PartialEq, Eq, Hash, Structural)]
pub struct VHTMCSMap(pub u16);

impl VHTMCSMap {
    /// Wrap the raw bits.
    pub fn from_bits(bits: u16) -> (r: Self)
        ensures
            r.0 == bits,
    {
        Self(bits)
    }

    /// The raw bits.
    pub fn into_bits(self) -> (r: u16)
        ensures
            r == self.0,
    {
        self.0
    }

    /// The supported VHT MCS range for `nss` spatial streams, where `nss` is one to eight.
    pub open spec fn spec_vht_mcs_support_for_nss(self, nss: int) -> Option<VHTMCSSupport> {
        if 1 <= nss < 9 {
            Some(VHTMCSSupport::spec_from_bits(mcs_bits_at(self.0, (nss - 1) as u16) as u8))
        } else {
            None
        }
    }

    /// Returns the supported VHT MCS range for the given number of spatial streams.
    ///
    /// Returns [None] unless `nss` is between one and eight.
    pub fn vht_mcs_support_for_nss(&self, nss: usize) -> (r: Option<VHTMCSSupport>)
        ensures
            r == self.spec_vht_mcs_support_for_nss(nss as int),
    {
        if 1 <= nss && nss < 9 {
            let shift = (2 * (nss - 1)) as u16;
            Some(VHTMCSSupport::from_bits(((self.0 >> shift) & 3) as u8))
        } else {
            None
        }
    }

    /// The VHT MCS ranges for one to eight spatial streams, in that order.
    pub fn vht_mcs_support_iter(&self) -> (r: Vec<VHTMCSSupport>)
        ensures
            r@.len() == 8,
            forall|k: int|
                0 <= k < 8 ==> Some(#[trigger] r@[k]) == self.spec_vht_mcs_support_for_nss(k + 1),
    {
        let mut out: Vec<VHTMCSSupport> = Vec::new();
        let mut nss: usize = 1;
        while nss < 9
            invariant
                1 <= nss <= 9,
                out@.len() == nss - 1,
                forall|k: int|
                    0 <= k < nss - 1 ==> Some(#[trigger] out@[k])
                        == self.spec_vht_mcs_support_for_nss(k + 1),
            decreases 9 - nss,
        {
            match self.vht_mcs_support_for_nss(nss) {
                Some(support) => out.push(support),
                None => {},
            }
            nss = nss + 1;
        }
        out
    }

    /// Creates the field from the VHT MCS ranges for one, two and up to eight spatial streams.
    ///
    /// Ranges after the eighth are ignored; streams without a range get [VHTMCSSupport::ZeroToSeven].
    /// Each range takes the two low bits of its encoding.
    pub fn from_vht_mcs_iter(iter: &[VHTMCSSupport]) -> (r: Self)
        ensures
            forall|k: int|
                0 <= k < 8 ==> #[trigger] mcs_bits_at(r.0, k as u16) == (if k < iter@.len() {
                    (iter@[k].spec_into_bits() % 4) as u16
                } else {
                    0
                }),
    {
        let mut acc: u16 = 0;
        let mut i: usize = 0;
        let count = if iter.len() < 8 {
            iter.len()
        } else {
            8
        };
        assert forall|k: int| 0 <= k < 8 implies #[trigger] mcs_bits_at(0u16, k as u16) == 0 by {
            lemma_place_mcs_bits(0, 0, 0, k as u16);
        }
        while i < count
            invariant
                count <= 8,
                count <= iter@.len(),
                count == iter@.len() || count == 8,
                i <= count,
                i == 0 ==> acc == 0,
                0 < i < 8 ==> acc < (1u16 << mcs_shift(i as u16)),
                forall|k: int|
                    0 <= k < 8 ==> #[trigger] mcs_bits_at(acc, k as u16) == (if k < i {
                        (iter@[k].spec_into_bits() % 4) as u16
                    } else {
                        0
                    }),
            decreases count - i,
        {
            let bits = iter[i].into_bits();
            assert(bits & 0b11 == bits % 4) by (bit_vector);
            let value = (bits & 0b11) as u16;
            let shift = (2 * i) as u16;
            let next = acc | (value << shift);
            assert forall|k: int| 0 <= k < 8 implies #[trigger] mcs_bits_at(next, k as u16) == (
            if k < i + 1 {
                (iter@[k].spec_into_bits() % 4) as u16
            } else {
                0
            }) by {
                lemma_place_mcs_bits(acc, value, i as u16, k as u16);
            }
            proof {
                lemma_place_mcs_bits(acc, value, i as u16, 0);
            }
            acc = next;
            i = i + 1;
        }
        Self(acc)
    }
}

impl VHTCapabilitiesInfo {
    /// The maximum MPDU length in bytes that the encoded field stands for.
    pub open spec fn spec_maximum_mpdu_length_in_bytes(self) -> Option<u16> {
        let encoded = self.spec_maximum_mpdu_length();
        if encoded == 0 {
            Some(3_895u16)
        } else if encoded == 1 {
            Some(7_991u16)
        } else if encoded == 2 {
            Some(11_454u16)
        } else {
            None
        }
    }

    /// The maximum MPDU length in bytes, or [None] for the reserved encoding.
    pub fn maximum_mpdu_length_in_bytes(&self) -> (r: Option<u16>)
        ensures
            r == self.spec_maximum_mpdu_length_in_bytes(),
    {
        match self.maximum_mpdu_length() {
            0 => Some(3_895),
            1 => Some(7_991),
            2 => Some(11_454),
            _ => None,
        }
    }

    /// Returns a copy with the maximum MPDU length set from a length in bytes.
    ///
    /// Lengths other than 3895, 7991 and 11454 are encoded as the reserved value.
    pub fn with_maximum_mpdu_length_in_bytes(self, maximum_mpdu_length_in_bytes: u16) -> (r: Self)
        ensures
            r.spec_maximum_mpdu_length_in_bytes() == (if maximum_mpdu_length_in_bytes == 3_895
                || maximum_mpdu_length_in_bytes == 7_991 || maximum_mpdu_length_in_bytes
                == 11_454 {
                Some(maximum_mpdu_length_in_bytes)
            } else {
                None
            }),
            r.spec_maximum_mpdu_length() == (if maximum_mpdu_length_in_bytes == 3_895 {
                0u8
            } else if maximum_mpdu_length_in_bytes == 7_991 {
                1u8
            } else if maximum_mpdu_length_in_bytes == 11_454 {
                2u8
            } else {
                3u8
            }),
    {
        let encoded: u8 = match maximum_mpdu_length_in_bytes {
            3_895 => 0,
            7_991 => 1,
            11_454 => 2,
            _ => 3,
        };
        let r = self.with_maximum_mpdu_length(encoded);
        proof {
            Self::lemma_masks_fit();
            lemma_set_bits_u32(self.0, 0, 3, encoded as u32, 0, 3);
            assert((encoded as u32) & 3 == encoded as u32) by (bit_vector)
                requires
                    encoded <= 3,
            ;
        }
        r
    }

    /// Set the maximum MPDU length from a length in bytes.
    pub fn set_maximum_mpdu_length_in_bytes(&mut self, maximum_mpdu_length_in_bytes: u16)
        ensures
            final(self).spec_maximum_mpdu_length_in_bytes() == (if maximum_mpdu_length_in_bytes
                == 3_895 || maximum_mpdu_length_in_bytes == 7_991 || maximum_mpdu_length_in_bytes
                == 11_454 {
                Some(maximum_mpdu_length_in_bytes)
            } else {
                None
            }),
    {
        *self = self.with_maximum_mpdu_length_in_bytes(maximum_mpdu_length_in_bytes);
    }
}
/// The VHT-MCSs and spatial streams supported for receiving and transmitting.
#[derive(Clone, Copy, Debug, PartialEq, Eq, Hash, Structural)]
pub struct SupportedVHTMCSAndNSSSet(pub u64);

impl SupportedVHTMCSAndNSSSet {
    /// A value with every field at its default.
    pub fn new() -> (r: Self)
        ensures
            r.0 == 0x0,
    {
        Self(0x0)
    }

    /// Wrap the raw bits.
    pub fn from_bits(bits: u64) -> (r: Self)
        ensures
            r.0 == bits,
    {
        Self(bits)
    }

    /// Every field mask fits in the backing integer.
    proof fn lemma_masks_fit()
        by (bit_vector)
        ensures
            fits_u64(0, 0xffff),
            fits_u64(16, 0x1fff),
            fits_u64(29, 0x7),
            fits_u64(32, 0xffff),
            fits_u64(48, 0x1fff),
            fits_u64(61, 0x1),
            (0xffffu64 << 0u64) & (0x1fffu64 << 16u64) == 0,
            (0x1fffu64 << 16u64) & (0xffffu64 << 0u64) == 0,
            (0xffffu64 << 0u64) & (0x7u64 << 29u64) == 0,
            (0x7u64 << 29u64) & (0xffffu64 << 0u64) == 0,
            (0xffffu64 << 0u64) & (0xffffu64 << 32u64) == 0,
            (0xffffu64 << 32u64) & (0xffffu64 << 0u64) == 0,
            (0xffffu64 << 0u64) & (0x1fffu64 << 48u64) == 0,
            (0x1fffu64 << 48u64) & (0xffffu64 << 0u64) == 0,
            (0xffffu64 << 0u64) & (0x1u64 << 61u64) == 0,
            (0x1u64 << 61u64) & (0xffffu64 << 0u64) == 0,
            (0x1fffu64 << 16u64) & (0x7u64 << 29u64) == 0,
            (0x7u64 << 29u64) & (0x1fffu64 << 16u64) == 0,
            (0x1fffu64 << 16u64) & (0xffffu64 << 32u64) == 0,
            (0xffffu64 << 32u64) & (0x1fffu64 << 16u64) == 0,
            (0x1fffu64 << 16u64) & (0x1fffu64 << 48u64) == 0,
            (0x1fffu64 << 48u64) & (0x1fffu64 << 16u64) == 0,
            (0x1fffu64 << 16u64) & (0x1u64 << 61u64) == 0,
            (0x1u64 << 61u64) & (0x1fffu64 << 16u64) == 0,
            (0x7u64 << 29u64) & (0xffffu64 << 32u64) == 0,
            (0xffffu64 << 32u64) & (0x7u64 << 29u64) == 0,
            (0x7u64 << 29u64) & (0x1fffu64 << 48u64) == 0,
            (0x1fffu64 << 48u64) & (0x7u64 << 29u64) == 0,
            (0x7u64 << 29u64) & (0x1u64 << 61u64) == 0,
            (0x1u64 << 61u64) & (0x7u64 << 29u64) == 0,
            (0xffffu64 << 32u64) & (0x1fffu64 << 48u64) == 0,
            (0x1fffu64 << 48u64) & (0xffffu64 << 32u64) == 0,
            (0xffffu64 << 32u64) & (0x1u64 << 61u64) == 0,
            (0x1u64 << 61u64) & (0xffffu64 << 32u64) == 0,
            (0x1fffu64 << 48u64) & (0x1u64 << 61u64) == 0,
            (0x1u64 << 61u64) & (0x1fffu64 << 48u64) == 0,
            1u64 & 1u64 == 1,
            0u64 & 1u64 == 0,
    {
    }

    /// The raw bits.
    pub fn into_bits(self) -> (r: u64)
        ensures
            r == self.0,
    {
        self.0
    }

    /// The VHT-MCSs that can be received, per number of spatial streams.
    pub open spec fn spec_rx_vht_mcs_map(self) -> VHTMCSMap {
        VHTMCSMap(get_bits_u64(self.0, 0, 0xffff) as u16)
    }

    /// The VHT-MCSs that can be received, per number of spatial streams.
    pub fn rx_vht_mcs_map(&self) -> (r: VHTMCSMap)
        ensures
            r == self.spec_rx_vht_mcs_map(),
    {
        VHTMCSMap(((self.0 >> 0) & 0xffff) as u16)
    }

    /// Returns a copy with the field replaced by `value`.
    pub fn with_rx_vht_mcs_map(self, value: VHTMCSMap) -> (r: Self)
        ensures
            r.0 == set_bits_u64(self.0, 0, 0xffff, (value.0 as u64)),
            r.spec_rx_vht_mcs_map() == VHTMCSMap((((value.0 as u64) & 0xffff) as u16)),
            r.spec_rx_highest_supported_long_gi_data_rate() == self.spec_rx_highest_supported_long_gi_data_rate(),
            r.spec_maximum_nsts_total() == self.spec_maximum_nsts_total(),
            r.spec_tx_vht_mcs_map() == self.spec_tx_vht_mcs_map(),
            r.spec_tx_highest_supported_long_gi_data_rate() == self.spec_tx_highest_supported_long_gi_data_rate(),
            r.spec_vht_extended_nss_bw_capable() == self.spec_vht_extended_nss_bw_capable(),
    {
        let v: u64 = value.0 as u64;
        proof {
            Self::lemma_masks_fit();
            lemma_set_bits_u64(self.0, 0, 0xffff, v, 0, 0xffff);
            lemma_set_bits_u64(self.0, 0, 0xffff, v, 16, 0x1fff);
            lemma_set_bits_u64(self.0, 0, 0xffff, v, 29, 0x7);
            lemma_set_bits_u64(self.0, 0, 0xffff, v, 32, 0xffff);
            lemma_set_bits_u64(self.0, 0, 0xffff, v, 48, 0x1fff);
            lemma_set_bits_u64(self.0, 0, 0xffff, v, 61, 0x1);
        }
        Self((self.0 & !(0xffffu64 << 0u64)) | ((v & 0xffff) << 0u64))
    }

    /// The highest long GI data rate that can be received.
    pub open spec fn spec_rx_highest_supported_long_gi_data_rate(self) -> u16 {
        get_bits_u64(self.0, 16, 0x1fff) as u16
    }

    /// The highest long GI data rate that can be received.
    pub fn rx_highest_supported_long_gi_data_rate(&self) -> (r: u16)
        ensures
            r == self.spec_rx_highest_supported_long_gi_data_rate(),
    {
        ((self.0 >> 16) & 0x1fff) as u16
    }

    /// Returns a copy with the field replaced by `value`.
    pub fn with_rx_highest_supported_long_gi_data_rate(self, value: u16) -> (r: Self)
        ensures
            r.0 == set_bits_u64(self.0, 16, 0x1fff, (value as u64)),
            r.spec_rx_highest_supported_long_gi_data_rate() == ((value as u64) & 0x1fff) as u16,
            r.spec_rx_vht_mcs_map() == self.spec_rx_vht_mcs_map(),
            r.spec_maximum_nsts_total() == self.spec_maximum_nsts_total(),
            r.spec_tx_vht_mcs_map() == self.spec_tx_vht_mcs_map(),
            r.spec_tx_highest_supported_long_gi_data_rate() == self.spec_tx_highest_supported_long_gi_data_rate(),
            r.spec_vht_extended_nss_bw_capable() == self.spec_vht_extended_nss_bw_capable(),
    {
        let v: u64 = value as u64;
        proof {
            Self::lemma_masks_fit();
            lemma_set_bits_u64(self.0, 16, 0x1fff, v, 16, 0x1fff);
            lemma_set_bits_u64(self.0, 16, 0x1fff, v, 0, 0xffff);
            lemma_set_bits_u64(self.0, 16, 0x1fff, v, 29, 0x7);
            lemma_set_bits_u64(self.0, 16, 0x1fff, v, 32, 0xffff);
            lemma_set_bits_u64(self.0, 16, 0x1fff, v, 48, 0x1fff);
            lemma_set_bits_u64(self.0, 16, 0x1fff, v, 61, 0x1);
        }
        Self((self.0 & !(0x1fffu64 << 16u64)) | ((v & 0x1fff) << 16u64))
    }

    /// The maximum number of space-time streams in total.
    pub open spec fn spec_maximum_nsts_total(self) -> u8 {
        get_bits_u64(self.0, 29, 0x7) as u8
    }

    /// The maximum number of space-time streams in total.
    pub fn maximum_nsts_total(&self) -> (r: u8)
        ensures
            r == self.spec_maximum_nsts_total(),
    {
        ((self.0 >> 29) & 0x7) as u8
    }

    /// Returns a copy with the field replaced by `value`.
    pub fn with_maximum_nsts_total(self, value: u8) -> (r: Self)
        ensures
            r.0 == set_bits_u64(self.0, 29, 0x7, (value as u64)),
            r.spec_maximum_nsts_total() == ((value as u64) & 0x7) as u8,
            r.spec_rx_vht_mcs_map() == self.spec_rx_vht_mcs_map(),
            r.spec_rx_highest_supported_long_gi_data_rate() == self.spec_rx_highest_supported_long_gi_data_rate(),
            r.spec_tx_vht_mcs_map() == self.spec_tx_vht_mcs_map(),
            r.spec_tx_highest_supported_long_gi_data_rate() == self.spec_tx_highest_supported_long_gi_data_rate(),
            r.spec_vht_extended_nss_bw_capable() == self.spec_vht_extended_nss_bw_capable(),
    {
        let v: u64 = value as u64;
        proof {
            Self::lemma_masks_fit();
            lemma_set_bits_u64(self.0, 29, 0x7, v, 29, 0x7);
            lemma_set_bits_u64(self.0, 29, 0x7, v, 0, 0xffff);
            lemma_set_bits_u64(self.0, 29, 0x7, v, 16, 0x1fff);
            lemma_set_bits_u64(self.0, 29, 0x7, v, 32, 0xffff);
            lemma_set_bits_u64(self.0, 29, 0x7, v, 48, 0x1fff);
            lemma_set_bits_u64(self.0, 29, 0x7, v, 61, 0x1);
        }
        Self((self.0 & !(0x7u64 << 29u64)) | ((v & 0x7) << 29u64))
    }

    /// The VHT-MCSs that can be transmitted, per number of spatial streams.
    pub open spec fn spec_tx_vht_mcs_map(self) -> VHTMCSMap {
        VHTMCSMap(get_bits_u64(self.0, 32, 0xffff) as u16)
    }

    /// The VHT-MCSs that can be transmitted, per number of spatial streams.
    pub fn tx_vht_mcs_map(&self) -> (r: VHTMCSMap)
        ensures
            r == self.spec_tx_vht_mcs_map(),
    {
        VHTMCSMap(((self.0 >> 32) & 0xffff) as u16)
    }

    /// Returns a copy with the field replaced by `value`.
    pub fn with_tx_vht_mcs_map(self, value: VHTMCSMap) -> (r: Self)
        ensures
            r.0 == set_bits_u64(self.0, 32, 0xffff, (value.0 as u64)),
            r.spec_tx_vht_mcs_map() == VHTMCSMap((((value.0 as u64) & 0xffff) as u16)),
            r.spec_rx_vht_mcs_map() == self.spec_rx_vht_mcs_map(),
            r.spec_rx_highest_supported_long_gi_data_rate() == self.spec_rx_highest_supported_long_gi_data_rate(),
            r.spec_maximum_nsts_total() == self.spec_maximum_nsts_total(),
            r.spec_tx_highest_supported_long_gi_data_rate() == self.spec_tx_highest_supported_long_gi_data_rate(),
            r.spec_vht_extended_nss_bw_capable() == self.spec_vht_extended_nss_bw_capable(),
    {
        let v: u64 = value.0 as u64;
        proof {
            Self::lemma_masks_fit();
            lemma_set_bits_u64(self.0, 32, 0xffff, v, 32, 0xffff);
            lemma_set_bits_u64(self.0, 32, 0xffff, v, 0, 0xffff);
            lemma_set_bits_u64(self.0, 32, 0xffff, v, 16, 0x1fff);
            lemma_set_bits_u64(self.0, 32, 0xffff, v, 29, 0x7);
            lemma_set_bits_u64(self.0, 32, 0xffff, v, 48, 0x1fff);
            lemma_set_bits_u64(self.0, 32, 0xffff, v, 61, 0x1);
        }
        Self((self.0 & !(0xffffu64 << 32u64)) | ((v & 0xffff) << 32u64))
    }

    /// The highest long GI data rate that can be transmitted.
    pub open spec fn spec_tx_highest_supported_long_gi_data_rate(self) -> u16 {
        get_bits_u64(self.0, 48, 0x1fff) as u16
    }

    /// The highest long GI data rate that can be transmitted.
    pub fn tx_highest_supported_long_gi_data_rate(&self) -> (r: u16)
        ensures
            r == self.spec_tx_highest_supported_long_gi_data_rate(),
    {
        ((self.0 >> 48) & 0x1fff) as u16
    }

    /// Returns a copy with the field replaced by `value`.
    pub fn with_tx_highest_supported_long_gi_data_rate(self, value: u16) -> (r: Self)
        ensures
            r.0 == set_bits_u64(self.0, 48, 0x1fff, (value as u64)),
            r.spec_tx_highest_supported_long_gi_data_rate() == ((value as u64) & 0x1fff) as u16,
            r.spec_rx_vht_mcs_map() == self.spec_rx_vht_mcs_map(),
            r.spec_rx_highest_supported_long_gi_data_rate() == self.spec_rx_highest_supported_long_gi_data_rate(),
            r.spec_maximum_nsts_total() == self.spec_maximum_nsts_total(),
            r.spec_tx_vht_mcs_map() == self.spec_tx_vht_mcs_map(),
            r.spec_vht_extended_nss_bw_capable() == self.spec_vht_extended_nss_bw_capable(),
    {
        let v: u64 = value as u64;
        proof {
            Self::lemma_masks_fit();
            lemma_set_bits_u64(self.0, 48, 0x1fff, v, 48, 0x1fff);
            lemma_set_bits_u64(self.0, 48, 0x1fff, v, 0, 0xffff);
            lemma_set_bits_u64(self.0, 48, 0x1fff, v, 16, 0x1fff);
            lemma_set_bits_u64(self.0, 48, 0x1fff, v, 29, 0x7);
            lemma_set_bits_u64(self.0, 48, 0x1fff, v, 32, 0xffff);
            lemma_set_bits_u64(self.0, 48, 0x1fff, v, 61, 0x1);
        }
        Self((self.0 & !(0x1fffu64 << 48u64)) | ((v & 0x1fff) << 48u64))
    }

    /// The extended NSS bandwidth support field is meaningful.
    pub open spec fn spec_vht_extended_nss_bw_capable(self) -> bool {
        get_bits_u64(self.0, 61, 1) == 1
    }

    /// The extended NSS bandwidth support field is meaningful.
    pub fn vht_extended_nss_bw_capable(&self) -> (r: bool)
        ensures
            r == self.spec_vht_extended_nss_bw_capable(),
    {
        (self.0 >> 61) & 1 == 1
    }

    /// Returns a copy with the field replaced by `value`.
    pub fn with_vht_extended_nss_bw_capable(self, value: bool) -> (r: Self)
        ensures
            r.0 == set_bits_u64(self.0, 61, 0x1, (if value {
                1u64
            } else {
                0u64
            })),
            r.spec_vht_extended_nss_bw_capable() == value,
            r.spec_rx_vht_mcs_map() == self.spec_rx_vht_mcs_map(),
            r.spec_rx_highest_supported_long_gi_data_rate() == self.spec_rx_highest_supported_long_gi_data_rate(),
            r.spec_maximum_nsts_total() == self.spec_maximum_nsts_total(),
            r.spec_tx_vht_mcs_map() == self.spec_tx_vht_mcs_map(),
            r.spec_tx_highest_supported_long_gi_data_rate() == self.spec_tx_highest_supported_long_gi_data_rate(),
    {
        let v: u64 = if value {
            1
        } else {
            0
        };
        proof {
            Self::lemma_masks_fit();
            lemma_set_bits_u64(self.0, 61, 0x1, v, 61, 0x1);
            lemma_set_bits_u64(self.0, 61, 0x1, v, 0, 0xffff);
            lemma_set_bits_u64(self.0, 61, 0x1, v, 16, 0x1fff);
            lemma_set_bits_u64(self.0, 61, 0x1, v, 29, 0x7);
            lemma_set_bits_u64(self.0, 61, 0x1, v, 32, 0xffff);
            lemma_set_bits_u64(self.0, 61, 0x1, v, 48, 0x1fff);
        }
        Self((self.0 & !(0x1u64 << 61u64)) | ((v & 0x1) << 61u64))
    }
}

/// The capabilities of the STA's VHT PHY.
#[derive(Clone, Copy, Debug, PartialEq, Eq, Hash, Structural)]
pub struct VHTCapabilitiesElement {
    /// General information about the VHT capabilities.
    pub vht_capabilities_info: VHTCapabilitiesInfo,
    /// The supported VHT-MCSs and spatial streams.
    pub supported_vht_mcs_and_nss_set: SupportedVHTMCSAndNSSSet,
}

impl VHTCapabilitiesElement {
    /// The result of reading the element body at the start of `s`.
    pub open spec fn spec_parse(s: Seq<u8>) -> Result<(VHTCapabilitiesElement, usize), Error> {
        if s.len() < 12 {
            Err(Error::TooShort)
        } else {
            Ok((VHTCapabilitiesElement {
                vht_capabilities_info: VHTCapabilitiesInfo(le_u32(s, 0)),
                supported_vht_mcs_and_nss_set: SupportedVHTMCSAndNSSSet(le_u64(s, 4)),
            }, 12))
        }
    }

    /// The serialized element body.
    pub open spec fn spec_bytes(self) -> Seq<u8> {
        u32_le_bytes(self.vht_capabilities_info.0) + u64_le_bytes(self.supported_vht_mcs_and_nss_set.0)
    }

    /// Read the element body at the start of `from`.
    ///
    /// Fails with [Error::TooShort] on fewer than 12 bytes.
    pub fn try_from_ctx(from: &[u8]) -> (r: Result<(Self, usize), Error>)
        ensures
            r == Self::spec_parse(from@),
    {
        if from.len() < 12 {
            return Err(Error::TooShort);
        }
        Ok((VHTCapabilitiesElement {
            vht_capabilities_info: VHTCapabilitiesInfo(read_u32_le(from, 0)),
            supported_vht_mcs_and_nss_set: SupportedVHTMCSAndNSSSet(read_u64_le(from, 4)),
        }, 12))
    }

    /// The serialized element body.
    pub fn to_bytes(&self) -> (r: Vec<u8>)
        ensures
            r@ == self.spec_bytes(),
    {
        let mut out: Vec<u8> = Vec::new();
        push_u32_le(&mut out, self.vht_capabilities_info.0);
        push_u64_le(&mut out, self.supported_vht_mcs_and_nss_set.0);
        assert(out@ =~= self.spec_bytes());
        out
    }

    /// Write the element body to the start of `buf`, returning the number of bytes written.
    pub fn try_into_ctx(self, buf: &mut [u8]) -> (r: Result<usize, Error>)
        ensures
            final(buf)@.len() == old(buf)@.len(),
            old(buf)@.len() >= 12 ==> r == Ok::<usize, Error>(12) && final(buf)@ == self.spec_bytes()
                + old(buf)@.skip(12),
            old(buf)@.len() < 12 ==> r == Err::<usize, Error>(Error::TooShort),
    {
        let bytes = self.to_bytes();
        write_all(buf, bytes.as_slice())
    }

    /// The length of the serialized element body.
    pub fn measure_with(&self) -> (r: usize)
        ensures
            r == self.spec_bytes().len(),
    {
        12
    }

    /// Reading back a written element body gives the same element.
    pub proof fn lemma_roundtrip(self, rest: Seq<u8>)
        ensures
            Self::spec_parse(self.spec_bytes() + rest) == Ok::<(VHTCapabilitiesElement, usize), Error>((self, 12usize)),
    {
        let s = self.spec_bytes() + rest;
        assert(s.subrange(0, 4) =~= u32_le_bytes(self.vht_capabilities_info.0));
        lemma_u32_at(s, 0, self.vht_capabilities_info.0);
        assert(s.subrange(4, 12) =~= u64_le_bytes(self.supported_vht_mcs_and_nss_set.0));
        lemma_u64_at(s, 4, self.supported_vht_mcs_and_nss_set.0);
        assert((VHTCapabilitiesElement::spec_parse(self.spec_bytes() + rest)->Ok_0).0 =~= self);
    }
}

/// The width of the operating channel.
#[derive(Clone, Copy, Debug, PartialEq, Eq, Hash, Structural)]
pub enum ChannelWidth {
    TwentyOrFourtyMHz,
    EightyOneSixtyOrEightyPlusEightyMhz,
    OneSixtyMHz,
    NonContiguousEightyPlusEightyMHz,
    /// A value without a name.
    Unknown(u8),
}

impl ChannelWidth {
    /// The variant that `value` encodes.
    pub open spec fn spec_from_bits(value: u8) -> Self {
        match value {
            0 => ChannelWidth::TwentyOrFourtyMHz,
            1 => ChannelWidth::EightyOneSixtyOrEightyPlusEightyMhz,
            2 => ChannelWidth::OneSixtyMHz,
            3 => ChannelWidth::NonContiguousEightyPlusEightyMHz,
            x => ChannelWidth::Unknown(x),
        }
    }

    /// The encoding of this variant.
    pub open spec fn spec_into_bits(self) -> u8 {
        match self {
            ChannelWidth::TwentyOrFourtyMHz => 0,
            ChannelWidth::EightyOneSixtyOrEightyPlusEightyMhz => 1,
            ChannelWidth::OneSixtyMHz => 2,
            ChannelWidth::NonContiguousEightyPlusEightyMHz => 3,
            ChannelWidth::Unknown(x) => x,
        }
    }

    /// Decode a variant from its representation.
    pub fn from_bits(value: u8) -> (r: Self)
        ensures
            r == Self::spec_from_bits(value),
            r.spec_into_bits() == value,
    {
        match value {
            0 => ChannelWidth::TwentyOrFourtyMHz,
            1 => ChannelWidth::EightyOneSixtyOrEightyPlusEightyMhz,
            2 => ChannelWidth::OneSixtyMHz,
            3 => ChannelWidth::NonContiguousEightyPlusEightyMHz,
            x => ChannelWidth::Unknown(x),
        }
    }

    /// Encode this variant.
    pub fn into_bits(self) -> (r: u8)
        ensures
            r == self.spec_into_bits(),
    {
        match self {
            ChannelWidth::TwentyOrFourtyMHz => 0,
            ChannelWidth::EightyOneSixtyOrEightyPlusEightyMhz => 1,
            ChannelWidth::OneSixtyMHz => 2,
            ChannelWidth::NonContiguousEightyPlusEightyMHz => 3,
            ChannelWidth::Unknown(x) => x,
        }
    }
}

/// The current VHT operation characteristics.
#[derive(Clone, Copy, Debug, PartialEq, Eq, Hash, Structural)]
pub struct VHTOperationElement {
    /// The width of the operating channel.
    pub channel_bandwidth: ChannelWidth,
    /// The center frequency of the first channel segment.
    pub channel_center_frequency_segment_0: u8,
    /// The center frequency of the second channel segment.
    pub channel_center_frequency_segment_1: u8,
    /// The VHT-MCSs and spatial streams every STA in the BSS supports.
    pub basic_vht_mcs_and_nss_set: VHTMCSMap,
}

impl VHTOperationElement {
    /// The result of reading the element body at the start of `s`.
    pub open spec fn spec_parse(s: Seq<u8>) -> Result<(VHTOperationElement, usize), Error> {
        if s.len() < 5 {
            Err(Error::TooShort)
        } else {
            Ok((VHTOperationElement {
                channel_bandwidth: ChannelWidth::spec_from_bits(s[0]),
                channel_center_frequency_segment_0: s[1],
                channel_center_frequency_segment_1: s[2],
                basic_vht_mcs_and_nss_set: VHTMCSMap(le_u16(s, 3)),
            }, 5))
        }
    }

    /// The serialized element body.
    pub open spec fn spec_bytes(self) -> Seq<u8> {
        seq![self.channel_bandwidth.spec_into_bits()] + seq![self.channel_center_frequency_segment_0] + seq![self.channel_center_frequency_segment_1] + u16_le_bytes(self.basic_vht_mcs_and_nss_set.0)
    }

    /// Read the element body at the start of `from`.
    ///
    /// Fails with [Error::TooShort] on fewer than 5 bytes.
    pub fn try_from_ctx(from: &[u8]) -> (r: Result<(Self, usize), Error>)
        ensures
            r == Self::spec_parse(from@),
    {
        if from.len() < 5 {
            return Err(Error::TooShort);
        }
        Ok((VHTOperationElement {
            channel_bandwidth: ChannelWidth::from_bits(from[0]),
            channel_center_frequency_segment_0: from[1],
            channel_center_frequency_segment_1: from[2],
            basic_vht_mcs_and_nss_set: VHTMCSMap(read_u16_le(from, 3)),
        }, 5))
    }

    /// The serialized element body.
    pub fn to_bytes(&self) -> (r: Vec<u8>)
        ensures
            r@ == self.spec_bytes(),
    {
        let mut out: Vec<u8> = Vec::new();
        out.push(self.channel_bandwidth.into_bits());
        out.push(self.channel_center_frequency_segment_0);
        out.push(self.channel_center_frequency_segment_1);
        push_u16_le(&mut out, self.basic_vht_mcs_and_nss_set.0);
        assert(out@ =~= self.spec_bytes());
        out
    }

    /// Write the element body to the start of `buf`, returning the number of bytes written.
    pub fn try_into_ctx(self, buf: &mut [u8]) -> (r: Result<usize, Error>)
        ensures
            final(buf)@.len() == old(buf)@.len(),
            old(buf)@.len() >= 5 ==> r == Ok::<usize, Error>(5) && final(buf)@ == self.spec_bytes()
                + old(buf)@.skip(5),
            old(buf)@.len() < 5 ==> r == Err::<usize, Error>(Error::TooShort),
    {
        let bytes = self.to_bytes();
        write_all(buf, bytes.as_slice())
    }

    /// The length of the serialized element body.
    pub fn measure_with(&self) -> (r: usize)
        ensures
            r == self.spec_bytes().len(),
    {
        5
    }

    /// Reading back a written element body gives the same element.
    pub proof fn lemma_roundtrip(self, rest: Seq<u8>)
        requires
            ChannelWidth::spec_from_bits(self.channel_bandwidth.spec_into_bits()) == self.channel_bandwidth,
        ensures
            Self::spec_parse(self.spec_bytes() + rest) == Ok::<(VHTOperationElement, usize), Error>((self, 5usize)),
    {
        let s = self.spec_bytes() + rest;
        assert(s[0] == self.channel_bandwidth.spec_into_bits());
        assert(s[1] == self.channel_center_frequency_segment_0);
        assert(s[2] == self.channel_center_frequency_segment_1);
        assert(s.subrange(3, 5) =~= u16_le_bytes(self.basic_vht_mcs_and_nss_set.0));
        lemma_u16_at(s, 3, self.basic_vht_mcs_and_nss_set.0);
        assert((VHTOperationElement::spec_parse(self.spec_bytes() + rest)->Ok_0).0 =~= self);
    }
}

impl Element for VHTCapabilitiesElement {
    type ReadType<'a> = VHTCapabilitiesElement;

    open spec fn spec_body(&self) -> Seq<u8> {
        self.spec_bytes()
    }

    fn body_bytes(&self) -> (r: Vec<u8>) {
        self.to_bytes()
    }

    open spec fn spec_element_id() -> ElementID {
        ElementID::Id(0xbf)
    }

    open spec fn spec_read<'a>(body: Seq<u8>, r: Option<VHTCapabilitiesElement>) -> bool {
        r == match Self::spec_parse(body) {
            Ok((e, _)) => Some(e),
            Err(_) => None::<VHTCapabilitiesElement>,
        }
    }

    fn element_id() -> (r: ElementID) {
        ElementID::Id(0xbf)
    }

    fn read<'a>(body: &'a [u8]) -> (r: Option<VHTCapabilitiesElement>) {
        match VHTCapabilitiesElement::try_from_ctx(body) {
            Ok((e, _)) => Some(e),
            Err(_) => None,
        }
    }
}

impl Element for VHTOperationElement {
    type ReadType<'a> = VHTOperationElement;

    open spec fn spec_body(&self) -> Seq<u8> {
        self.spec_bytes()
    }

    fn body_bytes(&self) -> (r: Vec<u8>) {
        self.to_bytes()
    }

    open spec fn spec_element_id() -> ElementID {
        ElementID::Id(0xc0)
    }

    open spec fn spec_read<'a>(body: Seq<u8>, r: Option<VHTOperationElement>) -> bool {
        r == match Self::spec_parse(body) {
            Ok((e, _)) => Some(e),
            Err(_) => None::<VHTOperationElement>,
        }
    }

    fn element_id() -> (r: ElementID) {
        ElementID::Id(0xc0)
    }

    fn read<'a>(body: &'a [u8]) -> (r: Option<VHTOperationElement>) {
        match VHTOperationElement::try_from_ctx(body) {
            Ok((e, _)) => Some(e),
            Err(_) => None,
        }
    }
}

/// The numbering of [VHTMCSSupport]: each named value is read from its own number and written as that
/// number, and any other number is kept as an unknown value.
pub proof fn lemma_vhtmcs_support_numbering(value: u8)
    ensures
        (VHTMCSSupport::spec_from_bits(value) == VHTMCSSupport::ZeroToSeven) == (value == 0),
        (VHTMCSSupport::spec_from_bits(value) == VHTMCSSupport::ZeroToEight) == (value == 1),
        (VHTMCSSupport::spec_from_bits(value) == VHTMCSSupport::ZeroToNine) == (value == 2),
        (VHTMCSSupport::spec_from_bits(value) == VHTMCSSupport::NotSupported) == (value == 3),
        VHTMCSSupport::ZeroToSeven.spec_into_bits() == 0,
        VHTMCSSupport::ZeroToEight.spec_into_bits() == 1,
        VHTMCSSupport::ZeroToNine.spec_into_bits() == 2,
        VHTMCSSupport::NotSupported.spec_into_bits() == 3,
        (VHTMCSSupport::spec_from_bits(value) == VHTMCSSupport::Unknown(value)) == !(
            value == 0 || value == 1 || value == 2 || value == 3),
{
}

/// The numbering of [ChannelWidth]: each named value is read from its own number and written as that
/// number, and any other number is kept as an unknown value.
pub proof fn lemma_channel_width_numbering(value: u8)
    ensures
        (ChannelWidth::spec_from_bits(value) == ChannelWidth::TwentyOrFourtyMHz) == (value == 0),
        (ChannelWidth::spec_from_bits(value) == ChannelWidth::EightyOneSixtyOrEightyPlusEightyMhz) == (value == 1),
        (ChannelWidth::spec_from_bits(value) == ChannelWidth::OneSixtyMHz) == (value == 2),
        (ChannelWidth::spec_from_bits(value) == ChannelWidth::NonContiguousEightyPlusEightyMHz) == (value == 3),
        ChannelWidth::TwentyOrFourtyMHz.spec_into_bits() == 0,
        ChannelWidth::EightyOneSixtyOrEightyPlusEightyMhz.spec_into_bits() == 1,
        ChannelWidth::OneSixtyMHz.spec_into_bits() == 2,
        ChannelWidth::NonContiguousEightyPlusEightyMHz.spec_into_bits() == 3,
        (ChannelWidth::spec_from_bits(value) == ChannelWidth::Unknown(value)) == !(
            value == 0 || value == 1 || value == 2 || value == 3),
{
}

/// The channel width of a VHT operation element is its first byte, numbered as the standard
/// numbers it: 0 for 20 or 40 MHz, 1 for 80, 160 or 80+80 MHz, 2 for 160 MHz and 3 for
/// non-contiguous 80+80 MHz. Reading gives each width exactly for its number, and writing a width
/// puts its number first.
pub proof fn lemma_vht_operation_channel_width(s: Seq<u8>, e: VHTOperationElement)
    ensures
        s.len() >= 5 ==> (VHTOperationElement::spec_parse(s) matches Ok((r, n)) && ({
                &&& (r.channel_bandwidth == ChannelWidth::TwentyOrFourtyMHz) == (s[0] == 0)
                &&& (r.channel_bandwidth == ChannelWidth::EightyOneSixtyOrEightyPlusEightyMhz) == (s[0] == 1)
                &&& (r.channel_bandwidth == ChannelWidth::OneSixtyMHz) == (s[0] == 2)
                &&& (r.channel_bandwidth == ChannelWidth::NonContiguousEightyPlusEightyMHz) == (s[0] == 3)
        })),
        e.channel_bandwidth == ChannelWidth::TwentyOrFourtyMHz ==> e.spec_bytes()[0] == 0,
        e.channel_bandwidth == ChannelWidth::EightyOneSixtyOrEightyPlusEightyMhz ==> e.spec_bytes()[0] == 1,
        e.channel_bandwidth == ChannelWidth::OneSixtyMHz ==> e.spec_bytes()[0] == 2,
        e.channel_bandwidth == ChannelWidth::NonContiguousEightyPlusEightyMHz ==> e.spec_bytes()[0] == 3,
{
    if s.len() >= 5 {
        lemma_channel_width_numbering(s[0]);
    }
    lemma_channel_width_numbering(0);
}

} // verus!
