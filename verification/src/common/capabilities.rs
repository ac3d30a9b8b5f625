//! The capabilities information field.
use crate::common::bits::{fits_u16, get_bits_u16, lemma_set_bits_u16, set_bits_u16};
use vstd::prelude::*;

verus! {

/// This bitfield contains the capabilities of the sender.
#[derive(Clone, Copy, Debug, PartialEq, Eq, Hash, Structural)]
pub struct CapabilitiesInformation(pub u16);

impl CapabilitiesInformation {
    /// A value with every field at its default.
    pub fn new() -> (r: Self)
        ensures
            r.0 == 0x0,
    {
        Self(0x0)
    }

    /// Wrap the raw bits.
    pub fn from_bits(bits: u16) -> (r: Self)
        ensures
            r.0 == bits,
    {
        Self(bits)
    }

    /// Every field mask fits in the backing integer.
    proof fn lemma_masks_fit()
        by (bit_vector)
        ensures
            fits_u16(0, 0x1),
            fits_u16(1, 0x1),
            fits_u16(4, 0x1),
            fits_u16(5, 0x1),
            fits_u16(8, 0x1),
            fits_u16(9, 0x1),
            fits_u16(10, 0x1),
            fits_u16(11, 0x1),
            fits_u16(12, 0x1),
            fits_u16(13, 0x1),
            (0x1u16 << 0u16) & (0x1u16 << 1u16) == 0,
            (0x1u16 << 1u16) & (0x1u16 << 0u16) == 0,
            (0x1u16 << 0u16) & (0x1u16 << 4u16) == 0,
            (0x1u16 << 4u16) & (0x1u16 << 0u16) == 0,
            (0x1u16 << 0u16) & (0x1u16 << 5u16) == 0,
            (0x1u16 << 5u16) & (0x1u16 << 0u16) == 0,
            (0x1u16 << 0u16) & (0x1u16 << 8u16) == 0,
            (0x1u16 << 8u16) & (0x1u16 << 0u16) == 0,
            (0x1u16 << 0u16) & (0x1u16 << 9u16) == 0,
            (0x1u16 << 9u16) & (0x1u16 << 0u16) == 0,
            (0x1u16 << 0u16) & (0x1u16 << 10u16) == 0,
            (0x1u16 << 10u16) & (0x1u16 << 0u16) == 0,
            (0x1u16 << 0u16) & (0x1u16 << 11u16) == 0,
            (0x1u16 << 11u16) & (0x1u16 << 0u16) == 0,
            (0x1u16 << 0u16) & (0x1u16 << 12u16) == 0,
            (0x1u16 << 12u16) & (0x1u16 << 0u16) == 0,
            (0x1u16 << 0u16) & (0x1u16 << 13u16) == 0,
            (0x1u16 << 13u16) & (0x1u16 << 0u16) == 0,
            (0x1u16 << 1u16) & (0x1u16 << 4u16) == 0,
            (0x1u16 << 4u16) & (0x1u16 << 1u16) == 0,
            (0x1u16 << 1u16) & (0x1u16 << 5u16) == 0,
            (0x1u16 << 5u16) & (0x1u16 << 1u16) == 0,
            (0x1u16 << 1u16) & (0x1u16 << 8u16) == 0,
            (0x1u16 << 8u16) & (0x1u16 << 1u16) == 0,
            (0x1u16 << 1u16) & (0x1u16 << 9u16) == 0,
            (0x1u16 << 9u16) & (0x1u16 << 1u16) == 0,
            (0x1u16 << 1u16) & (0x1u16 << 10u16) == 0,
            (0x1u16 << 10u16) & (0x1u16 << 1u16) == 0,
            (0x1u16 << 1u16) & (0x1u16 << 11u16) == 0,
            (0x1u16 << 11u16) & (0x1u16 << 1u16) == 0,
            (0x1u16 << 1u16) & (0x1u16 << 12u16) == 0,
            (0x1u16 << 12u16) & (0x1u16 << 1u16) == 0,
            (0x1u16 << 1u16) & (0x1u16 << 13u16) == 0,
            (0x1u16 << 13u16) & (0x1u16 << 1u16) == 0,
            (0x1u16 << 4u16) & (0x1u16 << 5u16) == 0,
            (0x1u16 << 5u16) & (0x1u16 << 4u16) == 0,
            (0x1u16 << 4u16) & (0x1u16 << 8u16) == 0,
            (0x1u16 << 8u16) & (0x1u16 << 4u16) == 0,
            (0x1u16 << 4u16) & (0x1u16 << 9u16) == 0,
            (0x1u16 << 9u16) & (0x1u16 << 4u16) == 0,
            (0x1u16 << 4u16) & (0x1u16 << 10u16) == 0,
            (0x1u16 << 10u16) & (0x1u16 << 4u16) == 0,
            (0x1u16 << 4u16) & (0x1u16 << 11u16) == 0,
            (0x1u16 << 11u16) & (0x1u16 << 4u16) == 0,
            (0x1u16 << 4u16) & (0x1u16 << 12u16) == 0,
            (0x1u16 << 12u16) & (0x1u16 << 4u16) == 0,
            (0x1u16 << 4u16) & (0x1u16 << 13u16) == 0,
            (0x1u16 << 13u16) & (0x1u16 << 4u16) == 0,
            (0x1u16 << 5u16) & (0x1u16 << 8u16) == 0,
            (0x1u16 << 8u16) & (0x1u16 << 5u16) == 0,
            (0x1u16 << 5u16) & (0x1u16 << 9u16) == 0,
            (0x1u16 << 9u16) & (0x1u16 << 5u16) == 0,
            (0x1u16 << 5u16) & (0x1u16 << 10u16) == 0,
            (0x1u16 << 10u16) & (0x1u16 << 5u16) == 0,
            (0x1u16 << 5u16) & (0x1u16 << 11u16) == 0,
            (0x1u16 << 11u16) & (0x1u16 << 5u16) == 0,
            (0x1u16 << 5u16) & (0x1u16 << 12u16) == 0,
            (0x1u16 << 12u16) & (0x1u16 << 5u16) == 0,
            (0x1u16 << 5u16) & (0x1u16 << 13u16) == 0,
            (0x1u16 << 13u16) & (0x1u16 << 5u16) == 0,
            (0x1u16 << 8u16) & (0x1u16 << 9u16) == 0,
            (0x1u16 << 9u16) & (0x1u16 << 8u16) == 0,
            (0x1u16 << 8u16) & (0x1u16 << 10u16) == 0,
            (0x1u16 << 10u16) & (0x1u16 << 8u16) == 0,
            (0x1u16 << 8u16) & (0x1u16 << 11u16) == 0,
            (0x1u16 << 11u16) & (0x1u16 << 8u16) == 0,
            (0x1u16 << 8u16) & (0x1u16 << 12u16) == 0,
            (0x1u16 << 12u16) & (0x1u16 << 8u16) == 0,
            (0x1u16 << 8u16) & (0x1u16 << 13u16) == 0,
            (0x1u16 << 13u16) & (0x1u16 << 8u16) == 0,
            (0x1u16 << 9u16) & (0x1u16 << 10u16) == 0,
            (0x1u16 << 10u16) & (0x1u16 << 9u16) == 0,
            (0x1u16 << 9u16) & (0x1u16 << 11u16) == 0,
            (0x1u16 << 11u16) & (0x1u16 << 9u16) == 0,
            (0x1u16 << 9u16) & (0x1u16 << 12u16) == 0,
            (0x1u16 << 12u16) & (0x1u16 << 9u16) == 0,
            (0x1u16 << 9u16) & (0x1u16 << 13u16) == 0,
            (0x1u16 << 13u16) & (0x1u16 << 9u16) == 0,
            (0x1u16 << 10u16) & (0x1u16 << 11u16) == 0,
            (0x1u16 << 11u16) & (0x1u16 << 10u16) == 0,
            (0x1u16 << 10u16) & (0x1u16 << 12u16) == 0,
            (0x1u16 << 12u16) & (0x1u16 << 10u16) == 0,
            (0x1u16 << 10u16) & (0x1u16 << 13u16) == 0,
            (0x1u16 << 13u16) & (0x1u16 << 10u16) == 0,
            (0x1u16 << 11u16) & (0x1u16 << 12u16) == 0,
            (0x1u16 << 12u16) & (0x1u16 << 11u16) == 0,
            (0x1u16 << 11u16) & (0x1u16 << 13u16) == 0,
            (0x1u16 << 13u16) & (0x1u16 << 11u16) == 0,
            (0x1u16 << 12u16) & (0x1u16 << 13u16) == 0,
            (0x1u16 << 13u16) & (0x1u16 << 12u16) == 0,
            1u16 & 1u16 == 1,
            0u16 & 1u16 == 0,
    {
    }

    /// The raw bits.
    pub fn into_bits(self) -> (r: u16)
        ensures
            r == self.0,
    {
        self.0
    }

    /// The sender is an access point of an infrastructure BSS.
    pub open spec fn spec_is_ess(self) -> bool {
        get_bits_u16(self.0, 0, 1) == 1
    }

    /// The sender is an access point of an infrastructure BSS.
    pub fn is_ess(&self) -> (r: bool)
        ensures
            r == self.spec_is_ess(),
    {
        (self.0 >> 0) & 1 == 1
    }

    /// Returns a copy with the field replaced by `value`.
    pub fn with_is_ess(self, value: bool) -> (r: Self)
        ensures
            r.0 == set_bits_u16(self.0, 0, 0x1, (if value {
                1u16
            } else {
                0u16
            })),
            r.spec_is_ess() == value,
            r.spec_is_ibss() == self.spec_is_ibss(),
            r.spec_is_confidentiality_required() == self.spec_is_confidentiality_required(),
            r.spec_is_short_preamble_allowed() == self.spec_is_short_preamble_allowed(),
            r.spec_is_spectrum_management_implemented() == self.spec_is_spectrum_management_implemented(),
            r.spec_is_qos_implemented() == self.spec_is_qos_implemented(),
            r.spec_is_short_time_slot_in_use() == self.spec_is_short_time_slot_in_use(),
            r.spec_is_auto_power_save_implemented() == self.spec_is_auto_power_save_implemented(),
            r.spec_is_radio_measurement_implemented() == self.spec_is_radio_measurement_implemented(),
            r.spec_is_epd_implemented() == self.spec_is_epd_implemented(),
    {
        let v: u16 = if value {
            1
        } else {
            0
        };
        proof {
            Self::lemma_masks_fit();
            lemma_set_bits_u16(self.0, 0, 0x1, v, 0, 0x1);
            lemma_set_bits_u16(self.0, 0, 0x1, v, 1, 0x1);
            lemma_set_bits_u16(self.0, 0, 0x1, v, 4, 0x1);
            lemma_set_bits_u16(self.0, 0, 0x1, v, 5, 0x1);
            lemma_set_bits_u16(self.0, 0, 0x1, v, 8, 0x1);
            lemma_set_bits_u16(self.0, 0, 0x1, v, 9, 0x1);
            lemma_set_bits_u16(self.0, 0, 0x1, v, 10, 0x1);
            lemma_set_bits_u16(self.0, 0, 0x1, v, 11, 0x1);
            lemma_set_bits_u16(self.0, 0, 0x1, v, 12, 0x1);
            lemma_set_bits_u16(self.0, 0, 0x1, v, 13, 0x1);
        }
        Self((self.0 & !(0x1u16 << 0u16)) | ((v & 0x1) << 0u16))
    }

    /// The sender is part of an independent BSS.
    pub open spec fn spec_is_ibss(self) -> bool {
        get_bits_u16(self.0, 1, 1) == 1
    }

    /// The sender is part of an independent BSS.
    pub fn is_ibss(&self) -> (r: bool)
        ensures
            r == self.spec_is_ibss(),
    {
        (self.0 >> 1) & 1 == 1
    }

    /// Returns a copy with the field replaced by `value`.
    pub fn with_is_ibss(self, value: bool) -> (r: Self)
        ensures
            r.0 == set_bits_u16(self.0, 1, 0x1, (if value {
                1u16
            } else {
                0u16
            })),
            r.spec_is_ibss() == value,
            r.spec_is_ess() == self.spec_is_ess(),
            r.spec_is_confidentiality_required() == self.spec_is_confidentiality_required(),
            r.spec_is_short_preamble_allowed() == self.spec_is_short_preamble_allowed(),
            r.spec_is_spectrum_management_implemented() == self.spec_is_spectrum_management_implemented(),
            r.spec_is_qos_implemented() == self.spec_is_qos_implemented(),
            r.spec_is_short_time_slot_in_use() == self.spec_is_short_time_slot_in_use(),
            r.spec_is_auto_power_save_implemented() == self.spec_is_auto_power_save_implemented(),
            r.spec_is_radio_measurement_implemented() == self.spec_is_radio_measurement_implemented(),
            r.spec_is_epd_implemented() == self.spec_is_epd_implemented(),
    {
        let v: u16 = if value {
            1
        } else {
            0
        };
        proof {
            Self::lemma_masks_fit();
            lemma_set_bits_u16(self.0, 1, 0x1, v, 1, 0x1);
            lemma_set_bits_u16(self.0, 1, 0x1, v, 0, 0x1);
            lemma_set_bits_u16(self.0, 1, 0x1, v, 4, 0x1);
            lemma_set_bits_u16(self.0, 1, 0x1, v, 5, 0x1);
            lemma_set_bits_u16(self.0, 1, 0x1, v, 8, 0x1);
            lemma_set_bits_u16(self.0, 1, 0x1, v, 9, 0x1);
            lemma_set_bits_u16(self.0, 1, 0x1, v, 10, 0x1);
            lemma_set_bits_u16(self.0, 1, 0x1, v, 11, 0x1);
            lemma_set_bits_u16(self.0, 1, 0x1, v, 12, 0x1);
            lemma_set_bits_u16(self.0, 1, 0x1, v, 13, 0x1);
        }
        Self((self.0 & !(0x1u16 << 1u16)) | ((v & 0x1) << 1u16))
    }

    /// Data confidentiality is required.
    pub open spec fn spec_is_confidentiality_required(self) -> bool {
        get_bits_u16(self.0, 4, 1) == 1
    }

    /// Data confidentiality is required.
    pub fn is_confidentiality_required(&self) -> (r: bool)
        ensures
            r == self.spec_is_confidentiality_required(),
    {
        (self.0 >> 4) & 1 == 1
    }

    /// Returns a copy with the field replaced by `value`.
    pub fn with_is_confidentiality_required(self, value: bool) -> (r: Self)
        ensures
            r.0 == set_bits_u16(self.0, 4, 0x1, (if value {
                1u16
            } else {
                0u16
            })),
            r.spec_is_confidentiality_required() == value,
            r.spec_is_ess() == self.spec_is_ess(),
            r.spec_is_ibss() == self.spec_is_ibss(),
            r.spec_is_short_preamble_allowed() == self.spec_is_short_preamble_allowed(),
            r.spec_is_spectrum_management_implemented() == self.spec_is_spectrum_management_implemented(),
            r.spec_is_qos_implemented() == self.spec_is_qos_implemented(),
            r.spec_is_short_time_slot_in_use() == self.spec_is_short_time_slot_in_use(),
            r.spec_is_auto_power_save_implemented() == self.spec_is_auto_power_save_implemented(),
            r.spec_is_radio_measurement_implemented() == self.spec_is_radio_measurement_implemented(),
            r.spec_is_epd_implemented() == self.spec_is_epd_implemented(),
    {
        let v: u16 = if value {
            1
        } else {
            0
        };
        proof {
            Self::lemma_masks_fit();
            lemma_set_bits_u16(self.0, 4, 0x1, v, 4, 0x1);
            lemma_set_bits_u16(self.0, 4, 0x1, v, 0, 0x1);
            lemma_set_bits_u16(self.0, 4, 0x1, v, 1, 0x1);
            lemma_set_bits_u16(self.0, 4, 0x1, v, 5, 0x1);
            lemma_set_bits_u16(self.0, 4, 0x1, v, 8, 0x1);
            lemma_set_bits_u16(self.0, 4, 0x1, v, 9, 0x1);
            lemma_set_bits_u16(self.0, 4, 0x1, v, 10, 0x1);
            lemma_set_bits_u16(self.0, 4, 0x1, v, 11, 0x1);
            lemma_set_bits_u16(self.0, 4, 0x1, v, 12, 0x1);
            lemma_set_bits_u16(self.0, 4, 0x1, v, 13, 0x1);
        }
        Self((self.0 & !(0x1u16 << 4u16)) | ((v & 0x1) << 4u16))
    }

    /// Short preambles are allowed.
    pub open spec fn spec_is_short_preamble_allowed(self) -> bool {
        get_bits_u16(self.0, 5, 1) == 1
    }

    /// Short preambles are allowed.
    pub fn is_short_preamble_allowed(&self) -> (r: bool)
        ensures
            r == self.spec_is_short_preamble_allowed(),
    {
        (self.0 >> 5) & 1 == 1
    }

    /// Returns a copy with the field replaced by `value`.
    pub fn with_is_short_preamble_allowed(self, value: bool) -> (r: Self)
        ensures
            r.0 == set_bits_u16(self.0, 5, 0x1, (if value {
                1u16
            } else {
                0u16
            })),
            r.spec_is_short_preamble_allowed() == value,
            r.spec_is_ess() == self.spec_is_ess(),
            r.spec_is_ibss() == self.spec_is_ibss(),
            r.spec_is_confidentiality_required() == self.spec_is_confidentiality_required(),
            r.spec_is_spectrum_management_implemented() == self.spec_is_spectrum_management_implemented(),
            r.spec_is_qos_implemented() == self.spec_is_qos_implemented(),
            r.spec_is_short_time_slot_in_use() == self.spec_is_short_time_slot_in_use(),
            r.spec_is_auto_power_save_implemented() == self.spec_is_auto_power_save_implemented(),
            r.spec_is_radio_measurement_implemented() == self.spec_is_radio_measurement_implemented(),
            r.spec_is_epd_implemented() == self.spec_is_epd_implemented(),
    {
        let v: u16 = if value {
            1
        } else {
            0
        };
        proof {
            Self::lemma_masks_fit();
            lemma_set_bits_u16(self.0, 5, 0x1, v, 5, 0x1);
            lemma_set_bits_u16(self.0, 5, 0x1, v, 0, 0x1);
            lemma_set_bits_u16(self.0, 5, 0x1, v, 1, 0x1);
            lemma_set_bits_u16(self.0, 5, 0x1, v, 4, 0x1);
            lemma_set_bits_u16(self.0, 5, 0x1, v, 8, 0x1);
            lemma_set_bits_u16(self.0, 5, 0x1, v, 9, 0x1);
            lemma_set_bits_u16(self.0, 5, 0x1, v, 10, 0x1);
            lemma_set_bits_u16(self.0, 5, 0x1, v, 11, 0x1);
            lemma_set_bits_u16(self.0, 5, 0x1, v, 12, 0x1);
            lemma_set_bits_u16(self.0, 5, 0x1, v, 13, 0x1);
        }
        Self((self.0 & !(0x1u16 << 5u16)) | ((v & 0x1) << 5u16))
    }

    /// Spectrum management is implemented.
    pub open spec fn spec_is_spectrum_management_implemented(self) -> bool {
        get_bits_u16(self.0, 8, 1) == 1
    }

    /// Spectrum management is implemented.
    pub fn is_spectrum_management_implemented(&self) -> (r: bool)
        ensures
            r == self.spec_is_spectrum_management_implemented(),
    {
        (self.0 >> 8) & 1 == 1
    }

    /// Returns a copy with the field replaced by `value`.
    pub fn with_is_spectrum_management_implemented(self, value: bool) -> (r: Self)
        ensures
            r.0 == set_bits_u16(self.0, 8, 0x1, (if value {
                1u16
            } else {
                0u16
            })),
            r.spec_is_spectrum_management_implemented() == value,
            r.spec_is_ess() == self.spec_is_ess(),
            r.spec_is_ibss() == self.spec_is_ibss(),
            r.spec_is_confidentiality_required() == self.spec_is_confidentiality_required(),
            r.spec_is_short_preamble_allowed() == self.spec_is_short_preamble_allowed(),
            r.spec_is_qos_implemented() == self.spec_is_qos_implemented(),
            r.spec_is_short_time_slot_in_use() == self.spec_is_short_time_slot_in_use(),
            r.spec_is_auto_power_save_implemented() == self.spec_is_auto_power_save_implemented(),
            r.spec_is_radio_measurement_implemented() == self.spec_is_radio_measurement_implemented(),
            r.spec_is_epd_implemented() == self.spec_is_epd_implemented(),
    {
        let v: u16 = if value {
            1
        } else {
            0
        };
        proof {
            Self::lemma_masks_fit();
            lemma_set_bits_u16(self.0, 8, 0x1, v, 8, 0x1);
            lemma_set_bits_u16(self.0, 8, 0x1, v, 0, 0x1);
            lemma_set_bits_u16(self.0, 8, 0x1, v, 1, 0x1);
            lemma_set_bits_u16(self.0, 8, 0x1, v, 4, 0x1);
            lemma_set_bits_u16(self.0, 8, 0x1, v, 5, 0x1);
            lemma_set_bits_u16(self.0, 8, 0x1, v, 9, 0x1);
            lemma_set_bits_u16(self.0, 8, 0x1, v, 10, 0x1);
            lemma_set_bits_u16(self.0, 8, 0x1, v, 11, 0x1);
            lemma_set_bits_u16(self.0, 8, 0x1, v, 12, 0x1);
            lemma_set_bits_u16(self.0, 8, 0x1, v, 13, 0x1);
        }
        Self((self.0 & !(0x1u16 << 8u16)) | ((v & 0x1) << 8u16))
    }

    /// QoS is implemented.
    pub open spec fn spec_is_qos_implemented(self) -> bool {
        get_bits_u16(self.0, 9, 1) == 1
    }

    /// QoS is implemented.
    pub fn is_qos_implemented(&self) -> (r: bool)
        ensures
            r == self.spec_is_qos_implemented(),
    {
        (self.0 >> 9) & 1 == 1
    }

    /// Returns a copy with the field replaced by `value`.
    pub fn with_is_qos_implemented(self, value: bool) -> (r: Self)
        ensures
            r.0 == set_bits_u16(self.0, 9, 0x1, (if value {
                1u16
            } else {
                0u16
            })),
            r.spec_is_qos_implemented() == value,
            r.spec_is_ess() == self.spec_is_ess(),
            r.spec_is_ibss() == self.spec_is_ibss(),
            r.spec_is_confidentiality_required() == self.spec_is_confidentiality_required(),
            r.spec_is_short_preamble_allowed() == self.spec_is_short_preamble_allowed(),
            r.spec_is_spectrum_management_implemented() == self.spec_is_spectrum_management_implemented(),
            r.spec_is_short_time_slot_in_use() == self.spec_is_short_time_slot_in_use(),
            r.spec_is_auto_power_save_implemented() == self.spec_is_auto_power_save_implemented(),
            r.spec_is_radio_measurement_implemented() == self.spec_is_radio_measurement_implemented(),
            r.spec_is_epd_implemented() == self.spec_is_epd_implemented(),
    {
        let v: u16 = if value {
            1
        } else {
            0
        };
        proof {
            Self::lemma_masks_fit();
            lemma_set_bits_u16(self.0, 9, 0x1, v, 9, 0x1);
            lemma_set_bits_u16(self.0, 9, 0x1, v, 0, 0x1);
            lemma_set_bits_u16(self.0, 9, 0x1, v, 1, 0x1);
            lemma_set_bits_u16(self.0, 9, 0x1, v, 4, 0x1);
            lemma_set_bits_u16(self.0, 9, 0x1, v, 5, 0x1);
            lemma_set_bits_u16(self.0, 9, 0x1, v, 8, 0x1);
            lemma_set_bits_u16(self.0, 9, 0x1, v, 10, 0x1);
            lemma_set_bits_u16(self.0, 9, 0x1, v, 11, 0x1);
            lemma_set_bits_u16(self.0, 9, 0x1, v, 12, 0x1);
            lemma_set_bits_u16(self.0, 9, 0x1, v, 13, 0x1);
        }
        Self((self.0 & !(0x1u16 << 9u16)) | ((v & 0x1) << 9u16))
    }

    /// The short slot time is in use.
    pub open spec fn spec_is_short_time_slot_in_use(self) -> bool {
        get_bits_u16(self.0, 10, 1) == 1
    }

    /// The short slot time is in use.
    pub fn is_short_time_slot_in_use(&self) -> (r: bool)
        ensures
            r == self.spec_is_short_time_slot_in_use(),
    {
        (self.0 >> 10) & 1 == 1
    }

    /// Returns a copy with the field replaced by `value`.
    pub fn with_is_short_time_slot_in_use(self, value: bool) -> (r: Self)
        ensures
            r.0 == set_bits_u16(self.0, 10, 0x1, (if value {
                1u16
            } else {
                0u16
            })),
            r.spec_is_short_time_slot_in_use() == value,
            r.spec_is_ess() == self.spec_is_ess(),
            r.spec_is_ibss() == self.spec_is_ibss(),
            r.spec_is_confidentiality_required() == self.spec_is_confidentiality_required(),
            r.spec_is_short_preamble_allowed() == self.spec_is_short_preamble_allowed(),
            r.spec_is_spectrum_management_implemented() == self.spec_is_spectrum_management_implemented(),
            r.spec_is_qos_implemented() == self.spec_is_qos_implemented(),
            r.spec_is_auto_power_save_implemented() == self.spec_is_auto_power_save_implemented(),
            r.spec_is_radio_measurement_implemented() == self.spec_is_radio_measurement_implemented(),
            r.spec_is_epd_implemented() == self.spec_is_epd_implemented(),
    {
        let v: u16 = if value {
            1
        } else {
            0
        };
        proof {
            Self::lemma_masks_fit();
            lemma_set_bits_u16(self.0, 10, 0x1, v, 10, 0x1);
            lemma_set_bits_u16(self.0, 10, 0x1, v, 0, 0x1);
            lemma_set_bits_u16(self.0, 10, 0x1, v, 1, 0x1);
            lemma_set_bits_u16(self.0, 10, 0x1, v, 4, 0x1);
            lemma_set_bits_u16(self.0, 10, 0x1, v, 5, 0x1);
            lemma_set_bits_u16(self.0, 10, 0x1, v, 8, 0x1);
            lemma_set_bits_u16(self.0, 10, 0x1, v, 9, 0x1);
            lemma_set_bits_u16(self.0, 10, 0x1, v, 11, 0x1);
            lemma_set_bits_u16(self.0, 10, 0x1, v, 12, 0x1);
            lemma_set_bits_u16(self.0, 10, 0x1, v, 13, 0x1);
        }
        Self((self.0 & !(0x1u16 << 10u16)) | ((v & 0x1) << 10u16))
    }

    /// Automatic power save delivery is implemented.
    pub open spec fn spec_is_auto_power_save_implemented(self) -> bool {
        get_bits_u16(self.0, 11, 1) == 1
    }

    /// Automatic power save delivery is implemented.
    pub fn is_auto_power_save_implemented(&self) -> (r: bool)
        ensures
            r == self.spec_is_auto_power_save_implemented(),
    {
        (self.0 >> 11) & 1 == 1
    }

    /// Returns a copy with the field replaced by `value`.
    pub fn with_is_auto_power_save_implemented(self, value: bool) -> (r: Self)
        ensures
            r.0 == set_bits_u16(self.0, 11, 0x1, (if value {
                1u16
            } else {
                0u16
            })),
            r.spec_is_auto_power_save_implemented() == value,
            r.spec_is_ess() == self.spec_is_ess(),
            r.spec_is_ibss() == self.spec_is_ibss(),
            r.spec_is_confidentiality_required() == self.spec_is_confidentiality_required(),
            r.spec_is_short_preamble_allowed() == self.spec_is_short_preamble_allowed(),
            r.spec_is_spectrum_management_implemented() == self.spec_is_spectrum_management_implemented(),
            r.spec_is_qos_implemented() == self.spec_is_qos_implemented(),
            r.spec_is_short_time_slot_in_use() == self.spec_is_short_time_slot_in_use(),
            r.spec_is_radio_measurement_implemented() == self.spec_is_radio_measurement_implemented(),
            r.spec_is_epd_implemented() == self.spec_is_epd_implemented(),
    {
        let v: u16 = if value {
            1
        } else {
            0
        };
        proof {
            Self::lemma_masks_fit();
            lemma_set_bits_u16(self.0, 11, 0x1, v, 11, 0x1);
            lemma_set_bits_u16(self.0, 11, 0x1, v, 0, 0x1);
            lemma_set_bits_u16(self.0, 11, 0x1, v, 1, 0x1);
            lemma_set_bits_u16(self.0, 11, 0x1, v, 4, 0x1);
            lemma_set_bits_u16(self.0, 11, 0x1, v, 5, 0x1);
            lemma_set_bits_u16(self.0, 11, 0x1, v, 8, 0x1);
            lemma_set_bits_u16(self.0, 11, 0x1, v, 9, 0x1);
            lemma_set_bits_u16(self.0, 11, 0x1, v, 10, 0x1);
            lemma_set_bits_u16(self.0, 11, 0x1, v, 12, 0x1);
            lemma_set_bits_u16(self.0, 11, 0x1, v, 13, 0x1);
        }
        Self((self.0 & !(0x1u16 << 11u16)) | ((v & 0x1) << 11u16))
    }

    /// Radio measurement is implemented.
    pub open spec fn spec_is_radio_measurement_implemented(self) -> bool {
        get_bits_u16(self.0, 12, 1) == 1
    }

    /// Radio measurement is implemented.
    pub fn is_radio_measurement_implemented(&self) -> (r: bool)
        ensures
            r == self.spec_is_radio_measurement_implemented(),
    {
        (self.0 >> 12) & 1 == 1
    }

    /// Returns a copy with the field replaced by `value`.
    pub fn with_is_radio_measurement_implemented(self, value: bool) -> (r: Self)
        ensures
            r.0 == set_bits_u16(self.0, 12, 0x1, (if value {
                1u16
            } else {
                0u16
            })),
            r.spec_is_radio_measurement_implemented() == value,
            r.spec_is_ess() == self.spec_is_ess(),
            r.spec_is_ibss() == self.spec_is_ibss(),
            r.spec_is_confidentiality_required() == self.spec_is_confidentiality_required(),
            r.spec_is_short_preamble_allowed() == self.spec_is_short_preamble_allowed(),
            r.spec_is_spectrum_management_implemented() == self.spec_is_spectrum_management_implemented(),
            r.spec_is_qos_implemented() == self.spec_is_qos_implemented(),
            r.spec_is_short_time_slot_in_use() == self.spec_is_short_time_slot_in_use(),
            r.spec_is_auto_power_save_implemented() == self.spec_is_auto_power_save_implemented(),
            r.spec_is_epd_implemented() == self.spec_is_epd_implemented(),
    {
        let v: u16 = if value {
            1
        } else {
            0
        };
        proof {
            Self::lemma_masks_fit();
            lemma_set_bits_u16(self.0, 12, 0x1, v, 12, 0x1);
            lemma_set_bits_u16(self.0, 12, 0x1, v, 0, 0x1);
            lemma_set_bits_u16(self.0, 12, 0x1, v, 1, 0x1);
            lemma_set_bits_u16(self.0, 12, 0x1, v, 4, 0x1);
            lemma_set_bits_u16(self.0, 12, 0x1, v, 5, 0x1);
            lemma_set_bits_u16(self.0, 12, 0x1, v, 8, 0x1);
            lemma_set_bits_u16(self.0, 12, 0x1, v, 9, 0x1);
            lemma_set_bits_u16(self.0, 12, 0x1, v, 10, 0x1);
            lemma_set_bits_u16(self.0, 12, 0x1, v, 11, 0x1);
            lemma_set_bits_u16(self.0, 12, 0x1, v, 13, 0x1);
        }
        Self((self.0 & !(0x1u16 << 12u16)) | ((v & 0x1) << 12u16))
    }

    /// EPD is implemented.
    pub open spec fn spec_is_epd_implemented(self) -> bool {
        get_bits_u16(self.0, 13, 1) == 1
    }

    /// EPD is implemented.
    pub fn is_epd_implemented(&self) -> (r: bool)
        ensures
            r == self.spec_is_epd_implemented(),
    {
        (self.0 >> 13) & 1 == 1
    }

    /// Returns a copy with the field replaced by `value`.
    pub fn with_is_epd_implemented(self, value: bool) -> (r: Self)
        ensures
            r.0 == set_bits_u16(self.0, 13, 0x1, (if value {
                1u16
            } else {
                0u16
            })),
            r.spec_is_epd_implemented() == value,
            r.spec_is_ess() == self.spec_is_ess(),
            r.spec_is_ibss() == self.spec_is_ibss(),
            r.spec_is_confidentiality_required() == self.spec_is_confidentiality_required(),
            r.spec_is_short_preamble_allowed() == self.spec_is_short_preamble_allowed(),
            r.spec_is_spectrum_management_implemented() == self.spec_is_spectrum_management_implemented(),
            r.spec_is_qos_implemented() == self.spec_is_qos_implemented(),
            r.spec_is_short_time_slot_in_use() == self.spec_is_short_time_slot_in_use(),
            r.spec_is_auto_power_save_implemented() == self.spec_is_auto_power_save_implemented(),
            r.spec_is_radio_measurement_implemented() == self.spec_is_radio_measurement_implemented(),
    {
        let v: u16 = if value {
            1
        } else {
            0
        };
        proof {
            Self::lemma_masks_fit();
            lemma_set_bits_u16(self.0, 13, 0x1, v, 13, 0x1);
            lemma_set_bits_u16(self.0, 13, 0x1, v, 0, 0x1);
            lemma_set_bits_u16(self.0, 13, 0x1, v, 1, 0x1);
            lemma_set_bits_u16(self.0, 13, 0x1, v, 4, 0x1);
            lemma_set_bits_u16(self.0, 13, 0x1, v, 5, 0x1);
            lemma_set_bits_u16(self.0, 13, 0x1, v, 8, 0x1);
            lemma_set_bits_u16(self.0, 13, 0x1, v, 9, 0x1);
            lemma_set_bits_u16(self.0, 13, 0x1, v, 10, 0x1);
            lemma_set_bits_u16(self.0, 13, 0x1, v, 11, 0x1);
            lemma_set_bits_u16(self.0, 13, 0x1, v, 12, 0x1);
        }
        Self((self.0 & !(0x1u16 << 13u16)) | ((v & 0x1) << 13u16))
    }
}

} // verus!
