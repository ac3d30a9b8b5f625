//! EAPOL key frames, which carry the four way handshake.
use crate::common::bits::{fits_u16, get_bits_u16, lemma_set_bits_u16, set_bits_u16};
use crate::common::wire::{
    be_u128, be_u16, be_u64, lemma_subrange_of, lemma_u128_at, lemma_u16_at, lemma_u64_at, push_bytes,
    push_u128_be,
    push_u16_be, push_u64_be, read_u128_be, read_u16_be, read_u64_be, slice_range, u128_be_bytes,
    u16_be_bytes, u64_be_bytes, write_all, Error,
};
use crate::elements::rsn::IEEE80211AKMType;
use crate::elements::ReadElements;
use vstd::prelude::*;

verus! {

/// Cipher and MIC combination.
#[derive(Clone, Copy, Debug, PartialEq, Eq, Hash, Structural)]
pub enum KeyDescriptorVersion {
    /// RC4 for encryption and HMAC-MD5 for integrity.
    Rc4HmacMd5,
    /// AES Key Wrap for encryption and HMAC-SHA1 for integrity.
    AesHmacSha1,
    /// AES Key Wrap for encryption and AES-CMAC for integrity.
    AesCmac,
    /// A value without a name.
    Unknown(u8),
}

impl KeyDescriptorVersion {
    /// The variant that `value` encodes.
    pub open spec fn spec_from_bits(value: u8) -> Self {
        match value {
            1 => KeyDescriptorVersion::Rc4HmacMd5,
            2 => KeyDescriptorVersion::AesHmacSha1,
            3 => KeyDescriptorVersion::AesCmac,
            x => KeyDescriptorVersion::Unknown(x),
        }
    }

    /// The encoding of this variant.
    pub open spec fn spec_into_bits(self) -> u8 {
        match self {
            KeyDescriptorVersion::Rc4HmacMd5 => 1,
            KeyDescriptorVersion::AesHmacSha1 => 2,
            KeyDescriptorVersion::AesCmac => 3,
            KeyDescriptorVersion::Unknown(x) => x,
        }
    }

    /// Decode a variant from its representation.
    pub fn from_bits(value: u8) -> (r: Self)
        ensures
            r == Self::spec_from_bits(value),
            r.spec_into_bits() == value,
    {
        match value {
            1 => KeyDescriptorVersion::Rc4HmacMd5,
            2 => KeyDescriptorVersion::AesHmacSha1,
            3 => KeyDescriptorVersion::AesCmac,
            x => KeyDescriptorVersion::Unknown(x),
        }
    }

    /// Encode this variant.
    pub fn into_bits(self) -> (r: u8)
        ensures
            r == self.spec_into_bits(),
    {
        match self {
            KeyDescriptorVersion::Rc4HmacMd5 => 1,
            KeyDescriptorVersion::AesHmacSha1 => 2,
            KeyDescriptorVersion::AesCmac => 3,
            KeyDescriptorVersion::Unknown(x) => x,
        }
    }
}

/// Information about the EAPOL Key Frame.
#[derive(Clone, Copy, Debug, PartialEq, Eq, Hash, Structural)]
pub struct KeyInformation(pub u16);

impl KeyInformation {
    /// A value with every field at its default.
    pub fn new() -> (r: Self)
        ensures
            r.0 == 0x0,
    {
        Self(0x0)
    }

    /// Wrap the raw bits.
    pub fn from_bits(bits: u16) -> (r: Self)
        ensures
            r.0 == bits,
    {
        Self(bits)
    }

    /// Every field mask fits in the backing integer.
    proof fn lemma_masks_fit()
        by (bit_vector)
        ensures
            fits_u16(0, 0x7),
            fits_u16(3, 0x1),
            fits_u16(6, 0x1),
            fits_u16(7, 0x1),
            fits_u16(8, 0x1),
            fits_u16(9, 0x1),
            fits_u16(10, 0x1),
            fits_u16(11, 0x1),
            fits_u16(12, 0x1),
            (0x7u16 << 0u16) & (0x1u16 << 3u16) == 0,
            (0x1u16 << 3u16) & (0x7u16 << 0u16) == 0,
            (0x7u16 << 0u16) & (0x1u16 << 6u16) == 0,
            (0x1u16 << 6u16) & (0x7u16 << 0u16) == 0,
            (0x7u16 << 0u16) & (0x1u16 << 7u16) == 0,
            (0x1u16 << 7u16) & (0x7u16 << 0u16) == 0,
            (0x7u16 << 0u16) & (0x1u16 << 8u16) == 0,
            (0x1u16 << 8u16) & (0x7u16 << 0u16) == 0,
            (0x7u16 << 0u16) & (0x1u16 << 9u16) == 0,
            (0x1u16 << 9u16) & (0x7u16 << 0u16) == 0,
            (0x7u16 << 0u16) & (0x1u16 << 10u16) == 0,
            (0x1u16 << 10u16) & (0x7u16 << 0u16) == 0,
            (0x7u16 << 0u16) & (0x1u16 << 11u16) == 0,
            (0x1u16 << 11u16) & (0x7u16 << 0u16) == 0,
            (0x7u16 << 0u16) & (0x1u16 << 12u16) == 0,
            (0x1u16 << 12u16) & (0x7u16 << 0u16) == 0,
            (0x1u16 << 3u16) & (0x1u16 << 6u16) == 0,
            (0x1u16 << 6u16) & (0x1u16 << 3u16) == 0,
            (0x1u16 << 3u16) & (0x1u16 << 7u16) == 0,
            (0x1u16 << 7u16) & (0x1u16 << 3u16) == 0,
            (0x1u16 << 3u16) & (0x1u16 << 8u16) == 0,
            (0x1u16 << 8u16) & (0x1u16 << 3u16) == 0,
            (0x1u16 << 3u16) & (0x1u16 << 9u16) == 0,
            (0x1u16 << 9u16) & (0x1u16 << 3u16) == 0,
            (0x1u16 << 3u16) & (0x1u16 << 10u16) == 0,
            (0x1u16 << 10u16) & (0x1u16 << 3u16) == 0,
            (0x1u16 << 3u16) & (0x1u16 << 11u16) == 0,
            (0x1u16 << 11u16) & (0x1u16 << 3u16) == 0,
            (0x1u16 << 3u16) & (0x1u16 << 12u16) == 0,
            (0x1u16 << 12u16) & (0x1u16 << 3u16) == 0,
            (0x1u16 << 6u16) & (0x1u16 << 7u16) == 0,
            (0x1u16 << 7u16) & (0x1u16 << 6u16) == 0,
            (0x1u16 << 6u16) & (0x1u16 << 8u16) == 0,
            (0x1u16 << 8u16) & (0x1u16 << 6u16) == 0,
            (0x1u16 << 6u16) & (0x1u16 << 9u16) == 0,
            (0x1u16 << 9u16) & (0x1u16 << 6u16) == 0,
            (0x1u16 << 6u16) & (0x1u16 << 10u16) == 0,
            (0x1u16 << 10u16) & (0x1u16 << 6u16) == 0,
            (0x1u16 << 6u16) & (0x1u16 << 11u16) == 0,
            (0x1u16 << 11u16) & (0x1u16 << 6u16) == 0,
            (0x1u16 << 6u16) & (0x1u16 << 12u16) == 0,
            (0x1u16 << 12u16) & (0x1u16 << 6u16) == 0,
            (0x1u16 << 7u16) & (0x1u16 << 8u16) == 0,
            (0x1u16 << 8u16) & (0x1u16 << 7u16) == 0,
            (0x1u16 << 7u16) & (0x1u16 << 9u16) == 0,
            (0x1u16 << 9u16) & (0x1u16 << 7u16) == 0,
            (0x1u16 << 7u16) & (0x1u16 << 10u16) == 0,
            (0x1u16 << 10u16) & (0x1u16 << 7u16) == 0,
            (0x1u16 << 7u16) & (0x1u16 << 11u16) == 0,
            (0x1u16 << 11u16) & (0x1u16 << 7u16) == 0,
            (0x1u16 << 7u16) & (0x1u16 << 12u16) == 0,
            (0x1u16 << 12u16) & (0x1u16 << 7u16) == 0,
            (0x1u16 << 8u16) & (0x1u16 << 9u16) == 0,
            (0x1u16 << 9u16) & (0x1u16 << 8u16) == 0,
            (0x1u16 << 8u16) & (0x1u16 << 10u16) == 0,
            (0x1u16 << 10u16) & (0x1u16 << 8u16) == 0,
            (0x1u16 << 8u16) & (0x1u16 << 11u16) == 0,
            (0x1u16 << 11u16) & (0x1u16 << 8u16) == 0,
            (0x1u16 << 8u16) & (0x1u16 << 12u16) == 0,
            (0x1u16 << 12u16) & (0x1u16 << 8u16) == 0,
            (0x1u16 << 9u16) & (0x1u16 << 10u16) == 0,
            (0x1u16 << 10u16) & (0x1u16 << 9u16) == 0,
            (0x1u16 << 9u16) & (0x1u16 << 11u16) == 0,
            (0x1u16 << 11u16) & (0x1u16 << 9u16) == 0,
            (0x1u16 << 9u16) & (0x1u16 << 12u16) == 0,
            (0x1u16 << 12u16) & (0x1u16 << 9u16) == 0,
            (0x1u16 << 10u16) & (0x1u16 << 11u16) == 0,
            (0x1u16 << 11u16) & (0x1u16 << 10u16) == 0,
            (0x1u16 << 10u16) & (0x1u16 << 12u16) == 0,
            (0x1u16 << 12u16) & (0x1u16 << 10u16) == 0,
            (0x1u16 << 11u16) & (0x1u16 << 12u16) == 0,
            (0x1u16 << 12u16) & (0x1u16 << 11u16) == 0,
            1u16 & 1u16 == 1,
            0u16 & 1u16 == 0,
    {
    }

    /// The raw bits.
    pub fn into_bits(self) -> (r: u16)
        ensures
            r == self.0,
    {
        self.0
    }

    /// The cipher and MIC combination.
    pub open spec fn spec_key_descriptor_version(self) -> KeyDescriptorVersion {
        KeyDescriptorVersion::spec_from_bits(get_bits_u16(self.0, 0, 0x7) as u8)
    }

    /// The cipher and MIC combination.
    pub fn key_descriptor_version(&self) -> (r: KeyDescriptorVersion)
        ensures
            r == self.spec_key_descriptor_version(),
    {
        KeyDescriptorVersion::from_bits(((self.0 >> 0) & 0x7) as u8)
    }

    /// Returns a copy with the field replaced by `value`.
    pub fn with_key_descriptor_version(self, value: KeyDescriptorVersion) -> (r: Self)
        ensures
            r.0 == set_bits_u16(self.0, 0, 0x7, (value.spec_into_bits() as u16)),
            r.spec_key_descriptor_version() == KeyDescriptorVersion::spec_from_bits(((value.spec_into_bits() as u16) & 0x7) as u8),
            r.spec_is_pairwise() == self.spec_is_pairwise(),
            r.spec_install() == self.spec_install(),
            r.spec_key_ack() == self.spec_key_ack(),
            r.spec_key_mic() == self.spec_key_mic(),
            r.spec_secure() == self.spec_secure(),
            r.spec_error() == self.spec_error(),
            r.spec_request() == self.spec_request(),
            r.spec_encrypted_key_data() == self.spec_encrypted_key_data(),
    {
        let v: u16 = value.into_bits() as u16;
        proof {
            Self::lemma_masks_fit();
            lemma_set_bits_u16(self.0, 0, 0x7, v, 0, 0x7);
            lemma_set_bits_u16(self.0, 0, 0x7, v, 3, 0x1);
            lemma_set_bits_u16(self.0, 0, 0x7, v, 6, 0x1);
            lemma_set_bits_u16(self.0, 0, 0x7, v, 7, 0x1);
            lemma_set_bits_u16(self.0, 0, 0x7, v, 8, 0x1);
            lemma_set_bits_u16(self.0, 0, 0x7, v, 9, 0x1);
            lemma_set_bits_u16(self.0, 0, 0x7, v, 10, 0x1);
            lemma_set_bits_u16(self.0, 0, 0x7, v, 11, 0x1);
            lemma_set_bits_u16(self.0, 0, 0x7, v, 12, 0x1);
        }
        Self((self.0 & !(0x7u16 << 0u16)) | ((v & 0x7) << 0u16))
    }

    /// Is this message part of a PTK derivation. Officially this is called the key type.
    pub open spec fn spec_is_pairwise(self) -> bool {
        get_bits_u16(self.0, 3, 1) == 1
    }

    /// Is this message part of a PTK derivation. Officially this is called the key type.
    pub fn is_pairwise(&self) -> (r: bool)
        ensures
            r == self.spec_is_pairwise(),
    {
        (self.0 >> 3) & 1 == 1
    }

    /// Returns a copy with the field replaced by `value`.
    pub fn with_is_pairwise(self, value: bool) -> (r: Self)
        ensures
            r.0 == set_bits_u16(self.0, 3, 0x1, (if value {
                1u16
            } else {
                0u16
            })),
            r.spec_is_pairwise() == value,
            r.spec_key_descriptor_version() == self.spec_key_descriptor_version(),
            r.spec_install() == self.spec_install(),
            r.spec_key_ack() == self.spec_key_ack(),
            r.spec_key_mic() == self.spec_key_mic(),
            r.spec_secure() == self.spec_secure(),
            r.spec_error() == self.spec_error(),
            r.spec_request() == self.spec_request(),
            r.spec_encrypted_key_data() == self.spec_encrypted_key_data(),
    {
        let v: u16 = if value {
            1
        } else {
            0
        };
        proof {
            Self::lemma_masks_fit();
            lemma_set_bits_u16(self.0, 3, 0x1, v, 3, 0x1);
            lemma_set_bits_u16(self.0, 3, 0x1, v, 0, 0x7);
            lemma_set_bits_u16(self.0, 3, 0x1, v, 6, 0x1);
            lemma_set_bits_u16(self.0, 3, 0x1, v, 7, 0x1);
            lemma_set_bits_u16(self.0, 3, 0x1, v, 8, 0x1);
            lemma_set_bits_u16(self.0, 3, 0x1, v, 9, 0x1);
            lemma_set_bits_u16(self.0, 3, 0x1, v, 10, 0x1);
            lemma_set_bits_u16(self.0, 3, 0x1, v, 11, 0x1);
            lemma_set_bits_u16(self.0, 3, 0x1, v, 12, 0x1);
        }
        Self((self.0 & !(0x1u16 << 3u16)) | ((v & 0x1) << 3u16))
    }

    /// Shall the key be installed.
    pub open spec fn spec_install(self) -> bool {
        get_bits_u16(self.0, 6, 1) == 1
    }

    /// Shall the key be installed.
    pub fn install(&self) -> (r: bool)
        ensures
            r == self.spec_install(),
    {
        (self.0 >> 6) & 1 == 1
    }

    /// Returns a copy with the field replaced by `value`.
    pub fn with_install(self, value: bool) -> (r: Self)
        ensures
            r.0 == set_bits_u16(self.0, 6, 0x1, (if value {
                1u16
            } else {
                0u16
            })),
            r.spec_install() == value,
            r.spec_key_descriptor_version() == self.spec_key_descriptor_version(),
            r.spec_is_pairwise() == self.spec_is_pairwise(),
            r.spec_key_ack() == self.spec_key_ack(),
            r.spec_key_mic() == self.spec_key_mic(),
            r.spec_secure() == self.spec_secure(),
            r.spec_error() == self.spec_error(),
            r.spec_request() == self.spec_request(),
            r.spec_encrypted_key_data() == self.spec_encrypted_key_data(),
    {
        let v: u16 = if value {
            1
        } else {
            0
        };
        proof {
            Self::lemma_masks_fit();
            lemma_set_bits_u16(self.0, 6, 0x1, v, 6, 0x1);
            lemma_set_bits_u16(self.0, 6, 0x1, v, 0, 0x7);
            lemma_set_bits_u16(self.0, 6, 0x1, v, 3, 0x1);
            lemma_set_bits_u16(self.0, 6, 0x1, v, 7, 0x1);
            lemma_set_bits_u16(self.0, 6, 0x1, v, 8, 0x1);
            lemma_set_bits_u16(self.0, 6, 0x1, v, 9, 0x1);
            lemma_set_bits_u16(self.0, 6, 0x1, v, 10, 0x1);
            lemma_set_bits_u16(self.0, 6, 0x1, v, 11, 0x1);
            lemma_set_bits_u16(self.0, 6, 0x1, v, 12, 0x1);
        }
        Self((self.0 & !(0x1u16 << 6u16)) | ((v & 0x1) << 6u16))
    }

    /// Is an acknowledgement to this message required.
    pub open spec fn spec_key_ack(self) -> bool {
        get_bits_u16(self.0, 7, 1) == 1
    }

    /// Is an acknowledgement to this message required.
    pub fn key_ack(&self) -> (r: bool)
        ensures
            r == self.spec_key_ack(),
    {
        (self.0 >> 7) & 1 == 1
    }

    /// Returns a copy with the field replaced by `value`.
    pub fn with_key_ack(self, value: bool) -> (r: Self)
        ensures
            r.0 == set_bits_u16(self.0, 7, 0x1, (if value {
                1u16
            } else {
                0u16
            })),
            r.spec_key_ack() == value,
            r.spec_key_descriptor_version() == self.spec_key_descriptor_version(),
            r.spec_is_pairwise() == self.spec_is_pairwise(),
            r.spec_install() == self.spec_install(),
            r.spec_key_mic() == self.spec_key_mic(),
            r.spec_secure() == self.spec_secure(),
            r.spec_error() == self.spec_error(),
            r.spec_request() == self.spec_request(),
            r.spec_encrypted_key_data() == self.spec_encrypted_key_data(),
    {
        let v: u16 = if value {
            1
        } else {
            0
        };
        proof {
            Self::lemma_masks_fit();
            lemma_set_bits_u16(self.0, 7, 0x1, v, 7, 0x1);
            lemma_set_bits_u16(self.0, 7, 0x1, v, 0, 0x7);
            lemma_set_bits_u16(self.0, 7, 0x1, v, 3, 0x1);
            lemma_set_bits_u16(self.0, 7, 0x1, v, 6, 0x1);
            lemma_set_bits_u16(self.0, 7, 0x1, v, 8, 0x1);
            lemma_set_bits_u16(self.0, 7, 0x1, v, 9, 0x1);
            lemma_set_bits_u16(self.0, 7, 0x1, v, 10, 0x1);
            lemma_set_bits_u16(self.0, 7, 0x1, v, 11, 0x1);
            lemma_set_bits_u16(self.0, 7, 0x1, v, 12, 0x1);
        }
        Self((self.0 & !(0x1u16 << 7u16)) | ((v & 0x1) << 7u16))
    }

    /// Is a MIC present.
    pub open spec fn spec_key_mic(self) -> bool {
        get_bits_u16(self.0, 8, 1) == 1
    }

    /// Is a MIC present.
    pub fn key_mic(&self) -> (r: bool)
        ensures
            r == self.spec_key_mic(),
    {
        (self.0 >> 8) & 1 == 1
    }

    /// Returns a copy with the field replaced by `value`.
    pub fn with_key_mic(self, value: bool) -> (r: Self)
        ensures
            r.0 == set_bits_u16(self.0, 8, 0x1, (if value {
                1u16
            } else {
                0u16
            })),
            r.spec_key_mic() == value,
            r.spec_key_descriptor_version() == self.spec_key_descriptor_version(),
            r.spec_is_pairwise() == self.spec_is_pairwise(),
            r.spec_install() == self.spec_install(),
            r.spec_key_ack() == self.spec_key_ack(),
            r.spec_secure() == self.spec_secure(),
            r.spec_error() == self.spec_error(),
            r.spec_request() == self.spec_request(),
            r.spec_encrypted_key_data() == self.spec_encrypted_key_data(),
    {
        let v: u16 = if value {
            1
        } else {
            0
        };
        proof {
            Self::lemma_masks_fit();
            lemma_set_bits_u16(self.0, 8, 0x1, v, 8, 0x1);
            lemma_set_bits_u16(self.0, 8, 0x1, v, 0, 0x7);
            lemma_set_bits_u16(self.0, 8, 0x1, v, 3, 0x1);
            lemma_set_bits_u16(self.0, 8, 0x1, v, 6, 0x1);
            lemma_set_bits_u16(self.0, 8, 0x1, v, 7, 0x1);
            lemma_set_bits_u16(self.0, 8, 0x1, v, 9, 0x1);
            lemma_set_bits_u16(self.0, 8, 0x1, v, 10, 0x1);
            lemma_set_bits_u16(self.0, 8, 0x1, v, 11, 0x1);
            lemma_set_bits_u16(self.0, 8, 0x1, v, 12, 0x1);
        }
        Self((self.0 & !(0x1u16 << 8u16)) | ((v & 0x1) << 8u16))
    }

    /// Indicates if the frame contains the last key required for initialization.
    pub open spec fn spec_secure(self) -> bool {
        get_bits_u16(self.0, 9, 1) == 1
    }

    /// Indicates if the frame contains the last key required for initialization.
    pub fn secure(&self) -> (r: bool)
        ensures
            r == self.spec_secure(),
    {
        (self.0 >> 9) & 1 == 1
    }

    /// Returns a copy with the field replaced by `value`.
    pub fn with_secure(self, value: bool) -> (r: Self)
        ensures
            r.0 == set_bits_u16(self.0, 9, 0x1, (if value {
                1u16
            } else {
                0u16
            })),
            r.spec_secure() == value,
            r.spec_key_descriptor_version() == self.spec_key_descriptor_version(),
            r.spec_is_pairwise() == self.spec_is_pairwise(),
            r.spec_install() == self.spec_install(),
            r.spec_key_ack() == self.spec_key_ack(),
            r.spec_key_mic() == self.spec_key_mic(),
            r.spec_error() == self.spec_error(),
            r.spec_request() == self.spec_request(),
            r.spec_encrypted_key_data() == self.spec_encrypted_key_data(),
    {
        let v: u16 = if value {
            1
        } else {
            0
        };
        proof {
            Self::lemma_masks_fit();
            lemma_set_bits_u16(self.0, 9, 0x1, v, 9, 0x1);
            lemma_set_bits_u16(self.0, 9, 0x1, v, 0, 0x7);
            lemma_set_bits_u16(self.0, 9, 0x1, v, 3, 0x1);
            lemma_set_bits_u16(self.0, 9, 0x1, v, 6, 0x1);
            lemma_set_bits_u16(self.0, 9, 0x1, v, 7, 0x1);
            lemma_set_bits_u16(self.0, 9, 0x1, v, 8, 0x1);
            lemma_set_bits_u16(self.0, 9, 0x1, v, 10, 0x1);
            lemma_set_bits_u16(self.0, 9, 0x1, v, 11, 0x1);
            lemma_set_bits_u16(self.0, 9, 0x1, v, 12, 0x1);
        }
        Self((self.0 & !(0x1u16 << 9u16)) | ((v & 0x1) << 9u16))
    }

    /// Indicates that a TKIP MIC failure occured.
    pub open spec fn spec_error(self) -> bool {
        get_bits_u16(self.0, 10, 1) == 1
    }

    /// Indicates that a TKIP MIC failure occured.
    pub fn error(&self) -> (r: bool)
        ensures
            r == self.spec_error(),
    {
        (self.0 >> 10) & 1 == 1
    }

    /// Returns a copy with the field replaced by `value`.
    pub fn with_error(self, value: bool) -> (r: Self)
        ensures
            r.0 == set_bits_u16(self.0, 10, 0x1, (if value {
                1u16
            } else {
                0u16
            })),
            r.spec_error() == value,
            r.spec_key_descriptor_version() == self.spec_key_descriptor_version(),
            r.spec_is_pairwise() == self.spec_is_pairwise(),
            r.spec_install() == self.spec_install(),
            r.spec_key_ack() == self.spec_key_ack(),
            r.spec_key_mic() == self.spec_key_mic(),
            r.spec_secure() == self.spec_secure(),
            r.spec_request() == self.spec_request(),
            r.spec_encrypted_key_data() == self.spec_encrypted_key_data(),
    {
        let v: u16 = if value {
            1
        } else {
            0
        };
        proof {
            Self::lemma_masks_fit();
            lemma_set_bits_u16(self.0, 10, 0x1, v, 10, 0x1);
            lemma_set_bits_u16(self.0, 10, 0x1, v, 0, 0x7);
            lemma_set_bits_u16(self.0, 10, 0x1, v, 3, 0x1);
            lemma_set_bits_u16(self.0, 10, 0x1, v, 6, 0x1);
            lemma_set_bits_u16(self.0, 10, 0x1, v, 7, 0x1);
            lemma_set_bits_u16(self.0, 10, 0x1, v, 8, 0x1);
            lemma_set_bits_u16(self.0, 10, 0x1, v, 9, 0x1);
            lemma_set_bits_u16(self.0, 10, 0x1, v, 11, 0x1);
            lemma_set_bits_u16(self.0, 10, 0x1, v, 12, 0x1);
        }
        Self((self.0 & !(0x1u16 << 10u16)) | ((v & 0x1) << 10u16))
    }

    /// Indicates a request to initiate a handshake.
    pub open spec fn spec_request(self) -> bool {
        get_bits_u16(self.0, 11, 1) == 1
    }

    /// Indicates a request to initiate a handshake.
    pub fn request(&self) -> (r: bool)
        ensures
            r == self.spec_request(),
    {
        (self.0 >> 11) & 1 == 1
    }

    /// Returns a copy with the field replaced by `value`.
    pub fn with_request(self, value: bool) -> (r: Self)
        ensures
            r.0 == set_bits_u16(self.0, 11, 0x1, (if value {
                1u16
            } else {
                0u16
            })),
            r.spec_request() == value,
            r.spec_key_descriptor_version() == self.spec_key_descriptor_version(),
            r.spec_is_pairwise() == self.spec_is_pairwise(),
            r.spec_install() == self.spec_install(),
            r.spec_key_ack() == self.spec_key_ack(),
            r.spec_key_mic() == self.spec_key_mic(),
            r.spec_secure() == self.spec_secure(),
            r.spec_error() == self.spec_error(),
            r.spec_encrypted_key_data() == self.spec_encrypted_key_data(),
    {
        let v: u16 = if value {
            1
        } else {
            0
        };
        proof {
            Self::lemma_masks_fit();
            lemma_set_bits_u16(self.0, 11, 0x1, v, 11, 0x1);
            lemma_set_bits_u16(self.0, 11, 0x1, v, 0, 0x7);
            lemma_set_bits_u16(self.0, 11, 0x1, v, 3, 0x1);
            lemma_set_bits_u16(self.0, 11, 0x1, v, 6, 0x1);
            lemma_set_bits_u16(self.0, 11, 0x1, v, 7, 0x1);
            lemma_set_bits_u16(self.0, 11, 0x1, v, 8, 0x1);
            lemma_set_bits_u16(self.0, 11, 0x1, v, 9, 0x1);
            lemma_set_bits_u16(self.0, 11, 0x1, v, 10, 0x1);
            lemma_set_bits_u16(self.0, 11, 0x1, v, 12, 0x1);
        }
        Self((self.0 & !(0x1u16 << 11u16)) | ((v & 0x1) << 11u16))
    }

    /// Is the the key data encrypted.
    pub open spec fn spec_encrypted_key_data(self) -> bool {
        get_bits_u16(self.0, 12, 1) == 1
    }

    /// Is the the key data encrypted.
    pub fn encrypted_key_data(&self) -> (r: bool)
        ensures
            r == self.spec_encrypted_key_data(),
    {
        (self.0 >> 12) & 1 == 1
    }

    /// Returns a copy with the field replaced by `value`.
    pub fn with_encrypted_key_data(self, value: bool) -> (r: Self)
        ensures
            r.0 == set_bits_u16(self.0, 12, 0x1, (if value {
                1u16
            } else {
                0u16
            })),
            r.spec_encrypted_key_data() == value,
            r.spec_key_descriptor_version() == self.spec_key_descriptor_version(),
            r.spec_is_pairwise() == self.spec_is_pairwise(),
            r.spec_install() == self.spec_install(),
            r.spec_key_ack() == self.spec_key_ack(),
            r.spec_key_mic() == self.spec_key_mic(),
            r.spec_secure() == self.spec_secure(),
            r.spec_error() == self.spec_error(),
            r.spec_request() == self.spec_request(),
    {
        let v: u16 = if value {
            1
        } else {
            0
        };
        proof {
            Self::lemma_masks_fit();
            lemma_set_bits_u16(self.0, 12, 0x1, v, 12, 0x1);
            lemma_set_bits_u16(self.0, 12, 0x1, v, 0, 0x7);
            lemma_set_bits_u16(self.0, 12, 0x1, v, 3, 0x1);
            lemma_set_bits_u16(self.0, 12, 0x1, v, 6, 0x1);
            lemma_set_bits_u16(self.0, 12, 0x1, v, 7, 0x1);
            lemma_set_bits_u16(self.0, 12, 0x1, v, 8, 0x1);
            lemma_set_bits_u16(self.0, 12, 0x1, v, 9, 0x1);
            lemma_set_bits_u16(self.0, 12, 0x1, v, 10, 0x1);
            lemma_set_bits_u16(self.0, 12, 0x1, v, 11, 0x1);
        }
        Self((self.0 & !(0x1u16 << 12u16)) | ((v & 0x1) << 12u16))
    }
}

/// The protocol version written into EAPOL frames.
pub const EAPOL_2004_PROTOCOL_VERSION: u8 = 2;

/// The packet type of an EAPOL-Key frame.
pub const EAPOL_KEY_MESSAGE_TYPE: u8 = 3;

/// The descriptor type of an IEEE 802.11 key descriptor.
pub const EAPOL_802_11_KEY_DESCRIPTOR_TYPE: u8 = 2;

/// What an EAPOL key frame holds: the key information, key length, replay counter, nonce, IV,
/// RSC, MIC and key data.
pub type EapolKeyFrameView = (KeyInformation, u16, u64, Seq<u8>, u128, u64, Seq<u8>, Seq<u8>);

/// An EAPOL key frame.
#[derive(Clone, Copy, Debug, PartialEq, Eq, Hash)]
pub struct EapolKeyFrame<'a> {
    /// Information about the Key Frame.
    pub key_information: KeyInformation,
    /// The length of the Temporal Key (TK).
    pub key_length: u16,
    /// The key replay counter.
    pub key_replay_counter: u64,
    /// The nonce of the transmitting party.
    pub key_nonce: [u8; 32],
    /// The EAPOL Key IV.
    pub key_iv: u128,
    /// The current packet number of the transmitting party.
    pub key_rsc: u64,
    /// The key Message Integrity Check (MIC).
    pub key_mic: &'a [u8],
    /// The key data.
    pub key_data: ReadElements<'a>,
}

impl<'a> View for EapolKeyFrame<'a> {
    type V = EapolKeyFrameView;

    open spec fn view(&self) -> EapolKeyFrameView {
        (
            self.key_information,
            self.key_length,
            self.key_replay_counter,
            self.key_nonce@,
            self.key_iv,
            self.key_rsc,
            self.key_mic@,
            self.key_data.bytes@,
        )
    }
}

/// The key data, with its length before it.
pub open spec fn eapol_tail_key_data(v: EapolKeyFrameView) -> Seq<u8> {
    u16_be_bytes((v.7.len() % 0x1_0000) as u16) + v.7
}

/// The MIC and what follows it.
pub open spec fn eapol_tail_mic(v: EapolKeyFrameView) -> Seq<u8> {
    v.6 + eapol_tail_key_data(v)
}

/// The nonce and what follows it: the IV, the RSC, eight reserved zero bytes and the MIC.
pub open spec fn eapol_tail_nonce(v: EapolKeyFrameView) -> Seq<u8> {
    v.3 + (u128_be_bytes(v.4) + (u64_be_bytes(v.5) + (u64_be_bytes(0) + eapol_tail_mic(v))))
}

/// The packet body of an EAPOL key frame: the descriptor type two, the key information, key
/// length and replay counter, then the nonce and what follows it.
pub open spec fn eapol_key_body(v: EapolKeyFrameView) -> Seq<u8> {
    seq![EAPOL_802_11_KEY_DESCRIPTOR_TYPE] + (u16_be_bytes(v.0.0) + (u16_be_bytes(v.1) + (
    u64_be_bytes(v.2) + eapol_tail_nonce(v))))
}

/// The serialized EAPOL key frame: protocol version two, packet type three, the length of the
/// packet body as sixteen bits, and the body.
pub open spec fn eapol_key_frame_bytes(v: EapolKeyFrameView) -> Seq<u8> {
    seq![EAPOL_2004_PROTOCOL_VERSION, EAPOL_KEY_MESSAGE_TYPE] + u16_be_bytes(
        (eapol_key_body(v).len() % 0x1_0000) as u16,
    ) + eapol_key_body(v)
}

/// The fields of a key frame before its MIC: the descriptor type, the key information, key
/// length, replay counter, nonce, IV and RSC, and eight reserved zero bytes.
pub open spec fn eapol_fixed_fields(v: EapolKeyFrameView) -> Seq<u8> {
    seq![EAPOL_802_11_KEY_DESCRIPTOR_TYPE] + u16_be_bytes(v.0.0) + u16_be_bytes(v.1) + u64_be_bytes(
        v.2,
    ) + v.3 + u128_be_bytes(v.4) + u64_be_bytes(v.5) + u64_be_bytes(0)
}

/// The pieces of a serialized key frame, where they stand.
#[verifier::spinoff_prover]
pub proof fn lemma_eapol_key_frame_parts(v: EapolKeyFrameView)
    requires
        v.3.len() == 32,
    ensures
        ({
            let f = eapol_key_frame_bytes(v);
            let m = v.6.len() as int;
            let k = v.7.len() as int;
            &&& f.len() == 83 + m + k
            &&& f.subrange(0, 2) == seq![EAPOL_2004_PROTOCOL_VERSION, EAPOL_KEY_MESSAGE_TYPE]
            &&& f.subrange(2, 4) == u16_be_bytes(((79 + m + k) % 0x1_0000) as u16)
            &&& f.subrange(4, 81) == eapol_fixed_fields(v)
            &&& f.subrange(81, 81 + m) == v.6
            &&& f.subrange(81 + m, 83 + m) == u16_be_bytes((k % 0x1_0000) as u16)
            &&& f.subrange(83 + m, 83 + m + k) == v.7
        }),
{
    let m = v.6.len() as int;
    let k = v.7.len() as int;
    let f = eapol_key_frame_bytes(v);
    let body = eapol_key_body(v);
    let tn = eapol_tail_nonce(v);
    let tm = eapol_tail_mic(v);
    let tk = eapol_tail_key_data(v);
    assert(tk.len() == 2 + k);
    assert(tm.len() == m + 2 + k);
    assert(tn.len() == 64 + m + 2 + k);
    assert(body.len() == 79 + m + k);
    assert(f.subrange(0, 2) =~= seq![EAPOL_2004_PROTOCOL_VERSION, EAPOL_KEY_MESSAGE_TYPE]);
    assert(f.subrange(2, 4) =~= u16_be_bytes(((79 + m + k) % 0x1_0000) as u16));
    assert(f.subrange(4, 4 + body.len() as int) =~= body);
    lemma_subrange_of(f, 4, body, 0, 77);
    assert(body.subrange(13, body.len() as int) =~= tn);
    assert(body.subrange(0, 77) =~= eapol_fixed_fields(v));
    lemma_subrange_of(f, 4, body, 13, body.len() as int);
    assert(tn.subrange(64, tn.len() as int) =~= tm);
    lemma_subrange_of(f, 17, tn, 64, tn.len() as int);
    assert(tm.subrange(0, m) =~= v.6);
    lemma_subrange_of(f, 81, tm, 0, m);
    assert(tm.subrange(m, tm.len() as int) =~= tk);
    lemma_subrange_of(f, 81, tm, m, tm.len() as int);
    assert(tk.subrange(0, 2) =~= u16_be_bytes((k % 0x1_0000) as u16));
    lemma_subrange_of(f, 81 + m, tk, 0, 2);
    assert(tk.subrange(2, 2 + k) =~= v.7);
    lemma_subrange_of(f, 81 + m, tk, 2, 2 + k);
}

/// Reading an EAPOL key frame, with a MIC as long as the AKM suite calls for.
///
/// The protocol version is not checked; the packet type must be three and the descriptor type
/// two. The fields are read within the first four bytes plus the packet body length.
#[verifier::opaque]
pub open spec fn parse_eapol_key_frame(s: Seq<u8>, akm_suite: IEEE80211AKMType) -> Result<
    (EapolKeyFrameView, int),
    Error,
> {
    if s.len() < 2 {
        Err(Error::TooShort)
    } else if s[1] != EAPOL_KEY_MESSAGE_TYPE {
        Err(Error::BadInput)
    } else if s.len() < 4 {
        Err(Error::TooShort)
    } else if s.len() < be_u16(s, 2) + 4 {
        Err(Error::TooShort)
    } else {
        let b = s.take(be_u16(s, 2) + 4);
        if b.len() < 5 {
            Err(Error::TooShort)
        } else if b[4] != EAPOL_802_11_KEY_DESCRIPTOR_TYPE {
            Err(Error::BadInput)
        } else if b.len() < 73 {
            Err(Error::TooShort)
        } else {
            match akm_suite.spec_key_mic_len() {
                None => Err(Error::BadInput),
                Some(mic_len) => if b.len() < 83 + mic_len {
                    Err(Error::TooShort)
                } else {
                    let key_data_len = be_u16(b, 81 + mic_len) as int;
                    if b.len() < 83 + mic_len + key_data_len {
                        Err(Error::TooShort)
                    } else {
                        Ok(
                            (
                                (
                                    KeyInformation(be_u16(b, 5)),
                                    be_u16(b, 7),
                                    be_u64(b, 9),
                                    b.subrange(17, 49),
                                    be_u128(b, 49),
                                    be_u64(b, 65),
                                    b.subrange(81, 81 + mic_len),
                                    b.subrange(83 + mic_len, 83 + mic_len + key_data_len),
                                ),
                                83 + mic_len + key_data_len,
                            ),
                        )
                    }
                },
            }
        }
    }
}

impl<'a> EapolKeyFrame<'a> {
    /// Read an EAPOL key frame, with a MIC as long as `akm_suite` calls for.
    pub fn try_from_ctx(from: &'a [u8], akm_suite: IEEE80211AKMType) -> (r: Result<(Self, usize), Error>)
        ensures
            match parse_eapol_key_frame(from@, akm_suite) {
                Ok((v, n)) => r matches Ok((f, m)) && f@ == v && m == n,
                Err(e) => r == Err::<(Self, usize), Error>(e),
            },
    {
        proof {
            reveal(parse_eapol_key_frame);
        }
        if from.len() < 2 {
            return Err(Error::TooShort);
        }
        if from[1] != EAPOL_KEY_MESSAGE_TYPE {
            return Err(Error::BadInput);
        }
        if from.len() < 4 {
            return Err(Error::TooShort);
        }
        let packet_body_length = read_u16_be(from, 2) as usize;
        if from.len() < packet_body_length + 4 {
            return Err(Error::TooShort);
        }
        let body = slice_range(from, 0, packet_body_length + 4);
        if body.len() < 5 {
            return Err(Error::TooShort);
        }
        if body[4] != EAPOL_802_11_KEY_DESCRIPTOR_TYPE {
            return Err(Error::BadInput);
        }
        if body.len() < 73 {
            return Err(Error::TooShort);
        }
        let key_information = KeyInformation::from_bits(read_u16_be(body, 5));
        let key_length = read_u16_be(body, 7);
        let key_replay_counter = read_u64_be(body, 9);
        let mut key_nonce = [0u8; 32];
        let mut i: usize = 0;
        while i < 32
            invariant
                body@.len() >= 73,
                i <= 32,
                forall|k: int| 0 <= k < i ==> key_nonce@[k] == body@[17 + k],
            decreases 32 - i,
        {
            key_nonce[i] = body[17 + i];
            i = i + 1;
        }
        assert(key_nonce@ =~= body@.subrange(17, 49));
        let key_iv = read_u128_be(body, 49);
        let key_rsc = read_u64_be(body, 65);
        let mic_len = match akm_suite.key_mic_len() {
            Some(m) => m,
            None => {
                return Err(Error::BadInput);
            },
        };
        if body.len() < 83 || body.len() - 83 < mic_len {
            return Err(Error::TooShort);
        }
        let key_mic = slice_range(body, 81, 81 + mic_len);
        let key_data_length = read_u16_be(body, 81 + mic_len) as usize;
        if body.len() - (83 + mic_len) < key_data_length {
            return Err(Error::TooShort);
        }
        let key_data = slice_range(body, 83 + mic_len, 83 + mic_len + key_data_length);
        Ok(
            (
                EapolKeyFrame {
                    key_information,
                    key_length,
                    key_replay_counter,
                    key_nonce,
                    key_iv,
                    key_rsc,
                    key_mic,
                    key_data: ReadElements { bytes: key_data },
                },
                83 + mic_len + key_data_length,
            ),
        )
    }

    /// The length of the serialized frame.
    pub fn measure_with(&self) -> (r: usize)
        requires
            83 + self.key_mic@.len() + self.key_data.bytes@.len() <= usize::MAX,
        ensures
            r == eapol_key_frame_bytes(self@).len(),
    {
        1 + 1 + 2 + 1 + 2 + 2 + 8 + 32 + 16 + 8 + 8 + self.key_mic.len() + 2 + self.key_data.bytes.len()
    }

    /// The serialized frame.
    pub fn to_bytes(&self) -> (r: Vec<u8>)
        ensures
            r@ == eapol_key_frame_bytes(self@),
    {
        let mut body: Vec<u8> = Vec::new();
        body.push(EAPOL_802_11_KEY_DESCRIPTOR_TYPE);
        push_u16_be(&mut body, self.key_information.into_bits());
        push_u16_be(&mut body, self.key_length);
        push_u64_be(&mut body, self.key_replay_counter);
        push_bytes(&mut body, self.key_nonce.as_slice());
        push_u128_be(&mut body, self.key_iv);
        push_u64_be(&mut body, self.key_rsc);
        push_u64_be(&mut body, 0);
        push_bytes(&mut body, self.key_mic);
        push_u16_be(&mut body, (self.key_data.bytes.len() % 0x1_0000) as u16);
        push_bytes(&mut body, self.key_data.bytes);
        assert(body@ =~= eapol_key_body(self@));
        let mut out: Vec<u8> = Vec::new();
        out.push(EAPOL_2004_PROTOCOL_VERSION);
        out.push(EAPOL_KEY_MESSAGE_TYPE);
        push_u16_be(&mut out, (body.len() % 0x1_0000) as u16);
        push_bytes(&mut out, body.as_slice());
        assert(out@ =~= eapol_key_frame_bytes(self@));
        out
    }

    /// Write the frame to the start of `buf`, returning the number of bytes written.
    pub fn try_into_ctx(&self, buf: &mut [u8]) -> (r: Result<usize, Error>)
        ensures
            final(buf)@.len() == old(buf)@.len(),
            ({
                let bytes = eapol_key_frame_bytes(self@);
                &&& bytes.len() <= old(buf)@.len() ==> r == Ok::<usize, Error>(bytes.len() as usize)
                    && final(buf)@ == bytes + old(buf)@.skip(bytes.len() as int)
                &&& bytes.len() > old(buf)@.len() ==> r == Err::<usize, Error>(Error::TooShort)
            }),
    {
        let bytes = self.to_bytes();
        write_all(buf, bytes.as_slice())
    }
}


/// Where the fixed fields of a written EAPOL key frame stand.
#[verifier::spinoff_prover]
proof fn lemma_eapol_fixed_fields(v: EapolKeyFrameView)
    requires
        v.3.len() == 32,
        eapol_key_body(v).len() < 0x1_0000,
    ensures
        ({
            let s = eapol_key_frame_bytes(v);
            &&& s.len() == 4 + eapol_key_body(v).len()
            &&& s[1] == EAPOL_KEY_MESSAGE_TYPE
            &&& be_u16(s, 2) == eapol_key_body(v).len()
            &&& s[4] == EAPOL_802_11_KEY_DESCRIPTOR_TYPE
            &&& be_u16(s, 5) == v.0.0
            &&& be_u16(s, 7) == v.1
            &&& be_u64(s, 9) == v.2
            &&& s.subrange(17, s.len() as int) == eapol_tail_nonce(v)
        }),
{
    let body = eapol_key_body(v);
    let s = eapol_key_frame_bytes(v);
    assert(s.subrange(2, 4) =~= u16_be_bytes(body.len() as u16));
    lemma_u16_at(s, 2, body.len() as u16);
    assert(s.subrange(4, 4 + body.len() as int) =~= body);
    lemma_subrange_of(s, 4, body, 1, 3);
    assert(body.subrange(1, 3) =~= u16_be_bytes(v.0.0));
    lemma_u16_at(s, 5, v.0.0);
    lemma_subrange_of(s, 4, body, 3, 5);
    assert(body.subrange(3, 5) =~= u16_be_bytes(v.1));
    lemma_u16_at(s, 7, v.1);
    lemma_subrange_of(s, 4, body, 5, 13);
    assert(body.subrange(5, 13) =~= u64_be_bytes(v.2));
    lemma_u64_at(s, 9, v.2);
    lemma_subrange_of(s, 4, body, 13, body.len() as int);
    assert(body.subrange(13, body.len() as int) =~= eapol_tail_nonce(v));
}

/// Where the fields after the nonce stand, for `s` that holds the nonce and what follows it
/// from byte 17 on.
#[verifier::spinoff_prover]
#[verifier::rlimit(40)]
proof fn lemma_eapol_tail_fields(s: Seq<u8>, v: EapolKeyFrameView)
    requires
        v.3.len() == 32,
        v.7.len() < 0x1_0000,
        s.len() == 17 + eapol_tail_nonce(v).len(),
        s.subrange(17, s.len() as int) == eapol_tail_nonce(v),
    ensures
        ({
            let m = v.6.len() as int;
            let k = v.7.len() as int;
            &&& s.len() == 83 + m + k
            &&& s.subrange(17, 49) == v.3
            &&& be_u128(s, 49) == v.4
            &&& be_u64(s, 65) == v.5
            &&& s.subrange(81, 81 + m) == v.6
            &&& be_u16(s, 81 + m) == k
            &&& s.subrange(83 + m, 83 + m + k) == v.7
        }),
{
    let m = v.6.len() as int;
    let k = v.7.len() as int;
    let t = eapol_tail_nonce(v);
    lemma_subrange_of(s, 17, t, 0, 32);
    assert(t.subrange(0, 32) =~= v.3);
    lemma_subrange_of(s, 17, t, 32, 48);
    assert(t.subrange(32, 48) =~= u128_be_bytes(v.4));
    lemma_u128_at(s, 49, v.4);
    lemma_subrange_of(s, 17, t, 48, 56);
    assert(t.subrange(48, 56) =~= u64_be_bytes(v.5));
    lemma_u64_at(s, 65, v.5);
    let tm = eapol_tail_mic(v);
    lemma_subrange_of(s, 17, t, 64, t.len() as int);
    assert(t.subrange(64, t.len() as int) =~= tm);
    lemma_subrange_of(s, 81, tm, 0, m);
    assert(tm.subrange(0, m) =~= v.6);
    let tk = eapol_tail_key_data(v);
    lemma_subrange_of(s, 81, tm, m, tm.len() as int);
    assert(tm.subrange(m, tm.len() as int) =~= tk);
    lemma_subrange_of(s, 81 + m, tk, 0, 2);
    assert(tk.subrange(0, 2) =~= u16_be_bytes(k as u16));
    lemma_u16_at(s, 81 + m, k as u16);
    lemma_subrange_of(s, 81 + m, tk, 2, 2 + k);
    assert(tk.subrange(2, 2 + k) =~= v.7);
}

/// Reading a written EAPOL key frame gives back its fields and its length, when the MIC is as
/// long as the AKM suite calls for and the packet body fits a sixteen bit length.
#[verifier::spinoff_prover]
#[verifier::rlimit(40)]
pub proof fn lemma_eapol_key_frame_roundtrip(v: EapolKeyFrameView, akm_suite: IEEE80211AKMType)
    requires
        akm_suite.spec_key_mic_len() == Some(v.6.len() as usize),
        v.3.len() == 32,
        eapol_key_body(v).len() < 0x1_0000,
    ensures
        parse_eapol_key_frame(eapol_key_frame_bytes(v), akm_suite) == Ok::<(EapolKeyFrameView, int), Error>(
            (v, eapol_key_frame_bytes(v).len() as int),
        ),
{
    let s = eapol_key_frame_bytes(v);
    lemma_eapol_fixed_fields(v);
    lemma_eapol_tail_fields(s, v);
    let b = s.take(be_u16(s, 2) + 4);
    assert(b =~= s);
    reveal(parse_eapol_key_frame);
}


/// The LLC header with the SNAP extension, and the EAPOL key frame it carries.
#[derive(Clone, Copy, Debug, PartialEq, Eq, Hash)]
pub struct EapolSnapPayload<'a> {
    /// The organizationally unique identifier.
    pub oui: [u8; 3],
    /// The type of the protocol carried, which for EAPOL is 0x888e.
    pub ether_type: u16,
    /// The EAPOL key frame.
    pub payload: EapolKeyFrame<'a>,
}

/// A data frame that carries an EAPOL key frame.
///
/// The data frame header is held as its serialized bytes.
#[derive(Clone, Copy, Debug, PartialEq, Eq, Hash)]
pub struct EapolDataFrame<'a> {
    /// The serialized data frame header.
    pub header: &'a [u8],
    /// The LLC header and the EAPOL key frame, if the frame has a payload.
    pub payload: Option<EapolSnapPayload<'a>>,
}

/// The bytes of an LLC header with the SNAP extension: two SNAP codes, an unnumbered control
/// field, the OUI and the ether type, most significant byte first.
pub open spec fn snap_llc_bytes(oui: Seq<u8>, ether_type: u16) -> Seq<u8> {
    seq![0xaau8, 0xaau8, 0x03u8] + oui + u16_be_bytes(ether_type)
}

/// The serialized data frame: the header, then the LLC header and the key frame, if present.
pub open spec fn eapol_data_frame_bytes(f: EapolDataFrame) -> Seq<u8> {
    f.header@ + match f.payload {
        Some(p) => snap_llc_bytes(p.oui@, p.ether_type) + eapol_key_frame_bytes(p.payload@),
        None => Seq::empty(),
    }
}

/// Where the key data length field stands in a serialized data frame with a payload, and how
/// long the frame is.
pub proof fn lemma_eapol_data_frame_layout(f: EapolDataFrame)
    requires
        f.payload is Some,
    ensures
        ({
            let v = f.payload->0.payload@;
            let b = eapol_data_frame_bytes(f);
            let start = f.header@.len() + 8int;
            let m = v.6.len() as int;
            &&& b.len() == start + 83 + m + v.7.len()
            &&& b.subrange(start + 81 + m, start + 83 + m) == u16_be_bytes(
                (v.7.len() % 0x1_0000) as u16,
            )
        }),
{
    let p = f.payload->0;
    let v = p.payload@;
    let m = v.6.len() as int;
    let start = f.header@.len() + 8int;
    let k = eapol_key_frame_bytes(v);
    let tn = eapol_tail_nonce(v);
    let tm = eapol_tail_mic(v);
    let b = eapol_data_frame_bytes(f);
    assert(snap_llc_bytes(p.oui@, p.ether_type).len() == 8);
    assert(b.subrange(start, start + k.len()) =~= k);
    assert(k.subrange(17, k.len() as int) =~= tn);
    assert(tn.subrange(64, tn.len() as int) =~= tm);
    lemma_subrange_of(b, start, k, 17, k.len() as int);
    lemma_subrange_of(b, start + 17, tn, 64, tn.len() as int);
    lemma_subrange_of(b, start + 81, tm, m, m + 2);
    assert(tm.subrange(m, m + 2) =~= u16_be_bytes((v.7.len() % 0x1_0000) as u16));
}

/// Where the fields of the key frame stand in a serialized data frame with a payload.
#[verifier::spinoff_prover]
pub proof fn lemma_eapol_data_frame_fields(f: EapolDataFrame)
    requires
        f.payload is Some,
    ensures
        ({
            let p = f.payload->0;
            let v = p.payload@;
            let b = eapol_data_frame_bytes(f);
            let h = f.header@.len() as int;
            let kf = h + 8;
            let m = v.6.len() as int;
            let k = v.7.len() as int;
            &&& b.len() == kf + 83 + m + k
            &&& be_u16(b, h + 6) == p.ether_type
            &&& b.subrange(kf, kf + 2) == seq![EAPOL_2004_PROTOCOL_VERSION, EAPOL_KEY_MESSAGE_TYPE]
            &&& b.subrange(kf + 4, kf + 81) == eapol_fixed_fields(v)
            &&& b.subrange(kf + 81, kf + 81 + m) == v.6
            &&& b.subrange(kf + 83 + m, kf + 83 + m + k) == v.7
        }),
{
    let p = f.payload->0;
    let v = p.payload@;
    let b = eapol_data_frame_bytes(f);
    let h = f.header@.len() as int;
    let kf = h + 8;
    let m = v.6.len() as int;
    let k = v.7.len() as int;
    let llc = snap_llc_bytes(p.oui@, p.ether_type);
    let kb = eapol_key_frame_bytes(v);
    lemma_eapol_key_frame_parts(v);
    assert(llc.len() == 8);
    assert(b.subrange(h, h + 8) =~= llc);
    lemma_subrange_of(b, h, llc, 6, 8);
    assert(llc.subrange(6, 8) =~= u16_be_bytes(p.ether_type));
    lemma_u16_at(b, h + 6, p.ether_type);
    assert(b.subrange(kf, kf + kb.len()) =~= kb);
    lemma_subrange_of(b, kf, kb, 0, 2);
    lemma_subrange_of(b, kf, kb, 4, 81);
    lemma_subrange_of(b, kf, kb, 81, 81 + m);
    lemma_subrange_of(b, kf, kb, 83 + m, 83 + m + k);
}

impl<'a> EapolDataFrame<'a> {
    /// The serialized data frame.
    pub fn to_bytes(&self) -> (r: Vec<u8>)
        ensures
            r@ == eapol_data_frame_bytes(*self),
    {
        let mut out: Vec<u8> = Vec::new();
        push_bytes(&mut out, self.header);
        if let Some(p) = &self.payload {
            out.push(0xaa);
            out.push(0xaa);
            out.push(0x03);
            push_bytes(&mut out, p.oui.as_slice());
            push_u16_be(&mut out, p.ether_type);
            let frame = p.payload.to_bytes();
            push_bytes(&mut out, frame.as_slice());
        }
        assert(out@ =~= eapol_data_frame_bytes(*self));
        out
    }

    /// Get the range in which the EAPOL MIC field is in the serialized data frame.
    pub fn eapol_mic_range(&self) -> (r: Option<core::ops::Range<usize>>)
        requires
            self.payload matches Some(p) ==> self.header@.len() + 89 + p.payload.key_mic@.len() <= usize::MAX,
        ensures
            r is Some <==> self.payload is Some,
            r matches Some(range) ==> range.start == self.header@.len() + 89 && range.end
                == range.start + self.payload->0.payload.key_mic@.len(),
    {
        match &self.payload {
            Some(p) => {
                let mic_start = self.header.len() + 8 + 1 + 1 + 2 + 1 + 2 + 2 + 8 + 32 + 16 + 8 + 8;
                Some(mic_start..mic_start + p.payload.key_mic.len())
            },
            None => None,
        }
    }

    /// Get the range in which the EAPOL key data length field is in the serialized data frame.
    pub fn eapol_key_data_length_range(&self) -> (r: Option<core::ops::Range<usize>>)
        requires
            self.payload matches Some(p) ==> self.header@.len() + 91 + p.payload.key_mic@.len()
                <= usize::MAX,
        ensures
            r is Some <==> self.payload is Some,
            r matches Some(range) ==> range.start == self.header@.len() + 89
                + self.payload->0.payload.key_mic@.len() && range.end == range.start + 2,
    {
        match &self.payload {
            Some(p) => {
                let start = self.header.len() + 8 + 1 + 1 + 2 + 1 + 2 + 2 + 8 + 32 + 16 + 8 + 8
                    + p.payload.key_mic.len();
                Some(start..start + 2)
            },
            None => None,
        }
    }

    /// Get where the EAPOL key data starts in the serialized data frame; it runs to the end.
    pub fn eapol_key_data_range(&self) -> (r: Option<usize>)
        requires
            self.payload matches Some(p) ==> self.header@.len() + 91 + p.payload.key_mic@.len()
                <= usize::MAX,
        ensures
            r is Some <==> self.payload is Some,
            r matches Some(start) ==> start == self.header@.len() + 91
                + self.payload->0.payload.key_mic@.len(),
    {
        match &self.payload {
            Some(p) => Some(
                self.header.len() + 8 + 1 + 1 + 2 + 1 + 2 + 2 + 8 + 32 + 16 + 8 + 8
                    + p.payload.key_mic.len() + 2,
            ),
            None => None,
        }
    }
}

/// The numbering of [KeyDescriptorVersion]: each named value is read from its own number and written as that
/// number, and any other number is kept as an unknown value.
pub proof fn lemma_key_descriptor_version_numbering(value: u8)
    ensures
        (KeyDescriptorVersion::spec_from_bits(value) == KeyDescriptorVersion::Rc4HmacMd5) == (value == 1),
        (KeyDescriptorVersion::spec_from_bits(value) == KeyDescriptorVersion::AesHmacSha1) == (value == 2),
        (KeyDescriptorVersion::spec_from_bits(value) == KeyDescriptorVersion::AesCmac) == (value == 3),
        KeyDescriptorVersion::Rc4HmacMd5.spec_into_bits() == 1,
        KeyDescriptorVersion::AesHmacSha1.spec_into_bits() == 2,
        KeyDescriptorVersion::AesCmac.spec_into_bits() == 3,
        (KeyDescriptorVersion::spec_from_bits(value) == KeyDescriptorVersion::Unknown(value)) == !(
            value == 1 || value == 2 || value == 3),
{
}

/// The key descriptor version sits in bits 0 to 2 of the key information, numbered as the
/// standard numbers it: 1 for RC4 with HMAC-MD5, 2 for AES key wrap with HMAC-SHA-1 and 3 for AES
/// key wrap with AES-CMAC. Reading gives each version exactly for its number, and writing a
/// version puts its number there and keeps the other bits.
pub proof fn lemma_key_descriptor_version_bits(k: u16, v: KeyDescriptorVersion)
    ensures
        (KeyInformation(k).spec_key_descriptor_version() == KeyDescriptorVersion::Rc4HmacMd5) == (
        get_bits_u16(k, 0, 0x7) == 1),
        (KeyInformation(k).spec_key_descriptor_version() == KeyDescriptorVersion::AesHmacSha1) == (
        get_bits_u16(k, 0, 0x7) == 2),
        (KeyInformation(k).spec_key_descriptor_version() == KeyDescriptorVersion::AesCmac) == (
        get_bits_u16(k, 0, 0x7) == 3),
        v == KeyDescriptorVersion::Rc4HmacMd5 ==> get_bits_u16(
            set_bits_u16(k, 0, 0x7, v.spec_into_bits() as u16),
            0,
            0x7,
        ) == 1,
        v == KeyDescriptorVersion::AesHmacSha1 ==> get_bits_u16(
            set_bits_u16(k, 0, 0x7, v.spec_into_bits() as u16),
            0,
            0x7,
        ) == 2,
        v == KeyDescriptorVersion::AesCmac ==> get_bits_u16(
            set_bits_u16(k, 0, 0x7, v.spec_into_bits() as u16),
            0,
            0x7,
        ) == 3,
        set_bits_u16(k, 0, 0x7, v.spec_into_bits() as u16) & !0x7u16 == k & !0x7u16,
{
    let t = get_bits_u16(k, 0, 0x7);
    assert(t <= 7 && 0x7u16 << 0u16 == 0x7u16 && 1u16 & 0x7u16 == 1 && 2u16 & 0x7u16 == 2 && 3u16
        & 0x7u16 == 3) by (bit_vector)
        requires
            t == (k >> 0u16) & 0x7u16,
    ;
    lemma_key_descriptor_version_numbering(t as u8);
    KeyInformation::lemma_masks_fit();
    lemma_set_bits_u16(k, 0, 0x7, v.spec_into_bits() as u16, 0, 0x7);
}

} // verus!
