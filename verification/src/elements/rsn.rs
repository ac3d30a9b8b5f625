//! The RSN element, which describes the security characteristics of a BSS.
use crate::common::bits::{fits_u16, get_bits_u16, lemma_set_bits_u16, set_bits_u16};
use crate::common::wire::{
    le_u16, le_u32, lemma_subrange_of, lemma_u16_at, lemma_u32_at, push_bytes, push_u16_le, push_u32_le, read_u16_le,
    read_u32_le, slice_range, u16_le_bytes, u32_le_bytes, write_all, Error,
};
use crate::elements::ElementID;
use crate::elements::Element;
use crate::common::ieee80211_list::ListItem;
use vstd::prelude::*;
use vstd::std_specs::cmp::PartialEqSpecImpl;

verus! {

/// The first byte of the OUI of the IEEE.
pub const IEEE_OUI_0: u8 = 0x00;

/// The second byte of the OUI of the IEEE.
pub const IEEE_OUI_1: u8 = 0x0f;

/// The third byte of the OUI of the IEEE.
pub const IEEE_OUI_2: u8 = 0xac;

/// The selector of the IEEE suite with type `suite_type`.
pub open spec fn ieee_selector(suite_type: u8) -> u32 {
    (0xac0f00 + suite_type * 0x100_0000) as u32
}

/// The suite type of `cipher_suite_selector`, if its OUI is that of the IEEE.
pub open spec fn spec_ieee_suite_type(cipher_suite_selector: u32) -> Option<u8> {
    if cipher_suite_selector % 0x100_0000 == 0xac0f00 {
        Some((cipher_suite_selector / 0x100_0000) as u8)
    } else {
        None
    }
}

/// Combine the OUI and suite type into the cipher suite selector.
pub fn merge_oui_and_suite_type(oui: [u8; 3], suite_type: u8) -> (r: u32)
    ensures
        r == oui[0] + oui[1] * 0x100 + oui[2] * 0x1_0000 + suite_type * 0x100_0000,
{
    let (a, b, c) = (oui[0], oui[1], oui[2]);
    let r = (a as u32) | ((b as u32) << 8u32) | ((c as u32) << 16u32) | ((suite_type as u32) << 24u32);
    assert(r == a + b * 0x100 + c * 0x1_0000 + suite_type * 0x100_0000) by (bit_vector)
        requires
            r == (a as u32) | ((b as u32) << 8u32) | ((c as u32) << 16u32) | ((suite_type as u32)
                << 24u32),
    ;
    r
}

/// Split the cipher suite selector into OUI and suite type.
pub fn split_cipher_suite_selector(cipher_suite_selector: u32) -> (r: ([u8; 3], u8))
    ensures
        r.0[0] + r.0[1] * 0x100 + r.0[2] * 0x1_0000 + r.1 * 0x100_0000 == cipher_suite_selector,
        (r.0[0] == IEEE_OUI_0 && r.0[1] == IEEE_OUI_1 && r.0[2] == IEEE_OUI_2) <==> cipher_suite_selector
            % 0x100_0000 == 0xac0f00,
        r.1 == cipher_suite_selector / 0x100_0000,
{
    let s = cipher_suite_selector;
    let a = (s & 0xff) as u8;
    let b = ((s >> 8u32) & 0xff) as u8;
    let c = ((s >> 16u32) & 0xff) as u8;
    let t = (s >> 24u32) as u8;
    assert(a + b * 0x100 + c * 0x1_0000 + t * 0x100_0000 == s && ((a == 0 && b == 0x0f && c
        == 0xac) <==> s % 0x100_0000 == 0xac0f00) && t == s / 0x100_0000) by (bit_vector)
        requires
            a == (s & 0xff) as u8,
            b == ((s >> 8u32) & 0xff) as u8,
            c == ((s >> 16u32) & 0xff) as u8,
            t == (s >> 24u32) as u8,
    ;
    ([a, b, c], t)
}

/// Extract the suite type, if the OUI matches that of the IEEE.
pub fn get_suite_type_if_oui_is_ieee(cipher_suite_selector: u32) -> (r: Option<u8>)
    ensures
        r == spec_ieee_suite_type(cipher_suite_selector),
{
    let s = cipher_suite_selector;
    proof {
        assert((s & 0xff_ffff == 0xac0f00u32) == (s % 0x100_0000 == 0xac0f00) && (s >> 24u32) as u8
            == (s / 0x100_0000) as u8) by (bit_vector);
    }
    if s & 0xff_ffff == 0xac0f00u32 {
        Some((s >> 24u32) as u8)
    } else {
        None
    }
}

/// The cipher suites.
#[derive(Clone, Copy, Debug, PartialEq, Eq, Hash, Structural)]
pub enum IEEE80211CipherSuiteSelector {
    /// A suite, that isn't one of the IEEE suites listed here.
    Unknown {
        /// The OUI and suite type.
        cipher_suite_selector: u32,
    },
    UseGroupCipherSuite,
    Wep40,
    Tkip,
    Ccmp128,
    Wep104,
    BipCmac128,
    GroupAddessedTrafficNotAllowed,
    Gcmp128,
    Gcmp256,
    Ccmp256,
    BIPGcmp128,
    BIPGcmp256,
    BIPCcmp256,
}

impl IEEE80211CipherSuiteSelector {
    /// The suite that `cipher_suite_selector` selects.
    pub open spec fn spec_with_selector(cipher_suite_selector: u32) -> Self {
        match spec_ieee_suite_type(cipher_suite_selector) {
            Some(0u8) => IEEE80211CipherSuiteSelector::UseGroupCipherSuite,
            Some(1u8) => IEEE80211CipherSuiteSelector::Wep40,
            Some(2u8) => IEEE80211CipherSuiteSelector::Tkip,
            Some(4u8) => IEEE80211CipherSuiteSelector::Ccmp128,
            Some(5u8) => IEEE80211CipherSuiteSelector::Wep104,
            Some(6u8) => IEEE80211CipherSuiteSelector::BipCmac128,
            Some(7u8) => IEEE80211CipherSuiteSelector::GroupAddessedTrafficNotAllowed,
            Some(8u8) => IEEE80211CipherSuiteSelector::Gcmp128,
            Some(9u8) => IEEE80211CipherSuiteSelector::Gcmp256,
            Some(10u8) => IEEE80211CipherSuiteSelector::Ccmp256,
            Some(11u8) => IEEE80211CipherSuiteSelector::BIPGcmp128,
            Some(12u8) => IEEE80211CipherSuiteSelector::BIPGcmp256,
            Some(13u8) => IEEE80211CipherSuiteSelector::BIPCcmp256,
            _ => IEEE80211CipherSuiteSelector::Unknown { cipher_suite_selector },
        }
    }

    /// The OUI and suite type of this suite, as one number.
    pub open spec fn spec_selector(self) -> u32 {
        match self {
            IEEE80211CipherSuiteSelector::UseGroupCipherSuite => ieee_selector(0),
            IEEE80211CipherSuiteSelector::Wep40 => ieee_selector(1),
            IEEE80211CipherSuiteSelector::Tkip => ieee_selector(2),
            IEEE80211CipherSuiteSelector::Ccmp128 => ieee_selector(4),
            IEEE80211CipherSuiteSelector::Wep104 => ieee_selector(5),
            IEEE80211CipherSuiteSelector::BipCmac128 => ieee_selector(6),
            IEEE80211CipherSuiteSelector::GroupAddessedTrafficNotAllowed => ieee_selector(7),
            IEEE80211CipherSuiteSelector::Gcmp128 => ieee_selector(8),
            IEEE80211CipherSuiteSelector::Gcmp256 => ieee_selector(9),
            IEEE80211CipherSuiteSelector::Ccmp256 => ieee_selector(10),
            IEEE80211CipherSuiteSelector::BIPGcmp128 => ieee_selector(11),
            IEEE80211CipherSuiteSelector::BIPGcmp256 => ieee_selector(12),
            IEEE80211CipherSuiteSelector::BIPCcmp256 => ieee_selector(13),
            IEEE80211CipherSuiteSelector::Unknown { cipher_suite_selector } => cipher_suite_selector,
        }
    }

    /// This value is the one its selector gives: an unknown suite never carries the selector of a
    /// listed one.
    pub open spec fn spec_canonical(self) -> bool {
        Self::spec_with_selector(self.spec_selector()) == self
    }

    /// The suite that `cipher_suite_selector` selects.
    pub fn with_cipher_suite_selector(cipher_suite_selector: u32) -> (r: Self)
        ensures
            r == Self::spec_with_selector(cipher_suite_selector),
            r.spec_selector() == cipher_suite_selector,
    {
        let (oui, suite_type) = split_cipher_suite_selector(cipher_suite_selector);
        if oui[0] == IEEE_OUI_0 && oui[1] == IEEE_OUI_1 && oui[2] == IEEE_OUI_2 {
            match suite_type {
                0 => IEEE80211CipherSuiteSelector::UseGroupCipherSuite,
                1 => IEEE80211CipherSuiteSelector::Wep40,
                2 => IEEE80211CipherSuiteSelector::Tkip,
                4 => IEEE80211CipherSuiteSelector::Ccmp128,
                5 => IEEE80211CipherSuiteSelector::Wep104,
                6 => IEEE80211CipherSuiteSelector::BipCmac128,
                7 => IEEE80211CipherSuiteSelector::GroupAddessedTrafficNotAllowed,
                8 => IEEE80211CipherSuiteSelector::Gcmp128,
                9 => IEEE80211CipherSuiteSelector::Gcmp256,
                10 => IEEE80211CipherSuiteSelector::Ccmp256,
                11 => IEEE80211CipherSuiteSelector::BIPGcmp128,
                12 => IEEE80211CipherSuiteSelector::BIPGcmp256,
                13 => IEEE80211CipherSuiteSelector::BIPCcmp256,
                _ => IEEE80211CipherSuiteSelector::Unknown {
                    cipher_suite_selector: merge_oui_and_suite_type(oui, suite_type),
                },
            }
        } else {
            IEEE80211CipherSuiteSelector::Unknown { cipher_suite_selector: merge_oui_and_suite_type(oui, suite_type) }
        }
    }

    /// The OUI and suite type of this suite, as one number.
    pub fn cipher_suite_selector(&self) -> (r: u32)
        ensures
            r == self.spec_selector(),
    {
        match *self {
            IEEE80211CipherSuiteSelector::UseGroupCipherSuite => merge_oui_and_suite_type([IEEE_OUI_0, IEEE_OUI_1, IEEE_OUI_2], 0),
            IEEE80211CipherSuiteSelector::Wep40 => merge_oui_and_suite_type([IEEE_OUI_0, IEEE_OUI_1, IEEE_OUI_2], 1),
            IEEE80211CipherSuiteSelector::Tkip => merge_oui_and_suite_type([IEEE_OUI_0, IEEE_OUI_1, IEEE_OUI_2], 2),
            IEEE80211CipherSuiteSelector::Ccmp128 => merge_oui_and_suite_type([IEEE_OUI_0, IEEE_OUI_1, IEEE_OUI_2], 4),
            IEEE80211CipherSuiteSelector::Wep104 => merge_oui_and_suite_type([IEEE_OUI_0, IEEE_OUI_1, IEEE_OUI_2], 5),
            IEEE80211CipherSuiteSelector::BipCmac128 => merge_oui_and_suite_type([IEEE_OUI_0, IEEE_OUI_1, IEEE_OUI_2], 6),
            IEEE80211CipherSuiteSelector::GroupAddessedTrafficNotAllowed => merge_oui_and_suite_type([IEEE_OUI_0, IEEE_OUI_1, IEEE_OUI_2], 7),
            IEEE80211CipherSuiteSelector::Gcmp128 => merge_oui_and_suite_type([IEEE_OUI_0, IEEE_OUI_1, IEEE_OUI_2], 8),
            IEEE80211CipherSuiteSelector::Gcmp256 => merge_oui_and_suite_type([IEEE_OUI_0, IEEE_OUI_1, IEEE_OUI_2], 9),
            IEEE80211CipherSuiteSelector::Ccmp256 => merge_oui_and_suite_type([IEEE_OUI_0, IEEE_OUI_1, IEEE_OUI_2], 10),
            IEEE80211CipherSuiteSelector::BIPGcmp128 => merge_oui_and_suite_type([IEEE_OUI_0, IEEE_OUI_1, IEEE_OUI_2], 11),
            IEEE80211CipherSuiteSelector::BIPGcmp256 => merge_oui_and_suite_type([IEEE_OUI_0, IEEE_OUI_1, IEEE_OUI_2], 12),
            IEEE80211CipherSuiteSelector::BIPCcmp256 => merge_oui_and_suite_type([IEEE_OUI_0, IEEE_OUI_1, IEEE_OUI_2], 13),
            IEEE80211CipherSuiteSelector::Unknown { cipher_suite_selector } => cipher_suite_selector,
        }
    }

    /// Read a suite from its four bytes.
    pub fn try_from_ctx(from: &[u8]) -> (r: Result<(Self, usize), Error>)
        ensures
            from@.len() < 4 ==> r == Err::<(Self, usize), Error>(Error::TooShort),
            from@.len() >= 4 ==> r == Ok::<(Self, usize), Error>(
                (Self::spec_with_selector(le_u32(from@, 0)), 4),
            ),
    {
        if from.len() < 4 {
            return Err(Error::TooShort);
        }
        Ok((Self::with_cipher_suite_selector(read_u32_le(from, 0)), 4))
    }

    /// The serialized length of a suite.
    pub fn size_with() -> (r: usize)
        ensures
            r == 4,
    {
        4
    }

    /// Write the suite to the start of `buf`.
    pub fn try_into_ctx(self, buf: &mut [u8]) -> (r: Result<usize, Error>)
        ensures
            final(buf)@.len() == old(buf)@.len(),
            4 <= old(buf)@.len() ==> r == Ok::<usize, Error>(4) && final(buf)@ == u32_le_bytes(
                self.spec_selector(),
            ) + old(buf)@.skip(4),
            4 > old(buf)@.len() ==> r == Err::<usize, Error>(Error::TooShort),
    {
        let mut bytes: Vec<u8> = Vec::new();
        push_u32_le(&mut bytes, self.cipher_suite_selector());
        write_all(buf, bytes.as_slice())
    }
}

impl Default for IEEE80211CipherSuiteSelector {
    fn default() -> (r: Self)
        ensures
            r == IEEE80211CipherSuiteSelector::UseGroupCipherSuite,
    {
        IEEE80211CipherSuiteSelector::UseGroupCipherSuite
    }
}

impl IEEE80211CipherSuiteSelector {
    /// Get the length of the temporal key (TK), in bytes.
    pub open spec fn spec_tk_len(&self) -> Option<usize> {
        match spec_ieee_suite_type(self.spec_selector()) {
            Some(suite_type) => match suite_type {
                1u8 => Some(5usize),
                2u8 | 9u8..=10u8 | 12u8..=13u8 => Some(32usize),
                4u8 | 6u8 | 8u8 | 11u8 => Some(16usize),
                5u8 => Some(13usize),
                _ => None,
            },
            None => None,
        }
    }

    /// Get the length of the temporal key (TK), in bytes.
    pub fn tk_len(&self) -> (r: Option<usize>)
        ensures
            r == self.spec_tk_len(),
    {
        if let Some(suite_type) = get_suite_type_if_oui_is_ieee(self.cipher_suite_selector()) {
            match suite_type {
                1 => Some(5),
                2 | 9..=10 | 12..=13 => Some(32),
                4 | 6 | 8 | 11 => Some(16),
                5 => Some(13),
                _ => None,
            }
        } else {
            None
        }
    }

    /// Get the length of the message integrity check (MIC), in bytes.
    pub open spec fn spec_mic_len(&self) -> Option<usize> {
        match spec_ieee_suite_type(self.spec_selector()) {
            Some(suite_type) => match suite_type {
                2u8 | 4u8 | 6u8 => Some(8usize),
                8u8..=13u8 => Some(16usize),
                _ => None,
            },
            None => None,
        }
    }

    /// Get the length of the message integrity check (MIC), in bytes.
    pub fn mic_len(&self) -> (r: Option<usize>)
        ensures
            r == self.spec_mic_len(),
    {
        if let Some(suite_type) = get_suite_type_if_oui_is_ieee(self.cipher_suite_selector()) {
            match suite_type {
                2 | 4 | 6 => Some(8),
                8..=13 => Some(16),
                _ => None,
            }
        } else {
            None
        }
    }
}

/// The authentication and key-management type.
#[derive(Clone, Copy, Debug, PartialEq, Eq, Hash, Structural)]
pub enum IEEE80211AKMType {
    /// A suite, that isn't one of the IEEE suites listed here.
    Unknown {
        /// The OUI and suite type.
        cipher_suite_selector: u32,
    },
    /// No authentication and key management.
    NoAKM,
    Wpa,
    Psk,
    FTOverIEEE8021X,
    FTUsingPsk,
    WpaSha256,
    PskSha256,
    Tdls,
    Sae,
    FTUsingSae,
    APPeerKey,
    WpaSha256SuiteB,
    WpaSha384SuiteB,
    FTOverIEEE8021XSha384,
    FilsSha256Aes256,
    FilsSha384Aes512,
    FTOverFilsSha256Aes256,
    FTOverFilsSha384Aes512,
    /// Opportunistic wireless encryption, as in RFC 8110.
    OpportunisticWirelessEncryption,
    FTUsingPskSha384,
    PskSha384,
    Pasn,
    SaeGroupDefend,
    FTUsingSaeGroupDefend,
}

impl IEEE80211AKMType {
    /// The suite that `cipher_suite_selector` selects.
    pub open spec fn spec_with_selector(cipher_suite_selector: u32) -> Self {
        match spec_ieee_suite_type(cipher_suite_selector) {
            Some(0u8) => IEEE80211AKMType::NoAKM,
            Some(1u8) => IEEE80211AKMType::Wpa,
            Some(2u8) => IEEE80211AKMType::Psk,
            Some(3u8) => IEEE80211AKMType::FTOverIEEE8021X,
            Some(4u8) => IEEE80211AKMType::FTUsingPsk,
            Some(5u8) => IEEE80211AKMType::WpaSha256,
            Some(6u8) => IEEE80211AKMType::PskSha256,
            Some(7u8) => IEEE80211AKMType::Tdls,
            Some(8u8) => IEEE80211AKMType::Sae,
            Some(9u8) => IEEE80211AKMType::FTUsingSae,
            Some(10u8) => IEEE80211AKMType::APPeerKey,
            Some(11u8) => IEEE80211AKMType::WpaSha256SuiteB,
            Some(12u8) => IEEE80211AKMType::WpaSha384SuiteB,
            Some(13u8) => IEEE80211AKMType::FTOverIEEE8021XSha384,
            Some(14u8) => IEEE80211AKMType::FilsSha256Aes256,
            Some(15u8) => IEEE80211AKMType::FilsSha384Aes512,
            Some(16u8) => IEEE80211AKMType::FTOverFilsSha256Aes256,
            Some(17u8) => IEEE80211AKMType::FTOverFilsSha384Aes512,
            Some(18u8) => IEEE80211AKMType::OpportunisticWirelessEncryption,
            Some(19u8) => IEEE80211AKMType::FTUsingPskSha384,
            Some(20u8) => IEEE80211AKMType::PskSha384,
            Some(21u8) => IEEE80211AKMType::Pasn,
            Some(22u8) => IEEE80211AKMType::SaeGroupDefend,
            Some(23u8) => IEEE80211AKMType::FTUsingSaeGroupDefend,
            _ => IEEE80211AKMType::Unknown { cipher_suite_selector },
        }
    }

    /// The OUI and suite type of this suite, as one number.
    pub open spec fn spec_selector(self) -> u32 {
        match self {
            IEEE80211AKMType::NoAKM => ieee_selector(0),
            IEEE80211AKMType::Wpa => ieee_selector(1),
            IEEE80211AKMType::Psk => ieee_selector(2),
            IEEE80211AKMType::FTOverIEEE8021X => ieee_selector(3),
            IEEE80211AKMType::FTUsingPsk => ieee_selector(4),
            IEEE80211AKMType::WpaSha256 => ieee_selector(5),
            IEEE80211AKMType::PskSha256 => ieee_selector(6),
            IEEE80211AKMType::Tdls => ieee_selector(7),
            IEEE80211AKMType::Sae => ieee_selector(8),
            IEEE80211AKMType::FTUsingSae => ieee_selector(9),
            IEEE80211AKMType::APPeerKey => ieee_selector(10),
            IEEE80211AKMType::WpaSha256SuiteB => ieee_selector(11),
            IEEE80211AKMType::WpaSha384SuiteB => ieee_selector(12),
            IEEE80211AKMType::FTOverIEEE8021XSha384 => ieee_selector(13),
            IEEE80211AKMType::FilsSha256Aes256 => ieee_selector(14),
            IEEE80211AKMType::FilsSha384Aes512 => ieee_selector(15),
            IEEE80211AKMType::FTOverFilsSha256Aes256 => ieee_selector(16),
            IEEE80211AKMType::FTOverFilsSha384Aes512 => ieee_selector(17),
            IEEE80211AKMType::OpportunisticWirelessEncryption => ieee_selector(18),
            IEEE80211AKMType::FTUsingPskSha384 => ieee_selector(19),
            IEEE80211AKMType::PskSha384 => ieee_selector(20),
            IEEE80211AKMType::Pasn => ieee_selector(21),
            IEEE80211AKMType::SaeGroupDefend => ieee_selector(22),
            IEEE80211AKMType::FTUsingSaeGroupDefend => ieee_selector(23),
            IEEE80211AKMType::Unknown { cipher_suite_selector } => cipher_suite_selector,
        }
    }

    /// This value is the one its selector gives: an unknown suite never carries the selector of a
    /// listed one.
    pub open spec fn spec_canonical(self) -> bool {
        Self::spec_with_selector(self.spec_selector()) == self
    }

    /// The suite that `cipher_suite_selector` selects.
    pub fn with_cipher_suite_selector(cipher_suite_selector: u32) -> (r: Self)
        ensures
            r == Self::spec_with_selector(cipher_suite_selector),
            r.spec_selector() == cipher_suite_selector,
    {
        let (oui, suite_type) = split_cipher_suite_selector(cipher_suite_selector);
        if oui[0] == IEEE_OUI_0 && oui[1] == IEEE_OUI_1 && oui[2] == IEEE_OUI_2 {
            match suite_type {
                0 => IEEE80211AKMType::NoAKM,
                1 => IEEE80211AKMType::Wpa,
                2 => IEEE80211AKMType::Psk,
                3 => IEEE80211AKMType::FTOverIEEE8021X,
                4 => IEEE80211AKMType::FTUsingPsk,
                5 => IEEE80211AKMType::WpaSha256,
                6 => IEEE80211AKMType::PskSha256,
                7 => IEEE80211AKMType::Tdls,
                8 => IEEE80211AKMType::Sae,
                9 => IEEE80211AKMType::FTUsingSae,
                10 => IEEE80211AKMType::APPeerKey,
                11 => IEEE80211AKMType::WpaSha256SuiteB,
                12 => IEEE80211AKMType::WpaSha384SuiteB,
                13 => IEEE80211AKMType::FTOverIEEE8021XSha384,
                14 => IEEE80211AKMType::FilsSha256Aes256,
                15 => IEEE80211AKMType::FilsSha384Aes512,
                16 => IEEE80211AKMType::FTOverFilsSha256Aes256,
                17 => IEEE80211AKMType::FTOverFilsSha384Aes512,
                18 => IEEE80211AKMType::OpportunisticWirelessEncryption,
                19 => IEEE80211AKMType::FTUsingPskSha384,
                20 => IEEE80211AKMType::PskSha384,
                21 => IEEE80211AKMType::Pasn,
                22 => IEEE80211AKMType::SaeGroupDefend,
                23 => IEEE80211AKMType::FTUsingSaeGroupDefend,
                _ => IEEE80211AKMType::Unknown {
                    cipher_suite_selector: merge_oui_and_suite_type(oui, suite_type),
                },
            }
        } else {
            IEEE80211AKMType::Unknown { cipher_suite_selector: merge_oui_and_suite_type(oui, suite_type) }
        }
    }

    /// The OUI and suite type of this suite, as one number.
    pub fn cipher_suite_selector(&self) -> (r: u32)
        ensures
            r == self.spec_selector(),
    {
        match *self {
            IEEE80211AKMType::NoAKM => merge_oui_and_suite_type([IEEE_OUI_0, IEEE_OUI_1, IEEE_OUI_2], 0),
            IEEE80211AKMType::Wpa => merge_oui_and_suite_type([IEEE_OUI_0, IEEE_OUI_1, IEEE_OUI_2], 1),
            IEEE80211AKMType::Psk => merge_oui_and_suite_type([IEEE_OUI_0, IEEE_OUI_1, IEEE_OUI_2], 2),
            IEEE80211AKMType::FTOverIEEE8021X => merge_oui_and_suite_type([IEEE_OUI_0, IEEE_OUI_1, IEEE_OUI_2], 3),
            IEEE80211AKMType::FTUsingPsk => merge_oui_and_suite_type([IEEE_OUI_0, IEEE_OUI_1, IEEE_OUI_2], 4),
            IEEE80211AKMType::WpaSha256 => merge_oui_and_suite_type([IEEE_OUI_0, IEEE_OUI_1, IEEE_OUI_2], 5),
            IEEE80211AKMType::PskSha256 => merge_oui_and_suite_type([IEEE_OUI_0, IEEE_OUI_1, IEEE_OUI_2], 6),
            IEEE80211AKMType::Tdls => merge_oui_and_suite_type([IEEE_OUI_0, IEEE_OUI_1, IEEE_OUI_2], 7),
            IEEE80211AKMType::Sae => merge_oui_and_suite_type([IEEE_OUI_0, IEEE_OUI_1, IEEE_OUI_2], 8),
            IEEE80211AKMType::FTUsingSae => merge_oui_and_suite_type([IEEE_OUI_0, IEEE_OUI_1, IEEE_OUI_2], 9),
            IEEE80211AKMType::APPeerKey => merge_oui_and_suite_type([IEEE_OUI_0, IEEE_OUI_1, IEEE_OUI_2], 10),
            IEEE80211AKMType::WpaSha256SuiteB => merge_oui_and_suite_type([IEEE_OUI_0, IEEE_OUI_1, IEEE_OUI_2], 11),
            IEEE80211AKMType::WpaSha384SuiteB => merge_oui_and_suite_type([IEEE_OUI_0, IEEE_OUI_1, IEEE_OUI_2], 12),
            IEEE80211AKMType::FTOverIEEE8021XSha384 => merge_oui_and_suite_type([IEEE_OUI_0, IEEE_OUI_1, IEEE_OUI_2], 13),
            IEEE80211AKMType::FilsSha256Aes256 => merge_oui_and_suite_type([IEEE_OUI_0, IEEE_OUI_1, IEEE_OUI_2], 14),
            IEEE80211AKMType::FilsSha384Aes512 => merge_oui_and_suite_type([IEEE_OUI_0, IEEE_OUI_1, IEEE_OUI_2], 15),
            IEEE80211AKMType::FTOverFilsSha256Aes256 => merge_oui_and_suite_type([IEEE_OUI_0, IEEE_OUI_1, IEEE_OUI_2], 16),
            IEEE80211AKMType::FTOverFilsSha384Aes512 => merge_oui_and_suite_type([IEEE_OUI_0, IEEE_OUI_1, IEEE_OUI_2], 17),
            IEEE80211AKMType::OpportunisticWirelessEncryption => merge_oui_and_suite_type([IEEE_OUI_0, IEEE_OUI_1, IEEE_OUI_2], 18),
            IEEE80211AKMType::FTUsingPskSha384 => merge_oui_and_suite_type([IEEE_OUI_0, IEEE_OUI_1, IEEE_OUI_2], 19),
            IEEE80211AKMType::PskSha384 => merge_oui_and_suite_type([IEEE_OUI_0, IEEE_OUI_1, IEEE_OUI_2], 20),
            IEEE80211AKMType::Pasn => merge_oui_and_suite_type([IEEE_OUI_0, IEEE_OUI_1, IEEE_OUI_2], 21),
            IEEE80211AKMType::SaeGroupDefend => merge_oui_and_suite_type([IEEE_OUI_0, IEEE_OUI_1, IEEE_OUI_2], 22),
            IEEE80211AKMType::FTUsingSaeGroupDefend => merge_oui_and_suite_type([IEEE_OUI_0, IEEE_OUI_1, IEEE_OUI_2], 23),
            IEEE80211AKMType::Unknown { cipher_suite_selector } => cipher_suite_selector,
        }
    }

    /// Read a suite from its four bytes.
    pub fn try_from_ctx(from: &[u8]) -> (r: Result<(Self, usize), Error>)
        ensures
            from@.len() < 4 ==> r == Err::<(Self, usize), Error>(Error::TooShort),
            from@.len() >= 4 ==> r == Ok::<(Self, usize), Error>(
                (Self::spec_with_selector(le_u32(from@, 0)), 4),
            ),
    {
        if from.len() < 4 {
            return Err(Error::TooShort);
        }
        Ok((Self::with_cipher_suite_selector(read_u32_le(from, 0)), 4))
    }

    /// The serialized length of a suite.
    pub fn size_with() -> (r: usize)
        ensures
            r == 4,
    {
        4
    }

    /// Write the suite to the start of `buf`.
    pub fn try_into_ctx(self, buf: &mut [u8]) -> (r: Result<usize, Error>)
        ensures
            final(buf)@.len() == old(buf)@.len(),
            4 <= old(buf)@.len() ==> r == Ok::<usize, Error>(4) && final(buf)@ == u32_le_bytes(
                self.spec_selector(),
            ) + old(buf)@.skip(4),
            4 > old(buf)@.len() ==> r == Err::<usize, Error>(Error::TooShort),
    {
        let mut bytes: Vec<u8> = Vec::new();
        push_u32_le(&mut bytes, self.cipher_suite_selector());
        write_all(buf, bytes.as_slice())
    }
}

impl Default for IEEE80211AKMType {
    fn default() -> (r: Self)
        ensures
            r == IEEE80211AKMType::NoAKM,
    {
        IEEE80211AKMType::NoAKM
    }
}

impl IEEE80211AKMType {
    /// Get the length of the EAPOL-Key confirmation key (KCK), in bytes.
    pub open spec fn spec_kck_len(&self) -> Option<usize> {
        match spec_ieee_suite_type(self.spec_selector()) {
            Some(suite_type) => match suite_type {
                1u8..=11u8 => Some(16usize),
                12u8..=13u8 => Some(24usize),
                _ => None,
            },
            None => None,
        }
    }

    /// Get the length of the EAPOL-Key confirmation key (KCK), in bytes.
    pub fn kck_len(&self) -> (r: Option<usize>)
        ensures
            r == self.spec_kck_len(),
    {
        if let Some(suite_type) = get_suite_type_if_oui_is_ieee(self.cipher_suite_selector()) {
            match suite_type {
                1..=11 => Some(16),
                12..=13 => Some(24),
                _ => None,
            }
        } else {
            None
        }
    }

    /// Get the length of the EAPOL-Key encryption key (KEK), in bytes.
    pub open spec fn spec_kek_len(&self) -> Option<usize> {
        match spec_ieee_suite_type(self.spec_selector()) {
            Some(suite_type) => match suite_type {
                1u8..=11u8 => Some(16usize),
                12u8..=14u8 | 16u8 => Some(32usize),
                15u8 | 17u8 => Some(64usize),
                _ => None,
            },
            None => None,
        }
    }

    /// Get the length of the EAPOL-Key encryption key (KEK), in bytes.
    pub fn kek_len(&self) -> (r: Option<usize>)
        ensures
            r == self.spec_kek_len(),
    {
        if let Some(suite_type) = get_suite_type_if_oui_is_ieee(self.cipher_suite_selector()) {
            match suite_type {
                1..=11 => Some(16),
                12..=14 | 16 => Some(32),
                15 | 17 => Some(64),
                _ => None,
            }
        } else {
            None
        }
    }

    /// Get the length of the EAPOL-Key confirmation key 2 (KCK2), in bytes, used in fast transition.
    pub open spec fn spec_kck2_len(&self) -> Option<usize> {
        match spec_ieee_suite_type(self.spec_selector()) {
            Some(suite_type) => match suite_type {
                16u8 => Some(16usize),
                17u8 => Some(24usize),
                _ => None,
            },
            None => None,
        }
    }

    /// Get the length of the EAPOL-Key confirmation key 2 (KCK2), in bytes, used in fast transition.
    pub fn kck2_len(&self) -> (r: Option<usize>)
        ensures
            r == self.spec_kck2_len(),
    {
        if let Some(suite_type) = get_suite_type_if_oui_is_ieee(self.cipher_suite_selector()) {
            match suite_type {
                16 => Some(16),
                17 => Some(24),
                _ => None,
            }
        } else {
            None
        }
    }

    /// Get the length of the EAPOL-Key encryption key 2 (KEK2), in bytes, used in fast transition.
    pub open spec fn spec_kek2_len(&self) -> Option<usize> {
        match spec_ieee_suite_type(self.spec_selector()) {
            Some(suite_type) => match suite_type {
                16u8 => Some(16usize),
                17u8 => Some(32usize),
                _ => None,
            },
            None => None,
        }
    }

    /// Get the length of the EAPOL-Key encryption key 2 (KEK2), in bytes, used in fast transition.
    pub fn kek2_len(&self) -> (r: Option<usize>)
        ensures
            r == self.spec_kek2_len(),
    {
        if let Some(suite_type) = get_suite_type_if_oui_is_ieee(self.cipher_suite_selector()) {
            match suite_type {
                16 => Some(16),
                17 => Some(32),
                _ => None,
            }
        } else {
            None
        }
    }

    /// Get the length of the key message integrity check (MIC), in bytes.
    pub open spec fn spec_key_mic_len(&self) -> Option<usize> {
        match spec_ieee_suite_type(self.spec_selector()) {
            Some(suite_type) => match suite_type {
                1u8..=11u8 | 16u8 => Some(16usize),
                12u8..=13u8 | 17u8 => Some(24usize),
                14u8..=15u8 => Some(0usize),
                _ => None,
            },
            None => None,
        }
    }

    /// Get the length of the key message integrity check (MIC), in bytes.
    pub fn key_mic_len(&self) -> (r: Option<usize>)
        ensures
            r == self.spec_key_mic_len(),
    {
        if let Some(suite_type) = get_suite_type_if_oui_is_ieee(self.cipher_suite_selector()) {
            match suite_type {
                1..=11 | 16 => Some(16),
                12..=13 | 17 => Some(24),
                14..=15 => Some(0),
                _ => None,
            }
        } else {
            None
        }
    }
}

/// Configuration of an optional feature.
#[derive(Clone, Copy, Debug, PartialEq, Eq, Hash, Structural)]
pub enum OptionalFeatureConfig {
    /// The feature is disabled.
    Disabled,
    /// The feature is enabled but not required.
    Capable,
    /// The feature is enabled and required.
    Required,
    /// The configuration is invalid.
    Invalid,
}

impl OptionalFeatureConfig {
    /// The configuration that the two low bits of `bits` encode.
    pub open spec fn spec_from_bits(bits: u8) -> Self {
        match bits % 4 {
            0 => OptionalFeatureConfig::Disabled,
            1 => OptionalFeatureConfig::Capable,
            2 => OptionalFeatureConfig::Invalid,
            _ => OptionalFeatureConfig::Required,
        }
    }

    /// The bits this configuration is written as.
    pub open spec fn spec_into_bits(self) -> u8 {
        match self {
            OptionalFeatureConfig::Disabled => 0b00,
            OptionalFeatureConfig::Capable => 0b01,
            OptionalFeatureConfig::Required => 0b11,
            OptionalFeatureConfig::Invalid => 0b10,
        }
    }

    /// The configuration that the two low bits of `bits` encode.
    pub fn from_bits(bits: u8) -> (r: Self)
        ensures
            r == Self::spec_from_bits(bits),
    {
        proof {
            assert(bits & 0b11 == bits % 4) by (bit_vector);
        }
        match bits & 0b11 {
            0b00 => OptionalFeatureConfig::Disabled,
            0b01 => OptionalFeatureConfig::Capable,
            0b10 => OptionalFeatureConfig::Invalid,
            _ => OptionalFeatureConfig::Required,
        }
    }

    /// The bits this configuration is written as.
    pub fn into_bits(self) -> (r: u8)
        ensures
            r == self.spec_into_bits(),
    {
        match self {
            OptionalFeatureConfig::Disabled => 0b00,
            OptionalFeatureConfig::Capable => 0b01,
            OptionalFeatureConfig::Required => 0b11,
            OptionalFeatureConfig::Invalid => 0b10,
        }
    }

    /// The transmitting station is capable of the feature.
    pub open spec fn spec_is_capable(self) -> bool {
        self is Required || self is Capable
    }

    /// Check if the transmitting station is capable of the feature.
    pub fn is_capable(&self) -> (r: bool)
        ensures
            r == self.spec_is_capable(),
    {
        matches!(self, OptionalFeatureConfig::Required | OptionalFeatureConfig::Capable)
    }

    /// The feature is required.
    pub open spec fn spec_is_required(self) -> bool {
        self is Required
    }

    /// Check if the feature is required.
    pub fn is_required(&self) -> (r: bool)
        ensures
            r == self.spec_is_required(),
    {
        matches!(self, OptionalFeatureConfig::Required)
    }

    /// The configurations are compatible: neither side requires the feature while the other
    /// isn't capable of it.
    pub open spec fn spec_is_compatible(self, rhs: Self) -> bool {
        !(self.spec_is_required() && !rhs.spec_is_capable()) && !(rhs.spec_is_required()
            && !self.spec_is_capable())
    }

    /// Check if the configurations are compatible: neither side requires the feature while the
    /// other isn't capable of it.
    pub fn is_compatible(&self, rhs: &Self) -> (r: bool)
        ensures
            r == self.spec_is_compatible(*rhs),
    {
        !(self.is_required() && !rhs.is_capable()) && !(rhs.is_required() && !self.is_capable())
    }
}

impl Default for OptionalFeatureConfig {
    fn default() -> (r: Self)
        ensures
            r == OptionalFeatureConfig::Disabled,
    {
        OptionalFeatureConfig::Disabled
    }
}

/// Writing a configuration and reading it back gives it back, and reading two bits and writing
/// them gives them back: the two encodings are inverse.
pub proof fn lemma_optional_feature_config_bits(c: OptionalFeatureConfig, bits: u8)
    ensures
        OptionalFeatureConfig::spec_from_bits(c.spec_into_bits()) == c,
        c.spec_into_bits() < 4,
        bits < 4 ==> OptionalFeatureConfig::spec_from_bits(bits).spec_into_bits() == bits,
{
}

/// Compatibility doesn't depend on the order of the two configurations.
pub proof fn lemma_compatibility_symmetric(a: OptionalFeatureConfig, b: OptionalFeatureConfig)
    ensures
        a.spec_is_compatible(b) == b.spec_is_compatible(a),
{
}

/// The specific capabilities of the transmitting STA.
#[derive(Clone, Copy, Debug, PartialEq, Eq, Hash, Structural)]
pub struct RSNCapabilities(pub u16);

impl RSNCapabilities {
    /// A value with every field at its default.
    pub fn new() -> (r: Self)
        ensures
            r.0 == 0x0,
    {
        Self(0x0)
    }

    /// Wrap the raw bits.
    pub fn from_bits(bits: u16) -> (r: Self)
        ensures
            r.0 == bits,
    {
        Self(bits)
    }

    /// Every field mask fits in the backing integer.
    proof fn lemma_masks_fit()
        by (bit_vector)
        ensures
            fits_u16(0, 0x1),
            fits_u16(1, 0x1),
            fits_u16(2, 0x3),
            fits_u16(4, 0x3),
            fits_u16(6, 0x3),
            fits_u16(8, 0x1),
            fits_u16(9, 0x1),
            fits_u16(10, 0x3),
            fits_u16(12, 0x1),
            fits_u16(13, 0x1),
            fits_u16(14, 0x1),
            (0x1u16 << 0u16) & (0x1u16 << 1u16) == 0,
            (0x1u16 << 1u16) & (0x1u16 << 0u16) == 0,
            (0x1u16 << 0u16) & (0x3u16 << 2u16) == 0,
            (0x3u16 << 2u16) & (0x1u16 << 0u16) == 0,
            (0x1u16 << 0u16) & (0x3u16 << 4u16) == 0,
            (0x3u16 << 4u16) & (0x1u16 << 0u16) == 0,
            (0x1u16 << 0u16) & (0x3u16 << 6u16) == 0,
            (0x3u16 << 6u16) & (0x1u16 << 0u16) == 0,
            (0x1u16 << 0u16) & (0x1u16 << 8u16) == 0,
            (0x1u16 << 8u16) & (0x1u16 << 0u16) == 0,
            (0x1u16 << 0u16) & (0x1u16 << 9u16) == 0,
            (0x1u16 << 9u16) & (0x1u16 << 0u16) == 0,
            (0x1u16 << 0u16) & (0x3u16 << 10u16) == 0,
            (0x3u16 << 10u16) & (0x1u16 << 0u16) == 0,
            (0x1u16 << 0u16) & (0x1u16 << 12u16) == 0,
            (0x1u16 << 12u16) & (0x1u16 << 0u16) == 0,
            (0x1u16 << 0u16) & (0x1u16 << 13u16) == 0,
            (0x1u16 << 13u16) & (0x1u16 << 0u16) == 0,
            (0x1u16 << 0u16) & (0x1u16 << 14u16) == 0,
            (0x1u16 << 14u16) & (0x1u16 << 0u16) == 0,
            (0x1u16 << 1u16) & (0x3u16 << 2u16) == 0,
            (0x3u16 << 2u16) & (0x1u16 << 1u16) == 0,
            (0x1u16 << 1u16) & (0x3u16 << 4u16) == 0,
            (0x3u16 << 4u16) & (0x1u16 << 1u16) == 0,
            (0x1u16 << 1u16) & (0x3u16 << 6u16) == 0,
            (0x3u16 << 6u16) & (0x1u16 << 1u16) == 0,
            (0x1u16 << 1u16) & (0x1u16 << 8u16) == 0,
            (0x1u16 << 8u16) & (0x1u16 << 1u16) == 0,
            (0x1u16 << 1u16) & (0x1u16 << 9u16) == 0,
            (0x1u16 << 9u16) & (0x1u16 << 1u16) == 0,
            (0x1u16 << 1u16) & (0x3u16 << 10u16) == 0,
            (0x3u16 << 10u16) & (0x1u16 << 1u16) == 0,
            (0x1u16 << 1u16) & (0x1u16 << 12u16) == 0,
            (0x1u16 << 12u16) & (0x1u16 << 1u16) == 0,
            (0x1u16 << 1u16) & (0x1u16 << 13u16) == 0,
            (0x1u16 << 13u16) & (0x1u16 << 1u16) == 0,
            (0x1u16 << 1u16) & (0x1u16 << 14u16) == 0,
            (0x1u16 << 14u16) & (0x1u16 << 1u16) == 0,
            (0x3u16 << 2u16) & (0x3u16 << 4u16) == 0,
            (0x3u16 << 4u16) & (0x3u16 << 2u16) == 0,
            (0x3u16 << 2u16) & (0x3u16 << 6u16) == 0,
            (0x3u16 << 6u16) & (0x3u16 << 2u16) == 0,
            (0x3u16 << 2u16) & (0x1u16 << 8u16) == 0,
            (0x1u16 << 8u16) & (0x3u16 << 2u16) == 0,
            (0x3u16 << 2u16) & (0x1u16 << 9u16) == 0,
            (0x1u16 << 9u16) & (0x3u16 << 2u16) == 0,
            (0x3u16 << 2u16) & (0x3u16 << 10u16) == 0,
            (0x3u16 << 10u16) & (0x3u16 << 2u16) == 0,
            (0x3u16 << 2u16) & (0x1u16 << 12u16) == 0,
            (0x1u16 << 12u16) & (0x3u16 << 2u16) == 0,
            (0x3u16 << 2u16) & (0x1u16 << 13u16) == 0,
            (0x1u16 << 13u16) & (0x3u16 << 2u16) == 0,
            (0x3u16 << 2u16) & (0x1u16 << 14u16) == 0,
            (0x1u16 << 14u16) & (0x3u16 << 2u16) == 0,
            (0x3u16 << 4u16) & (0x3u16 << 6u16) == 0,
            (0x3u16 << 6u16) & (0x3u16 << 4u16) == 0,
            (0x3u16 << 4u16) & (0x1u16 << 8u16) == 0,
            (0x1u16 << 8u16) & (0x3u16 << 4u16) == 0,
            (0x3u16 << 4u16) & (0x1u16 << 9u16) == 0,
            (0x1u16 << 9u16) & (0x3u16 << 4u16) == 0,
            (0x3u16 << 4u16) & (0x3u16 << 10u16) == 0,
            (0x3u16 << 10u16) & (0x3u16 << 4u16) == 0,
            (0x3u16 << 4u16) & (0x1u16 << 12u16) == 0,
            (0x1u16 << 12u16) & (0x3u16 << 4u16) == 0,
            (0x3u16 << 4u16) & (0x1u16 << 13u16) == 0,
            (0x1u16 << 13u16) & (0x3u16 << 4u16) == 0,
            (0x3u16 << 4u16) & (0x1u16 << 14u16) == 0,
            (0x1u16 << 14u16) & (0x3u16 << 4u16) == 0,
            (0x3u16 << 6u16) & (0x1u16 << 8u16) == 0,
            (0x1u16 << 8u16) & (0x3u16 << 6u16) == 0,
            (0x3u16 << 6u16) & (0x1u16 << 9u16) == 0,
            (0x1u16 << 9u16) & (0x3u16 << 6u16) == 0,
            (0x3u16 << 6u16) & (0x3u16 << 10u16) == 0,
            (0x3u16 << 10u16) & (0x3u16 << 6u16) == 0,
            (0x3u16 << 6u16) & (0x1u16 << 12u16) == 0,
            (0x1u16 << 12u16) & (0x3u16 << 6u16) == 0,
            (0x3u16 << 6u16) & (0x1u16 << 13u16) == 0,
            (0x1u16 << 13u16) & (0x3u16 << 6u16) == 0,
            (0x3u16 << 6u16) & (0x1u16 << 14u16) == 0,
            (0x1u16 << 14u16) & (0x3u16 << 6u16) == 0,
            (0x1u16 << 8u16) & (0x1u16 << 9u16) == 0,
            (0x1u16 << 9u16) & (0x1u16 << 8u16) == 0,
            (0x1u16 << 8u16) & (0x3u16 << 10u16) == 0,
            (0x3u16 << 10u16) & (0x1u16 << 8u16) == 0,
            (0x1u16 << 8u16) & (0x1u16 << 12u16) == 0,
            (0x1u16 << 12u16) & (0x1u16 << 8u16) == 0,
            (0x1u16 << 8u16) & (0x1u16 << 13u16) == 0,
            (0x1u16 << 13u16) & (0x1u16 << 8u16) == 0,
            (0x1u16 << 8u16) & (0x1u16 << 14u16) == 0,
            (0x1u16 << 14u16) & (0x1u16 << 8u16) == 0,
            (0x1u16 << 9u16) & (0x3u16 << 10u16) == 0,
            (0x3u16 << 10u16) & (0x1u16 << 9u16) == 0,
            (0x1u16 << 9u16) & (0x1u16 << 12u16) == 0,
            (0x1u16 << 12u16) & (0x1u16 << 9u16) == 0,
            (0x1u16 << 9u16) & (0x1u16 << 13u16) == 0,
            (0x1u16 << 13u16) & (0x1u16 << 9u16) == 0,
            (0x1u16 << 9u16) & (0x1u16 << 14u16) == 0,
            (0x1u16 << 14u16) & (0x1u16 << 9u16) == 0,
            (0x3u16 << 10u16) & (0x1u16 << 12u16) == 0,
            (0x1u16 << 12u16) & (0x3u16 << 10u16) == 0,
            (0x3u16 << 10u16) & (0x1u16 << 13u16) == 0,
            (0x1u16 << 13u16) & (0x3u16 << 10u16) == 0,
            (0x3u16 << 10u16) & (0x1u16 << 14u16) == 0,
            (0x1u16 << 14u16) & (0x3u16 << 10u16) == 0,
            (0x1u16 << 12u16) & (0x1u16 << 13u16) == 0,
            (0x1u16 << 13u16) & (0x1u16 << 12u16) == 0,
            (0x1u16 << 12u16) & (0x1u16 << 14u16) == 0,
            (0x1u16 << 14u16) & (0x1u16 << 12u16) == 0,
            (0x1u16 << 13u16) & (0x1u16 << 14u16) == 0,
            (0x1u16 << 14u16) & (0x1u16 << 13u16) == 0,
            1u16 & 1u16 == 1,
            0u16 & 1u16 == 0,
    {
    }

    /// The raw bits.
    pub fn into_bits(self) -> (r: u16)
        ensures
            r == self.0,
    {
        self.0
    }

    /// Is preauthentication supported.
    pub open spec fn spec_supports_preauthentication(self) -> bool {
        get_bits_u16(self.0, 0, 1) == 1
    }

    /// Is preauthentication supported.
    pub fn supports_preauthentication(&self) -> (r: bool)
        ensures
            r == self.spec_supports_preauthentication(),
    {
        (self.0 >> 0) & 1 == 1
    }

    /// Returns a copy with the field replaced by `value`.
    pub fn with_supports_preauthentication(self, value: bool) -> (r: Self)
        ensures
            r.0 == set_bits_u16(self.0, 0, 0x1, (if value {
                1u16
            } else {
                0u16
            })),
            r.spec_supports_preauthentication() == value,
            r.spec_no_pairwise_key() == self.spec_no_pairwise_key(),
            r.spec_ptksa_replay_counter() == self.spec_ptksa_replay_counter(),
            r.spec_gtksa_replay_counter() == self.spec_gtksa_replay_counter(),
            r.spec_mfp_config() == self.spec_mfp_config(),
            r.spec_joint_multi_band_rsna_capable() == self.spec_joint_multi_band_rsna_capable(),
            r.spec_peer_key_enabled_handshake_capable() == self.spec_peer_key_enabled_handshake_capable(),
            r.spec_spp_ampdu_config() == self.spec_spp_ampdu_config(),
            r.spec_pbac_capable() == self.spec_pbac_capable(),
            r.spec_ext_key_id_for_individually_addressed_frames() == self.spec_ext_key_id_for_individually_addressed_frames(),
            r.spec_ocv_capable() == self.spec_ocv_capable(),
    {
        let v: u16 = if value {
            1
        } else {
            0
        };
        proof {
            Self::lemma_masks_fit();
            lemma_set_bits_u16(self.0, 0, 0x1, v, 0, 0x1);
            lemma_set_bits_u16(self.0, 0, 0x1, v, 1, 0x1);
            lemma_set_bits_u16(self.0, 0, 0x1, v, 2, 0x3);
            lemma_set_bits_u16(self.0, 0, 0x1, v, 4, 0x3);
            lemma_set_bits_u16(self.0, 0, 0x1, v, 6, 0x3);
            lemma_set_bits_u16(self.0, 0, 0x1, v, 8, 0x1);
            lemma_set_bits_u16(self.0, 0, 0x1, v, 9, 0x1);
            lemma_set_bits_u16(self.0, 0, 0x1, v, 10, 0x3);
            lemma_set_bits_u16(self.0, 0, 0x1, v, 12, 0x1);
            lemma_set_bits_u16(self.0, 0, 0x1, v, 13, 0x1);
            lemma_set_bits_u16(self.0, 0, 0x1, v, 14, 0x1);
        }
        Self((self.0 & !(0x1u16 << 0u16)) | ((v & 0x1) << 0u16))
    }

    /// No pairwise key is used.
    pub open spec fn spec_no_pairwise_key(self) -> bool {
        get_bits_u16(self.0, 1, 1) == 1
    }

    /// No pairwise key is used.
    pub fn no_pairwise_key(&self) -> (r: bool)
        ensures
            r == self.spec_no_pairwise_key(),
    {
        (self.0 >> 1) & 1 == 1
    }

    /// Returns a copy with the field replaced by `value`.
    pub fn with_no_pairwise_key(self, value: bool) -> (r: Self)
        ensures
            r.0 == set_bits_u16(self.0, 1, 0x1, (if value {
                1u16
            } else {
                0u16
            })),
            r.spec_no_pairwise_key() == value,
            r.spec_supports_preauthentication() == self.spec_supports_preauthentication(),
            r.spec_ptksa_replay_counter() == self.spec_ptksa_replay_counter(),
            r.spec_gtksa_replay_counter() == self.spec_gtksa_replay_counter(),
            r.spec_mfp_config() == self.spec_mfp_config(),
            r.spec_joint_multi_band_rsna_capable() == self.spec_joint_multi_band_rsna_capable(),
            r.spec_peer_key_enabled_handshake_capable() == self.spec_peer_key_enabled_handshake_capable(),
            r.spec_spp_ampdu_config() == self.spec_spp_ampdu_config(),
            r.spec_pbac_capable() == self.spec_pbac_capable(),
            r.spec_ext_key_id_for_individually_addressed_frames() == self.spec_ext_key_id_for_individually_addressed_frames(),
            r.spec_ocv_capable() == self.spec_ocv_capable(),
    {
        let v: u16 = if value {
            1
        } else {
            0
        };
        proof {
            Self::lemma_masks_fit();
            lemma_set_bits_u16(self.0, 1, 0x1, v, 1, 0x1);
            lemma_set_bits_u16(self.0, 1, 0x1, v, 0, 0x1);
            lemma_set_bits_u16(self.0, 1, 0x1, v, 2, 0x3);
            lemma_set_bits_u16(self.0, 1, 0x1, v, 4, 0x3);
            lemma_set_bits_u16(self.0, 1, 0x1, v, 6, 0x3);
            lemma_set_bits_u16(self.0, 1, 0x1, v, 8, 0x1);
            lemma_set_bits_u16(self.0, 1, 0x1, v, 9, 0x1);
            lemma_set_bits_u16(self.0, 1, 0x1, v, 10, 0x3);
            lemma_set_bits_u16(self.0, 1, 0x1, v, 12, 0x1);
            lemma_set_bits_u16(self.0, 1, 0x1, v, 13, 0x1);
            lemma_set_bits_u16(self.0, 1, 0x1, v, 14, 0x1);
        }
        Self((self.0 & !(0x1u16 << 1u16)) | ((v & 0x1) << 1u16))
    }

    /// The number of PTKSA replay counters.
    pub open spec fn spec_ptksa_replay_counter(self) -> u8 {
        get_bits_u16(self.0, 2, 0x3) as u8
    }

    /// The number of PTKSA replay counters.
    pub fn ptksa_replay_counter(&self) -> (r: u8)
        ensures
            r == self.spec_ptksa_replay_counter(),
    {
        ((self.0 >> 2) & 0x3) as u8
    }

    /// Returns a copy with the field replaced by `value`.
    pub fn with_ptksa_replay_counter(self, value: u8) -> (r: Self)
        ensures
            r.0 == set_bits_u16(self.0, 2, 0x3, (value as u16)),
            r.spec_ptksa_replay_counter() == ((value as u16) & 0x3) as u8,
            r.spec_supports_preauthentication() == self.spec_supports_preauthentication(),
            r.spec_no_pairwise_key() == self.spec_no_pairwise_key(),
            r.spec_gtksa_replay_counter() == self.spec_gtksa_replay_counter(),
            r.spec_mfp_config() == self.spec_mfp_config(),
            r.spec_joint_multi_band_rsna_capable() == self.spec_joint_multi_band_rsna_capable(),
            r.spec_peer_key_enabled_handshake_capable() == self.spec_peer_key_enabled_handshake_capable(),
            r.spec_spp_ampdu_config() == self.spec_spp_ampdu_config(),
            r.spec_pbac_capable() == self.spec_pbac_capable(),
            r.spec_ext_key_id_for_individually_addressed_frames() == self.spec_ext_key_id_for_individually_addressed_frames(),
            r.spec_ocv_capable() == self.spec_ocv_capable(),
    {
        let v: u16 = value as u16;
        proof {
            Self::lemma_masks_fit();
            lemma_set_bits_u16(self.0, 2, 0x3, v, 2, 0x3);
            lemma_set_bits_u16(self.0, 2, 0x3, v, 0, 0x1);
            lemma_set_bits_u16(self.0, 2, 0x3, v, 1, 0x1);
            lemma_set_bits_u16(self.0, 2, 0x3, v, 4, 0x3);
            lemma_set_bits_u16(self.0, 2, 0x3, v, 6, 0x3);
            lemma_set_bits_u16(self.0, 2, 0x3, v, 8, 0x1);
            lemma_set_bits_u16(self.0, 2, 0x3, v, 9, 0x1);
            lemma_set_bits_u16(self.0, 2, 0x3, v, 10, 0x3);
            lemma_set_bits_u16(self.0, 2, 0x3, v, 12, 0x1);
            lemma_set_bits_u16(self.0, 2, 0x3, v, 13, 0x1);
            lemma_set_bits_u16(self.0, 2, 0x3, v, 14, 0x1);
        }
        Self((self.0 & !(0x3u16 << 2u16)) | ((v & 0x3) << 2u16))
    }

    /// The number of GTKSA replay counters.
    pub open spec fn spec_gtksa_replay_counter(self) -> u8 {
        get_bits_u16(self.0, 4, 0x3) as u8
    }

    /// The number of GTKSA replay counters.
    pub fn gtksa_replay_counter(&self) -> (r: u8)
        ensures
            r == self.spec_gtksa_replay_counter(),
    {
        ((self.0 >> 4) & 0x3) as u8
    }

    /// Returns a copy with the field replaced by `value`.
    pub fn with_gtksa_replay_counter(self, value: u8) -> (r: Self)
        ensures
            r.0 == set_bits_u16(self.0, 4, 0x3, (value as u16)),
            r.spec_gtksa_replay_counter() == ((value as u16) & 0x3) as u8,
            r.spec_supports_preauthentication() == self.spec_supports_preauthentication(),
            r.spec_no_pairwise_key() == self.spec_no_pairwise_key(),
            r.spec_ptksa_replay_counter() == self.spec_ptksa_replay_counter(),
            r.spec_mfp_config() == self.spec_mfp_config(),
            r.spec_joint_multi_band_rsna_capable() == self.spec_joint_multi_band_rsna_capable(),
            r.spec_peer_key_enabled_handshake_capable() == self.spec_peer_key_enabled_handshake_capable(),
            r.spec_spp_ampdu_config() == self.spec_spp_ampdu_config(),
            r.spec_pbac_capable() == self.spec_pbac_capable(),
            r.spec_ext_key_id_for_individually_addressed_frames() == self.spec_ext_key_id_for_individually_addressed_frames(),
            r.spec_ocv_capable() == self.spec_ocv_capable(),
    {
        let v: u16 = value as u16;
        proof {
            Self::lemma_masks_fit();
            lemma_set_bits_u16(self.0, 4, 0x3, v, 4, 0x3);
            lemma_set_bits_u16(self.0, 4, 0x3, v, 0, 0x1);
            lemma_set_bits_u16(self.0, 4, 0x3, v, 1, 0x1);
            lemma_set_bits_u16(self.0, 4, 0x3, v, 2, 0x3);
            lemma_set_bits_u16(self.0, 4, 0x3, v, 6, 0x3);
            lemma_set_bits_u16(self.0, 4, 0x3, v, 8, 0x1);
            lemma_set_bits_u16(self.0, 4, 0x3, v, 9, 0x1);
            lemma_set_bits_u16(self.0, 4, 0x3, v, 10, 0x3);
            lemma_set_bits_u16(self.0, 4, 0x3, v, 12, 0x1);
            lemma_set_bits_u16(self.0, 4, 0x3, v, 13, 0x1);
            lemma_set_bits_u16(self.0, 4, 0x3, v, 14, 0x1);
        }
        Self((self.0 & !(0x3u16 << 4u16)) | ((v & 0x3) << 4u16))
    }

    /// Management Frame Protection (MFP) configuration.
    pub open spec fn spec_mfp_config(self) -> OptionalFeatureConfig {
        OptionalFeatureConfig::spec_from_bits(get_bits_u16(self.0, 6, 0x3) as u8)
    }

    /// Management Frame Protection (MFP) configuration.
    pub fn mfp_config(&self) -> (r: OptionalFeatureConfig)
        ensures
            r == self.spec_mfp_config(),
    {
        OptionalFeatureConfig::from_bits(((self.0 >> 6) & 0x3) as u8)
    }

    /// Returns a copy with the field replaced by `value`.
    pub fn with_mfp_config(self, value: OptionalFeatureConfig) -> (r: Self)
        ensures
            r.0 == set_bits_u16(self.0, 6, 0x3, (value.spec_into_bits() as u16)),
            r.spec_mfp_config() == OptionalFeatureConfig::spec_from_bits(((value.spec_into_bits() as u16) & 0x3) as u8),
            r.spec_supports_preauthentication() == self.spec_supports_preauthentication(),
            r.spec_no_pairwise_key() == self.spec_no_pairwise_key(),
            r.spec_ptksa_replay_counter() == self.spec_ptksa_replay_counter(),
            r.spec_gtksa_replay_counter() == self.spec_gtksa_replay_counter(),
            r.spec_joint_multi_band_rsna_capable() == self.spec_joint_multi_band_rsna_capable(),
            r.spec_peer_key_enabled_handshake_capable() == self.spec_peer_key_enabled_handshake_capable(),
            r.spec_spp_ampdu_config() == self.spec_spp_ampdu_config(),
            r.spec_pbac_capable() == self.spec_pbac_capable(),
            r.spec_ext_key_id_for_individually_addressed_frames() == self.spec_ext_key_id_for_individually_addressed_frames(),
            r.spec_ocv_capable() == self.spec_ocv_capable(),
    {
        let v: u16 = value.into_bits() as u16;
        proof {
            Self::lemma_masks_fit();
            lemma_set_bits_u16(self.0, 6, 0x3, v, 6, 0x3);
            lemma_set_bits_u16(self.0, 6, 0x3, v, 0, 0x1);
            lemma_set_bits_u16(self.0, 6, 0x3, v, 1, 0x1);
            lemma_set_bits_u16(self.0, 6, 0x3, v, 2, 0x3);
            lemma_set_bits_u16(self.0, 6, 0x3, v, 4, 0x3);
            lemma_set_bits_u16(self.0, 6, 0x3, v, 8, 0x1);
            lemma_set_bits_u16(self.0, 6, 0x3, v, 9, 0x1);
            lemma_set_bits_u16(self.0, 6, 0x3, v, 10, 0x3);
            lemma_set_bits_u16(self.0, 6, 0x3, v, 12, 0x1);
            lemma_set_bits_u16(self.0, 6, 0x3, v, 13, 0x1);
            lemma_set_bits_u16(self.0, 6, 0x3, v, 14, 0x1);
        }
        Self((self.0 & !(0x3u16 << 6u16)) | ((v & 0x3) << 6u16))
    }

    /// Joint Multi Band RSNA capable.
    pub open spec fn spec_joint_multi_band_rsna_capable(self) -> bool {
        get_bits_u16(self.0, 8, 1) == 1
    }

    /// Joint Multi Band RSNA capable.
    pub fn joint_multi_band_rsna_capable(&self) -> (r: bool)
        ensures
            r == self.spec_joint_multi_band_rsna_capable(),
    {
        (self.0 >> 8) & 1 == 1
    }

    /// Returns a copy with the field replaced by `value`.
    pub fn with_joint_multi_band_rsna_capable(self, value: bool) -> (r: Self)
        ensures
            r.0 == set_bits_u16(self.0, 8, 0x1, (if value {
                1u16
            } else {
                0u16
            })),
            r.spec_joint_multi_band_rsna_capable() == value,
            r.spec_supports_preauthentication() == self.spec_supports_preauthentication(),
            r.spec_no_pairwise_key() == self.spec_no_pairwise_key(),
            r.spec_ptksa_replay_counter() == self.spec_ptksa_replay_counter(),
            r.spec_gtksa_replay_counter() == self.spec_gtksa_replay_counter(),
            r.spec_mfp_config() == self.spec_mfp_config(),
            r.spec_peer_key_enabled_handshake_capable() == self.spec_peer_key_enabled_handshake_capable(),
            r.spec_spp_ampdu_config() == self.spec_spp_ampdu_config(),
            r.spec_pbac_capable() == self.spec_pbac_capable(),
            r.spec_ext_key_id_for_individually_addressed_frames() == self.spec_ext_key_id_for_individually_addressed_frames(),
            r.spec_ocv_capable() == self.spec_ocv_capable(),
    {
        let v: u16 = if value {
            1
        } else {
            0
        };
        proof {
            Self::lemma_masks_fit();
            lemma_set_bits_u16(self.0, 8, 0x1, v, 8, 0x1);
            lemma_set_bits_u16(self.0, 8, 0x1, v, 0, 0x1);
            lemma_set_bits_u16(self.0, 8, 0x1, v, 1, 0x1);
            lemma_set_bits_u16(self.0, 8, 0x1, v, 2, 0x3);
            lemma_set_bits_u16(self.0, 8, 0x1, v, 4, 0x3);
            lemma_set_bits_u16(self.0, 8, 0x1, v, 6, 0x3);
            lemma_set_bits_u16(self.0, 8, 0x1, v, 9, 0x1);
            lemma_set_bits_u16(self.0, 8, 0x1, v, 10, 0x3);
            lemma_set_bits_u16(self.0, 8, 0x1, v, 12, 0x1);
            lemma_set_bits_u16(self.0, 8, 0x1, v, 13, 0x1);
            lemma_set_bits_u16(self.0, 8, 0x1, v, 14, 0x1);
        }
        Self((self.0 & !(0x1u16 << 8u16)) | ((v & 0x1) << 8u16))
    }

    /// Peer Key Enabled Handshake capable.
    pub open spec fn spec_peer_key_enabled_handshake_capable(self) -> bool {
        get_bits_u16(self.0, 9, 1) == 1
    }

    /// Peer Key Enabled Handshake capable.
    pub fn peer_key_enabled_handshake_capable(&self) -> (r: bool)
        ensures
            r == self.spec_peer_key_enabled_handshake_capable(),
    {
        (self.0 >> 9) & 1 == 1
    }

    /// Returns a copy with the field replaced by `value`.
    pub fn with_peer_key_enabled_handshake_capable(self, value: bool) -> (r: Self)
        ensures
            r.0 == set_bits_u16(self.0, 9, 0x1, (if value {
                1u16
            } else {
                0u16
            })),
            r.spec_peer_key_enabled_handshake_capable() == value,
            r.spec_supports_preauthentication() == self.spec_supports_preauthentication(),
            r.spec_no_pairwise_key() == self.spec_no_pairwise_key(),
            r.spec_ptksa_replay_counter() == self.spec_ptksa_replay_counter(),
            r.spec_gtksa_replay_counter() == self.spec_gtksa_replay_counter(),
            r.spec_mfp_config() == self.spec_mfp_config(),
            r.spec_joint_multi_band_rsna_capable() == self.spec_joint_multi_band_rsna_capable(),
            r.spec_spp_ampdu_config() == self.spec_spp_ampdu_config(),
            r.spec_pbac_capable() == self.spec_pbac_capable(),
            r.spec_ext_key_id_for_individually_addressed_frames() == self.spec_ext_key_id_for_individually_addressed_frames(),
            r.spec_ocv_capable() == self.spec_ocv_capable(),
    {
        let v: u16 = if value {
            1
        } else {
            0
        };
        proof {
            Self::lemma_masks_fit();
            lemma_set_bits_u16(self.0, 9, 0x1, v, 9, 0x1);
            lemma_set_bits_u16(self.0, 9, 0x1, v, 0, 0x1);
            lemma_set_bits_u16(self.0, 9, 0x1, v, 1, 0x1);
            lemma_set_bits_u16(self.0, 9, 0x1, v, 2, 0x3);
            lemma_set_bits_u16(self.0, 9, 0x1, v, 4, 0x3);
            lemma_set_bits_u16(self.0, 9, 0x1, v, 6, 0x3);
            lemma_set_bits_u16(self.0, 9, 0x1, v, 8, 0x1);
            lemma_set_bits_u16(self.0, 9, 0x1, v, 10, 0x3);
            lemma_set_bits_u16(self.0, 9, 0x1, v, 12, 0x1);
            lemma_set_bits_u16(self.0, 9, 0x1, v, 13, 0x1);
            lemma_set_bits_u16(self.0, 9, 0x1, v, 14, 0x1);
        }
        Self((self.0 & !(0x1u16 << 9u16)) | ((v & 0x1) << 9u16))
    }

    /// A-MPDU Signalling and Payload Protection (SPP) configuration.
    pub open spec fn spec_spp_ampdu_config(self) -> OptionalFeatureConfig {
        OptionalFeatureConfig::spec_from_bits(get_bits_u16(self.0, 10, 0x3) as u8)
    }

    /// A-MPDU Signalling and Payload Protection (SPP) configuration.
    pub fn spp_ampdu_config(&self) -> (r: OptionalFeatureConfig)
        ensures
            r == self.spec_spp_ampdu_config(),
    {
        OptionalFeatureConfig::from_bits(((self.0 >> 10) & 0x3) as u8)
    }

    /// Returns a copy with the field replaced by `value`.
    pub fn with_spp_ampdu_config(self, value: OptionalFeatureConfig) -> (r: Self)
        ensures
            r.0 == set_bits_u16(self.0, 10, 0x3, (value.spec_into_bits() as u16)),
            r.spec_spp_ampdu_config() == OptionalFeatureConfig::spec_from_bits(((value.spec_into_bits() as u16) & 0x3) as u8),
            r.spec_supports_preauthentication() == self.spec_supports_preauthentication(),
            r.spec_no_pairwise_key() == self.spec_no_pairwise_key(),
            r.spec_ptksa_replay_counter() == self.spec_ptksa_replay_counter(),
            r.spec_gtksa_replay_counter() == self.spec_gtksa_replay_counter(),
            r.spec_mfp_config() == self.spec_mfp_config(),
            r.spec_joint_multi_band_rsna_capable() == self.spec_joint_multi_band_rsna_capable(),
            r.spec_peer_key_enabled_handshake_capable() == self.spec_peer_key_enabled_handshake_capable(),
            r.spec_pbac_capable() == self.spec_pbac_capable(),
            r.spec_ext_key_id_for_individually_addressed_frames() == self.spec_ext_key_id_for_individually_addressed_frames(),
            r.spec_ocv_capable() == self.spec_ocv_capable(),
    {
        let v: u16 = value.into_bits() as u16;
        proof {
            Self::lemma_masks_fit();
            lemma_set_bits_u16(self.0, 10, 0x3, v, 10, 0x3);
            lemma_set_bits_u16(self.0, 10, 0x3, v, 0, 0x1);
            lemma_set_bits_u16(self.0, 10, 0x3, v, 1, 0x1);
            lemma_set_bits_u16(self.0, 10, 0x3, v, 2, 0x3);
            lemma_set_bits_u16(self.0, 10, 0x3, v, 4, 0x3);
            lemma_set_bits_u16(self.0, 10, 0x3, v, 6, 0x3);
            lemma_set_bits_u16(self.0, 10, 0x3, v, 8, 0x1);
            lemma_set_bits_u16(self.0, 10, 0x3, v, 9, 0x1);
            lemma_set_bits_u16(self.0, 10, 0x3, v, 12, 0x1);
            lemma_set_bits_u16(self.0, 10, 0x3, v, 13, 0x1);
            lemma_set_bits_u16(self.0, 10, 0x3, v, 14, 0x1);
        }
        Self((self.0 & !(0x3u16 << 10u16)) | ((v & 0x3) << 10u16))
    }

    /// Protected Block ACK Agreement capable.
    pub open spec fn spec_pbac_capable(self) -> bool {
        get_bits_u16(self.0, 12, 1) == 1
    }

    /// Protected Block ACK Agreement capable.
    pub fn pbac_capable(&self) -> (r: bool)
        ensures
            r == self.spec_pbac_capable(),
    {
        (self.0 >> 12) & 1 == 1
    }

    /// Returns a copy with the field replaced by `value`.
    pub fn with_pbac_capable(self, value: bool) -> (r: Self)
        ensures
            r.0 == set_bits_u16(self.0, 12, 0x1, (if value {
                1u16
            } else {
                0u16
            })),
            r.spec_pbac_capable() == value,
            r.spec_supports_preauthentication() == self.spec_supports_preauthentication(),
            r.spec_no_pairwise_key() == self.spec_no_pairwise_key(),
            r.spec_ptksa_replay_counter() == self.spec_ptksa_replay_counter(),
            r.spec_gtksa_replay_counter() == self.spec_gtksa_replay_counter(),
            r.spec_mfp_config() == self.spec_mfp_config(),
            r.spec_joint_multi_band_rsna_capable() == self.spec_joint_multi_band_rsna_capable(),
            r.spec_peer_key_enabled_handshake_capable() == self.spec_peer_key_enabled_handshake_capable(),
            r.spec_spp_ampdu_config() == self.spec_spp_ampdu_config(),
            r.spec_ext_key_id_for_individually_addressed_frames() == self.spec_ext_key_id_for_individually_addressed_frames(),
            r.spec_ocv_capable() == self.spec_ocv_capable(),
    {
        let v: u16 = if value {
            1
        } else {
            0
        };
        proof {
            Self::lemma_masks_fit();
            lemma_set_bits_u16(self.0, 12, 0x1, v, 12, 0x1);
            lemma_set_bits_u16(self.0, 12, 0x1, v, 0, 0x1);
            lemma_set_bits_u16(self.0, 12, 0x1, v, 1, 0x1);
            lemma_set_bits_u16(self.0, 12, 0x1, v, 2, 0x3);
            lemma_set_bits_u16(self.0, 12, 0x1, v, 4, 0x3);
            lemma_set_bits_u16(self.0, 12, 0x1, v, 6, 0x3);
            lemma_set_bits_u16(self.0, 12, 0x1, v, 8, 0x1);
            lemma_set_bits_u16(self.0, 12, 0x1, v, 9, 0x1);
            lemma_set_bits_u16(self.0, 12, 0x1, v, 10, 0x3);
            lemma_set_bits_u16(self.0, 12, 0x1, v, 13, 0x1);
            lemma_set_bits_u16(self.0, 12, 0x1, v, 14, 0x1);
        }
        Self((self.0 & !(0x1u16 << 12u16)) | ((v & 0x1) << 12u16))
    }

    /// Extended key IDs for individually addressed frames are supported.
    pub open spec fn spec_ext_key_id_for_individually_addressed_frames(self) -> bool {
        get_bits_u16(self.0, 13, 1) == 1
    }

    /// Extended key IDs for individually addressed frames are supported.
    pub fn ext_key_id_for_individually_addressed_frames(&self) -> (r: bool)
        ensures
            r == self.spec_ext_key_id_for_individually_addressed_frames(),
    {
        (self.0 >> 13) & 1 == 1
    }

    /// Returns a copy with the field replaced by `value`.
    pub fn with_ext_key_id_for_individually_addressed_frames(self, value: bool) -> (r: Self)
        ensures
            r.0 == set_bits_u16(self.0, 13, 0x1, (if value {
                1u16
            } else {
                0u16
            })),
            r.spec_ext_key_id_for_individually_addressed_frames() == value,
            r.spec_supports_preauthentication() == self.spec_supports_preauthentication(),
            r.spec_no_pairwise_key() == self.spec_no_pairwise_key(),
            r.spec_ptksa_replay_counter() == self.spec_ptksa_replay_counter(),
            r.spec_gtksa_replay_counter() == self.spec_gtksa_replay_counter(),
            r.spec_mfp_config() == self.spec_mfp_config(),
            r.spec_joint_multi_band_rsna_capable() == self.spec_joint_multi_band_rsna_capable(),
            r.spec_peer_key_enabled_handshake_capable() == self.spec_peer_key_enabled_handshake_capable(),
            r.spec_spp_ampdu_config() == self.spec_spp_ampdu_config(),
            r.spec_pbac_capable() == self.spec_pbac_capable(),
            r.spec_ocv_capable() == self.spec_ocv_capable(),
    {
        let v: u16 = if value {
            1
        } else {
            0
        };
        proof {
            Self::lemma_masks_fit();
            lemma_set_bits_u16(self.0, 13, 0x1, v, 13, 0x1);
            lemma_set_bits_u16(self.0, 13, 0x1, v, 0, 0x1);
            lemma_set_bits_u16(self.0, 13, 0x1, v, 1, 0x1);
            lemma_set_bits_u16(self.0, 13, 0x1, v, 2, 0x3);
            lemma_set_bits_u16(self.0, 13, 0x1, v, 4, 0x3);
            lemma_set_bits_u16(self.0, 13, 0x1, v, 6, 0x3);
            lemma_set_bits_u16(self.0, 13, 0x1, v, 8, 0x1);
            lemma_set_bits_u16(self.0, 13, 0x1, v, 9, 0x1);
            lemma_set_bits_u16(self.0, 13, 0x1, v, 10, 0x3);
            lemma_set_bits_u16(self.0, 13, 0x1, v, 12, 0x1);
            lemma_set_bits_u16(self.0, 13, 0x1, v, 14, 0x1);
        }
        Self((self.0 & !(0x1u16 << 13u16)) | ((v & 0x1) << 13u16))
    }

    /// Is Operating Channel Validation (OCV) supported.
    pub open spec fn spec_ocv_capable(self) -> bool {
        get_bits_u16(self.0, 14, 1) == 1
    }

    /// Is Operating Channel Validation (OCV) supported.
    pub fn ocv_capable(&self) -> (r: bool)
        ensures
            r == self.spec_ocv_capable(),
    {
        (self.0 >> 14) & 1 == 1
    }

    /// Returns a copy with the field replaced by `value`.
    pub fn with_ocv_capable(self, value: bool) -> (r: Self)
        ensures
            r.0 == set_bits_u16(self.0, 14, 0x1, (if value {
                1u16
            } else {
                0u16
            })),
            r.spec_ocv_capable() == value,
            r.spec_supports_preauthentication() == self.spec_supports_preauthentication(),
            r.spec_no_pairwise_key() == self.spec_no_pairwise_key(),
            r.spec_ptksa_replay_counter() == self.spec_ptksa_replay_counter(),
            r.spec_gtksa_replay_counter() == self.spec_gtksa_replay_counter(),
            r.spec_mfp_config() == self.spec_mfp_config(),
            r.spec_joint_multi_band_rsna_capable() == self.spec_joint_multi_band_rsna_capable(),
            r.spec_peer_key_enabled_handshake_capable() == self.spec_peer_key_enabled_handshake_capable(),
            r.spec_spp_ampdu_config() == self.spec_spp_ampdu_config(),
            r.spec_pbac_capable() == self.spec_pbac_capable(),
            r.spec_ext_key_id_for_individually_addressed_frames() == self.spec_ext_key_id_for_individually_addressed_frames(),
    {
        let v: u16 = if value {
            1
        } else {
            0
        };
        proof {
            Self::lemma_masks_fit();
            lemma_set_bits_u16(self.0, 14, 0x1, v, 14, 0x1);
            lemma_set_bits_u16(self.0, 14, 0x1, v, 0, 0x1);
            lemma_set_bits_u16(self.0, 14, 0x1, v, 1, 0x1);
            lemma_set_bits_u16(self.0, 14, 0x1, v, 2, 0x3);
            lemma_set_bits_u16(self.0, 14, 0x1, v, 4, 0x3);
            lemma_set_bits_u16(self.0, 14, 0x1, v, 6, 0x3);
            lemma_set_bits_u16(self.0, 14, 0x1, v, 8, 0x1);
            lemma_set_bits_u16(self.0, 14, 0x1, v, 9, 0x1);
            lemma_set_bits_u16(self.0, 14, 0x1, v, 10, 0x3);
            lemma_set_bits_u16(self.0, 14, 0x1, v, 12, 0x1);
            lemma_set_bits_u16(self.0, 14, 0x1, v, 13, 0x1);
        }
        Self((self.0 & !(0x1u16 << 14u16)) | ((v & 0x1) << 14u16))
    }
}

impl Default for RSNCapabilities {
    fn default() -> (r: Self)
        ensures
            r.0 == 0,
    {
        RSNCapabilities(0)
    }
}

/// A pairwise master key identifier.
#[derive(Clone, Copy, Debug, PartialEq, Eq, Hash)]
pub struct IEEE80211PMKID(pub [u8; 16]);

impl IEEE80211PMKID {
    /// Read a PMKID from its sixteen bytes.
    pub fn try_from_ctx(from: &[u8]) -> (r: Result<(Self, usize), Error>)
        ensures
            from@.len() < 16 ==> r == Err::<(Self, usize), Error>(Error::TooShort),
            from@.len() >= 16 ==> (r matches Ok((p, n)) && n == 16 && p.0@ == from@.take(16)),
    {
        if from.len() < 16 {
            return Err(Error::TooShort);
        }
        let mut pmkid = [0u8; 16];
        let mut i: usize = 0;
        while i < 16
            invariant
                from@.len() >= 16,
                0 <= i <= 16,
                forall|k: int| 0 <= k < i ==> pmkid@[k] == from@[k],
            decreases 16 - i,
        {
            pmkid[i] = from[i];
            i = i + 1;
        }
        assert(pmkid@ =~= from@.take(16));
        Ok((IEEE80211PMKID(pmkid), 16))
    }

    /// The serialized length of a PMKID.
    pub fn size_with() -> (r: usize)
        ensures
            r == 16,
    {
        16
    }

    /// Write the PMKID to the start of `buf`.
    pub fn try_into_ctx(self, buf: &mut [u8]) -> (r: Result<usize, Error>)
        ensures
            final(buf)@.len() == old(buf)@.len(),
            16 <= old(buf)@.len() ==> r == Ok::<usize, Error>(16) && final(buf)@ == self.0@ + old(
                buf,
            )@.skip(16),
            16 > old(buf)@.len() ==> r == Err::<usize, Error>(Error::TooShort),
    {
        write_all(buf, self.0.as_slice())
    }
}

impl Default for IEEE80211PMKID {
    fn default() -> (r: Self)
        ensures
            r.0@ == Seq::new(16, |i: int| 0u8),
    {
        let r = IEEE80211PMKID([0u8; 16]);
        assert(r.0@ =~= Seq::new(16, |i: int| 0u8));
        r
    }
}


/// What an [RSNElement] holds: the group data cipher suite, the pairwise cipher suites, the AKM
/// suites, the capabilities, the PMKIDs (each as its sixteen bytes) and the group management
/// cipher suite.
pub type RSNElementView = (
    Option<IEEE80211CipherSuiteSelector>,
    Option<Seq<IEEE80211CipherSuiteSelector>>,
    Option<Seq<IEEE80211AKMType>>,
    Option<RSNCapabilities>,
    Option<Seq<Seq<u8>>>,
    Option<IEEE80211CipherSuiteSelector>,
);

/// The RSN element contains information about the security characteristics of a BSS.
///
/// All fields are wrapped in an [Option], since they only appear if there are enough bytes left
/// for them. This means, that if you want to use the `rsn_capbilities` field, all prior fields
/// need to be [Some], even if they are just default values. Due to this, it is recommended to use
/// the `with_` methods to construct the element. Writing stops at the first field that is [None].
#[derive(Clone, Debug, Hash)]
pub struct RSNElement {
    /// The cipher suite used for group addressed data traffic.
    pub group_data_cipher_suite: Option<IEEE80211CipherSuiteSelector>,
    /// The list of cipher suites supported for individually addressed traffic.
    pub pairwise_cipher_suite_list: Option<Vec<IEEE80211CipherSuiteSelector>>,
    /// The list of supported authentication and key-management suites.
    pub akm_list: Option<Vec<IEEE80211AKMType>>,
    /// The RSN capabilities of the transmitting STA.
    pub rsn_capbilities: Option<RSNCapabilities>,
    /// The list of pairwise master key IDs.
    pub pmkid_list: Option<Vec<IEEE80211PMKID>>,
    /// The cipher suite used for group addressed management frames.
    pub group_management_cipher_suite: Option<IEEE80211CipherSuiteSelector>,
}

impl View for RSNElement {
    type V = RSNElementView;

    open spec fn view(&self) -> RSNElementView {
        (
            self.group_data_cipher_suite,
            match self.pairwise_cipher_suite_list {
                Some(l) => Some(l@),
                None => None,
            },
            match self.akm_list {
                Some(l) => Some(l@),
                None => None,
            },
            self.rsn_capbilities,
            match self.pmkid_list {
                Some(l) => Some(pmkid_bytes_list(l@)),
                None => None,
            },
            self.group_management_cipher_suite,
        )
    }
}

/// The bytes of each PMKID.
pub open spec fn pmkid_bytes_list(l: Seq<IEEE80211PMKID>) -> Seq<Seq<u8>> {
    l.map_values(|p: IEEE80211PMKID| p.0@)
}

/// The selectors of a list of cipher suites.
pub open spec fn cipher_selectors(l: Seq<IEEE80211CipherSuiteSelector>) -> Seq<u32> {
    l.map_values(|s: IEEE80211CipherSuiteSelector| s.spec_selector())
}

/// The selectors of a list of AKM suites.
pub open spec fn akm_selectors(l: Seq<IEEE80211AKMType>) -> Seq<u32> {
    l.map_values(|s: IEEE80211AKMType| s.spec_selector())
}

/// The selectors, each as four little-endian bytes.
pub open spec fn selector_bytes(l: Seq<u32>) -> Seq<u8>
    decreases l.len(),
{
    if l.len() == 0 {
        Seq::empty()
    } else {
        selector_bytes(l.drop_last()) + u32_le_bytes(l.last())
    }
}

/// The PMKIDs, one after the other.
pub open spec fn pmkid_bytes(l: Seq<Seq<u8>>) -> Seq<u8>
    decreases l.len(),
{
    if l.len() == 0 {
        Seq::empty()
    } else {
        pmkid_bytes(l.drop_last()) + l.last()
    }
}

/// The count written before a list of `byte_len` bytes: the length, as sixteen bits, divided by
/// four.
pub open spec fn list_count(byte_len: int) -> u16 {
    ((byte_len % 0x1_0000) / 4) as u16
}

/// A list of selectors with its count.
pub open spec fn selector_list_bytes(l: Seq<u32>) -> Seq<u8> {
    u16_le_bytes(list_count((l.len() * 4) as int)) + selector_bytes(l)
}

/// A list of PMKIDs with its count: the number of PMKIDs, as sixteen bits.
pub open spec fn pmkid_list_bytes(l: Seq<Seq<u8>>) -> Seq<u8> {
    u16_le_bytes((l.len() % 0x1_0000) as u16) + pmkid_bytes(l)
}

/// The group management cipher suite, if present.
pub open spec fn rsn_tail5(v: RSNElementView) -> Seq<u8> {
    match v.5 {
        None => Seq::empty(),
        Some(gm) => u32_le_bytes(gm.spec_selector()),
    }
}

/// The PMKID list and what follows it, if present.
pub open spec fn rsn_tail4(v: RSNElementView) -> Seq<u8> {
    match v.4 {
        None => Seq::empty(),
        Some(pm) => pmkid_list_bytes(pm) + rsn_tail5(v),
    }
}

/// The capabilities and what follows them, if present.
pub open spec fn rsn_tail3(v: RSNElementView) -> Seq<u8> {
    match v.3 {
        None => Seq::empty(),
        Some(c) => u16_le_bytes(c.0) + rsn_tail4(v),
    }
}

/// The AKM list and what follows it, if present.
pub open spec fn rsn_tail2(v: RSNElementView) -> Seq<u8> {
    match v.2 {
        None => Seq::empty(),
        Some(al) => selector_list_bytes(akm_selectors(al)) + rsn_tail3(v),
    }
}

/// The pairwise cipher suite list and what follows it, if present.
pub open spec fn rsn_tail1(v: RSNElementView) -> Seq<u8> {
    match v.1 {
        None => Seq::empty(),
        Some(pl) => selector_list_bytes(cipher_selectors(pl)) + rsn_tail2(v),
    }
}

/// The group data cipher suite and what follows it, if present.
pub open spec fn rsn_tail0(v: RSNElementView) -> Seq<u8> {
    match v.0 {
        None => Seq::empty(),
        Some(g) => u32_le_bytes(g.spec_selector()) + rsn_tail1(v),
    }
}

/// The serialized RSN element: version one, then each field up to the first that is missing.
pub open spec fn rsn_bytes(v: RSNElementView) -> Seq<u8> {
    u16_le_bytes(1) + rsn_tail0(v)
}

/// The length [RSNElement::measure_with] reports: each present field counts, and the PMKID list
/// counts sixteen bytes per PMKID.
pub open spec fn rsn_measure(v: RSNElementView) -> int {
    2 + (if v.0 is Some { 4int } else { 0 }) + match v.1 {
        Some(l) => 2 + l.len() * 4,
        None => 0,
    } + match v.2 {
        Some(l) => 2 + l.len() * 4,
        None => 0,
    } + (if v.3 is Some { 2int } else { 0 }) + match v.4 {
        Some(l) => 2 + l.len() * 16,
        None => 0,
    } + (if v.5 is Some { 4int } else { 0 })
}

/// The cipher suites that `n` selectors at `o` give.
pub open spec fn parse_cipher_suites(s: Seq<u8>, o: int, n: int) -> Seq<IEEE80211CipherSuiteSelector> {
    Seq::new(n as nat, |i: int| IEEE80211CipherSuiteSelector::spec_with_selector(le_u32(s, o + 4 * i)))
}

/// The AKM suites that `n` selectors at `o` give.
pub open spec fn parse_akm_suites(s: Seq<u8>, o: int, n: int) -> Seq<IEEE80211AKMType> {
    Seq::new(n as nat, |i: int| IEEE80211AKMType::spec_with_selector(le_u32(s, o + 4 * i)))
}

/// The whole PMKIDs within `byte_len` bytes at `o`.
pub open spec fn parse_pmkids(s: Seq<u8>, o: int, byte_len: int) -> Seq<Seq<u8>> {
    Seq::new((byte_len / 16) as nat, |i: int| s.subrange(o + 16 * i, o + 16 * i + 16))
}

/// Reading the group management cipher suite at `o`, after the fields in `acc`.
pub open spec fn parse_rsn_group_management(s: Seq<u8>, o: int, acc: RSNElementView) -> (RSNElementView, int) {
    if s.len() < o + 4 {
        (acc, o)
    } else {
        (
            (
                acc.0,
                acc.1,
                acc.2,
                acc.3,
                acc.4,
                Some(IEEE80211CipherSuiteSelector::spec_with_selector(le_u32(s, o))),
            ),
            o + 4,
        )
    }
}

/// Reading the PMKID list at `o`, and what follows it. Its count is the number of PMKIDs, of
/// sixteen bytes each; if the list doesn't fit, reading ends after the count.
pub open spec fn parse_rsn_pmkids(s: Seq<u8>, o: int, acc: RSNElementView) -> (RSNElementView, int) {
    if s.len() < o + 2 {
        (acc, o)
    } else {
        let c = le_u16(s, o) as int;
        if s.len() < o + 2 + c * 16 {
            (acc, o + 2)
        } else {
            parse_rsn_group_management(
                s,
                o + 2 + c * 16,
                (acc.0, acc.1, acc.2, acc.3, Some(parse_pmkids(s, o + 2, c * 16)), None),
            )
        }
    }
}

/// Reading the capabilities at `o`, and what follows them.
pub open spec fn parse_rsn_capabilities(s: Seq<u8>, o: int, acc: RSNElementView) -> (RSNElementView, int) {
    if s.len() < o + 2 {
        (acc, o)
    } else {
        parse_rsn_pmkids(
            s,
            o + 2,
            (acc.0, acc.1, acc.2, Some(RSNCapabilities(le_u16(s, o))), None, None),
        )
    }
}

/// Reading the AKM list at `o`, and what follows it; if the list doesn't fit, reading ends after
/// the count.
pub open spec fn parse_rsn_akms(s: Seq<u8>, o: int, acc: RSNElementView) -> (RSNElementView, int) {
    if s.len() < o + 2 {
        (acc, o)
    } else {
        let c = le_u16(s, o) as int;
        if s.len() < o + 2 + c * 4 {
            (acc, o + 2)
        } else {
            parse_rsn_capabilities(
                s,
                o + 2 + c * 4,
                (acc.0, acc.1, Some(parse_akm_suites(s, o + 2, c)), None, None, None),
            )
        }
    }
}

/// Reading the pairwise cipher suite list at `o`, and what follows it; if the list doesn't fit,
/// reading ends after the count.
pub open spec fn parse_rsn_pairwise(s: Seq<u8>, o: int, acc: RSNElementView) -> (RSNElementView, int) {
    if s.len() < o + 2 {
        (acc, o)
    } else {
        let c = le_u16(s, o) as int;
        if s.len() < o + 2 + c * 4 {
            (acc, o + 2)
        } else {
            parse_rsn_akms(
                s,
                o + 2 + c * 4,
                (acc.0, Some(parse_cipher_suites(s, o + 2, c)), None, None, None, None),
            )
        }
    }
}

/// Reading an RSN element body after the version: each field is read if there are enough bytes
/// left for it, and reading stops at the first that doesn't fit.
pub open spec fn parse_rsn_fields(s: Seq<u8>) -> (RSNElementView, int) {
    if s.len() < 6 {
        ((None, None, None, None, None, None), 2)
    } else {
        parse_rsn_pairwise(
            s,
            6,
            (
                Some(IEEE80211CipherSuiteSelector::spec_with_selector(le_u32(s, 2))),
                None,
                None,
                None,
                None,
                None,
            ),
        )
    }
}

/// Reading an RSN element body: the version must be one.
pub open spec fn parse_rsn(s: Seq<u8>) -> Result<(RSNElementView, int), Error> {
    if s.len() < 2 {
        Err(Error::TooShort)
    } else if le_u16(s, 0) != 1 {
        Err(Error::BadInput)
    } else {
        Ok(parse_rsn_fields(s))
    }
}

/// Read `n` cipher suites at `o`.
fn read_cipher_suites(from: &[u8], o: usize, n: usize) -> (r: Vec<IEEE80211CipherSuiteSelector>)
    requires
        o + 4 * n <= from.len(),
    ensures
        r@ == parse_cipher_suites(from@, o as int, n as int),
{
    let mut out: Vec<IEEE80211CipherSuiteSelector> = Vec::new();
    let mut i: usize = 0;
    while i < n
        invariant
            o + 4 * n <= from.len(),
            i <= n,
            out@ == parse_cipher_suites(from@, o as int, i as int),
        decreases n - i,
    {
        let s = IEEE80211CipherSuiteSelector::with_cipher_suite_selector(read_u32_le(from, o + 4 * i));
        out.push(s);
        i = i + 1;
        assert(out@ =~= parse_cipher_suites(from@, o as int, i as int));
    }
    out
}

/// Read `n` AKM suites at `o`.
fn read_akm_suites(from: &[u8], o: usize, n: usize) -> (r: Vec<IEEE80211AKMType>)
    requires
        o + 4 * n <= from.len(),
    ensures
        r@ == parse_akm_suites(from@, o as int, n as int),
{
    let mut out: Vec<IEEE80211AKMType> = Vec::new();
    let mut i: usize = 0;
    while i < n
        invariant
            o + 4 * n <= from.len(),
            i <= n,
            out@ == parse_akm_suites(from@, o as int, i as int),
        decreases n - i,
    {
        let s = IEEE80211AKMType::with_cipher_suite_selector(read_u32_le(from, o + 4 * i));
        out.push(s);
        i = i + 1;
        assert(out@ =~= parse_akm_suites(from@, o as int, i as int));
    }
    out
}

/// Read the whole PMKIDs within `byte_len` bytes at `o`.
fn read_pmkids(from: &[u8], o: usize, byte_len: usize) -> (r: Vec<IEEE80211PMKID>)
    requires
        o + byte_len <= from.len(),
    ensures
        pmkid_bytes_list(r@) == parse_pmkids(from@, o as int, byte_len as int),
{
    let mut out: Vec<IEEE80211PMKID> = Vec::new();
    let n = byte_len / 16;
    let mut i: usize = 0;
    while i < n
        invariant
            o + byte_len <= from.len(),
            n == byte_len / 16,
            i <= n,
            pmkid_bytes_list(out@) == parse_pmkids(from@, o as int, 16 * i),
        decreases n - i,
    {
        let chunk = slice_range(from, o + 16 * i, o + 16 * i + 16);
        let (p, _) = match IEEE80211PMKID::try_from_ctx(chunk) {
            Ok(x) => x,
            Err(_) => {
                assert(false);
                return out;
            },
        };
        assert(chunk@.take(16) =~= chunk@);
        let ghost prev = out@;
        out.push(p);
        proof {
            let ii = i as int;
            assert((16 * ii) / 16 == ii && (16 * (ii + 1)) / 16 == ii + 1) by (nonlinear_arith);
            assert(pmkid_bytes_list(out@) =~= pmkid_bytes_list(prev).push(p.0@));
        }
        i = i + 1;
        assert(pmkid_bytes_list(out@) =~= parse_pmkids(from@, o as int, 16 * i));
    }
    assert(parse_pmkids(from@, o as int, 16 * n) =~= parse_pmkids(from@, o as int, byte_len as int));
    out
}


impl RSNElement {
    /// Create a new empty [RSNElement].
    pub fn new() -> (r: RSNElement)
        ensures
            r@ == (
                None::<IEEE80211CipherSuiteSelector>,
                None::<Seq<IEEE80211CipherSuiteSelector>>,
                None::<Seq<IEEE80211AKMType>>,
                None::<RSNCapabilities>,
                None::<Seq<Seq<u8>>>,
                None::<IEEE80211CipherSuiteSelector>,
            ),
    {
        RSNElement {
            group_data_cipher_suite: None,
            pairwise_cipher_suite_list: None,
            akm_list: None,
            rsn_capbilities: None,
            pmkid_list: None,
            group_management_cipher_suite: None,
        }
    }

    /// Read an RSN element body.
    ///
    /// Fails if there are less than two bytes, or if the version isn't one; after that, each field
    /// is read as far as there are bytes left for it.
    pub fn try_from_ctx(from: &[u8]) -> (r: Result<(Self, usize), Error>)
        ensures
            match parse_rsn(from@) {
                Ok((v, n)) => r matches Ok((e, m)) && e@ == v && m == n,
                Err(err) => r == Err::<(Self, usize), Error>(err),
            },
    {
        let mut e = RSNElement::new();
        if from.len() < 2 {
            return Err(Error::TooShort);
        }
        if read_u16_le(from, 0) != 1 {
            return Err(Error::BadInput);
        }
        let len = from.len();
        if len < 6 {
            return Ok((e, 2));
        }
        e.group_data_cipher_suite = Some(
            IEEE80211CipherSuiteSelector::with_cipher_suite_selector(read_u32_le(from, 2)),
        );
        if len < 8 {
            return Ok((e, 6));
        }
        let c1 = read_u16_le(from, 6) as usize;
        if len - 8 < c1 * 4 {
            return Ok((e, 8));
        }
        e.pairwise_cipher_suite_list = Some(read_cipher_suites(from, 8, c1));
        let o2 = 8 + c1 * 4;
        if len - o2 < 2 {
            return Ok((e, o2));
        }
        let c2 = read_u16_le(from, o2) as usize;
        let o3 = o2 + 2;
        if len - o3 < c2 * 4 {
            return Ok((e, o3));
        }
        e.akm_list = Some(read_akm_suites(from, o3, c2));
        let o4 = o3 + c2 * 4;
        if len - o4 < 2 {
            return Ok((e, o4));
        }
        e.rsn_capbilities = Some(RSNCapabilities::from_bits(read_u16_le(from, o4)));
        let o5 = o4 + 2;
        if len - o5 < 2 {
            return Ok((e, o5));
        }
        let c3 = read_u16_le(from, o5) as usize;
        let o6 = o5 + 2;
        if len - o6 < c3 * 16 {
            return Ok((e, o6));
        }
        e.pmkid_list = Some(read_pmkids(from, o6, c3 * 16));
        let o7 = o6 + c3 * 16;
        if len - o7 < 4 {
            return Ok((e, o7));
        }
        e.group_management_cipher_suite = Some(
            IEEE80211CipherSuiteSelector::with_cipher_suite_selector(read_u32_le(from, o7)),
        );
        Ok((e, o7 + 4))
    }
}


/// The count written for `n` entries of four bytes.
proof fn lemma_list_count_4(n: int)
    requires
        0 <= n,
    ensures
        list_count(n * 4) == n % 0x4000,
{
    let q = n / 0x4000;
    let r = n % 0x4000;
    assert(n * 4 == q * 0x1_0000 + r * 4) by (nonlinear_arith)
        requires
            n == q * 0x4000 + r,
    ;
    assert((q * 0x1_0000 + r * 4) % 0x1_0000 == r * 4) by (nonlinear_arith)
        requires
            0 <= r < 0x4000,
            0 <= q,
    ;
}

/// Append a list of cipher suites, with its count.
fn push_cipher_list(out: &mut Vec<u8>, l: &Vec<IEEE80211CipherSuiteSelector>)
    ensures
        final(out)@ == old(out)@ + selector_list_bytes(cipher_selectors(l@)),
{
    proof {
        lemma_list_count_4(l@.len() as int);
    }
    push_u16_le(out, (l.len() % 0x4000) as u16);
    let ghost start = out@;
    let mut i: usize = 0;
    while i < l.len()
        invariant
            i <= l@.len(),
            out@ == start + selector_bytes(cipher_selectors(l@).take(i as int)),
        decreases l@.len() - i,
    {
        push_u32_le(out, l[i].cipher_suite_selector());
        assert(cipher_selectors(l@).take(i + 1).drop_last() =~= cipher_selectors(l@).take(i as int));
        i = i + 1;
    }
    assert(cipher_selectors(l@).take(i as int) =~= cipher_selectors(l@));
}

/// Append a list of AKM suites, with its count.
fn push_akm_list(out: &mut Vec<u8>, l: &Vec<IEEE80211AKMType>)
    ensures
        final(out)@ == old(out)@ + selector_list_bytes(akm_selectors(l@)),
{
    proof {
        lemma_list_count_4(l@.len() as int);
    }
    push_u16_le(out, (l.len() % 0x4000) as u16);
    let ghost start = out@;
    let mut i: usize = 0;
    while i < l.len()
        invariant
            i <= l@.len(),
            out@ == start + selector_bytes(akm_selectors(l@).take(i as int)),
        decreases l@.len() - i,
    {
        push_u32_le(out, l[i].cipher_suite_selector());
        assert(akm_selectors(l@).take(i + 1).drop_last() =~= akm_selectors(l@).take(i as int));
        i = i + 1;
    }
    assert(akm_selectors(l@).take(i as int) =~= akm_selectors(l@));
}

/// Append a list of PMKIDs, with their number as its count.
fn push_pmkid_list(out: &mut Vec<u8>, l: &Vec<IEEE80211PMKID>)
    ensures
        final(out)@ == old(out)@ + pmkid_list_bytes(pmkid_bytes_list(l@)),
{
    push_u16_le(out, (l.len() % 0x1_0000) as u16);
    let ghost start = out@;
    let mut i: usize = 0;
    while i < l.len()
        invariant
            i <= l@.len(),
            out@ == start + pmkid_bytes(pmkid_bytes_list(l@).take(i as int)),
        decreases l@.len() - i,
    {
        push_bytes(out, l[i].0.as_slice());
        assert(pmkid_bytes_list(l@).take(i + 1).drop_last() =~= pmkid_bytes_list(l@).take(i as int));
        i = i + 1;
    }
    assert(pmkid_bytes_list(l@).take(i as int) =~= pmkid_bytes_list(l@));
}

impl RSNElement {
    /// The serialized body: version one, then each field up to the first that is [None].
    #[verifier::spinoff_prover]
    #[verifier::rlimit(40)]
    pub fn to_bytes(&self) -> (r: Vec<u8>)
        ensures
            r@ == rsn_bytes(self@),
    {
        let mut out: Vec<u8> = Vec::new();
        push_u16_le(&mut out, 1);
        match self.group_data_cipher_suite {
            None => {
                assert(out@ =~= rsn_bytes(self@));
                return out;
            },
            Some(g) => push_u32_le(&mut out, g.cipher_suite_selector()),
        }
        let ghost p1 = out@;
        match &self.pairwise_cipher_suite_list {
            None => {
                assert(out@ =~= rsn_bytes(self@));
                return out;
            },
            Some(l) => push_cipher_list(&mut out, l),
        }
        let ghost p2 = out@;
        match &self.akm_list {
            None => {
                assert(out@ =~= rsn_bytes(self@));
                return out;
            },
            Some(l) => push_akm_list(&mut out, l),
        }
        let ghost p3 = out@;
        match self.rsn_capbilities {
            None => {
                assert(out@ =~= rsn_bytes(self@));
                return out;
            },
            Some(c) => push_u16_le(&mut out, c.into_bits()),
        }
        let ghost p4 = out@;
        match &self.pmkid_list {
            None => {
                assert(out@ =~= rsn_bytes(self@));
                return out;
            },
            Some(l) => push_pmkid_list(&mut out, l),
        }
        let ghost p5 = out@;
        match self.group_management_cipher_suite {
            None => {
                assert(out@ =~= rsn_bytes(self@));
                return out;
            },
            Some(g) => push_u32_le(&mut out, g.cipher_suite_selector()),
        }
        assert(out@ =~= rsn_bytes(self@));
        out
    }

    /// Write the body to the start of `buf`, returning the number of bytes written.
    pub fn try_into_ctx(&self, buf: &mut [u8]) -> (r: Result<usize, Error>)
        ensures
            final(buf)@.len() == old(buf)@.len(),
            ({
                let bytes = rsn_bytes(self@);
                &&& bytes.len() <= old(buf)@.len() ==> r == Ok::<usize, Error>(bytes.len() as usize)
                    && final(buf)@ == bytes + old(buf)@.skip(bytes.len() as int)
                &&& bytes.len() > old(buf)@.len() ==> r == Err::<usize, Error>(Error::TooShort)
            }),
    {
        let bytes = self.to_bytes();
        write_all(buf, bytes.as_slice())
    }

    /// The length of the body as this element reports it: every present field counts, and each
    /// PMKID counts sixteen bytes.
    pub fn measure_with(&self) -> (r: usize)
        requires
            rsn_measure(self@) <= usize::MAX,
        ensures
            r == rsn_measure(self@),
    {
        let g: usize = if self.group_data_cipher_suite.is_some() { 4 } else { 0 };
        let pl: usize = match &self.pairwise_cipher_suite_list {
            Some(l) => 2 + l.len() * 4,
            None => 0,
        };
        let al: usize = match &self.akm_list {
            Some(l) => 2 + l.len() * 4,
            None => 0,
        };
        let c: usize = if self.rsn_capbilities.is_some() { 2 } else { 0 };
        let pm: usize = match &self.pmkid_list {
            Some(l) => 2 + l.len() * 16,
            None => 0,
        };
        let gm: usize = if self.group_management_cipher_suite.is_some() { 4 } else { 0 };
        2 + g + pl + al + c + pm + gm
    }
}


impl RSNElement {
    /// An [RSNElement] equivalent to WPA-Personal.
    #[allow(non_snake_case)]
    pub fn WPA_PERSONAL() -> (r: RSNElement)
        ensures
            r@ == (
                Some(IEEE80211CipherSuiteSelector::Tkip),
                Some(seq![IEEE80211CipherSuiteSelector::Tkip]),
                Some(seq![IEEE80211AKMType::Psk]),
                None::<RSNCapabilities>,
                None::<Seq<Seq<u8>>>,
                None::<IEEE80211CipherSuiteSelector>,
            ),
    {
        let pairwise: Vec<IEEE80211CipherSuiteSelector> = vec![IEEE80211CipherSuiteSelector::Tkip];
        let akms: Vec<IEEE80211AKMType> = vec![IEEE80211AKMType::Psk];
        assert(pairwise@ =~= seq![IEEE80211CipherSuiteSelector::Tkip]);
        assert(akms@ =~= seq![IEEE80211AKMType::Psk]);
        let r = RSNElement {
            group_data_cipher_suite: Some(IEEE80211CipherSuiteSelector::Tkip),
            pairwise_cipher_suite_list: Some(pairwise),
            akm_list: Some(akms),
            rsn_capbilities: None,
            pmkid_list: None,
            group_management_cipher_suite: None,
        };
        assert(pmkid_bytes_list(Seq::<IEEE80211PMKID>::empty()) =~= Seq::<Seq<u8>>::empty());
        r
    }

    /// An [RSNElement] equivalent to WPA/WPA2-Personal.
    #[allow(non_snake_case)]
    pub fn WPA_WPA2_PERSONAL() -> (r: RSNElement)
        ensures
            r@ == (
                Some(IEEE80211CipherSuiteSelector::Tkip),
                Some(seq![IEEE80211CipherSuiteSelector::Tkip, IEEE80211CipherSuiteSelector::Ccmp128]),
                Some(seq![IEEE80211AKMType::Psk]),
                None::<RSNCapabilities>,
                None::<Seq<Seq<u8>>>,
                None::<IEEE80211CipherSuiteSelector>,
            ),
    {
        let pairwise: Vec<IEEE80211CipherSuiteSelector> = vec![IEEE80211CipherSuiteSelector::Tkip, IEEE80211CipherSuiteSelector::Ccmp128];
        let akms: Vec<IEEE80211AKMType> = vec![IEEE80211AKMType::Psk];
        assert(pairwise@ =~= seq![IEEE80211CipherSuiteSelector::Tkip, IEEE80211CipherSuiteSelector::Ccmp128]);
        assert(akms@ =~= seq![IEEE80211AKMType::Psk]);
        let r = RSNElement {
            group_data_cipher_suite: Some(IEEE80211CipherSuiteSelector::Tkip),
            pairwise_cipher_suite_list: Some(pairwise),
            akm_list: Some(akms),
            rsn_capbilities: None,
            pmkid_list: None,
            group_management_cipher_suite: None,
        };
        assert(pmkid_bytes_list(Seq::<IEEE80211PMKID>::empty()) =~= Seq::<Seq<u8>>::empty());
        r
    }

    /// An [RSNElement] equivalent to WPA2-Personal.
    #[allow(non_snake_case)]
    pub fn WPA2_PERSONAL() -> (r: RSNElement)
        ensures
            r@ == (
                Some(IEEE80211CipherSuiteSelector::Ccmp128),
                Some(seq![IEEE80211CipherSuiteSelector::Ccmp128]),
                Some(seq![IEEE80211AKMType::Psk]),
                None::<RSNCapabilities>,
                None::<Seq<Seq<u8>>>,
                None::<IEEE80211CipherSuiteSelector>,
            ),
    {
        let pairwise: Vec<IEEE80211CipherSuiteSelector> = vec![IEEE80211CipherSuiteSelector::Ccmp128];
        let akms: Vec<IEEE80211AKMType> = vec![IEEE80211AKMType::Psk];
        assert(pairwise@ =~= seq![IEEE80211CipherSuiteSelector::Ccmp128]);
        assert(akms@ =~= seq![IEEE80211AKMType::Psk]);
        let r = RSNElement {
            group_data_cipher_suite: Some(IEEE80211CipherSuiteSelector::Ccmp128),
            pairwise_cipher_suite_list: Some(pairwise),
            akm_list: Some(akms),
            rsn_capbilities: None,
            pmkid_list: None,
            group_management_cipher_suite: None,
        };
        assert(pmkid_bytes_list(Seq::<IEEE80211PMKID>::empty()) =~= Seq::<Seq<u8>>::empty());
        r
    }

    /// An [RSNElement] equivalent to WPA2/WPA3-Personal.
    #[allow(non_snake_case)]
    pub fn WPA2_WPA3_PERSONAL() -> (r: RSNElement)
        ensures
            r@ == (
                Some(IEEE80211CipherSuiteSelector::Ccmp128),
                Some(seq![IEEE80211CipherSuiteSelector::Ccmp128]),
                Some(seq![IEEE80211AKMType::Psk, IEEE80211AKMType::Sae]),
                None::<RSNCapabilities>,
                None::<Seq<Seq<u8>>>,
                None::<IEEE80211CipherSuiteSelector>,
            ),
    {
        let pairwise: Vec<IEEE80211CipherSuiteSelector> = vec![IEEE80211CipherSuiteSelector::Ccmp128];
        let akms: Vec<IEEE80211AKMType> = vec![IEEE80211AKMType::Psk, IEEE80211AKMType::Sae];
        assert(pairwise@ =~= seq![IEEE80211CipherSuiteSelector::Ccmp128]);
        assert(akms@ =~= seq![IEEE80211AKMType::Psk, IEEE80211AKMType::Sae]);
        let r = RSNElement {
            group_data_cipher_suite: Some(IEEE80211CipherSuiteSelector::Ccmp128),
            pairwise_cipher_suite_list: Some(pairwise),
            akm_list: Some(akms),
            rsn_capbilities: None,
            pmkid_list: None,
            group_management_cipher_suite: None,
        };
        assert(pmkid_bytes_list(Seq::<IEEE80211PMKID>::empty()) =~= Seq::<Seq<u8>>::empty());
        r
    }

    /// An [RSNElement] equivalent to WPA3-Personal: management frame protection is required.
    #[allow(non_snake_case)]
    pub fn WPA3_PERSONAL() -> (r: RSNElement)
        ensures
            r@ == (
                Some(IEEE80211CipherSuiteSelector::Ccmp128),
                Some(seq![IEEE80211CipherSuiteSelector::Ccmp128]),
                Some(seq![IEEE80211AKMType::Sae]),
                Some(RSNCapabilities(0xc0)),
                Some(Seq::<Seq<u8>>::empty()),
                Some(IEEE80211CipherSuiteSelector::BipCmac128),
            ),
            r@.3->0.spec_mfp_config() == OptionalFeatureConfig::Required,
    {
        let pairwise: Vec<IEEE80211CipherSuiteSelector> = vec![IEEE80211CipherSuiteSelector::Ccmp128];
        let akms: Vec<IEEE80211AKMType> = vec![IEEE80211AKMType::Sae];
        assert(pairwise@ =~= seq![IEEE80211CipherSuiteSelector::Ccmp128]);
        assert(akms@ =~= seq![IEEE80211AKMType::Sae]);
        let r = RSNElement {
            group_data_cipher_suite: Some(IEEE80211CipherSuiteSelector::Ccmp128),
            pairwise_cipher_suite_list: Some(pairwise),
            akm_list: Some(akms),
            rsn_capbilities: Some(RSNCapabilities(0xc0)),
            pmkid_list: Some(Vec::new()),
            group_management_cipher_suite: Some(IEEE80211CipherSuiteSelector::BipCmac128),
        };
        assert(pmkid_bytes_list(Seq::<IEEE80211PMKID>::empty()) =~= Seq::<Seq<u8>>::empty());
        assert(((0xc0u16 >> 6u16) & 0x3u16) == 3u16) by (bit_vector);
        r
    }

    /// An [RSNElement] equivalent to OWE: management frame protection is required.
    #[allow(non_snake_case)]
    pub fn OWE() -> (r: RSNElement)
        ensures
            r@ == (
                Some(IEEE80211CipherSuiteSelector::Ccmp128),
                Some(seq![IEEE80211CipherSuiteSelector::Ccmp128]),
                Some(seq![IEEE80211AKMType::OpportunisticWirelessEncryption]),
                Some(RSNCapabilities(0xc0)),
                None::<Seq<Seq<u8>>>,
                Some(IEEE80211CipherSuiteSelector::Ccmp128),
            ),
            r@.3->0.spec_mfp_config() == OptionalFeatureConfig::Required,
    {
        let pairwise: Vec<IEEE80211CipherSuiteSelector> = vec![IEEE80211CipherSuiteSelector::Ccmp128];
        let akms: Vec<IEEE80211AKMType> = vec![IEEE80211AKMType::OpportunisticWirelessEncryption];
        assert(pairwise@ =~= seq![IEEE80211CipherSuiteSelector::Ccmp128]);
        assert(akms@ =~= seq![IEEE80211AKMType::OpportunisticWirelessEncryption]);
        let r = RSNElement {
            group_data_cipher_suite: Some(IEEE80211CipherSuiteSelector::Ccmp128),
            pairwise_cipher_suite_list: Some(pairwise),
            akm_list: Some(akms),
            rsn_capbilities: Some(RSNCapabilities(0xc0)),
            pmkid_list: None,
            group_management_cipher_suite: Some(IEEE80211CipherSuiteSelector::Ccmp128),
        };
        assert(pmkid_bytes_list(Seq::<IEEE80211PMKID>::empty()) =~= Seq::<Seq<u8>>::empty());
        assert(((0xc0u16 >> 6u16) & 0x3u16) == 3u16) by (bit_vector);
        r
    }
}

impl Default for RSNElement {
    fn default() -> (r: Self)
        ensures
            r@.0 is None && r@.1 is None && r@.2 is None && r@.3 is None && r@.4 is None && r@.5 is None,
    {
        RSNElement::new()
    }
}

impl RSNElement {
    /// Add a group data cipher suite to the [RSNElement].
    pub fn with_group_data_cipher_suite(self, group_data_cipher_suite: IEEE80211CipherSuiteSelector) -> (r: Self)
        ensures
            r@ == (Some(group_data_cipher_suite), self@.1, self@.2, self@.3, self@.4, self@.5),
    {
        let mut e = self;
        e.group_data_cipher_suite = Some(group_data_cipher_suite);
        e
    }

    /// Add a pairwise cipher suite list to the [RSNElement].
    ///
    /// The group data cipher suite is set to CCMP-128, if it is [None].
    pub fn with_pairwise_cipher_suite_list(
        self,
        pairwise_cipher_suite_list: Vec<IEEE80211CipherSuiteSelector>,
    ) -> (r: Self)
        ensures
            r@ == (
                Some(self@.0.unwrap_or(IEEE80211CipherSuiteSelector::Ccmp128)),
                Some(pairwise_cipher_suite_list@),
                self@.2,
                self@.3,
                self@.4,
                self@.5,
            ),
    {
        RSNElement {
            group_data_cipher_suite: Some(
                self.group_data_cipher_suite.unwrap_or(IEEE80211CipherSuiteSelector::Ccmp128),
            ),
            pairwise_cipher_suite_list: Some(pairwise_cipher_suite_list),
            akm_list: self.akm_list,
            rsn_capbilities: self.rsn_capbilities,
            pmkid_list: self.pmkid_list,
            group_management_cipher_suite: self.group_management_cipher_suite,
        }
    }

    /// Add an AKM list to the [RSNElement].
    ///
    /// The prior fields are set to their defaults, if they are [None]: CCMP-128 and an empty
    /// list.
    pub fn with_akm_list(self, akm_list: Vec<IEEE80211AKMType>) -> (r: Self)
        ensures
            r@ == (
                Some(self@.0.unwrap_or(IEEE80211CipherSuiteSelector::Ccmp128)),
                Some(self@.1.unwrap_or(Seq::empty())),
                Some(akm_list@),
                self@.3,
                self@.4,
                self@.5,
            ),
    {
        RSNElement {
            group_data_cipher_suite: Some(
                self.group_data_cipher_suite.unwrap_or(IEEE80211CipherSuiteSelector::Ccmp128),
            ),
            pairwise_cipher_suite_list: Some(self.pairwise_cipher_suite_list.unwrap_or(Vec::new())),
            akm_list: Some(akm_list),
            rsn_capbilities: self.rsn_capbilities,
            pmkid_list: self.pmkid_list,
            group_management_cipher_suite: self.group_management_cipher_suite,
        }
    }

    /// Add [RSNCapabilities] to the [RSNElement].
    ///
    /// The prior fields are set to their defaults, if they are [None]: CCMP-128 and empty lists.
    pub fn with_rsn_capabilities(self, rsn_capabilities: RSNCapabilities) -> (r: Self)
        ensures
            r@ == (
                Some(self@.0.unwrap_or(IEEE80211CipherSuiteSelector::Ccmp128)),
                Some(self@.1.unwrap_or(Seq::empty())),
                Some(self@.2.unwrap_or(Seq::empty())),
                Some(rsn_capabilities),
                self@.4,
                self@.5,
            ),
    {
        RSNElement {
            group_data_cipher_suite: Some(
                self.group_data_cipher_suite.unwrap_or(IEEE80211CipherSuiteSelector::Ccmp128),
            ),
            pairwise_cipher_suite_list: Some(self.pairwise_cipher_suite_list.unwrap_or(Vec::new())),
            akm_list: Some(self.akm_list.unwrap_or(Vec::new())),
            rsn_capbilities: Some(rsn_capabilities),
            pmkid_list: self.pmkid_list,
            group_management_cipher_suite: self.group_management_cipher_suite,
        }
    }

    /// Add a PMKID list to the [RSNElement].
    ///
    /// The prior fields are set to their defaults, if they are [None]: CCMP-128, empty lists and
    /// capabilities with every bit clear.
    pub fn with_pmkid_list(self, pmkid_list: Vec<IEEE80211PMKID>) -> (r: Self)
        ensures
            r@ == (
                Some(self@.0.unwrap_or(IEEE80211CipherSuiteSelector::Ccmp128)),
                Some(self@.1.unwrap_or(Seq::empty())),
                Some(self@.2.unwrap_or(Seq::empty())),
                Some(self@.3.unwrap_or(RSNCapabilities(0))),
                Some(pmkid_bytes_list(pmkid_list@)),
                self@.5,
            ),
    {
        RSNElement {
            group_data_cipher_suite: Some(
                self.group_data_cipher_suite.unwrap_or(IEEE80211CipherSuiteSelector::Ccmp128),
            ),
            pairwise_cipher_suite_list: Some(self.pairwise_cipher_suite_list.unwrap_or(Vec::new())),
            akm_list: Some(self.akm_list.unwrap_or(Vec::new())),
            rsn_capbilities: Some(self.rsn_capbilities.unwrap_or(RSNCapabilities::new())),
            pmkid_list: Some(pmkid_list),
            group_management_cipher_suite: self.group_management_cipher_suite,
        }
    }

    /// Add a group management cipher suite to the [RSNElement].
    ///
    /// The prior fields are set to their defaults, if they are [None]: CCMP-128, empty lists and
    /// capabilities with every bit clear.
    pub fn with_group_management_cipher_suite(
        self,
        group_management_cipher_suite: IEEE80211CipherSuiteSelector,
    ) -> (r: Self)
        ensures
            r@ == (
                Some(self@.0.unwrap_or(IEEE80211CipherSuiteSelector::Ccmp128)),
                Some(self@.1.unwrap_or(Seq::empty())),
                Some(self@.2.unwrap_or(Seq::empty())),
                Some(self@.3.unwrap_or(RSNCapabilities(0))),
                Some(self@.4.unwrap_or(Seq::empty())),
                Some(group_management_cipher_suite),
            ),
    {
        RSNElement {
            group_data_cipher_suite: Some(
                self.group_data_cipher_suite.unwrap_or(IEEE80211CipherSuiteSelector::Ccmp128),
            ),
            pairwise_cipher_suite_list: Some(self.pairwise_cipher_suite_list.unwrap_or(Vec::new())),
            akm_list: Some(self.akm_list.unwrap_or(Vec::new())),
            rsn_capbilities: Some(self.rsn_capbilities.unwrap_or(RSNCapabilities::new())),
            pmkid_list: Some(self.pmkid_list.unwrap_or(Vec::new())),
            group_management_cipher_suite: Some(group_management_cipher_suite),
        }
    }
}


/// Each selector stands at four times its index.
proof fn lemma_selector_bytes(l: Seq<u32>)
    ensures
        selector_bytes(l).len() == 4 * l.len(),
        forall|i: int|
            0 <= i < l.len() ==> #[trigger] selector_bytes(l).subrange(4 * i, 4 * i + 4)
                == u32_le_bytes(l[i]),
    decreases l.len(),
{
    if l.len() > 0 {
        let init = l.drop_last();
        lemma_selector_bytes(init);
        assert forall|i: int| 0 <= i < l.len() implies #[trigger] selector_bytes(l).subrange(
            4 * i,
            4 * i + 4,
        ) == u32_le_bytes(l[i]) by {
            if i < init.len() {
                assert(selector_bytes(l).subrange(4 * i, 4 * i + 4) =~= selector_bytes(init).subrange(
                    4 * i,
                    4 * i + 4,
                ));
            } else {
                assert(selector_bytes(l).subrange(4 * i, 4 * i + 4) =~= u32_le_bytes(l.last()));
            }
        }
    }
}

/// Each PMKID of sixteen bytes stands at sixteen times its index.
#[verifier::spinoff_prover]
proof fn lemma_pmkid_bytes(l: Seq<Seq<u8>>)
    requires
        forall|i: int| 0 <= i < l.len() ==> #[trigger] l[i].len() == 16,
    ensures
        pmkid_bytes(l).len() == 16 * l.len(),
        forall|i: int|
            0 <= i < l.len() ==> #[trigger] pmkid_bytes(l).subrange(16 * i, 16 * i + 16) == l[i],
    decreases l.len(),
{
    if l.len() > 0 {
        let init = l.drop_last();
        assert forall|i: int| 0 <= i < init.len() implies #[trigger] init[i].len() == 16 by {
            assert(init[i] == l[i]);
        }
        lemma_pmkid_bytes(init);
        assert(l.last().len() == 16);
        assert forall|i: int| 0 <= i < l.len() implies #[trigger] pmkid_bytes(l).subrange(
            16 * i,
            16 * i + 16,
        ) == l[i] by {
            if i < init.len() {
                assert(pmkid_bytes(l).subrange(16 * i, 16 * i + 16) =~= pmkid_bytes(init).subrange(
                    16 * i,
                    16 * i + 16,
                ));
            } else {
                assert(pmkid_bytes(l).subrange(16 * i, 16 * i + 16) =~= l.last());
            }
        }
    }
}

/// Reading the selectors back where they were written.
proof fn lemma_read_selectors(s: Seq<u8>, o: int, l: Seq<u32>)
    requires
        0 <= o,
        o + 4 * l.len() <= s.len(),
        s.subrange(o, o + 4 * l.len()) == selector_bytes(l),
    ensures
        forall|i: int| 0 <= i < l.len() ==> #[trigger] le_u32(s, o + 4 * i) == l[i],
{
    lemma_selector_bytes(l);
    assert forall|i: int| 0 <= i < l.len() implies #[trigger] le_u32(s, o + 4 * i) == l[i] by {
        assert(s.subrange(o + 4 * i, o + 4 * i + 4) =~= selector_bytes(l).subrange(4 * i, 4 * i + 4));
        lemma_u32_at(s, o + 4 * i, l[i]);
    }
}

/// The cipher suites are read back as written, when each is the value its selector gives.
proof fn lemma_read_cipher_suites(s: Seq<u8>, o: int, l: Seq<IEEE80211CipherSuiteSelector>)
    requires
        0 <= o,
        o + 4 * l.len() <= s.len(),
        s.subrange(o, o + 4 * l.len()) == selector_bytes(cipher_selectors(l)),
        forall|i: int| 0 <= i < l.len() ==> #[trigger] l[i].spec_canonical(),
    ensures
        parse_cipher_suites(s, o, l.len() as int) == l,
{
    lemma_read_selectors(s, o, cipher_selectors(l));
    assert forall|i: int| 0 <= i < l.len() implies #[trigger] parse_cipher_suites(s, o, l.len() as int)[i]
        == l[i] by {
        assert(le_u32(s, o + 4 * i) == cipher_selectors(l)[i]);
        assert(cipher_selectors(l)[i] == l[i].spec_selector());
        assert(l[i].spec_canonical());
    }
    assert(parse_cipher_suites(s, o, l.len() as int) =~= l);
}

/// The AKM suites are read back as written, when each is the value its selector gives.
proof fn lemma_read_akm_suites(s: Seq<u8>, o: int, l: Seq<IEEE80211AKMType>)
    requires
        0 <= o,
        o + 4 * l.len() <= s.len(),
        s.subrange(o, o + 4 * l.len()) == selector_bytes(akm_selectors(l)),
        forall|i: int| 0 <= i < l.len() ==> #[trigger] l[i].spec_canonical(),
    ensures
        parse_akm_suites(s, o, l.len() as int) == l,
{
    lemma_read_selectors(s, o, akm_selectors(l));
    assert forall|i: int| 0 <= i < l.len() implies #[trigger] parse_akm_suites(s, o, l.len() as int)[i]
        == l[i] by {
        assert(le_u32(s, o + 4 * i) == akm_selectors(l)[i]);
        assert(akm_selectors(l)[i] == l[i].spec_selector());
        assert(l[i].spec_canonical());
    }
    assert(parse_akm_suites(s, o, l.len() as int) =~= l);
}

/// The PMKIDs are read back as written.
proof fn lemma_read_pmkids(s: Seq<u8>, o: int, l: Seq<Seq<u8>>)
    requires
        0 <= o,
        forall|i: int| 0 <= i < l.len() ==> #[trigger] l[i].len() == 16,
        o + 16 * l.len() <= s.len(),
        s.subrange(o, o + 16 * l.len()) == pmkid_bytes(l),
    ensures
        parse_pmkids(s, o, 16 * l.len() as int) == l,
{
    lemma_pmkid_bytes(l);
    let n = l.len() as int;
    assert((16 * n) / 16 == n) by (nonlinear_arith);
    assert forall|i: int| 0 <= i < n implies #[trigger] parse_pmkids(s, o, 16 * n)[i] == l[i] by {
        assert(s.subrange(o + 16 * i, o + 16 * i + 16) =~= pmkid_bytes(l).subrange(16 * i, 16 * i + 16));
    }
    assert(parse_pmkids(s, o, 16 * n) =~= l);
}

/// The fields of `v` can be written and read back: once a field is missing, so are all later
/// ones; each suite is the value its selector gives; each PMKID has sixteen bytes; and the
/// counts of the lists fit in sixteen bits.
pub open spec fn rsn_view_wf(v: RSNElementView) -> bool {
    &&& v.0 is None ==> v.1 is None
    &&& v.1 is None ==> v.2 is None
    &&& v.2 is None ==> v.3 is None
    &&& v.3 is None ==> v.4 is None
    &&& v.4 is None ==> v.5 is None
    &&& v.0 matches Some(g) ==> g.spec_canonical()
    &&& v.1 matches Some(l) ==> l.len() * 4 < 0x1_0000 && forall|i: int|
        0 <= i < l.len() ==> #[trigger] l[i].spec_canonical()
    &&& v.2 matches Some(l) ==> l.len() * 4 < 0x1_0000 && forall|i: int|
        0 <= i < l.len() ==> #[trigger] l[i].spec_canonical()
    &&& v.4 matches Some(l) ==> l.len() < 0x1_0000 && forall|i: int|
        0 <= i < l.len() ==> #[trigger] l[i].len() == 16
    &&& v.5 matches Some(g) ==> g.spec_canonical()
}

/// Reading the group management cipher suite back.
proof fn lemma_rsn_stage5(s: Seq<u8>, o: int, v: RSNElementView)
    requires
        rsn_view_wf(v),
        0 <= o,
        s.len() == o + rsn_tail5(v).len(),
        s.subrange(o, s.len() as int) == rsn_tail5(v),
    ensures
        parse_rsn_group_management(s, o, (v.0, v.1, v.2, v.3, v.4, None)) == (v, s.len() as int),
{
    if let Some(gm) = v.5 {
        lemma_u32_at(s, o, gm.spec_selector());
    }
}

/// Reading the PMKID list back, and what follows it.
proof fn lemma_rsn_stage4(s: Seq<u8>, o: int, v: RSNElementView)
    requires
        rsn_view_wf(v),
        0 <= o,
        s.len() == o + rsn_tail4(v).len(),
        s.subrange(o, s.len() as int) == rsn_tail4(v),
    ensures
        parse_rsn_pmkids(s, o, (v.0, v.1, v.2, v.3, None, None)) == (v, s.len() as int),
{
    if let Some(pm) = v.4 {
        lemma_pmkid_bytes(pm);
        let n = pm.len() as int;
        let t = rsn_tail4(v);
        let k = 2 + 16 * n;
        lemma_subrange_of(s, o, t, 0, 2);
        assert(t.subrange(0, 2) =~= u16_le_bytes(n as u16));
        lemma_u16_at(s, o, n as u16);
        lemma_subrange_of(s, o, t, 2, k);
        assert(t.subrange(2, k) =~= pmkid_bytes(pm));
        lemma_read_pmkids(s, o + 2, pm);
        lemma_subrange_of(s, o, t, k, t.len() as int);
        assert(t.subrange(k, t.len() as int) =~= rsn_tail5(v));
        lemma_rsn_stage5(s, o + k, v);
    }
}

/// Reading the capabilities back, and what follows them.
proof fn lemma_rsn_stage3(s: Seq<u8>, o: int, v: RSNElementView)
    requires
        rsn_view_wf(v),
        0 <= o,
        s.len() == o + rsn_tail3(v).len(),
        s.subrange(o, s.len() as int) == rsn_tail3(v),
    ensures
        parse_rsn_capabilities(s, o, (v.0, v.1, v.2, None, None, None)) == (v, s.len() as int),
{
    if let Some(c) = v.3 {
        let t = rsn_tail3(v);
        lemma_subrange_of(s, o, t, 0, 2);
        assert(t.subrange(0, 2) =~= u16_le_bytes(c.0));
        lemma_u16_at(s, o, c.0);
        lemma_subrange_of(s, o, t, 2, t.len() as int);
        assert(t.subrange(2, t.len() as int) =~= rsn_tail4(v));
        lemma_rsn_stage4(s, o + 2, v);
    }
}

/// Reading the AKM list back, and what follows it.
proof fn lemma_rsn_stage2(s: Seq<u8>, o: int, v: RSNElementView)
    requires
        rsn_view_wf(v),
        0 <= o,
        s.len() == o + rsn_tail2(v).len(),
        s.subrange(o, s.len() as int) == rsn_tail2(v),
    ensures
        parse_rsn_akms(s, o, (v.0, v.1, None, None, None, None)) == (v, s.len() as int),
{
    if let Some(al) = v.2 {
        let als = akm_selectors(al);
        lemma_selector_bytes(als);
        lemma_list_count_4(al.len() as int);
        let n = al.len() as int;
        let t = rsn_tail2(v);
        let k = 2 + 4 * n;
        lemma_subrange_of(s, o, t, 0, 2);
        assert(t.subrange(0, 2) =~= u16_le_bytes(n as u16));
        lemma_u16_at(s, o, n as u16);
        lemma_subrange_of(s, o, t, 2, k);
        assert(t.subrange(2, k) =~= selector_bytes(als));
        lemma_read_akm_suites(s, o + 2, al);
        lemma_subrange_of(s, o, t, k, t.len() as int);
        assert(t.subrange(k, t.len() as int) =~= rsn_tail3(v));
        lemma_rsn_stage3(s, o + k, v);
    }
}

/// Reading the pairwise cipher suite list back, and what follows it.
proof fn lemma_rsn_stage1(s: Seq<u8>, o: int, v: RSNElementView)
    requires
        rsn_view_wf(v),
        0 <= o,
        s.len() == o + rsn_tail1(v).len(),
        s.subrange(o, s.len() as int) == rsn_tail1(v),
    ensures
        parse_rsn_pairwise(s, o, (v.0, None, None, None, None, None)) == (v, s.len() as int),
{
    if let Some(pl) = v.1 {
        let pls = cipher_selectors(pl);
        lemma_selector_bytes(pls);
        lemma_list_count_4(pl.len() as int);
        let n = pl.len() as int;
        let t = rsn_tail1(v);
        let k = 2 + 4 * n;
        lemma_subrange_of(s, o, t, 0, 2);
        assert(t.subrange(0, 2) =~= u16_le_bytes(n as u16));
        lemma_u16_at(s, o, n as u16);
        lemma_subrange_of(s, o, t, 2, k);
        assert(t.subrange(2, k) =~= selector_bytes(pls));
        lemma_read_cipher_suites(s, o + 2, pl);
        lemma_subrange_of(s, o, t, k, t.len() as int);
        assert(t.subrange(k, t.len() as int) =~= rsn_tail2(v));
        lemma_rsn_stage2(s, o + k, v);
    }
}

/// Reading a written RSN element body gives back the fields that were written, and the number
/// of bytes written.
pub proof fn lemma_rsn_roundtrip(v: RSNElementView)
    requires
        rsn_view_wf(v),
    ensures
        parse_rsn(rsn_bytes(v)) == Ok::<(RSNElementView, int), Error>((v, rsn_bytes(v).len() as int)),
{
    let s = rsn_bytes(v);
    assert(s.subrange(0, 2) =~= u16_le_bytes(1));
    lemma_u16_at(s, 0, 1);
    if let Some(g) = v.0 {
        assert(s.subrange(2, 6) =~= u32_le_bytes(g.spec_selector()));
        lemma_u32_at(s, 2, g.spec_selector());
        assert(s.subrange(6, s.len() as int) =~= rsn_tail1(v));
        lemma_rsn_stage1(s, 6, v);
    }
}

impl Element for RSNElement {
    type ReadType<'a> = RSNElement;

    open spec fn spec_body(&self) -> Seq<u8> {
        rsn_bytes(self@)
    }

    fn body_bytes(&self) -> (r: Vec<u8>) {
        self.to_bytes()
    }

    open spec fn spec_element_id() -> ElementID {
        ElementID::Id(0x30)
    }

    open spec fn spec_read<'a>(body: Seq<u8>, r: Option<RSNElement>) -> bool {
        match parse_rsn(body) {
            Ok((v, _)) => r matches Some(e) && e@ == v,
            Err(_) => r is None,
        }
    }

    fn element_id() -> (r: ElementID) {
        ElementID::Id(0x30)
    }

    fn read<'a>(body: &'a [u8]) -> (r: Option<RSNElement>) {
        match RSNElement::try_from_ctx(body) {
            Ok((e, _)) => Some(e),
            Err(_) => None,
        }
    }
}


/// Whether two vectors of cipher suites are the same.
fn cipher_suite_vecs_equal(x: &Vec<IEEE80211CipherSuiteSelector>, y: &Vec<IEEE80211CipherSuiteSelector>) -> (r:
    bool)
    ensures
        r == (x@ == y@),
{
    if x.len() != y.len() {
        return false;
    }
    let mut i: usize = 0;
    while i < x.len()
        invariant
            i <= x@.len(),
            x@.len() == y@.len(),
            forall|j: int| 0 <= j < i ==> x@[j] == y@[j],
        decreases x@.len() - i,
    {
        if x[i] != y[i] {
            assert(x@[i as int] != y@[i as int]);
            return false;
        }
        i = i + 1;
    }
    assert(x@ =~= y@);
    true
}

/// Whether two vectors of AKM suites are the same.
fn akm_vecs_equal(x: &Vec<IEEE80211AKMType>, y: &Vec<IEEE80211AKMType>) -> (r: bool)
    ensures
        r == (x@ == y@),
{
    if x.len() != y.len() {
        return false;
    }
    let mut i: usize = 0;
    while i < x.len()
        invariant
            i <= x@.len(),
            x@.len() == y@.len(),
            forall|j: int| 0 <= j < i ==> x@[j] == y@[j],
        decreases x@.len() - i,
    {
        if x[i] != y[i] {
            assert(x@[i as int] != y@[i as int]);
            return false;
        }
        i = i + 1;
    }
    assert(x@ =~= y@);
    true
}

/// Whether two vectors of PMKIDs hold the same bytes.
fn pmkid_vecs_equal(x: &Vec<IEEE80211PMKID>, y: &Vec<IEEE80211PMKID>) -> (r: bool)
    ensures
        r == (pmkid_bytes_list(x@) == pmkid_bytes_list(y@)),
{
    if x.len() != y.len() {
        assert(pmkid_bytes_list(x@).len() != pmkid_bytes_list(y@).len());
        return false;
    }
    let mut i: usize = 0;
    while i < x.len()
        invariant
            i <= x@.len(),
            x@.len() == y@.len(),
            forall|j: int| 0 <= j < i ==> x@[j].0@ == y@[j].0@,
        decreases x@.len() - i,
    {
        let mut k: usize = 0;
        while k < 16
            invariant
                k <= 16,
                i < x@.len() == y@.len(),
                forall|l: int| 0 <= l < k ==> x@[i as int].0@[l] == y@[i as int].0@[l],
            decreases 16 - k,
        {
            if x[i].0[k] != y[i].0[k] {
                assert(pmkid_bytes_list(x@)[i as int][k as int] != pmkid_bytes_list(
                    y@,
                )[i as int][k as int]);
                return false;
            }
            k = k + 1;
        }
        assert(x@[i as int].0@ =~= y@[i as int].0@);
        i = i + 1;
    }
    assert(pmkid_bytes_list(x@) =~= pmkid_bytes_list(y@));
    true
}

impl PartialEq for RSNElement {
    /// Two elements are equal if all their fields are, the lists compared item by item.
    fn eq(&self, other: &Self) -> (r: bool) {
        if self.group_data_cipher_suite != other.group_data_cipher_suite
            || self.rsn_capbilities != other.rsn_capbilities
            || self.group_management_cipher_suite != other.group_management_cipher_suite {
            return false;
        }
        let pairwise = match (&self.pairwise_cipher_suite_list, &other.pairwise_cipher_suite_list) {
            (Some(x), Some(y)) => cipher_suite_vecs_equal(x, y),
            (None, None) => true,
            _ => false,
        };
        let akm = match (&self.akm_list, &other.akm_list) {
            (Some(x), Some(y)) => akm_vecs_equal(x, y),
            (None, None) => true,
            _ => false,
        };
        let pmkid = match (&self.pmkid_list, &other.pmkid_list) {
            (Some(x), Some(y)) => pmkid_vecs_equal(x, y),
            (None, None) => true,
            _ => false,
        };
        pairwise && akm && pmkid
    }
}

impl PartialEqSpecImpl for RSNElement {
    open spec fn obeys_eq_spec() -> bool {
        true
    }

    open spec fn eq_spec(&self, other: &Self) -> bool {
        self@ == other@
    }
}


impl ListItem for IEEE80211CipherSuiteSelector {
    open spec fn spec_item_size() -> nat {
        4
    }

    fn item_size() -> (r: usize) {
        4
    }

    open spec fn spec_read_item(bytes: Seq<u8>) -> Option<(Self, nat)> {
        if bytes.len() < 4 {
            None
        } else {
            Some((Self::spec_with_selector(le_u32(bytes, 0)), 4))
        }
    }

    fn read_item(bytes: &[u8]) -> (r: Option<(Self, usize)>) {
        match Self::try_from_ctx(bytes) {
            Ok((item, n)) => Some((item, n)),
            Err(_) => None,
        }
    }
}

impl ListItem for IEEE80211AKMType {
    open spec fn spec_item_size() -> nat {
        4
    }

    fn item_size() -> (r: usize) {
        4
    }

    open spec fn spec_read_item(bytes: Seq<u8>) -> Option<(Self, nat)> {
        if bytes.len() < 4 {
            None
        } else {
            Some((Self::spec_with_selector(le_u32(bytes, 0)), 4))
        }
    }

    fn read_item(bytes: &[u8]) -> (r: Option<(Self, usize)>) {
        match Self::try_from_ctx(bytes) {
            Ok((item, n)) => Some((item, n)),
            Err(_) => None,
        }
    }
}

impl ListItem for IEEE80211PMKID {
    open spec fn spec_item_size() -> nat {
        16
    }

    fn item_size() -> (r: usize) {
        16
    }

    open spec fn spec_read_item(bytes: Seq<u8>) -> Option<(Self, nat)> {
        if bytes.len() < 16 {
            None
        } else {
            Some((choose|p: IEEE80211PMKID| p.0@ == bytes.take(16), 16))
        }
    }

    fn read_item(bytes: &[u8]) -> (r: Option<(Self, usize)>) {
        match Self::try_from_ctx(bytes) {
            Ok((item, n)) => {
                proof {
                    let chosen = choose|p: IEEE80211PMKID| p.0@ == bytes@.take(16);
                    assert(item.0@ == bytes@.take(16));
                    assert(chosen.0@ == bytes@.take(16));
                    assert(chosen.0 =~= item.0);
                }
                Some((item, n))
            },
            Err(_) => None,
        }
    }
}

/// The selectors of the cipher suites: each named suite is read from, and written as, the IEEE
/// OUI 00-0F-AC followed by its own suite type (as a little-endian number, the suite type is the
/// high byte), and any other selector is kept as an unknown suite.
pub proof fn lemma_cipher_suite_selectors(selector: u32)
    ensures
        (IEEE80211CipherSuiteSelector::spec_with_selector(selector) == IEEE80211CipherSuiteSelector::UseGroupCipherSuite) == (selector == 0x00_ac0f00),
        (IEEE80211CipherSuiteSelector::spec_with_selector(selector) == IEEE80211CipherSuiteSelector::Wep40) == (selector == 0x01_ac0f00),
        (IEEE80211CipherSuiteSelector::spec_with_selector(selector) == IEEE80211CipherSuiteSelector::Tkip) == (selector == 0x02_ac0f00),
        (IEEE80211CipherSuiteSelector::spec_with_selector(selector) == IEEE80211CipherSuiteSelector::Ccmp128) == (selector == 0x04_ac0f00),
        (IEEE80211CipherSuiteSelector::spec_with_selector(selector) == IEEE80211CipherSuiteSelector::Wep104) == (selector == 0x05_ac0f00),
        (IEEE80211CipherSuiteSelector::spec_with_selector(selector) == IEEE80211CipherSuiteSelector::BipCmac128) == (selector == 0x06_ac0f00),
        (IEEE80211CipherSuiteSelector::spec_with_selector(selector) == IEEE80211CipherSuiteSelector::GroupAddessedTrafficNotAllowed) == (selector == 0x07_ac0f00),
        (IEEE80211CipherSuiteSelector::spec_with_selector(selector) == IEEE80211CipherSuiteSelector::Gcmp128) == (selector == 0x08_ac0f00),
        (IEEE80211CipherSuiteSelector::spec_with_selector(selector) == IEEE80211CipherSuiteSelector::Gcmp256) == (selector == 0x09_ac0f00),
        (IEEE80211CipherSuiteSelector::spec_with_selector(selector) == IEEE80211CipherSuiteSelector::Ccmp256) == (selector == 0x0a_ac0f00),
        (IEEE80211CipherSuiteSelector::spec_with_selector(selector) == IEEE80211CipherSuiteSelector::BIPGcmp128) == (selector == 0x0b_ac0f00),
        (IEEE80211CipherSuiteSelector::spec_with_selector(selector) == IEEE80211CipherSuiteSelector::BIPGcmp256) == (selector == 0x0c_ac0f00),
        (IEEE80211CipherSuiteSelector::spec_with_selector(selector) == IEEE80211CipherSuiteSelector::BIPCcmp256) == (selector == 0x0d_ac0f00),
        IEEE80211CipherSuiteSelector::UseGroupCipherSuite.spec_selector() == 0x00_ac0f00,
        IEEE80211CipherSuiteSelector::Wep40.spec_selector() == 0x01_ac0f00,
        IEEE80211CipherSuiteSelector::Tkip.spec_selector() == 0x02_ac0f00,
        IEEE80211CipherSuiteSelector::Ccmp128.spec_selector() == 0x04_ac0f00,
        IEEE80211CipherSuiteSelector::Wep104.spec_selector() == 0x05_ac0f00,
        IEEE80211CipherSuiteSelector::BipCmac128.spec_selector() == 0x06_ac0f00,
        IEEE80211CipherSuiteSelector::GroupAddessedTrafficNotAllowed.spec_selector() == 0x07_ac0f00,
        IEEE80211CipherSuiteSelector::Gcmp128.spec_selector() == 0x08_ac0f00,
        IEEE80211CipherSuiteSelector::Gcmp256.spec_selector() == 0x09_ac0f00,
        IEEE80211CipherSuiteSelector::Ccmp256.spec_selector() == 0x0a_ac0f00,
        IEEE80211CipherSuiteSelector::BIPGcmp128.spec_selector() == 0x0b_ac0f00,
        IEEE80211CipherSuiteSelector::BIPGcmp256.spec_selector() == 0x0c_ac0f00,
        IEEE80211CipherSuiteSelector::BIPCcmp256.spec_selector() == 0x0d_ac0f00,
        (IEEE80211CipherSuiteSelector::spec_with_selector(selector) == (IEEE80211CipherSuiteSelector::Unknown { cipher_suite_selector: selector }))
 == !(
            selector == 0x00_ac0f00 || selector == 0x01_ac0f00 || selector == 0x02_ac0f00 ||
            selector == 0x04_ac0f00 || selector == 0x05_ac0f00 || selector == 0x06_ac0f00 ||
            selector == 0x07_ac0f00 || selector == 0x08_ac0f00 || selector == 0x09_ac0f00 ||
            selector == 0x0a_ac0f00 || selector == 0x0b_ac0f00 || selector == 0x0c_ac0f00 ||
            selector == 0x0d_ac0f00),
{
}

/// The temporal key and MIC lengths of each cipher suite, in bytes: 5 and 13 bytes of key for
/// WEP-40 and WEP-104, 32 for TKIP, GCMP-256, CCMP-256, BIP-GMAC-256 and BIP-CMAC-256, 16 for
/// CCMP-128, BIP-CMAC-128, GCMP-128 and BIP-GMAC-128; a MIC of 8 bytes for TKIP, CCMP-128 and
/// BIP-CMAC-128 and of 16 for the GCMP, CCMP-256 and BIP-GMAC/CMAC-256 suites; none for the
/// others.
pub proof fn lemma_cipher_suite_key_lengths(c: IEEE80211CipherSuiteSelector)
    ensures
        IEEE80211CipherSuiteSelector::UseGroupCipherSuite.spec_tk_len() == None::<usize>,
        IEEE80211CipherSuiteSelector::UseGroupCipherSuite.spec_mic_len() == None::<usize>,
        IEEE80211CipherSuiteSelector::Wep40.spec_tk_len() == Some(5usize),
        IEEE80211CipherSuiteSelector::Wep40.spec_mic_len() == None::<usize>,
        IEEE80211CipherSuiteSelector::Tkip.spec_tk_len() == Some(32usize),
        IEEE80211CipherSuiteSelector::Tkip.spec_mic_len() == Some(8usize),
        IEEE80211CipherSuiteSelector::Ccmp128.spec_tk_len() == Some(16usize),
        IEEE80211CipherSuiteSelector::Ccmp128.spec_mic_len() == Some(8usize),
        IEEE80211CipherSuiteSelector::Wep104.spec_tk_len() == Some(13usize),
        IEEE80211CipherSuiteSelector::Wep104.spec_mic_len() == None::<usize>,
        IEEE80211CipherSuiteSelector::BipCmac128.spec_tk_len() == Some(16usize),
        IEEE80211CipherSuiteSelector::BipCmac128.spec_mic_len() == Some(8usize),
        IEEE80211CipherSuiteSelector::GroupAddessedTrafficNotAllowed.spec_tk_len() == None::<usize>,
        IEEE80211CipherSuiteSelector::GroupAddessedTrafficNotAllowed.spec_mic_len() == None::<usize>,
        IEEE80211CipherSuiteSelector::Gcmp128.spec_tk_len() == Some(16usize),
        IEEE80211CipherSuiteSelector::Gcmp128.spec_mic_len() == Some(16usize),
        IEEE80211CipherSuiteSelector::Gcmp256.spec_tk_len() == Some(32usize),
        IEEE80211CipherSuiteSelector::Gcmp256.spec_mic_len() == Some(16usize),
        IEEE80211CipherSuiteSelector::Ccmp256.spec_tk_len() == Some(32usize),
        IEEE80211CipherSuiteSelector::Ccmp256.spec_mic_len() == Some(16usize),
        IEEE80211CipherSuiteSelector::BIPGcmp128.spec_tk_len() == Some(16usize),
        IEEE80211CipherSuiteSelector::BIPGcmp128.spec_mic_len() == Some(16usize),
        IEEE80211CipherSuiteSelector::BIPGcmp256.spec_tk_len() == Some(32usize),
        IEEE80211CipherSuiteSelector::BIPGcmp256.spec_mic_len() == Some(16usize),
        IEEE80211CipherSuiteSelector::BIPCcmp256.spec_tk_len() == Some(32usize),
        IEEE80211CipherSuiteSelector::BIPCcmp256.spec_mic_len() == Some(16usize),
        c is Unknown && c.spec_canonical() ==> c.spec_tk_len() is None,
        c is Unknown && c.spec_canonical() ==> c.spec_mic_len() is None,
{
}

/// The selectors of the AKM suites: each named suite is read from, and written as, the IEEE
/// OUI 00-0F-AC followed by its own suite type (as a little-endian number, the suite type is the
/// high byte), and any other selector is kept as an unknown suite.
pub proof fn lemma_akm_suite_selectors(selector: u32)
    ensures
        (IEEE80211AKMType::spec_with_selector(selector) == IEEE80211AKMType::NoAKM) == (selector == 0x00_ac0f00),
        (IEEE80211AKMType::spec_with_selector(selector) == IEEE80211AKMType::Wpa) == (selector == 0x01_ac0f00),
        (IEEE80211AKMType::spec_with_selector(selector) == IEEE80211AKMType::Psk) == (selector == 0x02_ac0f00),
        (IEEE80211AKMType::spec_with_selector(selector) == IEEE80211AKMType::FTOverIEEE8021X) == (selector == 0x03_ac0f00),
        (IEEE80211AKMType::spec_with_selector(selector) == IEEE80211AKMType::FTUsingPsk) == (selector == 0x04_ac0f00),
        (IEEE80211AKMType::spec_with_selector(selector) == IEEE80211AKMType::WpaSha256) == (selector == 0x05_ac0f00),
        (IEEE80211AKMType::spec_with_selector(selector) == IEEE80211AKMType::PskSha256) == (selector == 0x06_ac0f00),
        (IEEE80211AKMType::spec_with_selector(selector) == IEEE80211AKMType::Tdls) == (selector == 0x07_ac0f00),
        (IEEE80211AKMType::spec_with_selector(selector) == IEEE80211AKMType::Sae) == (selector == 0x08_ac0f00),
        (IEEE80211AKMType::spec_with_selector(selector) == IEEE80211AKMType::FTUsingSae) == (selector == 0x09_ac0f00),
        (IEEE80211AKMType::spec_with_selector(selector) == IEEE80211AKMType::APPeerKey) == (selector == 0x0a_ac0f00),
        (IEEE80211AKMType::spec_with_selector(selector) == IEEE80211AKMType::WpaSha256SuiteB) == (selector == 0x0b_ac0f00),
        (IEEE80211AKMType::spec_with_selector(selector) == IEEE80211AKMType::WpaSha384SuiteB) == (selector == 0x0c_ac0f00),
        (IEEE80211AKMType::spec_with_selector(selector) == IEEE80211AKMType::FTOverIEEE8021XSha384) == (selector == 0x0d_ac0f00),
        (IEEE80211AKMType::spec_with_selector(selector) == IEEE80211AKMType::FilsSha256Aes256) == (selector == 0x0e_ac0f00),
        (IEEE80211AKMType::spec_with_selector(selector) == IEEE80211AKMType::FilsSha384Aes512) == (selector == 0x0f_ac0f00),
        (IEEE80211AKMType::spec_with_selector(selector) == IEEE80211AKMType::FTOverFilsSha256Aes256) == (selector == 0x10_ac0f00),
        (IEEE80211AKMType::spec_with_selector(selector) == IEEE80211AKMType::FTOverFilsSha384Aes512) == (selector == 0x11_ac0f00),
        (IEEE80211AKMType::spec_with_selector(selector) == IEEE80211AKMType::OpportunisticWirelessEncryption) == (selector == 0x12_ac0f00),
        (IEEE80211AKMType::spec_with_selector(selector) == IEEE80211AKMType::FTUsingPskSha384) == (selector == 0x13_ac0f00),
        (IEEE80211AKMType::spec_with_selector(selector) == IEEE80211AKMType::PskSha384) == (selector == 0x14_ac0f00),
        (IEEE80211AKMType::spec_with_selector(selector) == IEEE80211AKMType::Pasn) == (selector == 0x15_ac0f00),
        (IEEE80211AKMType::spec_with_selector(selector) == IEEE80211AKMType::SaeGroupDefend) == (selector == 0x16_ac0f00),
        (IEEE80211AKMType::spec_with_selector(selector) == IEEE80211AKMType::FTUsingSaeGroupDefend) == (selector == 0x17_ac0f00),
        IEEE80211AKMType::NoAKM.spec_selector() == 0x00_ac0f00,
        IEEE80211AKMType::Wpa.spec_selector() == 0x01_ac0f00,
        IEEE80211AKMType::Psk.spec_selector() == 0x02_ac0f00,
        IEEE80211AKMType::FTOverIEEE8021X.spec_selector() == 0x03_ac0f00,
        IEEE80211AKMType::FTUsingPsk.spec_selector() == 0x04_ac0f00,
        IEEE80211AKMType::WpaSha256.spec_selector() == 0x05_ac0f00,
        IEEE80211AKMType::PskSha256.spec_selector() == 0x06_ac0f00,
        IEEE80211AKMType::Tdls.spec_selector() == 0x07_ac0f00,
        IEEE80211AKMType::Sae.spec_selector() == 0x08_ac0f00,
        IEEE80211AKMType::FTUsingSae.spec_selector() == 0x09_ac0f00,
        IEEE80211AKMType::APPeerKey.spec_selector() == 0x0a_ac0f00,
        IEEE80211AKMType::WpaSha256SuiteB.spec_selector() == 0x0b_ac0f00,
        IEEE80211AKMType::WpaSha384SuiteB.spec_selector() == 0x0c_ac0f00,
        IEEE80211AKMType::FTOverIEEE8021XSha384.spec_selector() == 0x0d_ac0f00,
        IEEE80211AKMType::FilsSha256Aes256.spec_selector() == 0x0e_ac0f00,
        IEEE80211AKMType::FilsSha384Aes512.spec_selector() == 0x0f_ac0f00,
        IEEE80211AKMType::FTOverFilsSha256Aes256.spec_selector() == 0x10_ac0f00,
        IEEE80211AKMType::FTOverFilsSha384Aes512.spec_selector() == 0x11_ac0f00,
        IEEE80211AKMType::OpportunisticWirelessEncryption.spec_selector() == 0x12_ac0f00,
        IEEE80211AKMType::FTUsingPskSha384.spec_selector() == 0x13_ac0f00,
        IEEE80211AKMType::PskSha384.spec_selector() == 0x14_ac0f00,
        IEEE80211AKMType::Pasn.spec_selector() == 0x15_ac0f00,
        IEEE80211AKMType::SaeGroupDefend.spec_selector() == 0x16_ac0f00,
        IEEE80211AKMType::FTUsingSaeGroupDefend.spec_selector() == 0x17_ac0f00,
        (IEEE80211AKMType::spec_with_selector(selector) == (IEEE80211AKMType::Unknown { cipher_suite_selector: selector }))
 == !(
            selector == 0x00_ac0f00 || selector == 0x01_ac0f00 || selector == 0x02_ac0f00 ||
            selector == 0x03_ac0f00 || selector == 0x04_ac0f00 || selector == 0x05_ac0f00 ||
            selector == 0x06_ac0f00 || selector == 0x07_ac0f00 || selector == 0x08_ac0f00 ||
            selector == 0x09_ac0f00 || selector == 0x0a_ac0f00 || selector == 0x0b_ac0f00 ||
            selector == 0x0c_ac0f00 || selector == 0x0d_ac0f00 || selector == 0x0e_ac0f00 ||
            selector == 0x0f_ac0f00 || selector == 0x10_ac0f00 || selector == 0x11_ac0f00 ||
            selector == 0x12_ac0f00 || selector == 0x13_ac0f00 || selector == 0x14_ac0f00 ||
            selector == 0x15_ac0f00 || selector == 0x16_ac0f00 || selector == 0x17_ac0f00),
{
}

/// The key lengths of each AKM suite, in bytes: the KCK, KEK, KCK2, KEK2 and key MIC.
pub proof fn lemma_akm_key_lengths(c: IEEE80211AKMType)
    ensures
        IEEE80211AKMType::NoAKM.spec_kck_len() == None::<usize>,
        IEEE80211AKMType::NoAKM.spec_kek_len() == None::<usize>,
        IEEE80211AKMType::NoAKM.spec_kck2_len() == None::<usize>,
        IEEE80211AKMType::NoAKM.spec_kek2_len() == None::<usize>,
        IEEE80211AKMType::NoAKM.spec_key_mic_len() == None::<usize>,
        IEEE80211AKMType::Wpa.spec_kck_len() == Some(16usize),
        IEEE80211AKMType::Wpa.spec_kek_len() == Some(16usize),
        IEEE80211AKMType::Wpa.spec_kck2_len() == None::<usize>,
        IEEE80211AKMType::Wpa.spec_kek2_len() == None::<usize>,
        IEEE80211AKMType::Wpa.spec_key_mic_len() == Some(16usize),
        IEEE80211AKMType::Psk.spec_kck_len() == Some(16usize),
        IEEE80211AKMType::Psk.spec_kek_len() == Some(16usize),
        IEEE80211AKMType::Psk.spec_kck2_len() == None::<usize>,
        IEEE80211AKMType::Psk.spec_kek2_len() == None::<usize>,
        IEEE80211AKMType::Psk.spec_key_mic_len() == Some(16usize),
        IEEE80211AKMType::FTOverIEEE8021X.spec_kck_len() == Some(16usize),
        IEEE80211AKMType::FTOverIEEE8021X.spec_kek_len() == Some(16usize),
        IEEE80211AKMType::FTOverIEEE8021X.spec_kck2_len() == None::<usize>,
        IEEE80211AKMType::FTOverIEEE8021X.spec_kek2_len() == None::<usize>,
        IEEE80211AKMType::FTOverIEEE8021X.spec_key_mic_len() == Some(16usize),
        IEEE80211AKMType::FTUsingPsk.spec_kck_len() == Some(16usize),
        IEEE80211AKMType::FTUsingPsk.spec_kek_len() == Some(16usize),
        IEEE80211AKMType::FTUsingPsk.spec_kck2_len() == None::<usize>,
        IEEE80211AKMType::FTUsingPsk.spec_kek2_len() == None::<usize>,
        IEEE80211AKMType::FTUsingPsk.spec_key_mic_len() == Some(16usize),
        IEEE80211AKMType::WpaSha256.spec_kck_len() == Some(16usize),
        IEEE80211AKMType::WpaSha256.spec_kek_len() == Some(16usize),
        IEEE80211AKMType::WpaSha256.spec_kck2_len() == None::<usize>,
        IEEE80211AKMType::WpaSha256.spec_kek2_len() == None::<usize>,
        IEEE80211AKMType::WpaSha256.spec_key_mic_len() == Some(16usize),
        IEEE80211AKMType::PskSha256.spec_kck_len() == Some(16usize),
        IEEE80211AKMType::PskSha256.spec_kek_len() == Some(16usize),
        IEEE80211AKMType::PskSha256.spec_kck2_len() == None::<usize>,
        IEEE80211AKMType::PskSha256.spec_kek2_len() == None::<usize>,
        IEEE80211AKMType::PskSha256.spec_key_mic_len() == Some(16usize),
        IEEE80211AKMType::Tdls.spec_kck_len() == Some(16usize),
        IEEE80211AKMType::Tdls.spec_kek_len() == Some(16usize),
        IEEE80211AKMType::Tdls.spec_kck2_len() == None::<usize>,
        IEEE80211AKMType::Tdls.spec_kek2_len() == None::<usize>,
        IEEE80211AKMType::Tdls.spec_key_mic_len() == Some(16usize),
        IEEE80211AKMType::Sae.spec_kck_len() == Some(16usize),
        IEEE80211AKMType::Sae.spec_kek_len() == Some(16usize),
        IEEE80211AKMType::Sae.spec_kck2_len() == None::<usize>,
        IEEE80211AKMType::Sae.spec_kek2_len() == None::<usize>,
        IEEE80211AKMType::Sae.spec_key_mic_len() == Some(16usize),
        IEEE80211AKMType::FTUsingSae.spec_kck_len() == Some(16usize),
        IEEE80211AKMType::FTUsingSae.spec_kek_len() == Some(16usize),
        IEEE80211AKMType::FTUsingSae.spec_kck2_len() == None::<usize>,
        IEEE80211AKMType::FTUsingSae.spec_kek2_len() == None::<usize>,
        IEEE80211AKMType::FTUsingSae.spec_key_mic_len() == Some(16usize),
        IEEE80211AKMType::APPeerKey.spec_kck_len() == Some(16usize),
        IEEE80211AKMType::APPeerKey.spec_kek_len() == Some(16usize),
        IEEE80211AKMType::APPeerKey.spec_kck2_len() == None::<usize>,
        IEEE80211AKMType::APPeerKey.spec_kek2_len() == None::<usize>,
        IEEE80211AKMType::APPeerKey.spec_key_mic_len() == Some(16usize),
        IEEE80211AKMType::WpaSha256SuiteB.spec_kck_len() == Some(16usize),
        IEEE80211AKMType::WpaSha256SuiteB.spec_kek_len() == Some(16usize),
        IEEE80211AKMType::WpaSha256SuiteB.spec_kck2_len() == None::<usize>,
        IEEE80211AKMType::WpaSha256SuiteB.spec_kek2_len() == None::<usize>,
        IEEE80211AKMType::WpaSha256SuiteB.spec_key_mic_len() == Some(16usize),
        IEEE80211AKMType::WpaSha384SuiteB.spec_kck_len() == Some(24usize),
        IEEE80211AKMType::WpaSha384SuiteB.spec_kek_len() == Some(32usize),
        IEEE80211AKMType::WpaSha384SuiteB.spec_kck2_len() == None::<usize>,
        IEEE80211AKMType::WpaSha384SuiteB.spec_kek2_len() == None::<usize>,
        IEEE80211AKMType::WpaSha384SuiteB.spec_key_mic_len() == Some(24usize),
        IEEE80211AKMType::FTOverIEEE8021XSha384.spec_kck_len() == Some(24usize),
        IEEE80211AKMType::FTOverIEEE8021XSha384.spec_kek_len() == Some(32usize),
        IEEE80211AKMType::FTOverIEEE8021XSha384.spec_kck2_len() == None::<usize>,
        IEEE80211AKMType::FTOverIEEE8021XSha384.spec_kek2_len() == None::<usize>,
        IEEE80211AKMType::FTOverIEEE8021XSha384.spec_key_mic_len() == Some(24usize),
        IEEE80211AKMType::FilsSha256Aes256.spec_kck_len() == None::<usize>,
        IEEE80211AKMType::FilsSha256Aes256.spec_kek_len() == Some(32usize),
        IEEE80211AKMType::FilsSha256Aes256.spec_kck2_len() == None::<usize>,
        IEEE80211AKMType::FilsSha256Aes256.spec_kek2_len() == None::<usize>,
        IEEE80211AKMType::FilsSha256Aes256.spec_key_mic_len() == Some(0usize),
        IEEE80211AKMType::FilsSha384Aes512.spec_kck_len() == None::<usize>,
        IEEE80211AKMType::FilsSha384Aes512.spec_kek_len() == Some(64usize),
        IEEE80211AKMType::FilsSha384Aes512.spec_kck2_len() == None::<usize>,
        IEEE80211AKMType::FilsSha384Aes512.spec_kek2_len() == None::<usize>,
        IEEE80211AKMType::FilsSha384Aes512.spec_key_mic_len() == Some(0usize),
        IEEE80211AKMType::FTOverFilsSha256Aes256.spec_kck_len() == None::<usize>,
        IEEE80211AKMType::FTOverFilsSha256Aes256.spec_kek_len() == Some(32usize),
        IEEE80211AKMType::FTOverFilsSha256Aes256.spec_kck2_len() == Some(16usize),
        IEEE80211AKMType::FTOverFilsSha256Aes256.spec_kek2_len() == Some(16usize),
        IEEE80211AKMType::FTOverFilsSha256Aes256.spec_key_mic_len() == Some(16usize),
        IEEE80211AKMType::FTOverFilsSha384Aes512.spec_kck_len() == None::<usize>,
        IEEE80211AKMType::FTOverFilsSha384Aes512.spec_kek_len() == Some(64usize),
        IEEE80211AKMType::FTOverFilsSha384Aes512.spec_kck2_len() == Some(24usize),
        IEEE80211AKMType::FTOverFilsSha384Aes512.spec_kek2_len() == Some(32usize),
        IEEE80211AKMType::FTOverFilsSha384Aes512.spec_key_mic_len() == Some(24usize),
        IEEE80211AKMType::OpportunisticWirelessEncryption.spec_kck_len() == None::<usize>,
        IEEE80211AKMType::OpportunisticWirelessEncryption.spec_kek_len() == None::<usize>,
        IEEE80211AKMType::OpportunisticWirelessEncryption.spec_kck2_len() == None::<usize>,
        IEEE80211AKMType::OpportunisticWirelessEncryption.spec_kek2_len() == None::<usize>,
        IEEE80211AKMType::OpportunisticWirelessEncryption.spec_key_mic_len() == None::<usize>,
        IEEE80211AKMType::FTUsingPskSha384.spec_kck_len() == None::<usize>,
        IEEE80211AKMType::FTUsingPskSha384.spec_kek_len() == None::<usize>,
        IEEE80211AKMType::FTUsingPskSha384.spec_kck2_len() == None::<usize>,
        IEEE80211AKMType::FTUsingPskSha384.spec_kek2_len() == None::<usize>,
        IEEE80211AKMType::FTUsingPskSha384.spec_key_mic_len() == None::<usize>,
        IEEE80211AKMType::PskSha384.spec_kck_len() == None::<usize>,
        IEEE80211AKMType::PskSha384.spec_kek_len() == None::<usize>,
        IEEE80211AKMType::PskSha384.spec_kck2_len() == None::<usize>,
        IEEE80211AKMType::PskSha384.spec_kek2_len() == None::<usize>,
        IEEE80211AKMType::PskSha384.spec_key_mic_len() == None::<usize>,
        IEEE80211AKMType::Pasn.spec_kck_len() == None::<usize>,
        IEEE80211AKMType::Pasn.spec_kek_len() == None::<usize>,
        IEEE80211AKMType::Pasn.spec_kck2_len() == None::<usize>,
        IEEE80211AKMType::Pasn.spec_kek2_len() == None::<usize>,
        IEEE80211AKMType::Pasn.spec_key_mic_len() == None::<usize>,
        IEEE80211AKMType::SaeGroupDefend.spec_kck_len() == None::<usize>,
        IEEE80211AKMType::SaeGroupDefend.spec_kek_len() == None::<usize>,
        IEEE80211AKMType::SaeGroupDefend.spec_kck2_len() == None::<usize>,
        IEEE80211AKMType::SaeGroupDefend.spec_kek2_len() == None::<usize>,
        IEEE80211AKMType::SaeGroupDefend.spec_key_mic_len() == None::<usize>,
        IEEE80211AKMType::FTUsingSaeGroupDefend.spec_kck_len() == None::<usize>,
        IEEE80211AKMType::FTUsingSaeGroupDefend.spec_kek_len() == None::<usize>,
        IEEE80211AKMType::FTUsingSaeGroupDefend.spec_kck2_len() == None::<usize>,
        IEEE80211AKMType::FTUsingSaeGroupDefend.spec_kek2_len() == None::<usize>,
        IEEE80211AKMType::FTUsingSaeGroupDefend.spec_key_mic_len() == None::<usize>,
        c is Unknown && c.spec_canonical() ==> c.spec_kck_len() is None,
        c is Unknown && c.spec_canonical() ==> c.spec_kek_len() is None,
        c is Unknown && c.spec_canonical() ==> c.spec_kck2_len() is None,
        c is Unknown && c.spec_canonical() ==> c.spec_kek2_len() is None,
        c is Unknown && c.spec_canonical() ==> c.spec_key_mic_len() is None,
{
}

} // verus!
