//! Authentication algorithm numbers.
use vstd::prelude::*;

verus! {

/// The authentication algorithm of an authentication frame.
#[derive(Clone, Copy, Debug, PartialEq, Eq, Hash, Structural)]
pub enum IEEE80211AuthenticationAlgorithmNumber {
    OpenSystem,
    SharedKey,
    FastBSSTransition,
    SimultaneousAuthenticationOfEquals,
    FILSSharedKeyAuthenticationWithout,
    FILSSharedKeyAuthenticationWith,
    FILSPublicKeyAuthentication,
    VendorSpecificUse,
    /// A value without a name.
    Unknown(u16),
}

impl IEEE80211AuthenticationAlgorithmNumber {
    /// The variant that `value` encodes.
    pub open spec fn spec_from_bits(value: u16) -> Self {
        match value {
            0 => IEEE80211AuthenticationAlgorithmNumber::OpenSystem,
            1 => IEEE80211AuthenticationAlgorithmNumber::SharedKey,
            2 => IEEE80211AuthenticationAlgorithmNumber::FastBSSTransition,
            3 => IEEE80211AuthenticationAlgorithmNumber::SimultaneousAuthenticationOfEquals,
            4 => IEEE80211AuthenticationAlgorithmNumber::FILSSharedKeyAuthenticationWithout,
            5 => IEEE80211AuthenticationAlgorithmNumber::FILSSharedKeyAuthenticationWith,
            6 => IEEE80211AuthenticationAlgorithmNumber::FILSPublicKeyAuthentication,
            0xffff => IEEE80211AuthenticationAlgorithmNumber::VendorSpecificUse,
            x => IEEE80211AuthenticationAlgorithmNumber::Unknown(x),
        }
    }

    /// The encoding of this variant.
    pub open spec fn spec_into_bits(self) -> u16 {
        match self {
            IEEE80211AuthenticationAlgorithmNumber::OpenSystem => 0,
            IEEE80211AuthenticationAlgorithmNumber::SharedKey => 1,
            IEEE80211AuthenticationAlgorithmNumber::FastBSSTransition => 2,
            IEEE80211AuthenticationAlgorithmNumber::SimultaneousAuthenticationOfEquals => 3,
            IEEE80211AuthenticationAlgorithmNumber::FILSSharedKeyAuthenticationWithout => 4,
            IEEE80211AuthenticationAlgorithmNumber::FILSSharedKeyAuthenticationWith => 5,
            IEEE80211AuthenticationAlgorithmNumber::FILSPublicKeyAuthentication => 6,
            IEEE80211AuthenticationAlgorithmNumber::VendorSpecificUse => 0xffff,
            IEEE80211AuthenticationAlgorithmNumber::Unknown(x) => x,
        }
    }

    /// Decode a variant from its representation.
    pub fn from_bits(value: u16) -> (r: Self)
        ensures
            r == Self::spec_from_bits(value),
            r.spec_into_bits() == value,
    {
        match value {
            0 => IEEE80211AuthenticationAlgorithmNumber::OpenSystem,
            1 => IEEE80211AuthenticationAlgorithmNumber::SharedKey,
            2 => IEEE80211AuthenticationAlgorithmNumber::FastBSSTransition,
            3 => IEEE80211AuthenticationAlgorithmNumber::SimultaneousAuthenticationOfEquals,
            4 => IEEE80211AuthenticationAlgorithmNumber::FILSSharedKeyAuthenticationWithout,
            5 => IEEE80211AuthenticationAlgorithmNumber::FILSSharedKeyAuthenticationWith,
            6 => IEEE80211AuthenticationAlgorithmNumber::FILSPublicKeyAuthentication,
            0xffff => IEEE80211AuthenticationAlgorithmNumber::VendorSpecificUse,
            x => IEEE80211AuthenticationAlgorithmNumber::Unknown(x),
        }
    }

    /// Encode this variant.
    pub fn into_bits(self) -> (r: u16)
        ensures
            r == self.spec_into_bits(),
    {
        match self {
            IEEE80211AuthenticationAlgorithmNumber::OpenSystem => 0,
            IEEE80211AuthenticationAlgorithmNumber::SharedKey => 1,
            IEEE80211AuthenticationAlgorithmNumber::FastBSSTransition => 2,
            IEEE80211AuthenticationAlgorithmNumber::SimultaneousAuthenticationOfEquals => 3,
            IEEE80211AuthenticationAlgorithmNumber::FILSSharedKeyAuthenticationWithout => 4,
            IEEE80211AuthenticationAlgorithmNumber::FILSSharedKeyAuthenticationWith => 5,
            IEEE80211AuthenticationAlgorithmNumber::FILSPublicKeyAuthentication => 6,
            IEEE80211AuthenticationAlgorithmNumber::VendorSpecificUse => 0xffff,
            IEEE80211AuthenticationAlgorithmNumber::Unknown(x) => x,
        }
    }
}

impl Default for IEEE80211AuthenticationAlgorithmNumber {
    fn default() -> (r: Self)
        ensures
            r == IEEE80211AuthenticationAlgorithmNumber::OpenSystem,
    {
        IEEE80211AuthenticationAlgorithmNumber::OpenSystem
    }
}

/// The numbering of [IEEE80211AuthenticationAlgorithmNumber]: each named value is read from its own number and written as that
/// number, and any other number is kept as an unknown value.
pub proof fn lemma_ieee80211_authentication_algorithm_number_numbering(value: u16)
    ensures
        (IEEE80211AuthenticationAlgorithmNumber::spec_from_bits(value) == IEEE80211AuthenticationAlgorithmNumber::OpenSystem) == (value == 0),
        (IEEE80211AuthenticationAlgorithmNumber::spec_from_bits(value) == IEEE80211AuthenticationAlgorithmNumber::SharedKey) == (value == 1),
        (IEEE80211AuthenticationAlgorithmNumber::spec_from_bits(value) == IEEE80211AuthenticationAlgorithmNumber::FastBSSTransition) == (value == 2),
        (IEEE80211AuthenticationAlgorithmNumber::spec_from_bits(value) == IEEE80211AuthenticationAlgorithmNumber::SimultaneousAuthenticationOfEquals) == (value == 3),
        (IEEE80211AuthenticationAlgorithmNumber::spec_from_bits(value) == IEEE80211AuthenticationAlgorithmNumber::FILSSharedKeyAuthenticationWithout) == (value == 4),
        (IEEE80211AuthenticationAlgorithmNumber::spec_from_bits(value) == IEEE80211AuthenticationAlgorithmNumber::FILSSharedKeyAuthenticationWith) == (value == 5),
        (IEEE80211AuthenticationAlgorithmNumber::spec_from_bits(value) == IEEE80211AuthenticationAlgorithmNumber::FILSPublicKeyAuthentication) == (value == 6),
        (IEEE80211AuthenticationAlgorithmNumber::spec_from_bits(value) == IEEE80211AuthenticationAlgorithmNumber::VendorSpecificUse) == (value == 0xffff),
        IEEE80211AuthenticationAlgorithmNumber::OpenSystem.spec_into_bits() == 0,
        IEEE80211AuthenticationAlgorithmNumber::SharedKey.spec_into_bits() == 1,
        IEEE80211AuthenticationAlgorithmNumber::FastBSSTransition.spec_into_bits() == 2,
        IEEE80211AuthenticationAlgorithmNumber::SimultaneousAuthenticationOfEquals.spec_into_bits() == 3,
        IEEE80211AuthenticationAlgorithmNumber::FILSSharedKeyAuthenticationWithout.spec_into_bits() == 4,
        IEEE80211AuthenticationAlgorithmNumber::FILSSharedKeyAuthenticationWith.spec_into_bits() == 5,
        IEEE80211AuthenticationAlgorithmNumber::FILSPublicKeyAuthentication.spec_into_bits() == 6,
        IEEE80211AuthenticationAlgorithmNumber::VendorSpecificUse.spec_into_bits() == 0xffff,
        (IEEE80211AuthenticationAlgorithmNumber::spec_from_bits(value) == IEEE80211AuthenticationAlgorithmNumber::Unknown(value)) == !(
            value == 0 || value == 1 || value == 2 || value == 3 || value == 4 || value == 5 ||
            value == 6 || value == 0xffff),
{
}

} // verus!
