//! Reason codes of management frames.
use vstd::prelude::*;

verus! {

/// An IEEE 802.11 reason code used in certain management frames.
#[derive(Clone, Copy, Debug, PartialEq, Eq, Hash, Structural)]
pub enum IEEE80211Reason {
    Unspecified,
    InvalidAuthentication,
    LeavingNetworkDeauth,
    Inactivity,
    NoMoreSTAs,
    InvalidClass2Frame,
    InvalidClass3Frame,
    LeavingNetworkDisassoc,
    MeshPeeringCancelled,
    MeshMaxPeers,
    MeshConfigurationPolicyViolation,
    MeshCloseRcvd,
    MeshMaxRetries,
    MeshConfirmTimeout,
    MeshInvalidGTK,
    MeshInconsistentParameters,
    MeshInvalidSecurityCapability,
    MeshPathErrorNoProxyInformation,
    MeshPathErrorNoForwardingInformation,
    MeshPathErrorDestinationUnreachable,
    MacAddressAlreadyExistsInMBSS,
    MeshChannelSwitchRegulatoryRequirements,
    MeshChannelSwitchUnspecified,
    TransmissionLinkEstablishmentFailed,
    AlternativeChannelOccupied,
    /// A value without a name.
    Unknown(u16),
}

impl IEEE80211Reason {
    /// The variant that `value` encodes.
    pub open spec fn spec_from_bits(value: u16) -> Self {
        match value {
            1 => IEEE80211Reason::Unspecified,
            2 => IEEE80211Reason::InvalidAuthentication,
            3 => IEEE80211Reason::LeavingNetworkDeauth,
            4 => IEEE80211Reason::Inactivity,
            5 => IEEE80211Reason::NoMoreSTAs,
            6 => IEEE80211Reason::InvalidClass2Frame,
            7 => IEEE80211Reason::InvalidClass3Frame,
            8 => IEEE80211Reason::LeavingNetworkDisassoc,
            52 => IEEE80211Reason::MeshPeeringCancelled,
            53 => IEEE80211Reason::MeshMaxPeers,
            54 => IEEE80211Reason::MeshConfigurationPolicyViolation,
            55 => IEEE80211Reason::MeshCloseRcvd,
            56 => IEEE80211Reason::MeshMaxRetries,
            57 => IEEE80211Reason::MeshConfirmTimeout,
            58 => IEEE80211Reason::MeshInvalidGTK,
            59 => IEEE80211Reason::MeshInconsistentParameters,
            60 => IEEE80211Reason::MeshInvalidSecurityCapability,
            61 => IEEE80211Reason::MeshPathErrorNoProxyInformation,
            62 => IEEE80211Reason::MeshPathErrorNoForwardingInformation,
            63 => IEEE80211Reason::MeshPathErrorDestinationUnreachable,
            64 => IEEE80211Reason::MacAddressAlreadyExistsInMBSS,
            65 => IEEE80211Reason::MeshChannelSwitchRegulatoryRequirements,
            66 => IEEE80211Reason::MeshChannelSwitchUnspecified,
            67 => IEEE80211Reason::TransmissionLinkEstablishmentFailed,
            68 => IEEE80211Reason::AlternativeChannelOccupied,
            x => IEEE80211Reason::Unknown(x),
        }
    }

    /// The encoding of this variant.
    pub open spec fn spec_into_bits(self) -> u16 {
        match self {
            IEEE80211Reason::Unspecified => 1,
            IEEE80211Reason::InvalidAuthentication => 2,
            IEEE80211Reason::LeavingNetworkDeauth => 3,
            IEEE80211Reason::Inactivity => 4,
            IEEE80211Reason::NoMoreSTAs => 5,
            IEEE80211Reason::InvalidClass2Frame => 6,
            IEEE80211Reason::InvalidClass3Frame => 7,
            IEEE80211Reason::LeavingNetworkDisassoc => 8,
            IEEE80211Reason::MeshPeeringCancelled => 52,
            IEEE80211Reason::MeshMaxPeers => 53,
            IEEE80211Reason::MeshConfigurationPolicyViolation => 54,
            IEEE80211Reason::MeshCloseRcvd => 55,
            IEEE80211Reason::MeshMaxRetries => 56,
            IEEE80211Reason::MeshConfirmTimeout => 57,
            IEEE80211Reason::MeshInvalidGTK => 58,
            IEEE80211Reason::MeshInconsistentParameters => 59,
            IEEE80211Reason::MeshInvalidSecurityCapability => 60,
            IEEE80211Reason::MeshPathErrorNoProxyInformation => 61,
            IEEE80211Reason::MeshPathErrorNoForwardingInformation => 62,
            IEEE80211Reason::MeshPathErrorDestinationUnreachable => 63,
            IEEE80211Reason::MacAddressAlreadyExistsInMBSS => 64,
            IEEE80211Reason::MeshChannelSwitchRegulatoryRequirements => 65,
            IEEE80211Reason::MeshChannelSwitchUnspecified => 66,
            IEEE80211Reason::TransmissionLinkEstablishmentFailed => 67,
            IEEE80211Reason::AlternativeChannelOccupied => 68,
            IEEE80211Reason::Unknown(x) => x,
        }
    }

    /// Decode a variant from its representation.
    pub fn from_bits(value: u16) -> (r: Self)
        ensures
            r == Self::spec_from_bits(value),
            r.spec_into_bits() == value,
    {
        match value {
            1 => IEEE80211Reason::Unspecified,
            2 => IEEE80211Reason::InvalidAuthentication,
            3 => IEEE80211Reason::LeavingNetworkDeauth,
            4 => IEEE80211Reason::Inactivity,
            5 => IEEE80211Reason::NoMoreSTAs,
            6 => IEEE80211Reason::InvalidClass2Frame,
            7 => IEEE80211Reason::InvalidClass3Frame,
            8 => IEEE80211Reason::LeavingNetworkDisassoc,
            52 => IEEE80211Reason::MeshPeeringCancelled,
            53 => IEEE80211Reason::MeshMaxPeers,
            54 => IEEE80211Reason::MeshConfigurationPolicyViolation,
            55 => IEEE80211Reason::MeshCloseRcvd,
            56 => IEEE80211Reason::MeshMaxRetries,
            57 => IEEE80211Reason::MeshConfirmTimeout,
            58 => IEEE80211Reason::MeshInvalidGTK,
            59 => IEEE80211Reason::MeshInconsistentParameters,
            60 => IEEE80211Reason::MeshInvalidSecurityCapability,
            61 => IEEE80211Reason::MeshPathErrorNoProxyInformation,
            62 => IEEE80211Reason::MeshPathErrorNoForwardingInformation,
            63 => IEEE80211Reason::MeshPathErrorDestinationUnreachable,
            64 => IEEE80211Reason::MacAddressAlreadyExistsInMBSS,
            65 => IEEE80211Reason::MeshChannelSwitchRegulatoryRequirements,
            66 => IEEE80211Reason::MeshChannelSwitchUnspecified,
            67 => IEEE80211Reason::TransmissionLinkEstablishmentFailed,
            68 => IEEE80211Reason::AlternativeChannelOccupied,
            x => IEEE80211Reason::Unknown(x),
        }
    }

    /// Encode this variant.
    pub fn into_bits(self) -> (r: u16)
        ensures
            r == self.spec_into_bits(),
    {
        match self {
            IEEE80211Reason::Unspecified => 1,
            IEEE80211Reason::InvalidAuthentication => 2,
            IEEE80211Reason::LeavingNetworkDeauth => 3,
            IEEE80211Reason::Inactivity => 4,
            IEEE80211Reason::NoMoreSTAs => 5,
            IEEE80211Reason::InvalidClass2Frame => 6,
            IEEE80211Reason::InvalidClass3Frame => 7,
            IEEE80211Reason::LeavingNetworkDisassoc => 8,
            IEEE80211Reason::MeshPeeringCancelled => 52,
            IEEE80211Reason::MeshMaxPeers => 53,
            IEEE80211Reason::MeshConfigurationPolicyViolation => 54,
            IEEE80211Reason::MeshCloseRcvd => 55,
            IEEE80211Reason::MeshMaxRetries => 56,
            IEEE80211Reason::MeshConfirmTimeout => 57,
            IEEE80211Reason::MeshInvalidGTK => 58,
            IEEE80211Reason::MeshInconsistentParameters => 59,
            IEEE80211Reason::MeshInvalidSecurityCapability => 60,
            IEEE80211Reason::MeshPathErrorNoProxyInformation => 61,
            IEEE80211Reason::MeshPathErrorNoForwardingInformation => 62,
            IEEE80211Reason::MeshPathErrorDestinationUnreachable => 63,
            IEEE80211Reason::MacAddressAlreadyExistsInMBSS => 64,
            IEEE80211Reason::MeshChannelSwitchRegulatoryRequirements => 65,
            IEEE80211Reason::MeshChannelSwitchUnspecified => 66,
            IEEE80211Reason::TransmissionLinkEstablishmentFailed => 67,
            IEEE80211Reason::AlternativeChannelOccupied => 68,
            IEEE80211Reason::Unknown(x) => x,
        }
    }
}

impl Default for IEEE80211Reason {
    fn default() -> (r: Self)
        ensures
            r == IEEE80211Reason::Unspecified,
    {
        IEEE80211Reason::Unspecified
    }
}

/// The numbering of [IEEE80211Reason]: each named value is read from its own number and written as that
/// number, and any other number is kept as an unknown value.
pub proof fn lemma_ieee80211_reason_numbering(value: u16)
    ensures
        (IEEE80211Reason::spec_from_bits(value) == IEEE80211Reason::Unspecified) == (value == 1),
        (IEEE80211Reason::spec_from_bits(value) == IEEE80211Reason::InvalidAuthentication) == (value == 2),
        (IEEE80211Reason::spec_from_bits(value) == IEEE80211Reason::LeavingNetworkDeauth) == (value == 3),
        (IEEE80211Reason::spec_from_bits(value) == IEEE80211Reason::Inactivity) == (value == 4),
        (IEEE80211Reason::spec_from_bits(value) == IEEE80211Reason::NoMoreSTAs) == (value == 5),
        (IEEE80211Reason::spec_from_bits(value) == IEEE80211Reason::InvalidClass2Frame) == (value == 6),
        (IEEE80211Reason::spec_from_bits(value) == IEEE80211Reason::InvalidClass3Frame) == (value == 7),
        (IEEE80211Reason::spec_from_bits(value) == IEEE80211Reason::LeavingNetworkDisassoc) == (value == 8),
        (IEEE80211Reason::spec_from_bits(value) == IEEE80211Reason::MeshPeeringCancelled) == (value == 52),
        (IEEE80211Reason::spec_from_bits(value) == IEEE80211Reason::MeshMaxPeers) == (value == 53),
        (IEEE80211Reason::spec_from_bits(value) == IEEE80211Reason::MeshConfigurationPolicyViolation) == (value == 54),
        (IEEE80211Reason::spec_from_bits(value) == IEEE80211Reason::MeshCloseRcvd) == (value == 55),
        (IEEE80211Reason::spec_from_bits(value) == IEEE80211Reason::MeshMaxRetries) == (value == 56),
        (IEEE80211Reason::spec_from_bits(value) == IEEE80211Reason::MeshConfirmTimeout) == (value == 57),
        (IEEE80211Reason::spec_from_bits(value) == IEEE80211Reason::MeshInvalidGTK) == (value == 58),
        (IEEE80211Reason::spec_from_bits(value) == IEEE80211Reason::MeshInconsistentParameters) == (value == 59),
        (IEEE80211Reason::spec_from_bits(value) == IEEE80211Reason::MeshInvalidSecurityCapability) == (value == 60),
        (IEEE80211Reason::spec_from_bits(value) == IEEE80211Reason::MeshPathErrorNoProxyInformation) == (value == 61),
        (IEEE80211Reason::spec_from_bits(value) == IEEE80211Reason::MeshPathErrorNoForwardingInformation) == (value == 62),
        (IEEE80211Reason::spec_from_bits(value) == IEEE80211Reason::MeshPathErrorDestinationUnreachable) == (value == 63),
        (IEEE80211Reason::spec_from_bits(value) == IEEE80211Reason::MacAddressAlreadyExistsInMBSS) == (value == 64),
        (IEEE80211Reason::spec_from_bits(value) == IEEE80211Reason::MeshChannelSwitchRegulatoryRequirements) == (value == 65),
        (IEEE80211Reason::spec_from_bits(value) == IEEE80211Reason::MeshChannelSwitchUnspecified) == (value == 66),
        (IEEE80211Reason::spec_from_bits(value) == IEEE80211Reason::TransmissionLinkEstablishmentFailed) == (value == 67),
        (IEEE80211Reason::spec_from_bits(value) == IEEE80211Reason::AlternativeChannelOccupied) == (value == 68),
        IEEE80211Reason::Unspecified.spec_into_bits() == 1,
        IEEE80211Reason::InvalidAuthentication.spec_into_bits() == 2,
        IEEE80211Reason::LeavingNetworkDeauth.spec_into_bits() == 3,
        IEEE80211Reason::Inactivity.spec_into_bits() == 4,
        IEEE80211Reason::NoMoreSTAs.spec_into_bits() == 5,
        IEEE80211Reason::InvalidClass2Frame.spec_into_bits() == 6,
        IEEE80211Reason::InvalidClass3Frame.spec_into_bits() == 7,
        IEEE80211Reason::LeavingNetworkDisassoc.spec_into_bits() == 8,
        IEEE80211Reason::MeshPeeringCancelled.spec_into_bits() == 52,
        IEEE80211Reason::MeshMaxPeers.spec_into_bits() == 53,
        IEEE80211Reason::MeshConfigurationPolicyViolation.spec_into_bits() == 54,
        IEEE80211Reason::MeshCloseRcvd.spec_into_bits() == 55,
        IEEE80211Reason::MeshMaxRetries.spec_into_bits() == 56,
        IEEE80211Reason::MeshConfirmTimeout.spec_into_bits() == 57,
        IEEE80211Reason::MeshInvalidGTK.spec_into_bits() == 58,
        IEEE80211Reason::MeshInconsistentParameters.spec_into_bits() == 59,
        IEEE80211Reason::MeshInvalidSecurityCapability.spec_into_bits() == 60,
        IEEE80211Reason::MeshPathErrorNoProxyInformation.spec_into_bits() == 61,
        IEEE80211Reason::MeshPathErrorNoForwardingInformation.spec_into_bits() == 62,
        IEEE80211Reason::MeshPathErrorDestinationUnreachable.spec_into_bits() == 63,
        IEEE80211Reason::MacAddressAlreadyExistsInMBSS.spec_into_bits() == 64,
        IEEE80211Reason::MeshChannelSwitchRegulatoryRequirements.spec_into_bits() == 65,
        IEEE80211Reason::MeshChannelSwitchUnspecified.spec_into_bits() == 66,
        IEEE80211Reason::TransmissionLinkEstablishmentFailed.spec_into_bits() == 67,
        IEEE80211Reason::AlternativeChannelOccupied.spec_into_bits() == 68,
        (IEEE80211Reason::spec_from_bits(value) == IEEE80211Reason::Unknown(value)) == !(
            value == 1 || value == 2 || value == 3 || value == 4 || value == 5 || value == 6 ||
            value == 7 || value == 8 || value == 52 || value == 53 || value == 54 || value == 55 ||
            value == 56 || value == 57 || value == 58 || value == 59 || value == 60 ||
            value == 61 || value == 62 || value == 63 || value == 64 || value == 65 ||
            value == 66 || value == 67 || value == 68),
{
}

} // verus!
