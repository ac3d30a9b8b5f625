//! The Mesh Configuration element.
use crate::common::bits::{fits_u8, get_bits_u8, lemma_set_bits_u8, set_bits_u8};
use crate::common::wire::{Error, write_all};
use crate::elements::ElementID;
use crate::elements::Element;
use vstd::prelude::*;

verus! {

/// The active path selection protocol of the mesh.
#[derive(Clone, Copy, Debug, PartialEq, Eq, Hash, Structural)]
pub enum MeshConfigurationActivePathSelectionProtocolIdentifier {
    HWMP,
    VendorSpecific,
    /// A value without a name.
    Unknown(u8),
}

impl MeshConfigurationActivePathSelectionProtocolIdentifier {
    /// The variant that `value` encodes.
    pub open spec fn spec_from_bits(value: u8) -> Self {
        match value {
            1 => MeshConfigurationActivePathSelectionProtocolIdentifier::HWMP,
            255 => MeshConfigurationActivePathSelectionProtocolIdentifier::VendorSpecific,
            x => MeshConfigurationActivePathSelectionProtocolIdentifier::Unknown(x),
        }
    }

    /// The encoding of this variant.
    pub open spec fn spec_into_bits(self) -> u8 {
        match self {
            MeshConfigurationActivePathSelectionProtocolIdentifier::HWMP => 1,
            MeshConfigurationActivePathSelectionProtocolIdentifier::VendorSpecific => 255,
            MeshConfigurationActivePathSelectionProtocolIdentifier::Unknown(x) => x,
        }
    }

    /// Decode a variant from its representation.
    pub fn from_bits(value: u8) -> (r: Self)
        ensures
            r == Self::spec_from_bits(value),
            r.spec_into_bits() == value,
    {
        match value {
            1 => MeshConfigurationActivePathSelectionProtocolIdentifier::HWMP,
            255 => MeshConfigurationActivePathSelectionProtocolIdentifier::VendorSpecific,
            x => MeshConfigurationActivePathSelectionProtocolIdentifier::Unknown(x),
        }
    }

    /// Encode this variant.
    pub fn into_bits(self) -> (r: u8)
        ensures
            r == self.spec_into_bits(),
    {
        match self {
            MeshConfigurationActivePathSelectionProtocolIdentifier::HWMP => 1,
            MeshConfigurationActivePathSelectionProtocolIdentifier::VendorSpecific => 255,
            MeshConfigurationActivePathSelectionProtocolIdentifier::Unknown(x) => x,
        }
    }
}

impl Default for MeshConfigurationActivePathSelectionProtocolIdentifier {
    fn default() -> (r: Self)
        ensures
            r == MeshConfigurationActivePathSelectionProtocolIdentifier::HWMP,
    {
        MeshConfigurationActivePathSelectionProtocolIdentifier::HWMP
    }
}

/// The active path selection metric of the mesh.
#[derive(Clone, Copy, Debug, PartialEq, Eq, Hash, Structural)]
pub enum MeshConfigurationActivePathSelectionMetricIdentifier {
    AirtimeLinkMetric,
    HighPHYRateAirtimeLinkMetric,
    VendorSpecific,
    /// A value without a name.
    Unknown(u8),
}

impl MeshConfigurationActivePathSelectionMetricIdentifier {
    /// The variant that `value` encodes.
    pub open spec fn spec_from_bits(value: u8) -> Self {
        match value {
            1 => MeshConfigurationActivePathSelectionMetricIdentifier::AirtimeLinkMetric,
            2 => MeshConfigurationActivePathSelectionMetricIdentifier::HighPHYRateAirtimeLinkMetric,
            255 => MeshConfigurationActivePathSelectionMetricIdentifier::VendorSpecific,
            x => MeshConfigurationActivePathSelectionMetricIdentifier::Unknown(x),
        }
    }

    /// The encoding of this variant.
    pub open spec fn spec_into_bits(self) -> u8 {
        match self {
            MeshConfigurationActivePathSelectionMetricIdentifier::AirtimeLinkMetric => 1,
            MeshConfigurationActivePathSelectionMetricIdentifier::HighPHYRateAirtimeLinkMetric => 2,
            MeshConfigurationActivePathSelectionMetricIdentifier::VendorSpecific => 255,
            MeshConfigurationActivePathSelectionMetricIdentifier::Unknown(x) => x,
        }
    }

    /// Decode a variant from its representation.
    pub fn from_bits(value: u8) -> (r: Self)
        ensures
            r == Self::spec_from_bits(value),
            r.spec_into_bits() == value,
    {
        match value {
            1 => MeshConfigurationActivePathSelectionMetricIdentifier::AirtimeLinkMetric,
            2 => MeshConfigurationActivePathSelectionMetricIdentifier::HighPHYRateAirtimeLinkMetric,
            255 => MeshConfigurationActivePathSelectionMetricIdentifier::VendorSpecific,
            x => MeshConfigurationActivePathSelectionMetricIdentifier::Unknown(x),
        }
    }

    /// Encode this variant.
    pub fn into_bits(self) -> (r: u8)
        ensures
            r == self.spec_into_bits(),
    {
        match self {
            MeshConfigurationActivePathSelectionMetricIdentifier::AirtimeLinkMetric => 1,
            MeshConfigurationActivePathSelectionMetricIdentifier::HighPHYRateAirtimeLinkMetric => 2,
            MeshConfigurationActivePathSelectionMetricIdentifier::VendorSpecific => 255,
            MeshConfigurationActivePathSelectionMetricIdentifier::Unknown(x) => x,
        }
    }
}

impl Default for MeshConfigurationActivePathSelectionMetricIdentifier {
    fn default() -> (r: Self)
        ensures
            r == MeshConfigurationActivePathSelectionMetricIdentifier::AirtimeLinkMetric,
    {
        MeshConfigurationActivePathSelectionMetricIdentifier::AirtimeLinkMetric
    }
}

/// The congestion control mode of the mesh.
#[derive(Clone, Copy, Debug, PartialEq, Eq, Hash, Structural)]
pub enum MeshConfigurationCongestionControlModeIdentifier {
    NotActivated,
    SignalingProtocol,
    VendorSpecific,
    /// A value without a name.
    Unknown(u8),
}

impl MeshConfigurationCongestionControlModeIdentifier {
    /// The variant that `value` encodes.
    pub open spec fn spec_from_bits(value: u8) -> Self {
        match value {
            0 => MeshConfigurationCongestionControlModeIdentifier::NotActivated,
            1 => MeshConfigurationCongestionControlModeIdentifier::SignalingProtocol,
            255 => MeshConfigurationCongestionControlModeIdentifier::VendorSpecific,
            x => MeshConfigurationCongestionControlModeIdentifier::Unknown(x),
        }
    }

    /// The encoding of this variant.
    pub open spec fn spec_into_bits(self) -> u8 {
        match self {
            MeshConfigurationCongestionControlModeIdentifier::NotActivated => 0,
            MeshConfigurationCongestionControlModeIdentifier::SignalingProtocol => 1,
            MeshConfigurationCongestionControlModeIdentifier::VendorSpecific => 255,
            MeshConfigurationCongestionControlModeIdentifier::Unknown(x) => x,
        }
    }

    /// Decode a variant from its representation.
    pub fn from_bits(value: u8) -> (r: Self)
        ensures
            r == Self::spec_from_bits(value),
            r.spec_into_bits() == value,
    {
        match value {
            0 => MeshConfigurationCongestionControlModeIdentifier::NotActivated,
            1 => MeshConfigurationCongestionControlModeIdentifier::SignalingProtocol,
            255 => MeshConfigurationCongestionControlModeIdentifier::VendorSpecific,
            x => MeshConfigurationCongestionControlModeIdentifier::Unknown(x),
        }
    }

    /// Encode this variant.
    pub fn into_bits(self) -> (r: u8)
        ensures
            r == self.spec_into_bits(),
    {
        match self {
            MeshConfigurationCongestionControlModeIdentifier::NotActivated => 0,
            MeshConfigurationCongestionControlModeIdentifier::SignalingProtocol => 1,
            MeshConfigurationCongestionControlModeIdentifier::VendorSpecific => 255,
            MeshConfigurationCongestionControlModeIdentifier::Unknown(x) => x,
        }
    }
}

impl Default for MeshConfigurationCongestionControlModeIdentifier {
    fn default() -> (r: Self)
        ensures
            r == MeshConfigurationCongestionControlModeIdentifier::NotActivated,
    {
        MeshConfigurationCongestionControlModeIdentifier::NotActivated
    }
}

/// The synchronization method of the mesh.
#[derive(Clone, Copy, Debug, PartialEq, Eq, Hash, Structural)]
pub enum MeshConfigurationSynchronizationMethodIdentifier {
    NeighborOffsetSynchronization,
    VendorSpecific,
    /// A value without a name.
    Unknown(u8),
}

impl MeshConfigurationSynchronizationMethodIdentifier {
    /// The variant that `value` encodes.
    pub open spec fn spec_from_bits(value: u8) -> Self {
        match value {
            1 => MeshConfigurationSynchronizationMethodIdentifier::NeighborOffsetSynchronization,
            255 => MeshConfigurationSynchronizationMethodIdentifier::VendorSpecific,
            x => MeshConfigurationSynchronizationMethodIdentifier::Unknown(x),
        }
    }

    /// The encoding of this variant.
    pub open spec fn spec_into_bits(self) -> u8 {
        match self {
            MeshConfigurationSynchronizationMethodIdentifier::NeighborOffsetSynchronization => 1,
            MeshConfigurationSynchronizationMethodIdentifier::VendorSpecific => 255,
            MeshConfigurationSynchronizationMethodIdentifier::Unknown(x) => x,
        }
    }

    /// Decode a variant from its representation.
    pub fn from_bits(value: u8) -> (r: Self)
        ensures
            r == Self::spec_from_bits(value),
            r.spec_into_bits() == value,
    {
        match value {
            1 => MeshConfigurationSynchronizationMethodIdentifier::NeighborOffsetSynchronization,
            255 => MeshConfigurationSynchronizationMethodIdentifier::VendorSpecific,
            x => MeshConfigurationSynchronizationMethodIdentifier::Unknown(x),
        }
    }

    /// Encode this variant.
    pub fn into_bits(self) -> (r: u8)
        ensures
            r == self.spec_into_bits(),
    {
        match self {
            MeshConfigurationSynchronizationMethodIdentifier::NeighborOffsetSynchronization => 1,
            MeshConfigurationSynchronizationMethodIdentifier::VendorSpecific => 255,
            MeshConfigurationSynchronizationMethodIdentifier::Unknown(x) => x,
        }
    }
}

impl Default for MeshConfigurationSynchronizationMethodIdentifier {
    fn default() -> (r: Self)
        ensures
            r == MeshConfigurationSynchronizationMethodIdentifier::NeighborOffsetSynchronization,
    {
        MeshConfigurationSynchronizationMethodIdentifier::NeighborOffsetSynchronization
    }
}

/// The authentication protocol of the mesh.
#[derive(Clone, Copy, Debug, PartialEq, Eq, Hash, Structural)]
pub enum MeshConfigurationAuthenticationProtocolIdentifier {
    NoAuthentication,
    SAE,
    IEEE80211XAuthentication,
    VendorSpecific,
    /// A value without a name.
    Unknown(u8),
}

impl MeshConfigurationAuthenticationProtocolIdentifier {
    /// The variant that `value` encodes.
    pub open spec fn spec_from_bits(value: u8) -> Self {
        match value {
            0 => MeshConfigurationAuthenticationProtocolIdentifier::NoAuthentication,
            1 => MeshConfigurationAuthenticationProtocolIdentifier::SAE,
            2 => MeshConfigurationAuthenticationProtocolIdentifier::IEEE80211XAuthentication,
            255 => MeshConfigurationAuthenticationProtocolIdentifier::VendorSpecific,
            x => MeshConfigurationAuthenticationProtocolIdentifier::Unknown(x),
        }
    }

    /// The encoding of this variant.
    pub open spec fn spec_into_bits(self) -> u8 {
        match self {
            MeshConfigurationAuthenticationProtocolIdentifier::NoAuthentication => 0,
            MeshConfigurationAuthenticationProtocolIdentifier::SAE => 1,
            MeshConfigurationAuthenticationProtocolIdentifier::IEEE80211XAuthentication => 2,
            MeshConfigurationAuthenticationProtocolIdentifier::VendorSpecific => 255,
            MeshConfigurationAuthenticationProtocolIdentifier::Unknown(x) => x,
        }
    }

    /// Decode a variant from its representation.
    pub fn from_bits(value: u8) -> (r: Self)
        ensures
            r == Self::spec_from_bits(value),
            r.spec_into_bits() == value,
    {
        match value {
            0 => MeshConfigurationAuthenticationProtocolIdentifier::NoAuthentication,
            1 => MeshConfigurationAuthenticationProtocolIdentifier::SAE,
            2 => MeshConfigurationAuthenticationProtocolIdentifier::IEEE80211XAuthentication,
            255 => MeshConfigurationAuthenticationProtocolIdentifier::VendorSpecific,
            x => MeshConfigurationAuthenticationProtocolIdentifier::Unknown(x),
        }
    }

    /// Encode this variant.
    pub fn into_bits(self) -> (r: u8)
        ensures
            r == self.spec_into_bits(),
    {
        match self {
            MeshConfigurationAuthenticationProtocolIdentifier::NoAuthentication => 0,
            MeshConfigurationAuthenticationProtocolIdentifier::SAE => 1,
            MeshConfigurationAuthenticationProtocolIdentifier::IEEE80211XAuthentication => 2,
            MeshConfigurationAuthenticationProtocolIdentifier::VendorSpecific => 255,
            MeshConfigurationAuthenticationProtocolIdentifier::Unknown(x) => x,
        }
    }
}

impl Default for MeshConfigurationAuthenticationProtocolIdentifier {
    fn default() -> (r: Self)
        ensures
            r == MeshConfigurationAuthenticationProtocolIdentifier::NoAuthentication,
    {
        MeshConfigurationAuthenticationProtocolIdentifier::NoAuthentication
    }
}

/// Information about the formation of the mesh.
#[derive(Clone, Copy, Debug, PartialEq, Eq, Hash, Structural)]
pub struct MeshFormationInfo(pub u8);

impl MeshFormationInfo {
    /// A value with every field at its default.
    pub fn new() -> (r: Self)
        ensures
            r.0 == 0x0,
    {
        Self(0x0)
    }

    /// Wrap the raw bits.
    pub fn from_bits(bits: u8) -> (r: Self)
        ensures
            r.0 == bits,
    {
        Self(bits)
    }

    /// Every field mask fits in the backing integer.
    proof fn lemma_masks_fit()
        by (bit_vector)
        ensures
            fits_u8(0, 0x1),
            fits_u8(1, 0x3f),
            fits_u8(7, 0x1),
            (0x1u8 << 0u8) & (0x3fu8 << 1u8) == 0,
            (0x3fu8 << 1u8) & (0x1u8 << 0u8) == 0,
            (0x1u8 << 0u8) & (0x1u8 << 7u8) == 0,
            (0x1u8 << 7u8) & (0x1u8 << 0u8) == 0,
            (0x3fu8 << 1u8) & (0x1u8 << 7u8) == 0,
            (0x1u8 << 7u8) & (0x3fu8 << 1u8) == 0,
            1u8 & 1u8 == 1,
            0u8 & 1u8 == 0,
    {
    }

    /// The raw bits.
    pub fn into_bits(self) -> (r: u8)
        ensures
            r == self.0,
    {
        self.0
    }

    /// The STA has a path to a mesh gate.
    pub open spec fn spec_connected_to_mesh_gate(self) -> bool {
        get_bits_u8(self.0, 0, 1) == 1
    }

    /// The STA has a path to a mesh gate.
    pub fn connected_to_mesh_gate(&self) -> (r: bool)
        ensures
            r == self.spec_connected_to_mesh_gate(),
    {
        (self.0 >> 0) & 1 == 1
    }

    /// Returns a copy with the field replaced by `value`.
    pub fn with_connected_to_mesh_gate(self, value: bool) -> (r: Self)
        ensures
            r.0 == set_bits_u8(self.0, 0, 0x1, (if value {
                1u8
            } else {
                0u8
            })),
            r.spec_connected_to_mesh_gate() == value,
            r.spec_num_peerings() == self.spec_num_peerings(),
            r.spec_connected_to_as() == self.spec_connected_to_as(),
    {
        let v: u8 = if value {
            1
        } else {
            0
        };
        proof {
            Self::lemma_masks_fit();
            lemma_set_bits_u8(self.0, 0, 0x1, v, 0, 0x1);
            lemma_set_bits_u8(self.0, 0, 0x1, v, 1, 0x3f);
            lemma_set_bits_u8(self.0, 0, 0x1, v, 7, 0x1);
        }
        Self((self.0 & !(0x1u8 << 0u8)) | ((v & 0x1) << 0u8))
    }

    /// The number of mesh peerings.
    pub open spec fn spec_num_peerings(self) -> u8 {
        get_bits_u8(self.0, 1, 0x3f) as u8
    }

    /// The number of mesh peerings.
    pub fn num_peerings(&self) -> (r: u8)
        ensures
            r == self.spec_num_peerings(),
    {
        ((self.0 >> 1) & 0x3f) as u8
    }

    /// Returns a copy with the field replaced by `value`.
    pub fn with_num_peerings(self, value: u8) -> (r: Self)
        ensures
            r.0 == set_bits_u8(self.0, 1, 0x3f, (value as u8)),
            r.spec_num_peerings() == ((value as u8) & 0x3f) as u8,
            r.spec_connected_to_mesh_gate() == self.spec_connected_to_mesh_gate(),
            r.spec_connected_to_as() == self.spec_connected_to_as(),
    {
        let v: u8 = value as u8;
        proof {
            Self::lemma_masks_fit();
            lemma_set_bits_u8(self.0, 1, 0x3f, v, 1, 0x3f);
            lemma_set_bits_u8(self.0, 1, 0x3f, v, 0, 0x1);
            lemma_set_bits_u8(self.0, 1, 0x3f, v, 7, 0x1);
        }
        Self((self.0 & !(0x3fu8 << 1u8)) | ((v & 0x3f) << 1u8))
    }

    /// The STA is connected to an authentication server.
    pub open spec fn spec_connected_to_as(self) -> bool {
        get_bits_u8(self.0, 7, 1) == 1
    }

    /// The STA is connected to an authentication server.
    pub fn connected_to_as(&self) -> (r: bool)
        ensures
            r == self.spec_connected_to_as(),
    {
        (self.0 >> 7) & 1 == 1
    }

    /// Returns a copy with the field replaced by `value`.
    pub fn with_connected_to_as(self, value: bool) -> (r: Self)
        ensures
            r.0 == set_bits_u8(self.0, 7, 0x1, (if value {
                1u8
            } else {
                0u8
            })),
            r.spec_connected_to_as() == value,
            r.spec_connected_to_mesh_gate() == self.spec_connected_to_mesh_gate(),
            r.spec_num_peerings() == self.spec_num_peerings(),
    {
        let v: u8 = if value {
            1
        } else {
            0
        };
        proof {
            Self::lemma_masks_fit();
            lemma_set_bits_u8(self.0, 7, 0x1, v, 7, 0x1);
            lemma_set_bits_u8(self.0, 7, 0x1, v, 0, 0x1);
            lemma_set_bits_u8(self.0, 7, 0x1, v, 1, 0x3f);
        }
        Self((self.0 & !(0x1u8 << 7u8)) | ((v & 0x1) << 7u8))
    }
}

/// The mesh capabilities of the STA.
#[derive(Clone, Copy, Debug, PartialEq, Eq, Hash, Structural)]
pub struct MeshCapability(pub u8);

impl MeshCapability {
    /// A value with every field at its default.
    pub fn new() -> (r: Self)
        ensures
            r.0 == 0x0,
    {
        Self(0x0)
    }

    /// Wrap the raw bits.
    pub fn from_bits(bits: u8) -> (r: Self)
        ensures
            r.0 == bits,
    {
        Self(bits)
    }

    /// Every field mask fits in the backing integer.
    proof fn lemma_masks_fit()
        by (bit_vector)
        ensures
            fits_u8(0, 0x1),
            fits_u8(1, 0x1),
            fits_u8(2, 0x1),
            fits_u8(3, 0x1),
            fits_u8(4, 0x1),
            fits_u8(5, 0x1),
            fits_u8(6, 0x1),
            fits_u8(7, 0x1),
            (0x1u8 << 0u8) & (0x1u8 << 1u8) == 0,
            (0x1u8 << 1u8) & (0x1u8 << 0u8) == 0,
            (0x1u8 << 0u8) & (0x1u8 << 2u8) == 0,
            (0x1u8 << 2u8) & (0x1u8 << 0u8) == 0,
            (0x1u8 << 0u8) & (0x1u8 << 3u8) == 0,
            (0x1u8 << 3u8) & (0x1u8 << 0u8) == 0,
            (0x1u8 << 0u8) & (0x1u8 << 4u8) == 0,
            (0x1u8 << 4u8) & (0x1u8 << 0u8) == 0,
            (0x1u8 << 0u8) & (0x1u8 << 5u8) == 0,
            (0x1u8 << 5u8) & (0x1u8 << 0u8) == 0,
            (0x1u8 << 0u8) & (0x1u8 << 6u8) == 0,
            (0x1u8 << 6u8) & (0x1u8 << 0u8) == 0,
            (0x1u8 << 0u8) & (0x1u8 << 7u8) == 0,
            (0x1u8 << 7u8) & (0x1u8 << 0u8) == 0,
            (0x1u8 << 1u8) & (0x1u8 << 2u8) == 0,
            (0x1u8 << 2u8) & (0x1u8 << 1u8) == 0,
            (0x1u8 << 1u8) & (0x1u8 << 3u8) == 0,
            (0x1u8 << 3u8) & (0x1u8 << 1u8) == 0,
            (0x1u8 << 1u8) & (0x1u8 << 4u8) == 0,
            (0x1u8 << 4u8) & (0x1u8 << 1u8) == 0,
            (0x1u8 << 1u8) & (0x1u8 << 5u8) == 0,
            (0x1u8 << 5u8) & (0x1u8 << 1u8) == 0,
            (0x1u8 << 1u8) & (0x1u8 << 6u8) == 0,
            (0x1u8 << 6u8) & (0x1u8 << 1u8) == 0,
            (0x1u8 << 1u8) & (0x1u8 << 7u8) == 0,
            (0x1u8 << 7u8) & (0x1u8 << 1u8) == 0,
            (0x1u8 << 2u8) & (0x1u8 << 3u8) == 0,
            (0x1u8 << 3u8) & (0x1u8 << 2u8) == 0,
            (0x1u8 << 2u8) & (0x1u8 << 4u8) == 0,
            (0x1u8 << 4u8) & (0x1u8 << 2u8) == 0,
            (0x1u8 << 2u8) & (0x1u8 << 5u8) == 0,
            (0x1u8 << 5u8) & (0x1u8 << 2u8) == 0,
            (0x1u8 << 2u8) & (0x1u8 << 6u8) == 0,
            (0x1u8 << 6u8) & (0x1u8 << 2u8) == 0,
            (0x1u8 << 2u8) & (0x1u8 << 7u8) == 0,
            (0x1u8 << 7u8) & (0x1u8 << 2u8) == 0,
            (0x1u8 << 3u8) & (0x1u8 << 4u8) == 0,
            (0x1u8 << 4u8) & (0x1u8 << 3u8) == 0,
            (0x1u8 << 3u8) & (0x1u8 << 5u8) == 0,
            (0x1u8 << 5u8) & (0x1u8 << 3u8) == 0,
            (0x1u8 << 3u8) & (0x1u8 << 6u8) == 0,
            (0x1u8 << 6u8) & (0x1u8 << 3u8) == 0,
            (0x1u8 << 3u8) & (0x1u8 << 7u8) == 0,
            (0x1u8 << 7u8) & (0x1u8 << 3u8) == 0,
            (0x1u8 << 4u8) & (0x1u8 << 5u8) == 0,
            (0x1u8 << 5u8) & (0x1u8 << 4u8) == 0,
            (0x1u8 << 4u8) & (0x1u8 << 6u8) == 0,
            (0x1u8 << 6u8) & (0x1u8 << 4u8) == 0,
            (0x1u8 << 4u8) & (0x1u8 << 7u8) == 0,
            (0x1u8 << 7u8) & (0x1u8 << 4u8) == 0,
            (0x1u8 << 5u8) & (0x1u8 << 6u8) == 0,
            (0x1u8 << 6u8) & (0x1u8 << 5u8) == 0,
            (0x1u8 << 5u8) & (0x1u8 << 7u8) == 0,
            (0x1u8 << 7u8) & (0x1u8 << 5u8) == 0,
            (0x1u8 << 6u8) & (0x1u8 << 7u8) == 0,
            (0x1u8 << 7u8) & (0x1u8 << 6u8) == 0,
            1u8 & 1u8 == 1,
            0u8 & 1u8 == 0,
    {
    }

    /// The raw bits.
    pub fn into_bits(self) -> (r: u8)
        ensures
            r == self.0,
    {
        self.0
    }

    /// Additional mesh peerings are accepted.
    pub open spec fn spec_accept_additional_mesh_peerings(self) -> bool {
        get_bits_u8(self.0, 0, 1) == 1
    }

    /// Additional mesh peerings are accepted.
    pub fn accept_additional_mesh_peerings(&self) -> (r: bool)
        ensures
            r == self.spec_accept_additional_mesh_peerings(),
    {
        (self.0 >> 0) & 1 == 1
    }

    /// Returns a copy with the field replaced by `value`.
    pub fn with_accept_additional_mesh_peerings(self, value: bool) -> (r: Self)
        ensures
            r.0 == set_bits_u8(self.0, 0, 0x1, (if value {
                1u8
            } else {
                0u8
            })),
            r.spec_accept_additional_mesh_peerings() == value,
            r.spec_mcca_supported() == self.spec_mcca_supported(),
            r.spec_mcca_enabled() == self.spec_mcca_enabled(),
            r.spec_forwarding() == self.spec_forwarding(),
            r.spec_mbca_enabled() == self.spec_mbca_enabled(),
            r.spec_tbtt_adjusting() == self.spec_tbtt_adjusting(),
            r.spec_mesh_power_save_level() == self.spec_mesh_power_save_level(),
            r.spec__reserved() == self.spec__reserved(),
    {
        let v: u8 = if value {
            1
        } else {
            0
        };
        proof {
            Self::lemma_masks_fit();
            lemma_set_bits_u8(self.0, 0, 0x1, v, 0, 0x1);
            lemma_set_bits_u8(self.0, 0, 0x1, v, 1, 0x1);
            lemma_set_bits_u8(self.0, 0, 0x1, v, 2, 0x1);
            lemma_set_bits_u8(self.0, 0, 0x1, v, 3, 0x1);
            lemma_set_bits_u8(self.0, 0, 0x1, v, 4, 0x1);
            lemma_set_bits_u8(self.0, 0, 0x1, v, 5, 0x1);
            lemma_set_bits_u8(self.0, 0, 0x1, v, 6, 0x1);
            lemma_set_bits_u8(self.0, 0, 0x1, v, 7, 0x1);
        }
        Self((self.0 & !(0x1u8 << 0u8)) | ((v & 0x1) << 0u8))
    }

    /// MCCA is supported.
    pub open spec fn spec_mcca_supported(self) -> bool {
        get_bits_u8(self.0, 1, 1) == 1
    }

    /// MCCA is supported.
    pub fn mcca_supported(&self) -> (r: bool)
        ensures
            r == self.spec_mcca_supported(),
    {
        (self.0 >> 1) & 1 == 1
    }

    /// Returns a copy with the field replaced by `value`.
    pub fn with_mcca_supported(self, value: bool) -> (r: Self)
        ensures
            r.0 == set_bits_u8(self.0, 1, 0x1, (if value {
                1u8
            } else {
                0u8
            })),
            r.spec_mcca_supported() == value,
            r.spec_accept_additional_mesh_peerings() == self.spec_accept_additional_mesh_peerings(),
            r.spec_mcca_enabled() == self.spec_mcca_enabled(),
            r.spec_forwarding() == self.spec_forwarding(),
            r.spec_mbca_enabled() == self.spec_mbca_enabled(),
            r.spec_tbtt_adjusting() == self.spec_tbtt_adjusting(),
            r.spec_mesh_power_save_level() == self.spec_mesh_power_save_level(),
            r.spec__reserved() == self.spec__reserved(),
    {
        let v: u8 = if value {
            1
        } else {
            0
        };
        proof {
            Self::lemma_masks_fit();
            lemma_set_bits_u8(self.0, 1, 0x1, v, 1, 0x1);
            lemma_set_bits_u8(self.0, 1, 0x1, v, 0, 0x1);
            lemma_set_bits_u8(self.0, 1, 0x1, v, 2, 0x1);
            lemma_set_bits_u8(self.0, 1, 0x1, v, 3, 0x1);
            lemma_set_bits_u8(self.0, 1, 0x1, v, 4, 0x1);
            lemma_set_bits_u8(self.0, 1, 0x1, v, 5, 0x1);
            lemma_set_bits_u8(self.0, 1, 0x1, v, 6, 0x1);
            lemma_set_bits_u8(self.0, 1, 0x1, v, 7, 0x1);
        }
        Self((self.0 & !(0x1u8 << 1u8)) | ((v & 0x1) << 1u8))
    }

    /// MCCA is enabled.
    pub open spec fn spec_mcca_enabled(self) -> bool {
        get_bits_u8(self.0, 2, 1) == 1
    }

    /// MCCA is enabled.
    pub fn mcca_enabled(&self) -> (r: bool)
        ensures
            r == self.spec_mcca_enabled(),
    {
        (self.0 >> 2) & 1 == 1
    }

    /// Returns a copy with the field replaced by `value`.
    pub fn with_mcca_enabled(self, value: bool) -> (r: Self)
        ensures
            r.0 == set_bits_u8(self.0, 2, 0x1, (if value {
                1u8
            } else {
                0u8
            })),
            r.spec_mcca_enabled() == value,
            r.spec_accept_additional_mesh_peerings() == self.spec_accept_additional_mesh_peerings(),
            r.spec_mcca_supported() == self.spec_mcca_supported(),
            r.spec_forwarding() == self.spec_forwarding(),
            r.spec_mbca_enabled() == self.spec_mbca_enabled(),
            r.spec_tbtt_adjusting() == self.spec_tbtt_adjusting(),
            r.spec_mesh_power_save_level() == self.spec_mesh_power_save_level(),
            r.spec__reserved() == self.spec__reserved(),
    {
        let v: u8 = if value {
            1
        } else {
            0
        };
        proof {
            Self::lemma_masks_fit();
            lemma_set_bits_u8(self.0, 2, 0x1, v, 2, 0x1);
            lemma_set_bits_u8(self.0, 2, 0x1, v, 0, 0x1);
            lemma_set_bits_u8(self.0, 2, 0x1, v, 1, 0x1);
            lemma_set_bits_u8(self.0, 2, 0x1, v, 3, 0x1);
            lemma_set_bits_u8(self.0, 2, 0x1, v, 4, 0x1);
            lemma_set_bits_u8(self.0, 2, 0x1, v, 5, 0x1);
            lemma_set_bits_u8(self.0, 2, 0x1, v, 6, 0x1);
            lemma_set_bits_u8(self.0, 2, 0x1, v, 7, 0x1);
        }
        Self((self.0 & !(0x1u8 << 2u8)) | ((v & 0x1) << 2u8))
    }

    /// Frames are forwarded.
    pub open spec fn spec_forwarding(self) -> bool {
        get_bits_u8(self.0, 3, 1) == 1
    }

    /// Frames are forwarded.
    pub fn forwarding(&self) -> (r: bool)
        ensures
            r == self.spec_forwarding(),
    {
        (self.0 >> 3) & 1 == 1
    }

    /// Returns a copy with the field replaced by `value`.
    pub fn with_forwarding(self, value: bool) -> (r: Self)
        ensures
            r.0 == set_bits_u8(self.0, 3, 0x1, (if value {
                1u8
            } else {
                0u8
            })),
            r.spec_forwarding() == value,
            r.spec_accept_additional_mesh_peerings() == self.spec_accept_additional_mesh_peerings(),
            r.spec_mcca_supported() == self.spec_mcca_supported(),
            r.spec_mcca_enabled() == self.spec_mcca_enabled(),
            r.spec_mbca_enabled() == self.spec_mbca_enabled(),
            r.spec_tbtt_adjusting() == self.spec_tbtt_adjusting(),
            r.spec_mesh_power_save_level() == self.spec_mesh_power_save_level(),
            r.spec__reserved() == self.spec__reserved(),
    {
        let v: u8 = if value {
            1
        } else {
            0
        };
        proof {
            Self::lemma_masks_fit();
            lemma_set_bits_u8(self.0, 3, 0x1, v, 3, 0x1);
            lemma_set_bits_u8(self.0, 3, 0x1, v, 0, 0x1);
            lemma_set_bits_u8(self.0, 3, 0x1, v, 1, 0x1);
            lemma_set_bits_u8(self.0, 3, 0x1, v, 2, 0x1);
            lemma_set_bits_u8(self.0, 3, 0x1, v, 4, 0x1);
            lemma_set_bits_u8(self.0, 3, 0x1, v, 5, 0x1);
            lemma_set_bits_u8(self.0, 3, 0x1, v, 6, 0x1);
            lemma_set_bits_u8(self.0, 3, 0x1, v, 7, 0x1);
        }
        Self((self.0 & !(0x1u8 << 3u8)) | ((v & 0x1) << 3u8))
    }

    /// MBCA is enabled.
    pub open spec fn spec_mbca_enabled(self) -> bool {
        get_bits_u8(self.0, 4, 1) == 1
    }

    /// MBCA is enabled.
    pub fn mbca_enabled(&self) -> (r: bool)
        ensures
            r == self.spec_mbca_enabled(),
    {
        (self.0 >> 4) & 1 == 1
    }

    /// Returns a copy with the field replaced by `value`.
    pub fn with_mbca_enabled(self, value: bool) -> (r: Self)
        ensures
            r.0 == set_bits_u8(self.0, 4, 0x1, (if value {
                1u8
            } else {
                0u8
            })),
            r.spec_mbca_enabled() == value,
            r.spec_accept_additional_mesh_peerings() == self.spec_accept_additional_mesh_peerings(),
            r.spec_mcca_supported() == self.spec_mcca_supported(),
            r.spec_mcca_enabled() == self.spec_mcca_enabled(),
            r.spec_forwarding() == self.spec_forwarding(),
            r.spec_tbtt_adjusting() == self.spec_tbtt_adjusting(),
            r.spec_mesh_power_save_level() == self.spec_mesh_power_save_level(),
            r.spec__reserved() == self.spec__reserved(),
    {
        let v: u8 = if value {
            1
        } else {
            0
        };
        proof {
            Self::lemma_masks_fit();
            lemma_set_bits_u8(self.0, 4, 0x1, v, 4, 0x1);
            lemma_set_bits_u8(self.0, 4, 0x1, v, 0, 0x1);
            lemma_set_bits_u8(self.0, 4, 0x1, v, 1, 0x1);
            lemma_set_bits_u8(self.0, 4, 0x1, v, 2, 0x1);
            lemma_set_bits_u8(self.0, 4, 0x1, v, 3, 0x1);
            lemma_set_bits_u8(self.0, 4, 0x1, v, 5, 0x1);
            lemma_set_bits_u8(self.0, 4, 0x1, v, 6, 0x1);
            lemma_set_bits_u8(self.0, 4, 0x1, v, 7, 0x1);
        }
        Self((self.0 & !(0x1u8 << 4u8)) | ((v & 0x1) << 4u8))
    }

    /// The TBTT is being adjusted.
    pub open spec fn spec_tbtt_adjusting(self) -> bool {
        get_bits_u8(self.0, 5, 1) == 1
    }

    /// The TBTT is being adjusted.
    pub fn tbtt_adjusting(&self) -> (r: bool)
        ensures
            r == self.spec_tbtt_adjusting(),
    {
        (self.0 >> 5) & 1 == 1
    }

    /// Returns a copy with the field replaced by `value`.
    pub fn with_tbtt_adjusting(self, value: bool) -> (r: Self)
        ensures
            r.0 == set_bits_u8(self.0, 5, 0x1, (if value {
                1u8
            } else {
                0u8
            })),
            r.spec_tbtt_adjusting() == value,
            r.spec_accept_additional_mesh_peerings() == self.spec_accept_additional_mesh_peerings(),
            r.spec_mcca_supported() == self.spec_mcca_supported(),
            r.spec_mcca_enabled() == self.spec_mcca_enabled(),
            r.spec_forwarding() == self.spec_forwarding(),
            r.spec_mbca_enabled() == self.spec_mbca_enabled(),
            r.spec_mesh_power_save_level() == self.spec_mesh_power_save_level(),
            r.spec__reserved() == self.spec__reserved(),
    {
        let v: u8 = if value {
            1
        } else {
            0
        };
        proof {
            Self::lemma_masks_fit();
            lemma_set_bits_u8(self.0, 5, 0x1, v, 5, 0x1);
            lemma_set_bits_u8(self.0, 5, 0x1, v, 0, 0x1);
            lemma_set_bits_u8(self.0, 5, 0x1, v, 1, 0x1);
            lemma_set_bits_u8(self.0, 5, 0x1, v, 2, 0x1);
            lemma_set_bits_u8(self.0, 5, 0x1, v, 3, 0x1);
            lemma_set_bits_u8(self.0, 5, 0x1, v, 4, 0x1);
            lemma_set_bits_u8(self.0, 5, 0x1, v, 6, 0x1);
            lemma_set_bits_u8(self.0, 5, 0x1, v, 7, 0x1);
        }
        Self((self.0 & !(0x1u8 << 5u8)) | ((v & 0x1) << 5u8))
    }

    /// The mesh power save level.
    pub open spec fn spec_mesh_power_save_level(self) -> bool {
        get_bits_u8(self.0, 6, 1) == 1
    }

    /// The mesh power save level.
    pub fn mesh_power_save_level(&self) -> (r: bool)
        ensures
            r == self.spec_mesh_power_save_level(),
    {
        (self.0 >> 6) & 1 == 1
    }

    /// Returns a copy with the field replaced by `value`.
    pub fn with_mesh_power_save_level(self, value: bool) -> (r: Self)
        ensures
            r.0 == set_bits_u8(self.0, 6, 0x1, (if value {
                1u8
            } else {
                0u8
            })),
            r.spec_mesh_power_save_level() == value,
            r.spec_accept_additional_mesh_peerings() == self.spec_accept_additional_mesh_peerings(),
            r.spec_mcca_supported() == self.spec_mcca_supported(),
            r.spec_mcca_enabled() == self.spec_mcca_enabled(),
            r.spec_forwarding() == self.spec_forwarding(),
            r.spec_mbca_enabled() == self.spec_mbca_enabled(),
            r.spec_tbtt_adjusting() == self.spec_tbtt_adjusting(),
            r.spec__reserved() == self.spec__reserved(),
    {
        let v: u8 = if value {
            1
        } else {
            0
        };
        proof {
            Self::lemma_masks_fit();
            lemma_set_bits_u8(self.0, 6, 0x1, v, 6, 0x1);
            lemma_set_bits_u8(self.0, 6, 0x1, v, 0, 0x1);
            lemma_set_bits_u8(self.0, 6, 0x1, v, 1, 0x1);
            lemma_set_bits_u8(self.0, 6, 0x1, v, 2, 0x1);
            lemma_set_bits_u8(self.0, 6, 0x1, v, 3, 0x1);
            lemma_set_bits_u8(self.0, 6, 0x1, v, 4, 0x1);
            lemma_set_bits_u8(self.0, 6, 0x1, v, 5, 0x1);
            lemma_set_bits_u8(self.0, 6, 0x1, v, 7, 0x1);
        }
        Self((self.0 & !(0x1u8 << 6u8)) | ((v & 0x1) << 6u8))
    }

    /// Reserved.
    pub open spec fn spec__reserved(self) -> bool {
        get_bits_u8(self.0, 7, 1) == 1
    }

    /// Reserved.
    pub fn _reserved(&self) -> (r: bool)
        ensures
            r == self.spec__reserved(),
    {
        (self.0 >> 7) & 1 == 1
    }

    /// Returns a copy with the field replaced by `value`.
    pub fn with__reserved(self, value: bool) -> (r: Self)
        ensures
            r.0 == set_bits_u8(self.0, 7, 0x1, (if value {
                1u8
            } else {
                0u8
            })),
            r.spec__reserved() == value,
            r.spec_accept_additional_mesh_peerings() == self.spec_accept_additional_mesh_peerings(),
            r.spec_mcca_supported() == self.spec_mcca_supported(),
            r.spec_mcca_enabled() == self.spec_mcca_enabled(),
            r.spec_forwarding() == self.spec_forwarding(),
            r.spec_mbca_enabled() == self.spec_mbca_enabled(),
            r.spec_tbtt_adjusting() == self.spec_tbtt_adjusting(),
            r.spec_mesh_power_save_level() == self.spec_mesh_power_save_level(),
    {
        let v: u8 = if value {
            1
        } else {
            0
        };
        proof {
            Self::lemma_masks_fit();
            lemma_set_bits_u8(self.0, 7, 0x1, v, 7, 0x1);
            lemma_set_bits_u8(self.0, 7, 0x1, v, 0, 0x1);
            lemma_set_bits_u8(self.0, 7, 0x1, v, 1, 0x1);
            lemma_set_bits_u8(self.0, 7, 0x1, v, 2, 0x1);
            lemma_set_bits_u8(self.0, 7, 0x1, v, 3, 0x1);
            lemma_set_bits_u8(self.0, 7, 0x1, v, 4, 0x1);
            lemma_set_bits_u8(self.0, 7, 0x1, v, 5, 0x1);
            lemma_set_bits_u8(self.0, 7, 0x1, v, 6, 0x1);
        }
        Self((self.0 & !(0x1u8 << 7u8)) | ((v & 0x1) << 7u8))
    }
}

/// The Mesh Configuration element is used to advertise mesh services.
#[derive(Clone, Copy, Debug, PartialEq, Eq, Hash, Structural)]
pub struct MeshConfigurationElement {
    /// The active path selection protocol.
    pub active_path_selection_protocol_identifier: MeshConfigurationActivePathSelectionProtocolIdentifier,
    /// The active path selection metric.
    pub active_path_selection_metric_identifier: MeshConfigurationActivePathSelectionMetricIdentifier,
    /// The congestion control mode.
    pub congestion_control_mode_identifier: MeshConfigurationCongestionControlModeIdentifier,
    /// The synchronization method.
    pub syncronization_method_identifier: MeshConfigurationSynchronizationMethodIdentifier,
    /// The authentication protocol.
    pub authentication_protocol_identifier: MeshConfigurationAuthenticationProtocolIdentifier,
    /// Information about the formation of the mesh.
    pub mesh_formation_info: MeshFormationInfo,
    /// The mesh capabilities.
    pub mesh_capability: MeshCapability,
}

impl MeshConfigurationElement {
    /// The result of reading the element body at the start of `s`.
    pub open spec fn spec_parse(s: Seq<u8>) -> Result<(MeshConfigurationElement, usize), Error> {
        if s.len() < 7 {
            Err(Error::TooShort)
        } else {
            Ok((MeshConfigurationElement {
                active_path_selection_protocol_identifier: MeshConfigurationActivePathSelectionProtocolIdentifier::spec_from_bits(s[0]),
                active_path_selection_metric_identifier: MeshConfigurationActivePathSelectionMetricIdentifier::spec_from_bits(s[1]),
                congestion_control_mode_identifier: MeshConfigurationCongestionControlModeIdentifier::spec_from_bits(s[2]),
                syncronization_method_identifier: MeshConfigurationSynchronizationMethodIdentifier::spec_from_bits(s[3]),
                authentication_protocol_identifier: MeshConfigurationAuthenticationProtocolIdentifier::spec_from_bits(s[4]),
                mesh_formation_info: MeshFormationInfo(s[5]),
                mesh_capability: MeshCapability(s[6]),
            }, 7))
        }
    }

    /// The serialized element body.
    pub open spec fn spec_bytes(self) -> Seq<u8> {
        seq![self.active_path_selection_protocol_identifier.spec_into_bits()] + seq![self.active_path_selection_metric_identifier.spec_into_bits()] + seq![self.congestion_control_mode_identifier.spec_into_bits()] + seq![self.syncronization_method_identifier.spec_into_bits()] + seq![self.authentication_protocol_identifier.spec_into_bits()] + seq![self.mesh_formation_info.0] + seq![self.mesh_capability.0]
    }

    /// Read the element body at the start of `from`.
    ///
    /// Fails with [Error::TooShort] on fewer than 7 bytes.
    pub fn try_from_ctx(from: &[u8]) -> (r: Result<(Self, usize), Error>)
        ensures
            r == Self::spec_parse(from@),
    {
        if from.len() < 7 {
            return Err(Error::TooShort);
        }
        Ok((MeshConfigurationElement {
            active_path_selection_protocol_identifier: MeshConfigurationActivePathSelectionProtocolIdentifier::from_bits(from[0]),
            active_path_selection_metric_identifier: MeshConfigurationActivePathSelectionMetricIdentifier::from_bits(from[1]),
            congestion_control_mode_identifier: MeshConfigurationCongestionControlModeIdentifier::from_bits(from[2]),
            syncronization_method_identifier: MeshConfigurationSynchronizationMethodIdentifier::from_bits(from[3]),
            authentication_protocol_identifier: MeshConfigurationAuthenticationProtocolIdentifier::from_bits(from[4]),
            mesh_formation_info: MeshFormationInfo(from[5]),
            mesh_capability: MeshCapability(from[6]),
        }, 7))
    }

    /// The serialized element body.
    pub fn to_bytes(&self) -> (r: Vec<u8>)
        ensures
            r@ == self.spec_bytes(),
    {
        let mut out: Vec<u8> = Vec::new();
        out.push(self.active_path_selection_protocol_identifier.into_bits());
        out.push(self.active_path_selection_metric_identifier.into_bits());
        out.push(self.congestion_control_mode_identifier.into_bits());
        out.push(self.syncronization_method_identifier.into_bits());
        out.push(self.authentication_protocol_identifier.into_bits());
        out.push(self.mesh_formation_info.0);
        out.push(self.mesh_capability.0);
        assert(out@ =~= self.spec_bytes());
        out
    }

    /// Write the element body to the start of `buf`, returning the number of bytes written.
    pub fn try_into_ctx(self, buf: &mut [u8]) -> (r: Result<usize, Error>)
        ensures
            final(buf)@.len() == old(buf)@.len(),
            old(buf)@.len() >= 7 ==> r == Ok::<usize, Error>(7) && final(buf)@ == self.spec_bytes()
                + old(buf)@.skip(7),
            old(buf)@.len() < 7 ==> r == Err::<usize, Error>(Error::TooShort),
    {
        let bytes = self.to_bytes();
        write_all(buf, bytes.as_slice())
    }

    /// The length of the serialized element body.
    pub fn measure_with(&self) -> (r: usize)
        ensures
            r == self.spec_bytes().len(),
    {
        7
    }

    /// Reading back a written element body gives the same element.
    pub proof fn lemma_roundtrip(self, rest: Seq<u8>)
        requires
            MeshConfigurationActivePathSelectionProtocolIdentifier::spec_from_bits(self.active_path_selection_protocol_identifier.spec_into_bits()) == self.active_path_selection_protocol_identifier,
            MeshConfigurationActivePathSelectionMetricIdentifier::spec_from_bits(self.active_path_selection_metric_identifier.spec_into_bits()) == self.active_path_selection_metric_identifier,
            MeshConfigurationCongestionControlModeIdentifier::spec_from_bits(self.congestion_control_mode_identifier.spec_into_bits()) == self.congestion_control_mode_identifier,
            MeshConfigurationSynchronizationMethodIdentifier::spec_from_bits(self.syncronization_method_identifier.spec_into_bits()) == self.syncronization_method_identifier,
            MeshConfigurationAuthenticationProtocolIdentifier::spec_from_bits(self.authentication_protocol_identifier.spec_into_bits()) == self.authentication_protocol_identifier,
        ensures
            Self::spec_parse(self.spec_bytes() + rest) == Ok::<(MeshConfigurationElement, usize), Error>((self, 7usize)),
    {
        let s = self.spec_bytes() + rest;
        assert(s[0] == self.active_path_selection_protocol_identifier.spec_into_bits());
        assert(s[1] == self.active_path_selection_metric_identifier.spec_into_bits());
        assert(s[2] == self.congestion_control_mode_identifier.spec_into_bits());
        assert(s[3] == self.syncronization_method_identifier.spec_into_bits());
        assert(s[4] == self.authentication_protocol_identifier.spec_into_bits());
        assert(s[5] == self.mesh_formation_info.0);
        assert(s[6] == self.mesh_capability.0);
        assert((MeshConfigurationElement::spec_parse(self.spec_bytes() + rest)->Ok_0).0 =~= self);
    }
}

impl Element for MeshConfigurationElement {
    type ReadType<'a> = MeshConfigurationElement;

    open spec fn spec_body(&self) -> Seq<u8> {
        self.spec_bytes()
    }

    fn body_bytes(&self) -> (r: Vec<u8>) {
        self.to_bytes()
    }

    open spec fn spec_element_id() -> ElementID {
        ElementID::Id(113)
    }

    open spec fn spec_read<'a>(body: Seq<u8>, r: Option<MeshConfigurationElement>) -> bool {
        r == match Self::spec_parse(body) {
            Ok((e, _)) => Some(e),
            Err(_) => None::<MeshConfigurationElement>,
        }
    }

    fn element_id() -> (r: ElementID) {
        ElementID::Id(113)
    }

    fn read<'a>(body: &'a [u8]) -> (r: Option<MeshConfigurationElement>) {
        match MeshConfigurationElement::try_from_ctx(body) {
            Ok((e, _)) => Some(e),
            Err(_) => None,
        }
    }
}

/// The numbering of [MeshConfigurationActivePathSelectionProtocolIdentifier]: each named value is read from its own number and written as that
/// number, and any other number is kept as an unknown value.
pub proof fn lemma_mesh_configuration_active_path_selection_protocol_identifier_numbering(value: u8)
    ensures
        (MeshConfigurationActivePathSelectionProtocolIdentifier::spec_from_bits(value) == MeshConfigurationActivePathSelectionProtocolIdentifier::HWMP) == (value == 1),
        (MeshConfigurationActivePathSelectionProtocolIdentifier::spec_from_bits(value) == MeshConfigurationActivePathSelectionProtocolIdentifier::VendorSpecific) == (value == 255),
        MeshConfigurationActivePathSelectionProtocolIdentifier::HWMP.spec_into_bits() == 1,
        MeshConfigurationActivePathSelectionProtocolIdentifier::VendorSpecific.spec_into_bits() == 255,
        (MeshConfigurationActivePathSelectionProtocolIdentifier::spec_from_bits(value) == MeshConfigurationActivePathSelectionProtocolIdentifier::Unknown(value)) == !(
            value == 1 || value == 255),
{
}

/// The numbering of [MeshConfigurationActivePathSelectionMetricIdentifier]: each named value is read from its own number and written as that
/// number, and any other number is kept as an unknown value.
pub proof fn lemma_mesh_configuration_active_path_selection_metric_identifier_numbering(value: u8)
    ensures
        (MeshConfigurationActivePathSelectionMetricIdentifier::spec_from_bits(value) == MeshConfigurationActivePathSelectionMetricIdentifier::AirtimeLinkMetric) == (value == 1),
        (MeshConfigurationActivePathSelectionMetricIdentifier::spec_from_bits(value) == MeshConfigurationActivePathSelectionMetricIdentifier::HighPHYRateAirtimeLinkMetric) == (value == 2),
        (MeshConfigurationActivePathSelectionMetricIdentifier::spec_from_bits(value) == MeshConfigurationActivePathSelectionMetricIdentifier::VendorSpecific) == (value == 255),
        MeshConfigurationActivePathSelectionMetricIdentifier::AirtimeLinkMetric.spec_into_bits() == 1,
        MeshConfigurationActivePathSelectionMetricIdentifier::HighPHYRateAirtimeLinkMetric.spec_into_bits() == 2,
        MeshConfigurationActivePathSelectionMetricIdentifier::VendorSpecific.spec_into_bits() == 255,
        (MeshConfigurationActivePathSelectionMetricIdentifier::spec_from_bits(value) == MeshConfigurationActivePathSelectionMetricIdentifier::Unknown(value)) == !(
            value == 1 || value == 2 || value == 255),
{
}

/// The numbering of [MeshConfigurationCongestionControlModeIdentifier]: each named value is read from its own number and written as that
/// number, and any other number is kept as an unknown value.
pub proof fn lemma_mesh_configuration_congestion_control_mode_identifier_numbering(value: u8)
    ensures
        (MeshConfigurationCongestionControlModeIdentifier::spec_from_bits(value) == MeshConfigurationCongestionControlModeIdentifier::NotActivated) == (value == 0),
        (MeshConfigurationCongestionControlModeIdentifier::spec_from_bits(value) == MeshConfigurationCongestionControlModeIdentifier::SignalingProtocol) == (value == 1),
        (MeshConfigurationCongestionControlModeIdentifier::spec_from_bits(value) == MeshConfigurationCongestionControlModeIdentifier::VendorSpecific) == (value == 255),
        MeshConfigurationCongestionControlModeIdentifier::NotActivated.spec_into_bits() == 0,
        MeshConfigurationCongestionControlModeIdentifier::SignalingProtocol.spec_into_bits() == 1,
        MeshConfigurationCongestionControlModeIdentifier::VendorSpecific.spec_into_bits() == 255,
        (MeshConfigurationCongestionControlModeIdentifier::spec_from_bits(value) == MeshConfigurationCongestionControlModeIdentifier::Unknown(value)) == !(
            value == 0 || value == 1 || value == 255),
{
}

/// The numbering of [MeshConfigurationSynchronizationMethodIdentifier]: each named value is read from its own number and written as that
/// number, and any other number is kept as an unknown value.
pub proof fn lemma_mesh_configuration_synchronization_method_identifier_numbering(value: u8)
    ensures
        (MeshConfigurationSynchronizationMethodIdentifier::spec_from_bits(value) == MeshConfigurationSynchronizationMethodIdentifier::NeighborOffsetSynchronization) == (value == 1),
        (MeshConfigurationSynchronizationMethodIdentifier::spec_from_bits(value) == MeshConfigurationSynchronizationMethodIdentifier::VendorSpecific) == (value == 255),
        MeshConfigurationSynchronizationMethodIdentifier::NeighborOffsetSynchronization.spec_into_bits() == 1,
        MeshConfigurationSynchronizationMethodIdentifier::VendorSpecific.spec_into_bits() == 255,
        (MeshConfigurationSynchronizationMethodIdentifier::spec_from_bits(value) == MeshConfigurationSynchronizationMethodIdentifier::Unknown(value)) == !(
            value == 1 || value == 255),
{
}

/// The numbering of [MeshConfigurationAuthenticationProtocolIdentifier]: each named value is read from its own number and written as that
/// number, and any other number is kept as an unknown value.
pub proof fn lemma_mesh_configuration_authentication_protocol_identifier_numbering(value: u8)
    ensures
        (MeshConfigurationAuthenticationProtocolIdentifier::spec_from_bits(value) == MeshConfigurationAuthenticationProtocolIdentifier::NoAuthentication) == (value == 0),
        (MeshConfigurationAuthenticationProtocolIdentifier::spec_from_bits(value) == MeshConfigurationAuthenticationProtocolIdentifier::SAE) == (value == 1),
        (MeshConfigurationAuthenticationProtocolIdentifier::spec_from_bits(value) == MeshConfigurationAuthenticationProtocolIdentifier::IEEE80211XAuthentication) == (value == 2),
        (MeshConfigurationAuthenticationProtocolIdentifier::spec_from_bits(value) == MeshConfigurationAuthenticationProtocolIdentifier::VendorSpecific) == (value == 255),
        MeshConfigurationAuthenticationProtocolIdentifier::NoAuthentication.spec_into_bits() == 0,
        MeshConfigurationAuthenticationProtocolIdentifier::SAE.spec_into_bits() == 1,
        MeshConfigurationAuthenticationProtocolIdentifier::IEEE80211XAuthentication.spec_into_bits() == 2,
        MeshConfigurationAuthenticationProtocolIdentifier::VendorSpecific.spec_into_bits() == 255,
        (MeshConfigurationAuthenticationProtocolIdentifier::spec_from_bits(value) == MeshConfigurationAuthenticationProtocolIdentifier::Unknown(value)) == !(
            value == 0 || value == 1 || value == 2 || value == 255),
{
}

} // verus!
