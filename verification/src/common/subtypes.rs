//! The subtypes of management, control and data frames.
use vstd::prelude::*;

verus! {

/// The subtype of a management frame.
#[derive(Clone, Copy, Debug, PartialEq, Eq, Hash, Structural)]
pub enum ManagementFrameSubtype {
    AssociationRequest,
    AssociationResponse,
    ReassociationRequest,
    ReassociationResponse,
    ProbeRequest,
    ProbeResponse,
    TimingAdvertisement,
    Beacon,
    ATIM,
    Disassociation,
    Authentication,
    Deauthentication,
    Action,
    ActionNoAck,
    /// A value without a name.
    Unknown(u8),
}

impl ManagementFrameSubtype {
    /// The variant that `value` encodes.
    pub open spec fn spec_from_bits(value: u8) -> Self {
        match value {
            0b0000 => ManagementFrameSubtype::AssociationRequest,
            0b0001 => ManagementFrameSubtype::AssociationResponse,
            0b0010 => ManagementFrameSubtype::ReassociationRequest,
            0b0011 => ManagementFrameSubtype::ReassociationResponse,
            0b0100 => ManagementFrameSubtype::ProbeRequest,
            0b0101 => ManagementFrameSubtype::ProbeResponse,
            0b0110 => ManagementFrameSubtype::TimingAdvertisement,
            0b1000 => ManagementFrameSubtype::Beacon,
            0b1001 => ManagementFrameSubtype::ATIM,
            0b1010 => ManagementFrameSubtype::Disassociation,
            0b1011 => ManagementFrameSubtype::Authentication,
            0b1100 => ManagementFrameSubtype::Deauthentication,
            0b1101 => ManagementFrameSubtype::Action,
            0b1110 => ManagementFrameSubtype::ActionNoAck,
            x => ManagementFrameSubtype::Unknown(x),
        }
    }

    /// The encoding of this variant.
    pub open spec fn spec_into_bits(self) -> u8 {
        match self {
            ManagementFrameSubtype::AssociationRequest => 0b0000,
            ManagementFrameSubtype::AssociationResponse => 0b0001,
            ManagementFrameSubtype::ReassociationRequest => 0b0010,
            ManagementFrameSubtype::ReassociationResponse => 0b0011,
            ManagementFrameSubtype::ProbeRequest => 0b0100,
            ManagementFrameSubtype::ProbeResponse => 0b0101,
            ManagementFrameSubtype::TimingAdvertisement => 0b0110,
            ManagementFrameSubtype::Beacon => 0b1000,
            ManagementFrameSubtype::ATIM => 0b1001,
            ManagementFrameSubtype::Disassociation => 0b1010,
            ManagementFrameSubtype::Authentication => 0b1011,
            ManagementFrameSubtype::Deauthentication => 0b1100,
            ManagementFrameSubtype::Action => 0b1101,
            ManagementFrameSubtype::ActionNoAck => 0b1110,
            ManagementFrameSubtype::Unknown(x) => x,
        }
    }

    /// Decode a variant from its representation.
    pub fn from_bits(value: u8) -> (r: Self)
        ensures
            r == Self::spec_from_bits(value),
            r.spec_into_bits() == value,
    {
        match value {
            0b0000 => ManagementFrameSubtype::AssociationRequest,
            0b0001 => ManagementFrameSubtype::AssociationResponse,
            0b0010 => ManagementFrameSubtype::ReassociationRequest,
            0b0011 => ManagementFrameSubtype::ReassociationResponse,
            0b0100 => ManagementFrameSubtype::ProbeRequest,
            0b0101 => ManagementFrameSubtype::ProbeResponse,
            0b0110 => ManagementFrameSubtype::TimingAdvertisement,
            0b1000 => ManagementFrameSubtype::Beacon,
            0b1001 => ManagementFrameSubtype::ATIM,
            0b1010 => ManagementFrameSubtype::Disassociation,
            0b1011 => ManagementFrameSubtype::Authentication,
            0b1100 => ManagementFrameSubtype::Deauthentication,
            0b1101 => ManagementFrameSubtype::Action,
            0b1110 => ManagementFrameSubtype::ActionNoAck,
            x => ManagementFrameSubtype::Unknown(x),
        }
    }

    /// Encode this variant.
    pub fn into_bits(self) -> (r: u8)
        ensures
            r == self.spec_into_bits(),
    {
        match self {
            ManagementFrameSubtype::AssociationRequest => 0b0000,
            ManagementFrameSubtype::AssociationResponse => 0b0001,
            ManagementFrameSubtype::ReassociationRequest => 0b0010,
            ManagementFrameSubtype::ReassociationResponse => 0b0011,
            ManagementFrameSubtype::ProbeRequest => 0b0100,
            ManagementFrameSubtype::ProbeResponse => 0b0101,
            ManagementFrameSubtype::TimingAdvertisement => 0b0110,
            ManagementFrameSubtype::Beacon => 0b1000,
            ManagementFrameSubtype::ATIM => 0b1001,
            ManagementFrameSubtype::Disassociation => 0b1010,
            ManagementFrameSubtype::Authentication => 0b1011,
            ManagementFrameSubtype::Deauthentication => 0b1100,
            ManagementFrameSubtype::Action => 0b1101,
            ManagementFrameSubtype::ActionNoAck => 0b1110,
            ManagementFrameSubtype::Unknown(x) => x,
        }
    }
}

/// This is the subtype of a control frame.
#[derive(Clone, Copy, Debug, PartialEq, Eq, Hash, Structural)]
pub enum ControlFrameSubtype {
    TACK,
    BeamformingReportPoll,
    VHTNDPAnnouncement,
    ControlFrameExtension,
    ControlWrapper,
    BlockAckRequest,
    BlockAck,
    PSPoll,
    RTS,
    CTS,
    Ack,
    CFEnd,
    CFEndAck,
    /// A value without a name.
    Unknown(u8),
}

impl ControlFrameSubtype {
    /// The variant that `value` encodes.
    pub open spec fn spec_from_bits(value: u8) -> Self {
        match value {
            0b0011 => ControlFrameSubtype::TACK,
            0b0100 => ControlFrameSubtype::BeamformingReportPoll,
            0b0101 => ControlFrameSubtype::VHTNDPAnnouncement,
            0b0110 => ControlFrameSubtype::ControlFrameExtension,
            0b0111 => ControlFrameSubtype::ControlWrapper,
            0b1000 => ControlFrameSubtype::BlockAckRequest,
            0b1001 => ControlFrameSubtype::BlockAck,
            0b1010 => ControlFrameSubtype::PSPoll,
            0b1011 => ControlFrameSubtype::RTS,
            0b1100 => ControlFrameSubtype::CTS,
            0b1101 => ControlFrameSubtype::Ack,
            0b1110 => ControlFrameSubtype::CFEnd,
            0b1111 => ControlFrameSubtype::CFEndAck,
            x => ControlFrameSubtype::Unknown(x),
        }
    }

    /// The encoding of this variant.
    pub open spec fn spec_into_bits(self) -> u8 {
        match self {
            ControlFrameSubtype::TACK => 0b0011,
            ControlFrameSubtype::BeamformingReportPoll => 0b0100,
            ControlFrameSubtype::VHTNDPAnnouncement => 0b0101,
            ControlFrameSubtype::ControlFrameExtension => 0b0110,
            ControlFrameSubtype::ControlWrapper => 0b0111,
            ControlFrameSubtype::BlockAckRequest => 0b1000,
            ControlFrameSubtype::BlockAck => 0b1001,
            ControlFrameSubtype::PSPoll => 0b1010,
            ControlFrameSubtype::RTS => 0b1011,
            ControlFrameSubtype::CTS => 0b1100,
            ControlFrameSubtype::Ack => 0b1101,
            ControlFrameSubtype::CFEnd => 0b1110,
            ControlFrameSubtype::CFEndAck => 0b1111,
            ControlFrameSubtype::Unknown(x) => x,
        }
    }

    /// Decode a variant from its representation.
    pub fn from_bits(value: u8) -> (r: Self)
        ensures
            r == Self::spec_from_bits(value),
            r.spec_into_bits() == value,
    {
        match value {
            0b0011 => ControlFrameSubtype::TACK,
            0b0100 => ControlFrameSubtype::BeamformingReportPoll,
            0b0101 => ControlFrameSubtype::VHTNDPAnnouncement,
            0b0110 => ControlFrameSubtype::ControlFrameExtension,
            0b0111 => ControlFrameSubtype::ControlWrapper,
            0b1000 => ControlFrameSubtype::BlockAckRequest,
            0b1001 => ControlFrameSubtype::BlockAck,
            0b1010 => ControlFrameSubtype::PSPoll,
            0b1011 => ControlFrameSubtype::RTS,
            0b1100 => ControlFrameSubtype::CTS,
            0b1101 => ControlFrameSubtype::Ack,
            0b1110 => ControlFrameSubtype::CFEnd,
            0b1111 => ControlFrameSubtype::CFEndAck,
            x => ControlFrameSubtype::Unknown(x),
        }
    }

    /// Encode this variant.
    pub fn into_bits(self) -> (r: u8)
        ensures
            r == self.spec_into_bits(),
    {
        match self {
            ControlFrameSubtype::TACK => 0b0011,
            ControlFrameSubtype::BeamformingReportPoll => 0b0100,
            ControlFrameSubtype::VHTNDPAnnouncement => 0b0101,
            ControlFrameSubtype::ControlFrameExtension => 0b0110,
            ControlFrameSubtype::ControlWrapper => 0b0111,
            ControlFrameSubtype::BlockAckRequest => 0b1000,
            ControlFrameSubtype::BlockAck => 0b1001,
            ControlFrameSubtype::PSPoll => 0b1010,
            ControlFrameSubtype::RTS => 0b1011,
            ControlFrameSubtype::CTS => 0b1100,
            ControlFrameSubtype::Ack => 0b1101,
            ControlFrameSubtype::CFEnd => 0b1110,
            ControlFrameSubtype::CFEndAck => 0b1111,
            ControlFrameSubtype::Unknown(x) => x,
        }
    }
}

/// The piggy-backed control frame of the data frame.
#[derive(Clone, Copy, Debug, PartialEq, Eq, Hash, Structural)]
pub enum DataFrameCF {
    NoCF,
    Ack,
    Poll,
    AckPoll,
    /// A value without a name.
    Unknown(u8),
}

impl DataFrameCF {
    /// The variant that `value` encodes.
    pub open spec fn spec_from_bits(value: u8) -> Self {
        match value {
            0b00 => DataFrameCF::NoCF,
            0b01 => DataFrameCF::Ack,
            0b10 => DataFrameCF::Poll,
            0b11 => DataFrameCF::AckPoll,
            x => DataFrameCF::Unknown(x),
        }
    }

    /// The encoding of this variant.
    pub open spec fn spec_into_bits(self) -> u8 {
        match self {
            DataFrameCF::NoCF => 0b00,
            DataFrameCF::Ack => 0b01,
            DataFrameCF::Poll => 0b10,
            DataFrameCF::AckPoll => 0b11,
            DataFrameCF::Unknown(x) => x,
        }
    }

    /// Decode a variant from its representation.
    pub fn from_bits(value: u8) -> (r: Self)
        ensures
            r == Self::spec_from_bits(value),
            r.spec_into_bits() == value,
    {
        match value {
            0b00 => DataFrameCF::NoCF,
            0b01 => DataFrameCF::Ack,
            0b10 => DataFrameCF::Poll,
            0b11 => DataFrameCF::AckPoll,
            x => DataFrameCF::Unknown(x),
        }
    }

    /// Encode this variant.
    pub fn into_bits(self) -> (r: u8)
        ensures
            r == self.spec_into_bits(),
    {
        match self {
            DataFrameCF::NoCF => 0b00,
            DataFrameCF::Ack => 0b01,
            DataFrameCF::Poll => 0b10,
            DataFrameCF::AckPoll => 0b11,
            DataFrameCF::Unknown(x) => x,
        }
    }
}

impl Default for DataFrameCF {
    fn default() -> (r: Self)
        ensures
            r == DataFrameCF::NoCF,
    {
        DataFrameCF::NoCF
    }
}

/// The subtype of the data frame.
#[derive(Clone, Copy, Debug, PartialEq, Eq, Hash, Structural)]
pub enum DataFrameSubtype {
    Data,
    DataCFAck,
    DataCFPoll,
    DataCFAckCFPoll,
    Null,
    CFAck,
    CFPoll,
    CFAckCFPoll,
    QoSData,
    QoSDataCFAck,
    QoSDataCFPoll,
    QoSDataCFAckCFPoll,
    QoSNull,
    QoSCFPoll,
    QoSCFAckCFPoll,
    /// A value without a name.
    Unknown(u8),
}

impl DataFrameSubtype {
    /// The variant that `value` encodes.
    pub open spec fn spec_from_bits(value: u8) -> Self {
        match value {
            0b0000 => DataFrameSubtype::Data,
            0b0001 => DataFrameSubtype::DataCFAck,
            0b0010 => DataFrameSubtype::DataCFPoll,
            0b0011 => DataFrameSubtype::DataCFAckCFPoll,
            0b0100 => DataFrameSubtype::Null,
            0b0101 => DataFrameSubtype::CFAck,
            0b0110 => DataFrameSubtype::CFPoll,
            0b0111 => DataFrameSubtype::CFAckCFPoll,
            0b1000 => DataFrameSubtype::QoSData,
            0b1001 => DataFrameSubtype::QoSDataCFAck,
            0b1010 => DataFrameSubtype::QoSDataCFPoll,
            0b1011 => DataFrameSubtype::QoSDataCFAckCFPoll,
            0b1100 => DataFrameSubtype::QoSNull,
            0b1110 => DataFrameSubtype::QoSCFPoll,
            0b1111 => DataFrameSubtype::QoSCFAckCFPoll,
            x => DataFrameSubtype::Unknown(x),
        }
    }

    /// The encoding of this variant.
    pub open spec fn spec_into_bits(self) -> u8 {
        match self {
            DataFrameSubtype::Data => 0b0000,
            DataFrameSubtype::DataCFAck => 0b0001,
            DataFrameSubtype::DataCFPoll => 0b0010,
            DataFrameSubtype::DataCFAckCFPoll => 0b0011,
            DataFrameSubtype::Null => 0b0100,
            DataFrameSubtype::CFAck => 0b0101,
            DataFrameSubtype::CFPoll => 0b0110,
            DataFrameSubtype::CFAckCFPoll => 0b0111,
            DataFrameSubtype::QoSData => 0b1000,
            DataFrameSubtype::QoSDataCFAck => 0b1001,
            DataFrameSubtype::QoSDataCFPoll => 0b1010,
            DataFrameSubtype::QoSDataCFAckCFPoll => 0b1011,
            DataFrameSubtype::QoSNull => 0b1100,
            DataFrameSubtype::QoSCFPoll => 0b1110,
            DataFrameSubtype::QoSCFAckCFPoll => 0b1111,
            DataFrameSubtype::Unknown(x) => x,
        }
    }

    /// Decode a variant from its representation.
    pub fn from_bits(value: u8) -> (r: Self)
        ensures
            r == Self::spec_from_bits(value),
            r.spec_into_bits() == value,
    {
        match value {
            0b0000 => DataFrameSubtype::Data,
            0b0001 => DataFrameSubtype::DataCFAck,
            0b0010 => DataFrameSubtype::DataCFPoll,
            0b0011 => DataFrameSubtype::DataCFAckCFPoll,
            0b0100 => DataFrameSubtype::Null,
            0b0101 => DataFrameSubtype::CFAck,
            0b0110 => DataFrameSubtype::CFPoll,
            0b0111 => DataFrameSubtype::CFAckCFPoll,
            0b1000 => DataFrameSubtype::QoSData,
            0b1001 => DataFrameSubtype::QoSDataCFAck,
            0b1010 => DataFrameSubtype::QoSDataCFPoll,
            0b1011 => DataFrameSubtype::QoSDataCFAckCFPoll,
            0b1100 => DataFrameSubtype::QoSNull,
            0b1110 => DataFrameSubtype::QoSCFPoll,
            0b1111 => DataFrameSubtype::QoSCFAckCFPoll,
            x => DataFrameSubtype::Unknown(x),
        }
    }

    /// Encode this variant.
    pub fn into_bits(self) -> (r: u8)
        ensures
            r == self.spec_into_bits(),
    {
        match self {
            DataFrameSubtype::Data => 0b0000,
            DataFrameSubtype::DataCFAck => 0b0001,
            DataFrameSubtype::DataCFPoll => 0b0010,
            DataFrameSubtype::DataCFAckCFPoll => 0b0011,
            DataFrameSubtype::Null => 0b0100,
            DataFrameSubtype::CFAck => 0b0101,
            DataFrameSubtype::CFPoll => 0b0110,
            DataFrameSubtype::CFAckCFPoll => 0b0111,
            DataFrameSubtype::QoSData => 0b1000,
            DataFrameSubtype::QoSDataCFAck => 0b1001,
            DataFrameSubtype::QoSDataCFPoll => 0b1010,
            DataFrameSubtype::QoSDataCFAckCFPoll => 0b1011,
            DataFrameSubtype::QoSNull => 0b1100,
            DataFrameSubtype::QoSCFPoll => 0b1110,
            DataFrameSubtype::QoSCFAckCFPoll => 0b1111,
            DataFrameSubtype::Unknown(x) => x,
        }
    }
}

impl Default for DataFrameSubtype {
    fn default() -> (r: Self)
        ensures
            r == DataFrameSubtype::Data,
    {
        DataFrameSubtype::Data
    }
}

} // verus!

verus! {

impl DataFrameSubtype {
    /// Returns the control frame type piggy-backed on to the data frame.
    pub fn data_frame_cf(&self) -> (r: DataFrameCF)
        ensures
            r == DataFrameCF::spec_from_bits(self.spec_into_bits() % 4),
    {
        DataFrameCF::from_bits(self.into_bits() % 4)
    }

    /// Check if the data frame is QoS.
    pub fn is_qos(&self) -> (r: bool)
        ensures
            r == (self is QoSData || self is QoSDataCFAck || self is QoSDataCFPoll
                || self is QoSDataCFAckCFPoll || self is QoSNull || self is QoSCFPoll
                || self is QoSCFAckCFPoll),
    {
        match self {
            DataFrameSubtype::QoSData | DataFrameSubtype::QoSDataCFAck
            | DataFrameSubtype::QoSDataCFPoll | DataFrameSubtype::QoSDataCFAckCFPoll
            | DataFrameSubtype::QoSNull | DataFrameSubtype::QoSCFPoll
            | DataFrameSubtype::QoSCFAckCFPoll => true,
            _ => false,
        }
    }

    /// Check if the data frame has a payload.
    pub fn has_payload(&self) -> (r: bool)
        ensures
            r == (self is Data || self is DataCFAck || self is DataCFPoll || self is DataCFAckCFPoll
                || self is QoSData || self is QoSDataCFAck || self is QoSDataCFPoll
                || self is QoSDataCFAckCFPoll),
    {
        match self {
            DataFrameSubtype::Data | DataFrameSubtype::DataCFAck | DataFrameSubtype::DataCFPoll
            | DataFrameSubtype::DataCFAckCFPoll | DataFrameSubtype::QoSData
            | DataFrameSubtype::QoSDataCFAck | DataFrameSubtype::QoSDataCFPoll
            | DataFrameSubtype::QoSDataCFAckCFPoll => true,
            _ => false,
        }
    }
}

/// The numbering of [ManagementFrameSubtype]: each named value is read from its own number and written as that
/// number, and any other number is kept as an unknown value.
pub proof fn lemma_management_frame_subtype_numbering(value: u8)
    ensures
        (ManagementFrameSubtype::spec_from_bits(value) == ManagementFrameSubtype::AssociationRequest) == (value == 0b0000),
        (ManagementFrameSubtype::spec_from_bits(value) == ManagementFrameSubtype::AssociationResponse) == (value == 0b0001),
        (ManagementFrameSubtype::spec_from_bits(value) == ManagementFrameSubtype::ReassociationRequest) == (value == 0b0010),
        (ManagementFrameSubtype::spec_from_bits(value) == ManagementFrameSubtype::ReassociationResponse) == (value == 0b0011),
        (ManagementFrameSubtype::spec_from_bits(value) == ManagementFrameSubtype::ProbeRequest) == (value == 0b0100),
        (ManagementFrameSubtype::spec_from_bits(value) == ManagementFrameSubtype::ProbeResponse) == (value == 0b0101),
        (ManagementFrameSubtype::spec_from_bits(value) == ManagementFrameSubtype::TimingAdvertisement) == (value == 0b0110),
        (ManagementFrameSubtype::spec_from_bits(value) == ManagementFrameSubtype::Beacon) == (value == 0b1000),
        (ManagementFrameSubtype::spec_from_bits(value) == ManagementFrameSubtype::ATIM) == (value == 0b1001),
        (ManagementFrameSubtype::spec_from_bits(value) == ManagementFrameSubtype::Disassociation) == (value == 0b1010),
        (ManagementFrameSubtype::spec_from_bits(value) == ManagementFrameSubtype::Authentication) == (value == 0b1011),
        (ManagementFrameSubtype::spec_from_bits(value) == ManagementFrameSubtype::Deauthentication) == (value == 0b1100),
        (ManagementFrameSubtype::spec_from_bits(value) == ManagementFrameSubtype::Action) == (value == 0b1101),
        (ManagementFrameSubtype::spec_from_bits(value) == ManagementFrameSubtype::ActionNoAck) == (value == 0b1110),
        ManagementFrameSubtype::AssociationRequest.spec_into_bits() == 0b0000,
        ManagementFrameSubtype::AssociationResponse.spec_into_bits() == 0b0001,
        ManagementFrameSubtype::ReassociationRequest.spec_into_bits() == 0b0010,
        ManagementFrameSubtype::ReassociationResponse.spec_into_bits() == 0b0011,
        ManagementFrameSubtype::ProbeRequest.spec_into_bits() == 0b0100,
        ManagementFrameSubtype::ProbeResponse.spec_into_bits() == 0b0101,
        ManagementFrameSubtype::TimingAdvertisement.spec_into_bits() == 0b0110,
        ManagementFrameSubtype::Beacon.spec_into_bits() == 0b1000,
        ManagementFrameSubtype::ATIM.spec_into_bits() == 0b1001,
        ManagementFrameSubtype::Disassociation.spec_into_bits() == 0b1010,
        ManagementFrameSubtype::Authentication.spec_into_bits() == 0b1011,
        ManagementFrameSubtype::Deauthentication.spec_into_bits() == 0b1100,
        ManagementFrameSubtype::Action.spec_into_bits() == 0b1101,
        ManagementFrameSubtype::ActionNoAck.spec_into_bits() == 0b1110,
        (ManagementFrameSubtype::spec_from_bits(value) == ManagementFrameSubtype::Unknown(value)) == !(
            value == 0b0000 || value == 0b0001 || value == 0b0010 || value == 0b0011 ||
            value == 0b0100 || value == 0b0101 || value == 0b0110 || value == 0b1000 ||
            value == 0b1001 || value == 0b1010 || value == 0b1011 || value == 0b1100 ||
            value == 0b1101 || value == 0b1110),
{
}

/// The numbering of [ControlFrameSubtype]: each named value is read from its own number and written as that
/// number, and any other number is kept as an unknown value.
pub proof fn lemma_control_frame_subtype_numbering(value: u8)
    ensures
        (ControlFrameSubtype::spec_from_bits(value) == ControlFrameSubtype::TACK) == (value == 0b0011),
        (ControlFrameSubtype::spec_from_bits(value) == ControlFrameSubtype::BeamformingReportPoll) == (value == 0b0100),
        (ControlFrameSubtype::spec_from_bits(value) == ControlFrameSubtype::VHTNDPAnnouncement) == (value == 0b0101),
        (ControlFrameSubtype::spec_from_bits(value) == ControlFrameSubtype::ControlFrameExtension) == (value == 0b0110),
        (ControlFrameSubtype::spec_from_bits(value) == ControlFrameSubtype::ControlWrapper) == (value == 0b0111),
        (ControlFrameSubtype::spec_from_bits(value) == ControlFrameSubtype::BlockAckRequest) == (value == 0b1000),
        (ControlFrameSubtype::spec_from_bits(value) == ControlFrameSubtype::BlockAck) == (value == 0b1001),
        (ControlFrameSubtype::spec_from_bits(value) == ControlFrameSubtype::PSPoll) == (value == 0b1010),
        (ControlFrameSubtype::spec_from_bits(value) == ControlFrameSubtype::RTS) == (value == 0b1011),
        (ControlFrameSubtype::spec_from_bits(value) == ControlFrameSubtype::CTS) == (value == 0b1100),
        (ControlFrameSubtype::spec_from_bits(value) == ControlFrameSubtype::Ack) == (value == 0b1101),
        (ControlFrameSubtype::spec_from_bits(value) == ControlFrameSubtype::CFEnd) == (value == 0b1110),
        (ControlFrameSubtype::spec_from_bits(value) == ControlFrameSubtype::CFEndAck) == (value == 0b1111),
        ControlFrameSubtype::TACK.spec_into_bits() == 0b0011,
        ControlFrameSubtype::BeamformingReportPoll.spec_into_bits() == 0b0100,
        ControlFrameSubtype::VHTNDPAnnouncement.spec_into_bits() == 0b0101,
        ControlFrameSubtype::ControlFrameExtension.spec_into_bits() == 0b0110,
        ControlFrameSubtype::ControlWrapper.spec_into_bits() == 0b0111,
        ControlFrameSubtype::BlockAckRequest.spec_into_bits() == 0b1000,
        ControlFrameSubtype::BlockAck.spec_into_bits() == 0b1001,
        ControlFrameSubtype::PSPoll.spec_into_bits() == 0b1010,
        ControlFrameSubtype::RTS.spec_into_bits() == 0b1011,
        ControlFrameSubtype::CTS.spec_into_bits() == 0b1100,
        ControlFrameSubtype::Ack.spec_into_bits() == 0b1101,
        ControlFrameSubtype::CFEnd.spec_into_bits() == 0b1110,
        ControlFrameSubtype::CFEndAck.spec_into_bits() == 0b1111,
        (ControlFrameSubtype::spec_from_bits(value) == ControlFrameSubtype::Unknown(value)) == !(
            value == 0b0011 || value == 0b0100 || value == 0b0101 || value == 0b0110 ||
            value == 0b0111 || value == 0b1000 || value == 0b1001 || value == 0b1010 ||
            value == 0b1011 || value == 0b1100 || value == 0b1101 || value == 0b1110 ||
            value == 0b1111),
{
}

/// The numbering of [DataFrameCF]: each named value is read from its own number and written as that
/// number, and any other number is kept as an unknown value.
pub proof fn lemma_data_frame_cf_numbering(value: u8)
    ensures
        (DataFrameCF::spec_from_bits(value) == DataFrameCF::NoCF) == (value == 0b00),
        (DataFrameCF::spec_from_bits(value) == DataFrameCF::Ack) == (value == 0b01),
        (DataFrameCF::spec_from_bits(value) == DataFrameCF::Poll) == (value == 0b10),
        (DataFrameCF::spec_from_bits(value) == DataFrameCF::AckPoll) == (value == 0b11),
        DataFrameCF::NoCF.spec_into_bits() == 0b00,
        DataFrameCF::Ack.spec_into_bits() == 0b01,
        DataFrameCF::Poll.spec_into_bits() == 0b10,
        DataFrameCF::AckPoll.spec_into_bits() == 0b11,
        (DataFrameCF::spec_from_bits(value) == DataFrameCF::Unknown(value)) == !(
            value == 0b00 || value == 0b01 || value == 0b10 || value == 0b11),
{
}

/// The numbering of [DataFrameSubtype]: each named value is read from its own number and written as that
/// number, and any other number is kept as an unknown value.
pub proof fn lemma_data_frame_subtype_numbering(value: u8)
    ensures
        (DataFrameSubtype::spec_from_bits(value) == DataFrameSubtype::Data) == (value == 0b0000),
        (DataFrameSubtype::spec_from_bits(value) == DataFrameSubtype::DataCFAck) == (value == 0b0001),
        (DataFrameSubtype::spec_from_bits(value) == DataFrameSubtype::DataCFPoll) == (value == 0b0010),
        (DataFrameSubtype::spec_from_bits(value) == DataFrameSubtype::DataCFAckCFPoll) == (value == 0b0011),
        (DataFrameSubtype::spec_from_bits(value) == DataFrameSubtype::Null) == (value == 0b0100),
        (DataFrameSubtype::spec_from_bits(value) == DataFrameSubtype::CFAck) == (value == 0b0101),
        (DataFrameSubtype::spec_from_bits(value) == DataFrameSubtype::CFPoll) == (value == 0b0110),
        (DataFrameSubtype::spec_from_bits(value) == DataFrameSubtype::CFAckCFPoll) == (value == 0b0111),
        (DataFrameSubtype::spec_from_bits(value) == DataFrameSubtype::QoSData) == (value == 0b1000),
        (DataFrameSubtype::spec_from_bits(value) == DataFrameSubtype::QoSDataCFAck) == (value == 0b1001),
        (DataFrameSubtype::spec_from_bits(value) == DataFrameSubtype::QoSDataCFPoll) == (value == 0b1010),
        (DataFrameSubtype::spec_from_bits(value) == DataFrameSubtype::QoSDataCFAckCFPoll) == (value == 0b1011),
        (DataFrameSubtype::spec_from_bits(value) == DataFrameSubtype::QoSNull) == (value == 0b1100),
        (DataFrameSubtype::spec_from_bits(value) == DataFrameSubtype::QoSCFPoll) == (value == 0b1110),
        (DataFrameSubtype::spec_from_bits(value) == DataFrameSubtype::QoSCFAckCFPoll) == (value == 0b1111),
        DataFrameSubtype::Data.spec_into_bits() == 0b0000,
        DataFrameSubtype::DataCFAck.spec_into_bits() == 0b0001,
        DataFrameSubtype::DataCFPoll.spec_into_bits() == 0b0010,
        DataFrameSubtype::DataCFAckCFPoll.spec_into_bits() == 0b0011,
        DataFrameSubtype::Null.spec_into_bits() == 0b0100,
        DataFrameSubtype::CFAck.spec_into_bits() == 0b0101,
        DataFrameSubtype::CFPoll.spec_into_bits() == 0b0110,
        DataFrameSubtype::CFAckCFPoll.spec_into_bits() == 0b0111,
        DataFrameSubtype::QoSData.spec_into_bits() == 0b1000,
        DataFrameSubtype::QoSDataCFAck.spec_into_bits() == 0b1001,
        DataFrameSubtype::QoSDataCFPoll.spec_into_bits() == 0b1010,
        DataFrameSubtype::QoSDataCFAckCFPoll.spec_into_bits() == 0b1011,
        DataFrameSubtype::QoSNull.spec_into_bits() == 0b1100,
        DataFrameSubtype::QoSCFPoll.spec_into_bits() == 0b1110,
        DataFrameSubtype::QoSCFAckCFPoll.spec_into_bits() == 0b1111,
        (DataFrameSubtype::spec_from_bits(value) == DataFrameSubtype::Unknown(value)) == !(
            value == 0b0000 || value == 0b0001 || value == 0b0010 || value == 0b0011 ||
            value == 0b0100 || value == 0b0101 || value == 0b0110 || value == 0b0111 ||
            value == 0b1000 || value == 0b1001 || value == 0b1010 || value == 0b1011 ||
            value == 0b1100 || value == 0b1110 || value == 0b1111),
{
}

} // verus!
