//! Status codes of management frames.
use vstd::prelude::*;

verus! {

/// An IEEE 802.11 status code used in certain management frames.
#[derive(Clone, Copy, Debug, PartialEq, Eq, Hash, Structural)]
pub enum IEEE80211StatusCode {
    Success,
    RefusedReasonUnspec,
    TdlsRejectedAlternativeProvided,
    TdlsRejected,
    SecurityDisabled,
    UnacceptableLifetime,
    NotInSameBss,
    RefusedCapabilitiesMismatch,
    DeniedNoAssociationExists,
    DeniedOtherReason,
    UnsupportedAuthAlgorithm,
    TransactionSequenceError,
    ChallengeFailure,
    RejectedSequenceTimeout,
    DeniedNoMoreStas,
    RefusedBasicRatesMismatch,
    DeniedNoShortPreambleSupport,
    RejectedSpectrumManagementRequired,
    RejectedBadPowerCapability,
    RejectedBadSupportedChannels,
    DeniedNoShortSlotTimeSupport,
    DeniedNoHtSupport,
    R0khUnreachable,
    RefusedTemporarily,
    RobustManagementPolicyViolation,
    UnspecifiedQosFailure,
    DeniedInsufficientBandwidth,
    DeniedPoorChannelConditions,
    DeniedQosNotSupported,
    RequestDeclined,
    InvalidParameters,
    RejectedWithSuggestedChanges,
    StatusInvalidElement,
    StatusInvalidGroupCipher,
    StatusInvalidPairwiseCipher,
    StatusInvalidAkmp,
    UnsupportedRsneVersion,
    InvalidRsneCapabilities,
    StatusCipherOutOfPolicy,
    RejectedForDelayPeriod,
    NotPresent,
    NotQosSta,
    DeniedListenIntervalTooLarge,
    StatusInvalidFtActionFrameCount,
    StatusInvalidPmkid,
    StatusInvalidMde,
    StatusInvalidFte,
    RequestedTclasNotSupported,
    InsufficientTclasProcessingResources,
    TryAnotherBss,
    GasAdvertisementProtocolNotSupported,
    NoOutstandingGasRequest,
    GasResponseNotReceivedFrom,
    GasQueryTimeout,
    GasQueryResponseToo,
    RejectedHomeWithSuggestedChanges,
    ServerUnreachable,
    RejectedForSspPermissions,
    RefusedUnauthenticatedAccessNotSupported,
    InvalidRsne,
    UApsdCoexistenceNotSupported,
    UApsdCoexModeNotSupported,
    BadIntervalWithUApsdCoex,
    AntiCloggingTokenRequired,
    UnsupportedFiniteCyclicGroup,
    CannotFindAlternativeTbtt,
    TransmissionFailure,
    RequestedTclasNotSupported2,
    TclasResourcesExhausted,
    RejectedWithSuggestedBssTransition,
    RejectWithSchedule,
    RejectNoWakeupSpecified,
    SuccessPowerSaveMode,
    PendingAdmittingFstSession,
    PerformingFstNow,
    PendingGapInBaWindow,
    RejectUpidSetting,
    RefusedExternalReason,
    RefusedApOutOfMemory,
    RejectedEmergencyServicesNotSupported,
    QueryResponseOutstanding,
    RejectDseBand,
    TclasProcessingTerminated,
    TsScheduleConflict,
    DeniedWithSuggestedBandAndChannel,
    MccaopReservationConflict,
    MafLimitExceeded,
    MccaTrackLimitExceeded,
    DeniedDueToSpectrumManagement,
    DeniedVhtNotSupported,
    Enablement,
    Restriction,
    Authorization,
    EnergyLimitedOperationNotSupported,
    RejectedNdpBlockAckSuggested,
    RejectedMaxAwayDurationUnacceptable,
    FlowControlOperationSupported,
    FilsAuthenticationFailure,
    UnknownAuthenticationServer,
    DeniedNotificationPeriodAllocation,
    DeniedChannelSplitting,
    DeniedAllocation,
    CmmgFeaturesNotSupported,
    GasFragmentNotAvailable,
    SuccessCagVersionsMatch,
    GlkNotAuthorized,
    UnknownPasswordIdentifier,
    DeniedLocalMacAddressPolicyViolation,
    SaeHashToElement,
    TclasProcessingTerminatedInsufficientQos,
    TclasProcessingTerminatedPolicyConflict,
    /// A value without a name.
    Unknown(u16),
}

impl IEEE80211StatusCode {
    /// The variant that `value` encodes.
    pub open spec fn spec_from_bits(value: u16) -> Self {
        match value {
            0 => IEEE80211StatusCode::Success,
            1 => IEEE80211StatusCode::RefusedReasonUnspec,
            2 => IEEE80211StatusCode::TdlsRejectedAlternativeProvided,
            3 => IEEE80211StatusCode::TdlsRejected,
            5 => IEEE80211StatusCode::SecurityDisabled,
            6 => IEEE80211StatusCode::UnacceptableLifetime,
            7 => IEEE80211StatusCode::NotInSameBss,
            10 => IEEE80211StatusCode::RefusedCapabilitiesMismatch,
            11 => IEEE80211StatusCode::DeniedNoAssociationExists,
            12 => IEEE80211StatusCode::DeniedOtherReason,
            13 => IEEE80211StatusCode::UnsupportedAuthAlgorithm,
            14 => IEEE80211StatusCode::TransactionSequenceError,
            15 => IEEE80211StatusCode::ChallengeFailure,
            16 => IEEE80211StatusCode::RejectedSequenceTimeout,
            17 => IEEE80211StatusCode::DeniedNoMoreStas,
            18 => IEEE80211StatusCode::RefusedBasicRatesMismatch,
            19 => IEEE80211StatusCode::DeniedNoShortPreambleSupport,
            22 => IEEE80211StatusCode::RejectedSpectrumManagementRequired,
            23 => IEEE80211StatusCode::RejectedBadPowerCapability,
            24 => IEEE80211StatusCode::RejectedBadSupportedChannels,
            25 => IEEE80211StatusCode::DeniedNoShortSlotTimeSupport,
            27 => IEEE80211StatusCode::DeniedNoHtSupport,
            28 => IEEE80211StatusCode::R0khUnreachable,
            30 => IEEE80211StatusCode::RefusedTemporarily,
            31 => IEEE80211StatusCode::RobustManagementPolicyViolation,
            32 => IEEE80211StatusCode::UnspecifiedQosFailure,
            33 => IEEE80211StatusCode::DeniedInsufficientBandwidth,
            34 => IEEE80211StatusCode::DeniedPoorChannelConditions,
            35 => IEEE80211StatusCode::DeniedQosNotSupported,
            37 => IEEE80211StatusCode::RequestDeclined,
            38 => IEEE80211StatusCode::InvalidParameters,
            39 => IEEE80211StatusCode::RejectedWithSuggestedChanges,
            40 => IEEE80211StatusCode::StatusInvalidElement,
            41 => IEEE80211StatusCode::StatusInvalidGroupCipher,
            42 => IEEE80211StatusCode::StatusInvalidPairwiseCipher,
            43 => IEEE80211StatusCode::StatusInvalidAkmp,
            44 => IEEE80211StatusCode::UnsupportedRsneVersion,
            45 => IEEE80211StatusCode::InvalidRsneCapabilities,
            46 => IEEE80211StatusCode::StatusCipherOutOfPolicy,
            47 => IEEE80211StatusCode::RejectedForDelayPeriod,
            49 => IEEE80211StatusCode::NotPresent,
            50 => IEEE80211StatusCode::NotQosSta,
            51 => IEEE80211StatusCode::DeniedListenIntervalTooLarge,
            52 => IEEE80211StatusCode::StatusInvalidFtActionFrameCount,
            53 => IEEE80211StatusCode::StatusInvalidPmkid,
            54 => IEEE80211StatusCode::StatusInvalidMde,
            55 => IEEE80211StatusCode::StatusInvalidFte,
            56 => IEEE80211StatusCode::RequestedTclasNotSupported,
            57 => IEEE80211StatusCode::InsufficientTclasProcessingResources,
            58 => IEEE80211StatusCode::TryAnotherBss,
            59 => IEEE80211StatusCode::GasAdvertisementProtocolNotSupported,
            60 => IEEE80211StatusCode::NoOutstandingGasRequest,
            61 => IEEE80211StatusCode::GasResponseNotReceivedFrom,
            62 => IEEE80211StatusCode::GasQueryTimeout,
            63 => IEEE80211StatusCode::GasQueryResponseToo,
            64 => IEEE80211StatusCode::RejectedHomeWithSuggestedChanges,
            65 => IEEE80211StatusCode::ServerUnreachable,
            67 => IEEE80211StatusCode::RejectedForSspPermissions,
            68 => IEEE80211StatusCode::RefusedUnauthenticatedAccessNotSupported,
            72 => IEEE80211StatusCode::InvalidRsne,
            73 => IEEE80211StatusCode::UApsdCoexistenceNotSupported,
            74 => IEEE80211StatusCode::UApsdCoexModeNotSupported,
            75 => IEEE80211StatusCode::BadIntervalWithUApsdCoex,
            76 => IEEE80211StatusCode::AntiCloggingTokenRequired,
            77 => IEEE80211StatusCode::UnsupportedFiniteCyclicGroup,
            78 => IEEE80211StatusCode::CannotFindAlternativeTbtt,
            79 => IEEE80211StatusCode::TransmissionFailure,
            80 => IEEE80211StatusCode::RequestedTclasNotSupported2,
            81 => IEEE80211StatusCode::TclasResourcesExhausted,
            82 => IEEE80211StatusCode::RejectedWithSuggestedBssTransition,
            83 => IEEE80211StatusCode::RejectWithSchedule,
            84 => IEEE80211StatusCode::RejectNoWakeupSpecified,
            85 => IEEE80211StatusCode::SuccessPowerSaveMode,
            86 => IEEE80211StatusCode::PendingAdmittingFstSession,
            87 => IEEE80211StatusCode::PerformingFstNow,
            88 => IEEE80211StatusCode::PendingGapInBaWindow,
            89 => IEEE80211StatusCode::RejectUpidSetting,
            92 => IEEE80211StatusCode::RefusedExternalReason,
            93 => IEEE80211StatusCode::RefusedApOutOfMemory,
            94 => IEEE80211StatusCode::RejectedEmergencyServicesNotSupported,
            95 => IEEE80211StatusCode::QueryResponseOutstanding,
            96 => IEEE80211StatusCode::RejectDseBand,
            97 => IEEE80211StatusCode::TclasProcessingTerminated,
            98 => IEEE80211StatusCode::TsScheduleConflict,
            99 => IEEE80211StatusCode::DeniedWithSuggestedBandAndChannel,
            100 => IEEE80211StatusCode::MccaopReservationConflict,
            101 => IEEE80211StatusCode::MafLimitExceeded,
            102 => IEEE80211StatusCode::MccaTrackLimitExceeded,
            103 => IEEE80211StatusCode::DeniedDueToSpectrumManagement,
            104 => IEEE80211StatusCode::DeniedVhtNotSupported,
            105 => IEEE80211StatusCode::Enablement,
            106 => IEEE80211StatusCode::Restriction,
            107 => IEEE80211StatusCode::Authorization,
            108 => IEEE80211StatusCode::EnergyLimitedOperationNotSupported,
            109 => IEEE80211StatusCode::RejectedNdpBlockAckSuggested,
            110 => IEEE80211StatusCode::RejectedMaxAwayDurationUnacceptable,
            111 => IEEE80211StatusCode::FlowControlOperationSupported,
            112 => IEEE80211StatusCode::FilsAuthenticationFailure,
            113 => IEEE80211StatusCode::UnknownAuthenticationServer,
            116 => IEEE80211StatusCode::DeniedNotificationPeriodAllocation,
            117 => IEEE80211StatusCode::DeniedChannelSplitting,
            118 => IEEE80211StatusCode::DeniedAllocation,
            119 => IEEE80211StatusCode::CmmgFeaturesNotSupported,
            120 => IEEE80211StatusCode::GasFragmentNotAvailable,
            121 => IEEE80211StatusCode::SuccessCagVersionsMatch,
            122 => IEEE80211StatusCode::GlkNotAuthorized,
            123 => IEEE80211StatusCode::UnknownPasswordIdentifier,
            125 => IEEE80211StatusCode::DeniedLocalMacAddressPolicyViolation,
            126 => IEEE80211StatusCode::SaeHashToElement,
            128 => IEEE80211StatusCode::TclasProcessingTerminatedInsufficientQos,
            129 => IEEE80211StatusCode::TclasProcessingTerminatedPolicyConflict,
            x => IEEE80211StatusCode::Unknown(x),
        }
    }

    /// The encoding of this variant.
    pub open spec fn spec_into_bits(self) -> u16 {
        match self {
            IEEE80211StatusCode::Success => 0,
            IEEE80211StatusCode::RefusedReasonUnspec => 1,
            IEEE80211StatusCode::TdlsRejectedAlternativeProvided => 2,
            IEEE80211StatusCode::TdlsRejected => 3,
            IEEE80211StatusCode::SecurityDisabled => 5,
            IEEE80211StatusCode::UnacceptableLifetime => 6,
            IEEE80211StatusCode::NotInSameBss => 7,
            IEEE80211StatusCode::RefusedCapabilitiesMismatch => 10,
            IEEE80211StatusCode::DeniedNoAssociationExists => 11,
            IEEE80211StatusCode::DeniedOtherReason => 12,
            IEEE80211StatusCode::UnsupportedAuthAlgorithm => 13,
            IEEE80211StatusCode::TransactionSequenceError => 14,
            IEEE80211StatusCode::ChallengeFailure => 15,
            IEEE80211StatusCode::RejectedSequenceTimeout => 16,
            IEEE80211StatusCode::DeniedNoMoreStas => 17,
            IEEE80211StatusCode::RefusedBasicRatesMismatch => 18,
            IEEE80211StatusCode::DeniedNoShortPreambleSupport => 19,
            IEEE80211StatusCode::RejectedSpectrumManagementRequired => 22,
            IEEE80211StatusCode::RejectedBadPowerCapability => 23,
            IEEE80211StatusCode::RejectedBadSupportedChannels => 24,
            IEEE80211StatusCode::DeniedNoShortSlotTimeSupport => 25,
            IEEE80211StatusCode::DeniedNoHtSupport => 27,
            IEEE80211StatusCode::R0khUnreachable => 28,
            IEEE80211StatusCode::RefusedTemporarily => 30,
            IEEE80211StatusCode::RobustManagementPolicyViolation => 31,
            IEEE80211StatusCode::UnspecifiedQosFailure => 32,
            IEEE80211StatusCode::DeniedInsufficientBandwidth => 33,
            IEEE80211StatusCode::DeniedPoorChannelConditions => 34,
            IEEE80211StatusCode::DeniedQosNotSupported => 35,
            IEEE80211StatusCode::RequestDeclined => 37,
            IEEE80211StatusCode::InvalidParameters => 38,
            IEEE80211StatusCode::RejectedWithSuggestedChanges => 39,
            IEEE80211StatusCode::StatusInvalidElement => 40,
            IEEE80211StatusCode::StatusInvalidGroupCipher => 41,
            IEEE80211StatusCode::StatusInvalidPairwiseCipher => 42,
            IEEE80211StatusCode::StatusInvalidAkmp => 43,
            IEEE80211StatusCode::UnsupportedRsneVersion => 44,
            IEEE80211StatusCode::InvalidRsneCapabilities => 45,
            IEEE80211StatusCode::StatusCipherOutOfPolicy => 46,
            IEEE80211StatusCode::RejectedForDelayPeriod => 47,
            IEEE80211StatusCode::NotPresent => 49,
            IEEE80211StatusCode::NotQosSta => 50,
            IEEE80211StatusCode::DeniedListenIntervalTooLarge => 51,
            IEEE80211StatusCode::StatusInvalidFtActionFrameCount => 52,
            IEEE80211StatusCode::StatusInvalidPmkid => 53,
            IEEE80211StatusCode::StatusInvalidMde => 54,
            IEEE80211StatusCode::StatusInvalidFte => 55,
            IEEE80211StatusCode::RequestedTclasNotSupported => 56,
            IEEE80211StatusCode::InsufficientTclasProcessingResources => 57,
            IEEE80211StatusCode::TryAnotherBss => 58,
            IEEE80211StatusCode::GasAdvertisementProtocolNotSupported => 59,
            IEEE80211StatusCode::NoOutstandingGasRequest => 60,
            IEEE80211StatusCode::GasResponseNotReceivedFrom => 61,
            IEEE80211StatusCode::GasQueryTimeout => 62,
            IEEE80211StatusCode::GasQueryResponseToo => 63,
            IEEE80211StatusCode::RejectedHomeWithSuggestedChanges => 64,
            IEEE80211StatusCode::ServerUnreachable => 65,
            IEEE80211StatusCode::RejectedForSspPermissions => 67,
            IEEE80211StatusCode::RefusedUnauthenticatedAccessNotSupported => 68,
            IEEE80211StatusCode::InvalidRsne => 72,
            IEEE80211StatusCode::UApsdCoexistenceNotSupported => 73,
            IEEE80211StatusCode::UApsdCoexModeNotSupported => 74,
            IEEE80211StatusCode::BadIntervalWithUApsdCoex => 75,
            IEEE80211StatusCode::AntiCloggingTokenRequired => 76,
            IEEE80211StatusCode::UnsupportedFiniteCyclicGroup => 77,
            IEEE80211StatusCode::CannotFindAlternativeTbtt => 78,
            IEEE80211StatusCode::TransmissionFailure => 79,
            IEEE80211StatusCode::RequestedTclasNotSupported2 => 80,
            IEEE80211StatusCode::TclasResourcesExhausted => 81,
            IEEE80211StatusCode::RejectedWithSuggestedBssTransition => 82,
            IEEE80211StatusCode::RejectWithSchedule => 83,
            IEEE80211StatusCode::RejectNoWakeupSpecified => 84,
            IEEE80211StatusCode::SuccessPowerSaveMode => 85,
            IEEE80211StatusCode::PendingAdmittingFstSession => 86,
            IEEE80211StatusCode::PerformingFstNow => 87,
            IEEE80211StatusCode::PendingGapInBaWindow => 88,
            IEEE80211StatusCode::RejectUpidSetting => 89,
            IEEE80211StatusCode::RefusedExternalReason => 92,
            IEEE80211StatusCode::RefusedApOutOfMemory => 93,
            IEEE80211StatusCode::RejectedEmergencyServicesNotSupported => 94,
            IEEE80211StatusCode::QueryResponseOutstanding => 95,
            IEEE80211StatusCode::RejectDseBand => 96,
            IEEE80211StatusCode::TclasProcessingTerminated => 97,
            IEEE80211StatusCode::TsScheduleConflict => 98,
            IEEE80211StatusCode::DeniedWithSuggestedBandAndChannel => 99,
            IEEE80211StatusCode::MccaopReservationConflict => 100,
            IEEE80211StatusCode::MafLimitExceeded => 101,
            IEEE80211StatusCode::MccaTrackLimitExceeded => 102,
            IEEE80211StatusCode::DeniedDueToSpectrumManagement => 103,
            IEEE80211StatusCode::DeniedVhtNotSupported => 104,
            IEEE80211StatusCode::Enablement => 105,
            IEEE80211StatusCode::Restriction => 106,
            IEEE80211StatusCode::Authorization => 107,
            IEEE80211StatusCode::EnergyLimitedOperationNotSupported => 108,
            IEEE80211StatusCode::RejectedNdpBlockAckSuggested => 109,
            IEEE80211StatusCode::RejectedMaxAwayDurationUnacceptable => 110,
            IEEE80211StatusCode::FlowControlOperationSupported => 111,
            IEEE80211StatusCode::FilsAuthenticationFailure => 112,
            IEEE80211StatusCode::UnknownAuthenticationServer => 113,
            IEEE80211StatusCode::DeniedNotificationPeriodAllocation => 116,
            IEEE80211StatusCode::DeniedChannelSplitting => 117,
            IEEE80211StatusCode::DeniedAllocation => 118,
            IEEE80211StatusCode::CmmgFeaturesNotSupported => 119,
            IEEE80211StatusCode::GasFragmentNotAvailable => 120,
            IEEE80211StatusCode::SuccessCagVersionsMatch => 121,
            IEEE80211StatusCode::GlkNotAuthorized => 122,
            IEEE80211StatusCode::UnknownPasswordIdentifier => 123,
            IEEE80211StatusCode::DeniedLocalMacAddressPolicyViolation => 125,
            IEEE80211StatusCode::SaeHashToElement => 126,
            IEEE80211StatusCode::TclasProcessingTerminatedInsufficientQos => 128,
            IEEE80211StatusCode::TclasProcessingTerminatedPolicyConflict => 129,
            IEEE80211StatusCode::Unknown(x) => x,
        }
    }

    /// Decode a variant from its representation.
    pub fn from_bits(value: u16) -> (r: Self)
        ensures
            r == Self::spec_from_bits(value),
            r.spec_into_bits() == value,
    {
        match value {
            0 => IEEE80211StatusCode::Success,
            1 => IEEE80211StatusCode::RefusedReasonUnspec,
            2 => IEEE80211StatusCode::TdlsRejectedAlternativeProvided,
            3 => IEEE80211StatusCode::TdlsRejected,
            5 => IEEE80211StatusCode::SecurityDisabled,
            6 => IEEE80211StatusCode::UnacceptableLifetime,
            7 => IEEE80211StatusCode::NotInSameBss,
            10 => IEEE80211StatusCode::RefusedCapabilitiesMismatch,
            11 => IEEE80211StatusCode::DeniedNoAssociationExists,
            12 => IEEE80211StatusCode::DeniedOtherReason,
            13 => IEEE80211StatusCode::UnsupportedAuthAlgorithm,
            14 => IEEE80211StatusCode::TransactionSequenceError,
            15 => IEEE80211StatusCode::ChallengeFailure,
            16 => IEEE80211StatusCode::RejectedSequenceTimeout,
            17 => IEEE80211StatusCode::DeniedNoMoreStas,
            18 => IEEE80211StatusCode::RefusedBasicRatesMismatch,
            19 => IEEE80211StatusCode::DeniedNoShortPreambleSupport,
            22 => IEEE80211StatusCode::RejectedSpectrumManagementRequired,
            23 => IEEE80211StatusCode::RejectedBadPowerCapability,
            24 => IEEE80211StatusCode::RejectedBadSupportedChannels,
            25 => IEEE80211StatusCode::DeniedNoShortSlotTimeSupport,
            27 => IEEE80211StatusCode::DeniedNoHtSupport,
            28 => IEEE80211StatusCode::R0khUnreachable,
            30 => IEEE80211StatusCode::RefusedTemporarily,
            31 => IEEE80211StatusCode::RobustManagementPolicyViolation,
            32 => IEEE80211StatusCode::UnspecifiedQosFailure,
            33 => IEEE80211StatusCode::DeniedInsufficientBandwidth,
            34 => IEEE80211StatusCode::DeniedPoorChannelConditions,
            35 => IEEE80211StatusCode::DeniedQosNotSupported,
            37 => IEEE80211StatusCode::RequestDeclined,
            38 => IEEE80211StatusCode::InvalidParameters,
            39 => IEEE80211StatusCode::RejectedWithSuggestedChanges,
            40 => IEEE80211StatusCode::StatusInvalidElement,
            41 => IEEE80211StatusCode::StatusInvalidGroupCipher,
            42 => IEEE80211StatusCode::StatusInvalidPairwiseCipher,
            43 => IEEE80211StatusCode::StatusInvalidAkmp,
            44 => IEEE80211StatusCode::UnsupportedRsneVersion,
            45 => IEEE80211StatusCode::InvalidRsneCapabilities,
            46 => IEEE80211StatusCode::StatusCipherOutOfPolicy,
            47 => IEEE80211StatusCode::RejectedForDelayPeriod,
            49 => IEEE80211StatusCode::NotPresent,
            50 => IEEE80211StatusCode::NotQosSta,
            51 => IEEE80211StatusCode::DeniedListenIntervalTooLarge,
            52 => IEEE80211StatusCode::StatusInvalidFtActionFrameCount,
            53 => IEEE80211StatusCode::StatusInvalidPmkid,
            54 => IEEE80211StatusCode::StatusInvalidMde,
            55 => IEEE80211StatusCode::StatusInvalidFte,
            56 => IEEE80211StatusCode::RequestedTclasNotSupported,
            57 => IEEE80211StatusCode::InsufficientTclasProcessingResources,
            58 => IEEE80211StatusCode::TryAnotherBss,
            59 => IEEE80211StatusCode::GasAdvertisementProtocolNotSupported,
            60 => IEEE80211StatusCode::NoOutstandingGasRequest,
            61 => IEEE80211StatusCode::GasResponseNotReceivedFrom,
            62 => IEEE80211StatusCode::GasQueryTimeout,
            63 => IEEE80211StatusCode::GasQueryResponseToo,
            64 => IEEE80211StatusCode::RejectedHomeWithSuggestedChanges,
            65 => IEEE80211StatusCode::ServerUnreachable,
            67 => IEEE80211StatusCode::RejectedForSspPermissions,
            68 => IEEE80211StatusCode::RefusedUnauthenticatedAccessNotSupported,
            72 => IEEE80211StatusCode::InvalidRsne,
            73 => IEEE80211StatusCode::UApsdCoexistenceNotSupported,
            74 => IEEE80211StatusCode::UApsdCoexModeNotSupported,
            75 => IEEE80211StatusCode::BadIntervalWithUApsdCoex,
            76 => IEEE80211StatusCode::AntiCloggingTokenRequired,
            77 => IEEE80211StatusCode::UnsupportedFiniteCyclicGroup,
            78 => IEEE80211StatusCode::CannotFindAlternativeTbtt,
            79 => IEEE80211StatusCode::TransmissionFailure,
            80 => IEEE80211StatusCode::RequestedTclasNotSupported2,
            81 => IEEE80211StatusCode::TclasResourcesExhausted,
            82 => IEEE80211StatusCode::RejectedWithSuggestedBssTransition,
            83 => IEEE80211StatusCode::RejectWithSchedule,
            84 => IEEE80211StatusCode::RejectNoWakeupSpecified,
            85 => IEEE80211StatusCode::SuccessPowerSaveMode,
            86 => IEEE80211StatusCode::PendingAdmittingFstSession,
            87 => IEEE80211StatusCode::PerformingFstNow,
            88 => IEEE80211StatusCode::PendingGapInBaWindow,
            89 => IEEE80211StatusCode::RejectUpidSetting,
            92 => IEEE80211StatusCode::RefusedExternalReason,
            93 => IEEE80211StatusCode::RefusedApOutOfMemory,
            94 => IEEE80211StatusCode::RejectedEmergencyServicesNotSupported,
            95 => IEEE80211StatusCode::QueryResponseOutstanding,
            96 => IEEE80211StatusCode::RejectDseBand,
            97 => IEEE80211StatusCode::TclasProcessingTerminated,
            98 => IEEE80211StatusCode::TsScheduleConflict,
            99 => IEEE80211StatusCode::DeniedWithSuggestedBandAndChannel,
            100 => IEEE80211StatusCode::MccaopReservationConflict,
            101 => IEEE80211StatusCode::MafLimitExceeded,
            102 => IEEE80211StatusCode::MccaTrackLimitExceeded,
            103 => IEEE80211StatusCode::DeniedDueToSpectrumManagement,
            104 => IEEE80211StatusCode::DeniedVhtNotSupported,
            105 => IEEE80211StatusCode::Enablement,
            106 => IEEE80211StatusCode::Restriction,
            107 => IEEE80211StatusCode::Authorization,
            108 => IEEE80211StatusCode::EnergyLimitedOperationNotSupported,
            109 => IEEE80211StatusCode::RejectedNdpBlockAckSuggested,
            110 => IEEE80211StatusCode::RejectedMaxAwayDurationUnacceptable,
            111 => IEEE80211StatusCode::FlowControlOperationSupported,
            112 => IEEE80211StatusCode::FilsAuthenticationFailure,
            113 => IEEE80211StatusCode::UnknownAuthenticationServer,
            116 => IEEE80211StatusCode::DeniedNotificationPeriodAllocation,
            117 => IEEE80211StatusCode::DeniedChannelSplitting,
            118 => IEEE80211StatusCode::DeniedAllocation,
            119 => IEEE80211StatusCode::CmmgFeaturesNotSupported,
            120 => IEEE80211StatusCode::GasFragmentNotAvailable,
            121 => IEEE80211StatusCode::SuccessCagVersionsMatch,
            122 => IEEE80211StatusCode::GlkNotAuthorized,
            123 => IEEE80211StatusCode::UnknownPasswordIdentifier,
            125 => IEEE80211StatusCode::DeniedLocalMacAddressPolicyViolation,
            126 => IEEE80211StatusCode::SaeHashToElement,
            128 => IEEE80211StatusCode::TclasProcessingTerminatedInsufficientQos,
            129 => IEEE80211StatusCode::TclasProcessingTerminatedPolicyConflict,
            x => IEEE80211StatusCode::Unknown(x),
        }
    }

    /// Encode this variant.
    pub fn into_bits(self) -> (r: u16)
        ensures
            r == self.spec_into_bits(),
    {
        match self {
            IEEE80211StatusCode::Success => 0,
            IEEE80211StatusCode::RefusedReasonUnspec => 1,
            IEEE80211StatusCode::TdlsRejectedAlternativeProvided => 2,
            IEEE80211StatusCode::TdlsRejected => 3,
            IEEE80211StatusCode::SecurityDisabled => 5,
            IEEE80211StatusCode::UnacceptableLifetime => 6,
            IEEE80211StatusCode::NotInSameBss => 7,
            IEEE80211StatusCode::RefusedCapabilitiesMismatch => 10,
            IEEE80211StatusCode::DeniedNoAssociationExists => 11,
            IEEE80211StatusCode::DeniedOtherReason => 12,
            IEEE80211StatusCode::UnsupportedAuthAlgorithm => 13,
            IEEE80211StatusCode::TransactionSequenceError => 14,
            IEEE80211StatusCode::ChallengeFailure => 15,
            IEEE80211StatusCode::RejectedSequenceTimeout => 16,
            IEEE80211StatusCode::DeniedNoMoreStas => 17,
            IEEE80211StatusCode::RefusedBasicRatesMismatch => 18,
            IEEE80211StatusCode::DeniedNoShortPreambleSupport => 19,
            IEEE80211StatusCode::RejectedSpectrumManagementRequired => 22,
            IEEE80211StatusCode::RejectedBadPowerCapability => 23,
            IEEE80211StatusCode::RejectedBadSupportedChannels => 24,
            IEEE80211StatusCode::DeniedNoShortSlotTimeSupport => 25,
            IEEE80211StatusCode::DeniedNoHtSupport => 27,
            IEEE80211StatusCode::R0khUnreachable => 28,
            IEEE80211StatusCode::RefusedTemporarily => 30,
            IEEE80211StatusCode::RobustManagementPolicyViolation => 31,
            IEEE80211StatusCode::UnspecifiedQosFailure => 32,
            IEEE80211StatusCode::DeniedInsufficientBandwidth => 33,
            IEEE80211StatusCode::DeniedPoorChannelConditions => 34,
            IEEE80211StatusCode::DeniedQosNotSupported => 35,
            IEEE80211StatusCode::RequestDeclined => 37,
            IEEE80211StatusCode::InvalidParameters => 38,
            IEEE80211StatusCode::RejectedWithSuggestedChanges => 39,
            IEEE80211StatusCode::StatusInvalidElement => 40,
            IEEE80211StatusCode::StatusInvalidGroupCipher => 41,
            IEEE80211StatusCode::StatusInvalidPairwiseCipher => 42,
            IEEE80211StatusCode::StatusInvalidAkmp => 43,
            IEEE80211StatusCode::UnsupportedRsneVersion => 44,
            IEEE80211StatusCode::InvalidRsneCapabilities => 45,
            IEEE80211StatusCode::StatusCipherOutOfPolicy => 46,
            IEEE80211StatusCode::RejectedForDelayPeriod => 47,
            IEEE80211StatusCode::NotPresent => 49,
            IEEE80211StatusCode::NotQosSta => 50,
            IEEE80211StatusCode::DeniedListenIntervalTooLarge => 51,
            IEEE80211StatusCode::StatusInvalidFtActionFrameCount => 52,
            IEEE80211StatusCode::StatusInvalidPmkid => 53,
            IEEE80211StatusCode::StatusInvalidMde => 54,
            IEEE80211StatusCode::StatusInvalidFte => 55,
            IEEE80211StatusCode::RequestedTclasNotSupported => 56,
            IEEE80211StatusCode::InsufficientTclasProcessingResources => 57,
            IEEE80211StatusCode::TryAnotherBss => 58,
            IEEE80211StatusCode::GasAdvertisementProtocolNotSupported => 59,
            IEEE80211StatusCode::NoOutstandingGasRequest => 60,
            IEEE80211StatusCode::GasResponseNotReceivedFrom => 61,
            IEEE80211StatusCode::GasQueryTimeout => 62,
            IEEE80211StatusCode::GasQueryResponseToo => 63,
            IEEE80211StatusCode::RejectedHomeWithSuggestedChanges => 64,
            IEEE80211StatusCode::ServerUnreachable => 65,
            IEEE80211StatusCode::RejectedForSspPermissions => 67,
            IEEE80211StatusCode::RefusedUnauthenticatedAccessNotSupported => 68,
            IEEE80211StatusCode::InvalidRsne => 72,
            IEEE80211StatusCode::UApsdCoexistenceNotSupported => 73,
            IEEE80211StatusCode::UApsdCoexModeNotSupported => 74,
            IEEE80211StatusCode::BadIntervalWithUApsdCoex => 75,
            IEEE80211StatusCode::AntiCloggingTokenRequired => 76,
            IEEE80211StatusCode::UnsupportedFiniteCyclicGroup => 77,
            IEEE80211StatusCode::CannotFindAlternativeTbtt => 78,
            IEEE80211StatusCode::TransmissionFailure => 79,
            IEEE80211StatusCode::RequestedTclasNotSupported2 => 80,
            IEEE80211StatusCode::TclasResourcesExhausted => 81,
            IEEE80211StatusCode::RejectedWithSuggestedBssTransition => 82,
            IEEE80211StatusCode::RejectWithSchedule => 83,
            IEEE80211StatusCode::RejectNoWakeupSpecified => 84,
            IEEE80211StatusCode::SuccessPowerSaveMode => 85,
            IEEE80211StatusCode::PendingAdmittingFstSession => 86,
            IEEE80211StatusCode::PerformingFstNow => 87,
            IEEE80211StatusCode::PendingGapInBaWindow => 88,
            IEEE80211StatusCode::RejectUpidSetting => 89,
            IEEE80211StatusCode::RefusedExternalReason => 92,
            IEEE80211StatusCode::RefusedApOutOfMemory => 93,
            IEEE80211StatusCode::RejectedEmergencyServicesNotSupported => 94,
            IEEE80211StatusCode::QueryResponseOutstanding => 95,
            IEEE80211StatusCode::RejectDseBand => 96,
            IEEE80211StatusCode::TclasProcessingTerminated => 97,
            IEEE80211StatusCode::TsScheduleConflict => 98,
            IEEE80211StatusCode::DeniedWithSuggestedBandAndChannel => 99,
            IEEE80211StatusCode::MccaopReservationConflict => 100,
            IEEE80211StatusCode::MafLimitExceeded => 101,
            IEEE80211StatusCode::MccaTrackLimitExceeded => 102,
            IEEE80211StatusCode::DeniedDueToSpectrumManagement => 103,
            IEEE80211StatusCode::DeniedVhtNotSupported => 104,
            IEEE80211StatusCode::Enablement => 105,
            IEEE80211StatusCode::Restriction => 106,
            IEEE80211StatusCode::Authorization => 107,
            IEEE80211StatusCode::EnergyLimitedOperationNotSupported => 108,
            IEEE80211StatusCode::RejectedNdpBlockAckSuggested => 109,
            IEEE80211StatusCode::RejectedMaxAwayDurationUnacceptable => 110,
            IEEE80211StatusCode::FlowControlOperationSupported => 111,
            IEEE80211StatusCode::FilsAuthenticationFailure => 112,
            IEEE80211StatusCode::UnknownAuthenticationServer => 113,
            IEEE80211StatusCode::DeniedNotificationPeriodAllocation => 116,
            IEEE80211StatusCode::DeniedChannelSplitting => 117,
            IEEE80211StatusCode::DeniedAllocation => 118,
            IEEE80211StatusCode::CmmgFeaturesNotSupported => 119,
            IEEE80211StatusCode::GasFragmentNotAvailable => 120,
            IEEE80211StatusCode::SuccessCagVersionsMatch => 121,
            IEEE80211StatusCode::GlkNotAuthorized => 122,
            IEEE80211StatusCode::UnknownPasswordIdentifier => 123,
            IEEE80211StatusCode::DeniedLocalMacAddressPolicyViolation => 125,
            IEEE80211StatusCode::SaeHashToElement => 126,
            IEEE80211StatusCode::TclasProcessingTerminatedInsufficientQos => 128,
            IEEE80211StatusCode::TclasProcessingTerminatedPolicyConflict => 129,
            IEEE80211StatusCode::Unknown(x) => x,
        }
    }
}

impl Default for IEEE80211StatusCode {
    fn default() -> (r: Self)
        ensures
            r == IEEE80211StatusCode::Success,
    {
        IEEE80211StatusCode::Success
    }
}

/// The numbering of [IEEE80211StatusCode]: each named value is read from its own number and written as that
/// number, and any other number is kept as an unknown value.
pub proof fn lemma_ieee80211_status_code_numbering(value: u16)
    ensures
        (IEEE80211StatusCode::spec_from_bits(value) == IEEE80211StatusCode::Success) == (value == 0),
        (IEEE80211StatusCode::spec_from_bits(value) == IEEE80211StatusCode::RefusedReasonUnspec) == (value == 1),
        (IEEE80211StatusCode::spec_from_bits(value) == IEEE80211StatusCode::TdlsRejectedAlternativeProvided) == (value == 2),
        (IEEE80211StatusCode::spec_from_bits(value) == IEEE80211StatusCode::TdlsRejected) == (value == 3),
        (IEEE80211StatusCode::spec_from_bits(value) == IEEE80211StatusCode::SecurityDisabled) == (value == 5),
        (IEEE80211StatusCode::spec_from_bits(value) == IEEE80211StatusCode::UnacceptableLifetime) == (value == 6),
        (IEEE80211StatusCode::spec_from_bits(value) == IEEE80211StatusCode::NotInSameBss) == (value == 7),
        (IEEE80211StatusCode::spec_from_bits(value) == IEEE80211StatusCode::RefusedCapabilitiesMismatch) == (value == 10),
        (IEEE80211StatusCode::spec_from_bits(value) == IEEE80211StatusCode::DeniedNoAssociationExists) == (value == 11),
        (IEEE80211StatusCode::spec_from_bits(value) == IEEE80211StatusCode::DeniedOtherReason) == (value == 12),
        (IEEE80211StatusCode::spec_from_bits(value) == IEEE80211StatusCode::UnsupportedAuthAlgorithm) == (value == 13),
        (IEEE80211StatusCode::spec_from_bits(value) == IEEE80211StatusCode::TransactionSequenceError) == (value == 14),
        (IEEE80211StatusCode::spec_from_bits(value) == IEEE80211StatusCode::ChallengeFailure) == (value == 15),
        (IEEE80211StatusCode::spec_from_bits(value) == IEEE80211StatusCode::RejectedSequenceTimeout) == (value == 16),
        (IEEE80211StatusCode::spec_from_bits(value) == IEEE80211StatusCode::DeniedNoMoreStas) == (value == 17),
        (IEEE80211StatusCode::spec_from_bits(value) == IEEE80211StatusCode::RefusedBasicRatesMismatch) == (value == 18),
        (IEEE80211StatusCode::spec_from_bits(value) == IEEE80211StatusCode::DeniedNoShortPreambleSupport) == (value == 19),
        (IEEE80211StatusCode::spec_from_bits(value) == IEEE80211StatusCode::RejectedSpectrumManagementRequired) == (value == 22),
        (IEEE80211StatusCode::spec_from_bits(value) == IEEE80211StatusCode::RejectedBadPowerCapability) == (value == 23),
        (IEEE80211StatusCode::spec_from_bits(value) == IEEE80211StatusCode::RejectedBadSupportedChannels) == (value == 24),
        (IEEE80211StatusCode::spec_from_bits(value) == IEEE80211StatusCode::DeniedNoShortSlotTimeSupport) == (value == 25),
        (IEEE80211StatusCode::spec_from_bits(value) == IEEE80211StatusCode::DeniedNoHtSupport) == (value == 27),
        (IEEE80211StatusCode::spec_from_bits(value) == IEEE80211StatusCode::R0khUnreachable) == (value == 28),
        (IEEE80211StatusCode::spec_from_bits(value) == IEEE80211StatusCode::RefusedTemporarily) == (value == 30),
        (IEEE80211StatusCode::spec_from_bits(value) == IEEE80211StatusCode::RobustManagementPolicyViolation) == (value == 31),
        (IEEE80211StatusCode::spec_from_bits(value) == IEEE80211StatusCode::UnspecifiedQosFailure) == (value == 32),
        (IEEE80211StatusCode::spec_from_bits(value) == IEEE80211StatusCode::DeniedInsufficientBandwidth) == (value == 33),
        (IEEE80211StatusCode::spec_from_bits(value) == IEEE80211StatusCode::DeniedPoorChannelConditions) == (value == 34),
        (IEEE80211StatusCode::spec_from_bits(value) == IEEE80211StatusCode::DeniedQosNotSupported) == (value == 35),
        (IEEE80211StatusCode::spec_from_bits(value) == IEEE80211StatusCode::RequestDeclined) == (value == 37),
        (IEEE80211StatusCode::spec_from_bits(value) == IEEE80211StatusCode::InvalidParameters) == (value == 38),
        (IEEE80211StatusCode::spec_from_bits(value) == IEEE80211StatusCode::RejectedWithSuggestedChanges) == (value == 39),
        (IEEE80211StatusCode::spec_from_bits(value) == IEEE80211StatusCode::StatusInvalidElement) == (value == 40),
        (IEEE80211StatusCode::spec_from_bits(value) == IEEE80211StatusCode::StatusInvalidGroupCipher) == (value == 41),
        (IEEE80211StatusCode::spec_from_bits(value) == IEEE80211StatusCode::StatusInvalidPairwiseCipher) == (value == 42),
        (IEEE80211StatusCode::spec_from_bits(value) == IEEE80211StatusCode::StatusInvalidAkmp) == (value == 43),
        (IEEE80211StatusCode::spec_from_bits(value) == IEEE80211StatusCode::UnsupportedRsneVersion) == (value == 44),
        (IEEE80211StatusCode::spec_from_bits(value) == IEEE80211StatusCode::InvalidRsneCapabilities) == (value == 45),
        (IEEE80211StatusCode::spec_from_bits(value) == IEEE80211StatusCode::StatusCipherOutOfPolicy) == (value == 46),
        (IEEE80211StatusCode::spec_from_bits(value) == IEEE80211StatusCode::RejectedForDelayPeriod) == (value == 47),
        (IEEE80211StatusCode::spec_from_bits(value) == IEEE80211StatusCode::NotPresent) == (value == 49),
        (IEEE80211StatusCode::spec_from_bits(value) == IEEE80211StatusCode::NotQosSta) == (value == 50),
        (IEEE80211StatusCode::spec_from_bits(value) == IEEE80211StatusCode::DeniedListenIntervalTooLarge) == (value == 51),
        (IEEE80211StatusCode::spec_from_bits(value) == IEEE80211StatusCode::StatusInvalidFtActionFrameCount) == (value == 52),
        (IEEE80211StatusCode::spec_from_bits(value) == IEEE80211StatusCode::StatusInvalidPmkid) == (value == 53),
        (IEEE80211StatusCode::spec_from_bits(value) == IEEE80211StatusCode::StatusInvalidMde) == (value == 54),
        (IEEE80211StatusCode::spec_from_bits(value) == IEEE80211StatusCode::StatusInvalidFte) == (value == 55),
        (IEEE80211StatusCode::spec_from_bits(value) == IEEE80211StatusCode::RequestedTclasNotSupported) == (value == 56),
        (IEEE80211StatusCode::spec_from_bits(value) == IEEE80211StatusCode::InsufficientTclasProcessingResources) == (value == 57),
        (IEEE80211StatusCode::spec_from_bits(value) == IEEE80211StatusCode::TryAnotherBss) == (value == 58),
        (IEEE80211StatusCode::spec_from_bits(value) == IEEE80211StatusCode::GasAdvertisementProtocolNotSupported) == (value == 59),
        (IEEE80211StatusCode::spec_from_bits(value) == IEEE80211StatusCode::NoOutstandingGasRequest) == (value == 60),
        (IEEE80211StatusCode::spec_from_bits(value) == IEEE80211StatusCode::GasResponseNotReceivedFrom) == (value == 61),
        (IEEE80211StatusCode::spec_from_bits(value) == IEEE80211StatusCode::GasQueryTimeout) == (value == 62),
        (IEEE80211StatusCode::spec_from_bits(value) == IEEE80211StatusCode::GasQueryResponseToo) == (value == 63),
        (IEEE80211StatusCode::spec_from_bits(value) == IEEE80211StatusCode::RejectedHomeWithSuggestedChanges) == (value == 64),
        (IEEE80211StatusCode::spec_from_bits(value) == IEEE80211StatusCode::ServerUnreachable) == (value == 65),
        (IEEE80211StatusCode::spec_from_bits(value) == IEEE80211StatusCode::RejectedForSspPermissions) == (value == 67),
        (IEEE80211StatusCode::spec_from_bits(value) == IEEE80211StatusCode::RefusedUnauthenticatedAccessNotSupported) == (value == 68),
        (IEEE80211StatusCode::spec_from_bits(value) == IEEE80211StatusCode::InvalidRsne) == (value == 72),
        (IEEE80211StatusCode::spec_from_bits(value) == IEEE80211StatusCode::UApsdCoexistenceNotSupported) == (value == 73),
        (IEEE80211StatusCode::spec_from_bits(value) == IEEE80211StatusCode::UApsdCoexModeNotSupported) == (value == 74),
        (IEEE80211StatusCode::spec_from_bits(value) == IEEE80211StatusCode::BadIntervalWithUApsdCoex) == (value == 75),
        (IEEE80211StatusCode::spec_from_bits(value) == IEEE80211StatusCode::AntiCloggingTokenRequired) == (value == 76),
        (IEEE80211StatusCode::spec_from_bits(value) == IEEE80211StatusCode::UnsupportedFiniteCyclicGroup) == (value == 77),
        (IEEE80211StatusCode::spec_from_bits(value) == IEEE80211StatusCode::CannotFindAlternativeTbtt) == (value == 78),
        (IEEE80211StatusCode::spec_from_bits(value) == IEEE80211StatusCode::TransmissionFailure) == (value == 79),
        (IEEE80211StatusCode::spec_from_bits(value) == IEEE80211StatusCode::RequestedTclasNotSupported2) == (value == 80),
        (IEEE80211StatusCode::spec_from_bits(value) == IEEE80211StatusCode::TclasResourcesExhausted) == (value == 81),
        (IEEE80211StatusCode::spec_from_bits(value) == IEEE80211StatusCode::RejectedWithSuggestedBssTransition) == (value == 82),
        (IEEE80211StatusCode::spec_from_bits(value) == IEEE80211StatusCode::RejectWithSchedule) == (value == 83),
        (IEEE80211StatusCode::spec_from_bits(value) == IEEE80211StatusCode::RejectNoWakeupSpecified) == (value == 84),
        (IEEE80211StatusCode::spec_from_bits(value) == IEEE80211StatusCode::SuccessPowerSaveMode) == (value == 85),
        (IEEE80211StatusCode::spec_from_bits(value) == IEEE80211StatusCode::PendingAdmittingFstSession) == (value == 86),
        (IEEE80211StatusCode::spec_from_bits(value) == IEEE80211StatusCode::PerformingFstNow) == (value == 87),
        (IEEE80211StatusCode::spec_from_bits(value) == IEEE80211StatusCode::PendingGapInBaWindow) == (value == 88),
        (IEEE80211StatusCode::spec_from_bits(value) == IEEE80211StatusCode::RejectUpidSetting) == (value == 89),
        (IEEE80211StatusCode::spec_from_bits(value) == IEEE80211StatusCode::RefusedExternalReason) == (value == 92),
        (IEEE80211StatusCode::spec_from_bits(value) == IEEE80211StatusCode::RefusedApOutOfMemory) == (value == 93),
        (IEEE80211StatusCode::spec_from_bits(value) == IEEE80211StatusCode::RejectedEmergencyServicesNotSupported) == (value == 94),
        (IEEE80211StatusCode::spec_from_bits(value) == IEEE80211StatusCode::QueryResponseOutstanding) == (value == 95),
        (IEEE80211StatusCode::spec_from_bits(value) == IEEE80211StatusCode::RejectDseBand) == (value == 96),
        (IEEE80211StatusCode::spec_from_bits(value) == IEEE80211StatusCode::TclasProcessingTerminated) == (value == 97),
        (IEEE80211StatusCode::spec_from_bits(value) == IEEE80211StatusCode::TsScheduleConflict) == (value == 98),
        (IEEE80211StatusCode::spec_from_bits(value) == IEEE80211StatusCode::DeniedWithSuggestedBandAndChannel) == (value == 99),
        (IEEE80211StatusCode::spec_from_bits(value) == IEEE80211StatusCode::MccaopReservationConflict) == (value == 100),
        (IEEE80211StatusCode::spec_from_bits(value) == IEEE80211StatusCode::MafLimitExceeded) == (value == 101),
        (IEEE80211StatusCode::spec_from_bits(value) == IEEE80211StatusCode::MccaTrackLimitExceeded) == (value == 102),
        (IEEE80211StatusCode::spec_from_bits(value) == IEEE80211StatusCode::DeniedDueToSpectrumManagement) == (value == 103),
        (IEEE80211StatusCode::spec_from_bits(value) == IEEE80211StatusCode::DeniedVhtNotSupported) == (value == 104),
        (IEEE80211StatusCode::spec_from_bits(value) == IEEE80211StatusCode::Enablement) == (value == 105),
        (IEEE80211StatusCode::spec_from_bits(value) == IEEE80211StatusCode::Restriction) == (value == 106),
        (IEEE80211StatusCode::spec_from_bits(value) == IEEE80211StatusCode::Authorization) == (value == 107),
        (IEEE80211StatusCode::spec_from_bits(value) == IEEE80211StatusCode::EnergyLimitedOperationNotSupported) == (value == 108),
        (IEEE80211StatusCode::spec_from_bits(value) == IEEE80211StatusCode::RejectedNdpBlockAckSuggested) == (value == 109),
        (IEEE80211StatusCode::spec_from_bits(value) == IEEE80211StatusCode::RejectedMaxAwayDurationUnacceptable) == (value == 110),
        (IEEE80211StatusCode::spec_from_bits(value) == IEEE80211StatusCode::FlowControlOperationSupported) == (value == 111),
        (IEEE80211StatusCode::spec_from_bits(value) == IEEE80211StatusCode::FilsAuthenticationFailure) == (value == 112),
        (IEEE80211StatusCode::spec_from_bits(value) == IEEE80211StatusCode::UnknownAuthenticationServer) == (value == 113),
        (IEEE80211StatusCode::spec_from_bits(value) == IEEE80211StatusCode::DeniedNotificationPeriodAllocation) == (value == 116),
        (IEEE80211StatusCode::spec_from_bits(value) == IEEE80211StatusCode::DeniedChannelSplitting) == (value == 117),
        (IEEE80211StatusCode::spec_from_bits(value) == IEEE80211StatusCode::DeniedAllocation) == (value == 118),
        (IEEE80211StatusCode::spec_from_bits(value) == IEEE80211StatusCode::CmmgFeaturesNotSupported) == (value == 119),
        (IEEE80211StatusCode::spec_from_bits(value) == IEEE80211StatusCode::GasFragmentNotAvailable) == (value == 120),
        (IEEE80211StatusCode::spec_from_bits(value) == IEEE80211StatusCode::SuccessCagVersionsMatch) == (value == 121),
        (IEEE80211StatusCode::spec_from_bits(value) == IEEE80211StatusCode::GlkNotAuthorized) == (value == 122),
        (IEEE80211StatusCode::spec_from_bits(value) == IEEE80211StatusCode::UnknownPasswordIdentifier) == (value == 123),
        (IEEE80211StatusCode::spec_from_bits(value) == IEEE80211StatusCode::DeniedLocalMacAddressPolicyViolation) == (value == 125),
        (IEEE80211StatusCode::spec_from_bits(value) == IEEE80211StatusCode::SaeHashToElement) == (value == 126),
        (IEEE80211StatusCode::spec_from_bits(value) == IEEE80211StatusCode::TclasProcessingTerminatedInsufficientQos) == (value == 128),
        (IEEE80211StatusCode::spec_from_bits(value) == IEEE80211StatusCode::TclasProcessingTerminatedPolicyConflict) == (value == 129),
        IEEE80211StatusCode::Success.spec_into_bits() == 0,
        IEEE80211StatusCode::RefusedReasonUnspec.spec_into_bits() == 1,
        IEEE80211StatusCode::TdlsRejectedAlternativeProvided.spec_into_bits() == 2,
        IEEE80211StatusCode::TdlsRejected.spec_into_bits() == 3,
        IEEE80211StatusCode::SecurityDisabled.spec_into_bits() == 5,
        IEEE80211StatusCode::UnacceptableLifetime.spec_into_bits() == 6,
        IEEE80211StatusCode::NotInSameBss.spec_into_bits() == 7,
        IEEE80211StatusCode::RefusedCapabilitiesMismatch.spec_into_bits() == 10,
        IEEE80211StatusCode::DeniedNoAssociationExists.spec_into_bits() == 11,
        IEEE80211StatusCode::DeniedOtherReason.spec_into_bits() == 12,
        IEEE80211StatusCode::UnsupportedAuthAlgorithm.spec_into_bits() == 13,
        IEEE80211StatusCode::TransactionSequenceError.spec_into_bits() == 14,
        IEEE80211StatusCode::ChallengeFailure.spec_into_bits() == 15,
        IEEE80211StatusCode::RejectedSequenceTimeout.spec_into_bits() == 16,
        IEEE80211StatusCode::DeniedNoMoreStas.spec_into_bits() == 17,
        IEEE80211StatusCode::RefusedBasicRatesMismatch.spec_into_bits() == 18,
        IEEE80211StatusCode::DeniedNoShortPreambleSupport.spec_into_bits() == 19,
        IEEE80211StatusCode::RejectedSpectrumManagementRequired.spec_into_bits() == 22,
        IEEE80211StatusCode::RejectedBadPowerCapability.spec_into_bits() == 23,
        IEEE80211StatusCode::RejectedBadSupportedChannels.spec_into_bits() == 24,
        IEEE80211StatusCode::DeniedNoShortSlotTimeSupport.spec_into_bits() == 25,
        IEEE80211StatusCode::DeniedNoHtSupport.spec_into_bits() == 27,
        IEEE80211StatusCode::R0khUnreachable.spec_into_bits() == 28,
        IEEE80211StatusCode::RefusedTemporarily.spec_into_bits() == 30,
        IEEE80211StatusCode::RobustManagementPolicyViolation.spec_into_bits() == 31,
        IEEE80211StatusCode::UnspecifiedQosFailure.spec_into_bits() == 32,
        IEEE80211StatusCode::DeniedInsufficientBandwidth.spec_into_bits() == 33,
        IEEE80211StatusCode::DeniedPoorChannelConditions.spec_into_bits() == 34,
        IEEE80211StatusCode::DeniedQosNotSupported.spec_into_bits() == 35,
        IEEE80211StatusCode::RequestDeclined.spec_into_bits() == 37,
        IEEE80211StatusCode::InvalidParameters.spec_into_bits() == 38,
        IEEE80211StatusCode::RejectedWithSuggestedChanges.spec_into_bits() == 39,
        IEEE80211StatusCode::StatusInvalidElement.spec_into_bits() == 40,
        IEEE80211StatusCode::StatusInvalidGroupCipher.spec_into_bits() == 41,
        IEEE80211StatusCode::StatusInvalidPairwiseCipher.spec_into_bits() == 42,
        IEEE80211StatusCode::StatusInvalidAkmp.spec_into_bits() == 43,
        IEEE80211StatusCode::UnsupportedRsneVersion.spec_into_bits() == 44,
        IEEE80211StatusCode::InvalidRsneCapabilities.spec_into_bits() == 45,
        IEEE80211StatusCode::StatusCipherOutOfPolicy.spec_into_bits() == 46,
        IEEE80211StatusCode::RejectedForDelayPeriod.spec_into_bits() == 47,
        IEEE80211StatusCode::NotPresent.spec_into_bits() == 49,
        IEEE80211StatusCode::NotQosSta.spec_into_bits() == 50,
        IEEE80211StatusCode::DeniedListenIntervalTooLarge.spec_into_bits() == 51,
        IEEE80211StatusCode::StatusInvalidFtActionFrameCount.spec_into_bits() == 52,
        IEEE80211StatusCode::StatusInvalidPmkid.spec_into_bits() == 53,
        IEEE80211StatusCode::StatusInvalidMde.spec_into_bits() == 54,
        IEEE80211StatusCode::StatusInvalidFte.spec_into_bits() == 55,
        IEEE80211StatusCode::RequestedTclasNotSupported.spec_into_bits() == 56,
        IEEE80211StatusCode::InsufficientTclasProcessingResources.spec_into_bits() == 57,
        IEEE80211StatusCode::TryAnotherBss.spec_into_bits() == 58,
        IEEE80211StatusCode::GasAdvertisementProtocolNotSupported.spec_into_bits() == 59,
        IEEE80211StatusCode::NoOutstandingGasRequest.spec_into_bits() == 60,
        IEEE80211StatusCode::GasResponseNotReceivedFrom.spec_into_bits() == 61,
        IEEE80211StatusCode::GasQueryTimeout.spec_into_bits() == 62,
        IEEE80211StatusCode::GasQueryResponseToo.spec_into_bits() == 63,
        IEEE80211StatusCode::RejectedHomeWithSuggestedChanges.spec_into_bits() == 64,
        IEEE80211StatusCode::ServerUnreachable.spec_into_bits() == 65,
        IEEE80211StatusCode::RejectedForSspPermissions.spec_into_bits() == 67,
        IEEE80211StatusCode::RefusedUnauthenticatedAccessNotSupported.spec_into_bits() == 68,
        IEEE80211StatusCode::InvalidRsne.spec_into_bits() == 72,
        IEEE80211StatusCode::UApsdCoexistenceNotSupported.spec_into_bits() == 73,
        IEEE80211StatusCode::UApsdCoexModeNotSupported.spec_into_bits() == 74,
        IEEE80211StatusCode::BadIntervalWithUApsdCoex.spec_into_bits() == 75,
        IEEE80211StatusCode::AntiCloggingTokenRequired.spec_into_bits() == 76,
        IEEE80211StatusCode::UnsupportedFiniteCyclicGroup.spec_into_bits() == 77,
        IEEE80211StatusCode::CannotFindAlternativeTbtt.spec_into_bits() == 78,
        IEEE80211StatusCode::TransmissionFailure.spec_into_bits() == 79,
        IEEE80211StatusCode::RequestedTclasNotSupported2.spec_into_bits() == 80,
        IEEE80211StatusCode::TclasResourcesExhausted.spec_into_bits() == 81,
        IEEE80211StatusCode::RejectedWithSuggestedBssTransition.spec_into_bits() == 82,
        IEEE80211StatusCode::RejectWithSchedule.spec_into_bits() == 83,
        IEEE80211StatusCode::RejectNoWakeupSpecified.spec_into_bits() == 84,
        IEEE80211StatusCode::SuccessPowerSaveMode.spec_into_bits() == 85,
        IEEE80211StatusCode::PendingAdmittingFstSession.spec_into_bits() == 86,
        IEEE80211StatusCode::PerformingFstNow.spec_into_bits() == 87,
        IEEE80211StatusCode::PendingGapInBaWindow.spec_into_bits() == 88,
        IEEE80211StatusCode::RejectUpidSetting.spec_into_bits() == 89,
        IEEE80211StatusCode::RefusedExternalReason.spec_into_bits() == 92,
        IEEE80211StatusCode::RefusedApOutOfMemory.spec_into_bits() == 93,
        IEEE80211StatusCode::RejectedEmergencyServicesNotSupported.spec_into_bits() == 94,
        IEEE80211StatusCode::QueryResponseOutstanding.spec_into_bits() == 95,
        IEEE80211StatusCode::RejectDseBand.spec_into_bits() == 96,
        IEEE80211StatusCode::TclasProcessingTerminated.spec_into_bits() == 97,
        IEEE80211StatusCode::TsScheduleConflict.spec_into_bits() == 98,
        IEEE80211StatusCode::DeniedWithSuggestedBandAndChannel.spec_into_bits() == 99,
        IEEE80211StatusCode::MccaopReservationConflict.spec_into_bits() == 100,
        IEEE80211StatusCode::MafLimitExceeded.spec_into_bits() == 101,
        IEEE80211StatusCode::MccaTrackLimitExceeded.spec_into_bits() == 102,
        IEEE80211StatusCode::DeniedDueToSpectrumManagement.spec_into_bits() == 103,
        IEEE80211StatusCode::DeniedVhtNotSupported.spec_into_bits() == 104,
        IEEE80211StatusCode::Enablement.spec_into_bits() == 105,
        IEEE80211StatusCode::Restriction.spec_into_bits() == 106,
        IEEE80211StatusCode::Authorization.spec_into_bits() == 107,
        IEEE80211StatusCode::EnergyLimitedOperationNotSupported.spec_into_bits() == 108,
        IEEE80211StatusCode::RejectedNdpBlockAckSuggested.spec_into_bits() == 109,
        IEEE80211StatusCode::RejectedMaxAwayDurationUnacceptable.spec_into_bits() == 110,
        IEEE80211StatusCode::FlowControlOperationSupported.spec_into_bits() == 111,
        IEEE80211StatusCode::FilsAuthenticationFailure.spec_into_bits() == 112,
        IEEE80211StatusCode::UnknownAuthenticationServer.spec_into_bits() == 113,
        IEEE80211StatusCode::DeniedNotificationPeriodAllocation.spec_into_bits() == 116,
        IEEE80211StatusCode::DeniedChannelSplitting.spec_into_bits() == 117,
        IEEE80211StatusCode::DeniedAllocation.spec_into_bits() == 118,
        IEEE80211StatusCode::CmmgFeaturesNotSupported.spec_into_bits() == 119,
        IEEE80211StatusCode::GasFragmentNotAvailable.spec_into_bits() == 120,
        IEEE80211StatusCode::SuccessCagVersionsMatch.spec_into_bits() == 121,
        IEEE80211StatusCode::GlkNotAuthorized.spec_into_bits() == 122,
        IEEE80211StatusCode::UnknownPasswordIdentifier.spec_into_bits() == 123,
        IEEE80211StatusCode::DeniedLocalMacAddressPolicyViolation.spec_into_bits() == 125,
        IEEE80211StatusCode::SaeHashToElement.spec_into_bits() == 126,
        IEEE80211StatusCode::TclasProcessingTerminatedInsufficientQos.spec_into_bits() == 128,
        IEEE80211StatusCode::TclasProcessingTerminatedPolicyConflict.spec_into_bits() == 129,
        (IEEE80211StatusCode::spec_from_bits(value) == IEEE80211StatusCode::Unknown(value)) == !(
            value == 0 || value == 1 || value == 2 || value == 3 || value == 5 || value == 6 ||
            value == 7 || value == 10 || value == 11 || value == 12 || value == 13 ||
            value == 14 || value == 15 || value == 16 || value == 17 || value == 18 ||
            value == 19 || value == 22 || value == 23 || value == 24 || value == 25 ||
            value == 27 || value == 28 || value == 30 || value == 31 || value == 32 ||
            value == 33 || value == 34 || value == 35 || value == 37 || value == 38 ||
            value == 39 || value == 40 || value == 41 || value == 42 || value == 43 ||
            value == 44 || value == 45 || value == 46 || value == 47 || value == 49 ||
            value == 50 || value == 51 || value == 52 || value == 53 || value == 54 ||
            value == 55 || value == 56 || value == 57 || value == 58 || value == 59 ||
            value == 60 || value == 61 || value == 62 || value == 63 || value == 64 ||
            value == 65 || value == 67 || value == 68 || value == 72 || value == 73 ||
            value == 74 || value == 75 || value == 76 || value == 77 || value == 78 ||
            value == 79 || value == 80 || value == 81 || value == 82 || value == 83 ||
            value == 84 || value == 85 || value == 86 || value == 87 || value == 88 ||
            value == 89 || value == 92 || value == 93 || value == 94 || value == 95 ||
            value == 96 || value == 97 || value == 98 || value == 99 || value == 100 ||
            value == 101 || value == 102 || value == 103 || value == 104 || value == 105 ||
            value == 106 || value == 107 || value == 108 || value == 109 || value == 110 ||
            value == 111 || value == 112 || value == 113 || value == 116 || value == 117 ||
            value == 118 || value == 119 || value == 120 || value == 121 || value == 122 ||
            value == 123 || value == 125 || value == 126 || value == 128 || value == 129),
{
}

} // verus!
