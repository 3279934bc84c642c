use vstd::prelude::*;

verus! {

/// The error that a charger reports.
#[derive(Debug, Clone, Copy, PartialEq, Eq, Structural, PartialOrd, Ord, Hash)]
pub enum ErrorState {
    NotApplicable,
    NoError,
    BatteryVoltsTooHigh,
    ChargerTemperatureTooHigh,
    ChargerOverCurrent,
    ChargerCurrentReversed,
    BulkTimeLimitExceeded,
    CurrentSensorIssue,
    TerminalsOverheated,
    ConverterIssue,
    InputVoltageTooHigh,
    InputCurrentTooHigh,
    InputShutdownExcessBatteryVoltage,
    InputShutdownCurrentFlowWhileOff,
    LostCommunicationWithOneOfDevices,
    SynchronisedChargingDeviceConfigurationIssue,
    BMSConnectionLost,
    NetworkMisconfigured,
    FactoryCalibrationDataLost,
    InvalidFirmware,
    UserSettingsInvalid,
}

impl ErrorState {
    /// The error state that a wire code stands for, if any.
    pub open spec fn of_code(code: u64) -> Option<ErrorState> {
        match code {
            0xFF => Some(ErrorState::NotApplicable),
            0 => Some(ErrorState::NoError),
            2 => Some(ErrorState::BatteryVoltsTooHigh),
            17 => Some(ErrorState::ChargerTemperatureTooHigh),
            18 => Some(ErrorState::ChargerOverCurrent),
            19 => Some(ErrorState::ChargerCurrentReversed),
            20 => Some(ErrorState::BulkTimeLimitExceeded),
            21 => Some(ErrorState::CurrentSensorIssue),
            26 => Some(ErrorState::TerminalsOverheated),
            28 => Some(ErrorState::ConverterIssue),
            33 => Some(ErrorState::InputVoltageTooHigh),
            34 => Some(ErrorState::InputCurrentTooHigh),
            38 => Some(ErrorState::InputShutdownExcessBatteryVoltage),
            39 => Some(ErrorState::InputShutdownCurrentFlowWhileOff),
            65 => Some(ErrorState::LostCommunicationWithOneOfDevices),
            66 => Some(ErrorState::SynchronisedChargingDeviceConfigurationIssue),
            67 => Some(ErrorState::BMSConnectionLost),
            68 => Some(ErrorState::NetworkMisconfigured),
            116 => Some(ErrorState::FactoryCalibrationDataLost),
            117 => Some(ErrorState::InvalidFirmware),
            119 => Some(ErrorState::UserSettingsInvalid),
            _ => None,
        }
    }

    /// Decodes a wire code; `None` for a code that names no error state.
    pub fn from_code(code: u64) -> (r: Option<ErrorState>)
        ensures
            r == Self::of_code(code),
    {
        match code {
            0xFF => Some(ErrorState::NotApplicable),
            0 => Some(ErrorState::NoError),
            2 => Some(ErrorState::BatteryVoltsTooHigh),
            17 => Some(ErrorState::ChargerTemperatureTooHigh),
            18 => Some(ErrorState::ChargerOverCurrent),
            19 => Some(ErrorState::ChargerCurrentReversed),
            20 => Some(ErrorState::BulkTimeLimitExceeded),
            21 => Some(ErrorState::CurrentSensorIssue),
            26 => Some(ErrorState::TerminalsOverheated),
            28 => Some(ErrorState::ConverterIssue),
            33 => Some(ErrorState::InputVoltageTooHigh),
            34 => Some(ErrorState::InputCurrentTooHigh),
            38 => Some(ErrorState::InputShutdownExcessBatteryVoltage),
            39 => Some(ErrorState::InputShutdownCurrentFlowWhileOff),
            65 => Some(ErrorState::LostCommunicationWithOneOfDevices),
            66 => Some(ErrorState::SynchronisedChargingDeviceConfigurationIssue),
            67 => Some(ErrorState::BMSConnectionLost),
            68 => Some(ErrorState::NetworkMisconfigured),
            116 => Some(ErrorState::FactoryCalibrationDataLost),
            117 => Some(ErrorState::InvalidFirmware),
            119 => Some(ErrorState::UserSettingsInvalid),
            _ => None,
        }
    }

    /// The wire code of the error state.
    pub fn code(&self) -> (r: u64)
        ensures
            Self::of_code(r) == Some(*self),
    {
        match self {
            ErrorState::NotApplicable => 0xFF,
            ErrorState::NoError => 0,
            ErrorState::BatteryVoltsTooHigh => 2,
            ErrorState::ChargerTemperatureTooHigh => 17,
            ErrorState::ChargerOverCurrent => 18,
            ErrorState::ChargerCurrentReversed => 19,
            ErrorState::BulkTimeLimitExceeded => 20,
            ErrorState::CurrentSensorIssue => 21,
            ErrorState::TerminalsOverheated => 26,
            ErrorState::ConverterIssue => 28,
            ErrorState::InputVoltageTooHigh => 33,
            ErrorState::InputCurrentTooHigh => 34,
            ErrorState::InputShutdownExcessBatteryVoltage => 38,
            ErrorState::InputShutdownCurrentFlowWhileOff => 39,
            ErrorState::LostCommunicationWithOneOfDevices => 65,
            ErrorState::SynchronisedChargingDeviceConfigurationIssue => 66,
            ErrorState::BMSConnectionLost => 67,
            ErrorState::NetworkMisconfigured => 68,
            ErrorState::FactoryCalibrationDataLost => 116,
            ErrorState::InvalidFirmware => 117,
            ErrorState::UserSettingsInvalid => 119,
        }
    }
}

} // verus!
