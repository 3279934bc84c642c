use vstd::prelude::*;
use vstd::arithmetic::power2::lemma2_to64;
use crate::bit_reader::{BitReader, unsigned_bits, signed_bits, lemma_unsigned_bits_bound};
use crate::err::Error;
use super::error_state::ErrorState;
use super::mode::Mode;

verus! {

/// Which AC input an inverter/charger draws from.
#[derive(Debug, Clone, Copy, PartialEq, Eq, Structural)]
pub enum AcInState {
    AcIn1,
    AcIn2,
    NotConnected,
    Unknown,
}

impl AcInState {
    /// The input state that a wire code stands for, if any.
    pub open spec fn of_code(code: u64) -> Option<AcInState> {
        match code {
            0 => Some(AcInState::AcIn1),
            1 => Some(AcInState::AcIn2),
            2 => Some(AcInState::NotConnected),
            3 => Some(AcInState::Unknown),
            _ => None,
        }
    }

    /// Decodes a wire code; `None` for a code that names no input state.
    pub fn from_code(code: u64) -> (r: Option<AcInState>)
        ensures
            r == Self::of_code(code),
    {
        match code {
            0 => Some(AcInState::AcIn1),
            1 => Some(AcInState::AcIn2),
            2 => Some(AcInState::NotConnected),
            3 => Some(AcInState::Unknown),
            _ => None,
        }
    }
}

/// The alarm level that an inverter/charger reports.
#[derive(Debug, Clone, Copy, PartialEq, Eq, Structural)]
pub enum AlarmNotification {
    NoAlarm,
    Warning,
    Alarm,
    NotApplicable,
}

impl AlarmNotification {
    /// The alarm level that a wire code stands for, if any.
    pub open spec fn of_code(code: u64) -> Option<AlarmNotification> {
        match code {
            0 => Some(AlarmNotification::NoAlarm),
            1 => Some(AlarmNotification::Warning),
            2 => Some(AlarmNotification::Alarm),
            3 => Some(AlarmNotification::NotApplicable),
            _ => None,
        }
    }

    /// Decodes a wire code; `None` for a code that names no alarm level.
    pub fn from_code(code: u64) -> (r: Option<AlarmNotification>)
        ensures
            r == Self::of_code(code),
    {
        match code {
            0 => Some(AlarmNotification::NoAlarm),
            1 => Some(AlarmNotification::Warning),
            2 => Some(AlarmNotification::Alarm),
            3 => Some(AlarmNotification::NotApplicable),
            _ => None,
        }
    }
}

/// The state that an inverter/charger on the VE.Bus reports.
#[derive(Debug, Clone, Copy, PartialEq, Eq, Structural)]
pub struct VeBusState {
    pub mode: Mode,
    pub error: ErrorState,
    /// In units of 10 mV.
    pub battery_voltage_10mv: i64,
    /// In units of 100 mA.
    pub battery_current_100ma: i64,
    pub ac_in_state: AcInState,
    pub ac_in_power_w: i64,
    pub ac_out_power_w: i64,
    pub alarm: AlarmNotification,
    pub battery_temperature_c: i64,
    pub soc_percent: i64,
}

/// The outcome of parsing a VE.Bus payload.
pub open spec fn ve_bus_of(p: Seq<u8>) -> Result<VeBusState, Error> {
    let mode_code = unsigned_bits(p, 0, 8) as u64;
    let error_code = unsigned_bits(p, 8, 8) as u64;
    let ac_in_code = unsigned_bits(p, 46, 2) as u64;
    let alarm_code = unsigned_bits(p, 86, 2) as u64;
    if p.len() * 8 < 8 {
        Err(Error::DataTooShort)
    } else if Mode::of_code(mode_code) is None {
        Err(Error::InvalidMode(mode_code))
    } else if p.len() * 8 < 16 {
        Err(Error::DataTooShort)
    } else if ErrorState::of_code(error_code) is None {
        Err(Error::InvalidErrorState(error_code))
    } else if p.len() * 8 < 48 {
        Err(Error::DataTooShort)
    } else if AcInState::of_code(ac_in_code) is None {
        Err(Error::InvalidAcInState)
    } else if p.len() * 8 < 88 {
        Err(Error::DataTooShort)
    } else if AlarmNotification::of_code(alarm_code) is None {
        Err(Error::InvalidAlarmNotification)
    } else if p.len() * 8 < 102 {
        Err(Error::DataTooShort)
    } else {
        Ok(
            VeBusState {
                mode: Mode::of_code(mode_code)->0,
                error: ErrorState::of_code(error_code)->0,
                battery_current_100ma: signed_bits(p, 16, 16) as i64,
                battery_voltage_10mv: unsigned_bits(p, 32, 14) as i64,
                ac_in_state: AcInState::of_code(ac_in_code)->0,
                ac_in_power_w: signed_bits(p, 48, 19) as i64,
                ac_out_power_w: signed_bits(p, 67, 19) as i64,
                alarm: AlarmNotification::of_code(alarm_code)->0,
                battery_temperature_c: (unsigned_bits(p, 88, 7) - 40) as i64,
                soc_percent: unsigned_bits(p, 95, 7) as i64,
            },
        )
    }
}

impl VeBusState {
    /// Parses a decrypted VE.Bus payload.
    pub fn parse(payload: &[u8]) -> (r: Result<Self, Error>)
        requires
            payload@.len() * 8 <= usize::MAX,
        ensures
            r == ve_bus_of(payload@),
    {
        proof {
            lemma2_to64();
            lemma_unsigned_bits_bound(payload@, 88, 7);
        }
        let mut reader = BitReader::new(payload);

        let mode_code = reader.read_unsigned_int(8)?;
        let mode = match Mode::from_code(mode_code) {
            Some(m) => m,
            None => return Err(Error::InvalidMode(mode_code)),
        };
        let error_code = reader.read_unsigned_int(8)?;
        let error = match ErrorState::from_code(error_code) {
            Some(e) => e,
            None => return Err(Error::InvalidErrorState(error_code)),
        };
        let battery_current_100ma = reader.read_signed_int(16)?;
        let battery_voltage_10mv = reader.read_unsigned_int(14)? as i64;
        let ac_in_state = match AcInState::from_code(reader.read_unsigned_int(2)?) {
            Some(s) => s,
            None => return Err(Error::InvalidAcInState),
        };
        let ac_in_power_w = reader.read_signed_int(19)?;
        let ac_out_power_w = reader.read_signed_int(19)?;
        let alarm = match AlarmNotification::from_code(reader.read_unsigned_int(2)?) {
            Some(a) => a,
            None => return Err(Error::InvalidAlarmNotification),
        };
        let battery_temperature_c = reader.read_unsigned_int(7)? as i64 - 40;
        let soc_percent = reader.read_unsigned_int(7)? as i64;

        Ok(
            Self {
                mode,
                error,
                battery_voltage_10mv,
                battery_current_100ma,
                ac_in_state,
                ac_in_power_w,
                ac_out_power_w,
                alarm,
                battery_temperature_c,
                soc_percent,
            },
        )
    }
}

} // verus!
