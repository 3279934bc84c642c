use vstd::prelude::*;
use vstd::arithmetic::power2::lemma2_to64;
use crate::bit_reader::{BitReader, unsigned_bits, signed_bits};
use crate::err::Error;
use super::alarm_reason::AlarmReason;
use super::mode::Mode;

verus! {

/// The state that an inverter reports.
#[derive(Debug, Clone, Copy, PartialEq, Eq, Structural)]
pub struct InverterState {
    pub mode: Mode,
    pub alarm_reason: AlarmReason,
    /// In units of 10 mV.
    pub battery_voltage_10mv: i64,
    pub ac_apparent_power_va: i64,
    /// In units of 10 mV.
    pub ac_voltage_10mv: i64,
    /// In units of 100 mA.
    pub ac_current_100ma: i64,
}

/// The outcome of parsing an inverter payload.
pub open spec fn inverter_of(p: Seq<u8>) -> Result<InverterState, Error> {
    let mode_code = unsigned_bits(p, 0, 8) as u64;
    let alarm_bits = signed_bits(p, 8, 16) as i64;
    if p.len() * 8 < 8 {
        Err(Error::DataTooShort)
    } else if Mode::of_code(mode_code) is None {
        Err(Error::InvalidMode(mode_code))
    } else if p.len() * 8 < 24 {
        Err(Error::DataTooShort)
    } else if AlarmReason::of_bits(alarm_bits) is None {
        Err(Error::InvalidAlarmReason)
    } else if p.len() * 8 < 82 {
        Err(Error::DataTooShort)
    } else {
        Ok(
            InverterState {
                mode: Mode::of_code(mode_code)->0,
                alarm_reason: AlarmReason::of_bits(alarm_bits)->0,
                battery_voltage_10mv: signed_bits(p, 24, 16) as i64,
                ac_apparent_power_va: unsigned_bits(p, 40, 16) as i64,
                ac_voltage_10mv: unsigned_bits(p, 56, 15) as i64,
                ac_current_100ma: unsigned_bits(p, 71, 11) as i64,
            },
        )
    }
}

impl InverterState {
    /// Parses a decrypted inverter payload.
    pub fn parse(payload: &[u8]) -> (r: Result<Self, Error>)
        requires
            payload@.len() * 8 <= usize::MAX,
        ensures
            r == inverter_of(payload@),
    {
        proof {
            lemma2_to64();
        }
        let mut reader = BitReader::new(payload);

        let mode_code = reader.read_unsigned_int(8)?;
        let mode = match Mode::from_code(mode_code) {
            Some(m) => m,
            None => return Err(Error::InvalidMode(mode_code)),
        };
        let alarm_reason = match AlarmReason::from_bits(reader.read_signed_int(16)?) {
            Some(a) => a,
            None => return Err(Error::InvalidAlarmReason),
        };
        let battery_voltage_10mv = reader.read_signed_int(16)?;
        let ac_apparent_power_va = reader.read_unsigned_int(16)? as i64;
        let ac_voltage_10mv = reader.read_unsigned_int(15)? as i64;
        let ac_current_100ma = reader.read_unsigned_int(11)? as i64;

        Ok(
            Self {
                mode,
                alarm_reason,
                battery_voltage_10mv,
                ac_apparent_power_va,
                ac_voltage_10mv,
                ac_current_100ma,
            },
        )
    }
}

} // verus!
