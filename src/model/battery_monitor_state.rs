use vstd::prelude::*;
use vstd::arithmetic::power2::lemma2_to64;
use crate::bit_reader::{
    BitReader,
    unsigned_bits,
    signed_bits,
    unsigned_field,
    signed_field,
    lemma_unsigned_bits_bound,
};
use crate::err::Error;
use super::alarm_reason::AlarmReason;

verus! {

/// What the auxiliary input of a battery monitor measures.
#[derive(Debug, Clone, Copy, PartialEq, Eq, Structural)]
pub enum AuxInput {
    /// The voltage of a starter battery, in units of 10 mV.
    Voltage10mV(i64),
    /// The voltage at the middle of the battery bank, in units of 10 mV.
    MidVoltage10mV(i64),
    /// A temperature, in units of 0.01 K.
    Temperature10mK(i64),
    /// Nothing is connected.
    NoInput,
}

/// The state that a battery monitor reports.
#[derive(Debug, Clone, Copy, PartialEq, Eq, Structural)]
pub struct BatteryMonitorState {
    pub time_to_go_mins: Option<i64>,
    /// In units of 10 mV.
    pub battery_voltage_10mv: Option<i64>,
    pub alarm_reason: AlarmReason,
    pub aux_input: AuxInput,
    /// In mA; negative while discharging.
    pub battery_current_ma: Option<i64>,
    /// In units of 0.1 Ah, counted as negative.
    pub consumed_amp_hours_100mah: Option<i64>,
    /// In units of 0.1 %.
    pub state_of_charge_tenth_pct: Option<i64>,
}

/// The auxiliary input that a selector code gives the 16 bits at the
/// auxiliary value offset.
pub open spec fn aux_input_of(p: Seq<u8>, selector: nat) -> AuxInput {
    if selector == 0 {
        AuxInput::Voltage10mV(signed_bits(p, 48, 16) as i64)
    } else if selector == 1 {
        AuxInput::MidVoltage10mV(unsigned_bits(p, 48, 16) as i64)
    } else if selector == 2 {
        AuxInput::Temperature10mK(unsigned_bits(p, 48, 16) as i64)
    } else {
        AuxInput::NoInput
    }
}

/// The outcome of parsing a battery monitor payload.
pub open spec fn battery_monitor_of(p: Seq<u8>) -> Result<BatteryMonitorState, Error> {
    if p.len() * 8 < 48 {
        Err(Error::DataTooShort)
    } else if AlarmReason::of_bits(signed_bits(p, 32, 16) as i64) is None {
        Err(Error::InvalidAlarmReason)
    } else if p.len() * 8 < 118 {
        Err(Error::DataTooShort)
    } else {
        Ok(
            BatteryMonitorState {
                time_to_go_mins: unsigned_field(unsigned_bits(p, 0, 16), 16, 1, 0),
                battery_voltage_10mv: signed_field(signed_bits(p, 16, 16), 16, 1),
                alarm_reason: AlarmReason::of_bits(signed_bits(p, 32, 16) as i64)->0,
                aux_input: aux_input_of(p, unsigned_bits(p, 64, 2)),
                battery_current_ma: signed_field(signed_bits(p, 66, 22), 22, 1),
                consumed_amp_hours_100mah: unsigned_field(unsigned_bits(p, 88, 20), 20, -1i64, 0),
                state_of_charge_tenth_pct: unsigned_field(unsigned_bits(p, 108, 10), 10, 1, 0),
            },
        )
    }
}

impl BatteryMonitorState {
    /// Parses a decrypted battery monitor payload.
    ///
    /// The auxiliary value precedes the selector that says how to read it:
    /// a copy of the reader is kept at the value while the selector is read.
    pub fn parse(payload: &[u8]) -> (r: Result<Self, Error>)
        requires
            payload@.len() * 8 <= usize::MAX,
        ensures
            r == battery_monitor_of(payload@),
    {
        proof {
            lemma2_to64();
        }
        let ghost p = payload@;
        let mut reader = BitReader::new(payload);
        let time_to_go_mins = reader.read_unsigned_field(16, 1, 0)?;
        let battery_voltage_10mv = reader.read_signed_field(16, 1)?;
        let alarm_reason = match AlarmReason::from_bits(reader.read_signed_int(16)?) {
            Some(a) => a,
            None => return Err(Error::InvalidAlarmReason),
        };

        let mut aux_reader = reader;
        reader.skip(16)?;
        let aux_input_type = reader.read_unsigned_int(2)?;
        proof {
            lemma_unsigned_bits_bound(p, 64, 2);
        }
        let aux_input = match aux_input_type {
            0 => AuxInput::Voltage10mV(aux_reader.read_signed_int(16)?),
            1 => AuxInput::MidVoltage10mV(aux_reader.read_unsigned_int(16)? as i64),
            2 => AuxInput::Temperature10mK(aux_reader.read_unsigned_int(16)? as i64),
            3 => AuxInput::NoInput,
            t => return Err(Error::InvalidAuxInputType(t)),
        };

        let battery_current_ma = reader.read_signed_field(22, 1)?;
        let consumed_amp_hours_100mah = reader.read_unsigned_field(20, -1, 0)?;
        let state_of_charge_tenth_pct = reader.read_unsigned_field(10, 1, 0)?;

        Ok(
            Self {
                time_to_go_mins,
                battery_voltage_10mv,
                alarm_reason,
                aux_input,
                battery_current_ma,
                consumed_amp_hours_100mah,
                state_of_charge_tenth_pct,
            },
        )
    }
}

} // verus!
