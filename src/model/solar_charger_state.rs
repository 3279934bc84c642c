use vstd::prelude::*;
use vstd::arithmetic::power2::lemma2_to64;
use crate::bit_reader::{BitReader, unsigned_bits, signed_bits, unsigned_field, signed_field};
use crate::err::Error;
use super::error_state::ErrorState;
use super::mode::Mode;

verus! {

/// The state that a solar charge controller reports.
#[derive(Debug, Clone, Copy, PartialEq, Eq, Structural)]
pub struct SolarChargerState {
    pub mode: Mode,
    pub error_state: ErrorState,
    /// In units of 10 mV.
    pub battery_voltage_10mv: Option<i64>,
    /// In units of 100 mA.
    pub battery_current_100ma: Option<i64>,
    /// In units of 10 Wh.
    pub yield_today_10wh: Option<i64>,
    pub pv_power_w: Option<i64>,
    /// In units of 100 mA.
    pub load_current_100ma: Option<i64>,
}

/// The outcome of parsing a solar charger payload.
pub open spec fn solar_charger_of(p: Seq<u8>) -> Result<SolarChargerState, Error> {
    let mode_code = unsigned_bits(p, 0, 8) as u64;
    let error_code = unsigned_bits(p, 8, 8) as u64;
    if p.len() * 8 < 8 {
        Err(Error::DataTooShort)
    } else if Mode::of_code(mode_code) is None {
        Err(Error::InvalidMode(mode_code))
    } else if p.len() * 8 < 16 {
        Err(Error::DataTooShort)
    } else if ErrorState::of_code(error_code) is None {
        Err(Error::InvalidErrorState(error_code))
    } else if p.len() * 8 < 89 {
        Err(Error::DataTooShort)
    } else {
        Ok(
            SolarChargerState {
                mode: Mode::of_code(mode_code)->0,
                error_state: ErrorState::of_code(error_code)->0,
                battery_voltage_10mv: signed_field(signed_bits(p, 16, 16), 16, 1),
                battery_current_100ma: signed_field(signed_bits(p, 32, 16), 16, 1),
                yield_today_10wh: unsigned_field(unsigned_bits(p, 48, 16), 16, 1, 0),
                pv_power_w: unsigned_field(unsigned_bits(p, 64, 16), 16, 1, 0),
                load_current_100ma: unsigned_field(unsigned_bits(p, 80, 9), 9, 1, 0),
            },
        )
    }
}

impl SolarChargerState {
    /// Parses a decrypted solar charger payload.
    pub fn parse(payload: &[u8]) -> (r: Result<Self, Error>)
        requires
            payload@.len() * 8 <= usize::MAX,
        ensures
            r == solar_charger_of(payload@),
    {
        proof {
            lemma2_to64();
        }
        let mut reader = BitReader::new(payload);

        let mode_code = reader.read_unsigned_int(8)?;
        let mode = match Mode::from_code(mode_code) {
            Some(m) => m,
            None => return Err(Error::InvalidMode(mode_code)),
        };
        let error_code = reader.read_unsigned_int(8)?;
        let error_state = match ErrorState::from_code(error_code) {
            Some(e) => e,
            None => return Err(Error::InvalidErrorState(error_code)),
        };
        let battery_voltage_10mv = reader.read_signed_field(16, 1)?;
        let battery_current_100ma = reader.read_signed_field(16, 1)?;
        let yield_today_10wh = reader.read_unsigned_field(16, 1, 0)?;
        let pv_power_w = reader.read_unsigned_field(16, 1, 0)?;
        let load_current_100ma = reader.read_unsigned_field(9, 1, 0)?;

        Ok(
            Self {
                mode,
                error_state,
                battery_voltage_10mv,
                battery_current_100ma,
                yield_today_10wh,
                pv_power_w,
                load_current_100ma,
            },
        )
    }
}

} // verus!
