use vstd::prelude::*;
use vstd::arithmetic::power2::lemma2_to64;
use crate::bit_reader::{BitReader, unsigned_bits, unsigned_field};
use crate::err::Error;
use super::error_state::ErrorState;
use super::mode::Mode;

verus! {

/// The state that an AC charger reports, for up to three outputs.
#[derive(Debug, Clone, Copy, PartialEq, Eq, Structural)]
pub struct AcChargerState {
    pub mode: Mode,
    pub error_state: ErrorState,
    /// In units of 10 mV.
    pub battery_voltage1_10mv: Option<i64>,
    /// In units of 100 mA.
    pub battery_current1_100ma: Option<i64>,
    pub battery_voltage2_10mv: Option<i64>,
    pub battery_current2_100ma: Option<i64>,
    pub battery_voltage3_10mv: Option<i64>,
    pub battery_current3_100ma: Option<i64>,
    pub temperature_c: Option<i64>,
    /// In units of 100 mA.
    pub ac_current_100ma: Option<i64>,
}

/// The outcome of parsing an AC charger payload.
pub open spec fn ac_charger_of(p: Seq<u8>) -> Result<AcChargerState, Error> {
    let mode_code = unsigned_bits(p, 0, 8) as u64;
    let error_code = unsigned_bits(p, 8, 8) as u64;
    if p.len() * 8 < 8 {
        Err(Error::DataTooShort)
    } else if Mode::of_code(mode_code) is None {
        Err(Error::InvalidMode(mode_code))
    } else if p.len() * 8 < 16 {
        Err(Error::DataTooShort)
    } else if ErrorState::of_code(error_code) is None {
        Err(Error::InvalidErrorState(error_code))
    } else if p.len() * 8 < 104 {
        Err(Error::DataTooShort)
    } else {
        Ok(
            AcChargerState {
                mode: Mode::of_code(mode_code)->0,
                error_state: ErrorState::of_code(error_code)->0,
                battery_voltage1_10mv: unsigned_field(unsigned_bits(p, 16, 13), 13, 1, 0),
                battery_current1_100ma: unsigned_field(unsigned_bits(p, 29, 11), 11, 1, 0),
                battery_voltage2_10mv: unsigned_field(unsigned_bits(p, 40, 13), 13, 1, 0),
                battery_current2_100ma: unsigned_field(unsigned_bits(p, 53, 11), 11, 1, 0),
                battery_voltage3_10mv: unsigned_field(unsigned_bits(p, 64, 13), 13, 1, 0),
                battery_current3_100ma: unsigned_field(unsigned_bits(p, 77, 11), 11, 1, 0),
                temperature_c: unsigned_field(unsigned_bits(p, 88, 7), 7, 1, -40i64),
                ac_current_100ma: unsigned_field(unsigned_bits(p, 95, 9), 9, 1, 0),
            },
        )
    }
}

impl AcChargerState {
    /// Parses a decrypted AC charger payload.
    pub fn parse(payload: &[u8]) -> (r: Result<Self, Error>)
        requires
            payload@.len() * 8 <= usize::MAX,
        ensures
            r == ac_charger_of(payload@),
    {
        proof {
            lemma2_to64();
        }
        let mut reader = BitReader::new(payload);

        let mode_code = reader.read_unsigned_int(8)?;
        let mode = match Mode::from_code(mode_code) {
            Some(m) => m,
            None => return Err(Error::InvalidMode(mode_code)),
        };
        let error_code = reader.read_unsigned_int(8)?;
        let error_state = match ErrorState::from_code(error_code) {
            Some(e) => e,
            None => return Err(Error::InvalidErrorState(error_code)),
        };
        let battery_voltage1_10mv = reader.read_unsigned_field(13, 1, 0)?;
        let battery_current1_100ma = reader.read_unsigned_field(11, 1, 0)?;
        let battery_voltage2_10mv = reader.read_unsigned_field(13, 1, 0)?;
        let battery_current2_100ma = reader.read_unsigned_field(11, 1, 0)?;
        let battery_voltage3_10mv = reader.read_unsigned_field(13, 1, 0)?;
        let battery_current3_100ma = reader.read_unsigned_field(11, 1, 0)?;
        let temperature_c = reader.read_unsigned_field(7, 1, -40)?;
        let ac_current_100ma = reader.read_unsigned_field(9, 1, 0)?;

        Ok(
            Self {
                mode,
                error_state,
                battery_voltage1_10mv,
                battery_current1_100ma,
                battery_voltage2_10mv,
                battery_current2_100ma,
                battery_voltage3_10mv,
                battery_current3_100ma,
                temperature_c,
                ac_current_100ma,
            },
        )
    }
}

} // verus!
