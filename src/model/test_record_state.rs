use vstd::prelude::*;
use vstd::arithmetic::power2::lemma2_to64;
use crate::bit_reader::{BitReader, unsigned_bits, unsigned_field};
use crate::err::Error;

verus! {

/// The state in a test record: how long the device has run, and its temperature.
#[derive(Debug, Clone, Copy, PartialEq, Eq, Structural)]
pub struct TestRecordState {
    pub uptime_s: Option<i64>,
    pub temperature_c: Option<i64>,
}

/// The outcome of parsing a test record payload.
pub open spec fn test_record_of(p: Seq<u8>) -> Result<TestRecordState, Error> {
    if p.len() * 8 < 37 {
        Err(Error::DataTooShort)
    } else {
        Ok(
            TestRecordState {
                uptime_s: unsigned_field(unsigned_bits(p, 0, 30), 30, 1, 0),
                temperature_c: unsigned_field(unsigned_bits(p, 30, 7), 7, 1, -40i64),
            },
        )
    }
}

impl TestRecordState {
    /// Parses a decrypted test record payload.
    pub fn parse(payload: &[u8]) -> (r: Result<Self, Error>)
        requires
            payload@.len() * 8 <= usize::MAX,
        ensures
            r == test_record_of(payload@),
    {
        proof {
            lemma2_to64();
        }
        let mut reader = BitReader::new(payload);
        let uptime_s = reader.read_unsigned_field(30, 1, 0)?;
        let temperature_c = reader.read_unsigned_field(7, 1, -40)?;
        Ok(Self { uptime_s, temperature_c })
    }
}

} // verus!
