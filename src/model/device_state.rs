use vstd::prelude::*;
use crate::err::Error;
use crate::record::{
    Record,
    decrypted_payload,
    RECORD_TYPE_TEST_RECORD,
    RECORD_TYPE_SOLAR_CHARGER,
    RECORD_TYPE_BATTERY_MONITOR,
    RECORD_TYPE_INVERTER,
    RECORD_TYPE_AC_CHARGER,
    RECORD_TYPE_VE_BUS,
};
use super::ac_charger_state::{AcChargerState, ac_charger_of};
use super::battery_monitor_state::{BatteryMonitorState, battery_monitor_of};
use super::inverter_state::{InverterState, inverter_of};
use super::solar_charger_state::{SolarChargerState, solar_charger_of};
use super::test_record_state::{TestRecordState, test_record_of};
use super::ve_bus_state::{VeBusState, ve_bus_of};

verus! {

/// The state of one device, of whichever kind the record named.
#[derive(Debug, Clone, Copy, PartialEq, Eq, Structural)]
pub enum DeviceState {
    TestRecord(TestRecordState),
    SolarCharger(SolarChargerState),
    AcCharger(AcChargerState),
    BatteryMonitor(BatteryMonitorState),
    Inverter(InverterState),
    VeBus(VeBusState),
}

/// The record types that a parser exists for.
pub open spec fn is_supported_record_type(record_type: u8) -> bool {
    record_type == RECORD_TYPE_TEST_RECORD || record_type == RECORD_TYPE_SOLAR_CHARGER
        || record_type == RECORD_TYPE_BATTERY_MONITOR || record_type == RECORD_TYPE_INVERTER
        || record_type == RECORD_TYPE_AC_CHARGER || record_type == RECORD_TYPE_VE_BUS
}

/// The outcome of parsing a decrypted payload with the parser that the
/// record type selects.
pub open spec fn device_state_of(record_type: u8, payload: Seq<u8>) -> Result<DeviceState, Error> {
    if record_type == RECORD_TYPE_TEST_RECORD {
        match test_record_of(payload) {
            Ok(s) => Ok(DeviceState::TestRecord(s)),
            Err(e) => Err(e),
        }
    } else if record_type == RECORD_TYPE_SOLAR_CHARGER {
        match solar_charger_of(payload) {
            Ok(s) => Ok(DeviceState::SolarCharger(s)),
            Err(e) => Err(e),
        }
    } else if record_type == RECORD_TYPE_BATTERY_MONITOR {
        match battery_monitor_of(payload) {
            Ok(s) => Ok(DeviceState::BatteryMonitor(s)),
            Err(e) => Err(e),
        }
    } else if record_type == RECORD_TYPE_INVERTER {
        match inverter_of(payload) {
            Ok(s) => Ok(DeviceState::Inverter(s)),
            Err(e) => Err(e),
        }
    } else if record_type == RECORD_TYPE_VE_BUS {
        match ve_bus_of(payload) {
            Ok(s) => Ok(DeviceState::VeBus(s)),
            Err(e) => Err(e),
        }
    } else if record_type == RECORD_TYPE_AC_CHARGER {
        match ac_charger_of(payload) {
            Ok(s) => Ok(DeviceState::AcCharger(s)),
            Err(e) => Err(e),
        }
    } else {
        Err(Error::UnsupportedDeviceType(record_type))
    }
}

impl DeviceState {
    /// Selects the parser by the record type, then decrypts the payload and
    /// parses it; a record of an unknown type is not decrypted.
    pub fn parse(record: &Record) -> (r: Result<Self, Error>)
        requires
            record.wf(),
        ensures
            r == device_state_of(record.bytes()[4], decrypted_payload(record.bytes(), record.key())),
    {
        let record_type = record.record_type();
        if record_type == RECORD_TYPE_TEST_RECORD {
            let payload = record.decrypt()?;
            Ok(DeviceState::TestRecord(TestRecordState::parse(&payload)?))
        } else if record_type == RECORD_TYPE_SOLAR_CHARGER {
            let payload = record.decrypt()?;
            Ok(DeviceState::SolarCharger(SolarChargerState::parse(&payload)?))
        } else if record_type == RECORD_TYPE_BATTERY_MONITOR {
            let payload = record.decrypt()?;
            Ok(DeviceState::BatteryMonitor(BatteryMonitorState::parse(&payload)?))
        } else if record_type == RECORD_TYPE_INVERTER {
            let payload = record.decrypt()?;
            Ok(DeviceState::Inverter(InverterState::parse(&payload)?))
        } else if record_type == RECORD_TYPE_VE_BUS {
            let payload = record.decrypt()?;
            Ok(DeviceState::VeBus(VeBusState::parse(&payload)?))
        } else if record_type == RECORD_TYPE_AC_CHARGER {
            let payload = record.decrypt()?;
            Ok(DeviceState::AcCharger(AcChargerState::parse(&payload)?))
        } else {
            Err(Error::UnsupportedDeviceType(record_type))
        }
    }
}

} // verus!
