use vstd::prelude::*;
use crate::err::Error;
use crate::model::DeviceState;
use crate::{decode, parse_manufacturer_data};

verus! {

/// The company identifier under which devices publish their status records.
pub const VICTRON_MANUFACTURER_ID: u16 = 737;

/// What a listener does with one advertisement of the device it follows.
#[derive(Debug, Clone, Copy, PartialEq, Eq, Structural)]
pub enum ListenerStep {
    /// The advertisement is some other broadcast: wait for the next one.
    KeepListening,
    /// Hand the state to the consumer and keep listening, unless the consumer
    /// has gone away.
    Deliver(DeviceState),
    /// Hand the error to the consumer and stop listening.
    ReportAndStop(Error),
}

/// The step that a decoding outcome calls for: a wrong advertisement is
/// passed over, every other error ends the session, a state is delivered.
pub open spec fn step_for(outcome: Result<DeviceState, Error>) -> ListenerStep {
    match outcome {
        Ok(state) => ListenerStep::Deliver(state),
        Err(Error::WrongAdvertisement) => ListenerStep::KeepListening,
        Err(e) => ListenerStep::ReportAndStop(e),
    }
}

/// Decodes one piece of manufacturer data and decides what the listener
/// does next.
pub fn handle_manufacturer_data(manufacturer_data: &[u8], device_encryption_key: &[u8]) -> (r: ListenerStep)
    ensures
        r == step_for(decode(manufacturer_data@, device_encryption_key@)),
{
    match parse_manufacturer_data(manufacturer_data, device_encryption_key) {
        Ok(state) => ListenerStep::Deliver(state),
        Err(Error::WrongAdvertisement) => ListenerStep::KeepListening,
        Err(e) => ListenerStep::ReportAndStop(e),
    }
}

} // verus!
