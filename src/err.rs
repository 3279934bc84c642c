use vstd::prelude::*;

verus! {

/// Every way in which decoding an advertisement, or listening for one, can fail.
#[derive(Debug, Clone, Copy, PartialEq, Eq, Structural)]
pub enum Error {
    /// No Bluetooth adapter is present.
    BluetoothAdapterNotFound,
    /// The named device was not seen.
    BluetoothDeviceNotFound,
    /// The Bluetooth event stream ended.
    BluetoothEventStreamClosed,
    /// The record is longer than the 24 bytes the protocol allows.
    RecordTooBig,
    /// The manufacturer data is some other broadcast than a device status record;
    /// a listener should ignore it and keep listening.
    WrongAdvertisement,
    /// The stream cipher refused to process the payload.
    DecryptionFailed,
    /// The key-check byte of the record differs from the first byte of the key.
    IncorrectDeviceEncryptionKey,
    /// The key is not 16 bytes long.
    InvalidDeviceEncryptionKey,
    /// The record type byte names no known device.
    UnsupportedDeviceType(u8),
    /// The consumer of decoded states has gone away.
    ClientClosedChannel,
    /// The code is not that of a known operating mode.
    InvalidMode(u64),
    /// The code is not that of a known error state.
    InvalidErrorState(u64),
    /// The alarm field has a bit set that names no alarm.
    InvalidAlarmReason,
    /// The auxiliary input selector is out of range.
    InvalidAuxInputType(u64),
    /// The data ended in the middle of a field.
    DataTooShort,
    /// The AC input code names no input state.
    InvalidAcInState,
    /// The alarm code names no alarm level.
    InvalidAlarmNotification,
}

} // verus!
