//! Decoding of the encrypted, bit-packed status records that energy devices
//! broadcast in the manufacturer data of their Bluetooth advertisements.
use vstd::prelude::*;

pub mod bit_reader;
pub mod err;
pub mod listener;
pub mod model;
pub mod record;

pub use crate::bit_reader::BitReader;
pub use crate::err::Error;
pub use crate::model::{
    AcChargerState,
    AcInState,
    AlarmFlag,
    AlarmNotification,
    AlarmReason,
    AuxInput,
    BatteryMonitorState,
    DeviceState,
    ErrorState,
    InverterState,
    Mode,
    SolarChargerState,
    TestRecordState,
    VeBusState,
};
pub use crate::record::Record;

use crate::model::device_state::{device_state_of, is_supported_record_type};
use crate::record::{
    envelope_check,
    decrypted_payload,
    iv_of,
    xor_bytes,
    aes128_ctr_keystream,
};

verus! {

/// What decoding `data` with `key` gives: the first failed envelope check,
/// else the outcome of the parser that the record type selects, run on the
/// decrypted payload.
pub open spec fn decode(data: Seq<u8>, key: Seq<u8>) -> Result<DeviceState, Error> {
    match envelope_check(data, key) {
        Err(e) => Err(e),
        Ok(_) => device_state_of(data[4], decrypted_payload(data, key)),
    }
}

/// Decrypts and parses the manufacturer data that a device published.
pub fn parse_manufacturer_data(manufacturer_data: &[u8], device_encryption_key: &[u8]) -> (r: Result<DeviceState, Error>)
    ensures
        r == decode(manufacturer_data@, device_encryption_key@),
{
    let record = Record::new(manufacturer_data, device_encryption_key)?;
    DeviceState::parse(&record)
}

/// Any buffer of at most 24 bytes whose first byte is not the status record
/// marker is the wrong advertisement, whatever else it holds and whatever
/// the key.
pub proof fn lemma_wrong_marker_is_wrong_advertisement(data: Seq<u8>, key: Seq<u8>)
    requires
        1 <= data.len() <= 24,
        data[0] != 0x10,
    ensures
        decode(data, key) == Err::<DeviceState, Error>(Error::WrongAdvertisement),
{
}

/// Any buffer longer than 24 bytes is too big, whatever it holds and
/// whatever the key.
pub proof fn lemma_oversized_record_is_too_big(data: Seq<u8>, key: Seq<u8>)
    requires
        data.len() > 24,
    ensures
        decode(data, key) == Err::<DeviceState, Error>(Error::RecordTooBig),
{
}

/// A well-framed record whose key-check byte differs from the first byte of
/// the key is refused for the key, whatever its payload.
pub proof fn lemma_key_check_mismatch(data: Seq<u8>, key: Seq<u8>)
    requires
        8 <= data.len() <= 24,
        data[0] == 0x10,
        key.len() == 16,
        data[7] != key[0],
    ensures
        decode(data, key) == Err::<DeviceState, Error>(Error::IncorrectDeviceEncryptionKey),
{
}

/// A valid record whose type byte names no parser gives that byte back as
/// an unsupported device type.
pub proof fn lemma_unknown_record_type(data: Seq<u8>, key: Seq<u8>)
    requires
        envelope_check(data, key) is Ok,
        !is_supported_record_type(data[4]),
    ensures
        decode(data, key) == Err::<DeviceState, Error>(Error::UnsupportedDeviceType(data[4])),
{
}

/// A 16-byte plaintext encrypted with the key and the counter block of a
/// well-formed header, and appended to that header, forms a valid record
/// whose decrypted payload is that plaintext, byte for byte; decoding the
/// record parses that plaintext.
pub proof fn lemma_encrypt_then_decrypt(header: Seq<u8>, key: Seq<u8>, plaintext: Seq<u8>)
    requires
        header.len() == 8,
        header[0] == 0x10,
        key.len() == 16,
        header[7] == key[0],
        plaintext.len() == 16,
    ensures
        ({
            let data = header + xor_bytes(plaintext, aes128_ctr_keystream(key, iv_of(header)));
            &&& envelope_check(data, key) is Ok
            &&& decrypted_payload(data, key) == plaintext
            &&& decode(data, key) == device_state_of(header[4], plaintext)
        }),
{
    let keystream = aes128_ctr_keystream(key, iv_of(header));
    let data = header + xor_bytes(plaintext, keystream);
    assert(iv_of(data) =~= iv_of(header));
    assert forall|a: u8, b: u8| #[trigger] ((a ^ b) ^ b) == a by {
        assert((a ^ b) ^ b == a) by (bit_vector);
    }
    assert(decrypted_payload(data, key) =~= plaintext);
}

/// Decoding depends on the bytes and the key alone: equal inputs give
/// equal outcomes.
pub proof fn lemma_decode_deterministic(data1: Seq<u8>, key1: Seq<u8>, data2: Seq<u8>, key2: Seq<u8>)
    requires
        data1 == data2,
        key1 == key2,
    ensures
        decode(data1, key1) == decode(data2, key2),
{
}

} // verus!
