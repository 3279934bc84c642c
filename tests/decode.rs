use aes::cipher::{KeyIvInit, StreamCipher};
use victron_ble::listener::{handle_manufacturer_data, ListenerStep};
use victron_ble::{
    parse_manufacturer_data, AlarmFlag, AlarmReason, AuxInput, BatteryMonitorState, DeviceState,
    Error, ErrorState, InverterState, Mode, SolarChargerState, TestRecordState,
};

type EncryptionAlgorithm = ctr::Ctr128LE<aes::Aes128>;

const KEY: [u8; 16] = [
    0xA1, 0x02, 0x03, 0x04, 0x05, 0x06, 0x07, 0x08, 0x09, 0x0A, 0x0B, 0x0C, 0x0D, 0x0E, 0x0F, 0x10,
];

/// Packs fields of the given widths, least significant bit first.
fn pack(fields: &[(u64, usize)]) -> [u8; 16] {
    let mut out = [0u8; 16];
    let mut pos = 0usize;
    for &(value, width) in fields {
        for i in 0..width {
            if (value >> i) & 1 == 1 {
                out[pos / 8] |= 1 << (pos % 8);
            }
            pos += 1;
        }
    }
    out
}

/// A full record of the given type whose payload decrypts to `plaintext`.
fn seal(record_type: u8, plaintext: &[u8; 16]) -> Vec<u8> {
    let iv = [0x34u8, 0x12, 0, 0, 0, 0, 0, 0, 0, 0, 0, 0, 0, 0, 0, 0];
    let mut algo = EncryptionAlgorithm::new(KEY.as_slice().into(), &iv.into());
    let mut cipher = [0u8; 16];
    algo.apply_keystream_b2b(plaintext, &mut cipher).unwrap();
    let mut data = vec![0x10, 0x00, 0xA0, 0x56, record_type, iv[0], iv[1], KEY[0]];
    data.extend_from_slice(&cipher);
    data
}

#[test]
fn wrong_first_byte_is_wrong_advertisement() {
    for first in [0x00u8, 0x0F, 0x11, 0xFF] {
        let mut data = seal(0x00, &[0u8; 16]);
        data[0] = first;
        assert_eq!(parse_manufacturer_data(&data, &KEY), Err(Error::WrongAdvertisement));
        assert_eq!(parse_manufacturer_data(&data[..3], &KEY), Err(Error::WrongAdvertisement));
        assert_eq!(parse_manufacturer_data(&data, &KEY[..4]), Err(Error::WrongAdvertisement));
    }
}

#[test]
fn oversized_buffer_is_too_big() {
    let mut data = seal(0x00, &[0u8; 16]);
    data.push(0);
    assert_eq!(parse_manufacturer_data(&data, &KEY), Err(Error::RecordTooBig));
    data[0] = 0x42;
    assert_eq!(parse_manufacturer_data(&data, &KEY), Err(Error::RecordTooBig));
    let big = [0x10u8; 40];
    assert_eq!(parse_manufacturer_data(&big, &KEY), Err(Error::RecordTooBig));
}

#[test]
fn key_check_byte_mismatch_is_incorrect_key() {
    let mut data = seal(0x01, &[0u8; 16]);
    data[7] = KEY[0] ^ 1;
    assert_eq!(parse_manufacturer_data(&data, &KEY), Err(Error::IncorrectDeviceEncryptionKey));
    let mut other_key = KEY;
    other_key[0] = 0x00;
    let data = seal(0x01, &[0u8; 16]);
    assert_eq!(parse_manufacturer_data(&data, &other_key), Err(Error::IncorrectDeviceEncryptionKey));
}

#[test]
fn key_of_wrong_length_is_invalid() {
    let data = seal(0x00, &[0u8; 16]);
    assert_eq!(parse_manufacturer_data(&data, &KEY[..8]), Err(Error::InvalidDeviceEncryptionKey));
}

#[test]
fn truncated_header_is_too_short() {
    let data = seal(0x00, &[0u8; 16]);
    assert_eq!(parse_manufacturer_data(&data[..6], &KEY), Err(Error::DataTooShort));
}

#[test]
fn encrypted_plaintext_comes_back_byte_for_byte() {
    let plaintext = pack(&[(123_456, 30), (65, 7)]);
    let data = seal(0x00, &plaintext);
    let record = victron_ble::Record::new(&data, &KEY).unwrap();
    assert_eq!(record.decrypt().unwrap(), plaintext);
    let state = parse_manufacturer_data(&data, &KEY).unwrap();
    assert_eq!(
        state,
        DeviceState::TestRecord(TestRecordState { uptime_s: Some(123_456), temperature_c: Some(25) })
    );
}

#[test]
fn test_record_zero_uptime_and_zero_degrees() {
    let payload = pack(&[(0, 30), (40, 7)]);
    let state = TestRecordState::parse(&payload).unwrap();
    assert_eq!(state.uptime_s, Some(0));
    assert_eq!(state.temperature_c, Some(0));
    let decoded = parse_manufacturer_data(&seal(0x00, &payload), &KEY).unwrap();
    assert_eq!(decoded, DeviceState::TestRecord(state));
}

#[test]
fn test_record_sentinels_are_absent() {
    let payload = pack(&[(0x3FFF_FFFF, 30), (0x7F, 7)]);
    let state = TestRecordState::parse(&payload).unwrap();
    assert_eq!(state.uptime_s, None);
    assert_eq!(state.temperature_c, None);
}

#[test]
fn unknown_record_type_is_unsupported() {
    let data = seal(0xEE, &[0u8; 16]);
    assert_eq!(parse_manufacturer_data(&data, &KEY), Err(Error::UnsupportedDeviceType(0xEE)));
    let data = seal(0x04, &[0u8; 16]);
    assert_eq!(parse_manufacturer_data(&data, &KEY), Err(Error::UnsupportedDeviceType(0x04)));
}

#[test]
fn decode_gives_the_same_outcome_every_time() {
    let data = seal(0x01, &pack(&[(3, 8), (0, 8), (1234, 16), (15, 16)]));
    let first = parse_manufacturer_data(&data, &KEY);
    let other = seal(0xEE, &[0u8; 16]);
    let _ = parse_manufacturer_data(&other, &KEY);
    let second = parse_manufacturer_data(&data, &KEY);
    assert_eq!(first, second);
    assert!(first.is_ok());
}

#[test]
fn solar_charger_readings() {
    let payload = pack(&[
        (3, 8),
        (0, 8),
        (1325, 16),
        ((-15i64 as u64) & 0xFFFF, 16),
        (0xFFFF, 16),
        (250, 16),
        (0x1FF, 9),
    ]);
    let expected = SolarChargerState {
        mode: Mode::Bulk,
        error_state: ErrorState::NoError,
        battery_voltage_10mv: Some(1325),
        battery_current_100ma: Some(-15),
        yield_today_10wh: None,
        pv_power_w: Some(250),
        load_current_100ma: None,
    };
    assert_eq!(SolarChargerState::parse(&payload), Ok(expected));
    let decoded = parse_manufacturer_data(&seal(0x01, &payload), &KEY);
    assert_eq!(decoded, Ok(DeviceState::SolarCharger(expected)));
}

#[test]
fn solar_charger_error_state_not_applicable() {
    let payload = pack(&[(0, 8), (0xFF, 8), (0x7FFF, 16)]);
    let state = SolarChargerState::parse(&payload).unwrap();
    assert_eq!(state.error_state, ErrorState::NotApplicable);
    assert_eq!(state.battery_voltage_10mv, None);
}

#[test]
fn battery_monitor_aux_selector_decides_the_value() {
    let base = |selector: u64, aux: u64| {
        pack(&[
            (600, 16),
            (1280, 16),
            (0, 16),
            (aux, 16),
            (selector, 2),
            ((-2500i64 as u64) & 0x3F_FFFF, 22),
            (125, 20),
            (987, 10),
        ])
    };
    let state = BatteryMonitorState::parse(&base(0, 0xFFFE)).unwrap();
    assert_eq!(state.aux_input, AuxInput::Voltage10mV(-2));
    let state = BatteryMonitorState::parse(&base(1, 0xFFFE)).unwrap();
    assert_eq!(state.aux_input, AuxInput::MidVoltage10mV(0xFFFE));
    let state = BatteryMonitorState::parse(&base(2, 29315)).unwrap();
    assert_eq!(state.aux_input, AuxInput::Temperature10mK(29315));
    let state = BatteryMonitorState::parse(&base(3, 29315)).unwrap();
    assert_eq!(state.aux_input, AuxInput::NoInput);
    assert_eq!(state.time_to_go_mins, Some(600));
    assert_eq!(state.battery_voltage_10mv, Some(1280));
    assert!(state.alarm_reason.is_empty());
    assert_eq!(state.battery_current_ma, Some(-2500));
    assert_eq!(state.consumed_amp_hours_100mah, Some(-125));
    assert_eq!(state.state_of_charge_tenth_pct, Some(987));
}

#[test]
fn battery_monitor_unknown_alarm_bit_is_refused() {
    let payload = pack(&[(0, 16), (0, 16), (0x4000, 16)]);
    assert_eq!(BatteryMonitorState::parse(&payload), Err(Error::InvalidAlarmReason));
    let negative = pack(&[(0, 16), (0, 16), (0x8001, 16)]);
    assert_eq!(BatteryMonitorState::parse(&negative), Err(Error::InvalidAlarmReason));
}

#[test]
fn battery_monitor_short_payload_is_refused() {
    let payload = [0u8; 10];
    assert_eq!(BatteryMonitorState::parse(&payload), Err(Error::DataTooShort));
}

#[test]
fn inverter_readings() {
    let payload = pack(&[(9, 8), (0x0101, 16), (2510, 16), (450, 16), (23012, 15), (19, 11)]);
    let state = InverterState::parse(&payload).unwrap();
    assert_eq!(state.mode, Mode::Inverting);
    assert!(state.alarm_reason.contains(AlarmFlag::LowVoltage));
    assert!(state.alarm_reason.contains(AlarmFlag::Overload));
    assert!(!state.alarm_reason.contains(AlarmFlag::HighVoltage));
    assert_eq!(state.alarm_reason.bits(), 0x0101);
    assert_eq!(state.battery_voltage_10mv, 2510);
    assert_eq!(state.ac_apparent_power_va, 450);
    assert_eq!(state.ac_voltage_10mv, 23012);
    assert_eq!(state.ac_current_100ma, 19);
}

#[test]
fn mode_and_error_codes_round_trip() {
    assert_eq!(Mode::from_code(252), Some(Mode::ExternalControl));
    assert_eq!(Mode::from_code(8), None);
    assert_eq!(Mode::Storage.code(), 6);
    assert_eq!(ErrorState::from_code(119), Some(ErrorState::UserSettingsInvalid));
    assert_eq!(ErrorState::from_code(1), None);
    assert_eq!(ErrorState::NotApplicable.code(), 0xFF);
}

#[test]
fn alarm_reason_from_bits_is_strict() {
    assert_eq!(AlarmReason::from_bits(0x3FFF).map(|a| a.bits()), Some(0x3FFF));
    assert_eq!(AlarmReason::from_bits(0x4000), None);
    assert_eq!(AlarmReason::from_bits(-1), None);
    assert!(AlarmReason::empty().is_empty());
}

#[test]
fn listener_passes_over_other_broadcasts() {
    let mut data = seal(0x00, &[0u8; 16]);
    data[0] = 0x00;
    assert_eq!(handle_manufacturer_data(&data, &KEY), ListenerStep::KeepListening);
}

#[test]
fn listener_stops_on_other_errors() {
    let data = seal(0xEE, &[0u8; 16]);
    assert_eq!(
        handle_manufacturer_data(&data, &KEY),
        ListenerStep::ReportAndStop(Error::UnsupportedDeviceType(0xEE))
    );
}

#[test]
fn listener_delivers_states() {
    let payload = pack(&[(0, 30), (40, 7)]);
    let data = seal(0x00, &payload);
    assert_eq!(
        handle_manufacturer_data(&data, &KEY),
        ListenerStep::Deliver(DeviceState::TestRecord(TestRecordState {
            uptime_s: Some(0),
            temperature_c: Some(0)
        }))
    );
}
