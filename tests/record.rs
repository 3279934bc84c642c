use aes::cipher::{KeyIvInit, StreamCipher};
use victron_ble::record::{Record, MANUFACTURER_DATA_RECORD_TYPE, RECORD_TYPE_TEST_RECORD};
use victron_ble::Error;

type EncryptionAlgorithm = ctr::Ctr128LE<aes::Aes128>;

#[test]
fn test_decrypt() {
    let plaintext = [1, 2, 3, 4, 5, 6, 7, 8, 9, 10, 11, 12, 13, 14, 15, 16];
    let key = [
        17, 18, 19, 20, 21, 22, 23, 24, 25, 26, 27, 28, 29, 30, 31, 32,
    ];
    let iv = [33, 34, 0, 0, 0, 0, 0, 0, 0, 0, 0, 0, 0, 0, 0, 0];
    let mut algo = EncryptionAlgorithm::new(key.as_slice().into(), &iv.into());
    let mut cipher = [0; 16];
    algo.apply_keystream_b2b(&plaintext, &mut cipher).unwrap();

    let manufacturer_data = [
        MANUFACTURER_DATA_RECORD_TYPE,
        0x00,
        0x00,
        0x00,
        RECORD_TYPE_TEST_RECORD,
        iv[0],
        iv[1],
        key[0],
        cipher[0],
        cipher[1],
        cipher[2],
        cipher[3],
        cipher[4],
        cipher[5],
        cipher[6],
        cipher[7],
        cipher[8],
        cipher[9],
        cipher[10],
        cipher[11],
        cipher[12],
        cipher[13],
        cipher[14],
        cipher[15],
    ];
    let record = Record::new(&manufacturer_data, &key).unwrap();
    let decrypted = record.decrypt().unwrap();
    assert_eq!(decrypted, plaintext);
}

#[test]
fn decryption_changes_the_bytes() {
    let key = [7u8; 16];
    let mut data = [0u8; 24];
    data[0] = 0x10;
    data[7] = 7;
    let record = Record::new(&data, &key).unwrap();
    let decrypted = record.decrypt().unwrap();
    assert_ne!(decrypted, [0u8; 16]);
}

#[test]
fn short_ciphertext_is_padded_before_decryption() {
    let key = [9u8; 16];
    let iv = [1u8, 2, 0, 0, 0, 0, 0, 0, 0, 0, 0, 0, 0, 0, 0, 0];
    let data = [0x10u8, 0, 0, 0, 0, 1, 2, 9, 0xAA, 0xBB];

    let mut padded = [14u8; 16];
    padded[0] = 0xAA;
    padded[1] = 0xBB;
    let mut expected = [0u8; 16];
    let mut algo = EncryptionAlgorithm::new(key.as_slice().into(), &iv.into());
    algo.apply_keystream_b2b(&padded, &mut expected).unwrap();

    let record = Record::new(&data, &key).unwrap();
    assert_eq!(record.record_type(), 0);
    assert_eq!(record.decrypt().unwrap(), expected);
}

#[test]
fn envelope_checks_come_in_order() {
    let key = [5u8; 16];
    let too_big = [0u8; 25];
    assert!(matches!(Record::new(&too_big, &key), Err(Error::RecordTooBig)));
    let empty: [u8; 0] = [];
    assert!(matches!(Record::new(&empty, &key), Err(Error::WrongAdvertisement)));
    let other = [0x11u8, 0, 0, 0, 0, 0, 0, 5];
    assert!(matches!(Record::new(&other, &key), Err(Error::WrongAdvertisement)));
    let header = [0x10u8, 0, 0, 0, 0, 0, 0, 5];
    assert!(matches!(Record::new(&header, &key[..15]), Err(Error::InvalidDeviceEncryptionKey)));
    let truncated = [0x10u8, 0, 0, 0, 0, 0, 0];
    assert!(matches!(Record::new(&truncated, &key), Err(Error::DataTooShort)));
    let wrong_key = [0x10u8, 0, 0, 0, 0, 0, 0, 6];
    assert!(matches!(Record::new(&wrong_key, &key), Err(Error::IncorrectDeviceEncryptionKey)));
    assert!(Record::new(&header, &key).is_ok());
}
