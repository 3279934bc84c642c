use vstd::prelude::*;
use aes::cipher::{KeyIvInit, StreamCipher, StreamCipherError};
use crate::err::Error;

verus! {

pub const RECORD_TYPE_TEST_RECORD: u8 = 0x00;

pub const RECORD_TYPE_SOLAR_CHARGER: u8 = 0x01;

pub const RECORD_TYPE_BATTERY_MONITOR: u8 = 0x02;

pub const RECORD_TYPE_INVERTER: u8 = 0x03;

pub const RECORD_TYPE_AC_CHARGER: u8 = 0x08;

pub const RECORD_TYPE_VE_BUS: u8 = 0x0C;

/// The first byte of every device status record.
pub const MANUFACTURER_DATA_RECORD_TYPE: u8 = 0x10;

/// The longest record the protocol allows.
pub const MAX_RECORD_LEN: usize = 24;

/// The length of a device encryption key, of the counter block and of the payload.
pub const BLOCK_LEN: usize = 16;

/// The offset of the encrypted payload in a record.
pub const PAYLOAD_OFFSET: usize = 8;

#[verifier::external_type_specification]
#[verifier::external_body]
pub struct ExStreamCipherError(StreamCipherError);

/// The keystream that AES-128 in counter mode, with a 128-bit little-endian
/// counter, produces from `key` and the initial counter block `iv`.
pub uninterp spec fn aes128_ctr_keystream(key: Seq<u8>, iv: Seq<u8>) -> Seq<u8>;

/// `data` with each byte XORed with the byte of `keystream` at the same index.
pub open spec fn xor_bytes(data: Seq<u8>, keystream: Seq<u8>) -> Seq<u8> {
    Seq::new(data.len(), |i: int| data[i] ^ keystream[i])
}

/// Relies on `ctr::Ctr128LE::<aes::Aes128>::new` and
/// `StreamCipher::apply_keystream_b2b`: the output is the input XORed with a
/// keystream that depends on the key and the counter block alone. A fresh
/// cipher of this counter flavour reports no keystream limit
/// (`remaining_blocks` is `None`), so with input and output of equal length
/// the call returns `Ok`. `key.into()` panics unless the key has 16 bytes.
#[verifier::external_body]
fn aes128_ctr_apply(key: &[u8], iv: &[u8; 16], input: &[u8; 16]) -> (r: Result<[u8; 16], StreamCipherError>)
    requires
        key@.len() == 16,
    ensures
        r is Ok,
        r->Ok_0@ == xor_bytes(input@, aes128_ctr_keystream(key@, iv@)),
{
    let mut algo = ctr::Ctr128LE::<aes::Aes128>::new(key.into(), &(*iv).into());
    let mut out = [0u8; 16];
    algo.apply_keystream_b2b(input, &mut out).map(|_| out)
}

/// Why a buffer and a key do not form a device status record, checked in
/// this order; `Ok` where they do.
pub open spec fn envelope_check(data: Seq<u8>, key: Seq<u8>) -> Result<(), Error> {
    if data.len() > 24 {
        Err(Error::RecordTooBig)
    } else if data.len() == 0 || data[0] != 0x10 {
        Err(Error::WrongAdvertisement)
    } else if key.len() != 16 {
        Err(Error::InvalidDeviceEncryptionKey)
    } else if data.len() < 8 {
        Err(Error::DataTooShort)
    } else if data[7] != key[0] {
        Err(Error::IncorrectDeviceEncryptionKey)
    } else {
        Ok(())
    }
}

/// The initial counter block: bytes 5 and 6 of the record, then fourteen zeros.
pub open spec fn iv_of(data: Seq<u8>) -> Seq<u8> {
    Seq::new(
        16,
        |i: int|
            if i == 0 {
                data[5]
            } else if i == 1 {
                data[6]
            } else {
                0u8
            },
    )
}

/// The bytes of the record from the payload offset on.
pub open spec fn ciphertext_of(data: Seq<u8>) -> Seq<u8> {
    data.subrange(8, data.len() as int)
}

/// The ciphertext padded to a full block, each padding byte holding the
/// number of padding bytes.
pub open spec fn padded_ciphertext(data: Seq<u8>) -> Seq<u8> {
    let c = ciphertext_of(data);
    Seq::new(16, |i: int| if i < c.len() { c[i] } else { (16 - c.len()) as u8 })
}

/// The decrypted payload block of a valid record.
pub open spec fn decrypted_payload(data: Seq<u8>, key: Seq<u8>) -> Seq<u8> {
    xor_bytes(padded_ciphertext(data), aes128_ctr_keystream(key, iv_of(data)))
}

/// The manufacturer data of a device status record, with the key to decrypt
/// its payload.
///
/// Bytes | Meaning
/// 0     | 0x10: a device status record
/// 1     | unused
/// 2-3   | device model id
/// 4     | record type
/// 5-6   | counter block seed, little endian
/// 7     | first byte of the encryption key, to check the key with
/// 8..   | payload, encrypted with AES-128 in counter mode
pub struct Record<'d, 'k> {
    data: &'d [u8],
    encryption_key: &'k [u8],
}

impl<'d, 'k> Record<'d, 'k> {
    /// The bytes of the record.
    pub closed spec fn bytes(&self) -> Seq<u8> {
        self.data@
    }

    /// The device encryption key.
    pub closed spec fn key(&self) -> Seq<u8> {
        self.encryption_key@
    }

    /// The record passed every check of the envelope.
    pub open spec fn wf(&self) -> bool {
        envelope_check(self.bytes(), self.key()) is Ok
    }

    /// Checks the envelope: its size, its first byte, the key's length, the
    /// header's length and the key-check byte, in this order.
    pub fn new(data: &'d [u8], encryption_key: &'k [u8]) -> (r: Result<Self, Error>)
        ensures
            match r {
                Ok(record) => {
                    &&& envelope_check(data@, encryption_key@) is Ok
                    &&& record.bytes() == data@
                    &&& record.key() == encryption_key@
                },
                Err(e) => envelope_check(data@, encryption_key@) == Err::<(), Error>(e),
            },
    {
        let record = Self { data, encryption_key };
        if record.is_data_too_big() {
            return Err(Error::RecordTooBig);
        }
        if !record.is_victron_extra_manufacturer_data() {
            return Err(Error::WrongAdvertisement);
        }
        if record.encryption_key.len() != BLOCK_LEN {
            return Err(Error::InvalidDeviceEncryptionKey);
        }
        if record.data.len() < PAYLOAD_OFFSET {
            return Err(Error::DataTooShort);
        }
        if !record.is_correct_encryption_key() {
            return Err(Error::IncorrectDeviceEncryptionKey);
        }
        Ok(record)
    }

    /// Decrypts the payload, padded to a full block.
    pub fn decrypt(&self) -> (r: Result<[u8; 16], Error>)
        requires
            self.wf(),
        ensures
            r matches Ok(payload) && payload@ == decrypted_payload(self.bytes(), self.key()),
    {
        let iv = self.iv();
        let cipher = self.cipher();
        match aes128_ctr_apply(self.encryption_key, &iv, &cipher) {
            Ok(payload) => Ok(payload),
            Err(_) => Err(Error::DecryptionFailed),
        }
    }

    pub fn record_type(&self) -> (r: u8)
        requires
            self.wf(),
        ensures
            r == self.bytes()[4],
    {
        self.data[4]
    }

    fn is_data_too_big(&self) -> (r: bool)
        ensures
            r == (self.bytes().len() > 24),
    {
        self.data.len() > MAX_RECORD_LEN
    }

    fn is_victron_extra_manufacturer_data(&self) -> (r: bool)
        ensures
            r == (self.bytes().len() > 0 && self.bytes()[0] == MANUFACTURER_DATA_RECORD_TYPE),
    {
        self.data.len() > 0 && self.data[0] == MANUFACTURER_DATA_RECORD_TYPE
    }

    fn iv(&self) -> (r: [u8; 16])
        requires
            self.wf(),
        ensures
            r@ == iv_of(self.bytes()),
    {
        let r = [self.data[5], self.data[6], 0, 0, 0, 0, 0, 0, 0, 0, 0, 0, 0, 0, 0, 0];
        assert(r@ =~= iv_of(self.bytes()));
        r
    }

    fn is_correct_encryption_key(&self) -> (r: bool)
        requires
            self.bytes().len() >= 8,
            self.key().len() >= 1,
        ensures
            r == (self.bytes()[7] == self.key()[0]),
    {
        self.data[7] == self.encryption_key[0]
    }

    fn cipher(&self) -> (r: [u8; 16])
        requires
            self.wf(),
        ensures
            r@ == padded_ciphertext(self.bytes()),
    {
        let data_len = self.data.len() - PAYLOAD_OFFSET;
        let pad_value = (BLOCK_LEN - data_len) as u8;
        let mut padded = [pad_value; 16];
        let mut i: usize = 0;
        while i < data_len
            invariant
                self.wf(),
                data_len == self.bytes().len() - 8,
                data_len <= 16,
                i <= data_len,
                forall|j: int| 0 <= j < i ==> padded@[j] == ciphertext_of(self.bytes())[j],
                forall|j: int| data_len <= j < 16 ==> padded@[j] == pad_value,
                pad_value == 16 - data_len,
            decreases data_len - i,
        {
            padded[i] = self.data[PAYLOAD_OFFSET + i];
            i = i + 1;
        }
        assert(padded@ =~= padded_ciphertext(self.bytes()));
        padded
    }
}

} // verus!
