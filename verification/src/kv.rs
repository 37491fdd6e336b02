//! Keeping the settings of a network in a key-value store: the store's
//! interface, and the compact encoding of a record.

use crate::text::{password_bytes, ssid_bytes};
use crate::wifi::{MyceliumWifiSettings, MyceliumWifiSettingsView};
use vstd::prelude::*;

verus! {

/// `rmp_serde::encode::Error`: why a value could not be written.
#[verifier::external_type_specification]
#[verifier::external_body]
pub struct ExEncodeError(rmp_serde::encode::Error);

/// `rmp_serde::decode::Error`: why bytes could not be read as a value.
#[verifier::external_type_specification]
#[verifier::external_body]
pub struct ExDecodeError(rmp_serde::decode::Error);

/// Why the store could not serve a request.
#[derive(Debug)]
pub enum KvStoreError {
    /// The storage backend reported an error; the code is kept for diagnostics.
    Esp(i32),
    /// The record could not be encoded.
    Encode(rmp_serde::encode::Error),
    /// The stored bytes are not a record.
    Decode(rmp_serde::decode::Error),
}

/// A store of network settings under string keys.
pub trait KvStore {
    /// The settings kept under `key`, if any are.
    fn get(&self, key: &str) -> Result<Option<MyceliumWifiSettings>, KvStoreError>;

    /// Keeps `value` under `key`, in place of what was kept there.
    fn set(&mut self, key: &str, value: MyceliumWifiSettings) -> Result<(), KvStoreError>;

    /// Whether anything is kept under `key`.
    fn contains(&self, key: &str) -> Result<bool, KvStoreError>;
}

/// The key under which the settings of the provisioned network are kept.
pub const WIFI_SETTINGS_KEY: &'static str = "wifi_settings";

/// A read buffer of this many bytes holds any record.
pub const RECORD_BUFFER_LEN: usize = 255;

/// The MessagePack bytes that `rmp_serde::to_vec` writes for the three values
/// of a record, the strings given by the bytes they hold.
pub uninterp spec fn packed_record(ssid: Seq<u8>, password: Seq<u8>, channel: Option<u8>) -> Seq<
    u8,
>;

/// The three values that `rmp_serde::from_slice` reads from MessagePack
/// bytes, the strings given by the bytes they hold; `None` where it reads no
/// record.
pub uninterp spec fn unpacked_record(bytes: Seq<u8>) -> Option<(Seq<u8>, Seq<u8>, Option<u8>)>;

/// `rmp_serde::to_vec` on the name, the passphrase and the channel, in this
/// order, as one array. The bytes it gives depend on the three values alone,
/// and what it wrote `rmp_serde::from_slice` reads back as the same three
/// values. Nothing is claimed of when it fails.
#[verifier::external_body]
fn pack_record(
    ssid: &heapless::String<32>,
    password: &heapless::String<64>,
    channel: Option<u8>,
) -> (r: Result<Vec<u8>, rmp_serde::encode::Error>)
    ensures
        r matches Ok(bytes) ==> bytes@ == packed_record(
            ssid_bytes(*ssid),
            password_bytes(*password),
            channel,
        ),
        r matches Ok(bytes) ==> unpacked_record(bytes@) == Some(
            (ssid_bytes(*ssid), password_bytes(*password), channel),
        ),
{
    rmp_serde::to_vec(&(ssid, password, channel))
}

/// `rmp_serde::from_slice` for an array of a name, a passphrase and a
/// channel. What it reads, and whether it reads anything, depends on the
/// bytes alone. A string that does not fit the capacity of its
/// `heapless::String` is an error, so what is read fits.
#[verifier::external_body]
fn unpack_record(bytes: &[u8]) -> (r: Result<
    (heapless::String<32>, heapless::String<64>, Option<u8>),
    rmp_serde::decode::Error,
>)
    ensures
        r matches Ok(record) ==> unpacked_record(bytes@) == Some(
            (ssid_bytes(record.0), password_bytes(record.1), record.2),
        ),
        r matches Ok(record) ==> ssid_bytes(record.0).len() <= 32 && password_bytes(
            record.1,
        ).len() <= 64,
        r is Err ==> unpacked_record(bytes@) is None,
{
    rmp_serde::from_slice(bytes)
}

/// The bytes that stand for a record in the store.
pub open spec fn settings_encoding(settings: MyceliumWifiSettingsView) -> Seq<u8> {
    packed_record(settings.ssid, settings.password, settings.channel)
}

/// The record that stored bytes stand for, if they stand for one.
pub open spec fn stored_settings(bytes: Seq<u8>) -> Option<MyceliumWifiSettingsView> {
    match unpacked_record(bytes) {
        Some((ssid, password, channel)) => Some(
            MyceliumWifiSettingsView { ssid, password, channel },
        ),
        None => None,
    }
}

/// Encodes a record for the store. The bytes it gives decode to the same
/// record.
pub fn encode_settings(value: &MyceliumWifiSettings) -> (r: Result<Vec<u8>, KvStoreError>)
    ensures
        match r {
            Ok(bytes) => bytes@ == settings_encoding(value@) && stored_settings(bytes@) == Some(
                value@,
            ),
            Err(error) => error is Encode,
        },
{
    match pack_record(&value.ssid, &value.password, value.channel) {
        Ok(bytes) => Ok(bytes),
        Err(error) => Err(KvStoreError::Encode(error)),
    }
}

/// Decodes the bytes of a stored record. Bytes that hold a longer name or
/// passphrase than a record may hold are not a record.
pub fn decode_settings(bytes: &[u8]) -> (r: Result<MyceliumWifiSettings, KvStoreError>)
    ensures
        match r {
            Ok(settings) => stored_settings(bytes@) == Some(settings@)
                && settings@.within_limits(),
            Err(error) => error is Decode && stored_settings(bytes@) is None,
        },
{
    match unpack_record(bytes) {
        Ok((ssid, password, channel)) => Ok(MyceliumWifiSettings { ssid, password, channel }),
        Err(error) => Err(KvStoreError::Decode(error)),
    }
}

/// What a lookup gives for what the backend read: nothing where the key is
/// absent, the record where the bytes decode, an error where they do not.
pub fn decode_entry(raw: Option<&[u8]>) -> (r: Result<Option<MyceliumWifiSettings>, KvStoreError>)
    ensures
        match r {
            Ok(None) => raw is None,
            Ok(Some(settings)) => raw matches Some(bytes) && stored_settings(bytes@) == Some(
                settings@,
            ) && settings@.within_limits(),
            Err(error) => raw matches Some(bytes) && stored_settings(bytes@) is None
                && error is Decode,
        },
{
    match raw {
        Some(bytes) => {
            match decode_settings(bytes) {
                Ok(settings) => Ok(Some(settings)),
                Err(error) => Err(error),
            }
        },
        None => Ok(None),
    }
}

} // verus!
