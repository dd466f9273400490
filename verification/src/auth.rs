//! Trusted devices and server keys of the desktop server (`AetherLink`).
//!
//! The PC holds a permanent Noise static key pair. A phone pairs by scanning a
//! QR code with the server's public key and a one-time token, connecting over
//! Noise XX and sending the token; the PC then stores the phone's public key as
//! a trusted device. Later connections are recognised by the phone's key.

use vstd::prelude::*;
use crate::crypto::{decode_key, encodes_key, generate_key_texts, is_key_pair, is_pairing_token, usable_private_key};
use crate::b64::{b64_decode, b64_encode, lemma_b64_len, lemma_b64_roundtrip};
use crate::outside::{base64_decode, base64_encode, random_bytes, is_uuid_v4_text};
use crate::registry;
use crate::text::{concat2, str_eq};

verus! {

/// Access level of a device.
#[derive(Clone, Copy, Debug, PartialEq, Eq, Structural)]
pub enum DeviceMode {
    /// Only ready-made system commands.
    Safe,
    /// Ready-made commands and automation profiles (the mode a new device gets).
    Automation,
    /// Also raw shell commands.
    Developer,
}

/// A trusted phone of the desktop server.
pub type TrustedDevice = registry::TrustedDevice<DeviceMode>;

/// The desktop server's trusted phones.
pub type DeviceRegistry = registry::DeviceRegistry<DeviceMode>;

impl registry::DeviceRegistry<DeviceMode> {
    /// Trust a new phone after a successful pairing, in Automation mode.
    pub fn add(&mut self, name: String, pubkey: &[u8]) -> (d: TrustedDevice)
        requires
            pubkey@.len() <= usize::MAX / 2,
        ensures
            d.name == name,
            d.public_key_b64@ == b64_encode(pubkey@),
            d.mode == DeviceMode::Automation,
            is_uuid_v4_text(d.id@),
            final(self).devices@ == old(self).devices@.push(d),
    {
        self.add_with_mode(name, pubkey, DeviceMode::Automation)
    }
}

/// The server's permanent Noise static key pair, as base64.
pub struct ServerKeys {
    pub private_key_b64: String,
    pub public_key_b64: String,
}

impl ServerKeys {
    /// The decoded private key; the text must be base64.
    pub fn private_key(&self) -> (key: Vec<u8>)
        requires
            b64_decode(self.private_key_b64@) is Some,
        ensures
            b64_decode(self.private_key_b64@) == Some(key@),
    {
        decode_key(self.private_key_b64.as_str())
    }

    /// The decoded public key; the text must be base64.
    pub fn public_key(&self) -> (key: Vec<u8>)
        requires
            b64_decode(self.public_key_b64@) is Some,
        ensures
            b64_decode(self.public_key_b64@) == Some(key@),
    {
        decode_key(self.public_key_b64.as_str())
    }

    /// The decoded private key, or `None` where the text is not base64.
    pub fn try_private_key(&self) -> (key: Option<Vec<u8>>)
        ensures
            match key {
                Some(k) => b64_decode(self.private_key_b64@) == Some(k@),
                None => b64_decode(self.private_key_b64@) is None,
            },
    {
        match base64_decode(self.private_key_b64.as_str()) {
            Some(_) => Some(self.private_key()),
            None => None,
        }
    }

    /// The decoded public key, or `None` where the text is not base64.
    pub fn try_public_key(&self) -> (key: Option<Vec<u8>>)
        ensures
            match key {
                Some(k) => b64_decode(self.public_key_b64@) == Some(k@),
                None => b64_decode(self.public_key_b64@) is None,
            },
    {
        match base64_decode(self.public_key_b64.as_str()) {
            Some(_) => Some(self.public_key()),
            None => None,
        }
    }
}

/// New server keys (what a server makes when none are
/// stored); they are always made.
pub fn generate_server_keys() -> (r: Result<ServerKeys, String>)
    ensures
        r matches Ok(k) && is_key_pair(k.private_key_b64@, k.public_key_b64@)
            && usable_private_key(k.private_key_b64@),
{
    let (private_key_b64, public_key_b64) = generate_key_texts("Неверные Noise параметры")?;
    Ok(ServerKeys { private_key_b64, public_key_b64 })
}

/// A random one-time token for the QR code: 32 random bytes in base64.
pub fn new_pairing_token() -> (token: String)
    ensures
        is_pairing_token(token@),
{
    let bytes = random_bytes(32);
    proof {
        lemma_b64_len(bytes@);
        lemma_b64_roundtrip(bytes@);
    }
    base64_encode(bytes.as_slice())
}

/// The mode a UI name selects: `safe`, `automation` (also called `default`,
/// the mode a new device gets) or `developer`.
pub open spec fn mode_named(name: Seq<char>) -> Option<DeviceMode> {
    if name == "safe"@ {
        Some(DeviceMode::Safe)
    } else if name == "automation"@ || name == "default"@ {
        Some(DeviceMode::Automation)
    } else if name == "developer"@ {
        Some(DeviceMode::Developer)
    } else {
        None
    }
}

/// The mode for a UI name, or `Неизвестный режим: <name>`.
pub fn parse_device_mode(mode: &str) -> (r: Result<DeviceMode, String>)
    ensures
        match mode_named(mode@) {
            Some(m) => r == Ok::<DeviceMode, String>(m),
            None => r matches Err(e) && e@ == "Неизвестный режим: "@ + mode@,
        },
{
    if str_eq(mode, "safe") {
        Ok(DeviceMode::Safe)
    } else if str_eq(mode, "automation") || str_eq(mode, "default") {
        Ok(DeviceMode::Automation)
    } else if str_eq(mode, "developer") {
        Ok(DeviceMode::Developer)
    } else {
        Err(concat2("Неизвестный режим: ", mode))
    }
}

} // verus!
