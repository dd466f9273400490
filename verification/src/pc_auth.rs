//! Trusted devices of the PC server (`aetherlink-pc`), which knows two access
//! modes, and its server keys (the shared `CryptoKeyPair`).

use vstd::prelude::*;
use crate::outside::is_uuid_v4_text;
use crate::crypto::{generate_pairing_token, is_pairing_token, CryptoKeyPair};
use crate::b64::b64_encode;
use crate::registry;

verus! {

/// Access level of a device on the PC server.
#[derive(Clone, Copy, Debug, PartialEq, Eq, Structural)]
pub enum DeviceMode {
    /// Safe commands and profiles (the mode a new device gets).
    Default,
    /// Also shell commands and profile editing.
    Developer,
}

/// A trusted phone of the PC server.
pub type TrustedDevice = registry::TrustedDevice<DeviceMode>;

/// The PC server's trusted phones.
pub type DeviceRegistry = registry::DeviceRegistry<DeviceMode>;

/// The PC server's permanent key pair.
pub type ServerKeys = CryptoKeyPair;

impl registry::DeviceRegistry<DeviceMode> {
    /// Trust a new phone after a successful pairing, in Default mode.
    pub fn add(&mut self, name: String, pubkey: &[u8]) -> (d: TrustedDevice)
        requires
            pubkey@.len() <= usize::MAX / 2,
        ensures
            d.name == name,
            d.public_key_b64@ == b64_encode(pubkey@),
            d.mode == DeviceMode::Default,
            is_uuid_v4_text(d.id@),
            final(self).devices@ == old(self).devices@.push(d),
    {
        self.add_with_mode(name, pubkey, DeviceMode::Default)
    }
}

/// The name a mode goes by in responses.
pub open spec fn mode_name(mode: DeviceMode) -> Seq<char> {
    match mode {
        DeviceMode::Default => "default"@,
        DeviceMode::Developer => "developer"@,
    }
}

/// The name a mode goes by in responses (`"default"` or `"developer"`).
pub fn mode_text(mode: DeviceMode) -> (s: String)
    ensures
        s@ == mode_name(mode),
{
    match mode {
        DeviceMode::Default => String::from_str("default"),
        DeviceMode::Developer => String::from_str("developer"),
    }
}

/// A random one-time token for the QR code (the shared generator).
pub fn new_pairing_token() -> (token: String)
    ensures
        is_pairing_token(token@),
{
    generate_pairing_token()
}

} // verus!
