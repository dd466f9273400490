//! AetherLink: pairing, authorisation and framing logic for remote control of a
//! desktop machine from a phone over a Noise XX channel.

pub mod b64;
pub mod outside;
pub mod text;
pub mod search;
pub mod frame;
pub mod beacon;
pub mod crypto;
pub mod handshake;
pub mod launch;
pub mod automation;
pub mod protocol;
pub mod registry;
pub mod pairing;
pub mod auth;
pub mod server;
pub mod pc_auth;
pub mod pc_server;
pub mod safe;
pub mod shell;
pub mod phone;
