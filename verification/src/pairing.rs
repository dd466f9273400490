//! The pairing window: a one-time token shown in a QR code, valid for 120 seconds.

use vstd::prelude::*;

verus! {

/// How long a pairing token stays valid, in milliseconds.
pub const PAIRING_TTL_MS: u64 = 120000;

/// An open pairing window (exists while the QR code is shown).
pub struct PairingSession {
    /// The one-time token from the QR code.
    pub token: String,
    /// The moment it stops being valid, in milliseconds of the server's clock.
    pub expires_at_ms: u64,
}

/// What the pairing QR code holds.
pub struct PairingQr {
    pub ip: String,
    pub port: u16,
    /// The server's Noise static public key, base64; the phone pins it.
    pub server_public_key: String,
    pub pairing_token: String,
}

/// The token is accepted at time `now`.
pub open spec fn accepts(session: PairingSession, token: Seq<char>, now: u64) -> bool {
    session.token@ == token && now < session.expires_at_ms
}

impl PairingSession {
    /// A window for `token` opened at `now_ms`.
    pub fn new(token: String, now_ms: u64) -> (s: Self)
        requires
            now_ms + PAIRING_TTL_MS <= u64::MAX,
        ensures
            s.token == token,
            s.expires_at_ms == now_ms + PAIRING_TTL_MS,
    {
        PairingSession { token, expires_at_ms: now_ms + PAIRING_TTL_MS }
    }

    /// The token matches and the window has not expired at `now_ms`.
    pub fn is_valid(&self, token: &str, now_ms: u64) -> (r: bool)
        ensures
            r == accepts(*self, token@, now_ms),
    {
        self.token == token.to_owned() && now_ms < self.expires_at_ms
    }
}

/// Law (expiry): a token is never accepted once 120 seconds have passed since
/// its window opened, nor is any other text than the token.
pub proof fn law_token_expires(session: PairingSession, opened_at: u64, token: Seq<char>, now: u64)
    requires
        session.expires_at_ms == opened_at + PAIRING_TTL_MS,
        now >= opened_at + PAIRING_TTL_MS || token != session.token@,
    ensures
        !accepts(session, token, now),
{
}

} // verus!
