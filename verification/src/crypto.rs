//! Shared key material and Noise helpers used by both the PC and the phone.

use vstd::prelude::*;
use crate::b64::{b64_decode, b64_encode, lemma_b64_len, lemma_b64_roundtrip};
use crate::outside::{Handshake, Transport, noise_seal, base64_decode, base64_encode, build_initiator, build_responder, generate_keypair, noise_xx_name, random_bytes, x25519_public, NoiseSetupError, snow_error_debug, snow_error_text, transport_read, transport_write};
use crate::text::concat2;

verus! {

/// The exact Noise protocol name used by AetherLink.
pub const NOISE_PATTERN: &'static str = "Noise_XX_25519_AESGCM_SHA256";

/// Size of an AES-GCM authentication tag.
pub const TAG_LEN: usize = 16;

/// A Noise static key pair, each key stored as base64 text.
pub struct CryptoKeyPair {
    pub private_key_b64: String,
    pub public_key_b64: String,
}

/// The text stands for a key that a Noise builder accepts: it decodes, and to at
/// most 32 bytes (snow copies a private key into a 32-byte buffer).
pub open spec fn usable_private_key(text: Seq<char>) -> bool {
    b64_decode(text) matches Some(k) && k.len() <= 32
}

/// The text is the base64 of a key of `len` bytes, and decodes back to it.
pub open spec fn encodes_key(text: Seq<char>, len: nat) -> bool {
    b64_decode(text) matches Some(k) && k.len() == len && text == b64_encode(k)
}

/// Two texts hold a Curve25519 key pair: each the base64 of 32 bytes, the
/// public key being the one derived from the private key.
pub open spec fn is_key_pair(private: Seq<char>, public: Seq<char>) -> bool {
    &&& encodes_key(private, 32)
    &&& encodes_key(public, 32)
    &&& match (b64_decode(private), b64_decode(public)) {
        (Some(k), Some(p)) => p == x25519_public(k),
        _ => false,
    }
}

/// The error text when the Noise protocol name does not parse.
pub open spec fn bad_params_message() -> Seq<char> {
    "Неверные Noise параметры"@
}

/// The bytes that base64 text stands for; the text must decode.
pub fn decode_key(text: &str) -> (key: Vec<u8>)
    requires
        b64_decode(text@) is Some,
    ensures
        b64_decode(text@) == Some(key@),
{
    match base64_decode(text) {
        Some(k) => k,
        None => Vec::new(),
    }
}

/// Fresh Curve25519 keys from snow, as base64 (private, public); `bad_params`
/// is the error text when the protocol name does not parse. For AetherLink's
/// protocol name the keys are always made.
pub fn generate_key_texts(bad_params: &str) -> (r: Result<(String, String), String>)
    ensures
        r matches Ok((private, public)) && is_key_pair(private@, public@) && usable_private_key(private@),
{
    proof { assert(NOISE_PATTERN@ == noise_xx_name()); }
    let (private, public) = match generate_keypair(NOISE_PATTERN) {
        Ok(kp) => kp,
        Err(NoiseSetupError::Params(_)) => return Err(bad_params.to_owned()),
        Err(NoiseSetupError::Build(e)) => return Err(snow_error_text(e)),
    };
    proof {
        lemma_b64_roundtrip(private@);
        lemma_b64_roundtrip(public@);
    }
    Ok((base64_encode(private.as_slice()), base64_encode(public.as_slice())))
}

impl CryptoKeyPair {
    /// The decoded private key; the text must be base64.
    pub fn private_key(&self) -> (key: Vec<u8>)
        requires
            b64_decode(self.private_key_b64@) is Some,
        ensures
            b64_decode(self.private_key_b64@) == Some(key@),
    {
        decode_key(self.private_key_b64.as_str())
    }

    /// The decoded public key; same precondition as `private_key`.
    pub fn public_key(&self) -> (key: Vec<u8>)
        requires
            b64_decode(self.public_key_b64@) is Some,
        ensures
            b64_decode(self.public_key_b64@) == Some(key@),
    {
        decode_key(self.public_key_b64.as_str())
    }

    /// The decoded private key, or `None` where the text is not base64.
    pub fn try_private_key(&self) -> (key: Option<Vec<u8>>)
        ensures
            match key {
                Some(k) => b64_decode(self.private_key_b64@) == Some(k@),
                None => b64_decode(self.private_key_b64@) is None,
            },
    {
        match base64_decode(self.private_key_b64.as_str()) {
            Some(_) => Some(self.private_key()),
            None => None,
        }
    }

    /// The decoded public key, or `None` where the text is not base64.
    pub fn try_public_key(&self) -> (key: Option<Vec<u8>>)
        ensures
            match key {
                Some(k) => b64_decode(self.public_key_b64@) == Some(k@),
                None => b64_decode(self.public_key_b64@) is None,
            },
    {
        match base64_decode(self.public_key_b64.as_str()) {
            Some(_) => Some(self.public_key()),
            None => None,
        }
    }

    /// A fresh Curve25519 key pair from snow, stored as base64 (always made).
    pub fn generate() -> (r: Result<Self, String>)
        ensures
            r matches Ok(kp) && is_key_pair(kp.private_key_b64@, kp.public_key_b64@)
                && usable_private_key(kp.private_key_b64@),
    {
        let (private_key_b64, public_key_b64) = generate_key_texts("Неверные Noise параметры")?;
        Ok(CryptoKeyPair { private_key_b64, public_key_b64 })
    }
}

/// Text of the base64 of 32 random bytes: the one-time pairing token.
pub open spec fn is_pairing_token(token: Seq<char>) -> bool {
    token.len() == 44 && encodes_key(token, 32)
}

/// A random one-time token for the pairing QR code: 32 random bytes in base64.
pub fn generate_pairing_token() -> (token: String)
    ensures
        is_pairing_token(token@),
{
    let bytes = random_bytes(32);
    proof {
        lemma_b64_len(bytes@);
        lemma_b64_roundtrip(bytes@);
    }
    base64_encode(bytes.as_slice())
}

/// A new handshake: nothing handled yet, no peer key known, for AetherLink's
/// protocol, on the given side.
pub open spec fn fresh_handshake(h: Handshake, initiator: bool) -> bool {
    &&& h.pattern() == noise_xx_name()
    &&& h.is_initiator() == initiator
    &&& h.written().len() == 0
    &&& h.read().len() == 0
    &&& h.remote_static() is None
}

/// A Noise XX handshake for the side that sends first, with the local static key.
pub fn init_initiator(local_key: &CryptoKeyPair) -> (r: Result<Handshake, String>)
    requires
        usable_private_key(local_key.private_key_b64@),
    ensures
        r matches Ok(h) && fresh_handshake(h, true),
{
    let key = local_key.private_key();
    proof { assert(NOISE_PATTERN@ == noise_xx_name()); }
    match build_initiator(NOISE_PATTERN, key.as_slice()) {
        Ok(hs) => Ok(hs),
        Err(NoiseSetupError::Params(e)) => Err(snow_error_debug(e)),
        Err(NoiseSetupError::Build(e)) => Err(snow_error_text(e)),
    }
}

/// A Noise XX handshake for the side that answers, with the local static key.
pub fn init_responder(local_key: &CryptoKeyPair) -> (r: Result<Handshake, String>)
    requires
        usable_private_key(local_key.private_key_b64@),
    ensures
        r matches Ok(h) && fresh_handshake(h, false),
{
    let key = local_key.private_key();
    proof { assert(NOISE_PATTERN@ == noise_xx_name()); }
    match build_responder(NOISE_PATTERN, key.as_slice()) {
        Ok(hs) => Ok(hs),
        Err(NoiseSetupError::Params(e)) => Err(snow_error_debug(e)),
        Err(NoiseSetupError::Build(e)) => Err(snow_error_text(e)),
    }
}

/// `init_initiator` for any key pair: `None` where its private key is not usable.
pub fn init_initiator_checked(local_key: &CryptoKeyPair) -> (r: Option<Result<Handshake, String>>)
    ensures
        r is Some <==> usable_private_key(local_key.private_key_b64@),
        r matches Some(x) ==> (x matches Ok(h) && fresh_handshake(h, true)),
{
    match local_key.try_private_key() {
        Some(k) => {
            if k.len() <= 32 {
                Some(init_initiator(local_key))
            } else {
                None
            }
        },
        None => None,
    }
}

/// `init_responder` for any key pair: `None` where its private key is not usable.
pub fn init_responder_checked(local_key: &CryptoKeyPair) -> (r: Option<Result<Handshake, String>>)
    ensures
        r is Some <==> usable_private_key(local_key.private_key_b64@),
        r matches Some(x) ==> (x matches Ok(h) && fresh_handshake(h, false)),
{
    match local_key.try_private_key() {
        Some(k) => {
            if k.len() <= 32 {
                Some(init_responder(local_key))
            } else {
                None
            }
        },
        None => None,
    }
}

/// The text is `prefix` followed by some detail.
pub open spec fn starts_with(msg: Seq<char>, prefix: Seq<char>) -> bool {
    exists|detail: Seq<char>| msg == prefix + detail
}

/// What an operation on the transport gave: the bytes, or `None` on failure.
pub open spec fn outcome(r: Result<Vec<u8>, String>) -> Option<Seq<u8>> {
    match r {
        Ok(v) => Some(v@),
        Err(_) => None,
    }
}

/// Two views of a transport share its peer key and handshake.
pub open spec fn same_channel(a: Transport, b: Transport) -> bool {
    &&& a.remote_static() == b.remote_static()
    &&& a.handshake_read() == b.handshake_read()
    &&& a.transcript() == b.transcript()
    &&& a.is_initiator() == b.is_initiator()
    &&& a.from_xx() == b.from_xx()
}

/// Seal one transport message, reporting a failure as `prefix` and the snow
/// error: the payload is handed to snow and recorded with the sealed message.
/// A sealed message is the payload plus its 16-byte tag; on a transport from a
/// complete XX handshake it is `noise_seal` of the payload at this side's
/// sending nonce, and a payload that fits is always sealed while the nonce lasts.
pub fn seal_with(transport: &mut Transport, payload: &[u8], prefix: &str) -> (r: Result<Vec<u8>, String>)
    requires
        payload@.len() + 16 <= usize::MAX,
    ensures
        final(transport).sealed() == old(transport).sealed().push((payload@, outcome(r))),
        final(transport).opened() == old(transport).opened(),
        same_channel(*final(transport), *old(transport)),
        r matches Ok(sealed) ==> sealed@.len() == payload@.len() + 16,
        r matches Ok(sealed) ==> (old(transport).from_xx() ==> sealed@
            == noise_seal(old(transport).transcript(), old(transport).is_initiator(), old(transport).sent_count(), payload@)),
        r matches Err(msg) ==> starts_with(msg@, prefix@),
        payload@.len() + 16 > 65535 ==> r is Err,
        old(transport).from_xx() && payload@.len() + 16 <= 65535 && old(transport).sent_count() < u64::MAX ==> r is Ok,
{
    let mut buf: Vec<u8> = vec![0u8; payload.len() + TAG_LEN];
    match transport_write(transport, payload, &mut buf) {
        Ok(len) => {
            buf.truncate(len);
            Ok(buf)
        },
        Err(e) => {
            let detail = snow_error_text(e);
            let msg = concat2(prefix, detail.as_str());
            assert(msg@ == prefix@ + detail@);
            Err(msg)
        },
    }
}

/// Open one transport message, reporting a failure as `prefix` and the snow
/// error: the message is handed to snow and recorded with the opened payload.
/// An opened payload is the message less its 16-byte tag; on a transport from a
/// complete XX handshake, the message opens to a payload exactly when it is that
/// payload as the peer seals it at this side's receiving nonce.
pub fn open_with(transport: &mut Transport, encrypted: &[u8], prefix: &str) -> (r: Result<Vec<u8>, String>)
    ensures
        final(transport).opened() == old(transport).opened().push((encrypted@, outcome(r))),
        final(transport).sealed() == old(transport).sealed(),
        same_channel(*final(transport), *old(transport)),
        r matches Ok(plain) ==> plain@.len() + 16 == encrypted@.len(),
        r matches Ok(plain) ==> (old(transport).from_xx() ==> encrypted@
            == old(transport).peer_seal(plain@)),
        forall|p: Seq<u8>|
            old(transport).from_xx() && encrypted@.len() <= 65535 && old(transport).received_count() < u64::MAX
                && encrypted@ == #[trigger] old(transport).peer_seal(p)
                ==> (r matches Ok(plain) && plain@ == p),
        r matches Err(msg) ==> starts_with(msg@, prefix@),
        encrypted@.len() < 16 || encrypted@.len() > 65535 ==> r is Err,
{
    let mut buf: Vec<u8> = vec![0u8; encrypted.len()];
    match transport_read(transport, encrypted, &mut buf) {
        Ok(len) => {
            buf.truncate(len);
            Ok(buf)
        },
        Err(e) => {
            let detail = snow_error_text(e);
            let msg = concat2(prefix, detail.as_str());
            assert(msg@ == prefix@ + detail@);
            Err(msg)
        },
    }
}

/// Seal one transport message (see `seal_with`), failures reported as
/// `Ошибка шифрования: ` and the snow error.
pub fn encrypt_frame(transport: &mut Transport, payload: &[u8]) -> (r: Result<Vec<u8>, String>)
    requires
        payload@.len() + 16 <= usize::MAX,
    ensures
        final(transport).sealed() == old(transport).sealed().push((payload@, outcome(r))),
        final(transport).opened() == old(transport).opened(),
        same_channel(*final(transport), *old(transport)),
        r matches Ok(sealed) ==> sealed@.len() == payload@.len() + 16,
        r matches Ok(sealed) ==> (old(transport).from_xx() ==> sealed@
            == noise_seal(old(transport).transcript(), old(transport).is_initiator(), old(transport).sent_count(), payload@)),
        r matches Err(msg) ==> starts_with(msg@, "Ошибка шифрования: "@),
        payload@.len() + 16 > 65535 ==> r is Err,
        old(transport).from_xx() && payload@.len() + 16 <= 65535 && old(transport).sent_count() < u64::MAX ==> r is Ok,
{
    seal_with(transport, payload, "Ошибка шифрования: ")
}

/// Open one transport message (see `open_with`), failures reported as
/// `Ошибка расшифрования: ` and the snow error.
pub fn decrypt_frame(transport: &mut Transport, encrypted_payload: &[u8]) -> (r: Result<Vec<u8>, String>)
    ensures
        final(transport).opened() == old(transport).opened().push((encrypted_payload@, outcome(r))),
        final(transport).sealed() == old(transport).sealed(),
        same_channel(*final(transport), *old(transport)),
        r matches Ok(plain) ==> plain@.len() + 16 == encrypted_payload@.len(),
        r matches Ok(plain) ==> (old(transport).from_xx() ==> encrypted_payload@
            == old(transport).peer_seal(plain@)),
        forall|p: Seq<u8>|
            old(transport).from_xx() && encrypted_payload@.len() <= 65535 && old(transport).received_count() < u64::MAX
                && encrypted_payload@ == #[trigger] old(transport).peer_seal(p)
                ==> (r matches Ok(plain) && plain@ == p),
        r matches Err(msg) ==> starts_with(msg@, "Ошибка расшифрования: "@),
        encrypted_payload@.len() < 16 || encrypted_payload@.len() > 65535 ==> r is Err,
{
    open_with(transport, encrypted_payload, "Ошибка расшифрования: ")
}

/// Law (the channel carries what is sent): on the two transports of one
/// complete XX handshake, whatever one side seals as its `n`-th message is
/// exactly what the other side, at receiving nonce `n`, opens to the same
/// payload; any other message does not open to that payload.
pub proof fn law_peer_opens_what_is_sealed(a: Transport, b: Transport, p: Seq<u8>, altered: Seq<u8>)
    requires
        a.from_xx(),
        b.from_xx(),
        a.transcript() == b.transcript(),
        a.is_initiator() != b.is_initiator(),
        a.sent_count() == b.received_count(),
        altered != noise_seal(a.transcript(), a.is_initiator(), a.sent_count(), p),
    ensures
        noise_seal(a.transcript(), a.is_initiator(), a.sent_count(), p) == b.peer_seal(p),
        altered != b.peer_seal(p),
{
}

} // verus!
