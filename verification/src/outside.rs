//! The calls this library makes into outside crates and into the parts of std
//! that Verus does not specify. Every item here is trusted: its contract is
//! believed, not proved.

use vstd::prelude::*;
use crate::b64::{b64_decode, b64_encode};
use base64::Engine;
use rand::RngCore;
use snow::params::NoiseParams;
use snow::{HandshakeState, TransportState};

verus! {

/// Calls `STANDARD.encode` (base64 crate: standard alphabet, padding on).
/// Claims: the text is the padded standard base64 of the bytes. The crate
/// panics when the encoded length overflows `usize`, which `requires` leaves out.
#[verifier::external_body]
pub fn base64_encode(bytes: &[u8]) -> (text: String)
    requires
        bytes@.len() <= usize::MAX / 2,
    ensures
        text@ == b64_encode(bytes@),
{
    base64::engine::general_purpose::STANDARD.encode(bytes)
}

/// Calls `STANDARD.decode` on the UTF-8 bytes of `text` (padding required and
/// canonical, no trailing bits: the engine's default configuration).
/// Claims: it succeeds exactly on the canonical padded encodings, with the
/// bytes encoded; any other text is a `DecodeError`, here `None`.
#[verifier::external_body]
pub fn base64_decode(text: &str) -> (bytes: Option<Vec<u8>>)
    ensures
        match bytes {
            Some(v) => b64_decode(text@) == Some(v@),
            None => b64_decode(text@) is None,
        },
{
    base64::engine::general_purpose::STANDARD.decode(text).ok()
}


/// `count` bytes from `rand::thread_rng().fill_bytes` (rand crate).
/// Claims only the length: the bytes are random.
#[verifier::external_body]
pub fn random_bytes(count: usize) -> (bytes: Vec<u8>)
    ensures
        bytes@.len() == count,
{
    let mut bytes = vec![0u8; count];
    rand::thread_rng().fill_bytes(&mut bytes);
    bytes
}

/// A lower-case hexadecimal digit.
pub open spec fn is_lower_hex(c: char) -> bool {
    ('0' <= c && c <= '9') || ('a' <= c && c <= 'f')
}

/// The hyphenated text of a version-4 UUID: 8-4-4-4-12 lower-case hex digits,
/// the version digit `4`, and the RFC 4122 variant (`8`, `9`, `a` or `b`).
pub open spec fn is_uuid_v4_text(s: Seq<char>) -> bool {
    &&& s.len() == 36
    &&& forall|i: int| 0 <= i < 36 ==> if i == 8 || i == 13 || i == 18 || i == 23 {
        #[trigger] s[i] == '-'
    } else {
        is_lower_hex(s[i])
    }
    &&& s[14] == '4'
    &&& (s[19] == '8' || s[19] == '9' || s[19] == 'a' || s[19] == 'b')
}

/// The text of `uuid::Uuid::new_v4()` (uuid crate), a random identifier.
/// Claims its form, as the crate's source shows (random bits with the version
/// and variant set, shown hyphenated in lower case); the digits are random.
#[verifier::external_body]
pub fn new_uuid_text() -> (id: String)
    ensures
        is_uuid_v4_text(id@),
{
    uuid::Uuid::new_v4().to_string()
}

/// The characters with the Unicode property `White_Space` (what `char::is_whitespace` accepts).
pub open spec fn is_white_space(c: char) -> bool {
    let n = c as int;
    ||| 0x9 <= n <= 0xD
    ||| n == 0x20
    ||| n == 0x85
    ||| n == 0xA0
    ||| n == 0x1680
    ||| 0x2000 <= n <= 0x200A
    ||| n == 0x2028
    ||| n == 0x2029
    ||| n == 0x202F
    ||| n == 0x205F
    ||| n == 0x3000
}

/// The text less its leading white space.
pub open spec fn trim_start(text: Seq<char>) -> Seq<char>
    decreases text.len(),
{
    if text.len() > 0 && is_white_space(text[0]) {
        trim_start(text.drop_first())
    } else {
        text
    }
}

/// The text less its trailing white space.
pub open spec fn trim_end(text: Seq<char>) -> Seq<char>
    decreases text.len(),
{
    if text.len() > 0 && is_white_space(text.last()) {
        trim_end(text.drop_last())
    } else {
        text
    }
}

/// The text less its leading and trailing white space (`str::trim`).
pub open spec fn trimmed(text: Seq<char>) -> Seq<char> {
    trim_end(trim_start(text))
}

/// Calls `str::trim` (std) and owns the result.
/// Claims what its documentation says: leading and trailing white space
/// (Unicode `White_Space`) removed.
#[verifier::external_body]
pub fn trim_text(text: &str) -> (out: String)
    ensures
        out@ == trimmed(text@),
{
    text.trim().to_string()
}

#[verifier::external_type_specification]
#[verifier::external_body]
pub struct ExHandshakeState(snow::HandshakeState);

#[verifier::external_type_specification]
#[verifier::external_body]
pub struct ExTransportState(snow::TransportState);

#[verifier::external_type_specification]
#[verifier::external_body]
pub struct ExSnowError(snow::Error);

/// The Noise protocol name AetherLink uses.
pub open spec fn noise_xx_name() -> Seq<char> {
    "Noise_XX_25519_AESGCM_SHA256"@
}

/// How setting up snow failed: the protocol name did not parse, or the builder
/// refused.
pub enum NoiseSetupError {
    Params(snow::Error),
    Build(snow::Error),
}

/// The Curve25519 public key of a 32-byte private key: what snow's `Dh25519`
/// derives with `MontgomeryPoint::mul_base_clamped` (curve25519-dalek).
pub uninterp spec fn x25519_public(private: Seq<u8>) -> Seq<u8>;

/// Parses the protocol name (`<NoiseParams as FromStr>::from_str`) and calls
/// `snow::Builder::new(params).generate_keypair()`, returning the (private,
/// public) key bytes.
/// Claims, as the crate's source shows with its default features: the name
/// `Noise_XX_25519_AESGCM_SHA256` parses and its Curve25519 keys are generated
/// (the default resolver offers Curve25519 alone, whose keys are 32 bytes), the
/// public key being the one derived from the private key. The private key's
/// bytes are random.
#[verifier::external_body]
pub fn generate_keypair(pattern: &str) -> (r: Result<(Vec<u8>, Vec<u8>), NoiseSetupError>)
    ensures
        pattern@ == noise_xx_name() ==> r is Ok,
        r matches Ok((private, public)) ==> private@.len() == 32 && public@.len() == 32
            && public@ == x25519_public(private@),
{
    let params: NoiseParams = match pattern.parse() {
        Ok(p) => p,
        Err(e) => return Err(NoiseSetupError::Params(e)),
    };
    snow::Builder::new(params).generate_keypair().map(|kp| (kp.private, kp.public)).map_err(NoiseSetupError::Build)
}

/// The record entry of a write: it was done (with what came out) or refused.
pub open spec fn is_done() -> spec_fn((Seq<u8>, Option<Seq<u8>>)) -> bool {
    |e: (Seq<u8>, Option<Seq<u8>>)| e.1 is Some
}

/// The record entry of a handshake read: snow accepted the message.
pub open spec fn is_accepted() -> spec_fn((Seq<u8>, bool)) -> bool {
    |e: (Seq<u8>, bool)| e.1
}

/// What came out of a record entry that was done.
pub open spec fn output_of() -> spec_fn((Seq<u8>, Option<Seq<u8>>)) -> Seq<u8> {
    |e: (Seq<u8>, Option<Seq<u8>>)| e.1->Some_0
}

/// The message of a handshake read entry.
pub open spec fn message_of() -> spec_fn((Seq<u8>, bool)) -> Seq<u8> {
    |e: (Seq<u8>, bool)| e.0
}

/// What came out of the writes (or seals, or opens) that were done, in order.
pub open spec fn outputs(log: Seq<(Seq<u8>, Option<Seq<u8>>)>) -> Seq<Seq<u8>> {
    log.filter(is_done()).map_values(output_of())
}

/// The messages snow accepted, in order.
pub open spec fn accepted(log: Seq<(Seq<u8>, bool)>) -> Seq<Seq<u8>> {
    log.filter(is_accepted()).map_values(message_of())
}

/// Recording one more write adds its output when it was done.
pub proof fn lemma_outputs_push(log: Seq<(Seq<u8>, Option<Seq<u8>>)>, e: (Seq<u8>, Option<Seq<u8>>))
    ensures
        outputs(log.push(e)) == (match e.1 {
            Some(o) => outputs(log).push(o),
            None => outputs(log),
        }),
{
    log.lemma_filter_push(e, is_done());
    let f = output_of();
    assert(log.filter(is_done()).push(e).map_values(f) =~= log.filter(is_done()).map_values(f).push(f(e)));
}

/// Recording one more read adds the message when it was accepted.
pub proof fn lemma_accepted_push(log: Seq<(Seq<u8>, bool)>, e: (Seq<u8>, bool))
    ensures
        accepted(log.push(e)) == (if e.1 { accepted(log).push(e.0) } else { accepted(log) }),
{
    log.lemma_filter_push(e, is_accepted());
    let f = message_of();
    assert(log.filter(is_accepted()).push(e).map_values(f) =~= log.filter(is_accepted()).map_values(f).push(f(e)));
}

/// What a Noise transport seals as its `nonce`-th message from the side that
/// initiated (or answered) the handshake whose three messages were
/// `transcript`: the AES-GCM sealing of `payload` under the key that handshake
/// derived. A function of these values alone; snow computes it in
/// `TransportState::write_message`.
pub uninterp spec fn noise_seal(transcript: Seq<Seq<u8>>, from_initiator: bool, nonce: nat, payload: Seq<u8>) -> Seq<u8>;

/// A Noise handshake in progress, with a record of what the library handed to
/// snow: its protocol name and side, each payload written (with the message it
/// became, or `None` if snow refused) and each message read (with whether snow
/// accepted it), and the peer's static key as snow reports it.
pub struct Handshake {
    state: HandshakeState,
    pattern: Ghost<Seq<char>>,
    initiator: Ghost<bool>,
    written: Ghost<Seq<(Seq<u8>, Option<Seq<u8>>)>>,
    read: Ghost<Seq<(Seq<u8>, bool)>>,
    remote: Ghost<Option<Seq<u8>>>,
}

impl Handshake {
    /// The protocol name the handshake was built for.
    pub closed spec fn pattern(&self) -> Seq<char> {
        self.pattern@
    }

    /// The handshake was built to send first.
    pub closed spec fn is_initiator(&self) -> bool {
        self.initiator@
    }

    /// The payloads handed to snow to write, in order, each with the message
    /// written (`None` where snow refused).
    pub closed spec fn written(&self) -> Seq<(Seq<u8>, Option<Seq<u8>>)> {
        self.written@
    }

    /// The messages handed to snow to read, in order, each with whether snow accepted it.
    pub closed spec fn read(&self) -> Seq<(Seq<u8>, bool)> {
        self.read@
    }

    /// The peer's static key as snow holds it (`get_remote_static`).
    pub closed spec fn remote_static(&self) -> Option<Seq<u8>> {
        self.remote@
    }

    /// All three messages of an XX handshake went through: two written and one
    /// read by the side that sent first, one written and two read by the other.
    pub open spec fn complete_xx(&self) -> bool {
        &&& self.pattern() == noise_xx_name()
        &&& if self.is_initiator() {
            outputs(self.written()).len() == 2 && accepted(self.read()).len() == 1
        } else {
            outputs(self.written()).len() == 1 && accepted(self.read()).len() == 2
        }
    }

    /// The three messages of the handshake in the order they travelled.
    pub open spec fn transcript(&self) -> Seq<Seq<u8>> {
        if self.is_initiator() {
            seq![outputs(self.written())[0], accepted(self.read())[0], outputs(self.written())[1]]
        } else {
            seq![accepted(self.read())[0], outputs(self.written())[0], accepted(self.read())[1]]
        }
    }
}

/// A Noise transport, with the peer's static key, the handshake it came from
/// (its messages, its side, whether it was a complete XX handshake, what it
/// read), and a record of what the library handed to snow: each payload sealed
/// and each message opened, with what came out (`None` where snow refused).
pub struct Transport {
    state: TransportState,
    remote: Ghost<Option<Seq<u8>>>,
    transcript: Ghost<Seq<Seq<u8>>>,
    initiator: Ghost<bool>,
    from_xx: Ghost<bool>,
    handshake_read: Ghost<Seq<(Seq<u8>, bool)>>,
    sealed: Ghost<Seq<(Seq<u8>, Option<Seq<u8>>)>>,
    opened: Ghost<Seq<(Seq<u8>, Option<Seq<u8>>)>>,
}

impl Transport {
    /// The peer's static key, as the handshake left it.
    pub closed spec fn remote_static(&self) -> Option<Seq<u8>> {
        self.remote@
    }

    /// The three messages of the handshake this transport came from.
    pub closed spec fn transcript(&self) -> Seq<Seq<u8>> {
        self.transcript@
    }

    /// This side sent first in the handshake.
    pub closed spec fn is_initiator(&self) -> bool {
        self.initiator@
    }

    /// The transport came from a complete XX handshake.
    pub closed spec fn from_xx(&self) -> bool {
        self.from_xx@
    }

    /// The messages read during the handshake this transport came from.
    pub closed spec fn handshake_read(&self) -> Seq<(Seq<u8>, bool)> {
        self.handshake_read@
    }

    /// The payloads handed to snow to seal, each with the sealed message.
    pub closed spec fn sealed(&self) -> Seq<(Seq<u8>, Option<Seq<u8>>)> {
        self.sealed@
    }

    /// The messages handed to snow to open, each with the opened payload.
    pub closed spec fn opened(&self) -> Seq<(Seq<u8>, Option<Seq<u8>>)> {
        self.opened@
    }

    /// How many messages this side has sealed (its sending nonce).
    pub open spec fn sent_count(&self) -> nat {
        outputs(self.sealed()).len()
    }

    /// What the peer sends as `payload` for this side's next opening: the peer's
    /// sealing at this side's receiving nonce.
    pub open spec fn peer_seal(&self, payload: Seq<u8>) -> Seq<u8> {
        noise_seal(self.transcript(), !self.is_initiator(), self.received_count(), payload)
    }

    /// How many messages this side has opened (its receiving nonce).
    pub open spec fn received_count(&self) -> nat {
        outputs(self.opened()).len()
    }
}

/// Parses the protocol name and calls
/// `snow::Builder::new(params).local_private_key(key).build_initiator()`.
/// The builder copies the key into a 32-byte buffer and panics on a longer one,
/// which `requires` leaves out. Claims, as the crate's source shows with its
/// default features: for `Noise_XX_25519_AESGCM_SHA256` the state is built
/// (XX needs no remote key up front, and all three primitives are resolved);
/// a new state has handled no message and knows no peer key.
#[verifier::external_body]
pub fn build_initiator(pattern: &str, private_key: &[u8]) -> (r: Result<Handshake, NoiseSetupError>)
    requires
        private_key@.len() <= 32,
    ensures
        pattern@ == noise_xx_name() ==> r is Ok,
        r matches Ok(h) ==> h.pattern() == pattern@ && h.is_initiator() && h.written().len() == 0
            && h.read().len() == 0 && h.remote_static() is None,
{
    let params: NoiseParams = match pattern.parse() {
        Ok(p) => p,
        Err(e) => return Err(NoiseSetupError::Params(e)),
    };
    let state = snow::Builder::new(params).local_private_key(private_key).build_initiator().map_err(NoiseSetupError::Build)?;
    Ok(Handshake { state, pattern: Ghost(pattern@), initiator: Ghost(true), written: Ghost(Seq::empty()), read: Ghost(Seq::empty()), remote: Ghost(None) })
}

/// As `build_initiator`, with `build_responder()`; the same claims.
#[verifier::external_body]
pub fn build_responder(pattern: &str, private_key: &[u8]) -> (r: Result<Handshake, NoiseSetupError>)
    requires
        private_key@.len() <= 32,
    ensures
        pattern@ == noise_xx_name() ==> r is Ok,
        r matches Ok(h) ==> h.pattern() == pattern@ && !h.is_initiator() && h.written().len() == 0
            && h.read().len() == 0 && h.remote_static() is None,
{
    let params: NoiseParams = match pattern.parse() {
        Ok(p) => p,
        Err(e) => return Err(NoiseSetupError::Params(e)),
    };
    let state = snow::Builder::new(params).local_private_key(private_key).build_responder().map_err(NoiseSetupError::Build)?;
    Ok(Handshake { state, pattern: Ghost(pattern@), initiator: Ghost(false), written: Ghost(Seq::empty()), read: Ghost(Seq::empty()), remote: Ghost(None) })
}

/// Calls `HandshakeState::write_message` (snow crate).
/// snow checks the room for a key before writing it but then writes its 16-byte
/// tag past that check, panicking on a buffer only slightly too short; a buffer
/// of the Noise maximum (65535 bytes) always has room, which `requires` asks.
/// Claims: the payload is handed to snow and recorded with the message written
/// into the buffer (or `None`); writing changes neither the peer key snow holds
/// nor what was read; the output buffer keeps its length; a written message fits
/// the buffer and the Noise limit of 65535 bytes. Its bytes depend on fresh
/// ephemeral keys and are not stated.
#[verifier::external_body]
pub fn handshake_write(hs: &mut Handshake, payload: &[u8], out: &mut Vec<u8>) -> (r: Result<usize, snow::Error>)
    requires
        old(out)@.len() >= 65535,
    ensures
        final(hs).written() == old(hs).written().push((payload@, match r {
            Ok(n) => Some(final(out)@.subrange(0, n as int)),
            Err(_) => None,
        })),
        final(hs).read() == old(hs).read(),
        final(hs).remote_static() == old(hs).remote_static(),
        final(hs).pattern() == old(hs).pattern(),
        final(hs).is_initiator() == old(hs).is_initiator(),
        final(out)@.len() == old(out)@.len(),
        r matches Ok(n) ==> n <= old(out)@.len() && n <= 65535,
{
    hs.state.write_message(payload, out.as_mut_slice())
}

/// Calls `HandshakeState::read_message` (snow crate).
/// Claims: the message is handed to snow (recorded with the outcome), and what
/// was written stays; the output buffer keeps its length. Reading may set the
/// peer's static key (an `s` token) to what the peer sent; once an XX handshake
/// is complete the key is known.
#[verifier::external_body]
pub fn handshake_read(hs: &mut Handshake, message: &[u8], out: &mut Vec<u8>) -> (r: Result<usize, snow::Error>)
    ensures
        final(hs).read() == old(hs).read().push((message@, r is Ok)),
        final(hs).written() == old(hs).written(),
        final(hs).pattern() == old(hs).pattern(),
        final(hs).is_initiator() == old(hs).is_initiator(),
        final(hs).complete_xx() ==> final(hs).remote_static() is Some,
        final(out)@.len() == old(out)@.len(),
{
    hs.state.read_message(message, out.as_mut_slice())
}

/// Calls `HandshakeState::get_remote_static` (snow crate) and copies the key.
/// Claims: the result is the peer key snow holds; snow cuts it to the length of
/// its Diffie-Hellman keys, and the default resolver offers Curve25519 alone,
/// 32 bytes.
#[verifier::external_body]
pub fn handshake_remote_static(hs: &Handshake) -> (key: Option<Vec<u8>>)
    ensures
        match key {
            Some(k) => hs.remote_static() == Some(k@) && k@.len() == 32,
            None => hs.remote_static() is None,
        },
{
    hs.state.get_remote_static().map(|k| k.to_vec())
}

/// Calls `HandshakeState::into_transport_mode` (snow crate).
/// Claims, as the crate's source shows: snow refuses only an unfinished
/// pattern, and each accepted message advances it, so a complete XX handshake
/// becomes a transport; a transport carries the peer key of the handshake
/// (snow moves it over), its messages and side, the record of its reads, and
/// has sealed and opened nothing.
#[verifier::external_body]
pub fn into_transport(hs: Handshake) -> (r: Result<Transport, snow::Error>)
    ensures
        hs.complete_xx() ==> r is Ok,
        r matches Ok(t) ==> t.remote_static() == hs.remote_static() && t.handshake_read() == hs.read()
            && t.transcript() == hs.transcript() && t.is_initiator() == hs.is_initiator()
            && t.from_xx() == hs.complete_xx() && t.sealed().len() == 0 && t.opened().len() == 0,
{
    let state = hs.state.into_transport_mode()?;
    Ok(Transport {
        state,
        remote: Ghost(hs.remote@),
        transcript: Ghost(hs.transcript()),
        initiator: Ghost(hs.initiator@),
        from_xx: Ghost(hs.complete_xx()),
        handshake_read: Ghost(hs.read@),
        sealed: Ghost(Seq::empty()),
        opened: Ghost(Seq::empty()),
    })
}

/// Calls `TransportState::write_message` (snow crate).
/// Claims, as the crate's source shows for its ciphers: the payload is handed
/// to snow and recorded with the message sealed into the buffer (or `None`);
/// the buffer keeps its length; a payload whose sealed size (payload plus the
/// 16-byte tag) exceeds 65535 bytes or the buffer is refused; a sealed message
/// is the payload plus the 16-byte tag. For a transport from a complete XX
/// handshake, a payload that fits is sealed unless the sending nonce is spent,
/// and the sealed message is `noise_seal` of the handshake's messages, this
/// side, the nonce (messages sealed so far) and the payload.
#[verifier::external_body]
pub fn transport_write(ts: &mut Transport, payload: &[u8], out: &mut Vec<u8>) -> (r: Result<usize, snow::Error>)
    ensures
        final(ts).sealed() == old(ts).sealed().push((payload@, match r {
            Ok(n) => Some(final(out)@.subrange(0, n as int)),
            Err(_) => None,
        })),
        final(ts).opened() == old(ts).opened(),
        final(ts).remote_static() == old(ts).remote_static(),
        final(ts).handshake_read() == old(ts).handshake_read(),
        final(ts).transcript() == old(ts).transcript(),
        final(ts).is_initiator() == old(ts).is_initiator(),
        final(ts).from_xx() == old(ts).from_xx(),
        final(out)@.len() == old(out)@.len(),
        payload@.len() + 16 > 65535 || payload@.len() + 16 > old(out)@.len() ==> r is Err,
        r matches Ok(n) ==> n == payload@.len() + 16,
        old(ts).from_xx() && payload@.len() + 16 <= 65535 && payload@.len() + 16 <= old(out)@.len()
            && old(ts).sent_count() < u64::MAX ==> r is Ok,
        r matches Ok(n) ==> (old(ts).from_xx() ==> final(out)@.subrange(0, n as int)
            == noise_seal(old(ts).transcript(), old(ts).is_initiator(), old(ts).sent_count(), payload@)),
{
    ts.state.write_message(payload, out.as_mut_slice())
}

/// Calls `TransportState::read_message` (snow crate).
/// Claims, as the crate's source shows for its ciphers: the message is handed
/// to snow and recorded with the payload opened into the buffer (or `None`);
/// the buffer keeps its length; a message longer than 65535 bytes, shorter than
/// the 16-byte tag, or whose opened size does not fit the buffer is refused; an
/// opened payload is the message less the tag. For a transport from a complete
/// XX handshake, a message opens to a payload exactly when it is that payload as
/// the peer seals it at this side's receiving nonce (AES-GCM), unless the nonce
/// is spent.
#[verifier::external_body]
pub fn transport_read(ts: &mut Transport, message: &[u8], out: &mut Vec<u8>) -> (r: Result<usize, snow::Error>)
    ensures
        final(ts).opened() == old(ts).opened().push((message@, match r {
            Ok(n) => Some(final(out)@.subrange(0, n as int)),
            Err(_) => None,
        })),
        final(ts).sealed() == old(ts).sealed(),
        final(ts).remote_static() == old(ts).remote_static(),
        final(ts).handshake_read() == old(ts).handshake_read(),
        final(ts).transcript() == old(ts).transcript(),
        final(ts).is_initiator() == old(ts).is_initiator(),
        final(ts).from_xx() == old(ts).from_xx(),
        final(out)@.len() == old(out)@.len(),
        message@.len() > 65535 || message@.len() < 16 || old(out)@.len() + 16 < message@.len() ==> r is Err,
        r matches Ok(n) ==> n + 16 == message@.len(),
        r matches Ok(n) ==> (old(ts).from_xx() ==> message@ == old(ts).peer_seal(final(out)@.subrange(0, n as int))),
        forall|p: Seq<u8>|
            old(ts).from_xx() && message@.len() <= 65535 && old(out)@.len() + 16 >= message@.len()
                && old(ts).received_count() < u64::MAX
                && message@ == #[trigger] old(ts).peer_seal(p)
                ==> (r matches Ok(n) && final(out)@.subrange(0, n as int) == p),
{
    ts.state.read_message(message, out.as_mut_slice())
}

/// The `Display` text of a `snow::Error`. Nothing is claimed of it.
#[verifier::external_body]
pub fn snow_error_text(e: snow::Error) -> (text: String) {
    format!("{e}")
}

/// The `Debug` text of a `snow::Error`. Nothing is claimed of it.
#[verifier::external_body]
pub fn snow_error_debug(e: snow::Error) -> (text: String) {
    format!("{e:?}")
}

} // verus!
