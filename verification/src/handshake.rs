//! The three Noise XX handshake messages, as each side handles them between
//! the frames the caller moves over TCP:
//!
//!   phone → PC:  e
//!   PC → phone:  e, ee, s, es
//!   phone → PC:  s, se
//!
//! The phone pins the PC's static key from the QR code and refuses any other.

use vstd::prelude::*;
use crate::frame::{encode_frame, framed};
use crate::b64::{b64_decode, b64_encode, lemma_b64_roundtrip};
use crate::outside::{Handshake, Transport, accepted, lemma_accepted_push, noise_xx_name, outputs, base64_encode, handshake_read, handshake_remote_static, handshake_write, into_transport, snow_error_text};
use crate::text::concat2;
use crate::crypto::starts_with;

verus! {

/// Size of the scratch buffers for handshake messages (the Noise maximum).
pub const HANDSHAKE_BUF: usize = 65535;

/// Refusal when the PC's key differs from the pinned one.
pub open spec fn mitm_message() -> Seq<char> {
    "⚠️ Public key сервера не совпадает! Возможна MITM-атака."@
}

/// The record after writing a handshake message with an empty payload: on
/// success the frame carries exactly the message snow wrote; on failure the
/// write is recorded as refused.
pub open spec fn wrote_frame(
    before: Seq<(Seq<u8>, Option<Seq<u8>>)>,
    after: Seq<(Seq<u8>, Option<Seq<u8>>)>,
    r: Result<Vec<u8>, String>,
) -> bool {
    match r {
        Ok(f) => exists|m: Seq<u8>| #[trigger] framed(m) == f@ && m.len() <= 65535
            && after == before.push((Seq::<u8>::empty(), Some(m))),
        Err(_) => after == before.push((Seq::<u8>::empty(), None)),
    }
}

/// Reading and the handshake's identity are as they were.
pub open spec fn reads_kept(a: Handshake, b: Handshake) -> bool {
    &&& a.read() == b.read()
    &&& a.remote_static() == b.remote_static()
    &&& a.pattern() == b.pattern()
    &&& a.is_initiator() == b.is_initiator()
}

/// The answering side of an XX handshake that has read the first message and
/// written the second, and awaits the last.
pub open spec fn awaits_last(hs: Handshake) -> bool {
    &&& hs.pattern() == noise_xx_name()
    &&& !hs.is_initiator()
    &&& outputs(hs.written()).len() == 1
    &&& accepted(hs.read()).len() == 1
}

/// Write the next handshake message (with an empty payload) and frame it.
fn write_framed(hs: &mut Handshake, prefix: &str) -> (r: Result<Vec<u8>, String>)
    ensures
        wrote_frame(old(hs).written(), final(hs).written(), r),
        reads_kept(*final(hs), *old(hs)),
        r matches Err(e) ==> starts_with(e@, prefix@),
{
    let mut buf: Vec<u8> = vec![0u8; HANDSHAKE_BUF];
    let empty: [u8; 0] = [];
    assert(empty@ =~= Seq::<u8>::empty());
    match handshake_write(hs, &empty, &mut buf) {
        Ok(len) => {
            buf.truncate(len);
            let f = encode_frame(buf.as_slice());
            assert(framed(buf@) == f@);
            Ok(f)
        },
        Err(e) => {
            let detail = snow_error_text(e);
            let msg = concat2(prefix, detail.as_str());
            assert(msg@ == prefix@ + detail@);
            Err(msg)
        },
    }
}

/// Read a handshake message, reporting a failure as `prefix` and the snow error.
fn read_message(hs: &mut Handshake, message: &[u8], prefix: &str) -> (r: Result<(), String>)
    ensures
        final(hs).read() == old(hs).read().push((message@, r is Ok)),
        final(hs).written() == old(hs).written(),
        final(hs).pattern() == old(hs).pattern(),
        final(hs).is_initiator() == old(hs).is_initiator(),
        final(hs).complete_xx() ==> final(hs).remote_static() is Some,
        r matches Err(e) ==> starts_with(e@, prefix@),
{
    let mut tmp: Vec<u8> = vec![0u8; HANDSHAKE_BUF];
    match handshake_read(hs, message, &mut tmp) {
        Ok(_) => Ok(()),
        Err(e) => {
            let detail = snow_error_text(e);
            let msg = concat2(prefix, detail.as_str());
            assert(msg@ == prefix@ + detail@);
            Err(msg)
        },
    }
}

/// PC side: hand the phone's first message to snow and, once it is accepted,
/// write the answer and frame exactly what snow wrote.
pub fn respond_to_first(hs: &mut Handshake, msg1: &[u8]) -> (r: Result<Vec<u8>, String>)
    ensures
        final(hs).read() == old(hs).read().push((msg1@, final(hs).read().last().1)),
        final(hs).pattern() == old(hs).pattern(),
        final(hs).is_initiator() == old(hs).is_initiator(),
        final(hs).read().last().1 ==> wrote_frame(old(hs).written(), final(hs).written(), r),
        !final(hs).read().last().1 ==> final(hs).written() == old(hs).written() && r is Err,
        r matches Err(e) ==> starts_with(e@, "handshake msg1: "@) || starts_with(e@, "handshake msg2: "@),
{
    read_message(hs, msg1, "handshake msg1: ")?;
    write_framed(hs, "handshake msg2: ")
}

/// PC side: hand the phone's last message to snow; the result is the phone's
/// static key as snow reports it, and the transport. When the handshake awaits
/// exactly this message, only snow refusing it can fail.
pub fn finish_responder(hs: Handshake, msg3: &[u8]) -> (r: Result<(Vec<u8>, Transport), String>)
    ensures
        awaits_last(hs) ==> (r is Ok || (r matches Err(e) && starts_with(e@, "handshake msg3: "@))),
        r matches Ok((remote, t)) ==> remote@.len() == 32 && t.remote_static() == Some(remote@)
            && t.handshake_read() == hs.read().push((msg3@, true))
            && t.is_initiator() == hs.is_initiator()
            && (awaits_last(hs) ==> t.from_xx())
            && t.sealed().len() == 0 && t.opened().len() == 0,
        r matches Err(e) ==> starts_with(e@, "handshake msg3: "@)
            || e@ == "Нет remote static key после хендшейка"@ || !awaits_last(hs),
{
    let mut hs = hs;
    let ghost before = hs;
    read_message(&mut hs, msg3, "handshake msg3: ")?;
    proof {
        lemma_accepted_push(before.read(), (msg3@, true));
        if awaits_last(before) {
            assert(hs.complete_xx());
        }
    }
    let remote = match handshake_remote_static(&hs) {
        Some(k) => k,
        None => return Err(String::from_str("Нет remote static key после хендшейка")),
    };
    match into_transport(hs) {
        Ok(t) => Ok((remote, t)),
        Err(e) => Err(snow_error_text(e)),
    }
}

/// Phone side: write the first message (an empty payload) and frame exactly
/// what snow wrote.
pub fn initiate(hs: &mut Handshake) -> (r: Result<Vec<u8>, String>)
    ensures
        wrote_frame(old(hs).written(), final(hs).written(), r),
        reads_kept(*final(hs), *old(hs)),
{
    write_framed(hs, "")
}

/// The frame part of the answer step's result.
pub open spec fn frame_of(r: Result<(Vec<u8>, Vec<u8>), String>) -> Result<Vec<u8>, String> {
    match r {
        Ok((f, _)) => Ok(f),
        Err(e) => Err(e),
    }
}

/// Phone side: hand the PC's answer to snow; once it is accepted, check that
/// the static key snow reports for the PC is the pinned one, and only then
/// write and frame the last message. The result carries the PC's key.
pub fn answer_server(hs: &mut Handshake, msg2: &[u8], pinned_key_b64: &str) -> (r: Result<(Vec<u8>, Vec<u8>), String>)
    ensures
        final(hs).read() == old(hs).read().push((msg2@, final(hs).read().last().1)),
        !final(hs).read().last().1 ==> r is Err && final(hs).written() == old(hs).written(),
        final(hs).read().last().1 && final(hs).remote_static() is None ==> final(hs).written() == old(hs).written()
            && (r matches Err(e) && e@ == "Нет static key сервера после msg2"@),
        final(hs).read().last().1 && (final(hs).remote_static() matches Some(k) && b64_encode(k) != pinned_key_b64@)
            ==> final(hs).written() == old(hs).written() && (r matches Err(e) && e@ == mitm_message()),
        final(hs).read().last().1 && (final(hs).remote_static() matches Some(k) && b64_encode(k) == pinned_key_b64@)
            ==> wrote_frame(old(hs).written(), final(hs).written(), frame_of(r)),
        final(hs).pattern() == old(hs).pattern(),
        final(hs).is_initiator() == old(hs).is_initiator(),
        r matches Ok((f, server_key)) ==> final(hs).remote_static() == Some(server_key@)
            && b64_encode(server_key@) == pinned_key_b64@
            && b64_decode(pinned_key_b64@) == Some(server_key@),
{
    read_message(hs, msg2, "")?;
    let remote = pin_server_key(handshake_remote_static(hs), pinned_key_b64)?;
    let f = write_framed(hs, "")?;
    Ok((f, remote))
}

/// Law (pinned channel): when the phone's answer step succeeds and the handshake
/// then becomes a transport, that transport belongs to a PC whose static key, as
/// snow reports it, encodes to the pinned text, and whose answer snow accepted.
pub proof fn law_pinned_channel(answered: Handshake, msg2: Seq<u8>, pinned: Seq<char>, key: Seq<u8>, t: Transport)
    requires
        answered.read().len() > 0,
        answered.read().last() == (msg2, true),
        answered.remote_static() == Some(key),
        b64_encode(key) == pinned,
        t.remote_static() == answered.remote_static(),
        t.handshake_read() == answered.read(),
    ensures
        t.remote_static() matches Some(k) && b64_encode(k) == pinned && b64_decode(pinned) == Some(k),
        t.handshake_read().last() == (msg2, true),
{
    lemma_b64_roundtrip(key);
}

/// The check the phone makes on the PC's static key after its answer: a key
/// must have been sent, and its base64 must be the pinned text from the QR code.
pub fn pin_server_key(remote: Option<Vec<u8>>, pinned_key_b64: &str) -> (r: Result<Vec<u8>, String>)
    requires
        remote matches Some(k) ==> k@.len() <= usize::MAX / 2,
    ensures
        match remote {
            None => r matches Err(e) && e@ == "Нет static key сервера после msg2"@,
            Some(k) => if b64_encode(k@) == pinned_key_b64@ {
                r == Ok::<Vec<u8>, String>(k) && b64_decode(pinned_key_b64@) == Some(k@)
            } else {
                r matches Err(e) && e@ == mitm_message()
            },
        },
{
    let remote = match remote {
        Some(k) => k,
        None => return Err(String::from_str("Нет static key сервера после msg2")),
    };
    let seen = base64_encode(remote.as_slice());
    proof { lemma_b64_roundtrip(remote@); }
    if seen != pinned_key_b64.to_owned() {
        proof { reveal_strlit("⚠️ Public key сервера не совпадает! Возможна MITM-атака."); }
        return Err(String::from_str("⚠️ Public key сервера не совпадает! Возможна MITM-атака."));
    }
    Ok(remote)
}

/// Either side: switch to transport mode once the handshake is complete. The
/// transport keeps the peer's key and the record of the handshake's reads.
/// Whether snow counts the handshake as complete is hidden in its state.
pub fn finish_initiator(hs: Handshake) -> (r: Result<Transport, String>)
    ensures
        hs.complete_xx() ==> r is Ok,
        r matches Ok(t) ==> t.remote_static() == hs.remote_static() && t.handshake_read() == hs.read()
            && t.transcript() == hs.transcript() && t.is_initiator() == hs.is_initiator()
            && t.from_xx() == hs.complete_xx() && t.sealed().len() == 0 && t.opened().len() == 0,
{
    match into_transport(hs) {
        Ok(t) => Ok(t),
        Err(e) => Err(snow_error_text(e)),
    }
}

} // verus!
