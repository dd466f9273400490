//! The phone's side: its key pair, the PCs it is paired with, pairing from a
//! QR code, and the decisions of its request path. Sockets and storage stay
//! with the caller.

use vstd::prelude::*;
use crate::crypto::{decode_key, encodes_key, generate_key_texts, is_key_pair, usable_private_key};
use crate::frame::{FRAME_LIMIT, too_large_message};
use crate::b64::b64_decode;
use crate::outside::{base64_decode, new_uuid_text, is_uuid_v4_text};
use crate::pairing::PairingQr;
use crate::protocol::{reply_of, response_to_value, ClientRequest, ReplyValue, ResponseData, SafeCommand, SafeParams, ServerResponse, ShellType, parse_safe_command, parse_shell_type, safe_command_named};
use crate::search::{first_index, lemma_first_index_at, lemma_first_index_none};
use crate::text::{concat2, concat3, decimal, str_eq, u64_decimal};

verus! {

/// The phone's Noise static key pair, as base64 (first phone app).
pub struct PhoneKeypair {
    pub private_key_b64: String,
    pub public_key_b64: String,
}

impl PhoneKeypair {
    /// The decoded private key; the text must be base64.
    pub fn private_key(&self) -> (key: Vec<u8>)
        requires
            b64_decode(self.private_key_b64@) is Some,
        ensures
            b64_decode(self.private_key_b64@) == Some(key@),
    {
        decode_key(self.private_key_b64.as_str())
    }

    /// The decoded private key, or `None` where the text is not base64.
    pub fn try_private_key(&self) -> (key: Option<Vec<u8>>)
        ensures
            match key {
                Some(k) => b64_decode(self.private_key_b64@) == Some(k@),
                None => b64_decode(self.private_key_b64@) is None,
            },
    {
        match base64_decode(self.private_key_b64.as_str()) {
            Some(_) => Some(self.private_key()),
            None => None,
        }
    }

    /// New keys (what the phone makes when none are stored); they are
    /// always made.
    pub fn generate() -> (r: Result<Self, String>)
        ensures
            r matches Ok(k) && is_key_pair(k.private_key_b64@, k.public_key_b64@)
                && usable_private_key(k.private_key_b64@),
    {
        let (private_key_b64, public_key_b64) = generate_key_texts("invalid noise params")?;
        Ok(PhoneKeypair { private_key_b64, public_key_b64 })
    }
}

/// A PC the phone is paired with.
pub struct SavedServer {
    pub id: String,
    pub name: String,
    /// Current address; updated from the beacon when the PC moves.
    pub ip: String,
    pub port: u16,
    /// The PC's Noise static public key, base64, pinned against MITM.
    pub server_public_key_b64: String,
}

/// What the UI lists of a paired PC: everything but its key.
pub struct ServerSummary {
    pub id: String,
    pub name: String,
    pub ip: String,
    pub port: u16,
}

/// The server predicate: its id is `id`.
pub open spec fn has_server_id(id: Seq<char>) -> spec_fn(SavedServer) -> bool {
    |s: SavedServer| s.id@ == id
}

/// The server predicate: its id is not `id`.
pub open spec fn lacks_server_id(id: Seq<char>) -> spec_fn(SavedServer) -> bool {
    |s: SavedServer| s.id@ != id
}

/// The error text of an unknown server id.
pub open spec fn server_not_found(id: Seq<char>) -> Seq<char> {
    "Сервер "@ + id + " не найден"@
}

/// Position of the first server with the id `server_id`, or `Сервер <id> не найден`.
pub fn find_server(servers: &Vec<SavedServer>, server_id: &str) -> (r: Result<usize, String>)
    ensures
        match first_index(servers@, has_server_id(server_id@)) {
            Some(i) => r == Ok::<usize, String>(i as usize) && i < servers@.len(),
            None => r matches Err(e) && e@ == server_not_found(server_id@),
        },
{
    let mut i: usize = 0;
    while i < servers.len()
        invariant
            i <= servers@.len(),
            forall|j: int| 0 <= j < i ==> !has_server_id(server_id@)(#[trigger] servers@[j]),
        decreases servers@.len() - i,
    {
        if str_eq(servers[i].id.as_str(), server_id) {
            proof { lemma_first_index_at(servers@, has_server_id(server_id@), i as int); }
            return Ok(i);
        }
        i = i + 1;
    }
    proof { lemma_first_index_none(servers@, has_server_id(server_id@)); }
    Err(concat3("Сервер ", server_id, " не найден"))
}

/// Record the address the beacon found for the server `server_id`
/// when the PC was found again by its beacon.
pub fn set_server_ip(servers: &mut Vec<SavedServer>, server_id: &str, ip: String) -> (r: Result<(), String>)
    ensures
        match first_index(old(servers)@, has_server_id(server_id@)) {
            Some(i) => r is Ok && final(servers)@ == old(servers)@.update(i, SavedServer { ip, ..old(servers)@[i] }),
            None => (r matches Err(e) && e@ == server_not_found(server_id@)) && final(servers)@ == old(servers)@,
        },
{
    let i = find_server(servers, server_id)?;
    let mut s = servers.remove(i);
    s.ip = ip;
    servers.insert(i, s);
    proof {
        assert(servers@ =~= old(servers)@.update(i as int, SavedServer { ip, ..old(servers)@[i as int] }));
    }
    Ok(())
}

/// Drop every server with the id `server_id`.
pub fn remove_server(servers: &mut Vec<SavedServer>, server_id: &str)
    ensures
        final(servers)@ == old(servers)@.filter(lacks_server_id(server_id@)),
{
    let ghost all = servers@;
    let mut rest: Vec<SavedServer> = Vec::new();
    std::mem::swap(servers, &mut rest);
    let mut kept: Vec<SavedServer> = Vec::new();
    let ghost mut done: int = 0;
    while rest.len() > 0
        invariant
            0 <= done <= all.len(),
            rest@ == all.subrange(done, all.len() as int),
            kept@ == all.subrange(0, done).filter(lacks_server_id(server_id@)),
        decreases rest@.len(),
    {
        let s = rest.remove(0);
        proof {
            assert(all.subrange(0, done + 1) == all.subrange(0, done).push(s));
            all.subrange(0, done).lemma_filter_push(s, lacks_server_id(server_id@));
        }
        if !str_eq(s.id.as_str(), server_id) {
            kept.push(s);
        }
        proof {
            done = done + 1;
            assert(rest@ == all.subrange(done, all.len() as int));
        }
    }
    proof { assert(all.subrange(0, all.len() as int) == all); }
    *servers = kept;
}

/// What the UI lists of each server, in order.
pub fn server_summaries(servers: &Vec<SavedServer>) -> (r: Vec<ServerSummary>)
    ensures
        r@.len() == servers@.len(),
        forall|i: int| 0 <= i < r@.len() ==> {
            &&& #[trigger] r@[i].id == servers@[i].id
            &&& r@[i].name == servers@[i].name
            &&& r@[i].ip == servers@[i].ip
            &&& r@[i].port == servers@[i].port
        },
{
    let mut r: Vec<ServerSummary> = Vec::new();
    let mut i: usize = 0;
    while i < servers.len()
        invariant
            i <= servers@.len(),
            r@.len() == i,
            forall|k: int| 0 <= k < i ==> {
                &&& #[trigger] r@[k].id == servers@[k].id
                &&& r@[k].name == servers@[k].name
                &&& r@[k].ip == servers@[k].ip
                &&& r@[k].port == servers@[k].port
            },
        decreases servers@.len() - i,
    {
        let s = &servers[i];
        r.push(ServerSummary { id: s.id.clone(), name: s.name.clone(), ip: s.ip.clone(), port: s.port });
        i = i + 1;
    }
    r
}

/// The temporary entry used to reach a PC while pairing with it (id `_pairing_`).
pub fn pairing_target(qr: &PairingQr, nickname: &str) -> (s: SavedServer)
    ensures
        s.id@ == "_pairing_"@,
        s.name@ == nickname@,
        s.ip == qr.ip,
        s.port == qr.port,
        s.server_public_key_b64 == qr.server_public_key,
{
    SavedServer {
        id: String::from_str("_pairing_"),
        name: nickname.to_owned(),
        ip: qr.ip.clone(),
        port: qr.port,
        server_public_key_b64: qr.server_public_key.clone(),
    }
}

/// The pairing request for a QR code: its token and the phone's name.
pub fn pair_request(qr: &PairingQr, name: String) -> (r: ClientRequest)
    ensures
        r == (ClientRequest::Pair { token: qr.pairing_token, name }),
{
    ClientRequest::Pair { token: qr.pairing_token.clone(), name }
}

/// Whether the PC accepted the pairing: the PC's error, or `Паринг не удался`.
pub fn pairing_outcome(response: &ServerResponse) -> (r: Result<(), String>)
    ensures
        response.ok ==> r is Ok,
        !response.ok ==> (r matches Err(e) && e@ == (match response.error {
            Some(m) => m@,
            None => "Паринг не удался"@,
        })),
{
    if response.ok {
        Ok(())
    } else {
        match &response.error {
            Some(m) => Err(m.clone()),
            None => Err(String::from_str("Паринг не удался")),
        }
    }
}

/// The entry stored for a PC once paired: a fresh id, the QR's address and key.
pub fn paired_server(qr: &PairingQr, nickname: String) -> (s: SavedServer)
    ensures
        is_uuid_v4_text(s.id@),
        s.name == nickname,
        s.ip == qr.ip,
        s.port == qr.port,
        s.server_public_key_b64 == qr.server_public_key,
{
    SavedServer {
        id: new_uuid_text(),
        name: nickname,
        ip: qr.ip.clone(),
        port: qr.port,
        server_public_key_b64: qr.server_public_key.clone(),
    }
}

/// The open session (kept for the PC `current`) serves the PC `server_id`.
pub fn session_serves(current: Option<&str>, server_id: &str) -> (r: bool)
    ensures
        r == (current matches Some(id) && id@ == server_id@),
{
    match current {
        Some(id) => str_eq(id, server_id),
        None => false,
    }
}

/// Whether a send goes over the kept session: only when the kept session
/// serves the PC `server_id` and no fresh connection is asked for; otherwise
/// the kept session is dropped and a new one opened.
pub fn reuse_session(current: Option<&str>, server_id: &str, fresh: bool) -> (r: bool)
    ensures
        r == (!fresh && (current matches Some(id) && id@ == server_id@)),
{
    !fresh && session_serves(current, server_id)
}

/// The Safe-mode request for a UI command name and optional params.
pub fn safe_request(command: &str, params: Option<SafeParams>) -> (r: Result<ClientRequest, String>)
    ensures
        match safe_command_named(command@) {
            Some(c) => r == Ok::<ClientRequest, String>((ClientRequest::Safe {
                command: c,
                params: (match params { Some(p) => p, None => (SafeParams { level: None }) }),
            })),
            None => r matches Err(m) && m@ == "Неизвестная команда: "@ + command@,
        },
{
    let cmd = parse_safe_command(command)?;
    let params = match params {
        Some(p) => p,
        None => SafeParams { level: None },
    };
    Ok(ClientRequest::Safe { command: cmd, params })
}

/// The shell request for a command and the optional shell name.
pub fn shell_request(cmd: String, shell: Option<&str>) -> (r: ClientRequest)
    ensures
        r == (ClientRequest::Shell {
            cmd,
            shell: (if shell matches Some(n) && n@ == "cmd"@ { ShellType::Cmd } else { ShellType::Powershell }),
        }),
{
    ClientRequest::Shell { cmd, shell: parse_shell_type(shell) }
}

/// Where reading a reply failed.
#[derive(PartialEq, Eq, Structural)]
pub enum ReplyFailure {
    /// The 4-byte length.
    Header,
    /// The body.
    Body,
    /// Its JSON.
    Parse,
}

/// The stand-in reply for a status query whose reply could not be read: the
/// mode query answers `default` when its header is lost; the Developer-status
/// query answers `default`, not Developer, wherever the reply is lost.
pub open spec fn stands_in(request: ClientRequest, failure: ReplyFailure, r: Option<ServerResponse>) -> bool {
    match request {
        ClientRequest::CheckDevStatus => r matches Some(resp) && resp.ok && resp.output is None && resp.error is None
            && (resp.data matches Some(ResponseData::DevStatus { mode, is_dev }) && mode@ == "default"@ && !is_dev),
        ClientRequest::GetMode => if failure == ReplyFailure::Header {
            r matches Some(resp) && resp.ok && resp.output is None && resp.error is None
                && (resp.data matches Some(ResponseData::Mode { mode }) && mode@ == "default"@)
        } else {
            r is None
        },
        _ => r is None,
    }
}

/// The stand-in reply when reading the reply to `request` failed.
pub fn fallback_reply(request: &ClientRequest, failure: ReplyFailure) -> (r: Option<ServerResponse>)
    ensures
        stands_in(*request, failure, r),
{
    match request {
        ClientRequest::CheckDevStatus => Some(ServerResponse::ok_data(ResponseData::DevStatus {
            mode: String::from_str("default"),
            is_dev: false,
        })),
        ClientRequest::GetMode => {
            if failure == ReplyFailure::Header {
                Some(ServerResponse::ok_data(ResponseData::Mode { mode: String::from_str("default") }))
            } else {
                None
            }
        },
        _ => None,
    }
}

/// The text put in front of the I/O or JSON error where reading a reply failed.
pub open spec fn failure_prefix(failure: ReplyFailure) -> Seq<char> {
    match failure {
        ReplyFailure::Header => "Ошибка чтения заголовка ответа: "@,
        ReplyFailure::Body => "Ошибка чтения тела ответа: "@,
        ReplyFailure::Parse => "Ошибка парсинга ответа: "@,
    }
}

/// The outcome of a request whose reply could not be read:
/// the stand-in reply where there is one, else the failure with its `detail`
/// (the I/O or JSON error's text) behind the step's prefix.
pub fn reply_failure(request: &ClientRequest, failure: ReplyFailure, detail: &str) -> (r: Result<ServerResponse, String>)
    ensures
        match r {
            Ok(resp) => stands_in(*request, failure, Some(resp)),
            Err(e) => stands_in(*request, failure, None) && e@ == failure_prefix(failure) + detail@,
        },
{
    let is_header = failure == ReplyFailure::Header;
    let is_body = failure == ReplyFailure::Body;
    match fallback_reply(request, failure) {
        Some(resp) => Ok(resp),
        None => {
            if is_header {
                Err(concat2("Ошибка чтения заголовка ответа: ", detail))
            } else if is_body {
                Err(concat2("Ошибка чтения тела ответа: ", detail))
            } else {
                Err(concat2("Ошибка парсинга ответа: ", detail))
            }
        },
    }
}

/// Accept the announced length of a reply, or refuse one above 65535 bytes.
pub fn check_reply_len(len: u32) -> (r: Result<usize, String>)
    ensures
        len <= FRAME_LIMIT ==> r == Ok::<usize, String>(len as usize),
        len > FRAME_LIMIT ==> (r matches Err(e) && e@ == "Слишком большой ответ: "@ + decimal(len as nat)),
{
    if (len as usize) > FRAME_LIMIT {
        Err(concat2("Слишком большой ответ: ", u64_decimal(len as u64).as_str()))
    } else {
        Ok(len as usize)
    }
}

/// Accept the announced length of the PC's handshake message, or refuse one
/// above 65535 bytes.
pub fn check_handshake_len(len: u32) -> (r: Result<usize, String>)
    ensures
        len <= FRAME_LIMIT ==> r == Ok::<usize, String>(len as usize),
        len > FRAME_LIMIT ==> (r matches Err(e) && e@ == "Слишком большой фрейм хендшейка"@),
{
    if (len as usize) > FRAME_LIMIT {
        Err(String::from_str("Слишком большой фрейм хендшейка"))
    } else {
        Ok(len as usize)
    }
}

/// Law (forgetting a PC): once the servers with an id are removed, looking that
/// id up fails.
pub proof fn law_removed_server_not_found(servers: Seq<SavedServer>, server_id: Seq<char>)
    ensures
        first_index(servers.filter(lacks_server_id(server_id)), has_server_id(server_id)) is None,
{
    let f = servers.filter(lacks_server_id(server_id));
    assert forall|j: int| 0 <= j < f.len() implies !has_server_id(server_id)(#[trigger] f[j]) by {
        servers.lemma_filter_pred(lacks_server_id(server_id), j);
    }
    lemma_first_index_none(f, has_server_id(server_id));
}


/// Where the request path of `send_with_fallback` stands.
#[derive(Clone, Copy, Debug, PartialEq, Eq, Structural)]
pub enum FallbackState {
    /// Nothing done yet.
    Start,
    /// Sent at the stored address; awaiting the reply.
    FirstTry,
    /// Listening for the PC's beacon.
    Discovering,
    /// Storing the address the beacon gave.
    Saving,
    /// Sent again over a fresh connection; awaiting the reply.
    Retrying,
    /// Finished.
    Done,
}

/// What the caller reports back.
pub enum FallbackEvent {
    /// The caller starts the request.
    Begin,
    /// The reply to a send, or the error that sending or reading gave.
    Replied(Result<ServerResponse, String>),
    /// The address the beacon came from, or the error listening gave.
    Discovered(Result<String, String>),
    /// Whether storing the new address worked.
    Saved(Result<(), String>),
}

/// What the caller does next.
pub enum FallbackAction {
    /// Send the request over the kept session (opening it if needed).
    Send,
    /// Listen for the beacon for this many seconds.
    Discover { timeout_secs: u64 },
    /// Store `ip` as the PC's address (see `set_server_ip`).
    RecordIp { ip: String },
    /// Drop the kept session and send over a fresh connection.
    SendFresh,
    /// Hand this to the UI; the request is over.
    Finish(Result<ReplyValue, String>),
    /// The event was not one the state awaits: nothing to do.
    Wait,
}

/// The step of the request path: try the stored address; if that fails, find
/// the PC by its beacon (15 s), store its new address and try once more over a
/// fresh connection. Any failure after the first try ends the request with
/// its error.
pub open spec fn fallback_next(state: FallbackState, event: FallbackEvent, next: FallbackState, action: FallbackAction) -> bool {
    match (state, event) {
        (FallbackState::Start, FallbackEvent::Begin) => next == FallbackState::FirstTry && action is Send,
        (FallbackState::FirstTry, FallbackEvent::Replied(Ok(resp))) => next == FallbackState::Done
            && (action matches FallbackAction::Finish(v) && reply_of(resp, v)),
        (FallbackState::FirstTry, FallbackEvent::Replied(Err(_))) => next == FallbackState::Discovering
            && action == (FallbackAction::Discover { timeout_secs: 15 }),
        (FallbackState::Discovering, FallbackEvent::Discovered(Ok(ip))) => next == FallbackState::Saving
            && action == (FallbackAction::RecordIp { ip }),
        (FallbackState::Discovering, FallbackEvent::Discovered(Err(e))) => next == FallbackState::Done
            && action == FallbackAction::Finish(Err(e)),
        (FallbackState::Saving, FallbackEvent::Saved(Ok(_))) => next == FallbackState::Retrying && action is SendFresh,
        (FallbackState::Saving, FallbackEvent::Saved(Err(e))) => next == FallbackState::Done
            && action == FallbackAction::Finish(Err(e)),
        (FallbackState::Retrying, FallbackEvent::Replied(Ok(resp))) => next == FallbackState::Done
            && (action matches FallbackAction::Finish(v) && reply_of(resp, v)),
        (FallbackState::Retrying, FallbackEvent::Replied(Err(e))) => next == FallbackState::Done
            && action == FallbackAction::Finish(Err(e)),
        _ => next == state && action is Wait,
    }
}

/// One step of the request path.
pub fn fallback_step(state: FallbackState, event: FallbackEvent) -> (r: (FallbackState, FallbackAction))
    ensures
        fallback_next(state, event, r.0, r.1),
{
    match (state, event) {
        (FallbackState::Start, FallbackEvent::Begin) => (FallbackState::FirstTry, FallbackAction::Send),
        (FallbackState::FirstTry, FallbackEvent::Replied(Ok(resp))) => (FallbackState::Done, FallbackAction::Finish(response_to_value(resp))),
        (FallbackState::FirstTry, FallbackEvent::Replied(Err(_))) => (FallbackState::Discovering, FallbackAction::Discover { timeout_secs: 15 }),
        (FallbackState::Discovering, FallbackEvent::Discovered(Ok(ip))) => (FallbackState::Saving, FallbackAction::RecordIp { ip }),
        (FallbackState::Discovering, FallbackEvent::Discovered(Err(e))) => (FallbackState::Done, FallbackAction::Finish(Err(e))),
        (FallbackState::Saving, FallbackEvent::Saved(Ok(_))) => (FallbackState::Retrying, FallbackAction::SendFresh),
        (FallbackState::Saving, FallbackEvent::Saved(Err(e))) => (FallbackState::Done, FallbackAction::Finish(Err(e))),
        (FallbackState::Retrying, FallbackEvent::Replied(Ok(resp))) => (FallbackState::Done, FallbackAction::Finish(response_to_value(resp))),
        (FallbackState::Retrying, FallbackEvent::Replied(Err(e))) => (FallbackState::Done, FallbackAction::Finish(Err(e))),
        (other, _) => (other, FallbackAction::Wait),
    }
}

/// Law (one retry): once finished, the request path does nothing more, and a
/// failed retry ends it with that failure rather than looking again.
pub proof fn law_fallback_retries_once(event: FallbackEvent, e: String, next: FallbackState, action: FallbackAction)
    ensures
        fallback_next(FallbackState::Done, event, next, action) ==> next == FallbackState::Done && action is Wait,
        fallback_next(FallbackState::Retrying, FallbackEvent::Replied(Err(e)), next, action)
            ==> next == FallbackState::Done && action == FallbackAction::Finish(Err(e)),
{
}


/// Law (a reply at the stored address ends the request): when the first try is
/// answered, the request is over and the UI gets what the phone makes of that
/// answer (its data, its text, or its error); only a failed first try leads to
/// looking for the beacon, so a command is never sent twice after an answer.
pub proof fn law_answered_request_ends(
    state: FallbackState,
    event: FallbackEvent,
    next: FallbackState,
    action: FallbackAction,
)
    requires
        fallback_next(state, event, next, action),
    ensures
        state == FallbackState::FirstTry && (event matches FallbackEvent::Replied(Ok(resp)))
            ==> next == FallbackState::Done && (action matches FallbackAction::Finish(v) && (match event {
                FallbackEvent::Replied(Ok(resp)) => (resp.ok ==> v is Ok) && (!resp.ok ==> v is Err)
                    && (resp.ok && resp.data is Some ==> v == Ok::<ReplyValue, String>(ReplyValue::Data(resp.data->Some_0)))
                    && (resp.ok && resp.data is None && resp.output is Some ==> (v matches Ok(ReplyValue::Text(t)) && t@ == resp.output->Some_0@))
                    && (!resp.ok && resp.error is Some ==> (v matches Err(e) && e@ == resp.error->Some_0@)),
                _ => true,
            })),
        action is Discover ==> state == FallbackState::FirstTry && (event matches FallbackEvent::Replied(Err(_))),
        action is SendFresh ==> state == FallbackState::Saving && (event matches FallbackEvent::Saved(Ok(_))),
{
}

} // verus!
