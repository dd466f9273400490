//! Decisions of the desktop server (`AetherLink`): pairing, recognising devices
//! and routing their requests. The connection, the Noise handshake on the wire,
//! disk writes and process launches are performed by the caller, which hands
//! each outcome back.

use vstd::prelude::*;
use crate::auth::{DeviceMode, DeviceRegistry, ServerKeys, TrustedDevice};
use crate::automation::Profile;
use crate::b64::b64_encode;
use crate::pairing::{accepts, PairingQr, PairingSession, PAIRING_TTL_MS};
use crate::protocol::{ClientRequest, ResponseData, SafeCommand, SafeParams, ServerResponse, ShellType, is_refusal};
use crate::registry;
use crate::registry::{key_index, has_key, law_lookup_after_add, unique_keys};
use crate::search::{first_index, lemma_first_index_exists};
use crate::text::concat2;

verus! {

/// TCP port of the server.
pub const PORT: u16 = 8080;

/// What the server keeps between requests.
pub struct ServerState {
    /// The server's permanent Noise key pair.
    pub server_keys: ServerKeys,
    /// The trusted phones.
    pub registry: DeviceRegistry,
    /// The open pairing window, while a QR code is shown.
    pub pairing: Option<PairingSession>,
    /// The global Developer-mode switch: without it no device may run shell commands.
    pub developer_mode_enabled: bool,
}

/// What the caller does next for a request.
pub enum Action {
    /// Send this response.
    Respond(ServerResponse),
    /// Pairing accepted: store the registry, then call `finish_pairing` with the outcome.
    SaveNewDevice(TrustedDevice),
    /// Run a Safe-mode command (see `safe::execute`).
    RunSafe { command: SafeCommand, params: SafeParams },
    /// Start a profile (see `automation::run`).
    RunProfile { profile_id: String },
    /// Answer with the stored profiles (see `profiles_response`).
    ListProfiles,
    /// Run a shell command (see `shell::execute`).
    RunShell { cmd: String, shell: ShellType },
}

/// Refusal for a device that is not in the registry.
pub open spec fn not_paired_message() -> Seq<char> {
    "Устройство не привязано. Сначала выполните паринг."@
}

/// Refusal for a missing, wrong or expired pairing token.
pub open spec fn bad_token_message() -> Seq<char> {
    "Токен паринга недействителен или истёк."@
}

/// Refusal for a device that is already paired.
pub open spec fn already_paired_message() -> Seq<char> {
    "Устройство уже привязано."@
}

/// Refusal of a profile request from a device in Safe mode.
pub open spec fn profiles_need_automation_message() -> Seq<char> {
    "Для профилей нужен режим Automation."@
}

/// Refusal of a shell command without Developer rights.
pub open spec fn shell_needs_developer_message() -> Seq<char> {
    "Для Shell нужен режим Developer."@
}

/// How a pairing attempt is judged.
#[derive(PartialEq, Eq, Structural)]
pub enum PairVerdict {
    BadToken,
    AlreadyPaired,
    Accept,
}

/// The verdict on a pairing attempt: the token must be the open window's and
/// unexpired, and the key must not be registered yet.
pub open spec fn pair_verdict<M>(
    pairing: Option<PairingSession>,
    devices: Seq<registry::TrustedDevice<M>>,
    pubkey: Seq<u8>,
    token: Seq<char>,
    now: u64,
) -> PairVerdict {
    if !(pairing matches Some(p) && accepts(p, token, now)) {
        PairVerdict::BadToken
    } else if key_index(devices, pubkey) is Some {
        PairVerdict::AlreadyPaired
    } else {
        PairVerdict::Accept
    }
}

/// The action for a request from a recognised device in mode `mode`.
pub open spec fn routed(request: ClientRequest, mode: DeviceMode, developer_enabled: bool, a: Action) -> bool {
    match request {
        ClientRequest::Safe { command, params } => a == Action::RunSafe { command, params },
        ClientRequest::RunProfile { profile_id } => if mode == DeviceMode::Safe {
            a matches Action::Respond(r) && is_refusal(r, profiles_need_automation_message())
        } else {
            a == Action::RunProfile { profile_id }
        },
        ClientRequest::ListProfiles => if mode == DeviceMode::Safe {
            a matches Action::Respond(r) && is_refusal(r, profiles_need_automation_message())
        } else {
            a == Action::ListProfiles
        },
        ClientRequest::Shell { cmd, shell } => if mode == DeviceMode::Developer && developer_enabled {
            a == Action::RunShell { cmd, shell }
        } else {
            a matches Action::Respond(r) && is_refusal(r, shell_needs_developer_message())
        },
        ClientRequest::Pair { .. } => a matches Action::Respond(r) && is_refusal(r, already_paired_message()),
        _ => false,
    }
}

/// Route a request of a recognised device.
pub fn route(request: ClientRequest, device: &TrustedDevice, developer_enabled: bool) -> (a: Action)
    requires
        request.in_first_version(),
    ensures
        routed(request, device.mode, developer_enabled, a),
{
    match request {
        ClientRequest::Safe { command, params } => Action::RunSafe { command, params },
        ClientRequest::RunProfile { profile_id } => {
            if device.mode == DeviceMode::Safe {
                Action::Respond(ServerResponse::err(String::from_str("Для профилей нужен режим Automation.")))
            } else {
                Action::RunProfile { profile_id }
            }
        },
        ClientRequest::ListProfiles => {
            if device.mode == DeviceMode::Safe {
                Action::Respond(ServerResponse::err(String::from_str("Для профилей нужен режим Automation.")))
            } else {
                Action::ListProfiles
            }
        },
        ClientRequest::Shell { cmd, shell } => {
            if device.mode == DeviceMode::Developer && developer_enabled {
                Action::RunShell { cmd, shell }
            } else {
                Action::Respond(ServerResponse::err(String::from_str("Для Shell нужен режим Developer.")))
            }
        },
        _ => Action::Respond(ServerResponse::err(String::from_str("Устройство уже привязано."))),
    }
}

/// The answer to `ListProfiles` once the profiles were read: the profiles, or
/// the reading error.
pub fn profiles_response(loaded: Result<Vec<Profile>, String>) -> (r: ServerResponse)
    ensures
        match loaded {
            Ok(p) => r.ok && r.data == Some(ResponseData::Profiles(p)) && r.output is None && r.error is None,
            Err(e) => is_refusal(r, e@),
        },
{
    match loaded {
        Ok(p) => ServerResponse::ok_data(ResponseData::Profiles(p)),
        Err(e) => ServerResponse::err(e),
    }
}

impl ServerState {
    /// The state at start-up: no pairing window open, and the global Developer
    /// switch off until it is turned on.
    pub fn new(server_keys: ServerKeys, registry: DeviceRegistry) -> (s: Self)
        ensures
            s.server_keys == server_keys,
            s.registry == registry,
            s.pairing is None,
            !s.developer_mode_enabled,
    {
        ServerState { server_keys, registry, pairing: None, developer_mode_enabled: false }
    }

    /// Open a pairing window for `token` at `now_ms` and describe the QR code.
    pub fn start_pairing(&mut self, token: String, ip: String, now_ms: u64) -> (qr: PairingQr)
        requires
            now_ms + PAIRING_TTL_MS <= u64::MAX,
        ensures
            final(self).pairing == Some(PairingSession { token: qr.pairing_token, expires_at_ms: (now_ms + PAIRING_TTL_MS) as u64 }),
            qr.pairing_token == token,
            qr.ip == ip,
            qr.port == PORT,
            qr.server_public_key == old(self).server_keys.public_key_b64,
            final(self).registry == old(self).registry,
            final(self).server_keys == old(self).server_keys,
            final(self).developer_mode_enabled == old(self).developer_mode_enabled,
    {
        let qr_token = token.clone();
        self.pairing = Some(PairingSession::new(token, now_ms));
        PairingQr {
            ip,
            port: PORT,
            server_public_key: self.server_keys.public_key_b64.clone(),
            pairing_token: qr_token,
        }
    }

    /// Judge a pairing attempt by the phone with `remote_pubkey`; on acceptance
    /// the phone is added to the registry in Automation mode.
    pub fn pair(&mut self, remote_pubkey: &[u8], token: &str, name: &str, now_ms: u64) -> (a: Action)
        requires
            remote_pubkey@.len() <= usize::MAX / 2,
        ensures
            unique_keys(old(self).registry.devices@) ==> unique_keys(final(self).registry.devices@),
            final(self).pairing == old(self).pairing,
            final(self).server_keys == old(self).server_keys,
            final(self).developer_mode_enabled == old(self).developer_mode_enabled,
            match pair_verdict(old(self).pairing, old(self).registry.devices@, remote_pubkey@, token@, now_ms) {
                PairVerdict::BadToken => (a matches Action::Respond(r) && is_refusal(r, bad_token_message()))
                    && final(self).registry == old(self).registry,
                PairVerdict::AlreadyPaired => (a matches Action::Respond(r) && is_refusal(r, already_paired_message()))
                    && final(self).registry == old(self).registry,
                PairVerdict::Accept => a matches Action::SaveNewDevice(d) && d.name@ == name@
                    && d.public_key_b64@ == b64_encode(remote_pubkey@) && d.mode == DeviceMode::Automation
                    && final(self).registry.devices@ == old(self).registry.devices@.push(d),
            },
    {
        let valid = match &self.pairing {
            Some(p) => p.is_valid(token, now_ms),
            None => false,
        };
        if !valid {
            return Action::Respond(ServerResponse::err(String::from_str("Токен паринга недействителен или истёк.")));
        }
        if self.registry.find_by_pubkey(remote_pubkey).is_some() {
            return Action::Respond(ServerResponse::err(String::from_str("Устройство уже привязано.")));
        }
        let ghost before = self.registry.devices@;
        let device = self.registry.add(name.to_owned(), remote_pubkey);
        proof {
            if unique_keys(before) {
                law_accepted_pairing_recognised(old(self).pairing, before, remote_pubkey@, token@, now_ms, device);
            }
        }
        Action::SaveNewDevice(device)
    }

    /// Close an accepted pairing once the registry was stored (or not): on
    /// success the token is spent and the phone is told its id; on failure the
    /// window stays open and the error is reported.
    pub fn finish_pairing(&mut self, device: &TrustedDevice, saved: Result<(), String>) -> (r: ServerResponse)
        ensures
            final(self).registry == old(self).registry,
            final(self).server_keys == old(self).server_keys,
            final(self).developer_mode_enabled == old(self).developer_mode_enabled,
            match saved {
                Ok(_) => final(self).pairing is None && r.ok && r.output is None && r.error is None
                    && (r.data matches Some(ResponseData::Paired { device_id, name, mode })
                    && device_id == device.id && name == device.name && mode@ == "default"@),
                Err(e) => final(self).pairing == old(self).pairing
                    && is_refusal(r, "Ошибка сохранения реестра: "@ + e@),
            },
    {
        match saved {
            Err(e) => ServerResponse::err(concat2("Ошибка сохранения реестра: ", e.as_str())),
            Ok(_) => {
                self.pairing = None;
                ServerResponse::ok_data(ResponseData::Paired {
                    device_id: device.id.clone(),
                    name: device.name.clone(),
                    mode: String::from_str("default"),
                })
            },
        }
    }

    /// Decide what to do with a request from the phone with `remote_pubkey`:
    /// pairing is always considered; anything else only for a trusted device.
    pub fn dispatch(&mut self, request: ClientRequest, remote_pubkey: &[u8], now_ms: u64) -> (a: Action)
        requires
            request.in_first_version(),
            remote_pubkey@.len() <= usize::MAX / 2,
        ensures
            unique_keys(old(self).registry.devices@) ==> unique_keys(final(self).registry.devices@),
            final(self).pairing == old(self).pairing,
            final(self).server_keys == old(self).server_keys,
            final(self).developer_mode_enabled == old(self).developer_mode_enabled,
            match request {
                ClientRequest::Pair { token, name } => match pair_verdict(old(self).pairing, old(self).registry.devices@, remote_pubkey@, token@, now_ms) {
                    PairVerdict::BadToken => (a matches Action::Respond(r) && is_refusal(r, bad_token_message()))
                        && final(self).registry == old(self).registry,
                    PairVerdict::AlreadyPaired => (a matches Action::Respond(r) && is_refusal(r, already_paired_message()))
                        && final(self).registry == old(self).registry,
                    PairVerdict::Accept => a matches Action::SaveNewDevice(d) && d.name@ == name@
                        && d.public_key_b64@ == b64_encode(remote_pubkey@) && d.mode == DeviceMode::Automation
                        && final(self).registry.devices@ == old(self).registry.devices@.push(d),
                },
                _ => final(self).registry == old(self).registry && match key_index(old(self).registry.devices@, remote_pubkey@) {
                    None => a matches Action::Respond(r) && is_refusal(r, not_paired_message()),
                    Some(i) => routed(request, old(self).registry.devices@[i].mode, old(self).developer_mode_enabled, a),
                },
            },
    {
        match request {
            ClientRequest::Pair { token, name } => self.pair(remote_pubkey, token.as_str(), name.as_str(), now_ms),
            other => {
                match self.registry.find_by_pubkey(remote_pubkey) {
                    None => Action::Respond(ServerResponse::err(String::from_str("Устройство не привязано. Сначала выполните паринг."))),
                    Some(d) => route(other, d, self.developer_mode_enabled),
                }
            },
        }
    }

    /// The global Developer-mode switch.
    pub fn set_developer_mode(&mut self, enabled: bool)
        ensures
            final(self).developer_mode_enabled == enabled,
            final(self).registry == old(self).registry,
            final(self).pairing == old(self).pairing,
            final(self).server_keys == old(self).server_keys,
    {
        self.developer_mode_enabled = enabled;
    }
}

/// Law (one-time token): with no pairing window open, as after a completed
/// pairing, every pairing attempt is refused for its token.
pub proof fn law_pairing_needs_open_window<M>(devices: Seq<registry::TrustedDevice<M>>, pubkey: Seq<u8>, token: Seq<char>, now: u64)
    ensures
        pair_verdict(None, devices, pubkey, token, now) == PairVerdict::BadToken,
{
}

/// Law (no shell without Developer rights): a shell command from a device that
/// is not in Developer mode, or while the global switch is off, is refused.
pub proof fn law_shell_needs_developer(cmd: String, shell: ShellType, mode: DeviceMode, enabled: bool, a: Action)
    requires
        routed(ClientRequest::Shell { cmd, shell }, mode, enabled, a),
        mode != DeviceMode::Developer || !enabled,
    ensures
        a matches Action::Respond(r) && is_refusal(r, shell_needs_developer_message()),
{
}

/// Law (Safe devices run only system commands): a device in Safe mode is
/// refused every profile request and every shell command.
pub proof fn law_safe_devices_run_no_profiles(request: ClientRequest, enabled: bool, a: Action)
    requires
        routed(request, DeviceMode::Safe, enabled, a),
        request is RunProfile || request is ListProfiles || request is Shell,
    ensures
        a matches Action::Respond(r) && !r.ok,
        !(a is RunProfile) && !(a is ListProfiles) && !(a is RunShell),
{
}

/// Law (paired phones are recognised): after an accepted pairing the registry
/// finds the new device by the phone's key, and keys stay unique.
pub proof fn law_accepted_pairing_recognised<M>(
    pairing: Option<PairingSession>,
    devices: Seq<registry::TrustedDevice<M>>,
    pubkey: Seq<u8>,
    token: Seq<char>,
    now: u64,
    d: registry::TrustedDevice<M>,
)
    requires
        pair_verdict(pairing, devices, pubkey, token, now) == PairVerdict::Accept,
        d.public_key_b64@ == b64_encode(pubkey),
        unique_keys(devices),
    ensures
        key_index(devices.push(d), pubkey) == Some(devices.len() as int),
        unique_keys(devices.push(d)),
{
    let k = b64_encode(pubkey);
    law_lookup_after_add(devices, d, k);
    assert forall|j: int| 0 <= j < devices.len() implies #[trigger] devices[j].public_key_b64@ != k by {
        if devices[j].public_key_b64@ == k {
            lemma_first_index_exists(devices, has_key::<M>(k), j);
        }
    }
    let s = devices.push(d);
    assert forall|i: int, j: int| 0 <= i < s.len() && 0 <= j < s.len() && i != j
        implies #[trigger] s[i].public_key_b64@ != #[trigger] s[j].public_key_b64@ by {
        if i < devices.len() && j < devices.len() {
            assert(s[i] == devices[i] && s[j] == devices[j]);
        } else if i < devices.len() {
            assert(s[i] == devices[i]);
        } else {
            assert(s[j] == devices[j]);
        }
    }
}


/// Law (profiles for every mode above Safe): an Automation or Developer device,
/// whatever the global switch, has its profile requests carried out: running
/// a profile starts exactly the profile it names, and listing lists.
pub proof fn law_profiles_for_all_but_safe(request: ClientRequest, mode: DeviceMode, enabled: bool, a: Action)
    requires
        routed(request, mode, enabled, a),
        mode != DeviceMode::Safe,
    ensures
        request matches ClientRequest::RunProfile { profile_id } ==> a == (Action::RunProfile { profile_id }),
        request is ListProfiles ==> a is ListProfiles,
{
}


/// Law (Safe commands for every device): every trusted device, in any mode and
/// whatever the global switch, has its Safe-mode command run with exactly the
/// command and parameters it sent.
pub proof fn law_safe_commands_for_every_mode(command: SafeCommand, params: SafeParams, mode: DeviceMode, enabled: bool, a: Action)
    requires
        routed(ClientRequest::Safe { command, params }, mode, enabled, a),
    ensures
        a == (Action::RunSafe { command, params }),
{
}

} // verus!
