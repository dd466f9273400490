//! Decisions of the PC server (`aetherlink-pc`): pairing, recognising devices
//! and routing the second protocol version, which lets Developer-mode phones
//! manage automation profiles. Disk, network and processes stay with the caller.

use vstd::prelude::*;
use crate::automation::{lacks_profile_id, remove_profile, Profile, ProfileKind};
use crate::crypto::CryptoKeyPair;
use crate::b64::b64_encode;
use crate::outside::is_uuid_v4_text;
use crate::pairing::{PairingQr, PairingSession, PAIRING_TTL_MS};
use crate::pc_auth::{mode_name, mode_text, DeviceMode, DeviceRegistry, TrustedDevice};
use crate::protocol::{ClientRequest, ResponseData, SafeCommand, SafeParams, ServerResponse, ShellType, is_refusal};
use crate::registry::{key_index, unique_keys};
use crate::server::{already_paired_message, bad_token_message, law_accepted_pairing_recognised, not_paired_message, pair_verdict, shell_needs_developer_message, PairVerdict, PORT};
use crate::text::concat2;

verus! {

/// What the PC server keeps between requests.
pub struct PcServerState {
    pub server_keys: CryptoKeyPair,
    pub registry: DeviceRegistry,
    pub pairing: Option<PairingSession>,
}

/// A change to the stored profiles, applied once they are read.
pub enum ProfileEdit {
    /// Create a profile and answer with its id.
    Create { name: String, description: Option<String>, kind: ProfileKind },
    /// Add a profile and answer with plain success.
    Add { name: String, description: Option<String>, kind: ProfileKind },
    /// Delete the profiles with this id.
    Delete { profile_id: String },
}

/// What the caller does next for a request.
pub enum PcAction {
    /// Send this response.
    Respond(ServerResponse),
    /// Pairing accepted: store the registry, then call `finish_pairing`.
    SaveNewDevice(TrustedDevice),
    /// Run a Safe-mode command.
    RunSafe { command: SafeCommand, params: SafeParams },
    /// Start a profile.
    RunProfile { profile_id: String },
    /// Answer with the stored profiles (see `server::profiles_response`).
    ListProfiles,
    /// Run a shell command.
    RunShell { cmd: String, shell: ShellType },
    /// Read the profiles, then call `apply_edit`.
    EditProfiles(ProfileEdit),
}

/// What to store and how to answer once the store is written.
pub enum EditStep {
    /// The profiles could not be read: send this response.
    Respond(ServerResponse),
    /// Store these profiles, then call `saved_response` with `reply`.
    Save { profiles: Vec<Profile>, reply: SavedReply },
}

/// The answer owed after a successful store.
pub enum SavedReply {
    /// `{ "id" }` of the created profile.
    Created { id: String },
    /// Plain success.
    Done,
}

/// Refusal text of each Developer-only request.
pub open spec fn developer_only_message(request: ClientRequest) -> Seq<char> {
    match request {
        ClientRequest::Shell { .. } => shell_needs_developer_message(),
        ClientRequest::CreateProfile { .. } => "Для создания профилей нужен режим Developer."@,
        ClientRequest::GetDevProfiles => "Для редактирования профилей нужен режим Developer."@,
        ClientRequest::DeleteProfile { .. } => "Для удаления профилей нужен режим Developer."@,
        _ => "Для добавления команд нужен режим Developer."@,
    }
}

/// The request needs Developer mode.
pub open spec fn developer_only(request: ClientRequest) -> bool {
    ||| request is Shell
    ||| request is CreateProfile
    ||| request is GetDevProfiles
    ||| request is DeleteProfile
    ||| request is AddProfile
}

/// The action for a request from a recognised device in mode `mode`.
pub open spec fn pc_routed(request: ClientRequest, mode: DeviceMode, a: PcAction) -> bool {
    if developer_only(request) && mode != DeviceMode::Developer {
        a matches PcAction::Respond(r) && is_refusal(r, developer_only_message(request))
    } else {
        match request {
            ClientRequest::Safe { command, params } => a == PcAction::RunSafe { command, params },
            ClientRequest::RunProfile { profile_id } => a == PcAction::RunProfile { profile_id },
            ClientRequest::ListProfiles => a == PcAction::ListProfiles,
            ClientRequest::Shell { cmd, shell } => a == PcAction::RunShell { cmd, shell },
            ClientRequest::GetMode => a matches PcAction::Respond(r) && r.ok && r.output is None && r.error is None
                && (r.data matches Some(ResponseData::Mode { mode: m }) && m@ == mode_name(mode)),
            ClientRequest::CheckDevStatus => a matches PcAction::Respond(r) && r.ok && r.output is None && r.error is None
                && (r.data matches Some(ResponseData::DevStatus { mode: m, is_dev })
                && m@ == mode_name(mode) && is_dev == (mode == DeviceMode::Developer)),
            ClientRequest::CreateProfile { name, description, commands } =>
                a == PcAction::EditProfiles(ProfileEdit::Create { name, description, kind: commands }),
            ClientRequest::GetDevProfiles => a == PcAction::ListProfiles,
            ClientRequest::DeleteProfile { profile_id } => a == PcAction::EditProfiles(ProfileEdit::Delete { profile_id }),
            ClientRequest::AddProfile { name, description, kind } => match kind {
                Ok(k) => a == PcAction::EditProfiles(ProfileEdit::Add { name, description, kind: k }),
                Err(e) => a matches PcAction::Respond(r) && is_refusal(r, "Неверный формат команды: "@ + e@),
            },
            ClientRequest::Pair { .. } => a matches PcAction::Respond(r) && is_refusal(r, already_paired_message()),
        }
    }
}

/// Route a request of a recognised device.
pub fn route(request: ClientRequest, device: &TrustedDevice) -> (a: PcAction)
    ensures
        pc_routed(request, device.mode, a),
{
    let developer = device.mode == DeviceMode::Developer;
    match request {
        ClientRequest::Safe { command, params } => PcAction::RunSafe { command, params },
        ClientRequest::RunProfile { profile_id } => PcAction::RunProfile { profile_id },
        ClientRequest::ListProfiles => PcAction::ListProfiles,
        ClientRequest::Shell { cmd, shell } => {
            if !developer {
                return PcAction::Respond(ServerResponse::err(String::from_str("Для Shell нужен режим Developer.")));
            }
            PcAction::RunShell { cmd, shell }
        },
        ClientRequest::GetMode => PcAction::Respond(ServerResponse::ok_data(ResponseData::Mode { mode: mode_text(device.mode) })),
        ClientRequest::CheckDevStatus => PcAction::Respond(ServerResponse::ok_data(ResponseData::DevStatus {
            mode: mode_text(device.mode),
            is_dev: developer,
        })),
        ClientRequest::CreateProfile { name, description, commands } => {
            if !developer {
                return PcAction::Respond(ServerResponse::err(String::from_str("Для создания профилей нужен режим Developer.")));
            }
            PcAction::EditProfiles(ProfileEdit::Create { name, description, kind: commands })
        },
        ClientRequest::GetDevProfiles => {
            if !developer {
                return PcAction::Respond(ServerResponse::err(String::from_str("Для редактирования профилей нужен режим Developer.")));
            }
            PcAction::ListProfiles
        },
        ClientRequest::DeleteProfile { profile_id } => {
            if !developer {
                return PcAction::Respond(ServerResponse::err(String::from_str("Для удаления профилей нужен режим Developer.")));
            }
            PcAction::EditProfiles(ProfileEdit::Delete { profile_id })
        },
        ClientRequest::AddProfile { name, description, kind } => {
            if !developer {
                return PcAction::Respond(ServerResponse::err(String::from_str("Для добавления команд нужен режим Developer.")));
            }
            match kind {
                Ok(k) => PcAction::EditProfiles(ProfileEdit::Add { name, description, kind: k }),
                Err(e) => PcAction::Respond(ServerResponse::err(concat2("Неверный формат команды: ", e.as_str()))),
            }
        },
        ClientRequest::Pair { .. } => PcAction::Respond(ServerResponse::err(String::from_str("Устройство уже привязано."))),
    }
}

/// Apply a profile change to the profiles as read from the store.
pub fn apply_edit(edit: ProfileEdit, loaded: Result<Vec<Profile>, String>) -> (s: EditStep)
    ensures
        match loaded {
            Err(e) => s matches EditStep::Respond(r) && is_refusal(r, e@),
            Ok(old_profiles) => match edit {
                ProfileEdit::Create { name, description, kind } => s matches EditStep::Save { profiles, reply }
                    && profiles@.len() == old_profiles@.len() + 1
                    && profiles@.drop_last() == old_profiles@
                    && profiles@.last().name == name && profiles@.last().description == description
                    && profiles@.last().kind == kind && is_uuid_v4_text(profiles@.last().id@)
                    && reply == SavedReply::Created { id: profiles@.last().id },
                ProfileEdit::Add { name, description, kind } => s matches EditStep::Save { profiles, reply }
                    && profiles@.len() == old_profiles@.len() + 1
                    && profiles@.drop_last() == old_profiles@
                    && profiles@.last().name == name && profiles@.last().description == description
                    && profiles@.last().kind == kind && is_uuid_v4_text(profiles@.last().id@)
                    && reply == SavedReply::Done,
                ProfileEdit::Delete { profile_id } => s matches EditStep::Save { profiles, reply }
                    && profiles@ == old_profiles@.filter(lacks_profile_id(profile_id@))
                    && reply == SavedReply::Done,
            },
        },
{
    match loaded {
        Err(e) => EditStep::Respond(ServerResponse::err(e)),
        Ok(mut profiles) => {
            let ghost before = profiles@;
            match edit {
                ProfileEdit::Create { name, description, kind } => {
                    let p = Profile::new(name, description, kind);
                    let id = p.id.clone();
                    profiles.push(p);
                    proof { assert(profiles@.drop_last() == before); }
                    EditStep::Save { profiles, reply: SavedReply::Created { id } }
                },
                ProfileEdit::Add { name, description, kind } => {
                    let p = Profile::new(name, description, kind);
                    profiles.push(p);
                    proof { assert(profiles@.drop_last() == before); }
                    EditStep::Save { profiles, reply: SavedReply::Done }
                },
                ProfileEdit::Delete { profile_id } => {
                    remove_profile(&mut profiles, profile_id.as_str());
                    EditStep::Save { profiles, reply: SavedReply::Done }
                },
            }
        },
    }
}

/// The answer once the edited profiles were stored (or not).
pub fn saved_response(reply: SavedReply, saved: Result<(), String>) -> (r: ServerResponse)
    ensures
        match saved {
            Err(e) => is_refusal(r, "Ошибка сохранения: "@ + e@),
            Ok(_) => r.ok && r.output is None && r.error is None && match reply {
                SavedReply::Created { id } => r.data == Some(ResponseData::ProfileCreated { id }),
                SavedReply::Done => r.data is None,
            },
        },
{
    match saved {
        Err(e) => ServerResponse::err(concat2("Ошибка сохранения: ", e.as_str())),
        Ok(_) => match reply {
            SavedReply::Created { id } => ServerResponse::ok_data(ResponseData::ProfileCreated { id }),
            SavedReply::Done => ServerResponse::ok(),
        },
    }
}

impl PcServerState {
    /// The state at start-up: no pairing window open.
    pub fn new(server_keys: CryptoKeyPair, registry: DeviceRegistry) -> (s: Self)
        ensures
            s.server_keys == server_keys,
            s.registry == registry,
            s.pairing is None,
    {
        PcServerState { server_keys, registry, pairing: None }
    }

    /// Open a pairing window for `token` at `now_ms` and describe the QR code.
    pub fn start_pairing(&mut self, token: String, ip: String, now_ms: u64) -> (qr: PairingQr)
        requires
            now_ms + PAIRING_TTL_MS <= u64::MAX,
        ensures
            final(self).pairing == Some(PairingSession { token: qr.pairing_token, expires_at_ms: (now_ms + PAIRING_TTL_MS) as u64 }),
            qr.pairing_token == token,
            qr.ip == ip,
            qr.port == PORT,
            qr.server_public_key == old(self).server_keys.public_key_b64,
            final(self).registry == old(self).registry,
            final(self).server_keys == old(self).server_keys,
    {
        let qr_token = token.clone();
        self.pairing = Some(PairingSession::new(token, now_ms));
        PairingQr {
            ip,
            port: PORT,
            server_public_key: self.server_keys.public_key_b64.clone(),
            pairing_token: qr_token,
        }
    }

    /// Judge a pairing attempt; on acceptance the phone is added in Default mode.
    pub fn pair(&mut self, remote_pubkey: &[u8], token: &str, name: &str, now_ms: u64) -> (a: PcAction)
        requires
            remote_pubkey@.len() <= usize::MAX / 2,
        ensures
            unique_keys(old(self).registry.devices@) ==> unique_keys(final(self).registry.devices@),
            final(self).pairing == old(self).pairing,
            final(self).server_keys == old(self).server_keys,
            match pair_verdict(old(self).pairing, old(self).registry.devices@, remote_pubkey@, token@, now_ms) {
                PairVerdict::BadToken => (a matches PcAction::Respond(r) && is_refusal(r, bad_token_message()))
                    && final(self).registry == old(self).registry,
                PairVerdict::AlreadyPaired => (a matches PcAction::Respond(r) && is_refusal(r, already_paired_message()))
                    && final(self).registry == old(self).registry,
                PairVerdict::Accept => a matches PcAction::SaveNewDevice(d) && d.name@ == name@
                    && d.public_key_b64@ == b64_encode(remote_pubkey@) && d.mode == DeviceMode::Default
                    && final(self).registry.devices@ == old(self).registry.devices@.push(d),
            },
    {
        let valid = match &self.pairing {
            Some(p) => p.is_valid(token, now_ms),
            None => false,
        };
        if !valid {
            return PcAction::Respond(ServerResponse::err(String::from_str("Токен паринга недействителен или истёк.")));
        }
        if self.registry.find_by_pubkey(remote_pubkey).is_some() {
            return PcAction::Respond(ServerResponse::err(String::from_str("Устройство уже привязано.")));
        }
        let ghost before = self.registry.devices@;
        let device = self.registry.add(name.to_owned(), remote_pubkey);
        proof {
            if unique_keys(before) {
                law_accepted_pairing_recognised(old(self).pairing, before, remote_pubkey@, token@, now_ms, device);
            }
        }
        PcAction::SaveNewDevice(device)
    }

    /// Close an accepted pairing once the registry was stored (or not).
    pub fn finish_pairing(&mut self, device: &TrustedDevice, saved: Result<(), String>) -> (r: ServerResponse)
        ensures
            final(self).registry == old(self).registry,
            final(self).server_keys == old(self).server_keys,
            match saved {
                Ok(_) => final(self).pairing is None && r.ok && r.output is None && r.error is None
                    && (r.data matches Some(ResponseData::Paired { device_id, name, mode })
                    && device_id == device.id && name == device.name && mode@ == "default"@),
                Err(e) => final(self).pairing == old(self).pairing
                    && is_refusal(r, "Ошибка保存 реестра: "@ + e@),
            },
    {
        match saved {
            Err(e) => ServerResponse::err(concat2("Ошибка保存 реестра: ", e.as_str())),
            Ok(_) => {
                self.pairing = None;
                ServerResponse::ok_data(ResponseData::Paired {
                    device_id: device.id.clone(),
                    name: device.name.clone(),
                    mode: String::from_str("default"),
                })
            },
        }
    }

    /// Decide what to do with a request from the phone with `remote_pubkey`.
    pub fn dispatch(&mut self, request: ClientRequest, remote_pubkey: &[u8], now_ms: u64) -> (a: PcAction)
        requires
            remote_pubkey@.len() <= usize::MAX / 2,
        ensures
            unique_keys(old(self).registry.devices@) ==> unique_keys(final(self).registry.devices@),
            final(self).pairing == old(self).pairing,
            final(self).server_keys == old(self).server_keys,
            match request {
                ClientRequest::Pair { token, name } => match pair_verdict(old(self).pairing, old(self).registry.devices@, remote_pubkey@, token@, now_ms) {
                    PairVerdict::BadToken => (a matches PcAction::Respond(r) && is_refusal(r, bad_token_message()))
                        && final(self).registry == old(self).registry,
                    PairVerdict::AlreadyPaired => (a matches PcAction::Respond(r) && is_refusal(r, already_paired_message()))
                        && final(self).registry == old(self).registry,
                    PairVerdict::Accept => a matches PcAction::SaveNewDevice(d) && d.name@ == name@
                        && d.public_key_b64@ == b64_encode(remote_pubkey@) && d.mode == DeviceMode::Default
                        && final(self).registry.devices@ == old(self).registry.devices@.push(d),
                },
                _ => final(self).registry == old(self).registry && match key_index(old(self).registry.devices@, remote_pubkey@) {
                    None => a matches PcAction::Respond(r) && is_refusal(r, not_paired_message()),
                    Some(i) => pc_routed(request, old(self).registry.devices@[i].mode, a),
                },
            },
    {
        match request {
            ClientRequest::Pair { token, name } => self.pair(remote_pubkey, token.as_str(), name.as_str(), now_ms),
            other => {
                match self.registry.find_by_pubkey(remote_pubkey) {
                    None => PcAction::Respond(ServerResponse::err(String::from_str("Устройство не привязано. Сначала выполните паринг."))),
                    Some(d) => route(other, d),
                }
            },
        }
    }
}

/// Law (profile editing needs Developer mode): every request that changes or
/// lists profiles for editing, or runs a shell command, is refused for a device
/// in Default mode, whatever it carries.
pub proof fn law_editing_needs_developer(request: ClientRequest, a: PcAction)
    requires
        developer_only(request),
        pc_routed(request, DeviceMode::Default, a),
    ensures
        a matches PcAction::Respond(r) && !r.ok,
        !(a is EditProfiles) && !(a is RunShell),
{
}


/// Law (truthful Developer status): the answer to the Developer-status query
/// succeeds, names the device's mode (`default` or `developer`), and says it is
/// a Developer exactly when its mode is Developer; a Default device is told it
/// is not.
pub proof fn law_dev_status_is_truthful(mode: DeviceMode, a: PcAction)
    requires
        pc_routed(ClientRequest::CheckDevStatus, mode, a),
    ensures
        a matches PcAction::Respond(r) && r.ok && (r.data matches Some(ResponseData::DevStatus { mode: m, is_dev })
            && (is_dev <==> mode == DeviceMode::Developer)
            && (mode == DeviceMode::Default ==> m@ == "default"@ && !is_dev)
            && (mode == DeviceMode::Developer ==> m@ == "developer"@ && is_dev)),
{
}

/// Law (creating a profile answers with its id): a Developer's request to
/// create a profile becomes the edit that appends exactly that profile and,
/// once stored, answers with the new profile's id (see `apply_edit` and
/// `saved_response`), never a plain success.
pub proof fn law_create_profile_answers_id(
    name: String,
    description: Option<String>,
    commands: ProfileKind,
    a: PcAction,
)
    requires
        pc_routed(ClientRequest::CreateProfile { name, description, commands }, DeviceMode::Developer, a),
    ensures
        a matches PcAction::EditProfiles(edit) && (edit matches ProfileEdit::Create { name: n, description: d, kind: k }
            && n == name && d == description && k == commands),
        !(a matches PcAction::EditProfiles(ProfileEdit::Add { .. })),
{
}


/// Law (every paired device may use profiles and system commands): on the PC
/// server a device in either mode has its Safe commands run as sent, the
/// profile it names started, and the profile list given.
pub proof fn law_pc_common_requests_for_every_mode(request: ClientRequest, mode: DeviceMode, a: PcAction)
    requires
        pc_routed(request, mode, a),
    ensures
        request matches ClientRequest::Safe { command, params } ==> a == (PcAction::RunSafe { command, params }),
        request matches ClientRequest::RunProfile { profile_id } ==> a == (PcAction::RunProfile { profile_id }),
        request is ListProfiles ==> a is ListProfiles,
        request is GetMode ==> (a matches PcAction::Respond(r) && r.ok && (r.data matches Some(ResponseData::Mode { mode: m })
            && (mode == DeviceMode::Default ==> m@ == "default"@) && (mode == DeviceMode::Developer ==> m@ == "developer"@))),
{
}

} // verus!
