//! Messages between the phone (client) and the PC (server). The phone sends a
//! `ClientRequest`, the PC answers with a `ServerResponse`; on the wire both are
//! JSON inside Noise transport messages.

use vstd::prelude::*;
use crate::automation::{Profile, ProfileKind};
use crate::text::{concat2, str_eq};

verus! {

/// Ready-made system commands of Safe mode.
#[derive(Clone, Copy, Debug, PartialEq, Eq, Structural)]
pub enum SafeCommand {
    Shutdown,
    Sleep,
    Lock,
    VolumeUp,
    VolumeDown,
    VolumeSet,
    MediaPlay,
    MediaPause,
    MediaNext,
    MediaPrev,
}

/// The shell a Developer-mode command runs in.
#[derive(Clone, Copy, Debug, PartialEq, Eq, Structural)]
pub enum ShellType {
    Cmd,
    Powershell,
}

impl ShellType {
    /// The shell used when a request names none: PowerShell.
    pub fn default() -> (s: Self)
        ensures
            s == ShellType::Powershell,
    {
        ShellType::Powershell
    }
}

/// What Safe mode reads of a request's JSON `params`: the optional
/// non-negative integer `level` (used by `volume_set`).
#[derive(Clone, Copy, Debug)]
pub struct SafeParams {
    pub level: Option<u64>,
}

/// A request from the phone. The first five kinds make up the first protocol
/// version (the desktop server `AetherLink` and the first phone app); the PC
/// server and the current phone app add the rest.
pub enum ClientRequest {
    /// First binding of a device: the one-time token from the QR code and the
    /// phone's name.
    Pair { token: String, name: String },
    /// A Safe-mode system command.
    Safe { command: SafeCommand, params: SafeParams },
    /// Start an automation profile.
    RunProfile { profile_id: String },
    /// List the automation profiles.
    ListProfiles,
    /// A raw shell command (Developer mode).
    Shell { cmd: String, shell: ShellType },
    /// The device's access mode.
    GetMode,
    /// The device's access mode and whether it is Developer.
    CheckDevStatus,
    /// Create a profile (Developer mode); answers with its id.
    CreateProfile { name: String, description: Option<String>, commands: ProfileKind },
    /// The profiles, for editing (Developer mode).
    GetDevProfiles,
    /// Delete a profile (Developer mode).
    DeleteProfile { profile_id: String },
    /// Add a profile (Developer mode). `kind` holds the profile kind read from the
    /// request's JSON, or the text of the error that reading it gave.
    AddProfile { name: String, description: Option<String>, kind: Result<ProfileKind, String> },
}

impl ClientRequest {
    /// The request belongs to the first protocol version.
    pub open spec fn in_first_version(&self) -> bool {
        ||| self is Pair
        ||| self is Safe
        ||| self is RunProfile
        ||| self is ListProfiles
        ||| self is Shell
    }
}

/// Structured data a response may carry in its `data` field.
pub enum ResponseData {
    /// `{ "device_id", "name", "mode" }` after a successful pairing.
    Paired { device_id: String, name: String, mode: String },
    /// The automation profiles.
    Profiles(Vec<Profile>),
    /// `{ "mode" }`.
    Mode { mode: String },
    /// `{ "mode", "is_dev" }`.
    DevStatus { mode: String, is_dev: bool },
    /// `{ "id" }` of a created profile.
    ProfileCreated { id: String },
    /// Any other JSON value, as its text (what a phone receives).
    Json(String),
}

/// The answer of the server.
pub struct ServerResponse {
    pub ok: bool,
    pub output: Option<String>,
    pub error: Option<String>,
    pub data: Option<ResponseData>,
}

impl ServerResponse {
    /// Success without payload.
    pub fn ok() -> (r: Self)
        ensures
            r.ok,
            r.output is None,
            r.error is None,
            r.data is None,
    {
        ServerResponse { ok: true, output: None, error: None, data: None }
    }

    /// Success with a text output.
    pub fn ok_output(output: String) -> (r: Self)
        ensures
            r.ok,
            r.output == Some(output),
            r.error is None,
            r.data is None,
    {
        ServerResponse { ok: true, output: Some(output), error: None, data: None }
    }

    /// Success with structured data.
    pub fn ok_data(data: ResponseData) -> (r: Self)
        ensures
            r.ok,
            r.output is None,
            r.error is None,
            r.data == Some(data),
    {
        ServerResponse { ok: true, output: None, error: None, data: Some(data) }
    }

    /// Failure with a message.
    pub fn err(msg: String) -> (r: Self)
        ensures
            !r.ok,
            r.output is None,
            r.error == Some(msg),
            r.data is None,
    {
        ServerResponse { ok: false, output: None, error: Some(msg), data: None }
    }
}

/// The response is a refusal with exactly this message.
pub open spec fn is_refusal(r: ServerResponse, msg: Seq<char>) -> bool {
    &&& !r.ok
    &&& r.output is None
    &&& r.data is None
    &&& r.error matches Some(e) && e@ == msg
}

/// What the phone hands to its UI for a successful response.
pub enum ReplyValue {
    /// The response's structured data.
    Data(ResponseData),
    /// The response's text output (empty when it has none).
    Text(String),
}

/// The message a phone shows when a failed response carries none.
pub open spec fn default_failure() -> Seq<char> {
    "Ошибка сервера"@
}

/// `r` is what the phone makes of `resp`: on success the data, or else the
/// output text (empty when absent); on failure the error text, or a default.
pub open spec fn reply_of(resp: ServerResponse, r: Result<ReplyValue, String>) -> bool {
    if resp.ok {
        match resp.data {
            Some(d) => r == Ok::<ReplyValue, String>(ReplyValue::Data(d)),
            None => r matches Ok(ReplyValue::Text(t)) && t@ == (match resp.output {
                Some(o) => o@,
                None => Seq::<char>::empty(),
            }),
        }
    } else {
        r matches Err(e) && e@ == (match resp.error {
            Some(m) => m@,
            None => default_failure(),
        })
    }
}

/// Turn a response into what the phone's UI receives.
pub fn response_to_value(resp: ServerResponse) -> (r: Result<ReplyValue, String>)
    ensures
        reply_of(resp, r),
{
    if resp.ok {
        match resp.data {
            Some(d) => Ok(ReplyValue::Data(d)),
            None => match resp.output {
                Some(o) => Ok(ReplyValue::Text(o)),
                None => Ok(ReplyValue::Text(String::new())),
            },
        }
    } else {
        match resp.error {
            Some(m) => Err(m),
            None => Err(String::from_str("Ошибка сервера")),
        }
    }
}

/// Law (a reply shows what the server put in it): whatever the server builds with
/// `ok_data`, `ok_output`, `ok` or `err`, the phone's reply carries exactly that
/// data, that text (empty for `ok`), or that error message.
pub proof fn law_reply_carries_response(resp: ServerResponse, r: Result<ReplyValue, String>)
    requires
        reply_of(resp, r),
    ensures
        resp.ok && resp.data is Some ==> r == Ok::<ReplyValue, String>(ReplyValue::Data(resp.data->Some_0)),
        resp.ok && resp.data is None && resp.output is Some ==> (r matches Ok(ReplyValue::Text(t)) && t@ == resp.output->Some_0@),
        resp.ok && resp.data is None && resp.output is None ==> (r matches Ok(ReplyValue::Text(t)) && t@.len() == 0),
        !resp.ok && resp.error is Some ==> (r matches Err(e) && e@ == resp.error->Some_0@),
{
}

/// The Safe-mode command a UI name stands for.
pub open spec fn safe_command_named(name: Seq<char>) -> Option<SafeCommand> {
    if name == "shutdown"@ {
        Some(SafeCommand::Shutdown)
    } else if name == "sleep"@ {
        Some(SafeCommand::Sleep)
    } else if name == "lock"@ {
        Some(SafeCommand::Lock)
    } else if name == "volume_up"@ {
        Some(SafeCommand::VolumeUp)
    } else if name == "volume_down"@ {
        Some(SafeCommand::VolumeDown)
    } else if name == "volume_set"@ {
        Some(SafeCommand::VolumeSet)
    } else if name == "media_play"@ {
        Some(SafeCommand::MediaPlay)
    } else if name == "media_pause"@ {
        Some(SafeCommand::MediaPause)
    } else if name == "media_next"@ {
        Some(SafeCommand::MediaNext)
    } else if name == "media_prev"@ {
        Some(SafeCommand::MediaPrev)
    } else {
        None
    }
}

/// The Safe-mode command for a UI name, or `Неизвестная команда: <name>`.
pub fn parse_safe_command(command: &str) -> (r: Result<SafeCommand, String>)
    ensures
        match safe_command_named(command@) {
            Some(c) => r == Ok::<SafeCommand, String>(c),
            None => r matches Err(m) && m@ == "Неизвестная команда: "@ + command@,
        },
{
    if str_eq(command, "shutdown") {
        Ok(SafeCommand::Shutdown)
    } else if str_eq(command, "sleep") {
        Ok(SafeCommand::Sleep)
    } else if str_eq(command, "lock") {
        Ok(SafeCommand::Lock)
    } else if str_eq(command, "volume_up") {
        Ok(SafeCommand::VolumeUp)
    } else if str_eq(command, "volume_down") {
        Ok(SafeCommand::VolumeDown)
    } else if str_eq(command, "volume_set") {
        Ok(SafeCommand::VolumeSet)
    } else if str_eq(command, "media_play") {
        Ok(SafeCommand::MediaPlay)
    } else if str_eq(command, "media_pause") {
        Ok(SafeCommand::MediaPause)
    } else if str_eq(command, "media_next") {
        Ok(SafeCommand::MediaNext)
    } else if str_eq(command, "media_prev") {
        Ok(SafeCommand::MediaPrev)
    } else {
        Err(concat2("Неизвестная команда: ", command))
    }
}

/// The shell a phone asks for: `"cmd"` gives cmd, anything else (or nothing)
/// gives PowerShell.
pub fn parse_shell_type(shell: Option<&str>) -> (s: ShellType)
    ensures
        s == (if shell matches Some(n) && n@ == "cmd"@ { ShellType::Cmd } else { ShellType::Powershell }),
{
    match shell {
        Some(n) => if str_eq(n, "cmd") { ShellType::Cmd } else { ShellType::Powershell },
        None => ShellType::Powershell,
    }
}

} // verus!
