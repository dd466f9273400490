//! Safe mode: ready-made system commands. Nothing the phone sends ends up in a
//! command line; each command maps to a fixed process or PowerShell script.

use vstd::prelude::*;
use crate::launch::{launch_of, launches, Launch};
use crate::protocol::{SafeCommand, SafeParams, ServerResponse, is_refusal};
use crate::text::{concat2, concat3, decimal, digit_char, digit_str, hex_byte, byte_hex, u64_decimal};

verus! {

/// What running a Safe-mode command takes.
pub enum SafeJob {
    /// Start the process and report `success` once it has started.
    Spawn { launch: Launch, success: String },
    /// Run the PowerShell script and report `success` when it exits successfully.
    PowerShell { script: String, success: String },
}

/// Virtual-key codes sent for the media and volume commands.
pub const VK_VOLUME_UP: u8 = 0xAF;
pub const VK_VOLUME_DOWN: u8 = 0xAE;
pub const VK_MEDIA_PLAY_PAUSE: u8 = 0xB3;
pub const VK_MEDIA_NEXT_TRACK: u8 = 0xB0;
pub const VK_MEDIA_PREV_TRACK: u8 = 0xB1;

pub const KEY_SCRIPT_HEAD: &'static str = r#"
Add-Type -TypeDefinition @'
using System.Runtime.InteropServices;
public class KBD {
    [DllImport("user32.dll")] public static extern void keybd_event(byte bVk, byte bScan, uint dwFlags, int dwExtraInfo);
}
'@
[KBD]::keybd_event("#;
pub const KEY_SCRIPT_MIDDLE: &'static str = r#", 0, 0, 0)
[KBD]::keybd_event("#;
pub const KEY_SCRIPT_TAIL: &'static str = r#", 0, 2, 0)
"#;
pub const VOLUME_SCRIPT_HEAD: &'static str = r#"
Add-Type -TypeDefinition @'
using System.Runtime.InteropServices;
[Guid("5CDF2C82-841E-4546-9722-0CF74078229A"), InterfaceType(ComInterfaceType.InterfaceIsIUnknown)]
interface IAudioEndpointVolume {
    int _VT1(); int _VT2(); int _VT3(); int _VT4(); int _VT5(); int _VT6(); int _VT7();
    int SetMasterVolumeLevelScalar(float fLevel, System.Guid pguidEventContext);
}
[Guid("BCDE0395-E52F-467C-8E3D-C4579291692E")]
[ClassInterface(ClassInterfaceType.None)]
class MMDeviceEnumeratorCom {}
public class VolumeControl {
    [DllImport("ole32.dll")] static extern int CoCreateInstance(ref System.Guid rclsid, System.IntPtr pUnkOuter, uint dwClsContext, ref System.Guid riid, [MarshalAs(UnmanagedType.IUnknown)] out object ppv);
    public static void SetVolume(float v) {
        var CLSID = new System.Guid("BCDE0395-E52F-467C-8E3D-C4579291692E");
        var IID   = new System.Guid("5CDF2C82-841E-4546-9722-0CF74078229A");
        object obj; CoCreateInstance(ref CLSID, System.IntPtr.Zero, 1, ref IID, out obj);
        ((IAudioEndpointVolume)obj).SetMasterVolumeLevelScalar(v, System.Guid.Empty);
    }
}
'@
[VolumeControl]::SetVolume("#;
pub const VOLUME_SCRIPT_TAIL: &'static str = r#")
"#;

/// The script that presses and releases the virtual key `vk`.
pub open spec fn key_script(vk: u8) -> Seq<char> {
    KEY_SCRIPT_HEAD@ + decimal(vk as nat) + KEY_SCRIPT_MIDDLE@ + decimal(vk as nat) + KEY_SCRIPT_TAIL@
}

/// `level / 100` with two decimals (Rust's `{:.2}` of `level as f32 / 100.0`).
pub open spec fn fraction_text(level: nat) -> Seq<char> {
    decimal(level / 100) + "."@ + seq![digit_char((level % 100) / 10), digit_char(level % 10)]
}

/// The script that sets the master volume to `level` percent.
pub open spec fn volume_script(level: u8) -> Seq<char> {
    VOLUME_SCRIPT_HEAD@ + fraction_text(level as nat) + VOLUME_SCRIPT_TAIL@
}

/// The level `volume_set` uses: the request's `level`, 50 when absent, at most 100.
pub open spec fn requested_level(params: SafeParams) -> nat {
    match params.level {
        Some(l) => if l < 100 { l as nat } else { 100 },
        None => 50,
    }
}

/// The level `volume_set` uses for a request.
pub fn volume_level(params: SafeParams) -> (level: u8)
    ensures
        level == requested_level(params),
{
    let l = match params.level {
        Some(l) => l,
        None => 50,
    };
    if l < 100 { l as u8 } else { 100 }
}

/// `level / 100` with two decimals.
fn fraction(level: u8) -> (s: String)
    requires
        level <= 100,
    ensures
        s@ == fraction_text(level as nat),
{
    let mut s = u64_decimal((level / 100) as u64);
    s.append(".");
    s.append(digit_str(((level % 100) / 10) as u64));
    s.append(digit_str((level % 10) as u64));
    proof { reveal_strlit("."); }
    s
}

/// Press the virtual key `vk` (media keys); reports `VK 0x<vk> sent`.
pub fn media_key(vk: u8) -> (job: SafeJob)
    ensures
        job matches SafeJob::PowerShell { script, success }
            && script@ == key_script(vk) && success@ == "VK 0x"@ + hex_byte(vk) + " sent"@,
{
    let code = u64_decimal(vk as u64);
    let mut script = String::from_str(KEY_SCRIPT_HEAD);
    script.append(code.as_str());
    script.append(KEY_SCRIPT_MIDDLE);
    script.append(code.as_str());
    script.append(KEY_SCRIPT_TAIL);
    let success = concat3("VK 0x", byte_hex(vk).as_str(), " sent");
    SafeJob::PowerShell { script, success }
}

/// Press a volume key: the same as `media_key`.
pub fn volume_key(vk: u8) -> (job: SafeJob)
    ensures
        job matches SafeJob::PowerShell { script, success }
            && script@ == key_script(vk) && success@ == "VK 0x"@ + hex_byte(vk) + " sent"@,
{
    media_key(vk)
}

/// Set the master volume to `level` percent; reports `Громкость: <level>%`.
pub fn volume_set(level: u8) -> (job: SafeJob)
    requires
        level <= 100,
    ensures
        job matches SafeJob::PowerShell { script, success }
            && script@ == volume_script(level) && success@ == "Громкость: "@ + decimal(level as nat) + "%"@,
{
    let mut script = String::from_str(VOLUME_SCRIPT_HEAD);
    script.append(fraction(level).as_str());
    script.append(VOLUME_SCRIPT_TAIL);
    let success = concat3("Громкость: ", u64_decimal(level as u64).as_str(), "%");
    SafeJob::PowerShell { script, success }
}

/// The job of a command: power commands start a process, sound and media
/// commands run a PowerShell script.
pub open spec fn job_for(command: SafeCommand, params: SafeParams, job: SafeJob) -> bool {
    match command {
        SafeCommand::Shutdown => job matches SafeJob::Spawn { launch, success }
            && launches(launch, "shutdown"@, seq!["/s"@, "/t"@, "5"@]) && success@ == "Выключение через 5 секунд"@,
        SafeCommand::Sleep => job matches SafeJob::Spawn { launch, success }
            && launches(launch, "rundll32.exe"@, seq!["powrprof.dll,SetSuspendState"@, "0,1,0"@]) && success@ == "Сон"@,
        SafeCommand::Lock => job matches SafeJob::Spawn { launch, success }
            && launches(launch, "rundll32.exe"@, seq!["user32.dll,LockWorkStation"@]) && success@ == "Экран заблокирован"@,
        SafeCommand::VolumeSet => job matches SafeJob::PowerShell { script, success }
            && script@ == volume_script(requested_level(params) as u8)
            && success@ == "Громкость: "@ + decimal(requested_level(params)) + "%"@,
        _ => job matches SafeJob::PowerShell { script, success } && {
            let vk = match command {
                SafeCommand::VolumeUp => VK_VOLUME_UP,
                SafeCommand::VolumeDown => VK_VOLUME_DOWN,
                SafeCommand::MediaNext => VK_MEDIA_NEXT_TRACK,
                SafeCommand::MediaPrev => VK_MEDIA_PREV_TRACK,
                _ => VK_MEDIA_PLAY_PAUSE,
            };
            script@ == key_script(vk) && success@ == "VK 0x"@ + hex_byte(vk) + " sent"@
        },
    }
}

/// The job that carries out a Safe-mode command.
pub fn execute(command: SafeCommand, params: SafeParams) -> (job: SafeJob)
    ensures
        job_for(command, params, job),
{
    match command {
        SafeCommand::Shutdown => {
            let args: [&str; 3] = ["/s", "/t", "5"];
            assert(args@.map_values(|s: &str| s@) =~= seq!["/s"@, "/t"@, "5"@]);
            SafeJob::Spawn { launch: launch_of("shutdown", &args), success: String::from_str("Выключение через 5 секунд") }
        },
        SafeCommand::Sleep => {
            let args: [&str; 2] = ["powrprof.dll,SetSuspendState", "0,1,0"];
            assert(args@.map_values(|s: &str| s@) =~= seq!["powrprof.dll,SetSuspendState"@, "0,1,0"@]);
            SafeJob::Spawn { launch: launch_of("rundll32.exe", &args), success: String::from_str("Сон") }
        },
        SafeCommand::Lock => {
            let args: [&str; 1] = ["user32.dll,LockWorkStation"];
            assert(args@.map_values(|s: &str| s@) =~= seq!["user32.dll,LockWorkStation"@]);
            SafeJob::Spawn { launch: launch_of("rundll32.exe", &args), success: String::from_str("Экран заблокирован") }
        },
        SafeCommand::VolumeUp => volume_key(VK_VOLUME_UP),
        SafeCommand::VolumeDown => volume_key(VK_VOLUME_DOWN),
        SafeCommand::VolumeSet => volume_set(volume_level(params)),
        SafeCommand::MediaPlay => media_key(VK_MEDIA_PLAY_PAUSE),
        SafeCommand::MediaPause => media_key(VK_MEDIA_PLAY_PAUSE),
        SafeCommand::MediaNext => media_key(VK_MEDIA_NEXT_TRACK),
        SafeCommand::MediaPrev => media_key(VK_MEDIA_PREV_TRACK),
    }
}

/// The outcome of a PowerShell run: the trimmed standard output on
/// success; else the trimmed error output, or `PowerShell exit <status>` when
/// that is empty.
pub fn ps_result(success: bool, stdout_trimmed: String, stderr_trimmed: String, status_text: &str) -> (r: Result<String, String>)
    ensures
        success ==> r == Ok::<String, String>(stdout_trimmed),
        !success && stderr_trimmed@.len() > 0 ==> r == Err::<String, String>(stderr_trimmed),
        !success && stderr_trimmed@.len() == 0 ==> (r matches Err(e) && e@ == "PowerShell exit "@ + status_text@),
{
    if success {
        Ok(stdout_trimmed)
    } else if stderr_trimmed.as_str().is_empty() {
        Err(concat2("PowerShell exit ", status_text))
    } else {
        Err(stderr_trimmed)
    }
}

/// The answer once the job ran: its success message, or the error.
pub fn finish(job: SafeJob, outcome: Result<(), String>) -> (r: ServerResponse)
    ensures
        match outcome {
            Ok(_) => r.ok && r.error is None && r.data is None && r.output == Some(match job {
                SafeJob::Spawn { success, .. } => success,
                SafeJob::PowerShell { success, .. } => success,
            }),
            Err(e) => is_refusal(r, e@),
        },
{
    match outcome {
        Ok(_) => match job {
            SafeJob::Spawn { success, .. } => ServerResponse::ok_output(success),
            SafeJob::PowerShell { success, .. } => ServerResponse::ok_output(success),
        },
        Err(e) => ServerResponse::err(e),
    }
}

/// Law (no free input): a Safe-mode job is fixed by the command alone; the
/// request's parameters matter only to `VolumeSet`, and there only through a
/// level of at most 100.
pub proof fn law_safe_jobs_take_no_free_input(command: SafeCommand, a: SafeParams, b: SafeParams, job: SafeJob)
    ensures
        command != SafeCommand::VolumeSet ==> (job_for(command, a, job) <==> job_for(command, b, job)),
        requested_level(a) <= 100,
{
}


/// Law (each key command presses its own key): every media and volume key
/// command runs the script that presses and releases exactly the virtual key
/// its success message names, and that key is the command's own:
/// volume up 0xAF, volume down 0xAE, play and pause 0xB3, next 0xB0, previous 0xB1.
pub proof fn law_key_commands_press_their_key(command: SafeCommand, params: SafeParams, job: SafeJob)
    requires
        job_for(command, params, job),
        command != SafeCommand::Shutdown,
        command != SafeCommand::Sleep,
        command != SafeCommand::Lock,
        command != SafeCommand::VolumeSet,
    ensures
        job matches SafeJob::PowerShell { script, success } && {
            let vk: u8 = match command {
                SafeCommand::VolumeUp => 0xAFu8,
                SafeCommand::VolumeDown => 0xAEu8,
                SafeCommand::MediaNext => 0xB0u8,
                SafeCommand::MediaPrev => 0xB1u8,
                _ => 0xB3u8,
            };
            &&& script@ == key_script(vk)
            &&& success@ == "VK 0x"@ + hex_byte(vk) + " sent"@
        },
        command == SafeCommand::VolumeDown ==> (job matches SafeJob::PowerShell { script, .. } && script@ == key_script(0xAEu8)),
{
}

} // verus!
