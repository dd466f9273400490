use aetherlink::protocol::{SafeCommand, SafeParams};
use aetherlink::safe::{execute, finish, media_key, ps_result, volume_key, volume_level, volume_set, SafeJob};

fn ps(job: SafeJob) -> (String, String) {
    match job {
        SafeJob::PowerShell { script, success } => (script, success),
        _ => panic!("expected a script"),
    }
}

#[test]
fn media_key_script_and_message() {
    let (script, success) = ps(media_key(0xB3));
    assert_eq!(success, "VK 0xB3 sent");
    assert!(script.contains("[KBD]::keybd_event(179, 0, 0, 0)\n[KBD]::keybd_event(179, 0, 2, 0)\n"));
    assert!(script.starts_with("\nAdd-Type -TypeDefinition @'\nusing System.Runtime.InteropServices;\npublic class KBD {\n"));
    let (_, success) = ps(volume_key(0xAF));
    assert_eq!(success, "VK 0xAF sent");
}

#[test]
fn volume_set_formats_two_decimals() {
    let (script, success) = ps(volume_set(50));
    assert_eq!(success, "Громкость: 50%");
    assert!(script.ends_with("[VolumeControl]::SetVolume(0.50)\n"));
    let (script, _) = ps(volume_set(7));
    assert!(script.ends_with("SetVolume(0.07)\n"));
    let (script, success) = ps(volume_set(100));
    assert!(script.ends_with("SetVolume(1.00)\n"));
    assert_eq!(success, "Громкость: 100%");
    for level in 0..=100u8 {
        let (script, _) = ps(volume_set(level));
        let expected = format!("SetVolume({:.2})\n", level as f32 / 100.0);
        assert!(script.ends_with(&expected), "level {level}");
    }
}

#[test]
fn volume_level_defaults_and_clamps() {
    assert_eq!(volume_level(SafeParams { level: None }), 50);
    assert_eq!(volume_level(SafeParams { level: Some(30) }), 30);
    assert_eq!(volume_level(SafeParams { level: Some(100) }), 100);
    assert_eq!(volume_level(SafeParams { level: Some(250) }), 100);
    assert_eq!(volume_level(SafeParams { level: Some(u64::MAX) }), 100);
}

#[test]
fn power_commands_spawn_fixed_processes() {
    match execute(SafeCommand::Shutdown, SafeParams { level: None }) {
        SafeJob::Spawn { launch, success } => {
            assert_eq!(launch.program, "shutdown");
            assert_eq!(launch.args, vec!["/s", "/t", "5"]);
            assert_eq!(success, "Выключение через 5 секунд");
        }
        _ => panic!(),
    }
    match execute(SafeCommand::Sleep, SafeParams { level: Some(1) }) {
        SafeJob::Spawn { launch, success } => {
            assert_eq!(launch.program, "rundll32.exe");
            assert_eq!(launch.args, vec!["powrprof.dll,SetSuspendState", "0,1,0"]);
            assert_eq!(success, "Сон");
        }
        _ => panic!(),
    }
    match execute(SafeCommand::Lock, SafeParams { level: None }) {
        SafeJob::Spawn { launch, success } => {
            assert_eq!(launch.args, vec!["user32.dll,LockWorkStation"]);
            assert_eq!(success, "Экран заблокирован");
        }
        _ => panic!(),
    }
}

#[test]
fn media_commands_use_their_keys() {
    let cases = [
        (SafeCommand::VolumeUp, "VK 0xAF sent"),
        (SafeCommand::VolumeDown, "VK 0xAE sent"),
        (SafeCommand::MediaPlay, "VK 0xB3 sent"),
        (SafeCommand::MediaPause, "VK 0xB3 sent"),
        (SafeCommand::MediaNext, "VK 0xB0 sent"),
        (SafeCommand::MediaPrev, "VK 0xB1 sent"),
    ];
    for (cmd, msg) in cases {
        assert_eq!(ps(execute(cmd, SafeParams { level: Some(3) })).1, msg);
    }
    assert_eq!(ps(execute(SafeCommand::VolumeSet, SafeParams { level: Some(500) })).1, "Громкость: 100%");
    assert_eq!(ps(execute(SafeCommand::VolumeSet, SafeParams { level: None })).1, "Громкость: 50%");
}

#[test]
fn law_safe_jobs_ignore_params_except_volume() {
    let a = ps(execute(SafeCommand::MediaNext, SafeParams { level: Some(10) }));
    let b = ps(execute(SafeCommand::MediaNext, SafeParams { level: None }));
    assert_eq!(a, b);
}

#[test]
fn powershell_outcomes() {
    assert_eq!(ps_result(true, "done".into(), "warn".into(), "exit status: 0"), Ok("done".to_string()));
    assert_eq!(ps_result(false, "x".into(), "boom".into(), "exit status: 1"), Err("boom".to_string()));
    assert_eq!(ps_result(false, "x".into(), String::new(), "exit status: 1"), Err("PowerShell exit exit status: 1".to_string()));
}

#[test]
fn finish_reports_success_or_error() {
    let r = finish(media_key(0xB0), Ok(()));
    assert!(r.ok);
    assert_eq!(r.output.unwrap(), "VK 0xB0 sent");
    let r = finish(media_key(0xB0), Err("no powershell".into()));
    assert_eq!(r.error.unwrap(), "no powershell");
}
