use aetherlink::auth::{parse_device_mode, DeviceMode, DeviceRegistry, ServerKeys, generate_server_keys, new_pairing_token};
use aetherlink::pairing::PairingSession;
use aetherlink::protocol::{ClientRequest, ResponseData, SafeCommand, SafeParams, ShellType};
use aetherlink::server::{profiles_response, route, Action, ServerState, PORT};
use aetherlink::automation::{Profile, ProfileKind};

fn state() -> ServerState {
    ServerState {
        server_keys: ServerKeys { private_key_b64: "AAAA".into(), public_key_b64: "c2VydmVy".into() },
        registry: DeviceRegistry::new(),
        pairing: None,
        developer_mode_enabled: false,
    }
}

fn refusal(a: &Action) -> String {
    match a {
        Action::Respond(r) => {
            assert!(!r.ok);
            r.error.clone().unwrap()
        }
        _ => panic!("expected a response"),
    }
}

#[test]
fn start_pairing_opens_a_120_second_window() {
    let mut s = state();
    let qr = s.start_pairing("tok".into(), "192.168.1.5".into(), 1_000);
    assert_eq!(qr.port, PORT);
    assert_eq!(PORT, 8080);
    assert_eq!(qr.ip, "192.168.1.5");
    assert_eq!(qr.server_public_key, "c2VydmVy");
    assert_eq!(qr.pairing_token, "tok");
    let p = s.pairing.as_ref().unwrap();
    assert_eq!(p.expires_at_ms, 121_000);
}

#[test]
fn pairing_is_refused_without_window_or_with_wrong_or_expired_token() {
    let mut s = state();
    let a = s.pair(&[1, 2, 3], "tok", "Pixel", 0);
    assert_eq!(refusal(&a), "Токен паринга недействителен или истёк.");
    s.pairing = Some(PairingSession::new("tok".into(), 0));
    assert_eq!(refusal(&s.pair(&[1, 2, 3], "other", "Pixel", 10)), "Токен паринга недействителен или истёк.");
    assert_eq!(refusal(&s.pair(&[1, 2, 3], "tok", "Pixel", 120_000)), "Токен паринга недействителен или истёк.");
    assert!(s.registry.devices.is_empty());
}

#[test]
fn law_pairing_token_single_use() {
    let mut s = state();
    s.start_pairing("tok".into(), "ip".into(), 0);
    let a = s.pair(&[1, 2, 3], "tok", "Pixel", 5);
    let d = match a {
        Action::SaveNewDevice(d) => d,
        _ => panic!("expected acceptance"),
    };
    assert_eq!(d.public_key_b64, "AQID");
    assert_eq!(d.mode, DeviceMode::Automation);
    assert_eq!(s.registry.devices.len(), 1);
    let r = s.finish_pairing(&d, Ok(()));
    assert!(r.ok);
    match r.data {
        Some(ResponseData::Paired { device_id, name, mode }) => {
            assert_eq!(device_id, d.id);
            assert_eq!(name, "Pixel");
            assert_eq!(mode, "default");
        }
        _ => panic!("expected pairing data"),
    }
    assert!(s.pairing.is_none());
    // The same token does not work twice.
    assert_eq!(refusal(&s.pair(&[4, 5, 6], "tok", "Other", 6)), "Токен паринга недействителен или истёк.");
}

#[test]
fn already_paired_key_is_refused() {
    let mut s = state();
    s.registry.add("old".into(), &[1, 2, 3]);
    s.start_pairing("tok".into(), "ip".into(), 0);
    assert_eq!(refusal(&s.pair(&[1, 2, 3], "tok", "Pixel", 1)), "Устройство уже привязано.");
    assert_eq!(s.registry.devices.len(), 1);
    assert!(s.pairing.is_some());
}

#[test]
fn failed_save_keeps_the_window_open() {
    let mut s = state();
    s.start_pairing("tok".into(), "ip".into(), 0);
    let d = match s.pair(&[1], "tok", "P", 1) {
        Action::SaveNewDevice(d) => d,
        _ => panic!(),
    };
    let r = s.finish_pairing(&d, Err("disk full".into()));
    assert!(!r.ok);
    assert_eq!(r.error.unwrap(), "Ошибка сохранения реестра: disk full");
    assert!(s.pairing.is_some());
}

#[test]
fn law_unknown_device_gets_only_a_refusal() {
    let mut s = state();
    let a = s.dispatch(ClientRequest::ListProfiles, &[7, 7], 0);
    assert_eq!(refusal(&a), "Устройство не привязано. Сначала выполните паринг.");
}

#[test]
fn trusted_device_requests_are_routed() {
    let mut s = state();
    s.registry.add("p".into(), &[7, 7]);
    assert!(matches!(s.dispatch(ClientRequest::ListProfiles, &[7, 7], 0), Action::ListProfiles));
    match s.dispatch(ClientRequest::RunProfile { profile_id: "x".into() }, &[7, 7], 0) {
        Action::RunProfile { profile_id } => assert_eq!(profile_id, "x"),
        _ => panic!(),
    }
    match s.dispatch(
        ClientRequest::Safe { command: SafeCommand::Lock, params: SafeParams { level: None } },
        &[7, 7],
        0,
    ) {
        Action::RunSafe { command, .. } => assert_eq!(command, SafeCommand::Lock),
        _ => panic!(),
    }
    assert_eq!(
        refusal(&s.dispatch(ClientRequest::Pair { token: "t".into(), name: "n".into() }, &[7, 7], 0)),
        "Токен паринга недействителен или истёк."
    );
}

#[test]
fn law_shell_needs_developer_mode_and_global_switch() {
    let mut s = state();
    let d = s.registry.add("p".into(), &[7]);
    let shell = || ClientRequest::Shell { cmd: "dir".into(), shell: ShellType::Cmd };
    assert_eq!(refusal(&s.dispatch(shell(), &[7], 0)), "Для Shell нужен режим Developer.");
    s.registry.set_device_mode(&d.id, DeviceMode::Developer).unwrap();
    assert_eq!(refusal(&s.dispatch(shell(), &[7], 0)), "Для Shell нужен режим Developer.");
    s.set_developer_mode(true);
    match s.dispatch(shell(), &[7], 0) {
        Action::RunShell { cmd, shell } => {
            assert_eq!(cmd, "dir");
            assert_eq!(shell, ShellType::Cmd);
        }
        _ => panic!(),
    }
}

#[test]
fn route_of_pair_from_known_device() {
    let mut reg = DeviceRegistry::new();
    let d = reg.add("p".into(), &[1]);
    let a = route(ClientRequest::Pair { token: "t".into(), name: "n".into() }, &d, true);
    assert_eq!(refusal(&a), "Устройство уже привязано.");
}

#[test]
fn profiles_response_carries_profiles_or_error() {
    let p = Profile::new("x".into(), None, ProfileKind::RunBat { path: "a.bat".into() });
    let r = profiles_response(Ok(vec![p]));
    assert!(r.ok);
    assert!(matches!(r.data, Some(ResponseData::Profiles(ref v)) if v.len() == 1));
    let r = profiles_response(Err("broken".into()));
    assert_eq!(r.error.unwrap(), "broken");
}

#[test]
fn device_mode_names() {
    assert_eq!(parse_device_mode("default"), Ok(DeviceMode::Automation));
    assert_eq!(parse_device_mode("developer"), Ok(DeviceMode::Developer));
    assert_eq!(parse_device_mode("safe"), Ok(DeviceMode::Safe));
    assert_eq!(parse_device_mode("automation"), Ok(DeviceMode::Automation));
    assert_eq!(parse_device_mode("root"), Err("Неизвестный режим: root".to_string()));
}

#[test]
fn law_safe_devices_run_no_profiles_on_values() {
    let mut reg = DeviceRegistry::new();
    let d = reg.add("phone".into(), &[9]);
    let id = d.id.clone();
    reg.set_device_mode(&id, DeviceMode::Safe).unwrap();
    let dev = &reg.devices[0];
    for request in [ClientRequest::ListProfiles, ClientRequest::RunProfile { profile_id: "p".into() }] {
        match route(request, dev, true) {
            Action::Respond(r) => {
                assert!(!r.ok);
                assert_eq!(r.error.unwrap(), "Для профилей нужен режим Automation.");
            }
            _ => panic!("a Safe device must not reach profiles"),
        }
    }
    assert!(matches!(
        route(ClientRequest::Safe { command: SafeCommand::Lock, params: SafeParams { level: None } }, dev, true),
        Action::RunSafe { .. }
    ));
}

#[test]
fn server_keys_and_tokens() {
    let k = generate_server_keys().unwrap();
    assert_eq!(k.private_key().len(), 32);
    assert_eq!(k.public_key().len(), 32);
    assert!(ServerKeys { private_key_b64: "%%".into(), public_key_b64: "%%".into() }.try_public_key().is_none());
    let t = new_pairing_token();
    assert_eq!(t.len(), 44);
}

#[test]
fn server_starts_with_developer_switch_off() {
    let s = ServerState::new(generate_server_keys().unwrap(), DeviceRegistry::new());
    assert!(!s.developer_mode_enabled);
    assert!(s.pairing.is_none());
}
