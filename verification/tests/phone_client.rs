use aetherlink::pairing::PairingQr;
use aetherlink::phone::{
    check_handshake_len, check_reply_len, fallback_reply, find_server, pair_request, paired_server, pairing_outcome,
    pairing_target, remove_server, safe_request, server_summaries, session_serves, set_server_ip, shell_request,
    PhoneKeypair, ReplyFailure, SavedServer, reply_failure, fallback_step, FallbackAction, FallbackEvent, FallbackState,
};
use aetherlink::protocol::{
    parse_safe_command, parse_shell_type, response_to_value, ClientRequest, ReplyValue, ResponseData, SafeCommand,
    SafeParams, ServerResponse, ShellType,
};

fn server(id: &str, ip: &str) -> SavedServer {
    SavedServer { id: id.into(), name: format!("pc-{id}"), ip: ip.into(), port: 8080, server_public_key_b64: "k".into() }
}

#[test]
fn law_reply_carries_response_on_values() {
    match response_to_value(ServerResponse::ok_data(ResponseData::Mode { mode: "default".into() })) {
        Ok(ReplyValue::Data(ResponseData::Mode { mode })) => assert_eq!(mode, "default"),
        _ => panic!(),
    }
    match response_to_value(ServerResponse::ok_output("Сон".into())) {
        Ok(ReplyValue::Text(t)) => assert_eq!(t, "Сон"),
        _ => panic!(),
    }
    match response_to_value(ServerResponse::ok()) {
        Ok(ReplyValue::Text(t)) => assert_eq!(t, ""),
        _ => panic!(),
    }
    assert!(matches!(response_to_value(ServerResponse::err("nope".into())), Err(e) if e == "nope"));
    let bare = ServerResponse { ok: false, output: None, error: None, data: None };
    assert!(matches!(response_to_value(bare), Err(e) if e == "Ошибка сервера"));
}

#[test]
fn safe_command_names() {
    let names = [
        ("shutdown", SafeCommand::Shutdown),
        ("sleep", SafeCommand::Sleep),
        ("lock", SafeCommand::Lock),
        ("volume_up", SafeCommand::VolumeUp),
        ("volume_down", SafeCommand::VolumeDown),
        ("volume_set", SafeCommand::VolumeSet),
        ("media_play", SafeCommand::MediaPlay),
        ("media_pause", SafeCommand::MediaPause),
        ("media_next", SafeCommand::MediaNext),
        ("media_prev", SafeCommand::MediaPrev),
    ];
    for (n, c) in names {
        assert_eq!(parse_safe_command(n), Ok(c));
    }
    assert_eq!(parse_safe_command("reboot"), Err("Неизвестная команда: reboot".to_string()));
    assert_eq!(parse_safe_command("Shutdown"), Err("Неизвестная команда: Shutdown".to_string()));
}

#[test]
fn shell_names() {
    assert_eq!(parse_shell_type(Some("cmd")), ShellType::Cmd);
    assert_eq!(parse_shell_type(Some("powershell")), ShellType::Powershell);
    assert_eq!(parse_shell_type(Some("bash")), ShellType::Powershell);
    assert_eq!(parse_shell_type(None), ShellType::Powershell);
    assert_eq!(ShellType::default(), ShellType::Powershell);
    match shell_request("ls".into(), Some("cmd")) {
        ClientRequest::Shell { cmd, shell } => {
            assert_eq!(cmd, "ls");
            assert_eq!(shell, ShellType::Cmd);
        }
        _ => panic!(),
    }
}

#[test]
fn safe_requests() {
    match safe_request("volume_set", Some(SafeParams { level: Some(20) })).unwrap() {
        ClientRequest::Safe { command, params } => {
            assert_eq!(command, SafeCommand::VolumeSet);
            assert_eq!(params.level, Some(20));
        }
        _ => panic!(),
    }
    match safe_request("lock", None).unwrap() {
        ClientRequest::Safe { params, .. } => assert_eq!(params.level, None),
        _ => panic!(),
    }
    assert!(matches!(safe_request("x", None), Err(e) if e == "Неизвестная команда: x"));
}

#[test]
fn server_list_operations() {
    let mut list = vec![server("a", "1.1.1.1"), server("b", "2.2.2.2"), server("c", "3.3.3.3")];
    assert_eq!(find_server(&list, "b"), Ok(1));
    assert_eq!(find_server(&list, "z"), Err("Сервер z не найден".to_string()));
    assert_eq!(set_server_ip(&mut list, "b", "9.9.9.9".into()), Ok(()));
    assert_eq!(list[1].ip, "9.9.9.9");
    assert_eq!(list[0].ip, "1.1.1.1");
    assert_eq!(list[1].id, "b");
    assert_eq!(set_server_ip(&mut list, "q", "0.0.0.0".into()), Err("Сервер q не найден".to_string()));
    remove_server(&mut list, "a");
    assert_eq!(list.iter().map(|s| s.id.as_str()).collect::<Vec<_>>(), vec!["b", "c"]);
    let sums = server_summaries(&list);
    assert_eq!(sums[0].ip, "9.9.9.9");
    assert_eq!(sums[1].name, "pc-c");
    assert_eq!(sums[1].port, 8080);
}

#[test]
fn pairing_from_qr() {
    let qr = PairingQr { ip: "192.168.0.3".into(), port: 8080, server_public_key: "PK".into(), pairing_token: "T".into() };
    let t = pairing_target(&qr, "Home");
    assert_eq!(t.id, "_pairing_");
    assert_eq!(t.server_public_key_b64, "PK");
    match pair_request(&qr, "Pixel".into()) {
        ClientRequest::Pair { token, name } => {
            assert_eq!(token, "T");
            assert_eq!(name, "Pixel");
        }
        _ => panic!(),
    }
    let s = paired_server(&qr, "Home".into());
    assert_eq!(s.id.len(), 36);
    assert_eq!(s.ip, "192.168.0.3");
    assert_eq!(pairing_outcome(&ServerResponse::ok()), Ok(()));
    assert_eq!(pairing_outcome(&ServerResponse::err("expired".into())), Err("expired".to_string()));
    let bare = ServerResponse { ok: false, output: None, error: None, data: None };
    assert_eq!(pairing_outcome(&bare), Err("Паринг не удался".to_string()));
}

#[test]
fn session_reuse() {
    assert!(session_serves(Some("a"), "a"));
    assert!(!session_serves(Some("a"), "b"));
    assert!(!session_serves(None, "a"));
}

#[test]
fn fallback_replies_for_status_queries() {
    let r = fallback_reply(&ClientRequest::CheckDevStatus, ReplyFailure::Body).unwrap();
    assert!(matches!(r.data, Some(ResponseData::DevStatus { ref mode, is_dev: false }) if mode == "default"));
    let r = fallback_reply(&ClientRequest::GetMode, ReplyFailure::Header).unwrap();
    assert!(matches!(r.data, Some(ResponseData::Mode { ref mode }) if mode == "default"));
    assert!(fallback_reply(&ClientRequest::GetMode, ReplyFailure::Body).is_none());
    assert!(fallback_reply(&ClientRequest::ListProfiles, ReplyFailure::Header).is_none());
}

#[test]
fn reply_and_handshake_length_limits() {
    assert_eq!(check_reply_len(65535), Ok(65535));
    assert_eq!(check_reply_len(65536), Err("Слишком большой ответ: 65536".to_string()));
    assert_eq!(check_handshake_len(32), Ok(32));
    assert_eq!(check_handshake_len(70000), Err("Слишком большой фрейм хендшейка".to_string()));
}

#[test]
fn phone_keys() {
    let k = PhoneKeypair::generate().unwrap();
    assert_eq!(k.private_key().len(), 32);
    assert!(PhoneKeypair { private_key_b64: "*".into(), public_key_b64: String::new() }.try_private_key().is_none());
}

#[test]
fn law_removed_server_is_gone() {
    let mut list = vec![server("a", "1.1.1.1"), server("b", "2.2.2.2"), server("a", "3.3.3.3")];
    remove_server(&mut list, "a");
    assert_eq!(find_server(&list, "a"), Err("Сервер a не найден".to_string()));
    assert_eq!(find_server(&list, "b"), Ok(0));
}

#[test]
fn reply_failure_texts() {
    assert!(matches!(reply_failure(&ClientRequest::ListProfiles, ReplyFailure::Header, "timed out"), Err(ref e) if e == "Ошибка чтения заголовка ответа: timed out"));
    assert!(matches!(reply_failure(&ClientRequest::GetMode, ReplyFailure::Body, "eof"), Err(ref e) if e == "Ошибка чтения тела ответа: eof"));
    assert!(matches!(reply_failure(&ClientRequest::ListProfiles, ReplyFailure::Parse, "bad json"), Err(ref e) if e == "Ошибка парсинга ответа: bad json"));
    assert!(reply_failure(&ClientRequest::CheckDevStatus, ReplyFailure::Parse, "x").unwrap().ok);
    assert!(reply_failure(&ClientRequest::GetMode, ReplyFailure::Header, "x").unwrap().ok);
}

#[test]
fn fallback_path_steps() {
    let (s, a) = fallback_step(FallbackState::Start, FallbackEvent::Begin);
    assert_eq!(s, FallbackState::FirstTry);
    assert!(matches!(a, FallbackAction::Send));
    let (s, a) = fallback_step(s, FallbackEvent::Replied(Err("down".into())));
    assert_eq!(s, FallbackState::Discovering);
    assert!(matches!(a, FallbackAction::Discover { timeout_secs: 15 }));
    let (s, a) = fallback_step(s, FallbackEvent::Discovered(Ok("10.0.0.7".into())));
    assert_eq!(s, FallbackState::Saving);
    assert!(matches!(a, FallbackAction::RecordIp { ref ip } if ip == "10.0.0.7"));
    let (s, a) = fallback_step(s, FallbackEvent::Saved(Ok(())));
    assert_eq!(s, FallbackState::Retrying);
    assert!(matches!(a, FallbackAction::SendFresh));
    let (s, a) = fallback_step(s, FallbackEvent::Replied(Ok(ServerResponse::ok_output("done".into()))));
    assert_eq!(s, FallbackState::Done);
    assert!(matches!(a, FallbackAction::Finish(Ok(ReplyValue::Text(ref t))) if t == "done"));
    let (s, a) = fallback_step(s, FallbackEvent::Begin);
    assert_eq!(s, FallbackState::Done);
    assert!(matches!(a, FallbackAction::Wait));
}

#[test]
fn law_fallback_retries_once_on_values() {
    let (s, a) = fallback_step(FallbackState::Retrying, FallbackEvent::Replied(Err("gone".into())));
    assert_eq!(s, FallbackState::Done);
    assert!(matches!(a, FallbackAction::Finish(Err(ref e)) if e == "gone"));
    let (s, a) = fallback_step(FallbackState::Discovering, FallbackEvent::Discovered(Err("no beacon".into())));
    assert_eq!(s, FallbackState::Done);
    assert!(matches!(a, FallbackAction::Finish(Err(ref e)) if e == "no beacon"));
}

#[test]
fn session_reuse_rules() {
    assert!(aetherlink::phone::reuse_session(Some("a"), "a", false));
    assert!(!aetherlink::phone::reuse_session(Some("a"), "a", true));
    assert!(!aetherlink::phone::reuse_session(Some("b"), "a", false));
    assert!(!aetherlink::phone::reuse_session(None, "a", false));
}
