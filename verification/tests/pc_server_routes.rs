use aetherlink::automation::{Profile, ProfileKind};
use aetherlink::crypto::CryptoKeyPair;
use aetherlink::pc_auth::{mode_text, new_pairing_token, DeviceMode, DeviceRegistry};
use aetherlink::pc_server::{apply_edit, route, saved_response, EditStep, PcAction, PcServerState, ProfileEdit, SavedReply};
use aetherlink::protocol::{ClientRequest, ResponseData, ShellType};

fn refusal(a: &PcAction) -> String {
    match a {
        PcAction::Respond(r) => {
            assert!(!r.ok);
            r.error.clone().unwrap()
        }
        _ => panic!("expected a response"),
    }
}

fn bat() -> ProfileKind {
    ProfileKind::RunBat { path: "C:\\mc\\start.bat".into() }
}

#[test]
fn law_editing_needs_developer_on_values() {
    let mut reg = DeviceRegistry::new();
    let d = reg.add("p".into(), &[1]);
    assert_eq!(
        refusal(&route(ClientRequest::Shell { cmd: "x".into(), shell: ShellType::Cmd }, &d)),
        "Для Shell нужен режим Developer."
    );
    assert_eq!(
        refusal(&route(ClientRequest::CreateProfile { name: "n".into(), description: None, commands: bat() }, &d)),
        "Для создания профилей нужен режим Developer."
    );
    assert_eq!(refusal(&route(ClientRequest::GetDevProfiles, &d)), "Для редактирования профилей нужен режим Developer.");
    assert_eq!(
        refusal(&route(ClientRequest::DeleteProfile { profile_id: "i".into() }, &d)),
        "Для удаления профилей нужен режим Developer."
    );
    assert_eq!(
        refusal(&route(ClientRequest::AddProfile { name: "n".into(), description: None, kind: Err("bad".into()) }, &d)),
        "Для добавления команд нужен режим Developer."
    );
}

#[test]
fn developer_routes() {
    let mut reg = DeviceRegistry::new();
    let mut d = reg.add("p".into(), &[1]);
    d.mode = DeviceMode::Developer;
    assert!(matches!(route(ClientRequest::GetDevProfiles, &d), PcAction::ListProfiles));
    assert!(matches!(
        route(ClientRequest::Shell { cmd: "x".into(), shell: ShellType::Powershell }, &d),
        PcAction::RunShell { .. }
    ));
    assert!(matches!(
        route(ClientRequest::DeleteProfile { profile_id: "i".into() }, &d),
        PcAction::EditProfiles(ProfileEdit::Delete { .. })
    ));
    assert_eq!(
        refusal(&route(ClientRequest::AddProfile { name: "n".into(), description: None, kind: Err("missing field `path`".into()) }, &d)),
        "Неверный формат команды: missing field `path`"
    );
    assert!(matches!(
        route(ClientRequest::AddProfile { name: "n".into(), description: None, kind: Ok(bat()) }, &d),
        PcAction::EditProfiles(ProfileEdit::Add { .. })
    ));
}

#[test]
fn mode_queries() {
    let mut reg = DeviceRegistry::new();
    let mut d = reg.add("p".into(), &[1]);
    match route(ClientRequest::GetMode, &d) {
        PcAction::Respond(r) => assert!(matches!(r.data, Some(ResponseData::Mode { ref mode }) if mode == "default")),
        _ => panic!(),
    }
    d.mode = DeviceMode::Developer;
    match route(ClientRequest::CheckDevStatus, &d) {
        PcAction::Respond(r) => {
            assert!(r.ok);
            assert!(matches!(r.data, Some(ResponseData::DevStatus { ref mode, is_dev: true }) if mode == "developer"));
        }
        _ => panic!(),
    }
    assert_eq!(mode_text(DeviceMode::Default), "default");
}

#[test]
fn edits_apply_to_loaded_profiles() {
    let existing = vec![Profile::new("a".into(), None, bat()), Profile::new("b".into(), Some("d".into()), bat())];
    let b_id = existing[1].id.clone();
    match apply_edit(ProfileEdit::Create { name: "c".into(), description: None, kind: bat() }, Ok(existing.clone())) {
        EditStep::Save { profiles, reply: SavedReply::Created { id } } => {
            assert_eq!(profiles.len(), 3);
            assert_eq!(profiles[2].name, "c");
            assert_eq!(profiles[2].id, id);
        }
        _ => panic!(),
    }
    match apply_edit(ProfileEdit::Delete { profile_id: b_id }, Ok(existing.clone())) {
        EditStep::Save { profiles, reply: SavedReply::Done } => {
            assert_eq!(profiles.len(), 1);
            assert_eq!(profiles[0].name, "a");
        }
        _ => panic!(),
    }
    match apply_edit(ProfileEdit::Add { name: "z".into(), description: None, kind: bat() }, Err("io".into())) {
        EditStep::Respond(r) => assert_eq!(r.error.unwrap(), "io"),
        _ => panic!(),
    }
}

#[test]
fn saved_responses() {
    let r = saved_response(SavedReply::Created { id: "42".into() }, Ok(()));
    assert!(matches!(r.data, Some(ResponseData::ProfileCreated { ref id }) if id == "42"));
    let r = saved_response(SavedReply::Done, Ok(()));
    assert!(r.ok && r.data.is_none());
    let r = saved_response(SavedReply::Done, Err("denied".into()));
    assert_eq!(r.error.unwrap(), "Ошибка сохранения: denied");
}

#[test]
fn pc_pairing_flow() {
    let mut s = PcServerState {
        server_keys: CryptoKeyPair { private_key_b64: String::new(), public_key_b64: "pk".into() },
        registry: DeviceRegistry::new(),
        pairing: None,
    };
    let token = new_pairing_token();
    let qr = s.start_pairing(token.clone(), "10.0.0.2".into(), 50);
    assert_eq!(qr.server_public_key, "pk");
    let d = match s.dispatch(ClientRequest::Pair { token, name: "Phone".into() }, &[3, 3], 60) {
        PcAction::SaveNewDevice(d) => d,
        _ => panic!(),
    };
    assert_eq!(d.mode, DeviceMode::Default);
    let r = s.finish_pairing(&d, Err("x".into()));
    assert_eq!(r.error.unwrap(), "Ошибка保存 реестра: x");
    let r = s.finish_pairing(&d, Ok(()));
    assert!(r.ok);
    assert!(s.pairing.is_none());
    assert!(matches!(s.dispatch(ClientRequest::ListProfiles, &[3, 3], 70), PcAction::ListProfiles));
    assert_eq!(
        refusal(&s.dispatch(ClientRequest::GetMode, &[4], 70)),
        "Устройство не привязано. Сначала выполните паринг."
    );
}
