use aetherlink::automation::{find_profile, launch_for, launch_response, remove_profile, run, Profile, ProfileKind, RunStep};

fn profiles() -> Vec<Profile> {
    vec![
        Profile::new("Minecraft".into(), Some("Запускает сервер".into()), ProfileKind::RunBat { path: "C:\\mc\\start.bat".into() }),
        Profile::new("Notepad".into(), None, ProfileKind::RunExe { path: "notepad.exe".into(), args: vec!["a.txt".into()] }),
        Profile::new("Script".into(), None, ProfileKind::PowerShell { script: "Get-Date".into() }),
    ]
}

#[test]
fn new_profiles_get_fresh_ids() {
    let p = profiles();
    assert_eq!(p[0].id.len(), 36);
    assert_ne!(p[0].id, p[1].id);
    assert_eq!(p[0].description.as_deref(), Some("Запускает сервер"));
}

#[test]
fn find_and_remove_by_id() {
    let mut p = profiles();
    let id = p[1].id.clone();
    assert_eq!(find_profile(&p, &id).unwrap().name, "Notepad");
    assert!(find_profile(&p, "nope").is_none());
    remove_profile(&mut p, &id);
    assert_eq!(p.len(), 2);
    assert!(find_profile(&p, &id).is_none());
    assert_eq!(p[0].name, "Minecraft");
    assert_eq!(p[1].name, "Script");
}

#[test]
fn launches_per_kind() {
    let p = profiles();
    let l = launch_for(&p[0]);
    assert_eq!(l.launch.program, "cmd");
    assert_eq!(l.launch.args, vec!["/c", "C:\\mc\\start.bat"]);
    assert_eq!(l.success, "Запущено: Minecraft");
    assert_eq!(l.error_prefix, "Ошибка запуска bat: ");
    let l = launch_for(&p[1]);
    assert_eq!(l.launch.program, "notepad.exe");
    assert_eq!(l.launch.args, vec!["a.txt"]);
    assert_eq!(l.error_prefix, "Ошибка запуска exe: ");
    let l = launch_for(&p[2]);
    assert_eq!(l.launch.program, "powershell");
    assert_eq!(l.launch.args, vec!["-NoProfile", "-NonInteractive", "-Command", "Get-Date"]);
    assert_eq!(l.success, "Выполнено: Script");
    assert_eq!(l.error_prefix, "Ошибка PowerShell: ");
}

#[test]
fn run_reports_loading_and_lookup_errors() {
    match run(Err("bad json".into()), "x") {
        RunStep::Respond(r) => assert_eq!(r.error.unwrap(), "Не удалось загрузить профили: bad json"),
        _ => panic!(),
    }
    match run(Ok(profiles()), "start_mc_server") {
        RunStep::Respond(r) => assert_eq!(r.error.unwrap(), "Профиль 'start_mc_server' не найден"),
        _ => panic!(),
    }
    let p = profiles();
    let id = p[2].id.clone();
    match run(Ok(p), &id) {
        RunStep::Start(l) => {
            assert_eq!(l.success, "Выполнено: Script");
            let ok = launch_response(l, Ok(()));
            assert_eq!(ok.output.unwrap(), "Выполнено: Script");
        }
        _ => panic!(),
    }
}

#[test]
fn spawn_errors_get_their_prefix() {
    let p = profiles();
    let r = launch_response(launch_for(&p[0]), Err("not found".into()));
    assert_eq!(r.error.unwrap(), "Ошибка запуска bat: not found");
}

#[test]
fn profile_ids_are_uuid_v4_text() {
    let p = Profile::new("x".into(), None, ProfileKind::PowerShell { script: "Get-Date".into() });
    let c: Vec<char> = p.id.chars().collect();
    assert_eq!(c.len(), 36);
    for (i, ch) in c.iter().enumerate() {
        if [8, 13, 18, 23].contains(&i) {
            assert_eq!(*ch, '-');
        } else {
            assert!(ch.is_ascii_digit() || ('a'..='f').contains(ch));
        }
    }
    assert_eq!(c[14], '4');
    assert!(['8', '9', 'a', 'b'].contains(&c[19]));
}
