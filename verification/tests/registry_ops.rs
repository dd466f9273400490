use aetherlink::auth::{DeviceMode, DeviceRegistry};
use aetherlink::pc_auth;

#[test]
fn add_stores_base64_key_in_automation_mode() {
    let mut reg = DeviceRegistry::new();
    let d = reg.add("Pixel".to_string(), &[1, 2, 3]);
    assert_eq!(d.public_key_b64, "AQID");
    assert_eq!(d.mode, DeviceMode::Automation);
    assert_eq!(d.name, "Pixel");
    assert_eq!(d.id.len(), 36);
    assert_eq!(reg.devices.len(), 1);
    assert_eq!(reg.devices[0].id, d.id);
}

#[test]
fn pc_add_uses_default_mode() {
    let mut reg = pc_auth::DeviceRegistry::new();
    let d = reg.add("Phone".to_string(), &[0xff]);
    assert_eq!(d.mode, pc_auth::DeviceMode::Default);
    assert_eq!(d.public_key_b64, "/w==");
}

#[test]
fn find_by_pubkey_encodes_the_key() {
    let mut reg = DeviceRegistry::new();
    reg.add("a".into(), &[1, 2, 3]);
    reg.add("b".into(), &[4, 5, 6]);
    assert_eq!(reg.find_by_pubkey(&[4, 5, 6]).unwrap().name, "b");
    assert!(reg.find_by_pubkey(&[7]).is_none());
    assert!(DeviceRegistry::new().find_by_pubkey(&[1, 2, 3]).is_none());
}

#[test]
fn law_lookup_after_add_on_values() {
    let mut reg = DeviceRegistry::new();
    assert!(reg.find_by_pubkey(&[9, 9]).is_none());
    let d = reg.add("new".into(), &[9, 9]);
    assert_eq!(reg.find_by_pubkey(&[9, 9]).unwrap().id, d.id);
    // A second device with the same key is found only after the first.
    let first_id = d.id.clone();
    reg.add("dup".into(), &[9, 9]);
    assert_eq!(reg.find_by_pubkey(&[9, 9]).unwrap().id, first_id);
}

#[test]
fn find_by_id_mut_changes_in_place() {
    let mut reg = DeviceRegistry::new();
    let a = reg.add("a".into(), &[1]);
    let b = reg.add("b".into(), &[2]);
    reg.find_by_id_mut(&b.id).unwrap().name = "renamed".into();
    assert_eq!(reg.devices[1].name, "renamed");
    assert_eq!(reg.devices[0].name, "a");
    assert!(reg.find_by_id_mut("missing").is_none());
    assert_eq!(reg.devices[0].id, a.id);
}

#[test]
fn set_device_mode_changes_only_that_device() {
    let mut reg = DeviceRegistry::new();
    let a = reg.add("a".into(), &[1]);
    let b = reg.add("b".into(), &[2]);
    assert_eq!(reg.set_device_mode(&b.id, DeviceMode::Developer), Ok(()));
    assert_eq!(reg.devices[1].mode, DeviceMode::Developer);
    assert_eq!(reg.devices[0].mode, DeviceMode::Automation);
    assert_eq!(
        reg.set_device_mode("nope", DeviceMode::Safe),
        Err("Устройство nope не найдено".to_string())
    );
    assert_eq!(reg.devices[0].id, a.id);
}

#[test]
fn law_removed_device_is_gone() {
    let mut reg = DeviceRegistry::new();
    let a = reg.add("a".into(), &[1]);
    let b = reg.add("b".into(), &[2]);
    let c = reg.add("c".into(), &[3]);
    reg.remove(&b.id);
    let ids: Vec<_> = reg.devices.iter().map(|d| d.id.clone()).collect();
    assert_eq!(ids, vec![a.id.clone(), c.id.clone()]);
    assert!(reg.find_by_pubkey(&[2]).is_none());
    reg.remove("unknown");
    assert_eq!(reg.devices.len(), 2);
}

#[test]
fn summaries_list_everything_but_keys() {
    let mut reg = DeviceRegistry::new();
    let a = reg.add("a".into(), &[1]);
    reg.set_device_mode(&a.id, DeviceMode::Safe).unwrap();
    let s = reg.summaries();
    assert_eq!(s.len(), 1);
    assert_eq!(s[0].id, a.id);
    assert_eq!(s[0].name, "a");
    assert_eq!(s[0].mode, DeviceMode::Safe);
}

#[test]
fn keys_are_stored_as_padded_base64() {
    let mut reg = DeviceRegistry::new();
    assert_eq!(reg.add("one".into(), &[0xfb]).public_key_b64, "+w==");
    assert_eq!(reg.add("two".into(), &[1, 2]).public_key_b64, "AQI=");
    assert_eq!(reg.add("four".into(), &[77, 97, 110, 121]).public_key_b64, "TWFueQ==");
}
