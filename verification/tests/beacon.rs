use aetherlink::beacon::{is_beacon, BEACON_MSG, BEACON_PORT};

#[test]
fn beacon_message_is_the_documented_text() {
    assert_eq!(&BEACON_MSG, b"AETHERLINK_8080");
    assert_eq!(BEACON_PORT, 9999);
}

#[test]
fn only_the_exact_beacon_is_recognised() {
    assert!(is_beacon(b"AETHERLINK_8080"));
    assert!(!is_beacon(b"AETHERLINK_8081"));
    assert!(!is_beacon(b"AETHERLINK_8080 "));
    assert!(!is_beacon(b"AETHERLINK_808"));
    assert!(!is_beacon(b""));
}
