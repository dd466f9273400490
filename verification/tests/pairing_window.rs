use aetherlink::pairing::{PairingSession, PAIRING_TTL_MS};

#[test]
fn law_token_expires_on_values() {
    let s = PairingSession::new("abc".into(), 1_000);
    assert_eq!(PAIRING_TTL_MS, 120_000);
    assert!(s.is_valid("abc", 1_000));
    assert!(s.is_valid("abc", 120_999));
    assert!(!s.is_valid("abc", 121_000));
    assert!(!s.is_valid("abd", 2_000));
    assert!(!s.is_valid("", 2_000));
}
