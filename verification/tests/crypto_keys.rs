use aetherlink::crypto::{
    decrypt_frame, encrypt_frame, generate_pairing_token, init_initiator, init_initiator_checked,
    init_responder, init_responder_checked, CryptoKeyPair, NOISE_PATTERN,
};
use aetherlink::frame::{frame_body_len, FRAME_LIMIT};
use aetherlink::handshake::{answer_server, finish_initiator, finish_responder, initiate, pin_server_key, respond_to_first};

fn body(frame: &[u8]) -> Vec<u8> {
    let len = frame_body_len(&frame[..4], FRAME_LIMIT).unwrap();
    assert_eq!(frame.len(), len + 4);
    frame[4..].to_vec()
}

#[test]
fn noise_pattern_is_documented_one() {
    assert_eq!(NOISE_PATTERN, "Noise_XX_25519_AESGCM_SHA256");
}

#[test]
fn generated_keys_decode_to_32_bytes() {
    let kp = CryptoKeyPair::generate().unwrap();
    assert_eq!(kp.private_key().len(), 32);
    assert_eq!(kp.public_key().len(), 32);
    assert_eq!(kp.private_key_b64.len(), 44);
    assert_eq!(kp.public_key_b64.len(), 44);
    assert!(init_initiator_checked(&kp).is_some());
}

#[test]
fn decoding_invalid_base64_is_refused() {
    let kp = CryptoKeyPair { private_key_b64: "not base64!".into(), public_key_b64: "AQID".into() };
    assert!(kp.try_private_key().is_none());
    assert_eq!(kp.try_public_key(), Some(vec![1, 2, 3]));
    assert!(init_initiator_checked(&kp).is_none());
    assert!(init_responder_checked(&kp).is_none());
}

#[test]
fn overlong_private_key_is_not_handed_to_snow() {
    // 33 bytes of zeros, base64.
    let kp = CryptoKeyPair {
        private_key_b64: "AAAAAAAAAAAAAAAAAAAAAAAAAAAAAAAAAAAAAAAAAAAA".into(),
        public_key_b64: String::new(),
    };
    assert_eq!(kp.try_private_key().unwrap().len(), 33);
    assert!(init_initiator_checked(&kp).is_none());
}

#[test]
fn pairing_token_is_44_chars_of_32_bytes() {
    let t1 = generate_pairing_token();
    let t2 = generate_pairing_token();
    assert_eq!(t1.len(), 44);
    let kp = CryptoKeyPair { private_key_b64: t1.clone(), public_key_b64: t2.clone() };
    assert_eq!(kp.private_key().len(), 32);
    assert_ne!(t1, t2);
}

#[test]
fn full_handshake_and_transport_roundtrip() {
    let server = CryptoKeyPair::generate().unwrap();
    let phone = CryptoKeyPair::generate().unwrap();
    let mut client_hs = init_initiator(&phone).unwrap();
    let mut server_hs = init_responder(&server).unwrap();

    let f1 = initiate(&mut client_hs).unwrap();
    let f2 = respond_to_first(&mut server_hs, &body(&f1)).unwrap();
    let (f3, seen_server_key) = answer_server(&mut client_hs, &body(&f2), &server.public_key_b64).unwrap();
    assert_eq!(seen_server_key, server.public_key());
    let (phone_key, mut server_t) = finish_responder(server_hs, &body(&f3)).unwrap();
    assert_eq!(phone_key, phone.public_key());
    let mut client_t = finish_initiator(client_hs).unwrap();

    let sealed = encrypt_frame(&mut client_t, b"{\"action\":\"list_profiles\"}").unwrap();
    assert_eq!(sealed.len(), 26 + 16);
    let opened = decrypt_frame(&mut server_t, &sealed).unwrap();
    assert_eq!(opened, b"{\"action\":\"list_profiles\"}".to_vec());

    let tampered = {
        let mut s = encrypt_frame(&mut server_t, b"ok").unwrap();
        s[0] ^= 1;
        s
    };
    let err = decrypt_frame(&mut client_t, &tampered).unwrap_err();
    assert!(err.starts_with("Ошибка расшифрования: "));
}

#[test]
fn law_pinned_server_key_refuses_other_server() {
    let server = CryptoKeyPair::generate().unwrap();
    let other = CryptoKeyPair::generate().unwrap();
    let phone = CryptoKeyPair::generate().unwrap();
    let mut client_hs = init_initiator(&phone).unwrap();
    let mut server_hs = init_responder(&server).unwrap();
    let f1 = initiate(&mut client_hs).unwrap();
    let f2 = respond_to_first(&mut server_hs, &body(&f1)).unwrap();
    let err = answer_server(&mut client_hs, &body(&f2), &other.public_key_b64).unwrap_err();
    assert_eq!(err, "⚠️ Public key сервера не совпадает! Возможна MITM-атака.");
}

#[test]
fn oversized_or_short_messages_are_refused() {
    let server = CryptoKeyPair::generate().unwrap();
    let phone = CryptoKeyPair::generate().unwrap();
    let mut client_hs = init_initiator(&phone).unwrap();
    let mut server_hs = init_responder(&server).unwrap();
    let f1 = initiate(&mut client_hs).unwrap();
    let f2 = respond_to_first(&mut server_hs, &body(&f1)).unwrap();
    let (f3, _) = answer_server(&mut client_hs, &body(&f2), &server.public_key_b64).unwrap();
    let (_, mut server_t) = finish_responder(server_hs, &body(&f3)).unwrap();
    let mut client_t = finish_initiator(client_hs).unwrap();

    let big = vec![0u8; 65520];
    let err = encrypt_frame(&mut client_t, &big).unwrap_err();
    assert!(err.starts_with("Ошибка шифрования: "));
    assert!(decrypt_frame(&mut server_t, &[1, 2, 3]).is_err());
}

#[test]
fn handshake_errors_carry_their_step() {
    let server = CryptoKeyPair::generate().unwrap();
    let mut server_hs = init_responder(&server).unwrap();
    let err = respond_to_first(&mut server_hs, &[1, 2, 3]).unwrap_err();
    assert!(err.starts_with("handshake msg1: "));
}

#[test]
fn only_canonical_base64_decodes() {
    let kp = CryptoKeyPair { private_key_b64: "QR==".into(), public_key_b64: "AQI".into() };
    assert!(kp.try_private_key().is_none());
    assert!(kp.try_public_key().is_none());
    let kp = CryptoKeyPair { private_key_b64: "AQI=".into(), public_key_b64: "".into() };
    assert_eq!(kp.try_private_key(), Some(vec![1, 2]));
    assert_eq!(kp.try_public_key(), Some(vec![]));
}

#[test]
fn pinned_key_check() {
    assert_eq!(pin_server_key(None, "AQID"), Err("Нет static key сервера после msg2".to_string()));
    assert_eq!(pin_server_key(Some(vec![1, 2, 3]), "AQID"), Ok(vec![1, 2, 3]));
    assert_eq!(
        pin_server_key(Some(vec![1, 2, 4]), "AQID"),
        Err("⚠️ Public key сервера не совпадает! Возможна MITM-атака.".to_string())
    );
}

#[test]
fn handshakes_are_always_built_for_generated_keys() {
    let kp = CryptoKeyPair::generate().unwrap();
    assert!(init_initiator(&kp).is_ok());
    assert!(init_responder(&kp).is_ok());
}

#[test]
fn checked_inits_build_for_usable_keys() {
    let kp = CryptoKeyPair::generate().unwrap();
    assert!(matches!(init_initiator_checked(&kp), Some(Ok(_))));
    assert!(matches!(init_responder_checked(&kp), Some(Ok(_))));
}
