use base64::Engine;
use ed25519_dalek::Verifier;
use sacas::identity::DeviceIdentity;
use sacas::signer::SignedSyncRequest;

fn test_identity() -> DeviceIdentity {
    DeviceIdentity::from_key_bytes(vec![7u8; 32]).unwrap()
}

fn hex_to_bytes(s: &str) -> Vec<u8> {
    let chars: Vec<u8> = s.bytes().collect();
    let mut out = Vec::new();
    let digit = |c: u8| -> u8 {
        match c {
            b'0'..=b'9' => c - b'0',
            b'a'..=b'f' => c - b'a' + 10,
            _ => panic!("not a hex digit"),
        }
    };
    let mut i = 0;
    while i + 1 < chars.len() {
        out.push(digit(chars[i]) * 16 + digit(chars[i + 1]));
        i += 2;
    }
    out
}

#[test]
fn test_identity_rejects_bad_key_material() {
    assert!(DeviceIdentity::from_key_bytes(vec![1u8; 31]).is_err());
    assert!(DeviceIdentity::from_key_bytes(vec![1u8; 33]).is_err());
    assert!(DeviceIdentity::from_key_bytes(Vec::new()).is_err());
    assert!(DeviceIdentity::from_key_bytes(vec![1u8; 32]).is_ok());
}

#[test]
fn test_sign_and_verify() {
    let identity = test_identity();
    let message = b"Hello, SACAS!";
    let signature = identity.sign(message);

    let sk = ed25519_dalek::SigningKey::from_bytes(&[7u8; 32]);
    let sig = ed25519_dalek::Signature::from_bytes(signature.as_slice().try_into().unwrap());
    assert!(sk.verifying_key().verify(message, &sig).is_ok());
}

#[test]
fn test_public_key_encoding() {
    let identity = test_identity();
    let sk = ed25519_dalek::SigningKey::from_bytes(&[7u8; 32]);
    let expected =
        base64::engine::general_purpose::STANDARD.encode(sk.verifying_key().to_bytes());
    assert_eq!(identity.public_key_base64(), expected);
}

#[test]
fn test_create_signed_request() {
    let identity = test_identity();

    let request = SignedSyncRequest::create_and_sign(
        "test-device-123",
        1000,
        950,
        3600,
        &identity,
    );

    assert_eq!(request.device_id, "test-device-123");
    assert_eq!(request.entropy_delta, 1000);
    assert!(!request.signature.is_empty());
    assert!(!request.nonce.is_empty());
    assert!(request.timestamp > 0);
}

#[test]
fn test_canonical_message_format() {
    let identity = test_identity();
    let request = SignedSyncRequest::create_and_sign_at(
        "dev-123",
        500,
        1000,
        60,
        1738576800,
        "nonce-123".to_string(),
        &identity,
    );

    let canonical = request.canonical_message();
    assert!(canonical.contains("POST|/api/devices/dev-123/sync"));
    assert!(canonical.contains("|1738576800|nonce-123"));
}

#[test]
fn test_body_signed_is_body_sent() {
    let identity = test_identity();
    let request = SignedSyncRequest::create_and_sign_at(
        "dev-123",
        1000,
        950,
        3600,
        1738576800,
        "nonce-123".to_string(),
        &identity,
    );

    let body = request.body_string().to_string();
    assert_eq!(
        body,
        "{\"entropy_delta\":1000,\"network_quality\":0.95,\"uptime_seconds\":3600}"
    );
    // The canonical message embeds the transmitted body verbatim.
    assert!(request.canonical_message().contains(&body));
    // The signature covers exactly that canonical message.
    let sk = ed25519_dalek::SigningKey::from_bytes(&[7u8; 32]);
    let raw = base64::engine::general_purpose::STANDARD
        .decode(&request.signature)
        .unwrap();
    let sig = ed25519_dalek::Signature::from_bytes(raw.as_slice().try_into().unwrap());
    assert!(sk
        .verifying_key()
        .verify(request.canonical_message().as_bytes(), &sig)
        .is_ok());
}

#[test]
fn test_whole_number_quality_keeps_trailing_zero() {
    let identity = test_identity();
    let request = SignedSyncRequest::create_and_sign_at(
        "dev",
        -5,
        1000,
        60,
        1,
        "n".to_string(),
        &identity,
    );
    assert_eq!(
        request.body_string(),
        "{\"entropy_delta\":-5,\"network_quality\":1.0,\"uptime_seconds\":60}"
    );
    let request2 = SignedSyncRequest::create_and_sign_at(
        "dev",
        0,
        1500,
        60,
        1,
        "n".to_string(),
        &identity,
    );
    assert_eq!(
        request2.body_string(),
        "{\"entropy_delta\":0,\"network_quality\":1.5,\"uptime_seconds\":60}"
    );
}

#[test]
fn test_signing_deterministic_and_field_sensitive() {
    let identity = test_identity();
    let a = SignedSyncRequest::create_and_sign_at(
        "dev",
        10,
        950,
        60,
        1000,
        "n1".to_string(),
        &identity,
    );
    let b = SignedSyncRequest::create_and_sign_at(
        "dev",
        10,
        950,
        60,
        1000,
        "n1".to_string(),
        &identity,
    );
    assert_eq!(a.signature, b.signature);

    let delta_changed = SignedSyncRequest::create_and_sign_at(
        "dev",
        11,
        950,
        60,
        1000,
        "n1".to_string(),
        &identity,
    );
    let ts_changed = SignedSyncRequest::create_and_sign_at(
        "dev",
        10,
        950,
        60,
        1001,
        "n1".to_string(),
        &identity,
    );
    let nonce_changed = SignedSyncRequest::create_and_sign_at(
        "dev",
        10,
        950,
        60,
        1000,
        "n2".to_string(),
        &identity,
    );
    assert_ne!(a.signature, delta_changed.signature);
    assert_ne!(a.signature, ts_changed.signature);
    assert_ne!(a.signature, nonce_changed.signature);
}

#[test]
fn test_headers_carry_identity_and_signature() {
    let identity = test_identity();
    let request = SignedSyncRequest::create_and_sign_at(
        "dev-9",
        1,
        100,
        2,
        77,
        "n".to_string(),
        &identity,
    );
    let headers = request.headers();
    assert_eq!(headers.len(), 4);
    assert_eq!(headers[0], ("x-device-id".to_string(), "dev-9".to_string()));
    assert_eq!(headers[1].0, "x-signature");
    assert_eq!(headers[1].1, request.signature);
    assert_eq!(headers[2], ("x-timestamp".to_string(), "77".to_string()));
    assert_eq!(headers[3], ("x-nonce".to_string(), "n".to_string()));
}

#[test]
fn test_generic_signed_call_hex_signature() {
    let identity = test_identity();
    let call = sacas::signer::sign_call(&identity, "POST", "game/radar/scan", "{}", 123);
    assert_eq!(call.nonce.len(), 36);
    let canonical = format!("POST|game/radar/scan|{{}}|123|{}", call.nonce);
    let sk = ed25519_dalek::SigningKey::from_bytes(&[7u8; 32]);
    let raw = hex_to_bytes(&call.signature_hex);
    let sig = ed25519_dalek::Signature::from_bytes(raw.as_slice().try_into().unwrap());
    assert!(sk.verifying_key().verify(canonical.as_bytes(), &sig).is_ok());
}

#[test]
fn test_clock_reading_required() {
    let identity = test_identity();
    let r = sacas::signer::sign_call_with_clock(&identity, "GET", "game/defense/status", "", None);
    assert!(matches!(r, Err(sacas::signer::SignError::ClockUnavailable)));
    let ok = sacas::signer::sign_call_with_clock(&identity, "GET", "game/defense/status", "", Some(5));
    let (_, ts) = ok.unwrap();
    assert_eq!(ts, 5);
}

#[test]
fn test_ws_auth_signature() {
    let identity = test_identity();
    let (timestamp, nonce, signature) = sacas::signer::create_auth_signature(&identity);
    assert_eq!(nonce.len(), 36);
    let canonical = format!("WS|/ws|AUTH|{}|{}", timestamp, nonce);
    let sk = ed25519_dalek::SigningKey::from_bytes(&[7u8; 32]);
    let raw = base64::engine::general_purpose::STANDARD.decode(&signature).unwrap();
    let sig = ed25519_dalek::Signature::from_bytes(raw.as_slice().try_into().unwrap());
    assert!(sk.verifying_key().verify(canonical.as_bytes(), &sig).is_ok());
}
