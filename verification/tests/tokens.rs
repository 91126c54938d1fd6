//! Token issuance, verification and rotation, run against the real JWT
//! backend with controlled clock readings.
use auth_core::claims::Claims;
use auth_core::codec::TokenCodec;
use auth_core::errors::AuthError;
use auth_core::manager::JwtManager;

fn manager() -> JwtManager {
    JwtManager::new(
        Some("A-secret".to_string()),
        Some("R-secret".to_string()),
        Some("1".to_string()),
        Some("30".to_string()),
    )
    .unwrap()
}

const NOW: i64 = 1_700_000_000;

#[test]
fn codec_round_trip_reproduces_claims() {
    let codec = TokenCodec { secret: "roundtrip-secret".to_string() };
    let claims = Claims {
        uid: "user-7".to_string(),
        email: "seven@example.com".to_string(),
        iat: NOW,
        exp: NOW + 900,
        token_type: "access".to_string(),
        jti: None,
    };
    let token = codec.encode(&claims);
    assert_eq!(token.split('.').count(), 3);
    let back = codec.decode(&token, NOW).unwrap();
    assert_eq!(back.uid, "user-7");
    assert_eq!(back.email, "seven@example.com");
    assert_eq!(back.iat, NOW);
    assert_eq!(back.exp, NOW + 900);
    assert_eq!(back.token_type, "access");
    assert_eq!(back.jti, None);
}

#[test]
fn codec_round_trip_keeps_rotation_id() {
    let codec = TokenCodec { secret: "roundtrip-secret".to_string() };
    let claims = Claims {
        uid: "user-8".to_string(),
        email: "eight@example.com".to_string(),
        iat: NOW,
        exp: NOW + 900,
        token_type: "refresh".to_string(),
        jti: Some("rotation-1".to_string()),
    };
    let back = codec.decode(&codec.encode(&claims), NOW).unwrap();
    assert_eq!(back.jti.as_deref(), Some("rotation-1"));
}

#[test]
fn codec_rejects_tampered_signature() {
    let codec = TokenCodec { secret: "tamper-secret".to_string() };
    let claims = Claims {
        uid: "u".to_string(),
        email: "e@x.com".to_string(),
        iat: NOW,
        exp: NOW + 900,
        token_type: "access".to_string(),
        jti: None,
    };
    let token = codec.encode(&claims);
    let mut tampered: String = token.clone();
    let last = tampered.pop().unwrap();
    tampered.push(if last == 'A' { 'B' } else { 'A' });
    assert_eq!(codec.decode(&tampered, NOW).unwrap_err(), AuthError::Signature);
}

#[test]
fn codec_rejects_garbage_as_malformed() {
    let codec = TokenCodec { secret: "any".to_string() };
    assert_eq!(codec.decode("definitely not a token", NOW).unwrap_err(), AuthError::Malformed);
}

#[test]
fn codec_rejects_expired_even_when_signed() {
    let codec = TokenCodec { secret: "expiry-secret".to_string() };
    let claims = Claims {
        uid: "u".to_string(),
        email: "e@x.com".to_string(),
        iat: NOW - 1000,
        exp: NOW - 1,
        token_type: "access".to_string(),
        jti: None,
    };
    let token = codec.encode(&claims);
    assert_eq!(codec.decode(&token, NOW).unwrap_err(), AuthError::Expired);
}

#[test]
fn access_token_verifies_and_carries_claims() {
    let m = manager();
    let token = m.gen_access_token_at("u1", "a@b.com", NOW).unwrap();
    let claims = m.verify_access_token_at(&token, NOW + 10).unwrap();
    assert_eq!(claims.uid, "u1");
    assert_eq!(claims.email, "a@b.com");
    assert_eq!(claims.iat, NOW);
    assert_eq!(claims.exp, NOW + 3600);
    assert_eq!(claims.token_type, "access");
}

#[test]
fn access_token_fails_refresh_verification() {
    let m = manager();
    let token = m.gen_access_token_at("u1", "a@b.com", NOW).unwrap();
    let err = m.verify_refresh_token_at(&token, NOW + 10).unwrap_err();
    assert!(err == AuthError::Signature || err == AuthError::WrongClass);
}

#[test]
fn refresh_token_fails_access_verification() {
    let m = manager();
    let (token, _jti) = m.gen_refresh_token_at("u1", "a@b.com", NOW).unwrap();
    let err = m.verify_access_token_at(&token, NOW + 10).unwrap_err();
    assert!(err == AuthError::Signature || err == AuthError::WrongClass);
}

#[test]
fn wrong_class_under_right_secret_is_wrong_class() {
    let m = manager();
    let codec = TokenCodec { secret: "R-secret".to_string() };
    let claims = Claims {
        uid: "u1".to_string(),
        email: "a@b.com".to_string(),
        iat: NOW,
        exp: NOW + 900,
        token_type: "access".to_string(),
        jti: None,
    };
    let token = codec.encode(&claims);
    assert_eq!(m.verify_refresh_token_at(&token, NOW).unwrap_err(), AuthError::WrongClass);
}

#[test]
fn refresh_without_rotation_id_is_malformed() {
    let m = manager();
    let codec = TokenCodec { secret: "R-secret".to_string() };
    let claims = Claims {
        uid: "u1".to_string(),
        email: "a@b.com".to_string(),
        iat: NOW,
        exp: NOW + 900,
        token_type: "refresh".to_string(),
        jti: None,
    };
    let token = codec.encode(&claims);
    assert_eq!(m.verify_refresh_token_at(&token, NOW).unwrap_err(), AuthError::Malformed);
}

#[test]
fn expired_access_token_is_expired() {
    let m = manager();
    let token = m.gen_access_token_at("u1", "a@b.com", NOW).unwrap();
    assert_eq!(
        m.verify_access_token_at(&token, NOW + 2 * 3600).unwrap_err(),
        AuthError::Expired
    );
}

#[test]
fn rotation_id_has_uuid_length() {
    let m = manager();
    let (_token, jti) = m.gen_refresh_token_at("u1", "a@b.com", NOW).unwrap();
    assert_eq!(jti.len(), 36);
}

#[test]
fn rotation_mints_verifiable_tokens_and_fresh_id() {
    let m = manager();
    let (old_refresh, old_jti) = m.gen_refresh_token_at("u1", "a@b.com", NOW).unwrap();
    let (new_access, new_refresh, new_jti) =
        m.rotate_refresh_token_at(&old_refresh, NOW + 60).unwrap();
    assert_ne!(new_jti, old_jti);
    let access_claims = m.verify_access_token_at(&new_access, NOW + 120).unwrap();
    assert_eq!(access_claims.uid, "u1");
    assert_eq!(access_claims.email, "a@b.com");
    let refresh_claims = m.verify_refresh_token_at(&new_refresh, NOW + 120).unwrap();
    assert_eq!(refresh_claims.uid, "u1");
    assert_eq!(refresh_claims.jti, new_jti);
}

#[test]
fn rotation_fails_with_the_kind_verification_gives() {
    let m = manager();
    let (old_refresh, _jti) = m.gen_refresh_token_at("u1", "a@b.com", NOW).unwrap();

    let late = NOW + 31 * 86400;
    let direct = m.verify_refresh_token_at(&old_refresh, late).unwrap_err();
    let rotated = m.rotate_refresh_token_at(&old_refresh, late).unwrap_err();
    assert_eq!(direct, AuthError::Expired);
    assert_eq!(rotated, direct);

    let mut tampered: String = old_refresh.clone();
    let last = tampered.pop().unwrap();
    tampered.push(if last == 'A' { 'B' } else { 'A' });
    let direct_t = m.verify_refresh_token_at(&tampered, NOW).unwrap_err();
    let rotated_t = m.rotate_refresh_token_at(&tampered, NOW).unwrap_err();
    assert_eq!(rotated_t, direct_t);
}

#[test]
fn rotation_rejects_an_access_token() {
    let m = manager();
    let token = m.gen_access_token_at("u1", "a@b.com", NOW).unwrap();
    let err = m.rotate_refresh_token_at(&token, NOW).unwrap_err();
    assert!(err == AuthError::Signature || err == AuthError::WrongClass);
}

#[test]
fn verification_is_deterministic_for_one_clock_reading() {
    let m = manager();
    let token = m.gen_access_token_at("u1", "a@b.com", NOW).unwrap();
    let first = m.verify_access_token_at(&token, NOW + 1).unwrap();
    let second = m.verify_access_token_at(&token, NOW + 1).unwrap();
    assert_eq!(first.uid, second.uid);
    assert_eq!(first.exp, second.exp);
    let garbled = "definitely not a token";
    assert_eq!(
        m.verify_access_token_at(garbled, NOW).unwrap_err(),
        m.verify_access_token_at(garbled, NOW).unwrap_err()
    );
}

#[test]
fn wall_clock_issuance_verifies_immediately() {
    let m = manager();
    let token = m.gen_access_token("u9", "nine@example.com").unwrap();
    let claims = m.verify_access_token(&token).unwrap();
    assert_eq!(claims.uid, "u9");
    let (refresh, jti) = m.gen_refresh_token("u9", "nine@example.com").unwrap();
    let refresh_claims = m.verify_refresh_token(&refresh).unwrap();
    assert_eq!(refresh_claims.jti, jti);
    let (new_access, _new_refresh, new_jti) = m.rotate_refresh_token(&refresh).unwrap();
    assert_ne!(new_jti, jti);
    assert!(m.verify_access_token(&new_access).is_ok());
}
