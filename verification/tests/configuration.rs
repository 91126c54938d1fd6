//! Construction-time validation and the facade scenario from end to end.
use auth_core::claims::TokenClass;
use auth_core::errors::AuthError;
use auth_core::facade::AuthFacade;
use auth_core::manager::parse_positive;
use auth_core::manager::JwtManager;

fn full(
    access: Option<&str>,
    refresh: Option<&str>,
    hours: Option<&str>,
    days: Option<&str>,
) -> Result<JwtManager, AuthError> {
    JwtManager::new(
        access.map(|s| s.to_string()),
        refresh.map(|s| s.to_string()),
        hours.map(|s| s.to_string()),
        days.map(|s| s.to_string()),
    )
}

#[test]
fn construction_defaults_to_one_hour_and_thirty_days() {
    let m = full(Some("a"), Some("b"), None, None).unwrap();
    assert_eq!(m.access_exp_hours, 1);
    assert_eq!(m.refresh_exp_days, 30);
}

#[test]
fn construction_takes_given_lifetimes() {
    let m = full(Some("a"), Some("b"), Some("24"), Some("7")).unwrap();
    assert_eq!(m.access_exp_hours, 24);
    assert_eq!(m.refresh_exp_days, 7);
}

#[test]
fn construction_rejects_missing_or_empty_secret() {
    assert_eq!(full(None, Some("b"), None, None).unwrap_err(), AuthError::Config);
    assert_eq!(full(Some("a"), None, None, None).unwrap_err(), AuthError::Config);
    assert_eq!(full(Some(""), Some("b"), None, None).unwrap_err(), AuthError::Config);
    assert_eq!(full(Some("a"), Some(""), None, None).unwrap_err(), AuthError::Config);
}

#[test]
fn construction_rejects_equal_secrets() {
    assert_eq!(full(Some("same"), Some("same"), None, None).unwrap_err(), AuthError::Config);
}

#[test]
fn construction_rejects_bad_lifetimes() {
    assert_eq!(full(Some("a"), Some("b"), Some("abc"), None).unwrap_err(), AuthError::Config);
    assert_eq!(full(Some("a"), Some("b"), Some("0"), None).unwrap_err(), AuthError::Config);
    assert_eq!(full(Some("a"), Some("b"), Some("-5"), None).unwrap_err(), AuthError::Config);
    assert_eq!(full(Some("a"), Some("b"), None, Some("")).unwrap_err(), AuthError::Config);
    assert_eq!(full(Some("a"), Some("b"), Some("+2"), None).unwrap().access_exp_hours, 2);
}

#[test]
fn parse_positive_exact_values() {
    assert_eq!(parse_positive("123"), Ok(123));
    assert_eq!(parse_positive("007"), Ok(7));
    assert_eq!(parse_positive("+12"), Ok(12));
    assert_eq!(parse_positive("9223372036854775807"), Ok(i64::MAX));
    assert_eq!(parse_positive("9223372036854775808"), Err(AuthError::Config));
    assert_eq!(parse_positive("12a"), Err(AuthError::Config));
    assert_eq!(parse_positive("++5"), Err(AuthError::Config));
    assert_eq!(parse_positive("+"), Err(AuthError::Config));
    assert_eq!(parse_positive("+0"), Err(AuthError::Config));
    assert_eq!(parse_positive("-5"), Err(AuthError::Config));
    assert_eq!(parse_positive(""), Err(AuthError::Config));
    assert_eq!(parse_positive("0"), Err(AuthError::Config));
}

const NOW: i64 = 1_700_000_000;

#[test]
fn facade_scenario_issue_verify_expire_refresh_survives() {
    let manager = JwtManager::new(
        Some("A-secret".to_string()),
        Some("R-secret".to_string()),
        Some("1".to_string()),
        Some("30".to_string()),
    )
    .unwrap();
    let facade = AuthFacade::new(manager);

    let (pair, _jti) = facade.issue_pair_at("u1", "a@b.com", NOW).unwrap();
    assert_eq!(pair.expiry, NOW + 3600);

    let identity = facade.verify_at(&pair.access_token, TokenClass::Access, NOW).unwrap();
    assert_eq!(identity.uid, "u1");
    assert_eq!(identity.email, "a@b.com");

    let two_hours_on = NOW + 2 * 3600;
    assert_eq!(
        facade.verify_at(&pair.access_token, TokenClass::Access, two_hours_on).unwrap_err(),
        AuthError::Expired
    );

    let still_valid = facade.verify_at(&pair.refresh_token, TokenClass::Refresh, two_hours_on);
    assert_eq!(still_valid.unwrap().uid, "u1");
}

#[test]
fn facade_rotates_and_hashes() {
    let manager = full(Some("A-secret"), Some("R-secret"), None, None).unwrap();
    let facade = AuthFacade::new(manager);

    let (pair, old_jti) = facade.issue_pair_at("u2", "b@c.org", NOW).unwrap();
    let (rotated, new_jti) = facade.rotate_at(&pair.refresh_token, NOW + 5).unwrap();
    assert_ne!(new_jti, old_jti);
    assert!(facade.verify_at(&rotated.access_token, TokenClass::Access, NOW + 6).is_ok());
    assert_eq!(
        facade.verify_at(&pair.access_token, TokenClass::Refresh, NOW).unwrap_err(),
        AuthError::Signature
    );

    let credential = facade.hash_password("pw").unwrap();
    assert_eq!(facade.check_password("pw", &credential), Ok(true));
    assert_eq!(facade.check_password("other", &credential), Ok(false));
}
