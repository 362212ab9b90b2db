use authface::cloudflare::{CloudflareError, CloudflareKvManager};
use authface::decimal::{decimal, read_decimal};
use authface::gateway::{admit_callback, check_token, open_session, refresh_token, Rejection};
use authface::jwt::{JwtManager, KeyFile};
use authface::models::{AppConfig, CloudflareConfig, OidcIdentity, SessionStore, UserTier};
use authface::time::Timestamp;
use num_bigint::BigInt;
use simple_asn1::{to_der, ASN1Block};

/// A key pair for these tests, as the texts of its private and its public
/// key. It is made of the two primes that lie `first` and `second` below
/// 2^1024, which anyone can compute: it protects nothing.
fn key_pair(first: u32, second: u32) -> (String, String) {
    let one: BigInt = BigInt::from(1);
    let power: BigInt = BigInt::from(1) << 1024usize;
    let p: BigInt = &power - BigInt::from(first);
    let q: BigInt = &power - BigInt::from(second);
    let e: BigInt = BigInt::from(65_537);
    let n: BigInt = &p * &q;
    let phi: BigInt = (&p - &one) * (&q - &one);
    let d: BigInt = e.modinv(&phi).unwrap();
    let dp: BigInt = &d % (&p - &one);
    let dq: BigInt = &d % (&q - &one);
    let qinv: BigInt = q.modinv(&p).unwrap();
    let integers = |values: Vec<BigInt>| {
        ASN1Block::Sequence(0, values.into_iter().map(|v| ASN1Block::Integer(0, v)).collect())
    };
    let private =
        to_der(&integers(vec![BigInt::from(0), n.clone(), e.clone(), d, p, q, dp, dq, qinv]))
            .unwrap();
    let public = to_der(&integers(vec![n, e])).unwrap();
    (
        pem::encode(&pem::Pem::new("RSA PRIVATE KEY", private)),
        pem::encode(&pem::Pem::new("RSA PUBLIC KEY", public)),
    )
}

fn issuer() -> JwtManager {
    let (private, public) = key_pair(105, 179);
    JwtManager::new(
        &KeyFile { path: "private.pem".to_string(), contents: Some(private) },
        &KeyFile { path: "public.pem".to_string(), contents: Some(public) },
    )
    .unwrap()
}

fn identity(sub: &str, expires_at: Timestamp) -> OidcIdentity {
    OidcIdentity {
        sub: sub.to_string(),
        name: None,
        email: None,
        provider: "google".to_string(),
        tier: UserTier::Preferred,
        created_at: Timestamp::new(0, 0),
        expires_at,
    }
}

fn keys(names: &[&str]) -> Vec<String> {
    names.iter().map(|name| name.to_string()).collect()
}

#[test]
fn numbers_are_written_in_decimal() {
    assert_eq!(decimal(0), "0");
    assert_eq!(decimal(7), "7");
    assert_eq!(decimal(10), "10");
    assert_eq!(decimal(1_700_000_000), "1700000000");
    assert_eq!(decimal(-1), "-1");
    assert_eq!(decimal(-905), "-905");
    assert_eq!(decimal(i64::MAX), "9223372036854775807");
    assert_eq!(decimal(i64::MIN), "-9223372036854775808");
}

#[test]
fn numbers_are_read_from_decimal() {
    assert_eq!(read_decimal("0"), Some(0));
    assert_eq!(read_decimal("42"), Some(42));
    assert_eq!(read_decimal("-42"), Some(-42));
    assert_eq!(read_decimal("007"), Some(7));
    assert_eq!(read_decimal("-0"), Some(0));
    assert_eq!(read_decimal("9223372036854775807"), Some(i64::MAX));
    assert_eq!(read_decimal("-9223372036854775808"), Some(i64::MIN));
    assert_eq!(read_decimal("9223372036854775808"), None);
    assert_eq!(read_decimal("-9223372036854775809"), None);
    assert_eq!(read_decimal("99999999999999999999999999999999999999999999"), None);
    assert_eq!(read_decimal(""), None);
    assert_eq!(read_decimal("-"), None);
    assert_eq!(read_decimal("+5"), None);
    assert_eq!(read_decimal("1 "), None);
    assert_eq!(read_decimal("1-"), None);
    assert_eq!(read_decimal("--1"), None);
    assert_eq!(read_decimal("12a"), None);
    assert_eq!(read_decimal("٣"), None);
}

#[test]
fn written_numbers_are_read_back() {
    for n in [0i64, 1, -1, 9, 10, 99, 100, -100, 1_700_000_000, i64::MAX, i64::MIN] {
        assert_eq!(read_decimal(&decimal(n)), Some(n));
    }
}

#[test]
fn snapshot_keys_name_their_marker() {
    assert_eq!(CloudflareKvManager::generation_key(1_700_000_000), "sessions_1700000000");
    assert_eq!(CloudflareKvManager::generation_key(-3), "sessions_-3");
    assert_eq!(CloudflareKvManager::generation_marker("sessions_1700000000"), Some(1_700_000_000));
    assert_eq!(CloudflareKvManager::generation_marker("sessions_-3"), Some(-3));
    assert_eq!(CloudflareKvManager::generation_marker("sessions_"), None);
    assert_eq!(CloudflareKvManager::generation_marker("sessions"), None);
    assert_eq!(CloudflareKvManager::generation_marker("session_12"), None);
    assert_eq!(CloudflareKvManager::generation_marker("Sessions_12"), None);
    assert_eq!(CloudflareKvManager::generation_marker("sessions_12x"), None);
    assert_eq!(CloudflareKvManager::generation_marker("xsessions_12"), None);
    assert_eq!(CloudflareKvManager::generation_marker(""), None);
    for marker in [0i64, 5, 1_700_000_000, i64::MAX, i64::MIN] {
        let key = CloudflareKvManager::generation_key(marker);
        assert_eq!(CloudflareKvManager::generation_marker(&key), Some(marker));
    }
}

#[test]
fn newest_snapshot_is_picked() {
    assert_eq!(CloudflareKvManager::latest_generation(&keys(&[])), None);
    assert_eq!(CloudflareKvManager::latest_generation(&keys(&["config", "sessions_x"])), None);
    assert_eq!(
        CloudflareKvManager::latest_generation(&keys(&[
            "sessions_100",
            "other",
            "sessions_300",
            "sessions_200",
            "sessions_300",
        ])),
        Some(2)
    );
    assert_eq!(CloudflareKvManager::latest_generation(&keys(&["sessions_-5"])), Some(0));
}

#[test]
fn stored_snapshot_is_loaded_next() {
    let mut listed = keys(&["sessions_100", "sessions_250", "junk"]);
    listed.push(CloudflareKvManager::generation_key(251));
    assert_eq!(CloudflareKvManager::latest_generation(&listed), Some(3));
}

#[test]
fn old_snapshots_are_found() {
    let listed = keys(&["sessions_100", "other", "sessions_300", "sessions_200", "sessions_99"]);
    assert_eq!(CloudflareKvManager::stale_generations(&listed, 200), vec![0, 4]);
    assert_eq!(CloudflareKvManager::stale_generations(&listed, 201), vec![0, 3, 4]);
    assert_eq!(CloudflareKvManager::stale_generations(&listed, 0), Vec::<usize>::new());
    assert_eq!(CloudflareKvManager::retention_cutoff(1_700_000_000, 7), 1_700_000_000 - 604_800);
    assert_eq!(CloudflareKvManager::retention_cutoff(5, 0), 5);
}

#[test]
fn store_is_named_by_account_and_namespace() {
    let manager = CloudflareKvManager::new("acct".to_string(), "space".to_string());
    assert_eq!(manager.account_id, "acct");
    assert_eq!(manager.namespace_id, "space");
    assert_eq!(CloudflareError::ApiError("x".to_string()).message(), "Cloudflare API error: x");
    assert_eq!(
        CloudflareError::SerializationError("x".to_string()).message(),
        "Serialization error: x"
    );
    assert_eq!(CloudflareError::NetworkError("x".to_string()).message(), "Network error: x");
    assert_eq!(CloudflareError::AuthError("x".to_string()).message(), "Authentication error: x");
}

#[test]
fn gateway_starts_with_its_defaults() {
    let config = AppConfig::load_config(CloudflareConfig {
        account_id: String::new(),
        namespace_id: "n".to_string(),
        api_token: "t".to_string(),
    });
    assert_eq!(config.server.host, "0.0.0.0");
    assert_eq!(config.server.port, 8080);
    assert_eq!(config.auth.oidc_ttl_days, 7);
    assert_eq!(config.auth.jwt_ttl_hours, 24);
    assert_eq!(config.security.jwt_private_key_path, "/etc/authface/jwt_private_key.pem");
    assert_eq!(config.security.jwt_public_key_path, "/etc/authface/jwt_public_key.pem");
    assert_eq!(config.oidc_providers.len(), 0);
    assert!(!config.cloudflare.is_configured());
    assert_eq!(config.cloudflare.namespace_id, "n");
    let named = CloudflareConfig {
        account_id: "a".to_string(),
        namespace_id: String::new(),
        api_token: String::new(),
    };
    assert!(named.is_configured());
}

#[test]
fn login_opens_a_session_and_issues_a_token() {
    let issuer = issuer();
    let mut store = SessionStore::new();
    let far = Timestamp::new(Timestamp::now().secs + 86_400, 0);
    let login = open_session(&mut store, &issuer, identity("u-1", far), 24).unwrap();
    assert_eq!(login.session_id.len(), 36);
    assert_eq!(store.len(), 1);
    assert_eq!(store.get_session(&login.session_id).unwrap().sub, "u-1");
    let claims = issuer.verify_token(&login.token).unwrap();
    assert_eq!(claims.sub, "u-1");
    assert_eq!(claims.tier, "preferred");
    let second = open_session(&mut store, &issuer, identity("u-2", far), 24).unwrap();
    assert_ne!(second.session_id, login.session_id);
    assert_eq!(store.len(), 2);
}

#[test]
fn token_is_refreshed_from_the_session() {
    let issuer = issuer();
    let mut store = SessionStore::new();
    store.add_session("s-1".to_string(), identity("u-1", Timestamp::new(i64::MAX, 0)));
    let grant = refresh_token(&store, &issuer, Some("s-1"), 24).unwrap();
    assert_eq!(grant.expires_in, 86_400);
    let claims = issuer.verify_token(&grant.token).unwrap();
    assert_eq!(claims.sub, "u-1");
    assert_eq!(claims.exp - claims.iat, 86_400);
    assert_eq!(refresh_token(&store, &issuer, Some("s-2"), 24).unwrap_err(), Rejection::Unauthorized);
    assert_eq!(refresh_token(&store, &issuer, None, 24).unwrap_err(), Rejection::BadRequest);
    let long = refresh_token(&store, &issuer, Some("s-1"), u32::MAX).unwrap();
    assert_eq!(long.expires_in, 4_294_967_295 * 3_600);
}

#[test]
fn token_of_a_request_is_checked() {
    let issuer = issuer();
    let mut store = SessionStore::new();
    store.add_session("s-1".to_string(), identity("u-1", Timestamp::new(i64::MAX, 0)));
    let grant = refresh_token(&store, &issuer, Some("s-1"), 1).unwrap();
    let claims = check_token(&issuer, Some(&grant.token)).unwrap().unwrap();
    assert_eq!(claims.sub, "u-1");
    assert!(check_token(&issuer, Some("garbage")).unwrap().is_none());
    assert_eq!(check_token(&issuer, None).unwrap_err(), Rejection::BadRequest);
}

#[test]
fn callback_is_admitted_with_code_and_known_state() {
    assert_eq!(admit_callback(Some("the-code"), Some("google"), "google"), Ok("the-code"));
    assert_eq!(admit_callback(None, Some("google"), "google"), Err(Rejection::BadRequest));
    assert_eq!(admit_callback(Some("the-code"), None, "google"), Err(Rejection::BadRequest));
    assert_eq!(
        admit_callback(Some("the-code"), Some("github"), "google"),
        Err(Rejection::BadRequest)
    );
    assert_eq!(admit_callback(None, None, "google"), Err(Rejection::BadRequest));
}

#[test]
fn answers_of_the_store_are_told_apart() {
    assert!(CloudflareKvManager::refusal(200, "OK".to_string()).is_none());
    assert!(CloudflareKvManager::refusal(299, "x".to_string()).is_none());
    match CloudflareKvManager::refusal(401, "401 Unauthorized".to_string()) {
        Some(CloudflareError::AuthError(text)) => assert_eq!(text, "401 Unauthorized"),
        _ => panic!("expected a failure of the credentials"),
    }
    match CloudflareKvManager::refusal(403, "no".to_string()) {
        Some(CloudflareError::AuthError(text)) => assert_eq!(text, "no"),
        _ => panic!("expected a failure of the credentials"),
    }
    for status in [199u16, 300, 404, 500] {
        match CloudflareKvManager::refusal(status, "why".to_string()) {
            Some(CloudflareError::ApiError(text)) => assert_eq!(text, "why"),
            _ => panic!("expected a refusal"),
        }
    }
}

#[test]
fn rejections_have_their_status() {
    assert_eq!(Rejection::BadRequest.status_code(), 400);
    assert_eq!(Rejection::Unauthorized.status_code(), 401);
    assert_eq!(Rejection::Internal.status_code(), 500);
}

#[test]
fn sweep_hands_out_what_is_left() {
    let now = Timestamp::new(1_000, 0);
    let mut store = SessionStore::new_at(Timestamp::new(0, 0));
    store.add_session("keep".to_string(), identity("k", Timestamp::new(2_000, 0)));
    store.add_session("drop".to_string(), identity("d", Timestamp::new(500, 0)));
    let found = store.sweep(now, true);
    assert_eq!(found.removed, 1);
    let snapshot = found.snapshot.unwrap();
    assert_eq!(snapshot.len(), 1);
    assert_eq!(snapshot[0].0, "keep");
    assert_eq!(snapshot[0].1.sub, "k");
    let again = store.sweep(now, true);
    assert_eq!(again.removed, 0);
    assert!(again.snapshot.is_none());
    store.add_session("late".to_string(), identity("l", Timestamp::new(900, 0)));
    let quiet = store.sweep(now, false);
    assert_eq!(quiet.removed, 1);
    assert!(quiet.snapshot.is_none());
    assert_eq!(store.len(), 1);
}
