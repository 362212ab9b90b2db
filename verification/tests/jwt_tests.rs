use authface::claims::{ClaimValue, TokenFault};
use authface::jwt::{JwtError, JwtManager, KeyFile, SignatureAlgorithm};
use authface::models::{JwtClaims, OidcIdentity, UserTier};
use authface::time::Timestamp;
use num_bigint::BigInt;
use simple_asn1::{to_der, ASN1Block};

/// A key pair for these tests, as the texts of its private and its public
/// key. It is made of the two primes that lie `first` and `second` below
/// 2^1024, which anyone can compute: it protects nothing.
fn key_pair(first: u32, second: u32) -> (String, String) {
    let one: BigInt = BigInt::from(1);
    let power: BigInt = BigInt::from(1) << 1024usize;
    let p: BigInt = &power - BigInt::from(first);
    let q: BigInt = &power - BigInt::from(second);
    let e: BigInt = BigInt::from(65_537);
    let n: BigInt = &p * &q;
    let phi: BigInt = (&p - &one) * (&q - &one);
    let d: BigInt = e.modinv(&phi).unwrap();
    let dp: BigInt = &d % (&p - &one);
    let dq: BigInt = &d % (&q - &one);
    let qinv: BigInt = q.modinv(&p).unwrap();
    let integers = |values: Vec<BigInt>| {
        ASN1Block::Sequence(0, values.into_iter().map(|v| ASN1Block::Integer(0, v)).collect())
    };
    let private =
        to_der(&integers(vec![BigInt::from(0), n.clone(), e.clone(), d, p, q, dp, dq, qinv]))
            .unwrap();
    let public = to_der(&integers(vec![n, e])).unwrap();
    (
        pem::encode(&pem::Pem::new("RSA PRIVATE KEY", private)),
        pem::encode(&pem::Pem::new("RSA PUBLIC KEY", public)),
    )
}

fn key_file(path: &str, contents: Option<&str>) -> KeyFile {
    KeyFile { path: path.to_string(), contents: contents.map(|text| text.to_string()) }
}

fn manager() -> JwtManager {
    let (private, public) = key_pair(105, 179);
    JwtManager::new(
        &key_file("private.pem", Some(&private)),
        &key_file("public.pem", Some(&public)),
    )
    .unwrap()
}

fn create_test_identity() -> OidcIdentity {
    let now = Timestamp::now();
    OidcIdentity {
        sub: "test_user_123".to_string(),
        name: Some("Test User".to_string()),
        email: Some("test@example.com".to_string()),
        provider: "google".to_string(),
        tier: UserTier::Normal,
        created_at: now,
        expires_at: Timestamp::new(now.secs + 7 * 86_400, now.nanos),
    }
}

fn claims_expiring_at(exp: i64) -> JwtClaims {
    JwtClaims {
        sub: "test_user_123".to_string(),
        name: None,
        email: Some("test@example.com".to_string()),
        tier: "preferred".to_string(),
        provider: "google".to_string(),
        iat: exp - 3_600,
        exp,
        jti: "token-1".to_string(),
    }
}

#[test]
fn test_jwt_creation_and_verification() {
    let identity = create_test_identity();
    let manager = manager();
    let before = Timestamp::now().secs;
    let token = manager.create_token(&identity, 24).unwrap();
    let after = Timestamp::now().secs;
    let claims = manager.verify_token(&token).unwrap();
    assert_eq!(claims.sub, "test_user_123");
    assert_eq!(claims.name, Some("Test User".to_string()));
    assert_eq!(claims.email, Some("test@example.com".to_string()));
    assert_eq!(claims.tier, "normal");
    assert_eq!(claims.provider, "google");
    assert!(before <= claims.iat && claims.iat <= after);
    assert_eq!(claims.exp, claims.iat + 24 * 3_600);
    assert_eq!(JwtManager::extract_tier(&claims), UserTier::Normal);
    let expired = manager.sign_claims(&claims_expiring_at(before - 3_600)).unwrap();
    assert!(manager.verify_token(&expired).is_err());
}

#[test]
fn token_has_three_parts_and_a_fresh_identifier() {
    let identity = create_test_identity();
    let manager = manager();
    let first = manager.create_token(&identity, 1).unwrap();
    let second = manager.create_token(&identity, 1).unwrap();
    assert_eq!(first.split('.').count(), 3);
    let first_claims = manager.verify_token(&first).unwrap();
    let second_claims = manager.verify_token(&second).unwrap();
    assert_ne!(first_claims.jti, second_claims.jti);
    assert_eq!(first_claims.jti.len(), 36);
}

#[test]
fn signed_claims_come_back_unchanged() {
    let manager = manager();
    let exp = Timestamp::now().secs + 600;
    let token = manager.sign_claims(&claims_expiring_at(exp)).unwrap();
    let claims = manager.verify_token(&token).unwrap();
    assert_eq!(claims.sub, "test_user_123");
    assert_eq!(claims.name, None);
    assert_eq!(claims.email, Some("test@example.com".to_string()));
    assert_eq!(claims.tier, "preferred");
    assert_eq!(claims.provider, "google");
    assert_eq!(claims.iat, exp - 3_600);
    assert_eq!(claims.exp, exp);
    assert_eq!(claims.jti, "token-1");
}

#[test]
fn expired_token_is_rejected_as_expired() {
    let manager = manager();
    let long_ago = manager.sign_claims(&claims_expiring_at(Timestamp::now().secs - 3_600)).unwrap();
    match manager.verify_token(&long_ago) {
        Err(JwtError::DecodingError(TokenFault::ExpiredSignature)) => {}
        other => panic!("expected an expiry failure, got {:?}", other),
    }
    let just_now = manager.sign_claims(&claims_expiring_at(Timestamp::now().secs - 5)).unwrap();
    match manager.verify_token(&just_now) {
        Err(JwtError::DecodingError(TokenFault::ExpiredSignature)) => {}
        other => panic!("expected an expiry failure, got {:?}", other),
    }
}

#[test]
fn signing_repeats_itself() {
    let manager = manager();
    let claims = claims_expiring_at(Timestamp::now().secs + 600);
    let first = manager.sign_claims(&claims).unwrap();
    let second = manager.sign_claims(&claims).unwrap();
    assert_eq!(first, second);
    let other = manager.sign_claims(&claims_expiring_at(Timestamp::now().secs + 601)).unwrap();
    assert_ne!(first, other);
}

#[test]
fn token_without_expiry_is_rejected() {
    let manager = manager();
    let (private, _) = key_pair(105, 179);
    let text = |value: &str| serde_json::Value::String(value.to_string());
    let claims = serde_json::Value::Object(
        vec![
            ("sub".to_string(), text("x")),
            ("tier".to_string(), text("free")),
            ("provider".to_string(), text("google")),
            ("iat".to_string(), serde_json::Value::from(1_700_000_000i64)),
            ("jti".to_string(), text("id")),
        ]
        .into_iter()
        .collect(),
    );
    let token = jsonwebtoken::encode(
        &jsonwebtoken::Header::new(jsonwebtoken::Algorithm::RS256),
        &claims,
        &jsonwebtoken::EncodingKey::from_rsa_pem(private.as_bytes()).unwrap(),
    )
    .unwrap();
    match manager.verify_token(&token) {
        Err(JwtError::DecodingError(TokenFault::MissingClaim(name))) => assert_eq!(name, "exp"),
        other => panic!("expected a missing claim, got {:?}", other),
    }
}

#[test]
fn token_of_another_key_is_rejected() {
    let signer = manager();
    let (private, _) = key_pair(105, 179);
    let (_, other_public) = key_pair(1_397, 3_177);
    let verifier = JwtManager::new(
        &key_file("private.pem", Some(&private)),
        &key_file("other.pem", Some(&other_public)),
    )
    .unwrap();
    let token = signer.create_token(&create_test_identity(), 1).unwrap();
    match verifier.verify_token(&token) {
        Err(JwtError::DecodingError(TokenFault::InvalidSignature)) => {}
        other => panic!("expected a signature failure, got {:?}", other),
    }
}

#[test]
fn malformed_token_is_rejected() {
    let manager = manager();
    match manager.verify_token("not-a-token") {
        Err(JwtError::DecodingError(TokenFault::InvalidToken)) => {}
        other => panic!("expected a shape failure, got {:?}", other),
    }
}

#[test]
fn token_of_another_algorithm_is_rejected() {
    let manager = manager();
    let claims = serde_json::Value::Object(
        vec![("sub".to_string(), serde_json::Value::String("x".to_string()))]
            .into_iter()
            .collect(),
    );
    let token = jsonwebtoken::encode(
        &jsonwebtoken::Header::new(jsonwebtoken::Algorithm::HS256),
        &claims,
        &jsonwebtoken::EncodingKey::from_secret("shared".as_bytes()),
    )
    .unwrap();
    match manager.verify_token(&token) {
        Err(JwtError::DecodingError(TokenFault::InvalidAlgorithm)) => {}
        other => panic!("expected an algorithm failure, got {:?}", other),
    }
}

#[test]
fn issuer_signs_with_sha256() {
    assert_eq!(manager().algorithm(), SignatureAlgorithm::Rs256);
}

#[test]
fn missing_key_file_is_reported_private_first() {
    let missing_both = JwtManager::new(&key_file("a.pem", None), &key_file("b.pem", None));
    match missing_both {
        Err(JwtError::KeyFileNotFound(path)) => assert_eq!(path, "a.pem"),
        _ => panic!("expected a missing key file"),
    }
    let (private, _) = key_pair(105, 179);
    let missing_public =
        JwtManager::new(&key_file("a.pem", Some(&private)), &key_file("b.pem", None));
    match missing_public {
        Err(JwtError::KeyFileNotFound(path)) => assert_eq!(path, "b.pem"),
        _ => panic!("expected a missing key file"),
    }
}

#[test]
fn text_that_is_no_key_is_reported() {
    let bad_private =
        JwtManager::new(&key_file("a.pem", Some("no key")), &key_file("b.pem", Some("no key")));
    match bad_private {
        Err(JwtError::InvalidKeyFormat(message)) => {
            assert!(message.starts_with("Private key: "));
            assert!(message.len() > "Private key: ".len());
        }
        _ => panic!("expected an invalid key"),
    }
    let (private, _) = key_pair(105, 179);
    let bad_public =
        JwtManager::new(&key_file("a.pem", Some(&private)), &key_file("b.pem", Some("no key")));
    match bad_public {
        Err(JwtError::InvalidKeyFormat(message)) => assert!(message.starts_with("Public key: ")),
        _ => panic!("expected an invalid key"),
    }
}

#[test]
fn claims_are_built_from_the_identity() {
    let identity = create_test_identity();
    let claims = JwtManager::build_claims(&identity, 2, 1_700_000_000, "id-7".to_string());
    assert_eq!(claims.sub, "test_user_123");
    assert_eq!(claims.name, Some("Test User".to_string()));
    assert_eq!(claims.email, Some("test@example.com".to_string()));
    assert_eq!(claims.tier, "normal");
    assert_eq!(claims.provider, "google");
    assert_eq!(claims.iat, 1_700_000_000);
    assert_eq!(claims.exp, 1_700_007_200);
    assert_eq!(claims.jti, "id-7");
}

#[test]
fn claims_survive_writing_and_reading() {
    let claims = claims_expiring_at(2_000);
    let fields = claims.to_fields();
    assert_eq!(fields.len(), 8);
    assert_eq!(fields[0].0, "sub");
    assert_eq!(fields[7].0, "jti");
    let read = JwtClaims::from_fields(&fields).unwrap();
    assert_eq!(read.sub, claims.sub);
    assert_eq!(read.name, claims.name);
    assert_eq!(read.email, claims.email);
    assert_eq!(read.tier, claims.tier);
    assert_eq!(read.provider, claims.provider);
    assert_eq!(read.iat, claims.iat);
    assert_eq!(read.exp, claims.exp);
    assert_eq!(read.jti, claims.jti);
}

#[test]
fn claims_are_checked_against_the_clock() {
    let fields = claims_expiring_at(2_000).to_fields();
    assert!(JwtManager::check_claims(&fields, 1_999).is_ok());
    assert!(JwtManager::check_claims(&fields, 2_000).is_ok());
    match JwtManager::check_claims(&fields, 2_001) {
        Err(JwtError::DecodingError(TokenFault::ExpiredSignature)) => {}
        other => panic!("expected an expiry failure, got {:?}", other),
    }
}

#[test]
fn faulty_claims_are_rejected() {
    let mut fields = claims_expiring_at(2_000).to_fields();
    fields.remove(0);
    match JwtManager::check_claims(&fields, 0) {
        Err(JwtError::DecodingError(TokenFault::MissingClaim(name))) => assert_eq!(name, "sub"),
        other => panic!("expected a missing claim, got {:?}", other),
    }
    let mut fields = claims_expiring_at(2_000).to_fields();
    fields[6].1 = ClaimValue::Text("soon".to_string());
    match JwtManager::check_claims(&fields, 0) {
        Err(JwtError::DecodingError(TokenFault::InvalidClaim(name))) => assert_eq!(name, "exp"),
        other => panic!("expected an invalid claim, got {:?}", other),
    }
    let mut fields = claims_expiring_at(2_000).to_fields();
    fields[1].1 = ClaimValue::Integer(5);
    match JwtManager::check_claims(&fields, 0) {
        Err(JwtError::DecodingError(TokenFault::InvalidClaim(name))) => assert_eq!(name, "name"),
        other => panic!("expected an invalid claim, got {:?}", other),
    }
    let mut fields = claims_expiring_at(2_000).to_fields();
    fields.remove(2);
    fields.remove(1);
    let claims = JwtManager::check_claims(&fields, 0).unwrap();
    assert_eq!(claims.name, None);
    assert_eq!(claims.email, None);
}

#[test]
fn later_entry_of_a_claim_counts() {
    let mut fields = claims_expiring_at(2_000).to_fields();
    fields.push(("sub".to_string(), ClaimValue::Text("someone_else".to_string())));
    let claims = JwtClaims::from_fields(&fields).unwrap();
    assert_eq!(claims.sub, "someone_else");
}

#[test]
fn unknown_tier_name_is_free() {
    let mut claims = claims_expiring_at(2_000);
    claims.tier = "superuser".to_string();
    assert_eq!(JwtManager::extract_tier(&claims), UserTier::Free);
    claims.tier = "admin".to_string();
    assert_eq!(JwtManager::extract_tier(&claims), UserTier::Admin);
    claims.tier = "preferred".to_string();
    assert_eq!(JwtManager::extract_tier(&claims), UserTier::Preferred);
    claims.tier = "normal".to_string();
    assert_eq!(JwtManager::extract_tier(&claims), UserTier::Normal);
    claims.tier = "free".to_string();
    assert_eq!(JwtManager::extract_tier(&claims), UserTier::Free);
    claims.tier = "Admin".to_string();
    assert_eq!(JwtManager::extract_tier(&claims), UserTier::Free);
}

#[test]
fn failures_are_put_in_words() {
    assert_eq!(
        JwtError::DecodingError(TokenFault::ExpiredSignature).message(),
        "JWT decoding error: ExpiredSignature"
    );
    assert_eq!(
        JwtError::EncodingError(TokenFault::InvalidAlgorithm).message(),
        "JWT encoding error: InvalidAlgorithm"
    );
    assert_eq!(
        JwtError::KeyFileNotFound("/etc/key.pem".to_string()).message(),
        "Key file not found: /etc/key.pem"
    );
    assert_eq!(
        JwtError::InvalidKeyFormat("Private key: bad".to_string()).message(),
        "Invalid key format: Private key: bad"
    );
    assert_eq!(
        TokenFault::MissingClaim("exp".to_string()).message(),
        "Missing required claim: exp"
    );
    assert_eq!(TokenFault::InvalidClaim("iat".to_string()).message(), "Invalid claim: iat");
    assert_eq!(TokenFault::Json("eof".to_string()).message(), "JSON error: eof");
    assert_eq!(TokenFault::Other("odd".to_string()).message(), "odd");
    assert_eq!(TokenFault::InvalidToken.message(), "InvalidToken");
    assert_eq!(TokenFault::InvalidSignature.message(), "InvalidSignature");
}
