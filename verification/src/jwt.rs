use vstd::prelude::*;
use crate::claims::{
    claim_list, claim_map, claims_of, field_views, fields_of, lemma_claims_survive_writing,
    ClaimValue, ClaimValueView, FaultView, TokenFault,
};
use crate::json::{claim_fields, json_members};
use crate::models::{opt_view, clone_opt, ClaimsView, IdentityView, JwtClaims, OidcIdentity, UserTier};
use crate::text::{join, same_text};
use crate::time::{Timestamp, CLOCK_SECS_LIMIT, SECS_PER_HOUR};

verus! {

#[verifier::external_type_specification]
#[verifier::external_body]
pub struct ExTokenError(jsonwebtoken::errors::Error);

/// What `jsonwebtoken::EncodingKey::from_rsa_pem` finds wrong with a text
/// as an RSA private key: its message, or nothing where it takes the key.
pub uninterp spec fn private_key_fault(pem: Seq<char>) -> Option<Seq<char>>;

/// What `jsonwebtoken::DecodingKey::from_rsa_pem` finds wrong with a text
/// as an RSA public key: its message, or nothing where it takes the key.
pub uninterp spec fn public_key_fault(pem: Seq<char>) -> Option<Seq<char>>;

/// The token that `jsonwebtoken::encode` makes of a list of named values
/// under an RSA private key, given by its text, and an algorithm; nothing
/// where it makes none.
pub uninterp spec fn signed_token(
    private_pem: Seq<char>,
    algorithm: SignatureAlgorithm,
    fields: Seq<(Seq<char>, ClaimValueView)>,
) -> Option<Seq<char>>;

/// Tries a text as an RSA private key with
/// `jsonwebtoken::EncodingKey::from_rsa_pem`, which depends on the text
/// alone, and keeps the message of its error. The contract names the
/// outcome.
#[verifier::external_body]
fn check_private_key(pem: &str) -> (fault: Option<String>)
    ensures
        opt_view(fault) == private_key_fault(pem@),
{
    jsonwebtoken::EncodingKey::from_rsa_pem(pem.as_bytes()).err().map(|e| e.to_string())
}

/// The claims that `jsonwebtoken::decode` hands out for a token under an
/// RSA public key, given by its text, and an algorithm, where the decoder
/// checks neither the expiry nor the presence of any claim: the members of
/// the claims, or nothing where it refuses the token.
pub uninterp spec fn decoded_token(
    token: Seq<char>,
    public_pem: Seq<char>,
    algorithm: SignatureAlgorithm,
) -> Option<Map<Seq<char>, ClaimValueView>>;

/// Tries a text as an RSA public key with
/// `jsonwebtoken::DecodingKey::from_rsa_pem`, which depends on the text
/// alone, and keeps the message of its error. The contract names the
/// outcome.
#[verifier::external_body]
fn check_public_key(pem: &str) -> (fault: Option<String>)
    ensures
        opt_view(fault) == public_key_fault(pem@),
{
    jsonwebtoken::DecodingKey::from_rsa_pem(pem.as_bytes()).err().map(|e| e.to_string())
}

/// Signs a token with `jsonwebtoken::encode`. The key is read from its
/// text with `EncodingKey::from_rsa_pem`, the header holds the algorithm
/// and the type `JWT`, and the claims are the named values as one JSON
/// object. Each of the three algorithms signs with the padding of PKCS #1
/// v1.5, which draws on no chance, so the outcome depends on the arguments
/// alone. The contract names it: the token where one was made.
#[verifier::external_body]
fn sign_fields(
    fields: &Vec<(String, ClaimValue)>,
    private_pem: &str,
    algorithm: SignatureAlgorithm,
) -> (signed: Result<String, jsonwebtoken::errors::Error>)
    requires
        private_key_fault(private_pem@) is None,
        forall|i: int| 0 <= i < fields@.len() ==> !((#[trigger] fields@[i]).1 is Other),
    ensures
        match signed {
            Ok(token) => signed_token(private_pem@, algorithm, field_views(fields@)) == Some(
                token@,
            ),
            Err(_) => signed_token(private_pem@, algorithm, field_views(fields@)) is None,
        },
{
    let key = jsonwebtoken::EncodingKey::from_rsa_pem(private_pem.as_bytes())?;
    let header = jsonwebtoken::Header::new(match algorithm {
        SignatureAlgorithm::Rs256 => jsonwebtoken::Algorithm::RS256,
        SignatureAlgorithm::Rs384 => jsonwebtoken::Algorithm::RS384,
        SignatureAlgorithm::Rs512 => jsonwebtoken::Algorithm::RS512,
    });
    let mut object = serde_json::Map::new();
    for (name, value) in fields {
        object.insert(name.clone(), match value {
            ClaimValue::Text(text) => serde_json::Value::from(text.clone()),
            ClaimValue::Integer(number) => serde_json::Value::from(*number),
            ClaimValue::Null | ClaimValue::Other => serde_json::Value::Null,
        });
    }
    jsonwebtoken::encode(&header, &object, &key)
}

/// Checks a token's signature and algorithm with `jsonwebtoken::decode` and
/// hands out its claims. The key is read from its text with
/// `DecodingKey::from_rsa_pem`. The validation is that of
/// `Validation::new` with the decoder's own check of the expiry and its
/// list of required claims switched off, so that the decoder reads no
/// clock and the outcome depends on the arguments alone. The contract names
/// it: the members of the claims where the token was taken.
#[verifier::external_body]
fn decode_token(token: &str, public_pem: &str, algorithm: SignatureAlgorithm) -> (decoded: Result<
    serde_json::Value,
    jsonwebtoken::errors::Error,
>)
    requires
        public_key_fault(public_pem@) is None,
    ensures
        match decoded {
            Ok(value) => decoded_token(token@, public_pem@, algorithm) == Some(
                json_members(value),
            ),
            Err(_) => decoded_token(token@, public_pem@, algorithm) is None,
        },
{
    let key = jsonwebtoken::DecodingKey::from_rsa_pem(public_pem.as_bytes())?;
    let mut validation = jsonwebtoken::Validation::new(match algorithm {
        SignatureAlgorithm::Rs256 => jsonwebtoken::Algorithm::RS256,
        SignatureAlgorithm::Rs384 => jsonwebtoken::Algorithm::RS384,
        SignatureAlgorithm::Rs512 => jsonwebtoken::Algorithm::RS512,
    });
    validation.validate_exp = false;
    validation.required_spec_claims.clear();
    jsonwebtoken::decode::<serde_json::Value>(token, &key, &validation).map(|data| data.claims)
}

/// Tells the kinds of a `jsonwebtoken::errors::Error` apart; a kind that
/// has no fault of its own is kept by its message.
#[verifier::external_body]
fn fault_of(error: &jsonwebtoken::errors::Error) -> (fault: TokenFault) {
    match error.kind() {
        jsonwebtoken::errors::ErrorKind::InvalidToken => TokenFault::InvalidToken,
        jsonwebtoken::errors::ErrorKind::InvalidSignature => TokenFault::InvalidSignature,
        jsonwebtoken::errors::ErrorKind::InvalidAlgorithm => TokenFault::InvalidAlgorithm,
        jsonwebtoken::errors::ErrorKind::ExpiredSignature => TokenFault::ExpiredSignature,
        jsonwebtoken::errors::ErrorKind::MissingRequiredClaim(name) => TokenFault::MissingClaim(
            name.clone(),
        ),
        jsonwebtoken::errors::ErrorKind::Json(inner) => TokenFault::Json(inner.to_string()),
        _ => TokenFault::Other(error.to_string()),
    }
}

/// A random identifier, made by `uuid::Uuid::new_v4` and written in its
/// hyphenated form, which has 36 characters whatever the identifier.
#[verifier::external_body]
pub(crate) fn fresh_identifier() -> (id: String)
    ensures
        id@.len() == 36,
{
    uuid::Uuid::new_v4().to_string()
}

/// An RSA signature scheme, by the digest it signs.
#[derive(Debug, Clone, Copy, PartialEq, Eq, Structural)]
pub enum SignatureAlgorithm {
    /// SHA-256.
    Rs256,
    /// SHA-384.
    Rs384,
    /// SHA-512.
    Rs512,
}

/// What was found where a key is kept: the text of the file at `path`, or
/// nothing where the file could not be read.
#[derive(Debug)]
pub struct KeyFile {
    pub path: String,
    pub contents: Option<String>,
}

/// Why the token issuer failed.
#[derive(Debug)]
pub enum JwtError {
    /// A token could not be signed.
    EncodingError(TokenFault),
    /// A token was not accepted.
    DecodingError(TokenFault),
    /// The key file at this path could not be read.
    KeyFileNotFound(String),
    /// A key file does not hold a key.
    InvalidKeyFormat(String),
}

/// A failure of the token issuer as plain mathematical values.
pub enum JwtErrorView {
    EncodingError(FaultView),
    DecodingError(FaultView),
    KeyFileNotFound(Seq<char>),
    InvalidKeyFormat(Seq<char>),
}

impl View for JwtError {
    type V = JwtErrorView;

    open spec fn view(&self) -> JwtErrorView {
        match self {
            JwtError::EncodingError(fault) => JwtErrorView::EncodingError(fault@),
            JwtError::DecodingError(fault) => JwtErrorView::DecodingError(fault@),
            JwtError::KeyFileNotFound(path) => JwtErrorView::KeyFileNotFound(path@),
            JwtError::InvalidKeyFormat(message) => JwtErrorView::InvalidKeyFormat(message@),
        }
    }
}

impl JwtErrorView {
    /// The failure in words.
    pub open spec fn message(self) -> Seq<char> {
        match self {
            JwtErrorView::EncodingError(fault) => "JWT encoding error: "@ + fault.message(),
            JwtErrorView::DecodingError(fault) => "JWT decoding error: "@ + fault.message(),
            JwtErrorView::KeyFileNotFound(path) => "Key file not found: "@ + path,
            JwtErrorView::InvalidKeyFormat(message) => "Invalid key format: "@ + message,
        }
    }
}

impl JwtError {
    /// The failure in words.
    pub fn message(&self) -> (text: String)
        ensures
            text@ == self@.message(),
    {
        match self {
            JwtError::EncodingError(fault) => join(
                "JWT encoding error: ",
                fault.message().as_str(),
            ),
            JwtError::DecodingError(fault) => join(
                "JWT decoding error: ",
                fault.message().as_str(),
            ),
            JwtError::KeyFileNotFound(path) => join("Key file not found: ", path.as_str()),
            JwtError::InvalidKeyFormat(message) => join("Invalid key format: ", message.as_str()),
        }
    }
}

/// Why no issuer can be made of two key files: the private key is looked
/// at first, and reading comes before parsing.
pub open spec fn loading_fault(
    private_path: Seq<char>,
    private_contents: Option<Seq<char>>,
    public_path: Seq<char>,
    public_contents: Option<Seq<char>>,
) -> Option<JwtErrorView> {
    if private_contents is None {
        Some(JwtErrorView::KeyFileNotFound(private_path))
    } else if public_contents is None {
        Some(JwtErrorView::KeyFileNotFound(public_path))
    } else if private_key_fault(private_contents->0) is Some {
        Some(
            JwtErrorView::InvalidKeyFormat(
                "Private key: "@ + private_key_fault(private_contents->0)->0,
            ),
        )
    } else if public_key_fault(public_contents->0) is Some {
        Some(
            JwtErrorView::InvalidKeyFormat(
                "Public key: "@ + public_key_fault(public_contents->0)->0,
            ),
        )
    } else {
        None
    }
}

/// The claims of a token issued for `identity` at the second `now`, to
/// live for `ttl_hours` hours under the identifier `token_id`.
pub open spec fn claims_for(identity: IdentityView, ttl_hours: u32, now: int, token_id: Seq<char>) -> ClaimsView {
    ClaimsView {
        sub: identity.sub,
        name: identity.name,
        email: identity.email,
        tier: identity.tier.name(),
        provider: identity.provider,
        iat: now,
        exp: now + ttl_hours * SECS_PER_HOUR,
        jti: token_id,
    }
}

/// What becomes of the claims of a token whose signature held, at the
/// second `now`: a fault among the claims rejects the token, and so does
/// an expiry before `now`.
pub open spec fn verdict(claims: Result<ClaimsView, FaultView>, now: int) -> Result<
    ClaimsView,
    JwtErrorView,
> {
    match claims {
        Err(fault) => Err(JwtErrorView::DecodingError(fault)),
        Ok(read) => if read.exp < now {
            Err(JwtErrorView::DecodingError(FaultView::ExpiredSignature))
        } else {
            Ok(read)
        },
    }
}

/// The tier that a name stands for: a name that is none of the four is
/// `Free`.
pub open spec fn tier_named(name: Seq<char>) -> UserTier {
    if name == "admin"@ {
        UserTier::Admin
    } else if name == "preferred"@ {
        UserTier::Preferred
    } else if name == "normal"@ {
        UserTier::Normal
    } else {
        UserTier::Free
    }
}

/// The name of a tier stands for that tier.
pub proof fn lemma_tier_name_is_read_back(tier: UserTier)
    ensures
        tier_named(tier.name()) == tier,
{
    reveal_strlit("admin");
    reveal_strlit("preferred");
    reveal_strlit("normal");
    reveal_strlit("free");
    assert("admin"@.len() == 5 && "preferred"@.len() == 9 && "normal"@.len() == 6 && "free"@.len()
        == 4);
}

/// A name that is none of the names of the three upper tiers stands for
/// `Free`.
pub proof fn lemma_unknown_tier_is_free(name: Seq<char>)
    requires
        name != UserTier::Admin.name(),
        name != UserTier::Preferred.name(),
        name != UserTier::Normal.name(),
    ensures
        tier_named(name) == UserTier::Free,
{
}

/// A token whose expiry lies before `now` is rejected as expired, and a
/// token that is accepted has none of its claims changed and expires at
/// `now` or later.
pub proof fn lemma_expired_is_rejected(claims: ClaimsView, now: int)
    ensures
        claims.exp < now ==> verdict(Ok(claims), now) == Err::<ClaimsView, JwtErrorView>(
            JwtErrorView::DecodingError(FaultView::ExpiredSignature),
        ),
        verdict(Ok(claims), now) is Ok ==> claims.exp >= now && verdict(Ok(claims), now)
            == Ok::<ClaimsView, JwtErrorView>(claims),
{
}

/// The claims issued for an identity, written as named values and read
/// again at any second up to their expiry, are accepted, and they name the
/// subject, the provider and the tier of the identity.
pub proof fn lemma_issued_claims_are_accepted(
    identity: IdentityView,
    ttl_hours: u32,
    now: int,
    token_id: Seq<char>,
    later: int,
)
    requires
        later <= now + ttl_hours * SECS_PER_HOUR,
    ensures
        verdict(claims_of(fields_of(claims_for(identity, ttl_hours, now, token_id))), later)
            == Ok::<ClaimsView, JwtErrorView>(claims_for(identity, ttl_hours, now, token_id)),
        claims_for(identity, ttl_hours, now, token_id).sub == identity.sub,
        claims_for(identity, ttl_hours, now, token_id).provider == identity.provider,
        tier_named(claims_for(identity, ttl_hours, now, token_id).tier) == identity.tier,
{
    lemma_claims_survive_writing(claims_for(identity, ttl_hours, now, token_id));
    lemma_tier_name_is_read_back(identity.tier);
}

/// Whether signing a token that carries `claims` gives `token`: the token
/// that the private key and the algorithm make of the claims, or nothing
/// where they make none.
pub open spec fn signing_gives(
    private_pem: Seq<char>,
    algorithm: SignatureAlgorithm,
    claims: ClaimsView,
    token: Option<Seq<char>>,
) -> bool {
    signed_token(private_pem, algorithm, claim_list(claims)) == token
}

/// Whether `issued` is what signing a token that carries `claims` comes
/// to: the token where one is made, an encoding failure where none is.
pub open spec fn issued_as(
    issued: Result<String, JwtError>,
    private_pem: Seq<char>,
    algorithm: SignatureAlgorithm,
    claims: ClaimsView,
) -> bool {
    match issued {
        Ok(token) => signing_gives(private_pem, algorithm, claims, Some(token@)),
        Err(error) => error is EncodingError && signing_gives(
            private_pem,
            algorithm,
            claims,
            None,
        ),
    }
}

/// Whether `verified` is what becomes, at the second `now`, of a token
/// whose signature held and whose claims have the members `members`.
pub open spec fn verified_as(
    verified: Result<JwtClaims, JwtError>,
    members: Map<Seq<char>, ClaimValueView>,
    now: int,
) -> bool {
    match verified {
        Ok(claims) => verdict(claims_of(members), now) == Ok::<ClaimsView, JwtErrorView>(claims@),
        Err(error) => verdict(claims_of(members), now) == Err::<ClaimsView, JwtErrorView>(error@),
    }
}

/// Issues and verifies bearer tokens under one RSA key pair.
pub struct JwtManager {
    private_pem: String,
    public_pem: String,
    algorithm: SignatureAlgorithm,
}

impl JwtManager {
    /// The texts of both keys are such as are taken as keys.
    #[verifier::type_invariant]
    spec fn keys_are_sound(&self) -> bool {
        private_key_fault(self.private_pem@) is None && public_key_fault(self.public_pem@) is None
    }

    /// The text of the private key under which the issuer signs.
    pub closed spec fn private_key_text(&self) -> Seq<char> {
        self.private_pem@
    }

    /// The text of the public key under which the issuer verifies.
    pub closed spec fn public_key_text(&self) -> Seq<char> {
        self.public_pem@
    }

    /// The algorithm under which the issuer signs and verifies.
    pub closed spec fn algorithm_spec(&self) -> SignatureAlgorithm {
        self.algorithm
    }

    /// An issuer for the key pair found in two key files, with SHA-256.
    pub fn new(private_key: &KeyFile, public_key: &KeyFile) -> (made: Result<Self, JwtError>)
        ensures
            match made {
                Ok(manager) => loading_fault(
                    private_key.path@,
                    opt_view(private_key.contents),
                    public_key.path@,
                    opt_view(public_key.contents),
                ) is None && manager.algorithm_spec() == SignatureAlgorithm::Rs256
                    && Some(manager.private_key_text()) == opt_view(private_key.contents)
                    && Some(manager.public_key_text()) == opt_view(public_key.contents),
                Err(error) => loading_fault(
                    private_key.path@,
                    opt_view(private_key.contents),
                    public_key.path@,
                    opt_view(public_key.contents),
                ) == Some(error@),
            },
    {
        let private_pem = match &private_key.contents {
            Some(text) => text,
            None => {
                return Err(JwtError::KeyFileNotFound(private_key.path.clone()));
            },
        };
        let public_pem = match &public_key.contents {
            Some(text) => text,
            None => {
                return Err(JwtError::KeyFileNotFound(public_key.path.clone()));
            },
        };
        if let Some(message) = check_private_key(private_pem.as_str()) {
            return Err(JwtError::InvalidKeyFormat(join("Private key: ", message.as_str())));
        }
        if let Some(message) = check_public_key(public_pem.as_str()) {
            return Err(JwtError::InvalidKeyFormat(join("Public key: ", message.as_str())));
        }
        Ok(
            JwtManager {
                private_pem: private_pem.clone(),
                public_pem: public_pem.clone(),
                algorithm: SignatureAlgorithm::Rs256,
            },
        )
    }

    /// The algorithm under which the issuer signs and verifies.
    pub fn algorithm(&self) -> (algorithm: SignatureAlgorithm)
        ensures
            algorithm == self.algorithm_spec(),
    {
        self.algorithm
    }

    /// The claims of a token issued for `identity` at the second `now`, to
    /// live for `ttl_hours` hours under the identifier `token_id`.
    pub fn build_claims(identity: &OidcIdentity, ttl_hours: u32, now: i64, token_id: String) -> (claims: JwtClaims)
        requires
            ttl_hours >= 1,
            now + ttl_hours * SECS_PER_HOUR <= i64::MAX,
        ensures
            claims@ == claims_for(identity@, ttl_hours, now as int, token_id@),
            claims.exp > claims.iat,
    {
        let span: i64 = ttl_hours as i64 * SECS_PER_HOUR;
        JwtClaims {
            sub: identity.sub.clone(),
            name: clone_opt(&identity.name),
            email: clone_opt(&identity.email),
            tier: identity.tier.as_str().to_owned(),
            provider: identity.provider.clone(),
            iat: now,
            exp: now + span,
            jti: token_id,
        }
    }

    /// Signs a token that carries `claims`.
    pub fn sign_claims(&self, claims: &JwtClaims) -> (issued: Result<String, JwtError>)
        ensures
            issued_as(issued, self.private_key_text(), self.algorithm_spec(), claims@),
    {
        proof {
            use_type_invariant(self);
        }
        let fields = claims.to_fields();
        match sign_fields(&fields, self.private_pem.as_str(), self.algorithm) {
            Ok(token) => Ok(token),
            Err(error) => Err(JwtError::EncodingError(fault_of(&error))),
        }
    }

    /// Issues a signed token for `identity` that lives for `ttl_hours`
    /// hours from now on: the token carries the claims of the identity as
    /// of some reading of the clock, under some identifier.
    pub fn create_token(&self, identity: &OidcIdentity, ttl_hours: u32) -> (issued: Result<String, JwtError>)
        requires
            ttl_hours >= 1,
        ensures
            exists|now: int, token_id: Seq<char>|
                0 <= now < CLOCK_SECS_LIMIT && token_id.len() == 36 && #[trigger] issued_as(
                    issued,
                    self.private_key_text(),
                    self.algorithm_spec(),
                    claims_for(identity@, ttl_hours, now, token_id),
                ),
    {
        let now = Timestamp::now();
        let token_id = fresh_identifier();
        let ghost id_text = token_id@;
        let claims = Self::build_claims(identity, ttl_hours, now.secs, token_id);
        let issued = self.sign_claims(&claims);
        assert(issued_as(
            issued,
            self.private_key_text(),
            self.algorithm_spec(),
            claims_for(identity@, ttl_hours, now.secs as int, id_text),
        ));
        issued
    }

    /// Decides on the claims of a token whose signature held, at the
    /// second `now`.
    pub fn check_claims(fields: &Vec<(String, ClaimValue)>, now: i64) -> (checked: Result<JwtClaims, JwtError>)
        ensures
            verified_as(checked, claim_map(fields@), now as int),
    {
        match JwtClaims::from_fields(fields) {
            Err(fault) => Err(JwtError::DecodingError(fault)),
            Ok(claims) => {
                if claims.exp < now {
                    Err(JwtError::DecodingError(TokenFault::ExpiredSignature))
                } else {
                    Ok(claims)
                }
            },
        }
    }

    /// Verifies the signature of `token` and decides on its claims as of
    /// now: a token that the decoder refuses is rejected, and the claims of
    /// any other token are decided on at some reading of the clock.
    pub fn verify_token(&self, token: &str) -> (verified: Result<JwtClaims, JwtError>)
        ensures
            decoded_token(token@, self.public_key_text(), self.algorithm_spec()) is None ==> (
            verified matches Err(error) && error is DecodingError),
            decoded_token(token@, self.public_key_text(), self.algorithm_spec()) matches Some(
                members,
            ) ==> exists|now: int|
                0 <= now < CLOCK_SECS_LIMIT && #[trigger] verified_as(verified, members, now),
    {
        proof {
            use_type_invariant(self);
        }
        let ghost decoded = decoded_token(token@, self.public_key_text(), self.algorithm_spec());
        match decode_token(token, self.public_pem.as_str(), self.algorithm) {
            Err(error) => {
                assert(decoded is None);
                Err(JwtError::DecodingError(fault_of(&error)))
            },
            Ok(value) => {
                let fields = claim_fields(&value);
                let now = Timestamp::now();
                let verified = Self::check_claims(&fields, now.secs);
                assert(decoded == Some(json_members(value)));
                assert(verified_as(verified, decoded->0, now.secs as int));
                assert(exists|n: int|
                    0 <= n < CLOCK_SECS_LIMIT && #[trigger] verified_as(verified, decoded->0, n));
                verified
            },
        }
    }

    /// The tier that the claims name.
    pub fn extract_tier(claims: &JwtClaims) -> (tier: UserTier)
        ensures
            tier == tier_named(claims@.tier),
    {
        let name = claims.tier.as_str();
        if same_text(name, "admin") {
            UserTier::Admin
        } else if same_text(name, "preferred") {
            UserTier::Preferred
        } else if same_text(name, "normal") {
            UserTier::Normal
        } else {
            UserTier::Free
        }
    }
}

} // verus!
