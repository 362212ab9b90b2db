use vstd::prelude::*;
use vstd::hash_map::StringHashMap;
use vstd::string::*;
use crate::time::Timestamp;
pub use crate::session::SessionStore;

verus! {

/// Authorization tier of an identity, listed from most to least privileged.
#[derive(Debug, Clone, Copy, PartialEq, Eq, Structural)]
pub enum UserTier {
    Admin,
    Preferred,
    Normal,
    Free,
}

impl UserTier {
    /// The canonical lower-case name of the tier.
    pub open spec fn name(self) -> Seq<char> {
        match self {
            UserTier::Admin => "admin"@,
            UserTier::Preferred => "preferred"@,
            UserTier::Normal => "normal"@,
            UserTier::Free => "free"@,
        }
    }

    /// Position of the tier in the order of privilege: 0 for the most
    /// privileged tier.
    pub open spec fn rank(self) -> nat {
        match self {
            UserTier::Admin => 0,
            UserTier::Preferred => 1,
            UserTier::Normal => 2,
            UserTier::Free => 3,
        }
    }

    pub fn as_str(&self) -> (s: &'static str)
        ensures
            s@ == self.name(),
    {
        match self {
            UserTier::Admin => "admin",
            UserTier::Preferred => "preferred",
            UserTier::Normal => "normal",
            UserTier::Free => "free",
        }
    }
}

/// The view of an optional string.
pub open spec fn opt_view(s: Option<String>) -> Option<Seq<char>> {
    match s {
        Some(text) => Some(text@),
        None => None,
    }
}

/// Copies an optional string.
pub fn clone_opt(s: &Option<String>) -> (copy: Option<String>)
    ensures
        opt_view(copy) == opt_view(*s),
{
    match s {
        Some(text) => Some(text.clone()),
        None => None,
    }
}

/// What an identity is, as plain mathematical values.
pub struct IdentityView {
    pub sub: Seq<char>,
    pub name: Option<Seq<char>>,
    pub email: Option<Seq<char>>,
    pub provider: Seq<char>,
    pub tier: UserTier,
    pub created_at: Timestamp,
    pub expires_at: Timestamp,
}

/// A person as an identity provider vouched for them.
#[derive(Debug)]
pub struct OidcIdentity {
    /// Subject identifier at the provider.
    pub sub: String,
    /// Full name, where the provider gave one.
    pub name: Option<String>,
    /// Email address, where the provider gave one.
    pub email: Option<String>,
    /// Name of the provider.
    pub provider: String,
    /// Authorization tier derived from the attributes above.
    pub tier: UserTier,
    pub created_at: Timestamp,
    pub expires_at: Timestamp,
}

impl View for OidcIdentity {
    type V = IdentityView;

    open spec fn view(&self) -> IdentityView {
        IdentityView {
            sub: self.sub@,
            name: opt_view(self.name),
            email: opt_view(self.email),
            provider: self.provider@,
            tier: self.tier,
            created_at: self.created_at,
            expires_at: self.expires_at,
        }
    }
}

impl IdentityView {
    /// An identity ends strictly after it begins.
    pub open spec fn well_formed(self) -> bool {
        self.expires_at.nanos_since_epoch() > self.created_at.nanos_since_epoch()
    }

    /// Whether the identity has ended at the instant `now`.
    pub open spec fn expired_at(self, now: Timestamp) -> bool {
        self.expires_at.nanos_since_epoch() <= now.nanos_since_epoch()
    }
}

impl Clone for OidcIdentity {
    fn clone(&self) -> (copy: Self)
        ensures
            copy@ == self@,
    {
        OidcIdentity {
            sub: self.sub.clone(),
            name: clone_opt(&self.name),
            email: clone_opt(&self.email),
            provider: self.provider.clone(),
            tier: self.tier,
            created_at: self.created_at,
            expires_at: self.expires_at,
        }
    }
}

impl OidcIdentity {
    /// Whether the identity has ended at the instant `now`.
    pub fn is_expired(&self, now: &Timestamp) -> (expired: bool)
        ensures
            expired == self@.expired_at(*now),
    {
        !self.expires_at.is_after(now)
    }
}

/// What the claims of a token are, as plain mathematical values.
pub struct ClaimsView {
    pub sub: Seq<char>,
    pub name: Option<Seq<char>>,
    pub email: Option<Seq<char>>,
    pub tier: Seq<char>,
    pub provider: Seq<char>,
    pub iat: int,
    pub exp: int,
    pub jti: Seq<char>,
}

/// The claims that a bearer token carries.
#[derive(Debug)]
pub struct JwtClaims {
    /// Subject identifier.
    pub sub: String,
    /// Full name.
    pub name: Option<String>,
    /// Email address.
    pub email: Option<String>,
    /// Name of the authorization tier.
    pub tier: String,
    /// Name of the identity provider.
    pub provider: String,
    /// Instant of issue, in seconds after the epoch.
    pub iat: i64,
    /// Instant of expiry, in seconds after the epoch.
    pub exp: i64,
    /// Identifier of the token.
    pub jti: String,
}

impl View for JwtClaims {
    type V = ClaimsView;

    open spec fn view(&self) -> ClaimsView {
        ClaimsView {
            sub: self.sub@,
            name: opt_view(self.name),
            email: opt_view(self.email),
            tier: self.tier@,
            provider: self.provider@,
            iat: self.iat as int,
            exp: self.exp as int,
            jti: self.jti@,
        }
    }
}

impl Clone for JwtClaims {
    fn clone(&self) -> (copy: Self)
        ensures
            copy@ == self@,
    {
        JwtClaims {
            sub: self.sub.clone(),
            name: clone_opt(&self.name),
            email: clone_opt(&self.email),
            tier: self.tier.clone(),
            provider: self.provider.clone(),
            iat: self.iat,
            exp: self.exp,
            jti: self.jti.clone(),
        }
    }
}

/// How the gateway is registered with one identity provider.
#[derive(Debug)]
pub struct OidcProvider {
    pub client_id: String,
    pub client_secret: String,
    pub discovery_url: String,
    pub name: String,
}

impl Clone for OidcProvider {
    fn clone(&self) -> (copy: Self)
        ensures
            copy.client_id@ == self.client_id@,
            copy.client_secret@ == self.client_secret@,
            copy.discovery_url@ == self.discovery_url@,
            copy.name@ == self.name@,
    {
        OidcProvider {
            client_id: self.client_id.clone(),
            client_secret: self.client_secret.clone(),
            discovery_url: self.discovery_url.clone(),
            name: self.name.clone(),
        }
    }
}

/// The identity providers of the gateway, each under its identifier.
pub struct ProviderTable {
    entries: StringHashMap<OidcProvider>,
}

impl View for ProviderTable {
    type V = Map<Seq<char>, OidcProvider>;

    closed spec fn view(&self) -> Map<Seq<char>, OidcProvider> {
        self.entries@
    }
}

impl ProviderTable {
    /// A table without providers.
    pub fn new() -> (table: Self)
        ensures
            table@ == Map::<Seq<char>, OidcProvider>::empty(),
    {
        ProviderTable { entries: StringHashMap::new() }
    }

    /// Files `provider` under `id`, in place of what was there.
    pub fn insert(&mut self, id: String, provider: OidcProvider)
        ensures
            final(self)@ == old(self)@.insert(id@, provider),
    {
        self.entries.insert(id, provider);
    }

    /// The provider filed under `id`, if there is one.
    pub fn get(&self, id: &str) -> (found: Option<&OidcProvider>)
        ensures
            match found {
                Some(provider) => self@.contains_key(id@) && *provider == self@[id@],
                None => !self@.contains_key(id@),
            },
    {
        self.entries.get(id)
    }

    /// The number of providers.
    pub fn len(&self) -> (n: usize)
        ensures
            n == self@.len(),
    {
        self.entries.len()
    }
}

/// Where the gateway listens.
#[derive(Debug)]
pub struct ServerConfig {
    pub host: String,
    pub port: u16,
}

/// How long identities and tokens live.
#[derive(Debug, Clone, Copy)]
pub struct AuthConfig {
    pub oidc_ttl_days: u32,
    pub jwt_ttl_hours: u32,
}

/// Access to the durable store of session snapshots.
#[derive(Debug)]
pub struct CloudflareConfig {
    pub account_id: String,
    pub namespace_id: String,
    pub api_token: String,
}

/// Where the signing key and the verification key are kept.
#[derive(Debug)]
pub struct SecurityConfig {
    pub jwt_private_key_path: String,
    pub jwt_public_key_path: String,
}

impl CloudflareConfig {
    /// Whether a durable store is named at all.
    pub fn is_configured(&self) -> (named: bool)
        ensures
            named == (self.account_id@.len() > 0),
    {
        !self.account_id.as_str().is_empty()
    }
}

/// The configuration of the gateway.
pub struct AppConfig {
    pub server: ServerConfig,
    pub auth: AuthConfig,
    pub cloudflare: CloudflareConfig,
    pub security: SecurityConfig,
    pub oidc_providers: ProviderTable,
}

impl AppConfig {
    /// The configuration that the gateway starts with: it listens on
    /// every address at port 8080, identities last 7 days and tokens 24
    /// hours, the keys lie under `/etc/authface`, and no provider is
    /// registered.
    pub fn load_config(cloudflare: CloudflareConfig) -> (config: Self)
        ensures
            config.server.host@ == "0.0.0.0"@,
            config.server.port == 8080,
            config.auth.oidc_ttl_days == 7,
            config.auth.jwt_ttl_hours == 24,
            config.cloudflare == cloudflare,
            config.security.jwt_private_key_path@ == "/etc/authface/jwt_private_key.pem"@,
            config.security.jwt_public_key_path@ == "/etc/authface/jwt_public_key.pem"@,
            config.oidc_providers@ == Map::<Seq<char>, OidcProvider>::empty(),
    {
        AppConfig {
            server: ServerConfig { host: "0.0.0.0".to_owned(), port: 8080 },
            auth: AuthConfig { oidc_ttl_days: 7, jwt_ttl_hours: 24 },
            cloudflare,
            security: SecurityConfig {
                jwt_private_key_path: "/etc/authface/jwt_private_key.pem".to_owned(),
                jwt_public_key_path: "/etc/authface/jwt_public_key.pem".to_owned(),
            },
            oidc_providers: ProviderTable::new(),
        }
    }
}

} // verus!
