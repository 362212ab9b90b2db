use vstd::prelude::*;
use crate::claims::{claim_map, find_claim, ClaimValue, ClaimValueView};
use crate::json::{claim_fields, json_document, parse_json};
use crate::models::{opt_view, IdentityView, OidcIdentity, OidcProvider, ProviderTable, UserTier};
use crate::text::{join, same_text};
use crate::tier::{classify, TierPolicy};
use crate::time::{Timestamp, SECS_PER_DAY};

verus! {

/// What `url::Url::parse` finds wrong with a text as a URL: its message,
/// or nothing where it takes the text.
pub uninterp spec fn url_fault_of(text: Seq<char>) -> Option<Seq<char>>;

/// The URL that `oauth2::AuthorizationRequest::url` builds for a request of
/// the response type `code`: the authorization endpoint with the client's
/// identifier, the anti-forgery state, the redirect address and the scopes
/// as its query.
pub uninterp spec fn authorization_url_of(
    endpoint: Seq<char>,
    client_id: Seq<char>,
    redirect_uri: Seq<char>,
    scopes: Seq<Seq<char>>,
    state: Seq<char>,
) -> Seq<char>;

/// The texts of a list of strings.
pub open spec fn texts(list: Seq<String>) -> Seq<Seq<char>> {
    Seq::new(list.len(), |i: int| list[i]@)
}

/// Parses a text with `url::Url::parse`, which depends on the text alone,
/// and keeps the message of its error. The contract names the outcome.
#[verifier::external_body]
fn url_fault(text: &str) -> (fault: Option<String>)
    ensures
        opt_view(fault) == url_fault_of(text@),
{
    url::Url::parse(text).err().map(|e| e.to_string())
}

/// Builds the authorization URL with `oauth2::basic::BasicClient`:
/// `authorize_url` with the given state, `add_scopes`, then `url`. The
/// endpoint and the redirect address go through `AuthUrl::new` and
/// `RedirectUrl::new`, which take exactly the texts that `url::Url::parse`
/// takes. The result depends on the arguments alone, and the contract
/// names it.
#[verifier::external_body]
fn build_authorization_url(
    endpoint: &str,
    client_id: &str,
    redirect_uri: &str,
    scopes: &Vec<String>,
    state: &str,
) -> (url: String)
    requires
        url_fault_of(endpoint@) is None,
        url_fault_of(redirect_uri@) is None,
    ensures
        url@ == authorization_url_of(endpoint@, client_id@, redirect_uri@, texts(scopes@), state@),
{
    let auth = oauth2::AuthUrl::new(endpoint.to_string()).unwrap();
    let redirect = oauth2::RedirectUrl::new(redirect_uri.to_string()).unwrap();
    let id = oauth2::ClientId::new(client_id.to_string());
    let client = oauth2::basic::BasicClient::new(id, None, auth, None).set_redirect_uri(redirect);
    let request = client.authorize_url(|| oauth2::CsrfToken::new(state.to_string()));
    let request = request.add_scopes(scopes.iter().map(|s| oauth2::Scope::new(s.clone())));
    request.url().0.to_string()
}

/// A random anti-forgery state, made by `oauth2::CsrfToken::new_random`:
/// 16 random bytes in base64 without padding, which are 22 characters
/// whatever the bytes.
#[verifier::external_body]
fn fresh_state() -> (state: String)
    ensures
        state@.len() == 22,
{
    oauth2::CsrfToken::new_random().secret().clone()
}

/// Why a login at an identity provider failed.
#[derive(Debug)]
pub enum OidcError {
    /// The provider could not be reached.
    HttpError(String),
    /// The provider's answer is no document of the expected form.
    JsonError(String),
    /// An address is no URL.
    UrlError(String),
    /// The provider refused the authorization code.
    OAuth2Error(String),
    /// No provider is known under this identifier.
    ProviderNotFound(String),
    /// An answer came that the exchange was not waiting for.
    InvalidTokenResponse,
    /// The provider answered the profile request with a failure status.
    UserInfoRequestFailed,
}

/// A failed login as plain mathematical values.
pub enum OidcErrorView {
    HttpError(Seq<char>),
    JsonError(Seq<char>),
    UrlError(Seq<char>),
    OAuth2Error(Seq<char>),
    ProviderNotFound(Seq<char>),
    InvalidTokenResponse,
    UserInfoRequestFailed,
}

impl View for OidcError {
    type V = OidcErrorView;

    open spec fn view(&self) -> OidcErrorView {
        match self {
            OidcError::HttpError(message) => OidcErrorView::HttpError(message@),
            OidcError::JsonError(message) => OidcErrorView::JsonError(message@),
            OidcError::UrlError(message) => OidcErrorView::UrlError(message@),
            OidcError::OAuth2Error(message) => OidcErrorView::OAuth2Error(message@),
            OidcError::ProviderNotFound(id) => OidcErrorView::ProviderNotFound(id@),
            OidcError::InvalidTokenResponse => OidcErrorView::InvalidTokenResponse,
            OidcError::UserInfoRequestFailed => OidcErrorView::UserInfoRequestFailed,
        }
    }
}

impl OidcErrorView {
    /// The failure in words.
    pub open spec fn message(self) -> Seq<char> {
        match self {
            OidcErrorView::HttpError(message) => "HTTP request failed: "@ + message,
            OidcErrorView::JsonError(message) => "JSON parsing error: "@ + message,
            OidcErrorView::UrlError(message) => "URL parsing error: "@ + message,
            OidcErrorView::OAuth2Error(message) => "OAuth2 error: "@ + message,
            OidcErrorView::ProviderNotFound(id) => "Provider not found: "@ + id,
            OidcErrorView::InvalidTokenResponse => "Invalid token response"@,
            OidcErrorView::UserInfoRequestFailed => "User info request failed"@,
        }
    }
}

impl OidcError {
    /// The failure in words.
    pub fn message(&self) -> (text: String)
        ensures
            text@ == self@.message(),
    {
        match self {
            OidcError::HttpError(message) => join("HTTP request failed: ", message.as_str()),
            OidcError::JsonError(message) => join("JSON parsing error: ", message.as_str()),
            OidcError::UrlError(message) => join("URL parsing error: ", message.as_str()),
            OidcError::OAuth2Error(message) => join("OAuth2 error: ", message.as_str()),
            OidcError::ProviderNotFound(id) => join("Provider not found: ", id.as_str()),
            OidcError::InvalidTokenResponse => "Invalid token response".to_owned(),
            OidcError::UserInfoRequestFailed => "User info request failed".to_owned(),
        }
    }
}

/// The scopes that every login asks for.
pub open spec fn login_scopes() -> Seq<Seq<char>> {
    seq!["openid"@, "profile"@, "email"@]
}

/// Why no request can go to the provider `provider_id`: the provider is
/// unknown, or its endpoint or the redirect address is no URL.
pub open spec fn request_fault(
    providers: Map<Seq<char>, OidcProvider>,
    provider_id: Seq<char>,
    redirect_uri: Seq<char>,
) -> Option<OidcErrorView> {
    if !providers.contains_key(provider_id) {
        Some(OidcErrorView::ProviderNotFound(provider_id))
    } else if url_fault_of(providers[provider_id].discovery_url@) is Some {
        Some(OidcErrorView::UrlError(url_fault_of(providers[provider_id].discovery_url@)->0))
    } else if url_fault_of(redirect_uri) is Some {
        Some(OidcErrorView::UrlError(url_fault_of(redirect_uri)->0))
    } else {
        None
    }
}

/// The address to which a login sends the user, with the anti-forgery
/// state that the provider will hand back.
#[derive(Debug)]
pub struct AuthorizationRequest {
    pub url: String,
    pub state: String,
}

/// The text of the member `name`, where the members have it as a text.
pub open spec fn text_member(members: Map<Seq<char>, ClaimValueView>, name: Seq<char>) -> Option<
    Seq<char>,
> {
    if members.contains_key(name) {
        match members[name] {
            ClaimValueView::Text(text) => Some(text),
            _ => None,
        }
    } else {
        None
    }
}

/// What a provider says of a user.
#[derive(Debug)]
pub struct UserInfo {
    pub sub: Option<String>,
    pub name: Option<String>,
    pub email: Option<String>,
}

/// A profile as plain mathematical values.
pub struct UserInfoView {
    pub sub: Option<Seq<char>>,
    pub name: Option<Seq<char>>,
    pub email: Option<Seq<char>>,
}

impl View for UserInfo {
    type V = UserInfoView;

    open spec fn view(&self) -> UserInfoView {
        UserInfoView {
            sub: opt_view(self.sub),
            name: opt_view(self.name),
            email: opt_view(self.email),
        }
    }
}

/// The profile that the members of a document hold.
pub open spec fn profile_of(members: Map<Seq<char>, ClaimValueView>) -> UserInfoView {
    UserInfoView {
        sub: text_member(members, "sub"@),
        name: text_member(members, "name"@),
        email: text_member(members, "email"@),
    }
}

/// The text of the member `name`, where the list has it as a text.
fn read_member(fields: &Vec<(String, ClaimValue)>, name: &str) -> (text: Option<String>)
    ensures
        opt_view(text) == text_member(claim_map(fields@), name@),
{
    match find_claim(fields, name) {
        Some(ClaimValue::Text(text)) => Some(text.clone()),
        _ => None,
    }
}

impl UserInfo {
    /// The profile that the named values hold.
    pub fn from_fields(fields: &Vec<(String, ClaimValue)>) -> (profile: UserInfo)
        ensures
            profile@ == profile_of(claim_map(fields@)),
    {
        UserInfo {
            sub: read_member(fields, "sub"),
            name: read_member(fields, "name"),
            email: read_member(fields, "email"),
        }
    }

    /// The profile that a JSON document holds.
    pub fn parse(body: &str) -> (profile: Result<UserInfo, OidcError>)
        ensures
            match json_document(body@) {
                Ok(members) => profile is Ok && profile->Ok_0@ == profile_of(members),
                Err(message) => profile is Err && profile->Err_0@ == OidcErrorView::JsonError(
                    message,
                ),
            },
    {
        match parse_json(body) {
            Ok(value) => Ok(UserInfo::from_fields(&claim_fields(&value))),
            Err(message) => Err(OidcError::JsonError(message)),
        }
    }
}

/// The address at which the provider of the name `provider_name` says who
/// the owner of an access token is.
pub open spec fn userinfo_endpoint(provider_name: Seq<char>) -> Seq<char> {
    if provider_name == "google"@ {
        "https://www.googleapis.com/oauth2/v2/userinfo"@
    } else {
        "https://api.provider.com/userinfo"@
    }
}

/// Whether an HTTP status reports success.
pub open spec fn is_success(status: u16) -> bool {
    200 <= status < 300
}

/// The identity that a profile gives at the instant `now`.
pub open spec fn identity_of(
    profile: UserInfoView,
    provider_id: Seq<char>,
    rules: Seq<(Seq<char>, UserTier)>,
    now: Timestamp,
    ttl_days: u32,
) -> IdentityView {
    IdentityView {
        sub: profile.sub->0,
        name: profile.name,
        email: profile.email,
        provider: provider_id,
        tier: classify(rules, profile.email),
        created_at: now,
        expires_at: now.plus_secs(ttl_days * SECS_PER_DAY),
    }
}

/// What becomes of the provider's answer to the profile request: a failure
/// status, a body that is no document and a profile without a subject end
/// the login; any other answer gives the identity.
pub open spec fn profile_outcome(
    status: u16,
    body: Seq<char>,
    provider_id: Seq<char>,
    rules: Seq<(Seq<char>, UserTier)>,
    now: Timestamp,
    ttl_days: u32,
) -> Result<IdentityView, OidcErrorView> {
    if !is_success(status) {
        Err(OidcErrorView::UserInfoRequestFailed)
    } else {
        match json_document(body) {
            Err(message) => Err(OidcErrorView::JsonError(message)),
            Ok(members) => if profile_of(members).sub is None {
                Err(OidcErrorView::JsonError("missing field `sub`"@))
            } else {
                Ok(identity_of(profile_of(members), provider_id, rules, now, ttl_days))
            },
        }
    }
}

/// What the exchange asks of the provider's token endpoint.
#[derive(Debug)]
pub struct TokenRequest {
    pub client_id: String,
    pub client_secret: String,
    pub auth_url: String,
    pub token_url: String,
    pub redirect_uri: String,
    pub code: String,
}

/// A token request as plain mathematical values.
pub struct TokenRequestView {
    pub client_id: Seq<char>,
    pub client_secret: Seq<char>,
    pub auth_url: Seq<char>,
    pub token_url: Seq<char>,
    pub redirect_uri: Seq<char>,
    pub code: Seq<char>,
}

impl View for TokenRequest {
    type V = TokenRequestView;

    open spec fn view(&self) -> TokenRequestView {
        TokenRequestView {
            client_id: self.client_id@,
            client_secret: self.client_secret@,
            auth_url: self.auth_url@,
            token_url: self.token_url@,
            redirect_uri: self.redirect_uri@,
            code: self.code@,
        }
    }
}

/// What the exchange asks of the provider's userinfo endpoint.
#[derive(Debug)]
pub struct ProfileRequest {
    pub url: String,
    pub access_token: String,
}

/// How far an exchange has come.
#[derive(Debug)]
pub enum ExchangeState {
    /// The token request is out, for the provider of this identifier.
    AwaitingToken(String),
    /// The profile request is out, for the provider of this identifier.
    AwaitingProfile(String),
    /// The exchange has ended.
    Finished,
}

/// An exchange's progress as plain mathematical values.
pub enum StateView {
    AwaitingToken(Seq<char>),
    AwaitingProfile(Seq<char>),
    Finished,
}

impl View for ExchangeState {
    type V = StateView;

    open spec fn view(&self) -> StateView {
        match self {
            ExchangeState::AwaitingToken(id) => StateView::AwaitingToken(id@),
            ExchangeState::AwaitingProfile(id) => StateView::AwaitingProfile(id@),
            ExchangeState::Finished => StateView::Finished,
        }
    }
}

/// What came back from the provider.
#[derive(Debug)]
pub enum ExchangeEvent {
    /// The token endpoint granted this access token.
    TokenGranted(String),
    /// The token request failed, with this message.
    TokenRefused(String),
    /// The userinfo endpoint answered with this status and this body.
    ProfileReceived(u16, String),
    /// The userinfo endpoint could not be reached, with this message.
    ProfileUnreachable(String),
}

/// What came back from the provider, as plain mathematical values.
pub enum EventView {
    TokenGranted(Seq<char>),
    TokenRefused(Seq<char>),
    ProfileReceived(u16, Seq<char>),
    ProfileUnreachable(Seq<char>),
}

impl View for ExchangeEvent {
    type V = EventView;

    open spec fn view(&self) -> EventView {
        match self {
            ExchangeEvent::TokenGranted(token) => EventView::TokenGranted(token@),
            ExchangeEvent::TokenRefused(message) => EventView::TokenRefused(message@),
            ExchangeEvent::ProfileReceived(status, body) => EventView::ProfileReceived(
                *status,
                body@,
            ),
            ExchangeEvent::ProfileUnreachable(message) => EventView::ProfileUnreachable(message@),
        }
    }
}

/// What the exchange does next.
#[derive(Debug)]
pub enum ExchangeAction {
    /// Redeem the authorization code at the token endpoint.
    RequestToken(TokenRequest),
    /// Ask the userinfo endpoint who owns the access token.
    FetchProfile(ProfileRequest),
    /// The login succeeded, with this identity.
    Succeed(OidcIdentity),
    /// The login failed.
    Fail(OidcError),
}

/// What the exchange does next, as plain mathematical values.
pub enum ActionView {
    RequestToken(TokenRequestView),
    FetchProfile(Seq<char>, Seq<char>),
    Succeed(IdentityView),
    Fail(OidcErrorView),
}

impl View for ExchangeAction {
    type V = ActionView;

    open spec fn view(&self) -> ActionView {
        match self {
            ExchangeAction::RequestToken(request) => ActionView::RequestToken(request@),
            ExchangeAction::FetchProfile(request) => ActionView::FetchProfile(
                request.url@,
                request.access_token@,
            ),
            ExchangeAction::Succeed(identity) => ActionView::Succeed(identity@),
            ExchangeAction::Fail(error) => ActionView::Fail(error@),
        }
    }
}

/// How an exchange begins: with the token request, unless no request can
/// go to the provider.
pub open spec fn first_step(
    providers: Map<Seq<char>, OidcProvider>,
    provider_id: Seq<char>,
    code: Seq<char>,
    redirect_uri: Seq<char>,
) -> (StateView, ActionView) {
    match request_fault(providers, provider_id, redirect_uri) {
        Some(error) => (StateView::Finished, ActionView::Fail(error)),
        None => (
            StateView::AwaitingToken(provider_id),
            ActionView::RequestToken(
                TokenRequestView {
                    client_id: providers[provider_id].client_id@,
                    client_secret: providers[provider_id].client_secret@,
                    auth_url: providers[provider_id].discovery_url@,
                    token_url: providers[provider_id].discovery_url@,
                    redirect_uri,
                    code,
                },
            ),
        ),
    }
}

/// How an exchange goes on when `event` arrives in `state` at the instant
/// `now`.
pub open spec fn next_step(
    providers: Map<Seq<char>, OidcProvider>,
    rules: Seq<(Seq<char>, UserTier)>,
    ttl_days: u32,
    state: StateView,
    event: EventView,
    now: Timestamp,
) -> (StateView, ActionView) {
    match (state, event) {
        (StateView::AwaitingToken(id), EventView::TokenGranted(token)) => {
            if providers.contains_key(id) {
                (
                    StateView::AwaitingProfile(id),
                    ActionView::FetchProfile(userinfo_endpoint(providers[id].name@), token),
                )
            } else {
                (StateView::Finished, ActionView::Fail(OidcErrorView::ProviderNotFound(id)))
            }
        },
        (StateView::AwaitingToken(_), EventView::TokenRefused(message)) => (
            StateView::Finished,
            ActionView::Fail(OidcErrorView::OAuth2Error(message)),
        ),
        (StateView::AwaitingProfile(_), EventView::ProfileUnreachable(message)) => (
            StateView::Finished,
            ActionView::Fail(OidcErrorView::HttpError(message)),
        ),
        (StateView::AwaitingProfile(id), EventView::ProfileReceived(status, body)) => (
            StateView::Finished,
            match profile_outcome(status, body, id, rules, now, ttl_days) {
                Ok(identity) => ActionView::Succeed(identity),
                Err(error) => ActionView::Fail(error),
            },
        ),
        _ => (StateView::Finished, ActionView::Fail(OidcErrorView::InvalidTokenResponse)),
    }
}

/// The tier of a user depends on nothing but the rules and the email
/// address of the profile.
pub proof fn lemma_tier_depends_on_email(
    rules: Seq<(Seq<char>, UserTier)>,
    first: UserInfoView,
    second: UserInfoView,
    provider_id: Seq<char>,
    now: Timestamp,
    ttl_days: u32,
)
    requires
        first.email == second.email,
    ensures
        identity_of(first, provider_id, rules, now, ttl_days).tier == identity_of(
            second,
            provider_id,
            rules,
            now,
            ttl_days,
        ).tier,
        first.email is None ==> identity_of(first, provider_id, rules, now, ttl_days).tier
            == UserTier::Normal,
{
}

/// Every identity that an exchange gives ends exactly `ttl_days` days after
/// it begins, and after it begins where that is a day or more.
pub proof fn lemma_identity_lifetime(
    status: u16,
    body: Seq<char>,
    provider_id: Seq<char>,
    rules: Seq<(Seq<char>, UserTier)>,
    now: Timestamp,
    ttl_days: u32,
)
    requires
        now.secs + ttl_days * SECS_PER_DAY <= i64::MAX,
    ensures
        profile_outcome(status, body, provider_id, rules, now, ttl_days) matches Ok(identity)
            ==> identity.created_at == now && identity.expires_at.nanos_since_epoch()
            == identity.created_at.nanos_since_epoch() + ttl_days * SECS_PER_DAY * 1_000_000_000
            && (ttl_days > 0 ==> identity.well_formed()),
{
    assert(ttl_days * SECS_PER_DAY * 1_000_000_000 == (ttl_days * SECS_PER_DAY) * 1_000_000_000);
    assert((now.secs + ttl_days * SECS_PER_DAY) * 1_000_000_000 == now.secs * 1_000_000_000
        + (ttl_days * SECS_PER_DAY) * 1_000_000_000) by (nonlinear_arith);
}

/// Logs users in at identity providers.
pub struct OidcManager {
    providers: ProviderTable,
    policy: TierPolicy,
    ttl_days: u32,
}

impl OidcManager {
    /// An identity lasts a day or more.
    #[verifier::type_invariant]
    spec fn lifetime_is_positive(&self) -> bool {
        self.ttl_days >= 1
    }

    /// The providers of the manager, each under its identifier.
    pub closed spec fn providers(&self) -> Map<Seq<char>, OidcProvider> {
        self.providers@
    }

    /// The rules by which the manager gives an identity its tier.
    pub closed spec fn rules(&self) -> Seq<(Seq<char>, UserTier)> {
        self.policy@
    }

    /// The number of days for which an identity lasts.
    pub closed spec fn ttl_days(&self) -> u32 {
        self.ttl_days
    }

    /// A manager for `providers`, with the standard tier policy, whose
    /// identities last `ttl_days` days.
    pub fn new(providers: ProviderTable, ttl_days: u32) -> (manager: Self)
        requires
            ttl_days >= 1,
        ensures
            manager.providers() == providers@,
            manager.rules() == TierPolicy::standard_rules(),
            manager.ttl_days() == ttl_days,
    {
        OidcManager { providers, policy: TierPolicy::standard(), ttl_days }
    }

    /// A manager for `providers` that gives tiers by `policy`.
    pub fn with_policy(providers: ProviderTable, policy: TierPolicy, ttl_days: u32) -> (manager: Self)
        requires
            ttl_days >= 1,
        ensures
            manager.providers() == providers@,
            manager.rules() == policy@,
            manager.ttl_days() == ttl_days,
    {
        OidcManager { providers, policy, ttl_days }
    }

    /// The number of providers.
    pub fn provider_count(&self) -> (n: usize)
        ensures
            n == self.providers().len(),
    {
        self.providers.len()
    }

    /// The provider to which a request for `provider_id` with the redirect
    /// address `redirect_uri` can go.
    fn admitted_provider(&self, provider_id: &str, redirect_uri: &str) -> (found: Result<
        &OidcProvider,
        OidcError,
    >)
        ensures
            match found {
                Ok(provider) => request_fault(self.providers(), provider_id@, redirect_uri@)
                    is None && *provider == self.providers()[provider_id@],
                Err(error) => request_fault(self.providers(), provider_id@, redirect_uri@)
                    == Some(error@),
            },
    {
        let provider = match self.providers.get(provider_id) {
            Some(provider) => provider,
            None => {
                return Err(OidcError::ProviderNotFound(provider_id.to_owned()));
            },
        };
        if let Some(message) = url_fault(provider.discovery_url.as_str()) {
            return Err(OidcError::UrlError(message));
        }
        if let Some(message) = url_fault(redirect_uri) {
            return Err(OidcError::UrlError(message));
        }
        Ok(provider)
    }

    /// The address at which a user logs in at the provider `provider_id`
    /// under the anti-forgery state `state`.
    pub fn authorization_url_with_state(&self, provider_id: &str, redirect_uri: &str, state: &str) -> (url: Result<String, OidcError>)
        ensures
            match url {
                Ok(address) => request_fault(self.providers(), provider_id@, redirect_uri@)
                    is None && address@ == authorization_url_of(
                    self.providers()[provider_id@].discovery_url@,
                    self.providers()[provider_id@].client_id@,
                    redirect_uri@,
                    login_scopes(),
                    state@,
                ),
                Err(error) => request_fault(self.providers(), provider_id@, redirect_uri@)
                    == Some(error@),
            },
    {
        let provider = match self.admitted_provider(provider_id, redirect_uri) {
            Ok(provider) => provider,
            Err(error) => {
                return Err(error);
            },
        };
        let mut scopes: Vec<String> = Vec::new();
        scopes.push("openid".to_owned());
        scopes.push("profile".to_owned());
        scopes.push("email".to_owned());
        assert(texts(scopes@) =~= login_scopes());
        Ok(
            build_authorization_url(
                provider.discovery_url.as_str(),
                provider.client_id.as_str(),
                redirect_uri,
                &scopes,
                state,
            ),
        )
    }

    /// The address at which a user logs in at the provider `provider_id`,
    /// together with the fresh anti-forgery state that it carries.
    pub fn authorization_request(&self, provider_id: &str, redirect_uri: &str) -> (request: Result<AuthorizationRequest, OidcError>)
        ensures
            match request {
                Ok(made) => request_fault(self.providers(), provider_id@, redirect_uri@)
                    is None && made.url@ == authorization_url_of(
                    self.providers()[provider_id@].discovery_url@,
                    self.providers()[provider_id@].client_id@,
                    redirect_uri@,
                    login_scopes(),
                    made.state@,
                ) && made.state@.len() == 22,
                Err(error) => request_fault(self.providers(), provider_id@, redirect_uri@)
                    == Some(error@),
            },
    {
        let state = fresh_state();
        match self.authorization_url_with_state(provider_id, redirect_uri, state.as_str()) {
            Ok(url) => Ok(AuthorizationRequest { url, state }),
            Err(error) => Err(error),
        }
    }

    /// The tier of the user that a profile describes.
    pub fn determine_user_tier(&self, user_info: &UserInfo) -> (tier: UserTier)
        ensures
            tier == classify(self.rules(), user_info@.email),
    {
        match &user_info.email {
            Some(address) => self.policy.classify(Some(address.as_str())),
            None => self.policy.classify(None),
        }
    }

    /// The address at which `provider` says who the owner of an access
    /// token is.
    pub fn userinfo_url(provider: &OidcProvider) -> (url: String)
        ensures
            url@ == userinfo_endpoint(provider.name@),
    {
        if same_text(provider.name.as_str(), "google") {
            "https://www.googleapis.com/oauth2/v2/userinfo".to_owned()
        } else {
            "https://api.provider.com/userinfo".to_owned()
        }
    }

    /// The identity that the provider's answer to the profile request
    /// gives at the instant `now`, or why it gives none.
    pub fn identity_from_profile(&self, provider_id: &str, status: u16, body: &str, now: Timestamp) -> (outcome: Result<OidcIdentity, OidcError>)
        requires
            now.secs + self.ttl_days() * SECS_PER_DAY <= i64::MAX,
        ensures
            match outcome {
                Ok(identity) => profile_outcome(
                    status,
                    body@,
                    provider_id@,
                    self.rules(),
                    now,
                    self.ttl_days(),
                ) == Ok::<IdentityView, OidcErrorView>(identity@),
                Err(error) => profile_outcome(
                    status,
                    body@,
                    provider_id@,
                    self.rules(),
                    now,
                    self.ttl_days(),
                ) == Err::<IdentityView, OidcErrorView>(error@),
            },
            outcome matches Ok(identity) ==> identity@.well_formed(),
    {
        proof {
            use_type_invariant(self);
            lemma_identity_lifetime(status, body@, provider_id@, self.rules(), now, self.ttl_days());
        }
        if status < 200 || status >= 300 {
            return Err(OidcError::UserInfoRequestFailed);
        }
        let profile = match UserInfo::parse(body) {
            Ok(profile) => profile,
            Err(error) => {
                return Err(error);
            },
        };
        let tier = self.determine_user_tier(&profile);
        let sub = match profile.sub {
            Some(text) => text,
            None => {
                return Err(OidcError::JsonError("missing field `sub`".to_owned()));
            },
        };
        Ok(
            OidcIdentity {
                sub,
                name: profile.name,
                email: profile.email,
                provider: provider_id.to_owned(),
                tier,
                created_at: now,
                expires_at: now.plus_days(self.ttl_days),
            },
        )
    }

    /// Begins the exchange of the authorization code `code` at the
    /// provider `provider_id`.
    pub fn exchange_code(&self, provider_id: &str, code: &str, redirect_uri: &str) -> (step: (ExchangeState, ExchangeAction))
        ensures
            (step.0@, step.1@) == first_step(self.providers(), provider_id@, code@, redirect_uri@),
    {
        match self.admitted_provider(provider_id, redirect_uri) {
            Err(error) => (ExchangeState::Finished, ExchangeAction::Fail(error)),
            Ok(provider) => (
                ExchangeState::AwaitingToken(provider_id.to_owned()),
                ExchangeAction::RequestToken(
                    TokenRequest {
                        client_id: provider.client_id.clone(),
                        client_secret: provider.client_secret.clone(),
                        auth_url: provider.discovery_url.clone(),
                        token_url: provider.discovery_url.clone(),
                        redirect_uri: redirect_uri.to_owned(),
                        code: code.to_owned(),
                    },
                ),
            ),
        }
    }

    /// Carries an exchange on when `event` arrives in `state` at the
    /// instant `now`.
    pub fn exchange_step_at(&self, state: ExchangeState, event: ExchangeEvent, now: Timestamp) -> (step: (ExchangeState, ExchangeAction))
        requires
            now.secs + self.ttl_days() * SECS_PER_DAY <= i64::MAX,
        ensures
            (step.0@, step.1@) == next_step(
                self.providers(),
                self.rules(),
                self.ttl_days(),
                state@,
                event@,
                now,
            ),
            step.1 matches ExchangeAction::Succeed(identity) ==> identity@.well_formed(),
    {
        match (state, event) {
            (ExchangeState::AwaitingToken(id), ExchangeEvent::TokenGranted(access_token)) => {
                match self.providers.get(id.as_str()) {
                    Some(provider) => {
                        let url = Self::userinfo_url(provider);
                        (
                            ExchangeState::AwaitingProfile(id),
                            ExchangeAction::FetchProfile(ProfileRequest { url, access_token }),
                        )
                    },
                    None => (
                        ExchangeState::Finished,
                        ExchangeAction::Fail(OidcError::ProviderNotFound(id)),
                    ),
                }
            },
            (ExchangeState::AwaitingToken(_), ExchangeEvent::TokenRefused(message)) => (
                ExchangeState::Finished,
                ExchangeAction::Fail(OidcError::OAuth2Error(message)),
            ),
            (ExchangeState::AwaitingProfile(_), ExchangeEvent::ProfileUnreachable(message)) => (
                ExchangeState::Finished,
                ExchangeAction::Fail(OidcError::HttpError(message)),
            ),
            (ExchangeState::AwaitingProfile(id), ExchangeEvent::ProfileReceived(status, body)) => {
                match self.identity_from_profile(id.as_str(), status, body.as_str(), now) {
                    Ok(identity) => (ExchangeState::Finished, ExchangeAction::Succeed(identity)),
                    Err(error) => (ExchangeState::Finished, ExchangeAction::Fail(error)),
                }
            },
            _ => (ExchangeState::Finished, ExchangeAction::Fail(OidcError::InvalidTokenResponse)),
        }
    }

    /// Carries an exchange on when `event` arrives in `state`, as of the
    /// present instant.
    pub fn exchange_step(&self, state: ExchangeState, event: ExchangeEvent) -> (step: (ExchangeState, ExchangeAction))
        ensures
            exists|now: Timestamp|
                now.is_clock_reading() && (step.0@, step.1@) == #[trigger] next_step(
                    self.providers(),
                    self.rules(),
                    self.ttl_days(),
                    state@,
                    event@,
                    now,
                ),
            step.1 matches ExchangeAction::Succeed(identity) ==> identity@.expires_at
                == identity@.created_at.plus_secs(self.ttl_days() * SECS_PER_DAY)
                && identity@.created_at.is_clock_reading() && identity@.well_formed(),
    {
        let now = Timestamp::now();
        self.exchange_step_at(state, event, now)
    }

    /// The address at which a user logs in at the provider `provider_id`.
    /// The anti-forgery state that the address carries is not handed out.
    pub fn get_authorization_url(&self, provider_id: &str, redirect_uri: &str) -> (url: Result<String, OidcError>)
        ensures
            match url {
                Ok(address) => request_fault(self.providers(), provider_id@, redirect_uri@)
                    is None && exists|state: Seq<char>|
                    state.len() == 22 && address@ == authorization_url_of(
                        self.providers()[provider_id@].discovery_url@,
                        self.providers()[provider_id@].client_id@,
                        redirect_uri@,
                        login_scopes(),
                        state,
                    ),
                Err(error) => request_fault(self.providers(), provider_id@, redirect_uri@)
                    == Some(error@),
            },
    {
        match self.authorization_request(provider_id, redirect_uri) {
            Ok(request) => Ok(request.url),
            Err(error) => Err(error),
        }
    }
}

} // verus!
