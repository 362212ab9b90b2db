use vstd::prelude::*;
use crate::claims::{claims_of, ClaimValueView};
use crate::jwt::{
    claims_for, decoded_token, fresh_identifier, issued_as, signing_gives, verdict, verified_as,
    JwtManager,
};
use crate::models::{JwtClaims, OidcIdentity};
use crate::session::SessionStore;
use crate::text::same_text;
use crate::time::{CLOCK_SECS_LIMIT, SECS_PER_HOUR};

verus! {

/// Why a request was turned down.
#[derive(Debug, Clone, Copy, PartialEq, Eq, Structural)]
pub enum Rejection {
    /// The request lacks what it has to bring.
    BadRequest,
    /// The request names no session of the registry.
    Unauthorized,
    /// The gateway failed.
    Internal,
}

impl Rejection {
    /// The HTTP status that tells the rejection.
    pub open spec fn status(self) -> u16 {
        match self {
            Rejection::BadRequest => 400,
            Rejection::Unauthorized => 401,
            Rejection::Internal => 500,
        }
    }

    /// The HTTP status that tells the rejection.
    pub fn status_code(&self) -> (code: u16)
        ensures
            code == self.status(),
    {
        match self {
            Rejection::BadRequest => 400,
            Rejection::Unauthorized => 401,
            Rejection::Internal => 500,
        }
    }
}

/// A token with the number of seconds for which it holds.
#[derive(Debug)]
pub struct TokenGrant {
    pub token: String,
    pub expires_in: u64,
}

/// A login: the token of the user and the handle of the session.
#[derive(Debug)]
pub struct Login {
    pub token: String,
    pub session_id: String,
}

/// The token of a login, if the login succeeded.
pub open spec fn login_token(login: Result<Login, Rejection>) -> Option<Seq<char>> {
    match login {
        Ok(opened) => Some(opened.token@),
        Err(_) => None,
    }
}

/// The token of a grant, if one was granted.
pub open spec fn grant_token(grant: Result<TokenGrant, Rejection>) -> Option<Seq<char>> {
    match grant {
        Ok(granted) => Some(granted.token@),
        Err(_) => None,
    }
}

/// Whether `checked` is what becomes, at the second `now`, of a request's
/// token whose signature held and whose claims have the members `members`:
/// its claims where they are accepted, nothing where they are not.
pub open spec fn checked_as(
    checked: Result<Option<JwtClaims>, Rejection>,
    members: Map<Seq<char>, ClaimValueView>,
    now: int,
) -> bool {
    match verdict(claims_of(members), now) {
        Ok(accepted) => checked matches Ok(Some(claims)) && claims@ == accepted,
        Err(_) => checked matches Ok(None),
    }
}

/// Admits the callback of a login: it has to bring an authorization code,
/// and the state it brings has to be one that went out for `provider`.
/// `expected` is the provider for which the state of the callback went out,
/// if it went out at all.
pub fn admit_callback<'a>(code: Option<&'a str>, expected: Option<&str>, provider: &str) -> (admitted:
    Result<&'a str, Rejection>)
    ensures
        match admitted {
            Ok(brought) => code == Some(brought) && expected is Some && expected->0@ == provider@,
            Err(rejection) => rejection == Rejection::BadRequest && (code is None || expected
                is None || expected->0@ != provider@),
        },
{
    let brought = match code {
        Some(brought) => brought,
        None => {
            return Err(Rejection::BadRequest);
        },
    };
    match expected {
        Some(known) => {
            if same_text(known, provider) {
                Ok(brought)
            } else {
                Err(Rejection::BadRequest)
            }
        },
        None => Err(Rejection::BadRequest),
    }
}

/// Files `identity` as a session under a fresh handle and issues a token
/// for it: the token that signing makes of the identity's claims as of
/// some reading of the clock, and an internal failure exactly where signing
/// makes none. The session stays where no token could be issued.
pub fn open_session(
    store: &mut SessionStore,
    issuer: &JwtManager,
    identity: OidcIdentity,
    ttl_hours: u32,
) -> (login: Result<Login, Rejection>)
    requires
        old(store).well_formed(),
        ttl_hours >= 1,
    ensures
        final(store).well_formed(),
        final(store).swept_at() == old(store).swept_at(),
        exists|handle: Seq<char>|
            handle.len() == 36 && final(store)@ == #[trigger] old(store)@.insert(handle, identity@),
        login matches Ok(opened) ==> final(store)@ == old(store)@.insert(
            opened.session_id@,
            identity@,
        ),
        login matches Err(rejection) ==> rejection == Rejection::Internal,
        exists|now: int, token_id: Seq<char>|
            0 <= now < CLOCK_SECS_LIMIT && token_id.len() == 36 && #[trigger] signing_gives(
                issuer.private_key_text(),
                issuer.algorithm_spec(),
                claims_for(identity@, ttl_hours, now, token_id),
                login_token(login),
            ),
{
    let session_id = fresh_identifier();
    let holder = identity.clone();
    store.add_session(session_id.clone(), identity);
    assert(final(store)@ == old(store)@.insert(session_id@, identity@));
    let issued = issuer.create_token(&holder, ttl_hours);
    let login = match issued {
        Ok(token) => Ok(Login { token, session_id }),
        Err(_) => Err(Rejection::Internal),
    };
    proof {
        let (now, token_id) = choose|now: int, token_id: Seq<char>|
            0 <= now < CLOCK_SECS_LIMIT && token_id.len() == 36 && #[trigger] issued_as(
                issued,
                issuer.private_key_text(),
                issuer.algorithm_spec(),
                claims_for(holder@, ttl_hours, now, token_id),
            );
        assert(signing_gives(
            issuer.private_key_text(),
            issuer.algorithm_spec(),
            claims_for(identity@, ttl_hours, now, token_id),
            login_token(login),
        ));
    }
    login
}

/// Issues a new token for the session that a request names: for a session
/// that is found, the token that signing makes of the claims of its
/// identity as of some reading of the clock, and an internal failure exactly
/// where signing makes none.
pub fn refresh_token(
    store: &SessionStore,
    issuer: &JwtManager,
    session_id: Option<&str>,
    ttl_hours: u32,
) -> (grant: Result<TokenGrant, Rejection>)
    requires
        ttl_hours >= 1,
    ensures
        match grant {
            Ok(granted) => session_id is Some && store@.contains_key(session_id->0@)
                && granted.expires_in == ttl_hours * SECS_PER_HOUR,
            Err(Rejection::BadRequest) => session_id is None,
            Err(Rejection::Unauthorized) => session_id is Some && !store@.contains_key(
                session_id->0@,
            ),
            Err(Rejection::Internal) => session_id is Some && store@.contains_key(session_id->0@),
        },
        session_id is Some && store@.contains_key(session_id->0@) ==> exists|
            now: int,
            token_id: Seq<char>,
        |
            0 <= now < CLOCK_SECS_LIMIT && token_id.len() == 36 && #[trigger] signing_gives(
                issuer.private_key_text(),
                issuer.algorithm_spec(),
                claims_for(store@[session_id->0@], ttl_hours, now, token_id),
                grant_token(grant),
            ),
{
    let handle = match session_id {
        Some(handle) => handle,
        None => {
            return Err(Rejection::BadRequest);
        },
    };
    let identity = match store.get_session(handle) {
        Some(identity) => identity,
        None => {
            return Err(Rejection::Unauthorized);
        },
    };
    let issued = issuer.create_token(identity, ttl_hours);
    let grant = match issued {
        Ok(token) => Ok(TokenGrant { token, expires_in: ttl_hours as u64 * 3_600 }),
        Err(_) => Err(Rejection::Internal),
    };
    proof {
        let (now, token_id) = choose|now: int, token_id: Seq<char>|
            0 <= now < CLOCK_SECS_LIMIT && token_id.len() == 36 && #[trigger] issued_as(
                issued,
                issuer.private_key_text(),
                issuer.algorithm_spec(),
                claims_for(identity@, ttl_hours, now, token_id),
            );
        assert(signing_gives(
            issuer.private_key_text(),
            issuer.algorithm_spec(),
            claims_for(store@[handle@], ttl_hours, now, token_id),
            grant_token(grant),
        ));
    }
    grant
}

/// Verifies the token that a request brings. A request without a token is
/// a bad request. A token that the decoder refuses gives nothing, and the
/// claims of any other token are decided on at some reading of the clock:
/// the claims where they are accepted, nothing where they are not.
pub fn check_token(issuer: &JwtManager, token: Option<&str>) -> (checked: Result<
    Option<JwtClaims>,
    Rejection,
>)
    ensures
        token is None ==> checked matches Err(Rejection::BadRequest),
        token is Some && decoded_token(
            token->0@,
            issuer.public_key_text(),
            issuer.algorithm_spec(),
        ) is None ==> checked matches Ok(None),
        token is Some && decoded_token(
            token->0@,
            issuer.public_key_text(),
            issuer.algorithm_spec(),
        ) is Some ==> exists|now: int|
            0 <= now < CLOCK_SECS_LIMIT && #[trigger] checked_as(
                checked,
                decoded_token(token->0@, issuer.public_key_text(), issuer.algorithm_spec())->0,
                now,
            ),
{
    match token {
        None => Err(Rejection::BadRequest),
        Some(text) => {
            let ghost decoded = decoded_token(
                text@,
                issuer.public_key_text(),
                issuer.algorithm_spec(),
            );
            let verified = issuer.verify_token(text);
            let checked = match verified {
                Ok(claims) => Ok(Some(claims)),
                Err(_) => Ok(None),
            };
            proof {
                if decoded is Some {
                    let now = choose|now: int|
                        0 <= now < CLOCK_SECS_LIMIT && #[trigger] verified_as(
                            verified,
                            decoded->0,
                            now,
                        );
                    assert(checked_as(checked, decoded->0, now));
                }
            }
            checked
        },
    }
}

} // verus!
