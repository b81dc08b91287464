use crate::claims::{
    decode_claims, encode_claims, signed, verified_claims, AccessClaims, AccessClaimsView,
    ClaimSet, ClaimSetView, RefreshClaims, RefreshClaimsView,
};
use crate::clock::unix_time;
use crate::config::AuthConfig;
use crate::db::{has_id, UserDatabase, UserView};
use crate::search::first_match;
use crate::text::{str_eq, text_view};
use vstd::prelude::*;

verus! {

/// An access token and the refresh token issued beside it.
#[derive(Debug, Clone, PartialEq, Eq)]
pub struct Tokens {
    pub access_token: String,
    pub refresh_token: String,
}

/// A token pair as the characters of its two tokens.
pub struct TokensView {
    pub access_token: Seq<char>,
    pub refresh_token: Seq<char>,
}

impl View for Tokens {
    type V = TokensView;

    open spec fn view(&self) -> TokensView {
        TokensView { access_token: self.access_token@, refresh_token: self.refresh_token@ }
    }
}

/// Who a request was authenticated as, and the fresh token pair if this resolution rotated.
#[derive(Debug, Clone, PartialEq, Eq)]
pub struct Session {
    pub user_id: String,
    pub new_tokens: Option<Tokens>,
}

/// A resolved session as the characters of its user id and its new tokens.
pub struct SessionView {
    pub user_id: Seq<char>,
    pub new_tokens: Option<TokensView>,
}

impl View for Session {
    type V = SessionView;

    open spec fn view(&self) -> SessionView {
        SessionView {
            user_id: self.user_id@,
            new_tokens: match self.new_tokens {
                Some(tokens) => Some(tokens@),
                None => None,
            },
        }
    }
}

/// Why a session could not be resolved. The first four are the caller's fault and all mean
/// "unauthorized"; `EncodingFailure` is internal: the expiry of a fresh token does not fit
/// in 64 bits, or the clock could not be read.
#[derive(Debug, Clone, Copy, PartialEq, Eq)]
pub enum SessionError {
    MissingRefreshToken,
    InvalidRefreshToken,
    ManuallyInvalidatedRefreshToken,
    InvalidAccessToken,
    EncodingFailure,
}

/// A token pair could not be issued: its refresh expiry does not fit in 64 bits, or the
/// clock could not be read.
#[derive(Debug, Clone, Copy, PartialEq, Eq)]
pub struct EncodingFailure;

/// Why a token was not accepted. Only an access token is ever reported `Expired`.
#[derive(Debug, Clone, Copy, PartialEq, Eq)]
pub enum VerifyError {
    Expired,
    Malformed,
}

/// A result with its success value replaced by that value's view.
pub open spec fn result_view<T: View, E>(r: Result<T, E>) -> Result<T::V, E> {
    match r {
        Ok(value) => Ok(value@),
        Err(e) => Err(e),
    }
}

/// The claims of the access token issued to `id` at `now`.
pub open spec fn access_claims(config: AuthConfig, id: Seq<char>, now: u64) -> ClaimSetView {
    ClaimSetView {
        sub: id,
        exp: (now + config.access_ttl()) as u64,
        iss: config.issuer_name(),
        version: None,
    }
}

/// The claims of the refresh token issued to `id` at `now` under `session_version`.
pub open spec fn refresh_claims(
    config: AuthConfig,
    id: Seq<char>,
    session_version: u64,
    now: u64,
) -> ClaimSetView {
    ClaimSetView {
        sub: id,
        exp: (now + config.refresh_ttl()) as u64,
        iss: config.issuer_name(),
        version: Some(session_version),
    }
}

/// The token pair issued to `id` at `now`: both sets of claims signed under the configured
/// key. Issuing fails exactly where the refresh expiry does not fit in 64 bits.
pub open spec fn issued(config: AuthConfig, id: Seq<char>, session_version: u64, now: u64) -> Result<
    TokensView,
    EncodingFailure,
> {
    if now + config.refresh_ttl() > u64::MAX {
        Err(EncodingFailure)
    } else {
        Ok(
            TokensView {
                access_token: signed(access_claims(config, id, now), config.key()),
                refresh_token: signed(
                    refresh_claims(config, id, session_version, now),
                    config.key(),
                ),
            },
        )
    }
}

/// `tokens` verify, under the configured key, as the pair issued to `id` at `now` under
/// `session_version`, and both expiries fit in 64 bits.
pub open spec fn carries(
    config: AuthConfig,
    tokens: TokensView,
    id: Seq<char>,
    session_version: u64,
    now: u64,
) -> bool {
    &&& now + config.refresh_ttl() <= u64::MAX
    &&& verified_claims(tokens.access_token, config.key()) == Some(access_claims(config, id, now))
    &&& verified_claims(tokens.refresh_token, config.key()) == Some(
        refresh_claims(config, id, session_version, now),
    )
}

/// What an access token is worth at `now`. A token whose signature or shape is wrong is
/// malformed, and so is one of a foreign issuer, expired or not; a sound token of this
/// issuer is expired once `now` has passed its expiry.
pub open spec fn access_check(config: AuthConfig, token: Seq<char>, now: u64) -> Result<
    AccessClaimsView,
    VerifyError,
> {
    match verified_claims(token, config.key()) {
        None => Err(VerifyError::Malformed),
        Some(claims) => if claims.iss != config.issuer_name() {
            Err(VerifyError::Malformed)
        } else if claims.exp < now {
            Err(VerifyError::Expired)
        } else {
            Ok(AccessClaimsView { sub: claims.sub, exp: claims.exp, iss: claims.iss })
        },
    }
}

/// What a refresh token is worth at `now`. Anything but a sound, unexpired token of this
/// issuer that carries a session version is malformed.
pub open spec fn refresh_check(config: AuthConfig, token: Seq<char>, now: u64) -> Result<
    RefreshClaimsView,
    VerifyError,
> {
    match verified_claims(token, config.key()) {
        Some(claims) => match claims.version {
            Some(version) => if claims.exp < now || claims.iss != config.issuer_name() {
                Err(VerifyError::Malformed)
            } else {
                Ok(
                    RefreshClaimsView {
                        sub: claims.sub,
                        exp: claims.exp,
                        iss: claims.iss,
                        version,
                    },
                )
            },
            None => Err(VerifyError::Malformed),
        },
        None => Err(VerifyError::Malformed),
    }
}

/// The outcome of resuming a session from its refresh token alone: the token must be
/// there, must verify, must name a user of the store, and must carry that user's current
/// session version; then a fresh pair is issued to that user.
pub open spec fn rotation(
    config: AuthConfig,
    refresh: Option<Seq<char>>,
    users: Seq<UserView>,
    now: u64,
) -> Result<SessionView, SessionError> {
    match refresh {
        None => Err(SessionError::MissingRefreshToken),
        Some(token) => match refresh_check(config, token, now) {
            Err(_) => Err(SessionError::InvalidRefreshToken),
            Ok(claims) => match first_match(users, has_id(claims.sub)) {
                None => Err(SessionError::InvalidRefreshToken),
                Some(user) => if claims.version != user.session_version {
                    Err(SessionError::ManuallyInvalidatedRefreshToken)
                } else {
                    match issued(config, user.id, user.session_version, now) {
                        Ok(tokens) => Ok(
                            SessionView { user_id: user.id, new_tokens: Some(tokens) },
                        ),
                        Err(_) => Err(SessionError::EncodingFailure),
                    }
                },
            },
        },
    }
}

/// The outcome of resolving a session at `now` from the two cookies of a request. A valid
/// access token settles it without a look at the store; an absent or expired one hands
/// over to the refresh token; one that is invalid for any other reason is final.
pub open spec fn resolution(
    config: AuthConfig,
    access: Option<Seq<char>>,
    refresh: Option<Seq<char>>,
    users: Seq<UserView>,
    now: u64,
) -> Result<SessionView, SessionError> {
    match access {
        None => rotation(config, refresh, users, now),
        Some(token) => match access_check(config, token, now) {
            Ok(claims) => Ok(SessionView { user_id: claims.sub, new_tokens: None }),
            Err(VerifyError::Expired) => rotation(config, refresh, users, now),
            Err(VerifyError::Malformed) => Err(SessionError::InvalidAccessToken),
        },
    }
}

/// What the access token issued to `id` at `now` is worth at `later`: the claims it was
/// issued with up to and including its expiry, and expired ever after.
pub open spec fn issued_access_at(config: AuthConfig, id: Seq<char>, now: u64, later: u64) -> Result<
    AccessClaimsView,
    VerifyError,
> {
    if later <= now + config.access_ttl() {
        Ok(
            AccessClaimsView {
                sub: id,
                exp: (now + config.access_ttl()) as u64,
                iss: config.issuer_name(),
            },
        )
    } else {
        Err(VerifyError::Expired)
    }
}

/// Where `session` came with new tokens, they verify as the pair issued at `now` to the
/// user of the session, under the session version that the store holds for that user.
pub open spec fn rotated_pair_carries(
    config: AuthConfig,
    session: SessionView,
    users: Seq<UserView>,
    now: u64,
) -> bool {
    match session.new_tokens {
        Some(tokens) => match first_match(users, has_id(session.user_id)) {
            Some(user) => carries(config, tokens, session.user_id, user.session_version, now),
            None => false,
        },
        None => true,
    }
}

/// Issues the token pair of `id` at the time `now`, in seconds since the epoch.
pub fn generate_tokens_at(config: &AuthConfig, id: &str, session_version: u64, now: u64) -> (r:
    Result<Tokens, EncodingFailure>)
    ensures
        result_view(r) == issued(*config, id@, session_version, now),
        (r is Ok) == (now + config.refresh_ttl() <= u64::MAX),
        r matches Ok(tokens) ==> carries(*config, tokens@, id@, session_version, now),
        r matches Ok(tokens) ==> forall|later: u64| #[trigger]
            access_check(*config, tokens@.access_token, later) == issued_access_at(
                *config,
                id@,
                now,
                later,
            ),
{
    proof {
        use_type_invariant(config);
    }
    let refresh_exp = match now.checked_add(config.refresh_ttl()) {
        Some(exp) => exp,
        None => {
            return Err(EncodingFailure);
        },
    };
    let access = ClaimSet {
        sub: id.to_owned(),
        exp: now + config.access_ttl(),
        iss: config.issuer().to_owned(),
        version: None,
    };
    let refresh = ClaimSet {
        sub: id.to_owned(),
        exp: refresh_exp,
        iss: config.issuer().to_owned(),
        version: Some(session_version),
    };
    let access_token = encode_claims(&access, config.signing_key());
    let refresh_token = encode_claims(&refresh, config.signing_key());
    match (access_token, refresh_token) {
        (Some(access_token), Some(refresh_token)) => Ok(Tokens { access_token, refresh_token }),
        _ => Err(EncodingFailure),
    }
}

/// Issues the token pair of `id` at the time the system clock shows. Whatever the clock
/// showed, a pair that comes back is the pair issued at some time.
pub fn generate_tokens(config: &AuthConfig, id: &str, session_version: u64) -> (r: Result<
    Tokens,
    EncodingFailure,
>)
    ensures
        r matches Ok(tokens) ==> exists|now: u64|
            {
                &&& #[trigger] issued(*config, id@, session_version, now) == Ok::<
                    TokensView,
                    EncodingFailure,
                >(tokens@)
                &&& carries(*config, tokens@, id@, session_version, now)
            },
{
    match unix_time() {
        Some(now) => generate_tokens_at(config, id, session_version, now),
        None => Err(EncodingFailure),
    }
}

/// Verifies an access token at the time `now`.
pub fn verify_access(config: &AuthConfig, token: &str, now: u64) -> (r: Result<
    AccessClaims,
    VerifyError,
>)
    ensures
        result_view(r) == access_check(*config, token@, now),
{
    match decode_claims(token, config.signing_key()) {
        None => Err(VerifyError::Malformed),
        Some(claims) => {
            if !str_eq(claims.iss.as_str(), config.issuer()) {
                Err(VerifyError::Malformed)
            } else if claims.exp < now {
                Err(VerifyError::Expired)
            } else {
                Ok(AccessClaims { sub: claims.sub, exp: claims.exp, iss: claims.iss })
            }
        },
    }
}

/// Verifies a refresh token at the time `now`.
pub fn verify_refresh(config: &AuthConfig, token: &str, now: u64) -> (r: Result<
    RefreshClaims,
    VerifyError,
>)
    ensures
        result_view(r) == refresh_check(*config, token@, now),
{
    match decode_claims(token, config.signing_key()) {
        None => Err(VerifyError::Malformed),
        Some(claims) => {
            match claims.version {
                None => Err(VerifyError::Malformed),
                Some(version) => {
                    if claims.exp < now || !str_eq(claims.iss.as_str(), config.issuer()) {
                        Err(VerifyError::Malformed)
                    } else {
                        Ok(
                            RefreshClaims {
                                sub: claims.sub,
                                exp: claims.exp,
                                iss: claims.iss,
                                version,
                            },
                        )
                    }
                },
            }
        },
    }
}

/// Resolves the session of a request at the time `now` from its access and refresh
/// cookies, rotating both tokens where the access token is absent or expired.
pub fn validate_session_at<D: UserDatabase>(
    config: &AuthConfig,
    access_cookie: Option<&str>,
    refresh_cookie: Option<&str>,
    db: &D,
    now: u64,
) -> (r: Result<Session, SessionError>)
    ensures
        result_view(r) == resolution(
            *config,
            text_view(access_cookie),
            text_view(refresh_cookie),
            db.records(),
            now,
        ),
        r matches Ok(session) ==> rotated_pair_carries(*config, session@, db.records(), now),
{
    if let Some(token) = access_cookie {
        match verify_access(config, token, now) {
            Ok(claims) => {
                return Ok(Session { user_id: claims.sub, new_tokens: None });
            },
            Err(VerifyError::Malformed) => {
                return Err(SessionError::InvalidAccessToken);
            },
            Err(VerifyError::Expired) => {},
        }
    }
    let token = match refresh_cookie {
        Some(token) => token,
        None => {
            return Err(SessionError::MissingRefreshToken);
        },
    };
    let claims = match verify_refresh(config, token, now) {
        Ok(claims) => claims,
        Err(_) => {
            return Err(SessionError::InvalidRefreshToken);
        },
    };
    let user = match db.get_user_by_id(claims.sub.as_str()) {
        Some(user) => user,
        None => {
            return Err(SessionError::InvalidRefreshToken);
        },
    };
    if claims.version != user.session_version {
        return Err(SessionError::ManuallyInvalidatedRefreshToken);
    }
    match generate_tokens_at(config, user.id.as_str(), user.session_version, now) {
        Ok(tokens) => Ok(Session { user_id: user.id, new_tokens: Some(tokens) }),
        Err(_) => Err(SessionError::EncodingFailure),
    }
}

/// Resolves the session of a request at the time the system clock shows. Where the clock
/// cannot be read the resolution fails as an internal error; otherwise the outcome is the
/// resolution at some time.
pub fn validate_session<D: UserDatabase>(
    config: &AuthConfig,
    access_cookie: Option<&str>,
    refresh_cookie: Option<&str>,
    db: &D,
) -> (r: Result<Session, SessionError>)
    ensures
        r == Err::<Session, SessionError>(SessionError::EncodingFailure) || exists|now: u64|
            {
                &&& result_view(r) == #[trigger] resolution(
                    *config,
                    text_view(access_cookie),
                    text_view(refresh_cookie),
                    db.records(),
                    now,
                )
                &&& r matches Ok(session) ==> rotated_pair_carries(
                    *config,
                    session@,
                    db.records(),
                    now,
                )
            },
{
    match unix_time() {
        Some(now) => validate_session_at(config, access_cookie, refresh_cookie, db, now),
        None => Err(SessionError::EncodingFailure),
    }
}

} // verus!
