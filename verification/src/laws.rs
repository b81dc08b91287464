use crate::auth::{
    access_check, carries, issued, refresh_check, resolution, rotation, SessionError,
    SessionView, TokensView, VerifyError,
};
use crate::claims::{verified_claims, AccessClaimsView, RefreshClaimsView};
use crate::config::AuthConfig;
use crate::db::{accepts, bumped, has_id, has_username, raised, unique, UserView};
use crate::endpoints::{login_response, token_cookies, Status};
use crate::search::{
    first_match, first_position, is_first, lemma_first_position, lemma_some_position,
};
use vstd::prelude::*;

verus! {

/// An issued access token verifies as its owner's at every moment up to and including its
/// expiry, and is reported expired, and nothing else, at every moment after it.
pub proof fn lemma_access_token_window(
    config: AuthConfig,
    tokens: TokensView,
    id: Seq<char>,
    session_version: u64,
    now: u64,
    later: u64,
)
    requires
        config.wf(),
        carries(config, tokens, id, session_version, now),
    ensures
        later <= now + config.access_ttl() ==> access_check(config, tokens.access_token, later)
            == Ok::<AccessClaimsView, VerifyError>(
            AccessClaimsView {
                sub: id,
                exp: (now + config.access_ttl()) as u64,
                iss: config.issuer_name(),
            },
        ),
        later > now + config.access_ttl() ==> access_check(config, tokens.access_token, later)
            == Err::<AccessClaimsView, VerifyError>(VerifyError::Expired),
{
}

/// An issued refresh token verifies, with the session version it was issued under, at
/// every moment up to and including its expiry, and is malformed at every moment after it.
pub proof fn lemma_refresh_token_window(
    config: AuthConfig,
    tokens: TokensView,
    id: Seq<char>,
    session_version: u64,
    now: u64,
    later: u64,
)
    requires
        config.wf(),
        carries(config, tokens, id, session_version, now),
    ensures
        later <= now + config.refresh_ttl() ==> refresh_check(
            config,
            tokens.refresh_token,
            later,
        ) == Ok::<RefreshClaimsView, VerifyError>(
            RefreshClaimsView {
                sub: id,
                exp: (now + config.refresh_ttl()) as u64,
                iss: config.issuer_name(),
                version: session_version,
            },
        ),
        later > now + config.refresh_ttl() ==> refresh_check(
            config,
            tokens.refresh_token,
            later,
        ) == Err::<RefreshClaimsView, VerifyError>(VerifyError::Malformed),
{
}

/// Of two tokens issued together, the access token expires strictly first.
pub proof fn lemma_access_expires_first(
    config: AuthConfig,
    tokens: TokensView,
    id: Seq<char>,
    session_version: u64,
    now: u64,
    at: u64,
)
    requires
        config.wf(),
        carries(config, tokens, id, session_version, now),
        access_check(config, tokens.access_token, at) is Ok,
    ensures
        refresh_check(config, tokens.refresh_token, at) is Ok,
        access_check(config, tokens.access_token, at)->Ok_0.exp < refresh_check(
            config,
            tokens.refresh_token,
            at,
        )->Ok_0.exp,
{
}

/// Two pairs issued to one user under one session version at different moments share
/// neither token.
pub proof fn lemma_issue_times_tell_tokens_apart(
    config: AuthConfig,
    first: TokensView,
    second: TokensView,
    id: Seq<char>,
    session_version: u64,
    first_now: u64,
    second_now: u64,
)
    requires
        config.wf(),
        carries(config, first, id, session_version, first_now),
        carries(config, second, id, session_version, second_now),
        first_now != second_now,
    ensures
        first.access_token != second.access_token,
        first.refresh_token != second.refresh_token,
{
}

/// A valid access token settles the resolution whatever the refresh cookie and the store
/// hold, and nothing is rotated.
pub proof fn lemma_valid_access_settles(
    config: AuthConfig,
    access: Seq<char>,
    refresh: Option<Seq<char>>,
    users: Seq<UserView>,
    now: u64,
)
    requires
        access_check(config, access, now) is Ok,
    ensures
        resolution(config, Some(access), refresh, users, now) == Ok::<SessionView, SessionError>(
            SessionView {
                user_id: access_check(config, access, now)->Ok_0.sub,
                new_tokens: None,
            },
        ),
{
}

/// An access token that is present and invalid for any reason but expiry is final: no
/// refresh cookie and no store can turn the outcome into anything but `InvalidAccessToken`.
pub proof fn lemma_invalid_access_is_final(
    config: AuthConfig,
    access: Seq<char>,
    refresh: Option<Seq<char>>,
    users: Seq<UserView>,
    now: u64,
)
    requires
        access_check(config, access, now) == Err::<AccessClaimsView, VerifyError>(
            VerifyError::Malformed,
        ),
    ensures
        resolution(config, Some(access), refresh, users, now) == Err::<SessionView, SessionError>(
            SessionError::InvalidAccessToken,
        ),
{
}

/// The refresh token is consulted exactly when the access token is absent or expired, and
/// then it alone decides.
pub proof fn lemma_refresh_decides_without_access(
    config: AuthConfig,
    access: Option<Seq<char>>,
    refresh: Option<Seq<char>>,
    users: Seq<UserView>,
    now: u64,
)
    requires
        access matches Some(token) ==> access_check(config, token, now) == Err::<
            AccessClaimsView,
            VerifyError,
        >(VerifyError::Expired),
    ensures
        resolution(config, access, refresh, users, now) == rotation(config, refresh, users, now),
{
}

/// Issuing succeeds exactly where the refresh expiry fits in 64 bits.
pub proof fn lemma_issuing_fails_on_overflow_only(
    config: AuthConfig,
    id: Seq<char>,
    session_version: u64,
    now: u64,
)
    ensures
        issued(config, id, session_version, now) is Ok <==> now + config.refresh_ttl()
            <= u64::MAX,
{
}

/// An access token is reported expired exactly when it is sound, of this issuer, and past
/// its expiry; a sound token of a foreign issuer is malformed at every moment.
pub proof fn lemma_expired_means_past_expiry(config: AuthConfig, token: Seq<char>, now: u64)
    ensures
        access_check(config, token, now) == Err::<AccessClaimsView, VerifyError>(
            VerifyError::Expired,
        ) <==> (verified_claims(token, config.key()) matches Some(claims) && claims.iss
            == config.issuer_name() && claims.exp < now),
        (verified_claims(token, config.key()) matches Some(claims) && claims.iss
            != config.issuer_name()) ==> access_check(config, token, now) == Err::<
            AccessClaimsView,
            VerifyError,
        >(VerifyError::Malformed),
{
}

/// Rotation: a refresh token that verifies and carries the current session version of its
/// user resumes the session as that user, with the pair issued at that moment under that
/// same version. It succeeds wherever the new refresh expiry fits in 64 bits.
pub proof fn lemma_current_refresh_rotates(
    config: AuthConfig,
    refresh: Seq<char>,
    users: Seq<UserView>,
    now: u64,
)
    requires
        refresh_check(config, refresh, now) matches Ok(claims) && first_match(
            users,
            has_id(claims.sub),
        ) matches Some(user) && claims.version == user.session_version,
    ensures
        now + config.refresh_ttl() <= u64::MAX ==> rotation(config, Some(refresh), users, now)
            == Ok::<SessionView, SessionError>(
            SessionView {
                user_id: refresh_check(config, refresh, now)->Ok_0.sub,
                new_tokens: Some(
                    issued(
                        config,
                        refresh_check(config, refresh, now)->Ok_0.sub,
                        refresh_check(config, refresh, now)->Ok_0.version,
                        now,
                    )->Ok_0,
                ),
            },
        ),
        now + config.refresh_ttl() > u64::MAX ==> rotation(config, Some(refresh), users, now)
            == Err::<SessionView, SessionError>(SessionError::EncodingFailure),
{
}

/// Rotation of an issued pair: once the access token of a pair has expired and while its
/// refresh token has not, the pair resolves to its user with a freshly issued pair, as long
/// as the store still holds that user under the session version the pair was issued with.
pub proof fn lemma_issued_pair_rotates(
    config: AuthConfig,
    tokens: TokensView,
    id: Seq<char>,
    session_version: u64,
    issued_at: u64,
    users: Seq<UserView>,
    now: u64,
)
    requires
        config.wf(),
        carries(config, tokens, id, session_version, issued_at),
        first_match(users, has_id(id)) matches Some(user) && user.session_version
            == session_version,
        issued_at + config.access_ttl() < now <= issued_at + config.refresh_ttl(),
        now + config.refresh_ttl() <= u64::MAX,
    ensures
        resolution(
            config,
            Some(tokens.access_token),
            Some(tokens.refresh_token),
            users,
            now,
        ) == Ok::<SessionView, SessionError>(
            SessionView {
                user_id: id,
                new_tokens: Some(issued(config, id, session_version, now)->Ok_0),
            },
        ),
        resolution(config, None, Some(tokens.refresh_token), users, now) == resolution(
            config,
            Some(tokens.access_token),
            Some(tokens.refresh_token),
            users,
            now,
        ),
{
}

/// Revoking the sessions of `id` raises the version that a lookup of `id` finds and leaves
/// what a lookup of any other id finds as it was.
pub proof fn lemma_bump_raises_only_its_user(users: Seq<UserView>, id: Seq<char>, other: Seq<char>)
    ensures
        first_match(bumped(users, id), has_id(id)) == match first_match(users, has_id(id)) {
            Some(user) => Some(raised(user)),
            None => None,
        },
        other != id ==> first_match(bumped(users, id), has_id(other)) == first_match(
            users,
            has_id(other),
        ),
{
    let after = bumped(users, id);
    match first_position(users, has_id(id)) {
        Some(i) => {
            assert(is_first(users, has_id(id), i));
            assert(after.len() == users.len());
            assert forall|j: int| 0 <= j < i implies !has_id(id)(#[trigger] after[j]) by {
                assert(after[j] == users[j]);
            }
            lemma_first_position(after, has_id(id), i);
        },
        None => {},
    }
    if other != id {
        lemma_same_ids_same_positions(users, after, other);
    }
}

/// Two stores whose records carry the same ids in the same places find a given id in the
/// same place.
proof fn lemma_same_ids_same_positions(users: Seq<UserView>, after: Seq<UserView>, id: Seq<char>)
    requires
        after.len() == users.len(),
        forall|j: int| 0 <= j < users.len() ==> (#[trigger] after[j]).id == users[j].id,
        forall|j: int|
            0 <= j < users.len() && users[j].id == id ==> #[trigger] after[j] == users[j],
    ensures
        first_match(after, has_id(id)) == first_match(users, has_id(id)),
{
    match first_position(users, has_id(id)) {
        Some(i) => {
            assert(is_first(users, has_id(id), i));
            assert forall|j: int| 0 <= j < i implies !has_id(id)(#[trigger] after[j]) by {
                assert(!has_id(id)(users[j]));
            }
            assert(after[i] == users[i]);
            lemma_first_position(after, has_id(id), i);
        },
        None => {
            assert forall|j: int| 0 <= j < after.len() implies !has_id(id)(
                #[trigger] after[j],
            ) by {
                if has_id(id)(users[j]) {
                    lemma_some_position(users, has_id(id), j);
                }
            }
            lemma_first_position(after, has_id(id), after.len() as int);
        },
    }
}

/// Revocation: once the session version of a user has been raised, a refresh token that
/// carried the version current before is refused as manually invalidated, though its
/// signature, issuer and expiry are all in order.
pub proof fn lemma_bump_revokes_refresh(
    config: AuthConfig,
    access: Option<Seq<char>>,
    refresh: Seq<char>,
    users: Seq<UserView>,
    now: u64,
)
    requires
        access matches Some(token) ==> access_check(config, token, now) == Err::<
            AccessClaimsView,
            VerifyError,
        >(VerifyError::Expired),
        refresh_check(config, refresh, now) matches Ok(claims) && first_match(
            users,
            has_id(claims.sub),
        ) matches Some(user) && claims.version == user.session_version && user.session_version
            < u64::MAX,
    ensures
        resolution(
            config,
            access,
            Some(refresh),
            bumped(users, refresh_check(config, refresh, now)->Ok_0.sub),
            now,
        ) == Err::<SessionView, SessionError>(SessionError::ManuallyInvalidatedRefreshToken),
{
    let id = refresh_check(config, refresh, now)->Ok_0.sub;
    lemma_bump_raises_only_its_user(users, id, id);
}

/// Time only ever moves a token from accepted to expired: one that is accepted at some
/// moment was accepted, with the same claims, at every earlier moment, and one that is
/// expired at some moment is expired at every later moment.
pub proof fn lemma_expiry_is_monotone(config: AuthConfig, token: Seq<char>, earlier: u64, later: u64)
    requires
        earlier <= later,
    ensures
        access_check(config, token, later) is Ok ==> access_check(config, token, earlier)
            == access_check(config, token, later),
        access_check(config, token, earlier) == Err::<AccessClaimsView, VerifyError>(
            VerifyError::Expired,
        ) ==> access_check(config, token, later) == Err::<AccessClaimsView, VerifyError>(
            VerifyError::Expired,
        ),
{
}

/// A record appended under a fresh id is what a lookup of that id finds, one appended
/// under a fresh username is what a lookup of that username finds, and a lookup that found
/// a record before the append finds the same record after it.
pub proof fn lemma_added_user_is_found(
    users: Seq<UserView>,
    user: UserView,
    wanted: spec_fn(UserView) -> bool,
)
    ensures
        first_match(users, has_id(user.id)) is None ==> first_match(
            users.push(user),
            has_id(user.id),
        ) == Some(user),
        first_match(users, has_username(user.username)) is None ==> first_match(
            users.push(user),
            has_username(user.username),
        ) == Some(user),
        first_match(users, wanted) is Some ==> first_match(users.push(user), wanted)
            == first_match(users, wanted),
{
    lemma_appended_match(users, user, has_id(user.id));
    lemma_appended_match(users, user, has_username(user.username));
    lemma_appended_match(users, user, wanted);
}

/// What the first match is after an append: the old one where there was one, else the
/// appended record where it is selected.
proof fn lemma_appended_match(
    users: Seq<UserView>,
    user: UserView,
    wanted: spec_fn(UserView) -> bool,
)
    ensures
        first_match(users.push(user), wanted) == match first_match(users, wanted) {
            Some(found) => Some(found),
            None => if wanted(user) {
                Some(user)
            } else {
                None
            },
        },
{
    let after = users.push(user);
    match first_position(users, wanted) {
        Some(i) => {
            assert(is_first(users, wanted, i));
            assert forall|j: int| 0 <= j < i implies !wanted(#[trigger] after[j]) by {
                assert(after[j] == users[j]);
            }
            assert(after[i] == users[i]);
            lemma_first_position(after, wanted, i);
        },
        None => {
            assert forall|j: int| 0 <= j < users.len() implies !wanted(#[trigger] after[j]) by {
                assert(after[j] == users[j]);
                if wanted(users[j]) {
                    lemma_some_position(users, wanted, j);
                }
            }
            if wanted(user) {
                assert(after[users.len() as int] == user);
                lemma_first_position(after, wanted, users.len() as int);
            } else {
                assert forall|j: int| 0 <= j < after.len() implies !wanted(#[trigger] after[j]) by {
                    if j == users.len() {
                        assert(after[j] == user);
                    }
                }
                lemma_first_position(after, wanted, after.len() as int);
            }
        },
    }
}

/// Revocation touches session versions alone, and only upwards: the store keeps its length,
/// every record keeps its id, username and password hash, and no session version falls.
pub proof fn lemma_bump_never_lowers_a_version(users: Seq<UserView>, id: Seq<char>, j: int)
    requires
        0 <= j < users.len(),
    ensures
        bumped(users, id).len() == users.len(),
        bumped(users, id)[j].id == users[j].id,
        bumped(users, id)[j].username == users[j].username,
        bumped(users, id)[j].password_hash == users[j].password_hash,
        bumped(users, id)[j].session_version >= users[j].session_version,
        bumped(users, id)[j].session_version <= users[j].session_version + 1,
{
    match first_position(users, has_id(id)) {
        Some(i) => {
            assert(is_first(users, has_id(id), i));
        },
        None => {},
    }
}

/// A store without shared ids or usernames stays one when a record with a fresh id and a
/// fresh username is appended, and when sessions are revoked.
pub proof fn lemma_uniqueness_is_kept(users: Seq<UserView>, user: UserView, id: Seq<char>)
    requires
        unique(users),
    ensures
        first_match(users, has_id(user.id)) is None && first_match(
            users,
            has_username(user.username),
        ) is None ==> unique(users.push(user)),
        unique(bumped(users, id)),
{
    let after = bumped(users, id);
    assert forall|i: int, j: int| 0 <= i < j < after.len() implies after[i].id != after[j].id
        && after[i].username != after[j].username by {
        lemma_bump_never_lowers_a_version(users, id, i);
        lemma_bump_never_lowers_a_version(users, id, j);
        assert(users[i].id != users[j].id && users[i].username != users[j].username);
    }
    if first_match(users, has_id(user.id)) is None && first_match(
        users,
        has_username(user.username),
    ) is None {
        let more = users.push(user);
        assert forall|i: int, j: int| 0 <= i < j < more.len() implies more[i].id != more[j].id
            && more[i].username != more[j].username by {
            if j == users.len() {
                if users[i].id == user.id {
                    lemma_some_position(users, has_id(user.id), i);
                }
                if users[i].username == user.username {
                    lemma_some_position(users, has_username(user.username), i);
                }
            } else {
                assert(users[i].id != users[j].id && users[i].username != users[j].username);
            }
        }
    }
}

/// Login: an unknown username is not found; a known one with a password its hash does not
/// accept is unauthorized; a known one with an accepted password gets the pair issued at
/// that moment to that user in two cookies, wherever the refresh expiry fits in 64 bits.
pub proof fn lemma_login_outcomes(
    config: AuthConfig,
    users: Seq<UserView>,
    username: Seq<char>,
    password: Seq<char>,
    now: u64,
)
    ensures
        first_match(users, has_username(username)) is None ==> login_response(
            config,
            users,
            username,
            password,
            now,
        ).status == Status::NotFound,
        first_match(users, has_username(username)) matches Some(user) ==> {
            let response = login_response(config, users, username, password, now);
            let fits = now + config.refresh_ttl() <= u64::MAX;
            &&& !accepts(user.password_hash, password) ==> response.status
                == Status::Unauthorized && response.cookies.len() == 0
            &&& accepts(user.password_hash, password) && fits ==> response.status
                == Status::NoContent && response.cookies == token_cookies(
                config,
                issued(config, user.id, user.session_version, now)->Ok_0,
            )
            &&& accepts(user.password_hash, password) && !fits ==> response.status
                == Status::InternalServerError && response.cookies.len() == 0
        },
{
}

/// A user created under a fresh username with a hash that accepts `password` is let in
/// with that password, wherever the refresh expiry fits in 64 bits.
pub proof fn lemma_created_user_logs_in(
    config: AuthConfig,
    users: Seq<UserView>,
    user: UserView,
    password: Seq<char>,
    now: u64,
)
    requires
        first_match(users, has_username(user.username)) is None,
        accepts(user.password_hash, password),
    ensures
        now + config.refresh_ttl() <= u64::MAX ==> login_response(
            config,
            users.push(user),
            user.username,
            password,
            now,
        ).status == Status::NoContent,
        login_response(config, users.push(user), user.username, password, now).status
            != Status::NotFound,
        login_response(config, users.push(user), user.username, password, now).status
            != Status::Unauthorized,
{
    lemma_appended_match(users, user, has_username(user.username));
}

} // verus!
