use crate::auth::{
    carries, generate_tokens_at, issued, resolution, validate_session_at, SessionError, Tokens,
    TokensView,
};
use crate::clock::unix_time;
use crate::config::AuthConfig;
use crate::cookie::{
    cookie_header, get_cookie, header_views, request_cookie, split_cookies, Header, HeaderView,
};
use crate::db::{accepts, bumped, has_id, has_username, UserDatabase, UserView};
use crate::search::first_match;
use vstd::prelude::*;

verus! {

/// How a request ended, as the transport will report it.
#[derive(Debug, Clone, Copy, PartialEq, Eq)]
pub enum Status {
    Success,
    NoContent,
    Unauthorized,
    NotFound,
    InternalServerError,
}

/// A cookie for the client to store. A `max_age` of zero tells the client to drop it.
#[derive(Debug, Clone, PartialEq, Eq)]
pub struct Cookie {
    pub name: String,
    pub value: String,
    pub max_age: u64,
    pub http_only: bool,
}

/// A cookie with its texts as sequences of characters.
pub struct CookieView {
    pub name: Seq<char>,
    pub value: Seq<char>,
    pub max_age: u64,
    pub http_only: bool,
}

impl View for Cookie {
    type V = CookieView;

    open spec fn view(&self) -> CookieView {
        CookieView {
            name: self.name@,
            value: self.value@,
            max_age: self.max_age,
            http_only: self.http_only,
        }
    }
}

/// What an endpoint answers: a status, a body where there is one, and the cookies to set.
#[derive(Debug, Clone, PartialEq, Eq)]
pub struct Response {
    pub status: Status,
    pub body: Option<String>,
    pub cookies: Vec<Cookie>,
}

/// An answer with its body as a sequence of characters and its cookies as a sequence.
pub struct ResponseView {
    pub status: Status,
    pub body: Option<Seq<char>>,
    pub cookies: Seq<CookieView>,
}

impl View for Response {
    type V = ResponseView;

    open spec fn view(&self) -> ResponseView {
        ResponseView {
            status: self.status,
            body: match self.body {
                Some(text) => Some(text@),
                None => None,
            },
            cookies: self.cookies@.map_values(|c: Cookie| c@),
        }
    }
}

/// An answer that is its status alone.
pub open spec fn bare(status: Status) -> ResponseView {
    ResponseView { status, body: None, cookies: Seq::empty() }
}

/// An answer with a body and no cookies.
pub open spec fn with_body(status: Status, text: Seq<char>) -> ResponseView {
    ResponseView { status, body: Some(text), cookies: Seq::empty() }
}

/// The two cookies that hand a token pair to the client: access token first, each hidden
/// from scripts and kept for as long as its token lives.
pub open spec fn token_cookies(config: AuthConfig, tokens: TokensView) -> Seq<CookieView> {
    seq![
        CookieView {
            name: "access_token"@,
            value: tokens.access_token,
            max_age: config.access_ttl(),
            http_only: true,
        },
        CookieView {
            name: "refresh_token"@,
            value: tokens.refresh_token,
            max_age: config.refresh_ttl(),
            http_only: true,
        },
    ]
}

/// The token pair that a pair of token cookies holds.
pub open spec fn cookie_tokens(cookies: Seq<CookieView>) -> TokensView {
    TokensView { access_token: cookies[0].value, refresh_token: cookies[1].value }
}

/// The two cookies that make the client drop both tokens: empty, with no time to live.
pub open spec fn cleared_cookies() -> Seq<CookieView> {
    seq![
        CookieView {
            name: "access_token"@,
            value: Seq::empty(),
            max_age: 0,
            http_only: true,
        },
        CookieView {
            name: "refresh_token"@,
            value: Seq::empty(),
            max_age: 0,
            http_only: true,
        },
    ]
}

/// The answer to a login at `now`: an unknown username is not found, a wrong password is
/// unauthorized, and the right one is answered with a fresh token pair in two cookies.
pub open spec fn login_response(
    config: AuthConfig,
    users: Seq<UserView>,
    username: Seq<char>,
    password: Seq<char>,
    now: u64,
) -> ResponseView {
    match first_match(users, has_username(username)) {
        None => with_body(Status::NotFound, "User not found"@),
        Some(user) => if !accepts(user.password_hash, password) {
            with_body(Status::Unauthorized, "Invalid password"@)
        } else {
            match issued(config, user.id, user.session_version, now) {
                Ok(tokens) => ResponseView {
                    status: Status::NoContent,
                    body: None,
                    cookies: token_cookies(config, tokens),
                },
                Err(_) => bare(Status::InternalServerError),
            }
        },
    }
}

/// The answer to a session query at `now`: the username of the user the cookies resolve
/// to, with both cookies renewed where the tokens were rotated. Every refusal of the
/// resolver is unauthorized, and so is a session whose user the store no longer holds.
pub open spec fn session_response(
    config: AuthConfig,
    headers: Seq<HeaderView>,
    users: Seq<UserView>,
    now: u64,
) -> ResponseView {
    match resolution(
        config,
        request_cookie(headers, "access_token"@),
        request_cookie(headers, "refresh_token"@),
        users,
        now,
    ) {
        Ok(session) => match first_match(users, has_id(session.user_id)) {
            Some(user) => ResponseView {
                status: Status::Success,
                body: Some(user.username),
                cookies: match session.new_tokens {
                    Some(tokens) => token_cookies(config, tokens),
                    None => Seq::empty(),
                },
            },
            None => bare(Status::Unauthorized),
        },
        Err(SessionError::EncodingFailure) => bare(Status::InternalServerError),
        Err(_) => bare(Status::Unauthorized),
    }
}

/// Where a login was answered with cookies, they hold tokens that verify as the pair
/// issued at `now` to the user of that name, under that user's session version.
pub open spec fn login_cookies_carry(
    config: AuthConfig,
    response: ResponseView,
    users: Seq<UserView>,
    username: Seq<char>,
    now: u64,
) -> bool {
    response.status is NoContent ==> match first_match(users, has_username(username)) {
        Some(user) => carries(
            config,
            cookie_tokens(response.cookies),
            user.id,
            user.session_version,
            now,
        ),
        None => false,
    }
}

/// Where a session query was answered with cookies, they hold tokens that verify as the
/// pair issued at `now` to the user the session resolved to, under that user's session
/// version.
pub open spec fn session_cookies_carry(
    config: AuthConfig,
    response: ResponseView,
    headers: Seq<HeaderView>,
    users: Seq<UserView>,
    now: u64,
) -> bool {
    response.cookies.len() == 2 ==> match resolution(
        config,
        request_cookie(headers, "access_token"@),
        request_cookie(headers, "refresh_token"@),
        users,
        now,
    ) {
        Ok(session) => match first_match(users, has_id(session.user_id)) {
            Some(user) => carries(
                config,
                cookie_tokens(response.cookies),
                user.id,
                user.session_version,
                now,
            ),
            None => false,
        },
        Err(_) => false,
    }
}

fn bare_response(status: Status) -> (r: Response)
    ensures
        r@ == bare(status),
{
    let r = Response { status, body: None, cookies: Vec::new() };
    assert(r@.cookies =~= Seq::<CookieView>::empty());
    r
}

fn text_response(status: Status, text: &str) -> (r: Response)
    ensures
        r@ == with_body(status, text@),
{
    let r = Response { status, body: Some(text.to_owned()), cookies: Vec::new() };
    assert(r@.cookies =~= Seq::<CookieView>::empty());
    r
}

fn cookie_pair(config: &AuthConfig, tokens: Tokens) -> (cookies: Vec<Cookie>)
    ensures
        cookies@.map_values(|c: Cookie| c@) == token_cookies(*config, tokens@),
{
    let mut cookies: Vec<Cookie> = Vec::new();
    cookies.push(
        Cookie {
            name: "access_token".to_owned(),
            value: tokens.access_token,
            max_age: config.access_ttl(),
            http_only: true,
        },
    );
    cookies.push(
        Cookie {
            name: "refresh_token".to_owned(),
            value: tokens.refresh_token,
            max_age: config.refresh_ttl(),
            http_only: true,
        },
    );
    assert(cookies@.map_values(|c: Cookie| c@) =~= token_cookies(*config, tokens@));
    cookies
}

/// Answers a login with `username` and `password` at the time `now`.
pub fn login_at<D: UserDatabase>(
    config: &AuthConfig,
    username: &str,
    password: &str,
    db: &D,
    now: u64,
) -> (r: Response)
    ensures
        r@ == login_response(*config, db.records(), username@, password@, now),
        login_cookies_carry(*config, r@, db.records(), username@, now),
{
    let user = match db.get_user_by_username(username) {
        Some(user) => user,
        None => {
            return text_response(Status::NotFound, "User not found");
        },
    };
    if !user.check_password(password) {
        return text_response(Status::Unauthorized, "Invalid password");
    }
    match generate_tokens_at(config, user.id.as_str(), user.session_version, now) {
        Ok(tokens) => Response {
            status: Status::NoContent,
            body: None,
            cookies: cookie_pair(config, tokens),
        },
        Err(_) => bare_response(Status::InternalServerError),
    }
}

/// Answers a login at the time the system clock shows. Where the clock cannot be read the
/// answer is an internal error; otherwise it is the answer to a login at some time.
pub fn login<D: UserDatabase>(config: &AuthConfig, username: &str, password: &str, db: &D) -> (r:
    Response)
    ensures
        r@ == bare(Status::InternalServerError) || exists|now: u64|
            {
                &&& r@ == #[trigger] login_response(
                    *config,
                    db.records(),
                    username@,
                    password@,
                    now,
                )
                &&& login_cookies_carry(*config, r@, db.records(), username@, now)
            },
{
    match unix_time() {
        Some(now) => login_at(config, username, password, db, now),
        None => bare_response(Status::InternalServerError),
    }
}

/// Answers a session query at the time `now` from the headers of the request.
pub fn session_info_at<D: UserDatabase>(
    config: &AuthConfig,
    headers: &Vec<Header>,
    db: &D,
    now: u64,
) -> (r: Response)
    ensures
        r@ == session_response(*config, header_views(headers@), db.records(), now),
        session_cookies_carry(*config, r@, header_views(headers@), db.records(), now),
{
    let (access, refresh) = match cookie_header(headers) {
        Some(line) => {
            let cookies = split_cookies(line);
            (get_cookie(&cookies, "access_token"), get_cookie(&cookies, "refresh_token"))
        },
        None => (None, None),
    };
    match validate_session_at(config, access, refresh, db, now) {
        Ok(session) => {
            match db.get_user_by_id(session.user_id.as_str()) {
                Some(user) => {
                    let cookies = match session.new_tokens {
                        Some(tokens) => cookie_pair(config, tokens),
                        None => Vec::new(),
                    };
                    let r = Response { status: Status::Success, body: Some(user.username), cookies };
                    assert(session.new_tokens is None ==> r@.cookies =~= Seq::<
                        CookieView,
                    >::empty());
                    r
                },
                None => bare_response(Status::Unauthorized),
            }
        },
        Err(SessionError::EncodingFailure) => bare_response(Status::InternalServerError),
        Err(_) => bare_response(Status::Unauthorized),
    }
}

/// Answers a session query at the time the system clock shows. Where the clock cannot be
/// read the answer is an internal error; otherwise it is the answer at some time.
pub fn session_info<D: UserDatabase>(config: &AuthConfig, headers: &Vec<Header>, db: &D) -> (r:
    Response)
    ensures
        r@ == bare(Status::InternalServerError) || exists|now: u64|
            {
                &&& r@ == #[trigger] session_response(
                    *config,
                    header_views(headers@),
                    db.records(),
                    now,
                )
                &&& session_cookies_carry(
                    *config,
                    r@,
                    header_views(headers@),
                    db.records(),
                    now,
                )
            },
{
    match unix_time() {
        Some(now) => session_info_at(config, headers, db, now),
        None => bare_response(Status::InternalServerError),
    }
}

/// Answers a logout: both cookies are cleared, whoever asks.
pub fn logout() -> (r: Response)
    ensures
        r@ == (ResponseView {
            status: Status::NoContent,
            body: None,
            cookies: cleared_cookies(),
        }),
{
    let mut cookies: Vec<Cookie> = Vec::new();
    cookies.push(
        Cookie {
            name: "access_token".to_owned(),
            value: String::new(),
            max_age: 0,
            http_only: true,
        },
    );
    cookies.push(
        Cookie {
            name: "refresh_token".to_owned(),
            value: String::new(),
            max_age: 0,
            http_only: true,
        },
    );
    assert(cookies@.map_values(|c: Cookie| c@) =~= cleared_cookies());
    Response { status: Status::NoContent, body: None, cookies }
}

/// Revokes every session of the user `id` and answers with no content, whether or not the
/// store knows that id.
pub fn invalidate_session<D: UserDatabase>(id: &str, db: &mut D) -> (r: Response)
    ensures
        final(db).records() == bumped(old(db).records(), id@),
        r@ == bare(Status::NoContent),
{
    db.invalidate_user_sessions(id);
    bare_response(Status::NoContent)
}

} // verus!
