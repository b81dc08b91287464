use vstd::prelude::*;

verus! {

/// The claims that travel inside one signed token. An access token carries no `version`;
/// a refresh token carries the session version that was current when it was issued.
#[derive(Debug, Clone, PartialEq, Eq)]
pub struct ClaimSet {
    pub sub: String,
    pub exp: u64,
    pub iss: String,
    pub version: Option<u64>,
}

/// A claim set with its texts as sequences of characters.
pub struct ClaimSetView {
    pub sub: Seq<char>,
    pub exp: u64,
    pub iss: Seq<char>,
    pub version: Option<u64>,
}

impl View for ClaimSet {
    type V = ClaimSetView;

    open spec fn view(&self) -> ClaimSetView {
        ClaimSetView { sub: self.sub@, exp: self.exp, iss: self.iss@, version: self.version }
    }
}

/// What a valid access token proves: who it was issued to, by whom, and until when.
#[derive(Debug, Clone, PartialEq, Eq)]
pub struct AccessClaims {
    pub sub: String,
    pub exp: u64,
    pub iss: String,
}

/// Access claims with their texts as sequences of characters.
pub struct AccessClaimsView {
    pub sub: Seq<char>,
    pub exp: u64,
    pub iss: Seq<char>,
}

impl View for AccessClaims {
    type V = AccessClaimsView;

    open spec fn view(&self) -> AccessClaimsView {
        AccessClaimsView { sub: self.sub@, exp: self.exp, iss: self.iss@ }
    }
}

/// What a valid refresh token proves, with the session version it was issued under.
#[derive(Debug, Clone, PartialEq, Eq)]
pub struct RefreshClaims {
    pub sub: String,
    pub exp: u64,
    pub iss: String,
    pub version: u64,
}

/// Refresh claims with their texts as sequences of characters.
pub struct RefreshClaimsView {
    pub sub: Seq<char>,
    pub exp: u64,
    pub iss: Seq<char>,
    pub version: u64,
}

impl View for RefreshClaims {
    type V = RefreshClaimsView;

    open spec fn view(&self) -> RefreshClaimsView {
        RefreshClaimsView { sub: self.sub@, exp: self.exp, iss: self.iss@, version: self.version }
    }
}

/// The token text that `jsonwebtoken::encode` produces for `claims` under the secret `key`
/// with the default HS256 header.
pub uninterp spec fn signed(claims: ClaimSetView, key: Seq<char>) -> Seq<char>;

/// The claims that `jsonwebtoken::decode` hands back for `token` under the secret `key` when
/// it checks everything but the expiry, or `None` where it rejects the token or one of the
/// claims `sub`, `exp` and `iss` is absent or of the wrong kind. A `version` that is absent
/// or no unsigned number does not reject the token: the claims then carry no version.
pub uninterp spec fn verified_claims(token: Seq<char>, key: Seq<char>) -> Option<ClaimSetView>;

/// Signs `claims` with `jsonwebtoken::encode`, under an HS256 header and `key` as the shared
/// secret. The claims travel as the JSON members `sub`, `exp`, `iss` and, when present,
/// `version`.
///
/// Trusted: signing a map of texts and unsigned numbers under a shared secret has no
/// failing path, so a token always comes back; the token depends on the claims and the key
/// alone; and a token signed here decodes under the same key to exactly the claims that
/// went in.
#[verifier::external_body]
pub(crate) fn encode_claims(claims: &ClaimSet, key: &str) -> (token: Option<String>)
    ensures
        token is Some,
        token matches Some(t) ==> t@ == signed(claims@, key@),
        token matches Some(t) ==> verified_claims(t@, key@) == Some(claims@),
{
    let mut body = serde_json::Map::new();
    body.insert("sub".to_string(), claims.sub.as_str().into());
    body.insert("exp".to_string(), claims.exp.into());
    body.insert("iss".to_string(), claims.iss.as_str().into());
    if let Some(version) = claims.version {
        body.insert("version".to_string(), version.into());
    }
    let secret = jsonwebtoken::EncodingKey::from_secret(key.as_bytes());
    jsonwebtoken::encode(&jsonwebtoken::Header::default(), &body, &secret).ok()
}

/// Checks `token` with `jsonwebtoken::decode` under `key` as the shared secret: the HS256
/// signature, the shape of the token and the presence of `exp`. The expiry itself is left
/// unchecked, so that the outcome does not depend on the clock. The members `sub`, `exp`,
/// `iss` and `version` of the payload are read back as plain values; of these only
/// `version` may be missing or of another kind without the token being rejected.
///
/// Trusted: the outcome depends on the token and the key alone.
#[verifier::external_body]
pub(crate) fn decode_claims(token: &str, key: &str) -> (claims: Option<ClaimSet>)
    ensures
        claims matches Some(c) ==> verified_claims(token@, key@) == Some(c@),
        claims is None ==> verified_claims(token@, key@) is None,
{
    let mut checks = jsonwebtoken::Validation::default();
    checks.validate_exp = false;
    let secret = jsonwebtoken::DecodingKey::from_secret(key.as_bytes());
    let body = jsonwebtoken::decode::<serde_json::Value>(token, &secret, &checks).ok()?.claims;
    Some(ClaimSet {
        sub: body.get("sub")?.as_str()?.to_string(),
        exp: body.get("exp")?.as_u64()?,
        iss: body.get("iss")?.as_str()?.to_string(),
        version: match body.get("version") {
            Some(version) => version.as_u64(),
            None => None,
        },
    })
}

} // verus!
