use vstd::prelude::*;

verus! {

/// What a deployment fixes before the first token is issued: the shared signing key, the
/// issuer name stamped into every token, and how long each kind of token lives, in seconds.
pub struct AuthConfig {
    signing_key: String,
    issuer: String,
    access_ttl: u64,
    refresh_ttl: u64,
}

impl AuthConfig {
    /// The signing key, as the characters of its text.
    pub closed spec fn key(&self) -> Seq<char> {
        self.signing_key@
    }

    /// The issuer name, as the characters of its text.
    pub closed spec fn issuer_name(&self) -> Seq<char> {
        self.issuer@
    }

    /// Lifetime of an access token, in seconds.
    pub closed spec fn spec_access_ttl(&self) -> u64 {
        self.access_ttl
    }

    /// Lifetime of a refresh token, in seconds.
    pub closed spec fn spec_refresh_ttl(&self) -> u64 {
        self.refresh_ttl
    }

    /// An access token lives strictly shorter than the refresh token issued beside it.
    #[verifier::type_invariant]
    pub open spec fn wf(&self) -> bool {
        self.spec_access_ttl() < self.spec_refresh_ttl()
    }

    /// Builds a configuration, or refuses one whose access tokens would outlive its
    /// refresh tokens.
    pub fn new(signing_key: String, issuer: String, access_ttl: u64, refresh_ttl: u64) -> (made:
        Option<AuthConfig>)
        ensures
            made.is_some() == (access_ttl < refresh_ttl),
            made matches Some(config) ==> {
                &&& config.wf()
                &&& config.key() == signing_key@
                &&& config.issuer_name() == issuer@
                &&& config.access_ttl() == access_ttl
                &&& config.refresh_ttl() == refresh_ttl
            },
    {
        if access_ttl < refresh_ttl {
            Some(AuthConfig { signing_key, issuer, access_ttl, refresh_ttl })
        } else {
            None
        }
    }

    /// The shared secret that signs and checks every token.
    pub fn signing_key(&self) -> (key: &str)
        ensures
            key@ == self.key(),
    {
        self.signing_key.as_str()
    }

    /// The issuer name that every token of this service carries.
    pub fn issuer(&self) -> (name: &str)
        ensures
            name@ == self.issuer_name(),
    {
        self.issuer.as_str()
    }

    /// Lifetime of an access token, in seconds.
    #[verifier::when_used_as_spec(spec_access_ttl)]
    pub fn access_ttl(&self) -> (ttl: u64)
        ensures
            ttl == self.access_ttl(),
    {
        self.access_ttl
    }

    /// Lifetime of a refresh token, in seconds.
    #[verifier::when_used_as_spec(spec_refresh_ttl)]
    pub fn refresh_ttl(&self) -> (ttl: u64)
        ensures
            ttl == self.refresh_ttl(),
    {
        self.refresh_ttl
    }
}

} // verus!
