//! OAuth2 Client Credentials flow: the token request, the token cache and
//! its expiry.

use std::time::Instant;
use vstd::prelude::*;
use vstd::string::*;
use crate::error::OpenFgaError;
use crate::internal::constants::TOKEN_EXPIRY_JITTER_SECS;
use crate::internal::headers::opt_str_view;
use crate::internal::text::{decimal_u64, decimal};

verus! {

#[verifier::external_type_specification]
#[verifier::external_body]
pub struct ExInstant(Instant);

/// The JSON body returned by an OAuth2 token endpoint.
#[derive(Debug, Clone)]
pub struct TokenResponse {
    /// The bearer token.
    pub access_token: String,
    /// Seconds until the token expires.
    pub expires_in: Option<u64>,
    /// Token type (should be "Bearer").
    pub token_type: Option<String>,
}

/// Lifetime assumed for a token whose response gives none (seconds).
pub const DEFAULT_TOKEN_LIFETIME_SECS: u64 = 3600;

/// Calls `std::time::Instant::now`. Nothing is promised of the value: it is
/// the time of the call.
#[verifier::external_body]
fn instant_now() -> (now: Instant) {
    Instant::now()
}

/// Calls `Instant::elapsed` and returns the whole nanoseconds since `start`.
/// Nothing is promised of the value: it depends on the time of the call.
#[verifier::external_body]
fn nanos_since(start: &Instant) -> (n: u128) {
    start.elapsed().as_nanos()
}

/// A token and the time for which it may be used.
#[derive(Debug)]
pub struct CachedToken {
    /// The bearer token.
    pub access_token: String,
    /// When the token was obtained.
    pub obtained_at: Instant,
    /// Seconds after `obtained_at` during which the token is used.
    pub lifetime_secs: u64,
}

/// How long a token is used: its lifetime less the expiry jitter, at least
/// zero, so that it is refreshed before it actually expires.
pub open spec fn effective_lifetime(expires_in_secs: u64) -> u64 {
    if expires_in_secs >= TOKEN_EXPIRY_JITTER_SECS {
        (expires_in_secs - TOKEN_EXPIRY_JITTER_SECS) as u64
    } else {
        0
    }
}

/// A token obtained `elapsed_nanos` nanoseconds ago is still used when less
/// than its lifetime has passed.
pub open spec fn token_fresh(lifetime_secs: u64, elapsed_nanos: u128) -> bool {
    elapsed_nanos < lifetime_secs as nat * 1_000_000_000
}

impl CachedToken {
    /// Caches a token that expires in `expires_in_secs` seconds from now.
    pub fn new(token: &str, expires_in_secs: u64) -> (c: Self)
        ensures
            c.access_token@ == token@,
            c.lifetime_secs == effective_lifetime(expires_in_secs),
    {
        let lifetime_secs = expires_in_secs.saturating_sub(TOKEN_EXPIRY_JITTER_SECS);
        CachedToken {
            access_token: String::from_str(token),
            obtained_at: instant_now(),
            lifetime_secs,
        }
    }

    /// Whether the token is still usable `elapsed_nanos` nanoseconds after it
    /// was obtained.
    pub fn is_valid_after(&self, elapsed_nanos: u128) -> (r: bool)
        ensures
            r == token_fresh(self.lifetime_secs, elapsed_nanos),
    {
        elapsed_nanos < self.lifetime_secs as u128 * 1_000_000_000
    }

    /// Whether the token is still usable now.
    pub fn is_valid(&self) -> (r: bool)
        ensures
            r ==> self.lifetime_secs > 0,
            exists|elapsed: u128| r == #[trigger] token_fresh(self.lifetime_secs, elapsed),
    {
        let elapsed = nanos_since(&self.obtained_at);
        self.is_valid_after(elapsed)
    }
}

/// The token to reuse from a cache, `elapsed_nanos` nanoseconds after the
/// cached token was obtained: the cached token while it is fresh, else none
/// (a new one is to be fetched).
pub fn reusable_token_after(cache: &Option<CachedToken>, elapsed_nanos: u128) -> (r: Option<String>)
    ensures
        match cache {
            Some(c) => if token_fresh(c.lifetime_secs, elapsed_nanos) {
                r matches Some(t) && t@ == c.access_token@
            } else {
                r is None
            },
            None => r is None,
        },
{
    match cache {
        Some(cached) => {
            if cached.is_valid_after(elapsed_nanos) {
                Some(cached.access_token.clone())
            } else {
                None
            }
        },
        None => None,
    }
}

/// The token to reuse from a cache now: the cached token while it is fresh,
/// measured from when it was obtained to the time of the call.
pub fn reusable_token(cache: &Option<CachedToken>) -> (r: Option<String>)
    ensures
        cache is None ==> r is None,
        cache matches Some(c) ==> exists|elapsed: u128| (r is Some) == #[trigger] token_fresh(c.lifetime_secs, elapsed),
        r matches Some(t) ==> cache matches Some(c) && t@ == c.access_token@ && c.lifetime_secs > 0,
{
    match cache {
        Some(cached) => {
            let elapsed = nanos_since(&cached.obtained_at);
            reusable_token_after(cache, elapsed)
        },
        None => None,
    }
}

/// Caches the token of a token response; a response without `expires_in`
/// counts as valid for an hour.
pub fn cache_token_response(resp: &TokenResponse) -> (c: CachedToken)
    ensures
        c.access_token@ == resp.access_token@,
        c.lifetime_secs == effective_lifetime(match resp.expires_in {
            Some(s) => s,
            None => DEFAULT_TOKEN_LIFETIME_SECS,
        }),
{
    let expires_in = match resp.expires_in {
        Some(s) => s,
        None => DEFAULT_TOKEN_LIFETIME_SECS,
    };
    CachedToken::new(resp.access_token.as_str(), expires_in)
}

/// Parameters for the Client Credentials OAuth2 grant.
#[derive(Debug, Clone)]
pub struct ClientCredentialsParams {
    /// OAuth2 Client ID.
    pub client_id: String,
    /// OAuth2 Client Secret.
    pub client_secret: String,
    /// Token endpoint URL.
    pub token_url: String,
    /// Audience claim.
    pub audience: String,
    /// Space-separated scopes.
    pub scopes: Option<String>,
}

/// The form fields of a token request: the grant type, the client's id,
/// secret and audience, and the scopes when there are some.
pub open spec fn token_form(p: ClientCredentialsParams) -> Seq<(Seq<char>, Seq<char>)> {
    let base = seq![
        ("grant_type"@, "client_credentials"@),
        ("client_id"@, p.client_id@),
        ("client_secret"@, p.client_secret@),
        ("audience"@, p.audience@),
    ];
    match p.scopes {
        Some(s) => base.push(("scope"@, s@)),
        None => base,
    }
}

/// The form fields sent to the token endpoint.
pub fn token_request_form(params: &ClientCredentialsParams) -> (form: Vec<(String, String)>)
    ensures
        form@.map_values(|f: (String, String)| (f.0@, f.1@)) == token_form(*params),
{
    let mut form: Vec<(String, String)> = Vec::new();
    form.push((String::from_str("grant_type"), String::from_str("client_credentials")));
    form.push((String::from_str("client_id"), params.client_id.clone()));
    form.push((String::from_str("client_secret"), params.client_secret.clone()));
    form.push((String::from_str("audience"), params.audience.clone()));
    match &params.scopes {
        Some(s) => {
            form.push((String::from_str("scope"), s.clone()));
        },
        None => {},
    }
    assert(form@.map_values(|f: (String, String)| (f.0@, f.1@)) =~= token_form(*params));
    form
}

/// The message for a token endpoint that answered with an error status.
pub open spec fn token_failure_message(status: u16, body: Seq<char>) -> Seq<char> {
    "Token fetch failed (HTTP "@ + decimal(status as nat) + "): "@ + body
}

/// The error for a token endpoint that answered with an error status.
pub fn token_fetch_failure(status: u16, body: &str) -> (e: OpenFgaError)
    ensures
        e matches OpenFgaError::Configuration(m) && m@ == token_failure_message(status, body@),
{
    let mut msg = String::from_str("Token fetch failed (HTTP ");
    let code = decimal_u64(status as u64);
    msg.append(code.as_str());
    msg.append("): ");
    msg.append(body);
    OpenFgaError::Configuration(msg)
}


/// A cached token is never used once it has expired: a token that expires
/// `expires_in_secs` seconds after it was obtained counts as fresh only
/// during the first `expires_in_secs` less the jitter, so it is refreshed
/// before it expires; one that lives no longer than the jitter is never
/// used from the cache.
pub proof fn lemma_token_used_before_expiry(expires_in_secs: u64, elapsed_nanos: u128)
    ensures
        token_fresh(effective_lifetime(expires_in_secs), elapsed_nanos)
            ==> elapsed_nanos + TOKEN_EXPIRY_JITTER_SECS * 1_000_000_000 < expires_in_secs as nat * 1_000_000_000,
        expires_in_secs <= TOKEN_EXPIRY_JITTER_SECS ==> !token_fresh(effective_lifetime(expires_in_secs), elapsed_nanos),
{
    let l = effective_lifetime(expires_in_secs);
    if expires_in_secs >= TOKEN_EXPIRY_JITTER_SECS {
        assert(l as nat * 1_000_000_000 + TOKEN_EXPIRY_JITTER_SECS * 1_000_000_000
            == expires_in_secs as nat * 1_000_000_000) by (nonlinear_arith)
            requires
                l as nat + TOKEN_EXPIRY_JITTER_SECS == expires_in_secs as nat;
    }
}


/// A token fetched from the issuer is reused from the cache exactly until
/// its lifetime (`expires_in`, an hour when the issuer gives none) less the
/// jitter has passed; after that a new token is fetched.
pub proof fn lemma_fetched_token_reused_while_fresh(resp: TokenResponse, c: CachedToken, elapsed_nanos: u128)
    requires
        c.access_token@ == resp.access_token@,
        c.lifetime_secs == effective_lifetime(match resp.expires_in {
            Some(s) => s,
            None => DEFAULT_TOKEN_LIFETIME_SECS,
        }),
    ensures
        token_fresh(c.lifetime_secs, elapsed_nanos) <==> elapsed_nanos < (match resp.expires_in {
            Some(s) => if s >= TOKEN_EXPIRY_JITTER_SECS { s - TOKEN_EXPIRY_JITTER_SECS } else { 0 },
            None => DEFAULT_TOKEN_LIFETIME_SECS - TOKEN_EXPIRY_JITTER_SECS,
        }) * 1_000_000_000,
{
}

} // verus!
