//! Credentials: the authentication method and its settings.

use vstd::prelude::*;
use vstd::string::*;
use crate::internal::headers::opt_str_view;

verus! {

/// Which authentication mechanism to use.
#[derive(Debug, Clone, Copy, PartialEq, Eq, Structural)]
pub enum CredentialsMethod {
    /// No authentication (default).
    NoAuth,
    /// Static API token sent as `Authorization: Bearer <token>`.
    ApiToken,
    /// Client Credentials OAuth2 flow.
    ClientCredentials,
}

impl Default for CredentialsMethod {
    fn default() -> (m: Self)
        ensures
            m == CredentialsMethod::NoAuth,
    {
        CredentialsMethod::NoAuth
    }
}

/// Concrete credential configuration details.
#[derive(Debug)]
pub struct CredentialsConfig {
    /// Static API token (used with [`CredentialsMethod::ApiToken`]).
    pub api_token: Option<String>,
    /// OAuth2 Client ID.
    pub client_credentials_client_id: Option<String>,
    /// OAuth2 Client Secret.
    pub client_credentials_client_secret: Option<String>,
    /// Token issuer URL (e.g. `https://accounts.example.com`).
    pub client_credentials_api_token_issuer: Option<String>,
    /// Audience claim required by the token issuer.
    pub client_credentials_api_audience: Option<String>,
    /// Scopes to request (space-separated).
    pub client_credentials_scopes: Option<String>,
}

impl CredentialsConfig {
    /// Every setting is absent.
    pub open spec fn is_empty_config(&self) -> bool {
        &&& self.api_token is None
        &&& self.client_credentials_client_id is None
        &&& self.client_credentials_client_secret is None
        &&& self.client_credentials_api_token_issuer is None
        &&& self.client_credentials_api_audience is None
        &&& self.client_credentials_scopes is None
    }
}

fn copy_opt(o: &Option<String>) -> (r: Option<String>)
    ensures
        r == *o,
{
    match o {
        Some(s) => Some(s.clone()),
        None => None,
    }
}

impl Clone for CredentialsConfig {
    fn clone(&self) -> (c: Self)
        ensures
            c == *self,
    {
        CredentialsConfig {
            api_token: copy_opt(&self.api_token),
            client_credentials_client_id: copy_opt(&self.client_credentials_client_id),
            client_credentials_client_secret: copy_opt(&self.client_credentials_client_secret),
            client_credentials_api_token_issuer: copy_opt(&self.client_credentials_api_token_issuer),
            client_credentials_api_audience: copy_opt(&self.client_credentials_api_audience),
            client_credentials_scopes: copy_opt(&self.client_credentials_scopes),
        }
    }
}

impl Default for CredentialsConfig {
    fn default() -> (c: Self)
        ensures
            c.is_empty_config(),
    {
        CredentialsConfig {
            api_token: None,
            client_credentials_client_id: None,
            client_credentials_client_secret: None,
            client_credentials_api_token_issuer: None,
            client_credentials_api_audience: None,
            client_credentials_scopes: None,
        }
    }
}

/// Holds the chosen credential method and its configuration.
#[derive(Debug)]
pub struct Credentials {
    /// The credential method.
    pub method: CredentialsMethod,
    /// Method-specific configuration.
    pub config: CredentialsConfig,
}

impl Clone for Credentials {
    fn clone(&self) -> (c: Self)
        ensures
            c == *self,
    {
        Credentials { method: self.method, config: self.config.clone() }
    }
}

impl Default for Credentials {
    fn default() -> (c: Self)
        ensures
            c.method == CredentialsMethod::NoAuth,
            c.config.is_empty_config(),
    {
        Credentials { method: CredentialsMethod::NoAuth, config: CredentialsConfig::default() }
    }
}

/// A setting counts as given when it is present and not empty.
pub open spec fn is_given(o: Option<String>) -> bool {
    match o {
        Some(s) => s@.len() > 0,
        None => false,
    }
}

/// The error for a missing client-credentials setting.
pub open spec fn missing_client_setting(name: Seq<char>) -> Seq<char> {
    "Credentials."@ + name + " is required for ClientCredentials method"@
}

/// The `Authorization` header that credentials fix for every request:
/// `Bearer <token>` for a static token, none otherwise.
pub open spec fn static_authorization(c: Credentials) -> Option<Seq<char>> {
    if c.method == CredentialsMethod::ApiToken {
        match c.config.api_token {
            Some(t) => Some("Bearer "@ + t@),
            None => None,
        }
    } else {
        None
    }
}

/// The outcome of validating credentials: the message of the first missing
/// setting, or nothing when every setting the method needs is given.
pub open spec fn credentials_problem(c: Credentials) -> Option<Seq<char>> {
    match c.method {
        CredentialsMethod::NoAuth => None,
        CredentialsMethod::ApiToken => if is_given(c.config.api_token) {
            None
        } else {
            Some("Credentials.api_token is required for ApiToken method"@)
        },
        CredentialsMethod::ClientCredentials =>
            if !is_given(c.config.client_credentials_client_id) {
                Some(missing_client_setting("client_credentials_client_id"@))
            } else if !is_given(c.config.client_credentials_client_secret) {
                Some(missing_client_setting("client_credentials_client_secret"@))
            } else if !is_given(c.config.client_credentials_api_token_issuer) {
                Some(missing_client_setting("client_credentials_api_token_issuer"@))
            } else if !is_given(c.config.client_credentials_api_audience) {
                Some(missing_client_setting("client_credentials_api_audience"@))
            } else {
                None
            },
    }
}

fn given(o: &Option<String>) -> (r: bool)
    ensures
        r == is_given(*o),
{
    match o {
        Some(s) => !s.as_str().is_empty(),
        None => false,
    }
}

fn missing(name: &str) -> (msg: String)
    ensures
        msg@ == missing_client_setting(name@),
{
    let mut msg = String::from_str("Credentials.");
    msg.append(name);
    msg.append(" is required for ClientCredentials method");
    msg
}

impl Credentials {
    /// Credentials for no authentication.
    pub fn none() -> (c: Self)
        ensures
            c.method == CredentialsMethod::NoAuth,
            c.config.is_empty_config(),
    {
        Self::default()
    }

    /// Credentials for a static API token.
    pub fn api_token(token: &str) -> (c: Self)
        ensures
            c.method == CredentialsMethod::ApiToken,
            opt_str_view(c.config.api_token) == Some(token@),
            c.config.client_credentials_client_id is None,
            c.config.client_credentials_client_secret is None,
            c.config.client_credentials_api_token_issuer is None,
            c.config.client_credentials_api_audience is None,
            c.config.client_credentials_scopes is None,
    {
        let mut config = CredentialsConfig::default();
        config.api_token = Some(String::from_str(token));
        Credentials { method: CredentialsMethod::ApiToken, config }
    }

    /// Credentials for the Client Credentials OAuth2 flow.
    pub fn client_credentials(
        client_id: &str,
        client_secret: &str,
        token_issuer: &str,
        audience: &str,
    ) -> (c: Self)
        ensures
            c.method == CredentialsMethod::ClientCredentials,
            c.config.api_token is None,
            opt_str_view(c.config.client_credentials_client_id) == Some(client_id@),
            opt_str_view(c.config.client_credentials_client_secret) == Some(client_secret@),
            opt_str_view(c.config.client_credentials_api_token_issuer) == Some(token_issuer@),
            opt_str_view(c.config.client_credentials_api_audience) == Some(audience@),
            c.config.client_credentials_scopes is None,
    {
        let mut config = CredentialsConfig::default();
        config.client_credentials_client_id = Some(String::from_str(client_id));
        config.client_credentials_client_secret = Some(String::from_str(client_secret));
        config.client_credentials_api_token_issuer = Some(String::from_str(token_issuer));
        config.client_credentials_api_audience = Some(String::from_str(audience));
        Credentials { method: CredentialsMethod::ClientCredentials, config }
    }

    /// Validates the credential configuration: every setting the method
    /// needs must be present and non-empty.
    pub fn validate(&self) -> (r: Result<(), String>)
        ensures
            match credentials_problem(*self) {
                None => r is Ok,
                Some(msg) => r matches Err(m) && m@ == msg,
            },
    {
        match self.method {
            CredentialsMethod::NoAuth => Ok(()),
            CredentialsMethod::ApiToken => {
                if !given(&self.config.api_token) {
                    return Err(String::from_str("Credentials.api_token is required for ApiToken method"));
                }
                Ok(())
            },
            CredentialsMethod::ClientCredentials => {
                if !given(&self.config.client_credentials_client_id) {
                    return Err(missing("client_credentials_client_id"));
                }
                if !given(&self.config.client_credentials_client_secret) {
                    return Err(missing("client_credentials_client_secret"));
                }
                if !given(&self.config.client_credentials_api_token_issuer) {
                    return Err(missing("client_credentials_api_token_issuer"));
                }
                if !given(&self.config.client_credentials_api_audience) {
                    return Err(missing("client_credentials_api_audience"));
                }
                Ok(())
            },
        }
    }

    /// The static `Authorization` header value (`Bearer <token>`), for the
    /// `ApiToken` method only. For `ClientCredentials` the token is added per
    /// request.
    pub fn static_auth_header(&self) -> (h: Option<String>)
        ensures
            opt_str_view(h) == static_authorization(*self),
    {
        if self.method == CredentialsMethod::ApiToken {
            match &self.config.api_token {
                Some(t) => {
                    let mut h = String::from_str("Bearer ");
                    h.append(t.as_str());
                    Some(h)
                },
                None => None,
            }
        } else {
            None
        }
    }
}


/// Credentials built for a static token validate exactly when the token is
/// not empty, and then authenticate every request with `Bearer <token>`.
pub proof fn lemma_api_token_credentials(c: Credentials, token: Seq<char>)
    requires
        c.method == CredentialsMethod::ApiToken,
        opt_str_view(c.config.api_token) == Some(token),
    ensures
        credentials_problem(c) is None <==> token.len() > 0,
        static_authorization(c) == Some("Bearer "@ + token),
{
}

/// Credentials built for the client-credentials grant validate exactly when
/// the client id, secret, token issuer and audience are all non-empty; they
/// never give a static `Authorization` header.
pub proof fn lemma_client_credentials_valid(c: Credentials, id: Seq<char>, secret: Seq<char>, issuer: Seq<char>, audience: Seq<char>)
    requires
        c.method == CredentialsMethod::ClientCredentials,
        opt_str_view(c.config.client_credentials_client_id) == Some(id),
        opt_str_view(c.config.client_credentials_client_secret) == Some(secret),
        opt_str_view(c.config.client_credentials_api_token_issuer) == Some(issuer),
        opt_str_view(c.config.client_credentials_api_audience) == Some(audience),
    ensures
        credentials_problem(c) is None <==> (id.len() > 0 && secret.len() > 0 && issuer.len() > 0
            && audience.len() > 0),
        static_authorization(c) is None,
{
}

/// Credentials without authentication always validate.
pub proof fn lemma_no_auth_valid(c: Credentials)
    requires
        c.method == CredentialsMethod::NoAuth,
    ensures
        credentials_problem(c) is None,
        static_authorization(c) is None,
{
}

} // verus!
