//! Configuration of the identity provider, the addresses derived from it, and
//! the decisions of the bearer-token relay in front of the secured API.

use vstd::prelude::*;

verus! {

/// The route of the GraphQL endpoint and its playground.
pub const GRAPHIQL_ROUTE: &'static str = "/api/graphql";

/// The prefix of the secured routes.
pub const SECURE_PREFIX: &'static str = "/secure";

/// The decimal digit `d`, for `d < 10`.
pub open spec fn digit(d: nat) -> char {
    if d == 0 {
        '0'
    } else if d == 1 {
        '1'
    } else if d == 2 {
        '2'
    } else if d == 3 {
        '3'
    } else if d == 4 {
        '4'
    } else if d == 5 {
        '5'
    } else if d == 6 {
        '6'
    } else if d == 7 {
        '7'
    } else if d == 8 {
        '8'
    } else {
        '9'
    }
}

/// `n` written in decimal, without leading zeros.
pub open spec fn decimal(n: nat) -> Seq<char>
    decreases n,
{
    if n < 10 {
        seq![digit(n)]
    } else {
        decimal(n / 10).push(digit(n % 10))
    }
}

fn digit_str(d: u16) -> (r: &'static str)
    requires
        d < 10,
    ensures
        r@ == seq![digit(d as nat)],
{
    proof {
        reveal_strlit("0");
        reveal_strlit("1");
        reveal_strlit("2");
        reveal_strlit("3");
        reveal_strlit("4");
        reveal_strlit("5");
        reveal_strlit("6");
        reveal_strlit("7");
        reveal_strlit("8");
        reveal_strlit("9");
    }
    if d == 0 {
        "0"
    } else if d == 1 {
        "1"
    } else if d == 2 {
        "2"
    } else if d == 3 {
        "3"
    } else if d == 4 {
        "4"
    } else if d == 5 {
        "5"
    } else if d == 6 {
        "6"
    } else if d == 7 {
        "7"
    } else if d == 8 {
        "8"
    } else {
        "9"
    }
}

/// Appends `n` in decimal to `s`.
fn push_decimal(s: &mut String, n: u16)
    ensures
        final(s)@ == old(s)@ + decimal(n as nat),
    decreases n,
{
    if n >= 10 {
        push_decimal(s, n / 10);
    }
    s.append(digit_str(n % 10));
    proof {
        if n >= 10 {
            assert(decimal(n as nat) == decimal((n / 10) as nat).push(digit((n % 10) as nat)));
        }
        assert(s@ =~= old(s)@ + decimal(n as nat));
    }
}

/// The mathematical content of an [`AuthConfig`].
pub struct AuthConfigView {
    pub host: Seq<char>,
    pub port: u16,
    pub address: Seq<char>,
    pub realm: Seq<char>,
    pub client_id: Seq<char>,
}

/// Where the identity provider is reached, and which realm and client this
/// service uses there.
#[derive(Clone, Debug)]
pub struct AuthConfig {
    auth_host: String,
    auth_port: u16,
    auth_address: String,
    auth_realm: String,
    auth_client_id: String,
}

impl View for AuthConfig {
    type V = AuthConfigView;

    closed spec fn view(&self) -> AuthConfigView {
        AuthConfigView {
            host: self.auth_host@,
            port: self.auth_port,
            address: self.auth_address@,
            realm: self.auth_realm@,
            client_id: self.auth_client_id@,
        }
    }
}

/// `"http://"` followed by `host`.
pub open spec fn http(host: Seq<char>) -> Seq<char> {
    "http://"@ + host
}

/// The playground of the secured API on the server at `server_address`,
/// where the identity provider sends the user back after log-in.
pub open spec fn spec_secure_graphiql_uri(server_address: Seq<char>) -> Seq<char> {
    http(server_address) + SECURE_PREFIX@ + GRAPHIQL_ROUTE@
}

/// A `String` that holds `s`.
fn string_of(s: &str) -> (r: String)
    ensures
        r@ == s@,
{
    String::from_str(s)
}

impl AuthConfig {
    /// The configuration from the values that were given, with defaults for
    /// the others: host `localhost`, port `8080`, address `host:port`, realm
    /// `QGT`, client id `qgt`.
    pub fn new(
        host: Option<String>,
        port: Option<u16>,
        address: Option<String>,
        realm: Option<String>,
        client_id: Option<String>,
    ) -> (r: AuthConfig)
        ensures
            r@.host == match host {
                Some(h) => h@,
                None => "localhost"@,
            },
            r@.port == match port {
                Some(p) => p,
                None => 8080u16,
            },
            r@.address == match address {
                Some(a) => a@,
                None => r@.host + ":"@ + decimal(r@.port as nat),
            },
            r@.realm == match realm {
                Some(x) => x@,
                None => "QGT"@,
            },
            r@.client_id == match client_id {
                Some(c) => c@,
                None => "qgt"@,
            },
    {
        let auth_host = match host {
            Some(h) => h,
            None => string_of("localhost"),
        };
        let auth_port: u16 = match port {
            Some(p) => p,
            None => 8080,
        };
        let auth_address = match address {
            Some(a) => a,
            None => {
                let mut a = auth_host.clone();
                a.append(":");
                push_decimal(&mut a, auth_port);
                a
            },
        };
        let auth_realm = match realm {
            Some(x) => x,
            None => string_of("QGT"),
        };
        let auth_client_id = match client_id {
            Some(c) => c,
            None => string_of("qgt"),
        };
        AuthConfig { auth_host, auth_port, auth_address, auth_realm, auth_client_id }
    }

    /// The `host:port` address of the identity provider.
    pub fn address(&self) -> (r: &str)
        ensures
            r@ == self@.address,
    {
        self.auth_address.as_str()
    }

    /// The realm of this service at the identity provider.
    pub fn realm(&self) -> (r: &str)
        ensures
            r@ == self@.realm,
    {
        self.auth_realm.as_str()
    }

    /// The client id of this service at the identity provider.
    pub fn client_id(&self) -> (r: &str)
        ensures
            r@ == self@.client_id,
    {
        self.auth_client_id.as_str()
    }

    pub open spec fn spec_realm_url(self) -> Seq<char> {
        http(self@.address) + "/realms/"@ + self@.realm
    }

    /// The base URL of the identity provider.
    pub fn server_url(&self) -> (r: String)
        ensures
            r@ == http(self@.address),
    {
        let mut r = string_of("http://");
        r.append(self.address());
        r
    }

    /// The endpoint where an authorization code is exchanged for a token.
    pub fn token_url(&self) -> (r: String)
        ensures
            r@ == self.spec_realm_url() + "/protocol/openid-connect/token"@,
    {
        let mut r = self.server_url();
        r.append("/realms/");
        r.append(self.realm());
        r.append("/protocol/openid-connect/token");
        r
    }

    /// The log-in page of the identity provider, which sends the user back to
    /// the secured playground of the server at `server_address`.
    pub fn login_url(&self, server_address: &str) -> (r: String)
        ensures
            r@ == self.spec_realm_url()
                + "/protocol/openid-connect/auth?scope=openid&response_type=code&client_id="@
                + self@.client_id + "&redirect_uri="@ + spec_secure_graphiql_uri(
                server_address@,
            ),
    {
        let mut r = self.server_url();
        r.append("/realms/");
        r.append(self.realm());
        r.append("/protocol/openid-connect/auth?scope=openid&response_type=code&client_id=");
        r.append(self.client_id());
        r.append("&redirect_uri=");
        let back = secure_graphiql_uri(server_address);
        r.append(back.as_str());
        r
    }
}

/// The playground of the secured API on the server at `server_address`.
pub fn secure_graphiql_uri(server_address: &str) -> (r: String)
    ensures
        r@ == spec_secure_graphiql_uri(server_address@),
{
    let mut r = string_of("http://");
    r.append(server_address);
    r.append(SECURE_PREFIX);
    r.append(GRAPHIQL_ROUTE);
    r
}

/// The route of the secured GraphQL endpoint.
pub fn secure_graphql_route() -> (r: String)
    ensures
        r@ == SECURE_PREFIX@ + GRAPHIQL_ROUTE@,
{
    let mut r = string_of(SECURE_PREFIX);
    r.append(GRAPHIQL_ROUTE);
    r
}

/// The value of an `Authorization` header that carries `token`.
pub fn bearer(token: &str) -> (r: String)
    ensures
        r@ == "Bearer "@ + token@,
{
    let mut r = string_of("Bearer ");
    r.append(token);
    r
}

/// What the relay does with a request to the secured API.
#[derive(Clone, Debug, PartialEq, Eq)]
pub enum AuthStep {
    /// The request carries an `Authorization` header already: pass it on.
    AlreadyAuthorized,
    /// Attach the stored token and pass the request on.
    UseStoredToken(String),
    /// Exchange this authorization code for a token, store the token, attach
    /// it and pass the request on.
    ExchangeCode(String),
    /// Nothing to attach: pass the request on as it is.
    NoCredentials,
}

/// Chooses what the relay does, from whether the request has an
/// `Authorization` header, the token stored so far, and the `code` query
/// parameter of the request.
pub fn authorization_step(
    has_authorization: bool,
    stored_token: Option<String>,
    code: Option<String>,
) -> (r: AuthStep)
    ensures
        has_authorization ==> r == AuthStep::AlreadyAuthorized,
        !has_authorization && stored_token is Some ==> r == AuthStep::UseStoredToken(
            stored_token->Some_0,
        ),
        !has_authorization && stored_token is None && code is Some ==> r
            == AuthStep::ExchangeCode(code->Some_0),
        !has_authorization && stored_token is None && code is None ==> r
            == AuthStep::NoCredentials,
{
    if has_authorization {
        AuthStep::AlreadyAuthorized
    } else {
        match stored_token {
            Some(t) => AuthStep::UseStoredToken(t),
            None => match code {
                Some(c) => AuthStep::ExchangeCode(c),
                None => AuthStep::NoCredentials,
            },
        }
    }
}

/// Why exchanging an authorization code for a token failed.
#[derive(Clone, Copy, Debug, PartialEq, Eq, Structural)]
pub enum TokenError {
    /// The identity provider answered with this status instead of 200.
    Rejected(u16),
    /// The answer could not be read as JSON.
    Unreadable,
    /// The answer holds no `access_token` string.
    MissingAccessToken,
}

impl TokenError {
    /// The HTTP status with which the relay answers the request.
    pub fn status(&self) -> (r: u16)
        ensures
            r == match self {
                TokenError::Rejected(s) => *s,
                _ => 500u16,
            },
    {
        match self {
            TokenError::Rejected(s) => *s,
            _ => 500,
        }
    }

    pub open spec fn spec_message(self) -> Seq<char> {
        match self {
            TokenError::Rejected(_) => "Failed to get token"@,
            TokenError::Unreadable => "Failed to parse token response"@,
            TokenError::MissingAccessToken => "No access token found"@,
        }
    }

    /// The message with which the relay answers the request.
    pub fn message(&self) -> (r: String)
        ensures
            r@ == self.spec_message(),
    {
        match self {
            TokenError::Rejected(_) => string_of("Failed to get token"),
            TokenError::Unreadable => string_of("Failed to parse token response"),
            TokenError::MissingAccessToken => string_of("No access token found"),
        }
    }
}

/// The outcome of exchanging an authorization code, from the status of the
/// identity provider's answer and, where its body was read as JSON, its
/// `access_token` string if it has one.
pub fn token_from_response(status: u16, body: Option<Option<String>>) -> (r: Result<
    String,
    TokenError,
>)
    ensures
        status != 200 ==> r == Err::<String, TokenError>(TokenError::Rejected(status)),
        status == 200 && body is None ==> r == Err::<String, TokenError>(TokenError::Unreadable),
        status == 200 && body == Some(None::<String>) ==> r == Err::<String, TokenError>(
            TokenError::MissingAccessToken,
        ),
        status == 200 && body is Some && body->Some_0 is Some ==> r == Ok::<String, TokenError>(
            body->Some_0->Some_0,
        ),
{
    if status != 200 {
        Err(TokenError::Rejected(status))
    } else {
        match body {
            None => Err(TokenError::Unreadable),
            Some(None) => Err(TokenError::MissingAccessToken),
            Some(Some(t)) => Ok(t),
        }
    }
}

/// Where an answer with `status` from the secured API is redirected: to the
/// log-in page when the request was unauthorized (401), nowhere otherwise.
pub fn unauthorized_redirect(status: u16, auth: &AuthConfig, server_address: &str) -> (r: Option<
    String,
>)
    ensures
        status == 401 ==> r is Some && r->Some_0@ == auth.spec_realm_url()
            + "/protocol/openid-connect/auth?scope=openid&response_type=code&client_id="@
            + auth@.client_id + "&redirect_uri="@ + spec_secure_graphiql_uri(server_address@),
        status != 401 ==> r is None,
{
    if status == 401 {
        Some(auth.login_url(server_address))
    } else {
        None
    }
}

} // verus!
