use qgt::auth::{
    authorization_step, bearer, secure_graphiql_uri, secure_graphql_route, token_from_response,
    unauthorized_redirect, AuthConfig, AuthStep, TokenError, GRAPHIQL_ROUTE, SECURE_PREFIX,
};

fn defaults() -> AuthConfig {
    AuthConfig::new(None, None, None, None, None)
}

#[test]
fn config_defaults() {
    let c = defaults();
    assert_eq!(c.address(), "localhost:8080");
    assert_eq!(c.realm(), "QGT");
    assert_eq!(c.client_id(), "qgt");
}

#[test]
fn config_address_from_host_and_port() {
    let c = AuthConfig::new(Some(String::from("keycloak")), Some(9090), None, None, None);
    assert_eq!(c.address(), "keycloak:9090");
    let c = AuthConfig::new(None, Some(0), None, None, None);
    assert_eq!(c.address(), "localhost:0");
    let c = AuthConfig::new(None, Some(65535), None, None, None);
    assert_eq!(c.address(), "localhost:65535");
    let c = AuthConfig::new(None, Some(100), None, None, None);
    assert_eq!(c.address(), "localhost:100");
}

#[test]
fn config_given_values_win() {
    let c = AuthConfig::new(
        Some(String::from("h")),
        Some(1),
        Some(String::from("idp:8443")),
        Some(String::from("R")),
        Some(String::from("c")),
    );
    assert_eq!(c.address(), "idp:8443");
    assert_eq!(c.realm(), "R");
    assert_eq!(c.client_id(), "c");
}

#[test]
fn provider_urls() {
    let c = defaults();
    assert_eq!(c.server_url(), "http://localhost:8080");
    assert_eq!(
        c.token_url(),
        "http://localhost:8080/realms/QGT/protocol/openid-connect/token"
    );
    assert_eq!(
        c.login_url("0.0.0.0:3000"),
        "http://localhost:8080/realms/QGT/protocol/openid-connect/auth?scope=openid&response_type=code&client_id=qgt&redirect_uri=http://0.0.0.0:3000/secure/api/graphql"
    );
}

#[test]
fn routes() {
    assert_eq!(GRAPHIQL_ROUTE, "/api/graphql");
    assert_eq!(SECURE_PREFIX, "/secure");
    assert_eq!(secure_graphql_route(), "/secure/api/graphql");
    assert_eq!(secure_graphiql_uri("srv:1"), "http://srv:1/secure/api/graphql");
    assert_eq!(bearer("abc"), "Bearer abc");
}

#[test]
fn relay_steps() {
    let t = || Some(String::from("tok"));
    let code = || Some(String::from("c0de"));
    assert_eq!(authorization_step(true, t(), code()), AuthStep::AlreadyAuthorized);
    assert_eq!(
        authorization_step(false, t(), code()),
        AuthStep::UseStoredToken(String::from("tok"))
    );
    assert_eq!(
        authorization_step(false, None, code()),
        AuthStep::ExchangeCode(String::from("c0de"))
    );
    assert_eq!(authorization_step(false, None, None), AuthStep::NoCredentials);
}

#[test]
fn token_exchange_outcomes() {
    assert_eq!(
        token_from_response(403, Some(Some(String::from("x")))),
        Err(TokenError::Rejected(403))
    );
    assert_eq!(token_from_response(200, None), Err(TokenError::Unreadable));
    assert_eq!(token_from_response(200, Some(None)), Err(TokenError::MissingAccessToken));
    assert_eq!(
        token_from_response(200, Some(Some(String::from("jwt")))),
        Ok(String::from("jwt"))
    );
}

#[test]
fn token_error_answers() {
    assert_eq!(TokenError::Rejected(403).status(), 403);
    assert_eq!(TokenError::Rejected(403).message(), "Failed to get token");
    assert_eq!(TokenError::Unreadable.status(), 500);
    assert_eq!(TokenError::Unreadable.message(), "Failed to parse token response");
    assert_eq!(TokenError::MissingAccessToken.status(), 500);
    assert_eq!(TokenError::MissingAccessToken.message(), "No access token found");
}

#[test]
fn redirect_only_when_unauthorized() {
    let c = defaults();
    assert_eq!(unauthorized_redirect(200, &c, "s:1"), None);
    assert_eq!(
        unauthorized_redirect(401, &c, "s:1"),
        Some(String::from(
            "http://localhost:8080/realms/QGT/protocol/openid-connect/auth?scope=openid&response_type=code&client_id=qgt&redirect_uri=http://s:1/secure/api/graphql"
        ))
    );
}
