use oidc_gateway::errors::AuthError;
use oidc_gateway::provider::{DiscoveryDocument, OidcConfig, OidcProvider};
use oidc_gateway::token::{IdTokenClaims, TokenResponse, TokenSet};

const ISSUER: &str = "https://login.example.com/realms/main";

fn config() -> OidcConfig {
    OidcConfig {
        client_id: "rokim_todo".to_string(),
        client_secret: "SECRET-REDACTED".to_string(),
        redirect_uri: "http://localhost:8080/auth".to_string(),
        issuer_url: ISSUER.to_string(),
        scope: "openid".to_string(),
    }
}

fn good_doc() -> DiscoveryDocument {
    DiscoveryDocument {
        authorization_endpoint: format!("{}/authorize", ISSUER),
        token_endpoint: format!("{}/token", ISSUER),
        jwks_endpoint: format!("{}/certs", ISSUER),
        issuer: ISSUER.to_string(),
    }
}

fn good_claims() -> IdTokenClaims {
    IdTokenClaims {
        issuer: ISSUER.to_string(),
        audience: "rokim_todo".to_string(),
        subject: "user-42".to_string(),
        nonce: "N1".to_string(),
        expires_at: 2_000,
        signature_valid: true,
    }
}

fn response(claims: IdTokenClaims) -> TokenResponse {
    TokenResponse {
        access_token: "at-1".to_string(),
        id_token: "idt-1".to_string(),
        refresh_token: Some("rt-1".to_string()),
        claims,
    }
}

#[test]
fn discovery_with_issuer_mismatch_is_rejected() {
    let mut provider = OidcProvider::new(config());
    let mut doc = good_doc();
    doc.issuer = "https://evil.example.com".to_string();
    assert_eq!(provider.accept_discovery(doc), Err(AuthError::Discovery));
    assert!(provider.discovery().is_none());
}

#[test]
fn discovery_with_missing_endpoint_is_rejected() {
    let mut provider = OidcProvider::new(config());
    let mut doc = good_doc();
    doc.token_endpoint = String::new();
    assert_eq!(provider.accept_discovery(doc), Err(AuthError::Discovery));
}

#[test]
fn discovery_failure_is_not_cached() {
    // A failed fetch is retried on the next access: a later good document
    // is accepted.
    let mut provider = OidcProvider::new(config());
    let mut bad = good_doc();
    bad.issuer = String::new();
    assert!(provider.accept_discovery(bad).is_err());
    assert!(provider.accept_discovery(good_doc()).is_ok());
    let doc = provider.discovery().expect("cached now");
    assert_eq!(doc.issuer, ISSUER);
}

#[test]
fn authorization_url_is_deterministic() {
    let mut provider = OidcProvider::new(config());
    assert!(matches!(
        provider.build_authorization_url("S1", "N1"),
        Err(AuthError::Discovery)
    ));
    provider.accept_discovery(good_doc()).unwrap();
    let url = provider.build_authorization_url("S1", "N1").unwrap();
    assert_eq!(
        url,
        format!(
            "{}/authorize?response_type=code&client_id=rokim_todo&redirect_uri=http://localhost:8080/auth&scope=openid&state=S1&nonce=N1",
            ISSUER
        )
    );
    // Same inputs, same URL.
    assert_eq!(url, provider.build_authorization_url("S1", "N1").unwrap());
}

#[test]
fn state_check_is_exact() {
    assert!(OidcProvider::check_state("S1", "S1").is_ok());
    assert_eq!(
        OidcProvider::check_state("S1", "S2"),
        Err(AuthError::StateMismatch)
    );
    assert_eq!(
        OidcProvider::check_state("S1", ""),
        Err(AuthError::StateMismatch)
    );
}

#[test]
fn valid_response_yields_the_token_set() {
    let provider = OidcProvider::new(config());
    let ts = provider
        .validate_token_response(response(good_claims()), "N1", 1_000)
        .expect("all claims valid");
    assert_eq!(ts.access_token, "at-1");
    assert_eq!(ts.id_token, "idt-1");
    assert_eq!(ts.refresh_token.as_deref(), Some("rt-1"));
    assert_eq!(ts.expires_at, 2_000);
}

#[test]
fn each_failed_claim_is_a_validation_error() {
    let provider = OidcProvider::new(config());

    let mut claims = good_claims();
    claims.signature_valid = false;
    assert_eq!(
        provider
            .validate_token_response(response(claims), "N1", 1_000)
            .unwrap_err(),
        AuthError::TokenValidation
    );

    let mut claims = good_claims();
    claims.issuer = "https://evil.example.com".to_string();
    assert_eq!(
        provider
            .validate_token_response(response(claims), "N1", 1_000)
            .unwrap_err(),
        AuthError::TokenValidation
    );

    let mut claims = good_claims();
    claims.audience = "someone_else".to_string();
    assert_eq!(
        provider
            .validate_token_response(response(claims), "N1", 1_000)
            .unwrap_err(),
        AuthError::TokenValidation
    );

    // Expired ID token: exp is not in the future.
    let claims = good_claims();
    assert_eq!(
        provider
            .validate_token_response(response(claims), "N1", 2_000)
            .unwrap_err(),
        AuthError::TokenValidation
    );

    // Nonce mismatch.
    let claims = good_claims();
    assert_eq!(
        provider
            .validate_token_response(response(claims), "N2", 1_000)
            .unwrap_err(),
        AuthError::TokenValidation
    );
}

#[test]
fn token_freshness_has_the_skew_tolerance() {
    let ts = TokenSet {
        access_token: "at".to_string(),
        id_token: "idt".to_string(),
        refresh_token: None,
        expires_at: 100,
    };
    assert!(ts.is_fresh(99));
    assert!(ts.is_fresh(100));
    assert!(ts.is_fresh(129));
    assert!(!ts.is_fresh(130));
}
