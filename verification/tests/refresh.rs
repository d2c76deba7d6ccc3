use oidc_gateway::middleware::{AuthMiddleware, Decision};
use oidc_gateway::pending::PendingStates;
use oidc_gateway::provider::{DiscoveryDocument, OidcConfig, OidcProvider};
use oidc_gateway::route_guard::{Method, RouteGuard};
use oidc_gateway::session::SessionStore;
use oidc_gateway::token::TokenSet;

const ISSUER: &str = "https://login.example.com/realms/main";

fn provider() -> OidcProvider {
    let mut p = OidcProvider::new(OidcConfig {
        client_id: "rokim_todo".to_string(),
        client_secret: "SECRET-REDACTED".to_string(),
        redirect_uri: "http://localhost:8080/auth".to_string(),
        issuer_url: ISSUER.to_string(),
        scope: "openid".to_string(),
    });
    p.accept_discovery(DiscoveryDocument {
        authorization_endpoint: format!("{}/authorize", ISSUER),
        token_endpoint: format!("{}/token", ISSUER),
        jwks_endpoint: format!("{}/certs", ISSUER),
        issuer: ISSUER.to_string(),
    })
    .unwrap();
    p
}

fn gateway() -> AuthMiddleware {
    AuthMiddleware::new(RouteGuard::new("/auth".to_string(), Vec::new()))
}

fn tokens(expires_at: u64, refresh: Option<&str>) -> TokenSet {
    TokenSet {
        access_token: "at".to_string(),
        id_token: "idt".to_string(),
        refresh_token: refresh.map(|r| r.to_string()),
        expires_at,
    }
}

fn store_with_session(expires_at: u64, refresh: Option<&str>) -> SessionStore {
    let mut store = SessionStore::new();
    store.create(
        "sid-1".to_string(),
        "user-42".to_string(),
        tokens(expires_at, refresh),
    );
    store
}

fn handle(
    mw: &AuthMiddleware,
    p: &OidcProvider,
    store: &mut SessionStore,
    pending: &mut PendingStates,
    now: u64,
    state: &str,
) -> Decision {
    mw.handle(
        p,
        store,
        pending,
        "/api/v1/todos",
        Method::Get,
        Some("sid-1"),
        now,
        state.to_string(),
        format!("nonce-{}", state),
    )
}

#[test]
fn refresh_is_single_flight() {
    // An expired session with a refresh token: the first request starts
    // the one refresh exchange, every concurrent request for the same
    // session is told to wait, and after the exchange lands all of them
    // observe the refreshed token set.
    let mw = gateway();
    let p = provider();
    let mut store = store_with_session(1_000, Some("rt-1"));
    let mut pending = PendingStates::new();

    // Expired (past expiry plus the 30 s skew) at now = 1_031.
    let d = handle(&mw, &p, &mut store, &mut pending, 1_031, "S1");
    assert!(matches!(d, Decision::RefreshStarted));

    // A second and third request race in before the exchange finishes.
    let d = handle(&mw, &p, &mut store, &mut pending, 1_032, "S2");
    assert!(matches!(d, Decision::RefreshPending));
    let d = handle(&mw, &p, &mut store, &mut pending, 1_033, "S3");
    assert!(matches!(d, Decision::RefreshPending));

    // The winner's exchange lands.
    store.finish_refresh("sid-1", Some(tokens(5_000, Some("rt-2"))));

    // Everyone now sees the refreshed session.
    for now in [1_040, 1_041, 1_042] {
        let d = handle(&mw, &p, &mut store, &mut pending, now, "S4");
        match d {
            Decision::Authorized { subject } => assert_eq!(subject, "user-42"),
            _ => panic!("expected the refreshed session to authorize"),
        }
    }
    // No redirect was ever issued along the way.
    assert!(!pending.contains("S1"));
    assert!(!pending.contains("S2"));
    assert!(!pending.contains("S3"));
    assert!(!pending.contains("S4"));
}

#[test]
fn failed_refresh_destroys_the_session() {
    let mw = gateway();
    let p = provider();
    let mut store = store_with_session(1_000, Some("rt-1"));
    let mut pending = PendingStates::new();

    let d = handle(&mw, &p, &mut store, &mut pending, 1_031, "S1");
    assert!(matches!(d, Decision::RefreshStarted));

    // The provider rejects the refresh: unrecoverable, session destroyed.
    store.finish_refresh("sid-1", None);
    assert!(store.get("sid-1").is_none());

    // The next request goes through the full authorization flow again.
    let d = handle(&mw, &p, &mut store, &mut pending, 1_032, "S2");
    assert!(matches!(d, Decision::Redirect { .. }));
    assert!(pending.contains("S2"));
}

#[test]
fn expired_session_without_refresh_token_redirects() {
    let mw = gateway();
    let p = provider();
    let mut store = store_with_session(1_000, None);
    let mut pending = PendingStates::new();

    let d = handle(&mw, &p, &mut store, &mut pending, 1_031, "S1");
    assert!(matches!(d, Decision::Redirect { .. }));
    // The stale session was deleted on the way out.
    assert!(store.get("sid-1").is_none());
    assert!(pending.contains("S1"));
}

#[test]
fn skew_tolerance_on_expiry() {
    // expires_at = 1_000: still accepted 29 s past expiry, refused at 30.
    let mw = gateway();
    let p = provider();
    let mut pending = PendingStates::new();

    let mut store = store_with_session(1_000, Some("rt-1"));
    let d = handle(&mw, &p, &mut store, &mut pending, 1_029, "S1");
    assert!(matches!(d, Decision::Authorized { .. }));

    let d = handle(&mw, &p, &mut store, &mut pending, 1_030, "S2");
    assert!(matches!(d, Decision::RefreshStarted));
}
