use vstd::prelude::*;
use crate::errors::AuthError;
use crate::pending::{AuthorizationRequestState, AuthorizationRequestView, PendingStates};
use crate::provider::{spec_auth_url, OidcProvider};
use crate::route_guard::{Method, RouteGuard};
use crate::session::{spec_begin_refresh, spec_delete, SessionStore, SessionView};
use crate::token::spec_token_fresh;

verus! {

/// The per-request outcome of the interceptor. `Exempt` and `Authorized`
/// forward the request downstream; `Redirect` and `Rejected` answer it on
/// the spot; the two refresh decisions drive the single-flight refresh
/// handshake: the caller that receives `RefreshStarted` performs the
/// provider's refresh exchange and applies its outcome with
/// [`SessionStore::finish_refresh`], while a caller that receives
/// `RefreshPending` waits for that result and asks again.
#[derive(Debug)]
pub enum Decision {
    Exempt,
    Authorized { subject: String },
    Redirect { location: String },
    RefreshStarted,
    RefreshPending,
    Rejected { error: AuthError },
}

/// The ghost value of a [`Decision`].
pub enum DecisionModel {
    Exempt,
    Authorized(Seq<char>),
    Redirect(Seq<char>),
    RefreshStarted,
    RefreshPending,
    Rejected(AuthError),
}

impl View for Decision {
    type V = DecisionModel;

    open spec fn view(&self) -> DecisionModel {
        match self {
            Decision::Exempt => DecisionModel::Exempt,
            Decision::Authorized { subject } => DecisionModel::Authorized(subject@),
            Decision::Redirect { location } => DecisionModel::Redirect(location@),
            Decision::RefreshStarted => DecisionModel::RefreshStarted,
            Decision::RefreshPending => DecisionModel::RefreshPending,
            Decision::Rejected { error } => DecisionModel::Rejected(*error),
        }
    }
}

/// What one interception step decides and what it leaves behind.
pub struct StepOutcome {
    pub decision: DecisionModel,
    pub sessions: Map<Seq<char>, SessionView>,
    pub pending: Map<Seq<char>, AuthorizationRequestView>,
}

/// The cookie value as it enters the model.
pub open spec fn spec_cookie_view(cookie: Option<&str>) -> Option<Seq<char>> {
    match cookie {
        Some(c) => Some(c@),
        None => None,
    }
}

/// Sending an unauthenticated caller to the provider: with discovery
/// metadata at hand, a redirect to the authorization URL carrying the
/// fresh `state`/`nonce` pair, recorded as pending together with the
/// originally requested path; without it, an explicit rejection — a
/// discovery failure is fatal for a new authentication attempt (and
/// retried on the next one, since nothing is cached).
pub open spec fn spec_redirect(
    provider: OidcProvider,
    pending: Map<Seq<char>, AuthorizationRequestView>,
    path: Seq<char>,
    now: u64,
    fresh_state: Seq<char>,
    fresh_nonce: Seq<char>,
) -> (DecisionModel, Map<Seq<char>, AuthorizationRequestView>) {
    if provider.discovered() {
        (
            DecisionModel::Redirect(
                spec_auth_url(
                    provider.spec_discovery().unwrap(),
                    provider.spec_config(),
                    fresh_state,
                    fresh_nonce,
                ),
            ),
            pending.insert(
                fresh_state,
                AuthorizationRequestView {
                    nonce: fresh_nonce,
                    created_at: now,
                    original_uri: path,
                },
            ),
        )
    } else {
        (DecisionModel::Rejected(AuthError::Discovery), pending)
    }
}

/// The whole per-request state machine, as one pure transition function:
/// exempt requests pass untouched; a missing or unknown session triggers
/// the redirect; a fresh session authorizes; an expired one enters the
/// single-flight refresh handshake, or — lacking a refresh token — is
/// destroyed and sent through the full flow again; a malformed session
/// reference is rejected outright.
pub open spec fn spec_handle(
    guard: RouteGuard,
    provider: OidcProvider,
    sessions: Map<Seq<char>, SessionView>,
    pending: Map<Seq<char>, AuthorizationRequestView>,
    path: Seq<char>,
    method: Method,
    cookie: Option<Seq<char>>,
    now: u64,
    fresh_state: Seq<char>,
    fresh_nonce: Seq<char>,
) -> StepOutcome {
    if !guard.spec_requires_auth(path, method) {
        StepOutcome { decision: DecisionModel::Exempt, sessions, pending }
    } else {
        match cookie {
            None => {
                let r = spec_redirect(provider, pending, path, now, fresh_state, fresh_nonce);
                StepOutcome { decision: r.0, sessions, pending: r.1 }
            },
            Some(c) => {
                if c.len() == 0 {
                    StepOutcome {
                        decision: DecisionModel::Rejected(AuthError::MalformedSession),
                        sessions,
                        pending,
                    }
                } else if !sessions.dom().contains(c) {
                    let r = spec_redirect(provider, pending, path, now, fresh_state, fresh_nonce);
                    StepOutcome { decision: r.0, sessions, pending: r.1 }
                } else if spec_token_fresh(sessions[c].tokens.expires_at, now) {
                    StepOutcome {
                        decision: DecisionModel::Authorized(sessions[c].subject),
                        sessions,
                        pending,
                    }
                } else if sessions[c].refresh_in_flight {
                    StepOutcome { decision: DecisionModel::RefreshPending, sessions, pending }
                } else if sessions[c].tokens.refresh_token is Some {
                    StepOutcome {
                        decision: DecisionModel::RefreshStarted,
                        sessions: spec_begin_refresh(sessions, c).1,
                        pending,
                    }
                } else {
                    let r = spec_redirect(provider, pending, path, now, fresh_state, fresh_nonce);
                    StepOutcome { decision: r.0, sessions: spec_delete(sessions, c), pending: r.1 }
                }
            },
        }
    }
}

/// The per-request interceptor: consults the route guard, resolves or
/// rejects a session, and decides what happens to the request.
pub struct AuthMiddleware {
    pub guard: RouteGuard,
}

impl AuthMiddleware {
    pub fn new(guard: RouteGuard) -> (m: AuthMiddleware)
        ensures
            m.guard == guard,
    {
        AuthMiddleware { guard }
    }

    /// One interception step, exactly the transition [`spec_handle`]
    /// describes. `now` is the current time; `fresh_state` and
    /// `fresh_nonce` must be newly drawn cryptographic randomness, used
    /// only if this step issues a redirect.
    pub fn handle(
        &self,
        provider: &OidcProvider,
        store: &mut SessionStore,
        pending: &mut PendingStates,
        path: &str,
        method: Method,
        cookie: Option<&str>,
        now: u64,
        fresh_state: String,
        fresh_nonce: String,
    ) -> (d: Decision)
        requires
            old(store).wf(),
            old(pending).wf(),
            !old(pending)@.dom().contains(fresh_state@),
        ensures
            final(store).wf(),
            final(pending).wf(),
            d@ == spec_handle(
                self.guard,
                *provider,
                old(store)@,
                old(pending)@,
                path@,
                method,
                spec_cookie_view(cookie),
                now,
                fresh_state@,
                fresh_nonce@,
            ).decision,
            final(store)@ =~= spec_handle(
                self.guard,
                *provider,
                old(store)@,
                old(pending)@,
                path@,
                method,
                spec_cookie_view(cookie),
                now,
                fresh_state@,
                fresh_nonce@,
            ).sessions,
            final(pending)@ =~= spec_handle(
                self.guard,
                *provider,
                old(store)@,
                old(pending)@,
                path@,
                method,
                spec_cookie_view(cookie),
                now,
                fresh_state@,
                fresh_nonce@,
            ).pending,
    {
        if !self.guard.requires_auth(path, method) {
            return Decision::Exempt;
        }
        let c: &str = match cookie {
            None => {
                return issue_redirect(provider, pending, path, now, fresh_state, fresh_nonce);
            },
            Some(c) => c,
        };
        if c.is_empty() {
            return Decision::Rejected { error: AuthError::MalformedSession };
        }
        match store.get(c) {
            None => issue_redirect(provider, pending, path, now, fresh_state, fresh_nonce),
            Some(sess) => {
                if sess.tokens.is_fresh(now) {
                    let subject = sess.subject.clone();
                    return Decision::Authorized { subject };
                }
                if sess.refresh_in_flight {
                    return Decision::RefreshPending;
                }
                let refreshable = sess.tokens.has_refresh_token();
                if refreshable {
                    let _granted = store.begin_refresh(c);
                    Decision::RefreshStarted
                } else {
                    store.delete(c);
                    issue_redirect(provider, pending, path, now, fresh_state, fresh_nonce)
                }
            },
        }
    }
}

/// Issues the redirect (or the discovery rejection) and records the
/// pending authorization request.
fn issue_redirect(
    provider: &OidcProvider,
    pending: &mut PendingStates,
    path: &str,
    now: u64,
    fresh_state: String,
    fresh_nonce: String,
) -> (d: Decision)
    requires
        old(pending).wf(),
        !old(pending)@.dom().contains(fresh_state@),
    ensures
        final(pending).wf(),
        d@ == spec_redirect(*provider, old(pending)@, path@, now, fresh_state@, fresh_nonce@).0,
        final(pending)@ =~= spec_redirect(
            *provider,
            old(pending)@,
            path@,
            now,
            fresh_state@,
            fresh_nonce@,
        ).1,
{
    match provider.build_authorization_url(fresh_state.as_str(), fresh_nonce.as_str()) {
        Ok(location) => {
            let request = AuthorizationRequestState {
                nonce: fresh_nonce,
                created_at: now,
                original_uri: path.to_owned(),
            };
            pending.insert(fresh_state, request);
            Decision::Redirect { location }
        },
        Err(error) => Decision::Rejected { error },
    }
}

/// Law: a request the guard exempts is forwarded untouched — the session
/// table is not consulted or changed, no pending state is created, and no
/// network action (redirect, refresh) is requested.
pub proof fn lemma_exempt_forwards_untouched(
    guard: RouteGuard,
    provider: OidcProvider,
    sessions: Map<Seq<char>, SessionView>,
    pending: Map<Seq<char>, AuthorizationRequestView>,
    path: Seq<char>,
    method: Method,
    cookie: Option<Seq<char>>,
    now: u64,
    fresh_state: Seq<char>,
    fresh_nonce: Seq<char>,
)
    requires
        !guard.spec_requires_auth(path, method),
    ensures
        spec_handle(
            guard,
            provider,
            sessions,
            pending,
            path,
            method,
            cookie,
            now,
            fresh_state,
            fresh_nonce,
        ) == (StepOutcome { decision: DecisionModel::Exempt, sessions, pending }),
{
}

/// Law: a protected request without a valid session cookie — none, or one
/// naming no live session — is answered with a redirect to the provider's
/// authorization endpoint carrying exactly the freshly drawn, previously
/// unseen `state` and `nonce` (unseen: the `state` was not pending before,
/// and is pending afterwards), and no session is touched.
pub proof fn lemma_unauthenticated_redirects(
    guard: RouteGuard,
    provider: OidcProvider,
    sessions: Map<Seq<char>, SessionView>,
    pending: Map<Seq<char>, AuthorizationRequestView>,
    path: Seq<char>,
    method: Method,
    cookie: Option<Seq<char>>,
    now: u64,
    fresh_state: Seq<char>,
    fresh_nonce: Seq<char>,
)
    requires
        guard.spec_requires_auth(path, method),
        provider.discovered(),
        !pending.dom().contains(fresh_state),
        match cookie {
            None => true,
            Some(c) => c.len() > 0 && !sessions.dom().contains(c),
        },
    ensures
        spec_handle(
            guard,
            provider,
            sessions,
            pending,
            path,
            method,
            cookie,
            now,
            fresh_state,
            fresh_nonce,
        ) == (StepOutcome {
            decision: DecisionModel::Redirect(
                spec_auth_url(
                    provider.spec_discovery().unwrap(),
                    provider.spec_config(),
                    fresh_state,
                    fresh_nonce,
                ),
            ),
            sessions,
            pending: pending.insert(
                fresh_state,
                (AuthorizationRequestView {
                    nonce: fresh_nonce,
                    created_at: now,
                    original_uri: path,
                }),
            ),
        }),
{
}

} // verus!
