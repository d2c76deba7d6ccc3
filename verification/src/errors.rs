use vstd::prelude::*;

verus! {

/// The gateway's error taxonomy.
///
/// Protocol-level failures (`StateMismatch`, `UnknownState`,
/// `TokenValidation`) are explicit rejections and are never downgraded to a
/// redirect; network-level failures (`Discovery`, `TokenExchange`) are safe
/// to present as retryable; `Refresh` destroys the session and forces a new
/// authorization flow.
#[derive(Clone, Copy, Debug, PartialEq, Eq, Structural)]
pub enum AuthError {
    /// Provider metadata unreachable or malformed (missing endpoint,
    /// issuer mismatch). Retried on the next access, never cached.
    Discovery,
    /// The `state` received at the token exchange differs from the one this
    /// gateway issued: possible CSRF, always rejected.
    StateMismatch,
    /// A callback `state` that matches no pending authorization request
    /// (absent, expired, or already consumed).
    UnknownState,
    /// Network or HTTP failure talking to the token endpoint; retryable.
    TokenExchange,
    /// ID-token signature or claim check failed: a security violation,
    /// no session is created.
    TokenValidation,
    /// Refresh token missing or rejected by the provider; the session is
    /// destroyed, not retried.
    Refresh,
    /// A session reference that is not even well-formed; rejected outright
    /// rather than redirected, to avoid redirect loops on non-browser
    /// clients.
    MalformedSession,
}

} // verus!
