use vstd::prelude::*;
use crate::errors::AuthError;
use crate::pending::{spec_take, AuthorizationRequestState, PendingStates};
use crate::provider::{spec_claims_valid, OidcProvider};
use crate::session::{SessionStore, SessionView};
use crate::token::{TokenResponse, TokenSet, TokenSetView};

verus! {

/// What a completed login yields: the cookie value to set and where to
/// send the caller — the resource originally requested.
#[derive(Debug)]
pub struct CallbackSuccess {
    pub session_id: String,
    pub redirect_to: String,
}

/// First half of the callback endpoint: consumes the pending
/// authorization request matching the received `state`. A `state` that is
/// unknown, expired, or already consumed is rejected with `UnknownState` —
/// never redirected again — and, since the token exchange needs the
/// returned request's `nonce`, no exchange can be issued for it.
pub fn begin_callback(pending: &mut PendingStates, state: &str, now: u64) -> (r: Result<
    AuthorizationRequestState,
    AuthError,
>)
    requires
        old(pending).wf(),
    ensures
        final(pending).wf(),
        final(pending)@ =~= spec_take(old(pending)@, state@, now).1,
        match r {
            Ok(request) => spec_take(old(pending)@, state@, now).0 == Some(request@),
            Err(e) => spec_take(old(pending)@, state@, now).0 is None && e
                == AuthError::UnknownState,
        },
{
    match pending.take(state, now) {
        Some(request) => Ok(request),
        None => Err(AuthError::UnknownState),
    }
}

/// Second half of the callback endpoint, once the surrounding program has
/// performed the code-for-token exchange over the network: `exchange` is
/// `None` when that HTTP call itself failed, and otherwise carries the
/// parsed response. On a response that passes the OIDC validation rules a
/// session is stored under the caller-supplied fresh identifier and the
/// caller is sent back to the resource the consumed request recorded; any
/// failure leaves the session table untouched and is never retried here.
pub fn complete_callback(
    provider: &OidcProvider,
    store: &mut SessionStore,
    request: AuthorizationRequestState,
    exchange: Option<TokenResponse>,
    fresh_session_id: String,
    now: u64,
) -> (r: Result<CallbackSuccess, AuthError>)
    requires
        old(store).wf(),
        !old(store)@.dom().contains(fresh_session_id@),
    ensures
        final(store).wf(),
        exchange is None ==> r == Err::<CallbackSuccess, AuthError>(AuthError::TokenExchange)
            && final(store)@ =~= old(store)@,
        exchange matches Some(response) ==> match r {
            Ok(success) => {
                &&& spec_claims_valid(provider.spec_config(), response.claims, request.nonce@, now)
                &&& success.session_id@ == fresh_session_id@
                &&& success.redirect_to@ == request.original_uri@
                &&& final(store)@ =~= old(store)@.insert(
                    fresh_session_id@,
                    (SessionView {
                        subject: response.claims.subject@,
                        tokens: (TokenSetView {
                            access_token: response.access_token@,
                            id_token: response.id_token@,
                            refresh_token: match response.refresh_token {
                                Some(ref t) => Some(t@),
                                None => None,
                            },
                            expires_at: response.claims.expires_at,
                        }),
                        refresh_in_flight: false,
                    }),
                )
            },
            Err(e) => {
                &&& !spec_claims_valid(provider.spec_config(), response.claims, request.nonce@, now)
                &&& e == AuthError::TokenValidation
                &&& final(store)@ =~= old(store)@
            },
        },
{
    let response = match exchange {
        None => {
            return Err(AuthError::TokenExchange);
        },
        Some(response) => response,
    };
    let subject = response.claims.subject.clone();
    match provider.validate_token_response(response, request.nonce.as_str(), now) {
        Ok(tokens) => {
            let session_id = fresh_session_id.clone();
            store.create(fresh_session_id, subject, tokens);
            Ok(CallbackSuccess { session_id, redirect_to: request.original_uri })
        },
        Err(e) => Err(e),
    }
}

} // verus!
