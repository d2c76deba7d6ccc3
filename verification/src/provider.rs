use vstd::prelude::*;
use vstd::string::StringExecFns;
use crate::errors::AuthError;
use crate::text;
use crate::token::{IdTokenClaims, TokenResponse, TokenSet};

verus! {

/// The immutable client configuration, loaded once at process start and
/// never mutated: all values are opaque strings owned by the surrounding
/// program's configuration loading.
#[derive(Debug)]
pub struct OidcConfig {
    pub client_id: String,
    pub client_secret: String,
    pub redirect_uri: String,
    pub issuer_url: String,
    pub scope: String,
}

/// The identity provider's discovery metadata, immutable once accepted.
#[derive(Debug)]
pub struct DiscoveryDocument {
    pub authorization_endpoint: String,
    pub token_endpoint: String,
    pub jwks_endpoint: String,
    pub issuer: String,
}

/// A discovery document is acceptable for `config`: every required
/// endpoint is present and its issuer is the configured one.
pub open spec fn spec_doc_valid(config: OidcConfig, doc: DiscoveryDocument) -> bool {
    &&& doc.issuer@ == config.issuer_url@
    &&& doc.authorization_endpoint@.len() > 0
    &&& doc.token_endpoint@.len() > 0
    &&& doc.jwks_endpoint@.len() > 0
}

/// The authorization URL the gateway redirects an unauthenticated caller
/// to: deterministic in the configuration and the `state`/`nonce` pair.
pub open spec fn spec_auth_url(
    doc: DiscoveryDocument,
    config: OidcConfig,
    state: Seq<char>,
    nonce: Seq<char>,
) -> Seq<char> {
    doc.authorization_endpoint@ + "?response_type=code&client_id="@ + config.client_id@
        + "&redirect_uri="@ + config.redirect_uri@ + "&scope="@ + config.scope@ + "&state="@
        + state + "&nonce="@ + nonce
}

/// The standard validation rules over an ID token: the signature verifies
/// against the provider's keys, the issuer and audience are the configured
/// ones, the expiry claim lies in the future, and the `nonce` is the one
/// issued with the authorization request being completed.
pub open spec fn spec_claims_valid(
    config: OidcConfig,
    claims: IdTokenClaims,
    expected_nonce: Seq<char>,
    now: u64,
) -> bool {
    &&& claims.signature_valid
    &&& claims.issuer@ == config.issuer_url@
    &&& claims.audience@ == config.client_id@
    &&& claims.nonce@ == expected_nonce
    &&& now < claims.expires_at
}

/// Holds the client configuration and the lazily supplied discovery
/// metadata, and applies the protocol's validation rules. The network
/// fetches themselves (discovery, token exchange, refresh, key retrieval)
/// are performed by the surrounding program, which hands their parsed
/// results in.
pub struct OidcProvider {
    config: OidcConfig,
    discovery: Option<DiscoveryDocument>,
}

impl OidcProvider {
    pub closed spec fn spec_config(self) -> OidcConfig {
        self.config
    }

    pub closed spec fn spec_discovery(self) -> Option<DiscoveryDocument> {
        self.discovery
    }

    pub open spec fn discovered(self) -> bool {
        self.spec_discovery() is Some
    }

    pub fn new(config: OidcConfig) -> (p: OidcProvider)
        ensures
            p.spec_config() == config,
            !p.discovered(),
    {
        OidcProvider { config, discovery: None }
    }

    /// Read access to the configuration.
    pub fn config(&self) -> (c: &OidcConfig)
        ensures
            *c == self.spec_config(),
    {
        &self.config
    }

    /// The cached discovery document, if one has been accepted.
    pub fn discovery(&self) -> (d: Option<&DiscoveryDocument>)
        ensures
            match d {
                Some(doc) => self.discovered() && *doc == self.spec_discovery().unwrap(),
                None => !self.discovered(),
            },
    {
        match &self.discovery {
            Some(doc) => Some(doc),
            None => None,
        }
    }

    /// Validates and caches a freshly fetched discovery document: accepted
    /// exactly when every required endpoint is present and the issuer
    /// matches the configured issuer. A rejected document is not cached,
    /// so the next access fetches again — a failure is never permanent.
    pub fn accept_discovery(&mut self, doc: DiscoveryDocument) -> (r: Result<(), AuthError>)
        ensures
            final(self).spec_config() == old(self).spec_config(),
            r is Ok <==> spec_doc_valid(old(self).spec_config(), doc),
            r is Ok ==> final(self).spec_discovery() == Some(doc),
            r is Err ==> final(self).spec_discovery() == old(self).spec_discovery() && r == Err::<
                (),
                AuthError,
            >(AuthError::Discovery),
    {
        let issuer_ok = text::str_eq(doc.issuer.as_str(), self.config.issuer_url.as_str());
        let endpoints_ok = !doc.authorization_endpoint.as_str().is_empty()
            && !doc.token_endpoint.as_str().is_empty() && !doc.jwks_endpoint.as_str().is_empty();
        if issuer_ok && endpoints_ok {
            self.discovery = Some(doc);
            Ok(())
        } else {
            Err(AuthError::Discovery)
        }
    }

    /// Builds the authorization redirect URL for a fresh `state`/`nonce`
    /// pair. Purely deterministic; fails only when no discovery document
    /// has been accepted yet.
    pub fn build_authorization_url(&self, state: &str, nonce: &str) -> (r: Result<
        String,
        AuthError,
    >)
        ensures
            match r {
                Ok(url) => self.discovered() && url@ == spec_auth_url(
                    self.spec_discovery().unwrap(),
                    self.spec_config(),
                    state@,
                    nonce@,
                ),
                Err(e) => !self.discovered() && e == AuthError::Discovery,
            },
    {
        match &self.discovery {
            Some(doc) => {
                let mut url = doc.authorization_endpoint.clone();
                url.append("?response_type=code&client_id=");
                url.append(self.config.client_id.as_str());
                url.append("&redirect_uri=");
                url.append(self.config.redirect_uri.as_str());
                url.append("&scope=");
                url.append(self.config.scope.as_str());
                url.append("&state=");
                url.append(state);
                url.append("&nonce=");
                url.append(nonce);
                Ok(url)
            },
            None => Err(AuthError::Discovery),
        }
    }

    /// The CSRF defence of the code exchange, checked before any network
    /// call: the `state` echoed by the provider must be exactly the one
    /// this gateway expects.
    pub fn check_state(expected: &str, received: &str) -> (r: Result<(), AuthError>)
        ensures
            r is Ok <==> expected@ == received@,
            r is Err ==> r == Err::<(), AuthError>(AuthError::StateMismatch),
    {
        if text::str_eq(expected, received) {
            Ok(())
        } else {
            Err(AuthError::StateMismatch)
        }
    }

    /// Applies the OIDC validation rules to a token-endpoint response and,
    /// on success, assembles the validated token set, whose expiry is the
    /// ID token's expiry claim. Any failed rule is a security violation:
    /// `TokenValidation`, never a redirect.
    pub fn validate_token_response(
        &self,
        response: TokenResponse,
        expected_nonce: &str,
        now: u64,
    ) -> (r: Result<TokenSet, AuthError>)
        ensures
            match r {
                Ok(ts) => spec_claims_valid(
                    self.spec_config(),
                    response.claims,
                    expected_nonce@,
                    now,
                ) && ts@ == (TokenSet {
                    access_token: response.access_token,
                    id_token: response.id_token,
                    refresh_token: response.refresh_token,
                    expires_at: response.claims.expires_at,
                })@,
                Err(e) => !spec_claims_valid(
                    self.spec_config(),
                    response.claims,
                    expected_nonce@,
                    now,
                ) && e == AuthError::TokenValidation,
            },
    {
        let claims_ok = response.claims.signature_valid && text::str_eq(
            response.claims.issuer.as_str(),
            self.config.issuer_url.as_str(),
        ) && text::str_eq(response.claims.audience.as_str(), self.config.client_id.as_str())
            && text::str_eq(response.claims.nonce.as_str(), expected_nonce) && now
            < response.claims.expires_at;
        if claims_ok {
            Ok(
                TokenSet {
                    access_token: response.access_token,
                    id_token: response.id_token,
                    refresh_token: response.refresh_token,
                    expires_at: response.claims.expires_at,
                },
            )
        } else {
            Err(AuthError::TokenValidation)
        }
    }
}

} // verus!
