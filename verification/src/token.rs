use vstd::prelude::*;

verus! {

/// Clock-skew tolerance, in seconds, granted when judging token expiry.
pub const CLOCK_SKEW_SECONDS: u64 = 30;

/// The ghost value of a [`TokenSet`].
pub struct TokenSetView {
    pub access_token: Seq<char>,
    pub id_token: Seq<char>,
    pub refresh_token: Option<Seq<char>>,
    pub expires_at: u64,
}

/// A validated set of tokens: access token, raw ID token, optional refresh
/// token, and the absolute expiry (seconds since the epoch) taken from the
/// ID token's expiry claim. Owned by a session and replaced wholesale on
/// refresh.
#[derive(Debug)]
pub struct TokenSet {
    pub access_token: String,
    pub id_token: String,
    pub refresh_token: Option<String>,
    pub expires_at: u64,
}

impl View for TokenSet {
    type V = TokenSetView;

    open spec fn view(&self) -> TokenSetView {
        TokenSetView {
            access_token: self.access_token@,
            id_token: self.id_token@,
            refresh_token: match self.refresh_token {
                Some(ref r) => Some(r@),
                None => None,
            },
            expires_at: self.expires_at,
        }
    }
}

/// A token set is still usable at time `now`: its expiry lies in the
/// future, up to the clock-skew tolerance.
pub open spec fn spec_token_fresh(expires_at: u64, now: u64) -> bool {
    now < expires_at + CLOCK_SKEW_SECONDS
}

impl TokenSet {
    /// The pure, local expiry check evaluated on every protected request;
    /// no network call is involved.
    pub fn is_fresh(&self, now: u64) -> (r: bool)
        ensures
            r == spec_token_fresh(self.expires_at, now),
    {
        if now < self.expires_at {
            true
        } else {
            now - self.expires_at < CLOCK_SKEW_SECONDS
        }
    }

    /// Whether a refresh can even be attempted.
    pub fn has_refresh_token(&self) -> (r: bool)
        ensures
            r == (self@.refresh_token is Some),
    {
        self.refresh_token.is_some()
    }
}

/// The claims of an ID token, together with the outcome of verifying its
/// signature against the provider's published keys. Signature verification
/// is cryptography performed outside this crate; the gateway's validation
/// rules over the result are what is verified here.
#[derive(Debug)]
pub struct IdTokenClaims {
    pub issuer: String,
    pub audience: String,
    pub subject: String,
    pub nonce: String,
    pub expires_at: u64,
    pub signature_valid: bool,
}

/// What the token endpoint returned for a code or refresh exchange, after
/// the surrounding program has parsed the response and checked the ID
/// token's signature.
#[derive(Debug)]
pub struct TokenResponse {
    pub access_token: String,
    pub id_token: String,
    pub refresh_token: Option<String>,
    pub claims: IdTokenClaims,
}

} // verus!
