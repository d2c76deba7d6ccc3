use vstd::prelude::*;
use crate::text;

verus! {

/// The HTTP method of a request. The guard's exemption policy is a
/// predicate over the full (path, method) pair; the prefix policy below
/// happens not to discriminate on the method, but callers state and test
/// the contract over both.
#[derive(Clone, Copy, Debug, PartialEq, Eq, Structural)]
pub enum Method {
    Get,
    Post,
    Put,
    Delete,
    Patch,
    Head,
    Options,
}

/// The pure predicate deciding whether a request is exempt from
/// authentication. The callback path is always exempt (else the login
/// redirect would loop forever); further prefixes — health checks,
/// documentation routes — are an operational policy and therefore
/// configurable. Anything else requires authentication: the guard fails
/// closed.
pub struct RouteGuard {
    pub callback_path: String,
    pub exempt_prefixes: Vec<String>,
}

impl RouteGuard {
    pub open spec fn spec_callback_path(self) -> Seq<char> {
        self.callback_path@
    }

    /// A request is exempt exactly when its path extends the callback path
    /// or one of the configured exempt prefixes.
    pub open spec fn spec_exempt(self, path: Seq<char>) -> bool {
        text::spec_starts_with(path, self.callback_path@) || exists|i: int|
            0 <= i < self.exempt_prefixes@.len() && text::spec_starts_with(
                path,
                self.exempt_prefixes@[i]@,
            )
    }

    /// The guard's whole contract: total over every (path, method) pair,
    /// no side effects, defaulting to "requires authentication".
    pub open spec fn spec_requires_auth(self, path: Seq<char>, method: Method) -> bool {
        !self.spec_exempt(path)
    }

    pub fn new(callback_path: String, exempt_prefixes: Vec<String>) -> (g: RouteGuard)
        ensures
            g.callback_path == callback_path,
            g.exempt_prefixes == exempt_prefixes,
    {
        RouteGuard { callback_path, exempt_prefixes }
    }

    /// Decides whether `path` (with `method`) must be authenticated.
    pub fn requires_auth(&self, path: &str, method: Method) -> (r: bool)
        ensures
            r == self.spec_requires_auth(path@, method),
    {
        if text::str_starts_with(path, self.callback_path.as_str()) {
            return false;
        }
        let n = self.exempt_prefixes.len();
        let mut i: usize = 0;
        while i < n
            invariant
                n == self.exempt_prefixes@.len(),
                0 <= i <= n,
                forall|j: int|
                    0 <= j < i ==> !text::spec_starts_with(path@, self.exempt_prefixes@[j]@),
            decreases n - i,
        {
            if text::str_starts_with(path, self.exempt_prefixes[i].as_str()) {
                return false;
            }
            i += 1;
        }
        true
    }
}

/// Law: the callback path itself is never behind authentication, whatever
/// the method — the flow that logs a caller in cannot redirect to itself.
pub proof fn lemma_callback_path_exempt(g: RouteGuard, method: Method)
    ensures
        !g.spec_requires_auth(g.spec_callback_path(), method),
{
    assert(text::spec_starts_with(g.spec_callback_path(), g.spec_callback_path()));
}

} // verus!
