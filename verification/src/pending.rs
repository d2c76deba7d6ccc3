use vstd::prelude::*;
use crate::kv;
use crate::text;

verus! {

/// How long an issued `state` stays redeemable, in seconds. Past this
/// window the value is treated as invalid even if never used.
pub const STATE_LIFETIME_SECONDS: u64 = 600;

/// The ghost value of an [`AuthorizationRequestState`].
pub struct AuthorizationRequestView {
    pub nonce: Seq<char>,
    pub created_at: u64,
    pub original_uri: Seq<char>,
}

/// What a pending `state` token is correlated with: the `nonce` issued
/// alongside it, when the redirect was issued, and the resource the caller
/// originally asked for. The `state` token itself is the key under which
/// this record is stored; both values must be cryptographically random and
/// the record is destroyed after a single use.
#[derive(Debug)]
pub struct AuthorizationRequestState {
    pub nonce: String,
    pub created_at: u64,
    pub original_uri: String,
}

impl View for AuthorizationRequestState {
    type V = AuthorizationRequestView;

    open spec fn view(&self) -> AuthorizationRequestView {
        AuthorizationRequestView {
            nonce: self.nonce@,
            created_at: self.created_at,
            original_uri: self.original_uri@,
        }
    }
}

/// An issued `state` is still redeemable at time `now`.
pub open spec fn spec_state_live(created_at: u64, now: u64) -> bool {
    now <= created_at + STATE_LIFETIME_SECONDS
}

/// Consuming a `state`: the record leaves the table whether it was live or
/// expired, and is handed back only if it was live. A `state` the table
/// does not hold yields nothing and changes nothing.
pub open spec fn spec_take(
    m: Map<Seq<char>, AuthorizationRequestView>,
    state: Seq<char>,
    now: u64,
) -> (Option<AuthorizationRequestView>, Map<Seq<char>, AuthorizationRequestView>) {
    if m.dom().contains(state) {
        if spec_state_live(m[state].created_at, now) {
            (Some(m[state]), m.remove(state))
        } else {
            (None, m.remove(state))
        }
    } else {
        (None, m)
    }
}

/// The table of authorization requests awaiting their callback, keyed by
/// the `state` token carried in the redirect.
pub struct PendingStates {
    entries: Vec<(String, AuthorizationRequestState)>,
}

impl PendingStates {
    /// `state` tokens are stored at most once.
    pub closed spec fn wf(self) -> bool {
        kv::keys_unique(self.entries@)
    }

    pub fn new() -> (p: PendingStates)
        ensures
            p.wf(),
            p@ =~= Map::<Seq<char>, AuthorizationRequestView>::empty(),
    {
        PendingStates { entries: Vec::new() }
    }

    fn find(&self, state: &str) -> (r: Option<usize>)
        ensures
            match r {
                Some(i) => i < self.entries@.len() && self.entries@[i as int].0@ == state@,
                None => forall|j: int|
                    0 <= j < self.entries@.len() ==> self.entries@[j].0@ != state@,
            },
    {
        let n = self.entries.len();
        let mut i: usize = 0;
        while i < n
            invariant
                n == self.entries@.len(),
                0 <= i <= n,
                forall|j: int| 0 <= j < i ==> self.entries@[j].0@ != state@,
            decreases n - i,
        {
            if text::str_eq(self.entries[i].0.as_str(), state) {
                return Some(i);
            }
            i += 1;
        }
        None
    }

    /// Whether `state` is currently pending.
    pub fn contains(&self, state: &str) -> (r: bool)
        requires
            self.wf(),
        ensures
            r == self@.dom().contains(state@),
    {
        match self.find(state) {
            Some(i) => {
                proof {
                    kv::lemma_at_key(self.entries@, i as int);
                }
                true
            },
            None => {
                proof {
                    kv::lemma_absent::<AuthorizationRequestState>(self.entries@, state@);
                }
                false
            },
        }
    }

    /// Records a freshly issued authorization request under its `state`
    /// token. The token must be fresh randomness; freshness against the
    /// table is checkable with [`Self::contains`].
    pub fn insert(&mut self, state: String, request: AuthorizationRequestState)
        requires
            old(self).wf(),
            !old(self)@.dom().contains(state@),
        ensures
            final(self).wf(),
            final(self)@ =~= old(self)@.insert(state@, request@),
    {
        proof {
            if kv::has_key(self.entries@, state@) {
                let i = kv::key_index(self.entries@, state@);
                kv::lemma_at_key(self.entries@, i);
            }
            kv::lemma_push(self.entries@, (state, request));
        }
        let entry = (state, request);
        self.entries.push(entry);
    }

    /// Consumes a `state`: single use, lazily purging an expired record.
    /// Returns the pending request exactly when `state` was pending and
    /// still within its lifetime.
    pub fn take(&mut self, state: &str, now: u64) -> (r: Option<AuthorizationRequestState>)
        requires
            old(self).wf(),
        ensures
            final(self).wf(),
            final(self)@ =~= spec_take(old(self)@, state@, now).1,
            match r {
                Some(a) => spec_take(old(self)@, state@, now).0 == Some(a@),
                None => spec_take(old(self)@, state@, now).0 is None,
            },
    {
        match self.find(state) {
            Some(i) => {
                proof {
                    kv::lemma_at_key(self.entries@, i as int);
                    kv::lemma_remove(self.entries@, i as int);
                }
                let entry = self.entries.remove(i);
                let (_, request) = entry;
                let live = if now >= request.created_at {
                    now - request.created_at <= STATE_LIFETIME_SECONDS
                } else {
                    true
                };
                if live {
                    Some(request)
                } else {
                    None
                }
            },
            None => {
                proof {
                    kv::lemma_absent::<AuthorizationRequestState>(self.entries@, state@);
                }
                None
            },
        }
    }
}

impl View for PendingStates {
    type V = Map<Seq<char>, AuthorizationRequestView>;

    closed spec fn view(&self) -> Map<Seq<char>, AuthorizationRequestView> {
        kv::map_of(self.entries@)
    }
}

/// Law (single use): once a `state` has been consumed — at any time, live
/// or expired — a replay of the same `state` finds nothing, whatever time
/// it arrives at, and leaves the table as it was.
pub proof fn lemma_state_single_use(
    m: Map<Seq<char>, AuthorizationRequestView>,
    state: Seq<char>,
    now1: u64,
    now2: u64,
)
    requires
        m.dom().contains(state),
    ensures
        spec_take(spec_take(m, state, now1).1, state, now2).0 is None,
        spec_take(spec_take(m, state, now1).1, state, now2).1 =~= spec_take(m, state, now1).1,
{
}

} // verus!
