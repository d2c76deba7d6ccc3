use vstd::prelude::*;
use crate::kv;
use crate::text;
use crate::token::{TokenSet, TokenSetView};

verus! {

/// The ghost value of a [`Session`].
pub struct SessionView {
    pub subject: Seq<char>,
    pub tokens: TokenSetView,
    pub refresh_in_flight: bool,
}

/// What an opaque session identifier maps to: the authenticated subject,
/// the current token set, and the single-flight marker that guards the
/// refresh exchange for this session.
#[derive(Debug)]
pub struct Session {
    pub subject: String,
    pub tokens: TokenSet,
    pub refresh_in_flight: bool,
}

impl View for Session {
    type V = SessionView;

    open spec fn view(&self) -> SessionView {
        SessionView {
            subject: self.subject@,
            tokens: self.tokens@,
            refresh_in_flight: self.refresh_in_flight,
        }
    }
}

/// The process-wide table from session identifier to session: the only
/// mutable shared state of the gateway besides the pending-state table.
pub struct SessionStore {
    entries: Vec<(String, Session)>,
}

/// Deleting a session. Stated as its own function so that its idempotence
/// can be proved once and named.
pub open spec fn spec_delete(
    m: Map<Seq<char>, SessionView>,
    id: Seq<char>,
) -> Map<Seq<char>, SessionView> {
    m.remove(id)
}

/// A session is past its expiry by more than the grace period that covers
/// the refresh-token lifetime: age, not usage, drives eviction.
pub open spec fn spec_evictable(expires_at: u64, now: u64, grace: u64) -> bool {
    now > expires_at + grace
}

/// Applying the outcome of the one in-flight refresh exchange: a validated
/// token set replaces the old one wholesale and releases the slot; a
/// failure destroys the session; a session deleted meanwhile leaves the
/// table unchanged.
pub open spec fn spec_finish_refresh(
    m: Map<Seq<char>, SessionView>,
    id: Seq<char>,
    outcome: Option<TokenSetView>,
) -> Map<Seq<char>, SessionView> {
    if !m.dom().contains(id) {
        m
    } else {
        match outcome {
            Some(ts) => m.insert(
                id,
                SessionView { subject: m[id].subject, tokens: ts, refresh_in_flight: false },
            ),
            None => m.remove(id),
        }
    }
}

/// Claiming the right to refresh a session: granted exactly when the
/// session exists and no refresh is already in flight; granting marks the
/// session, so no second caller can be granted until the first finishes.
pub open spec fn spec_begin_refresh(m: Map<Seq<char>, SessionView>, id: Seq<char>) -> (
    bool,
    Map<Seq<char>, SessionView>,
) {
    if m.dom().contains(id) && !m[id].refresh_in_flight {
        (
            true,
            m.insert(
                id,
                SessionView {
                    subject: m[id].subject,
                    tokens: m[id].tokens,
                    refresh_in_flight: true,
                },
            ),
        )
    } else {
        (false, m)
    }
}

impl SessionStore {
    /// Identifiers are stored at most once.
    pub closed spec fn wf(self) -> bool {
        kv::keys_unique(self.entries@)
    }

    pub fn new() -> (s: SessionStore)
        ensures
            s.wf(),
            s@ =~= Map::<Seq<char>, SessionView>::empty(),
    {
        SessionStore { entries: Vec::new() }
    }

    /// The index holding `id`, if any.
    fn find(&self, id: &str) -> (r: Option<usize>)
        ensures
            match r {
                Some(i) => i < self.entries@.len() && self.entries@[i as int].0@ == id@,
                None => forall|j: int|
                    0 <= j < self.entries@.len() ==> self.entries@[j].0@ != id@,
            },
    {
        let n = self.entries.len();
        let mut i: usize = 0;
        while i < n
            invariant
                n == self.entries@.len(),
                0 <= i <= n,
                forall|j: int| 0 <= j < i ==> self.entries@[j].0@ != id@,
            decreases n - i,
        {
            if text::str_eq(self.entries[i].0.as_str(), id) {
                return Some(i);
            }
            i += 1;
        }
        None
    }

    /// Lookup. Absence is not an error: it is the normal
    /// "unauthenticated" signal.
    pub fn get(&self, id: &str) -> (r: Option<&Session>)
        requires
            self.wf(),
        ensures
            match r {
                Some(s) => self@.dom().contains(id@) && s@ == self@[id@],
                None => !self@.dom().contains(id@),
            },
    {
        match self.find(id) {
            Some(i) => {
                proof {
                    kv::lemma_at_key(self.entries@, i as int);
                }
                Some(&self.entries[i].1)
            },
            None => {
                proof {
                    kv::lemma_absent::<Session>(self.entries@, id@);
                }
                None
            },
        }
    }

    /// Stores a new session under a caller-supplied fresh identifier. The
    /// identifier must come from a source with at least 128 bits of
    /// randomness; freshness against the table is the caller's obligation
    /// and is checkable with [`Self::get`].
    pub fn create(&mut self, id: String, subject: String, tokens: TokenSet)
        requires
            old(self).wf(),
            !old(self)@.dom().contains(id@),
        ensures
            final(self).wf(),
            final(self)@ =~= old(self)@.insert(
                id@,
                (SessionView { subject: subject@, tokens: tokens@, refresh_in_flight: false }),
            ),
    {
        proof {
            if kv::has_key(self.entries@, id@) {
                let i = kv::key_index(self.entries@, id@);
                kv::lemma_at_key(self.entries@, i);
            }
            kv::lemma_push(
                self.entries@,
                (id, Session { subject, tokens, refresh_in_flight: false }),
            );
        }
        let entry = (id, Session { subject, tokens, refresh_in_flight: false });
        self.entries.push(entry);
    }

    /// Removes a session (logout, or an unrecoverable refresh failure).
    /// Removing an identifier that is not present is a no-op.
    pub fn delete(&mut self, id: &str)
        requires
            old(self).wf(),
        ensures
            final(self).wf(),
            final(self)@ =~= spec_delete(old(self)@, id@),
    {
        match self.find(id) {
            Some(i) => {
                proof {
                    kv::lemma_remove(self.entries@, i as int);
                }
                self.entries.remove(i);
            },
            None => {
                proof {
                    kv::lemma_absent::<Session>(self.entries@, id@);
                    assert(self@ =~= spec_delete(self@, id@));
                }
            },
        }
    }

    /// Replaces the stored token set after a successful refresh; a no-op if
    /// the session no longer exists (it may have been evicted meanwhile).
    pub fn update(&mut self, id: &str, tokens: TokenSet)
        requires
            old(self).wf(),
        ensures
            final(self).wf(),
            old(self)@.dom().contains(id@) ==> final(self)@ =~= old(self)@.insert(
                id@,
                (SessionView {
                    subject: old(self)@[id@].subject,
                    tokens: tokens@,
                    refresh_in_flight: old(self)@[id@].refresh_in_flight,
                }),
            ),
            !old(self)@.dom().contains(id@) ==> final(self)@ =~= old(self)@,
    {
        match self.find(id) {
            Some(i) => {
                proof {
                    kv::lemma_at_key(self.entries@, i as int);
                    kv::lemma_remove(self.entries@, i as int);
                }
                let old_entry = self.entries.remove(i);
                let (key, old_session) = old_entry;
                proof {
                    if kv::has_key(self.entries@, key@) {
                        let w = kv::key_index(self.entries@, key@);
                        kv::lemma_at_key(self.entries@, w);
                    }
                    kv::lemma_push(
                        self.entries@,
                        (
                            key,
                            Session {
                                subject: old_session.subject,
                                tokens,
                                refresh_in_flight: old_session.refresh_in_flight,
                            },
                        ),
                    );
                }
                let entry = (
                    key,
                    Session {
                        subject: old_session.subject,
                        tokens,
                        refresh_in_flight: old_session.refresh_in_flight,
                    },
                );
                self.entries.push(entry);
            },
            None => {
                proof {
                    kv::lemma_absent::<Session>(self.entries@, id@);
                }
            },
        }
    }

    /// Claims the single-flight refresh slot for `id`. Returns true exactly
    /// when the session exists and nobody else is refreshing it; the caller
    /// that is granted the slot must finish with [`Self::finish_refresh`].
    pub fn begin_refresh(&mut self, id: &str) -> (granted: bool)
        requires
            old(self).wf(),
        ensures
            final(self).wf(),
            granted == spec_begin_refresh(old(self)@, id@).0,
            final(self)@ =~= spec_begin_refresh(old(self)@, id@).1,
    {
        match self.find(id) {
            Some(i) => {
                proof {
                    kv::lemma_at_key(self.entries@, i as int);
                }
                if self.entries[i].1.refresh_in_flight {
                    false
                } else {
                    proof {
                        kv::lemma_remove(self.entries@, i as int);
                    }
                    let old_entry = self.entries.remove(i);
                    let (key, old_session) = old_entry;
                    proof {
                        if kv::has_key(self.entries@, key@) {
                            let w = kv::key_index(self.entries@, key@);
                            kv::lemma_at_key(self.entries@, w);
                        }
                        kv::lemma_push(
                            self.entries@,
                            (
                                key,
                                Session {
                                    subject: old_session.subject,
                                    tokens: old_session.tokens,
                                    refresh_in_flight: true,
                                },
                            ),
                        );
                    }
                    let entry = (
                        key,
                        Session {
                            subject: old_session.subject,
                            tokens: old_session.tokens,
                            refresh_in_flight: true,
                        },
                    );
                    self.entries.push(entry);
                    true
                }
            },
            None => {
                proof {
                    kv::lemma_absent::<Session>(self.entries@, id@);
                }
                false
            },
        }
    }

    /// Applies the outcome of the one in-flight refresh exchange for `id`:
    /// a validated token set replaces the old one and the slot is released;
    /// a failed refresh destroys the session, forcing a full authorization
    /// flow. A session deleted meanwhile leaves the table unchanged.
    pub fn finish_refresh(&mut self, id: &str, outcome: Option<TokenSet>)
        requires
            old(self).wf(),
        ensures
            final(self).wf(),
            final(self)@ =~= spec_finish_refresh(
                old(self)@,
                id@,
                match outcome {
                    Some(ref ts) => Some(ts@),
                    None => None,
                },
            ),
    {
        match self.find(id) {
            Some(i) => {
                proof {
                    kv::lemma_at_key(self.entries@, i as int);
                    kv::lemma_remove(self.entries@, i as int);
                }
                let old_entry = self.entries.remove(i);
                let (key, old_session) = old_entry;
                match outcome {
                    Some(tokens) => {
                        proof {
                            if kv::has_key(self.entries@, key@) {
                                let w = kv::key_index(self.entries@, key@);
                                kv::lemma_at_key(self.entries@, w);
                            }
                            kv::lemma_push(
                                self.entries@,
                                (
                                    key,
                                    Session {
                                        subject: old_session.subject,
                                        tokens,
                                        refresh_in_flight: false,
                                    },
                                ),
                            );
                        }
                        let entry = (
                            key,
                            Session {
                                subject: old_session.subject,
                                tokens,
                                refresh_in_flight: false,
                            },
                        );
                        self.entries.push(entry);
                    },
                    None => {},
                }
            },
            None => {
                proof {
                    kv::lemma_absent::<Session>(self.entries@, id@);
                }
            },
        }
    }
    /// The periodic sweep of the caching-style eviction policy: every
    /// session whose expiry lies more than `grace` seconds in the past is
    /// purged; every other session survives untouched.
    pub fn evict_expired(&mut self, now: u64, grace: u64)
        requires
            old(self).wf(),
        ensures
            final(self).wf(),
            forall|k: Seq<char>|
                #![trigger final(self)@.dom().contains(k)]
                #![trigger old(self)@.dom().contains(k)]
                final(self)@.dom().contains(k) <==> (old(self)@.dom().contains(k)
                    && !spec_evictable(old(self)@[k].tokens.expires_at, now, grace)),
            forall|k: Seq<char>| #[trigger]
                final(self)@.dom().contains(k) ==> final(self)@[k] == old(self)@[k],
    {
        let ghost orig = self.entries@;
        let mut i: usize = 0;
        while i < self.entries.len()
            invariant
                kv::keys_unique(orig),
                kv::keys_unique(self.entries@),
                0 <= i <= self.entries@.len(),
                forall|k: Seq<char>| #[trigger]
                    kv::map_of(self.entries@).dom().contains(k) ==> kv::map_of(
                        orig,
                    ).dom().contains(k) && kv::map_of(self.entries@)[k] == kv::map_of(orig)[k],
                forall|k: Seq<char>| #[trigger]
                    kv::map_of(orig).dom().contains(k) && !spec_evictable(
                        kv::map_of(orig)[k].tokens.expires_at,
                        now,
                        grace,
                    ) ==> kv::map_of(self.entries@).dom().contains(k),
                forall|j: int|
                    0 <= j < i ==> !spec_evictable(
                        #[trigger] self.entries@[j].1.tokens.expires_at,
                        now,
                        grace,
                    ),
            decreases self.entries@.len() - i,
        {
            let expires_at = self.entries[i].1.tokens.expires_at;
            let evict = now > expires_at && now - expires_at > grace;
            if evict {
                proof {
                    let ghost cur = self.entries@;
                    kv::lemma_at_key(cur, i as int);
                    kv::lemma_remove(cur, i as int);
                    let k0 = cur[i as int].0@;
                    assert forall|k: Seq<char>| #[trigger]
                        kv::map_of(orig).dom().contains(k) && !spec_evictable(
                            kv::map_of(orig)[k].tokens.expires_at,
                            now,
                            grace,
                        ) implies kv::map_of(cur.remove(i as int)).dom().contains(k) by {
                        assert(kv::map_of(cur).dom().contains(k));
                        if k == k0 {
                            assert(kv::map_of(cur)[k] == cur[i as int].1@);
                            assert(spec_evictable(
                                kv::map_of(orig)[k].tokens.expires_at,
                                now,
                                grace,
                            ));
                        }
                    }
                }
                self.entries.remove(i);
            } else {
                i += 1;
            }
        }
        proof {
            let fin = self.entries@;
            assert forall|k: Seq<char>| #[trigger]
                kv::map_of(fin).dom().contains(k) implies !spec_evictable(
                kv::map_of(fin)[k].tokens.expires_at,
                now,
                grace,
            ) by {
                let j = kv::key_index(fin, k);
                kv::lemma_at_key(fin, j);
            }
        }
    }
}

impl View for SessionStore {
    type V = Map<Seq<char>, SessionView>;

    closed spec fn view(&self) -> Map<Seq<char>, SessionView> {
        kv::map_of(self.entries@)
    }
}

/// Law: a second delete of the same identifier is a no-op — deleting is
/// idempotent, and on a table that does not hold the identifier it changes
/// nothing at all.
pub proof fn lemma_delete_idempotent(m: Map<Seq<char>, SessionView>, id: Seq<char>)
    ensures
        spec_delete(spec_delete(m, id), id) =~= spec_delete(m, id),
        !m.dom().contains(id) ==> spec_delete(m, id) =~= m,
{
}

/// Law (single flight): once a caller has been granted the refresh slot
/// for a session, no further caller is granted it, and a denied attempt
/// changes nothing — so however many requests race on the same expired
/// session, every attempt after the winner's is denied in turn, and at
/// most one refresh exchange is issued until the winner finishes.
pub proof fn lemma_refresh_single_flight(m: Map<Seq<char>, SessionView>, id: Seq<char>)
    ensures
        spec_begin_refresh(m, id).0 ==> !spec_begin_refresh(spec_begin_refresh(m, id).1, id).0,
        !spec_begin_refresh(m, id).0 ==> spec_begin_refresh(m, id).1 == m,
{
}

/// Law (single flight, completion): once the winner's exchange lands with
/// a validated token set, every request for the session observes exactly
/// that token set, under the original subject, with the slot released —
/// and a later expiry can be granted a refresh again. A failed exchange
/// leaves no session behind.
pub proof fn lemma_refresh_completion_observed(
    m: Map<Seq<char>, SessionView>,
    id: Seq<char>,
    ts: TokenSetView,
)
    requires
        m.dom().contains(id),
    ensures
        ({
            let after = spec_finish_refresh(spec_begin_refresh(m, id).1, id, Some(ts));
            &&& after.dom().contains(id)
            &&& after[id].tokens == ts
            &&& after[id].subject == m[id].subject
            &&& !after[id].refresh_in_flight
            &&& spec_begin_refresh(after, id).0
        }),
        !spec_finish_refresh(spec_begin_refresh(m, id).1, id, None).dom().contains(id),
{
}

} // verus!
