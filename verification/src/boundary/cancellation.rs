//! Cooperative cancellation tokens and the registry that finds them by session.

use vstd::prelude::*;
use std::sync::Arc;
use std::sync::atomic::AtomicBool;
use crate::text::str_eq;

verus! {

/// A shared flag that work loops poll; every clone observes the same flag.
#[derive(Clone, Debug)]
pub struct CancellationToken {
    cancelled: Arc<AtomicBool>,
}

impl CancellationToken {
    /// A token that has not been cancelled.
    pub fn new() -> (t: Self) {
        CancellationToken { cancelled: Arc::new(AtomicBool::new(false)) }
    }

    /// Raises the flag; every clone of this token then reports cancellation.
    pub fn cancel(&self) {
        self.cancelled.store(true, std::sync::atomic::Ordering::SeqCst);
    }

    /// Whether the flag has been raised. Another thread may raise it at any time, so
    /// nothing is stated of the answer.
    pub fn is_cancelled(&self) -> bool {
        self.cancelled.load(std::sync::atomic::Ordering::SeqCst)
    }
}

/// Tokens registered by session identifier.
#[derive(Debug)]
pub struct CancellationRegistry {
    tokens: Vec<(String, CancellationToken)>,
}

/// The first position whose session identifier is `id`.
pub open spec fn session_index(ids: Seq<Seq<char>>, id: Seq<char>, i: int) -> Option<int>
    decreases ids.len() - i,
{
    if i < 0 || i >= ids.len() {
        None
    } else if ids[i] == id {
        Some(i)
    } else {
        session_index(ids, id, i + 1)
    }
}

/// Removes every occurrence of `id`.
pub open spec fn without_session(ids: Seq<Seq<char>>, id: Seq<char>) -> Seq<Seq<char>> {
    ids.filter(|x: Seq<char>| x != id)
}

impl CancellationRegistry {
    /// The registered session identifiers, each once.
    pub closed spec fn sessions(&self) -> Seq<Seq<char>> {
        self.tokens@.map_values(|e: (String, CancellationToken)| e.0@)
    }

    /// Whether `id` is registered.
    pub open spec fn is_registered(&self, id: Seq<char>) -> bool {
        self.sessions().contains(id)
    }

    /// No session is registered twice.
    pub open spec fn wf(&self) -> bool {
        self.sessions().no_duplicates()
    }

    pub fn new() -> (r: Self)
        ensures
            r.wf(),
            r.sessions() == Seq::<Seq<char>>::empty(),
    {
        let r = CancellationRegistry { tokens: Vec::new() };
        assert(r.sessions() =~= Seq::<Seq<char>>::empty());
        r
    }

    fn position(&self, session_id: &str) -> (r: Option<usize>)
        ensures
            match r {
                Some(k) => k < self.sessions().len() && self.sessions()[k as int] == session_id@,
                None => !self.sessions().contains(session_id@),
            },
    {
        let mut i: usize = 0;
        while i < self.tokens.len()
            invariant
                i <= self.tokens@.len(),
                self.sessions().len() == self.tokens@.len(),
                forall|j: int| 0 <= j < i ==> #[trigger] self.sessions()[j] != session_id@,
            decreases self.tokens@.len() - i,
        {
            assert(self.sessions()[i as int] == self.tokens@[i as int].0@);
            if str_eq(self.tokens[i].0.as_str(), session_id) {
                return Some(i);
            }
            i = i + 1;
        }
        None
    }

    /// Registers a fresh token for the session, replacing any earlier one, and returns it.
    pub fn register(&mut self, session_id: &str) -> (token: CancellationToken)
        requires
            old(self).wf(),
        ensures
            final(self).wf(),
            final(self).is_registered(session_id@),
            forall|x: Seq<char>| #[trigger] final(self).is_registered(x) <==> (old(self).is_registered(x) || x == session_id@),
    {
        let token = CancellationToken::new();
        let stored = token.clone();
        let ghost before = self.sessions();
        match self.position(session_id) {
            Some(k) => {
                self.tokens.set(k, (crate::text::owned(session_id), stored));
                assert(self.sessions() =~= before.update(k as int, session_id@));
                assert forall|x: Seq<char>| #[trigger] self.sessions().contains(x) <==> (before.contains(x) || x == session_id@) by {
                    assert(self.sessions()[k as int] == session_id@);
                    if before.contains(x) {
                        let j = choose|j: int| 0 <= j < before.len() && before[j] == x;
                        if j != k {
                            assert(self.sessions()[j] == x);
                        }
                    }
                    if self.sessions().contains(x) {
                        let j = choose|j: int| 0 <= j < self.sessions().len() && self.sessions()[j] == x;
                        if j != k {
                            assert(before[j] == x);
                        }
                    }
                }
            },
            None => {
                self.tokens.push((crate::text::owned(session_id), stored));
                assert(self.sessions() =~= before.push(session_id@));
                assert forall|x: Seq<char>| #[trigger] self.sessions().contains(x) <==> (before.contains(x) || x == session_id@) by {
                    assert(self.sessions()[before.len() as int] == session_id@);
                    if self.sessions().contains(x) {
                        let j = choose|j: int| 0 <= j < self.sessions().len() && self.sessions()[j] == x;
                        if j < before.len() {
                            assert(before[j] == x);
                        }
                    }
                    if before.contains(x) {
                        let j = choose|j: int| 0 <= j < before.len() && before[j] == x;
                        assert(self.sessions()[j] == x);
                    }
                }
            },
        }
        token
    }

    /// The session's token, shared with the registry, where the session is registered.
    pub fn get(&self, session_id: &str) -> (token: Option<CancellationToken>)
        ensures
            token is Some <==> self.is_registered(session_id@),
    {
        match self.position(session_id) {
            Some(k) => Some(self.tokens[k].1.clone()),
            None => None,
        }
    }

    /// Cancels the session's token; returns whether the session was registered.
    pub fn cancel(&self, session_id: &str) -> (found: bool)
        ensures
            found == self.is_registered(session_id@),
    {
        match self.position(session_id) {
            Some(k) => {
                self.tokens[k].1.cancel();
                true
            },
            None => false,
        }
    }

    /// Forgets the session's token.
    pub fn unregister(&mut self, session_id: &str)
        requires
            old(self).wf(),
        ensures
            final(self).wf(),
            !final(self).is_registered(session_id@),
            forall|x: Seq<char>| x != session_id@ ==> (#[trigger] final(self).is_registered(x) <==> old(self).is_registered(x)),
    {
        let ghost before = self.sessions();
        match self.position(session_id) {
            Some(k) => {
                let ghost tokens_before = self.tokens@;
                self.tokens.remove(k);
                assert(self.sessions() =~= before.remove(k as int));
                assert forall|x: Seq<char>| #[trigger] self.sessions().contains(x) <==> (before.contains(x) && x != session_id@) by {
                    if self.sessions().contains(x) {
                        let j = choose|j: int| 0 <= j < self.sessions().len() && self.sessions()[j] == x;
                        if j < k {
                            assert(before[j] == x);
                        } else {
                            assert(before[j + 1] == x);
                        }
                    }
                    if before.contains(x) && x != session_id@ {
                        let j = choose|j: int| 0 <= j < before.len() && before[j] == x;
                        if j < k {
                            assert(self.sessions()[j] == x);
                        } else {
                            assert(j != k);
                            assert(self.sessions()[j - 1] == x);
                        }
                    }
                }
                assert(self.sessions().no_duplicates()) by {
                    assert forall|a: int, b: int| 0 <= a < b < self.sessions().len() implies self.sessions()[a] != self.sessions()[b] by {
                        let a2 = if a < k { a } else { a + 1 };
                        let b2 = if b < k { b } else { b + 1 };
                        assert(self.sessions()[a] == before[a2]);
                        assert(self.sessions()[b] == before[b2]);
                    }
                }
            },
            None => {},
        }
    }
}

/// A session that was just registered is found by `cancel`, and one that was just
/// unregistered is not: cancellation is never silently dropped for a live session.
pub proof fn law_registered_session_is_cancellable(before: CancellationRegistry, after: CancellationRegistry, id: Seq<char>)
    requires
        forall|x: Seq<char>| #[trigger] after.is_registered(x) <==> (before.is_registered(x) || x == id),
    ensures
        after.is_registered(id),
{
}

} // verus!
