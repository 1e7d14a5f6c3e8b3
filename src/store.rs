//! Session-scoped storage of in-flight authorization attempts, with expiry.
use vstd::prelude::*;
use crate::errors::FlowError;
use crate::primitives::{str_eq, FlowModel, OAuthSessionState};

verus! {

/// How long, in seconds, a stored flow stays reachable.
pub const FLOW_TTL_SECS: u64 = 3600;

/// One stored flow, as values.
pub struct StoredFlow {
    pub session: Seq<char>,
    pub flow: FlowModel,
    pub stored_at: u64,
}

/// Whether a flow stored at `e.stored_at` is still reachable at `now`.
pub open spec fn is_live(e: StoredFlow, now: u64) -> bool {
    now < e.stored_at + FLOW_TTL_SECS
}

/// Index of the entry of `session`.
pub open spec fn position_of(s: Seq<StoredFlow>, session: Seq<char>) -> Option<int>
    decreases s.len(),
{
    if s.len() == 0 {
        None
    } else if s.last().session == session {
        Some(s.len() - 1)
    } else {
        position_of(s.drop_last(), session)
    }
}

/// Index of an entry that has expired at `now`: the latest such entry.
pub open spec fn expired_position(s: Seq<StoredFlow>, now: u64) -> Option<int>
    decreases s.len(),
{
    if s.len() == 0 {
        None
    } else if !is_live(s.last(), now) {
        Some(s.len() - 1)
    } else {
        expired_position(s.drop_last(), now)
    }
}

/// Each session holds at most one entry.
pub open spec fn sessions_unique(s: Seq<StoredFlow>) -> bool {
    forall|i: int, j: int| 0 <= i < j < s.len() ==> s[i].session != s[j].session
}

/// The flow that `session` can still reach at `now`.
pub open spec fn reachable(s: Seq<StoredFlow>, session: Seq<char>, now: u64) -> Option<FlowModel> {
    match position_of(s, session) {
        Some(i) => if is_live(s[i], now) {
            Some(s[i].flow)
        } else {
            None
        },
        None => None,
    }
}

/// `take`: the reachable flow, and the entries with that session's entry removed
/// whether or not it was still reachable.
pub open spec fn take_outcome(s: Seq<StoredFlow>, session: Seq<char>, now: u64) -> (Option<FlowModel>, Seq<StoredFlow>) {
    (
        reachable(s, session, now),
        match position_of(s, session) {
            Some(i) => s.remove(i),
            None => s,
        },
    )
}

/// `put`: the session's entry is replaced in place; a new session is appended
/// while there is room, else in place of an expired entry; with neither, the
/// write is refused.
pub open spec fn put_outcome(
    s: Seq<StoredFlow>,
    capacity: nat,
    session: Seq<char>,
    flow: FlowModel,
    now: u64,
) -> Option<Seq<StoredFlow>> {
    let e = StoredFlow { session, flow, stored_at: now };
    match position_of(s, session) {
        Some(i) => Some(s.update(i, e)),
        None => if s.len() < capacity {
            Some(s.push(e))
        } else {
            match expired_position(s, now) {
                Some(j) => Some(s.remove(j).push(e)),
                None => None,
            }
        },
    }
}

/// `position_of` finds an entry of `session` exactly when there is one.
pub proof fn lemma_position_of(s: Seq<StoredFlow>, session: Seq<char>)
    ensures
        match position_of(s, session) {
            Some(i) => 0 <= i < s.len() && s[i].session == session,
            None => forall|k: int| 0 <= k < s.len() ==> s[k].session != session,
        },
    decreases s.len(),
{
    if s.len() > 0 && s.last().session != session {
        lemma_position_of(s.drop_last(), session);
        assert(forall|k: int| 0 <= k < s.len() - 1 ==> s.drop_last()[k] == s[k]);
    }
}

/// `expired_position` finds an expired entry exactly when there is one.
pub proof fn lemma_expired_position(s: Seq<StoredFlow>, now: u64)
    ensures
        match expired_position(s, now) {
            Some(i) => 0 <= i < s.len() && !is_live(s[i], now),
            None => forall|k: int| 0 <= k < s.len() ==> is_live(s[k], now),
        },
    decreases s.len(),
{
    if s.len() > 0 && is_live(s.last(), now) {
        lemma_expired_position(s.drop_last(), now);
        assert(forall|k: int| 0 <= k < s.len() - 1 ==> s.drop_last()[k] == s[k]);
    }
}

/// A stored flow.
pub struct FlowEntry {
    pub session: String,
    pub state: OAuthSessionState,
    pub stored_at: u64,
}

impl View for FlowEntry {
    type V = StoredFlow;

    open spec fn view(&self) -> StoredFlow {
        StoredFlow { session: self.session@, flow: self.state@, stored_at: self.stored_at }
    }
}

/// The flow-state store: at most one flow per session, at most `capacity`
/// entries, each reachable for `FLOW_TTL_SECS` seconds after it was stored.
pub struct FlowStore {
    pub entries: Vec<FlowEntry>,
    pub capacity: usize,
}

impl View for FlowStore {
    type V = Seq<StoredFlow>;

    open spec fn view(&self) -> Seq<StoredFlow> {
        self.entries@.map_values(|e: FlowEntry| e@)
    }
}

impl FlowStore {
    pub open spec fn wf(&self) -> bool {
        sessions_unique(self@) && self@.len() <= self.capacity
    }

    /// An empty store with room for `capacity` sessions.
    pub fn new(capacity: usize) -> (r: Self)
        ensures
            r@ == Seq::<StoredFlow>::empty(),
            r.capacity == capacity,
            r.wf(),
    {
        let r = FlowStore { entries: Vec::new(), capacity };
        assert(r@ =~= Seq::<StoredFlow>::empty());
        r
    }

    fn position(&self, session: &str) -> (r: Option<usize>)
        ensures
            match r {
                Some(i) => position_of(self@, session@) == Some(i as int),
                None => position_of(self@, session@) is None,
            },
    {
        let mut found: Option<usize> = None;
        let mut i: usize = 0;
        while i < self.entries.len()
            invariant
                i <= self.entries@.len(),
                match found {
                    Some(k) => position_of(self@.subrange(0, i as int), session@) == Some(k as int),
                    None => position_of(self@.subrange(0, i as int), session@) is None,
                },
            decreases self.entries@.len() - i,
        {
            assert(self@.subrange(0, i as int + 1).drop_last() =~= self@.subrange(0, i as int));
            if str_eq(self.entries[i].session.as_str(), session) {
                found = Some(i);
            }
            i = i + 1;
        }
        assert(self@.subrange(0, self@.len() as int) =~= self@);
        found
    }

    fn expired(&self, now: u64) -> (r: Option<usize>)
        ensures
            match r {
                Some(i) => expired_position(self@, now) == Some(i as int),
                None => expired_position(self@, now) is None,
            },
    {
        let mut found: Option<usize> = None;
        let mut i: usize = 0;
        while i < self.entries.len()
            invariant
                i <= self.entries@.len(),
                match found {
                    Some(k) => expired_position(self@.subrange(0, i as int), now) == Some(k as int),
                    None => expired_position(self@.subrange(0, i as int), now) is None,
                },
            decreases self.entries@.len() - i,
        {
            assert(self@.subrange(0, i as int + 1).drop_last() =~= self@.subrange(0, i as int));
            let stored_at = self.entries[i].stored_at;
            let live = now < stored_at || now - stored_at < FLOW_TTL_SECS;
            if !live {
                found = Some(i);
            }
            i = i + 1;
        }
        assert(self@.subrange(0, self@.len() as int) =~= self@);
        found
    }

    /// Stores `state` as the flow of `session` at time `now`, replacing any
    /// earlier flow of that session.
    pub fn put(&mut self, session: String, state: OAuthSessionState, now: u64) -> (r: Result<(), FlowError>)
        requires
            old(self).wf(),
        ensures
            final(self).wf(),
            final(self).capacity == old(self).capacity,
            match put_outcome(old(self)@, old(self).capacity as nat, session@, state@, now) {
                Some(s) => r is Ok && final(self)@ == s,
                None => r == Err::<(), FlowError>(FlowError::SessionWriteFailed) && final(self)@ == old(self)@,
            },
    {
        proof {
            lemma_position_of(self@, session@);
            lemma_expired_position(self@, now);
        }
        let ghost s = self@;
        let ghost e = StoredFlow { session: session@, flow: state@, stored_at: now };
        match self.position(session.as_str()) {
            Some(i) => {
                self.entries.set(i, FlowEntry { session, state, stored_at: now });
                assert(self@ =~= s.update(i as int, e));
                Ok(())
            },
            None => {
                if self.entries.len() < self.capacity {
                    self.entries.push(FlowEntry { session, state, stored_at: now });
                    assert(self@ =~= s.push(e));
                    Ok(())
                } else {
                    match self.expired(now) {
                        Some(j) => {
                            let _ = self.entries.remove(j);
                            self.entries.push(FlowEntry { session, state, stored_at: now });
                            assert(self@ =~= s.remove(j as int).push(e));
                            Ok(())
                        },
                        None => Err(FlowError::SessionWriteFailed),
                    }
                }
            },
        }
    }

    /// Removes the flow of `session` and returns it if it is still reachable
    /// at `now`. An expired entry is removed too, and nothing is returned.
    pub fn take(&mut self, session: &str, now: u64) -> (r: Option<OAuthSessionState>)
        requires
            old(self).wf(),
        ensures
            final(self).wf(),
            final(self).capacity == old(self).capacity,
            (match r {
                Some(st) => Some(st@),
                None => None,
            }) == take_outcome(old(self)@, session@, now).0,
            final(self)@ == take_outcome(old(self)@, session@, now).1,
    {
        proof {
            lemma_position_of(self@, session@);
        }
        let ghost s = self@;
        match self.position(session) {
            Some(i) => {
                let entry = self.entries.remove(i);
                assert(self@ =~= s.remove(i as int));
                let live = now < entry.stored_at || now - entry.stored_at < FLOW_TTL_SECS;
                if live {
                    Some(entry.state)
                } else {
                    None
                }
            },
            None => None,
        }
    }
}

} // verus!

verus! {

/// An accepted `put` keeps one entry per session, and the session's entry
/// is then the new flow, stored at `now`.
pub proof fn lemma_put_stores(s: Seq<StoredFlow>, capacity: nat, session: Seq<char>, flow: FlowModel, now: u64)
    requires
        sessions_unique(s),
        put_outcome(s, capacity, session, flow, now) is Some,
    ensures
        ({
            let s2 = put_outcome(s, capacity, session, flow, now)->Some_0;
            &&& sessions_unique(s2)
            &&& position_of(s2, session) is Some
            &&& s2[position_of(s2, session)->Some_0] == StoredFlow { session, flow, stored_at: now }
        }),
{
    let e = StoredFlow { session, flow, stored_at: now };
    let s2 = put_outcome(s, capacity, session, flow, now)->Some_0;
    lemma_position_of(s, session);
    lemma_expired_position(s, now);
    let k = match position_of(s, session) {
        Some(i) => i,
        None => s2.len() - 1,
    };
    match position_of(s, session) {
        Some(i) => {
            assert(s2 == s.update(i, e));
        },
        None => {
            if s.len() < capacity {
                assert(s2 == s.push(e));
            } else {
                let j = expired_position(s, now)->Some_0;
                assert(s2 == s.remove(j).push(e));
                assert(forall|a: int| 0 <= a < s2.len() - 1 ==> s2[a] == s.remove(j)[a]);
            }
        },
    }
    assert(s2[k] == e);
    assert(sessions_unique(s2));
    lemma_position_of(s2, session);
}

/// A stored flow is reachable at the moment it is stored, and no longer once
/// `FLOW_TTL_SECS` seconds have passed.
pub proof fn lemma_flow_expires(
    s: Seq<StoredFlow>,
    capacity: nat,
    session: Seq<char>,
    flow: FlowModel,
    stored_at: u64,
    later: u64,
)
    requires
        sessions_unique(s),
        put_outcome(s, capacity, session, flow, stored_at) is Some,
        later >= stored_at + FLOW_TTL_SECS,
    ensures
        take_outcome(put_outcome(s, capacity, session, flow, stored_at)->Some_0, session, stored_at).0
            == Some(flow),
        take_outcome(put_outcome(s, capacity, session, flow, stored_at)->Some_0, session, later).0 is None,
{
    lemma_put_stores(s, capacity, session, flow, stored_at);
}

/// Once `take` has run for a session, a second `take` for it finds nothing,
/// whatever the first returned.
pub proof fn lemma_take_consumes(s: Seq<StoredFlow>, session: Seq<char>, now: u64, later: u64)
    requires
        sessions_unique(s),
    ensures
        take_outcome(take_outcome(s, session, now).1, session, later).0 is None,
        sessions_unique(take_outcome(s, session, now).1),
{
    let rest = take_outcome(s, session, now).1;
    lemma_position_of(s, session);
    match position_of(s, session) {
        Some(i) => {
            assert(forall|a: int| 0 <= a < rest.len() ==> rest[a] == (if a < i { s[a] } else { s[a + 1] }));
            assert forall|a: int| 0 <= a < rest.len() implies rest[a].session != session by {
                if a < i {
                    assert(s[a].session != s[i].session);
                } else {
                    assert(s[i].session != s[a + 1].session);
                }
            }
        },
        None => {},
    }
    lemma_position_of(rest, session);
}

} // verus!
