//! The progress façade: stores every event per entity in arrival order,
//! answers queries for the latest and the full history, and tears down the
//! subscription of an entity once a terminal event for it arrives.
//!
//! The caller drains decoded events from the connection and feeds them to
//! `process_event`; everything here is the decision and bookkeeping half of
//! that loop.

use vstd::prelude::*;

use crate::error::SubscriptionError;
use crate::progress::{event_equiv, ChannelType, ProgressEvent};
use crate::registry::{apply_op, RegOp, Subscription};
use crate::websocket::{
    ClientMessage, ConnectionState, ReconnectStep, StreamConnection, WebSocketConfig,
};

verus! {

/// The per-entity event history of one entity.
#[derive(Debug)]
struct EventLogEntry {
    id: u128,
    events: Vec<ProgressEvent>,
}

/// Append-only event histories, one per entity id, each in arrival order.
#[derive(Debug)]
pub struct EventLog {
    entries: Vec<EventLogEntry>,
}

impl EventLog {
    /// Some history exists for the id.
    pub closed spec fn has_id(&self, id: u128) -> bool {
        exists|i: int| 0 <= i < self.entries@.len() && self.entries@[i].id == id
    }

    /// The position of the id's history.
    pub closed spec fn id_index(&self, id: u128) -> int {
        choose|i: int| 0 <= i < self.entries@.len() && self.entries@[i].id == id
    }

    /// The events recorded for the id, in arrival order; empty if none.
    pub closed spec fn log_of(&self, id: u128) -> Seq<ProgressEvent> {
        if self.has_id(id) {
            self.entries@[self.id_index(id)].events@
        } else {
            Seq::empty()
        }
    }

    /// Each id owns at most one history.
    pub closed spec fn wf(&self) -> bool {
        forall|i: int, j: int|
            0 <= i < j < self.entries@.len() ==> self.entries@[i].id != self.entries@[j].id
    }

    /// Creates an empty log.
    pub fn new() -> (r: Self)
        ensures
            r.wf(),
            forall|id: u128| r.log_of(id) == Seq::<ProgressEvent>::empty(),
    {
        EventLog { entries: Vec::new() }
    }

    /// Appends one event to the id's history, creating the history if it is
    /// the id's first event. No other history changes, and nothing is ever
    /// removed.
    pub fn append(&mut self, id: u128, ev: ProgressEvent)
        requires
            old(self).wf(),
        ensures
            final(self).wf(),
            final(self).log_of(id) == old(self).log_of(id).push(ev),
            forall|o: u128| o != id ==> final(self).log_of(o) == old(self).log_of(o),
    {
        let n = self.entries.len();
        let mut i: usize = 0;
        while i < n
            invariant
                n == self.entries@.len(),
                i <= n,
                forall|j: int| 0 <= j < i ==> self.entries@[j].id != id,
                self.entries@ == old(self).entries@,
                old(self).wf(),
            decreases n - i,
        {
            if self.entries[i].id == id {
                let ghost prev = self.entries@;
                proof {
                    assert(prev[i as int].id == id);
                    assert(old(self).has_id(id));
                    let j = old(self).id_index(id);
                    assert(0 <= j < prev.len() && prev[j].id == id);
                    assert(j == i as int);
                }
                self.entries[i].events.push(ev);
                proof {
                    let cur = self.entries@;
                    assert(cur[i as int].id == id);
                    assert(final(self).has_id(id));
                    let j2 = self.id_index(id);
                    assert(0 <= j2 < cur.len() && cur[j2].id == id);
                    assert forall|k: int| 0 <= k < cur.len() && k != i implies cur[k].id != id by {
                        assert(cur[k] == prev[k]);
                    }
                    assert(j2 == i as int);
                    assert(final(self).log_of(id) == old(self).log_of(id).push(ev));
                    assert forall|o: u128| o != id implies final(self).log_of(o) == old(
                        self,
                    ).log_of(o) by {
                        if old(self).has_id(o) {
                            let k = old(self).id_index(o);
                            assert(cur[k].id == o);
                            assert(final(self).has_id(o));
                            let k2 = self.id_index(o);
                            assert(0 <= k2 < cur.len() && cur[k2].id == o);
                            assert(prev[k2].id == o);
                            assert(k2 == k);
                        } else {
                            if final(self).has_id(o) {
                                let k2 = self.id_index(o);
                                assert(prev[k2].id == o);
                            }
                        }
                    }
                }
                return ;
            }
            i = i + 1;
        }
        let ghost prev = self.entries@;
        proof {
            if old(self).has_id(id) {
                let j = old(self).id_index(id);
                assert(0 <= j < prev.len() && prev[j].id == id);
            }
            assert(!old(self).has_id(id));
        }
        let mut events: Vec<ProgressEvent> = Vec::new();
        events.push(ev);
        self.entries.push(EventLogEntry { id, events });
        proof {
            let cur = self.entries@;
            assert(cur[prev.len() as int].id == id);
            assert(final(self).has_id(id));
            let j2 = self.id_index(id);
            assert(0 <= j2 < cur.len() && cur[j2].id == id);
            assert forall|k: int| 0 <= k < prev.len() implies cur[k].id != id by {}
            assert(j2 == prev.len() as int);
            assert(final(self).log_of(id) =~= old(self).log_of(id).push(ev));
            assert forall|o: u128| o != id implies final(self).log_of(o) == old(self).log_of(
                o,
            ) by {
                if old(self).has_id(o) {
                    let k = old(self).id_index(o);
                    assert(cur[k].id == o);
                    assert(final(self).has_id(o));
                    let k2 = self.id_index(o);
                    assert(0 <= k2 < cur.len() && cur[k2].id == o);
                    assert(k2 < prev.len());
                    assert(prev[k2].id == o);
                    assert(k2 == k);
                } else {
                    if final(self).has_id(o) {
                        let k2 = self.id_index(o);
                        assert(k2 < prev.len());
                        assert(prev[k2].id == o);
                    }
                }
            }
        }
    }

    /// A copy of the id's history, in arrival order; empty if none exists.
    pub fn get(&self, id: u128) -> (r: Vec<ProgressEvent>)
        requires
            self.wf(),
        ensures
            r@.len() == self.log_of(id).len(),
            forall|i: int|
                0 <= i < r@.len() ==> event_equiv(#[trigger] &r@[i], &self.log_of(id)[i]),
    {
        let n = self.entries.len();
        let mut i: usize = 0;
        while i < n
            invariant
                n == self.entries@.len(),
                i <= n,
                forall|j: int| 0 <= j < i ==> self.entries@[j].id != id,
                self.wf(),
            decreases n - i,
        {
            if self.entries[i].id == id {
                proof {
                    assert(self.has_id(id));
                    let j = self.id_index(id);
                    assert(0 <= j < self.entries@.len() && self.entries@[j].id == id);
                    assert(j == i as int);
                }
                let source = &self.entries[i].events;
                let m = source.len();
                let mut out: Vec<ProgressEvent> = Vec::new();
                let mut k: usize = 0;
                while k < m
                    invariant
                        m == source@.len(),
                        k <= m,
                        out@.len() == k,
                        forall|q: int|
                            0 <= q < k ==> event_equiv(#[trigger] &out@[q], &source@[q]),
                    decreases m - k,
                {
                    out.push(source[k].clone());
                    k = k + 1;
                }
                return out;
            }
            i = i + 1;
        }
        proof {
            if self.has_id(id) {
                let j = self.id_index(id);
                assert(self.entries@[j].id == id);
            }
        }
        Vec::new()
    }

    /// A copy of the most recent event for the id, if any.
    pub fn latest(&self, id: u128) -> (r: Option<ProgressEvent>)
        requires
            self.wf(),
        ensures
            match r {
                Some(e) => self.log_of(id).len() > 0 && event_equiv(&e, &self.log_of(id).last()),
                None => self.log_of(id).len() == 0,
            },
    {
        let n = self.entries.len();
        let mut i: usize = 0;
        while i < n
            invariant
                n == self.entries@.len(),
                i <= n,
                forall|j: int| 0 <= j < i ==> self.entries@[j].id != id,
                self.wf(),
            decreases n - i,
        {
            if self.entries[i].id == id {
                proof {
                    assert(self.has_id(id));
                    let j = self.id_index(id);
                    assert(0 <= j < self.entries@.len() && self.entries@[j].id == id);
                    assert(j == i as int);
                }
                let source = &self.entries[i].events;
                if source.len() > 0 {
                    return Some(source[source.len() - 1].clone());
                } else {
                    return None;
                }
            }
            i = i + 1;
        }
        proof {
            if self.has_id(id) {
                let j = self.id_index(id);
                assert(self.entries@[j].id == id);
            }
        }
        None
    }
}

/// The entity ids currently tracked, each with the channel type its
/// subscription went out under.
#[derive(Debug)]
pub struct ActiveSubscriptions {
    entries: Vec<Subscription>,
}

impl ActiveSubscriptions {
    /// The id is currently tracked.
    pub closed spec fn has(&self, id: u128) -> bool {
        exists|i: int| 0 <= i < self.entries@.len() && self.entries@[i].id == id
    }

    /// The position of the id's entry.
    pub closed spec fn index_of(&self, id: u128) -> int {
        choose|i: int| 0 <= i < self.entries@.len() && self.entries@[i].id == id
    }

    /// The channel type the id is tracked under.
    pub closed spec fn channel_of(&self, id: u128) -> ChannelType {
        self.entries@[self.index_of(id)].channel_type
    }

    /// Each id is tracked at most once.
    pub closed spec fn wf(&self) -> bool {
        forall|i: int, j: int|
            0 <= i < j < self.entries@.len() ==> self.entries@[i].id != self.entries@[j].id
    }

    /// Creates an empty set.
    pub fn new() -> (r: Self)
        ensures
            r.wf(),
            forall|id: u128| !r.has(id),
    {
        ActiveSubscriptions { entries: Vec::new() }
    }

    /// Starts tracking the id under the channel type, replacing any earlier
    /// channel type for the same id. No other id is affected.
    pub fn insert(&mut self, id: u128, channel_type: ChannelType)
        requires
            old(self).wf(),
        ensures
            final(self).wf(),
            final(self).has(id),
            final(self).channel_of(id) == channel_type,
            forall|o: u128|
                o != id ==> (final(self).has(o) == old(self).has(o) && (old(self).has(o)
                    ==> final(self).channel_of(o) == old(self).channel_of(o))),
    {
        let n = self.entries.len();
        let mut i: usize = 0;
        while i < n
            invariant
                n == self.entries@.len(),
                i <= n,
                forall|j: int| 0 <= j < i ==> self.entries@[j].id != id,
                self.entries@ == old(self).entries@,
                old(self).wf(),
            decreases n - i,
        {
            if self.entries[i].id == id {
                let ghost prev = self.entries@;
                proof {
                    assert(prev[i as int].id == id);
                }
                self.entries[i] = Subscription { channel_type, id };
                proof {
                    let cur = self.entries@;
                    assert(cur[i as int].id == id);
                    assert(final(self).has(id));
                    let j2 = self.index_of(id);
                    assert(0 <= j2 < cur.len() && cur[j2].id == id);
                    assert forall|k: int| 0 <= k < cur.len() && k != i implies cur[k].id
                        != id by {
                        assert(cur[k] == prev[k]);
                    }
                    assert(j2 == i as int);
                    assert forall|o: u128| o != id implies (final(self).has(o) == old(self).has(o)
                        && (old(self).has(o) ==> final(self).channel_of(o) == old(
                        self,
                    ).channel_of(o))) by {
                        if old(self).has(o) {
                            let k = old(self).index_of(o);
                            assert(prev[k].id == o);
                            assert(k != i as int);
                            assert(cur[k].id == o);
                            assert(final(self).has(o));
                            let k2 = self.index_of(o);
                            assert(0 <= k2 < cur.len() && cur[k2].id == o);
                            assert(k2 != i as int);
                            assert(prev[k2].id == o);
                            assert(k2 == k);
                        } else {
                            if final(self).has(o) {
                                let k2 = self.index_of(o);
                                assert(cur[k2].id == o);
                                assert(k2 != i as int);
                                assert(prev[k2].id == o);
                            }
                        }
                    }
                }
                return ;
            }
            i = i + 1;
        }
        let ghost prev = self.entries@;
        proof {
            if old(self).has(id) {
                let j = old(self).index_of(id);
                assert(prev[j].id == id);
            }
        }
        self.entries.push(Subscription { channel_type, id });
        proof {
            let cur = self.entries@;
            assert(cur[prev.len() as int].id == id);
            assert(final(self).has(id));
            let j2 = self.index_of(id);
            assert(0 <= j2 < cur.len() && cur[j2].id == id);
            assert forall|k: int| 0 <= k < prev.len() implies cur[k].id != id by {}
            assert(j2 == prev.len() as int);
            assert forall|o: u128| o != id implies (final(self).has(o) == old(self).has(o) && (old(
                self,
            ).has(o) ==> final(self).channel_of(o) == old(self).channel_of(o))) by {
                if old(self).has(o) {
                    let k = old(self).index_of(o);
                    assert(cur[k].id == o);
                    assert(final(self).has(o));
                    let k2 = self.index_of(o);
                    assert(0 <= k2 < cur.len() && cur[k2].id == o);
                    assert(k2 < prev.len());
                    assert(k2 == k);
                } else {
                    if final(self).has(o) {
                        let k2 = self.index_of(o);
                        assert(k2 < prev.len());
                        assert(prev[k2].id == o);
                    }
                }
            }
        }
    }

    /// Stops tracking the id; an absent id is a no-op. No other id is
    /// affected.
    pub fn remove(&mut self, id: u128)
        requires
            old(self).wf(),
        ensures
            final(self).wf(),
            !final(self).has(id),
            forall|o: u128|
                o != id ==> (final(self).has(o) == old(self).has(o) && (old(self).has(o)
                    ==> final(self).channel_of(o) == old(self).channel_of(o))),
    {
        let ghost s = old(self).entries@;
        let n = self.entries.len();
        let mut kept: Vec<Subscription> = Vec::new();
        let mut i: usize = 0;
        while i < n
            invariant
                n == self.entries@.len(),
                i <= n,
                self.entries@ == s,
                old(self).wf(),
                forall|k: int|
                    0 <= k < kept@.len() ==> kept@[k].id != id && s.take(i as int).contains(
                        #[trigger] kept@[k],
                    ),
                forall|j: int|
                    0 <= j < i && s[j].id != id ==> kept@.contains(#[trigger] s[j]),
                forall|k1: int, k2: int| 0 <= k1 < k2 < kept@.len() ==> kept@[k1].id != kept@[k2].id,
            decreases n - i,
        {
            let ghost prevkept = kept@;
            proof {
                assert forall|k: int| 0 <= k < prevkept.len() implies s.take(i + 1).contains(
                    #[trigger] prevkept[k],
                ) by {
                    assert(s.take(i as int).contains(prevkept[k]));
                    let w = choose|w: int|
                        0 <= w < s.take(i as int).len() && s.take(i as int)[w] == prevkept[k];
                    assert(s.take(i + 1)[w] == prevkept[k]);
                }
            }
            if self.entries[i].id != id {
                kept.push(self.entries[i]);
                proof {
                    assert(s.take(i + 1)[i as int] == s[i as int]);
                    assert forall|k: int| 0 <= k < kept@.len() implies kept@[k].id != id
                        && s.take(i + 1).contains(#[trigger] kept@[k]) by {
                        if k < prevkept.len() {
                            assert(kept@[k] == prevkept[k]);
                        } else {
                            assert(kept@[k] == s[i as int]);
                            assert(s.take(i + 1).contains(s[i as int]));
                        }
                    }
                    assert forall|j: int| 0 <= j < i + 1 && s[j].id != id implies kept@.contains(
                        #[trigger] s[j],
                    ) by {
                        if j < i {
                            assert(prevkept.contains(s[j]));
                            let w = choose|w: int| 0 <= w < prevkept.len() && prevkept[w] == s[j];
                            assert(kept@[w] == s[j]);
                        } else {
                            assert(kept@[prevkept.len() as int] == s[j]);
                        }
                    }
                    assert forall|k1: int, k2: int|
                        0 <= k1 < k2 < kept@.len() implies kept@[k1].id != kept@[k2].id by {
                        if k2 == prevkept.len() {
                            let e1 = kept@[k1];
                            assert(prevkept[k1] == e1);
                            assert(s.take(i as int).contains(e1));
                            let w1 = choose|w: int|
                                0 <= w < s.take(i as int).len() && s.take(i as int)[w] == e1;
                            assert(s[w1] == e1);
                            assert(s[w1].id != s[i as int].id);
                            assert(kept@[k2] == s[i as int]);
                        } else {
                            assert(kept@[k1] == prevkept[k1]);
                            assert(kept@[k2] == prevkept[k2]);
                        }
                    }
                }
            } else {
                proof {
                    assert forall|j: int| 0 <= j < i + 1 && s[j].id != id implies kept@.contains(
                        #[trigger] s[j],
                    ) by {
                        if j == i {
                            assert(s[j].id == id);
                        }
                    }
                }
            }
            i = i + 1;
        }
        self.entries = kept;
        proof {
            let cur = self.entries@;
            assert(s.take(n as int) =~= s);
            if final(self).has(id) {
                let k2 = self.index_of(id);
                assert(cur[k2].id == id);
            }
            assert forall|o: u128| o != id implies (final(self).has(o) == old(self).has(o) && (old(
                self,
            ).has(o) ==> final(self).channel_of(o) == old(self).channel_of(o))) by {
                if old(self).has(o) {
                    let k = old(self).index_of(o);
                    assert(s[k].id == o);
                    assert(cur.contains(s[k]));
                    let w = choose|w: int| 0 <= w < cur.len() && cur[w] == s[k];
                    assert(cur[w].id == o);
                    assert(final(self).has(o));
                    let k2 = self.index_of(o);
                    assert(0 <= k2 < cur.len() && cur[k2].id == o);
                    assert(k2 == w);
                    assert(final(self).channel_of(o) == old(self).channel_of(o));
                } else {
                    if final(self).has(o) {
                        let k2 = self.index_of(o);
                        assert(cur[k2].id == o);
                        assert(s.take(n as int).contains(cur[k2]));
                        let w = choose|w: int| 0 <= w < s.len() && s[w] == cur[k2];
                        assert(s[w].id == o);
                    }
                }
            }
        }
    }


    /// The channel type the id is tracked under, if it is tracked.
    pub fn get(&self, id: u128) -> (r: Option<ChannelType>)
        requires
            self.wf(),
        ensures
            match r {
                Some(ct) => self.has(id) && ct == self.channel_of(id),
                None => !self.has(id),
            },
    {
        let n = self.entries.len();
        let mut i: usize = 0;
        while i < n
            invariant
                n == self.entries@.len(),
                i <= n,
                forall|j: int| 0 <= j < i ==> self.entries@[j].id != id,
                self.wf(),
            decreases n - i,
        {
            if self.entries[i].id == id {
                proof {
                    assert(self.has(id));
                    let j = self.index_of(id);
                    assert(0 <= j < self.entries@.len() && self.entries@[j].id == id);
                    assert(j == i as int);
                }
                return Some(self.entries[i].channel_type);
            }
            i = i + 1;
        }
        proof {
            if self.has(id) {
                let j = self.index_of(id);
                assert(self.entries@[j].id == id);
            }
        }
        None
    }
}


/// The progress façade: the one stream connection, the per-entity event
/// log, and the set of entities currently tracked.
#[derive(Debug)]
pub struct ProgressTracker {
    events: EventLog,
    websocket: StreamConnection,
    active: ActiveSubscriptions,
}

impl ProgressTracker {
    /// The lifecycle state of the underlying connection.
    pub closed spec fn conn_state(&self) -> ConnectionState {
        self.websocket.spec_state()
    }

    /// The subscriptions registered on the underlying connection.
    pub closed spec fn subs(&self) -> Seq<Subscription> {
        self.websocket.subs()
    }

    /// The outbound commands queued on the underlying connection.
    pub closed spec fn pending(&self) -> Seq<ClientMessage> {
        self.websocket.pending()
    }

    /// The events recorded for the id, in arrival order.
    pub closed spec fn log_of(&self, id: u128) -> Seq<ProgressEvent> {
        self.events.log_of(id)
    }

    /// The id is currently tracked.
    pub closed spec fn is_tracked(&self, id: u128) -> bool {
        self.active.has(id)
    }

    /// The channel type the id is tracked under.
    pub closed spec fn tracked_channel(&self, id: u128) -> ChannelType {
        self.active.channel_of(id)
    }

    /// The bearer token the connection authenticates with.
    pub closed spec fn spec_token(&self) -> Seq<char> {
        self.websocket.spec_token()
    }

    /// The configured stream endpoint.
    pub closed spec fn spec_url(&self) -> Seq<char> {
        self.websocket.spec_url()
    }

    /// The configured maximum number of reconnection attempts.
    pub closed spec fn spec_max_attempts(&self) -> u32 {
        self.websocket.spec_max_attempts()
    }

    /// The configured initial reconnection delay, in milliseconds.
    pub closed spec fn spec_initial_delay_ms(&self) -> u64 {
        self.websocket.spec_initial_delay_ms()
    }

    /// All parts are well formed.
    pub closed spec fn wf(&self) -> bool {
        self.websocket.wf() && self.events.wf() && self.active.wf()
    }

    /// The parts of the session no operation but construction changes:
    /// endpoint, token, and reconnection parameters.
    pub open spec fn same_session(&self, other: &Self) -> bool {
        &&& self.spec_token() == other.spec_token()
        &&& self.spec_url() == other.spec_url()
        &&& self.spec_max_attempts() == other.spec_max_attempts()
        &&& self.spec_initial_delay_ms() == other.spec_initial_delay_ms()
    }

    /// The two trackers hold the same event histories.
    pub open spec fn same_logs(a: &Self, b: &Self) -> bool {
        forall|id: u128| a.log_of(id) == b.log_of(id)
    }

    /// The two trackers track the same ids under the same channel types.
    pub open spec fn same_tracked(a: &Self, b: &Self) -> bool {
        forall|id: u128|
            a.is_tracked(id) == b.is_tracked(id) && (a.is_tracked(id) ==> a.tracked_channel(id)
                == b.tracked_channel(id))
    }

    /// What a successful or failed tracking call leaves behind: on success
    /// the pair is registered, the subscribe command queued and the id
    /// tracked under the channel type; on failure (no live connection)
    /// nothing has changed.
    pub open spec fn track_post(
        pre: &Self,
        post: &Self,
        channel_type: ChannelType,
        id: u128,
        r: Result<(), SubscriptionError>,
    ) -> bool {
        &&& post.wf()
        &&& post.conn_state() == pre.conn_state()
        &&& post.same_session(pre)
        &&& Self::same_logs(pre, post)
        &&& (r is Ok <==> pre.conn_state() == ConnectionState::Connected)
        &&& r is Ok ==> {
            &&& post.subs() == apply_op(pre.subs(), RegOp::Add(Subscription { channel_type, id }))
            &&& post.pending() == pre.pending().push(
                ClientMessage::Subscribe { channel_type, id },
            )
            &&& post.is_tracked(id)
            &&& post.tracked_channel(id) == channel_type
            &&& forall|o: u128|
                o != id ==> (post.is_tracked(o) == pre.is_tracked(o) && (pre.is_tracked(o)
                    ==> post.tracked_channel(o) == pre.tracked_channel(o)))
        }
        &&& r is Err ==> {
            &&& r == Result::<(), SubscriptionError>::Err(SubscriptionError::NotConnected)
            &&& post.subs() == pre.subs()
            &&& post.pending() == pre.pending()
            &&& Self::same_tracked(pre, post)
        }
    }

    /// Creates a disconnected tracker that will authenticate with the given
    /// token once told to connect.
    pub fn new(config: WebSocketConfig, token: String) -> (r: Self)
        ensures
            r.wf(),
            r.conn_state() == ConnectionState::Disconnected,
            r.subs() == Seq::<Subscription>::empty(),
            r.pending() == Seq::<ClientMessage>::empty(),
            forall|id: u128| r.log_of(id) == Seq::<ProgressEvent>::empty(),
            forall|id: u128| !r.is_tracked(id),
            r.spec_token() == token@,
            r.spec_url() == config.url@,
            r.spec_max_attempts() == config.reconnect_max_attempts,
            r.spec_initial_delay_ms() == config.reconnect_delay_ms,
    {
        ProgressTracker {
            events: EventLog::new(),
            websocket: StreamConnection::new(config, token),
            active: ActiveSubscriptions::new(),
        }
    }

    /// Returns whether the connection is live.
    pub fn is_connected(&self) -> (r: bool)
        ensures
            r == (self.conn_state() == ConnectionState::Connected),
    {
        self.websocket.is_connected()
    }

    /// The URL the handshake opens, with the token embedded as a query
    /// parameter.
    pub fn connect_url(&self) -> (r: String)
        ensures
            r@ == self.spec_url() + "?token="@ + self.spec_token(),
    {
        self.websocket.connect_url()
    }

    /// Records the start of a connect attempt.
    pub fn connect_begin(&mut self)
        requires
            old(self).wf(),
            old(self).conn_state() == ConnectionState::Disconnected,
        ensures
            final(self).wf(),
            final(self).conn_state() == ConnectionState::Connecting,
            final(self).subs() == old(self).subs(),
            final(self).pending() == old(self).pending(),
            Self::same_logs(old(self), final(self)),
            Self::same_tracked(old(self), final(self)),
            final(self).same_session(old(self)),
    {
        self.websocket.connect_begin();
    }

    /// Records a successful handshake; the command queue becomes the replay
    /// of the registry, one subscribe command per entry in insertion order.
    pub fn connect_ok(&mut self)
        requires
            old(self).wf(),
            old(self).conn_state() == ConnectionState::Connecting,
        ensures
            final(self).wf(),
            final(self).conn_state() == ConnectionState::Connected,
            final(self).subs() == old(self).subs(),
            final(self).pending() == crate::websocket::replay_commands(old(self).subs()),
            Self::same_logs(old(self), final(self)),
            Self::same_tracked(old(self), final(self)),
            final(self).same_session(old(self)),
    {
        self.websocket.connect_ok();
    }

    /// Records a failed connect attempt.
    pub fn connect_failed(&mut self)
        requires
            old(self).wf(),
            old(self).conn_state() == ConnectionState::Connecting,
        ensures
            final(self).wf(),
            final(self).conn_state() == ConnectionState::Disconnected,
            final(self).subs() == old(self).subs(),
            final(self).pending() == Seq::<ClientMessage>::empty(),
            Self::same_logs(old(self), final(self)),
            Self::same_tracked(old(self), final(self)),
            final(self).same_session(old(self)),
    {
        self.websocket.connect_failed();
    }

    /// Records the loss of a live connection; subscriptions are kept for
    /// replay after reconnection.
    pub fn connection_lost(&mut self)
        requires
            old(self).wf(),
            old(self).conn_state() == ConnectionState::Connected,
        ensures
            final(self).wf(),
            final(self).conn_state() == ConnectionState::Disconnected,
            final(self).subs() == old(self).subs(),
            final(self).pending() == Seq::<ClientMessage>::empty(),
            Self::same_logs(old(self), final(self)),
            Self::same_tracked(old(self), final(self)),
            final(self).same_session(old(self)),
    {
        self.websocket.connection_lost();
    }

    /// Tears the connection down deliberately.
    pub fn disconnect(&mut self)
        requires
            old(self).wf(),
        ensures
            final(self).wf(),
            final(self).conn_state() == ConnectionState::Disconnected,
            final(self).subs() == old(self).subs(),
            final(self).pending() == Seq::<ClientMessage>::empty(),
            Self::same_logs(old(self), final(self)),
            Self::same_tracked(old(self), final(self)),
            final(self).same_session(old(self)),
    {
        self.websocket.disconnect();
    }

    /// Hands the queued commands to the write side, in order.
    pub fn take_outbox(&mut self) -> (r: Vec<ClientMessage>)
        requires
            old(self).wf(),
        ensures
            final(self).wf(),
            r@ == old(self).pending(),
            final(self).pending() == Seq::<ClientMessage>::empty(),
            final(self).conn_state() == old(self).conn_state(),
            final(self).subs() == old(self).subs(),
            Self::same_logs(old(self), final(self)),
            Self::same_tracked(old(self), final(self)),
            final(self).same_session(old(self)),
    {
        self.websocket.take_outbox()
    }

    /// Enqueues a keep-alive ping if the connection is live.
    pub fn heartbeat_tick(&mut self) -> (alive: bool)
        requires
            old(self).wf(),
        ensures
            final(self).wf(),
            alive == (old(self).conn_state() == ConnectionState::Connected),
            final(self).conn_state() == old(self).conn_state(),
            final(self).subs() == old(self).subs(),
            alive ==> final(self).pending() == old(self).pending().push(ClientMessage::Ping),
            !alive ==> final(self).pending() == old(self).pending(),
            Self::same_logs(old(self), final(self)),
            Self::same_tracked(old(self), final(self)),
            final(self).same_session(old(self)),
    {
        self.websocket.heartbeat_tick()
    }

    /// Plans the next step of a reconnection run; see
    /// `StreamConnection::plan_reconnect`.
    pub fn plan_reconnect(&self, attempts_made: u32, elapsed_ms: u64) -> (s: ReconnectStep)
        ensures
            s == crate::websocket::spec_plan_reconnect(
                self.spec_max_attempts(),
                self.spec_initial_delay_ms(),
                attempts_made,
                elapsed_ms,
            ),
    {
        self.websocket.plan_reconnect(attempts_made, elapsed_ms)
    }

    /// Subscribes the id under the given channel type and tracks it.
    pub fn track(&mut self, channel_type: ChannelType, id: u128) -> (r: Result<
        (),
        SubscriptionError,
    >)
        requires
            old(self).wf(),
        ensures
            Self::track_post(old(self), final(self), channel_type, id, r),
    {
        match self.websocket.subscribe(channel_type, id) {
            Ok(()) => {
                self.active.insert(id, channel_type);
                Ok(())
            },
            Err(e) => Err(e),
        }
    }

    /// Tracks a document's upload progress.
    pub fn track_upload(&mut self, document_id: u128) -> (r: Result<(), SubscriptionError>)
        requires
            old(self).wf(),
        ensures
            Self::track_post(old(self), final(self), ChannelType::Upload, document_id, r),
    {
        self.track(ChannelType::Upload, document_id)
    }

    /// Tracks an analysis's progress.
    pub fn track_analysis(&mut self, analysis_id: u128) -> (r: Result<(), SubscriptionError>)
        requires
            old(self).wf(),
        ensures
            Self::track_post(old(self), final(self), ChannelType::Analysis, analysis_id, r),
    {
        self.track(ChannelType::Analysis, analysis_id)
    }

    /// Tracks a batch operation's progress.
    pub fn track_batch(&mut self, batch_id: u128) -> (r: Result<(), SubscriptionError>)
        requires
            old(self).wf(),
        ensures
            Self::track_post(old(self), final(self), ChannelType::Batch, batch_id, r),
    {
        self.track(ChannelType::Batch, batch_id)
    }

    /// A copy of the id's event history, in arrival order.
    pub fn get_events(&self, id: u128) -> (r: Vec<ProgressEvent>)
        requires
            self.wf(),
        ensures
            r@.len() == self.log_of(id).len(),
            forall|i: int|
                0 <= i < r@.len() ==> event_equiv(#[trigger] &r@[i], &self.log_of(id)[i]),
    {
        self.events.get(id)
    }

    /// A copy of the most recent event for the id, if any.
    pub fn get_latest_event(&self, id: u128) -> (r: Option<ProgressEvent>)
        requires
            self.wf(),
        ensures
            match r {
                Some(e) => self.log_of(id).len() > 0 && event_equiv(&e, &self.log_of(id).last()),
                None => self.log_of(id).len() == 0,
            },
    {
        self.events.latest(id)
    }

    /// Stores one decoded event under its entity id, in arrival order, and
    /// tears the entity's subscription down if the event is terminal: a
    /// `Complete` or `Error` event for a tracked id unsubscribes it and
    /// stops tracking it, and only it — the history and tracking of every
    /// other id are untouched. The teardown needs a live connection;
    /// without one the command cannot be enqueued, the failure is surfaced,
    /// and the id stays tracked (the event is stored regardless).
    pub fn process_event(&mut self, event: ProgressEvent) -> (r: Result<(), SubscriptionError>)
        requires
            old(self).wf(),
        ensures
            final(self).wf(),
            final(self).conn_state() == old(self).conn_state(),
            final(self).same_session(old(self)),
            final(self).log_of(event.spec_entity_id()) == old(self).log_of(
                event.spec_entity_id(),
            ).push(event),
            forall|o: u128|
                o != event.spec_entity_id() ==> final(self).log_of(o) == old(self).log_of(o),
            r is Ok <==> (!event.spec_is_terminal() || !old(self).is_tracked(event.spec_entity_id())
                || old(self).conn_state() == ConnectionState::Connected),
            (event.spec_is_terminal() && old(self).is_tracked(event.spec_entity_id()) && old(
                self,
            ).conn_state() == ConnectionState::Connected) ==> {
                &&& !final(self).is_tracked(event.spec_entity_id())
                &&& forall|o: u128|
                    o != event.spec_entity_id() ==> (final(self).is_tracked(o) == old(self).is_tracked(o)
                        && (old(self).is_tracked(o) ==> final(self).tracked_channel(o) == old(
                        self,
                    ).tracked_channel(o)))
                &&& final(self).subs() == apply_op(
                    old(self).subs(),
                    RegOp::Remove(
                        Subscription {
                            channel_type: old(self).tracked_channel(event.spec_entity_id()),
                            id: event.spec_entity_id(),
                        },
                    ),
                )
                &&& final(self).pending() == old(self).pending().push(
                    ClientMessage::Unsubscribe {
                        channel_type: old(self).tracked_channel(event.spec_entity_id()),
                        id: event.spec_entity_id(),
                    },
                )
            },
            (!event.spec_is_terminal() || !old(self).is_tracked(event.spec_entity_id()) || old(
                self,
            ).conn_state() != ConnectionState::Connected) ==> {
                &&& Self::same_tracked(old(self), final(self))
                &&& final(self).subs() == old(self).subs()
                &&& final(self).pending() == old(self).pending()
            },
    {
        let id = event.entity_id();
        let terminal = event.is_terminal();
        self.events.append(id, event);
        if terminal {
            match self.active.get(id) {
                Some(channel_type) => {
                    match self.websocket.unsubscribe(channel_type, id) {
                        Ok(()) => {
                            self.active.remove(id);
                            Ok(())
                        },
                        Err(e) => Err(e),
                    }
                },
                None => Ok(()),
            }
        } else {
            Ok(())
        }
    }
}

} // verus!
