//! The stream-connection core: connection lifecycle state, the outbound
//! command queue, inbound frame routing, resubscription after reconnect, and
//! the bounded reconnection policy.
//!
//! The transport itself (the socket, the async tasks) lives outside the
//! crate; callers drive this state machine, drain the queued commands to the
//! wire, and hand decoded inbound frames back to it.

use vstd::arithmetic::power2::{lemma_pow2_unfold, pow2};
use vstd::prelude::*;

use crate::error::{ConnectivityError, SubscriptionError};
use crate::progress::{ChannelType, ProgressEvent};
use crate::registry::{apply_op, no_dups, RegOp, Subscription, SubscriptionRegistry};

verus! {

/// Overall ceiling, in milliseconds, on the wall-clock time a reconnection
/// run may spend before it is reported as a fatal connectivity failure.
pub const RECONNECT_ELAPSED_CEILING_MS: u64 = 60000;

/// Parameters of the persistent stream connection.
#[derive(Debug)]
pub struct WebSocketConfig {
    pub url: String,
    pub reconnect_max_attempts: u32,
    pub reconnect_delay_ms: u64,
    pub ping_interval_secs: u64,
}

/// Two configurations agree on every field, comparing the url by content.
pub open spec fn config_equiv(a: &WebSocketConfig, b: &WebSocketConfig) -> bool {
    &&& a.url@ == b.url@
    &&& a.reconnect_max_attempts == b.reconnect_max_attempts
    &&& a.reconnect_delay_ms == b.reconnect_delay_ms
    &&& a.ping_interval_secs == b.ping_interval_secs
}

impl Default for WebSocketConfig {
    /// The default connection parameters: five reconnection attempts, a
    /// one-second initial delay, a thirty-second heartbeat.
    fn default() -> (r: Self)
        ensures
            r.url@ == "ws://localhost:8080/api/v1/ws"@,
            r.reconnect_max_attempts == 5,
            r.reconnect_delay_ms == 1000,
            r.ping_interval_secs == 30,
    {
        WebSocketConfig {
            url: String::from_str("ws://localhost:8080/api/v1/ws"),
            reconnect_max_attempts: 5,
            reconnect_delay_ms: 1000,
            ping_interval_secs: 30,
        }
    }
}

impl Clone for WebSocketConfig {
    /// Copies the configuration, keeping every field's content.
    fn clone(&self) -> (r: Self)
        ensures
            config_equiv(self, &r),
    {
        WebSocketConfig {
            url: self.url.clone(),
            reconnect_max_attempts: self.reconnect_max_attempts,
            reconnect_delay_ms: self.reconnect_delay_ms,
            ping_interval_secs: self.ping_interval_secs,
        }
    }
}

/// The lifecycle state of the one persistent connection. No transition
/// skips a state.
#[derive(Debug, Clone, Copy, PartialEq, Eq, Structural)]
pub enum ConnectionState {
    Disconnected,
    Connecting,
    Connected,
}

/// The transitions the lifecycle allows: connect attempt, handshake
/// success, connect failure, and loss or teardown of a live connection.
pub open spec fn legal_transition(from: ConnectionState, to: ConnectionState) -> bool {
    ||| (from == ConnectionState::Disconnected && to == ConnectionState::Connecting)
    ||| (from == ConnectionState::Connecting && to == ConnectionState::Connected)
    ||| (from == ConnectionState::Connecting && to == ConnectionState::Disconnected)
    ||| (from == ConnectionState::Connected && to == ConnectionState::Disconnected)
}

/// An outbound command, queued for the write side of the connection.
#[derive(Debug, Clone, Copy, PartialEq, Eq, Structural)]
pub enum ClientMessage {
    Subscribe { channel_type: ChannelType, id: u128 },
    Unsubscribe { channel_type: ChannelType, id: u128 },
    Ping,
}

/// The discriminator of an inbound frame.
#[derive(Debug, Clone, Copy, PartialEq, Eq, Structural)]
pub enum ServerMessageType {
    Connected,
    Subscribed,
    Unsubscribed,
    Progress,
    Error,
    Pong,
}

/// The payload of a progress frame: the event, its correlation id, the
/// owning user, and a per-connection sequence number used only for
/// diagnostics.
#[derive(Debug)]
pub struct WebSocketMessage {
    pub id: u128,
    pub event: ProgressEvent,
    pub user_id: u128,
    pub sequence: u64,
}

/// A decoded inbound frame. Only a `Progress` frame carries a payload; for
/// the other discriminators `data` is absent.
#[derive(Debug)]
pub struct ServerMessage {
    pub message_type: ServerMessageType,
    pub data: Option<WebSocketMessage>,
    pub timestamp: i64,
}

/// What to do with one inbound frame.
#[derive(Debug)]
pub enum RouteAction {
    /// Forward the progress payload to the event stream.
    Deliver(WebSocketMessage),
    /// Handled internally (logged or ignored); never forwarded.
    Absorb,
    /// Malformed: log and discard the one frame, keep the connection.
    Reject,
}

/// Routes one decoded inbound frame, `None` standing for a frame that did
/// not decode. Only a well-formed `Progress` frame is forwarded; every
/// other discriminator is absorbed; a malformed frame is rejected without
/// touching the connection, which this function cannot even reach.
pub fn route_inbound(frame: Option<ServerMessage>) -> (a: RouteAction)
    ensures
        match frame {
            None => a is Reject,
            Some(m) => {
                match m.data {
                    Some(p) => if m.message_type == ServerMessageType::Progress {
                        a == RouteAction::Deliver(p)
                    } else {
                        a is Absorb
                    },
                    None => if m.message_type == ServerMessageType::Progress {
                        a is Reject
                    } else {
                        a is Absorb
                    },
                }
            },
        },
{
    match frame {
        None => RouteAction::Reject,
        Some(m) => {
            if matches!(m.message_type, ServerMessageType::Progress) {
                match m.data {
                    Some(p) => RouteAction::Deliver(p),
                    None => RouteAction::Reject,
                }
            } else {
                RouteAction::Absorb
            }
        },
    }
}

/// The wire token of a channel type.
pub open spec fn channel_token(ct: ChannelType) -> Seq<char> {
    match ct {
        ChannelType::Upload => "upload"@,
        ChannelType::Analysis => "analysis"@,
        ChannelType::Batch => "batch"@,
        ChannelType::User => "user"@,
    }
}

/// Returns the wire token of a channel type.
pub fn channel_token_text(ct: ChannelType) -> (r: &'static str)
    ensures
        r@ == channel_token(ct),
{
    match ct {
        ChannelType::Upload => "upload",
        ChannelType::Analysis => "analysis",
        ChannelType::Batch => "batch",
        ChannelType::User => "user",
    }
}

/// The exact frame a command goes out as: a JSON object discriminated by
/// its `action` field, the entity id in its canonical hyphenated form.
pub open spec fn encoded_command(m: ClientMessage) -> Seq<char> {
    match m {
        ClientMessage::Subscribe { channel_type, id } => "{\"action\":\"subscribe\",\"channel_type\":\""@
            + channel_token(channel_type) + "\",\"id\":\""@ + crate::text::id_text(id) + "\"}"@,
        ClientMessage::Unsubscribe { channel_type, id } => "{\"action\":\"unsubscribe\",\"channel_type\":\""@
            + channel_token(channel_type) + "\",\"id\":\""@ + crate::text::id_text(id) + "\"}"@,
        ClientMessage::Ping => "{\"action\":\"ping\"}"@,
    }
}

/// Frames one outbound command as the wire expects it.
pub fn encode_client_message(m: &ClientMessage) -> (r: String)
    ensures
        r@ == encoded_command(*m),
{
    match m {
        ClientMessage::Subscribe { channel_type, id } => {
            let mut out = String::from_str("{\"action\":\"subscribe\",\"channel_type\":\"");
            out.append(channel_token_text(*channel_type));
            out.append("\",\"id\":\"");
            let idtext = crate::text::format_entity_id(*id);
            out.append(idtext.as_str());
            out.append("\"}");
            out
        },
        ClientMessage::Unsubscribe { channel_type, id } => {
            let mut out = String::from_str("{\"action\":\"unsubscribe\",\"channel_type\":\"");
            out.append(channel_token_text(*channel_type));
            out.append("\",\"id\":\"");
            let idtext = crate::text::format_entity_id(*id);
            out.append(idtext.as_str());
            out.append("\"}");
            out
        },
        ClientMessage::Ping => String::from_str("{\"action\":\"ping\"}"),
    }
}

/// The subscribe command that replays one registry entry.
pub open spec fn subscribe_command(sub: Subscription) -> ClientMessage {
    ClientMessage::Subscribe { channel_type: sub.channel_type, id: sub.id }
}

/// The replay of a whole registry snapshot, one subscribe command per entry,
/// in registry order.
pub open spec fn replay_commands(subs: Seq<Subscription>) -> Seq<ClientMessage> {
    subs.map(|i: int, sub: Subscription| subscribe_command(sub))
}

/// The core of the one persistent stream connection.
#[derive(Debug)]
pub struct StreamConnection {
    config: WebSocketConfig,
    token: String,
    state: ConnectionState,
    registry: SubscriptionRegistry,
    outbox: Vec<ClientMessage>,
}

impl StreamConnection {
    /// The lifecycle state.
    pub closed spec fn spec_state(&self) -> ConnectionState {
        self.state
    }

    /// The subscriptions currently registered, in insertion order.
    pub closed spec fn subs(&self) -> Seq<Subscription> {
        self.registry@
    }

    /// The outbound commands queued and not yet taken by the write side.
    pub closed spec fn pending(&self) -> Seq<ClientMessage> {
        self.outbox@
    }

    /// The bearer token the connection authenticates with.
    pub closed spec fn spec_token(&self) -> Seq<char> {
        self.token@
    }

    /// The configured stream endpoint.
    pub closed spec fn spec_url(&self) -> Seq<char> {
        self.config.url@
    }

    /// The configured maximum number of reconnection attempts.
    pub closed spec fn spec_max_attempts(&self) -> u32 {
        self.config.reconnect_max_attempts
    }

    /// The configured initial reconnection delay, in milliseconds.
    pub closed spec fn spec_initial_delay_ms(&self) -> u64 {
        self.config.reconnect_delay_ms
    }

    /// The registered subscriptions are pairwise distinct.
    pub open spec fn wf(&self) -> bool {
        no_dups(self.subs())
    }

    /// The parts of the connection that no operation but construction
    /// changes: endpoint, token, and reconnection parameters.
    pub open spec fn same_session(&self, other: &Self) -> bool {
        &&& self.spec_token() == other.spec_token()
        &&& self.spec_url() == other.spec_url()
        &&& self.spec_max_attempts() == other.spec_max_attempts()
        &&& self.spec_initial_delay_ms() == other.spec_initial_delay_ms()
    }

    /// Creates a disconnected connection that will authenticate with the
    /// given token.
    pub fn new(config: WebSocketConfig, token: String) -> (r: Self)
        ensures
            r.spec_state() == ConnectionState::Disconnected,
            r.subs() == Seq::<Subscription>::empty(),
            r.pending() == Seq::<ClientMessage>::empty(),
            r.spec_token() == token@,
            r.spec_url() == config.url@,
            r.spec_max_attempts() == config.reconnect_max_attempts,
            r.spec_initial_delay_ms() == config.reconnect_delay_ms,
            r.wf(),
    {
        StreamConnection {
            config,
            token,
            state: ConnectionState::Disconnected,
            registry: SubscriptionRegistry::new(),
            outbox: Vec::new(),
        }
    }

    /// The URL the handshake opens, with the token embedded as a query
    /// parameter.
    pub fn connect_url(&self) -> (r: String)
        ensures
            r@ == self.spec_url() + "?token="@ + self.spec_token(),
    {
        let mut u = self.config.url.clone();
        u.append("?token=");
        u.append(self.token.as_str());
        u
    }

    /// Returns whether the connection is live.
    pub fn is_connected(&self) -> (r: bool)
        ensures
            r == (self.spec_state() == ConnectionState::Connected),
    {
        matches!(self.state, ConnectionState::Connected)
    }

    /// Records the start of a connect attempt.
    pub fn connect_begin(&mut self)
        requires
            old(self).spec_state() == ConnectionState::Disconnected,
        ensures
            final(self).spec_state() == ConnectionState::Connecting,
            legal_transition(old(self).spec_state(), final(self).spec_state()),
            final(self).subs() == old(self).subs(),
            final(self).pending() == old(self).pending(),
            final(self).same_session(old(self)),
    {
        self.state = ConnectionState::Connecting;
    }

    /// Records a successful handshake. The command queue is replaced by the
    /// replay of the registry: one subscribe command per entry still
    /// registered, in the order the entries were first added, each exactly
    /// once.
    pub fn connect_ok(&mut self)
        requires
            old(self).spec_state() == ConnectionState::Connecting,
        ensures
            final(self).spec_state() == ConnectionState::Connected,
            legal_transition(old(self).spec_state(), final(self).spec_state()),
            final(self).subs() == old(self).subs(),
            final(self).pending() == replay_commands(old(self).subs()),
            final(self).same_session(old(self)),
    {
        self.state = ConnectionState::Connected;
        let snap = self.registry.snapshot();
        let mut replay: Vec<ClientMessage> = Vec::new();
        let mut i: usize = 0;
        while i < snap.len()
            invariant
                i <= snap@.len(),
                snap@ == self.registry@,
                replay@ == replay_commands(self.registry@.take(i as int)),
            decreases snap@.len() - i,
        {
            proof {
                assert(replay_commands(self.registry@.take(i + 1)) =~= replay_commands(
                    self.registry@.take(i as int),
                ).push(subscribe_command(self.registry@[i as int])));
            }
            let s = snap[i];
            replay.push(ClientMessage::Subscribe { channel_type: s.channel_type, id: s.id });
            i = i + 1;
        }
        proof {
            assert(self.registry@.take(self.registry@.len() as int) =~= self.registry@);
        }
        self.outbox = replay;
    }

    /// Records a failed connect attempt.
    pub fn connect_failed(&mut self)
        requires
            old(self).spec_state() == ConnectionState::Connecting,
        ensures
            final(self).spec_state() == ConnectionState::Disconnected,
            legal_transition(old(self).spec_state(), final(self).spec_state()),
            final(self).subs() == old(self).subs(),
            final(self).pending() == Seq::<ClientMessage>::empty(),
            final(self).same_session(old(self)),
    {
        self.state = ConnectionState::Disconnected;
        self.outbox = Vec::new();
    }

    /// Records the loss of a live connection (read or write failure, or a
    /// server close). Registered subscriptions are kept, so a later
    /// successful handshake replays every one of them.
    pub fn connection_lost(&mut self)
        requires
            old(self).spec_state() == ConnectionState::Connected,
        ensures
            final(self).spec_state() == ConnectionState::Disconnected,
            legal_transition(old(self).spec_state(), final(self).spec_state()),
            final(self).subs() == old(self).subs(),
            final(self).pending() == Seq::<ClientMessage>::empty(),
            final(self).same_session(old(self)),
    {
        self.state = ConnectionState::Disconnected;
        self.outbox = Vec::new();
    }

    /// Tears the connection down deliberately: whatever the state, it ends
    /// disconnected with the command queue dropped. Subscriptions are kept.
    pub fn disconnect(&mut self)
        ensures
            final(self).spec_state() == ConnectionState::Disconnected,
            final(self).subs() == old(self).subs(),
            final(self).pending() == Seq::<ClientMessage>::empty(),
            final(self).same_session(old(self)),
    {
        self.state = ConnectionState::Disconnected;
        self.outbox = Vec::new();
    }

    /// Enqueues a subscribe command and registers the pair. Fails, changing
    /// nothing, exactly when no live connection can carry the command; the
    /// registration is idempotent either way.
    pub fn subscribe(&mut self, channel_type: ChannelType, id: u128) -> (r: Result<
        (),
        SubscriptionError,
    >)
        requires
            old(self).wf(),
        ensures
            final(self).wf(),
            final(self).same_session(old(self)),
            final(self).spec_state() == old(self).spec_state(),
            r is Ok <==> old(self).spec_state() == ConnectionState::Connected,
            r is Ok ==> {
                &&& final(self).subs() == apply_op(
                    old(self).subs(),
                    RegOp::Add(Subscription { channel_type, id }),
                )
                &&& final(self).pending() == old(self).pending().push(
                    ClientMessage::Subscribe { channel_type, id },
                )
            },
            r is Err ==> {
                &&& r == Result::<(), SubscriptionError>::Err(SubscriptionError::NotConnected)
                &&& final(self).subs() == old(self).subs()
                &&& final(self).pending() == old(self).pending()
            },
    {
        if !matches!(self.state, ConnectionState::Connected) {
            return Err(SubscriptionError::NotConnected);
        }
        self.outbox.push(ClientMessage::Subscribe { channel_type, id });
        self.registry.add(channel_type, id);
        Ok(())
    }

    /// Enqueues a subscribe command for the upload channel of a document.
    pub fn subscribe_upload(&mut self, document_id: u128) -> (r: Result<(), SubscriptionError>)
        requires
            old(self).wf(),
        ensures
            final(self).wf(),
            final(self).same_session(old(self)),
            final(self).spec_state() == old(self).spec_state(),
            r is Ok <==> old(self).spec_state() == ConnectionState::Connected,
            r is Ok ==> {
                &&& final(self).subs() == apply_op(
                    old(self).subs(),
                    RegOp::Add(Subscription { channel_type: ChannelType::Upload, id: document_id }),
                )
                &&& final(self).pending() == old(self).pending().push(
                    ClientMessage::Subscribe { channel_type: ChannelType::Upload, id: document_id },
                )
            },
            r is Err ==> final(self).subs() == old(self).subs() && final(self).pending() == old(
                self,
            ).pending(),
    {
        self.subscribe(ChannelType::Upload, document_id)
    }

    /// Enqueues a subscribe command for the progress channel of an analysis.
    pub fn subscribe_analysis(&mut self, analysis_id: u128) -> (r: Result<(), SubscriptionError>)
        requires
            old(self).wf(),
        ensures
            final(self).wf(),
            final(self).same_session(old(self)),
            final(self).spec_state() == old(self).spec_state(),
            r is Ok <==> old(self).spec_state() == ConnectionState::Connected,
            r is Ok ==> {
                &&& final(self).subs() == apply_op(
                    old(self).subs(),
                    RegOp::Add(
                        Subscription { channel_type: ChannelType::Analysis, id: analysis_id },
                    ),
                )
                &&& final(self).pending() == old(self).pending().push(
                    ClientMessage::Subscribe {
                        channel_type: ChannelType::Analysis,
                        id: analysis_id,
                    },
                )
            },
            r is Err ==> final(self).subs() == old(self).subs() && final(self).pending() == old(
                self,
            ).pending(),
    {
        self.subscribe(ChannelType::Analysis, analysis_id)
    }

    /// Enqueues a subscribe command for the progress channel of a batch.
    pub fn subscribe_batch(&mut self, batch_id: u128) -> (r: Result<(), SubscriptionError>)
        requires
            old(self).wf(),
        ensures
            final(self).wf(),
            final(self).same_session(old(self)),
            final(self).spec_state() == old(self).spec_state(),
            r is Ok <==> old(self).spec_state() == ConnectionState::Connected,
            r is Ok ==> {
                &&& final(self).subs() == apply_op(
                    old(self).subs(),
                    RegOp::Add(Subscription { channel_type: ChannelType::Batch, id: batch_id }),
                )
                &&& final(self).pending() == old(self).pending().push(
                    ClientMessage::Subscribe { channel_type: ChannelType::Batch, id: batch_id },
                )
            },
            r is Err ==> final(self).subs() == old(self).subs() && final(self).pending() == old(
                self,
            ).pending(),
    {
        self.subscribe(ChannelType::Batch, batch_id)
    }

    /// Enqueues an unsubscribe command and deregisters the pair. Fails,
    /// changing nothing, exactly when no live connection can carry the
    /// command; deregistering an absent pair is a no-op.
    pub fn unsubscribe(&mut self, channel_type: ChannelType, id: u128) -> (r: Result<
        (),
        SubscriptionError,
    >)
        requires
            old(self).wf(),
        ensures
            final(self).wf(),
            final(self).same_session(old(self)),
            final(self).spec_state() == old(self).spec_state(),
            r is Ok <==> old(self).spec_state() == ConnectionState::Connected,
            r is Ok ==> {
                &&& final(self).subs() == apply_op(
                    old(self).subs(),
                    RegOp::Remove(Subscription { channel_type, id }),
                )
                &&& final(self).pending() == old(self).pending().push(
                    ClientMessage::Unsubscribe { channel_type, id },
                )
            },
            r is Err ==> {
                &&& r == Result::<(), SubscriptionError>::Err(SubscriptionError::NotConnected)
                &&& final(self).subs() == old(self).subs()
                &&& final(self).pending() == old(self).pending()
            },
    {
        if !matches!(self.state, ConnectionState::Connected) {
            return Err(SubscriptionError::NotConnected);
        }
        self.outbox.push(ClientMessage::Unsubscribe { channel_type, id });
        self.registry.remove(channel_type, id);
        Ok(())
    }

    /// Enqueues a keep-alive ping if the connection is live; returns whether
    /// it is, so the heartbeat task knows when to exit.
    pub fn heartbeat_tick(&mut self) -> (alive: bool)
        ensures
            alive == (old(self).spec_state() == ConnectionState::Connected),
            final(self).spec_state() == old(self).spec_state(),
            final(self).subs() == old(self).subs(),
            final(self).same_session(old(self)),
            alive ==> final(self).pending() == old(self).pending().push(ClientMessage::Ping),
            !alive ==> final(self).pending() == old(self).pending(),
    {
        if matches!(self.state, ConnectionState::Connected) {
            self.outbox.push(ClientMessage::Ping);
            true
        } else {
            false
        }
    }

    /// Hands the queued commands to the write side, in the order they were
    /// enqueued, leaving the queue empty.
    pub fn take_outbox(&mut self) -> (r: Vec<ClientMessage>)
        ensures
            r@ == old(self).pending(),
            final(self).pending() == Seq::<ClientMessage>::empty(),
            final(self).spec_state() == old(self).spec_state(),
            final(self).subs() == old(self).subs(),
            final(self).same_session(old(self)),
    {
        let mut taken: Vec<ClientMessage> = Vec::new();
        core::mem::swap(&mut taken, &mut self.outbox);
        taken
    }

    /// Returns the registered subscriptions, in insertion order.
    pub fn snapshot(&self) -> (r: Vec<Subscription>)
        ensures
            r@ == self.subs(),
    {
        self.registry.snapshot()
    }

    /// Plans the next step of a reconnection run, after `attempts_made`
    /// failed attempts and `elapsed_ms` of wall-clock time spent. A retry is
    /// scheduled exactly while both bounds still hold, with the delay
    /// growing geometrically from the configured initial delay, capped by
    /// the elapsed-time ceiling.
    pub fn plan_reconnect(&self, attempts_made: u32, elapsed_ms: u64) -> (s: ReconnectStep)
        ensures
            s == spec_plan_reconnect(
                self.spec_max_attempts(),
                self.spec_initial_delay_ms(),
                attempts_made,
                elapsed_ms,
            ),
    {
        plan_reconnect_with(
            self.config.reconnect_max_attempts,
            self.config.reconnect_delay_ms,
            attempts_made,
            elapsed_ms,
        )
    }
}

/// The next step of a reconnection run.
#[derive(Debug, Clone, Copy, PartialEq, Eq, Structural)]
pub enum ReconnectStep {
    /// Sleep for the given delay, then run the full connect algorithm again.
    Retry { delay_ms: u64 },
    /// Stop: reconnection failed permanently, with a fatal connectivity
    /// error to surface to the caller.
    GiveUp(ConnectivityError),
}

/// The geometric backoff delay before the next attempt: the initial delay
/// doubled once per attempt already made, capped at `cap`.
pub open spec fn spec_backoff_delay(initial: u64, attempts_made: u32, cap: u64) -> int {
    let raw = initial * pow2(attempts_made as nat);
    if raw <= cap {
        raw as int
    } else {
        cap as int
    }
}

/// What `plan_reconnect` decides: give up once the attempt count or the
/// elapsed-time ceiling is reached, otherwise retry after the backoff delay.
pub open spec fn spec_plan_reconnect(
    max_attempts: u32,
    initial_delay_ms: u64,
    attempts_made: u32,
    elapsed_ms: u64,
) -> ReconnectStep {
    if attempts_made >= max_attempts {
        ReconnectStep::GiveUp(ConnectivityError::AttemptsExhausted)
    } else if elapsed_ms >= RECONNECT_ELAPSED_CEILING_MS {
        ReconnectStep::GiveUp(ConnectivityError::ElapsedExceeded)
    } else {
        ReconnectStep::Retry {
            delay_ms: spec_backoff_delay(
                initial_delay_ms,
                attempts_made,
                RECONNECT_ELAPSED_CEILING_MS,
            ) as u64,
        }
    }
}

/// Computes the geometric backoff delay without overflow.
fn backoff_delay(initial: u64, attempts_made: u32, cap: u64) -> (d: u64)
    ensures
        d == spec_backoff_delay(initial, attempts_made, cap),
{
    proof {
        vstd::arithmetic::power2::lemma2_to64();
    }
    let mut d: u64 = if initial > cap {
        cap
    } else {
        initial
    };
    let mut i: u32 = 0;
    while i < attempts_made
        invariant
            i <= attempts_made,
            d == spec_backoff_delay(initial, i, cap),
        decreases attempts_made - i,
    {
        proof {
            lemma_pow2_unfold((i + 1) as nat);
            assert(initial * pow2((i + 1) as nat) == 2 * (initial * pow2(i as nat)))
                by (nonlinear_arith)
                requires
                    pow2((i + 1) as nat) == 2 * pow2(i as nat),
            ;
        }
        if d <= cap / 2 {
            d = d * 2;
        } else {
            d = cap;
        }
        i = i + 1;
    }
    d
}

/// Plans the next step of a reconnection run for explicit policy values;
/// see `StreamConnection::plan_reconnect`.
pub fn plan_reconnect_with(
    max_attempts: u32,
    initial_delay_ms: u64,
    attempts_made: u32,
    elapsed_ms: u64,
) -> (s: ReconnectStep)
    ensures
        s == spec_plan_reconnect(max_attempts, initial_delay_ms, attempts_made, elapsed_ms),
{
    if attempts_made >= max_attempts {
        ReconnectStep::GiveUp(ConnectivityError::AttemptsExhausted)
    } else if elapsed_ms >= RECONNECT_ELAPSED_CEILING_MS {
        ReconnectStep::GiveUp(ConnectivityError::ElapsedExceeded)
    } else {
        ReconnectStep::Retry {
            delay_ms: backoff_delay(initial_delay_ms, attempts_made, RECONNECT_ELAPSED_CEILING_MS),
        }
    }
}

/// The law of bounded reconnection: a run never schedules more attempts
/// than the configured maximum, and any retry is scheduled strictly before
/// the elapsed-time ceiling, so the elapsed time when the retry fires
/// exceeds the ceiling by less than that one attempt's delay.
pub proof fn lemma_reconnect_bounded(
    max_attempts: u32,
    initial_delay_ms: u64,
    attempts_made: u32,
    elapsed_ms: u64,
)
    ensures
        attempts_made >= max_attempts ==> spec_plan_reconnect(
            max_attempts,
            initial_delay_ms,
            attempts_made,
            elapsed_ms,
        ) == ReconnectStep::GiveUp(ConnectivityError::AttemptsExhausted),
        forall|d: u64|
            spec_plan_reconnect(max_attempts, initial_delay_ms, attempts_made, elapsed_ms)
                == (ReconnectStep::Retry { delay_ms: d }) ==> {
                &&& attempts_made < max_attempts
                &&& elapsed_ms < RECONNECT_ELAPSED_CEILING_MS
                &&& elapsed_ms + d < RECONNECT_ELAPSED_CEILING_MS + d
            },
{
}

/// The milliseconds a reconnection run has slept after consulting the
/// planner `n` times, each time sleeping exactly the planned delay: once
/// the planner gives up, nothing more is slept.
pub open spec fn run_elapsed(max_attempts: u32, initial_delay_ms: u64, n: u32) -> int
    decreases n,
{
    if n == 0 {
        0
    } else {
        let prev = run_elapsed(max_attempts, initial_delay_ms, (n - 1) as u32);
        if 0 <= prev <= u64::MAX {
            match spec_plan_reconnect(max_attempts, initial_delay_ms, (n - 1) as u32, prev as u64) {
                ReconnectStep::Retry { delay_ms } => prev + delay_ms,
                ReconnectStep::GiveUp(_) => prev,
            }
        } else {
            prev
        }
    }
}

/// The run-level law of bounded reconnection: a run that follows the
/// planner never sleeps past the elapsed-time ceiling by as much as one
/// further ceiling (each single delay is capped by the ceiling, and no
/// delay is ever scheduled at or past it), and once the attempt count
/// reaches the configured maximum the total never grows again — the run
/// has stopped rather than looping indefinitely.
pub proof fn lemma_reconnect_run_bounded(max_attempts: u32, initial_delay_ms: u64, n: u32)
    ensures
        0 <= run_elapsed(max_attempts, initial_delay_ms, n) < 2 * RECONNECT_ELAPSED_CEILING_MS,
        n >= max_attempts ==> run_elapsed(max_attempts, initial_delay_ms, n) == run_elapsed(
            max_attempts,
            initial_delay_ms,
            max_attempts,
        ),
    decreases n,
{
    if n > 0 {
        lemma_reconnect_run_bounded(max_attempts, initial_delay_ms, (n - 1) as u32);
        let prev = run_elapsed(max_attempts, initial_delay_ms, (n - 1) as u32);
        match spec_plan_reconnect(max_attempts, initial_delay_ms, (n - 1) as u32, prev as u64) {
            ReconnectStep::Retry { delay_ms } => {
                assert(prev < RECONNECT_ELAPSED_CEILING_MS);
                assert(delay_ms <= RECONNECT_ELAPSED_CEILING_MS);
            },
            ReconnectStep::GiveUp(_) => {},
        }
    }
}

/// Replaying after a drop and a successful handshake resubscribes exactly
/// the registry contents from before the drop, in their original insertion
/// order, once each: the drop keeps the registry, and the handshake's
/// replay lists one subscribe command per entry, in order.
pub proof fn lemma_replay_after_drop(before: &StreamConnection, after: &StreamConnection)
    requires
        before.wf(),
        after.subs() == before.subs(),
        after.pending() == replay_commands(before.subs()),
    ensures
        after.pending().len() == before.subs().len(),
        forall|i: int|
            0 <= i < before.subs().len() ==> after.pending()[i] == subscribe_command(
                #[trigger] before.subs()[i],
            ),
        forall|i: int, j: int|
            0 <= i < j < after.pending().len() ==> after.pending()[i] != after.pending()[j],
{
    assert forall|i: int, j: int| 0 <= i < j < after.pending().len() implies after.pending()[i]
        != after.pending()[j] by {
        assert(before.subs()[i] != before.subs()[j]);
    }
}

} // verus!
