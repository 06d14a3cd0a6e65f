use vstd::prelude::*;
use crate::instrument::{FutureKind, Instrument, InstrumentKind};
use crate::subscription::{
    ExchangeId, StreamKind, Subscription, SubscriptionId, SubscriptionView, subscription_key,
};
use crate::socket::error::SocketError;

verus! {

/// The phases of one exchange connection.
#[derive(Clone, Copy, PartialEq, Eq, Structural, Debug)]
pub enum SocketState {
    /// The transport is being set up.
    Connecting,
    /// Subscribe requests are out; acknowledgements are awaited.
    Subscribing,
    /// Frames are decoded and attributed to subscriptions.
    Streaming,
    /// The connection is over; nothing more happens.
    Terminated,
}

/// What the connection reports to the socket.
pub enum SocketEvent<T> {
    /// The transport is up.
    Connected,
    /// The transport could not be set up.
    ConnectFailed(tokio_tungstenite::tungstenite::Error),
    /// The exchange acknowledged one subscribe request.
    SubscribeAck,
    /// The exchange rejected a subscribe request.
    SubscribeRejected(String),
    /// A decoded frame carrying the identifier `id`.
    Frame { id: String, data: T },
    /// A frame that could not be decoded.
    DecodeFailed { error: serde_json::Error, payload: String },
    /// A frame asked for something the exchange does not support.
    Unsupported { entity: &'static str, item: String },
    /// The remote end closed the connection.
    Closed(String),
    /// Writing to the transport failed.
    SinkFailed,
    /// The transport failed.
    TransportFailed(tokio_tungstenite::tungstenite::Error),
    /// The consumer went away: close the connection.
    Shutdown,
}

/// A decoded frame attributed to its subscription.
#[derive(Debug)]
pub struct MarketEvent<T> {
    pub exchange: ExchangeId,
    pub id: SubscriptionId,
    pub instrument: Instrument,
    pub stream: StreamKind,
    pub data: T,
}

/// What the caller must do after handing the socket an event.
pub enum SocketAction<T> {
    /// Nothing.
    Idle,
    /// Send one subscribe request for each identifier.
    SendSubscribe(Vec<SubscriptionId>),
    /// Forward an identified event on the output stream.
    Emit(MarketEvent<T>),
    /// Put a frame-local error on the output stream; the connection goes on.
    Report(SocketError),
    /// Put this error on the output stream as its last item and close.
    Fail(SocketError),
    /// Close the connection without an error.
    Close,
}

/// Whether `ex` serves `stream` data of instruments of kind `kind`.
pub open spec fn supports(ex: ExchangeId, kind: InstrumentKind, stream: StreamKind) -> bool {
    &&& stream == StreamKind::Trades
    &&& match ex {
        ExchangeId::Binance => kind == InstrumentKind::Spot,
        ExchangeId::BinanceFutures => kind == InstrumentKind::Future(FutureKind::Perpetual),
        ExchangeId::Ftx => kind == InstrumentKind::Spot || kind == InstrumentKind::Future(
            FutureKind::Perpetual,
        ),
    }
}

/// Whether `ex` serves `stream` data of instruments of kind `kind`.
pub fn is_supported(ex: ExchangeId, kind: InstrumentKind, stream: StreamKind) -> (r: bool)
    ensures
        r == supports(ex, kind, stream),
{
    match stream {
        StreamKind::Trades => match ex {
            ExchangeId::Binance => match kind {
                InstrumentKind::Spot => true,
                InstrumentKind::Future(_) => false,
            },
            ExchangeId::BinanceFutures => match kind {
                InstrumentKind::Future(FutureKind::Perpetual) => true,
                _ => false,
            },
            ExchangeId::Ftx => match kind {
                InstrumentKind::Spot => true,
                InstrumentKind::Future(FutureKind::Perpetual) => true,
                InstrumentKind::Future(FutureKind::Expiry) => false,
            },
        },
        _ => false,
    }
}

/// The mathematical value of a socket.
pub struct SocketView {
    pub exchange: ExchangeId,
    pub state: SocketState,
    pub subscriptions: Seq<SubscriptionView>,
    pub ids: Seq<Seq<char>>,
    pub pending: nat,
}

/// `i` is the first position of `id` in `ids`.
pub open spec fn first_match(ids: Seq<Seq<char>>, id: Seq<char>, i: int) -> bool {
    &&& 0 <= i < ids.len()
    &&& ids[i] == id
    &&& forall|j: int| 0 <= j < i ==> ids[j] != id
}

/// `id` is the identifier of some subscription of `ids`.
pub open spec fn is_known(ids: Seq<Seq<char>>, id: Seq<char>) -> bool {
    exists|i: int| 0 <= i < ids.len() && ids[i] == id
}

/// The connection of one exchange: its subscriptions, their identifiers and
/// the phase it is in.
pub struct ExchangeSocket {
    exchange: ExchangeId,
    state: SocketState,
    subscriptions: Vec<Subscription>,
    ids: Vec<SubscriptionId>,
    pending: usize,
}

impl View for ExchangeSocket {
    type V = SocketView;

    closed spec fn view(&self) -> SocketView {
        SocketView {
            exchange: self.exchange,
            state: self.state,
            subscriptions: self.subscriptions@.map_values(|s: Subscription| s@),
            ids: self.ids@.map_values(|i: SubscriptionId| i@),
            pending: self.pending as nat,
        }
    }
}

/// Each identifier is derived from the subscription at its position, and no
/// more acknowledgements are awaited than requests were sent.
pub open spec fn socket_wf(v: SocketView) -> bool {
    &&& v.ids.len() == v.subscriptions.len()
    &&& forall|i: int|
        0 <= i < v.ids.len() ==> #[trigger] v.ids[i] == subscription_key(
            v.exchange,
            v.subscriptions[i].instrument,
            v.subscriptions[i].stream,
        )
    &&& v.pending <= v.subscriptions.len()
    &&& v.state == SocketState::Subscribing ==> v.pending > 0
}

/// Every subscription is one that the exchange serves.
pub open spec fn all_supported(v: SocketView) -> bool {
    forall|i: int|
        0 <= i < v.subscriptions.len() ==> supports(
            v.exchange,
            #[trigger] v.subscriptions[i].instrument.kind,
            v.subscriptions[i].stream,
        )
}

/// Subscription `i` of `v` is the first that the exchange does not serve.
pub open spec fn first_unsupported_at(v: SocketView, i: int) -> bool {
    &&& 0 <= i < v.subscriptions.len()
    &&& !supports(v.exchange, v.subscriptions[i].instrument.kind, v.subscriptions[i].stream)
    &&& forall|j: int|
        0 <= j < i ==> supports(
            v.exchange,
            #[trigger] v.subscriptions[j].instrument.kind,
            v.subscriptions[j].stream,
        )
}

/// `w` is `v` in phase `state`, awaiting `pending` acknowledgements.
pub open spec fn moved_to(v: SocketView, w: SocketView, state: SocketState, pending: nat) -> bool {
    w == SocketView { state, pending, ..v }
}

/// `a` hands on an identified event for `data`, attributed to the first
/// subscription of `v` whose identifier is `id`; or, where none has it, one
/// `Unidentifiable` error for `id`.
pub open spec fn identified<T>(v: SocketView, id: Seq<char>, data: T, a: SocketAction<T>) -> bool {
    if is_known(v.ids, id) {
        exists|i: int|
            #[trigger] first_match(v.ids, id, i) && (
            a matches SocketAction::Emit(m) && m.exchange == v.exchange && m.id@ == v.ids[i]
                && m.instrument@ == v.subscriptions[i].instrument && m.stream
                == v.subscriptions[i].stream && m.data == data)
    } else {
        a matches SocketAction::Report(SocketError::Unidentifiable(sid)) && sid@ == id
    }
}

/// `a` sends one subscribe request for each identifier of `ids`, in order.
pub open spec fn sends<T>(a: SocketAction<T>, ids: Seq<Seq<char>>) -> bool {
    a matches SocketAction::SendSubscribe(l) && l@.map_values(|i: SubscriptionId| i@) == ids
}

/// The transition of a socket in state `v` on event `ev`, to state `w` with
/// action `a`.
pub open spec fn step_spec<T>(v: SocketView, ev: SocketEvent<T>, w: SocketView, a: SocketAction<T>) -> bool {
    if v.state == SocketState::Terminated {
        w == v && a is Idle
    } else {
        match ev {
            SocketEvent::Connected => if v.state == SocketState::Connecting {
                if !all_supported(v) {
                    moved_to(v, w, SocketState::Terminated, v.pending) && exists|i: int|
                        #[trigger] first_unsupported_at(v, i) && (a matches SocketAction::Fail(
                            SocketError::Subscribe(m),
                        ) && m@ == "unsupported subscription: "@ + v.ids[i])
                } else if v.subscriptions.len() == 0 {
                    moved_to(v, w, SocketState::Streaming, 0) && sends(a, v.ids)
                } else {
                    moved_to(v, w, SocketState::Subscribing, v.subscriptions.len()) && sends(a, v.ids)
                }
            } else {
                w == v && a is Idle
            },
            SocketEvent::ConnectFailed(e) => moved_to(v, w, SocketState::Terminated, v.pending) && a
                == SocketAction::<T>::Fail(SocketError::WebSocket(e)),
            SocketEvent::TransportFailed(e) => moved_to(v, w, SocketState::Terminated, v.pending) && a
                == SocketAction::<T>::Fail(SocketError::WebSocket(e)),
            SocketEvent::SubscribeRejected(m) => moved_to(v, w, SocketState::Terminated, v.pending)
                && a == SocketAction::<T>::Fail(SocketError::Subscribe(m)),
            SocketEvent::Closed(m) => moved_to(v, w, SocketState::Terminated, v.pending) && a
                == SocketAction::<T>::Fail(SocketError::Terminated(m)),
            SocketEvent::SinkFailed => moved_to(v, w, SocketState::Terminated, v.pending) && a
                == SocketAction::<T>::Fail(SocketError::Sink),
            SocketEvent::Shutdown => moved_to(v, w, SocketState::Terminated, v.pending) && a is Close,
            SocketEvent::SubscribeAck => if v.state == SocketState::Subscribing {
                a is Idle && if v.pending == 1 {
                    moved_to(v, w, SocketState::Streaming, 0)
                } else {
                    moved_to(v, w, SocketState::Subscribing, (v.pending - 1) as nat)
                }
            } else {
                w == v && a is Idle
            },
            SocketEvent::Frame { id, data } => w == v && if v.state == SocketState::Connecting {
                a is Idle
            } else {
                identified(v, id@, data, a)
            },
            SocketEvent::DecodeFailed { error, payload } => w == v && if v.state
                == SocketState::Connecting {
                a is Idle
            } else {
                a == SocketAction::<T>::Report(SocketError::Serde { error, payload })
            },
            SocketEvent::Unsupported { entity, item } => w == v && if v.state
                == SocketState::Connecting {
                a is Idle
            } else {
                a == SocketAction::<T>::Report(SocketError::Unsupported { entity, item })
            },
        }
    }
}

impl ExchangeSocket {
    /// A socket for `exchange` in phase `Connecting`, holding `subscriptions`
    /// and the identifier derived from each.
    pub fn new(exchange: ExchangeId, subscriptions: Vec<Subscription>) -> (r: ExchangeSocket)
        ensures
            socket_wf(r@),
            r@.exchange == exchange,
            r@.state == SocketState::Connecting,
            r@.subscriptions == subscriptions@.map_values(|s: Subscription| s@),
            r@.pending == 0,
    {
        let mut ids: Vec<SubscriptionId> = Vec::new();
        let mut i: usize = 0;
        while i < subscriptions.len()
            invariant
                i <= subscriptions.len(),
                ids@.len() == i,
                forall|j: int|
                    0 <= j < i ==> #[trigger] ids@[j]@ == subscription_key(
                        exchange,
                        subscriptions@[j]@.instrument,
                        subscriptions@[j].stream,
                    ),
            decreases subscriptions.len() - i,
        {
            let id = SubscriptionId::derive(exchange, &subscriptions[i].instrument, subscriptions[i].stream);
            ids.push(id);
            i = i + 1;
        }
        let r = ExchangeSocket { exchange, state: SocketState::Connecting, subscriptions, ids, pending: 0 };
        assert forall|j: int| 0 <= j < r@.ids.len() implies #[trigger] r@.ids[j] == subscription_key(
            r@.exchange,
            r@.subscriptions[j].instrument,
            r@.subscriptions[j].stream,
        ) by {
            assert(r@.ids[j] == ids@[j]@);
        }
        r
    }

    /// The position of the first subscription that the exchange does not
    /// serve, if any.
    fn first_unsupported(&self) -> (r: Option<usize>)
        ensures
            r is None <==> all_supported(self@),
            r matches Some(i) ==> first_unsupported_at(self@, i as int),
    {
        let mut i: usize = 0;
        while i < self.subscriptions.len()
            invariant
                i <= self.subscriptions@.len(),
                self@.subscriptions.len() == self.subscriptions@.len(),
                forall|j: int|
                    0 <= j < i ==> supports(
                        self@.exchange,
                        #[trigger] self@.subscriptions[j].instrument.kind,
                        self@.subscriptions[j].stream,
                    ),
            decreases self.subscriptions.len() - i,
        {
            let sub = &self.subscriptions[i];
            assert(self@.subscriptions[i as int] == sub@);
            if !is_supported(self.exchange, sub.instrument.kind, sub.stream) {
                assert(!supports(
                    self@.exchange,
                    self@.subscriptions[i as int].instrument.kind,
                    self@.subscriptions[i as int].stream,
                ));
                return Some(i);
            }
            i = i + 1;
        }
        None
    }

    /// A copy of the identifiers.
    fn copy_ids(&self) -> (r: Vec<SubscriptionId>)
        ensures
            r@.map_values(|i: SubscriptionId| i@) == self@.ids,
    {
        let mut out: Vec<SubscriptionId> = Vec::new();
        let mut i: usize = 0;
        while i < self.ids.len()
            invariant
                i <= self.ids@.len(),
                out@.len() == i,
                forall|j: int| 0 <= j < i ==> #[trigger] out@[j]@ == self.ids@[j]@,
            decreases self.ids.len() - i,
        {
            out.push(self.ids[i].duplicate());
            i = i + 1;
        }
        assert(out@.map_values(|i: SubscriptionId| i@) =~= self@.ids);
        out
    }

    /// The event for a frame carrying identifier `id`, or the error that no
    /// subscription has it.
    fn identify<T>(&self, id: String, data: T) -> (a: SocketAction<T>)
        requires
            socket_wf(self@),
        ensures
            identified(self@, id@, data, a),
    {
        let mut i: usize = 0;
        assert(self.subscriptions@.len() == self@.subscriptions.len());
        while i < self.ids.len()
            invariant
                i <= self.ids@.len(),
                self@.ids.len() == self.ids@.len(),
                self.subscriptions@.len() == self.ids@.len(),
                forall|j: int| 0 <= j < i ==> self@.ids[j] != id@,
            decreases self.ids.len() - i,
        {
            assert(self@.ids[i as int] == self.ids@[i as int]@);
            if self.ids[i].0 == id {
                let sub = &self.subscriptions[i];
                assert(self@.subscriptions[i as int] == sub@);
                let m = MarketEvent {
                    exchange: self.exchange,
                    id: self.ids[i].duplicate(),
                    instrument: sub.instrument.duplicate(),
                    stream: sub.stream,
                    data,
                };
                let a = SocketAction::Emit(m);
                assert(first_match(self@.ids, id@, i as int));
                return a;
            }
            i = i + 1;
        }
        SocketAction::Report(SocketError::Unidentifiable(SubscriptionId(id)))
    }

    /// Takes one event of the connection: moves to the next phase and says
    /// what the caller must do.
    pub fn step<T>(&mut self, ev: SocketEvent<T>) -> (a: SocketAction<T>)
        requires
            socket_wf(old(self)@),
        ensures
            socket_wf(final(self)@),
            step_spec(old(self)@, ev, final(self)@, a),
    {
        if let SocketState::Terminated = self.state {
            return SocketAction::Idle;
        }
        match ev {
            SocketEvent::Connected => {
                if let SocketState::Connecting = self.state {
                    match self.first_unsupported() {
                        Some(i) => {
                            self.state = SocketState::Terminated;
                            let mut msg = String::from_str("unsupported subscription: ");
                            msg.append(self.ids[i].as_str());
                            assert(self@.ids[i as int] == self.ids@[i as int]@);
                            assert(first_unsupported_at(old(self)@, i as int));
                            SocketAction::Fail(SocketError::Subscribe(msg))
                        },
                        None => {
                            let ids = self.copy_ids();
                            if self.subscriptions.len() == 0 {
                                self.state = SocketState::Streaming;
                                self.pending = 0;
                            } else {
                                self.state = SocketState::Subscribing;
                                self.pending = self.subscriptions.len();
                            }
                            SocketAction::SendSubscribe(ids)
                        },
                    }
                } else {
                    SocketAction::Idle
                }
            },
            SocketEvent::ConnectFailed(e) => {
                self.state = SocketState::Terminated;
                SocketAction::Fail(SocketError::WebSocket(e))
            },
            SocketEvent::TransportFailed(e) => {
                self.state = SocketState::Terminated;
                SocketAction::Fail(SocketError::WebSocket(e))
            },
            SocketEvent::SubscribeRejected(m) => {
                self.state = SocketState::Terminated;
                SocketAction::Fail(SocketError::Subscribe(m))
            },
            SocketEvent::Closed(m) => {
                self.state = SocketState::Terminated;
                SocketAction::Fail(SocketError::Terminated(m))
            },
            SocketEvent::SinkFailed => {
                self.state = SocketState::Terminated;
                SocketAction::Fail(SocketError::Sink)
            },
            SocketEvent::Shutdown => {
                self.state = SocketState::Terminated;
                SocketAction::Close
            },
            SocketEvent::SubscribeAck => {
                if let SocketState::Subscribing = self.state {
                    self.pending = self.pending - 1;
                    if self.pending == 0 {
                        self.state = SocketState::Streaming;
                    }
                }
                SocketAction::Idle
            },
            SocketEvent::Frame { id, data } => {
                if let SocketState::Connecting = self.state {
                    SocketAction::Idle
                } else {
                    self.identify(id, data)
                }
            },
            SocketEvent::DecodeFailed { error, payload } => {
                if let SocketState::Connecting = self.state {
                    SocketAction::Idle
                } else {
                    SocketAction::Report(SocketError::Serde { error, payload })
                }
            },
            SocketEvent::Unsupported { entity, item } => {
                if let SocketState::Connecting = self.state {
                    SocketAction::Idle
                } else {
                    SocketAction::Report(SocketError::Unsupported { entity, item })
                }
            },
        }
    }

    /// The exchange of the socket.
    pub fn exchange(&self) -> (r: ExchangeId)
        ensures
            r == self@.exchange,
    {
        self.exchange
    }

    /// The phase the socket is in.
    pub fn state(&self) -> (r: SocketState)
        ensures
            r == self@.state,
    {
        self.state
    }

    /// The subscriptions of the socket.
    pub fn subscriptions(&self) -> (r: &Vec<Subscription>)
        ensures
            r@.map_values(|s: Subscription| s@) == self@.subscriptions,
    {
        &self.subscriptions
    }

    /// The identifiers of the subscriptions, position by position.
    pub fn ids(&self) -> (r: &Vec<SubscriptionId>)
        ensures
            r@.map_values(|i: SubscriptionId| i@) == self@.ids,
    {
        &self.ids
    }
}

/// A frame whose identifier matches no subscription of a live, connected
/// socket gives exactly one `Unidentifiable` item and leaves the socket as it
/// was: the connection goes on.
pub proof fn lemma_unknown_frame_reported<T>(
    v: SocketView,
    id: String,
    data: T,
    w: SocketView,
    a: SocketAction<T>,
)
    requires
        socket_wf(v),
        v.state == SocketState::Subscribing || v.state == SocketState::Streaming,
        !is_known(v.ids, id@),
        step_spec(v, SocketEvent::Frame { id, data }, w, a),
    ensures
        w == v,
        a matches SocketAction::Report(SocketError::Unidentifiable(sid)) && sid@ == id@,
{
}

} // verus!
