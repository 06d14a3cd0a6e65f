use vstd::prelude::*;
use crate::instrument::{Instrument, InstrumentKind, FutureKind, InstrumentView};

verus! {

/// The exchanges a stream can be opened on.
#[derive(Clone, Copy, PartialEq, Eq, Structural, PartialOrd, Ord, Hash, Debug)]
pub enum ExchangeId {
    BinanceFutures,
    Binance,
    Ftx,
}

/// The kinds of market data a subscription can ask for.
#[derive(Clone, Copy, PartialEq, Eq, Structural, PartialOrd, Ord, Hash, Debug)]
pub enum StreamKind {
    Trades,
    Quotes,
    OrderBook,
}

pub open spec fn exchange_name(e: ExchangeId) -> Seq<char> {
    match e {
        ExchangeId::BinanceFutures => "binance_futures"@,
        ExchangeId::Binance => "binance"@,
        ExchangeId::Ftx => "ftx"@,
    }
}

pub open spec fn kind_name(k: InstrumentKind) -> Seq<char> {
    match k {
        InstrumentKind::Spot => "spot"@,
        InstrumentKind::Future(FutureKind::Perpetual) => "future_perpetual"@,
        InstrumentKind::Future(FutureKind::Expiry) => "future_expiry"@,
    }
}

pub open spec fn stream_name(s: StreamKind) -> Seq<char> {
    match s {
        StreamKind::Trades => "trades"@,
        StreamKind::Quotes => "quotes"@,
        StreamKind::OrderBook => "order_book"@,
    }
}

impl ExchangeId {
    /// The wire name of the exchange.
    pub fn name(&self) -> (r: &'static str)
        ensures
            r@ == exchange_name(*self),
    {
        match self {
            ExchangeId::BinanceFutures => "binance_futures",
            ExchangeId::Binance => "binance",
            ExchangeId::Ftx => "ftx",
        }
    }
}

impl InstrumentKind {
    /// The name of the kind as it stands in a subscription identifier.
    pub fn name(&self) -> (r: &'static str)
        ensures
            r@ == kind_name(*self),
    {
        match self {
            InstrumentKind::Spot => "spot",
            InstrumentKind::Future(FutureKind::Perpetual) => "future_perpetual",
            InstrumentKind::Future(FutureKind::Expiry) => "future_expiry",
        }
    }
}

impl StreamKind {
    /// The name of the stream kind.
    pub fn name(&self) -> (r: &'static str)
        ensures
            r@ == stream_name(*self),
    {
        match self {
            StreamKind::Trades => "trades",
            StreamKind::Quotes => "quotes",
            StreamKind::OrderBook => "order_book",
        }
    }
}

/// One subscription: a kind of data about one instrument.
#[derive(Debug)]
pub struct Subscription {
    pub instrument: Instrument,
    pub stream: StreamKind,
}

/// The mathematical value of a subscription.
pub struct SubscriptionView {
    pub instrument: InstrumentView,
    pub stream: StreamKind,
}

impl View for Subscription {
    type V = SubscriptionView;

    open spec fn view(&self) -> SubscriptionView {
        SubscriptionView { instrument: self.instrument@, stream: self.stream }
    }
}

impl Subscription {
    /// The subscription to `stream` data of `base`/`quote` of kind `kind`.
    pub fn new(base: &str, quote: &str, kind: InstrumentKind, stream: StreamKind) -> (r: Subscription)
        ensures
            crate::instrument::is_lower_form(base@, r.instrument.base@),
            crate::instrument::is_lower_form(quote@, r.instrument.quote@),
            r.instrument.kind == kind,
            r.stream == stream,
    {
        Subscription { instrument: Instrument::new(base, quote, kind), stream }
    }

    /// A copy of the subscription.
    pub fn duplicate(&self) -> (r: Subscription)
        ensures
            r@ == self@,
    {
        Subscription { instrument: self.instrument.duplicate(), stream: self.stream }
    }
}

/// The character between the parts of a subscription identifier.
pub open spec fn sep() -> Seq<char> {
    seq!['|']
}

/// The text of the identifier of a subscription to `stream` data of
/// instrument `inst` on exchange `ex`.
pub open spec fn subscription_key(ex: ExchangeId, inst: InstrumentView, stream: StreamKind) -> Seq<char> {
    joined(
        exchange_name(ex),
        joined(inst.base, joined(inst.quote, joined(kind_name(inst.kind), stream_name(stream)))),
    )
}

/// `a` and `r` with the separator between them.
pub open spec fn joined(a: Seq<char>, r: Seq<char>) -> Seq<char> {
    a + sep() + r
}

/// The routing key of one subscription: exchange, instrument and stream kind
/// joined by `|`.
#[derive(Clone, Eq, Hash, Debug)]
pub struct SubscriptionId(pub String);

impl View for SubscriptionId {
    type V = Seq<char>;

    open spec fn view(&self) -> Seq<char> {
        self.0@
    }
}

impl PartialEq for SubscriptionId {
    fn eq(&self, other: &SubscriptionId) -> (r: bool)
        ensures
            r == (self@ == other@),
    {
        self.0 == other.0
    }
}

impl vstd::std_specs::cmp::PartialEqSpecImpl for SubscriptionId {
    open spec fn obeys_eq_spec() -> bool {
        true
    }

    open spec fn eq_spec(&self, other: &SubscriptionId) -> bool {
        self@ == other@
    }
}

impl SubscriptionId {
    /// Derives the identifier of a subscription to `stream` data of `inst` on
    /// `ex`.
    pub fn derive(ex: ExchangeId, inst: &Instrument, stream: StreamKind) -> (r: SubscriptionId)
        ensures
            r@ == subscription_key(ex, inst@, stream),
    {
        let mut s = String::from_str(ex.name());
        s.append("|");
        s.append(inst.base.as_str());
        s.append("|");
        s.append(inst.quote.as_str());
        s.append("|");
        s.append(inst.kind.name());
        s.append("|");
        s.append(stream.name());
        proof {
            reveal_strlit("|");
        }
        assert(s@ =~= subscription_key(ex, inst@, stream));
        SubscriptionId(s)
    }

    /// A copy of the identifier.
    pub fn duplicate(&self) -> (r: SubscriptionId)
        ensures
            r@ == self@,
    {
        SubscriptionId(self.0.clone())
    }

    /// The text of the identifier.
    pub fn as_str(&self) -> (r: &str)
        ensures
            r@ == self@,
    {
        self.0.as_str()
    }
}

/// `s` holds no separator.
pub open spec fn no_sep(s: Seq<char>) -> bool {
    forall|i: int| 0 <= i < s.len() ==> s[i] != '|'
}

proof fn lemma_split_at_sep(a: Seq<char>, r1: Seq<char>, b: Seq<char>, r2: Seq<char>)
    requires
        no_sep(a),
        no_sep(b),
        a + sep() + r1 == b + sep() + r2,
    ensures
        a == b,
        r1 == r2,
{
    let l = a + sep() + r1;
    let m = b + sep() + r2;
    if a.len() < b.len() {
        assert(l[a.len() as int] == '|');
        assert(m[a.len() as int] == b[a.len() as int]);
    } else if b.len() < a.len() {
        assert(m[b.len() as int] == '|');
        assert(l[b.len() as int] == a[b.len() as int]);
    } else {
        assert(a =~= l.subrange(0, a.len() as int));
        assert(b =~= m.subrange(0, b.len() as int));
        assert(r1 =~= l.subrange(a.len() as int + 1, l.len() as int));
        assert(r2 =~= m.subrange(b.len() as int + 1, m.len() as int));
    }
}

proof fn lemma_names_have_no_sep(ex: ExchangeId, k: InstrumentKind, st: StreamKind)
    ensures
        no_sep(exchange_name(ex)),
        no_sep(kind_name(k)),
        no_sep(stream_name(st)),
{
    reveal_strlit("binance_futures");
    reveal_strlit("binance");
    reveal_strlit("ftx");
    reveal_strlit("spot");
    reveal_strlit("future_perpetual");
    reveal_strlit("future_expiry");
    reveal_strlit("trades");
    reveal_strlit("quotes");
    reveal_strlit("order_book");
}

proof fn lemma_names_distinct(e1: ExchangeId, e2: ExchangeId, k1: InstrumentKind, k2: InstrumentKind, s1: StreamKind, s2: StreamKind)
    ensures
        exchange_name(e1) == exchange_name(e2) ==> e1 == e2,
        kind_name(k1) == kind_name(k2) ==> k1 == k2,
        stream_name(s1) == stream_name(s2) ==> s1 == s2,
{
    reveal_strlit("binance_futures");
    reveal_strlit("binance");
    reveal_strlit("ftx");
    reveal_strlit("spot");
    reveal_strlit("future_perpetual");
    reveal_strlit("future_expiry");
    reveal_strlit("trades");
    reveal_strlit("quotes");
    reveal_strlit("order_book");
    if exchange_name(e1) == exchange_name(e2) && e1 != e2 {
        assert(exchange_name(e1).len() != exchange_name(e2).len());
    }
    if kind_name(k1) == kind_name(k2) && k1 != k2 {
        assert(kind_name(k1).len() != kind_name(k2).len() || kind_name(k1)[7] != kind_name(k2)[7]);
    }
    if stream_name(s1) == stream_name(s2) && s1 != s2 {
        assert(stream_name(s1).len() != stream_name(s2).len() || stream_name(s1)[0] != stream_name(s2)[0]);
    }
}

/// Subscription identifiers tell subscriptions apart: two subscriptions get
/// the same identifier exactly when they agree on exchange, instrument and
/// stream kind, provided no symbol holds the separator `|`.
pub proof fn lemma_subscription_key_injective(
    e1: ExchangeId,
    i1: InstrumentView,
    s1: StreamKind,
    e2: ExchangeId,
    i2: InstrumentView,
    s2: StreamKind,
)
    requires
        no_sep(i1.base),
        no_sep(i1.quote),
        no_sep(i2.base),
        no_sep(i2.quote),
    ensures
        (subscription_key(e1, i1, s1) == subscription_key(e2, i2, s2)) <==> (e1 == e2 && i1 == i2
            && s1 == s2),
{
    if subscription_key(e1, i1, s1) == subscription_key(e2, i2, s2) {
        lemma_names_have_no_sep(e1, i1.kind, s1);
        lemma_names_have_no_sep(e2, i2.kind, s2);
        lemma_names_distinct(e1, e2, i1.kind, i2.kind, s1, s2);
        let v1 = joined(kind_name(i1.kind), stream_name(s1));
        let v2 = joined(kind_name(i2.kind), stream_name(s2));
        let u1 = joined(i1.quote, v1);
        let u2 = joined(i2.quote, v2);
        let t1 = joined(i1.base, u1);
        let t2 = joined(i2.base, u2);
        lemma_split_at_sep(exchange_name(e1), t1, exchange_name(e2), t2);
        lemma_split_at_sep(i1.base, u1, i2.base, u2);
        lemma_split_at_sep(i1.quote, v1, i2.quote, v2);
        lemma_split_at_sep(kind_name(i1.kind), stream_name(s1), kind_name(i2.kind), stream_name(s2));
    }
}

} // verus!
