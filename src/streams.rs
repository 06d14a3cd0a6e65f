use vstd::prelude::*;
use crate::instrument::{InstrumentKind, is_lower_form};
use crate::subscription::{ExchangeId, StreamKind, Subscription, SubscriptionView};
use crate::socket::actor::{ExchangeSocket, SocketState, socket_wf};
use crate::socket::error::SocketError;

verus! {

/// The subscriptions of `entries` that go to `ex`, in the order they were made.
pub open spec fn group_of(entries: Seq<(ExchangeId, SubscriptionView)>, ex: ExchangeId) -> Seq<SubscriptionView>
    decreases entries.len(),
{
    if entries.len() == 0 {
        Seq::empty()
    } else {
        let rest = group_of(entries.drop_last(), ex);
        if entries.last().0 == ex {
            rest.push(entries.last().1)
        } else {
            rest
        }
    }
}

/// The exchanges of `entries`, each once, in the order of first appearance.
pub open spec fn exchanges_of(entries: Seq<(ExchangeId, SubscriptionView)>) -> Seq<ExchangeId>
    decreases entries.len(),
{
    if entries.len() == 0 {
        Seq::empty()
    } else {
        let rest = exchanges_of(entries.drop_last());
        if rest.contains(entries.last().0) {
            rest
        } else {
            rest.push(entries.last().0)
        }
    }
}

/// `e` is subscription `t` asked for on `ex`, with its symbols normalised.
pub open spec fn made_from(e: (ExchangeId, SubscriptionView), ex: ExchangeId, t: (&str, &str, InstrumentKind, StreamKind)) -> bool {
    &&& e.0 == ex
    &&& is_lower_form(t.0@, e.1.instrument.base)
    &&& is_lower_form(t.1@, e.1.instrument.quote)
    &&& e.1.instrument.kind == t.2
    &&& e.1.stream == t.3
}

/// The declared subscriptions of every exchange, before any connection is
/// made.
pub struct StreamBuilder {
    entries: Vec<(ExchangeId, Subscription)>,
}

impl View for StreamBuilder {
    type V = Seq<(ExchangeId, SubscriptionView)>;

    closed spec fn view(&self) -> Seq<(ExchangeId, SubscriptionView)> {
        self.entries@.map_values(|e: (ExchangeId, Subscription)| (e.0, e.1@))
    }
}

impl StreamBuilder {
    /// A builder with no subscriptions.
    pub fn new() -> (r: StreamBuilder)
        ensures
            r@ == Seq::<(ExchangeId, SubscriptionView)>::empty(),
    {
        let r = StreamBuilder { entries: Vec::new() };
        assert(r@ =~= Seq::<(ExchangeId, SubscriptionView)>::empty());
        r
    }

    /// Adds the subscriptions `subs` to those of exchange `ex`; each is a base,
    /// a quote, an instrument kind and a stream kind.
    pub fn subscribe(self, ex: ExchangeId, subs: Vec<(&str, &str, InstrumentKind, StreamKind)>) -> (r: StreamBuilder)
        ensures
            r@.len() == self@.len() + subs@.len(),
            r@.subrange(0, self@.len() as int) == self@,
            forall|k: int| 0 <= k < subs@.len() ==> made_from(#[trigger] r@[self@.len() + k], ex, subs@[k]),
    {
        let mut entries = self.entries;
        let ghost start = entries@;
        let mut i: usize = 0;
        while i < subs.len()
            invariant
                i <= subs@.len(),
                entries@.len() == start.len() + i,
                entries@.subrange(0, start.len() as int) == start,
                forall|k: int| 0 <= k < i ==> made_from(
                    (#[trigger] entries@[start.len() + k].0, entries@[start.len() + k].1@),
                    ex,
                    subs@[k],
                ),
            decreases subs.len() - i,
        {
            let t = subs[i];
            let sub = Subscription::new(t.0, t.1, t.2, t.3);
            entries.push((ex, sub));
            proof {
                assert(entries@.subrange(0, start.len() as int) =~= start);
            }
            i = i + 1;
        }
        let r = StreamBuilder { entries };
        assert(r@.subrange(0, self@.len() as int) =~= self@);
        assert forall|k: int| 0 <= k < subs@.len() implies made_from(#[trigger] r@[self@.len() + k], ex, subs@[k]) by {
            assert(r@[self@.len() + k] == (entries@[start.len() + k].0, entries@[start.len() + k].1@));
        }
        r
    }

    /// The exchanges that have subscriptions, each once, in the order in
    /// which they were first subscribed to.
    pub fn exchanges(&self) -> (r: Vec<ExchangeId>)
        ensures
            r@ == exchanges_of(self@),
            r@.no_duplicates(),
    {
        let mut out: Vec<ExchangeId> = Vec::new();
        let mut i: usize = 0;
        while i < self.entries.len()
            invariant
                i <= self@.len(),
                self@.len() == self.entries@.len(),
                out@ == exchanges_of(self@.take(i as int)),
                out@.no_duplicates(),
            decreases self.entries.len() - i,
        {
            let ex = self.entries[i].0;
            assert(self@.take(i + 1).drop_last() =~= self@.take(i as int));
            assert(self@[i as int].0 == ex);
            let mut seen = false;
            let mut j: usize = 0;
            while j < out.len()
                invariant
                    j <= out@.len(),
                    seen <==> exists|k: int| 0 <= k < j && out@[k] == ex,
                decreases out.len() - j,
            {
                if out[j] == ex {
                    seen = true;
                }
                j = j + 1;
            }
            if !seen {
                proof {
                    assert(!out@.contains(ex));
                }
                out.push(ex);
            } else {
                proof {
                    let k = choose|k: int| 0 <= k < out@.len() && out@[k] == ex;
                    assert(out@.contains(ex));
                }
            }
            i = i + 1;
        }
        assert(self@.take(self@.len() as int) =~= self@);
        out
    }

    /// The subscriptions made for `ex`, in the order they were made.
    pub fn subscriptions_for(&self, ex: ExchangeId) -> (r: Vec<Subscription>)
        ensures
            r@.map_values(|s: Subscription| s@) == group_of(self@, ex),
    {
        let mut out: Vec<Subscription> = Vec::new();
        let mut i: usize = 0;
        while i < self.entries.len()
            invariant
                i <= self@.len(),
                self@.len() == self.entries@.len(),
                out@.map_values(|s: Subscription| s@) == group_of(self@.take(i as int), ex),
            decreases self.entries.len() - i,
        {
            assert(self@.take(i + 1).drop_last() =~= self@.take(i as int));
            let e = &self.entries[i];
            assert(self@[i as int] == (e.0, e.1@));
            if e.0 == ex {
                let ghost before = out@;
                out.push(e.1.duplicate());
                assert(out@.map_values(|s: Subscription| s@) =~= before.map_values(|s: Subscription| s@).push(
                    e.1@,
                ));
            }
            i = i + 1;
        }
        assert(self@.take(self@.len() as int) =~= self@);
        out
    }

    /// One socket per exchange, in phase `Connecting`, holding every
    /// subscription made for that exchange.
    pub fn sockets(&self) -> (r: Vec<ExchangeSocket>)
        ensures
            r@.len() == exchanges_of(self@).len(),
            forall|k: int|
                0 <= k < r@.len() ==> {
                    &&& socket_wf(#[trigger] r@[k]@)
                    &&& r@[k]@.exchange == exchanges_of(self@)[k]
                    &&& r@[k]@.state == SocketState::Connecting
                    &&& r@[k]@.subscriptions == group_of(self@, exchanges_of(self@)[k])
                },
    {
        let exs = self.exchanges();
        let mut out: Vec<ExchangeSocket> = Vec::new();
        let mut k: usize = 0;
        while k < exs.len()
            invariant
                k <= exs@.len(),
                exs@ == exchanges_of(self@),
                out@.len() == k,
                forall|j: int|
                    0 <= j < k ==> {
                        &&& socket_wf(#[trigger] out@[j]@)
                        &&& out@[j]@.exchange == exs@[j]
                        &&& out@[j]@.state == SocketState::Connecting
                        &&& out@[j]@.subscriptions == group_of(self@, exs@[j])
                    },
            decreases exs.len() - k,
        {
            let subs = self.subscriptions_for(exs[k]);
            out.push(ExchangeSocket::new(exs[k], subs));
            k = k + 1;
        }
        out
    }
}

/// `ex` has an entry in `s`.
pub open spec fn has_key<H>(s: Seq<(ExchangeId, H)>, ex: ExchangeId) -> bool {
    exists|k: int| 0 <= k < s.len() && s[k].0 == ex
}

/// No exchange has two entries in `s`.
pub open spec fn keys_unique<H>(s: Seq<(ExchangeId, H)>) -> bool {
    forall|i: int, j: int| 0 <= i < j < s.len() ==> s[i].0 != s[j].0
}

/// The output handle of each exchange whose connection is streaming.
pub struct Streams<H> {
    handles: Vec<(ExchangeId, H)>,
}

impl<H> View for Streams<H> {
    type V = Seq<(ExchangeId, H)>;

    closed spec fn view(&self) -> Seq<(ExchangeId, H)> {
        self.handles@
    }
}

impl<H> Streams<H> {
    /// Starts the declaration of subscriptions.
    pub fn builder() -> (r: StreamBuilder)
        ensures
            r@ == Seq::<(ExchangeId, SubscriptionView)>::empty(),
    {
        StreamBuilder::new()
    }

    /// No handles yet.
    pub fn new() -> (r: Streams<H>)
        ensures
            r@ == Seq::<(ExchangeId, H)>::empty(),
    {
        Streams { handles: Vec::new() }
    }

    /// The position of the entry of `ex`, if it has one.
    fn position(&self, ex: ExchangeId) -> (r: Option<usize>)
        ensures
            r is None <==> !has_key(self@, ex),
            r matches Some(k) ==> k < self@.len() && self@[k as int].0 == ex,
    {
        let mut k: usize = 0;
        while k < self.handles.len()
            invariant
                k <= self@.len(),
                self@ == self.handles@,
                forall|j: int| 0 <= j < k ==> self@[j].0 != ex,
            decreases self.handles.len() - k,
        {
            if self.handles[k].0 == ex {
                return Some(k);
            }
            k = k + 1;
        }
        None
    }

    /// Records `h` as the handle of `ex`, handing back the handle it replaces.
    pub fn insert(&mut self, ex: ExchangeId, h: H) -> (r: Option<H>)
        requires
            keys_unique(old(self)@),
        ensures
            keys_unique(final(self)@),
            match r {
                None => !has_key(old(self)@, ex) && final(self)@ == old(self)@.push((ex, h)),
                Some(p) => exists|k: int|
                    0 <= k < old(self)@.len() && #[trigger] old(self)@[k] == (ex, p) && final(self)@
                        == old(self)@.remove(k).push((ex, h)),
            },
    {
        match self.position(ex) {
            None => {
                self.handles.push((ex, h));
                None
            },
            Some(k) => {
                let (_, p) = self.handles.remove(k);
                self.handles.push((ex, h));
                assert(old(self)@[k as int] == (ex, p));
                Some(p)
            },
        }
    }

    /// Takes the handle of `ex` out; `None` where `ex` has none.
    pub fn select(&mut self, ex: ExchangeId) -> (r: Option<H>)
        requires
            keys_unique(old(self)@),
        ensures
            keys_unique(final(self)@),
            match r {
                None => !has_key(old(self)@, ex) && final(self)@ == old(self)@,
                Some(p) => exists|k: int|
                    0 <= k < old(self)@.len() && #[trigger] old(self)@[k] == (ex, p) && final(self)@
                        == old(self)@.remove(k),
            },
    {
        match self.position(ex) {
            None => None,
            Some(k) => {
                let (_, p) = self.handles.remove(k);
                assert(old(self)@[k as int] == (ex, p));
                Some(p)
            },
        }
    }

    /// Every handle, with its exchange, to be merged into one stream.
    pub fn join(self) -> (r: Vec<(ExchangeId, H)>)
        ensures
            r@ == self@,
    {
        self.handles
    }
}

/// The exchanges of `s` whose connection came up, with their handles.
pub open spec fn streaming_of<H>(s: Seq<(ExchangeId, Result<H, SocketError>)>) -> Seq<(ExchangeId, H)>
    decreases s.len(),
{
    if s.len() == 0 {
        Seq::empty()
    } else {
        let rest = streaming_of(s.drop_last());
        match s.last().1 {
            Ok(h) => rest.push((s.last().0, h)),
            Err(_) => rest,
        }
    }
}

/// The exchanges of `s` whose connection failed, with their errors.
pub open spec fn failed_of<H>(s: Seq<(ExchangeId, Result<H, SocketError>)>) -> Seq<(ExchangeId, SocketError)>
    decreases s.len(),
{
    if s.len() == 0 {
        Seq::empty()
    } else {
        let rest = failed_of(s.drop_last());
        match s.last().1 {
            Ok(_) => rest,
            Err(e) => rest.push((s.last().0, e)),
        }
    }
}

proof fn lemma_streaming_keys<H>(s: Seq<(ExchangeId, Result<H, SocketError>)>)
    requires
        keys_unique(s),
    ensures
        keys_unique(streaming_of(s)),
        forall|ex: ExchangeId| has_key(streaming_of(s), ex) ==> has_key(s, ex),
    decreases s.len(),
{
    if s.len() > 0 {
        let t = s.drop_last();
        let last = s.last();
        lemma_streaming_keys(t);
        let st = streaming_of(t);
        assert forall|ex: ExchangeId| has_key(t, ex) implies has_key(s, ex) && ex != last.0 by {
            let k = choose|k: int| 0 <= k < t.len() && t[k].0 == ex;
            assert(s[k] == t[k]);
        }
        match last.1 {
            Ok(h) => {
                assert(streaming_of(s) == st.push((last.0, h)));
                assert forall|ex: ExchangeId| has_key(streaming_of(s), ex) implies has_key(s, ex) by {
                    let k = choose|k: int| 0 <= k < streaming_of(s).len() && streaming_of(s)[k].0 == ex;
                    if k < st.len() {
                        assert(st[k].0 == ex);
                        assert(has_key(st, ex));
                    } else {
                        assert(s[s.len() - 1].0 == ex);
                    }
                }
                assert forall|i: int, j: int| 0 <= i < j < streaming_of(s).len() implies streaming_of(s)[i].0
                    != streaming_of(s)[j].0 by {
                    assert(streaming_of(s).len() == st.len() + 1);
                    if j == st.len() {
                        assert(st[i].0 == streaming_of(s)[i].0);
                        assert(has_key(st, st[i].0));
                        assert(has_key(t, st[i].0));
                        assert(st[i].0 != last.0);
                        assert(streaming_of(s)[j] == (last.0, h));
                    } else {
                        assert(st[i] == streaming_of(s)[i]);
                        assert(st[j] == streaming_of(s)[j]);
                    }
                }
            },
            Err(_) => {
                assert(streaming_of(s) == st);
            },
        }
    }
}

/// Splits the outcome of each exchange's subscribe phase: the exchanges that
/// came up go into the streams, the others are reported with their errors.
/// A failure of one exchange takes nothing from the others.
pub fn settle<H>(outcomes: Vec<(ExchangeId, Result<H, SocketError>)>) -> (r: (Streams<H>, Vec<(ExchangeId, SocketError)>))
    requires
        keys_unique(outcomes@),
    ensures
        r.0@ == streaming_of(outcomes@),
        keys_unique(r.0@),
        r.1@ == failed_of(outcomes@),
{
    let ghost all = outcomes@;
    let mut handles: Vec<(ExchangeId, H)> = Vec::new();
    let mut failed: Vec<(ExchangeId, SocketError)> = Vec::new();
    let total = outcomes.len();
    let mut rest = outcomes;
    let mut n: usize = 0;
    while rest.len() > 0
        invariant
            n + rest@.len() == all.len(),
            all.len() == total,
            rest@ == all.skip(n as int),
            handles@ == streaming_of(all.take(n as int)),
            failed@ == failed_of(all.take(n as int)),
        decreases rest.len(),
    {
        let (ex, o) = rest.remove(0);
        assert(all.take(n + 1).drop_last() =~= all.take(n as int));
        assert(all[n as int] == (ex, o));
        match o {
            Ok(h) => handles.push((ex, h)),
            Err(e) => failed.push((ex, e)),
        }
        n = n + 1;
        assert(rest@ =~= all.skip(n as int));
    }
    assert(all.take(all.len() as int) =~= all);
    proof {
        lemma_streaming_keys(all);
    }
    (Streams { handles }, failed)
}

} // verus!
