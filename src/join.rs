use vstd::prelude::*;
use crate::subscription::ExchangeId;

verus! {

/// The items of `s` that came from `ex`, in order.
pub open spec fn from_exchange<T>(s: Seq<(ExchangeId, T)>, ex: ExchangeId) -> Seq<(ExchangeId, T)> {
    s.filter(|e: (ExchangeId, T)| e.0 == ex)
}

/// The mathematical value of a joined stream: what every producer has sent,
/// what the consumer has received, what waits in between, and the bound on
/// what may wait.
pub struct JoinedView<T> {
    pub sent: Seq<(ExchangeId, T)>,
    pub received: Seq<(ExchangeId, T)>,
    pub queue: Seq<(ExchangeId, T)>,
    pub capacity: nat,
}

/// What was sent is what was received followed by what waits, and no more
/// waits than the bound.
pub open spec fn joined_wf<T>(v: JoinedView<T>) -> bool {
    &&& v.sent == v.received + v.queue
    &&& v.queue.len() <= v.capacity
    &&& v.capacity > 0
}

/// The items of every exchange merged into one bounded first-in first-out
/// channel. A producer whose item finds the channel full gets it back and must
/// wait: nothing is dropped.
pub struct JoinedStream<T> {
    queue: Vec<(ExchangeId, T)>,
    capacity: usize,
    sent: Ghost<Seq<(ExchangeId, T)>>,
    received: Ghost<Seq<(ExchangeId, T)>>,
}

impl<T> View for JoinedStream<T> {
    type V = JoinedView<T>;

    closed spec fn view(&self) -> JoinedView<T> {
        JoinedView {
            sent: self.sent@,
            received: self.received@,
            queue: self.queue@,
            capacity: self.capacity as nat,
        }
    }
}

impl<T> JoinedStream<T> {
    /// An empty channel that holds at most `capacity` waiting items.
    pub fn new(capacity: usize) -> (r: JoinedStream<T>)
        requires
            capacity > 0,
        ensures
            joined_wf(r@),
            r@.sent.len() == 0,
            r@.received.len() == 0,
            r@.capacity == capacity,
    {
        let r = JoinedStream {
            queue: Vec::new(),
            capacity,
            sent: Ghost(Seq::empty()),
            received: Ghost(Seq::empty()),
        };
        assert(r@.sent =~= r@.received + r@.queue);
        r
    }

    /// The number of waiting items.
    pub fn len(&self) -> (r: usize)
        ensures
            r == self@.queue.len(),
    {
        self.queue.len()
    }

    /// Sends `item` from `ex`; where the channel is full, hands it back.
    pub fn send(&mut self, ex: ExchangeId, item: T) -> (r: Result<(), T>)
        requires
            joined_wf(old(self)@),
        ensures
            joined_wf(final(self)@),
            final(self)@.capacity == old(self)@.capacity,
            final(self)@.received == old(self)@.received,
            old(self)@.queue.len() < old(self)@.capacity ==> r is Ok && final(self)@.sent == old(
                self,
            )@.sent.push((ex, item)) && final(self)@.queue == old(self)@.queue.push((ex, item)),
            old(self)@.queue.len() >= old(self)@.capacity ==> r == Err::<(), T>(item) && final(self)@
                == old(self)@,
    {
        if self.queue.len() < self.capacity {
            self.queue.push((ex, item));
            proof {
                self.sent@ = self.sent@.push((ex, item));
                assert(self.sent@ =~= self.received@ + self.queue@);
            }
            Ok(())
        } else {
            Err(item)
        }
    }

    /// Receives the oldest waiting item; `None` where nothing waits.
    pub fn recv(&mut self) -> (r: Option<(ExchangeId, T)>)
        requires
            joined_wf(old(self)@),
        ensures
            joined_wf(final(self)@),
            final(self)@.capacity == old(self)@.capacity,
            final(self)@.sent == old(self)@.sent,
            old(self)@.queue.len() == 0 ==> r is None && final(self)@ == old(self)@,
            old(self)@.queue.len() > 0 ==> r == Some(old(self)@.queue[0]) && final(self)@.received
                == old(self)@.received.push(old(self)@.queue[0]) && final(self)@.queue == old(
                self,
            )@.queue.drop_first(),
    {
        if self.queue.len() == 0 {
            None
        } else {
            let e = self.queue.remove(0);
            proof {
                self.received@ = self.received@.push(e);
                assert(self.sent@ =~= self.received@ + self.queue@);
                assert(self.queue@ =~= old(self)@.queue.drop_first());
            }
            Some(e)
        }
    }
}

/// A joined stream keeps the order of each exchange and loses nothing: what
/// the consumer has received from `ex` is a prefix of what `ex` sent, and once
/// nothing waits it is all of it.
pub proof fn lemma_join_keeps_order<T>(v: JoinedView<T>, ex: ExchangeId)
    requires
        joined_wf(v),
    ensures
        from_exchange(v.received, ex).len() <= from_exchange(v.sent, ex).len(),
        from_exchange(v.received, ex) == from_exchange(v.sent, ex).subrange(
            0,
            from_exchange(v.received, ex).len() as int,
        ),
        v.queue.len() == 0 ==> from_exchange(v.received, ex) == from_exchange(v.sent, ex),
{
    let p = |e: (ExchangeId, T)| e.0 == ex;
    Seq::filter_distributes_over_add(v.received, v.queue, p);
    let a = v.received.filter(p);
    let b = v.queue.filter(p);
    assert(a == (a + b).subrange(0, a.len() as int));
    if v.queue.len() == 0 {
        assert(b =~= Seq::<(ExchangeId, T)>::empty());
        assert(a + b =~= a);
    }
}

} // verus!
