//! Message delivery: a queue fed by the platform and drained by one consumer.
//!
//! The durable message handler calls [`WebSocketStream::push`]; the consumer
//! task calls [`WebSocketStream::poll_next`]. A consumer that finds the queue
//! empty leaves its continuation in the wake slot and suspends. The next push
//! takes the continuation out of the slot and returns it, and the driver
//! wakes it once the stream is unlocked again. Wakes are not counted: a woken
//! consumer looks at the queue again.

use vstd::prelude::*;
use std::collections::VecDeque;
use crate::handshake::Handshake;
use crate::handshake::Phase;
use crate::safe_ws::SafeWebSocket;

verus! {

/// What a consumer gets from one poll.
#[derive(Debug, PartialEq, Eq)]
pub enum Poll {
    /// The queue was empty: the consumer is suspended until it is woken.
    Pending,
    /// The oldest queued message.
    Ready(String),
}

impl Poll {
    /// The payload that the poll delivered, if it delivered one.
    pub open spec fn payload(self) -> Option<Seq<char>> {
        match self {
            Poll::Pending => None,
            Poll::Ready(m) => Some(m@),
        }
    }
}

/// One thing that happens to a stream: the message handler runs, the consumer
/// polls, or the stream is torn down.
pub enum Step<W> {
    /// The message handler runs on this payload.
    Push(Seq<char>),
    /// A consumer with this continuation polls.
    Poll(W),
    /// The stream is torn down.
    Close,
}

/// A stream as contracts see it. `W` is the type of a continuation.
pub struct StreamView<H, W> {
    /// The handle that the guard owns, if the stream has not been torn down.
    pub handle: Option<H>,
    /// The payloads that were pushed and not yet polled, oldest first.
    pub queue: Seq<Seq<char>>,
    /// The continuation of the consumer that waits for the next message.
    pub waiting: Option<W>,
}

impl<H, W> StreamView<H, W> {
    /// A stream that has just been opened on a guard in state `handle`.
    pub open spec fn opened(handle: Option<H>) -> Self {
        StreamView { handle, queue: Seq::empty(), waiting: None }
    }

    /// Whether the message handler is still registered: the stream has not
    /// been torn down.
    pub open spec fn live(self) -> bool {
        self.handle is Some
    }

    /// A consumer only ever waits on an empty queue.
    pub open spec fn wf(self) -> bool {
        self.waiting is Some ==> self.queue.len() == 0
    }

    /// The state after the message handler has run on payload `m`.
    pub open spec fn pushed(self, m: Seq<char>) -> Self {
        if self.live() {
            StreamView { handle: self.handle, queue: self.queue.push(m), waiting: None }
        } else {
            self
        }
    }

    /// The continuation that a push takes out of the wake slot, to be woken.
    pub open spec fn woken(self) -> Option<W> {
        if self.live() {
            self.waiting
        } else {
            None
        }
    }

    /// What a poll delivers: the front of the queue, if there is one.
    pub open spec fn front(self) -> Option<Seq<char>> {
        if self.queue.len() > 0 {
            Some(self.queue[0])
        } else {
            None
        }
    }

    /// The state after a poll by a consumer whose continuation is `w`.
    pub open spec fn polled(self, w: W) -> Self {
        if self.queue.len() > 0 {
            StreamView {
                handle: self.handle,
                queue: self.queue.drop_first(),
                waiting: self.waiting,
            }
        } else {
            StreamView { handle: self.handle, queue: self.queue, waiting: Some(w) }
        }
    }

    /// The state after teardown.
    pub open spec fn closed(self) -> Self {
        StreamView { handle: None, queue: Seq::empty(), waiting: None }
    }

    /// The state after one step.
    pub open spec fn step(self, op: Step<W>) -> Self {
        match op {
            Step::Push(m) => self.pushed(m),
            Step::Poll(w) => self.polled(w),
            Step::Close => self.closed(),
        }
    }

    /// The state after the steps of `ops` in order.
    pub open spec fn run(self, ops: Seq<Step<W>>) -> Self
        decreases ops.len(),
    {
        if ops.len() == 0 {
            self
        } else {
            self.step(ops[0]).run(ops.drop_first())
        }
    }

    /// How many handles the steps of `ops` hand out for closing.
    pub open spec fn closes_during(self, ops: Seq<Step<W>>) -> nat
        decreases ops.len(),
    {
        if ops.len() == 0 {
            0
        } else {
            (if ops[0] is Close && self.handle is Some {
                1nat
            } else {
                0nat
            }) + self.step(ops[0]).closes_during(ops.drop_first())
        }
    }

    /// The state after the message handler has run on each payload of `msgs`
    /// in order.
    pub open spec fn pushed_all(self, msgs: Seq<Seq<char>>) -> Self
        decreases msgs.len(),
    {
        if msgs.len() == 0 {
            self
        } else {
            self.pushed(msgs[0]).pushed_all(msgs.drop_first())
        }
    }

    /// How many continuations the pushes of `msgs` hand out to be woken.
    pub open spec fn wakes_during(self, msgs: Seq<Seq<char>>) -> nat
        decreases msgs.len(),
    {
        if msgs.len() == 0 {
            0
        } else {
            (if self.woken() is Some {
                1nat
            } else {
                0nat
            }) + self.pushed(msgs[0]).wakes_during(msgs.drop_first())
        }
    }

    /// The state after one poll for each continuation of `wakers`, in order.
    pub open spec fn polled_all(self, wakers: Seq<W>) -> Self
        decreases wakers.len(),
    {
        if wakers.len() == 0 {
            self
        } else {
            self.polled(wakers[0]).polled_all(wakers.drop_first())
        }
    }

    /// What those polls deliver, in order.
    pub open spec fn deliveries(self, wakers: Seq<W>) -> Seq<Option<Seq<char>>>
        decreases wakers.len(),
    {
        if wakers.len() == 0 {
            Seq::empty()
        } else {
            seq![self.front()] + self.polled(wakers[0]).deliveries(wakers.drop_first())
        }
    }
}

/// An open connection: the guard, the queue of received payloads and the
/// wake slot. `W` is the type of a continuation, such as a task's waker.
pub struct WebSocketStream<H, W> {
    inner: SafeWebSocket<H>,
    waker: Option<W>,
    queue: VecDeque<String>,
}

impl<H, W> View for WebSocketStream<H, W> {
    type V = StreamView<H, W>;

    closed spec fn view(&self) -> StreamView<H, W> {
        StreamView {
            handle: self.inner@,
            queue: Seq::new(self.queue@.len(), |i: int| self.queue@[i]@),
            waiting: self.waker,
        }
    }
}

impl<H, W> WebSocketStream<H, W> {
    /// Makes the stream of a handshake that succeeded.
    ///
    /// An `Open` handshake gives its guard to a stream with an empty queue and
    /// nobody waiting; the driver then registers the message handler. A
    /// handshake in any other phase comes back unchanged: one that is still
    /// connecting stays suspended, one that failed reports its error.
    pub fn new(hs: Handshake<H>) -> (r: Result<Self, Handshake<H>>)
        ensures
            match r {
                Ok(s) => hs@.phase == Phase::Open && s@ == StreamView::<H, W>::opened(hs@.handle),
                Err(back) => hs@.phase != Phase::Open && back@ == hs@,
            },
    {
        match hs.into_guard() {
            Ok(inner) => {
                let s = WebSocketStream { inner, waker: None, queue: VecDeque::new() };
                assert(s@.queue =~= Seq::empty());
                Ok(s)
            },
            Err(back) => Err(back),
        }
    }

    /// Borrows the handle, as long as the stream has not been torn down.
    pub fn data(&self) -> (r: Option<&H>)
        ensures
            match self@.handle {
                Some(h) => r matches Some(b) && *b == h,
                None => r is None,
            },
    {
        self.inner.data()
    }

    /// Whether the stream has been torn down.
    pub fn is_closed(&self) -> (b: bool)
        ensures
            b == !self@.live(),
    {
        self.inner.is_closed()
    }

    /// The number of payloads that wait to be polled.
    pub fn len(&self) -> (n: usize)
        ensures
            n == self@.queue.len(),
    {
        self.queue.len()
    }

    /// Whether a consumer is suspended on this stream.
    pub fn is_waiting(&self) -> (b: bool)
        ensures
            b == (self@.waiting is Some),
    {
        self.waker.is_some()
    }

    /// The message handler: queues `msg` and empties the wake slot.
    ///
    /// The payload goes to the back of the queue. If a consumer was waiting,
    /// its continuation is returned, to be woken by the caller after the
    /// stream is unlocked; the slot is empty afterwards, so one wait is
    /// answered by one wake. With nobody waiting nothing is returned. On a
    /// stream that has been torn down the call does nothing.
    pub fn push(&mut self, msg: String) -> (r: Option<W>)
        ensures
            final(self)@ == old(self)@.pushed(msg@),
            r == old(self)@.woken(),
    {
        if self.inner.is_closed() {
            return None;
        }
        let woken = self.waker.take();
        self.queue.push_back(msg);
        assert(self@.queue =~= old(self)@.queue.push(msg@));
        woken
    }

    /// The consumer's side: takes the oldest payload, or suspends.
    ///
    /// A non-empty queue yields its front at once and leaves the wake slot as
    /// it is. On an empty queue `waker` replaces whatever the slot held and
    /// the poll is `Pending`; the consumer polls again when it is woken.
    pub fn poll_next(&mut self, waker: W) -> (r: Poll)
        ensures
            final(self)@ == old(self)@.polled(waker),
            r.payload() == old(self)@.front(),
    {
        match self.queue.pop_front() {
            Some(m) => {
                assert(self@.queue =~= old(self)@.queue.drop_first());
                Poll::Ready(m)
            },
            None => {
                self.waker = Some(waker);
                assert(self@.queue =~= old(self)@.queue);
                Poll::Pending
            },
        }
    }

    /// Tears the stream down.
    ///
    /// The message handler counts as deregistered from here on, so later
    /// pushes do nothing. Queued payloads are discarded, a waiting consumer is
    /// dropped without being woken, and the handle is returned for closing:
    /// the first time only.
    pub fn close(&mut self) -> (r: Option<H>)
        ensures
            final(self)@ == old(self)@.closed(),
            r == old(self)@.handle,
    {
        let handle = self.inner.release();
        self.waker = None;
        self.queue.clear();
        assert(self@.queue =~= Seq::empty());
        handle
    }
}

/// Every step keeps the wake slot honest: a stream on which a consumer only
/// waits while the queue is empty stays so through each push, poll and
/// teardown, and a stream is opened that way.
pub proof fn lemma_steps_keep_wf<H, W>(s: StreamView<H, W>, m: Seq<char>, w: W)
    requires
        s.wf(),
    ensures
        StreamView::<H, W>::opened(s.handle).wf(),
        s.pushed(m).wf(),
        s.polled(w).wf(),
        s.closed().wf(),
{
}

/// Pushes on a live stream append to the queue in the order of arrival, keep
/// the handle, and leave nobody waiting.
pub proof fn lemma_pushes_append<H, W>(s: StreamView<H, W>, msgs: Seq<Seq<char>>)
    requires
        s.live(),
    ensures
        s.pushed_all(msgs).queue == s.queue + msgs,
        s.pushed_all(msgs).handle == s.handle,
        msgs.len() > 0 ==> s.pushed_all(msgs).waiting is None,
        msgs.len() == 0 ==> s.pushed_all(msgs) == s,
    decreases msgs.len(),
{
    if msgs.len() > 0 {
        let next = s.pushed(msgs[0]);
        let rest = msgs.drop_first();
        lemma_pushes_append(next, rest);
        assert(next.queue + rest =~= s.queue + msgs);
    } else {
        assert(s.queue + msgs =~= s.queue);
    }
}

/// Polls that find something queued deliver the queue front first, without
/// suspending, and touch neither the handle nor the wake slot.
pub proof fn lemma_polls_drain_in_order<H, W>(s: StreamView<H, W>, wakers: Seq<W>)
    requires
        wakers.len() <= s.queue.len(),
    ensures
        s.deliveries(wakers) == Seq::new(wakers.len(), |i: int| Some(s.queue[i])),
        s.polled_all(wakers).queue == s.queue.skip(wakers.len() as int),
        s.polled_all(wakers).waiting == s.waiting,
        s.polled_all(wakers).handle == s.handle,
    decreases wakers.len(),
{
    if wakers.len() > 0 {
        let next = s.polled(wakers[0]);
        let rest = wakers.drop_first();
        lemma_polls_drain_in_order(next, rest);
        assert(next.queue.skip(rest.len() as int) =~= s.queue.skip(wakers.len() as int));
        assert(seq![s.front()] + next.deliveries(rest) =~= Seq::new(
            wakers.len(),
            |i: int| Some(s.queue[i]),
        ));
    } else {
        assert(s.queue.skip(0) =~= s.queue);
        assert(s.deliveries(wakers) =~= Seq::new(wakers.len(), |i: int| Some(s.queue[i])));
    }
}

/// Messages reach the consumer in the order in which the handler was invoked.
///
/// After the handler has run on `msgs` in order, as many polls as there are
/// payloads queued each deliver one, none suspends, and what they deliver is
/// what was queued before followed by `msgs`, in that order. On a stream
/// whose queue was empty the polls deliver exactly `msgs`.
pub proof fn lemma_messages_arrive_in_order<H, W>(
    s: StreamView<H, W>,
    msgs: Seq<Seq<char>>,
    wakers: Seq<W>,
)
    requires
        s.live(),
        wakers.len() == s.queue.len() + msgs.len(),
    ensures
        s.pushed_all(msgs).deliveries(wakers) == Seq::new(
            wakers.len(),
            |i: int| Some((s.queue + msgs)[i]),
        ),
        s.pushed_all(msgs).polled_all(wakers).queue.len() == 0,
{
    lemma_pushes_append(s, msgs);
    lemma_polls_drain_in_order(s.pushed_all(msgs), wakers);
}

/// A run of pushes wakes a consumer at most once: exactly once if the stream
/// is live, a consumer was waiting and something was pushed, and not at all
/// otherwise. In particular a push with nobody waiting wakes nobody.
pub proof fn lemma_at_most_one_wake<H, W>(s: StreamView<H, W>, msgs: Seq<Seq<char>>)
    ensures
        s.wakes_during(msgs) == (if s.live() && s.waiting is Some && msgs.len() > 0 {
            1nat
        } else {
            0nat
        }),
    decreases msgs.len(),
{
    if msgs.len() > 0 {
        lemma_at_most_one_wake(s.pushed(msgs[0]), msgs.drop_first());
    }
}

/// Through any run of pushes, polls and teardowns the handle is accounted
/// for: a stream that owned one either still owns it or has handed it out for
/// closing exactly once, and a stream that owned none hands out none. So a
/// last teardown after any run closes the handle if and only if nothing did
/// before. The wake slot stays honest throughout.
pub proof fn lemma_run_closes_once<H, W>(s: StreamView<H, W>, ops: Seq<Step<W>>)
    ensures
        s.closes_during(ops) + (if s.run(ops).handle is Some {
            1nat
        } else {
            0nat
        }) == (if s.handle is Some {
            1nat
        } else {
            0nat
        }),
        s.run(ops).handle is Some ==> s.run(ops).handle == s.handle,
        s.run(ops).closed().handle is None,
        s.wf() ==> s.run(ops).wf(),
    decreases ops.len(),
{
    if ops.len() > 0 {
        lemma_run_closes_once(s.step(ops[0]), ops.drop_first());
    }
}

/// Teardown is safe whatever is queued and however often it runs: the first
/// teardown hands the handle out, discards the queue and wakes nobody; after
/// it the stream holds no handle, so a second teardown hands out nothing, and
/// a push that is still in flight changes nothing and wakes nobody.
pub proof fn lemma_teardown_is_final<H, W>(s: StreamView<H, W>, m: Seq<char>)
    ensures
        s.closed().handle is None,
        s.closed().queue.len() == 0,
        s.closed().closed() == s.closed(),
        s.closed().pushed(m) == s.closed(),
        s.closed().woken() is None,
{
}

} // verus!
