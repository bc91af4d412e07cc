use crate::channel::{bounded, try_recv};
use crate::request::Request;
use vstd::prelude::*;

verus! {

/// The reconnection delay that a new connection gives its event loop, in milliseconds.
pub const DEFAULT_DELAY_MS: u64 = 1000;

/// The event loop's side of the channels and its one setting. The protocol
/// work that consumes requests is done by whoever polls it.
pub struct EventLoop {
    request_tx: async_channel::Sender<Request>,
    request_rx: async_channel::Receiver<Request>,
    cancel_tx: Option<async_channel::Sender<()>>,
    cancel_rx: async_channel::Receiver<()>,
    reconnection_delay_ms: u64,
}

impl EventLoop {
    pub closed spec fn reconnection_delay_spec(&self) -> u64 {
        self.reconnection_delay_ms
    }

    pub closed spec fn has_cancel_handle(&self) -> bool {
        self.cancel_tx is Some
    }

    /// An event loop with a request queue of capacity `cap` and a
    /// one-slot cancellation queue.
    pub fn new(cap: usize) -> (r: EventLoop)
        requires
            cap > 0,
        ensures
            r.has_cancel_handle(),
            r.reconnection_delay_spec() == DEFAULT_DELAY_MS,
    {
        let (request_tx, request_rx) = bounded(cap);
        let (cancel_tx, cancel_rx) = bounded(1);
        EventLoop {
            request_tx,
            request_rx,
            cancel_tx: Some(cancel_tx),
            cancel_rx,
            reconnection_delay_ms: DEFAULT_DELAY_MS,
        }
    }

    /// Another sending end of the request queue.
    pub fn handle(&self) -> (r: async_channel::Sender<Request>) {
        self.request_tx.clone()
    }

    /// The sending end of the cancellation queue, the first time only.
    pub fn take_cancel_handle(&mut self) -> (r: Option<async_channel::Sender<()>>)
        ensures
            r is Some <==> old(self).has_cancel_handle(),
            !final(self).has_cancel_handle(),
            final(self).reconnection_delay_spec() == old(self).reconnection_delay_spec(),
    {
        self.cancel_tx.take()
    }

    pub fn set_reconnection_delay(&mut self, delay_ms: u64)
        ensures
            final(self).reconnection_delay_spec() == delay_ms,
            final(self).has_cancel_handle() == old(self).has_cancel_handle(),
    {
        self.reconnection_delay_ms = delay_ms;
    }

    pub fn reconnection_delay(&self) -> (r: u64)
        ensures
            r == self.reconnection_delay_spec(),
    {
        self.reconnection_delay_ms
    }

    /// The oldest request that is waiting in the queue, if any.
    pub fn next_request(&self) -> (r: Option<Request>) {
        try_recv(&self.request_rx)
    }

    /// Whether a cancellation was waiting; it is consumed.
    pub fn take_cancel_signal(&self) -> (r: bool) {
        try_recv(&self.cancel_rx).is_some()
    }
}

/// What polling the event loop can fail with: the two ways it ends on
/// purpose, and every other failure, which it carries.
#[derive(Clone, Debug, PartialEq, Eq)]
pub enum ConnectionError<X> {
    /// Every sending end of the request queue is gone.
    RequestsDone,
    /// A cancellation was received.
    Cancel,
    /// Any other failure of the event loop.
    Other(X),
}

/// One advance of a driver that has or has not ended, given what the poll
/// returned: whether it has ended afterwards, and the item it yields.
pub open spec fn advance<E, X>(done: bool, outcome: Result<E, ConnectionError<X>>) -> (
    bool,
    Option<Result<E, ConnectionError<X>>>,
) {
    if done {
        (true, None)
    } else {
        match outcome {
            Ok(ev) => (false, Some(Ok(ev))),
            Err(ConnectionError::RequestsDone) => (true, None),
            Err(ConnectionError::Cancel) => (true, None),
            Err(ConnectionError::Other(x)) => (true, Some(Err(ConnectionError::Other(x)))),
        }
    }
}

/// The items that a driver yields over a run of poll outcomes.
pub open spec fn run<E, X>(done: bool, outcomes: Seq<Result<E, ConnectionError<X>>>) -> Seq<
    Option<Result<E, ConnectionError<X>>>,
>
    decreases outcomes.len(),
{
    if outcomes.len() == 0 {
        Seq::empty()
    } else {
        let (d, item) = advance(done, outcomes[0]);
        seq![item] + run(d, outcomes.drop_first())
    }
}

/// Once a driver has ended, it yields nothing more, whatever the poll returns.
pub proof fn lemma_ended_yields_nothing<E, X>(outcomes: Seq<Result<E, ConnectionError<X>>>)
    ensures
        run(true, outcomes).len() == outcomes.len(),
        forall|i: int| 0 <= i < outcomes.len() ==> #[trigger] run(true, outcomes)[i] is None,
    decreases outcomes.len(),
{
    if outcomes.len() > 0 {
        lemma_ended_yields_nothing(outcomes.drop_first());
        assert forall|i: int| 0 <= i < outcomes.len() implies #[trigger] run(true, outcomes)[i] is None by {
            if i > 0 {
                assert(run(true, outcomes)[i] == run(true, outcomes.drop_first())[i - 1]);
            }
        }
    }
}

/// After a cancellation is observed, the driver yields no item, neither an
/// error nor anything later: the sequence ends.
pub proof fn lemma_cancel_ends<E, X>(done: bool, later: Seq<Result<E, ConnectionError<X>>>)
    ensures
        ({
            let items = run(done, seq![Err(ConnectionError::Cancel)] + later);
            &&& items.len() == later.len() + 1
            &&& forall|i: int| 0 <= i < items.len() ==> #[trigger] items[i] is None
        }),
{
    let os = seq![Err(ConnectionError::Cancel)] + later;
    assert(os.drop_first() =~= later);
    lemma_ended_yields_nothing(later);
    let items = run(done, os);
    assert forall|i: int| 0 <= i < items.len() implies #[trigger] items[i] is None by {
        if i > 0 {
            assert(items[i] == run(true, later)[i - 1]);
        }
    }
}

/// When every sending end of the request queue is gone, the driver yields no
/// item, neither an error nor anything later: the sequence ends.
pub proof fn lemma_requests_done_ends<E, X>(done: bool, later: Seq<Result<E, ConnectionError<X>>>)
    ensures
        ({
            let items = run(done, seq![Err(ConnectionError::RequestsDone)] + later);
            &&& items.len() == later.len() + 1
            &&& forall|i: int| 0 <= i < items.len() ==> #[trigger] items[i] is None
        }),
{
    let os = seq![Err(ConnectionError::RequestsDone)] + later;
    assert(os.drop_first() =~= later);
    lemma_ended_yields_nothing(later);
    let items = run(done, os);
    assert forall|i: int| 0 <= i < items.len() implies #[trigger] items[i] is None by {
        if i > 0 {
            assert(items[i] == run(true, later)[i - 1]);
        }
    }
}

/// Any other failure of the poll is yielded exactly once, as an error, and
/// then the sequence ends.
pub proof fn lemma_failure_yields_once<E, X>(x: X, later: Seq<Result<E, ConnectionError<X>>>)
    ensures
        ({
            let items = run(false, seq![Err(ConnectionError::Other(x))] + later);
            &&& items.len() == later.len() + 1
            &&& items[0] == Some(Err::<E, ConnectionError<X>>(ConnectionError::Other(x)))
            &&& forall|i: int| 1 <= i < items.len() ==> #[trigger] items[i] is None
        }),
{
    let os = seq![Err(ConnectionError::Other(x))] + later;
    assert(os.drop_first() =~= later);
    lemma_ended_yields_nothing(later);
    let items = run(false, os);
    assert forall|i: int| 1 <= i < items.len() implies #[trigger] items[i] is None by {
        assert(items[i] == run(true, later)[i - 1]);
    }
}

/// A connection to the event loop. It holds the execution context whenever
/// no driver does.
pub struct Connection {
    pub eventloop: EventLoop,
    runtime: Option<tokio::runtime::Runtime>,
}

/// The driver of a connection: it holds the connection's execution context
/// until it is released back to the connection.
pub struct Iter {
    runtime: tokio::runtime::Runtime,
    done: bool,
}

/// What `iter` does: hand the context out when the connection has it, and
/// change nothing otherwise.
pub open spec fn iter_post(before: Connection, after: Connection, r: Option<Iter>) -> bool {
    &&& after.event_loop() == before.event_loop()
    &&& (r is Some <==> before.has_context_spec())
    &&& !after.has_context_spec()
    &&& (r matches Some(it) ==> before.context() == Some(it.context()) && !it.is_done_spec())
}

/// What `release` does: the driver's context goes back to the connection.
pub open spec fn release_post(before: Connection, it: Iter, after: Connection) -> bool {
    &&& after.event_loop() == before.event_loop()
    &&& after.context() == Some(it.context())
}

impl Connection {
    /// The execution context, while the connection holds it.
    pub closed spec fn context(&self) -> Option<tokio::runtime::Runtime> {
        self.runtime
    }

    /// The event loop that the connection wraps.
    pub closed spec fn event_loop(&self) -> EventLoop {
        self.eventloop
    }

    pub open spec fn has_context_spec(&self) -> bool {
        self.context() is Some
    }

    pub open spec fn reconnection_delay_spec(&self) -> u64 {
        self.event_loop().reconnection_delay_spec()
    }

    /// A connection over `eventloop` holding `runtime`; the event loop's
    /// reconnection delay is set to one second.
    pub fn new(eventloop: EventLoop, runtime: tokio::runtime::Runtime) -> (r: Connection)
        ensures
            r.has_context_spec(),
            r.context() == Some(runtime),
            r.reconnection_delay_spec() == DEFAULT_DELAY_MS,
    {
        let mut eventloop = eventloop;
        eventloop.set_reconnection_delay(DEFAULT_DELAY_MS);
        Connection { eventloop, runtime: Some(runtime) }
    }

    /// Sets the delay between automatic reconnections, in milliseconds.
    pub fn set_reconnection_delay(&mut self, delay_ms: u64)
        ensures
            final(self).reconnection_delay_spec() == delay_ms,
            final(self).context() == old(self).context(),
            final(self).event_loop().has_cancel_handle() == old(self).event_loop().has_cancel_handle(),
    {
        self.eventloop.set_reconnection_delay(delay_ms)
    }

    /// Whether the connection holds its execution context, that is, whether
    /// no driver is live.
    pub fn has_context(&self) -> (r: bool)
        ensures
            r == self.has_context_spec(),
    {
        self.runtime.is_some()
    }

    /// A driver over this connection, holding its execution context. `None`
    /// while another driver holds it: the context is never duplicated.
    pub fn iter(&mut self) -> (r: Option<Iter>)
        ensures
            iter_post(*old(self), *final(self), r),
    {
        match self.runtime.take() {
            Some(runtime) => Some(Iter { runtime, done: false }),
            None => None,
        }
    }

    /// Takes a driver back, with the execution context it holds.
    pub fn release(&mut self, it: Iter)
        ensures
            release_post(*old(self), it, *final(self)),
    {
        self.runtime = Some(it.runtime);
    }
}

/// Taking a driver, releasing it, and taking a driver again succeeds, and the
/// connection is left with the one context it started with.
pub proof fn lemma_iter_after_release(
    c0: Connection,
    c1: Connection,
    it: Iter,
    c2: Connection,
    c3: Connection,
    r: Option<Iter>,
)
    requires
        iter_post(c0, c1, Some(it)),
        release_post(c1, it, c2),
        iter_post(c2, c3, r),
    ensures
        c2.context() == c0.context(),
        r matches Some(it2) ==> it2.context() == it.context(),
        r is Some,
{
}

/// While a driver is live, asking for a second one fails: the context stays
/// with the first driver and is not duplicated.
pub proof fn lemma_second_iter_refused(
    c0: Connection,
    c1: Connection,
    it: Iter,
    c2: Connection,
    r: Option<Iter>,
)
    requires
        iter_post(c0, c1, Some(it)),
        iter_post(c1, c2, r),
    ensures
        r is None,
        !c2.has_context_spec(),
        c0.context() == Some(it.context()),
{
}

impl Iter {
    /// The execution context that the driver holds.
    pub closed spec fn context(&self) -> tokio::runtime::Runtime {
        self.runtime
    }

    pub closed spec fn is_done_spec(&self) -> bool {
        self.done
    }

    /// Whether the sequence has ended.
    pub fn is_done(&self) -> (r: bool)
        ensures
            r == self.is_done_spec(),
    {
        self.done
    }

    /// The execution context in which the event loop is polled.
    pub fn runtime(&self) -> (r: &tokio::runtime::Runtime)
        ensures
            *r == self.context(),
    {
        &self.runtime
    }

    /// One advance, given what the poll of the event loop returned: an event
    /// is yielded, the two intended endings end the sequence with no item,
    /// any other failure is yielded once and ends it.
    pub fn next<E, X>(&mut self, outcome: Result<E, ConnectionError<X>>) -> (r: Option<
        Result<E, ConnectionError<X>>,
    >)
        ensures
            (final(self).is_done_spec(), r) == advance(old(self).is_done_spec(), outcome),
            final(self).context() == old(self).context(),
    {
        if self.done {
            return None;
        }
        match outcome {
            Ok(ev) => Some(Ok(ev)),
            Err(ConnectionError::RequestsDone) => {
                self.done = true;
                None
            },
            Err(ConnectionError::Cancel) => {
                self.done = true;
                None
            },
            Err(ConnectionError::Other(x)) => {
                self.done = true;
                Some(Err(ConnectionError::Other(x)))
            },
        }
    }
}

} // verus!
