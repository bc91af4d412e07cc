use crate::channel::send_blocking;
use crate::connection::{Connection, EventLoop};
use crate::request::{publish_view, subscribe_view, Request, RequestView, QoS};
use vstd::prelude::*;

verus! {

/// Why a request or a cancellation could not be handed to the event loop.
#[derive(Debug)]
pub enum ClientError {
    /// The cancellation channel is closed.
    Cancel,
    /// The request channel is closed; the request comes back.
    Request(Request),
    /// A protocol value could not be built.
    Mqtt4(mqtt4bytes::Error),
}

/// The error, if any, for the outcome of sending a request: the request that
/// could not be delivered comes back inside the error.
pub fn request_result(sent: Result<(), Request>) -> (r: Result<(), ClientError>)
    ensures
        sent is Ok <==> r is Ok,
        sent matches Err(m) ==> r == Err::<(), ClientError>(ClientError::Request(m)),
{
    match sent {
        Ok(()) => Ok(()),
        Err(m) => Err(ClientError::Request(m)),
    }
}

/// The error, if any, for the outcome of sending a cancellation.
pub fn cancel_result(sent: Result<(), ()>) -> (r: Result<(), ClientError>)
    ensures
        sent is Ok <==> r is Ok,
        sent is Err ==> r matches Err(ClientError::Cancel),
{
    match sent {
        Ok(()) => Ok(()),
        Err(()) => Err(ClientError::Cancel),
    }
}

/// Submits requests and cancellations to an event loop through its channels.
#[derive(Clone)]
pub struct AsyncClient {
    request_tx: async_channel::Sender<Request>,
    cancel_tx: async_channel::Sender<()>,
    /// The requests that this handle has handed to the request channel, in order.
    log: Ghost<Seq<RequestView>>,
}

impl AsyncClient {
    pub closed spec fn submitted(&self) -> Seq<RequestView> {
        self.log@
    }

    /// A client and the event loop that serves it, over a request queue of
    /// capacity `cap`.
    pub fn new(cap: usize) -> (r: (AsyncClient, EventLoop))
        requires
            cap > 0,
        ensures
            r.0.submitted() == Seq::<RequestView>::empty(),
            r.1.reconnection_delay_spec() == crate::connection::DEFAULT_DELAY_MS,
            !r.1.has_cancel_handle(),
    {
        let mut eventloop = EventLoop::new(cap);
        let request_tx = eventloop.handle();
        let cancel_tx = eventloop.take_cancel_handle().unwrap();
        let client = AsyncClient { request_tx, cancel_tx, log: Ghost(Seq::empty()) };
        (client, eventloop)
    }

    /// Another sending end of the request queue, for callers that await the
    /// send themselves.
    pub fn request_handle(&self) -> (r: async_channel::Sender<Request>) {
        self.request_tx.clone()
    }

    /// Another sending end of the cancellation queue.
    pub fn cancel_handle(&self) -> (r: async_channel::Sender<()>) {
        self.cancel_tx.clone()
    }

    /// Hands one request to the event loop, waiting for room in the queue.
    fn submit(&mut self, request: Request) -> (r: Result<(), ClientError>)
        ensures
            r is Ok ==> final(self).submitted() == old(self).submitted().push(request@),
            r is Err ==> final(self).submitted() == old(self).submitted(),
            r matches Err(e) ==> e == ClientError::Request(request),
    {
        let ghost v = request@;
        let sent = send_blocking(&self.request_tx, request);
        let ok = sent.is_ok();
        let r = request_result(sent);
        if ok {
            self.log = Ghost(self.log@.push(v));
        }
        r
    }

    /// Sends a publish of `payload` on `topic` to the event loop.
    pub fn publish(&mut self, topic: String, qos: QoS, retain: bool, payload: Vec<u8>) -> (r: Result<(), ClientError>)
        ensures
            r is Ok ==> final(self).submitted() == old(self).submitted().push(
                publish_view(topic@, qos, retain, payload@),
            ),
            r is Err ==> final(self).submitted() == old(self).submitted(),
            r matches Err(e) ==> e matches ClientError::Request(m) && m@ == publish_view(
                topic@,
                qos,
                retain,
                payload@,
            ),
    {
        let request = Request::publish(topic, qos, retain, payload);
        self.submit(request)
    }

    /// Sends a subscription to `topic` to the event loop.
    pub fn subscribe(&mut self, topic: String, qos: QoS) -> (r: Result<(), ClientError>)
        ensures
            r is Ok ==> final(self).submitted() == old(self).submitted().push(
                subscribe_view(topic@, qos),
            ),
            r is Err ==> final(self).submitted() == old(self).submitted(),
            r matches Err(e) ==> e matches ClientError::Request(m) && m@ == subscribe_view(topic@, qos),
    {
        let request = Request::subscribe(topic, qos);
        self.submit(request)
    }

    /// Asks the event loop to stop.
    pub fn cancel(&mut self) -> (r: Result<(), ClientError>)
        ensures
            final(self).submitted() == old(self).submitted(),
            r matches Err(e) ==> e matches ClientError::Cancel,
    {
        let sent = send_blocking(&self.cancel_tx, ());
        cancel_result(sent)
    }
}

/// The requests handed over by a run of successive submissions from one
/// handle come out in the order they were submitted: after the run, the log
/// is the log before it followed by the run's requests.
pub proof fn lemma_submission_order(clients: Seq<AsyncClient>, requests: Seq<RequestView>)
    requires
        clients.len() == requests.len() + 1,
        forall|i: int|
            0 <= i < requests.len() ==> #[trigger] clients[i + 1].submitted() == clients[i].submitted().push(
                requests[i],
            ),
    ensures
        clients.last().submitted() == clients[0].submitted() + requests,
    decreases requests.len(),
{
    if requests.len() == 0 {
        assert(clients[0].submitted() + requests =~= clients[0].submitted());
    } else {
        let n = requests.len() - 1;
        let cs = clients.drop_last();
        let rs = requests.drop_last();
        assert forall|i: int| 0 <= i < rs.len() implies #[trigger] cs[i + 1].submitted() == cs[i].submitted().push(
            rs[i],
        ) by {
            assert(clients[i + 1].submitted() == clients[i].submitted().push(requests[i]));
        }
        lemma_submission_order(cs, rs);
        assert(clients[n + 1].submitted() == clients[n].submitted().push(requests[n]));
        assert(clients[0].submitted() + requests =~= (clients[0].submitted() + rs).push(requests[n]));
    }
}

/// A blocking client: each call waits until the event loop's queue has
/// taken the request.
#[derive(Clone)]
pub struct Client {
    client: AsyncClient,
}

impl Client {
    pub closed spec fn submitted(&self) -> Seq<RequestView> {
        self.client.submitted()
    }

    /// A client and its connection over a request queue of capacity `cap`;
    /// `None` when no execution context could be built.
    pub fn new(cap: usize) -> (r: Option<(Client, Connection)>)
        requires
            cap > 0,
        ensures
            r matches Some(p) ==> p.0.submitted() == Seq::<RequestView>::empty()
                && p.1.has_context_spec()
                && p.1.reconnection_delay_spec() == crate::connection::DEFAULT_DELAY_MS,
    {
        let (client, eventloop) = AsyncClient::new(cap);
        let client = Client { client };
        match crate::channel::current_thread_runtime() {
            Some(runtime) => {
                let connection = Connection::new(eventloop, runtime);
                Some((client, connection))
            },
            None => None,
        }
    }

    /// Sends a publish of `payload` on `topic`, waiting until it is queued.
    pub fn publish(&mut self, topic: String, qos: QoS, retain: bool, payload: Vec<u8>) -> (r: Result<(), ClientError>)
        ensures
            r is Ok ==> final(self).submitted() == old(self).submitted().push(
                publish_view(topic@, qos, retain, payload@),
            ),
            r is Err ==> final(self).submitted() == old(self).submitted(),
            r matches Err(e) ==> e matches ClientError::Request(m) && m@ == publish_view(
                topic@,
                qos,
                retain,
                payload@,
            ),
    {
        self.client.publish(topic, qos, retain, payload)
    }

    /// Sends a subscription to `topic`, waiting until it is queued.
    pub fn subscribe(&mut self, topic: String, qos: QoS) -> (r: Result<(), ClientError>)
        ensures
            r is Ok ==> final(self).submitted() == old(self).submitted().push(
                subscribe_view(topic@, qos),
            ),
            r is Err ==> final(self).submitted() == old(self).submitted(),
            r matches Err(e) ==> e matches ClientError::Request(m) && m@ == subscribe_view(topic@, qos),
    {
        self.client.subscribe(topic, qos)
    }

    /// Asks the event loop to stop, waiting until the signal is queued.
    pub fn cancel(&mut self) -> (r: Result<(), ClientError>)
        ensures
            final(self).submitted() == old(self).submitted(),
            r matches Err(e) ==> e matches ClientError::Cancel,
    {
        self.client.cancel()
    }
}

} // verus!
