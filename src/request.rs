use crate::channel::qos_of_level;
use crate::client::ClientError;
use vstd::prelude::*;

verus! {

/// Delivery guarantee of a message.
#[derive(Clone, Copy, Debug, PartialEq, Eq, Structural)]
pub enum QoS {
    AtMostOnce,
    AtLeastOnce,
    ExactlyOnce,
}

/// The numeric level of a delivery guarantee on the wire.
pub open spec fn qos_level(q: QoS) -> u8 {
    match q {
        QoS::AtMostOnce => 0,
        QoS::AtLeastOnce => 1,
        QoS::ExactlyOnce => 2,
    }
}

impl QoS {
    pub fn level(&self) -> (r: u8)
        ensures
            r == qos_level(*self),
    {
        match self {
            QoS::AtMostOnce => 0,
            QoS::AtLeastOnce => 1,
            QoS::ExactlyOnce => 2,
        }
    }

    /// The guarantee of a numeric level; levels above 2 are refused.
    pub fn from_level(num: u8) -> (r: Result<QoS, ClientError>)
        ensures
            r is Ok <==> num <= 2,
            r matches Ok(q) ==> qos_level(q) == num,
            r matches Err(e) ==> e is Mqtt4,
    {
        match qos_of_level(num) {
            Ok(q) => Ok(q),
            Err(e) => Err(ClientError::Mqtt4(e)),
        }
    }
}

/// One outbound operation handed to the event loop.
#[derive(Clone, Debug, PartialEq, Eq)]
pub enum Request {
    Publish { topic: String, qos: QoS, retain: bool, payload: Vec<u8> },
    Subscribe { topic: String, qos: QoS },
}

/// What a request stands for, over plain mathematical values.
pub enum RequestView {
    Publish { topic: Seq<char>, qos: QoS, retain: bool, payload: Seq<u8> },
    Subscribe { topic: Seq<char>, qos: QoS },
}

impl View for Request {
    type V = RequestView;

    open spec fn view(&self) -> RequestView {
        match self {
            Request::Publish { topic, qos, retain, payload } => RequestView::Publish {
                topic: topic@,
                qos: *qos,
                retain: *retain,
                payload: payload@,
            },
            Request::Subscribe { topic, qos } => RequestView::Subscribe { topic: topic@, qos: *qos },
        }
    }
}

/// The publish request for a topic, a guarantee, a retain flag and a payload.
pub open spec fn publish_view(topic: Seq<char>, qos: QoS, retain: bool, payload: Seq<u8>) -> RequestView {
    RequestView::Publish { topic, qos, retain, payload }
}

/// The subscribe request for one topic filter at a guarantee.
pub open spec fn subscribe_view(topic: Seq<char>, qos: QoS) -> RequestView {
    RequestView::Subscribe { topic, qos }
}

impl Request {
    /// Builds the publish request that the event loop is handed.
    pub fn publish(topic: String, qos: QoS, retain: bool, payload: Vec<u8>) -> (r: Request)
        ensures
            r@ == publish_view(topic@, qos, retain, payload@),
    {
        Request::Publish { topic, qos, retain, payload }
    }

    /// Builds the subscribe request that the event loop is handed.
    pub fn subscribe(topic: String, qos: QoS) -> (r: Request)
        ensures
            r@ == subscribe_view(topic@, qos),
    {
        Request::Subscribe { topic, qos }
    }

    pub fn is_publish(&self) -> (r: bool)
        ensures
            r <==> self@ is Publish,
    {
        match self {
            Request::Publish { .. } => true,
            Request::Subscribe { .. } => false,
        }
    }
}

} // verus!
