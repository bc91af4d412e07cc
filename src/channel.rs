use crate::request::QoS;
use vstd::prelude::*;

verus! {

#[verifier::external_type_specification]
#[verifier::external_body]
#[verifier::reject_recursive_types(T)]
pub struct ExSender<T>(async_channel::Sender<T>);

#[verifier::external_type_specification]
#[verifier::external_body]
#[verifier::reject_recursive_types(T)]
pub struct ExReceiver<T>(async_channel::Receiver<T>);

#[verifier::external_type_specification]
#[verifier::external_body]
pub struct ExRuntime(tokio::runtime::Runtime);

#[verifier::external_type_specification]
#[verifier::external_body]
pub struct ExMqttError(mqtt4bytes::Error);

/// Relies on the `Clone` of async_channel::Sender: another handle on the same
/// channel, with nothing promised that a contract here could state.
pub assume_specification<T>[ <async_channel::Sender<T> as core::clone::Clone>::clone ](
    tx: &async_channel::Sender<T>,
) -> async_channel::Sender<T>;

/// Relies on async_channel::bounded, which panics on a zero capacity and
/// otherwise makes a queue of that capacity with its two ends.
#[verifier::external_body]
pub(crate) fn bounded<T>(cap: usize) -> (r: (async_channel::Sender<T>, async_channel::Receiver<T>))
    requires
        cap > 0,
{
    async_channel::bounded(cap)
}

/// Relies on async_channel::Sender::send, run to completion by pollster::block_on:
/// it waits for room in the queue and, once every receiver is gone, fails and
/// hands the message back unchanged.
#[verifier::external_body]
pub(crate) fn send_blocking<T>(tx: &async_channel::Sender<T>, msg: T) -> (r: Result<(), T>)
    ensures
        r matches Err(m) ==> m == msg,
{
    pollster::block_on(tx.send(msg)).map_err(|e| e.into_inner())
}

/// Relies on async_channel::Receiver::try_recv: the oldest message if one is
/// queued; what is queued depends on every end of the channel.
#[verifier::external_body]
pub(crate) fn try_recv<T>(rx: &async_channel::Receiver<T>) -> (r: Option<T>) {
    rx.try_recv().ok()
}

/// Relies on tokio's runtime builder for a single-threaded runtime with its
/// drivers enabled; building may fail with the operating system.
#[verifier::external_body]
pub(crate) fn current_thread_runtime() -> (r: Option<tokio::runtime::Runtime>) {
    tokio::runtime::Builder::new_current_thread().enable_all().build().ok()
}

/// Relies on mqtt4bytes::qos: levels 0, 1 and 2 are the three guarantees,
/// every other byte is refused.
#[verifier::external_body]
pub(crate) fn qos_of_level(num: u8) -> (r: Result<QoS, mqtt4bytes::Error>)
    ensures
        r is Ok <==> num <= 2,
        r matches Ok(q) ==> crate::request::qos_level(q) == num,
{
    mqtt4bytes::qos(num).map(|q| match q {
        mqtt4bytes::QoS::AtMostOnce => QoS::AtMostOnce,
        mqtt4bytes::QoS::AtLeastOnce => QoS::AtLeastOnce,
        mqtt4bytes::QoS::ExactlyOnce => QoS::ExactlyOnce,
    })
}

} // verus!
