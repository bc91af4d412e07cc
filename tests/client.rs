use rumqttc::client::{cancel_result, request_result};
use rumqttc::{AsyncClient, Client, ClientError, QoS, Request};

#[test]
fn publish_then_subscribe_reach_the_event_loop_in_order() {
    let (mut client, eventloop) = AsyncClient::new(10);
    assert!(client.publish("a/b".to_string(), QoS::AtLeastOnce, false, vec![1, 2, 3]).is_ok());
    assert!(client.subscribe("a/b".to_string(), QoS::AtLeastOnce).is_ok());
    let first = eventloop.next_request();
    let second = eventloop.next_request();
    assert_eq!(
        first,
        Some(Request::Publish { topic: "a/b".to_string(), qos: QoS::AtLeastOnce, retain: false, payload: vec![1, 2, 3] })
    );
    assert_eq!(second, Some(Request::Subscribe { topic: "a/b".to_string(), qos: QoS::AtLeastOnce }));
    assert_eq!(eventloop.next_request(), None);
}

#[test]
fn blocking_client_keeps_submission_order() {
    let (mut client, connection) = Client::new(10).unwrap();
    for i in 0..5u8 {
        assert!(client.publish(format!("t/{}", i), QoS::AtMostOnce, i % 2 == 0, vec![i]).is_ok());
    }
    assert!(client.subscribe("t/#".to_string(), QoS::ExactlyOnce).is_ok());
    for i in 0..5u8 {
        let r = connection.eventloop.next_request().unwrap();
        assert_eq!(r, Request::publish(format!("t/{}", i), QoS::AtMostOnce, i % 2 == 0, vec![i]));
        assert!(r.is_publish());
    }
    let last = connection.eventloop.next_request().unwrap();
    assert!(!last.is_publish());
    assert_eq!(last, Request::subscribe("t/#".to_string(), QoS::ExactlyOnce));
}

#[test]
fn publish_to_a_gone_event_loop_returns_the_request() {
    let (mut client, eventloop) = AsyncClient::new(1);
    drop(eventloop);
    let r = client.publish("x".to_string(), QoS::ExactlyOnce, true, vec![9]);
    match r {
        Err(ClientError::Request(req)) => {
            assert_eq!(req, Request::publish("x".to_string(), QoS::ExactlyOnce, true, vec![9]))
        }
        _ => panic!("expected a request error"),
    }
    let r = client.subscribe("y".to_string(), QoS::AtMostOnce);
    assert!(matches!(r, Err(ClientError::Request(Request::Subscribe { .. }))));
}

#[test]
fn cancel_reaches_the_event_loop() {
    let (mut client, eventloop) = AsyncClient::new(1);
    assert!(!eventloop.take_cancel_signal());
    assert!(client.cancel().is_ok());
    assert!(eventloop.take_cancel_signal());
    assert!(!eventloop.take_cancel_signal());
}

#[test]
fn cancel_to_a_gone_event_loop_fails() {
    let (mut client, connection) = Client::new(1).unwrap();
    drop(connection);
    assert!(matches!(client.cancel(), Err(ClientError::Cancel)));
    assert!(matches!(client.subscribe("s".to_string(), QoS::AtMostOnce), Err(ClientError::Request(_))));
}

#[test]
fn send_outcomes_map_to_client_errors() {
    assert!(request_result(Ok(())).is_ok());
    let req = Request::subscribe("q".to_string(), QoS::AtLeastOnce);
    match request_result(Err(req.clone())) {
        Err(ClientError::Request(back)) => assert_eq!(back, req),
        _ => panic!("expected a request error"),
    }
    assert!(cancel_result(Ok(())).is_ok());
    assert!(matches!(cancel_result(Err(())), Err(ClientError::Cancel)));
}

#[test]
fn qos_levels() {
    assert_eq!(QoS::AtMostOnce.level(), 0);
    assert_eq!(QoS::AtLeastOnce.level(), 1);
    assert_eq!(QoS::ExactlyOnce.level(), 2);
    assert_eq!(QoS::from_level(0).unwrap(), QoS::AtMostOnce);
    assert_eq!(QoS::from_level(1).unwrap(), QoS::AtLeastOnce);
    assert_eq!(QoS::from_level(2).unwrap(), QoS::ExactlyOnce);
    assert!(matches!(QoS::from_level(3), Err(ClientError::Mqtt4(_))));
    assert!(matches!(QoS::from_level(255), Err(ClientError::Mqtt4(_))));
}
