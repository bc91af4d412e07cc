use rumqttc::{Client, ConnectionError, EventLoop};

#[test]
fn default_reconnection_delay_is_one_second() {
    let (_client, connection) = Client::new(4).unwrap();
    assert_eq!(connection.eventloop.reconnection_delay(), 1000);
}

#[test]
fn reconnection_delay_can_be_overridden() {
    let (_client, mut connection) = Client::new(4).unwrap();
    connection.set_reconnection_delay(250);
    assert_eq!(connection.eventloop.reconnection_delay(), 250);
    assert!(connection.has_context());
}

#[test]
fn cancel_handle_is_taken_once() {
    let mut eventloop = EventLoop::new(2);
    assert!(eventloop.take_cancel_handle().is_some());
    assert!(eventloop.take_cancel_handle().is_none());
}

#[test]
fn events_are_yielded() {
    let (_client, mut connection) = Client::new(4).unwrap();
    let mut it = connection.iter().unwrap();
    assert_eq!(it.next::<u32, String>(Ok(7)), Some(Ok(7)));
    assert_eq!(it.next::<u32, String>(Ok(8)), Some(Ok(8)));
    assert!(!it.is_done());
    connection.release(it);
}

#[test]
fn cancel_ends_the_sequence_without_error() {
    let (_client, mut connection) = Client::new(4).unwrap();
    let mut it = connection.iter().unwrap();
    assert_eq!(it.next::<u32, String>(Err(ConnectionError::Cancel)), None);
    assert!(it.is_done());
    assert_eq!(it.next::<u32, String>(Ok(1)), None);
    connection.release(it);
}

#[test]
fn requests_done_ends_the_sequence_without_error() {
    let (_client, mut connection) = Client::new(4).unwrap();
    let mut it = connection.iter().unwrap();
    assert_eq!(it.next::<u32, String>(Ok(3)), Some(Ok(3)));
    assert_eq!(it.next::<u32, String>(Err(ConnectionError::RequestsDone)), None);
    assert_eq!(it.next::<u32, String>(Err(ConnectionError::Other("late".to_string()))), None);
    connection.release(it);
}

#[test]
fn other_failure_is_yielded_once_then_ends() {
    let (_client, mut connection) = Client::new(4).unwrap();
    let mut it = connection.iter().unwrap();
    assert_eq!(
        it.next::<u32, String>(Err(ConnectionError::Other("io".to_string()))),
        Some(Err(ConnectionError::Other("io".to_string())))
    );
    assert!(it.is_done());
    assert_eq!(it.next::<u32, String>(Ok(4)), None);
    assert_eq!(it.next::<u32, String>(Err(ConnectionError::Other("again".to_string()))), None);
    connection.release(it);
}

#[test]
fn iter_again_after_release() {
    let (_client, mut connection) = Client::new(4).unwrap();
    let mut it = connection.iter().unwrap();
    assert!(!connection.has_context());
    assert_eq!(it.next::<u32, String>(Err(ConnectionError::Cancel)), None);
    connection.release(it);
    assert!(connection.has_context());
    let mut again = connection.iter().unwrap();
    assert!(!again.is_done());
    assert_eq!(again.next::<u32, String>(Ok(2)), Some(Ok(2)));
    let v = again.runtime().block_on(async { 5u8 });
    assert_eq!(v, 5);
    connection.release(again);
    assert!(connection.has_context());
}

#[test]
fn second_iter_while_live_is_refused() {
    let (_client, mut connection) = Client::new(4).unwrap();
    let it = connection.iter().unwrap();
    assert!(connection.iter().is_none());
    assert!(!connection.has_context());
    connection.release(it);
    assert!(connection.iter().is_some());
}
