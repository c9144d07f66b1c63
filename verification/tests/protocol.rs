use nonblocking_channel::RecvResult;
use nonblocking_channel::SendResult;
use nonblocking_channel::nonblocking_channel;

#[test]
fn capacity_one_scenario() {
    let (mut sender, mut receiver) = nonblocking_channel(1);
    assert_eq!(sender.try_send(5), SendResult::Sent);
    assert_eq!(sender.try_send(6), SendResult::Full(6));
    assert_eq!(receiver.try_recv(), RecvResult::Received(5));
    assert_eq!(receiver.try_recv(), RecvResult::Empty);
}

#[test]
fn dropping_sender_disconnects_receiver() {
    let (mut sender, mut receiver) = nonblocking_channel(4);
    assert_eq!(sender.try_send(1), SendResult::Sent);
    assert_eq!(sender.try_send(2), SendResult::Sent);
    drop(sender);
    // The close flag is read before the ring, so unread messages are not
    // drained once the sending side has closed.
    assert_eq!(receiver.try_recv(), RecvResult::Disconnected);
    assert_eq!(receiver.try_recv(), RecvResult::Disconnected);
}

#[test]
fn dropping_receiver_disconnects_sender() {
    let (mut sender, receiver) = nonblocking_channel(4);
    drop(receiver);
    let rejected = sender.try_send(42);
    assert_eq!(rejected, SendResult::Disconnected);
    // The attempt never reached storage: the result carries no payload and
    // every later attempt keeps reporting the disconnection.
    assert!(rejected.is_disconnected());
    assert_eq!(sender.try_send(43), SendResult::Disconnected);
}

#[test]
fn disconnection_is_idempotent() {
    let (mut sender, mut receiver) = nonblocking_channel::<u32>(2);
    drop(sender);
    for _ in 0..3 {
        assert_eq!(receiver.try_recv(), RecvResult::Disconnected);
    }
    let (mut sender2, receiver2) = nonblocking_channel::<u32>(2);
    drop(receiver2);
    for _ in 0..3 {
        assert_eq!(sender2.try_send(0), SendResult::Disconnected);
    }
}

#[test]
fn fills_to_capacity_with_sent() {
    // Each fill send is asserted to be `Sent` outright: unlike `unwrap`,
    // which tolerates a full queue, this pins that none of the first
    // `capacity` sends is rejected.
    let (mut sender, mut receiver) = nonblocking_channel(16);
    for i in 0..16 {
        assert_eq!(sender.try_send(i), SendResult::Sent);
    }
    assert_eq!(sender.try_send(16), SendResult::Full(16));
    for i in 0..16 {
        assert_eq!(receiver.try_recv(), RecvResult::Received(i));
    }
    assert_eq!(receiver.try_recv(), RecvResult::Empty);
}

#[test]
fn send_result_predicates() {
    assert!(SendResult::<u32>::Sent.is_ok());
    assert!(!SendResult::<u32>::Sent.is_disconnected());
    assert!(SendResult::Full(7u32).is_ok());
    assert!(!SendResult::Full(7u32).is_disconnected());
    assert!(!SendResult::<u32>::Disconnected.is_ok());
    assert!(SendResult::<u32>::Disconnected.is_disconnected());
}

#[test]
fn recv_result_predicates() {
    assert!(RecvResult::Received(7u32).is_ok());
    assert!(!RecvResult::Received(7u32).is_disconnected());
    assert!(RecvResult::<u32>::Empty.is_ok());
    assert!(!RecvResult::<u32>::Empty.is_disconnected());
    assert!(!RecvResult::<u32>::Disconnected.is_ok());
    assert!(RecvResult::<u32>::Disconnected.is_disconnected());
}

#[test]
fn recv_unwrap_yields_the_message() {
    assert_eq!(RecvResult::Received(9u8).unwrap(), Some(9u8));
    assert_eq!(RecvResult::<u8>::Empty.unwrap(), None);
}

#[test]
fn send_unwrap_accepts_success() {
    SendResult::<u8>::Sent.unwrap();
}

#[test]
fn send_unwrap_accepts_full_queue() {
    // Only a disconnection is fatal to unwrap; a merely full queue is not.
    SendResult::Full(3u8).unwrap();
}
