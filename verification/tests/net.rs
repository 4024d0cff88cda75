use rsomeip::bytes::ser::Serialize;
use rsomeip::endpoint::{receive_step, InterfaceId, ReceiveAction};
use rsomeip::net::error::Error;
use rsomeip::net::util::{first_available, Buffer, BufferPool};
use rsomeip::proto::message::{Header, Message};
use rsomeip::proto::primitives::{InterfaceVersion, ServiceId};
use rsomeip::runtime::{Protocol, State};
use rsomeip::socket::{
    tcp_read_step, tcp_write_step, IoOutcome, ProtocolType, ReadAction, RecvError, SendError,
    WriteAction,
};
use std::sync::Arc;

#[test]
fn buffer_split() {
    let mut buffer = Buffer::from([1u8, 2, 3, 4, 5]);
    let buffer_half = buffer.split(2).expect("should split the buffer");
    assert_eq!(&buffer_half[..], &[1u8, 2]);
    assert_eq!(&buffer[..], &[3u8, 4, 5]);
}

#[test]
fn buffer_get_mut() {
    let mut buffer = Buffer::new(Arc::new(vec![0u8; 5]), 1..4);
    for byte in buffer.get_mut().expect("should get a reference to the inner buffer") {
        *byte = 1;
    }
    assert_eq!(buffer.allocation_bytes(), &[0u8, 1, 1, 1, 0]);
}

#[test]
fn buffer_deref() {
    let buffer = Buffer::from([1u8; 8]);
    assert_eq!(buffer[..], [1u8; 8]);
}

#[test]
fn pool_new() {
    let pool = BufferPool::new();
    assert_eq!(pool.len(), 0);
}

#[test]
fn pool_push() {
    let mut pool = BufferPool::new();
    assert_eq!(pool.len(), 0);
    let buffer = Arc::new(vec![0u8; 8]);
    pool.push(buffer);
    assert_eq!(pool.len(), 1);
}

#[test]
fn pool_try_pull() {
    let mut pool = BufferPool::new();
    assert!(pool.try_pull().is_none());
    let buffer = Arc::new(vec![0u8; 8]);
    pool.push(buffer.clone());
    assert!(pool.try_pull().is_none());
    std::mem::drop(buffer);
    assert!(pool.try_pull().is_some());
}

#[test]
fn error_from_str() {
    let error = Error::Failure("bug");
    assert_eq!(error.to_string(), String::from("operation failed unexpectedly: bug"));
}

#[test]
fn buffer_shrinks_to_length() {
    let mut buffer = Buffer::from([1u8, 2, 3, 4, 5]);
    assert_eq!(buffer.len(), 5);
    buffer.shrink_to(2);
    assert_eq!(buffer.len(), 2);
    assert_eq!(buffer.get(), &[1u8, 2]);
    buffer.shrink_to(4);
    assert_eq!(buffer.len(), 2);
}

#[test]
fn buffer_shrinks_within_its_range() {
    let mut buffer = Buffer::new(Arc::new(vec![1u8, 2, 3, 4, 5, 6]), 2..6);
    buffer.shrink_to(3);
    assert_eq!(buffer.get(), &[3u8, 4, 5]);
}

#[test]
fn buffer_split_refuses_whole_length() {
    let mut buffer = Buffer::from([1u8, 2, 3]);
    assert!(buffer.split(3).is_none());
    assert!(buffer.split(4).is_none());
    assert_eq!(buffer.get(), &[1u8, 2, 3]);
    let first = buffer.split(0).expect("should split off an empty buffer");
    assert_eq!(first.len(), 0);
    assert_eq!(buffer.get(), &[1u8, 2, 3]);
}

#[test]
fn buffer_shared_is_not_mutable() {
    let allocation = Arc::new(vec![0u8; 4]);
    let mut buffer = Buffer::from(allocation.clone());
    assert!(buffer.get_mut().is_none());
    std::mem::drop(allocation);
    assert!(buffer.get_mut().is_some());
}

#[test]
fn pool_pull_or_else_creates_when_empty() {
    let mut pool = BufferPool::new();
    let buffer = pool.pull_or_else(|| Arc::new(vec![7u8; 3]));
    assert_eq!(buffer.as_slice(), &[7u8; 3]);
    pool.push(buffer);
    let buffer = pool.pull_or_else(|| Arc::new(vec![9u8; 1]));
    assert_eq!(buffer.as_slice(), &[7u8; 3]);
    assert_eq!(pool.len(), 0);
}

#[test]
fn protocol_names() {
    assert_eq!(Protocol::udp().to_string(), "UDP");
    assert_eq!(Protocol::tcp().to_string(), "TCP");
    assert_eq!(Protocol(0x01).to_string(), "Other(01)");
    assert_eq!(Protocol(0xab).to_string(), "Other(ab)");
}

#[test]
fn interface_id_text() {
    let id = InterfaceId::new(ServiceId::new(0x1234), InterfaceVersion::new(0x01));
    assert_eq!(id.to_string(), "I.1234.01");
    let id = InterfaceId::new(ServiceId::new(0x00ab), InterfaceVersion::new(0xff));
    assert_eq!(id.to_string(), "I.00ab.ff");
}

#[test]
fn interface_id_from_message() {
    let message: Message<Header, u8> = Message::new(Header::new(), 0u8)
        .with_service(ServiceId::new(0x1234))
        .with_interface(InterfaceVersion::new(0x01));
    let id = InterfaceId::from(&message);
    assert_eq!(message.service, id.service);
    assert_eq!(message.interface(), id.version);
}

#[test]
fn state_starts_waiting() {
    assert_eq!(State::default(), State::Waiting);
}

#[test]
fn socket_errors() {
    let error = SendError::new(vec![1u8, 2]);
    assert_eq!(error.into_inner(), vec![1u8, 2]);
    assert_ne!(RecvError::Closed, RecvError::Lagged(1));
    assert_eq!(ProtocolType::Datagram(1500), ProtocolType::Datagram(1500));
    assert_ne!(ProtocolType::Stream, ProtocolType::Datagram(0));
}

#[test]
fn io_error_converts() {
    let error = Error::from(std::io::Error::new(std::io::ErrorKind::Other, "boom"));
    assert!(matches!(error, Error::Io(_)));
    assert_eq!(error.to_string(), "boom");
}

#[test]
fn first_available_finds_first_set_flag() {
    assert_eq!(first_available(&vec![]), None);
    assert_eq!(first_available(&vec![false, false]), None);
    assert_eq!(first_available(&vec![false, true, true]), Some(1));
    assert_eq!(first_available(&vec![true]), Some(0));
}

#[test]
fn pool_pulls_first_unshared_buffer() {
    let mut pool = BufferPool::new();
    let shared = Arc::new(vec![1_u8]);
    let held = shared.clone();
    pool.push(shared);
    pool.push(Arc::new(vec![2_u8]));
    pool.push(Arc::new(vec![3_u8]));
    let pulled = pool.try_pull().expect("a buffer is available");
    assert_eq!(*pulled, vec![2_u8]);
    assert_eq!(pool.len(), 2);
    let made = pool.pull_or_else(|| Arc::new(vec![9_u8]));
    assert_eq!(*made, vec![3_u8]);
    let made = pool.pull_or_else(|| Arc::new(vec![9_u8]));
    assert_eq!(*made, vec![9_u8]);
    assert_eq!(pool.len(), 1);
    drop(held);
}

#[test]
fn buffer_takes_any_range() {
    let buffer = Buffer::new(Arc::new(vec![1u8, 2]), 1..5);
    assert_eq!(buffer.len(), 4);
    #[allow(clippy::reversed_empty_ranges)]
    let buffer = Buffer::new(Arc::new(vec![1u8, 2]), 3..1);
    assert_eq!(buffer.len(), 0);
}

#[test]
fn receiver_routes_stops_and_skips() {
    let first: Message<Header, Vec<u8>> = Message::<Header, Vec<u8>>::default().with_body(vec![1_u8, 2]);
    let second: Message<Header, Vec<u8>> = Message::default().with_service(ServiceId::new(0x1234));
    let mut data = Serialize::to_bytes(&first).expect("should serialize");
    data.extend(Serialize::to_bytes(&second).expect("should serialize"));
    assert_eq!(receive_step(Ok(data)), ReceiveAction::Route(vec![first, second]));
    assert_eq!(receive_step(Ok(vec![0x01_u8])), ReceiveAction::Skip);
    assert_eq!(receive_step(Ok(vec![])), ReceiveAction::Route(vec![]));
    assert_eq!(receive_step(Err(RecvError::Lagged(3))), ReceiveAction::Skip);
    assert_eq!(receive_step(Err(RecvError::Closed)), ReceiveAction::Stop);
}

#[test]
fn stream_steps_follow_the_outcome() {
    assert_eq!(tcp_read_step(IoOutcome::Done(0)), ReadAction::Finish);
    assert_eq!(tcp_read_step(IoOutcome::Done(12)), ReadAction::Forward);
    assert_eq!(tcp_read_step(IoOutcome::WouldBlock), ReadAction::Retry);
    assert_eq!(tcp_read_step(IoOutcome::Failed), ReadAction::Fail);
    assert_eq!(tcp_write_step(IoOutcome::Done(0)), WriteAction::Finish);
    assert_eq!(tcp_write_step(IoOutcome::Done(12)), WriteAction::Continue);
    assert_eq!(tcp_write_step(IoOutcome::WouldBlock), WriteAction::Fail);
    assert_eq!(tcp_write_step(IoOutcome::Failed), WriteAction::Fail);
}

#[test]
fn buffer_out_of_range_splits_and_shrinks_without_panic() {
    let mut buffer = Buffer::new(Arc::new(vec![1u8, 2]), 1..5);
    let first = buffer.split(2).expect("length is below the buffer's length");
    assert_eq!(first.len(), 2);
    assert_eq!(buffer.len(), 2);
    buffer.shrink_to(1);
    assert_eq!(buffer.len(), 1);
    assert!(buffer.split(1).is_none());
}
