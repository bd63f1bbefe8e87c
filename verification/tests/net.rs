use peerlink::net::connection_settings::ConnectionSettings;
use peerlink::net::errors::{PlainConnectionError, SecureConnectionError, Transfer};
use peerlink::net::frame::{decode_length, encode_length, fits, HEADER_SIZE};
use std::io::{Error, ErrorKind};
use peerlink::net::plain_receiver::PlainReceiver;
use peerlink::net::plain_sender::PlainSender;
use peerlink::net::receiver_settings::ReceiverSettings;
use peerlink::net::secure_receiver::SecureReceiver;
use peerlink::net::secure_sender::SecureSender;
use peerlink::net::sender_settings::SenderSettings;
use peerlink::net::unit_receiver::UnitReceiver;
use peerlink::net::unit_sender::{append_bytes, UnitSender};
use std::time::Duration;

fn decode_u32(bytes: &Vec<u8>) -> Option<u32> {
    bincode::deserialize::<u32>(bytes).ok()
}

// A stand-in for the channel: it seals by adding one to each byte and
// appending a checksum, and opens only what carries the right checksum.
fn seal(bytes: &[u8]) -> Vec<u8> {
    let mut sealed: Vec<u8> = bytes.iter().map(|b| b.wrapping_add(1)).collect();
    let sum = sealed.iter().fold(0u8, |sum, b| sum.wrapping_add(*b));
    sealed.push(sum);
    sealed
}

fn open(sealed: &Vec<u8>) -> Option<Vec<u8>> {
    let (sum, body) = sealed.split_last()?;
    if body.iter().fold(0u8, |sum, b| sum.wrapping_add(*b)) != *sum {
        return None;
    }
    Some(body.iter().map(|b| b.wrapping_sub(1)).collect())
}

fn open_u32(sealed: &Vec<u8>) -> Option<u32> {
    decode_u32(&open(sealed)?)
}

#[test]
fn settings_default_to_no_timeout() {
    let settings = ConnectionSettings::default();
    assert_eq!(*settings.send_timeout(), None);
    assert_eq!(*settings.receive_timeout(), None);
    assert_eq!(SenderSettings::default().send_timeout, None);
    assert_eq!(ReceiverSettings::default().receive_timeout, None);
}

#[test]
fn settings_split_keeps_each_direction() {
    let settings = ConnectionSettings {
        send_timeout: Some(Duration::from_millis(20)),
        receive_timeout: Some(Duration::from_millis(50)),
    };
    assert_eq!(*settings.send_timeout(), Some(Duration::from_millis(20)));
    assert_eq!(*settings.receive_timeout(), Some(Duration::from_millis(50)));
    let (sender, receiver) = settings.split();
    assert_eq!(sender.send_timeout, Some(Duration::from_millis(20)));
    assert_eq!(receiver.receive_timeout, Some(Duration::from_millis(50)));
}

#[test]
fn length_prefix_is_little_endian() {
    assert_eq!(HEADER_SIZE, 4);
    assert_eq!(encode_length(0), [0, 0, 0, 0]);
    assert_eq!(encode_length(1), [1, 0, 0, 0]);
    assert_eq!(encode_length(258), [2, 1, 0, 0]);
    assert_eq!(encode_length(0x0403_0201), [1, 2, 3, 4]);
    assert_eq!(encode_length(0xffff_ffff), [255, 255, 255, 255]);
    assert_eq!(decode_length(&[1, 2, 3, 4]), 0x0403_0201);
    assert_eq!(decode_length(&[255, 255, 255, 255]), u32::MAX);
    assert_eq!(decode_length(&encode_length(123_456_789)), 123_456_789);
}

#[test]
fn only_lengths_of_four_bytes_fit_a_frame() {
    assert!(fits(0));
    assert!(fits(70_000));
    assert!(fits(u32::MAX as usize));
    if let Ok(length) = usize::try_from(0x1_0000_0000u64) {
        assert!(!fits(length));
        assert!(!fits(length + 5));
        assert!(!fits(usize::MAX));
    }
}

#[test]
fn append_bytes_keeps_what_was_there() {
    let mut target = vec![1u8, 2];
    append_bytes(&mut target, &[3, 4, 5]);
    assert_eq!(target, vec![1, 2, 3, 4, 5]);
    append_bytes(&mut target, &[]);
    assert_eq!(target, vec![1, 2, 3, 4, 5]);
}

#[test]
fn unit_sender_stages_prefix_and_payload() {
    let mut sender = UnitSender::new();
    assert_eq!(sender.staged_len(), 0);
    sender.send(&vec![7, 8, 9]);
    assert_eq!(sender.staged_len(), 7);
    sender.send(&vec![]);
    let wire = sender.take();
    assert_eq!(wire, vec![3, 0, 0, 0, 7, 8, 9, 0, 0, 0, 0]);
    assert_eq!(sender.staged_len(), 0);
    assert_eq!(sender.take(), Vec::<u8>::new());
}

#[test]
fn unit_receiver_asks_for_header_then_payload() {
    let mut receiver = UnitReceiver::new();
    assert_eq!(receiver.demand(), 4);
    assert_eq!(receiver.receive(), Err(4));
    receiver.feed(&[3, 0]);
    assert_eq!(receiver.demand(), 2);
    receiver.feed(&[0, 0]);
    assert_eq!(receiver.demand(), 3);
    assert_eq!(receiver.receive(), Err(3));
    receiver.feed(&[7, 8]);
    assert_eq!(receiver.demand(), 1);
    receiver.feed(&[9]);
    assert_eq!(receiver.demand(), 0);
    assert_eq!(receiver.receive().unwrap(), &vec![7, 8, 9]);
    assert_eq!(*receiver.buffer(), vec![7, 8, 9]);
    assert_eq!(receiver.demand(), 4);
}

#[test]
fn unit_receiver_takes_frames_in_order() {
    let mut sender = UnitSender::new();
    sender.send(&vec![1, 2, 3]);
    sender.send(&vec![]);
    sender.send(&vec![4]);
    let mut receiver = UnitReceiver::new();
    receiver.feed(&sender.take());
    assert_eq!(receiver.receive().unwrap(), &vec![1, 2, 3]);
    assert_eq!(receiver.receive().unwrap(), &vec![]);
    assert_eq!(receiver.receive().unwrap(), &vec![4]);
    assert_eq!(receiver.receive(), Err(4));
    assert_eq!(*receiver.buffer(), vec![4]);
}

#[test]
fn unit_round_trip_of_a_long_payload() {
    let payload: Vec<u8> = (0..70_000u32).map(|i| (i % 251) as u8).collect();
    let mut sender = UnitSender::new();
    sender.send(&payload);
    let wire = sender.take();
    assert_eq!(wire.len(), payload.len() + 4);
    assert_eq!(&wire[..4], &[0x70, 0x11, 0x01, 0x00]);
    let mut receiver = UnitReceiver::new();
    receiver.feed(&wire);
    assert_eq!(receiver.receive().unwrap(), &payload);
}

#[test]
fn plain_round_trip() {
    let mut sender = PlainSender::new(SenderSettings::default());
    let mut receiver = PlainReceiver::new(ReceiverSettings::default());
    for value in [0u32, 42, 0xdead_beef, u32::MAX] {
        let serialized = bincode::serialize(&value).unwrap();
        assert!(matches!(sender.send(Some(&serialized)), Ok(())));
        let wire = sender.take();
        assert!(matches!(sender.conclude(Transfer::Completed), Ok(())));
        assert_eq!(receiver.demand(), 4);
        receiver.feed(&wire[..4]);
        assert_eq!(receiver.demand(), serialized.len());
        receiver.feed(&wire[4..]);
        assert_eq!(receiver.receive(Transfer::Completed, decode_u32).unwrap(), value);
    }
}

#[test]
fn plain_round_trip_of_a_string() {
    let message = String::from("a message of some length, to be framed and read back");
    let mut sender = PlainSender::new(SenderSettings::default());
    let mut receiver = PlainReceiver::new(ReceiverSettings::default());
    let serialized = bincode::serialize(&message).unwrap();
    assert!(matches!(sender.send(Some(&serialized)), Ok(())));
    receiver.feed(&sender.take());
    let received = receiver
        .receive(Transfer::Completed, |bytes: &Vec<u8>| bincode::deserialize::<String>(bytes).ok());
    assert_eq!(received.unwrap(), message);
}

#[test]
fn plain_sender_reports_serialize_failure() {
    let mut sender = PlainSender::new(SenderSettings::default());
    assert!(matches!(sender.send(None), Err(PlainConnectionError::SerializeFailed)));
    assert_eq!(sender.take(), Vec::<u8>::new());
}

#[test]
fn plain_sender_tells_timeout_from_failure() {
    let sender = PlainSender::new(SenderSettings { send_timeout: Some(Duration::from_millis(50)) });
    assert_eq!(sender.send_timeout(), Some(Duration::from_millis(50)));
    assert!(matches!(sender.conclude(Transfer::Completed), Ok(())));
    assert!(matches!(sender.conclude(Transfer::TimedOut), Err(PlainConnectionError::SendTimeout)));
    assert!(matches!(
        sender.conclude(Transfer::Failed(Error::from(ErrorKind::BrokenPipe))),
        Err(PlainConnectionError::WriteFailed { source }) if source.kind() == ErrorKind::BrokenPipe
    ));
}

#[test]
fn plain_sender_configure_replaces_timeout() {
    let mut sender = PlainSender::new(SenderSettings::default());
    assert_eq!(sender.send_timeout(), None);
    sender.configure(SenderSettings { send_timeout: Some(Duration::from_secs(2)) });
    assert_eq!(sender.send_timeout(), Some(Duration::from_secs(2)));
    let mut receiver = PlainReceiver::new(ReceiverSettings::default());
    assert_eq!(receiver.receive_timeout(), None);
    receiver.configure(ReceiverSettings { receive_timeout: Some(Duration::from_secs(3)) });
    assert_eq!(receiver.receive_timeout(), Some(Duration::from_secs(3)));
}

#[test]
fn plain_receiver_reports_deserialize_failure() {
    let mut sender = PlainSender::new(SenderSettings::default());
    let mut receiver = PlainReceiver::new(ReceiverSettings::default());
    assert!(matches!(sender.send(Some(&[1, 2])), Ok(())));
    receiver.feed(&sender.take());
    assert!(matches!(receiver.receive(Transfer::Completed, decode_u32), Err(PlainConnectionError::DeserializeFailed)));
}

#[test]
fn plain_receiver_reports_a_short_frame() {
    let mut receiver = PlainReceiver::new(ReceiverSettings::default());
    receiver.feed(&[4, 0, 0, 0, 42, 0]);
    assert!(matches!(
        receiver.receive(Transfer::Completed, decode_u32),
        Err(PlainConnectionError::FrameIncomplete)
    ));
    assert_eq!(receiver.demand(), 2);
    receiver.feed(&[0, 0]);
    assert_eq!(receiver.receive(Transfer::Completed, decode_u32).unwrap(), 42);
}

#[test]
fn receive_times_out_against_silent_peer() {
    let settings = ConnectionSettings {
        send_timeout: None,
        receive_timeout: Some(Duration::from_millis(50)),
    };
    let (_, receiver_settings) = settings.split();
    let mut plain = PlainReceiver::new(receiver_settings);
    assert_eq!(plain.receive_timeout(), Some(Duration::from_millis(50)));
    assert_eq!(plain.demand(), 4);
    assert!(matches!(plain.receive(Transfer::TimedOut, decode_u32), Err(PlainConnectionError::ReceiveTimeout)));
    assert!(matches!(
        plain.receive(Transfer::Failed(Error::from(ErrorKind::ConnectionReset)), decode_u32),
        Err(PlainConnectionError::ReadFailed { source }) if source.kind() == ErrorKind::ConnectionReset
    ));
    let mut secure = plain.secure();
    assert_eq!(secure.receive_timeout(), Some(Duration::from_millis(50)));
    assert!(matches!(secure.receive(Transfer::TimedOut, open_u32), Err(SecureConnectionError::ReceiveTimeout)));
    assert!(matches!(secure.receive_plain(Transfer::TimedOut, open_u32), Err(SecureConnectionError::ReceiveTimeout)));
    assert!(matches!(
        secure.receive(Transfer::Failed(Error::from(ErrorKind::UnexpectedEof)), open_u32),
        Err(SecureConnectionError::ReadFailed { source }) if source.kind() == ErrorKind::UnexpectedEof
    ));
    assert!(matches!(
        secure.receive_plain(Transfer::Completed, open_u32),
        Err(SecureConnectionError::FrameIncomplete)
    ));
}

#[test]
fn secure_round_trip_in_both_modes() {
    let mut sender = PlainSender::new(SenderSettings::default()).secure();
    let mut receiver = PlainReceiver::new(ReceiverSettings::default()).secure();
    let serialized = bincode::serialize(&42u32).unwrap();
    assert!(matches!(sender.send(Some(&seal(&serialized))), Ok(())));
    assert!(matches!(sender.send_plain(Some(&seal(&serialized))), Ok(())));
    let wire = sender.take();
    assert_eq!(wire.len(), 2 * (4 + serialized.len() + 1));
    assert!(matches!(sender.conclude(Transfer::Completed), Ok(())));
    receiver.feed(&wire);
    assert_eq!(receiver.receive(Transfer::Completed, open_u32).unwrap(), 42);
    assert_eq!(receiver.receive_plain(Transfer::Completed, open_u32).unwrap(), 42);
    assert_eq!(receiver.demand(), 4);
}

#[test]
fn secure_sender_reports_channel_failures() {
    let mut sender = SecureSender::new(
        peerlink::net::unit_sender::UnitSender::new(),
        SenderSettings { send_timeout: Some(Duration::from_millis(5)) },
    );
    assert_eq!(sender.send_timeout(), Some(Duration::from_millis(5)));
    assert!(matches!(sender.send(None), Err(SecureConnectionError::EncryptFailed)));
    assert!(matches!(sender.send_plain(None), Err(SecureConnectionError::MacComputeFailed)));
    assert_eq!(sender.take(), Vec::<u8>::new());
    assert!(matches!(sender.conclude(Transfer::TimedOut), Err(SecureConnectionError::SendTimeout)));
    assert!(matches!(
        sender.conclude(Transfer::Failed(Error::from(ErrorKind::TimedOut))),
        Err(SecureConnectionError::WriteFailed { source }) if source.kind() == ErrorKind::TimedOut
    ));
    sender.configure(SenderSettings::default());
    assert_eq!(sender.send_timeout(), None);
}

#[test]
fn secure_receiver_rejects_corrupted_payload() {
    let serialized = bincode::serialize(&42u32).unwrap();
    let sealed = seal(&serialized);
    for position in 0..sealed.len() {
        let mut sender = PlainSender::new(SenderSettings::default()).secure();
        let mut receiver = SecureReceiver::new(UnitReceiver::new(), ReceiverSettings::default());
        assert!(matches!(sender.send(Some(&sealed)), Ok(())));
        assert!(matches!(sender.send_plain(Some(&sealed)), Ok(())));
        let mut wire = sender.take();
        wire[4 + position] ^= 0x10;
        wire[4 + sealed.len() + 4 + position] ^= 0x10;
        receiver.feed(&wire);
        assert!(matches!(receiver.receive(Transfer::Completed, open_u32), Err(SecureConnectionError::DecryptFailed)));
        assert!(matches!(receiver.receive_plain(Transfer::Completed, open_u32), Err(SecureConnectionError::MacVerifyFailed)));
    }
}
