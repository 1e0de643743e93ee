use face_tracker::errors::DeviceError;
use face_tracker::socket_communication::{
    frame_message, is_acknowledgment, RemoteExchange, SocketCommunication, ACK_LEN,
    CONNECT_TIMEOUT_SECS,
};
use face_tracker::transport::IoOutcome;

fn done() -> IoOutcome {
    IoOutcome::Done(Vec::new())
}

fn handshake_reply(reply: IoOutcome) -> RemoteExchange {
    let backend = SocketCommunication::new();
    let step = backend.initialize_mobile_phone_connection("127.0.0.1".to_string(), 7892);
    step.advance(done()).advance(done()).advance(reply)
}

#[test]
fn remote_parameters() {
    assert_eq!(CONNECT_TIMEOUT_SECS, 5);
    assert_eq!(ACK_LEN, 3);
}

#[test]
fn handshake_begins_with_the_greeting() {
    let backend = SocketCommunication::new();
    let step = backend.initialize_mobile_phone_connection("10.0.0.2".to_string(), 7892);
    assert_eq!(
        step,
        RemoteExchange::Connect {
            host: "10.0.0.2".to_string(),
            port: 7892,
            request: b"INIT".to_vec(),
            expects_ack: true,
        }
    );
    assert!(step.result().is_none());
    let step = step.advance(done());
    assert_eq!(step, RemoteExchange::Send { request: b"INIT".to_vec(), expects_ack: true });
    let step = step.advance(done());
    assert_eq!(step, RemoteExchange::AwaitAck);
}

#[test]
fn handshake_succeeds_on_ack() {
    let end = handshake_reply(IoOutcome::Done(b"ACK".to_vec()));
    assert_eq!(end, RemoteExchange::Done(Ok(())));
    assert_eq!(end.result(), Some(&Ok(())));
}

#[test]
fn handshake_fails_on_nak() {
    let end = handshake_reply(IoOutcome::Done(b"NAK".to_vec()));
    assert_eq!(end, RemoteExchange::Done(Err(DeviceError::HandshakeFailed)));
}

#[test]
fn handshake_fails_on_short_read() {
    assert_eq!(
        handshake_reply(IoOutcome::Done(b"AC".to_vec())),
        RemoteExchange::Done(Err(DeviceError::HandshakeFailed))
    );
    assert_eq!(
        handshake_reply(IoOutcome::Done(Vec::new())),
        RemoteExchange::Done(Err(DeviceError::HandshakeFailed))
    );
    assert_eq!(
        handshake_reply(IoOutcome::Failed("failed to fill whole buffer".to_string())),
        RemoteExchange::Done(Err(DeviceError::HandshakeFailed))
    );
}

#[test]
fn handshake_fails_on_long_or_altered_reply() {
    for reply in [&b"ACKK"[..], b"ack", b"ACK\n", b" ACK", b"ACL"] {
        assert_eq!(
            handshake_reply(IoOutcome::Done(reply.to_vec())),
            RemoteExchange::Done(Err(DeviceError::HandshakeFailed))
        );
    }
}

#[test]
fn handshake_fails_on_timeout() {
    assert_eq!(
        handshake_reply(IoOutcome::TimedOut),
        RemoteExchange::Done(Err(DeviceError::HandshakeFailed))
    );
}

#[test]
fn acknowledgment_is_exactly_three_bytes() {
    assert!(is_acknowledgment(&b"ACK".to_vec()));
    assert!(!is_acknowledgment(&b"NAK".to_vec()));
    assert!(!is_acknowledgment(&b"AC".to_vec()));
    assert!(!is_acknowledgment(&b"ACKACK".to_vec()));
    assert!(!is_acknowledgment(&Vec::new()));
}

#[test]
fn connection_failures() {
    let backend = SocketCommunication::new();
    let step = backend.initialize_mobile_phone_connection("10.0.0.2".to_string(), 1);
    assert_eq!(
        step.advance(IoOutcome::Failed("connection refused".to_string())),
        RemoteExchange::Done(Err(DeviceError::Unavailable(
            "10.0.0.2".to_string(),
            "connection refused".to_string()
        )))
    );
    let step = backend.initialize_mobile_phone_connection("10.0.0.2".to_string(), 1);
    assert_eq!(step.advance(IoOutcome::TimedOut), RemoteExchange::Done(Err(DeviceError::Timeout)));
}

#[test]
fn write_failures_on_the_connection() {
    let send = || RemoteExchange::Send { request: b"INIT".to_vec(), expects_ack: true };
    assert_eq!(
        send().advance(IoOutcome::Failed("reset by peer".to_string())),
        RemoteExchange::Done(Err(DeviceError::Io("reset by peer".to_string())))
    );
    assert_eq!(send().advance(IoOutcome::TimedOut), RemoteExchange::Done(Err(DeviceError::Timeout)));
}

#[test]
fn finished_conversation_stays_finished() {
    let end = RemoteExchange::Done(Err(DeviceError::HandshakeFailed));
    assert_eq!(
        end.advance(IoOutcome::Done(b"ACK".to_vec())),
        RemoteExchange::Done(Err(DeviceError::HandshakeFailed))
    );
    assert_eq!(RemoteExchange::Done(Ok(())).advance(IoOutcome::TimedOut), RemoteExchange::Done(Ok(())));
}

#[test]
fn message_frame_layout() {
    let frame = frame_message(b"hi", &[1, 2, 3]).unwrap();
    assert_eq!(frame, vec![0, 0, 0, 2, b'h', b'i', 0, 0, 0, 3, 1, 2, 3]);
}

#[test]
fn empty_message_frame() {
    assert_eq!(frame_message(b"", b"").unwrap(), vec![0u8; 8]);
}

#[test]
fn lengths_are_big_endian() {
    let blob = vec![7u8; 0x0001_0203];
    let frame = frame_message(b"", &blob).unwrap();
    assert_eq!(&frame[..4], &[0, 0, 0, 0]);
    assert_eq!(&frame[4..8], &[0x00, 0x01, 0x02, 0x03]);
    assert_eq!(frame.len(), 8 + blob.len());
    assert_eq!(&frame[8..], &blob[..]);
    let token = vec![b'a'; 300];
    let frame = frame_message(&token, b"").unwrap();
    assert_eq!(&frame[..4], &[0, 0, 1, 44]);
}

#[test]
fn marker_is_sent_as_utf8() {
    let backend = SocketCommunication::new();
    let kaomoji = "(^_^)\u{30c4}".to_string();
    let step = backend.send_to_mobile_phone("192.168.1.5".to_string(), 9000, kaomoji.clone(), vec![9, 8]);
    let mut expected = vec![0, 0, 0, kaomoji.len() as u8];
    expected.extend_from_slice(kaomoji.as_bytes());
    expected.extend_from_slice(&[0, 0, 0, 2, 9, 8]);
    assert_eq!(kaomoji.len(), 8);
    assert_eq!(
        step,
        RemoteExchange::Connect {
            host: "192.168.1.5".to_string(),
            port: 9000,
            request: expected.clone(),
            expects_ack: false,
        }
    );
    let step = step.advance(done());
    assert_eq!(step, RemoteExchange::Send { request: expected, expects_ack: false });
    assert_eq!(step.advance(done()), RemoteExchange::Done(Ok(())));
}

#[test]
fn liveness_is_a_successful_connection() {
    let backend = SocketCommunication::new();
    assert!(backend.check_mobile_phone_status(&done()));
    assert!(!backend.check_mobile_phone_status(&IoOutcome::TimedOut));
    assert!(!backend.check_mobile_phone_status(&IoOutcome::Failed("invalid address".to_string())));
}
