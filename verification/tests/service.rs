use cogworks::errors::ErrorClass;
use cogworks::identifiers::DomainServiceName;
use cogworks::service::{
    backoff_delay_ms, classify_transport, connection_action, decode_frame, decode_message,
    encode_frame, encode_message, negotiate, ConnectionAction, DomainServiceRegistration,
    ServiceClient, Transport, TransportError,
};
use cogworks::values::ApiVersion;

#[test]
fn handshake_succeeds_on_compatible_versions() {
    // Local 2.1, remote 2.3: same major, remote minor >= local minor.
    let caps = vec!["analyze".to_string(), "lint".to_string()];
    let r = negotiate(ApiVersion::new(2, 1), ApiVersion::new(2, 3), caps.clone());
    assert_eq!(r.unwrap().names, caps);
}

#[test]
fn handshake_fails_on_major_mismatch() {
    // Remote 3.0 against local 2.1 fails negotiation.
    let r = negotiate(ApiVersion::new(2, 1), ApiVersion::new(3, 0), vec![]);
    match r {
        Err(e) => assert_eq!(e.class(), ErrorClass::Configuration),
        Ok(_) => panic!("incompatible versions must not negotiate"),
    }
}

#[test]
fn registration_tracks_usability() {
    let name = DomainServiceName::new("verifier".to_string()).unwrap();
    let mut reg = DomainServiceRegistration::declare(name, Transport::LocalSocket);
    assert!(!reg.usable);
    let err = reg
        .complete_handshake(ApiVersion::new(2, 1), ApiVersion::new(1, 9), vec![])
        .unwrap_err();
    assert_eq!(err.class(), ErrorClass::Configuration);
    assert!(!reg.usable);
    reg.complete_handshake(ApiVersion::new(2, 1), ApiVersion::new(2, 5), vec!["x".to_string()])
        .unwrap();
    assert!(reg.usable);
    let (version, caps) = reg.negotiated.clone().unwrap();
    assert_eq!(version, ApiVersion::new(2, 5));
    assert_eq!(caps.names, vec!["x".to_string()]);
}

#[test]
fn frame_round_trip() {
    let payload = vec![1u8, 2, 3, 4, 5];
    let mut framed = encode_frame(&payload);
    assert_eq!(framed.len(), 9);
    framed.push(0xEE); // trailing bytes of the next frame
    let (decoded, consumed) = decode_frame(&framed).unwrap();
    assert_eq!(decoded, payload);
    assert_eq!(consumed, 9);
}

#[test]
fn incomplete_frame_decodes_to_none() {
    assert!(decode_frame(&vec![5, 0, 0]).is_none());
    // Length prefix promises 5 bytes, only 2 arrived.
    assert!(decode_frame(&vec![5, 0, 0, 0, 1, 2]).is_none());
}

#[test]
fn empty_frame_round_trip() {
    let framed = encode_frame(&Vec::new());
    let (decoded, consumed) = decode_frame(&framed).unwrap();
    assert!(decoded.is_empty());
    assert_eq!(consumed, 4);
}

#[test]
fn correlated_message_round_trip() {
    let body = vec![9u8, 8, 7];
    let framed = encode_message(0xDEAD_BEEF_0BAD_CAFE, &body);
    let (id, decoded, consumed) = decode_message(&framed).unwrap();
    assert_eq!(id, 0xDEAD_BEEF_0BAD_CAFE);
    assert_eq!(decoded, body);
    assert_eq!(consumed, framed.len());
}

#[test]
fn backoff_doubles_and_caps() {
    assert_eq!(backoff_delay_ms(0, 100, 60_000, 0), 100);
    assert_eq!(backoff_delay_ms(1, 100, 60_000, 0), 200);
    assert_eq!(backoff_delay_ms(3, 100, 60_000, 0), 800);
    // 100 * 2^12 = 409_600 exceeds the 60_000ms ceiling.
    assert_eq!(backoff_delay_ms(12, 100, 60_000, 0), 60_000);
    assert_eq!(backoff_delay_ms(1_000_000, 100, 60_000, 0), 60_000);
}

#[test]
fn backoff_jitter_stays_bounded() {
    for seed in [1u64, 17, 999_999_937, u64::MAX] {
        let d = backoff_delay_ms(2, 100, 60_000, seed);
        assert!((400..=800).contains(&d));
    }
}

#[test]
fn timeouts_reuse_the_connection_resets_do_not() {
    assert_eq!(connection_action(TransportError::Timeout), ConnectionAction::Reuse);
    assert_eq!(connection_action(TransportError::ConnectionReset), ConnectionAction::Reconnect);
    assert_eq!(connection_action(TransportError::ConnectionClosed), ConnectionAction::Reconnect);
}

#[test]
fn transport_errors_are_transient() {
    let c = classify_transport(TransportError::Timeout);
    assert_eq!(c.class, ErrorClass::Transient);
    assert_eq!(c.retry_after_ms, None);
}

#[test]
fn client_backs_off_and_recovers() {
    let name = DomainServiceName::new("formatter".to_string()).unwrap();
    let reg = DomainServiceRegistration::declare(name, Transport::Remote);
    let mut client = ServiceClient::new(reg, 100, 60_000);
    let (action, delay) = client.on_transport_error(TransportError::Timeout, 0);
    assert_eq!(action, ConnectionAction::Reuse);
    assert_eq!(delay, 100);
    let (action, delay) = client.on_transport_error(TransportError::ConnectionReset, 0);
    assert_eq!(action, ConnectionAction::Reconnect);
    assert_eq!(delay, 200);
    client.on_success();
    assert_eq!(client.consecutive_failures, 0);
    let (_, delay) = client.on_transport_error(TransportError::Timeout, 0);
    assert_eq!(delay, 100);
}
