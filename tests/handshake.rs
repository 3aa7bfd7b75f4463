use socks5_proxy::error::{ErrorKind, IoKind, ProxyError};
use socks5_proxy::handshake::{
    reply_to, ConnectOutcome, Handshake, HandshakeAction, HandshakeEvent, Stage,
    HANDSHAKE_TIMEOUT_SECS,
};
use socks5_proxy::socks5::{IpAddress, LinkRespType, SocketAddress};

fn recv(h: &mut Handshake, bytes: &[u8]) -> HandshakeAction {
    h.step(HandshakeEvent::Received(bytes.to_vec()))
}

fn v4(a: u8, b: u8, c: u8, d: u8, port: u16) -> SocketAddress {
    SocketAddress { ip: IpAddress::V4([a, b, c, d]), port }
}

/// Drives a handshake through the greeting and up to the address type.
fn to_address_type(h: &mut Handshake) {
    assert_eq!(h.start(), HandshakeAction::Read(1));
    assert_eq!(recv(h, &[5]), HandshakeAction::Read(1));
    assert_eq!(recv(h, &[1]), HandshakeAction::Read(1));
    assert_eq!(recv(h, &[0]), HandshakeAction::Write(vec![5, 0]));
    assert_eq!(h.step(HandshakeEvent::Sent), HandshakeAction::Read(1));
    assert_eq!(recv(h, &[5]), HandshakeAction::Read(1));
    assert_eq!(recv(h, &[1]), HandshakeAction::Read(1));
    assert_eq!(recv(h, &[0]), HandshakeAction::Read(1));
    assert_eq!(h.stage(), &Stage::AddressType);
}

#[test]
fn ipv4_connect_succeeds() {
    let mut h = Handshake::new();
    to_address_type(&mut h);
    assert_eq!(recv(&mut h, &[1]), HandshakeAction::Read(6));
    let target = v4(127, 0, 0, 1, 80);
    assert_eq!(recv(&mut h, &[0x7f, 0, 0, 1, 0, 0x50]), HandshakeAction::Connect(target));
    let local = v4(127, 0, 0, 1, 54321);
    let a = h.step(HandshakeEvent::Connected(ConnectOutcome::Connected(Some(local))));
    assert_eq!(a, HandshakeAction::Write(vec![5, 0, 0, 1, 127, 0, 0, 1, 0xd4, 0x31]));
    assert_eq!(h.step(HandshakeEvent::Sent), HandshakeAction::Proxy);
    assert!(h.is_established());
    assert_eq!(h.step(HandshakeEvent::TimedOut), HandshakeAction::Proxy);
}

#[test]
fn domain_connect_succeeds() {
    let mut h = Handshake::new();
    to_address_type(&mut h);
    assert_eq!(recv(&mut h, &[3]), HandshakeAction::Read(1));
    assert_eq!(recv(&mut h, &[9]), HandshakeAction::Read(11));
    let payload = [0x6c, 0x6f, 0x63, 0x61, 0x6c, 0x68, 0x6f, 0x73, 0x74, 0x00, 0x50];
    assert_eq!(
        recv(&mut h, &payload),
        HandshakeAction::Resolve("localhost".to_string(), 80)
    );
    let target = v4(127, 0, 0, 1, 80);
    assert_eq!(
        h.step(HandshakeEvent::Resolved(Ok(Some(target)))),
        HandshakeAction::Connect(target)
    );
    let local = v4(127, 0, 0, 1, 40000);
    let a = h.step(HandshakeEvent::Connected(ConnectOutcome::Connected(Some(local))));
    assert_eq!(a, HandshakeAction::Write(vec![5, 0, 0, 1, 127, 0, 0, 1, 0x9c, 0x40]));
    assert_eq!(h.step(HandshakeEvent::Sent), HandshakeAction::Proxy);
}

#[test]
fn ipv6_connect_refused() {
    let mut h = Handshake::new();
    to_address_type(&mut h);
    assert_eq!(recv(&mut h, &[4]), HandshakeAction::Read(18));
    let mut payload: Vec<u8> = (1..=16).collect();
    payload.push(0x1f);
    payload.push(0x90);
    let mut octets = [0u8; 16];
    octets.copy_from_slice(&payload[..16]);
    let target = SocketAddress { ip: IpAddress::V6(octets), port: 8080 };
    assert_eq!(recv(&mut h, &payload), HandshakeAction::Connect(target));
    let refused = ProxyError::Io(IoKind::ConnectionRefused, "connection refused".to_string());
    let a = h.step(HandshakeEvent::Connected(ConnectOutcome::Refused(refused.clone())));
    let mut expected = vec![5, 5, 0, 4];
    expected.extend_from_slice(&payload);
    assert_eq!(a, HandshakeAction::Write(expected));
    assert_eq!(
        h.step(HandshakeEvent::Sent),
        HandshakeAction::Close(refused.clone())
    );
    assert_eq!(refused.kind(), ErrorKind::Transport);
    assert_eq!(h.stage(), &Stage::Failed);
}

#[test]
fn connect_failure_replies_general_failure() {
    let mut h = Handshake::new();
    to_address_type(&mut h);
    recv(&mut h, &[1]);
    recv(&mut h, &[10, 0, 0, 1, 1, 0]);
    let unreachable = ProxyError::Io(IoKind::Other, "network unreachable".to_string());
    let a = h.step(HandshakeEvent::Connected(ConnectOutcome::Failed(unreachable.clone())));
    assert_eq!(a, HandshakeAction::Write(vec![5, 1, 0, 1, 10, 0, 0, 1, 1, 0]));
    let close = h.step(HandshakeEvent::Sent);
    assert_eq!(close, HandshakeAction::Close(unreachable.clone()));
    assert_eq!(unreachable.kind(), ErrorKind::Transport);
    assert_eq!(unreachable.message(), "network unreachable");
}

#[test]
fn bad_version_closes_without_reply() {
    let mut h = Handshake::new();
    let a = recv(&mut h, &[4]);
    assert_eq!(a, HandshakeAction::Close(ProxyError::UnsupportedVersion(4)));
    assert_eq!(ProxyError::UnsupportedVersion(4).kind(), ErrorKind::ProtocolViolation);
    for ev in [HandshakeEvent::Sent, HandshakeEvent::Received(vec![5]), HandshakeEvent::TimedOut] {
        assert!(matches!(h.step(ev), HandshakeAction::Close(_)));
    }
}

#[test]
fn every_other_version_byte_is_refused() {
    for b in 0..=255u8 {
        let mut h = Handshake::new();
        let a = recv(&mut h, &[b]);
        if b == 5 {
            assert_eq!(a, HandshakeAction::Read(1));
        } else {
            assert_eq!(a, HandshakeAction::Close(ProxyError::UnsupportedVersion(b)));
        }
    }
}

#[test]
fn no_acceptable_method_closes_without_greeting_reply() {
    let mut h = Handshake::new();
    recv(&mut h, &[5]);
    assert_eq!(recv(&mut h, &[1]), HandshakeAction::Read(1));
    assert_eq!(recv(&mut h, &[2]), HandshakeAction::Close(ProxyError::NoSupportedMethod));
}

#[test]
fn empty_method_list_is_refused() {
    let mut h = Handshake::new();
    recv(&mut h, &[5]);
    assert_eq!(recv(&mut h, &[0]), HandshakeAction::Read(0));
    assert_eq!(recv(&mut h, &[]), HandshakeAction::Close(ProxyError::NoSupportedMethod));
}

#[test]
fn no_auth_among_several_methods_is_accepted() {
    let mut h = Handshake::new();
    recv(&mut h, &[5]);
    assert_eq!(recv(&mut h, &[3]), HandshakeAction::Read(3));
    assert_eq!(recv(&mut h, &[2, 1, 0]), HandshakeAction::Write(vec![5, 0]));
}

#[test]
fn request_version_must_be_five() {
    let mut h = Handshake::new();
    recv(&mut h, &[5]);
    recv(&mut h, &[1]);
    recv(&mut h, &[0]);
    h.step(HandshakeEvent::Sent);
    assert_eq!(recv(&mut h, &[4]), HandshakeAction::Close(ProxyError::VersionNotConfirmed(4)));
}

#[test]
fn commands_other_than_connect_are_refused() {
    for cmd in [0u8, 2, 3, 0xff] {
        let mut h = Handshake::new();
        recv(&mut h, &[5]);
        recv(&mut h, &[1]);
        recv(&mut h, &[0]);
        h.step(HandshakeEvent::Sent);
        recv(&mut h, &[5]);
        let a = recv(&mut h, &[cmd]);
        assert_eq!(a, HandshakeAction::Close(ProxyError::UnsupportedCommand(cmd)));
        assert_eq!(ProxyError::UnsupportedCommand(cmd).kind(), ErrorKind::ProtocolViolation);
        assert!(!matches!(h.step(HandshakeEvent::Sent), HandshakeAction::Write(_)));
    }
}

#[test]
fn unknown_address_type_closes_before_reply() {
    for atyp in [0u8, 2, 5, 0xff] {
        let mut h = Handshake::new();
        to_address_type(&mut h);
        let a = recv(&mut h, &[atyp]);
        assert_eq!(a, HandshakeAction::Close(ProxyError::UnknownAddressType(atyp)));
        assert_eq!(
            ProxyError::UnknownAddressType(atyp).message(),
            format!("unknown ATYP received: {}", atyp)
        );
        assert_eq!(h.stage(), &Stage::Failed);
    }
}

#[test]
fn invalid_utf8_host_name_is_refused() {
    let mut h = Handshake::new();
    to_address_type(&mut h);
    recv(&mut h, &[3]);
    assert_eq!(recv(&mut h, &[2]), HandshakeAction::Read(4));
    assert_eq!(
        recv(&mut h, &[0xff, 0xfe, 0, 80]),
        HandshakeAction::Close(ProxyError::InvalidHostname)
    );
}

#[test]
fn unresolved_host_name_fails() {
    let mut h = Handshake::new();
    to_address_type(&mut h);
    recv(&mut h, &[3]);
    recv(&mut h, &[1]);
    assert_eq!(recv(&mut h, &[0x61, 0, 80]), HandshakeAction::Resolve("a".to_string(), 80));
    assert_eq!(
        h.step(HandshakeEvent::Resolved(Ok(None))),
        HandshakeAction::Close(ProxyError::HostNotResolved)
    );
    assert_eq!(ProxyError::HostNotResolved.kind(), ErrorKind::ResolutionFailed);
}

#[test]
fn silent_client_times_out() {
    assert_eq!(HANDSHAKE_TIMEOUT_SECS, 10);
    let mut h = Handshake::new();
    assert_eq!(
        h.step(HandshakeEvent::TimedOut),
        HandshakeAction::Close(ProxyError::HandshakeTimeout)
    );
    assert_eq!(ProxyError::HandshakeTimeout.kind(), ErrorKind::HandshakeTimeout);
    assert_eq!(ProxyError::HandshakeTimeout.message(), "timeout during handshake");
}

#[test]
fn timeout_while_connecting_sends_no_reply() {
    let mut h = Handshake::new();
    to_address_type(&mut h);
    recv(&mut h, &[1]);
    recv(&mut h, &[1, 2, 3, 4, 0, 1]);
    assert_eq!(
        h.step(HandshakeEvent::TimedOut),
        HandshakeAction::Close(ProxyError::HandshakeTimeout)
    );
    let late = h.step(HandshakeEvent::Connected(ConnectOutcome::Connected(None)));
    assert_eq!(late, HandshakeAction::Close(ProxyError::UnexpectedEvent));
}

#[test]
fn wrong_number_of_bytes_is_unexpected() {
    let mut h = Handshake::new();
    assert_eq!(recv(&mut h, &[5, 1]), HandshakeAction::Close(ProxyError::UnexpectedEvent));
    assert_eq!(ProxyError::UnexpectedEvent.kind(), ErrorKind::InvariantViolation);
}

#[test]
fn reply_uses_target_when_local_address_unknown() {
    let target = v4(192, 168, 1, 2, 443);
    let r = reply_to(target, &ConnectOutcome::Connected(None));
    assert_eq!(r.rep, LinkRespType::Succeeded);
    assert_eq!(r.addr, target.ip);
    assert_eq!(r.port, 443);
    assert_eq!(r.to_bytes(), vec![5, 0, 0, 1, 192, 168, 1, 2, 1, 0xbb]);
}

#[test]
fn unknown_address_type_two_names_the_byte() {
    let mut h = Handshake::new();
    to_address_type(&mut h);
    match recv(&mut h, &[2]) {
        HandshakeAction::Close(e) => {
            assert_eq!(e.message(), "unknown ATYP received: 2");
            assert_eq!(e.kind(), ErrorKind::ProtocolViolation);
        }
        other => panic!("expected close, got {:?}", other),
    }
}

#[test]
fn ipv4_literal_host_name_connects_without_lookup() {
    let mut h = Handshake::new();
    to_address_type(&mut h);
    recv(&mut h, &[3]);
    assert_eq!(recv(&mut h, &[9]), HandshakeAction::Read(11));
    let mut payload = b"127.0.0.1".to_vec();
    payload.extend_from_slice(&[0, 0x50]);
    assert_eq!(recv(&mut h, &payload), HandshakeAction::Connect(v4(127, 0, 0, 1, 80)));
}

#[test]
fn ipv6_literal_host_name_connects_without_lookup() {
    let mut h = Handshake::new();
    to_address_type(&mut h);
    recv(&mut h, &[3]);
    assert_eq!(recv(&mut h, &[3]), HandshakeAction::Read(5));
    let mut o = [0u8; 16];
    o[15] = 1;
    let target = SocketAddress { ip: IpAddress::V6(o), port: 443 };
    assert_eq!(recv(&mut h, &[0x3a, 0x3a, 0x31, 0x01, 0xbb]), HandshakeAction::Connect(target));
}

#[test]
fn resolver_error_is_passed_on() {
    let mut h = Handshake::new();
    to_address_type(&mut h);
    recv(&mut h, &[3]);
    recv(&mut h, &[7]);
    let mut payload = b"example".to_vec();
    payload.extend_from_slice(&[0, 80]);
    assert_eq!(recv(&mut h, &payload), HandshakeAction::Resolve("example".to_string(), 80));
    let e = ProxyError::Io(IoKind::Other, "failed to lookup address information".to_string());
    assert_eq!(h.step(HandshakeEvent::Resolved(Err(e.clone()))), HandshakeAction::Close(e));
}
