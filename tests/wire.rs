use socks5_proxy::error::{decimal_string, other, ErrorKind, IoKind, ProxyError};
use socks5_proxy::socks5::{
    read_port, AuthenticationMethod, Commands, HelloReqV5, HelloRespV5, IpAddress,
    LinkRespType, LinkRespV5, SocketAddress,
};
use socks5_proxy::utilities::{destination, name_port, Destination};

#[test]
fn method_bytes() {
    assert_eq!(AuthenticationMethod::from(0), AuthenticationMethod::NoAuth);
    assert_eq!(AuthenticationMethod::from(1), AuthenticationMethod::Gssapi);
    assert_eq!(AuthenticationMethod::from(2), AuthenticationMethod::UserNamePassword);
    assert_eq!(AuthenticationMethod::from(3), AuthenticationMethod::IanaAssigned(3));
    assert_eq!(AuthenticationMethod::from(0x7f), AuthenticationMethod::IanaAssigned(0x7f));
    assert_eq!(AuthenticationMethod::from(0x80), AuthenticationMethod::PrivateMethod(0x80));
    assert_eq!(AuthenticationMethod::from(0xfe), AuthenticationMethod::PrivateMethod(0xfe));
    assert_eq!(AuthenticationMethod::from(0xff), AuthenticationMethod::NoneAcceptable);
    for b in 0..=255u8 {
        assert_eq!(AuthenticationMethod::from(b).to_byte(), b);
    }
}

#[test]
fn command_bytes() {
    assert_eq!(Commands::from_byte(1), Some(Commands::Connect));
    assert_eq!(Commands::from_byte(2), Some(Commands::Bind));
    assert_eq!(Commands::from_byte(3), Some(Commands::UdpAssociation));
    assert_eq!(Commands::from_byte(0), None);
    assert_eq!(Commands::from_byte(4), None);
}

#[test]
fn greeting_offers() {
    let with = HelloReqV5 { ver: 5, nmethods: 2, methods: vec![2, 0] };
    assert!(with.offers_no_auth());
    let without = HelloReqV5 { ver: 5, nmethods: 2, methods: vec![1, 2] };
    assert!(!without.offers_no_auth());
    let none = HelloReqV5 { ver: 5, nmethods: 0, methods: vec![] };
    assert!(!none.offers_no_auth());
}

#[test]
fn greeting_reply_bytes() {
    let r = HelloRespV5::no_auth();
    assert_eq!(r.to_bytes(), vec![5, 0]);
    assert_eq!(HelloRespV5 { ver: 5, method: 0xff }.to_bytes(), vec![5, 0xff]);
}

#[test]
fn ports_are_big_endian() {
    assert_eq!(read_port(0x1f, 0x90), 8080);
    assert_eq!(read_port(0, 0x50), 80);
    assert_eq!(read_port(0xff, 0xff), 65535);
    assert_eq!(read_port(0, 0), 0);
}

#[test]
fn reply_codes() {
    assert_eq!(LinkRespType::Succeeded.code(), 0);
    assert_eq!(LinkRespType::GeneralFailure.code(), 1);
    assert_eq!(LinkRespType::ConnectionRefused.code(), 5);
    assert_eq!(LinkRespType::UnsupportedAddressType.code(), 8);
    assert_eq!(LinkRespType::Undefined(0x42).code(), 0x42);
}

#[test]
fn ipv4_reply_bytes() {
    let r = LinkRespV5 { ver: 5, rep: LinkRespType::Succeeded, addr: IpAddress::V4([10, 1, 2, 3]), port: 0x1234 };
    assert_eq!(r.to_bytes(), vec![5, 0, 0, 1, 10, 1, 2, 3, 0x12, 0x34]);
}

#[test]
fn ipv6_reply_bytes() {
    let mut o = [0u8; 16];
    o[15] = 1;
    let r = LinkRespV5 { ver: 5, rep: LinkRespType::ConnectionRefused, addr: IpAddress::V6(o), port: 443 };
    let bytes = r.to_bytes();
    assert_eq!(bytes.len(), 22);
    assert_eq!(&bytes[..4], &[5, 5, 0, 4]);
    assert_eq!(&bytes[4..20], &o);
    assert_eq!(&bytes[20..], &[1, 0xbb]);
}

#[test]
fn name_port_splits_host_and_port() {
    let payload = b"localhost\x00\x50";
    assert_eq!(name_port(payload), Ok(Destination::Name("localhost".to_string(), 80)));
    assert_eq!(name_port(b"\x1f\x90"), Ok(Destination::Name(String::new(), 8080)));
    let utf8 = "h\u{e9}te".as_bytes().iter().copied().chain([1u8, 0]).collect::<Vec<u8>>();
    assert_eq!(name_port(&utf8), Ok(Destination::Name("h\u{e9}te".to_string(), 256)));
}

#[test]
fn name_port_rejects_invalid_utf8() {
    assert_eq!(name_port(&[0xff, 0x00, 0x50]), Err(ProxyError::InvalidHostname));
    assert_eq!(name_port(&[0xc3, 0x00, 0x50]), Err(ProxyError::InvalidHostname));
    assert_eq!(ProxyError::InvalidHostname.message(), "hostname buffer provided was not valid utf-8");
}

#[test]
fn other_errors_keep_their_description() {
    let e = other("boom");
    assert_eq!(e, ProxyError::Other("boom".to_string()));
    assert_eq!(e.kind(), ErrorKind::Transport);
    assert_eq!(e.message(), "boom");
    assert_eq!(ProxyError::UnsupportedVersion(4).message(), "unsupported version");
    assert_eq!(ProxyError::NoSupportedMethod.message(), "no supported method given");
    assert_eq!(ProxyError::HostNotResolved.message(), "host name didn't resolve to valid IP address");
}

#[test]
fn name_port_takes_ip_literals_as_addresses() {
    let v4 = [0x31, 0x32, 0x37, 0x2e, 0x30, 0x2e, 0x30, 0x2e, 0x31, 0x00, 0x50];
    let expected = SocketAddress { ip: IpAddress::V4([127, 0, 0, 1]), port: 80 };
    assert_eq!(name_port(&v4), Ok(Destination::Address(expected)));
    let mut o = [0u8; 16];
    o[15] = 1;
    let v6 = [0x3a, 0x3a, 0x31, 0x01, 0xbb];
    let expected6 = SocketAddress { ip: IpAddress::V6(o), port: 443 };
    assert_eq!(name_port(&v6), Ok(Destination::Address(expected6)));
    assert_eq!(name_port(b"1.2.3\x00\x50"), Ok(Destination::Name("1.2.3".to_string(), 80)));
}

#[test]
fn destination_prefers_the_literal() {
    let ip = IpAddress::V4([10, 0, 0, 1]);
    assert_eq!(
        destination(Some(ip), "10.0.0.1".to_string(), 22),
        Destination::Address(SocketAddress { ip, port: 22 })
    );
    assert_eq!(
        destination(None, "host".to_string(), 22),
        Destination::Name("host".to_string(), 22)
    );
}

#[test]
fn bytes_in_decimal() {
    assert_eq!(decimal_string(0), "0");
    assert_eq!(decimal_string(7), "7");
    assert_eq!(decimal_string(10), "10");
    assert_eq!(decimal_string(99), "99");
    assert_eq!(decimal_string(100), "100");
    assert_eq!(decimal_string(205), "205");
    assert_eq!(decimal_string(255), "255");
    for b in 0..=255u8 {
        assert_eq!(decimal_string(b), b.to_string());
    }
}

#[test]
fn io_errors_keep_kind_and_text() {
    let e = ProxyError::Io(IoKind::ConnectionReset, "reset by peer".to_string());
    assert_eq!(e.kind(), ErrorKind::Transport);
    assert_eq!(e.message(), "reset by peer");
}
