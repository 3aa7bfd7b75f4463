use vstd::prelude::*;
use vstd::utf8::{valid_utf8, decode_utf8};

use crate::error::ProxyError;
use crate::socks5::{
    port_of, read_port, reply_bytes, HelloReqV5, HelloRespV5, IpAddress, LinkRespType, LinkRespV5,
    SocketAddress, ATYP_DOMAIN, ATYP_IPV4, ATYP_IPV6, CMD_CONNECT, METH_NO_AUTH, VERSION,
};
use crate::utilities::{host_bytes, ip_literal, name_port, payload_port, Destination};

verus! {

/// How long a client has, from its connection to the end of the reply, in
/// seconds.
pub const HANDSHAKE_TIMEOUT_SECS: u64 = 10;

/// How the outbound connection attempt ended.
#[derive(Clone, Debug, PartialEq, Eq)]
pub enum ConnectOutcome {
    /// Connected; the local address of the outbound socket, where known.
    Connected(Option<SocketAddress>),
    /// The target refused the connection, with this error.
    Refused(ProxyError),
    /// The connection failed for another reason, with this error.
    Failed(ProxyError),
}

/// Where a handshake stands: what it waits for next.
#[derive(Clone, Debug, PartialEq, Eq)]
pub enum Stage {
    /// The version byte of the greeting.
    Version,
    /// The number of methods offered.
    NMethods,
    /// The methods offered, this many bytes.
    Methods(u8),
    /// The end of the write of the method choice.
    Ack,
    /// The version byte of the request.
    RequestVersion,
    /// The command byte.
    Command,
    /// The reserved byte.
    Reserved,
    /// The address type byte.
    AddressType,
    /// Four address bytes and two port bytes.
    Ipv4Address,
    /// Sixteen address bytes and two port bytes.
    Ipv6Address,
    /// The length of the host name.
    DomainLength,
    /// A host name of this many bytes and two port bytes.
    DomainName(u8),
    /// The resolution of the host name.
    Resolving,
    /// The outbound connection to this target.
    Connecting(SocketAddress),
    /// The end of the write of the reply, after this connection outcome.
    Replying(ConnectOutcome),
    /// Done: the pair of sockets is ready to be proxied.
    Established,
    /// Given up; nothing more is written.
    Failed,
}

/// What the driver of a handshake observed.
#[derive(Debug, PartialEq, Eq)]
pub enum HandshakeEvent {
    /// Exactly the bytes that the last `Read` asked for arrived.
    Received(Vec<u8>),
    /// The last `Write` went out in full.
    Sent,
    /// The host name resolved to this address, to none, or the resolver
    /// failed with this error.
    Resolved(Result<Option<SocketAddress>, ProxyError>),
    /// The outbound connection attempt ended so.
    Connected(ConnectOutcome),
    /// The deadline passed.
    TimedOut,
}

/// What the driver of a handshake is to do next.
#[derive(Clone, Debug, PartialEq, Eq)]
pub enum HandshakeAction {
    /// Read exactly this many bytes from the client.
    Read(usize),
    /// Write these bytes to the client.
    Write(Vec<u8>),
    /// Resolve this host name; the port goes with the address found.
    Resolve(String, u16),
    /// Open an outbound TCP connection to this address.
    Connect(SocketAddress),
    /// Start proxying between the client and the outbound connection.
    Proxy,
    /// Close the client connection, for this reason.
    Close(ProxyError),
}

/// A handshake event as the contracts see it.
pub enum EventView {
    Received(Seq<u8>),
    Sent,
    Resolved(Result<Option<SocketAddress>, ProxyError>),
    Connected(ConnectOutcome),
    TimedOut,
}

/// A handshake action as the contracts see it.
pub enum ActionView {
    Read(nat),
    Write(Seq<u8>),
    Resolve(Seq<char>, u16),
    Connect(SocketAddress),
    Proxy,
    Close(ProxyError),
}

impl View for HandshakeEvent {
    type V = EventView;

    open spec fn view(&self) -> EventView {
        match self {
            HandshakeEvent::Received(b) => EventView::Received(b@),
            HandshakeEvent::Sent => EventView::Sent,
            HandshakeEvent::Resolved(a) => EventView::Resolved(*a),
            HandshakeEvent::Connected(o) => EventView::Connected(*o),
            HandshakeEvent::TimedOut => EventView::TimedOut,
        }
    }
}

impl View for HandshakeAction {
    type V = ActionView;

    open spec fn view(&self) -> ActionView {
        match self {
            HandshakeAction::Read(n) => ActionView::Read(*n as nat),
            HandshakeAction::Write(b) => ActionView::Write(b@),
            HandshakeAction::Resolve(h, p) => ActionView::Resolve(h@, *p),
            HandshakeAction::Connect(a) => ActionView::Connect(*a),
            HandshakeAction::Proxy => ActionView::Proxy,
            HandshakeAction::Close(e) => ActionView::Close(*e),
        }
    }
}

/// How many bytes a stage reads, for the stages that read.
pub open spec fn read_len(s: Stage) -> Option<nat> {
    match s {
        Stage::Version => Some(1),
        Stage::NMethods => Some(1),
        Stage::Methods(n) => Some(n as nat),
        Stage::RequestVersion => Some(1),
        Stage::Command => Some(1),
        Stage::Reserved => Some(1),
        Stage::AddressType => Some(1),
        Stage::Ipv4Address => Some(6),
        Stage::Ipv6Address => Some(18),
        Stage::DomainLength => Some(1),
        Stage::DomainName(l) => Some(l as nat + 2),
        _ => None,
    }
}

/// The IPv4 target of an address payload.
pub open spec fn ipv4_target(b: Seq<u8>) -> SocketAddress {
    SocketAddress { ip: IpAddress::V4([b[0], b[1], b[2], b[3]]), port: port_of(b[4], b[5]) }
}

/// The IPv6 target of an address payload.
pub open spec fn ipv6_target(b: Seq<u8>) -> SocketAddress {
    SocketAddress {
        ip: IpAddress::V6(
            [
                b[0],
                b[1],
                b[2],
                b[3],
                b[4],
                b[5],
                b[6],
                b[7],
                b[8],
                b[9],
                b[10],
                b[11],
                b[12],
                b[13],
                b[14],
                b[15],
            ],
        ),
        port: port_of(b[16], b[17]),
    }
}

/// The reply for a connection attempt to `target`: its code, and the local
/// address of the outbound socket where known, else the target.
pub open spec fn reply_for(target: SocketAddress, o: ConnectOutcome) -> LinkRespV5 {
    let rep = match o {
        ConnectOutcome::Connected(_) => LinkRespType::Succeeded,
        ConnectOutcome::Refused(_) => LinkRespType::ConnectionRefused,
        ConnectOutcome::Failed(_) => LinkRespType::GeneralFailure,
    };
    let bound = match o {
        ConnectOutcome::Connected(Some(local)) => local,
        _ => target,
    };
    LinkRespV5 { ver: VERSION, rep, addr: bound.ip, port: bound.port }
}

/// Gives up with `e`.
pub open spec fn fail(e: ProxyError) -> (Stage, ActionView) {
    (Stage::Failed, ActionView::Close(e))
}

/// The step of a reading stage on the bytes it asked for.
pub open spec fn on_bytes(s: Stage, b: Seq<u8>) -> (Stage, ActionView) {
    match s {
        Stage::Version => if b[0] == VERSION {
            (Stage::NMethods, ActionView::Read(1))
        } else {
            fail(ProxyError::UnsupportedVersion(b[0]))
        },
        Stage::NMethods => (Stage::Methods(b[0]), ActionView::Read(b[0] as nat)),
        Stage::Methods(_) => if b.contains(METH_NO_AUTH) {
            (Stage::Ack, ActionView::Write(seq![VERSION, METH_NO_AUTH]))
        } else {
            fail(ProxyError::NoSupportedMethod)
        },
        Stage::RequestVersion => if b[0] == VERSION {
            (Stage::Command, ActionView::Read(1))
        } else {
            fail(ProxyError::VersionNotConfirmed(b[0]))
        },
        Stage::Command => if b[0] == CMD_CONNECT {
            (Stage::Reserved, ActionView::Read(1))
        } else {
            fail(ProxyError::UnsupportedCommand(b[0]))
        },
        Stage::Reserved => (Stage::AddressType, ActionView::Read(1)),
        Stage::AddressType => if b[0] == ATYP_IPV4 {
            (Stage::Ipv4Address, ActionView::Read(6))
        } else if b[0] == ATYP_IPV6 {
            (Stage::Ipv6Address, ActionView::Read(18))
        } else if b[0] == ATYP_DOMAIN {
            (Stage::DomainLength, ActionView::Read(1))
        } else {
            fail(ProxyError::UnknownAddressType(b[0]))
        },
        Stage::Ipv4Address => (Stage::Connecting(ipv4_target(b)), ActionView::Connect(ipv4_target(b))),
        Stage::Ipv6Address => (Stage::Connecting(ipv6_target(b)), ActionView::Connect(ipv6_target(b))),
        Stage::DomainLength => (Stage::DomainName(b[0]), ActionView::Read(b[0] as nat + 2)),
        Stage::DomainName(_) => if valid_utf8(host_bytes(b)) {
            let host = decode_utf8(host_bytes(b));
            match ip_literal(host) {
                Some(ip) => {
                    let t = SocketAddress { ip, port: payload_port(b) };
                    (Stage::Connecting(t), ActionView::Connect(t))
                },
                None => (Stage::Resolving, ActionView::Resolve(host, payload_port(b))),
            }
        } else {
            fail(ProxyError::InvalidHostname)
        },
        _ => fail(ProxyError::UnexpectedEvent),
    }
}

/// The next stage and action of a handshake on an event.
pub open spec fn hs_next(s: Stage, e: EventView) -> (Stage, ActionView) {
    if s == Stage::Established {
        (s, ActionView::Proxy)
    } else if s == Stage::Failed {
        fail(ProxyError::UnexpectedEvent)
    } else if e is TimedOut {
        fail(ProxyError::HandshakeTimeout)
    } else {
        match s {
            Stage::Ack => match e {
                EventView::Sent => (Stage::RequestVersion, ActionView::Read(1)),
                _ => fail(ProxyError::UnexpectedEvent),
            },
            Stage::Resolving => match e {
                EventView::Resolved(Ok(Some(t))) => (Stage::Connecting(t), ActionView::Connect(t)),
                EventView::Resolved(Ok(None)) => fail(ProxyError::HostNotResolved),
                EventView::Resolved(Err(e)) => fail(e),
                _ => fail(ProxyError::UnexpectedEvent),
            },
            Stage::Connecting(t) => match e {
                EventView::Connected(o) => (
                    Stage::Replying(o),
                    ActionView::Write(reply_bytes(reply_for(t, o))),
                ),
                _ => fail(ProxyError::UnexpectedEvent),
            },
            Stage::Replying(o) => match e {
                EventView::Sent => match o {
                    ConnectOutcome::Connected(_) => (Stage::Established, ActionView::Proxy),
                    ConnectOutcome::Refused(e) => fail(e),
                    ConnectOutcome::Failed(e) => fail(e),
                },
                _ => fail(ProxyError::UnexpectedEvent),
            },
            _ => match e {
                EventView::Received(b) => if read_len(s) == Some(b.len()) {
                    on_bytes(s, b)
                } else {
                    fail(ProxyError::UnexpectedEvent)
                },
                _ => fail(ProxyError::UnexpectedEvent),
            },
        }
    }
}

/// The SOCKS5 negotiation with one client, from its greeting to the reply
/// to its request, as a machine from events to actions.
pub struct Handshake {
    stage: Stage,
}

impl View for Handshake {
    type V = Stage;

    closed spec fn view(&self) -> Stage {
        self.stage
    }
}

impl Handshake {
    /// A handshake waiting for the version byte.
    pub fn new() -> (r: Handshake)
        ensures
            r@ == Stage::Version,
    {
        Handshake { stage: Stage::Version }
    }

    /// The first action of every handshake: read the version byte.
    pub fn start(&self) -> (r: HandshakeAction)
        ensures
            r@ == ActionView::Read(1),
    {
        HandshakeAction::Read(1)
    }

    /// Where this handshake stands.
    pub fn stage(&self) -> (r: &Stage)
        ensures
            *r == self@,
    {
        &self.stage
    }

    /// Whether the handshake has finished with a connected target.
    pub fn is_established(&self) -> (r: bool)
        ensures
            r == (self@ == Stage::Established),
    {
        match &self.stage {
            Stage::Established => true,
            _ => false,
        }
    }

    fn give_up(&mut self, e: ProxyError) -> (r: HandshakeAction)
        ensures
            (final(self)@, r@) == fail(e),
    {
        self.stage = Stage::Failed;
        HandshakeAction::Close(e)
    }

    fn expected_len(s: &Stage) -> (r: Option<usize>)
        ensures
            match read_len(*s) {
                Some(n) => r == Some(n as usize) && n <= 257,
                None => r is None,
            },
    {
        match s {
            Stage::Version => Some(1),
            Stage::NMethods => Some(1),
            Stage::Methods(n) => Some(*n as usize),
            Stage::RequestVersion => Some(1),
            Stage::Command => Some(1),
            Stage::Reserved => Some(1),
            Stage::AddressType => Some(1),
            Stage::Ipv4Address => Some(6),
            Stage::Ipv6Address => Some(18),
            Stage::DomainLength => Some(1),
            Stage::DomainName(l) => Some(*l as usize + 2),
            _ => None,
        }
    }

    fn take_bytes(&mut self, s: Stage, b: Vec<u8>) -> (r: HandshakeAction)
        requires
            read_len(s) == Some(b@.len()),
        ensures
            (final(self)@, r@) == on_bytes(s, b@),
    {
        match s {
            Stage::Version => {
                if b[0] == VERSION {
                    self.stage = Stage::NMethods;
                    HandshakeAction::Read(1)
                } else {
                    self.give_up(ProxyError::UnsupportedVersion(b[0]))
                }
            },
            Stage::NMethods => {
                self.stage = Stage::Methods(b[0]);
                HandshakeAction::Read(b[0] as usize)
            },
            Stage::Methods(n) => {
                let hello = HelloReqV5 { ver: VERSION, nmethods: n, methods: b };
                if hello.offers_no_auth() {
                    self.stage = Stage::Ack;
                    HandshakeAction::Write(HelloRespV5::no_auth().to_bytes())
                } else {
                    self.give_up(ProxyError::NoSupportedMethod)
                }
            },
            Stage::RequestVersion => {
                if b[0] == VERSION {
                    self.stage = Stage::Command;
                    HandshakeAction::Read(1)
                } else {
                    self.give_up(ProxyError::VersionNotConfirmed(b[0]))
                }
            },
            Stage::Command => {
                if b[0] == CMD_CONNECT {
                    self.stage = Stage::Reserved;
                    HandshakeAction::Read(1)
                } else {
                    self.give_up(ProxyError::UnsupportedCommand(b[0]))
                }
            },
            Stage::Reserved => {
                self.stage = Stage::AddressType;
                HandshakeAction::Read(1)
            },
            Stage::AddressType => {
                if b[0] == ATYP_IPV4 {
                    self.stage = Stage::Ipv4Address;
                    HandshakeAction::Read(6)
                } else if b[0] == ATYP_IPV6 {
                    self.stage = Stage::Ipv6Address;
                    HandshakeAction::Read(18)
                } else if b[0] == ATYP_DOMAIN {
                    self.stage = Stage::DomainLength;
                    HandshakeAction::Read(1)
                } else {
                    self.give_up(ProxyError::UnknownAddressType(b[0]))
                }
            },
            Stage::Ipv4Address => {
                let t = SocketAddress {
                    ip: IpAddress::V4([b[0], b[1], b[2], b[3]]),
                    port: read_port(b[4], b[5]),
                };
                self.stage = Stage::Connecting(t);
                HandshakeAction::Connect(t)
            },
            Stage::Ipv6Address => {
                let t = SocketAddress {
                    ip: IpAddress::V6(
                        [
                            b[0],
                            b[1],
                            b[2],
                            b[3],
                            b[4],
                            b[5],
                            b[6],
                            b[7],
                            b[8],
                            b[9],
                            b[10],
                            b[11],
                            b[12],
                            b[13],
                            b[14],
                            b[15],
                        ],
                    ),
                    port: read_port(b[16], b[17]),
                };
                self.stage = Stage::Connecting(t);
                HandshakeAction::Connect(t)
            },
            Stage::DomainLength => {
                self.stage = Stage::DomainName(b[0]);
                HandshakeAction::Read(b[0] as usize + 2)
            },
            Stage::DomainName(_) => {
                match name_port(b.as_slice()) {
                    Ok(Destination::Address(t)) => {
                        self.stage = Stage::Connecting(t);
                        HandshakeAction::Connect(t)
                    },
                    Ok(Destination::Name(host, port)) => {
                        self.stage = Stage::Resolving;
                        HandshakeAction::Resolve(host, port)
                    },
                    Err(_) => self.give_up(ProxyError::InvalidHostname),
                }
            },
            _ => self.give_up(ProxyError::UnexpectedEvent),
        }
    }

    /// Advances the handshake on one event and says what to do next.
    pub fn step(&mut self, ev: HandshakeEvent) -> (r: HandshakeAction)
        ensures
            (final(self)@, r@) == hs_next(old(self)@, ev@),
    {
        let mut cur = Stage::Failed;
        core::mem::swap(&mut cur, &mut self.stage);
        match cur {
            Stage::Established => {
                self.stage = Stage::Established;
                return HandshakeAction::Proxy;
            },
            Stage::Failed => return self.give_up(ProxyError::UnexpectedEvent),
            _ => {},
        }
        match ev {
            HandshakeEvent::TimedOut => self.give_up(ProxyError::HandshakeTimeout),
            HandshakeEvent::Sent => match cur {
                Stage::Ack => {
                    self.stage = Stage::RequestVersion;
                    HandshakeAction::Read(1)
                },
                Stage::Replying(o) => match o {
                    ConnectOutcome::Connected(_) => {
                        self.stage = Stage::Established;
                        HandshakeAction::Proxy
                    },
                    ConnectOutcome::Refused(e) => self.give_up(e),
                    ConnectOutcome::Failed(e) => self.give_up(e),
                },
                _ => self.give_up(ProxyError::UnexpectedEvent),
            },
            HandshakeEvent::Resolved(a) => match cur {
                Stage::Resolving => match a {
                    Ok(Some(t)) => {
                        self.stage = Stage::Connecting(t);
                        HandshakeAction::Connect(t)
                    },
                    Ok(None) => self.give_up(ProxyError::HostNotResolved),
                    Err(e) => self.give_up(e),
                },
                _ => self.give_up(ProxyError::UnexpectedEvent),
            },
            HandshakeEvent::Connected(o) => match cur {
                Stage::Connecting(t) => {
                    let reply = reply_to(t, &o);
                    self.stage = Stage::Replying(o);
                    HandshakeAction::Write(reply.to_bytes())
                },
                _ => self.give_up(ProxyError::UnexpectedEvent),
            },
            HandshakeEvent::Received(b) => {
                match Self::expected_len(&cur) {
                    Some(n) => {
                        if b.len() == n {
                            self.take_bytes(cur, b)
                        } else {
                            self.give_up(ProxyError::UnexpectedEvent)
                        }
                    },
                    None => self.give_up(ProxyError::UnexpectedEvent),
                }
            },
        }
    }
}

/// The reply for a connection attempt to `target`.
pub fn reply_to(target: SocketAddress, o: &ConnectOutcome) -> (r: LinkRespV5)
    ensures
        r == reply_for(target, *o),
{
    let rep = match o {
        ConnectOutcome::Connected(_) => LinkRespType::Succeeded,
        ConnectOutcome::Refused(_) => LinkRespType::ConnectionRefused,
        ConnectOutcome::Failed(_) => LinkRespType::GeneralFailure,
    };
    let bound = match o {
        ConnectOutcome::Connected(Some(local)) => *local,
        _ => target,
    };
    LinkRespV5 { ver: VERSION, rep, addr: bound.ip, port: bound.port }
}

/// Whether any action taken on the way through the events writes to the
/// client.
pub open spec fn writes_any(s: Stage, evs: Seq<EventView>) -> bool
    decreases evs.len(),
{
    if evs.len() == 0 {
        false
    } else {
        let (s2, a) = hs_next(s, evs[0]);
        a is Write || writes_any(s2, evs.drop_first())
    }
}

proof fn lemma_writes_any_first(s: Stage, e: EventView, evs: Seq<EventView>)
    ensures
        writes_any(s, seq![e] + evs) == (hs_next(s, e).1 is Write || writes_any(
            hs_next(s, e).0,
            evs,
        )),
{
    let all = seq![e] + evs;
    assert(all.drop_first() =~= evs);
    assert(all[0] == e);
}

/// A handshake that has given up writes nothing more, whatever happens.
pub proof fn lemma_failed_is_silent(evs: Seq<EventView>)
    ensures
        !writes_any(Stage::Failed, evs),
    decreases evs.len(),
{
    if evs.len() > 0 {
        lemma_failed_is_silent(evs.drop_first());
    }
}

/// A first byte other than the version byte is a protocol violation: the
/// handshake gives up and writes nothing back, whatever follows.
pub proof fn version_gate(b: u8, evs: Seq<EventView>)
    requires
        b != VERSION,
    ensures
        hs_next(Stage::Version, EventView::Received(seq![b])) == fail(
            ProxyError::UnsupportedVersion(b),
        ),
        crate::error::kind_of(ProxyError::UnsupportedVersion(b))
            == crate::error::ErrorKind::ProtocolViolation,
        !writes_any(Stage::Version, seq![EventView::Received(seq![b])] + evs),
{
    lemma_writes_any_first(Stage::Version, EventView::Received(seq![b]), evs);
    lemma_failed_is_silent(evs);
}

/// A greeting whose methods leave out "no authentication" is refused: the
/// handshake gives up without answering it, and writes nothing, whatever
/// follows.
pub proof fn method_gate(n: u8, methods: Seq<u8>, evs: Seq<EventView>)
    requires
        methods.len() == n,
        !methods.contains(METH_NO_AUTH),
    ensures
        hs_next(Stage::Methods(n), EventView::Received(methods)) == fail(
            ProxyError::NoSupportedMethod,
        ),
        !writes_any(
            Stage::Version,
            seq![
                EventView::Received(seq![VERSION]),
                EventView::Received(seq![n]),
                EventView::Received(methods),
            ] + evs,
        ),
{
    let e0 = EventView::Received(seq![VERSION]);
    let e1 = EventView::Received(seq![n]);
    let e2 = EventView::Received(methods);
    assert(seq![e0, e1, e2] + evs =~= seq![e0] + (seq![e1] + (seq![e2] + evs)));
    lemma_writes_any_first(Stage::Version, e0, seq![e1] + (seq![e2] + evs));
    lemma_writes_any_first(Stage::NMethods, e1, seq![e2] + evs);
    lemma_writes_any_first(Stage::Methods(n), e2, evs);
    lemma_failed_is_silent(evs);
}

/// A command other than CONNECT is a protocol violation: the handshake gives
/// up and writes no reply, whatever follows.
pub proof fn command_gate(c: u8, evs: Seq<EventView>)
    requires
        c != CMD_CONNECT,
    ensures
        hs_next(Stage::Command, EventView::Received(seq![c])) == fail(
            ProxyError::UnsupportedCommand(c),
        ),
        crate::error::kind_of(ProxyError::UnsupportedCommand(c))
            == crate::error::ErrorKind::ProtocolViolation,
        !writes_any(Stage::Command, seq![EventView::Received(seq![c])] + evs),
{
    lemma_writes_any_first(Stage::Command, EventView::Received(seq![c]), evs);
    lemma_failed_is_silent(evs);
}

/// An address type other than IPv4, domain name and IPv6 fails the
/// handshake, which writes no reply, whatever follows.
pub proof fn address_type_gate(a: u8, evs: Seq<EventView>)
    requires
        a != ATYP_IPV4,
        a != ATYP_DOMAIN,
        a != ATYP_IPV6,
    ensures
        hs_next(Stage::AddressType, EventView::Received(seq![a])) == fail(
            ProxyError::UnknownAddressType(a),
        ),
        !writes_any(Stage::AddressType, seq![EventView::Received(seq![a])] + evs),
{
    lemma_writes_any_first(Stage::AddressType, EventView::Received(seq![a]), evs);
    lemma_failed_is_silent(evs);
}

/// When the deadline passes before the handshake has finished, the
/// handshake gives up with a timeout and writes nothing more.
pub proof fn timeout_gate(s: Stage, evs: Seq<EventView>)
    requires
        s != Stage::Established,
        s != Stage::Failed,
    ensures
        hs_next(s, EventView::TimedOut) == fail(ProxyError::HandshakeTimeout),
        !writes_any(s, seq![EventView::TimedOut] + evs),
{
    lemma_writes_any_first(s, EventView::TimedOut, evs);
    lemma_failed_is_silent(evs);
}

} // verus!
