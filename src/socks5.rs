use vstd::prelude::*;

verus! {

/// Protocol version byte of SOCKS5.
pub const VERSION: u8 = 5;

/// Method byte: no authentication.
pub const METH_NO_AUTH: u8 = 0;
/// Method byte: GSSAPI.
pub const METH_GSSAPI: u8 = 1;
/// Method byte: user name and password.
pub const METH_USER_PASS: u8 = 2;
/// Method byte: none of the offered methods is acceptable.
pub const METH_NONE_ACCEPTABLE: u8 = 255;

/// Command byte: open a TCP connection.
pub const CMD_CONNECT: u8 = 1;
/// Command byte: accept an inbound TCP connection.
pub const CMD_BIND: u8 = 2;
/// Command byte: relay UDP datagrams.
pub const CMD_UDP_ASSOCIATE: u8 = 3;

/// Address type byte: four bytes of IPv4 address.
pub const ATYP_IPV4: u8 = 1;
/// Address type byte: length-prefixed host name.
pub const ATYP_DOMAIN: u8 = 3;
/// Address type byte: sixteen bytes of IPv6 address.
pub const ATYP_IPV6: u8 = 4;

/// An authentication method as a client may offer it.
#[derive(Clone, Copy, Debug, PartialEq, Eq, Structural)]
pub enum AuthenticationMethod {
    NoAuth,
    Gssapi,
    UserNamePassword,
    /// 0x03 to 0x7F.
    IanaAssigned(u8),
    /// 0x80 to 0xFE.
    PrivateMethod(u8),
    /// 0xFF.
    NoneAcceptable,
}

/// The method that a method byte stands for.
pub open spec fn method_of(b: u8) -> AuthenticationMethod {
    if b == 0 {
        AuthenticationMethod::NoAuth
    } else if b == 1 {
        AuthenticationMethod::Gssapi
    } else if b == 2 {
        AuthenticationMethod::UserNamePassword
    } else if b <= 0x7f {
        AuthenticationMethod::IanaAssigned(b)
    } else if b < 0xff {
        AuthenticationMethod::PrivateMethod(b)
    } else {
        AuthenticationMethod::NoneAcceptable
    }
}

impl From<u8> for AuthenticationMethod {
    fn from(b: u8) -> (r: AuthenticationMethod) {
        if b == METH_NO_AUTH {
            AuthenticationMethod::NoAuth
        } else if b == METH_GSSAPI {
            AuthenticationMethod::Gssapi
        } else if b == METH_USER_PASS {
            AuthenticationMethod::UserNamePassword
        } else if b <= 0x7f {
            AuthenticationMethod::IanaAssigned(b)
        } else if b < METH_NONE_ACCEPTABLE {
            AuthenticationMethod::PrivateMethod(b)
        } else {
            AuthenticationMethod::NoneAcceptable
        }
    }
}

impl vstd::std_specs::convert::FromSpecImpl<u8> for AuthenticationMethod {
    open spec fn obeys_from_spec() -> bool {
        true
    }

    open spec fn from_spec(b: u8) -> AuthenticationMethod {
        method_of(b)
    }
}

impl AuthenticationMethod {
    /// The byte that stands for this method on the wire.
    pub fn to_byte(&self) -> (r: u8)
        requires
            *self matches AuthenticationMethod::IanaAssigned(b) ==> 3 <= b <= 0x7f,
            *self matches AuthenticationMethod::PrivateMethod(b) ==> 0x80 <= b < 0xff,
        ensures
            method_of(r) == *self,
    {
        match self {
            AuthenticationMethod::NoAuth => METH_NO_AUTH,
            AuthenticationMethod::Gssapi => METH_GSSAPI,
            AuthenticationMethod::UserNamePassword => METH_USER_PASS,
            AuthenticationMethod::IanaAssigned(b) => *b,
            AuthenticationMethod::PrivateMethod(b) => *b,
            AuthenticationMethod::NoneAcceptable => METH_NONE_ACCEPTABLE,
        }
    }
}

/// The greeting of a client: its version and the methods it offers.
#[derive(Clone, Debug, PartialEq, Eq)]
pub struct HelloReqV5 {
    pub ver: u8,
    pub nmethods: u8,
    pub methods: Vec<u8>,
}

impl HelloReqV5 {
    /// Whether the client offers to go without authentication.
    pub fn offers_no_auth(&self) -> (r: bool)
        ensures
            r == self.methods@.contains(METH_NO_AUTH),
    {
        let mut i: usize = 0;
        while i < self.methods.len()
            invariant
                i <= self.methods@.len(),
                forall|j: int| 0 <= j < i ==> self.methods@[j] != METH_NO_AUTH,
            decreases self.methods@.len() - i,
        {
            if self.methods[i] == METH_NO_AUTH {
                return true;
            }
            i = i + 1;
        }
        false
    }
}

/// The server's answer to a greeting: the method it picked.
#[derive(Clone, Copy, Debug, PartialEq, Eq, Structural)]
pub struct HelloRespV5 {
    pub ver: u8,
    pub method: u8,
}

impl HelloRespV5 {
    /// The answer that accepts a client without authentication.
    pub fn no_auth() -> (r: HelloRespV5)
        ensures
            r.ver == VERSION,
            r.method == METH_NO_AUTH,
    {
        HelloRespV5 { ver: VERSION, method: METH_NO_AUTH }
    }

    /// The two bytes of this answer on the wire.
    pub fn to_bytes(&self) -> (r: Vec<u8>)
        ensures
            r@ == seq![self.ver, self.method],
    {
        let mut v: Vec<u8> = Vec::new();
        v.push(self.ver);
        v.push(self.method);
        v
    }
}

/// The commands a request may carry.
#[derive(Clone, Copy, Debug, PartialEq, Eq, Structural)]
pub enum Commands {
    Connect,
    Bind,
    UdpAssociation,
}

/// The command that a command byte stands for, if any.
pub open spec fn command_of(b: u8) -> Option<Commands> {
    if b == CMD_CONNECT {
        Some(Commands::Connect)
    } else if b == CMD_BIND {
        Some(Commands::Bind)
    } else if b == CMD_UDP_ASSOCIATE {
        Some(Commands::UdpAssociation)
    } else {
        None
    }
}

impl Commands {
    /// The command that a command byte stands for, if any.
    pub fn from_byte(b: u8) -> (r: Option<Commands>)
        ensures
            r == command_of(b),
    {
        if b == CMD_CONNECT {
            Some(Commands::Connect)
        } else if b == CMD_BIND {
            Some(Commands::Bind)
        } else if b == CMD_UDP_ASSOCIATE {
            Some(Commands::UdpAssociation)
        } else {
            None
        }
    }
}

/// An IP address as the bytes that the wire carries.
#[derive(Clone, Copy, Debug, PartialEq, Eq)]
pub enum IpAddress {
    V4([u8; 4]),
    V6([u8; 16]),
}

/// An IP address and a port.
#[derive(Clone, Copy, Debug, PartialEq, Eq)]
pub struct SocketAddress {
    pub ip: IpAddress,
    pub port: u16,
}

/// The destination of a request as the client gave it.
#[derive(Clone, Debug, PartialEq, Eq)]
pub enum Address {
    IPv4([u8; 4]),
    IPv6([u8; 16]),
    Domain(String),
}

/// A client's request: version, command, reserved byte, destination and port.
#[derive(Clone, Debug, PartialEq, Eq)]
pub struct LinkReqV5 {
    pub ver: u8,
    pub cmd: u8,
    pub rsv: u8,
    pub addr: Address,
    pub port: u16,
}

/// The reply codes of the SOCKS5 protocol.
#[derive(Clone, Copy, Debug, PartialEq, Eq, Structural)]
pub enum LinkRespType {
    Succeeded,
    GeneralFailure,
    AccessDenied,
    NetworkUnreachable,
    HostUnreachable,
    ConnectionRefused,
    Timeout,
    UnsupportedCommand,
    UnsupportedAddressType,
    Undefined(u8),
}

/// The byte that a reply code has on the wire.
pub open spec fn rep_code(t: LinkRespType) -> u8 {
    match t {
        LinkRespType::Succeeded => 0,
        LinkRespType::GeneralFailure => 1,
        LinkRespType::AccessDenied => 2,
        LinkRespType::NetworkUnreachable => 3,
        LinkRespType::HostUnreachable => 4,
        LinkRespType::ConnectionRefused => 5,
        LinkRespType::Timeout => 6,
        LinkRespType::UnsupportedCommand => 7,
        LinkRespType::UnsupportedAddressType => 8,
        LinkRespType::Undefined(b) => b,
    }
}

impl LinkRespType {
    /// The byte of this reply code on the wire.
    pub fn code(&self) -> (r: u8)
        ensures
            r == rep_code(*self),
    {
        match self {
            LinkRespType::Succeeded => 0,
            LinkRespType::GeneralFailure => 1,
            LinkRespType::AccessDenied => 2,
            LinkRespType::NetworkUnreachable => 3,
            LinkRespType::HostUnreachable => 4,
            LinkRespType::ConnectionRefused => 5,
            LinkRespType::Timeout => 6,
            LinkRespType::UnsupportedCommand => 7,
            LinkRespType::UnsupportedAddressType => 8,
            LinkRespType::Undefined(b) => *b,
        }
    }
}

/// The server's reply to a request: the outcome and the bound address.
#[derive(Clone, Copy, Debug, PartialEq, Eq)]
pub struct LinkRespV5 {
    pub ver: u8,
    pub rep: LinkRespType,
    pub addr: IpAddress,
    pub port: u16,
}

/// A port as two bytes, high byte first.
pub open spec fn port_bytes(port: u16) -> Seq<u8> {
    seq![(port / 256) as u8, (port % 256) as u8]
}

/// The port that two bytes stand for, high byte first.
pub open spec fn port_of(hi: u8, lo: u8) -> u16 {
    (hi as int * 256 + lo as int) as u16
}

/// The address type byte and address bytes of an IP address.
pub open spec fn ip_bytes(ip: IpAddress) -> Seq<u8> {
    match ip {
        IpAddress::V4(o) => seq![ATYP_IPV4] + o@,
        IpAddress::V6(o) => seq![ATYP_IPV6] + o@,
    }
}

/// The bytes of a reply on the wire.
pub open spec fn reply_bytes(r: LinkRespV5) -> Seq<u8> {
    seq![r.ver, rep_code(r.rep), 0u8] + ip_bytes(r.addr) + port_bytes(r.port)
}

/// Reads a port from two bytes, high byte first.
pub fn read_port(hi: u8, lo: u8) -> (r: u16)
    ensures
        r == port_of(hi, lo),
        r as int == hi as int * 256 + lo as int,
{
    (hi as u16) * 256 + (lo as u16)
}

impl LinkRespV5 {
    /// The bytes of this reply on the wire: version, code, a zero byte, the
    /// address type, the address and the port.
    pub fn to_bytes(&self) -> (r: Vec<u8>)
        ensures
            r@ == reply_bytes(*self),
    {
        let mut v: Vec<u8> = Vec::new();
        v.push(self.ver);
        v.push(self.rep.code());
        v.push(0u8);
        match self.addr {
            IpAddress::V4(o) => {
                v.push(ATYP_IPV4);
                let mut i: usize = 0;
                while i < 4
                    invariant
                        i <= 4,
                        v@ == seq![self.ver, rep_code(self.rep), 0u8, ATYP_IPV4] + o@.subrange(0, i as int),
                    decreases 4 - i,
                {
                    v.push(o[i]);
                    assert(o@.subrange(0, i + 1) == o@.subrange(0, i as int).push(o@[i as int]));
                    i = i + 1;
                }
                assert(o@.subrange(0, 4) == o@);
            },
            IpAddress::V6(o) => {
                v.push(ATYP_IPV6);
                let mut i: usize = 0;
                while i < 16
                    invariant
                        i <= 16,
                        v@ == seq![self.ver, rep_code(self.rep), 0u8, ATYP_IPV6] + o@.subrange(0, i as int),
                    decreases 16 - i,
                {
                    v.push(o[i]);
                    assert(o@.subrange(0, i + 1) == o@.subrange(0, i as int).push(o@[i as int]));
                    i = i + 1;
                }
                assert(o@.subrange(0, 16) == o@);
            },
        }
        v.push((self.port / 256) as u8);
        v.push((self.port % 256) as u8);
        assert(v@ == reply_bytes(*self));
        v
    }
}

} // verus!
