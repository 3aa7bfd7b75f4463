use vstd::prelude::*;
use vstd::string::StringExecFns;

verus! {

/// The broad classes of failure a proxied connection can end with.
#[derive(Clone, Copy, Debug, PartialEq, Eq, Structural)]
pub enum ErrorKind {
    /// The client broke the SOCKS5 wire protocol.
    ProtocolViolation,
    /// A host name did not resolve to any address.
    ResolutionFailed,
    /// A read, write or accept failed.
    Transport,
    /// The handshake did not finish before its deadline.
    HandshakeTimeout,
    /// The caller drove a state machine against its protocol.
    InvariantViolation,
}

/// The kind of a failed read, write, connect or accept.
#[derive(Clone, Copy, Debug, PartialEq, Eq, Structural)]
pub enum IoKind {
    NotFound,
    PermissionDenied,
    ConnectionRefused,
    ConnectionReset,
    ConnectionAborted,
    NotConnected,
    AddrInUse,
    AddrNotAvailable,
    BrokenPipe,
    AlreadyExists,
    WouldBlock,
    InvalidInput,
    InvalidData,
    TimedOut,
    WriteZero,
    Interrupted,
    UnexpectedEof,
    Other,
}

/// Why a connection was given up.
#[derive(Clone, Debug, PartialEq, Eq)]
pub enum ProxyError {
    /// The greeting started with this byte instead of the version byte.
    UnsupportedVersion(u8),
    /// The greeting did not offer the "no authentication" method.
    NoSupportedMethod,
    /// The request started with this byte instead of the version byte.
    VersionNotConfirmed(u8),
    /// The request asked for this command, which is not CONNECT.
    UnsupportedCommand(u8),
    /// The request used this address type, which is unknown.
    UnknownAddressType(u8),
    /// The host name of a request was not valid UTF-8.
    InvalidHostname,
    /// The host name of a request resolved to no address.
    HostNotResolved,
    /// The handshake ran out of time.
    HandshakeTimeout,
    /// An event came that the current state does not accept.
    UnexpectedEvent,
    /// A writer accepted no bytes although some were pending.
    WriteZero,
    /// The byte counter of a transfer would overflow.
    CounterOverflow,
    /// A read, write, connect, resolution or accept failed: its kind and
    /// description.
    Io(IoKind, String),
    /// Any other failure, with its description.
    Other(String),
}

/// The class that each error belongs to.
pub open spec fn kind_of(e: ProxyError) -> ErrorKind {
    match e {
        ProxyError::UnsupportedVersion(_) => ErrorKind::ProtocolViolation,
        ProxyError::NoSupportedMethod => ErrorKind::ProtocolViolation,
        ProxyError::VersionNotConfirmed(_) => ErrorKind::ProtocolViolation,
        ProxyError::UnsupportedCommand(_) => ErrorKind::ProtocolViolation,
        ProxyError::UnknownAddressType(_) => ErrorKind::ProtocolViolation,
        ProxyError::InvalidHostname => ErrorKind::ProtocolViolation,
        ProxyError::HostNotResolved => ErrorKind::ResolutionFailed,
        ProxyError::HandshakeTimeout => ErrorKind::HandshakeTimeout,
        ProxyError::UnexpectedEvent => ErrorKind::InvariantViolation,
        ProxyError::WriteZero => ErrorKind::Transport,
        ProxyError::CounterOverflow => ErrorKind::InvariantViolation,
        ProxyError::Io(_, _) => ErrorKind::Transport,
        ProxyError::Other(_) => ErrorKind::Transport,
    }
}

/// The character of a decimal digit.
pub open spec fn digit(d: int) -> char {
    if d == 0 {
        '0'
    } else if d == 1 {
        '1'
    } else if d == 2 {
        '2'
    } else if d == 3 {
        '3'
    } else if d == 4 {
        '4'
    } else if d == 5 {
        '5'
    } else if d == 6 {
        '6'
    } else if d == 7 {
        '7'
    } else if d == 8 {
        '8'
    } else {
        '9'
    }
}

/// A byte written in decimal, without leading zeros.
pub open spec fn decimal(b: u8) -> Seq<char> {
    if b >= 100 {
        seq![digit(b as int / 100), digit((b as int / 10) % 10), digit(b as int % 10)]
    } else if b >= 10 {
        seq![digit(b as int / 10), digit(b as int % 10)]
    } else {
        seq![digit(b as int)]
    }
}

fn digit_str(d: u8) -> (r: &'static str)
    requires
        d < 10,
    ensures
        r@ == seq![digit(d as int)],
{
    if d == 0 {
        proof { reveal_strlit("0"); }
        "0"
    } else if d == 1 {
        proof { reveal_strlit("1"); }
        "1"
    } else if d == 2 {
        proof { reveal_strlit("2"); }
        "2"
    } else if d == 3 {
        proof { reveal_strlit("3"); }
        "3"
    } else if d == 4 {
        proof { reveal_strlit("4"); }
        "4"
    } else if d == 5 {
        proof { reveal_strlit("5"); }
        "5"
    } else if d == 6 {
        proof { reveal_strlit("6"); }
        "6"
    } else if d == 7 {
        proof { reveal_strlit("7"); }
        "7"
    } else if d == 8 {
        proof { reveal_strlit("8"); }
        "8"
    } else {
        proof { reveal_strlit("9"); }
        "9"
    }
}

/// A byte written in decimal, without leading zeros.
pub fn decimal_string(b: u8) -> (r: String)
    ensures
        r@ == decimal(b),
{
    let mut s = String::new();
    if b >= 100 {
        s.append(digit_str(b / 100));
    }
    if b >= 10 {
        s.append(digit_str((b / 10) % 10));
    }
    s.append(digit_str(b % 10));
    s
}

/// The description of each error, for logs.
pub open spec fn message_of(e: ProxyError) -> Seq<char> {
    match e {
        ProxyError::UnsupportedVersion(_) => "unsupported version"@,
        ProxyError::NoSupportedMethod => "no supported method given"@,
        ProxyError::VersionNotConfirmed(_) => "didn't confirm with v5 version"@,
        ProxyError::UnsupportedCommand(_) => "unsupported command"@,
        ProxyError::UnknownAddressType(b) => "unknown ATYP received: "@ + decimal(b),
        ProxyError::InvalidHostname => "hostname buffer provided was not valid utf-8"@,
        ProxyError::HostNotResolved => "host name didn't resolve to valid IP address"@,
        ProxyError::HandshakeTimeout => "timeout during handshake"@,
        ProxyError::UnexpectedEvent => "unexpected event"@,
        ProxyError::WriteZero => "failed to write whole buffer"@,
        ProxyError::CounterOverflow => "byte counter overflow"@,
        ProxyError::Io(_, d) => d@,
        ProxyError::Other(d) => d@,
    }
}

impl ProxyError {
    /// The class of this error.
    pub fn kind(&self) -> (r: ErrorKind)
        ensures
            r == kind_of(*self),
    {
        match self {
            ProxyError::UnsupportedVersion(_) => ErrorKind::ProtocolViolation,
            ProxyError::NoSupportedMethod => ErrorKind::ProtocolViolation,
            ProxyError::VersionNotConfirmed(_) => ErrorKind::ProtocolViolation,
            ProxyError::UnsupportedCommand(_) => ErrorKind::ProtocolViolation,
            ProxyError::UnknownAddressType(_) => ErrorKind::ProtocolViolation,
            ProxyError::InvalidHostname => ErrorKind::ProtocolViolation,
            ProxyError::HostNotResolved => ErrorKind::ResolutionFailed,
            ProxyError::HandshakeTimeout => ErrorKind::HandshakeTimeout,
            ProxyError::UnexpectedEvent => ErrorKind::InvariantViolation,
            ProxyError::WriteZero => ErrorKind::Transport,
            ProxyError::CounterOverflow => ErrorKind::InvariantViolation,
            ProxyError::Io(_, _) => ErrorKind::Transport,
            ProxyError::Other(_) => ErrorKind::Transport,
        }
    }

    /// A one-line description of this error, for logs.
    pub fn message(&self) -> (r: String)
        ensures
            r@ == message_of(*self),
    {
        match self {
            ProxyError::UnsupportedVersion(_) => "unsupported version".to_owned(),
            ProxyError::NoSupportedMethod => "no supported method given".to_owned(),
            ProxyError::VersionNotConfirmed(_) => "didn't confirm with v5 version".to_owned(),
            ProxyError::UnsupportedCommand(_) => "unsupported command".to_owned(),
            ProxyError::UnknownAddressType(b) => {
                let mut s = "unknown ATYP received: ".to_owned();
                let digits = decimal_string(*b);
                s.append(digits.as_str());
                s
            },
            ProxyError::InvalidHostname => "hostname buffer provided was not valid utf-8".to_owned(),
            ProxyError::HostNotResolved => "host name didn't resolve to valid IP address".to_owned(),
            ProxyError::HandshakeTimeout => "timeout during handshake".to_owned(),
            ProxyError::UnexpectedEvent => "unexpected event".to_owned(),
            ProxyError::WriteZero => "failed to write whole buffer".to_owned(),
            ProxyError::CounterOverflow => "byte counter overflow".to_owned(),
            ProxyError::Io(_, d) => d.clone(),
            ProxyError::Other(d) => d.clone(),
        }
    }
}

/// An error of the general kind, carrying the given description.
pub fn other(desc: &str) -> (r: ProxyError)
    ensures
        r matches ProxyError::Other(d) && d@ == desc@,
        kind_of(r) == ErrorKind::Transport,
{
    ProxyError::Other(desc.to_owned())
}

} // verus!
