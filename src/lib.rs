//! A SOCKS5 proxy core: the handshake with a client, the copying between the
//! two sockets of a proxy pair through one shared buffer, and the records of
//! the wire protocol, each as a verified machine from events to actions that
//! an event loop drives.
pub mod buffer;
pub mod error;
pub mod handshake;
pub mod socks5;
pub mod transfer;
pub mod utilities;
