//! A TLS capability layer for network stacks that run without a heap.
//!
//! The crate joins three things: an address model that keeps a numeric
//! address together with the name it was found under ([`addr`]), a bounded
//! connector configuration with its builder ([`tls`]), and the non-blocking
//! step that turns a `host:port` text into a name lookup followed by a secure
//! connect ([`tls::DnsTls`], [`target`]).
//!
//! No cryptography happens here. A backend implements [`tls::Tls`] and turns
//! a [`tls::TlsConnectorConfig`] into its own connector.
pub mod addr;
pub mod error;
pub mod protocol;
pub mod stack;
pub mod target;
pub mod tls;

pub use error::CapacityError;
pub use stack::{AddrType, Dns, TcpClientStack};
