//! The capabilities that a network stack offers to this crate.
//!
//! A driver implements these traits. Nothing here says how a stack connects
//! or resolves: each trait only names what its operations may answer, so
//! that the code built on top can say which operation it ran, and on what.
use crate::addr::{HostAddr, SocketAddr};
use vstd::prelude::*;

verus! {

/// A transparent declaration of `nb::Error`, the error of a non-blocking
/// operation: `Other` carries a terminal error of the operation itself,
/// `WouldBlock` says that the operation could not finish yet and is to be
/// run again later. Verus reads the two variants from the crate; nothing is
/// assumed of them.
#[verifier::external_type_specification]
#[verifier::reject_recursive_types(E)]
pub struct ExNbError<E>(nb::Error<E>);

/// Which address family a name lookup should answer with.
#[derive(Debug, Copy, Clone, PartialEq, Eq, Structural)]
pub enum AddrType {
    /// Result is `IpAddr::V4`
    IPv4,
    /// Result is `IpAddr::V6`
    IPv6,
    /// Result is either `IpAddr::V4` or `IpAddr::V6`
    Either,
}

/// A stack that opens TCP connections.
pub trait TcpClientStack {
    /// The handle of one connection.
    type TcpSocket;

    /// What the stack reports when an operation fails for good.
    type Error;

    /// Connects `socket` to `remote`.
    fn tcp_connect(&self, socket: &mut Self::TcpSocket, remote: SocketAddr) -> nb::Result<
        (),
        Self::Error,
    >;

    /// Writes from `buffer` to the connection and says how many bytes went
    /// out.
    fn send(&self, socket: &mut Self::TcpSocket, buffer: &[u8]) -> nb::Result<usize, Self::Error>;

    /// Reads from the connection into `buffer` and says how many bytes came
    /// in.
    fn receive(&self, socket: &mut Self::TcpSocket, buffer: &mut [u8]) -> nb::Result<
        usize,
        Self::Error,
    >;
}

/// A stack that resolves host names.
pub trait Dns {
    /// What the resolver reports when a lookup fails.
    type Error;

    /// Whether `answer` is something this resolver may say when asked for
    /// `hostname` with the family `addr_type`.
    ///
    /// A resolver that says nothing of itself leaves this as it is: every
    /// answer is then possible.
    open spec fn answers(
        &self,
        hostname: Seq<char>,
        addr_type: AddrType,
        answer: Result<HostAddr, Self::Error>,
    ) -> bool {
        true
    }

    /// Resolves `hostname` to an address of the family `addr_type`.
    fn get_host_by_name(&self, hostname: &str, addr_type: AddrType) -> (answer: Result<
        HostAddr,
        Self::Error,
    >)
        ensures
            self.answers(hostname@, addr_type, answer),
    ;
}

} // verus!
