//! Numeric addresses, host names and the pair of both.
use crate::error::CapacityError;
use crate::stack::{AddrType, Dns};
use core::str::FromStr;
use vstd::prelude::*;
use vstd::std_specs::convert::FromSpecImpl;
use vstd::utf8::encode_utf8;

verus! {

/// An IPv4 address: four octets in transmit order.
#[derive(Debug, Copy, Clone, PartialEq, Eq)]
pub struct Ipv4Addr {
    pub octets: [u8; 4],
}

/// An IPv6 address: sixteen octets in transmit order.
#[derive(Debug, Copy, Clone, PartialEq, Eq)]
pub struct Ipv6Addr {
    pub octets: [u8; 16],
}

/// A numeric address of either family.
#[derive(Debug, Copy, Clone, PartialEq, Eq)]
pub enum IpAddr {
    V4(Ipv4Addr),
    V6(Ipv6Addr),
}

/// A numeric address and a port.
#[derive(Debug, Copy, Clone, PartialEq, Eq)]
pub struct SocketAddr {
    pub ip: IpAddr,
    pub port: u16,
}

/// The text could not be read as a numeric address.
#[derive(Debug, Copy, Clone, PartialEq, Eq, Structural)]
pub struct AddrParseError;

/// The most bytes that a [`Hostname`] holds.
pub const MAX_HOSTNAME_LEN: usize = 256;

/// How many bytes a text takes in UTF-8.
pub open spec fn utf8_len(text: Seq<char>) -> nat {
    encode_utf8(text).len()
}

/// The address that a text denotes where it is an IPv4 literal in
/// dot-decimal notation or an IPv6 literal, as `no_std_net` reads them;
/// `None` for every other text.
pub uninterp spec fn ip_literal(text: Seq<char>) -> Option<IpAddr>;

/// `IpAddr::from_str` of `no_std_net`, with the address handed on by its
/// octets (`Ipv4Addr::octets`, `Ipv6Addr::octets`). The parser reads the text
/// and nothing else, so the same text always gives the same answer:
/// [`ip_literal`] is the name of that answer.
#[verifier::external_body]
fn parse_ip_literal(text: &str) -> (ip: Option<IpAddr>)
    ensures
        ip == ip_literal(text@),
{
    match no_std_net::IpAddr::from_str(text) {
        Ok(no_std_net::IpAddr::V4(v4)) => Some(IpAddr::V4(Ipv4Addr { octets: v4.octets() })),
        Ok(no_std_net::IpAddr::V6(v6)) => Some(IpAddr::V6(Ipv6Addr { octets: v6.octets() })),
        Err(_) => None,
    }
}

/// A host name of at most [`MAX_HOSTNAME_LEN`] bytes.
///
/// The text lives in a `heapless::String`, inline and without an allocator.
/// Verus does not look inside: what it knows of a name is what
/// [`hostname_text`] names.
#[verifier::external_body]
#[derive(Debug)]
pub struct Hostname {
    text: heapless::String<heapless::consts::U256>,
}

/// The text that a host name holds.
pub uninterp spec fn hostname_text(name: Hostname) -> Seq<char>;

impl View for Hostname {
    type V = Seq<char>;

    open spec fn view(&self) -> Seq<char> {
        hostname_text(*self)
    }
}

impl Hostname {
    /// `FromStr::from_str` of `heapless::String`: a text of at most
    /// [`MAX_HOSTNAME_LEN`] bytes is stored as it is, a longer one is
    /// refused.
    #[verifier::external_body]
    fn store(text: &str) -> (stored: Result<Hostname, ()>)
        ensures
            utf8_len(text@) <= MAX_HOSTNAME_LEN ==> stored is Ok,
            utf8_len(text@) > MAX_HOSTNAME_LEN ==> stored is Err,
            stored matches Ok(name) ==> hostname_text(name) == text@,
    {
        match heapless::String::from_str(text) {
            Ok(text) => Ok(Hostname { text }),
            Err(()) => Err(()),
        }
    }

    /// `heapless::String::as_str`: the text that the name holds.
    #[verifier::external_body]
    fn text(&self) -> (text: &str)
        ensures
            text@ == hostname_text(*self),
    {
        self.text.as_str()
    }

    /// `Clone::clone` of `heapless::String`: a second name with the same
    /// text.
    #[verifier::external_body]
    fn duplicate(&self) -> (name: Hostname)
        ensures
            hostname_text(name) == hostname_text(*self),
    {
        Hostname { text: self.text.clone() }
    }

    /// Stores `text` as a host name, unless it is longer than
    /// [`MAX_HOSTNAME_LEN`] bytes.
    pub fn new(text: &str) -> (name: Result<Hostname, CapacityError>)
        ensures
            name is Ok <==> utf8_len(text@) <= MAX_HOSTNAME_LEN,
            name matches Ok(name) ==> name@ == text@,
    {
        match Hostname::store(text) {
            Ok(name) => Ok(name),
            Err(_) => Err(CapacityError),
        }
    }

    pub fn as_str(&self) -> (text: &str)
        ensures
            text@ == self@,
    {
        self.text()
    }
}

impl Clone for Hostname {
    fn clone(&self) -> (name: Self)
        ensures
            name@ == self@,
    {
        self.duplicate()
    }
}

/// A host as plain values: its numeric address, and the name it goes by
/// where one is known.
pub struct HostAddrView {
    pub ip: IpAddr,
    pub hostname: Option<Seq<char>>,
}

/// A numeric address, together with the host name it was found under where
/// there is one.
#[derive(Debug)]
pub struct HostAddr {
    ip: IpAddr,
    hostname: Option<Hostname>,
}

impl View for HostAddr {
    type V = HostAddrView;

    closed spec fn view(&self) -> HostAddrView {
        HostAddrView {
            ip: self.ip,
            hostname: match self.hostname {
                Some(name) => Some(name@),
                None => None,
            },
        }
    }
}

/// What [`HostAddr::from_str`] makes of a text: the address that the text
/// denotes, under the text itself as its name.
pub open spec fn host_of_literal(text: Seq<char>) -> Option<HostAddrView> {
    match ip_literal(text) {
        Some(ip) if utf8_len(text) <= MAX_HOSTNAME_LEN => Some(
            HostAddrView { ip, hostname: Some(text) },
        ),
        _ => None,
    }
}

/// A text is read as a host exactly where it is a numeric literal that fits
/// a host name. The host then has the address that the literal denotes, and
/// the literal itself as its name. A text that is no numeric literal is
/// never read as a host.
pub proof fn lemma_literal_host(text: Seq<char>)
    ensures
        host_of_literal(text) is Some <==> ip_literal(text) is Some && utf8_len(text)
            <= MAX_HOSTNAME_LEN,
        host_of_literal(text) matches Some(host) ==> ip_literal(text) == Some(host.ip)
            && host.hostname == Some(text),
        ip_literal(text) is None ==> host_of_literal(text) is None,
{
}

impl HostAddr {
    /// The host with the address `ip` and no name.
    pub closed spec fn numeric(ip: IpAddr) -> HostAddr {
        HostAddr { ip, hostname: None }
    }

    /// A host without a name has its address and nothing else.
    pub proof fn lemma_numeric(ip: IpAddr)
        ensures
            Self::numeric(ip)@ == (HostAddrView { ip, hostname: None }),
    {
    }

    pub fn new(ip: IpAddr, hostname: Option<Hostname>) -> (host: Self)
        ensures
            host@.ip == ip,
            host@.hostname == match hostname {
                Some(name) => Some(name@),
                None => None,
            },
            hostname is None ==> host == Self::numeric(ip),
    {
        HostAddr { ip, hostname }
    }

    pub fn ipv4(octets: [u8; 4]) -> (host: HostAddr)
        ensures
            host@ == (HostAddrView { ip: IpAddr::V4(Ipv4Addr { octets }), hostname: None }),
    {
        HostAddr { ip: IpAddr::V4(Ipv4Addr { octets }), hostname: None }
    }

    pub fn ipv6(octets: [u8; 16]) -> (host: HostAddr)
        ensures
            host@ == (HostAddrView { ip: IpAddr::V6(Ipv6Addr { octets }), hostname: None }),
    {
        HostAddr { ip: IpAddr::V6(Ipv6Addr { octets }), hostname: None }
    }

    /// Reads a numeric IPv4 or IPv6 literal. The host that comes back has
    /// the address that the literal denotes, and the literal as its name.
    ///
    /// A text that is no numeric literal is refused, and so is one that a
    /// [`Hostname`] cannot hold. Symbolic names are not looked up here; for
    /// those there is [`HostAddr::try_from_hostname`].
    pub fn from_str(s: &str) -> (host: Result<HostAddr, AddrParseError>)
        ensures
            match host_of_literal(s@) {
                Some(parsed) => host matches Ok(h) && h@ == parsed,
                None => host is Err,
            },
    {
        match parse_ip_literal(s) {
            Some(ip) => match Hostname::store(s) {
                Ok(name) => Ok(HostAddr::new(ip, Some(name))),
                Err(_) => Err(AddrParseError),
            },
            None => Err(AddrParseError),
        }
    }

    pub fn ip(&self) -> (ip: IpAddr)
        ensures
            ip == self@.ip,
    {
        self.ip
    }

    /// Asks `dns` for the address of `hostname`, of either family. The
    /// answer is the resolver's own, and so is the error.
    pub fn try_from_hostname<D: Dns>(dns: &D, hostname: &str) -> (host: Result<Self, D::Error>)
        ensures
            dns.answers(hostname@, AddrType::Either, host),
    {
        dns.get_host_by_name(hostname, AddrType::Either)
    }

    pub fn hostname(&self) -> (hostname: Option<&str>)
        ensures
            match hostname {
                Some(text) => self@.hostname == Some(text@),
                None => self@.hostname is None,
            },
    {
        match &self.hostname {
            Some(name) => Some(name.text()),
            None => None,
        }
    }
}

impl Clone for HostAddr {
    fn clone(&self) -> (host: Self)
        ensures
            host@ == self@,
    {
        HostAddr {
            ip: self.ip,
            hostname: match &self.hostname {
                Some(name) => Some(name.clone()),
                None => None,
            },
        }
    }
}

impl FromStr for HostAddr {
    type Err = AddrParseError;

    /// The same as [`HostAddr::from_str`], for `str::parse`.
    fn from_str(s: &str) -> (host: Result<Self, Self::Err>)
        ensures
            match host_of_literal(s@) {
                Some(parsed) => host matches Ok(h) && h@ == parsed,
                None => host is Err,
            },
    {
        HostAddr::from_str(s)
    }
}

impl From<IpAddr> for HostAddr {
    fn from(ip: IpAddr) -> (host: Self)
        ensures
            host@ == (HostAddrView { ip, hostname: None }),
    {
        HostAddr { ip, hostname: None }
    }
}

impl FromSpecImpl<IpAddr> for HostAddr {
    open spec fn obeys_from_spec() -> bool {
        true
    }

    open spec fn from_spec(ip: IpAddr) -> Self {
        HostAddr::numeric(ip)
    }
}

impl From<Ipv4Addr> for HostAddr {
    fn from(ip: Ipv4Addr) -> (host: Self)
        ensures
            host@ == (HostAddrView { ip: IpAddr::V4(ip), hostname: None }),
    {
        HostAddr { ip: IpAddr::V4(ip), hostname: None }
    }
}

impl FromSpecImpl<Ipv4Addr> for HostAddr {
    open spec fn obeys_from_spec() -> bool {
        true
    }

    open spec fn from_spec(ip: Ipv4Addr) -> Self {
        HostAddr::numeric(IpAddr::V4(ip))
    }
}

impl From<Ipv6Addr> for HostAddr {
    fn from(ip: Ipv6Addr) -> (host: Self)
        ensures
            host@ == (HostAddrView { ip: IpAddr::V6(ip), hostname: None }),
    {
        HostAddr { ip: IpAddr::V6(ip), hostname: None }
    }
}

impl FromSpecImpl<Ipv6Addr> for HostAddr {
    open spec fn obeys_from_spec() -> bool {
        true
    }

    open spec fn from_spec(ip: Ipv6Addr) -> Self {
        HostAddr::numeric(IpAddr::V6(ip))
    }
}

/// A host and a port as plain values.
pub struct HostSocketAddrView {
    pub addr: HostAddrView,
    pub port: u16,
}

/// A host and the port to reach it on. The port is always there: no value
/// of it stands for "not set".
#[derive(Debug)]
pub struct HostSocketAddr {
    addr: HostAddr,
    port: u16,
}

impl View for HostSocketAddr {
    type V = HostSocketAddrView;

    closed spec fn view(&self) -> HostSocketAddrView {
        HostSocketAddrView { addr: self.addr@, port: self.port }
    }
}

impl HostSocketAddr {
    /// The pair of `addr` and `port`.
    pub closed spec fn pair(addr: HostAddr, port: u16) -> HostSocketAddr {
        HostSocketAddr { addr, port }
    }

    /// A pair holds the host and the port it was made of.
    pub proof fn lemma_pair(addr: HostAddr, port: u16)
        ensures
            Self::pair(addr, port)@ == (HostSocketAddrView { addr: addr@, port }),
    {
    }

    pub fn new(addr: HostAddr, port: u16) -> (remote: HostSocketAddr)
        ensures
            remote == Self::pair(addr, port),
            remote@ == (HostSocketAddrView { addr: addr@, port }),
    {
        HostSocketAddr { addr, port }
    }

    /// Reads `addr` as a numeric literal, as [`HostAddr::from_str`] does,
    /// and pairs the host with `port`.
    pub fn from(addr: &str, port: u16) -> (remote: Result<HostSocketAddr, AddrParseError>)
        ensures
            match host_of_literal(addr@) {
                Some(host) => remote matches Ok(r) && r@ == (HostSocketAddrView {
                    addr: host,
                    port,
                }),
                None => remote is Err,
            },
    {
        match HostAddr::from_str(addr) {
            Ok(host) => Ok(Self::new(host, port)),
            Err(e) => Err(e),
        }
    }

    pub fn addr(&self) -> (addr: &HostAddr)
        ensures
            addr@ == self@.addr,
    {
        &self.addr
    }

    pub fn port(&self) -> (port: u16)
        ensures
            port == self@.port,
    {
        self.port
    }

    /// The numeric address and the port, without the name.
    pub fn as_socket_addr(&self) -> (socket_addr: SocketAddr)
        ensures
            socket_addr == (SocketAddr { ip: self@.addr.ip, port: self@.port }),
    {
        SocketAddr { ip: self.addr.ip, port: self.port }
    }
}

impl Clone for HostSocketAddr {
    fn clone(&self) -> (remote: Self)
        ensures
            remote@ == self@,
    {
        HostSocketAddr { addr: self.addr.clone(), port: self.port }
    }
}

impl From<SocketAddr> for HostSocketAddr {
    fn from(s: SocketAddr) -> (remote: Self) {
        Self::new(HostAddr::new(s.ip, None), s.port)
    }
}

impl FromSpecImpl<SocketAddr> for HostSocketAddr {
    open spec fn obeys_from_spec() -> bool {
        true
    }

    open spec fn from_spec(s: SocketAddr) -> Self {
        HostSocketAddr::pair(HostAddr::numeric(s.ip), s.port)
    }
}

} // verus!
