use std::cell::RefCell;

use tls_nal::addr::{HostAddr, HostSocketAddr, Hostname, IpAddr, Ipv4Addr, SocketAddr};
use tls_nal::stack::{AddrType, Dns, TcpClientStack};
use tls_nal::target::InvalidTarget;
use tls_nal::tls::{after_lookup, DnsTls, Resolved, Tls};

#[derive(Debug, PartialEq)]
enum TcpError {
    Refused,
}

#[derive(Debug, PartialEq)]
enum LookupError {
    NoSuchHost,
}

#[derive(Debug, PartialEq)]
enum TlsError {
    Tcp(TcpError),
    Lookup(LookupError),
    Target(InvalidTarget),
    Handshake,
}

impl From<TcpError> for TlsError {
    fn from(e: TcpError) -> Self {
        TlsError::Tcp(e)
    }
}

impl From<LookupError> for TlsError {
    fn from(e: LookupError) -> Self {
        TlsError::Lookup(e)
    }
}

impl From<InvalidTarget> for TlsError {
    fn from(e: InvalidTarget) -> Self {
        TlsError::Target(e)
    }
}

/// A stack that knows one host and records what it was asked.
struct Stack {
    known: Option<(&'static str, [u8; 4])>,
    named: bool,
    busy: bool,
    lookups: RefCell<Vec<(String, AddrType)>>,
    connects: RefCell<Vec<(SocketAddr, Option<String>, u32)>>,
}

impl Stack {
    fn new(known: Option<(&'static str, [u8; 4])>, busy: bool) -> Stack {
        Stack {
            known,
            named: false,
            busy,
            lookups: RefCell::new(Vec::new()),
            connects: RefCell::new(Vec::new()),
        }
    }
}

impl TcpClientStack for Stack {
    type TcpSocket = u32;
    type Error = TcpError;

    fn tcp_connect(&self, _socket: &mut u32, _remote: SocketAddr) -> nb::Result<(), TcpError> {
        Err(nb::Error::Other(TcpError::Refused))
    }

    fn send(&self, _socket: &mut u32, buffer: &[u8]) -> nb::Result<usize, TcpError> {
        Ok(buffer.len())
    }

    fn receive(&self, _socket: &mut u32, _buffer: &mut [u8]) -> nb::Result<usize, TcpError> {
        Err(nb::Error::WouldBlock)
    }
}

impl Dns for Stack {
    type Error = LookupError;

    fn get_host_by_name(&self, hostname: &str, addr_type: AddrType) -> Result<HostAddr, LookupError> {
        self.lookups.borrow_mut().push((hostname.to_string(), addr_type));
        match self.known {
            Some((name, octets)) if name == hostname && self.named => Ok(HostAddr::new(
                IpAddr::V4(Ipv4Addr { octets }),
                Some(Hostname::new(hostname).unwrap()),
            )),
            Some((name, octets)) if name == hostname => Ok(HostAddr::ipv4(octets)),
            _ => Err(LookupError::NoSuchHost),
        }
    }
}

impl Tls for Stack {
    type Error = TlsError;
    type TlsConnector = ();

    fn connect(&self, socket: &mut u32, remote: HostSocketAddr, _connector: &()) -> nb::Result<(), TlsError> {
        if self.busy {
            return Err(nb::Error::WouldBlock);
        }
        *socket += 1;
        let name = remote.addr().hostname().map(|n| n.to_string());
        self.connects.borrow_mut().push((remote.as_socket_addr(), name, *socket));
        Ok(())
    }
}

#[test]
fn dns_failure_is_wrapped_into_the_tls_error() {
    let stack = Stack::new(None, false);
    let mut socket = 7;
    let outcome = DnsTls::connect(&stack, &mut socket, "example.invalid:443", &());
    assert_eq!(outcome, Err(nb::Error::Other(TlsError::Lookup(LookupError::NoSuchHost))));
    assert_eq!(socket, 7);
    assert_eq!(*stack.lookups.borrow(), vec![("example.invalid".to_string(), AddrType::IPv4)]);
    assert!(stack.connects.borrow().is_empty());
}

#[test]
fn resolved_host_is_handed_to_the_backend() {
    let stack = Stack::new(Some(("device.example", [192, 0, 2, 17])), false);
    let mut socket = 1;
    let outcome = DnsTls::connect(&stack, &mut socket, "device.example:8883", &());
    assert_eq!(outcome, Ok(()));
    assert_eq!(socket, 2);
    let expected = SocketAddr { ip: IpAddr::V4(Ipv4Addr { octets: [192, 0, 2, 17] }), port: 8883 };
    assert_eq!(*stack.connects.borrow(), vec![(expected, None, 2)]);
}

#[test]
fn would_block_is_passed_on() {
    let stack = Stack::new(Some(("device.example", [192, 0, 2, 17])), true);
    let mut socket = 1;
    let outcome = DnsTls::connect(&stack, &mut socket, "device.example:8883", &());
    assert_eq!(outcome, Err(nb::Error::WouldBlock));
    assert_eq!(socket, 1);
}

#[test]
fn target_without_port_is_a_defined_error() {
    let stack = Stack::new(Some(("device.example", [192, 0, 2, 17])), false);
    let mut socket = 1;
    let outcome = DnsTls::connect(&stack, &mut socket, "device.example", &());
    assert_eq!(outcome, Err(nb::Error::Other(TlsError::Target(InvalidTarget))));
    assert!(stack.lookups.borrow().is_empty());
    let outcome = DnsTls::connect(&stack, &mut socket, "device.example:65536", &());
    assert_eq!(outcome, Err(nb::Error::Other(TlsError::Target(InvalidTarget))));
    let outcome = DnsTls::connect(&stack, &mut socket, "device.example:", &());
    assert_eq!(outcome, Err(nb::Error::Other(TlsError::Target(InvalidTarget))));
    assert!(stack.lookups.borrow().is_empty());
    assert_eq!(socket, 1);
}

#[test]
fn resolved_name_reaches_the_backend() {
    let mut stack = Stack::new(Some(("broker.example", [198, 51, 100, 20])), false);
    stack.named = true;
    let mut socket = 10;
    let outcome = DnsTls::connect(&stack, &mut socket, "broker.example:8883", &());
    assert_eq!(outcome, Ok(()));
    let expected = SocketAddr { ip: IpAddr::V4(Ipv4Addr { octets: [198, 51, 100, 20] }), port: 8883 };
    assert_eq!(*stack.connects.borrow(), vec![(expected, Some("broker.example".to_string()), 11)]);
    assert_eq!(*stack.lookups.borrow(), vec![("broker.example".to_string(), AddrType::IPv4)]);
}

#[test]
fn the_host_is_looked_up_as_it_stands_before_the_last_colon() {
    let stack = Stack::new(None, false);
    let mut socket = 0;
    let _ = DnsTls::connect(&stack, &mut socket, "[2001:db8::7]:5684", &());
    let _ = DnsTls::connect(&stack, &mut socket, ":1", &());
    let _ = DnsTls::connect(&stack, &mut socket, "203.0.113.5:443", &());
    assert_eq!(
        *stack.lookups.borrow(),
        vec![
            ("[2001:db8::7]".to_string(), AddrType::IPv4),
            ("".to_string(), AddrType::IPv4),
            ("203.0.113.5".to_string(), AddrType::IPv4),
        ]
    );
}

#[test]
fn transport_errors_are_errors_of_tls() {
    let stack = Stack::new(None, false);
    let mut socket = 0;
    let refused = stack.tcp_connect(&mut socket, SocketAddr { ip: IpAddr::V4(Ipv4Addr { octets: [0; 4] }), port: 1 });
    let lifted: Result<(), nb::Error<TlsError>> = refused.map_err(|e| e.map(TlsError::from));
    assert_eq!(lifted, Err(nb::Error::Other(TlsError::Tcp(TcpError::Refused))));
    assert_eq!(stack.send(&mut socket, b"abc"), Ok(3));
    assert_eq!(stack.receive(&mut socket, &mut [0u8; 4]), Err(nb::Error::WouldBlock));
}

#[test]
fn after_lookup_goes_on_to_the_address_and_port() {
    let answer: Result<HostAddr, LookupError> = Ok(HostAddr::ipv4([192, 0, 2, 1]));
    match after_lookup::<LookupError, TlsError>(answer, 4433) {
        Resolved::Connect(remote) => {
            assert_eq!(remote.port(), 4433);
            assert_eq!(remote.addr().ip(), IpAddr::V4(Ipv4Addr { octets: [192, 0, 2, 1] }));
            assert_eq!(remote.addr().hostname(), None);
        }
        Resolved::Failed(error) => panic!("{error:?}"),
    }
}

#[test]
fn after_lookup_ends_with_the_converted_error() {
    let answer: Result<HostAddr, LookupError> = Err(LookupError::NoSuchHost);
    match after_lookup::<LookupError, TlsError>(answer, 4433) {
        Resolved::Failed(error) => assert_eq!(error, TlsError::Lookup(LookupError::NoSuchHost)),
        Resolved::Connect(remote) => panic!("{remote:?}"),
    }
}
