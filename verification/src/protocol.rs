//! SSL/TLS protocol versions and their order.
use core::cmp::Ordering;
use vstd::prelude::*;
use vstd::std_specs::cmp::PartialOrdSpecImpl;

verus! {

/// SSL/TLS protocol versions, oldest first.
///
/// The versions are totally ordered by age: `Sslv3 < Tlsv10 < Tlsv11 <
/// Tlsv12`. A backend uses the order to hold the oldest version that a
/// connector accepts against the newest.
#[derive(Debug, Copy, Clone, PartialEq, Eq, Ord, Structural)]
#[non_exhaustive]
pub enum Protocol {
    /// The SSL 3.0 protocol.
    ///
    /// # Warning
    ///
    /// SSL 3.0 has severe security flaws, and should not be used unless
    /// absolutely necessary. If you are not sure if you need to enable this
    /// protocol, you should not.
    Sslv3,
    /// The TLS 1.0 protocol (default).
    Tlsv10,
    /// The TLS 1.1 protocol.
    Tlsv11,
    /// The TLS 1.2 protocol.
    Tlsv12,
}

impl Protocol {
    /// The place of a version in the order, counted from the oldest.
    pub open spec fn rank(self) -> nat {
        match self {
            Protocol::Sslv3 => 0,
            Protocol::Tlsv10 => 1,
            Protocol::Tlsv11 => 2,
            Protocol::Tlsv12 => 3,
        }
    }

    fn position(&self) -> (position: u8)
        ensures
            position == self.rank(),
    {
        match self {
            Protocol::Sslv3 => 0,
            Protocol::Tlsv10 => 1,
            Protocol::Tlsv11 => 2,
            Protocol::Tlsv12 => 3,
        }
    }
}

impl Default for Protocol {
    fn default() -> (protocol: Self)
        ensures
            protocol == Protocol::Tlsv10,
    {
        Self::Tlsv10
    }
}

impl PartialOrd for Protocol {
    fn partial_cmp(&self, other: &Self) -> (order: Option<Ordering>) {
        let this = self.position();
        let that = other.position();
        if this < that {
            Some(Ordering::Less)
        } else if this == that {
            Some(Ordering::Equal)
        } else {
            Some(Ordering::Greater)
        }
    }
}

impl PartialOrdSpecImpl for Protocol {
    open spec fn obeys_partial_cmp_spec() -> bool {
        true
    }

    open spec fn partial_cmp_spec(&self, other: &Self) -> Option<Ordering> {
        if self.rank() < other.rank() {
            Some(Ordering::Less)
        } else if self.rank() == other.rank() {
            Some(Ordering::Equal)
        } else {
            Some(Ordering::Greater)
        }
    }
}

/// The order of the versions is total: two versions have the same place
/// only where they are the same version, so of two different versions one
/// is the older. From the oldest the places are SSL 3.0, TLS 1.0, TLS 1.1,
/// TLS 1.2.
pub proof fn lemma_order_is_total(a: Protocol, b: Protocol)
    ensures
        a.rank() == b.rank() <==> a == b,
        a.rank() < b.rank() || a == b || b.rank() < a.rank(),
        Protocol::Sslv3.rank() < Protocol::Tlsv10.rank() < Protocol::Tlsv11.rank()
            < Protocol::Tlsv12.rank(),
{
}

} // verus!
