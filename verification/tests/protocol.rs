use std::cmp::Ordering;

use tls_nal::protocol::Protocol;

const OLDEST_FIRST: [Protocol; 4] = [Protocol::Sslv3, Protocol::Tlsv10, Protocol::Tlsv11, Protocol::Tlsv12];

#[test]
fn protocols_are_ordered_by_age() {
    assert!(Protocol::Sslv3 < Protocol::Tlsv10);
    assert!(Protocol::Tlsv10 < Protocol::Tlsv11);
    assert!(Protocol::Tlsv11 < Protocol::Tlsv12);
    assert!(Protocol::Tlsv12 > Protocol::Sslv3);
    assert!(Protocol::Tlsv11 >= Protocol::Tlsv11);
    assert!(Protocol::Tlsv11 <= Protocol::Tlsv11);
}

#[test]
fn the_order_is_total() {
    for (i, a) in OLDEST_FIRST.iter().enumerate() {
        for (j, b) in OLDEST_FIRST.iter().enumerate() {
            assert_eq!(a.partial_cmp(b), Some(i.cmp(&j)));
            assert_eq!(a.cmp(b), i.cmp(&j));
            assert_eq!(a == b, i == j);
            assert_eq!(a < b, i < j);
            assert_eq!(a <= b, i <= j);
        }
    }
    assert_eq!(Protocol::Tlsv10.partial_cmp(&Protocol::Tlsv12), Some(Ordering::Less));
}

#[test]
fn sorting_puts_the_oldest_first() {
    let mut protocols = [Protocol::Tlsv12, Protocol::Sslv3, Protocol::Tlsv11, Protocol::Tlsv10];
    protocols.sort();
    assert_eq!(protocols, OLDEST_FIRST);
    assert_eq!(protocols.iter().max(), Some(&Protocol::Tlsv12));
    assert_eq!(protocols.iter().min(), Some(&Protocol::Sslv3));
}

#[test]
fn the_default_protocol_is_tls_1_0() {
    assert_eq!(Protocol::default(), Protocol::Tlsv10);
}
