use tls_nal::tls::{Certificate, Identity, PKey, Private, TlsSocket, X509};

const PEM: &[u8] = b"-----BEGIN CERTIFICATE-----\nMIIB\n-----END CERTIFICATE-----\n";
const DER: &[u8] = &[0x30, 0x82, 0x01, 0x0a, 0x02];

#[test]
fn x509_tags_the_encoding_and_keeps_the_bytes() {
    let pem = X509::from_pem(PEM);
    assert!(matches!(pem, X509::Pem(bytes) if std::ptr::eq(bytes, PEM)));
    assert!(std::ptr::eq(pem.as_bytes(), PEM));
    assert_eq!(pem.len(), PEM.len());

    let der = X509::from_der(DER);
    assert!(matches!(der, X509::Der(bytes) if std::ptr::eq(bytes, DER)));
    assert!(std::ptr::eq(der.as_bytes(), DER));
    assert_eq!(der.len(), 5);
}

#[test]
fn x509_of_no_bytes() {
    let empty = X509::from_der(&[]);
    assert_eq!(empty.len(), 0);
    assert!(empty.as_bytes().is_empty());
}

#[test]
fn certificate_keeps_the_bytes() {
    let pem = Certificate::from_pem(PEM);
    assert!(std::ptr::eq(pem.as_bytes(), PEM));
    assert_eq!(pem.len(), PEM.len());

    let der = Certificate::from_der(DER);
    assert!(std::ptr::eq(der.as_bytes(), DER));
    assert_eq!(der.len(), 5);

    let copy = der;
    assert!(std::ptr::eq(copy.as_bytes(), der.as_bytes()));
}

#[test]
fn private_key_keeps_the_bytes() {
    let key_bytes: &[u8] = b"key material";
    let key: PKey<'_, Private> = PKey::new_private(key_bytes, Some(b"password"));
    assert!(std::ptr::eq(key.as_bytes(), key_bytes));
    assert_eq!(key.len(), 12);

    let copy = key;
    assert!(std::ptr::eq(copy.as_bytes(), key_bytes));
    assert!(std::ptr::eq(key.clone().as_bytes(), key_bytes));

    let bare = PKey::new_private(&[], None);
    assert_eq!(bare.len(), 0);
}

#[test]
fn identity_pairs_certificate_and_key() {
    let key_bytes: &[u8] = b"key material";
    let identity = Identity::new(X509::from_der(DER), PKey::new_private(key_bytes, None));
    assert!(matches!(identity.cert(), X509::Der(_)));
    assert!(std::ptr::eq(identity.cert().as_bytes(), DER));
    assert!(std::ptr::eq(identity.private_key().as_bytes(), key_bytes));

    let copy = identity.clone();
    assert!(std::ptr::eq(copy.cert().as_bytes(), DER));
    assert!(std::ptr::eq(copy.private_key().as_bytes(), key_bytes));
}

#[test]
fn secured_socket_shows_the_transport_socket() {
    let secured = TlsSocket::new(42u32);
    assert_eq!(*secured.socket(), 42);
    let secured = TlsSocket::new("handle");
    assert_eq!(*secured.socket(), "handle");
}
