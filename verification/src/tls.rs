//! Certificates, client identities, the connector configuration with its
//! builder, and the capability of a stack to secure a connection.
pub use crate::protocol::Protocol;

use crate::addr::{HostAddr, HostSocketAddr};
use crate::error::CapacityError;
use crate::stack::{AddrType, Dns, TcpClientStack};
use crate::target::{parse_target, target_of, InvalidTarget};
use vstd::prelude::*;
use vstd::std_specs::convert::{IntoSpec, TryFromSpec};

verus! {

/// An X509 public key certificate, tagged with its encoding.
///
/// The bytes are borrowed and never inspected: whoever owns the buffer keeps
/// it alive for as long as any configuration refers to it.
#[derive(Debug, Copy, Clone)]
pub enum X509<'a> {
    Pem(&'a [u8]),
    Der(&'a [u8]),
}

impl<'a> X509<'a> {
    /// The encoded certificate, whichever the encoding.
    pub open spec fn bytes(self) -> Seq<u8> {
        match self {
            X509::Pem(bytes) => bytes@,
            X509::Der(bytes) => bytes@,
        }
    }

    /// Tags a PEM-encoded X509 structure.
    /// The input should have a header of `-----BEGIN CERTIFICATE-----`.
    pub fn from_pem(pem: &'a [u8]) -> (cert: Self)
        ensures
            cert == X509::Pem(pem),
    {
        Self::Pem(pem)
    }

    /// Tags a DER-encoded X509 structure.
    pub fn from_der(der: &'a [u8]) -> (cert: Self)
        ensures
            cert == X509::Der(der),
    {
        Self::Der(der)
    }

    pub fn as_bytes(&self) -> (bytes: &'a [u8])
        ensures
            *self == X509::Pem(bytes) || *self == X509::Der(bytes),
            bytes@ == self.bytes(),
    {
        match self {
            Self::Pem(bytes) => bytes,
            Self::Der(bytes) => bytes,
        }
    }

    pub fn len(&self) -> (len: usize)
        ensures
            len == self.bytes().len(),
    {
        match self {
            Self::Pem(bytes) => bytes.len(),
            Self::Der(bytes) => bytes.len(),
        }
    }
}

/// A certificate that a connector may trust as an issuer anchor.
#[derive(Debug, Copy, Clone)]
pub struct Certificate<'a>(X509<'a>);

impl<'a> Certificate<'a> {
    /// The X509 structure this certificate wraps.
    pub closed spec fn x509(self) -> X509<'a> {
        self.0
    }

    /// Tags a PEM-encoded X509 structure as a `Certificate`.
    /// The input should have a header of `-----BEGIN CERTIFICATE-----`.
    pub fn from_pem(pem: &'a [u8]) -> (cert: Self)
        ensures
            cert.x509() == X509::Pem(pem),
    {
        Self(X509::from_pem(pem))
    }

    /// Tags a DER-encoded X509 structure as a `Certificate`.
    pub fn from_der(der: &'a [u8]) -> (cert: Self)
        ensures
            cert.x509() == X509::Der(der),
    {
        Self(X509::from_der(der))
    }

    pub fn as_bytes(&self) -> (bytes: &'a [u8])
        ensures
            self.x509() == X509::Pem(bytes) || self.x509() == X509::Der(bytes),
            bytes@ == self.x509().bytes(),
    {
        self.0.as_bytes()
    }

    pub fn len(&self) -> (len: usize)
        ensures
            len == self.x509().bytes().len(),
    {
        self.0.len()
    }
}

/// Marks a [`PKey`] as a private key.
#[derive(Debug, Copy, Clone)]
pub struct Private;

/// Marks a [`PKey`] as a public key.
#[derive(Debug, Copy, Clone)]
pub struct Public;

/// Key material, tagged at the type level with its role.
///
/// A client identity can only be built from a `PKey<Private>`, so a public
/// key cannot end up where a private one is needed.
#[derive(Debug)]
pub struct PKey<'a, T>(&'a [u8], Option<&'a [u8]>, core::marker::PhantomData<T>);

impl<'a, T> Clone for PKey<'a, T> {
    fn clone(&self) -> (key: Self)
        ensures
            key == *self,
    {
        PKey(self.0, self.1, core::marker::PhantomData)
    }
}

impl<'a, T> Copy for PKey<'a, T> {

}

impl<'a> PKey<'a, Private> {
    pub fn new_private(key: &'a [u8], password: Option<&'a [u8]>) -> (pkey: Self)
        ensures
            pkey.key() == key,
            pkey.password() == password,
    {
        PKey(key, password, core::marker::PhantomData)
    }
}

impl<'a, T> PKey<'a, T> {
    /// The borrowed key material.
    pub closed spec fn key(self) -> &'a [u8] {
        self.0
    }

    /// The password that unlocks the key, where it has one.
    pub closed spec fn password(self) -> Option<&'a [u8]> {
        self.1
    }

    pub fn as_bytes(&self) -> (bytes: &'a [u8])
        ensures
            bytes == self.key(),
    {
        self.0
    }

    pub fn len(&self) -> (len: usize)
        ensures
            len == self.key()@.len(),
    {
        self.0.len()
    }
}

/// What a client presents to authenticate itself: one certificate and the
/// private key that belongs to it.
#[derive(Debug)]
pub struct Identity<'a> {
    pkey: PKey<'a, Private>,
    cert: X509<'a>,
}

impl<'a> Clone for Identity<'a> {
    fn clone(&self) -> (identity: Self)
        ensures
            identity == *self,
    {
        Identity { pkey: self.pkey, cert: self.cert }
    }
}

impl<'a> Identity<'a> {
    /// The certificate of this identity.
    pub closed spec fn certificate(self) -> X509<'a> {
        self.cert
    }

    /// The private key of this identity.
    pub closed spec fn key(self) -> PKey<'a, Private> {
        self.pkey
    }

    pub fn new(cert: X509<'a>, private_key: PKey<'a, Private>) -> (identity: Self)
        ensures
            identity.certificate() == cert,
            identity.key() == private_key,
    {
        Identity { cert, pkey: private_key }
    }

    pub fn private_key(&self) -> (key: &PKey<'a, Private>)
        ensures
            *key == self.key(),
    {
        &self.pkey
    }

    pub fn cert(&self) -> (cert: &X509<'a>)
        ensures
            *cert == self.certificate(),
    {
        &self.cert
    }
}

/// The most trust roots that one connector holds.
pub const MAX_ROOT_CERTIFICATES: usize = 10;

/// The trust roots of one connector, in the order in which they were added.
///
/// They live in a `heapless::Vec` of capacity [`MAX_ROOT_CERTIFICATES`], so
/// the list needs no allocator. Verus does not look inside: what it knows of
/// a list is what [`trust_roots`] names.
#[verifier::external_body]
#[derive(Debug)]
pub struct TrustRoots<'a> {
    list: heapless::Vec<Certificate<'a>, heapless::consts::U10>,
}

/// The certificates that a list of trust roots holds, oldest first.
pub uninterp spec fn trust_roots(roots: TrustRoots<'_>) -> Seq<Certificate<'_>>;

impl<'a> View for TrustRoots<'a> {
    type V = Seq<Certificate<'a>>;

    open spec fn view(&self) -> Seq<Certificate<'a>> {
        trust_roots(*self)
    }
}

impl<'a> TrustRoots<'a> {
    /// `heapless::Vec::new`: a list that holds nothing.
    #[verifier::external_body]
    fn new() -> (roots: Self)
        ensures
            trust_roots(roots) == Seq::<Certificate<'a>>::empty(),
    {
        TrustRoots { list: heapless::Vec::new() }
    }

    /// `heapless::Vec::push`: below capacity the certificate goes to the
    /// end of the list; at capacity the list stays as it is and the
    /// certificate comes back. It does not panic either way.
    #[verifier::external_body]
    fn push(&mut self, cert: Certificate<'a>) -> (pushed: Result<(), Certificate<'a>>)
        ensures
            trust_roots(*old(self)).len() < MAX_ROOT_CERTIFICATES ==> {
                &&& pushed is Ok
                &&& trust_roots(*final(self)) == trust_roots(*old(self)).push(cert)
            },
            trust_roots(*old(self)).len() >= MAX_ROOT_CERTIFICATES ==> {
                &&& pushed == Err::<(), Certificate<'a>>(cert)
                &&& trust_roots(*final(self)) == trust_roots(*old(self))
            },
        no_unwind
    {
        self.list.push(cert)
    }

    /// `Clone::clone` of `heapless::Vec`: a second list with the same
    /// certificates in the same order.
    #[verifier::external_body]
    fn duplicate(&self) -> (roots: Self)
        ensures
            trust_roots(roots) == trust_roots(*self),
    {
        TrustRoots { list: self.list.clone() }
    }

    /// `Deref::deref` of `heapless::Vec`: the certificates as a slice.
    #[verifier::external_body]
    fn as_slice(&self) -> (certs: &[Certificate<'a>])
        ensures
            certs@ == trust_roots(*self),
    {
        &self.list
    }
}

/// What a connector is configured with, as plain values.
///
/// This is the model that the contracts of [`TlsConnectorBuilder`] and
/// [`TlsConnectorConfig`] speak of.
pub struct Settings<'a> {
    pub identity: Option<Identity<'a>>,
    pub min_protocol: Protocol,
    pub max_protocol: Option<Protocol>,
    pub root_certificates: Seq<Certificate<'a>>,
    pub accept_invalid_certs: bool,
    pub accept_invalid_hostnames: bool,
    pub use_sni: bool,
}

impl<'a> Settings<'a> {
    /// The settings of a builder that no setter was called on: no identity,
    /// TLS 1.0 as the oldest protocol, no newest protocol (the backend's
    /// newest), no extra trust roots, every validation on, SNI on.
    pub open spec fn initial() -> Self {
        Settings {
            identity: None,
            min_protocol: Protocol::Tlsv10,
            max_protocol: None,
            root_certificates: Seq::empty(),
            accept_invalid_certs: false,
            accept_invalid_hostnames: false,
            use_sni: true,
        }
    }

    pub open spec fn with_identity(self, identity: Identity<'a>) -> Self {
        Settings { identity: Some(identity), ..self }
    }

    pub open spec fn with_min_protocol(self, protocol: Protocol) -> Self {
        Settings { min_protocol: protocol, ..self }
    }

    pub open spec fn with_max_protocol(self, protocol: Protocol) -> Self {
        Settings { max_protocol: Some(protocol), ..self }
    }

    /// Whether another trust root still fits.
    pub open spec fn has_room(self) -> bool {
        self.root_certificates.len() < MAX_ROOT_CERTIFICATES
    }

    pub open spec fn with_root_certificate(self, cert: Certificate<'a>) -> Self {
        Settings { root_certificates: self.root_certificates.push(cert), ..self }
    }

    pub open spec fn with_accept_invalid_certs(self, accept: bool) -> Self {
        Settings { accept_invalid_certs: accept, ..self }
    }

    pub open spec fn with_accept_invalid_hostnames(self, accept: bool) -> Self {
        Settings { accept_invalid_hostnames: accept, ..self }
    }

    pub open spec fn with_use_sni(self, use_sni: bool) -> Self {
        Settings { use_sni, ..self }
    }

    /// What a builder is left with once a configuration was built from it:
    /// the identity and the newest protocol have moved out, the rest stays.
    pub open spec fn drained(self) -> Self {
        Settings { identity: None, max_protocol: None, ..self }
    }

    /// Never more trust roots than the capacity.
    pub open spec fn within_capacity(self) -> bool {
        self.root_certificates.len() <= MAX_ROOT_CERTIFICATES
    }
}

/// A built configuration as plain values: the settings and the backend's
/// context.
pub struct ConfigView<'a, CTX> {
    pub context: CTX,
    pub settings: Settings<'a>,
}

/// The configuration that a builder with these `settings` hands over
/// together with `context`: nothing is added and nothing is left out.
pub open spec fn built<'a, CTX>(settings: Settings<'a>, context: CTX) -> ConfigView<'a, CTX> {
    ConfigView { context, settings }
}

/// A builder that no setter was called on builds a configuration with TLS
/// 1.0 as its oldest protocol and no newest protocol, which stands for the
/// newest that the backend supports.
pub proof fn lemma_default_protocols<'a, CTX>(context: CTX)
    ensures
        built(Settings::<'a>::initial(), context).settings.min_protocol == Protocol::Tlsv10,
        built(Settings::<'a>::initial(), context).settings.max_protocol is None,
{
}

/// What was set for SNI and for hostname verification is what the built
/// configuration holds, in whichever order the two were set: the other
/// setter does not touch it.
pub proof fn lemma_flags_reach_configuration<'a, CTX>(
    settings: Settings<'a>,
    use_sni: bool,
    accept_invalid_hostnames: bool,
    context: CTX,
)
    ensures
        ({
            let set = settings.with_use_sni(use_sni).with_accept_invalid_hostnames(
                accept_invalid_hostnames,
            );
            &&& built(set, context).settings.use_sni == use_sni
            &&& built(set, context).settings.accept_invalid_hostnames == accept_invalid_hostnames
            &&& set == settings.with_accept_invalid_hostnames(accept_invalid_hostnames).with_use_sni(
                use_sni,
            )
        }),
{
}

/// The identity that was set is the identity that the built configuration
/// holds: the same certificate and the same key, and so the same borrowed
/// bytes.
pub proof fn lemma_identity_round_trip<'a, CTX>(
    settings: Settings<'a>,
    identity: Identity<'a>,
    context: CTX,
)
    ensures
        built(settings.with_identity(identity), context).settings.identity == Some(identity),
        built(settings.with_identity(identity), context).settings.identity matches Some(held) && {
            &&& held.certificate() == identity.certificate()
            &&& held.certificate().bytes() == identity.certificate().bytes()
            &&& held.key() == identity.key()
            &&& held.key().key() == identity.key().key()
            &&& held.key().password() == identity.key().password()
        },
{
}

/// A builder that has built holds no identity and no newest protocol, and
/// everything else as before. Building again from it changes nothing more.
pub proof fn lemma_drained<'a>(settings: Settings<'a>)
    ensures
        settings.drained().identity is None,
        settings.drained().max_protocol is None,
        settings.drained().min_protocol == settings.min_protocol,
        settings.drained().root_certificates == settings.root_certificates,
        settings.drained().accept_invalid_certs == settings.accept_invalid_certs,
        settings.drained().accept_invalid_hostnames == settings.accept_invalid_hostnames,
        settings.drained().use_sni == settings.use_sni,
        settings.drained().drained() == settings.drained(),
        Settings::<'a>::initial().drained() == Settings::<'a>::initial(),
{
}

/// Adding a trust root where there is room keeps every root that was there,
/// in its place, puts the new one behind them, and stays within the
/// capacity. A list of [`MAX_ROOT_CERTIFICATES`] roots has no room.
pub proof fn lemma_roots_within_capacity<'a>(settings: Settings<'a>, cert: Certificate<'a>)
    requires
        settings.within_capacity(),
    ensures
        settings.has_room() ==> {
            let added = settings.with_root_certificate(cert);
            &&& added.within_capacity()
            &&& added.root_certificates.len() == settings.root_certificates.len() + 1
            &&& added.root_certificates.last() == cert
            &&& forall|i: int|
                0 <= i < settings.root_certificates.len() ==> added.root_certificates[i]
                    == settings.root_certificates[i]
        },
        !settings.has_room() <==> settings.root_certificates.len() == MAX_ROOT_CERTIFICATES,
{
}

/// A collection of TLS configuration options plus a user-defined contextual
/// data.
///
/// A network driver that wants these options for starting a TLS connection
/// provides a connector type and implements
/// `TryFrom<TlsConnectorConfig<'a, &CTX>>` for it;
/// [`TlsConnectorBuilder::build`] then hands the options over.
#[derive(Debug)]
pub struct TlsConnectorConfig<'a, CTX> {
    context: CTX,
    identity: Option<Identity<'a>>,
    min_protocol: Protocol,
    max_protocol: Option<Protocol>,
    root_certificates: TrustRoots<'a>,
    accept_invalid_certs: bool,
    accept_invalid_hostnames: bool,
    use_sni: bool,
}

impl<'a, CTX> View for TlsConnectorConfig<'a, CTX> {
    type V = ConfigView<'a, CTX>;

    closed spec fn view(&self) -> ConfigView<'a, CTX> {
        ConfigView {
            context: self.context,
            settings: Settings {
                identity: self.identity,
                min_protocol: self.min_protocol,
                max_protocol: self.max_protocol,
                root_certificates: self.root_certificates@,
                accept_invalid_certs: self.accept_invalid_certs,
                accept_invalid_hostnames: self.accept_invalid_hostnames,
                use_sni: self.use_sni,
            },
        }
    }
}

impl<'a, CTX> TlsConnectorConfig<'a, CTX> {
    #[verifier::type_invariant]
    spec fn roots_fit(self) -> bool {
        self.root_certificates@.len() <= MAX_ROOT_CERTIFICATES
    }

    /// Returns a reference to `CTX` which has been passed to the `build` method
    /// earlier.
    pub fn context(&self) -> (context: &CTX)
        ensures
            *context == self@.context,
    {
        &self.context
    }

    /// Returns an identity.
    pub fn identity(&self) -> (identity: &Option<Identity<'a>>)
        ensures
            *identity == self@.settings.identity,
    {
        &self.identity
    }

    /// Returns the minimum supported protocol version.
    pub fn min_protocol(&self) -> (protocol: &Protocol)
        ensures
            *protocol == self@.settings.min_protocol,
    {
        &self.min_protocol
    }

    /// Returns the maximum supported protocol version. `None` stands for
    /// the newest that the backend supports.
    pub fn max_protocol(&self) -> (protocol: &Option<Protocol>)
        ensures
            *protocol == self@.settings.max_protocol,
    {
        &self.max_protocol
    }

    /// Returns the trust roots, in the order in which they were added. They
    /// are never more than [`MAX_ROOT_CERTIFICATES`].
    pub fn root_certificates(&self) -> (certs: &[Certificate<'a>])
        ensures
            certs@ == self@.settings.root_certificates,
            certs@.len() <= MAX_ROOT_CERTIFICATES,
    {
        proof {
            use_type_invariant(self);
        }
        self.root_certificates.as_slice()
    }

    pub fn accept_invalid_certs(&self) -> (accept: bool)
        ensures
            accept == self@.settings.accept_invalid_certs,
    {
        self.accept_invalid_certs
    }

    pub fn accept_invalid_hostnames(&self) -> (accept: bool)
        ensures
            accept == self@.settings.accept_invalid_hostnames,
    {
        self.accept_invalid_hostnames
    }

    pub fn use_sni(&self) -> (use_sni: bool)
        ensures
            use_sni == self@.settings.use_sni,
    {
        self.use_sni
    }
}

impl<'a, CTX: Clone> Clone for TlsConnectorConfig<'a, CTX> {
    fn clone(&self) -> (config: Self)
        ensures
            config@.settings == self@.settings,
            cloned(self@.context, config@.context),
    {
        proof {
            use_type_invariant(self);
        }
        TlsConnectorConfig {
            context: self.context.clone(),
            identity: match &self.identity {
                Some(identity) => Some(identity.clone()),
                None => None,
            },
            min_protocol: self.min_protocol,
            max_protocol: self.max_protocol,
            root_certificates: self.root_certificates.duplicate(),
            accept_invalid_certs: self.accept_invalid_certs,
            accept_invalid_hostnames: self.accept_invalid_hostnames,
            use_sni: self.use_sni,
        }
    }
}

impl<'a, CTX: Default> Default for TlsConnectorConfig<'a, CTX> {
    fn default() -> (config: Self)
        ensures
            config@.settings == Settings::initial(),
    {
        TlsConnectorConfig {
            context: CTX::default(),
            identity: None,
            min_protocol: Protocol::Tlsv10,
            max_protocol: None,
            root_certificates: TrustRoots::new(),
            accept_invalid_certs: false,
            accept_invalid_hostnames: false,
            use_sni: true,
        }
    }
}

/// A builder for `TlsConnector`s.
#[derive(Debug)]
pub struct TlsConnectorBuilder<'a>(TlsConnectorConfig<'a, ()>);

impl<'a> View for TlsConnectorBuilder<'a> {
    type V = Settings<'a>;

    closed spec fn view(&self) -> Settings<'a> {
        self.0@.settings
    }
}

impl<'a> Clone for TlsConnectorBuilder<'a> {
    fn clone(&self) -> (builder: Self)
        ensures
            builder@ == self@,
    {
        TlsConnectorBuilder(self.0.clone())
    }
}

impl<'a> Default for TlsConnectorBuilder<'a> {
    fn default() -> (builder: Self)
        ensures
            builder@ == Settings::initial(),
    {
        TlsConnectorBuilder(TlsConnectorConfig::default())
    }
}

/// Whether `connector` is what the backend makes of a configuration with
/// these `settings` and this `context`, as far as its conversion is
/// specified.
pub open spec fn converts<'a, CTX, CONN: TryFrom<TlsConnectorConfig<'a, CTX>>>(
    settings: Settings<'a>,
    context: CTX,
    connector: Result<CONN, CONN::Error>,
) -> bool {
    exists|config: TlsConnectorConfig<'a, CTX>|
        {
            &&& #[trigger] config@ == built(settings, context)
            &&& CONN::obeys_try_from_spec() ==> connector == CONN::try_from_spec(config)
        }
}

impl<'a> TlsConnectorBuilder<'a> {
    pub fn new() -> (builder: Self)
        ensures
            builder@ == Settings::initial(),
    {
        Self::default()
    }

    /// Moves what was set so far, together with `context`, into a
    /// configuration. The identity and the newest protocol leave the
    /// builder; the trust roots are copied and the rest is read.
    fn context<CTX>(&mut self, context: CTX) -> (config: TlsConnectorConfig<'a, CTX>)
        ensures
            config@ == built(old(self)@, context),
            final(self)@ == old(self)@.drained(),
    {
        proof {
            use_type_invariant(&self.0);
        }
        let identity = match &self.0.identity {
            Some(identity) => Some(identity.clone()),
            None => None,
        };
        let max_protocol = self.0.max_protocol;
        self.0.identity = None;
        self.0.max_protocol = None;
        TlsConnectorConfig {
            context,
            identity,
            min_protocol: self.0.min_protocol,
            max_protocol,
            root_certificates: self.0.root_certificates.duplicate(),
            accept_invalid_certs: self.0.accept_invalid_certs,
            accept_invalid_hostnames: self.0.accept_invalid_hostnames,
            use_sni: self.0.use_sni,
        }
    }

    /// Sets the identity to be used for client certificate authentication.
    /// An identity set earlier is replaced.
    pub fn identity(&mut self, identity: Identity<'a>) -> (builder: &mut Self)
        ensures
            builder@ == old(self)@.with_identity(identity),
            *final(self) == *final(builder),
    {
        proof {
            use_type_invariant(&self.0);
        }
        self.0.identity = Some(identity);
        self
    }

    /// Sets the minimum supported protocol version.
    ///
    /// The method is optional. Unless explicitly called with a specific
    /// protocol version, it enables support for the oldest protocols supported
    /// by the implementation.
    ///
    /// Defaults to `Protocol::Tlsv10`. The value is not held against the
    /// maximum: that is for the backend to judge when the connector is built.
    pub fn min_protocol_version(&mut self, protocol: Protocol) -> (builder: &mut Self)
        ensures
            builder@ == old(self)@.with_min_protocol(protocol),
            *final(self) == *final(builder),
    {
        proof {
            use_type_invariant(&self.0);
        }
        self.0.min_protocol = protocol;
        self
    }

    /// Sets the maximum supported protocol version.
    ///
    /// A value of `None` enables support for the newest protocols supported by
    /// the implementation.
    ///
    /// Defaults to `None`.
    pub fn max_protocol_version(&mut self, protocol: Protocol) -> (builder: &mut Self)
        ensures
            builder@ == old(self)@.with_max_protocol(protocol),
            *final(self) == *final(builder),
    {
        proof {
            use_type_invariant(&self.0);
        }
        self.0.max_protocol = Some(protocol);
        self
    }

    /// Adds a certificate to the set of roots that the connector will trust.
    ///
    /// The connector will use the system's trust root by default. This method
    /// can be used to add to that set when communicating with servers not
    /// trusted by the system.
    ///
    /// Defaults to an empty set. The set holds [`MAX_ROOT_CERTIFICATES`]
    /// certificates at most: adding one more fails, and the set stays as it
    /// was.
    pub fn root_certificate(&mut self, cert: Certificate<'a>) -> (added: Result<
        &mut Self,
        CapacityError,
    >)
        ensures
            old(self)@.has_room() ==> added is Ok,
            !old(self)@.has_room() ==> added is Err && final(self)@ == old(self)@,
            added matches Ok(builder) ==> builder@ == old(self)@.with_root_certificate(cert)
                && *final(self) == *final(builder),
    {
        proof {
            use_type_invariant(&self.0);
        }
        match self.0.root_certificates.push(cert) {
            Ok(()) => Ok(self),
            Err(_) => Err(CapacityError),
        }
    }

    /// Controls the use of certificate validation.
    ///
    /// Defaults to `false`.
    ///
    /// # Warning
    ///
    /// You should think very carefully before using this method. If invalid
    /// certificates are trusted, *any* certificate for *any* site will be
    /// trusted for use. This includes expired certificates. This introduces
    /// significant vulnerabilities, and should only be used as a last resort.
    pub fn danger_accept_invalid_certs(&mut self, accept_invalid_certs: bool) -> (builder:
        &mut Self)
        ensures
            builder@ == old(self)@.with_accept_invalid_certs(accept_invalid_certs),
            *final(self) == *final(builder),
    {
        proof {
            use_type_invariant(&self.0);
        }
        self.0.accept_invalid_certs = accept_invalid_certs;
        self
    }

    /// Controls the use of Server Name Indication (SNI).
    ///
    /// Defaults to `true`. The flag reaches the configuration as it was set,
    /// whether or not a name is known for the remote: what to send for a
    /// remote without a name is for the backend to decide.
    pub fn use_sni(&mut self, use_sni: bool) -> (builder: &mut Self)
        ensures
            builder@ == old(self)@.with_use_sni(use_sni),
            *final(self) == *final(builder),
    {
        proof {
            use_type_invariant(&self.0);
        }
        self.0.use_sni = use_sni;
        self
    }

    /// Controls the use of hostname verification.
    ///
    /// Defaults to `false`.
    ///
    /// # Warning
    ///
    /// You should think very carefully before using this method. If invalid
    /// hostnames are trusted, *any* valid certificate for *any* site will be
    /// trusted for use. This introduces significant vulnerabilities, and should
    /// only be used as a last resort.
    pub fn danger_accept_invalid_hostnames(&mut self, accept_invalid_hostnames: bool) -> (builder:
        &mut Self)
        ensures
            builder@ == old(self)@.with_accept_invalid_hostnames(accept_invalid_hostnames),
            *final(self) == *final(builder),
    {
        proof {
            use_type_invariant(&self.0);
        }
        self.0.accept_invalid_hostnames = accept_invalid_hostnames;
        self
    }

    /// Hands what was set so far, together with `ctx`, to the backend, and
    /// returns the connector that the backend makes of it, or the backend's
    /// refusal.
    ///
    /// The identity and the newest protocol move into the configuration: a
    /// builder that has built once is left without them, and holds
    /// everything else as before.
    pub fn build<'b, CTX, CONN>(&'b mut self, ctx: &'b CTX) -> (connector: Result<
        CONN,
        CONN::Error,
    >) where CONN: TryFrom<TlsConnectorConfig<'a, &'b CTX>>
        ensures
            converts(old(self)@, ctx, connector),
            final(self)@ == old(self)@.drained(),
    {
        let config = self.context(ctx);
        CONN::try_from(config)
    }
}

/// This trait extends implementer of TCP/IP stacks with Tls capability.
///
/// A secure connection is set up over a transport socket that is already
/// open. The errors of the transport are part of the errors of TLS: the
/// error type of this trait can be made from the transport's.
pub trait Tls: TcpClientStack {
    /// What the backend reports when a connection fails for good.
    type Error: From<<Self as TcpClientStack>::Error>;

    /// What the backend makes of a [`TlsConnectorConfig`].
    type TlsConnector;

    /// Whether `outcome`, with the socket left as `after`, is something
    /// this backend may answer when asked to secure the socket `before`
    /// towards `remote` with `connector`.
    ///
    /// A backend that says nothing of itself leaves this as it is: every
    /// outcome is then possible.
    open spec fn secures(
        &self,
        before: <Self as TcpClientStack>::TcpSocket,
        remote: HostSocketAddr,
        connector: Self::TlsConnector,
        after: <Self as TcpClientStack>::TcpSocket,
        outcome: Result<(), nb::Error<<Self as Tls>::Error>>,
    ) -> bool {
        true
    }

    /// Connect securely to the given remote host and port.
    ///
    /// The call does not block. `Ok` says that the socket is secured,
    /// `Err(nb::Error::WouldBlock)` that the handshake is under way and the
    /// same call is to be made again once the transport is ready, and
    /// `Err(nb::Error::Other(_))` that the connection has failed. A call
    /// after `WouldBlock` goes on with the handshake, it does not start
    /// another: the backend keeps the progress.
    fn connect(
        &self,
        socket: &mut <Self as TcpClientStack>::TcpSocket,
        remote: HostSocketAddr,
        connector: &Self::TlsConnector,
    ) -> (outcome: nb::Result<(), <Self as Tls>::Error>)
        ensures
            self.secures(*old(socket), remote, *connector, *final(socket), outcome),
    ;
}

/// Whether `into` is what the conversion of `from` gives, as far as the
/// conversion is specified.
pub open spec fn converted<A: Into<B>, B>(from: A, into: B) -> bool {
    A::obeys_into_spec() ==> into == from.into_spec()
}

/// What one step of [`DnsTls::connect`] has to do once the name lookup has
/// answered.
#[derive(Debug)]
pub enum Resolved<E> {
    /// The lookup failed: the step ends with this error.
    Failed(E),
    /// The lookup gave an address: the step goes on to secure the socket
    /// towards this remote.
    Connect(HostSocketAddr),
}

/// Decides how a connect step goes on after the name lookup: a lookup that
/// failed ends the step with the resolver's error as an error of TLS, a
/// lookup that gave an address leads on to that address and `port`.
pub fn after_lookup<D: Into<E>, E>(answer: Result<HostAddr, D>, port: u16) -> (next: Resolved<E>)
    ensures
        match answer {
            Ok(host) => next == Resolved::<E>::Connect(HostSocketAddr::pair(host, port)),
            Err(e) => next matches Resolved::Failed(error) && converted(e, error),
        },
{
    match answer {
        Ok(host) => Resolved::Connect(HostSocketAddr::new(host, port)),
        Err(e) => Resolved::Failed(e.into()),
    }
}

/// What [`DnsTls::connect`] does on a stack, from the socket as it was
/// `before` to the socket as it is `after`.
///
/// A text that is no target ends the step at once, with [`InvalidTarget`]
/// as an error of TLS and the socket untouched. Else the stack is asked for
/// an IPv4 address of the host. Where it has none, the step ends with the
/// resolver's error as an error of TLS, the socket again untouched. Where it
/// has one, the step is whatever the backend makes of securing the socket
/// towards that address and the port of the target.
pub open spec fn connects_by_name<T>(
    stack: T,
    before: <T as TcpClientStack>::TcpSocket,
    target: Seq<char>,
    connector: <T as Tls>::TlsConnector,
    after: <T as TcpClientStack>::TcpSocket,
    outcome: Result<(), nb::Error<<T as Tls>::Error>>,
) -> bool where
    T: Tls + Dns,
    <T as Dns>::Error: Into<<T as Tls>::Error>,
    InvalidTarget: Into<<T as Tls>::Error>,
 {
    match target_of(target) {
        None => {
            &&& after == before
            &&& outcome matches Err(nb::Error::Other(error))
            &&& converted(InvalidTarget, error)
        },
        Some((host, port)) => exists|answer: Result<HostAddr, <T as Dns>::Error>|
            {
                &&& #[trigger] stack.answers(host, AddrType::IPv4, answer)
                &&& match answer {
                    Err(e) => {
                        &&& after == before
                        &&& outcome matches Err(nb::Error::Other(error))
                        &&& converted(e, error)
                    },
                    Ok(addr) => stack.secures(
                        before,
                        HostSocketAddr::pair(addr, port),
                        connector,
                        after,
                        outcome,
                    ),
                }
            },
    }
}

/// A text that is no target never reaches the resolver or the backend: the
/// step ends with [`InvalidTarget`] as an error of TLS, and the socket is as
/// it was.
pub proof fn lemma_invalid_target_ends_the_step<T>(
    stack: T,
    before: <T as TcpClientStack>::TcpSocket,
    target: Seq<char>,
    connector: <T as Tls>::TlsConnector,
    after: <T as TcpClientStack>::TcpSocket,
    outcome: Result<(), nb::Error<<T as Tls>::Error>>,
) where
    T: Tls + Dns,
    <T as Dns>::Error: Into<<T as Tls>::Error>,
    InvalidTarget: Into<<T as Tls>::Error>,

    requires
        target_of(target) is None,
        connects_by_name(stack, before, target, connector, after, outcome),
    ensures
        after == before,
        outcome matches Err(nb::Error::Other(error)) && converted(InvalidTarget, error),
{
}

/// Where the resolver has no IPv4 address for the host of a target, the
/// backend is not asked: the step ends with an error of the resolver as an
/// error of TLS, and the socket is as it was.
pub proof fn lemma_failed_lookup_ends_the_step<T>(
    stack: T,
    before: <T as TcpClientStack>::TcpSocket,
    target: Seq<char>,
    connector: <T as Tls>::TlsConnector,
    after: <T as TcpClientStack>::TcpSocket,
    outcome: Result<(), nb::Error<<T as Tls>::Error>>,
) where
    T: Tls + Dns,
    <T as Dns>::Error: Into<<T as Tls>::Error>,
    InvalidTarget: Into<<T as Tls>::Error>,

    requires
        target_of(target) matches Some((host, _)) && forall|answer: Result<HostAddr, <T as Dns>::Error>|
            #[trigger] stack.answers(host, AddrType::IPv4, answer) ==> answer is Err,
        connects_by_name(stack, before, target, connector, after, outcome),
    ensures
        after == before,
        outcome matches Err(nb::Error::Other(error)) && exists|e: <T as Dns>::Error|
            #[trigger] stack.answers(target_of(target).unwrap().0, AddrType::IPv4, Err(e))
                && converted(e, error),
{
}

/// A stack that secures a connection to a host given by name.
///
/// Every stack that offers [`Tls`] and [`Dns`] has this capability, as soon
/// as the errors of its resolver, and [`InvalidTarget`], can be made into
/// errors of its TLS.
pub trait DnsTls {
    /// The handle of one connection.
    type Socket;

    /// The connector of the TLS backend.
    type Connector;

    /// The error of the TLS backend.
    type Error;

    /// Whether `outcome`, with the socket left as `after`, is something
    /// that connecting the socket `before` to `target` may end in. For a
    /// stack that offers [`Tls`] and [`Dns`] this is [`connects_by_name`].
    open spec fn connects(
        &self,
        before: Self::Socket,
        target: Seq<char>,
        connector: Self::Connector,
        after: Self::Socket,
        outcome: Result<(), nb::Error<Self::Error>>,
    ) -> bool {
        true
    }

    /// Connects securely to the host and port that `target` names, a text
    /// of the form `host:port`.
    ///
    /// The call does not block, and its outcomes read as those of
    /// [`Tls::connect`]. After `Err(nb::Error::WouldBlock)` the same call is
    /// to be made again.
    fn connect(
        &self,
        socket: &mut Self::Socket,
        target: &str,
        connector: &Self::Connector,
    ) -> (outcome: nb::Result<(), Self::Error>)
        ensures
            self.connects(*old(socket), target@, *connector, *final(socket), outcome),
    ;
}

impl<T> DnsTls for T where
    T: Tls + Dns,
    <T as Dns>::Error: Into<<T as Tls>::Error>,
    InvalidTarget: Into<<T as Tls>::Error>,
 {
    type Socket = <T as TcpClientStack>::TcpSocket;

    type Connector = <T as Tls>::TlsConnector;

    type Error = <T as Tls>::Error;

    open spec fn connects(
        &self,
        before: <T as TcpClientStack>::TcpSocket,
        target: Seq<char>,
        connector: <T as Tls>::TlsConnector,
        after: <T as TcpClientStack>::TcpSocket,
        outcome: Result<(), nb::Error<<T as Tls>::Error>>,
    ) -> bool {
        connects_by_name(*self, before, target, connector, after, outcome)
    }

    fn connect(
        &self,
        socket: &mut <T as TcpClientStack>::TcpSocket,
        target: &str,
        connector: &<T as Tls>::TlsConnector,
    ) -> (outcome: nb::Result<(), <T as Tls>::Error>) {
        match parse_target(target) {
            Err(invalid) => Err(nb::Error::Other(invalid.into())),
            Ok((host, port)) => {
                let answer = Dns::get_host_by_name(self, host, AddrType::IPv4);
                match after_lookup(answer, port) {
                    Resolved::Failed(error) => Err(nb::Error::Other(error)),
                    Resolved::Connect(remote) => Tls::connect(self, socket, remote, connector),
                }
            },
        }
    }
}

/// A socket that has been secured. It gives read access to the transport
/// socket underneath.
#[derive(Debug)]
pub struct TlsSocket<T>(T);

impl<T> TlsSocket<T> {
    /// The transport socket underneath.
    pub closed spec fn transport(self) -> T {
        self.0
    }

    pub fn new(socket: T) -> (secured: Self)
        ensures
            secured.transport() == socket,
    {
        TlsSocket(socket)
    }

    pub fn socket(&self) -> (socket: &T)
        ensures
            *socket == self.transport(),
    {
        &self.0
    }
}

} // verus!
