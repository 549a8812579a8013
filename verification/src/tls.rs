//! TLS settings of connections to other services.
use crate::value::Value;
use vstd::prelude::*;

verus! {

/// Which certificate authorities are trusted.
#[derive(Clone, Debug, PartialEq, Eq)]
pub enum CaCert {
    /// The public ones.
    WebPki,
    /// The one of the SecretClass of that name.
    SecretClass(String),
}

/// The contents of a [`CaCert`].
#[verifier::ext_equal]
pub enum CaCertView {
    WebPki,
    SecretClass(Seq<char>),
}

impl DeepView for CaCert {
    type V = CaCertView;

    open spec fn deep_view(&self) -> CaCertView {
        match self {
            CaCert::WebPki => CaCertView::WebPki,
            CaCert::SecretClass(inner) => CaCertView::SecretClass(inner.deep_view()),
        }
    }
}

impl Value for CaCert {
    fn duplicate(&self) -> (copy: Self) {
        match self {
            CaCert::WebPki => CaCert::WebPki,
            CaCert::SecretClass(inner) => CaCert::SecretClass(inner.duplicate()),
        }
    }

    fn same_as(&self, other: &Self) -> (same: bool) {
        match (self, other) {
            (CaCert::WebPki, CaCert::WebPki) => true,
            (CaCert::SecretClass(left), CaCert::SecretClass(right)) => left.same_as(right),
            _ => false,
        }
    }
}

/// How the certificate of a server is verified.
#[derive(Clone, Debug, PartialEq, Eq)]
pub struct TlsServerVerification {
    pub ca_cert: CaCert,
}

/// The contents of a [`TlsServerVerification`].
#[verifier::ext_equal]
pub struct TlsServerVerificationView {
    pub ca_cert: CaCertView,
}

impl DeepView for TlsServerVerification {
    type V = TlsServerVerificationView;

    open spec fn deep_view(&self) -> TlsServerVerificationView {
        TlsServerVerificationView {
            ca_cert: self.ca_cert.deep_view(),
        }
    }
}

impl Value for TlsServerVerification {
    fn duplicate(&self) -> (copy: Self) {
        TlsServerVerification {
            ca_cert: self.ca_cert.duplicate(),
        }
    }

    fn same_as(&self, other: &Self) -> (same: bool) {
        self.ca_cert.same_as(&other.ca_cert)
    }
}

/// What of a TLS connection is verified.
#[derive(Clone, Debug, PartialEq, Eq)]
pub enum TlsVerification {
    /// Nothing.
    NoVerification,
    /// The certificate of the server.
    Server(TlsServerVerification),
}

/// The contents of a [`TlsVerification`].
#[verifier::ext_equal]
pub enum TlsVerificationView {
    NoVerification,
    Server(TlsServerVerificationView),
}

impl DeepView for TlsVerification {
    type V = TlsVerificationView;

    open spec fn deep_view(&self) -> TlsVerificationView {
        match self {
            TlsVerification::NoVerification => TlsVerificationView::NoVerification,
            TlsVerification::Server(inner) => TlsVerificationView::Server(inner.deep_view()),
        }
    }
}

impl Value for TlsVerification {
    fn duplicate(&self) -> (copy: Self) {
        match self {
            TlsVerification::NoVerification => TlsVerification::NoVerification,
            TlsVerification::Server(inner) => TlsVerification::Server(inner.duplicate()),
        }
    }

    fn same_as(&self, other: &Self) -> (same: bool) {
        match (self, other) {
            (TlsVerification::NoVerification, TlsVerification::NoVerification) => true,
            (TlsVerification::Server(left), TlsVerification::Server(right)) => left.same_as(right),
            _ => false,
        }
    }
}

/// The settings of a TLS connection.
#[derive(Clone, Debug, PartialEq, Eq)]
pub struct Tls {
    pub verification: TlsVerification,
}

/// The contents of a [`Tls`].
#[verifier::ext_equal]
pub struct TlsView {
    pub verification: TlsVerificationView,
}

impl DeepView for Tls {
    type V = TlsView;

    open spec fn deep_view(&self) -> TlsView {
        TlsView {
            verification: self.verification.deep_view(),
        }
    }
}

impl Value for Tls {
    fn duplicate(&self) -> (copy: Self) {
        Tls {
            verification: self.verification.duplicate(),
        }
    }

    fn same_as(&self, other: &Self) -> (same: bool) {
        self.verification.same_as(&other.verification)
    }
}

/// Whether, and with which settings, a connection uses TLS.
#[derive(Clone, Debug, PartialEq, Eq)]
pub struct TlsClientDetails {
    pub tls: Option<Tls>,
}

/// The contents of a [`TlsClientDetails`].
#[verifier::ext_equal]
pub struct TlsClientDetailsView {
    pub tls: Option<TlsView>,
}

impl DeepView for TlsClientDetails {
    type V = TlsClientDetailsView;

    open spec fn deep_view(&self) -> TlsClientDetailsView {
        TlsClientDetailsView {
            tls: self.tls.deep_view(),
        }
    }
}

impl Value for TlsClientDetails {
    fn duplicate(&self) -> (copy: Self) {
        TlsClientDetails {
            tls: self.tls.duplicate(),
        }
    }

    fn same_as(&self, other: &Self) -> (same: bool) {
        self.tls.same_as(&other.tls)
    }
}

/// TLS with a server certificate issued by a public certificate authority.
pub open spec fn web_pki() -> TlsView {
    TlsView {
        verification: TlsVerificationView::Server(
            TlsServerVerificationView { ca_cert: CaCertView::WebPki },
        ),
    }
}

/// The default TLS settings towards services on the public internet: verify their certificate.
pub fn default_tls_web_pki() -> (tls: Option<Tls>)
    ensures
        tls.deep_view() == Some(web_pki()),
{
    Some(
        Tls {
            verification: TlsVerification::Server(
                TlsServerVerification { ca_cert: CaCert::WebPki },
            ),
        },
    )
}

/// By default a server is verified against the certificates that the web trusts.
pub proof fn lemma_default_verification()
    ensures
        web_pki().verification is Server,
        web_pki().verification->Server_0.ca_cert is WebPki,
{
}

} // verus!
