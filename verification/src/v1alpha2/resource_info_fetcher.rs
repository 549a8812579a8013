//! Where the resource-info-fetcher takes its information from.
use crate::info_fetcher_sidecar::{BackendNeeds, BackendNeedsView};
use crate::tls::{TlsClientDetails, TlsClientDetailsView};
use crate::v1alpha2::cache::{Cache, CacheView};
use crate::value::Value;
use vstd::prelude::*;

verus! {

/// The environments (in DataHub terms: fabrics) a resource can live in.
#[derive(Clone, Copy, Debug, PartialEq, Eq, Structural)]
pub enum FabricType {
    /// Development fabrics.
    Dev,
    /// Testing fabrics.
    Test,
    /// Quality assurance fabrics.
    Qa,
    /// User acceptance testing fabrics.
    Uat,
    /// Early-integration fabrics.
    Ei,
    /// Pre-production fabrics.
    Pre,
    /// Staging fabrics.
    Stg,
    /// Non-production fabrics.
    NonProd,
    /// Production fabrics. The ingestion sources default to this fabric, so we do as well.
    Prod,
    /// Corporation fabrics.
    Corp,
    /// Review fabrics.
    Rvw,
    /// Alternative spelling of `Prod`.
    Prd,
    /// Alternative spelling of `Test`.
    Tst,
    /// System integration testing fabrics.
    Sit,
    /// Alternative spelling of `Sandbox`.
    Sbx,
    /// Sandbox fabrics.
    Sandbox,
    /// Certification fabrics.
    Cert,
}

impl DeepView for FabricType {
    type V = FabricType;

    open spec fn deep_view(&self) -> FabricType {
        *self
    }
}

impl Value for FabricType {
    fn duplicate(&self) -> (copy: Self) {
        *self
    }

    fn same_as(&self, other: &Self) -> (same: bool) {
        *self == *other
    }
}

impl Default for FabricType {
    fn default() -> (value: Self)
        ensures
            value == FabricType::Prod,
    {
        FabricType::Prod
    }
}

impl FabricType {
    /// The fabric as DataHub spells it.
    pub open spec fn spec_name(self) -> Seq<char> {
        match self {
            FabricType::Dev => "DEV"@,
            FabricType::Test => "TEST"@,
            FabricType::Qa => "QA"@,
            FabricType::Uat => "UAT"@,
            FabricType::Ei => "EI"@,
            FabricType::Pre => "PRE"@,
            FabricType::Stg => "STG"@,
            FabricType::NonProd => "NON_PROD"@,
            FabricType::Prod => "PROD"@,
            FabricType::Corp => "CORP"@,
            FabricType::Rvw => "RVW"@,
            FabricType::Prd => "PRD"@,
            FabricType::Tst => "TST"@,
            FabricType::Sit => "SIT"@,
            FabricType::Sbx => "SBX"@,
            FabricType::Sandbox => "SANDBOX"@,
            FabricType::Cert => "CERT"@,
        }
    }

    /// The fabric as DataHub spells it.
    pub fn name(&self) -> (text: String)
        ensures
            text@ == self.spec_name(),
    {
        match self {
            FabricType::Dev => "DEV".to_owned(),
            FabricType::Test => "TEST".to_owned(),
            FabricType::Qa => "QA".to_owned(),
            FabricType::Uat => "UAT".to_owned(),
            FabricType::Ei => "EI".to_owned(),
            FabricType::Pre => "PRE".to_owned(),
            FabricType::Stg => "STG".to_owned(),
            FabricType::NonProd => "NON_PROD".to_owned(),
            FabricType::Prod => "PROD".to_owned(),
            FabricType::Corp => "CORP".to_owned(),
            FabricType::Rvw => "RVW".to_owned(),
            FabricType::Prd => "PRD".to_owned(),
            FabricType::Tst => "TST".to_owned(),
            FabricType::Sit => "SIT".to_owned(),
            FabricType::Sbx => "SBX".to_owned(),
            FabricType::Sandbox => "SANDBOX".to_owned(),
            FabricType::Cert => "CERT".to_owned(),
        }
    }
}

/// The connection to DataHub.
#[derive(Clone, Debug, PartialEq, Eq)]
pub struct DataHubBackend {
    /// Hostname of DataHub.
    pub hostname: String,
    /// Port of DataHub. If TLS is used defaults to `443`, otherwise to `80`.
    pub port: Option<u16>,
    /// Root HTTP path of DataHub. Defaults to `/`.
    pub root_path: String,
    /// Use a TLS connection. If not specified then no TLS will be used.
    pub tls: TlsClientDetails,
    /// Name of a Secret containing a DataHub Personal Access Token that is authorized to read
    /// resource metadata. Must contain the field `token`.
    pub credentials_secret_name: String,
    /// The DataHub environment the resources live in.
    pub env: FabricType,
}

/// The contents of a [`DataHubBackend`].
#[verifier::ext_equal]
pub struct DataHubBackendView {
    pub hostname: Seq<char>,
    pub port: Option<u16>,
    pub root_path: Seq<char>,
    pub tls: TlsClientDetailsView,
    pub credentials_secret_name: Seq<char>,
    pub env: FabricType,
}

impl DeepView for DataHubBackend {
    type V = DataHubBackendView;

    open spec fn deep_view(&self) -> DataHubBackendView {
        DataHubBackendView {
            hostname: self.hostname.deep_view(),
            port: self.port.deep_view(),
            root_path: self.root_path.deep_view(),
            tls: self.tls.deep_view(),
            credentials_secret_name: self.credentials_secret_name.deep_view(),
            env: self.env.deep_view(),
        }
    }
}

impl Value for DataHubBackend {
    fn duplicate(&self) -> (copy: Self) {
        DataHubBackend {
            hostname: self.hostname.duplicate(),
            port: self.port.duplicate(),
            root_path: self.root_path.duplicate(),
            tls: self.tls.duplicate(),
            credentials_secret_name: self.credentials_secret_name.duplicate(),
            env: self.env.duplicate(),
        }
    }

    fn same_as(&self, other: &Self) -> (same: bool) {
        self.hostname.same_as(&other.hostname)
            && self.port.same_as(&other.port)
            && self.root_path.same_as(&other.root_path)
            && self.tls.same_as(&other.tls)
            && self.credentials_secret_name.same_as(&other.credentials_secret_name)
            && self.env.same_as(&other.env)
    }
}

/// The data catalog that resource information comes from.
#[derive(Clone, Debug, PartialEq, Eq)]
pub enum Backend {
    /// Backend that fetches resource information from DataHub.
    DataHub(DataHubBackend),
}

/// The contents of a [`Backend`].
#[verifier::ext_equal]
pub enum BackendView {
    DataHub(DataHubBackendView),
}

impl DeepView for Backend {
    type V = BackendView;

    open spec fn deep_view(&self) -> BackendView {
        match self {
            Backend::DataHub(inner) => BackendView::DataHub(inner.deep_view()),
        }
    }
}

impl Value for Backend {
    fn duplicate(&self) -> (copy: Self) {
        match self {
            Backend::DataHub(inner) => Backend::DataHub(inner.duplicate()),
        }
    }

    fn same_as(&self, other: &Self) -> (same: bool) {
        match (self, other) {
            (Backend::DataHub(left), Backend::DataHub(right)) => left.same_as(right),
        }
    }
}

/// The configuration of the resource-info-fetcher.
#[derive(Clone, Debug, PartialEq, Eq)]
pub struct Config {
    /// The backend to use.
    pub backend: Backend,
    /// Caching configuration.
    pub cache: Cache,
}

/// The contents of a [`Config`].
#[verifier::ext_equal]
pub struct ConfigView {
    pub backend: BackendView,
    pub cache: CacheView,
}

impl DeepView for Config {
    type V = ConfigView;

    open spec fn deep_view(&self) -> ConfigView {
        ConfigView {
            backend: self.backend.deep_view(),
            cache: self.cache.deep_view(),
        }
    }
}

impl Value for Config {
    fn duplicate(&self) -> (copy: Self) {
        Config {
            backend: self.backend.duplicate(),
            cache: self.cache.duplicate(),
        }
    }

    fn same_as(&self, other: &Self) -> (same: bool) {
        self.backend.same_as(&other.backend) && self.cache.same_as(&other.cache)
    }
}

/// What a backend needs in the Pod.
pub open spec fn backend_needs(backend: BackendView) -> BackendNeedsView {
    match backend {
        BackendView::DataHub(data_hub) => BackendNeedsView::Credentials(
            data_hub.credentials_secret_name,
        ),
    }
}

impl Backend {
    /// What the backend needs in the Pod.
    pub fn needs(&self) -> (needs: BackendNeeds)
        ensures
            needs.deep_view() == backend_needs(self.deep_view()),
    {
        match self {
            Backend::DataHub(data_hub) => BackendNeeds::Credentials(
                data_hub.credentials_secret_name.clone(),
            ),
        }
    }
}

/// The default root path of DataHub.
pub fn default_root_path() -> (path: String)
    ensures
        path@ == "/"@,
{
    "/".to_owned()
}

/// DataHub is asked with the credentials in the Secret that the backend names.
pub proof fn lemma_backend_needs(backend: BackendView)
    ensures
        backend is DataHub,
        backend_needs(backend) == BackendNeedsView::Credentials(
            backend->DataHub_0.credentials_secret_name,
        ),
{
}

/// Environments are named as DataHub names them.
pub proof fn lemma_fabric_names()
    ensures
        FabricType::Dev.spec_name() == "DEV"@,
        FabricType::Test.spec_name() == "TEST"@,
        FabricType::Qa.spec_name() == "QA"@,
        FabricType::Uat.spec_name() == "UAT"@,
        FabricType::Ei.spec_name() == "EI"@,
        FabricType::Pre.spec_name() == "PRE"@,
        FabricType::Stg.spec_name() == "STG"@,
        FabricType::NonProd.spec_name() == "NON_PROD"@,
        FabricType::Prod.spec_name() == "PROD"@,
        FabricType::Corp.spec_name() == "CORP"@,
        FabricType::Rvw.spec_name() == "RVW"@,
        FabricType::Prd.spec_name() == "PRD"@,
        FabricType::Tst.spec_name() == "TST"@,
        FabricType::Sit.spec_name() == "SIT"@,
        FabricType::Sbx.spec_name() == "SBX"@,
        FabricType::Sandbox.spec_name() == "SANDBOX"@,
        FabricType::Cert.spec_name() == "CERT"@,
{
}

} // verus!
