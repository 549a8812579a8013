//! Where the user-info-fetcher takes its information from.
use crate::duration::Duration;
use crate::info_fetcher_sidecar::{BackendNeeds, BackendNeedsView};
use crate::kubernetes::pod::{SecretClassVolumeScope, SecretClassVolumeScopeView};
use crate::text_map::StringMap;
use crate::tls::{Tls, TlsClientDetails, TlsClientDetailsView, TlsView};
use crate::value::Value;
use vstd::prelude::*;

verus! {

/// How responses are cached.
#[derive(Clone, Debug, PartialEq, Eq)]
pub struct Cache {
    /// How long metadata about each user should be cached for.
    pub entry_time_to_live: Duration,
}

/// The contents of a [`Cache`].
#[verifier::ext_equal]
pub struct CacheView {
    pub entry_time_to_live: Duration,
}

impl DeepView for Cache {
    type V = CacheView;

    open spec fn deep_view(&self) -> CacheView {
        CacheView {
            entry_time_to_live: self.entry_time_to_live.deep_view(),
        }
    }
}

impl Value for Cache {
    fn duplicate(&self) -> (copy: Self) {
        Cache {
            entry_time_to_live: self.entry_time_to_live.duplicate(),
        }
    }

    fn same_as(&self, other: &Self) -> (same: bool) {
        self.entry_time_to_live.same_as(&other.entry_time_to_live)
    }
}

/// How long metadata about each user is cached for by default, in seconds: one minute.
pub const DEFAULT_ENTRY_TIME_TO_LIVE: u64 = 60;

impl Cache {
    /// How long metadata about each user is cached for by default.
    pub fn default_entry_time_to_live() -> (duration: Duration)
        ensures
            duration == Duration::spec_from_secs(DEFAULT_ENTRY_TIME_TO_LIVE),
    {
        Duration::from_secs(DEFAULT_ENTRY_TIME_TO_LIVE)
    }
}

impl Default for Cache {
    fn default() -> (cache: Self)
        ensures
            cache.deep_view() == (CacheView {
                entry_time_to_live: Duration::spec_from_secs(DEFAULT_ENTRY_TIME_TO_LIVE),
            }),
    {
        Cache { entry_time_to_live: Cache::default_entry_time_to_live() }
    }
}

/// The connection to Keycloak.
#[derive(Clone, Debug, PartialEq, Eq)]
pub struct KeycloakBackend {
    /// Hostname of the identity provider, e.g. `my.keycloak.corp`.
    pub hostname: String,
    /// Port of the identity provider. If TLS is used defaults to `443`, otherwise to `80`.
    pub port: Option<u16>,
    /// Root HTTP path of the identity provider. Defaults to `/`.
    pub root_path: String,
    /// Use a TLS connection. If not specified no TLS will be used.
    pub tls: TlsClientDetails,
    /// Name of a Secret that contains client credentials of a Keycloak account with permission to
    /// read user metadata. Must contain the fields `clientId` and `clientSecret`.
    pub client_credentials_secret: String,
    /// The Keycloak realm that the Keycloak account of OPA exists in. Typically `master`.
    pub admin_realm: String,
    /// The Keycloak realm that user metadata should be resolved from.
    pub user_realm: String,
}

/// The contents of a [`KeycloakBackend`].
#[verifier::ext_equal]
pub struct KeycloakBackendView {
    pub hostname: Seq<char>,
    pub port: Option<u16>,
    pub root_path: Seq<char>,
    pub tls: TlsClientDetailsView,
    pub client_credentials_secret: Seq<char>,
    pub admin_realm: Seq<char>,
    pub user_realm: Seq<char>,
}

impl DeepView for KeycloakBackend {
    type V = KeycloakBackendView;

    open spec fn deep_view(&self) -> KeycloakBackendView {
        KeycloakBackendView {
            hostname: self.hostname.deep_view(),
            port: self.port.deep_view(),
            root_path: self.root_path.deep_view(),
            tls: self.tls.deep_view(),
            client_credentials_secret: self.client_credentials_secret.deep_view(),
            admin_realm: self.admin_realm.deep_view(),
            user_realm: self.user_realm.deep_view(),
        }
    }
}

impl Value for KeycloakBackend {
    fn duplicate(&self) -> (copy: Self) {
        KeycloakBackend {
            hostname: self.hostname.duplicate(),
            port: self.port.duplicate(),
            root_path: self.root_path.duplicate(),
            tls: self.tls.duplicate(),
            client_credentials_secret: self.client_credentials_secret.duplicate(),
            admin_realm: self.admin_realm.duplicate(),
            user_realm: self.user_realm.duplicate(),
        }
    }

    fn same_as(&self, other: &Self) -> (same: bool) {
        self.hostname.same_as(&other.hostname)
            && self.port.same_as(&other.port)
            && self.root_path.same_as(&other.root_path)
            && self.tls.same_as(&other.tls)
            && self.client_credentials_secret.same_as(&other.client_credentials_secret)
            && self.admin_realm.same_as(&other.admin_realm)
            && self.user_realm.same_as(&other.user_realm)
    }
}

/// The connection to the Gaia-X Authentication & Authorization Service.
#[derive(Clone, Debug, PartialEq, Eq)]
pub struct AasBackend {
    /// Hostname of the identity provider, e.g. `my.aas.corp`.
    pub hostname: String,
    /// Port of the identity provider. Defaults to port 5000.
    pub port: u16,
}

/// The contents of an [`AasBackend`].
#[verifier::ext_equal]
pub struct AasBackendView {
    pub hostname: Seq<char>,
    pub port: u16,
}

impl DeepView for AasBackend {
    type V = AasBackendView;

    open spec fn deep_view(&self) -> AasBackendView {
        AasBackendView {
            hostname: self.hostname.deep_view(),
            port: self.port.deep_view(),
        }
    }
}

impl Value for AasBackend {
    fn duplicate(&self) -> (copy: Self) {
        AasBackend {
            hostname: self.hostname.duplicate(),
            port: self.port.duplicate(),
        }
    }

    fn same_as(&self, other: &Self) -> (same: bool) {
        self.hostname.same_as(&other.hostname) && self.port.same_as(&other.port)
    }
}

/// The connection to Active Directory.
#[derive(Clone, Debug, PartialEq, Eq)]
pub struct ActiveDirectoryBackend {
    /// Hostname of the domain controller, e.g. `ad-ds-1.contoso.com`.
    pub ldap_server: String,
    /// The root Distinguished Name (DN) where users and groups are located.
    pub base_distinguished_name: String,
    /// The name of the Kerberos SecretClass.
    pub kerberos_secret_class_name: String,
    /// Use a TLS connection. If not specified then no TLS will be used.
    pub tls: TlsClientDetails,
    /// Custom attributes, and their LDAP attribute names.
    pub custom_attribute_mappings: StringMap,
    /// Attributes that groups must have to be returned.
    pub additional_group_attribute_filters: StringMap,
}

/// The contents of an [`ActiveDirectoryBackend`].
#[verifier::ext_equal]
pub struct ActiveDirectoryBackendView {
    pub ldap_server: Seq<char>,
    pub base_distinguished_name: Seq<char>,
    pub kerberos_secret_class_name: Seq<char>,
    pub tls: TlsClientDetailsView,
    pub custom_attribute_mappings: Map<Seq<char>, Seq<char>>,
    pub additional_group_attribute_filters: Map<Seq<char>, Seq<char>>,
}

impl DeepView for ActiveDirectoryBackend {
    type V = ActiveDirectoryBackendView;

    open spec fn deep_view(&self) -> ActiveDirectoryBackendView {
        ActiveDirectoryBackendView {
            ldap_server: self.ldap_server.deep_view(),
            base_distinguished_name: self.base_distinguished_name.deep_view(),
            kerberos_secret_class_name: self.kerberos_secret_class_name.deep_view(),
            tls: self.tls.deep_view(),
            custom_attribute_mappings: self.custom_attribute_mappings.deep_view(),
            additional_group_attribute_filters: self.additional_group_attribute_filters.deep_view(),
        }
    }
}

impl Value for ActiveDirectoryBackend {
    fn duplicate(&self) -> (copy: Self) {
        ActiveDirectoryBackend {
            ldap_server: self.ldap_server.duplicate(),
            base_distinguished_name: self.base_distinguished_name.duplicate(),
            kerberos_secret_class_name: self.kerberos_secret_class_name.duplicate(),
            tls: self.tls.duplicate(),
            custom_attribute_mappings: self.custom_attribute_mappings.duplicate(),
            additional_group_attribute_filters: self.additional_group_attribute_filters.duplicate(),
        }
    }

    fn same_as(&self, other: &Self) -> (same: bool) {
        self.ldap_server.same_as(&other.ldap_server)
            && self.base_distinguished_name.same_as(&other.base_distinguished_name)
            && self.kerberos_secret_class_name.same_as(&other.kerberos_secret_class_name)
            && self.tls.same_as(&other.tls)
            && self.custom_attribute_mappings.same_as(&other.custom_attribute_mappings)
            && self.additional_group_attribute_filters.same_as(&other.additional_group_attribute_filters)
    }
}

/// The connection to Microsoft Entra.
#[derive(Clone, Debug, PartialEq, Eq)]
pub struct EntraBackend {
    /// Hostname of the token provider, defaults to `login.microsoft.com`.
    pub token_hostname: String,
    /// Hostname of the user info provider, defaults to `graph.microsoft.com`.
    pub user_info_hostname: String,
    /// Port of the identity provider. If TLS is used defaults to `443`, otherwise to `80`.
    pub port: Option<u16>,
    /// The Microsoft Entra tenant ID.
    pub tenant_id: String,
    /// Use a TLS connection. Should usually be set to WebPki.
    pub tls: Option<Tls>,
    /// Name of a Secret that contains client credentials of an Entra account with permissions
    /// `User.ReadAll` and `GroupMemberShip.ReadAll`.
    pub client_credentials_secret: String,
}

/// The contents of an [`EntraBackend`].
#[verifier::ext_equal]
pub struct EntraBackendView {
    pub token_hostname: Seq<char>,
    pub user_info_hostname: Seq<char>,
    pub port: Option<u16>,
    pub tenant_id: Seq<char>,
    pub tls: Option<TlsView>,
    pub client_credentials_secret: Seq<char>,
}

impl DeepView for EntraBackend {
    type V = EntraBackendView;

    open spec fn deep_view(&self) -> EntraBackendView {
        EntraBackendView {
            token_hostname: self.token_hostname.deep_view(),
            user_info_hostname: self.user_info_hostname.deep_view(),
            port: self.port.deep_view(),
            tenant_id: self.tenant_id.deep_view(),
            tls: self.tls.deep_view(),
            client_credentials_secret: self.client_credentials_secret.deep_view(),
        }
    }
}

impl Value for EntraBackend {
    fn duplicate(&self) -> (copy: Self) {
        EntraBackend {
            token_hostname: self.token_hostname.duplicate(),
            user_info_hostname: self.user_info_hostname.duplicate(),
            port: self.port.duplicate(),
            tenant_id: self.tenant_id.duplicate(),
            tls: self.tls.duplicate(),
            client_credentials_secret: self.client_credentials_secret.duplicate(),
        }
    }

    fn same_as(&self, other: &Self) -> (same: bool) {
        self.token_hostname.same_as(&other.token_hostname)
            && self.user_info_hostname.same_as(&other.user_info_hostname)
            && self.port.same_as(&other.port)
            && self.tenant_id.same_as(&other.tenant_id)
            && self.tls.same_as(&other.tls)
            && self.client_credentials_secret.same_as(&other.client_credentials_secret)
    }
}

/// The SecretClass that holds bind credentials, and what they are issued for.
#[derive(Clone, Debug, PartialEq, Eq)]
pub struct BindCredentials {
    pub secret_class: String,
    pub scope: Option<SecretClassVolumeScope>,
}

/// The contents of a [`BindCredentials`].
#[verifier::ext_equal]
pub struct BindCredentialsView {
    pub secret_class: Seq<char>,
    pub scope: Option<SecretClassVolumeScopeView>,
}

impl DeepView for BindCredentials {
    type V = BindCredentialsView;

    open spec fn deep_view(&self) -> BindCredentialsView {
        BindCredentialsView {
            secret_class: self.secret_class.deep_view(),
            scope: self.scope.deep_view(),
        }
    }
}

impl Value for BindCredentials {
    fn duplicate(&self) -> (copy: Self) {
        BindCredentials {
            secret_class: self.secret_class.duplicate(),
            scope: self.scope.duplicate(),
        }
    }

    fn same_as(&self, other: &Self) -> (same: bool) {
        self.secret_class.same_as(&other.secret_class) && self.scope.same_as(&other.scope)
    }
}

/// The connection to OpenLDAP.
#[derive(Clone, Debug, PartialEq, Eq)]
pub struct OpenLdapBackend {
    /// Hostname of the LDAP server, e.g. `my.ldap.server`.
    pub hostname: String,
    /// Port of the LDAP server. If TLS is used defaults to `636`, otherwise to `389`.
    pub port: Option<u16>,
    /// LDAP search base, e.g. `ou=users,dc=example,dc=org`.
    pub search_base: String,
    /// Credentials for binding to the LDAP server.
    pub bind_credentials: BindCredentials,
    /// Use a TLS connection. If not specified no TLS will be used.
    pub tls: TlsClientDetails,
    /// LDAP attribute used for the unique identifier of a user. Defaults to `entryUUID`.
    pub user_id_attribute: String,
    /// LDAP attribute used for the username. Defaults to `uid`.
    pub user_name_attribute: String,
    /// LDAP search base for groups. If not specified, uses the main search base.
    pub groups_search_base: Option<String>,
    /// LDAP attribute on group objects that contains member references. Defaults to `member`.
    pub group_member_attribute: String,
    /// Custom attributes, and their LDAP attribute names.
    pub custom_attribute_mappings: StringMap,
}

/// The contents of an [`OpenLdapBackend`].
#[verifier::ext_equal]
pub struct OpenLdapBackendView {
    pub hostname: Seq<char>,
    pub port: Option<u16>,
    pub search_base: Seq<char>,
    pub bind_credentials: BindCredentialsView,
    pub tls: TlsClientDetailsView,
    pub user_id_attribute: Seq<char>,
    pub user_name_attribute: Seq<char>,
    pub groups_search_base: Option<Seq<char>>,
    pub group_member_attribute: Seq<char>,
    pub custom_attribute_mappings: Map<Seq<char>, Seq<char>>,
}

impl DeepView for OpenLdapBackend {
    type V = OpenLdapBackendView;

    open spec fn deep_view(&self) -> OpenLdapBackendView {
        OpenLdapBackendView {
            hostname: self.hostname.deep_view(),
            port: self.port.deep_view(),
            search_base: self.search_base.deep_view(),
            bind_credentials: self.bind_credentials.deep_view(),
            tls: self.tls.deep_view(),
            user_id_attribute: self.user_id_attribute.deep_view(),
            user_name_attribute: self.user_name_attribute.deep_view(),
            groups_search_base: self.groups_search_base.deep_view(),
            group_member_attribute: self.group_member_attribute.deep_view(),
            custom_attribute_mappings: self.custom_attribute_mappings.deep_view(),
        }
    }
}

impl Value for OpenLdapBackend {
    fn duplicate(&self) -> (copy: Self) {
        OpenLdapBackend {
            hostname: self.hostname.duplicate(),
            port: self.port.duplicate(),
            search_base: self.search_base.duplicate(),
            bind_credentials: self.bind_credentials.duplicate(),
            tls: self.tls.duplicate(),
            user_id_attribute: self.user_id_attribute.duplicate(),
            user_name_attribute: self.user_name_attribute.duplicate(),
            groups_search_base: self.groups_search_base.duplicate(),
            group_member_attribute: self.group_member_attribute.duplicate(),
            custom_attribute_mappings: self.custom_attribute_mappings.duplicate(),
        }
    }

    fn same_as(&self, other: &Self) -> (same: bool) {
        self.hostname.same_as(&other.hostname)
            && self.port.same_as(&other.port)
            && self.search_base.same_as(&other.search_base)
            && self.bind_credentials.same_as(&other.bind_credentials)
            && self.tls.same_as(&other.tls)
            && self.user_id_attribute.same_as(&other.user_id_attribute)
            && self.user_name_attribute.same_as(&other.user_name_attribute)
            && self.groups_search_base.same_as(&other.groups_search_base)
            && self.group_member_attribute.same_as(&other.group_member_attribute)
            && self.custom_attribute_mappings.same_as(&other.custom_attribute_mappings)
    }
}

/// The connection to an LDAP server.
#[derive(Clone, Debug, PartialEq, Eq)]
pub struct LdapProvider {
    pub hostname: String,
    pub port: Option<u16>,
    pub search_base: String,
    pub search_filter: String,
    pub bind_credentials: Option<BindCredentials>,
    pub tls: TlsClientDetails,
}

/// The contents of a [`LdapProvider`].
#[verifier::ext_equal]
pub struct LdapProviderView {
    pub hostname: Seq<char>,
    pub port: Option<u16>,
    pub search_base: Seq<char>,
    pub search_filter: Seq<char>,
    pub bind_credentials: Option<BindCredentialsView>,
    pub tls: TlsClientDetailsView,
}

impl DeepView for LdapProvider {
    type V = LdapProviderView;

    open spec fn deep_view(&self) -> LdapProviderView {
        LdapProviderView {
            hostname: self.hostname.deep_view(),
            port: self.port.deep_view(),
            search_base: self.search_base.deep_view(),
            search_filter: self.search_filter.deep_view(),
            bind_credentials: self.bind_credentials.deep_view(),
            tls: self.tls.deep_view(),
        }
    }
}

impl Value for LdapProvider {
    fn duplicate(&self) -> (copy: Self) {
        LdapProvider {
            hostname: self.hostname.duplicate(),
            port: self.port.duplicate(),
            search_base: self.search_base.duplicate(),
            search_filter: self.search_filter.duplicate(),
            bind_credentials: self.bind_credentials.duplicate(),
            tls: self.tls.duplicate(),
        }
    }

    fn same_as(&self, other: &Self) -> (same: bool) {
        self.hostname.same_as(&other.hostname)
            && self.port.same_as(&other.port)
            && self.search_base.same_as(&other.search_base)
            && self.search_filter.same_as(&other.search_filter)
            && self.bind_credentials.same_as(&other.bind_credentials)
            && self.tls.same_as(&other.tls)
    }
}

/// The directory service that user information comes from.
#[derive(Clone, Debug, PartialEq, Eq)]
pub enum Backend {
    /// Dummy backend that adds no extra user information.
    NoBackend,
    /// Backend that fetches user information from Keycloak.
    Keycloak(KeycloakBackend),
    /// Backend that fetches user information from the Gaia-X Authentication & Authorization Service.
    ExperimentalXfscAas(AasBackend),
    /// Backend that fetches user information from Active Directory.
    ActiveDirectory(ActiveDirectoryBackend),
    /// Backend that fetches user information from Microsoft Entra.
    Entra(EntraBackend),
    /// Backend that fetches user information from OpenLDAP.
    OpenLdap(OpenLdapBackend),
}

/// The contents of a [`Backend`].
#[verifier::ext_equal]
pub enum BackendView {
    NoBackend,
    Keycloak(KeycloakBackendView),
    ExperimentalXfscAas(AasBackendView),
    ActiveDirectory(ActiveDirectoryBackendView),
    Entra(EntraBackendView),
    OpenLdap(OpenLdapBackendView),
}

impl DeepView for Backend {
    type V = BackendView;

    open spec fn deep_view(&self) -> BackendView {
        match self {
            Backend::NoBackend => BackendView::NoBackend,
            Backend::Keycloak(inner) => BackendView::Keycloak(inner.deep_view()),
            Backend::ExperimentalXfscAas(inner) => {
                BackendView::ExperimentalXfscAas(inner.deep_view())
            },
            Backend::ActiveDirectory(inner) => BackendView::ActiveDirectory(inner.deep_view()),
            Backend::Entra(inner) => BackendView::Entra(inner.deep_view()),
            Backend::OpenLdap(inner) => BackendView::OpenLdap(inner.deep_view()),
        }
    }
}

impl Value for Backend {
    fn duplicate(&self) -> (copy: Self) {
        match self {
            Backend::NoBackend => Backend::NoBackend,
            Backend::Keycloak(inner) => Backend::Keycloak(inner.duplicate()),
            Backend::ExperimentalXfscAas(inner) => Backend::ExperimentalXfscAas(inner.duplicate()),
            Backend::ActiveDirectory(inner) => Backend::ActiveDirectory(inner.duplicate()),
            Backend::Entra(inner) => Backend::Entra(inner.duplicate()),
            Backend::OpenLdap(inner) => Backend::OpenLdap(inner.duplicate()),
        }
    }

    fn same_as(&self, other: &Self) -> (same: bool) {
        match (self, other) {
            (Backend::NoBackend, Backend::NoBackend) => true,
            (Backend::Keycloak(left), Backend::Keycloak(right)) => left.same_as(right),
            (Backend::ExperimentalXfscAas(left), Backend::ExperimentalXfscAas(right)) => {
                left.same_as(right)
            },
            (Backend::ActiveDirectory(left), Backend::ActiveDirectory(right)) => {
                left.same_as(right)
            },
            (Backend::Entra(left), Backend::Entra(right)) => left.same_as(right),
            (Backend::OpenLdap(left), Backend::OpenLdap(right)) => left.same_as(right),
            _ => false,
        }
    }
}

impl Default for Backend {
    fn default() -> (backend: Self)
        ensures
            backend.deep_view() == BackendView::NoBackend,
    {
        Backend::NoBackend
    }
}

/// The configuration of the user-info-fetcher.
#[derive(Clone, Debug, PartialEq, Eq)]
pub struct Config {
    /// The backend directory service to use.
    pub backend: Backend,
    /// Caching configuration.
    pub cache: Cache,
}

/// The contents of a [`Config`].
#[verifier::ext_equal]
pub struct ConfigView {
    pub backend: BackendView,
    pub cache: CacheView,
}

impl DeepView for Config {
    type V = ConfigView;

    open spec fn deep_view(&self) -> ConfigView {
        ConfigView {
            backend: self.backend.deep_view(),
            cache: self.cache.deep_view(),
        }
    }
}

impl Value for Config {
    fn duplicate(&self) -> (copy: Self) {
        Config {
            backend: self.backend.duplicate(),
            cache: self.cache.duplicate(),
        }
    }

    fn same_as(&self, other: &Self) -> (same: bool) {
        self.backend.same_as(&other.backend) && self.cache.same_as(&other.cache)
    }
}

impl Default for Config {
    fn default() -> (config: Self)
        ensures
            config.deep_view() == (ConfigView {
                backend: BackendView::NoBackend,
                cache: CacheView {
                    entry_time_to_live: Duration::spec_from_secs(DEFAULT_ENTRY_TIME_TO_LIVE),
                },
            }),
    {
        Config { backend: Backend::default(), cache: Cache::default() }
    }
}

/// The LDAP connection of an OpenLDAP backend: its own settings, and no search filter.
pub open spec fn ldap_provider(backend: OpenLdapBackendView) -> LdapProviderView {
    LdapProviderView {
        hostname: backend.hostname,
        port: backend.port,
        search_base: backend.search_base,
        search_filter: Seq::empty(),
        bind_credentials: Some(backend.bind_credentials),
        tls: backend.tls,
    }
}

impl OpenLdapBackend {
    /// The LDAP connection by which the user-info-fetcher reaches the OpenLDAP server.
    pub fn to_ldap_provider(&self) -> (provider: LdapProvider)
        ensures
            provider.deep_view() == ldap_provider(self.deep_view()),
    {
        let search_filter = String::new();
        assert(search_filter@ =~= Seq::<char>::empty());
        LdapProvider {
            hostname: self.hostname.clone(),
            port: self.port,
            search_base: self.search_base.clone(),
            search_filter,
            bind_credentials: Some(self.bind_credentials.duplicate()),
            tls: self.tls.duplicate(),
        }
    }
}

/// What a backend needs in the Pod.
pub open spec fn backend_needs(backend: BackendView) -> BackendNeedsView {
    match backend {
        BackendView::NoBackend => BackendNeedsView::Nothing,
        BackendView::ExperimentalXfscAas(_) => BackendNeedsView::Nothing,
        BackendView::ActiveDirectory(ad) => {
            BackendNeedsView::Kerberos(ad.kerberos_secret_class_name)
        },
        BackendView::Keycloak(keycloak) => BackendNeedsView::Credentials(
            keycloak.client_credentials_secret,
        ),
        BackendView::Entra(entra) => BackendNeedsView::Credentials(entra.client_credentials_secret),
        BackendView::OpenLdap(_) => BackendNeedsView::Ldap,
    }
}

impl Backend {
    /// What the backend needs in the Pod.
    pub fn needs(&self) -> (needs: BackendNeeds)
        ensures
            needs.deep_view() == backend_needs(self.deep_view()),
    {
        match self {
            Backend::NoBackend => BackendNeeds::Nothing,
            Backend::ExperimentalXfscAas(_) => BackendNeeds::Nothing,
            Backend::ActiveDirectory(ad) => BackendNeeds::Kerberos(
                ad.kerberos_secret_class_name.clone(),
            ),
            Backend::Keycloak(keycloak) => BackendNeeds::Credentials(
                keycloak.client_credentials_secret.clone(),
            ),
            Backend::Entra(entra) => BackendNeeds::Credentials(
                entra.client_credentials_secret.clone(),
            ),
            Backend::OpenLdap(_) => BackendNeeds::Ldap,
        }
    }
}

/// The default root path of a service.
pub fn default_root_path() -> (value: String)
    ensures
        value@ == "/"@,
{
    "/".to_owned()
}

/// The default port of the Gaia-X Authentication & Authorization Service.
pub fn aas_default_port() -> (port: u16)
    ensures
        port == 5000,
{
    5000
}

/// The default hostname of the Entra token provider.
pub fn entra_default_token_hostname() -> (value: String)
    ensures
        value@ == "login.microsoft.com"@,
{
    "login.microsoft.com".to_owned()
}

/// The default hostname of the Entra user info provider.
pub fn entra_default_user_info_hostname() -> (value: String)
    ensures
        value@ == "graph.microsoft.com"@,
{
    "graph.microsoft.com".to_owned()
}

/// The default LDAP attribute for the unique identifier of a user.
pub fn openldap_default_user_id_attribute() -> (value: String)
    ensures
        value@ == "entryUUID"@,
{
    "entryUUID".to_owned()
}

/// The default LDAP attribute for the username.
pub fn openldap_default_user_name_attribute() -> (value: String)
    ensures
        value@ == "uid"@,
{
    "uid".to_owned()
}

/// The default LDAP attribute for the members of a group.
pub fn openldap_default_group_member_attribute() -> (value: String)
    ensures
        value@ == "member"@,
{
    "member".to_owned()
}

/// Active Directory is asked with a keytab, Keycloak and Entra with the credentials in a Secret, and
/// OpenLDAP with what its own connection asks for. The other backends need nothing.
pub proof fn lemma_backend_needs(backend: BackendView)
    ensures
        backend is ActiveDirectory ==> backend_needs(backend) == BackendNeedsView::Kerberos(
            backend->ActiveDirectory_0.kerberos_secret_class_name,
        ),
        backend is Keycloak ==> backend_needs(backend) == BackendNeedsView::Credentials(
            backend->Keycloak_0.client_credentials_secret,
        ),
        backend is Entra ==> backend_needs(backend) == BackendNeedsView::Credentials(
            backend->Entra_0.client_credentials_secret,
        ),
        backend_needs(backend) is Ldap <==> backend is OpenLdap,
        backend_needs(backend) is Nothing <==> backend is NoBackend || backend
            is ExperimentalXfscAas,
{
}

/// The LDAP connection of an OpenLDAP backend is the one that the backend describes, without a filter.
pub proof fn lemma_ldap_provider(backend: OpenLdapBackendView)
    ensures
        ldap_provider(backend).hostname == backend.hostname,
        ldap_provider(backend).port == backend.port,
        ldap_provider(backend).search_base == backend.search_base,
        ldap_provider(backend).search_filter.len() == 0,
        ldap_provider(backend).bind_credentials == Some(backend.bind_credentials),
        ldap_provider(backend).tls == backend.tls,
{
}

} // verus!
