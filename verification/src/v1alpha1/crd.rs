//! The `OpaCluster` resource.
use crate::config::{
    default_fragment, default_layer, empty_affinity, hierarchy, no_affinity, OpaConfigFragment,
    OpaConfigFragmentView, Resources, ResourcesView,
};
use crate::duration::Duration;
use crate::kubernetes::meta::{ObjectMeta, ObjectMetaView};
use crate::kubernetes::pod::{StackableAffinity, StackableAffinityView};
use crate::logging::{
    automatic_choice, borrowed_log, AutomaticContainerLogConfig, AutomaticContainerLogConfigView,
    ContainerLogConfig, ContainerLogConfigView,
};
use crate::names::{
    headless_service_name, metrics_service_name, name_of_headless_service, name_of_metrics_service,
    name_of_role_group, role_group_name,
};
use crate::text::equal;
use crate::text_map::{StringMap, TextMap};
use crate::user_info_fetcher;
use crate::value::{no_items, Value};
use vstd::prelude::*;

verus! {

/// Which type of Service exposes a cluster.
#[derive(Clone, Copy, Debug, PartialEq, Eq, Structural)]
pub enum CurrentlySupportedListenerClasses {
    /// Use a ClusterIP service.
    ClusterInternal,
    /// Use a NodePort service.
    ExternalUnstable,
    /// Use a LoadBalancer service.
    ExternalStable,
}

impl DeepView for CurrentlySupportedListenerClasses {
    type V = CurrentlySupportedListenerClasses;

    open spec fn deep_view(&self) -> CurrentlySupportedListenerClasses {
        *self
    }
}

impl Value for CurrentlySupportedListenerClasses {
    fn duplicate(&self) -> (copy: Self) {
        *self
    }

    fn same_as(&self, other: &Self) -> (same: bool) {
        *self == *other
    }
}

impl Default for CurrentlySupportedListenerClasses {
    fn default() -> (value: Self)
        ensures
            value == CurrentlySupportedListenerClasses::ClusterInternal,
    {
        CurrentlySupportedListenerClasses::ClusterInternal
    }
}

impl CurrentlySupportedListenerClasses {
    /// The Kubernetes type of the Service.
    pub open spec fn spec_k8s_service_type(self) -> Seq<char> {
        match self {
            CurrentlySupportedListenerClasses::ClusterInternal => "ClusterIP"@,
            CurrentlySupportedListenerClasses::ExternalUnstable => "NodePort"@,
            CurrentlySupportedListenerClasses::ExternalStable => "LoadBalancer"@,
        }
    }

    /// The Kubernetes type of the Service.
    pub fn k8s_service_type(&self) -> (text: String)
        ensures
            text@ == self.spec_k8s_service_type(),
    {
        match self {
            CurrentlySupportedListenerClasses::ClusterInternal => "ClusterIP".to_owned(),
            CurrentlySupportedListenerClasses::ExternalUnstable => "NodePort".to_owned(),
            CurrentlySupportedListenerClasses::ExternalStable => "LoadBalancer".to_owned(),
        }
    }
}

/// The containers of an OPA Pod.
#[derive(Clone, Copy, Debug, PartialEq, Eq, Structural)]
pub enum Container {
    /// Creates the directories that the other containers use.
    Prepare,
    /// Collects logs.
    Vector,
    /// Builds the bundles that OPA loads.
    BundleBuilder,
    /// OPA itself.
    Opa,
    /// Fetches information about users.
    UserInfoFetcher,
}

impl DeepView for Container {
    type V = Container;

    open spec fn deep_view(&self) -> Container {
        *self
    }
}

impl Value for Container {
    fn duplicate(&self) -> (copy: Self) {
        *self
    }

    fn same_as(&self, other: &Self) -> (same: bool) {
        *self == *other
    }
}

impl Container {
    /// The name of the container in the Pod.
    pub open spec fn spec_name(self) -> Seq<char> {
        match self {
            Container::Prepare => "prepare"@,
            Container::Vector => "vector"@,
            Container::BundleBuilder => "bundle-builder"@,
            Container::Opa => "opa"@,
            Container::UserInfoFetcher => "user-info-fetcher"@,
        }
    }

    /// The name of the container in the Pod.
    pub fn name(&self) -> (text: String)
        ensures
            text@ == self.spec_name(),
    {
        match self {
            Container::Prepare => "prepare".to_owned(),
            Container::Vector => "vector".to_owned(),
            Container::BundleBuilder => "bundle-builder".to_owned(),
            Container::Opa => "opa".to_owned(),
            Container::UserInfoFetcher => "user-info-fetcher".to_owned(),
        }
    }
}

/// The roles of an OPA cluster.
#[derive(Clone, Copy, Debug, PartialEq, Eq, Structural)]
pub enum OpaRole {
    /// OPA servers.
    Server,
}

impl DeepView for OpaRole {
    type V = OpaRole;

    open spec fn deep_view(&self) -> OpaRole {
        *self
    }
}

impl Value for OpaRole {
    fn duplicate(&self) -> (copy: Self) {
        *self
    }

    fn same_as(&self, other: &Self) -> (same: bool) {
        *self == *other
    }
}

impl OpaRole {
    /// The name of the role.
    pub open spec fn spec_name(self) -> Seq<char> {
        match self {
            OpaRole::Server => "server"@,
        }
    }

    /// The name of the role.
    pub fn name(&self) -> (text: String)
        ensures
            text@ == self.spec_name(),
    {
        match self {
            OpaRole::Server => "server".to_owned(),
        }
    }
}

/// Logging of a role group.
#[derive(Clone, Debug, PartialEq, Eq)]
pub struct Logging {
    /// Whether logs are collected by a Vector agent in the Pod.
    pub enable_vector_agent: bool,
    /// The logging of each container, by its name.
    pub containers: TextMap<ContainerLogConfig>,
}

/// The contents of a [`Logging`].
#[verifier::ext_equal]
pub struct LoggingView {
    pub enable_vector_agent: bool,
    pub containers: Map<Seq<char>, ContainerLogConfigView>,
}

impl DeepView for Logging {
    type V = LoggingView;

    open spec fn deep_view(&self) -> LoggingView {
        LoggingView {
            enable_vector_agent: self.enable_vector_agent.deep_view(),
            containers: self.containers.deep_view(),
        }
    }
}

impl Value for Logging {
    fn duplicate(&self) -> (copy: Self) {
        Logging {
            enable_vector_agent: self.enable_vector_agent.duplicate(),
            containers: self.containers.duplicate(),
        }
    }

    fn same_as(&self, other: &Self) -> (same: bool) {
        self.enable_vector_agent.same_as(&other.enable_vector_agent)
            && self.containers.same_as(&other.containers)
    }
}

/// The log configuration of a container, where the operator writes it.
pub open spec fn container_log(
    logging: LoggingView,
    container: Container,
) -> Option<AutomaticContainerLogConfigView> {
    if logging.containers.contains_key(container.spec_name()) {
        automatic_choice(Some(logging.containers[container.spec_name()]))
    } else {
        None
    }
}

impl Logging {
    /// The log configuration of a container, where the operator writes it.
    pub fn automatic(&self, container: Container) -> (config: Option<&AutomaticContainerLogConfig>)
        ensures
            borrowed_log(config) == container_log(self.deep_view(), container),
    {
        match self.containers.get(container.name().as_str()) {
            Some(config) => config.automatic(),
            None => None,
        }
    }
}

/// The configuration of a role group.
#[derive(Clone, Debug, PartialEq, Eq)]
pub struct OpaConfig {
    pub resources: Resources,
    pub logging: Logging,
    pub affinity: StackableAffinity,
    /// Time period Pods have to gracefully shut down.
    pub graceful_shutdown_timeout: Option<Duration>,
}

/// The contents of an [`OpaConfig`].
#[verifier::ext_equal]
pub struct OpaConfigView {
    pub resources: ResourcesView,
    pub logging: LoggingView,
    pub affinity: StackableAffinityView,
    pub graceful_shutdown_timeout: Option<Duration>,
}

impl DeepView for OpaConfig {
    type V = OpaConfigView;

    open spec fn deep_view(&self) -> OpaConfigView {
        OpaConfigView {
            resources: self.resources.deep_view(),
            logging: self.logging.deep_view(),
            affinity: self.affinity.deep_view(),
            graceful_shutdown_timeout: self.graceful_shutdown_timeout.deep_view(),
        }
    }
}

impl Value for OpaConfig {
    fn duplicate(&self) -> (copy: Self) {
        OpaConfig {
            resources: self.resources.duplicate(),
            logging: self.logging.duplicate(),
            affinity: self.affinity.duplicate(),
            graceful_shutdown_timeout: self.graceful_shutdown_timeout.duplicate(),
        }
    }

    fn same_as(&self, other: &Self) -> (same: bool) {
        self.resources.same_as(&other.resources)
            && self.logging.same_as(&other.logging)
            && self.affinity.same_as(&other.affinity)
            && self.graceful_shutdown_timeout.same_as(&other.graceful_shutdown_timeout)
    }
}

/// A group of servers with the same configuration.
#[derive(Clone, Debug, PartialEq, Eq)]
pub struct RoleGroup {
    pub config: OpaConfigFragment,
    pub replicas: Option<u16>,
}

/// The contents of a [`RoleGroup`].
#[verifier::ext_equal]
pub struct RoleGroupView {
    pub config: OpaConfigFragmentView,
    pub replicas: Option<u16>,
}

impl DeepView for RoleGroup {
    type V = RoleGroupView;

    open spec fn deep_view(&self) -> RoleGroupView {
        RoleGroupView {
            config: self.config.deep_view(),
            replicas: self.replicas.deep_view(),
        }
    }
}

impl Value for RoleGroup {
    fn duplicate(&self) -> (copy: Self) {
        RoleGroup {
            config: self.config.duplicate(),
            replicas: self.replicas.duplicate(),
        }
    }

    fn same_as(&self, other: &Self) -> (same: bool) {
        self.config.same_as(&other.config) && self.replicas.same_as(&other.replicas)
    }
}

/// The servers of a cluster.
#[derive(Clone, Debug, PartialEq, Eq)]
pub struct Role {
    pub config: OpaConfigFragment,
    pub role_groups: TextMap<RoleGroup>,
}

/// The contents of a [`Role`].
#[verifier::ext_equal]
pub struct RoleView {
    pub config: OpaConfigFragmentView,
    pub role_groups: Map<Seq<char>, RoleGroupView>,
}

impl DeepView for Role {
    type V = RoleView;

    open spec fn deep_view(&self) -> RoleView {
        RoleView {
            config: self.config.deep_view(),
            role_groups: self.role_groups.deep_view(),
        }
    }
}

impl Value for Role {
    fn duplicate(&self) -> (copy: Self) {
        Role {
            config: self.config.duplicate(),
            role_groups: self.role_groups.duplicate(),
        }
    }

    fn same_as(&self, other: &Self) -> (same: bool) {
        self.config.same_as(&other.config) && self.role_groups.same_as(&other.role_groups)
    }
}

/// A reference to a role group of a cluster.
#[derive(Clone, Debug, PartialEq, Eq)]
pub struct RoleGroupRef {
    /// The name of the cluster.
    pub cluster: String,
    pub role: String,
    pub role_group: String,
}

/// The contents of a [`RoleGroupRef`].
#[verifier::ext_equal]
pub struct RoleGroupRefView {
    pub cluster: Seq<char>,
    pub role: Seq<char>,
    pub role_group: Seq<char>,
}

impl DeepView for RoleGroupRef {
    type V = RoleGroupRefView;

    open spec fn deep_view(&self) -> RoleGroupRefView {
        RoleGroupRefView {
            cluster: self.cluster.deep_view(),
            role: self.role.deep_view(),
            role_group: self.role_group.deep_view(),
        }
    }
}

impl Value for RoleGroupRef {
    fn duplicate(&self) -> (copy: Self) {
        RoleGroupRef {
            cluster: self.cluster.duplicate(),
            role: self.role.duplicate(),
            role_group: self.role_group.duplicate(),
        }
    }

    fn same_as(&self, other: &Self) -> (same: bool) {
        self.cluster.same_as(&other.cluster)
            && self.role.same_as(&other.role)
            && self.role_group.same_as(&other.role_group)
    }
}

impl RoleGroupRef {
    /// The name of the role group's objects.
    pub fn object_name(&self) -> (name: String)
        ensures
            name@ == role_group_name(self.cluster@, self.role@, self.role_group@),
    {
        name_of_role_group(self.cluster.as_str(), self.role.as_str(), self.role_group.as_str())
    }

    /// The name of the role group's headless Service.
    pub fn rolegroup_headless_service_name(&self) -> (name: String)
        ensures
            name@ == headless_service_name(self.cluster@, self.role@, self.role_group@),
    {
        name_of_headless_service(
            self.cluster.as_str(),
            self.role.as_str(),
            self.role_group.as_str(),
        )
    }

    /// The name of the role group's metrics Service.
    pub fn rolegroup_metrics_service_name(&self) -> (name: String)
        ensures
            name@ == metrics_service_name(self.cluster@, self.role@, self.role_group@),
    {
        name_of_metrics_service(self.cluster.as_str(), self.role.as_str(), self.role_group.as_str())
    }
}

/// Settings that apply to all roles and role groups.
#[derive(Clone, Debug, PartialEq, Eq)]
pub struct OpaClusterConfig {
    /// Name of the Vector aggregator discovery ConfigMap.
    pub vector_aggregator_config_map_name: Option<String>,
    /// Which type of Service the operator creates.
    pub listener_class: CurrentlySupportedListenerClasses,
    /// How to fetch additional metadata about users.
    pub user_info: Option<user_info_fetcher::Config>,
}

/// The contents of an [`OpaClusterConfig`].
#[verifier::ext_equal]
pub struct OpaClusterConfigView {
    pub vector_aggregator_config_map_name: Option<Seq<char>>,
    pub listener_class: CurrentlySupportedListenerClasses,
    pub user_info: Option<user_info_fetcher::ConfigView>,
}

impl DeepView for OpaClusterConfig {
    type V = OpaClusterConfigView;

    open spec fn deep_view(&self) -> OpaClusterConfigView {
        OpaClusterConfigView {
            vector_aggregator_config_map_name: self.vector_aggregator_config_map_name.deep_view(),
            listener_class: self.listener_class.deep_view(),
            user_info: self.user_info.deep_view(),
        }
    }
}

impl Value for OpaClusterConfig {
    fn duplicate(&self) -> (copy: Self) {
        OpaClusterConfig {
            vector_aggregator_config_map_name: self.vector_aggregator_config_map_name.duplicate(),
            listener_class: self.listener_class.duplicate(),
            user_info: self.user_info.duplicate(),
        }
    }

    fn same_as(&self, other: &Self) -> (same: bool) {
        self.vector_aggregator_config_map_name.same_as(&other.vector_aggregator_config_map_name)
            && self.listener_class.same_as(&other.listener_class)
            && self.user_info.same_as(&other.user_info)
    }
}

/// What a cluster is made of.
#[derive(Clone, Debug, PartialEq, Eq)]
pub struct OpaSpec {
    pub cluster_config: OpaClusterConfig,
    pub servers: Role,
}

/// The contents of an [`OpaSpec`].
#[verifier::ext_equal]
pub struct OpaSpecView {
    pub cluster_config: OpaClusterConfigView,
    pub servers: RoleView,
}

impl DeepView for OpaSpec {
    type V = OpaSpecView;

    open spec fn deep_view(&self) -> OpaSpecView {
        OpaSpecView {
            cluster_config: self.cluster_config.deep_view(),
            servers: self.servers.deep_view(),
        }
    }
}

impl Value for OpaSpec {
    fn duplicate(&self) -> (copy: Self) {
        OpaSpec {
            cluster_config: self.cluster_config.duplicate(),
            servers: self.servers.duplicate(),
        }
    }

    fn same_as(&self, other: &Self) -> (same: bool) {
        self.cluster_config.same_as(&other.cluster_config) && self.servers.same_as(&other.servers)
    }
}

/// One aspect of the state of a cluster.
#[derive(Clone, Debug, PartialEq, Eq)]
pub struct ClusterCondition {
    pub type_: String,
    pub status: String,
    pub reason: Option<String>,
    pub message: Option<String>,
    pub last_transition_time: Option<String>,
    pub last_update_time: Option<String>,
}

/// The contents of a [`ClusterCondition`].
#[verifier::ext_equal]
pub struct ClusterConditionView {
    pub type_: Seq<char>,
    pub status: Seq<char>,
    pub reason: Option<Seq<char>>,
    pub message: Option<Seq<char>>,
    pub last_transition_time: Option<Seq<char>>,
    pub last_update_time: Option<Seq<char>>,
}

impl DeepView for ClusterCondition {
    type V = ClusterConditionView;

    open spec fn deep_view(&self) -> ClusterConditionView {
        ClusterConditionView {
            type_: self.type_.deep_view(),
            status: self.status.deep_view(),
            reason: self.reason.deep_view(),
            message: self.message.deep_view(),
            last_transition_time: self.last_transition_time.deep_view(),
            last_update_time: self.last_update_time.deep_view(),
        }
    }
}

impl Value for ClusterCondition {
    fn duplicate(&self) -> (copy: Self) {
        ClusterCondition {
            type_: self.type_.duplicate(),
            status: self.status.duplicate(),
            reason: self.reason.duplicate(),
            message: self.message.duplicate(),
            last_transition_time: self.last_transition_time.duplicate(),
            last_update_time: self.last_update_time.duplicate(),
        }
    }

    fn same_as(&self, other: &Self) -> (same: bool) {
        self.type_.same_as(&other.type_)
            && self.status.same_as(&other.status)
            && self.reason.same_as(&other.reason)
            && self.message.same_as(&other.message)
            && self.last_transition_time.same_as(&other.last_transition_time)
            && self.last_update_time.same_as(&other.last_update_time)
    }
}

/// The state of a cluster.
#[derive(Clone, Debug, PartialEq, Eq)]
pub struct OpaClusterStatus {
    pub conditions: Vec<ClusterCondition>,
}

/// The contents of an [`OpaClusterStatus`].
#[verifier::ext_equal]
pub struct OpaClusterStatusView {
    pub conditions: Seq<ClusterConditionView>,
}

impl DeepView for OpaClusterStatus {
    type V = OpaClusterStatusView;

    open spec fn deep_view(&self) -> OpaClusterStatusView {
        OpaClusterStatusView {
            conditions: self.conditions.deep_view(),
        }
    }
}

impl Value for OpaClusterStatus {
    fn duplicate(&self) -> (copy: Self) {
        OpaClusterStatus {
            conditions: self.conditions.duplicate(),
        }
    }

    fn same_as(&self, other: &Self) -> (same: bool) {
        self.conditions.same_as(&other.conditions)
    }
}

/// An Open Policy Agent cluster.
#[derive(Clone, Debug, PartialEq, Eq)]
pub struct OpaCluster {
    pub metadata: ObjectMeta,
    pub spec: OpaSpec,
    pub status: Option<OpaClusterStatus>,
}

/// The contents of an [`OpaCluster`].
#[verifier::ext_equal]
pub struct OpaClusterView {
    pub metadata: ObjectMetaView,
    pub spec: OpaSpecView,
    pub status: Option<OpaClusterStatusView>,
}

impl DeepView for OpaCluster {
    type V = OpaClusterView;

    open spec fn deep_view(&self) -> OpaClusterView {
        OpaClusterView {
            metadata: self.metadata.deep_view(),
            spec: self.spec.deep_view(),
            status: self.status.deep_view(),
        }
    }
}

impl Value for OpaCluster {
    fn duplicate(&self) -> (copy: Self) {
        OpaCluster {
            metadata: self.metadata.duplicate(),
            spec: self.spec.duplicate(),
            status: self.status.duplicate(),
        }
    }

    fn same_as(&self, other: &Self) -> (same: bool) {
        self.metadata.same_as(&other.metadata)
            && self.spec.same_as(&other.spec)
            && self.status.same_as(&other.status)
    }
}

/// Why the configuration of a role group could not be determined.
#[derive(Clone, Debug, PartialEq, Eq)]
pub enum Error {
    /// The role group is not defined.
    CannotRetrieveOpaRoleGroup(String),
    /// The role is unknown.
    UnknownOpaRole(String),
    /// The role group is missing.
    MissingRoleGroup(String),
    /// The merged configuration is not valid.
    FragmentValidationFailure(String),
}

/// The contents of an [`Error`].
#[verifier::ext_equal]
pub enum ErrorView {
    CannotRetrieveOpaRoleGroup(Seq<char>),
    UnknownOpaRole(Seq<char>),
    MissingRoleGroup(Seq<char>),
    FragmentValidationFailure(Seq<char>),
}

impl DeepView for Error {
    type V = ErrorView;

    open spec fn deep_view(&self) -> ErrorView {
        match self {
            Error::CannotRetrieveOpaRoleGroup(inner) => {
                ErrorView::CannotRetrieveOpaRoleGroup(inner.deep_view())
            },
            Error::UnknownOpaRole(inner) => ErrorView::UnknownOpaRole(inner.deep_view()),
            Error::MissingRoleGroup(inner) => ErrorView::MissingRoleGroup(inner.deep_view()),
            Error::FragmentValidationFailure(inner) => {
                ErrorView::FragmentValidationFailure(inner.deep_view())
            },
        }
    }
}

impl Value for Error {
    fn duplicate(&self) -> (copy: Self) {
        match self {
            Error::CannotRetrieveOpaRoleGroup(inner) => {
                Error::CannotRetrieveOpaRoleGroup(inner.duplicate())
            },
            Error::UnknownOpaRole(inner) => Error::UnknownOpaRole(inner.duplicate()),
            Error::MissingRoleGroup(inner) => Error::MissingRoleGroup(inner.duplicate()),
            Error::FragmentValidationFailure(inner) => {
                Error::FragmentValidationFailure(inner.duplicate())
            },
        }
    }

    fn same_as(&self, other: &Self) -> (same: bool) {
        match (self, other) {
            (Error::CannotRetrieveOpaRoleGroup(left), Error::CannotRetrieveOpaRoleGroup(right)) => {
                left.same_as(right)
            },
            (Error::UnknownOpaRole(left), Error::UnknownOpaRole(right)) => left.same_as(right),
            (Error::MissingRoleGroup(left), Error::MissingRoleGroup(right)) => left.same_as(right),
            (Error::FragmentValidationFailure(left), Error::FragmentValidationFailure(right)) => {
                left.same_as(right)
            },
            _ => false,
        }
    }
}

/// The configuration that the operator starts from. There is no default affinity: exactly one OPA
/// Pod runs on every node, and users can limit the nodes.
pub open spec fn default_config_view() -> OpaConfigFragmentView {
    default_layer(empty_affinity())
}

impl OpaConfig {
    /// The configuration that the operator starts from.
    pub fn default_config() -> (fragment: OpaConfigFragment)
        ensures
            fragment.deep_view() == default_config_view(),
    {
        default_fragment(no_affinity())
    }
}

impl OpaConfigFragment {
    /// Environment variables that the configuration sets: none.
    pub fn compute_env(&self) -> (env: StringMap)
        ensures
            env@ == Map::<Seq<char>, Seq<char>>::empty(),
    {
        StringMap::new()
    }

    /// Command line arguments that the configuration sets: none.
    pub fn compute_cli(&self) -> (cli: StringMap)
        ensures
            cli@ == Map::<Seq<char>, Seq<char>>::empty(),
    {
        StringMap::new()
    }

    /// Settings that the configuration writes to a file: none.
    pub fn compute_files(&self, _file: &str) -> (settings: StringMap)
        ensures
            settings@ == Map::<Seq<char>, Seq<char>>::empty(),
    {
        StringMap::new()
    }
}

/// The role group that a reference names: the role must be known, and the group defined.
pub open spec fn referenced_role_group(
    opa: OpaClusterView,
    reference: RoleGroupRefView,
) -> Result<RoleGroupView, ErrorView> {
    if reference.role != OpaRole::Server.spec_name() {
        Err(ErrorView::UnknownOpaRole(reference.role))
    } else if !opa.spec.servers.role_groups.contains_key(reference.role_group) {
        Err(ErrorView::CannotRetrieveOpaRoleGroup(reference.role_group))
    } else {
        Ok(opa.spec.servers.role_groups[reference.role_group])
    }
}

/// The merged configuration of a role group.
///
/// `logging` is the logging configuration that the layers merge to.
pub open spec fn merged(
    opa: OpaClusterView,
    reference: RoleGroupRefView,
    logging: Result<LoggingView, Seq<char>>,
) -> Result<OpaConfigView, ErrorView> {
    let servers = opa.spec.servers;
    if !servers.role_groups.contains_key(reference.role_group) {
        Err(ErrorView::MissingRoleGroup(reference.role_group))
    } else {
        let config = hierarchy(
            servers.role_groups[reference.role_group].config,
            servers.config,
            default_config_view(),
        );
        match logging {
            Ok(logging) => Ok(
                OpaConfigView {
                    resources: config.resources,
                    logging,
                    affinity: config.affinity,
                    graceful_shutdown_timeout: config.graceful_shutdown_timeout,
                },
            ),
            Err(error) => Err(ErrorView::FragmentValidationFailure(error)),
        }
    }
}

/// The fully-qualified domain name of the role-level Service, where name and namespace are known.
pub open spec fn service_fqdn(metadata: ObjectMetaView) -> Option<Seq<char>> {
    match (metadata.name, metadata.namespace) {
        (Some(name), Some(namespace)) => Some(name + "."@ + namespace + ".svc.cluster.local"@),
        _ => None,
    }
}

/// The deep view of a result whose error is a text.
pub open spec fn logging_result(logging: Result<Logging, String>) -> Result<LoggingView, Seq<char>> {
    match logging {
        Ok(logging) => Ok(logging.deep_view()),
        Err(error) => Err(error@),
    }
}

impl OpaCluster {
    /// The configuration of a role.
    pub fn role(&self, role_variant: &OpaRole) -> (role: &Role)
        ensures
            role.deep_view() == self.deep_view().spec.servers,
    {
        match role_variant {
            OpaRole::Server => &self.spec.servers,
        }
    }

    /// The role group that a reference names.
    pub fn rolegroup(&self, rolegroup_ref: &RoleGroupRef) -> (result: Result<&RoleGroup, Error>)
        ensures
            match referenced_role_group(self.deep_view(), rolegroup_ref.deep_view()) {
                Ok(group) => result matches Ok(found) && found.deep_view() == group,
                Err(expected) => result matches Err(error) && error.deep_view() == expected,
            },
    {
        if !equal(rolegroup_ref.role.as_str(), OpaRole::Server.name().as_str()) {
            return Err(Error::UnknownOpaRole(rolegroup_ref.role.clone()));
        }
        match self.role(&OpaRole::Server).role_groups.get(rolegroup_ref.role_group.as_str()) {
            Some(group) => Ok(group),
            None => Err(Error::CannotRetrieveOpaRoleGroup(rolegroup_ref.role_group.clone())),
        }
    }

    /// The name of the role-level load-balanced Kubernetes `Service`.
    pub fn server_role_service_name(&self) -> (name: Option<String>)
        ensures
            name.deep_view() == self.deep_view().metadata.name,
    {
        self.metadata.name.duplicate()
    }

    /// The fully-qualified domain name of the role-level load-balanced Kubernetes `Service`.
    pub fn server_role_service_fqdn(&self) -> (name: Option<String>)
        ensures
            name.deep_view() == service_fqdn(self.deep_view().metadata),
    {
        let service = match self.server_role_service_name() {
            Some(name) => name,
            None => return None,
        };
        let namespace = match &self.metadata.namespace {
            Some(namespace) => namespace,
            None => return None,
        };
        let mut name = service;
        name.append(".");
        name.append(namespace.as_str());
        name.append(".svc.cluster.local");
        Some(name)
    }

    /// Merges the configuration of a role group: the role group over the role over the defaults.
    pub fn merged_config(
        &self,
        role: &OpaRole,
        rolegroup_ref: &RoleGroupRef,
        logging: Result<Logging, String>,
    ) -> (result: Result<OpaConfig, Error>)
        ensures
            match merged(self.deep_view(), rolegroup_ref.deep_view(), logging_result(logging)) {
                Ok(config) => result matches Ok(merged) && merged.deep_view() == config,
                Err(expected) => result matches Err(error) && error.deep_view() == expected,
            },
    {
        let opa_role = self.role(role);
        let role_group = match opa_role.role_groups.get(rolegroup_ref.role_group.as_str()) {
            Some(role_group) => role_group,
            None => return Err(Error::MissingRoleGroup(rolegroup_ref.role_group.clone())),
        };
        let conf_role = opa_role.config.on_top_of(&OpaConfig::default_config());
        let conf_rolegroup = role_group.config.on_top_of(&conf_role);
        match logging {
            Ok(logging) => Ok(
                OpaConfig {
                    resources: conf_rolegroup.resources,
                    logging,
                    affinity: conf_rolegroup.affinity,
                    graceful_shutdown_timeout: conf_rolegroup.graceful_shutdown_timeout,
                },
            ),
            Err(error) => Err(Error::FragmentValidationFailure(error)),
        }
    }

    /// The conditions of the cluster; none before a status was written.
    pub fn conditions(&self) -> (conditions: Vec<ClusterCondition>)
        ensures
            conditions.deep_view() == match self.deep_view().status {
                Some(status) => status.conditions,
                None => Seq::empty(),
            },
    {
        match &self.status {
            Some(status) => status.conditions.duplicate(),
            None => no_items(),
        }
    }
}

/// Where a merged configuration exists, it has a graceful shutdown timeout.
pub proof fn lemma_merged_config_has_shutdown_timeout(
    opa: OpaClusterView,
    reference: RoleGroupRefView,
    logging: Result<LoggingView, Seq<char>>,
)
    ensures
        merged(opa, reference, logging) matches Ok(config) ==> config.graceful_shutdown_timeout
            is Some,
{
}

/// The role Service is found under its name and namespace, which both have to be known.
pub proof fn lemma_service_fqdn(metadata: ObjectMetaView)
    ensures
        service_fqdn(metadata) is Some <==> metadata.name is Some && metadata.namespace is Some,
        service_fqdn(metadata) is Some ==> (metadata.name->0 + "."@
            + metadata.namespace->0).is_prefix_of(service_fqdn(metadata)->0)
            && ".svc.cluster.local"@.is_suffix_of(service_fqdn(metadata)->0)
            && service_fqdn(metadata)->0.len() == metadata.name->0.len()
            + metadata.namespace->0.len() + 19,
{
    reveal_strlit(".");
    reveal_strlit(".svc.cluster.local");
    if let Some(text) = service_fqdn(metadata) {
        let start = metadata.name->0 + "."@ + metadata.namespace->0;
        assert(start =~= text.take(start.len() as int));
        assert(".svc.cluster.local"@ =~= text.skip(text.len() - 18));
    }
}

} // verus!
