//! The `OpaCluster` resource.
use crate::config::{
    default_fragment, default_layer, OpaConfigFragment, OpaConfigFragmentView, Resources,
    ResourcesView,
};
use crate::duration::Duration;
use crate::kubernetes::pod::{StackableAffinity, StackableAffinityView};
use crate::logging::{
    automatic_choice, borrowed_log, AutomaticContainerLogConfig, AutomaticContainerLogConfigView,
    ContainerLogConfig, ContainerLogConfigView,
};
use crate::text_map::TextMap;
use crate::v1alpha2::affinity::{affinity, get_affinity};
use crate::value::Value;
use vstd::prelude::*;

verus! {

/// The name of the role of the servers.
pub const SERVER_ROLE_NAME: &'static str = "server";

/// Which type of Service exposes a cluster.
#[derive(Clone, Copy, Debug, PartialEq, Eq, Structural)]
pub enum CurrentlySupportedListenerClasses {
    /// Use a ClusterIP service.
    ClusterInternal,
    /// Use a NodePort service.
    ExternalUnstable,
    /// Use a LoadBalancer service.
    ExternalStable,
}

impl DeepView for CurrentlySupportedListenerClasses {
    type V = CurrentlySupportedListenerClasses;

    open spec fn deep_view(&self) -> CurrentlySupportedListenerClasses {
        *self
    }
}

impl Value for CurrentlySupportedListenerClasses {
    fn duplicate(&self) -> (copy: Self) {
        *self
    }

    fn same_as(&self, other: &Self) -> (same: bool) {
        *self == *other
    }
}

impl Default for CurrentlySupportedListenerClasses {
    fn default() -> (value: Self)
        ensures
            value == CurrentlySupportedListenerClasses::ClusterInternal,
    {
        CurrentlySupportedListenerClasses::ClusterInternal
    }
}

impl CurrentlySupportedListenerClasses {
    /// The Kubernetes type of the Service.
    pub open spec fn spec_k8s_service_type(self) -> Seq<char> {
        match self {
            CurrentlySupportedListenerClasses::ClusterInternal => "ClusterIP"@,
            CurrentlySupportedListenerClasses::ExternalUnstable => "NodePort"@,
            CurrentlySupportedListenerClasses::ExternalStable => "LoadBalancer"@,
        }
    }

    /// The Kubernetes type of the Service.
    pub fn k8s_service_type(&self) -> (text: String)
        ensures
            text@ == self.spec_k8s_service_type(),
    {
        match self {
            CurrentlySupportedListenerClasses::ClusterInternal => "ClusterIP".to_owned(),
            CurrentlySupportedListenerClasses::ExternalUnstable => "NodePort".to_owned(),
            CurrentlySupportedListenerClasses::ExternalStable => "LoadBalancer".to_owned(),
        }
    }
}

/// The containers of an OPA Pod.
#[derive(Clone, Copy, Debug, PartialEq, Eq, Structural)]
pub enum Container {
    /// Creates the directories that the other containers use.
    Prepare,
    /// Collects logs.
    Vector,
    /// Builds the bundles that OPA loads.
    BundleBuilder,
    /// OPA itself.
    Opa,
    /// Fetches information about users.
    UserInfoFetcher,
    /// Fetches information about resources.
    ResourceInfoFetcher,
}

impl DeepView for Container {
    type V = Container;

    open spec fn deep_view(&self) -> Container {
        *self
    }
}

impl Value for Container {
    fn duplicate(&self) -> (copy: Self) {
        *self
    }

    fn same_as(&self, other: &Self) -> (same: bool) {
        *self == *other
    }
}

impl Container {
    /// The name of the container in the Pod.
    pub open spec fn spec_name(self) -> Seq<char> {
        match self {
            Container::Prepare => "prepare"@,
            Container::Vector => "vector"@,
            Container::BundleBuilder => "bundle-builder"@,
            Container::Opa => "opa"@,
            Container::UserInfoFetcher => "user-info-fetcher"@,
            Container::ResourceInfoFetcher => "resource-info-fetcher"@,
        }
    }

    /// The name of the container in the Pod.
    pub fn name(&self) -> (text: String)
        ensures
            text@ == self.spec_name(),
    {
        match self {
            Container::Prepare => "prepare".to_owned(),
            Container::Vector => "vector".to_owned(),
            Container::BundleBuilder => "bundle-builder".to_owned(),
            Container::Opa => "opa".to_owned(),
            Container::UserInfoFetcher => "user-info-fetcher".to_owned(),
            Container::ResourceInfoFetcher => "resource-info-fetcher".to_owned(),
        }
    }
}

/// The roles of an OPA cluster.
#[derive(Clone, Copy, Debug, PartialEq, Eq, Structural)]
pub enum OpaRole {
    /// OPA servers.
    Server,
}

impl DeepView for OpaRole {
    type V = OpaRole;

    open spec fn deep_view(&self) -> OpaRole {
        *self
    }
}

impl Value for OpaRole {
    fn duplicate(&self) -> (copy: Self) {
        *self
    }

    fn same_as(&self, other: &Self) -> (same: bool) {
        *self == *other
    }
}

impl OpaRole {
    /// The name of the role.
    pub open spec fn spec_name(self) -> Seq<char> {
        match self {
            OpaRole::Server => "server"@,
        }
    }

    /// The name of the role.
    pub fn name(&self) -> (text: String)
        ensures
            text@ == self.spec_name(),
    {
        match self {
            OpaRole::Server => "server".to_owned(),
        }
    }
}

/// Logging of a role group.
#[derive(Clone, Debug, PartialEq, Eq)]
pub struct Logging {
    /// Whether logs are collected by a Vector agent in the Pod.
    pub enable_vector_agent: bool,
    /// The logging of each container, by its name.
    pub containers: TextMap<ContainerLogConfig>,
}

/// The contents of a [`Logging`].
#[verifier::ext_equal]
pub struct LoggingView {
    pub enable_vector_agent: bool,
    pub containers: Map<Seq<char>, ContainerLogConfigView>,
}

impl DeepView for Logging {
    type V = LoggingView;

    open spec fn deep_view(&self) -> LoggingView {
        LoggingView {
            enable_vector_agent: self.enable_vector_agent.deep_view(),
            containers: self.containers.deep_view(),
        }
    }
}

impl Value for Logging {
    fn duplicate(&self) -> (copy: Self) {
        Logging {
            enable_vector_agent: self.enable_vector_agent.duplicate(),
            containers: self.containers.duplicate(),
        }
    }

    fn same_as(&self, other: &Self) -> (same: bool) {
        self.enable_vector_agent.same_as(&other.enable_vector_agent)
            && self.containers.same_as(&other.containers)
    }
}

/// The log configuration of a container, where the operator writes it.
pub open spec fn container_log(
    logging: LoggingView,
    container: Container,
) -> Option<AutomaticContainerLogConfigView> {
    if logging.containers.contains_key(container.spec_name()) {
        automatic_choice(Some(logging.containers[container.spec_name()]))
    } else {
        None
    }
}

impl Logging {
    /// The log configuration of a container, where the operator writes it.
    pub fn automatic(&self, container: Container) -> (config: Option<&AutomaticContainerLogConfig>)
        ensures
            borrowed_log(config) == container_log(self.deep_view(), container),
    {
        match self.containers.get(container.name().as_str()) {
            Some(config) => config.automatic(),
            None => None,
        }
    }
}

/// The configuration of a role group.
#[derive(Clone, Debug, PartialEq, Eq)]
pub struct OpaConfig {
    pub resources: Resources,
    pub logging: Logging,
    pub affinity: StackableAffinity,
    /// Time period Pods have to gracefully shut down.
    pub graceful_shutdown_timeout: Option<Duration>,
}

/// The contents of an [`OpaConfig`].
#[verifier::ext_equal]
pub struct OpaConfigView {
    pub resources: ResourcesView,
    pub logging: LoggingView,
    pub affinity: StackableAffinityView,
    pub graceful_shutdown_timeout: Option<Duration>,
}

impl DeepView for OpaConfig {
    type V = OpaConfigView;

    open spec fn deep_view(&self) -> OpaConfigView {
        OpaConfigView {
            resources: self.resources.deep_view(),
            logging: self.logging.deep_view(),
            affinity: self.affinity.deep_view(),
            graceful_shutdown_timeout: self.graceful_shutdown_timeout.deep_view(),
        }
    }
}

impl Value for OpaConfig {
    fn duplicate(&self) -> (copy: Self) {
        OpaConfig {
            resources: self.resources.duplicate(),
            logging: self.logging.duplicate(),
            affinity: self.affinity.duplicate(),
            graceful_shutdown_timeout: self.graceful_shutdown_timeout.duplicate(),
        }
    }

    fn same_as(&self, other: &Self) -> (same: bool) {
        self.resources.same_as(&other.resources)
            && self.logging.same_as(&other.logging)
            && self.affinity.same_as(&other.affinity)
            && self.graceful_shutdown_timeout.same_as(&other.graceful_shutdown_timeout)
    }
}

/// The Kubernetes workload that the servers run as.
#[derive(Clone, Copy, Debug, PartialEq, Eq, Structural)]
pub enum WorkloadKind {
    /// One Pod per node. The number of replicas is ignored.
    DaemonSet,
    /// A fixed number of Pods.
    Deployment,
}

impl DeepView for WorkloadKind {
    type V = WorkloadKind;

    open spec fn deep_view(&self) -> WorkloadKind {
        *self
    }
}

impl Value for WorkloadKind {
    fn duplicate(&self) -> (copy: Self) {
        *self
    }

    fn same_as(&self, other: &Self) -> (same: bool) {
        *self == *other
    }
}

impl Default for WorkloadKind {
    fn default() -> (value: Self)
        ensures
            value == WorkloadKind::DaemonSet,
    {
        WorkloadKind::DaemonSet
    }
}

impl WorkloadKind {
    /// The workload as Kubernetes spells it.
    pub open spec fn spec_name(self) -> Seq<char> {
        match self {
            WorkloadKind::DaemonSet => "DaemonSet"@,
            WorkloadKind::Deployment => "Deployment"@,
        }
    }

    /// The workload as Kubernetes spells it.
    pub fn name(&self) -> (text: String)
        ensures
            text@ == self.spec_name(),
    {
        match self {
            WorkloadKind::DaemonSet => "DaemonSet".to_owned(),
            WorkloadKind::Deployment => "Deployment".to_owned(),
        }
    }
}

/// Which Pods a Service routes traffic from inside the cluster to.
#[derive(Clone, Copy, Debug, PartialEq, Eq, Structural)]
pub enum InternalTrafficPolicy {
    /// Only those on the same node.
    Local,
    /// Any of them.
    Cluster,
}

impl DeepView for InternalTrafficPolicy {
    type V = InternalTrafficPolicy;

    open spec fn deep_view(&self) -> InternalTrafficPolicy {
        *self
    }
}

impl Value for InternalTrafficPolicy {
    fn duplicate(&self) -> (copy: Self) {
        *self
    }

    fn same_as(&self, other: &Self) -> (same: bool) {
        *self == *other
    }
}

impl InternalTrafficPolicy {
    /// The policy as Kubernetes spells it.
    pub open spec fn spec_name(self) -> Seq<char> {
        match self {
            InternalTrafficPolicy::Local => "Local"@,
            InternalTrafficPolicy::Cluster => "Cluster"@,
        }
    }

    /// The policy as Kubernetes spells it.
    pub fn name(&self) -> (text: String)
        ensures
            text@ == self.spec_name(),
    {
        match self {
            InternalTrafficPolicy::Local => "Local".to_owned(),
            InternalTrafficPolicy::Cluster => "Cluster".to_owned(),
        }
    }
}

/// Whether a PodDisruptionBudget is created, and how many Pods it allows to be unavailable.
#[derive(Clone, Debug, PartialEq, Eq)]
pub struct OpaPdbConfig {
    /// Whether a PodDisruptionBudget should be written out for this role. Defaults to `true` for
    /// a Deployment and to `false` for a DaemonSet.
    pub enabled: Option<bool>,
    /// The number of Pods that are allowed to be down simultaneously.
    pub max_unavailable: Option<u16>,
}

/// The contents of an [`OpaPdbConfig`].
#[verifier::ext_equal]
pub struct OpaPdbConfigView {
    pub enabled: Option<bool>,
    pub max_unavailable: Option<u16>,
}

impl DeepView for OpaPdbConfig {
    type V = OpaPdbConfigView;

    open spec fn deep_view(&self) -> OpaPdbConfigView {
        OpaPdbConfigView {
            enabled: self.enabled.deep_view(),
            max_unavailable: self.max_unavailable.deep_view(),
        }
    }
}

impl Value for OpaPdbConfig {
    fn duplicate(&self) -> (copy: Self) {
        OpaPdbConfig {
            enabled: self.enabled.duplicate(),
            max_unavailable: self.max_unavailable.duplicate(),
        }
    }

    fn same_as(&self, other: &Self) -> (same: bool) {
        self.enabled.same_as(&other.enabled) && self.max_unavailable.same_as(&other.max_unavailable)
    }
}

/// Role-level configuration for the OPA servers.
#[derive(Clone, Debug, PartialEq, Eq)]
pub struct OpaRoleConfig {
    /// The Kubernetes workload the OPA servers run as.
    pub workload_kind: WorkloadKind,
    pub pod_disruption_budget: OpaPdbConfig,
}

/// The contents of an [`OpaRoleConfig`].
#[verifier::ext_equal]
pub struct OpaRoleConfigView {
    pub workload_kind: WorkloadKind,
    pub pod_disruption_budget: OpaPdbConfigView,
}

impl DeepView for OpaRoleConfig {
    type V = OpaRoleConfigView;

    open spec fn deep_view(&self) -> OpaRoleConfigView {
        OpaRoleConfigView {
            workload_kind: self.workload_kind.deep_view(),
            pod_disruption_budget: self.pod_disruption_budget.deep_view(),
        }
    }
}

impl Value for OpaRoleConfig {
    fn duplicate(&self) -> (copy: Self) {
        OpaRoleConfig {
            workload_kind: self.workload_kind.duplicate(),
            pod_disruption_budget: self.pod_disruption_budget.duplicate(),
        }
    }

    fn same_as(&self, other: &Self) -> (same: bool) {
        self.workload_kind.same_as(&other.workload_kind)
            && self.pod_disruption_budget.same_as(&other.pod_disruption_budget)
    }
}

/// TLS encryption settings for the OPA server.
#[derive(Clone, Debug, PartialEq, Eq)]
pub struct OpaTls {
    /// Name of the SecretClass which will provide TLS certificates for the OPA server.
    pub server_secret_class: String,
}

/// The contents of an [`OpaTls`].
#[verifier::ext_equal]
pub struct OpaTlsView {
    pub server_secret_class: Seq<char>,
}

impl DeepView for OpaTls {
    type V = OpaTlsView;

    open spec fn deep_view(&self) -> OpaTlsView {
        OpaTlsView {
            server_secret_class: self.server_secret_class.deep_view(),
        }
    }
}

impl Value for OpaTls {
    fn duplicate(&self) -> (copy: Self) {
        OpaTls {
            server_secret_class: self.server_secret_class.duplicate(),
        }
    }

    fn same_as(&self, other: &Self) -> (same: bool) {
        self.server_secret_class.same_as(&other.server_secret_class)
    }
}

impl Default for OpaPdbConfig {
    fn default() -> (config: Self)
        ensures
            config.deep_view() == (OpaPdbConfigView { enabled: None, max_unavailable: None }),
    {
        OpaPdbConfig { enabled: None, max_unavailable: None }
    }
}

/// The role configuration where nothing is configured.
pub open spec fn default_role_config() -> OpaRoleConfigView {
    OpaRoleConfigView {
        workload_kind: WorkloadKind::DaemonSet,
        pod_disruption_budget: OpaPdbConfigView { enabled: None, max_unavailable: None },
    }
}

impl Default for OpaRoleConfig {
    fn default() -> (config: Self)
        ensures
            config.deep_view() == default_role_config(),
    {
        OpaRoleConfig {
            workload_kind: WorkloadKind::default(),
            pod_disruption_budget: OpaPdbConfig::default(),
        }
    }
}

/// The traffic policy of the role Service: node-local for a DaemonSet, which covers every node, and
/// cluster-wide for a Deployment, whose Pods do not.
pub open spec fn traffic_policy(workload_kind: WorkloadKind) -> InternalTrafficPolicy {
    match workload_kind {
        WorkloadKind::DaemonSet => InternalTrafficPolicy::Local,
        WorkloadKind::Deployment => InternalTrafficPolicy::Cluster,
    }
}

/// Whether a PodDisruptionBudget is written out: as configured, else for a Deployment only.
pub open spec fn pdb_enabled(config: OpaRoleConfigView) -> bool {
    match config.pod_disruption_budget.enabled {
        Some(enabled) => enabled,
        None => config.workload_kind == WorkloadKind::Deployment,
    }
}

impl OpaRoleConfig {
    /// The `internalTrafficPolicy` to write into the role Service.
    ///
    /// This is the single place the policy is decided.
    pub fn internal_traffic_policy(&self) -> (policy: InternalTrafficPolicy)
        ensures
            policy == traffic_policy(self.workload_kind),
    {
        match self.workload_kind {
            WorkloadKind::DaemonSet => InternalTrafficPolicy::Local,
            WorkloadKind::Deployment => InternalTrafficPolicy::Cluster,
        }
    }

    /// Whether a PodDisruptionBudget should be written out for this role.
    ///
    /// Draining a node leaves the Pods of a DaemonSet alone, so there a budget would protect
    /// nothing.
    pub fn pod_disruption_budget_enabled(&self) -> (enabled: bool)
        ensures
            enabled == pdb_enabled(self.deep_view()),
    {
        match self.pod_disruption_budget.enabled {
            Some(enabled) => enabled,
            None => self.workload_kind == WorkloadKind::Deployment,
        }
    }
}

/// An explicitly configured budget wins over what the workload kind would ask for.
pub proof fn lemma_explicit_pdb_wins(config: OpaRoleConfigView)
    ensures
        config.pod_disruption_budget.enabled is Some ==> pdb_enabled(config)
            == config.pod_disruption_budget.enabled->0,
        config.pod_disruption_budget.enabled is None ==> (pdb_enabled(config) <==> traffic_policy(
            config.workload_kind,
        ) == InternalTrafficPolicy::Cluster),
{
}

/// The configuration that the operator starts from: its Pods prefer to be spread across nodes.
pub open spec fn default_config_view(cluster_name: Seq<char>, role: OpaRole) -> OpaConfigFragmentView {
    default_layer(affinity(cluster_name, role))
}

impl OpaConfig {
    /// The configuration that the operator starts from.
    pub fn default_config(cluster_name: &str, role: &OpaRole) -> (fragment: OpaConfigFragment)
        ensures
            fragment.deep_view() == default_config_view(cluster_name@, *role),
    {
        default_fragment(get_affinity(cluster_name, role))
    }
}

/// By default OPA runs on every node, requests stay on their node, and there is no budget.
pub proof fn lemma_default_role_config()
    ensures
        default_role_config().workload_kind == WorkloadKind::DaemonSet,
        traffic_policy(default_role_config().workload_kind) == InternalTrafficPolicy::Local,
        !pdb_enabled(default_role_config()),
        default_role_config().pod_disruption_budget.max_unavailable is None,
{
}

} // verus!
