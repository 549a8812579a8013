//! The validated cluster that objects are built from.
use crate::config::{Resources, ResourcesView};
use crate::duration::Duration;
use crate::kubernetes::builder::{ResolvedProductImage, ResolvedProductImageView};
use crate::kubernetes::meta::{ObjectMeta, ObjectMetaView};
use crate::kubernetes::owned::{controller_reference, empty_meta, no_meta, owner_reference};
use crate::kubernetes::pod::{StackableAffinity, StackableAffinityView};
use crate::labels::{
    cluster_labels, cluster_object_labels, managed_by, manager, put, role_group_selector,
    role_group_selector_labels, role_selector, role_selector_labels, APP_COMPONENT_LABEL, APP_NAME,
    APP_ROLE_GROUP_LABEL, OPA_CONTROLLER_NAME, OPERATOR_NAME,
};
use crate::logging::{
    automatic_choice, borrowed_log, AutomaticContainerLogConfig, AutomaticContainerLogConfigView,
    ContainerLogConfig, ContainerLogConfigChoice, ContainerLogConfigChoiceView,
    ContainerLogConfigView,
};
use crate::names::{
    headless_service_name, metrics_service_name, name_of_headless_service, name_of_metrics_service,
    name_of_role, name_of_role_group, role_group_name, role_name,
};
use crate::text_map::{StringMap, TextMap};
use crate::user_info_fetcher;
use crate::v1alpha2::crd::{
    Container, CurrentlySupportedListenerClasses, OpaConfig, OpaRole, OpaRoleConfig,
    OpaRoleConfigView, OpaTls, OpaTlsView,
};
use crate::v1alpha2::resource_info_fetcher;
use crate::value::{one_item, Value};
use vstd::prelude::*;

verus! {

/// The version of the resource that owner references name.
pub const API_VERSION: &'static str = "opa.stackable.tech/v1alpha2";

/// Placeholder role group for the labels of the role-level Service, which is not bound to a single
/// role group.
pub const PLACEHOLDER_ROLE_LEVEL_ROLE_GROUP: &'static str = "global";

/// Placeholder role group for the labels of the discovery ConfigMap, which is not bound to a single
/// role group.
pub const PLACEHOLDER_DISCOVERY_ROLE_GROUP: &'static str = "discovery";

/// The validated logging of the Vector container.
#[derive(Clone, Debug, PartialEq, Eq)]
pub struct VectorContainerLogConfig {
    pub log_config: ContainerLogConfigChoice,
    pub vector_aggregator_config_map_name: String,
}

/// The contents of a [`VectorContainerLogConfig`].
#[verifier::ext_equal]
pub struct VectorContainerLogConfigView {
    pub log_config: ContainerLogConfigChoiceView,
    pub vector_aggregator_config_map_name: Seq<char>,
}

impl DeepView for VectorContainerLogConfig {
    type V = VectorContainerLogConfigView;

    open spec fn deep_view(&self) -> VectorContainerLogConfigView {
        VectorContainerLogConfigView {
            log_config: self.log_config.deep_view(),
            vector_aggregator_config_map_name: self.vector_aggregator_config_map_name.deep_view(),
        }
    }
}

impl Value for VectorContainerLogConfig {
    fn duplicate(&self) -> (copy: Self) {
        VectorContainerLogConfig {
            log_config: self.log_config.duplicate(),
            vector_aggregator_config_map_name: self.vector_aggregator_config_map_name.duplicate(),
        }
    }

    fn same_as(&self, other: &Self) -> (same: bool) {
        self.log_config.same_as(&other.log_config)
            && self.vector_aggregator_config_map_name.same_as(&other.vector_aggregator_config_map_name)
    }
}

/// Validated logging configuration for a role group.
#[derive(Clone, Debug, PartialEq, Eq)]
pub struct ValidatedLogging {
    /// The validated Vector container config, or nothing when the Vector agent is disabled.
    pub vector_container: Option<VectorContainerLogConfig>,
    pub enable_vector_agent: bool,
    /// The logging of each container, by its name.
    pub containers: TextMap<ContainerLogConfig>,
}

/// The contents of a [`ValidatedLogging`].
#[verifier::ext_equal]
pub struct ValidatedLoggingView {
    pub vector_container: Option<VectorContainerLogConfigView>,
    pub enable_vector_agent: bool,
    pub containers: Map<Seq<char>, ContainerLogConfigView>,
}

impl DeepView for ValidatedLogging {
    type V = ValidatedLoggingView;

    open spec fn deep_view(&self) -> ValidatedLoggingView {
        ValidatedLoggingView {
            vector_container: self.vector_container.deep_view(),
            enable_vector_agent: self.enable_vector_agent.deep_view(),
            containers: self.containers.deep_view(),
        }
    }
}

impl Value for ValidatedLogging {
    fn duplicate(&self) -> (copy: Self) {
        ValidatedLogging {
            vector_container: self.vector_container.duplicate(),
            enable_vector_agent: self.enable_vector_agent.duplicate(),
            containers: self.containers.duplicate(),
        }
    }

    fn same_as(&self, other: &Self) -> (same: bool) {
        self.vector_container.same_as(&other.vector_container)
            && self.enable_vector_agent.same_as(&other.enable_vector_agent)
            && self.containers.same_as(&other.containers)
    }
}

/// The log configuration of a container, where the operator writes it.
pub open spec fn container_log(
    logging: ValidatedLoggingView,
    container: Container,
) -> Option<AutomaticContainerLogConfigView> {
    if logging.containers.contains_key(container.spec_name()) {
        automatic_choice(Some(logging.containers[container.spec_name()]))
    } else {
        None
    }
}

impl ValidatedLogging {
    /// The log configuration of a container, where the operator writes it.
    pub fn automatic(&self, container: Container) -> (config: Option<&AutomaticContainerLogConfig>)
        ensures
            borrowed_log(config) == container_log(self.deep_view(), container),
    {
        match self.containers.get(container.name().as_str()) {
            Some(config) => config.automatic(),
            None => None,
        }
    }
}

/// A validated OPA config: the merged configuration of a role group.
#[derive(Clone, Debug, PartialEq, Eq)]
pub struct ValidatedOpaConfig {
    pub resources: Resources,
    pub logging: ValidatedLogging,
    pub affinity: StackableAffinity,
    /// Time period Pods have to gracefully shut down.
    pub graceful_shutdown_timeout: Option<Duration>,
}

/// The contents of a [`ValidatedOpaConfig`].
#[verifier::ext_equal]
pub struct ValidatedOpaConfigView {
    pub resources: ResourcesView,
    pub logging: ValidatedLoggingView,
    pub affinity: StackableAffinityView,
    pub graceful_shutdown_timeout: Option<Duration>,
}

impl DeepView for ValidatedOpaConfig {
    type V = ValidatedOpaConfigView;

    open spec fn deep_view(&self) -> ValidatedOpaConfigView {
        ValidatedOpaConfigView {
            resources: self.resources.deep_view(),
            logging: self.logging.deep_view(),
            affinity: self.affinity.deep_view(),
            graceful_shutdown_timeout: self.graceful_shutdown_timeout.deep_view(),
        }
    }
}

impl Value for ValidatedOpaConfig {
    fn duplicate(&self) -> (copy: Self) {
        ValidatedOpaConfig {
            resources: self.resources.duplicate(),
            logging: self.logging.duplicate(),
            affinity: self.affinity.duplicate(),
            graceful_shutdown_timeout: self.graceful_shutdown_timeout.duplicate(),
        }
    }

    fn same_as(&self, other: &Self) -> (same: bool) {
        self.resources.same_as(&other.resources)
            && self.logging.same_as(&other.logging)
            && self.affinity.same_as(&other.affinity)
            && self.graceful_shutdown_timeout.same_as(&other.graceful_shutdown_timeout)
    }
}

impl ValidatedOpaConfig {
    /// The merged configuration with its validated logging.
    pub fn from_merged(merged: OpaConfig, logging: ValidatedLogging) -> (config: Self)
        ensures
            config.deep_view() == (ValidatedOpaConfigView {
                resources: merged.deep_view().resources,
                logging: logging.deep_view(),
                affinity: merged.deep_view().affinity,
                graceful_shutdown_timeout: merged.graceful_shutdown_timeout,
            }),
    {
        ValidatedOpaConfig {
            resources: merged.resources,
            logging,
            affinity: merged.affinity,
            graceful_shutdown_timeout: merged.graceful_shutdown_timeout,
        }
    }
}

/// The validated, merged configuration of a single OPA role group.
#[derive(Clone, Debug, PartialEq, Eq)]
pub struct OpaRoleGroupConfig {
    pub replicas: Option<u16>,
    pub config: ValidatedOpaConfig,
    pub env_overrides: StringMap,
    pub cli_overrides: StringMap,
}

/// The contents of an [`OpaRoleGroupConfig`].
#[verifier::ext_equal]
pub struct OpaRoleGroupConfigView {
    pub replicas: Option<u16>,
    pub config: ValidatedOpaConfigView,
    pub env_overrides: Map<Seq<char>, Seq<char>>,
    pub cli_overrides: Map<Seq<char>, Seq<char>>,
}

impl DeepView for OpaRoleGroupConfig {
    type V = OpaRoleGroupConfigView;

    open spec fn deep_view(&self) -> OpaRoleGroupConfigView {
        OpaRoleGroupConfigView {
            replicas: self.replicas.deep_view(),
            config: self.config.deep_view(),
            env_overrides: self.env_overrides.deep_view(),
            cli_overrides: self.cli_overrides.deep_view(),
        }
    }
}

impl Value for OpaRoleGroupConfig {
    fn duplicate(&self) -> (copy: Self) {
        OpaRoleGroupConfig {
            replicas: self.replicas.duplicate(),
            config: self.config.duplicate(),
            env_overrides: self.env_overrides.duplicate(),
            cli_overrides: self.cli_overrides.duplicate(),
        }
    }

    fn same_as(&self, other: &Self) -> (same: bool) {
        self.replicas.same_as(&other.replicas)
            && self.config.same_as(&other.config)
            && self.env_overrides.same_as(&other.env_overrides)
            && self.cli_overrides.same_as(&other.cli_overrides)
    }
}

/// Cluster-wide settings resolved once during validation.
#[derive(Clone, Debug, PartialEq, Eq)]
pub struct ValidatedClusterConfig {
    pub user_info: Option<user_info_fetcher::Config>,
    pub resource_info: Option<resource_info_fetcher::Config>,
    pub tls: Option<OpaTls>,
    pub listener_class: CurrentlySupportedListenerClasses,
}

/// The contents of a [`ValidatedClusterConfig`].
#[verifier::ext_equal]
pub struct ValidatedClusterConfigView {
    pub user_info: Option<user_info_fetcher::ConfigView>,
    pub resource_info: Option<resource_info_fetcher::ConfigView>,
    pub tls: Option<OpaTlsView>,
    pub listener_class: CurrentlySupportedListenerClasses,
}

impl DeepView for ValidatedClusterConfig {
    type V = ValidatedClusterConfigView;

    open spec fn deep_view(&self) -> ValidatedClusterConfigView {
        ValidatedClusterConfigView {
            user_info: self.user_info.deep_view(),
            resource_info: self.resource_info.deep_view(),
            tls: self.tls.deep_view(),
            listener_class: self.listener_class.deep_view(),
        }
    }
}

impl Value for ValidatedClusterConfig {
    fn duplicate(&self) -> (copy: Self) {
        ValidatedClusterConfig {
            user_info: self.user_info.duplicate(),
            resource_info: self.resource_info.duplicate(),
            tls: self.tls.duplicate(),
            listener_class: self.listener_class.duplicate(),
        }
    }

    fn same_as(&self, other: &Self) -> (same: bool) {
        self.user_info.same_as(&other.user_info)
            && self.resource_info.same_as(&other.resource_info)
            && self.tls.same_as(&other.tls)
            && self.listener_class.same_as(&other.listener_class)
    }
}

/// The validated cluster: everything that objects are built from.
#[derive(Clone, Debug, PartialEq, Eq)]
pub struct ValidatedCluster {
    pub name: String,
    pub namespace: String,
    pub uid: String,
    /// The product version as a valid label value.
    pub product_version: String,
    pub image: ResolvedProductImage,
    pub cluster_config: ValidatedClusterConfig,
    /// The role-level configuration of the servers.
    pub server_role_config: OpaRoleConfig,
    /// The role groups of the servers, by name.
    pub server_role_groups: TextMap<OpaRoleGroupConfig>,
}

/// The contents of a [`ValidatedCluster`].
#[verifier::ext_equal]
pub struct ValidatedClusterView {
    pub name: Seq<char>,
    pub namespace: Seq<char>,
    pub uid: Seq<char>,
    pub product_version: Seq<char>,
    pub image: ResolvedProductImageView,
    pub cluster_config: ValidatedClusterConfigView,
    pub server_role_config: OpaRoleConfigView,
    pub server_role_groups: Map<Seq<char>, OpaRoleGroupConfigView>,
}

impl DeepView for ValidatedCluster {
    type V = ValidatedClusterView;

    open spec fn deep_view(&self) -> ValidatedClusterView {
        ValidatedClusterView {
            name: self.name.deep_view(),
            namespace: self.namespace.deep_view(),
            uid: self.uid.deep_view(),
            product_version: self.product_version.deep_view(),
            image: self.image.deep_view(),
            cluster_config: self.cluster_config.deep_view(),
            server_role_config: self.server_role_config.deep_view(),
            server_role_groups: self.server_role_groups.deep_view(),
        }
    }
}

impl Value for ValidatedCluster {
    fn duplicate(&self) -> (copy: Self) {
        ValidatedCluster {
            name: self.name.duplicate(),
            namespace: self.namespace.duplicate(),
            uid: self.uid.duplicate(),
            product_version: self.product_version.duplicate(),
            image: self.image.duplicate(),
            cluster_config: self.cluster_config.duplicate(),
            server_role_config: self.server_role_config.duplicate(),
            server_role_groups: self.server_role_groups.duplicate(),
        }
    }

    fn same_as(&self, other: &Self) -> (same: bool) {
        self.name.same_as(&other.name)
            && self.namespace.same_as(&other.namespace)
            && self.uid.same_as(&other.uid)
            && self.product_version.same_as(&other.product_version)
            && self.image.same_as(&other.image)
            && self.cluster_config.same_as(&other.cluster_config)
            && self.server_role_config.same_as(&other.server_role_config)
            && self.server_role_groups.same_as(&other.server_role_groups)
    }
}

impl ValidatedCluster {
    /// A validated cluster. Its product version is the one that the image is labelled with.
    pub fn new(
        name: String,
        namespace: String,
        uid: String,
        image: ResolvedProductImage,
        cluster_config: ValidatedClusterConfig,
        server_role_config: OpaRoleConfig,
        server_role_groups: TextMap<OpaRoleGroupConfig>,
    ) -> (cluster: Self)
        ensures
            cluster.deep_view() == (ValidatedClusterView {
                name: name@,
                namespace: namespace@,
                uid: uid@,
                product_version: image.deep_view().app_version_label_value,
                image: image.deep_view(),
                cluster_config: cluster_config.deep_view(),
                server_role_config: server_role_config.deep_view(),
                server_role_groups: server_role_groups@,
            }),
    {
        ValidatedCluster {
            name,
            namespace,
            uid,
            product_version: image.app_version_label_value.clone(),
            image,
            cluster_config,
            server_role_config,
            server_role_groups,
        }
    }

    /// The role-level configuration of `role`.
    pub fn role_config(&self, role: &OpaRole) -> (config: &OpaRoleConfig)
        ensures
            config.deep_view() == self.deep_view().server_role_config,
    {
        match role {
            OpaRole::Server => &self.server_role_config,
        }
    }

    /// Whether the cluster serves HTTPS.
    pub fn is_tls_enabled(&self) -> (enabled: bool)
        ensures
            enabled == self.deep_view().cluster_config.tls is Some,
    {
        self.cluster_config.tls.is_some()
    }

    /// The name of the role-level load-balanced Kubernetes `Service`, as used in the discovery URL.
    pub fn server_role_service_name(&self) -> (name: String)
        ensures
            name@ == role_service_name(self.deep_view()),
    {
        name_of_role(self.name.as_str(), OpaRole::Server.name().as_str())
    }

    /// The name of a role group's ConfigMap and workload.
    pub fn role_group_object_name(&self, role_group_name: &str) -> (name: String)
        ensures
            name@ == group_object_name(self.deep_view(), role_group_name@),
    {
        name_of_role_group(self.name.as_str(), OpaRole::Server.name().as_str(), role_group_name)
    }

    /// The name of a role group's headless Service.
    pub fn headless_service_name(&self, role_group_name: &str) -> (name: String)
        ensures
            name@ == group_headless_name(self.deep_view(), role_group_name@),
    {
        name_of_headless_service(
            self.name.as_str(),
            OpaRole::Server.name().as_str(),
            role_group_name,
        )
    }

    /// The name of a role group's metrics Service.
    pub fn metrics_service_name(&self, role_group_name: &str) -> (name: String)
        ensures
            name@ == group_metrics_name(self.deep_view(), role_group_name@),
    {
        name_of_metrics_service(
            self.name.as_str(),
            OpaRole::Server.name().as_str(),
            role_group_name,
        )
    }

    /// The name of the ServiceAccount that all Pods run under.
    pub fn service_account_name(&self) -> (name: String)
        ensures
            name@ == account_name(self.deep_view()),
    {
        let mut name = self.name.clone();
        name.append("-serviceaccount");
        name
    }

    /// The labels that select all Pods of the role.
    pub fn role_selector(&self) -> (labels: StringMap)
        ensures
            labels@ == role_labels(self.deep_view()),
    {
        role_selector(APP_NAME, self.name.as_str(), OpaRole::Server.name().as_str())
    }

    /// The labels that select all Pods of a role group.
    pub fn role_group_selector(&self, role_group_name: &str) -> (labels: StringMap)
        ensures
            labels@ == group_labels(self.deep_view(), role_group_name@),
    {
        role_group_selector(
            APP_NAME,
            self.name.as_str(),
            OpaRole::Server.name().as_str(),
            role_group_name,
        )
    }

    /// The recommended labels of the objects of the cluster as a whole.
    pub fn recommended_labels_for_cluster_resources(&self) -> (labels: StringMap)
        ensures
            labels@ == shared_labels(self.deep_view()),
    {
        cluster_object_labels(
            APP_NAME,
            self.name.as_str(),
            self.product_version.as_str(),
            manager(OPERATOR_NAME, OPA_CONTROLLER_NAME).as_str(),
        )
    }

    /// The recommended labels of the objects of a role group.
    pub fn recommended_labels(&self, role_group_name: &str) -> (labels: StringMap)
        ensures
            labels@ == object_labels(self.deep_view(), role_group_name@),
    {
        let mut labels = self.recommended_labels_for_cluster_resources();
        put(&mut labels, APP_COMPONENT_LABEL, OpaRole::Server.name().as_str());
        put(&mut labels, APP_ROLE_GROUP_LABEL, role_group_name);
        labels
    }

    /// The metadata of an object that the cluster owns.
    pub fn object_meta(&self, name: String, labels: StringMap) -> (meta: ObjectMeta)
        ensures
            meta.deep_view() == owned_object_meta(self.deep_view(), name@, labels@),
    {
        let mut meta = no_meta();
        meta.name = Some(name);
        meta.namespace = Some(self.namespace.clone());
        meta.labels = Some(labels);
        meta.owner_references = Some(
            one_item(owner_reference(API_VERSION, self.name.as_str(), self.uid.as_str())),
        );
        meta
    }
}

/// The name of the role Service.
pub open spec fn role_service_name(cluster: ValidatedClusterView) -> Seq<char> {
    role_name(cluster.name, OpaRole::Server.spec_name())
}

/// The name of a role group's ConfigMap and workload.
pub open spec fn group_object_name(cluster: ValidatedClusterView, group: Seq<char>) -> Seq<char> {
    role_group_name(cluster.name, OpaRole::Server.spec_name(), group)
}

/// The name of a role group's headless Service.
pub open spec fn group_headless_name(cluster: ValidatedClusterView, group: Seq<char>) -> Seq<char> {
    headless_service_name(cluster.name, OpaRole::Server.spec_name(), group)
}

/// The name of a role group's metrics Service.
pub open spec fn group_metrics_name(cluster: ValidatedClusterView, group: Seq<char>) -> Seq<char> {
    metrics_service_name(cluster.name, OpaRole::Server.spec_name(), group)
}

/// The name of the ServiceAccount that all Pods run under.
pub open spec fn account_name(cluster: ValidatedClusterView) -> Seq<char> {
    cluster.name + "-serviceaccount"@
}

/// The labels that select all Pods of the role.
pub open spec fn role_labels(cluster: ValidatedClusterView) -> Map<Seq<char>, Seq<char>> {
    role_selector_labels(APP_NAME@, cluster.name, OpaRole::Server.spec_name())
}

/// The labels that select all Pods of a role group.
pub open spec fn group_labels(
    cluster: ValidatedClusterView,
    group: Seq<char>,
) -> Map<Seq<char>, Seq<char>> {
    role_group_selector_labels(APP_NAME@, cluster.name, OpaRole::Server.spec_name(), group)
}

/// The recommended labels of the objects of the cluster as a whole.
pub open spec fn shared_labels(cluster: ValidatedClusterView) -> Map<Seq<char>, Seq<char>> {
    cluster_labels(
        APP_NAME@,
        cluster.name,
        cluster.product_version,
        managed_by(OPERATOR_NAME@, OPA_CONTROLLER_NAME@),
    )
}

/// The recommended labels of the objects of a role group.
pub open spec fn object_labels(
    cluster: ValidatedClusterView,
    group: Seq<char>,
) -> Map<Seq<char>, Seq<char>> {
    shared_labels(cluster).insert(APP_COMPONENT_LABEL@, OpaRole::Server.spec_name()).insert(
        APP_ROLE_GROUP_LABEL@,
        group,
    )
}

/// The metadata of an object that the cluster owns.
pub open spec fn owned_object_meta(
    cluster: ValidatedClusterView,
    name: Seq<char>,
    labels: Map<Seq<char>, Seq<char>>,
) -> ObjectMetaView {
    ObjectMetaView {
        name: Some(name),
        namespace: Some(cluster.namespace),
        labels: Some(labels),
        owner_references: Some(seq![controller_reference(API_VERSION@, cluster.name, cluster.uid)]),
        ..empty_meta()
    }
}

} // verus!
