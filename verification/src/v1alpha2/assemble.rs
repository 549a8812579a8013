//! Turns a validated cluster into its Kubernetes resources.
use crate::kubernetes::resources::{
    ConfigMap, ConfigMapView, DaemonSet, DaemonSetView, Deployment, DeploymentView,
    PodDisruptionBudget, PodDisruptionBudgetView, RoleBinding, RoleBindingView, Service,
    ServiceAccount, ServiceAccountView, ServiceView,
};
use crate::text_map::listing;
use crate::v1alpha2::cluster::{
    OpaRoleGroupConfig, OpaRoleGroupConfigView, ValidatedCluster, ValidatedClusterView,
    ValidatedLogging, ValidatedLoggingView,
};
use crate::v1alpha2::config_map;
use crate::v1alpha2::config_map::{
    build_rolegroup_config_map, rolegroup_config_map, RenderedFiles, RenderedFilesView,
};
use crate::v1alpha2::crd::{OpaRole, WorkloadKind};
use crate::v1alpha2::discovery::{build_discovery_config_map, discovery_config_map};
use crate::v1alpha2::pdb::{build_role_pod_disruption_budget, role_pod_disruption_budget};
use crate::v1alpha2::properties::vector_config_file_content;
use crate::v1alpha2::rbac::{
    build_role_binding, build_service_account, role_binding, service_account,
};
use crate::v1alpha2::service::{
    build_rolegroup_headless_service, build_rolegroup_metrics_service, build_server_role_service,
    rolegroup_headless_service, rolegroup_metrics_service, server_role_service,
};
use crate::v1alpha2::workload;
use crate::v1alpha2::workload::{
    build_server_rolegroup_daemonset, build_server_rolegroup_deployment, rolegroup_daemonset,
    rolegroup_deployment, PlatformParts, PlatformPartsView, PodInputs,
};
use crate::value::{no_items, one_item, push_item, Value};
use std::marker::PhantomData;
use vstd::prelude::*;

verus! {

/// Why the ConfigMap of a role group could not be built.
#[derive(Clone, Debug, PartialEq, Eq)]
pub struct ConfigMapFailure {
    pub source: config_map::Error,
    pub role_group: String,
}

/// The contents of a [`ConfigMapFailure`].
#[verifier::ext_equal]
pub struct ConfigMapFailureView {
    pub source: config_map::ErrorView,
    pub role_group: Seq<char>,
}

impl DeepView for ConfigMapFailure {
    type V = ConfigMapFailureView;

    open spec fn deep_view(&self) -> ConfigMapFailureView {
        ConfigMapFailureView {
            source: self.source.deep_view(),
            role_group: self.role_group.deep_view(),
        }
    }
}

impl Value for ConfigMapFailure {
    fn duplicate(&self) -> (copy: Self) {
        ConfigMapFailure {
            source: self.source.duplicate(),
            role_group: self.role_group.duplicate(),
        }
    }

    fn same_as(&self, other: &Self) -> (same: bool) {
        self.source.same_as(&other.source) && self.role_group.same_as(&other.role_group)
    }
}

/// Why the workload of a role group could not be built.
#[derive(Clone, Debug, PartialEq, Eq)]
pub struct WorkloadFailure {
    pub source: workload::Error,
    pub role_group: String,
}

/// The contents of a [`WorkloadFailure`].
#[verifier::ext_equal]
pub struct WorkloadFailureView {
    pub source: workload::ErrorView,
    pub role_group: Seq<char>,
}

impl DeepView for WorkloadFailure {
    type V = WorkloadFailureView;

    open spec fn deep_view(&self) -> WorkloadFailureView {
        WorkloadFailureView {
            source: self.source.deep_view(),
            role_group: self.role_group.deep_view(),
        }
    }
}

impl Value for WorkloadFailure {
    fn duplicate(&self) -> (copy: Self) {
        WorkloadFailure {
            source: self.source.duplicate(),
            role_group: self.role_group.duplicate(),
        }
    }

    fn same_as(&self, other: &Self) -> (same: bool) {
        self.source.same_as(&other.source) && self.role_group.same_as(&other.role_group)
    }
}

/// Why the resources of a cluster could not be built.
#[derive(Clone, Debug, PartialEq, Eq)]
pub enum Error {
    /// The ConfigMap of a role group could not be built.
    ConfigMap(ConfigMapFailure),
    /// The DaemonSet of a role group could not be built.
    DaemonSet(WorkloadFailure),
    /// The Deployment of a role group could not be built.
    Deployment(WorkloadFailure),
}

/// The contents of an [`Error`].
#[verifier::ext_equal]
pub enum ErrorView {
    ConfigMap(ConfigMapFailureView),
    DaemonSet(WorkloadFailureView),
    Deployment(WorkloadFailureView),
}

impl DeepView for Error {
    type V = ErrorView;

    open spec fn deep_view(&self) -> ErrorView {
        match self {
            Error::ConfigMap(inner) => ErrorView::ConfigMap(inner.deep_view()),
            Error::DaemonSet(inner) => ErrorView::DaemonSet(inner.deep_view()),
            Error::Deployment(inner) => ErrorView::Deployment(inner.deep_view()),
        }
    }
}

impl Value for Error {
    fn duplicate(&self) -> (copy: Self) {
        match self {
            Error::ConfigMap(inner) => Error::ConfigMap(inner.duplicate()),
            Error::DaemonSet(inner) => Error::DaemonSet(inner.duplicate()),
            Error::Deployment(inner) => Error::Deployment(inner.duplicate()),
        }
    }

    fn same_as(&self, other: &Self) -> (same: bool) {
        match (self, other) {
            (Error::ConfigMap(left), Error::ConfigMap(right)) => left.same_as(right),
            (Error::DaemonSet(left), Error::DaemonSet(right)) => left.same_as(right),
            (Error::Deployment(left), Error::Deployment(right)) => left.same_as(right),
            _ => false,
        }
    }
}

/// Marker for prepared Kubernetes resources which are not applied yet.
pub struct Prepared;

/// Marker for applied Kubernetes resources.
pub struct Applied;

/// Every Kubernetes resource of a cluster.
///
/// Each role group runs as either a DaemonSet or a Deployment, depending on its role's workload
/// kind, so exactly one of `daemon_sets` and `deployments` holds an entry for it. `services` holds
/// the role-level Service and the per-role-group headless and metrics Services; `config_maps` holds
/// the per-role-group ConfigMaps and the cluster-level discovery ConfigMap.
///
/// `T` is a marker that indicates whether these resources are only [`Prepared`] or already
/// [`Applied`]. It lets the type system prove that e.g. the cluster status is derived from applied
/// resources rather than merely built ones.
pub struct KubernetesResources<T> {
    pub daemon_sets: Vec<DaemonSet>,
    pub deployments: Vec<Deployment>,
    pub services: Vec<Service>,
    pub config_maps: Vec<ConfigMap>,
    pub service_accounts: Vec<ServiceAccount>,
    pub role_bindings: Vec<RoleBinding>,
    pub pod_disruption_budgets: Vec<PodDisruptionBudget>,
    pub status: PhantomData<T>,
}

/// The contents of [`KubernetesResources`].
#[verifier::ext_equal]
pub struct KubernetesResourcesView {
    pub daemon_sets: Seq<DaemonSetView>,
    pub deployments: Seq<DeploymentView>,
    pub services: Seq<ServiceView>,
    pub config_maps: Seq<ConfigMapView>,
    pub service_accounts: Seq<ServiceAccountView>,
    pub role_bindings: Seq<RoleBindingView>,
    pub pod_disruption_budgets: Seq<PodDisruptionBudgetView>,
}

impl<T> DeepView for KubernetesResources<T> {
    type V = KubernetesResourcesView;

    open spec fn deep_view(&self) -> KubernetesResourcesView {
        KubernetesResourcesView {
            daemon_sets: self.daemon_sets.deep_view(),
            deployments: self.deployments.deep_view(),
            services: self.services.deep_view(),
            config_maps: self.config_maps.deep_view(),
            service_accounts: self.service_accounts.deep_view(),
            role_bindings: self.role_bindings.deep_view(),
            pod_disruption_budgets: self.pod_disruption_budgets.deep_view(),
        }
    }
}

/// What the platform supplies for a role group.
pub struct RoleGroupParts {
    /// The rendered files of the role group's ConfigMap.
    pub files: RenderedFiles,
    /// The parts of the role group's Pods.
    pub platform: PlatformParts,
}

/// The contents of [`RoleGroupParts`].
pub struct RoleGroupPartsView {
    pub files: RenderedFilesView,
    pub platform: PlatformPartsView,
}

impl DeepView for RoleGroupParts {
    type V = RoleGroupPartsView;

    open spec fn deep_view(&self) -> RoleGroupPartsView {
        RoleGroupPartsView {
            files: self.files.deep_view(),
            platform: self.platform.deep_view(),
        }
    }
}

/// The configuration of the Vector agent, where the agent is enabled.
pub open spec fn agent_config(
    logging: ValidatedLoggingView,
    vector_yaml: Seq<char>,
) -> Option<Seq<char>> {
    match logging.vector_container {
        Some(_) => Some(vector_yaml),
        None => None,
    }
}

/// Builds the Vector agent config (`vector.yaml`) for a role group, or nothing when the Vector agent
/// is disabled. `vector_yaml` is the text of the file that the operator ships.
pub fn build_vector_config(logging: &ValidatedLogging, vector_yaml: &str) -> (config: Option<
    String,
>)
    ensures
        config.deep_view() == agent_config(logging.deep_view(), vector_yaml@),
{
    if logging.vector_container.is_some() {
        Some(vector_config_file_content(vector_yaml))
    } else {
        None
    }
}

/// The resources with the workload of a role group: a DaemonSet or a Deployment.
pub open spec fn with_workload(
    before: KubernetesResourcesView,
    cluster: ValidatedClusterView,
    name: Seq<char>,
    group: OpaRoleGroupConfigView,
    inputs: PodInputs,
    platform: PlatformPartsView,
) -> Result<KubernetesResourcesView, ErrorView> {
    match cluster.server_role_config.workload_kind {
        WorkloadKind::DaemonSet => match rolegroup_daemonset(cluster, name, group, inputs, platform) {
            Err(source) => Err(
                ErrorView::DaemonSet(WorkloadFailureView { source, role_group: name }),
            ),
            Ok(daemonset) => Ok(
                KubernetesResourcesView {
                    daemon_sets: before.daemon_sets.push(daemonset),
                    ..before
                },
            ),
        },
        WorkloadKind::Deployment => match rolegroup_deployment(
            cluster,
            name,
            group,
            inputs,
            platform,
        ) {
            Err(source) => Err(
                ErrorView::Deployment(WorkloadFailureView { source, role_group: name }),
            ),
            Ok(deployment) => Ok(
                KubernetesResourcesView {
                    deployments: before.deployments.push(deployment),
                    ..before
                },
            ),
        },
    }
}

/// The resources with those of a role group.
pub open spec fn with_role_group(
    before: KubernetesResourcesView,
    cluster: ValidatedClusterView,
    name: Seq<char>,
    group: OpaRoleGroupConfigView,
    inputs: PodInputs,
    parts: RoleGroupPartsView,
) -> Result<KubernetesResourcesView, ErrorView> {
    match rolegroup_config_map(
        cluster,
        name,
        parts.files,
        agent_config(group.config.logging, parts.files.vector_yaml),
    ) {
        Err(source) => Err(ErrorView::ConfigMap(ConfigMapFailureView { source, role_group: name })),
        Ok(config_map) => with_workload(
            KubernetesResourcesView {
                config_maps: before.config_maps.push(config_map),
                services: before.services.push(rolegroup_headless_service(cluster, name)).push(
                    rolegroup_metrics_service(cluster, name),
                ),
                ..before
            },
            cluster,
            name,
            group,
            inputs,
            parts.platform,
        ),
    }
}

fn add_role_group(
    resources: &mut KubernetesResources<Prepared>,
    cluster: &ValidatedCluster,
    name: &str,
    group: &OpaRoleGroupConfig,
    inputs: &PodInputs,
    parts: &RoleGroupParts,
) -> (result: Result<(), Error>)
    ensures
        match with_role_group(
            old(resources).deep_view(),
            cluster.deep_view(),
            name@,
            group.deep_view(),
            *inputs,
            parts.deep_view(),
        ) {
            Ok(expected) => result is Ok && final(resources).deep_view() == expected,
            Err(expected) => result matches Err(error) && error.deep_view() == expected,
        },
{
    match build_rolegroup_config_map(
        cluster,
        name,
        &parts.files,
        build_vector_config(&group.config.logging, parts.files.vector_yaml.as_str()),
    ) {
        Ok(config_map) => push_item(&mut resources.config_maps, config_map),
        Err(source) => {
            return Err(
                Error::ConfigMap(ConfigMapFailure { source, role_group: name.to_owned() }),
            );
        },
    }
    push_item(&mut resources.services, build_rolegroup_headless_service(cluster, name));
    push_item(&mut resources.services, build_rolegroup_metrics_service(cluster, name));
    match cluster.server_role_config.workload_kind {
        WorkloadKind::DaemonSet => match build_server_rolegroup_daemonset(
            cluster,
            name,
            group,
            inputs,
            &parts.platform,
        ) {
            Ok(daemonset) => push_item(&mut resources.daemon_sets, daemonset),
            Err(source) => {
                return Err(
                    Error::DaemonSet(WorkloadFailure { source, role_group: name.to_owned() }),
                );
            },
        },
        WorkloadKind::Deployment => match build_server_rolegroup_deployment(
            cluster,
            name,
            group,
            inputs,
            &parts.platform,
        ) {
            Ok(deployment) => push_item(&mut resources.deployments, deployment),
            Err(source) => {
                return Err(
                    Error::Deployment(WorkloadFailure { source, role_group: name.to_owned() }),
                );
            },
        },
    }
    Ok(())
}

/// The resources that do not belong to a role group and come before those that do: the role Service.
pub open spec fn role_resources(cluster: ValidatedClusterView) -> KubernetesResourcesView {
    KubernetesResourcesView {
        daemon_sets: Seq::empty(),
        deployments: Seq::empty(),
        services: seq![server_role_service(cluster)],
        config_maps: Seq::empty(),
        service_accounts: Seq::empty(),
        role_bindings: Seq::empty(),
        pod_disruption_budgets: Seq::empty(),
    }
}

/// The resources of the role and of some role groups, or the first failure.
pub open spec fn with_role_groups(
    cluster: ValidatedClusterView,
    groups: Seq<(Seq<char>, OpaRoleGroupConfigView)>,
    inputs: PodInputs,
    parts: Seq<RoleGroupPartsView>,
) -> Result<KubernetesResourcesView, ErrorView>
    decreases groups.len(),
{
    if groups.len() == 0 {
        Ok(role_resources(cluster))
    } else {
        match with_role_groups(cluster, groups.drop_last(), inputs, parts) {
            Err(error) => Err(error),
            Ok(before) => with_role_group(
                before,
                cluster,
                groups.last().0,
                groups.last().1,
                inputs,
                parts[groups.len() - 1],
            ),
        }
    }
}

proof fn lemma_role_groups_fail(
    cluster: ValidatedClusterView,
    groups: Seq<(Seq<char>, OpaRoleGroupConfigView)>,
    inputs: PodInputs,
    parts: Seq<RoleGroupPartsView>,
    n: int,
)
    requires
        0 <= n <= groups.len(),
        with_role_groups(cluster, groups.take(n), inputs, parts) is Err,
    ensures
        with_role_groups(cluster, groups, inputs, parts) == with_role_groups(
            cluster,
            groups.take(n),
            inputs,
            parts,
        ),
    decreases groups.len(),
{
    if n == groups.len() {
        assert(groups.take(n) =~= groups);
    } else {
        assert(groups.drop_last().take(n) =~= groups.take(n));
        lemma_role_groups_fail(cluster, groups.drop_last(), inputs, parts, n);
    }
}

/// The PodDisruptionBudget of the role, as a list.
pub open spec fn budgets(cluster: ValidatedClusterView) -> Seq<PodDisruptionBudgetView> {
    match role_pod_disruption_budget(cluster, OpaRole::Server, cluster.server_role_config) {
        Some(budget) => seq![budget],
        None => Seq::empty(),
    }
}

/// Every resource of a cluster, or the first failure.
///
/// `parts` is what the platform supplies for each role group, in the order of their names.
pub open spec fn cluster_resources(
    cluster: ValidatedClusterView,
    inputs: PodInputs,
    parts: Seq<RoleGroupPartsView>,
) -> Result<KubernetesResourcesView, ErrorView> {
    match with_role_groups(cluster, listing(cluster.server_role_groups), inputs, parts) {
        Err(error) => Err(error),
        Ok(resources) => Ok(
            KubernetesResourcesView {
                config_maps: resources.config_maps.push(
                    discovery_config_map(cluster, inputs.cluster_domain@),
                ),
                service_accounts: seq![service_account(cluster)],
                role_bindings: seq![role_binding(cluster)],
                pod_disruption_budgets: budgets(cluster),
                ..resources
            },
        ),
    }
}

/// Builds every Kubernetes resource for the given validated cluster.
///
/// Does not need a Kubernetes client: every reference to another Kubernetes resource is already
/// dereferenced and validated by this point, so the errors returned here are resource-assembly
/// failures only.
///
/// `parts` is what the platform supplies for each role group, in the order of their names.
pub fn build(cluster: &ValidatedCluster, inputs: &PodInputs, parts: &Vec<RoleGroupParts>) -> (result:
    Result<KubernetesResources<Prepared>, Error>)
    requires
        parts.len() == listing(cluster.server_role_groups@).len(),
    ensures
        match cluster_resources(cluster.deep_view(), *inputs, parts.deep_view()) {
            Ok(expected) => result matches Ok(resources) && resources.deep_view() == expected,
            Err(expected) => result matches Err(error) && error.deep_view() == expected,
        },
{
    let mut resources: KubernetesResources<Prepared> = KubernetesResources {
        daemon_sets: no_items(),
        deployments: no_items(),
        services: one_item(build_server_role_service(cluster)),
        config_maps: no_items(),
        service_accounts: no_items(),
        role_bindings: no_items(),
        pod_disruption_budgets: no_items(),
        status: PhantomData,
    };
    let entries = cluster.server_role_groups.entries();
    let ghost listed = listing(cluster.server_role_groups@);
    let mut i: usize = 0;
    while i < entries.len()
        invariant
            i <= entries.len(),
            entries.len() == parts.len(),
            listed == entries.deep_view(),
            listed == listing(cluster.server_role_groups@),
            with_role_groups(
                cluster.deep_view(),
                listed.take(i as int),
                *inputs,
                parts.deep_view(),
            ) == Ok::<_, ErrorView>(resources.deep_view()),
        decreases entries.len() - i,
    {
        proof {
            assert(listed.take(i + 1).drop_last() =~= listed.take(i as int));
            assert(listed[i as int] == entries[i as int].deep_view());
            assert(parts.deep_view()[i as int] == parts[i as int].deep_view());
        }
        if let Err(error) = add_role_group(
            &mut resources,
            cluster,
            entries[i].0.as_str(),
            &entries[i].1,
            inputs,
            &parts[i],
        ) {
            proof {
                lemma_role_groups_fail(
                    cluster.deep_view(),
                    listed,
                    *inputs,
                    parts.deep_view(),
                    i + 1,
                );
            }
            return Err(error);
        }
        i += 1;
    }
    assert(listed.take(i as int) =~= listed);
    push_item(
        &mut resources.config_maps,
        build_discovery_config_map(cluster, inputs.cluster_domain),
    );
    resources.service_accounts = one_item(build_service_account(cluster));
    resources.role_bindings = one_item(build_role_binding(cluster));
    let role = OpaRole::Server;
    resources.pod_disruption_budgets = match build_role_pod_disruption_budget(
        cluster,
        &role,
        cluster.role_config(&role),
    ) {
        Some(budget) => one_item(budget),
        None => no_items(),
    };
    Ok(resources)
}

} // verus!
