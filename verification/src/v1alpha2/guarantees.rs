//! What holds of the resources of a cluster together.
use crate::config::opa_shutdown_grace_period;
use crate::info_fetcher_sidecar::{SidecarVolumes, CREDENTIALS_DIR};
use crate::kubernetes::builder::volume_names_unique;
use crate::kubernetes::meta::ObjectMetaView;
use crate::kubernetes::owned::controller_reference;
use crate::kubernetes::parts::{config_map_volume_view, mount_view, read_only_mount_view};
use crate::kubernetes::pod::{
    EmptyDirVolumeSourceView, IntOrStringView, PodTemplateView, VolumeMountView, VolumeSourceView,
    VolumeView,
};
use crate::labels::{lemma_label_keys_differ, selects};
use crate::pod_consistency::{
    consistent, containers_covered, has_volume, lemma_containers_kept, lemma_has_volume_kept,
    lemma_needs_are_met, lemma_needs_keep_consistent, lemma_needs_only_add, mounts_covered,
    provided_covers_itself,
};
use crate::logging::spelled;
use crate::script_guarantees::lemma_scripts_hold_snippets;
use crate::start_command::{further_arguments, log_levels, opa_level, CONFIG_DIR, STACKABLE_LOG_DIR};
use crate::text::decimal;
use crate::text_map::{ascending, entries_map, listing};
use crate::user_info_fetcher;
use crate::v1alpha2::assemble::{
    agent_config, cluster_resources, with_role_group, with_role_groups, KubernetesResourcesView,
    RoleGroupPartsView,
};
use crate::v1alpha2::cluster::{
    container_log, group_headless_name, group_metrics_name, group_object_name, object_labels,
    role_service_name, OpaRoleGroupConfigView, ValidatedClusterView, ValidatedLoggingView, API_VERSION,
};
use crate::v1alpha2::config_map::{rolegroup_config_map, RenderedFilesView};
use crate::v1alpha2::{assemble, config_map, workload};
use crate::v1alpha2::crd::{pdb_enabled, Container, OpaRole, WorkloadKind};
use crate::v1alpha2::discovery::{discovery_config_map, discovery_url};
use crate::v1alpha2::pdb::role_pod_disruption_budget;
use crate::v1alpha2::properties::{ConfigFileName, VECTOR_CONFIG_FILE};
use crate::v1alpha2::rbac::{role_binding, service_account};
use crate::v1alpha2::resource_info_fetcher;
use crate::v1alpha2::service::{
    app_port, rolegroup_headless_service, rolegroup_metrics_service, server_role_service,
    tls_enabled,
};
use crate::v1alpha2::validate::{
    cluster_validated, role_groups_validated, ClusterInputView, RoleGroupInputView, RoleInputView,
};
use crate::v1alpha2::workload::{
    base_volumes, bundle_builder_container, opa_container, pod_template, prepare_container,
    provided_result, resource_info_fetcher_mounts, rolegroup_daemonset, rolegroup_deployment,
    user_info_fetcher_mounts, with_resource_info_fetcher, with_user_info_fetcher, PlatformPartsView,
    PodInputs, PodParts, BUNDLES_VOLUME_NAME, CONFIG_VOLUME_NAME, LOG_VOLUME_NAME,
    RESOURCE_INFO_FETCHER_CREDENTIALS_VOLUME_NAME, TLS_VOLUME_NAME,
    USER_INFO_FETCHER_CREDENTIALS_VOLUME_NAME,
};
use vstd::prelude::*;

verus! {

/// What the platform supplies fits together: the Vector agent mounts the volumes for configuration
/// and logs only, and what a backend asks for covers its own mounts.
pub open spec fn platform_consistent(platform: PlatformPartsView) -> bool {
    &&& provided_covers_itself(provided_result(platform.user_info_volumes))
    &&& provided_covers_itself(provided_result(platform.resource_info_volumes))
    &&& forall|i: int|
        0 <= i < platform.vector_container.volume_mounts.len() ==> (
        #[trigger] platform.vector_container.volume_mounts[i]).name == CONFIG_VOLUME_NAME@
            || platform.vector_container.volume_mounts[i].name == LOG_VOLUME_NAME@
}

proof fn lemma_base_volumes(
    cluster: ValidatedClusterView,
    role_group_name: Seq<char>,
    platform: PlatformPartsView,
)
    ensures
        volume_names_unique(base_volumes(cluster, role_group_name, platform)),
        has_volume(base_volumes(cluster, role_group_name, platform), CONFIG_VOLUME_NAME@),
        has_volume(base_volumes(cluster, role_group_name, platform), BUNDLES_VOLUME_NAME@),
        has_volume(base_volumes(cluster, role_group_name, platform), LOG_VOLUME_NAME@),
        tls_enabled(cluster) ==> has_volume(
            base_volumes(cluster, role_group_name, platform),
            TLS_VOLUME_NAME@,
        ),
{
    reveal_strlit("config");
    reveal_strlit("bundles");
    reveal_strlit("log");
    reveal_strlit("tls");
    let volumes = base_volumes(cluster, role_group_name, platform);
    assert(CONFIG_VOLUME_NAME@.len() == 6);
    assert(BUNDLES_VOLUME_NAME@.len() == 7);
    assert(LOG_VOLUME_NAME@[0] == 'l');
    assert(TLS_VOLUME_NAME@[0] == 't');
    assert(LOG_VOLUME_NAME@.len() == 3);
    assert(TLS_VOLUME_NAME@.len() == 3);
    assert(volumes[0].name == CONFIG_VOLUME_NAME@);
    assert(volumes[1].name == BUNDLES_VOLUME_NAME@);
    assert(volumes[2].name == LOG_VOLUME_NAME@);
    if tls_enabled(cluster) {
        assert(volumes[3].name == TLS_VOLUME_NAME@);
    }
}

proof fn lemma_user_info_fetcher_consistent(
    before: PodParts,
    cluster: ValidatedClusterView,
    group: OpaRoleGroupConfigView,
    inputs: PodInputs,
    platform: PlatformPartsView,
)
    requires
        platform_consistent(platform),
        volume_names_unique(before.volumes),
        containers_covered(before.containers, before.volumes),
        has_volume(before.volumes, CONFIG_VOLUME_NAME@),
        has_volume(before.volumes, LOG_VOLUME_NAME@),
    ensures
        with_user_info_fetcher(
            before,
            cluster,
            group.config,
            inputs.user_info_fetcher_image@,
            inputs.cluster_domain@,
            platform,
        ) matches Ok(after) ==> volume_names_unique(after.volumes) && containers_covered(
            after.containers,
            after.volumes,
        ) && before.volumes.is_prefix_of(after.volumes),
{
    reveal_strlit("/stackable/config");
    reveal_strlit("/stackable/log");
    assert(CONFIG_DIR@.len() != STACKABLE_LOG_DIR@.len());
    if let Ok(after) = with_user_info_fetcher(
        before,
        cluster,
        group.config,
        inputs.user_info_fetcher_image@,
        inputs.cluster_domain@,
        platform,
    ) {
        if let Some(user_info) = cluster.cluster_config.user_info {
            let start = SidecarVolumes {
                volumes: before.volumes,
                mounts: user_info_fetcher_mounts(),
            };
            assert(consistent(start));
            lemma_needs_keep_consistent(
                user_info_fetcher::backend_needs(user_info.backend),
                cluster.name,
                mount_view(USER_INFO_FETCHER_CREDENTIALS_VOLUME_NAME@, CREDENTIALS_DIR@),
                provided_result(platform.user_info_volumes),
                start,
            );
            lemma_containers_kept(before.containers, before.volumes, after.volumes);
        }
    }
}

proof fn lemma_resource_info_fetcher_consistent(
    before: PodParts,
    cluster: ValidatedClusterView,
    group: OpaRoleGroupConfigView,
    inputs: PodInputs,
    platform: PlatformPartsView,
)
    requires
        platform_consistent(platform),
        volume_names_unique(before.volumes),
        containers_covered(before.containers, before.volumes),
        has_volume(before.volumes, CONFIG_VOLUME_NAME@),
        has_volume(before.volumes, LOG_VOLUME_NAME@),
    ensures
        with_resource_info_fetcher(
            before,
            cluster,
            group.config,
            inputs.resource_info_fetcher_image@,
            inputs.cluster_domain@,
            platform,
        ) matches Ok(after) ==> volume_names_unique(after.volumes) && containers_covered(
            after.containers,
            after.volumes,
        ) && before.volumes.is_prefix_of(after.volumes),
{
    reveal_strlit("/stackable/config");
    reveal_strlit("/stackable/log");
    assert(CONFIG_DIR@.len() != STACKABLE_LOG_DIR@.len());
    if let Ok(after) = with_resource_info_fetcher(
        before,
        cluster,
        group.config,
        inputs.resource_info_fetcher_image@,
        inputs.cluster_domain@,
        platform,
    ) {
        if let Some(resource_info) = cluster.cluster_config.resource_info {
            let start = SidecarVolumes {
                volumes: before.volumes,
                mounts: resource_info_fetcher_mounts(),
            };
            assert(consistent(start));
            lemma_needs_keep_consistent(
                resource_info_fetcher::backend_needs(resource_info.backend),
                cluster.name,
                read_only_mount_view(
                    RESOURCE_INFO_FETCHER_CREDENTIALS_VOLUME_NAME@,
                    CREDENTIALS_DIR@,
                ),
                provided_result(platform.resource_info_volumes),
                start,
            );
            lemma_containers_kept(before.containers, before.volumes, after.volumes);
        }
    }
}

/// The containers that every Pod has.
pub open spec fn first_parts(
    cluster: ValidatedClusterView,
    role_group_name: Seq<char>,
    group: OpaRoleGroupConfigView,
    inputs: PodInputs,
    platform: PlatformPartsView,
) -> PodParts {
    PodParts {
        containers: seq![
            opa_container(cluster.image, group, tls_enabled(cluster), platform),
            bundle_builder_container(
                cluster.image,
                group.config,
                inputs.opa_bundle_builder_image@,
                inputs.cluster_domain@,
                platform,
            ),
        ],
        volumes: base_volumes(cluster, role_group_name, platform),
    }
}

/// Every volume of a role group's Pods has a name of its own, and every container mounts volumes
/// of the Pod only.
pub proof fn lemma_pod_volumes_consistent(
    cluster: ValidatedClusterView,
    role_group_name: Seq<char>,
    group: OpaRoleGroupConfigView,
    inputs: PodInputs,
    platform: PlatformPartsView,
)
    requires
        platform_consistent(platform),
    ensures
        pod_template(cluster, role_group_name, group, inputs, platform) matches Ok(template) ==> {
            &&& volume_names_unique(template.volumes)
            &&& containers_covered(template.init_containers, template.volumes)
            &&& containers_covered(template.containers, template.volumes)
        },
{
    if let Ok(template) = pod_template(cluster, role_group_name, group, inputs, platform) {
        let first = first_parts(cluster, role_group_name, group, inputs, platform);
        let base = first.volumes;
        lemma_base_volumes(cluster, role_group_name, platform);
        assert(mounts_covered(first.containers[0].volume_mounts, base));
        assert(mounts_covered(first.containers[1].volume_mounts, base));
        assert(containers_covered(first.containers, base));
        lemma_user_info_fetcher_consistent(first, cluster, group, inputs, platform);
        let second = with_user_info_fetcher(
            first,
            cluster,
            group.config,
            inputs.user_info_fetcher_image@,
            inputs.cluster_domain@,
            platform,
        )->Ok_0;
        lemma_has_volume_kept(base, second.volumes, CONFIG_VOLUME_NAME@);
        lemma_has_volume_kept(base, second.volumes, LOG_VOLUME_NAME@);
        lemma_resource_info_fetcher_consistent(second, cluster, group, inputs, platform);
        let third = with_resource_info_fetcher(
            second,
            cluster,
            group.config,
            inputs.resource_info_fetcher_image@,
            inputs.cluster_domain@,
            platform,
        )->Ok_0;
        assert(base.is_prefix_of(third.volumes));
        lemma_has_volume_kept(base, third.volumes, CONFIG_VOLUME_NAME@);
        lemma_has_volume_kept(base, third.volumes, BUNDLES_VOLUME_NAME@);
        lemma_has_volume_kept(base, third.volumes, LOG_VOLUME_NAME@);
        assert(mounts_covered(platform.vector_container.volume_mounts, third.volumes));
        let prepare = prepare_container(cluster.image, group.config, platform);
        assert(mounts_covered(prepare.volume_mounts, third.volumes));
        assert(template.init_containers[0] == prepare);
    }
}

/// OPA is the first container of every Pod.
pub proof fn lemma_opa_is_first(
    cluster: ValidatedClusterView,
    role_group_name: Seq<char>,
    group: OpaRoleGroupConfigView,
    inputs: PodInputs,
    platform: PlatformPartsView,
)
    ensures
        pod_template(cluster, role_group_name, group, inputs, platform) matches Ok(template)
            ==> template.containers.len() >= 2 && template.containers[0] == opa_container(
            cluster.image,
            group,
            tls_enabled(cluster),
            platform,
        ),
{
    let first = first_parts(cluster, role_group_name, group, inputs, platform);
    if let Ok(template) = pod_template(cluster, role_group_name, group, inputs, platform) {
        assert(template.containers[0] == first.containers[0]);
    }
}

/// The Pods of a role group are the same whether it runs as a DaemonSet or as a Deployment: only
/// the number of replicas is particular to the Deployment.
pub proof fn lemma_workload_kinds_share_the_template(
    cluster: ValidatedClusterView,
    role_group_name: Seq<char>,
    group: OpaRoleGroupConfigView,
    inputs: PodInputs,
    platform: PlatformPartsView,
)
    ensures
        match (
            rolegroup_daemonset(cluster, role_group_name, group, inputs, platform),
            rolegroup_deployment(cluster, role_group_name, group, inputs, platform),
        ) {
            (Ok(daemonset), Ok(deployment)) => {
                &&& daemonset.metadata == deployment.metadata
                &&& daemonset.spec->0.template == deployment.spec->0.template
                &&& daemonset.spec->0.selector == deployment.spec->0.selector
                &&& daemonset.spec->0.update_strategy == deployment.spec->0.strategy
                &&& deployment.spec->0.replicas is Some <==> group.replicas is Some
                &&& group.replicas matches Some(replicas) ==> deployment.spec->0.replicas == Some(
                    replicas as i32,
                )
            },
            (Err(left), Err(right)) => left == right,
            _ => false,
        },
{
}

/// A workload selects its own Pods, and not those of another role group.
pub proof fn lemma_workload_selects_its_pods(
    cluster: ValidatedClusterView,
    role_group_name: Seq<char>,
    group: OpaRoleGroupConfigView,
    inputs: PodInputs,
    platform: PlatformPartsView,
    other: Seq<char>,
)
    requires
        other != role_group_name,
    ensures
        rolegroup_deployment(cluster, role_group_name, group, inputs, platform) matches Ok(workload)
            ==> {
            &&& selects(
                workload.spec->0.selector.match_labels->0,
                workload.spec->0.template.metadata.labels->0,
            )
            &&& !selects(workload.spec->0.selector.match_labels->0, object_labels(cluster, other))
        },
{
    lemma_label_keys_differ();
    if let Ok(workload) = rolegroup_deployment(cluster, role_group_name, group, inputs, platform) {
        let selector = workload.spec->0.selector.match_labels->0;
        assert(selector.contains_key(crate::labels::APP_ROLE_GROUP_LABEL@));
    }
}

/// All Services of a cluster, and the PodDisruptionBudget of its role, select the Pods of a role
/// group.
pub proof fn lemma_services_select_the_pods(
    cluster: ValidatedClusterView,
    role_group_name: Seq<char>,
    group: OpaRoleGroupConfigView,
    inputs: PodInputs,
    platform: PlatformPartsView,
)
    requires
        pod_template(cluster, role_group_name, group, inputs, platform) is Ok,
    ensures
        ({
            let labels = (pod_template(
                cluster,
                role_group_name,
                group,
                inputs,
                platform,
            )->Ok_0).metadata.labels->0;
            &&& selects(server_role_service(cluster).spec->0.selector->0, labels)
            &&& selects(
                rolegroup_headless_service(cluster, role_group_name).spec->0.selector->0,
                labels,
            )
            &&& selects(
                rolegroup_metrics_service(cluster, role_group_name).spec->0.selector->0,
                labels,
            )
            &&& role_pod_disruption_budget(
                cluster,
                OpaRole::Server,
                cluster.server_role_config,
            ) matches Some(budget) ==> selects(
                (budget.spec->0.selector->0).match_labels->0,
                labels,
            )
        }),
{
    lemma_label_keys_differ();
}

/// OPA listens on one port, under one name. Its probes ask for that name, and all Services lead to
/// that port. It is probed over TLS if and only if TLS is enabled.
pub proof fn lemma_ports_agree(
    cluster: ValidatedClusterView,
    role_group_name: Seq<char>,
    group: OpaRoleGroupConfigView,
    inputs: PodInputs,
    platform: PlatformPartsView,
)
    requires
        pod_template(cluster, role_group_name, group, inputs, platform) is Ok,
    ensures
        ({
            let opa = (pod_template(
                cluster,
                role_group_name,
                group,
                inputs,
                platform,
            )->Ok_0).containers[0];
            let port = opa.ports[0];
            &&& opa.ports.len() == 1
            &&& (opa.readiness_probe->0.http_get->0).port == IntOrStringView::Name(port.name->0)
            &&& (opa.liveness_probe->0.http_get->0).port == IntOrStringView::Name(port.name->0)
            &&& (opa.readiness_probe->0.http_get->0).scheme == Some("HTTPS"@) <==> tls_enabled(cluster)
            &&& (opa.liveness_probe->0.http_get->0).scheme == Some("HTTPS"@) <==> tls_enabled(cluster)
            &&& (server_role_service(cluster).spec->0.ports->0)[0].port == port.container_port
            &&& (server_role_service(cluster).spec->0.ports->0)[0].name == port.name
            &&& (rolegroup_headless_service(cluster, role_group_name).spec->0.ports->0)[0].port
                == port.container_port
            &&& (rolegroup_metrics_service(cluster, role_group_name).spec->0.ports->0)[0].port
                == port.container_port
        }),
{
    reveal_strlit("HTTPS");
    reveal_strlit("HTTP");
    assert("HTTPS"@.len() != "HTTP"@.len());
    lemma_opa_is_first(cluster, role_group_name, group, inputs, platform);
}

/// Clients are led to the role Service: the discovery URL names it and the port that it offers. With
/// TLS, the certificate of every Pod is valid for it.
pub proof fn lemma_discovery_leads_to_the_role_service(
    cluster: ValidatedClusterView,
    cluster_domain: Seq<char>,
    role_group_name: Seq<char>,
    platform: PlatformPartsView,
)
    ensures
        ({
            let service = server_role_service(cluster);
            let scheme = if tls_enabled(cluster) {
                "https"@
            } else {
                "http"@
            };
            discovery_url(cluster, cluster_domain) == scheme + "://"@ + service.metadata.name->0
                + "."@ + service.metadata.namespace->0 + ".svc."@ + cluster_domain + ":"@ + decimal(
                (service.spec->0.ports->0)[0].port as nat,
            ) + "/"@
        }),
        tls_enabled(cluster) ==> {
            let certificate = base_volumes(cluster, role_group_name, platform)[3];
            &&& certificate.name == TLS_VOLUME_NAME@
            &&& certificate.source->SecretClass_0.scope->0.services.contains(
                server_role_service(cluster).metadata.name->0,
            )
            &&& certificate.source->SecretClass_0.scope->0.services.contains(
                rolegroup_headless_service(cluster, role_group_name).metadata.name->0,
            )
            &&& certificate.source->SecretClass_0.scope->0.services.contains(
                rolegroup_metrics_service(cluster, role_group_name).metadata.name->0,
            )
        },
{
    if tls_enabled(cluster) {
        let services =
            base_volumes(cluster, role_group_name, platform)[3].source->SecretClass_0.scope->0.services;
        assert(services[0] == role_service_name(cluster));
        assert(services[1] == group_headless_name(cluster, role_group_name));
        assert(services[2] == group_metrics_name(cluster, role_group_name));
    }
}

/// The Pods run under the ServiceAccount that is built, and the RoleBinding binds it.
pub proof fn lemma_pods_run_under_the_bound_account(
    cluster: ValidatedClusterView,
    role_group_name: Seq<char>,
    group: OpaRoleGroupConfigView,
    inputs: PodInputs,
    platform: PlatformPartsView,
)
    ensures
        pod_template(cluster, role_group_name, group, inputs, platform) matches Ok(template)
            ==> template.service_account_name == service_account(cluster).metadata.name,
        (role_binding(cluster).subjects->0)[0].name == service_account(cluster).metadata.name->0,
        (role_binding(cluster).subjects->0)[0].namespace == service_account(
            cluster,
        ).metadata.namespace,
{
}

/// The configuration that a Pod mounts is the ConfigMap that is built for its role group.
pub proof fn lemma_pods_mount_their_config_map(
    cluster: ValidatedClusterView,
    role_group_name: Seq<char>,
    parts: RoleGroupPartsView,
    vector_config: Option<Seq<char>>,
)
    ensures
        rolegroup_config_map(cluster, role_group_name, parts.files, vector_config) matches Ok(
            config_map,
        ) ==> base_volumes(cluster, role_group_name, parts.platform)[0] == config_map_volume_view(
            CONFIG_VOLUME_NAME@,
            config_map.metadata.name->0,
        ),
{
}

/// The ConfigMap of a role group holds the configuration of the Vector agent that the operator ships,
/// as it is, exactly where the agent is enabled.
pub proof fn lemma_vector_agent_is_configured(
    cluster: ValidatedClusterView,
    role_group_name: Seq<char>,
    files: RenderedFilesView,
    logging: ValidatedLoggingView,
)
    ensures
        rolegroup_config_map(
            cluster,
            role_group_name,
            files,
            agent_config(logging, files.vector_yaml),
        ) matches Ok(config_map) ==> {
            let data = config_map.data->0;
            &&& data.contains_key(VECTOR_CONFIG_FILE@) <==> logging.vector_container is Some
            &&& logging.vector_container is Some ==> data[VECTOR_CONFIG_FILE@] == files.vector_yaml
        },
{
    reveal_strlit("vector.yaml");
    reveal_strlit("config.json");
    reveal_strlit("user-info-fetcher.json");
    reveal_strlit("resource-info-fetcher.json");
    assert(VECTOR_CONFIG_FILE@[0] == 'v');
    assert(VECTOR_CONFIG_FILE@.len() == 11);
    assert("config.json"@[0] == 'c');
}

/// A Pod that is told to stop is given longer than OPA needs to shut down gracefully.
pub proof fn lemma_pod_outlives_opa_shutdown(
    cluster: ValidatedClusterView,
    role_group_name: Seq<char>,
    group: OpaRoleGroupConfigView,
    inputs: PodInputs,
    platform: PlatformPartsView,
)
    requires
        group.config.graceful_shutdown_timeout is Some,
    ensures
        pod_template(cluster, role_group_name, group, inputs, platform) matches Ok(template)
            ==> template.termination_grace_period_seconds matches Some(seconds) && seconds
            > opa_shutdown_grace_period(group.config.graceful_shutdown_timeout),
{
}

/// Whether an object belongs to the cluster: it is in the same namespace, and is deleted with it.
pub open spec fn owned_by(meta: ObjectMetaView, cluster: ValidatedClusterView) -> bool {
    &&& meta.namespace == Some(cluster.namespace)
    &&& meta.owner_references == Some(
        seq![controller_reference(API_VERSION@, cluster.name, cluster.uid)],
    )
}

/// Whether all resources belong to the cluster.
pub open spec fn all_owned(resources: KubernetesResourcesView, cluster: ValidatedClusterView) -> bool {
    &&& forall|i: int|
        0 <= i < resources.daemon_sets.len() ==> owned_by(
            (#[trigger] resources.daemon_sets[i]).metadata,
            cluster,
        )
    &&& forall|i: int|
        0 <= i < resources.deployments.len() ==> owned_by(
            (#[trigger] resources.deployments[i]).metadata,
            cluster,
        )
    &&& forall|i: int|
        0 <= i < resources.services.len() ==> owned_by(
            (#[trigger] resources.services[i]).metadata,
            cluster,
        )
    &&& forall|i: int|
        0 <= i < resources.config_maps.len() ==> owned_by(
            (#[trigger] resources.config_maps[i]).metadata,
            cluster,
        )
    &&& forall|i: int|
        0 <= i < resources.service_accounts.len() ==> owned_by(
            (#[trigger] resources.service_accounts[i]).metadata,
            cluster,
        )
    &&& forall|i: int|
        0 <= i < resources.role_bindings.len() ==> owned_by(
            (#[trigger] resources.role_bindings[i]).metadata,
            cluster,
        )
    &&& forall|i: int|
        0 <= i < resources.pod_disruption_budgets.len() ==> owned_by(
            (#[trigger] resources.pod_disruption_budgets[i]).metadata,
            cluster,
        )
}

/// What is built for some role groups: each of them has one workload of the role's kind, one
/// ConfigMap and two Services, in their order.
pub open spec fn resources_by_group(
    resources: KubernetesResourcesView,
    cluster: ValidatedClusterView,
    groups: Seq<(Seq<char>, OpaRoleGroupConfigView)>,
) -> bool {
    &&& cluster.server_role_config.workload_kind == WorkloadKind::DaemonSet ==> {
        &&& resources.deployments.len() == 0
        &&& resources.daemon_sets.len() == groups.len()
        &&& forall|i: int|
            0 <= i < groups.len() ==> (#[trigger] resources.daemon_sets[i]).metadata.name == Some(
                group_object_name(cluster, groups[i].0),
            )
    }
    &&& cluster.server_role_config.workload_kind == WorkloadKind::Deployment ==> {
        &&& resources.daemon_sets.len() == 0
        &&& resources.deployments.len() == groups.len()
        &&& forall|i: int|
            0 <= i < groups.len() ==> (#[trigger] resources.deployments[i]).metadata.name == Some(
                group_object_name(cluster, groups[i].0),
            )
    }
    &&& resources.services.len() == 1 + 2 * groups.len()
    &&& resources.services[0] == server_role_service(cluster)
    &&& forall|i: int|
        #![trigger groups[i]]
        0 <= i < groups.len() ==> resources.services[1 + 2 * i] == rolegroup_headless_service(
            cluster,
            groups[i].0,
        ) && resources.services[2 + 2 * i] == rolegroup_metrics_service(cluster, groups[i].0)
    &&& resources.config_maps.len() >= groups.len()
    &&& forall|i: int|
        0 <= i < groups.len() ==> (#[trigger] resources.config_maps[i]).metadata.name == Some(
            group_object_name(cluster, groups[i].0),
        )
}

proof fn lemma_group_resources(
    cluster: ValidatedClusterView,
    groups: Seq<(Seq<char>, OpaRoleGroupConfigView)>,
    inputs: PodInputs,
    parts: Seq<RoleGroupPartsView>,
)
    ensures
        with_role_groups(cluster, groups, inputs, parts) matches Ok(resources) ==> {
            &&& resources_by_group(resources, cluster, groups)
            &&& resources.config_maps.len() == groups.len()
            &&& resources.service_accounts.len() == 0
            &&& resources.role_bindings.len() == 0
            &&& resources.pod_disruption_budgets.len() == 0
            &&& all_owned(resources, cluster)
        },
    decreases groups.len(),
{
    if groups.len() > 0 {
        lemma_group_resources(cluster, groups.drop_last(), inputs, parts);
        if let Ok(resources) = with_role_groups(cluster, groups, inputs, parts) {
            let before = with_role_groups(cluster, groups.drop_last(), inputs, parts)->Ok_0;
            let last = groups.len() - 1;
            assert(forall|i: int|
                0 <= i < last ==> #[trigger] groups.drop_last()[i] == groups[i]);
            assert(resources.config_maps.drop_last() =~= before.config_maps);
            assert(resources.services.take(1 + 2 * last) =~= before.services);
            assert forall|i: int|
                #![trigger groups[i]]
                0 <= i < groups.len() implies resources.services[1 + 2 * i]
                == rolegroup_headless_service(cluster, groups[i].0) && resources.services[2 + 2 * i]
                == rolegroup_metrics_service(cluster, groups[i].0) by {
                if i < last {
                    assert(groups.drop_last()[i] == groups[i]);
                    assert(resources.services[1 + 2 * i] == before.services[1 + 2 * i]);
                    assert(resources.services[2 + 2 * i] == before.services[2 + 2 * i]);
                }
            }
            assert forall|i: int| 0 <= i < groups.len() implies (
            #[trigger] resources.config_maps[i]).metadata.name == Some(
                group_object_name(cluster, groups[i].0),
            ) by {
                if i < last {
                    assert(resources.config_maps[i] == before.config_maps[i]);
                    assert(groups.drop_last()[i] == groups[i]);
                }
            }
            assert forall|i: int| 0 <= i < resources.services.len() implies owned_by(
                (#[trigger] resources.services[i]).metadata,
                cluster,
            ) by {
                if i < 1 + 2 * last {
                    assert(resources.services[i] == before.services[i]);
                }
            }
            if cluster.server_role_config.workload_kind == WorkloadKind::DaemonSet {
                assert forall|i: int| 0 <= i < groups.len() implies (
                #[trigger] resources.daemon_sets[i]).metadata.name == Some(
                    group_object_name(cluster, groups[i].0),
                ) by {
                    if i < last {
                        assert(resources.daemon_sets[i] == before.daemon_sets[i]);
                        assert(groups.drop_last()[i] == groups[i]);
                    }
                }
            } else {
                assert forall|i: int| 0 <= i < groups.len() implies (
                #[trigger] resources.deployments[i]).metadata.name == Some(
                    group_object_name(cluster, groups[i].0),
                ) by {
                    if i < last {
                        assert(resources.deployments[i] == before.deployments[i]);
                        assert(groups.drop_last()[i] == groups[i]);
                    }
                }
            }
        }
    }
}

/// Every role group runs as exactly one workload, of the kind that its role asks for, with a
/// ConfigMap and two Services of its own. Besides there are one role Service, one discovery
/// ConfigMap, one ServiceAccount and one RoleBinding. Everything belongs to the cluster.
pub proof fn lemma_cluster_resources(
    cluster: ValidatedClusterView,
    inputs: PodInputs,
    parts: Seq<RoleGroupPartsView>,
)
    ensures
        cluster_resources(cluster, inputs, parts) matches Ok(resources) ==> {
            &&& resources_by_group(resources, cluster, listing(cluster.server_role_groups))
            &&& resources.config_maps.len() == listing(cluster.server_role_groups).len() + 1
            &&& resources.config_maps.last().metadata.name == Some(cluster.name)
            &&& resources.service_accounts == seq![service_account(cluster)]
            &&& resources.role_bindings == seq![role_binding(cluster)]
            &&& resources.pod_disruption_budgets.len() == if pdb_enabled(
                cluster.server_role_config,
            ) {
                1nat
            } else {
                0nat
            }
            &&& all_owned(resources, cluster)
        },
{
    let groups = listing(cluster.server_role_groups);
    lemma_group_resources(cluster, groups, inputs, parts);
    if let Ok(resources) = cluster_resources(cluster, inputs, parts) {
        let before = with_role_groups(cluster, groups, inputs, parts)->Ok_0;
        assert forall|i: int| 0 <= i < groups.len() implies (
        #[trigger] resources.config_maps[i]).metadata.name == Some(
            group_object_name(cluster, groups[i].0),
        ) by {
            assert(resources.config_maps[i] == before.config_maps[i]);
        }
        assert forall|i: int| 0 <= i < resources.config_maps.len() implies owned_by(
            (#[trigger] resources.config_maps[i]).metadata,
            cluster,
        ) by {
            if i < before.config_maps.len() {
                assert(resources.config_maps[i] == before.config_maps[i]);
            }
        }
    }
}

proof fn lemma_validated_groups(
    cluster_name: Seq<char>,
    role: RoleInputView,
    aggregator: Option<Seq<char>>,
    errors: Map<Seq<char>, Seq<char>>,
    groups: Seq<(Seq<char>, RoleGroupInputView)>,
)
    ensures
        role_groups_validated(cluster_name, role, aggregator, errors, groups) matches Ok(validated)
            ==> validated.dom() == entries_map(groups).dom(),
    decreases groups.len(),
{
    if groups.len() > 0 {
        lemma_validated_groups(cluster_name, role, aggregator, errors, groups.drop_last());
        if let Ok(validated) = role_groups_validated(cluster_name, role, aggregator, errors, groups) {
            assert(validated.dom() =~= entries_map(groups).dom());
        }
    }
}

/// Validation neither drops nor invents a role group.
pub proof fn lemma_validation_keeps_role_groups(
    input: ClusterInputView,
    entries: Seq<(Seq<char>, RoleGroupInputView)>,
)
    requires
        ascending(entries),
        input.role_groups == entries_map(entries),
    ensures
        cluster_validated(input) matches Ok(cluster) ==> cluster.server_role_groups.dom()
            == input.role_groups.dom(),
{
    crate::text_map::lemma_listing(entries);
    if let Ok(cluster) = cluster_validated(input) {
        lemma_validated_groups(
            cluster.name,
            input.role,
            crate::v1alpha2::validate::aggregator_name(
                input.vector_aggregator_config_map_name,
            )->Ok_0,
            input.env_var_name_errors,
            entries,
        );
    }
}

#[verifier::rlimit(40)]
proof fn lemma_group_objects(
    cluster: ValidatedClusterView,
    groups: Seq<(Seq<char>, OpaRoleGroupConfigView)>,
    inputs: PodInputs,
    parts: Seq<RoleGroupPartsView>,
    i: int,
)
    requires
        with_role_groups(cluster, groups, inputs, parts) is Ok,
        0 <= i < groups.len(),
    ensures
        ({
            let resources = with_role_groups(cluster, groups, inputs, parts)->Ok_0;
            &&& resources.config_maps.len() == groups.len()
            &&& rolegroup_config_map(
                cluster,
                groups[i].0,
                parts[i].files,
                agent_config(groups[i].1.config.logging, parts[i].files.vector_yaml),
            ) == Ok::<_, config_map::ErrorView>(resources.config_maps[i])
            &&& cluster.server_role_config.workload_kind == WorkloadKind::DaemonSet ==> {
                &&& resources.daemon_sets.len() == groups.len()
                &&& rolegroup_daemonset(
                    cluster,
                    groups[i].0,
                    groups[i].1,
                    inputs,
                    parts[i].platform,
                ) == Ok::<_, workload::ErrorView>(resources.daemon_sets[i])
            }
            &&& cluster.server_role_config.workload_kind == WorkloadKind::Deployment ==> {
                &&& resources.deployments.len() == groups.len()
                &&& rolegroup_deployment(
                    cluster,
                    groups[i].0,
                    groups[i].1,
                    inputs,
                    parts[i].platform,
                ) == Ok::<_, workload::ErrorView>(resources.deployments[i])
            }
        }),
    decreases groups.len(),
{
    lemma_group_resources(cluster, groups, inputs, parts);
    lemma_group_resources(cluster, groups.drop_last(), inputs, parts);
    let resources = with_role_groups(cluster, groups, inputs, parts)->Ok_0;
    let before = with_role_groups(cluster, groups.drop_last(), inputs, parts)->Ok_0;
    if i < groups.len() - 1 {
        lemma_group_objects(cluster, groups.drop_last(), inputs, parts, i);
        assert(groups.drop_last()[i] == groups[i]);
        assert(resources.config_maps[i] == before.config_maps[i]);
        if cluster.server_role_config.workload_kind == WorkloadKind::DaemonSet {
            assert(resources.daemon_sets[i] == before.daemon_sets[i]);
        } else {
            assert(resources.deployments[i] == before.deployments[i]);
        }
    }
}

/// The Pod template of a role group's workload.
pub open spec fn workload_template(
    resources: KubernetesResourcesView,
    cluster: ValidatedClusterView,
    i: int,
) -> PodTemplateView {
    match cluster.server_role_config.workload_kind {
        WorkloadKind::DaemonSet => resources.daemon_sets[i].spec->0.template,
        WorkloadKind::Deployment => resources.deployments[i].spec->0.template,
    }
}

/// What the platform supplies for a role group ends up in the objects of that role group: its rendered
/// files in its ConfigMap, and its parts in the Pods of its workload.
#[verifier::rlimit(40)]
pub proof fn lemma_parts_go_with_their_role_group(
    cluster: ValidatedClusterView,
    inputs: PodInputs,
    parts: Seq<RoleGroupPartsView>,
    i: int,
)
    requires
        cluster_resources(cluster, inputs, parts) is Ok,
        0 <= i < listing(cluster.server_role_groups).len(),
    ensures
        ({
            let resources = cluster_resources(cluster, inputs, parts)->Ok_0;
            let name = listing(cluster.server_role_groups)[i].0;
            let group = listing(cluster.server_role_groups)[i].1;
            let files = parts[i].files;
            let platform = parts[i].platform;
            let data = resources.config_maps[i].data->0;
            let template = workload_template(resources, cluster, i);
            &&& resources.config_maps[i].metadata.name == Some(cluster.name + "-server-"@ + name)
            &&& resources.config_maps[i].data is Some
            &&& files.config_json is Valid
            &&& data.contains_key("config.json"@)
            &&& data["config.json"@] == files.config_json->Valid_0
            &&& data.contains_key("user-info-fetcher.json"@)
                <==> cluster.cluster_config.user_info is Some
            &&& cluster.cluster_config.user_info is Some ==> files.user_info_fetcher is Valid
                && data["user-info-fetcher.json"@] == files.user_info_fetcher->Valid_0
            &&& data.contains_key("resource-info-fetcher.json"@)
                <==> cluster.cluster_config.resource_info is Some
            &&& cluster.cluster_config.resource_info is Some ==> files.resource_info_fetcher
                is Valid && data["resource-info-fetcher.json"@]
                == files.resource_info_fetcher->Valid_0
            &&& data.contains_key("vector.yaml"@) <==> group.config.logging.vector_container is Some
            &&& group.config.logging.vector_container is Some ==> data["vector.yaml"@]
                == files.vector_yaml
            &&& Ok::<_, workload::ErrorView>(template) == pod_template(
                cluster,
                name,
                group,
                inputs,
                platform,
            )
            &&& template.volumes.len() >= 3
            &&& template.volumes[0].source == VolumeSourceView::ConfigMap(
                resources.config_maps[i].metadata.name->0,
            )
            &&& template.volumes[2].source == VolumeSourceView::EmptyDir(
                EmptyDirVolumeSourceView {
                    medium: None,
                    size_limit: Some(platform.log_volume_size_limit),
                },
            )
            &&& template.containers[0].args.len() == 1
            &&& platform.snippets.trap_functions.is_prefix_of(template.containers[0].args[0])
            &&& (platform.snippets.create_vector_shutdown_file + "\n"@).is_suffix_of(
                template.containers[0].args[0],
            )
            &&& platform.snippets.trap_functions.is_prefix_of(template.containers[1].args[0])
            &&& group.config.logging.vector_container is Some ==> template.containers.last()
                == platform.vector_container
        }),
{
    let groups = listing(cluster.server_role_groups);
    let name = groups[i].0;
    let group = groups[i].1;
    let platform = parts[i].platform;
    lemma_group_objects(cluster, groups, inputs, parts, i);
    lemma_config_map_files(
        cluster,
        name,
        parts[i].files,
        agent_config(group.config.logging, parts[i].files.vector_yaml),
    );
    let resources = cluster_resources(cluster, inputs, parts)->Ok_0;
    let before = with_role_groups(cluster, groups, inputs, parts)->Ok_0;
    assert(resources.config_maps[i] == before.config_maps[i]);
    lemma_object_names(cluster, name);
    lemma_opa_is_first(cluster, name, group, inputs, platform);
    lemma_first_volumes(cluster, name, group, inputs, platform);
    lemma_platform_parts_are_in_the_pods(cluster, name, group, inputs, platform);
}

/// OPA and the bundle-builder start with the signal traps of the platform, and OPA ends with its last
/// snippet. The Vector agent is the last container where it is enabled.
#[verifier::rlimit(40)]
pub proof fn lemma_platform_parts_are_in_the_pods(
    cluster: ValidatedClusterView,
    role_group_name: Seq<char>,
    group: OpaRoleGroupConfigView,
    inputs: PodInputs,
    platform: PlatformPartsView,
)
    ensures
        pod_template(cluster, role_group_name, group, inputs, platform) matches Ok(template) ==> {
            &&& template.containers.len() >= 2
            &&& template.containers[0].args.len() == 1
            &&& platform.snippets.trap_functions.is_prefix_of(template.containers[0].args[0])
            &&& (platform.snippets.create_vector_shutdown_file + "\n"@).is_suffix_of(
                template.containers[0].args[0],
            )
            &&& platform.snippets.trap_functions.is_prefix_of(template.containers[1].args[0])
            &&& group.config.logging.vector_container is Some ==> template.containers.last()
                == platform.vector_container
        },
{
    if let Ok(template) = pod_template(cluster, role_group_name, group, inputs, platform) {
        let first = first_parts(cluster, role_group_name, group, inputs, platform);
        assert(template.containers[0] == first.containers[0]);
        assert(template.containers[1] == first.containers[1]);
        let log = container_log(group.config.logging, Container::Opa);
        lemma_scripts_hold_snippets(
            platform.snippets,
            app_port(tls_enabled(cluster)) as nat,
            ConfigFileName::ConfigJson.spec_name(),
            spelled(platform.opa_level_names, opa_level(log)),
            opa_shutdown_grace_period(group.config.graceful_shutdown_timeout) as nat,
            further_arguments(tls_enabled(cluster), group.cli_overrides),
            log_levels(log),
            Container::Opa.spec_name(),
            None,
        );
        lemma_scripts_hold_snippets(
            platform.snippets,
            0,
            Seq::empty(),
            Seq::empty(),
            0,
            Seq::empty(),
            log_levels(None),
            Container::BundleBuilder.spec_name(),
            container_log(group.config.logging, Container::BundleBuilder),
        );
    }
}

/// The files in the ConfigMap of a role group: that of OPA always, those of the fetchers where they are
/// configured, and that of the Vector agent where it is given.
pub proof fn lemma_config_map_files(
    cluster: ValidatedClusterView,
    role_group_name: Seq<char>,
    files: RenderedFilesView,
    vector_config: Option<Seq<char>>,
)
    ensures
        rolegroup_config_map(cluster, role_group_name, files, vector_config) matches Ok(config_map)
            ==> {
            let data = config_map.data->0;
            &&& config_map.data is Some
            &&& files.config_json is Valid
            &&& data.contains_key("config.json"@)
            &&& data["config.json"@] == files.config_json->Valid_0
            &&& data.contains_key("user-info-fetcher.json"@)
                <==> cluster.cluster_config.user_info is Some
            &&& cluster.cluster_config.user_info is Some ==> files.user_info_fetcher is Valid
                && data["user-info-fetcher.json"@] == files.user_info_fetcher->Valid_0
            &&& data.contains_key("resource-info-fetcher.json"@)
                <==> cluster.cluster_config.resource_info is Some
            &&& cluster.cluster_config.resource_info is Some ==> files.resource_info_fetcher
                is Valid && data["resource-info-fetcher.json"@]
                == files.resource_info_fetcher->Valid_0
            &&& data.contains_key("vector.yaml"@) <==> vector_config is Some
            &&& vector_config is Some ==> data["vector.yaml"@] == vector_config->0
            &&& forall|file: Seq<char>| #[trigger]
                data.contains_key(file) ==> file == "config.json"@ || file
                    == "user-info-fetcher.json"@ || file == "resource-info-fetcher.json"@ || file
                    == "vector.yaml"@
        },
{
    reveal_strlit("vector.yaml");
    reveal_strlit("config.json");
    reveal_strlit("user-info-fetcher.json");
    reveal_strlit("resource-info-fetcher.json");
    assert("vector.yaml"@[0] == 'v');
    assert("config.json"@[0] == 'c');
    assert("user-info-fetcher.json"@.len() != "resource-info-fetcher.json"@.len());
    assert("user-info-fetcher.json"@.len() != "config.json"@.len());
    assert("resource-info-fetcher.json"@.len() != "config.json"@.len());
    assert("user-info-fetcher.json"@.len() != "vector.yaml"@.len());
    assert("resource-info-fetcher.json"@.len() != "vector.yaml"@.len());
}

/// A ConfigMap is not built exactly where a file that belongs in it could not be rendered. The failure
/// tells which file that was and what went wrong, that of OPA first.
pub proof fn lemma_config_map_fails(
    cluster: ValidatedClusterView,
    role_group_name: Seq<char>,
    files: RenderedFilesView,
    vector_config: Option<Seq<char>>,
)
    ensures
        ({
            let built = rolegroup_config_map(cluster, role_group_name, files, vector_config);
            let user_info = cluster.cluster_config.user_info is Some;
            let resource_info = cluster.cluster_config.resource_info is Some;
            if files.config_json is Invalid {
                built matches Err(config_map::ErrorView::BuildConfigJson(error))
                    && error == files.config_json->Invalid_0
            } else if user_info && files.user_info_fetcher is Invalid {
                built matches Err(
                    config_map::ErrorView::BuildUserInfoFetcher(error),
                ) && error == files.user_info_fetcher->Invalid_0
            } else if resource_info && files.resource_info_fetcher is Invalid {
                built matches Err(
                    config_map::ErrorView::BuildResourceInfoFetcher(error),
                ) && error == files.resource_info_fetcher->Invalid_0
            } else {
                built is Ok
            }
        }),
{
}

/// The names of a cluster's objects: those of the role are named after cluster and role, those of a
/// role group after the role group too.
pub proof fn lemma_object_names(cluster: ValidatedClusterView, role_group_name: Seq<char>)
    ensures
        role_service_name(cluster) == cluster.name + "-server"@,
        group_object_name(cluster, role_group_name) == cluster.name + "-server-"@
            + role_group_name,
        group_headless_name(cluster, role_group_name) == cluster.name + "-server-"@
            + role_group_name + "-headless"@,
        group_metrics_name(cluster, role_group_name) == cluster.name + "-server-"@
            + role_group_name + "-metrics"@,
{
    reveal_strlit("-");
    reveal_strlit("server");
    reveal_strlit("-server");
    reveal_strlit("-server-");
    let role = cluster.name + "-"@ + "server"@;
    assert(role =~= cluster.name + "-server"@);
    assert(role + "-"@ =~= cluster.name + "-server-"@);
}

/// Every Pod has a volume with the configuration of its role group, one for bundles and one for logs.
/// With TLS it has one with the certificate besides.
#[verifier::rlimit(40)]
pub proof fn lemma_first_volumes(
    cluster: ValidatedClusterView,
    role_group_name: Seq<char>,
    group: OpaRoleGroupConfigView,
    inputs: PodInputs,
    platform: PlatformPartsView,
)
    ensures
        pod_template(cluster, role_group_name, group, inputs, platform) matches Ok(template) ==> {
            let config = template.volumes[0];
            let bundles = template.volumes[1];
            let log = template.volumes[2];
            &&& template.volumes.len() >= 3
            &&& config.name == "config"@
            &&& config.source == VolumeSourceView::ConfigMap(
                cluster.name + "-server-"@ + role_group_name,
            )
            &&& bundles.name == "bundles"@
            &&& bundles.source == VolumeSourceView::EmptyDir(
                EmptyDirVolumeSourceView { medium: None, size_limit: None },
            )
            &&& log.name == "log"@
            &&& log.source == VolumeSourceView::EmptyDir(
                EmptyDirVolumeSourceView {
                    medium: None,
                    size_limit: Some(platform.log_volume_size_limit),
                },
            )
            &&& cluster.cluster_config.tls is Some ==> template.volumes.len() >= 4
                && template.volumes[3].name == "tls"@
                && template.volumes[3].source->SecretClass_0.secret_class
                == cluster.cluster_config.tls->0.server_secret_class
                && template.volumes[3].source->SecretClass_0.provision_private_parts
        },
{
    lemma_object_names(cluster, role_group_name);
    let base = base_volumes(cluster, role_group_name, platform);
    let first = first_parts(cluster, role_group_name, group, inputs, platform);
    if let Ok(template) = pod_template(cluster, role_group_name, group, inputs, platform) {
        let second = with_user_info_fetcher(
            first,
            cluster,
            group.config,
            inputs.user_info_fetcher_image@,
            inputs.cluster_domain@,
            platform,
        )->Ok_0;
        if let Some(user_info) = cluster.cluster_config.user_info {
            lemma_needs_only_add(
                user_info_fetcher::backend_needs(user_info.backend),
                cluster.name,
                mount_view(USER_INFO_FETCHER_CREDENTIALS_VOLUME_NAME@, CREDENTIALS_DIR@),
                provided_result(platform.user_info_volumes),
                SidecarVolumes { volumes: first.volumes, mounts: user_info_fetcher_mounts() },
            );
        }
        assert(base.is_prefix_of(second.volumes));
        if let Some(resource_info) = cluster.cluster_config.resource_info {
            lemma_needs_only_add(
                resource_info_fetcher::backend_needs(resource_info.backend),
                cluster.name,
                read_only_mount_view(
                    RESOURCE_INFO_FETCHER_CREDENTIALS_VOLUME_NAME@,
                    CREDENTIALS_DIR@,
                ),
                provided_result(platform.resource_info_volumes),
                SidecarVolumes { volumes: second.volumes, mounts: resource_info_fetcher_mounts() },
            );
        }
        assert(second.volumes.is_prefix_of(template.volumes));
        assert(base.is_prefix_of(template.volumes));
        assert(template.volumes[0] == base[0]);
        assert(template.volumes[1] == base[1]);
        assert(template.volumes[2] == base[2]);
        if cluster.cluster_config.tls is Some {
            assert(template.volumes[3] == base[3]);
        }
    }
}

/// Whether everything of a role group can be built.
#[verifier::opaque]
pub open spec fn can_be_built(
    cluster: ValidatedClusterView,
    role_group: (Seq<char>, OpaRoleGroupConfigView),
    inputs: PodInputs,
    parts: RoleGroupPartsView,
) -> bool {
    &&& rolegroup_config_map(
        cluster,
        role_group.0,
        parts.files,
        agent_config(role_group.1.config.logging, parts.files.vector_yaml),
    ) is Ok
    &&& pod_template(cluster, role_group.0, role_group.1, inputs, parts.platform) is Ok
}

/// Whether an error says that, and why, a role group could not be built: its ConfigMap first, then its
/// workload.
#[verifier::opaque]
pub open spec fn explains(
    error: assemble::ErrorView,
    cluster: ValidatedClusterView,
    role_group: (Seq<char>, OpaRoleGroupConfigView),
    inputs: PodInputs,
    parts: RoleGroupPartsView,
) -> bool {
    let config_map = rolegroup_config_map(
        cluster,
        role_group.0,
        parts.files,
        agent_config(role_group.1.config.logging, parts.files.vector_yaml),
    );
    let template = pod_template(cluster, role_group.0, role_group.1, inputs, parts.platform);
    let kind = cluster.server_role_config.workload_kind;
    if config_map is Err {
        error is ConfigMap && error->ConfigMap_0.role_group == role_group.0
            && error->ConfigMap_0.source == config_map->Err_0
    } else if kind == WorkloadKind::DaemonSet {
        template is Err && error is DaemonSet && error->DaemonSet_0.role_group == role_group.0
            && error->DaemonSet_0.source == template->Err_0
    } else {
        template is Err && error is Deployment && error->Deployment_0.role_group == role_group.0
            && error->Deployment_0.source == template->Err_0
    }
}

proof fn lemma_group_built(
    before: KubernetesResourcesView,
    cluster: ValidatedClusterView,
    role_group: (Seq<char>, OpaRoleGroupConfigView),
    inputs: PodInputs,
    parts: RoleGroupPartsView,
)
    ensures
        match with_role_group(before, cluster, role_group.0, role_group.1, inputs, parts) {
            Ok(_) => can_be_built(cluster, role_group, inputs, parts),
            Err(error) => explains(error, cluster, role_group, inputs, parts),
        },
{
    reveal(can_be_built);
    reveal(explains);
}

proof fn lemma_groups_built(
    cluster: ValidatedClusterView,
    groups: Seq<(Seq<char>, OpaRoleGroupConfigView)>,
    inputs: PodInputs,
    parts: Seq<RoleGroupPartsView>,
)
    ensures
        match with_role_groups(cluster, groups, inputs, parts) {
            Ok(_) => forall|i: int|
                0 <= i < groups.len() ==> can_be_built(
                    cluster,
                    #[trigger] groups[i],
                    inputs,
                    parts[i],
                ),
            Err(error) => exists|i: int|
                0 <= i < groups.len() && explains(
                    error,
                    cluster,
                    #[trigger] groups[i],
                    inputs,
                    parts[i],
                ) && forall|j: int|
                    0 <= j < i ==> can_be_built(cluster, #[trigger] groups[j], inputs, parts[j]),
        },
    decreases groups.len(),
{
    if groups.len() > 0 {
        let rest = groups.drop_last();
        let last = groups.len() - 1;
        lemma_groups_built(cluster, rest, inputs, parts);
        match with_role_groups(cluster, rest, inputs, parts) {
            Ok(before) => {
                lemma_group_built(before, cluster, groups[last], inputs, parts[last]);
                assert forall|i: int| 0 <= i < last implies can_be_built(
                    cluster,
                    #[trigger] groups[i],
                    inputs,
                    parts[i],
                ) by {
                    assert(rest[i] == groups[i]);
                }
            },
            Err(error) => {
                let i = choose|i: int|
                    0 <= i < rest.len() && explains(
                        error,
                        cluster,
                        #[trigger] rest[i],
                        inputs,
                        parts[i],
                    ) && forall|j: int|
                        0 <= j < i ==> can_be_built(cluster, #[trigger] rest[j], inputs, parts[j]);
                assert(explains(error, cluster, groups[i], inputs, parts[i]));
                assert forall|j: int| 0 <= j < i implies can_be_built(
                    cluster,
                    #[trigger] groups[j],
                    inputs,
                    parts[j],
                ) by {
                    assert(rest[j] == groups[j]);
                }
            },
        }
    }
}

/// A cluster is built exactly where each of its role groups is. Otherwise the first one in name order
/// that is not is named, with the reason.
pub proof fn lemma_first_failure_is_reported(
    cluster: ValidatedClusterView,
    inputs: PodInputs,
    parts: Seq<RoleGroupPartsView>,
)
    ensures
        ({
            let groups = listing(cluster.server_role_groups);
            match cluster_resources(cluster, inputs, parts) {
                Ok(_) => forall|i: int|
                    0 <= i < groups.len() ==> can_be_built(
                        cluster,
                        #[trigger] groups[i],
                        inputs,
                        parts[i],
                    ),
                Err(error) => exists|i: int|
                    0 <= i < groups.len() && explains(
                        error,
                        cluster,
                        #[trigger] groups[i],
                        inputs,
                        parts[i],
                    ) && forall|j: int|
                        0 <= j < i ==> can_be_built(
                            cluster,
                            #[trigger] groups[j],
                            inputs,
                            parts[j],
                        ),
            }
        }),
{
    lemma_groups_built(cluster, listing(cluster.server_role_groups), inputs, parts);
}

/// Besides the objects of its role groups a cluster has the role Service, the ConfigMap with which
/// clients find it in the cluster domain, the account that its Pods run under, what binds that account,
/// and the budget of the role where there is one.
pub proof fn lemma_shared_objects(
    cluster: ValidatedClusterView,
    inputs: PodInputs,
    parts: Seq<RoleGroupPartsView>,
)
    ensures
        cluster_resources(cluster, inputs, parts) matches Ok(resources) ==> {
            let budget = role_pod_disruption_budget(
                cluster,
                OpaRole::Server,
                cluster.server_role_config,
            );
            &&& resources.config_maps.last() == discovery_config_map(
                cluster,
                inputs.cluster_domain@,
            )
            &&& resources.services[0] == server_role_service(cluster)
            &&& resources.service_accounts == seq![service_account(cluster)]
            &&& resources.role_bindings == seq![role_binding(cluster)]
            &&& budget is Some ==> resources.pod_disruption_budgets == seq![budget->0]
            &&& budget is None ==> resources.pod_disruption_budgets.len() == 0
        },
{
    lemma_cluster_resources(cluster, inputs, parts);
}

/// The certificate of a Pod is valid for the Services that lead to it, and for nothing else.
pub proof fn lemma_certificate(
    cluster: ValidatedClusterView,
    role_group_name: Seq<char>,
    platform: PlatformPartsView,
)
    requires
        cluster.cluster_config.tls is Some,
    ensures
        ({
            let volume = base_volumes(cluster, role_group_name, platform)[3];
            let certificate = volume.source->SecretClass_0;
            &&& volume.name == "tls"@
            &&& volume.source is SecretClass
            &&& certificate.secret_class == cluster.cluster_config.tls->0.server_secret_class
            &&& certificate.provision_private_parts
            &&& certificate.scope is Some
            &&& !certificate.scope->0.pod
            &&& !certificate.scope->0.node
            &&& certificate.scope->0.listener_volumes.len() == 0
            &&& certificate.scope->0.services == seq![
                cluster.name + "-server"@,
                cluster.name + "-server-"@ + role_group_name + "-headless"@,
                cluster.name + "-server-"@ + role_group_name + "-metrics"@,
            ]
        }),
{
    lemma_object_names(cluster, role_group_name);
}

/// A Pod cannot be built for a sidecar that does not fit in, that for users before that for resources,
/// or for a time to stop that is too long. Which of these it was is told.
pub proof fn lemma_pod_template_fails(
    cluster: ValidatedClusterView,
    role_group_name: Seq<char>,
    group: OpaRoleGroupConfigView,
    inputs: PodInputs,
    platform: PlatformPartsView,
)
    ensures
        ({
            let built = pod_template(cluster, role_group_name, group, inputs, platform);
            let timeout = group.config.graceful_shutdown_timeout;
            let users = with_user_info_fetcher(
                first_parts(cluster, role_group_name, group, inputs, platform),
                cluster,
                group.config,
                inputs.user_info_fetcher_image@,
                inputs.cluster_domain@,
                platform,
            );
            let both = with_resource_info_fetcher(
                users->Ok_0,
                cluster,
                group.config,
                inputs.resource_info_fetcher_image@,
                inputs.cluster_domain@,
                platform,
            );
            if users is Err {
                built is Err && built->Err_0 == workload::ErrorView::BuildUserInfoFetcherSidecar(
                    users->Err_0,
                )
            } else if both is Err {
                built is Err && built->Err_0
                    == workload::ErrorView::BuildResourceInfoFetcherSidecar(both->Err_0)
            } else if timeout is Some && timeout->0.secs + 5 > 0x7fff_ffff_ffff_ffff {
                built is Err && built->Err_0 is GracefulShutdown
            } else {
                built is Ok
            }
        }),
{
}

/// A fetcher that asks with credentials finds them where it looks for them, in the Secret that its
/// backend names.
#[verifier::rlimit(40)]
pub proof fn lemma_fetcher_credentials(
    cluster: ValidatedClusterView,
    role_group_name: Seq<char>,
    group: OpaRoleGroupConfigView,
    inputs: PodInputs,
    platform: PlatformPartsView,
)
    requires
        platform_consistent(platform),
        cluster.cluster_config.user_info is Some,
        cluster.cluster_config.resource_info is None,
        user_info_fetcher::backend_needs(cluster.cluster_config.user_info->0.backend)
            is Credentials,
    ensures
        pod_template(cluster, role_group_name, group, inputs, platform) matches Ok(template) ==> {
            let needs = user_info_fetcher::backend_needs(
                cluster.cluster_config.user_info->0.backend,
            );
            &&& template.volumes.contains(
                VolumeView {
                    name: "user-info-fetcher-credentials"@,
                    source: VolumeSourceView::Secret(needs->Credentials_0),
                },
            )
            &&& template.containers[2].volume_mounts.contains(
                VolumeMountView {
                    name: "user-info-fetcher-credentials"@,
                    mount_path: "/stackable/credentials"@,
                    read_only: None,
                },
            )
        },
{
    if let Ok(template) = pod_template(cluster, role_group_name, group, inputs, platform) {
        let user_info = cluster.cluster_config.user_info->0;
        let first = first_parts(cluster, role_group_name, group, inputs, platform);
        lemma_base_volumes(cluster, role_group_name, platform);
        reveal_strlit("/stackable/config");
        reveal_strlit("/stackable/log");
        assert(CONFIG_DIR@.len() != STACKABLE_LOG_DIR@.len());
        let start = SidecarVolumes { volumes: first.volumes, mounts: user_info_fetcher_mounts() };
        assert(consistent(start));
        lemma_needs_are_met(
            user_info_fetcher::backend_needs(user_info.backend),
            cluster.name,
            mount_view(USER_INFO_FETCHER_CREDENTIALS_VOLUME_NAME@, CREDENTIALS_DIR@),
            provided_result(platform.user_info_volumes),
            start,
        );
        let second = with_user_info_fetcher(
            first,
            cluster,
            group.config,
            inputs.user_info_fetcher_image@,
            inputs.cluster_domain@,
            platform,
        )->Ok_0;
        assert(template.containers[2] == second.containers[2]);
        assert(template.volumes == second.volumes);
    }
}

/// The resource-info-fetcher finds the credentials for DataHub where it looks for them and cannot
/// change them.
#[verifier::rlimit(40)]
pub proof fn lemma_data_hub_credentials(
    cluster: ValidatedClusterView,
    role_group_name: Seq<char>,
    group: OpaRoleGroupConfigView,
    inputs: PodInputs,
    platform: PlatformPartsView,
)
    requires
        platform_consistent(platform),
        cluster.cluster_config.user_info is None,
        cluster.cluster_config.resource_info is Some,
    ensures
        pod_template(cluster, role_group_name, group, inputs, platform) matches Ok(template) ==> {
            let backend = cluster.cluster_config.resource_info->0.backend;
            &&& template.volumes.contains(
                VolumeView {
                    name: "resource-info-fetcher-credentials"@,
                    source: VolumeSourceView::Secret(backend->DataHub_0.credentials_secret_name),
                },
            )
            &&& template.containers[2].volume_mounts.contains(
                VolumeMountView {
                    name: "resource-info-fetcher-credentials"@,
                    mount_path: "/stackable/credentials"@,
                    read_only: Some(true),
                },
            )
        },
{
    if let Ok(template) = pod_template(cluster, role_group_name, group, inputs, platform) {
        let resource_info = cluster.cluster_config.resource_info->0;
        let first = first_parts(cluster, role_group_name, group, inputs, platform);
        lemma_base_volumes(cluster, role_group_name, platform);
        reveal_strlit("/stackable/config");
        reveal_strlit("/stackable/log");
        assert(CONFIG_DIR@.len() != STACKABLE_LOG_DIR@.len());
        let start = SidecarVolumes {
            volumes: first.volumes,
            mounts: resource_info_fetcher_mounts(),
        };
        assert(consistent(start));
        lemma_needs_are_met(
            resource_info_fetcher::backend_needs(resource_info.backend),
            cluster.name,
            read_only_mount_view(RESOURCE_INFO_FETCHER_CREDENTIALS_VOLUME_NAME@, CREDENTIALS_DIR@),
            provided_result(platform.resource_info_volumes),
            start,
        );
        let second = with_resource_info_fetcher(
            first,
            cluster,
            group.config,
            inputs.resource_info_fetcher_image@,
            inputs.cluster_domain@,
            platform,
        )->Ok_0;
        assert(template.containers[2] == second.containers[2]);
        assert(template.volumes == second.volumes);
    }
}

} // verus!
