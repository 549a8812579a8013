//! What holds of the objects of a cluster together.
use crate::config::opa_shutdown_grace_period;
use crate::info_fetcher_sidecar::{SidecarVolumes, CREDENTIALS_DIR};
use crate::kubernetes::builder::volume_names_unique;
use crate::kubernetes::parts::mount_view;
use crate::labels::{lemma_label_keys_differ, selects};
use crate::names::role_group_name;
use crate::pod_consistency::{
    consistent, containers_covered, has_volume, lemma_containers_kept, lemma_has_volume_kept,
    lemma_needs_keep_consistent, mounts_covered, provided_covers_itself,
};
use crate::user_info_fetcher::backend_needs;
use crate::v1alpha1::controller::{
    base_volumes, bundle_builder_container, opa_container, pod_parts, pod_template,
    prepare_container, rolegroup_daemonset, rolegroup_headless_service, rolegroup_metrics_service,
    server_role_service, user_info_fetcher_base, with_user_info_fetcher, LabelChecksView,
    PodInputsView, PodParts, APP_PORT, BUNDLES_VOLUME_NAME, CONFIG_VOLUME_NAME, LOG_VOLUME_NAME,
    USER_INFO_FETCHER_CREDENTIALS_VOLUME_NAME,
};
use crate::v1alpha1::crd::{OpaClusterView, OpaRole};
use vstd::prelude::*;

verus! {

/// What the platform supplies fits together: the Vector agent mounts the volumes for configuration
/// and logs only, and what a backend asks for covers its own mounts.
pub open spec fn platform_consistent(inputs: PodInputsView) -> bool {
    &&& provided_covers_itself(inputs.platform.user_info_volumes)
    &&& inputs.platform.vector_container matches Ok(container) ==> forall|i: int|
        0 <= i < container.volume_mounts.len() ==> (#[trigger] container.volume_mounts[i]).name
            == CONFIG_VOLUME_NAME@ || container.volume_mounts[i].name == LOG_VOLUME_NAME@
}

/// The volumes that every Pod has are told apart by their names.
pub proof fn lemma_base_volumes(config_map: Seq<char>, inputs: PodInputsView)
    ensures
        volume_names_unique(base_volumes(config_map, inputs.platform)),
        has_volume(base_volumes(config_map, inputs.platform), CONFIG_VOLUME_NAME@),
        has_volume(base_volumes(config_map, inputs.platform), BUNDLES_VOLUME_NAME@),
        has_volume(base_volumes(config_map, inputs.platform), LOG_VOLUME_NAME@),
{
    reveal_strlit("config");
    reveal_strlit("bundles");
    reveal_strlit("log");
    let volumes = base_volumes(config_map, inputs.platform);
    assert(CONFIG_VOLUME_NAME@.len() == 6);
    assert(BUNDLES_VOLUME_NAME@.len() == 7);
    assert(LOG_VOLUME_NAME@.len() == 3);
    assert(volumes[0].name == CONFIG_VOLUME_NAME@);
    assert(volumes[1].name == BUNDLES_VOLUME_NAME@);
    assert(volumes[2].name == LOG_VOLUME_NAME@);
}

/// Every volume of a role group's Pods has a name of its own, and every container mounts volumes
/// of the Pod only.
pub proof fn lemma_pod_volumes_consistent(
    opa: OpaClusterView,
    opa_name: Seq<char>,
    inputs: PodInputsView,
)
    requires
        platform_consistent(inputs),
    ensures
        pod_template(opa, opa_name, inputs) matches Ok(template) ==> {
            &&& volume_names_unique(template.volumes)
            &&& containers_covered(template.init_containers, template.volumes)
            &&& containers_covered(template.containers, template.volumes)
        },
{
    if let Ok(template) = pod_template(opa, opa_name, inputs) {
        let rolegroup = inputs.rolegroup_ref;
        let config_map = role_group_name(rolegroup.cluster, rolegroup.role, rolegroup.role_group);
        let base = base_volumes(config_map, inputs.platform);
        lemma_base_volumes(config_map, inputs);
        let opa_part = opa_container(
            inputs.image,
            inputs.merged_config,
            inputs.server_env,
            inputs.platform,
        );
        let builder = bundle_builder_container(
            inputs.image,
            inputs.merged_config,
            inputs.opa_bundle_builder_image,
            inputs.cluster_domain,
            inputs.platform,
        );
        let first = PodParts { containers: seq![opa_part, builder], volumes: base };
        assert(mounts_covered(opa_part.volume_mounts, base));
        assert(mounts_covered(builder.volume_mounts, base));
        assert(containers_covered(first.containers, base));
        let user_info = opa.spec.cluster_config.user_info;
        let second = with_user_info_fetcher(
            first,
            user_info,
            opa_name,
            inputs.image,
            inputs.merged_config,
            inputs.user_info_fetcher_image,
            inputs.cluster_domain,
            inputs.platform,
        )->Ok_0;
        if let Some(user_info) = user_info {
            let fetcher = user_info_fetcher_base(
                inputs.image,
                inputs.merged_config,
                inputs.user_info_fetcher_image,
                inputs.cluster_domain,
            );
            let start = SidecarVolumes { volumes: base, mounts: fetcher.volume_mounts };
            assert(consistent(start));
            lemma_needs_keep_consistent(
                backend_needs(user_info.backend),
                opa_name,
                mount_view(
                    USER_INFO_FETCHER_CREDENTIALS_VOLUME_NAME@,
                    CREDENTIALS_DIR@,
                ),
                inputs.platform.user_info_volumes,
                start,
            );
            lemma_containers_kept(first.containers, base, second.volumes);
        }
        assert(containers_covered(second.containers, second.volumes));
        assert(base.is_prefix_of(second.volumes));
        lemma_has_volume_kept(base, second.volumes, CONFIG_VOLUME_NAME@);
        lemma_has_volume_kept(base, second.volumes, BUNDLES_VOLUME_NAME@);
        lemma_has_volume_kept(base, second.volumes, LOG_VOLUME_NAME@);
        let prepare = prepare_container(inputs.image, inputs.merged_config, inputs.platform);
        assert(mounts_covered(prepare.volume_mounts, second.volumes));
        assert(template.init_containers[0] == prepare);
    }
}

/// The DaemonSet of a role group selects exactly the labels that its own Pods carry.
pub proof fn lemma_daemonset_selects_its_pods(opa: OpaClusterView, inputs: PodInputsView)
    ensures
        rolegroup_daemonset(opa, inputs) matches Ok(daemonset) ==> selects(
            daemonset.spec->0.selector.match_labels->0,
            daemonset.spec->0.template.metadata.labels->0,
        ),
{
    lemma_label_keys_differ();
}

/// All Services of a cluster reach the Pods of a role group: their selectors select the labels of
/// the Pods, and their ports are the one that OPA listens on. `role_labels` is what the platform says
/// of the labels of the role Service and of its selector.
pub proof fn lemma_services_reach_the_pods(
    opa: OpaClusterView,
    inputs: PodInputsView,
    role_labels: LabelChecksView,
)
    requires
        inputs.rolegroup_ref.role == OpaRole::Server.spec_name(),
        rolegroup_daemonset(opa, inputs) is Ok,
    ensures
        ({
            let labels = (rolegroup_daemonset(
                opa,
                inputs,
            )->Ok_0).spec->0.template.metadata.labels->0;
            let container = (rolegroup_daemonset(opa, inputs)->Ok_0).spec->0.template.containers[0];
            &&& container.ports[0].container_port == APP_PORT
            &&& server_role_service(opa, inputs.image, role_labels) matches Ok(service) ==> selects(
                service.spec->0.selector->0,
                labels,
            ) && (service.spec->0.ports->0)[0].port == APP_PORT
            &&& rolegroup_headless_service(
                opa,
                inputs.image,
                inputs.rolegroup_ref,
                inputs.labels,
            ) matches Ok(service) ==> selects(service.spec->0.selector->0, labels) && (service.spec->0.ports->0)[0].port
                == APP_PORT
            &&& rolegroup_metrics_service(
                opa,
                inputs.image,
                inputs.rolegroup_ref,
                inputs.labels,
            ) matches Ok(service) ==> selects(service.spec->0.selector->0, labels) && (service.spec->0.ports->0)[0].port
                == APP_PORT
        }),
{
    lemma_label_keys_differ();
    let parts = pod_parts(opa, opa.metadata.name->0, inputs)->Ok_0;
    let opa_part = opa_container(
        inputs.image,
        inputs.merged_config,
        inputs.server_env,
        inputs.platform,
    );
    assert(parts.containers[0] == opa_part);
}

/// A Pod that is told to stop is given longer than OPA needs to shut down gracefully.
pub proof fn lemma_pod_outlives_opa_shutdown(
    opa: OpaClusterView,
    opa_name: Seq<char>,
    inputs: PodInputsView,
)
    requires
        inputs.merged_config.graceful_shutdown_timeout is Some,
    ensures
        pod_template(opa, opa_name, inputs) matches Ok(template)
            ==> template.termination_grace_period_seconds matches Some(seconds) && seconds
            > opa_shutdown_grace_period(
            inputs.merged_config.graceful_shutdown_timeout,
        ),
{
}

} // verus!
