//! What the objects of a cluster hold.
use crate::duration::Duration;
use crate::kubernetes::meta::ObjectMetaView;
use crate::kubernetes::resources::{ServicePortView, ServiceSpecView};
use crate::kubernetes::builder::ResolvedProductImageView;
use crate::labels::lemma_label_keys_differ;
use crate::text::decimal;
use crate::v1alpha1::config_file::{config_file, decision_logs};
use crate::v1alpha1::controller::{
    object_labels, object_meta_view, rolegroup_config_map, rolegroup_daemonset,
    rolegroup_headless_service, rolegroup_metrics_service, server_role_service, ErrorView,
    LabelChecksView, PodInputsView,
};
use crate::v1alpha1::controller::pod_template;
use crate::checked::CheckedView;
use crate::v1alpha1::crd;
use crate::v1alpha1::crd::{
    merged, referenced_role_group, CurrentlySupportedListenerClasses, LoggingView, OpaClusterView,
    RoleGroupRefView,
};
use crate::v1alpha1::discovery;
use crate::v1alpha1::discovery::discovery_configmap;
use vstd::prelude::*;

verus! {

/// Whether an object has this name, is in the namespace of the cluster and is deleted with it. It is
/// labelled with the product, the cluster, its version, the operator, the vendor, role and role group.
pub open spec fn belongs_to(
    meta: ObjectMetaView,
    name: Seq<char>,
    opa: OpaClusterView,
    image: ResolvedProductImageView,
    role: Seq<char>,
    role_group: Seq<char>,
) -> bool {
    let owner = meta.owner_references->0[0];
    let labels = meta.labels->0;
    &&& meta.name == Some(name)
    &&& meta.namespace == opa.metadata.namespace
    &&& meta.owner_references is Some
    &&& meta.owner_references->0.len() == 1
    &&& owner.api_version == "opa.stackable.tech/v1alpha1"@
    &&& owner.kind == "OpaCluster"@
    &&& opa.metadata.name == Some(owner.name)
    &&& opa.metadata.uid == Some(owner.uid)
    &&& owner.controller == Some(true)
    &&& meta.labels is Some
    &&& labels.contains_pair("app.kubernetes.io/name"@, "opa"@)
    &&& labels.contains_pair("app.kubernetes.io/instance"@, owner.name)
    &&& labels.contains_pair("app.kubernetes.io/version"@, image.app_version_label_value)
    &&& labels.contains_pair("app.kubernetes.io/managed-by"@, "opa.stackable.tech_opacluster"@)
    &&& labels.contains_pair("stackable.tech/vendor"@, "Stackable"@)
    &&& labels.contains_pair("app.kubernetes.io/component"@, role)
    &&& labels.contains_pair("app.kubernetes.io/role-group"@, role_group)
}

proof fn lemma_manager()
    ensures
        crate::labels::managed_by(
            crate::labels::OPERATOR_NAME@,
            crate::labels::OPA_CONTROLLER_NAME@,
        ) == "opa.stackable.tech_opacluster"@,
{
    reveal_strlit("opa.stackable.tech");
    reveal_strlit("_");
    reveal_strlit("opacluster");
    reveal_strlit("opa.stackable.tech_opacluster");
    assert("opa.stackable.tech"@ + "_"@ + "opacluster"@ =~= "opa.stackable.tech_opacluster"@);
}

/// Every object of a cluster belongs to it. None can be built for a cluster without name or UID, which
/// is reported before labels that are not valid.
pub proof fn lemma_object_meta(
    name: Seq<char>,
    opa: OpaClusterView,
    image: ResolvedProductImageView,
    role: Seq<char>,
    role_group: Seq<char>,
    recommended: CheckedView<()>,
)
    ensures
        ({
            let built = object_meta_view(name, opa, image, role, role_group, recommended);
            if opa.metadata.name is None {
                built == Err::<ObjectMetaView, _>(
                    ErrorView::ObjectMissingMetadataForOwnerRef(".metadata.name"@),
                )
            } else if opa.metadata.uid is None {
                built == Err::<ObjectMetaView, _>(
                    ErrorView::ObjectMissingMetadataForOwnerRef(".metadata.uid"@),
                )
            } else if recommended is Invalid {
                built == Err::<ObjectMetaView, _>(ErrorView::ObjectMeta(recommended->Invalid_0))
            } else {
                built matches Ok(meta) && belongs_to(meta, name, opa, image, role, role_group)
            }
        }),
{
    lemma_label_keys_differ();
    lemma_manager();
}

/// Whether a Service offers nothing but this port of OPA, over TCP.
pub open spec fn offers(spec: ServiceSpecView, name: Seq<char>) -> bool {
    let offered: Seq<ServicePortView> = spec.ports->0;
    &&& spec.ports is Some
    &&& offered.len() == 1
    &&& offered[0].name == Some(name)
    &&& offered[0].port == 8081
    &&& offered[0].protocol == Some("TCP"@)
}

/// The Service of the role has the name of the cluster. It offers the port of OPA to whom the listener
/// class says, and leads to a Pod on the same node.
pub proof fn lemma_role_service(
    opa: OpaClusterView,
    image: ResolvedProductImageView,
    labels: LabelChecksView,
)
    ensures
        opa.metadata.name is None ==> server_role_service(opa, image, labels) is Err,
        server_role_service(opa, image, labels) matches Ok(service) ==> {
            let name = opa.metadata.name->0;
            let spec = service.spec->0;
            let class = opa.spec.cluster_config.listener_class;
            &&& belongs_to(service.metadata, name, opa, image, "server"@, "global"@)
            &&& service.spec is Some
            &&& class == CurrentlySupportedListenerClasses::ClusterInternal ==> spec.type_ == Some(
                "ClusterIP"@,
            )
            &&& class == CurrentlySupportedListenerClasses::ExternalUnstable ==> spec.type_ == Some(
                "NodePort"@,
            )
            &&& class == CurrentlySupportedListenerClasses::ExternalStable ==> spec.type_ == Some(
                "LoadBalancer"@,
            )
            &&& spec.cluster_ip is None
            &&& offers(spec, "http"@)
            &&& spec.selector is Some
            &&& spec.selector->0 =~= map![
                "app.kubernetes.io/name"@ => "opa"@,
                "app.kubernetes.io/instance"@ => name,
                "app.kubernetes.io/component"@ => "server"@,
            ]
            &&& spec.internal_traffic_policy == Some("Local"@)
            &&& spec.publish_not_ready_addresses is None
        },
{
    lemma_label_keys_differ();
    lemma_object_meta(
        opa.metadata.name->0,
        opa,
        image,
        "server"@,
        "global"@,
        labels.recommended,
    );
}

/// The headless Service of a role group names its Pods, ready or not. Its metrics Service is the one
/// that is marked to be scraped. Both lead to the Pods of that role group.
#[verifier::rlimit(40)]
pub proof fn lemma_role_group_services(
    opa: OpaClusterView,
    image: ResolvedProductImageView,
    rolegroup: RoleGroupRefView,
    labels: LabelChecksView,
)
    ensures
        ({
            let group = rolegroup.cluster + "-"@ + rolegroup.role + "-"@ + rolegroup.role_group;
            &&& rolegroup_headless_service(opa, image, rolegroup, labels) matches Ok(service) ==> {
                let spec = service.spec->0;
                &&& belongs_to(
                    service.metadata,
                    group + "-headless"@,
                    opa,
                    image,
                    rolegroup.role,
                    rolegroup.role_group,
                )
                &&& service.spec is Some
                &&& spec.type_ == Some("ClusterIP"@)
                &&& spec.cluster_ip == Some("None"@)
                &&& offers(spec, "http"@)
                &&& spec.selector is Some
                &&& spec.selector->0 =~= map![
                    "app.kubernetes.io/name"@ => "opa"@,
                    "app.kubernetes.io/instance"@ => opa.metadata.name->0,
                    "app.kubernetes.io/component"@ => rolegroup.role,
                    "app.kubernetes.io/role-group"@ => rolegroup.role_group,
                ]
                &&& spec.internal_traffic_policy is None
                &&& spec.publish_not_ready_addresses == Some(true)
            }
            &&& rolegroup_metrics_service(opa, image, rolegroup, labels) matches Ok(service) ==> {
                let spec = service.spec->0;
                &&& belongs_to(
                    service.metadata,
                    group + "-metrics"@,
                    opa,
                    image,
                    rolegroup.role,
                    rolegroup.role_group,
                )
                &&& service.metadata.labels->0.contains_pair("prometheus.io/scrape"@, "true"@)
                &&& service.spec is Some
                &&& spec.type_ == Some("ClusterIP"@)
                &&& spec.cluster_ip == Some("None"@)
                &&& offers(spec, "metrics"@)
                &&& spec.selector is Some
                &&& spec.selector->0 =~= map![
                    "app.kubernetes.io/name"@ => "opa"@,
                    "app.kubernetes.io/instance"@ => opa.metadata.name->0,
                    "app.kubernetes.io/component"@ => rolegroup.role,
                    "app.kubernetes.io/role-group"@ => rolegroup.role_group,
                ]
                &&& spec.internal_traffic_policy is None
                &&& spec.publish_not_ready_addresses is None
            }
        }),
{
    lemma_label_keys_differ();
    lemma_scrape_label_is_no_other();
    let group = rolegroup.cluster + "-"@ + rolegroup.role + "-"@ + rolegroup.role_group;
    lemma_object_meta(
        group + "-headless"@,
        opa,
        image,
        rolegroup.role,
        rolegroup.role_group,
        labels.recommended,
    );
    lemma_object_meta(
        group + "-metrics"@,
        opa,
        image,
        rolegroup.role,
        rolegroup.role_group,
        labels.recommended,
    );
}

proof fn lemma_scrape_label_is_no_other()
    ensures
        "prometheus.io/scrape"@ != "app.kubernetes.io/name"@,
        "prometheus.io/scrape"@ != "app.kubernetes.io/instance"@,
        "prometheus.io/scrape"@ != "app.kubernetes.io/version"@,
        "prometheus.io/scrape"@ != "app.kubernetes.io/component"@,
        "prometheus.io/scrape"@ != "app.kubernetes.io/role-group"@,
        "prometheus.io/scrape"@ != "app.kubernetes.io/managed-by"@,
        "prometheus.io/scrape"@ != "stackable.tech/vendor"@,
{
    reveal_strlit("prometheus.io/scrape");
    reveal_strlit("app.kubernetes.io/name");
    reveal_strlit("app.kubernetes.io/instance");
    reveal_strlit("app.kubernetes.io/version");
    reveal_strlit("app.kubernetes.io/component");
    reveal_strlit("app.kubernetes.io/role-group");
    reveal_strlit("app.kubernetes.io/managed-by");
    reveal_strlit("stackable.tech/vendor");
    assert("prometheus.io/scrape"@[0] == 'p');
    assert("app.kubernetes.io/name"@[0] == 'a');
    assert("app.kubernetes.io/instance"@[0] == 'a');
    assert("app.kubernetes.io/version"@[0] == 'a');
    assert("app.kubernetes.io/component"@[0] == 'a');
    assert("app.kubernetes.io/role-group"@[0] == 'a');
    assert("app.kubernetes.io/managed-by"@[0] == 'a');
    assert("stackable.tech/vendor"@[0] == 's');
}

/// The ConfigMap of a role group holds the configuration of OPA, that of the user-info-fetcher where
/// there is one, and that of the Vector agent where it is enabled. A fetcher whose configuration could
/// not be rendered is reported.
#[verifier::rlimit(40)]
pub proof fn lemma_config_map_files(
    opa: OpaClusterView,
    image: ResolvedProductImageView,
    rolegroup: RoleGroupRefView,
    logging: LoggingView,
    config_file: Seq<char>,
    user_info_fetcher_file: Result<Seq<char>, Seq<char>>,
    vector_config: Seq<char>,
    recommended: CheckedView<()>,
)
    ensures
        ({
            let built = rolegroup_config_map(
                opa,
                image,
                rolegroup,
                logging,
                config_file,
                user_info_fetcher_file,
                vector_config,
                recommended,
            );
            let user_info = opa.spec.cluster_config.user_info is Some;
            &&& built matches Ok(config_map) ==> {
                let data = config_map.data->0;
                &&& belongs_to(
                    config_map.metadata,
                    rolegroup.cluster + "-"@ + rolegroup.role + "-"@ + rolegroup.role_group,
                    opa,
                    image,
                    rolegroup.role,
                    rolegroup.role_group,
                )
                &&& config_map.data is Some
                &&& data.contains_pair("config.json"@, config_file)
                &&& data.contains_key("user-info-fetcher.json"@) <==> user_info
                &&& user_info ==> user_info_fetcher_file is Ok && data["user-info-fetcher.json"@]
                    == user_info_fetcher_file->Ok_0
                &&& data.contains_key("vector.yaml"@) <==> logging.enable_vector_agent
                &&& logging.enable_vector_agent ==> data["vector.yaml"@] == vector_config
            }
            &&& opa.metadata.name is Some && opa.metadata.uid is Some && recommended is Valid
                && user_info && user_info_fetcher_file is Err ==> built is Err && built->Err_0
                == ErrorView::SerializeUserInfoFetcherConfig(user_info_fetcher_file->Err_0)
            &&& opa.metadata.name is Some && opa.metadata.uid is Some && recommended is Valid && (
            !user_info || user_info_fetcher_file is Ok) ==> built is Ok
        }),
{
    lemma_object_meta(
        rolegroup.cluster + "-"@ + rolegroup.role + "-"@ + rolegroup.role_group,
        opa,
        image,
        rolegroup.role,
        rolegroup.role_group,
        recommended,
    );
    reveal_strlit("vector.yaml");
    reveal_strlit("config.json");
    reveal_strlit("user-info-fetcher.json");
    assert("vector.yaml"@[0] == 'v');
    assert("config.json"@[0] == 'c');
    assert("user-info-fetcher.json"@[0] == 'u');
}

/// The DaemonSet of a role group keeps the Pods of that role group. It is only built for a role group
/// that the cluster has.
#[verifier::rlimit(40)]
pub proof fn lemma_daemonset(opa: OpaClusterView, inputs: PodInputsView)
    ensures
        rolegroup_daemonset(opa, inputs) matches Ok(daemonset) ==> {
            let rolegroup = inputs.rolegroup_ref;
            let spec = daemonset.spec->0;
            let name = opa.metadata.name->0;
            &&& belongs_to(
                daemonset.metadata,
                rolegroup.cluster + "-"@ + rolegroup.role + "-"@ + rolegroup.role_group,
                opa,
                inputs.image,
                rolegroup.role,
                rolegroup.role_group,
            )
            &&& daemonset.spec is Some
            &&& spec.selector.match_labels is Some
            &&& spec.selector.match_labels->0 =~= map![
                "app.kubernetes.io/name"@ => "opa"@,
                "app.kubernetes.io/instance"@ => name,
                "app.kubernetes.io/component"@ => rolegroup.role,
                "app.kubernetes.io/role-group"@ => rolegroup.role_group,
            ]
            &&& spec.selector.match_expressions is None
            &&& pod_template(opa, name, inputs) == Ok::<_, ErrorView>(spec.template)
            &&& spec.update_strategy is None
            &&& rolegroup.role == "server"@
            &&& opa.spec.servers.role_groups.contains_key(rolegroup.role_group)
        },
{
    lemma_label_keys_differ();
    let rolegroup = inputs.rolegroup_ref;
    lemma_object_meta(
        rolegroup.cluster + "-"@ + rolegroup.role + "-"@ + rolegroup.role_group,
        opa,
        inputs.image,
        rolegroup.role,
        rolegroup.role_group,
        inputs.labels.recommended,
    );
}

/// A reference leads to the role group of that name, if it is to the server role. An unknown role is
/// reported before an unknown role group.
pub proof fn lemma_referenced_role_group(opa: OpaClusterView, reference: RoleGroupRefView)
    ensures
        ({
            let found = referenced_role_group(opa, reference);
            let groups = opa.spec.servers.role_groups;
            if reference.role != "server"@ {
                found matches Err(crd::ErrorView::UnknownOpaRole(role)) && role == reference.role
            } else if !groups.contains_key(reference.role_group) {
                found matches Err(crd::ErrorView::CannotRetrieveOpaRoleGroup(group)) && group
                    == reference.role_group
            } else {
                found matches Ok(group) && group == groups[reference.role_group]
            }
        }),
{
}

/// Every setting is that of the role group where it has one, else that of the role, and else the
/// default: a quarter to half of a CPU, 256 MiB of memory and two minutes to shut down. Nothing is said
/// of where Pods are to run.
pub proof fn lemma_merged_settings(
    opa: OpaClusterView,
    reference: RoleGroupRefView,
    logging: Result<LoggingView, Seq<char>>,
)
    ensures
        ({
            let result = merged(opa, reference, logging);
            let groups = opa.spec.servers.role_groups;
            let group = groups[reference.role_group].config;
            let role = opa.spec.servers.config;
            &&& !groups.contains_key(reference.role_group) ==> result is Err && result->Err_0
                == crd::ErrorView::MissingRoleGroup(reference.role_group)
            &&& groups.contains_key(reference.role_group) && logging is Err ==> result is Err
                && result->Err_0 == crd::ErrorView::FragmentValidationFailure(logging->Err_0)
            &&& groups.contains_key(reference.role_group) && logging is Ok ==> result is Ok
            &&& result matches Ok(config) ==> {
                &&& logging == Ok::<_, Seq<char>>(config.logging)
                &&& config.resources.cpu.min == if group.resources.cpu.min is Some {
                    group.resources.cpu.min
                } else if role.resources.cpu.min is Some {
                    role.resources.cpu.min
                } else {
                    Some("250m"@)
                }
                &&& config.resources.cpu.max == if group.resources.cpu.max is Some {
                    group.resources.cpu.max
                } else if role.resources.cpu.max is Some {
                    role.resources.cpu.max
                } else {
                    Some("500m"@)
                }
                &&& config.resources.memory.limit == if group.resources.memory.limit is Some {
                    group.resources.memory.limit
                } else if role.resources.memory.limit is Some {
                    role.resources.memory.limit
                } else {
                    Some("256Mi"@)
                }
                &&& config.affinity.pod_affinity == if group.affinity.pod_affinity is Some {
                    group.affinity.pod_affinity
                } else {
                    role.affinity.pod_affinity
                }
                &&& config.affinity.pod_anti_affinity
                    == if group.affinity.pod_anti_affinity is Some {
                    group.affinity.pod_anti_affinity
                } else {
                    role.affinity.pod_anti_affinity
                }
                &&& config.affinity.node_affinity == if group.affinity.node_affinity is Some {
                    group.affinity.node_affinity
                } else {
                    role.affinity.node_affinity
                }
                &&& config.affinity.node_selector == if group.affinity.node_selector is Some {
                    group.affinity.node_selector
                } else {
                    role.affinity.node_selector
                }
                &&& config.graceful_shutdown_timeout == if group.graceful_shutdown_timeout is Some {
                    group.graceful_shutdown_timeout
                } else if role.graceful_shutdown_timeout is Some {
                    role.graceful_shutdown_timeout
                } else {
                    Some(Duration { secs: 120, nanos: 0 })
                }
            }
        }),
{
}

/// The discovery ConfigMap tells clients where the given Service is, at the port of OPA. A Service
/// without name or namespace leads nowhere.
pub proof fn lemma_discovery_configmap(
    name: Seq<char>,
    opa: OpaClusterView,
    image: ResolvedProductImageView,
    service: ObjectMetaView,
    cluster_domain: Seq<char>,
    recommended: CheckedView<()>,
)
    ensures
        ({
            let built = discovery_configmap(name, opa, image, service, cluster_domain, recommended);
            &&& service.name is None ==> built is Err && built->Err_0 is NoName
            &&& service.name is Some && service.namespace is None ==> built is Err && built->Err_0
                is NoNamespace
            &&& built matches Ok(config_map) ==> {
                &&& belongs_to(config_map.metadata, name, opa, image, "server"@, "discovery"@)
                &&& config_map.data is Some
                &&& config_map.data->0 =~= map![
                    "OPA"@ => "http://"@ + service.name->0 + "."@ + service.namespace->0 + ".svc."@
                        + cluster_domain + ":"@ + decimal(8081) + "/"@,
                ]
            }
            &&& service.name is Some && service.namespace is Some && opa.metadata.name is Some
                && opa.metadata.uid is Some && recommended is Valid ==> built is Ok
        }),
{
    lemma_object_meta(name, opa, image, "server"@, "discovery"@, recommended);
}

/// OPA fetches its bundle from the bundle-builder beside it, every ten to twenty seconds, and keeps it.
/// It reports its status there and to Prometheus, and decisions to its console where they are logged.
pub proof fn lemma_config_file(decisions: bool)
    ensures
        ({
            let file = config_file(decision_logs(decisions));
            let bundle = file.bundles.stackable;
            &&& file.services.len() == 1
            &&& file.services[0].name == "stackable"@
            &&& file.services[0].url == "http://localhost:3030/opa/v1"@
            &&& bundle.service == file.services[0].name
            &&& bundle.resource == "opa/bundle.tar.gz"@
            &&& bundle.persist
            &&& bundle.polling.min_delay_seconds == 10
            &&& bundle.polling.max_delay_seconds == 20
            &&& file.decision_logs is Some <==> decisions
            &&& decisions ==> file.decision_logs->0.console
            &&& file.status is Some
            &&& file.status->0.service == file.services[0].name
            &&& file.status->0.prometheus
        }),
{
}

} // verus!
