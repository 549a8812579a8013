//! What the objects of a cluster hold.
use crate::bundle_builder::{BUNDLE_PATH, STATUS_PATH};
use crate::kubernetes::meta::ObjectMetaView;
use crate::kubernetes::pod::IntOrStringView;
use crate::kubernetes::resources::{ServicePortView, ServiceSpecView};
use crate::labels::{lemma_label_keys_differ, OPA_CONTROLLER_NAME, OPERATOR_NAME};
use crate::text::decimal;
use crate::v1alpha2::cluster::{
    group_labels, object_labels, owned_object_meta, role_labels, shared_labels,
    OpaRoleGroupConfigView, ValidatedClusterView,
};
use crate::v1alpha2::config_json::{config_file, decision_logs};
use crate::v1alpha2::crd::{CurrentlySupportedListenerClasses, OpaRole, WorkloadKind};
use crate::v1alpha2::discovery::discovery_config_map;
use crate::v1alpha2::guarantees::lemma_object_names;
use crate::v1alpha2::pdb::role_pod_disruption_budget;
use crate::v1alpha2::rbac::{role_binding, service_account};
use crate::v1alpha2::reconcile::OPA_FULL_CONTROLLER_NAME;
use crate::v1alpha2::service::{
    rolegroup_headless_service, rolegroup_metrics_service, server_role_service,
};
use crate::v1alpha2::workload::{
    pod_template, rolegroup_daemonset, rolegroup_deployment, PlatformPartsView, PodInputs,
    BUNDLE_BUILDER_PORT, BUNDLE_BUILDER_PROBE_PATH,
};
use vstd::prelude::*;

verus! {

/// The labels that all objects of a cluster share.
pub open spec fn labelled(labels: Map<Seq<char>, Seq<char>>, cluster: ValidatedClusterView) -> bool {
    &&& labels.contains_pair("app.kubernetes.io/name"@, "opa"@)
    &&& labels.contains_pair("app.kubernetes.io/instance"@, cluster.name)
    &&& labels.contains_pair("app.kubernetes.io/version"@, cluster.product_version)
    &&& labels.contains_pair("app.kubernetes.io/managed-by"@, "opa.stackable.tech_opacluster"@)
    &&& labels.contains_pair("stackable.tech/vendor"@, "Stackable"@)
}

/// Whether labels are those of a role group, or of something that stands in for one.
pub open spec fn labelled_for_group(
    labels: Map<Seq<char>, Seq<char>>,
    cluster: ValidatedClusterView,
    group: Seq<char>,
) -> bool {
    &&& labelled(labels, cluster)
    &&& labels.contains_pair("app.kubernetes.io/component"@, "server"@)
    &&& labels.contains_pair("app.kubernetes.io/role-group"@, group)
}

/// Objects are labelled with the product, the cluster, its version, the operator and the vendor, and
/// those of the server role with role and role group besides.
#[verifier::rlimit(40)]
pub proof fn lemma_labels(cluster: ValidatedClusterView, group: Seq<char>)
    ensures
        labelled(shared_labels(cluster), cluster),
        shared_labels(cluster).len() == 5,
        labelled_for_group(object_labels(cluster, group), cluster, group),
        object_labels(cluster, group).len() == 7,
        role_labels(cluster) == map![
            "app.kubernetes.io/name"@ => "opa"@,
            "app.kubernetes.io/instance"@ => cluster.name,
            "app.kubernetes.io/component"@ => "server"@,
        ],
        group_labels(cluster, group) == map![
            "app.kubernetes.io/name"@ => "opa"@,
            "app.kubernetes.io/instance"@ => cluster.name,
            "app.kubernetes.io/component"@ => "server"@,
            "app.kubernetes.io/role-group"@ => group,
        ],
{
    lemma_label_keys_differ();
    lemma_manager();
    assert(role_labels(cluster) =~= map![
        "app.kubernetes.io/name"@ => "opa"@,
        "app.kubernetes.io/instance"@ => cluster.name,
        "app.kubernetes.io/component"@ => "server"@,
    ]);
    assert(group_labels(cluster, group) =~= map![
        "app.kubernetes.io/name"@ => "opa"@,
        "app.kubernetes.io/instance"@ => cluster.name,
        "app.kubernetes.io/component"@ => "server"@,
        "app.kubernetes.io/role-group"@ => group,
    ]);
    let keys = Set::<Seq<char>>::empty().insert("app.kubernetes.io/name"@).insert(
        "app.kubernetes.io/instance"@,
    ).insert("app.kubernetes.io/version"@).insert("app.kubernetes.io/managed-by"@).insert(
        "stackable.tech/vendor"@,
    );
    assert(shared_labels(cluster).dom() =~= keys);
    assert(object_labels(cluster, group).dom() =~= keys.insert(
        "app.kubernetes.io/component"@,
    ).insert("app.kubernetes.io/role-group"@));
}

proof fn lemma_manager()
    ensures
        crate::labels::managed_by(
            crate::labels::OPERATOR_NAME@,
            crate::labels::OPA_CONTROLLER_NAME@,
        ) == "opa.stackable.tech_opacluster"@,
{
    reveal_strlit("opa.stackable.tech");
    reveal_strlit("_");
    reveal_strlit("opacluster");
    reveal_strlit("opa.stackable.tech_opacluster");
    assert("opa.stackable.tech"@ + "_"@ + "opacluster"@ =~= "opa.stackable.tech_opacluster"@);
}

/// Whether an object has this name, is in the namespace of the cluster and is deleted with it.
pub open spec fn named_and_owned(
    meta: ObjectMetaView,
    cluster: ValidatedClusterView,
    name: Seq<char>,
) -> bool {
    let owner = meta.owner_references->0[0];
    &&& meta.name == Some(name)
    &&& meta.namespace == Some(cluster.namespace)
    &&& meta.owner_references is Some
    &&& meta.owner_references->0.len() == 1
    &&& owner.api_version == "opa.stackable.tech/v1alpha2"@
    &&& owner.kind == "OpaCluster"@
    &&& owner.name == cluster.name
    &&& owner.uid == cluster.uid
    &&& owner.controller == Some(true)
    &&& owner.block_owner_deletion is None
    &&& meta.labels is Some
    &&& meta.uid is None
    &&& meta.resource_version is None
}

/// Every object of a cluster has the cluster as its controller.
pub proof fn lemma_owned_object_meta(
    cluster: ValidatedClusterView,
    name: Seq<char>,
    labels: Map<Seq<char>, Seq<char>>,
)
    ensures
        named_and_owned(owned_object_meta(cluster, name, labels), cluster, name),
        owned_object_meta(cluster, name, labels).labels == Some(labels),
        owned_object_meta(cluster, name, labels).annotations is None,
{
}

/// Whether a Service offers nothing but this port, over TCP.
pub open spec fn offers(spec: ServiceSpecView, name: Seq<char>, port: int) -> bool {
    let offered: Seq<ServicePortView> = spec.ports->0;
    &&& spec.ports is Some
    &&& offered.len() == 1
    &&& offered[0].name == Some(name)
    &&& offered[0].port == port
    &&& offered[0].protocol == Some("TCP"@)
}

/// The port that OPA serves on.
pub open spec fn served_port(cluster: ValidatedClusterView) -> int {
    if cluster.cluster_config.tls is Some {
        8443
    } else {
        8081
    }
}

/// The name of that port, which is that of the protocol too.
pub open spec fn served_protocol(cluster: ValidatedClusterView) -> Seq<char> {
    if cluster.cluster_config.tls is Some {
        "https"@
    } else {
        "http"@
    }
}

/// The Service of the role offers the port that OPA serves on, to whom the listener class says. It
/// leads to the Pods of all role groups, and to those on the same node only where each node has one.
pub proof fn lemma_role_service(cluster: ValidatedClusterView)
    ensures
        ({
            let service = server_role_service(cluster);
            let spec = service.spec->0;
            let class = cluster.cluster_config.listener_class;
            let kind = cluster.server_role_config.workload_kind;
            &&& named_and_owned(service.metadata, cluster, cluster.name + "-server"@)
            &&& labelled_for_group(service.metadata.labels->0, cluster, "global"@)
            &&& service.spec is Some
            &&& class == CurrentlySupportedListenerClasses::ClusterInternal ==> spec.type_ == Some(
                "ClusterIP"@,
            )
            &&& class == CurrentlySupportedListenerClasses::ExternalUnstable ==> spec.type_ == Some(
                "NodePort"@,
            )
            &&& class == CurrentlySupportedListenerClasses::ExternalStable ==> spec.type_ == Some(
                "LoadBalancer"@,
            )
            &&& spec.cluster_ip is None
            &&& offers(spec, served_protocol(cluster), served_port(cluster))
            &&& spec.selector == Some(
                map![
                    "app.kubernetes.io/name"@ => "opa"@,
                    "app.kubernetes.io/instance"@ => cluster.name,
                    "app.kubernetes.io/component"@ => "server"@,
                ],
            )
            &&& kind == WorkloadKind::DaemonSet ==> spec.internal_traffic_policy == Some("Local"@)
            &&& kind == WorkloadKind::Deployment ==> spec.internal_traffic_policy == Some(
                "Cluster"@,
            )
            &&& spec.publish_not_ready_addresses is None
        }),
{
    lemma_labels(cluster, "global"@);
    lemma_object_names(cluster, "global"@);
}

/// The headless Service of a role group names its Pods, ready or not.
pub proof fn lemma_headless_service(cluster: ValidatedClusterView, group: Seq<char>)
    ensures
        ({
            let service = rolegroup_headless_service(cluster, group);
            let spec = service.spec->0;
            &&& named_and_owned(
                service.metadata,
                cluster,
                cluster.name + "-server-"@ + group + "-headless"@,
            )
            &&& labelled_for_group(service.metadata.labels->0, cluster, group)
            &&& service.spec is Some
            &&& spec.type_ == Some("ClusterIP"@)
            &&& spec.cluster_ip == Some("None"@)
            &&& offers(spec, served_protocol(cluster), served_port(cluster))
            &&& spec.selector == Some(
                map![
                    "app.kubernetes.io/name"@ => "opa"@,
                    "app.kubernetes.io/instance"@ => cluster.name,
                    "app.kubernetes.io/component"@ => "server"@,
                    "app.kubernetes.io/role-group"@ => group,
                ],
            )
            &&& spec.internal_traffic_policy is None
            &&& spec.publish_not_ready_addresses == Some(true)
        }),
{
    lemma_labels(cluster, group);
    lemma_object_names(cluster, group);
}

/// The metrics Service of a role group tells Prometheus where and how to scrape it.
#[verifier::rlimit(40)]
pub proof fn lemma_metrics_service(cluster: ValidatedClusterView, group: Seq<char>)
    ensures
        ({
            let service = rolegroup_metrics_service(cluster, group);
            let spec = service.spec->0;
            let labels = service.metadata.labels->0;
            let annotations = service.metadata.annotations->0;
            &&& named_and_owned(
                service.metadata,
                cluster,
                cluster.name + "-server-"@ + group + "-metrics"@,
            )
            &&& labelled_for_group(labels, cluster, group)
            &&& labels.contains_pair("prometheus.io/scrape"@, "true"@)
            &&& service.metadata.annotations is Some
            &&& annotations == map![
                "prometheus.io/path"@ => "/metrics"@,
                "prometheus.io/port"@ => decimal(served_port(cluster) as nat),
                "prometheus.io/scheme"@ => served_protocol(cluster),
                "prometheus.io/scrape"@ => "true"@,
            ]
            &&& service.spec is Some
            &&& spec.type_ == Some("ClusterIP"@)
            &&& spec.cluster_ip == Some("None"@)
            &&& offers(spec, "metrics"@, served_port(cluster))
            &&& spec.selector == Some(
                map![
                    "app.kubernetes.io/name"@ => "opa"@,
                    "app.kubernetes.io/instance"@ => cluster.name,
                    "app.kubernetes.io/component"@ => "server"@,
                    "app.kubernetes.io/role-group"@ => group,
                ],
            )
            &&& spec.internal_traffic_policy is None
            &&& spec.publish_not_ready_addresses is None
        }),
{
    lemma_labels(cluster, group);
    lemma_object_names(cluster, group);
    lemma_scrape_label_is_no_other();
    reveal_strlit("prometheus.io/path");
    reveal_strlit("prometheus.io/port");
    reveal_strlit("prometheus.io/scheme");
    reveal_strlit("prometheus.io/scrape");
    assert("prometheus.io/path"@[15] == 'a');
    assert("prometheus.io/port"@[15] == 'o');
    assert("prometheus.io/scheme"@[16] == 'h');
    assert("prometheus.io/scrape"@[16] == 'r');
    let annotations = rolegroup_metrics_service(cluster, group).metadata.annotations->0;
    assert(annotations =~= map![
        "prometheus.io/path"@ => "/metrics"@,
        "prometheus.io/port"@ => decimal(served_port(cluster) as nat),
        "prometheus.io/scheme"@ => served_protocol(cluster),
        "prometheus.io/scrape"@ => "true"@,
    ]);
}

proof fn lemma_scrape_label_is_no_other()
    ensures
        "prometheus.io/scrape"@ != "app.kubernetes.io/name"@,
        "prometheus.io/scrape"@ != "app.kubernetes.io/instance"@,
        "prometheus.io/scrape"@ != "app.kubernetes.io/version"@,
        "prometheus.io/scrape"@ != "app.kubernetes.io/component"@,
        "prometheus.io/scrape"@ != "app.kubernetes.io/role-group"@,
        "prometheus.io/scrape"@ != "app.kubernetes.io/managed-by"@,
        "prometheus.io/scrape"@ != "stackable.tech/vendor"@,
{
    reveal_strlit("prometheus.io/scrape");
    reveal_strlit("app.kubernetes.io/name");
    reveal_strlit("app.kubernetes.io/instance");
    reveal_strlit("app.kubernetes.io/version");
    reveal_strlit("app.kubernetes.io/component");
    reveal_strlit("app.kubernetes.io/role-group");
    reveal_strlit("app.kubernetes.io/managed-by");
    reveal_strlit("stackable.tech/vendor");
    assert("prometheus.io/scrape"@[0] == 'p');
    assert("app.kubernetes.io/name"@[0] == 'a');
    assert("app.kubernetes.io/instance"@[0] == 'a');
    assert("app.kubernetes.io/version"@[0] == 'a');
    assert("app.kubernetes.io/component"@[0] == 'a');
    assert("app.kubernetes.io/role-group"@[0] == 'a');
    assert("app.kubernetes.io/managed-by"@[0] == 'a');
    assert("stackable.tech/vendor"@[0] == 's');
}

/// The discovery ConfigMap has the name of the cluster. It tells clients where OPA is served and, with
/// TLS, which SecretClass its certificate comes from.
pub proof fn lemma_discovery_config_map(cluster: ValidatedClusterView, cluster_domain: Seq<char>)
    ensures
        ({
            let config_map = discovery_config_map(cluster, cluster_domain);
            let data = config_map.data->0;
            &&& named_and_owned(config_map.metadata, cluster, cluster.name)
            &&& labelled_for_group(config_map.metadata.labels->0, cluster, "discovery"@)
            &&& config_map.data is Some
            &&& data.contains_pair(
                "OPA"@,
                served_protocol(cluster) + "://"@ + (cluster.name + "-server"@) + "."@
                    + cluster.namespace + ".svc."@ + cluster_domain + ":"@ + decimal(
                    served_port(cluster) as nat,
                ) + "/"@,
            )
            &&& data.contains_key("OPA_SECRET_CLASS"@) <==> cluster.cluster_config.tls is Some
            &&& cluster.cluster_config.tls is Some ==> data["OPA_SECRET_CLASS"@]
                == cluster.cluster_config.tls->0.server_secret_class
            &&& forall|key: Seq<char>| #[trigger]
                data.contains_key(key) ==> key == "OPA"@ || key == "OPA_SECRET_CLASS"@
        }),
{
    lemma_labels(cluster, "discovery"@);
    lemma_object_names(cluster, "discovery"@);
    reveal_strlit("OPA");
    reveal_strlit("OPA_SECRET_CLASS");
    assert("OPA"@.len() == 3);
    assert("OPA_SECRET_CLASS"@.len() == 16);
}

/// The ServiceAccount of a cluster is bound to the cluster role of the product, and nothing else is.
pub proof fn lemma_rbac(cluster: ValidatedClusterView)
    ensures
        ({
            let account = service_account(cluster);
            let binding = role_binding(cluster);
            let subject = binding.subjects->0[0];
            &&& named_and_owned(account.metadata, cluster, cluster.name + "-serviceaccount"@)
            &&& labelled(account.metadata.labels->0, cluster)
            &&& named_and_owned(binding.metadata, cluster, cluster.name + "-rolebinding"@)
            &&& labelled(binding.metadata.labels->0, cluster)
            &&& binding.role_ref.api_group == "rbac.authorization.k8s.io"@
            &&& binding.role_ref.kind == "ClusterRole"@
            &&& binding.role_ref.name == "opa-clusterrole"@
            &&& binding.subjects is Some
            &&& binding.subjects->0.len() == 1
            &&& subject.kind == "ServiceAccount"@
            &&& subject.name == cluster.name + "-serviceaccount"@
            &&& subject.namespace == Some(cluster.namespace)
        }),
{
    lemma_labels(cluster, "global"@);
    reveal_strlit("opa");
    reveal_strlit("-clusterrole");
    reveal_strlit("opa-clusterrole");
    assert("opa"@ + "-clusterrole"@ =~= "opa-clusterrole"@);
}

/// A budget lets one Pod of the role be down at a time, or as many as are configured. There is one
/// where it is asked for, and for a Deployment where nothing is said.
#[verifier::rlimit(40)]
pub proof fn lemma_pod_disruption_budget(cluster: ValidatedClusterView)
    ensures
        ({
            let config = cluster.server_role_config;
            let wanted = if config.pod_disruption_budget.enabled is Some {
                config.pod_disruption_budget.enabled->0
            } else {
                config.workload_kind == WorkloadKind::Deployment
            };
            let unavailable = if config.pod_disruption_budget.max_unavailable is Some {
                config.pod_disruption_budget.max_unavailable->0 as int
            } else {
                1int
            };
            let built = role_pod_disruption_budget(cluster, OpaRole::Server, config);
            let budget = built->0;
            let labels = budget.metadata.labels->0;
            &&& built is Some <==> wanted
            &&& wanted ==> {
                &&& named_and_owned(budget.metadata, cluster, cluster.name + "-server"@)
                &&& labels.contains_pair("app.kubernetes.io/name"@, "opa"@)
                &&& labels.contains_pair("app.kubernetes.io/instance"@, cluster.name)
                &&& labels.contains_pair("app.kubernetes.io/component"@, "server"@)
                &&& labels.contains_pair(
                    "app.kubernetes.io/managed-by"@,
                    "opa.stackable.tech_opacluster"@,
                )
                &&& budget.spec is Some
                &&& budget.spec->0.max_unavailable is Some
                &&& budget.spec->0.max_unavailable->0 is Int
                &&& budget.spec->0.max_unavailable->0->Int_0 == unavailable
                &&& budget.spec->0.selector is Some
                &&& budget.spec->0.selector->0.match_expressions is None
                &&& budget.spec->0.selector->0.match_labels == Some(
                    map![
                        "app.kubernetes.io/name"@ => "opa"@,
                        "app.kubernetes.io/instance"@ => cluster.name,
                        "app.kubernetes.io/component"@ => "server"@,
                    ],
                )
            }
        }),
{
    lemma_label_keys_differ();
    lemma_manager();
    lemma_labels(cluster, "global"@);
    lemma_object_names(cluster, "global"@);
}

/// A workload is named and labelled after its role group and keeps the Pods of that role group. It
/// replaces them one at a time, each before the old one stops.
#[verifier::rlimit(40)]
pub proof fn lemma_workloads(
    cluster: ValidatedClusterView,
    role_group_name: Seq<char>,
    group: OpaRoleGroupConfigView,
    inputs: PodInputs,
    platform: PlatformPartsView,
)
    ensures
        ({
            let template = pod_template(cluster, role_group_name, group, inputs, platform);
            let name = cluster.name + "-server-"@ + role_group_name;
            let selector = map![
                "app.kubernetes.io/name"@ => "opa"@,
                "app.kubernetes.io/instance"@ => cluster.name,
                "app.kubernetes.io/component"@ => "server"@,
                "app.kubernetes.io/role-group"@ => role_group_name,
            ];
            &&& rolegroup_daemonset(cluster, role_group_name, group, inputs, platform) matches Ok(
                workload,
            ) ==> {
                let strategy = workload.spec->0.update_strategy->0;
                &&& named_and_owned(workload.metadata, cluster, name)
                &&& labelled_for_group(workload.metadata.labels->0, cluster, role_group_name)
                &&& workload.spec is Some
                &&& workload.spec->0.selector.match_labels == Some(selector)
                &&& workload.spec->0.selector.match_expressions is None
                &&& template is Ok
                &&& workload.spec->0.template == template->Ok_0
                &&& workload.spec->0.update_strategy is Some
                &&& strategy.type_ == Some("RollingUpdate"@)
                &&& strategy.rolling_update is Some
                &&& strategy.rolling_update->0.max_surge == Some(IntOrStringView::Int(1))
                &&& strategy.rolling_update->0.max_unavailable == Some(IntOrStringView::Int(0))
            }
            &&& rolegroup_deployment(cluster, role_group_name, group, inputs, platform) matches Ok(
                workload,
            ) ==> {
                let strategy = workload.spec->0.strategy->0;
                &&& named_and_owned(workload.metadata, cluster, name)
                &&& labelled_for_group(workload.metadata.labels->0, cluster, role_group_name)
                &&& workload.spec is Some
                &&& workload.spec->0.selector.match_labels == Some(selector)
                &&& workload.spec->0.selector.match_expressions is None
                &&& template is Ok
                &&& workload.spec->0.template == template->Ok_0
                &&& workload.spec->0.strategy is Some
                &&& strategy.type_ == Some("RollingUpdate"@)
                &&& strategy.rolling_update is Some
                &&& strategy.rolling_update->0.max_surge == Some(IntOrStringView::Int(1))
                &&& strategy.rolling_update->0.max_unavailable == Some(IntOrStringView::Int(0))
                &&& group.replicas is None ==> workload.spec->0.replicas is None
                &&& group.replicas is Some ==> workload.spec->0.replicas is Some
                    && workload.spec->0.replicas->0 == group.replicas->0
            }
        }),
{
    lemma_labels(cluster, role_group_name);
    lemma_object_names(cluster, role_group_name);
}

/// OPA fetches its bundle from the bundle-builder beside it, every ten to twenty seconds, and keeps it.
/// It reports its status to Prometheus, and decisions to its console where they are logged.
pub proof fn lemma_config_file(decisions: bool)
    ensures
        ({
            let file = config_file(decision_logs(decisions));
            let bundle = file.bundles.stackable;
            &&& file.services.len() == 1
            &&& file.services[0].name == "stackable"@
            &&& file.services[0].url == "http://localhost:3030/opa/v1"@
            &&& bundle.service == file.services[0].name
            &&& bundle.resource == "opa/bundle.tar.gz"@
            &&& bundle.persist
            &&& bundle.polling.min_delay_seconds == 10
            &&& bundle.polling.max_delay_seconds == 20
            &&& file.decision_logs is Some <==> decisions
            &&& decisions ==> file.decision_logs->0.console
            &&& file.status is Some
            &&& file.status->0.prometheus
        }),
{
}

/// OPA fetches its bundle from where the bundle-builder serves it, and the bundle-builder is asked for
/// its status where it serves that.
pub proof fn lemma_opa_finds_the_bundle(decisions: bool)
    ensures
        ({
            let file = config_file(decision_logs(decisions));
            file.services[0].url + "/"@ + file.bundles.stackable.resource
                == "http://localhost:3030"@ + BUNDLE_PATH@
        }),
        BUNDLE_BUILDER_PORT == 3030,
        BUNDLE_BUILDER_PROBE_PATH@ == STATUS_PATH@,
{
    reveal_strlit("http://localhost:3030/opa/v1");
    reveal_strlit("/");
    reveal_strlit("opa/bundle.tar.gz");
    reveal_strlit("http://localhost:3030");
    reveal_strlit("/opa/v1/opa/bundle.tar.gz");
    assert("http://localhost:3030/opa/v1"@ + "/"@ + "opa/bundle.tar.gz"@
        =~= "http://localhost:3030"@ + "/opa/v1/opa/bundle.tar.gz"@);
}

/// The full name of the controller is that of the controller within that of the operator.
pub proof fn lemma_controller_name()
    ensures
        OPA_FULL_CONTROLLER_NAME@ == OPA_CONTROLLER_NAME@ + "."@ + OPERATOR_NAME@,
        OPERATOR_NAME@ == "opa.stackable.tech"@,
{
    reveal_strlit("opacluster.opa.stackable.tech");
    reveal_strlit("opacluster");
    reveal_strlit(".");
    reveal_strlit("opa.stackable.tech");
    assert(OPA_FULL_CONTROLLER_NAME@ =~= OPA_CONTROLLER_NAME@ + "."@ + OPERATOR_NAME@);
}

} // verus!
