//! The Services of a cluster.
use crate::kubernetes::meta::ObjectMetaView;
use crate::kubernetes::resources::{
    Service, ServicePort, ServicePortView, ServiceSpec, ServiceSpecView, ServiceView,
};
use crate::labels::put;
use crate::text_map::StringMap;
use crate::text::{decimal, number};
use crate::v1alpha2::cluster::{
    group_headless_name, group_labels, group_metrics_name, object_labels, owned_object_meta,
    role_labels, role_service_name, ValidatedCluster, ValidatedClusterView,
    PLACEHOLDER_ROLE_LEVEL_ROLE_GROUP,
};
use crate::v1alpha2::crd::{traffic_policy, OpaRole};
use crate::value::one_item;
use vstd::prelude::*;

verus! {

/// The port of the OPA API without TLS.
pub const APP_PORT: u16 = 8081;

/// The port of the OPA API with TLS.
pub const APP_TLS_PORT: u16 = 8443;

/// The name of the port of the OPA API without TLS.
pub const APP_PORT_NAME: &'static str = "http";

/// The name of the port of the OPA API with TLS.
pub const APP_TLS_PORT_NAME: &'static str = "https";

/// The name of the port that metrics are served on.
pub const METRICS_PORT_NAME: &'static str = "metrics";

/// The port that OPA listens on.
pub open spec fn app_port(tls_enabled: bool) -> u16 {
    if tls_enabled {
        APP_TLS_PORT
    } else {
        APP_PORT
    }
}

/// The name of the port that OPA listens on.
pub open spec fn app_port_name(tls_enabled: bool) -> Seq<char> {
    if tls_enabled {
        APP_TLS_PORT_NAME@
    } else {
        APP_PORT_NAME@
    }
}

/// The URI scheme that OPA answers to.
pub open spec fn app_scheme(tls_enabled: bool) -> Seq<char> {
    if tls_enabled {
        "https"@
    } else {
        "http"@
    }
}

/// Determines the port that OPA listens on.
pub fn port_of_app(tls_enabled: bool) -> (port: u16)
    ensures
        port == app_port(tls_enabled),
{
    if tls_enabled {
        APP_TLS_PORT
    } else {
        APP_PORT
    }
}

/// Determines the name of the port that OPA listens on.
pub fn port_name_of_app(tls_enabled: bool) -> (name: &'static str)
    ensures
        name@ == app_port_name(tls_enabled),
{
    if tls_enabled {
        APP_TLS_PORT_NAME
    } else {
        APP_PORT_NAME
    }
}

/// Determines the URI scheme that OPA answers to.
pub fn scheme_of_app(tls_enabled: bool) -> (scheme: &'static str)
    ensures
        scheme@ == app_scheme(tls_enabled),
{
    if tls_enabled {
        "https"
    } else {
        "http"
    }
}

/// Whether the cluster serves HTTPS.
pub open spec fn tls_enabled(cluster: ValidatedClusterView) -> bool {
    cluster.cluster_config.tls is Some
}

/// The port of the OPA API, as a Service offers it.
pub open spec fn data_ports(tls_enabled: bool) -> Seq<ServicePortView> {
    seq![
        ServicePortView {
            name: Some(app_port_name(tls_enabled)),
            port: app_port(tls_enabled) as i32,
            protocol: Some("TCP"@),
        },
    ]
}

/// The port that metrics are served on, which is that of the OPA API, as a Service offers it.
pub open spec fn metrics_port(tls_enabled: bool) -> ServicePortView {
    ServicePortView {
        name: Some(METRICS_PORT_NAME@),
        port: app_port(tls_enabled) as i32,
        protocol: Some("TCP"@),
    }
}

fn data_service_ports(tls_enabled: bool) -> (ports: Vec<ServicePort>)
    ensures
        ports.deep_view() == data_ports(tls_enabled),
{
    one_item(
        ServicePort {
            name: Some(port_name_of_app(tls_enabled).to_owned()),
            port: port_of_app(tls_enabled) as i32,
            protocol: Some("TCP".to_owned()),
        },
    )
}

fn metrics_service_port(tls_enabled: bool) -> (port: ServicePort)
    ensures
        port.deep_view() == metrics_port(tls_enabled),
{
    ServicePort {
        name: Some(METRICS_PORT_NAME.to_owned()),
        port: port_of_app(tls_enabled) as i32,
        protocol: Some("TCP".to_owned()),
    }
}

/// The placeholder role group in the labels of the role-level Service.
pub fn role_level_role_group_name() -> (name: String)
    ensures
        name@ == PLACEHOLDER_ROLE_LEVEL_ROLE_GROUP@,
{
    PLACEHOLDER_ROLE_LEVEL_ROLE_GROUP.to_owned()
}

/// The Service that load-balances over the whole role.
///
/// Whether it routes to the Pod on the same node or to any Pod follows the workload: a DaemonSet
/// has a Pod on every node, a Deployment does not.
pub open spec fn server_role_service(cluster: ValidatedClusterView) -> ServiceView {
    ServiceView {
        metadata: owned_object_meta(
            cluster,
            role_service_name(cluster),
            object_labels(cluster, PLACEHOLDER_ROLE_LEVEL_ROLE_GROUP@),
        ),
        spec: Some(
            ServiceSpecView {
                type_: Some(cluster.cluster_config.listener_class.spec_k8s_service_type()),
                cluster_ip: None,
                ports: Some(data_ports(tls_enabled(cluster))),
                selector: Some(role_labels(cluster)),
                internal_traffic_policy: Some(
                    traffic_policy(cluster.server_role_config.workload_kind).spec_name(),
                ),
                publish_not_ready_addresses: None,
            },
        ),
    }
}

/// The server-role Service is the primary endpoint that should be used by clients that do not
/// perform internal load balancing, including targets outside of the cluster.
pub fn build_server_role_service(cluster: &ValidatedCluster) -> (service: Service)
    ensures
        service.deep_view() == server_role_service(cluster.deep_view()),
{
    let metadata = cluster.object_meta(
        cluster.server_role_service_name(),
        cluster.recommended_labels(role_level_role_group_name().as_str()),
    );
    Service {
        metadata,
        spec: Some(
            ServiceSpec {
                type_: Some(cluster.cluster_config.listener_class.k8s_service_type()),
                cluster_ip: None,
                ports: Some(data_service_ports(cluster.is_tls_enabled())),
                selector: Some(cluster.role_selector()),
                internal_traffic_policy: Some(
                    cluster.role_config(&OpaRole::Server).internal_traffic_policy().name(),
                ),
                publish_not_ready_addresses: None,
            },
        ),
    }
}

/// A headless Service for the given ports and selector.
pub open spec fn headless_spec(
    ports: Seq<ServicePortView>,
    selector: Map<Seq<char>, Seq<char>>,
    publish_not_ready_addresses: bool,
) -> ServiceSpecView {
    ServiceSpecView {
        type_: Some("ClusterIP"@),
        cluster_ip: Some("None"@),
        ports: Some(ports),
        selector: Some(selector),
        internal_traffic_policy: None,
        publish_not_ready_addresses: if publish_not_ready_addresses {
            Some(true)
        } else {
            None
        },
    }
}

fn headless_cluster_ip_service_spec(
    ports: Vec<ServicePort>,
    selector: StringMap,
    publish_not_ready_addresses: bool,
) -> (spec: ServiceSpec)
    ensures
        spec.deep_view() == headless_spec(
            ports.deep_view(),
            selector@,
            publish_not_ready_addresses,
        ),
{
    ServiceSpec {
        type_: Some("ClusterIP".to_owned()),
        cluster_ip: Some("None".to_owned()),
        ports: Some(ports),
        selector: Some(selector),
        internal_traffic_policy: None,
        publish_not_ready_addresses: if publish_not_ready_addresses {
            Some(true)
        } else {
            None
        },
    }
}

/// The headless Service that gives direct access to the instances of a role group.
pub open spec fn rolegroup_headless_service(
    cluster: ValidatedClusterView,
    role_group_name: Seq<char>,
) -> ServiceView {
    ServiceView {
        metadata: owned_object_meta(
            cluster,
            group_headless_name(cluster, role_group_name),
            object_labels(cluster, role_group_name),
        ),
        spec: Some(
            headless_spec(
                data_ports(tls_enabled(cluster)),
                group_labels(cluster, role_group_name),
                true,
            ),
        ),
    }
}

/// Builds the headless Service of a role group.
///
/// This is mostly useful for internal communication between peers, or for clients that perform
/// client-side load balancing.
pub fn build_rolegroup_headless_service(cluster: &ValidatedCluster, role_group_name: &str) -> (service:
    Service)
    ensures
        service.deep_view() == rolegroup_headless_service(cluster.deep_view(), role_group_name@),
{
    Service {
        metadata: cluster.object_meta(
            cluster.headless_service_name(role_group_name),
            cluster.recommended_labels(role_group_name),
        ),
        spec: Some(
            headless_cluster_ip_service_spec(
                data_service_ports(cluster.is_tls_enabled()),
                cluster.role_group_selector(role_group_name),
                true,
            ),
        ),
    }
}

/// The annotations by which Prometheus finds the metrics.
pub open spec fn scrape_annotations(tls_enabled: bool) -> Map<Seq<char>, Seq<char>> {
    Map::empty().insert("prometheus.io/path"@, "/metrics"@).insert(
        "prometheus.io/port"@,
        decimal(app_port(tls_enabled) as nat),
    ).insert("prometheus.io/scheme"@, app_scheme(tls_enabled)).insert(
        "prometheus.io/scrape"@,
        "true"@,
    )
}

fn prometheus_annotations(tls_enabled: bool) -> (annotations: StringMap)
    ensures
        annotations@ == scrape_annotations(tls_enabled),
{
    let mut annotations = StringMap::new();
    put(&mut annotations, "prometheus.io/path", "/metrics");
    put(
        &mut annotations,
        "prometheus.io/port",
        number(port_of_app(tls_enabled) as u64).as_str(),
    );
    put(&mut annotations, "prometheus.io/scheme", scheme_of_app(tls_enabled));
    put(&mut annotations, "prometheus.io/scrape", "true");
    annotations
}

/// The Service of a role group that exposes metrics and is marked to be scraped.
pub open spec fn rolegroup_metrics_service(
    cluster: ValidatedClusterView,
    role_group_name: Seq<char>,
) -> ServiceView {
    ServiceView {
        metadata: ObjectMetaView {
            annotations: Some(scrape_annotations(tls_enabled(cluster))),
            ..owned_object_meta(
                cluster,
                group_metrics_name(cluster, role_group_name),
                object_labels(cluster, role_group_name).insert("prometheus.io/scrape"@, "true"@),
            )
        },
        spec: Some(
            headless_spec(
                seq![metrics_port(tls_enabled(cluster))],
                group_labels(cluster, role_group_name),
                false,
            ),
        ),
    }
}

/// Builds the metrics Service of a role group.
pub fn build_rolegroup_metrics_service(cluster: &ValidatedCluster, role_group_name: &str) -> (service:
    Service)
    ensures
        service.deep_view() == rolegroup_metrics_service(cluster.deep_view(), role_group_name@),
{
    let tls_enabled = cluster.is_tls_enabled();
    let mut labels = cluster.recommended_labels(role_group_name);
    put(&mut labels, "prometheus.io/scrape", "true");
    let mut metadata = cluster.object_meta(cluster.metrics_service_name(role_group_name), labels);
    metadata.annotations = Some(prometheus_annotations(tls_enabled));
    Service {
        metadata,
        spec: Some(
            headless_cluster_ip_service_spec(
                one_item(metrics_service_port(tls_enabled)),
                cluster.role_group_selector(role_group_name),
                false,
            ),
        ),
    }
}

} // verus!
