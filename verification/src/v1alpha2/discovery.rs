//! The discovery ConfigMap by which clients connect to a cluster.
use crate::kubernetes::resources::{ConfigMap, ConfigMapView};
use crate::labels::put;
use crate::text_map::StringMap;
use crate::text::{decimal, number};
use crate::v1alpha2::cluster::{
    object_labels, owned_object_meta, role_service_name, ValidatedCluster, ValidatedClusterView,
    PLACEHOLDER_DISCOVERY_ROLE_GROUP,
};
use crate::v1alpha2::service::{app_port, app_scheme, port_of_app, scheme_of_app, tls_enabled};
use vstd::prelude::*;

verus! {

/// The URL at which clients reach the role Service.
pub open spec fn discovery_url(cluster: ValidatedClusterView, cluster_domain: Seq<char>) -> Seq<char> {
    app_scheme(tls_enabled(cluster)) + "://"@ + role_service_name(cluster) + "."@
        + cluster.namespace + ".svc."@ + cluster_domain + ":"@ + decimal(
        app_port(tls_enabled(cluster)) as nat,
    ) + "/"@
}

/// The entries of the discovery ConfigMap: the URL and, with TLS, the class of the certificates.
pub open spec fn discovery_data(
    cluster: ValidatedClusterView,
    cluster_domain: Seq<char>,
) -> Map<Seq<char>, Seq<char>> {
    let data = Map::empty().insert("OPA"@, discovery_url(cluster, cluster_domain));
    match cluster.cluster_config.tls {
        Some(tls) => data.insert("OPA_SECRET_CLASS"@, tls.server_secret_class),
        None => data,
    }
}

/// The discovery ConfigMap, which is named like the cluster.
pub open spec fn discovery_config_map(
    cluster: ValidatedClusterView,
    cluster_domain: Seq<char>,
) -> ConfigMapView {
    ConfigMapView {
        metadata: owned_object_meta(
            cluster,
            cluster.name,
            object_labels(cluster, PLACEHOLDER_DISCOVERY_ROLE_GROUP@),
        ),
        data: Some(discovery_data(cluster, cluster_domain)),
    }
}

/// Builds the discovery ConfigMap containing the URL (and, when TLS is enabled, the secret class)
/// clients need to connect to the cluster.
pub fn build_discovery_config_map(cluster: &ValidatedCluster, cluster_domain: &str) -> (config_map:
    ConfigMap)
    ensures
        config_map.deep_view() == discovery_config_map(cluster.deep_view(), cluster_domain@),
{
    let tls_enabled = cluster.is_tls_enabled();
    let mut url = scheme_of_app(tls_enabled).to_owned();
    url.append("://");
    url.append(cluster.server_role_service_name().as_str());
    url.append(".");
    url.append(cluster.namespace.as_str());
    url.append(".svc.");
    url.append(cluster_domain);
    url.append(":");
    url.append(number(port_of_app(tls_enabled) as u64).as_str());
    url.append("/");
    let mut data = StringMap::new();
    put(&mut data, "OPA", url.as_str());
    if let Some(tls) = &cluster.cluster_config.tls {
        put(&mut data, "OPA_SECRET_CLASS", tls.server_secret_class.as_str());
    }
    ConfigMap {
        metadata: cluster.object_meta(
            cluster.name.clone(),
            cluster.recommended_labels(PLACEHOLDER_DISCOVERY_ROLE_GROUP),
        ),
        data: Some(data),
    }
}

} // verus!
