//! The discovery ConfigMaps by which clients find a cluster.
use crate::checked::{Checked, CheckedView};
use crate::kubernetes::builder::{ResolvedProductImage, ResolvedProductImageView};
use crate::kubernetes::meta::ObjectMetaView;
use crate::kubernetes::owned::{owned_meta, owned_object_meta};
use crate::kubernetes::resources::{ConfigMap, ConfigMapView, Service};
use crate::labels::put;
use crate::text_map::StringMap;
use crate::text::{decimal, number};
use crate::v1alpha1::controller::{
    build_recommended_labels, name_of, object_labels, owner_name, API_VERSION, APP_PORT,
};
use crate::v1alpha1::crd::{OpaCluster, OpaClusterView, OpaRole};
use crate::value::{one_item, Value};
use vstd::prelude::*;

verus! {

/// Why a discovery ConfigMap could not be built.
#[derive(Clone, Debug, PartialEq, Eq)]
pub enum Error {
    /// The object lacks the metadata field that an owner reference needs.
    ObjectMissingMetadataForOwnerRef(String),
    /// The object has no name.
    NoName,
    /// The object has no namespace.
    NoNamespace,
    /// Object metadata could not be built.
    ObjectMeta(String),
}

/// The contents of an [`Error`].
#[verifier::ext_equal]
pub enum ErrorView {
    ObjectMissingMetadataForOwnerRef(Seq<char>),
    NoName,
    NoNamespace,
    ObjectMeta(Seq<char>),
}

impl DeepView for Error {
    type V = ErrorView;

    open spec fn deep_view(&self) -> ErrorView {
        match self {
            Error::ObjectMissingMetadataForOwnerRef(inner) => {
                ErrorView::ObjectMissingMetadataForOwnerRef(inner.deep_view())
            },
            Error::NoName => ErrorView::NoName,
            Error::NoNamespace => ErrorView::NoNamespace,
            Error::ObjectMeta(inner) => ErrorView::ObjectMeta(inner.deep_view()),
        }
    }
}

impl Value for Error {
    fn duplicate(&self) -> (copy: Self) {
        match self {
            Error::ObjectMissingMetadataForOwnerRef(inner) => {
                Error::ObjectMissingMetadataForOwnerRef(inner.duplicate())
            },
            Error::NoName => Error::NoName,
            Error::NoNamespace => Error::NoNamespace,
            Error::ObjectMeta(inner) => Error::ObjectMeta(inner.duplicate()),
        }
    }

    fn same_as(&self, other: &Self) -> (same: bool) {
        match (self, other) {
            (Error::ObjectMissingMetadataForOwnerRef(left), Error::ObjectMissingMetadataForOwnerRef(right)) => {
                left.same_as(right)
            },
            (Error::NoName, Error::NoName) => true,
            (Error::NoNamespace, Error::NoNamespace) => true,
            (Error::ObjectMeta(left), Error::ObjectMeta(right)) => left.same_as(right),
            _ => false,
        }
    }
}

/// The URL at which clients reach the role Service.
pub open spec fn discovery_url(
    service_name: Seq<char>,
    namespace: Seq<char>,
    cluster_domain: Seq<char>,
) -> Seq<char> {
    "http://"@ + service_name + "."@ + namespace + ".svc."@ + cluster_domain + ":"@ + decimal(
        APP_PORT as nat,
    ) + "/"@
}

/// The discovery ConfigMap of a cluster, for clients of its role Service. The cluster has to be able
/// to own it, and the platform has to accept its recommended labels.
pub open spec fn discovery_configmap(
    name: Seq<char>,
    opa: OpaClusterView,
    image: ResolvedProductImageView,
    service: ObjectMetaView,
    cluster_domain: Seq<char>,
    recommended: CheckedView<()>,
) -> Result<ConfigMapView, ErrorView> {
    match (service.name, service.namespace) {
        (None, _) => Err(ErrorView::NoName),
        (_, None) => Err(ErrorView::NoNamespace),
        (Some(service_name), Some(namespace)) => match owned_meta(
            name,
            opa.metadata,
            API_VERSION@,
            object_labels(
                owner_name(opa.metadata),
                image.app_version_label_value,
                OpaRole::Server.spec_name(),
                "discovery"@,
            ),
        ) {
            Err(field) => Err(ErrorView::ObjectMissingMetadataForOwnerRef(field)),
            Ok(metadata) => match recommended {
                CheckedView::Invalid(reason) => Err(ErrorView::ObjectMeta(reason)),
                CheckedView::Valid(_) => Ok(
                    ConfigMapView {
                        metadata,
                        data: Some(
                            Map::empty().insert(
                                "OPA"@,
                                discovery_url(service_name, namespace, cluster_domain),
                            ),
                        ),
                    },
                ),
            },
        },
    }
}

/// Builds the discovery ConfigMaps of a cluster: one, which is named like the cluster.
///
/// `recommended` is what the platform says of the labels of the ConfigMap.
pub fn build_discovery_configmaps(
    opa: &OpaCluster,
    image: &ResolvedProductImage,
    svc: &Service,
    cluster_domain: &str,
    recommended: &Checked<()>,
) -> (result: Result<Vec<ConfigMap>, Error>)
    ensures
        match discovery_configmap(
            owner_name(opa.deep_view().metadata),
            opa.deep_view(),
            image.deep_view(),
            svc.deep_view().metadata,
            cluster_domain@,
            recommended.deep_view(),
        ) {
            Ok(expected) => result matches Ok(config_maps) && config_maps.deep_view()
                == seq![expected],
            Err(expected) => result matches Err(error) && error.deep_view() == expected,
        },
{
    let name = name_of(&opa.metadata);
    match build_discovery_configmap(name.as_str(), opa, image, svc, cluster_domain, recommended) {
        Ok(config_map) => Ok(one_item(config_map)),
        Err(error) => Err(error),
    }
}

/// Builds a ConfigMap that says how to connect to a cluster.
pub fn build_discovery_configmap(
    name: &str,
    opa: &OpaCluster,
    image: &ResolvedProductImage,
    svc: &Service,
    cluster_domain: &str,
    recommended: &Checked<()>,
) -> (result: Result<ConfigMap, Error>)
    ensures
        match discovery_configmap(
            name@,
            opa.deep_view(),
            image.deep_view(),
            svc.deep_view().metadata,
            cluster_domain@,
            recommended.deep_view(),
        ) {
            Ok(expected) => result matches Ok(config_map) && config_map.deep_view() == expected,
            Err(expected) => result matches Err(error) && error.deep_view() == expected,
        },
{
    let service_name = match &svc.metadata.name {
        Some(name) => name,
        None => return Err(Error::NoName),
    };
    let namespace = match &svc.metadata.namespace {
        Some(namespace) => namespace,
        None => return Err(Error::NoNamespace),
    };
    let mut url = "http://".to_owned();
    url.append(service_name.as_str());
    url.append(".");
    url.append(namespace.as_str());
    url.append(".svc.");
    url.append(cluster_domain);
    url.append(":");
    url.append(number(APP_PORT as u64).as_str());
    url.append("/");
    let owner = name_of(&opa.metadata);
    let labels = build_recommended_labels(
        owner.as_str(),
        image.app_version_label_value.as_str(),
        OpaRole::Server.name().as_str(),
        "discovery",
    ).to_labels();
    let metadata = match owned_object_meta(name, &opa.metadata, API_VERSION, labels) {
        Ok(metadata) => metadata,
        Err(field) => return Err(Error::ObjectMissingMetadataForOwnerRef(field)),
    };
    if let Checked::Invalid(reason) = recommended {
        return Err(Error::ObjectMeta(reason.clone()));
    }
    let mut data = StringMap::new();
    put(&mut data, "OPA", url.as_str());
    Ok(ConfigMap { metadata, data: Some(data) })
}

} // verus!
