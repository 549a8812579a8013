//! Builds and reconciles the objects of an `OpaCluster`.
use crate::checked::{Checked, CheckedView};
use crate::config::{
    grace_period, graceful_shutdown_config, opa_shutdown_grace_period, requirements,
    shutdown_grace_period,
};
use crate::info_fetcher_sidecar;
use crate::info_fetcher_sidecar::{
    add_needs, needs_added, AddedVolumes, AddedVolumesView, SidecarVolumes, CREDENTIALS_DIR,
    KERBEROS_DIR,
};
use crate::kubernetes::builder::{
    CollisionError, CollisionErrorView, ResolvedProductImage, ResolvedProductImageView,
};
use crate::kubernetes::env_var_set::{configured_env, configured_env_vars};
use crate::kubernetes::meta::{LabelSelector, LabelSelectorView, ObjectMeta, ObjectMetaView};
use crate::kubernetes::owned::{empty_meta, no_meta, owned_meta, owned_object_meta};
use crate::kubernetes::parts::{
    add_stackable_rust_cli_env_vars, bash_entrypoint, bash_entrypoint_command, config_map_volume,
    config_map_volume_view, empty_volume, empty_volume_view, env_var, env_var_from_field, field_env,
    http_liveness_probe, http_readiness_probe, literal_env, liveness_probe_view, log_directory,
    log_directory_of, mount, mount_view, readiness_probe_view, rust_cli_env,
    sidecar_resource_requirements, sidecar_resources,
};
use crate::kubernetes::pod::{
    Container, ContainerPort, ContainerPortView, ContainerView, EnvVar, EnvVarView, IntOrString,
    IntOrStringView, PodSecurityContext, PodSecurityContextView, PodTemplate, PodTemplateView,
    Volume, VolumeMount, VolumeView,
};
use crate::kubernetes::resources::{
    ConfigMap, ConfigMapView, DaemonSet, DaemonSetSpec, DaemonSetSpecView, DaemonSetView, Service,
    ServicePort, ServicePortView, ServiceSpec, ServiceSpecView, ServiceView,
};
use crate::labels::{
    put, role_group_selector, role_group_selector_labels, role_selector, role_selector_labels,
    ObjectLabels, APP_NAME, OPA_CONTROLLER_NAME, OPERATOR_NAME,
};
use crate::logging::{
    level_for_sidecar, sidecar_log_level, spelled, BundleBuilderLogLevel, LevelNames,
    LevelNamesView,
};
use crate::names::{headless_service_name, metrics_service_name, role_group_name};
use crate::start_command::{
    bundle_builder_script, log_levels, opa_level, opa_log_level, opa_log_levels, prepare_commands,
    render_bundle_builder_script, render_opa_script, render_prepare_commands, server_script,
    OpaServer, ShellSnippets, ShellSnippetsView, CONFIG_DIR, STACKABLE_LOG_DIR,
};
use crate::text_map::StringMap;
use crate::text::{join, joined};
use crate::user_info_fetcher::{backend_needs, Backend, BackendView, ConfigView};
use crate::v1alpha1::crd;
use crate::v1alpha1::crd::{
    container_log, referenced_role_group, Logging, LoggingView, OpaCluster, OpaClusterView,
    OpaConfig, OpaConfigView, OpaRole, RoleGroupRef, RoleGroupRefView,
};
use crate::v1alpha1::discovery;
use crate::value::{no_items, one_item, push_item, Value};
use vstd::prelude::*;

verus! {

/// What failed for a role group.
#[derive(Clone, Debug, PartialEq, Eq)]
pub struct RoleGroupFailure {
    pub rolegroup: RoleGroupRef,
    pub source: String,
}

/// The contents of a [`RoleGroupFailure`].
#[verifier::ext_equal]
pub struct RoleGroupFailureView {
    pub rolegroup: RoleGroupRefView,
    pub source: Seq<char>,
}

impl DeepView for RoleGroupFailure {
    type V = RoleGroupFailureView;

    open spec fn deep_view(&self) -> RoleGroupFailureView {
        RoleGroupFailureView {
            rolegroup: self.rolegroup.deep_view(),
            source: self.source.deep_view(),
        }
    }
}

impl Value for RoleGroupFailure {
    fn duplicate(&self) -> (copy: Self) {
        RoleGroupFailure {
            rolegroup: self.rolegroup.duplicate(),
            source: self.source.duplicate(),
        }
    }

    fn same_as(&self, other: &Self) -> (same: bool) {
        self.rolegroup.same_as(&other.rolegroup) && self.source.same_as(&other.source)
    }
}

/// Why a cluster could not be reconciled.
#[derive(Clone, Debug, PartialEq, Eq)]
pub enum Error {
    /// The OpaCluster object is invalid.
    InvalidOpaCluster(String),
    /// The object does not define a name.
    NoName,
    /// Internal operator failure.
    InternalOperatorFailure(crd::Error),
    /// The name of the role Service is not known.
    RoleServiceNameNotFound,
    /// The role Service could not be applied.
    ApplyRoleService(String),
    /// The Service of a role group could not be applied.
    ApplyRoleGroupService(RoleGroupFailure),
    /// The metrics Service of a role group could not be applied.
    ApplyRoleGroupMetricsService(RoleGroupFailure),
    /// The ConfigMap of a role group could not be built.
    BuildRoleGroupConfig(RoleGroupFailure),
    /// The ConfigMap of a role group could not be applied.
    ApplyRoleGroupConfig(RoleGroupFailure),
    /// The DaemonSet of a role group could not be applied.
    ApplyRoleGroupDaemonSet(RoleGroupFailure),
    /// The DaemonSet of a role group could not be patched.
    ApplyPatchRoleGroupDaemonSet(RoleGroupFailure),
    /// The service account could not be patched.
    ApplyServiceAccount(String),
    /// The role binding could not be patched.
    ApplyRoleBinding(String),
    /// The status could not be updated.
    ApplyStatus(String),
    /// The product config is invalid.
    InvalidProductConfig(String),
    /// The object lacks the metadata field that an owner reference needs.
    ObjectMissingMetadataForOwnerRef(String),
    /// The discovery ConfigMap could not be built.
    BuildDiscoveryConfig(discovery::Error),
    /// The discovery ConfigMap could not be applied.
    ApplyDiscoveryConfig(String),
    /// The configs could not be transformed.
    ProductConfigTransform(String),
    /// The config of a role group could not be resolved and merged.
    FailedToResolveConfig(crd::Error),
    /// The Vector agent is enabled but the Vector aggregator ConfigMap is missing.
    VectorAggregatorConfigMapMissing,
    /// The logging configuration could not be added to the ConfigMap.
    InvalidLoggingConfig(String),
    /// The cluster resources could not be created.
    FailedToCreateClusterResources(String),
    /// Orphaned resources could not be deleted.
    DeleteOrphans(String),
    /// The RBAC resources could not be built.
    BuildRbacResources(String),
    /// The graceful shutdown could not be configured.
    GracefulShutdown,
    /// The configuration of the user-info-fetcher could not be serialized.
    SerializeUserInfoFetcherConfig(String),
    /// A label could not be built.
    BuildLabel(String),
    /// Object metadata could not be built.
    ObjectMeta(String),
    /// The Kerberos volume of the user-info-fetcher could not be added.
    UserInfoFetcherKerberosVolume(CollisionError),
    /// The Kerberos volume of the user-info-fetcher could not be mounted.
    UserInfoFetcherKerberosVolumeMount(CollisionError),
    /// What the backend of the user-info-fetcher asks for could not be added.
    UserInfoFetcherTlsVolumeAndMounts(info_fetcher_sidecar::Error),
    /// Logging could not be configured.
    ConfigureLogging(String),
    /// A volume could not be added.
    AddVolume(CollisionError),
    /// A volume could not be mounted.
    AddVolumeMount(CollisionError),
}

/// The contents of an [`Error`].
#[verifier::ext_equal]
pub enum ErrorView {
    InvalidOpaCluster(Seq<char>),
    NoName,
    InternalOperatorFailure(crd::ErrorView),
    RoleServiceNameNotFound,
    ApplyRoleService(Seq<char>),
    ApplyRoleGroupService(RoleGroupFailureView),
    ApplyRoleGroupMetricsService(RoleGroupFailureView),
    BuildRoleGroupConfig(RoleGroupFailureView),
    ApplyRoleGroupConfig(RoleGroupFailureView),
    ApplyRoleGroupDaemonSet(RoleGroupFailureView),
    ApplyPatchRoleGroupDaemonSet(RoleGroupFailureView),
    ApplyServiceAccount(Seq<char>),
    ApplyRoleBinding(Seq<char>),
    ApplyStatus(Seq<char>),
    InvalidProductConfig(Seq<char>),
    ObjectMissingMetadataForOwnerRef(Seq<char>),
    BuildDiscoveryConfig(discovery::ErrorView),
    ApplyDiscoveryConfig(Seq<char>),
    ProductConfigTransform(Seq<char>),
    FailedToResolveConfig(crd::ErrorView),
    VectorAggregatorConfigMapMissing,
    InvalidLoggingConfig(Seq<char>),
    FailedToCreateClusterResources(Seq<char>),
    DeleteOrphans(Seq<char>),
    BuildRbacResources(Seq<char>),
    GracefulShutdown,
    SerializeUserInfoFetcherConfig(Seq<char>),
    BuildLabel(Seq<char>),
    ObjectMeta(Seq<char>),
    UserInfoFetcherKerberosVolume(CollisionErrorView),
    UserInfoFetcherKerberosVolumeMount(CollisionErrorView),
    UserInfoFetcherTlsVolumeAndMounts(info_fetcher_sidecar::ErrorView),
    ConfigureLogging(Seq<char>),
    AddVolume(CollisionErrorView),
    AddVolumeMount(CollisionErrorView),
}

impl DeepView for Error {
    type V = ErrorView;

    open spec fn deep_view(&self) -> ErrorView {
        match self {
            Error::InvalidOpaCluster(inner) => ErrorView::InvalidOpaCluster(inner.deep_view()),
            Error::NoName => ErrorView::NoName,
            Error::InternalOperatorFailure(inner) => {
                ErrorView::InternalOperatorFailure(inner.deep_view())
            },
            Error::RoleServiceNameNotFound => ErrorView::RoleServiceNameNotFound,
            Error::ApplyRoleService(inner) => ErrorView::ApplyRoleService(inner.deep_view()),
            Error::ApplyRoleGroupService(inner) => {
                ErrorView::ApplyRoleGroupService(inner.deep_view())
            },
            Error::ApplyRoleGroupMetricsService(inner) => {
                ErrorView::ApplyRoleGroupMetricsService(inner.deep_view())
            },
            Error::BuildRoleGroupConfig(inner) => {
                ErrorView::BuildRoleGroupConfig(inner.deep_view())
            },
            Error::ApplyRoleGroupConfig(inner) => {
                ErrorView::ApplyRoleGroupConfig(inner.deep_view())
            },
            Error::ApplyRoleGroupDaemonSet(inner) => {
                ErrorView::ApplyRoleGroupDaemonSet(inner.deep_view())
            },
            Error::ApplyPatchRoleGroupDaemonSet(inner) => {
                ErrorView::ApplyPatchRoleGroupDaemonSet(inner.deep_view())
            },
            Error::ApplyServiceAccount(inner) => ErrorView::ApplyServiceAccount(inner.deep_view()),
            Error::ApplyRoleBinding(inner) => ErrorView::ApplyRoleBinding(inner.deep_view()),
            Error::ApplyStatus(inner) => ErrorView::ApplyStatus(inner.deep_view()),
            Error::InvalidProductConfig(inner) => {
                ErrorView::InvalidProductConfig(inner.deep_view())
            },
            Error::ObjectMissingMetadataForOwnerRef(inner) => {
                ErrorView::ObjectMissingMetadataForOwnerRef(inner.deep_view())
            },
            Error::BuildDiscoveryConfig(inner) => {
                ErrorView::BuildDiscoveryConfig(inner.deep_view())
            },
            Error::ApplyDiscoveryConfig(inner) => {
                ErrorView::ApplyDiscoveryConfig(inner.deep_view())
            },
            Error::ProductConfigTransform(inner) => {
                ErrorView::ProductConfigTransform(inner.deep_view())
            },
            Error::FailedToResolveConfig(inner) => {
                ErrorView::FailedToResolveConfig(inner.deep_view())
            },
            Error::VectorAggregatorConfigMapMissing => ErrorView::VectorAggregatorConfigMapMissing,
            Error::InvalidLoggingConfig(inner) => {
                ErrorView::InvalidLoggingConfig(inner.deep_view())
            },
            Error::FailedToCreateClusterResources(inner) => {
                ErrorView::FailedToCreateClusterResources(inner.deep_view())
            },
            Error::DeleteOrphans(inner) => ErrorView::DeleteOrphans(inner.deep_view()),
            Error::BuildRbacResources(inner) => ErrorView::BuildRbacResources(inner.deep_view()),
            Error::GracefulShutdown => ErrorView::GracefulShutdown,
            Error::SerializeUserInfoFetcherConfig(inner) => {
                ErrorView::SerializeUserInfoFetcherConfig(inner.deep_view())
            },
            Error::BuildLabel(inner) => ErrorView::BuildLabel(inner.deep_view()),
            Error::ObjectMeta(inner) => ErrorView::ObjectMeta(inner.deep_view()),
            Error::UserInfoFetcherKerberosVolume(inner) => {
                ErrorView::UserInfoFetcherKerberosVolume(inner.deep_view())
            },
            Error::UserInfoFetcherKerberosVolumeMount(inner) => {
                ErrorView::UserInfoFetcherKerberosVolumeMount(inner.deep_view())
            },
            Error::UserInfoFetcherTlsVolumeAndMounts(inner) => {
                ErrorView::UserInfoFetcherTlsVolumeAndMounts(inner.deep_view())
            },
            Error::ConfigureLogging(inner) => ErrorView::ConfigureLogging(inner.deep_view()),
            Error::AddVolume(inner) => ErrorView::AddVolume(inner.deep_view()),
            Error::AddVolumeMount(inner) => ErrorView::AddVolumeMount(inner.deep_view()),
        }
    }
}

impl Value for Error {
    fn duplicate(&self) -> (copy: Self) {
        match self {
            Error::InvalidOpaCluster(inner) => Error::InvalidOpaCluster(inner.duplicate()),
            Error::NoName => Error::NoName,
            Error::InternalOperatorFailure(inner) => {
                Error::InternalOperatorFailure(inner.duplicate())
            },
            Error::RoleServiceNameNotFound => Error::RoleServiceNameNotFound,
            Error::ApplyRoleService(inner) => Error::ApplyRoleService(inner.duplicate()),
            Error::ApplyRoleGroupService(inner) => Error::ApplyRoleGroupService(inner.duplicate()),
            Error::ApplyRoleGroupMetricsService(inner) => {
                Error::ApplyRoleGroupMetricsService(inner.duplicate())
            },
            Error::BuildRoleGroupConfig(inner) => Error::BuildRoleGroupConfig(inner.duplicate()),
            Error::ApplyRoleGroupConfig(inner) => Error::ApplyRoleGroupConfig(inner.duplicate()),
            Error::ApplyRoleGroupDaemonSet(inner) => {
                Error::ApplyRoleGroupDaemonSet(inner.duplicate())
            },
            Error::ApplyPatchRoleGroupDaemonSet(inner) => {
                Error::ApplyPatchRoleGroupDaemonSet(inner.duplicate())
            },
            Error::ApplyServiceAccount(inner) => Error::ApplyServiceAccount(inner.duplicate()),
            Error::ApplyRoleBinding(inner) => Error::ApplyRoleBinding(inner.duplicate()),
            Error::ApplyStatus(inner) => Error::ApplyStatus(inner.duplicate()),
            Error::InvalidProductConfig(inner) => Error::InvalidProductConfig(inner.duplicate()),
            Error::ObjectMissingMetadataForOwnerRef(inner) => {
                Error::ObjectMissingMetadataForOwnerRef(inner.duplicate())
            },
            Error::BuildDiscoveryConfig(inner) => Error::BuildDiscoveryConfig(inner.duplicate()),
            Error::ApplyDiscoveryConfig(inner) => Error::ApplyDiscoveryConfig(inner.duplicate()),
            Error::ProductConfigTransform(inner) => {
                Error::ProductConfigTransform(inner.duplicate())
            },
            Error::FailedToResolveConfig(inner) => Error::FailedToResolveConfig(inner.duplicate()),
            Error::VectorAggregatorConfigMapMissing => Error::VectorAggregatorConfigMapMissing,
            Error::InvalidLoggingConfig(inner) => Error::InvalidLoggingConfig(inner.duplicate()),
            Error::FailedToCreateClusterResources(inner) => {
                Error::FailedToCreateClusterResources(inner.duplicate())
            },
            Error::DeleteOrphans(inner) => Error::DeleteOrphans(inner.duplicate()),
            Error::BuildRbacResources(inner) => Error::BuildRbacResources(inner.duplicate()),
            Error::GracefulShutdown => Error::GracefulShutdown,
            Error::SerializeUserInfoFetcherConfig(inner) => {
                Error::SerializeUserInfoFetcherConfig(inner.duplicate())
            },
            Error::BuildLabel(inner) => Error::BuildLabel(inner.duplicate()),
            Error::ObjectMeta(inner) => Error::ObjectMeta(inner.duplicate()),
            Error::UserInfoFetcherKerberosVolume(inner) => {
                Error::UserInfoFetcherKerberosVolume(inner.duplicate())
            },
            Error::UserInfoFetcherKerberosVolumeMount(inner) => {
                Error::UserInfoFetcherKerberosVolumeMount(inner.duplicate())
            },
            Error::UserInfoFetcherTlsVolumeAndMounts(inner) => {
                Error::UserInfoFetcherTlsVolumeAndMounts(inner.duplicate())
            },
            Error::ConfigureLogging(inner) => Error::ConfigureLogging(inner.duplicate()),
            Error::AddVolume(inner) => Error::AddVolume(inner.duplicate()),
            Error::AddVolumeMount(inner) => Error::AddVolumeMount(inner.duplicate()),
        }
    }

    fn same_as(&self, other: &Self) -> (same: bool) {
        match (self, other) {
            (Error::InvalidOpaCluster(left), Error::InvalidOpaCluster(right)) => {
                left.same_as(right)
            },
            (Error::NoName, Error::NoName) => true,
            (Error::InternalOperatorFailure(left), Error::InternalOperatorFailure(right)) => {
                left.same_as(right)
            },
            (Error::RoleServiceNameNotFound, Error::RoleServiceNameNotFound) => true,
            (Error::ApplyRoleService(left), Error::ApplyRoleService(right)) => left.same_as(right),
            (Error::ApplyRoleGroupService(left), Error::ApplyRoleGroupService(right)) => {
                left.same_as(right)
            },
            (Error::ApplyRoleGroupMetricsService(left), Error::ApplyRoleGroupMetricsService(right)) => {
                left.same_as(right)
            },
            (Error::BuildRoleGroupConfig(left), Error::BuildRoleGroupConfig(right)) => {
                left.same_as(right)
            },
            (Error::ApplyRoleGroupConfig(left), Error::ApplyRoleGroupConfig(right)) => {
                left.same_as(right)
            },
            (Error::ApplyRoleGroupDaemonSet(left), Error::ApplyRoleGroupDaemonSet(right)) => {
                left.same_as(right)
            },
            (Error::ApplyPatchRoleGroupDaemonSet(left), Error::ApplyPatchRoleGroupDaemonSet(right)) => {
                left.same_as(right)
            },
            (Error::ApplyServiceAccount(left), Error::ApplyServiceAccount(right)) => {
                left.same_as(right)
            },
            (Error::ApplyRoleBinding(left), Error::ApplyRoleBinding(right)) => left.same_as(right),
            (Error::ApplyStatus(left), Error::ApplyStatus(right)) => left.same_as(right),
            (Error::InvalidProductConfig(left), Error::InvalidProductConfig(right)) => {
                left.same_as(right)
            },
            (Error::ObjectMissingMetadataForOwnerRef(left), Error::ObjectMissingMetadataForOwnerRef(right)) => {
                left.same_as(right)
            },
            (Error::BuildDiscoveryConfig(left), Error::BuildDiscoveryConfig(right)) => {
                left.same_as(right)
            },
            (Error::ApplyDiscoveryConfig(left), Error::ApplyDiscoveryConfig(right)) => {
                left.same_as(right)
            },
            (Error::ProductConfigTransform(left), Error::ProductConfigTransform(right)) => {
                left.same_as(right)
            },
            (Error::FailedToResolveConfig(left), Error::FailedToResolveConfig(right)) => {
                left.same_as(right)
            },
            (Error::VectorAggregatorConfigMapMissing, Error::VectorAggregatorConfigMapMissing) => true,
            (Error::InvalidLoggingConfig(left), Error::InvalidLoggingConfig(right)) => {
                left.same_as(right)
            },
            (Error::FailedToCreateClusterResources(left), Error::FailedToCreateClusterResources(right)) => {
                left.same_as(right)
            },
            (Error::DeleteOrphans(left), Error::DeleteOrphans(right)) => left.same_as(right),
            (Error::BuildRbacResources(left), Error::BuildRbacResources(right)) => {
                left.same_as(right)
            },
            (Error::GracefulShutdown, Error::GracefulShutdown) => true,
            (Error::SerializeUserInfoFetcherConfig(left), Error::SerializeUserInfoFetcherConfig(right)) => {
                left.same_as(right)
            },
            (Error::BuildLabel(left), Error::BuildLabel(right)) => left.same_as(right),
            (Error::ObjectMeta(left), Error::ObjectMeta(right)) => left.same_as(right),
            (Error::UserInfoFetcherKerberosVolume(left), Error::UserInfoFetcherKerberosVolume(right)) => {
                left.same_as(right)
            },
            (Error::UserInfoFetcherKerberosVolumeMount(left), Error::UserInfoFetcherKerberosVolumeMount(right)) => {
                left.same_as(right)
            },
            (Error::UserInfoFetcherTlsVolumeAndMounts(left), Error::UserInfoFetcherTlsVolumeAndMounts(right)) => {
                left.same_as(right)
            },
            (Error::ConfigureLogging(left), Error::ConfigureLogging(right)) => left.same_as(right),
            (Error::AddVolume(left), Error::AddVolume(right)) => left.same_as(right),
            (Error::AddVolumeMount(left), Error::AddVolumeMount(right)) => left.same_as(right),
            _ => false,
        }
    }
}

impl Error {
    /// The category under which the error is reported: the name of its variant.
    pub open spec fn spec_category(self) -> Seq<char> {
        match self {
            Error::InvalidOpaCluster(_) => "InvalidOpaCluster"@,
            Error::NoName => "NoName"@,
            Error::InternalOperatorFailure(_) => "InternalOperatorFailure"@,
            Error::RoleServiceNameNotFound => "RoleServiceNameNotFound"@,
            Error::ApplyRoleService(_) => "ApplyRoleService"@,
            Error::ApplyRoleGroupService(_) => "ApplyRoleGroupService"@,
            Error::ApplyRoleGroupMetricsService(_) => "ApplyRoleGroupMetricsService"@,
            Error::BuildRoleGroupConfig(_) => "BuildRoleGroupConfig"@,
            Error::ApplyRoleGroupConfig(_) => "ApplyRoleGroupConfig"@,
            Error::ApplyRoleGroupDaemonSet(_) => "ApplyRoleGroupDaemonSet"@,
            Error::ApplyPatchRoleGroupDaemonSet(_) => "ApplyPatchRoleGroupDaemonSet"@,
            Error::ApplyServiceAccount(_) => "ApplyServiceAccount"@,
            Error::ApplyRoleBinding(_) => "ApplyRoleBinding"@,
            Error::ApplyStatus(_) => "ApplyStatus"@,
            Error::InvalidProductConfig(_) => "InvalidProductConfig"@,
            Error::ObjectMissingMetadataForOwnerRef(_) => "ObjectMissingMetadataForOwnerRef"@,
            Error::BuildDiscoveryConfig(_) => "BuildDiscoveryConfig"@,
            Error::ApplyDiscoveryConfig(_) => "ApplyDiscoveryConfig"@,
            Error::ProductConfigTransform(_) => "ProductConfigTransform"@,
            Error::FailedToResolveConfig(_) => "FailedToResolveConfig"@,
            Error::VectorAggregatorConfigMapMissing => "VectorAggregatorConfigMapMissing"@,
            Error::InvalidLoggingConfig(_) => "InvalidLoggingConfig"@,
            Error::FailedToCreateClusterResources(_) => "FailedToCreateClusterResources"@,
            Error::DeleteOrphans(_) => "DeleteOrphans"@,
            Error::BuildRbacResources(_) => "BuildRbacResources"@,
            Error::GracefulShutdown => "GracefulShutdown"@,
            Error::SerializeUserInfoFetcherConfig(_) => "SerializeUserInfoFetcherConfig"@,
            Error::BuildLabel(_) => "BuildLabel"@,
            Error::ObjectMeta(_) => "ObjectMeta"@,
            Error::UserInfoFetcherKerberosVolume(_) => "UserInfoFetcherKerberosVolume"@,
            Error::UserInfoFetcherKerberosVolumeMount(_) => "UserInfoFetcherKerberosVolumeMount"@,
            Error::UserInfoFetcherTlsVolumeAndMounts(_) => "UserInfoFetcherTlsVolumeAndMounts"@,
            Error::ConfigureLogging(_) => "ConfigureLogging"@,
            Error::AddVolume(_) => "AddVolume"@,
            Error::AddVolumeMount(_) => "AddVolumeMount"@,
        }
    }

    /// The category under which the error is reported.
    pub fn category(&self) -> (category: &'static str)
        ensures
            category@ == self.spec_category(),
    {
        match self {
            Error::InvalidOpaCluster(_) => "InvalidOpaCluster",
            Error::NoName => "NoName",
            Error::InternalOperatorFailure(_) => "InternalOperatorFailure",
            Error::RoleServiceNameNotFound => "RoleServiceNameNotFound",
            Error::ApplyRoleService(_) => "ApplyRoleService",
            Error::ApplyRoleGroupService(_) => "ApplyRoleGroupService",
            Error::ApplyRoleGroupMetricsService(_) => "ApplyRoleGroupMetricsService",
            Error::BuildRoleGroupConfig(_) => "BuildRoleGroupConfig",
            Error::ApplyRoleGroupConfig(_) => "ApplyRoleGroupConfig",
            Error::ApplyRoleGroupDaemonSet(_) => "ApplyRoleGroupDaemonSet",
            Error::ApplyPatchRoleGroupDaemonSet(_) => "ApplyPatchRoleGroupDaemonSet",
            Error::ApplyServiceAccount(_) => "ApplyServiceAccount",
            Error::ApplyRoleBinding(_) => "ApplyRoleBinding",
            Error::ApplyStatus(_) => "ApplyStatus",
            Error::InvalidProductConfig(_) => "InvalidProductConfig",
            Error::ObjectMissingMetadataForOwnerRef(_) => "ObjectMissingMetadataForOwnerRef",
            Error::BuildDiscoveryConfig(_) => "BuildDiscoveryConfig",
            Error::ApplyDiscoveryConfig(_) => "ApplyDiscoveryConfig",
            Error::ProductConfigTransform(_) => "ProductConfigTransform",
            Error::FailedToResolveConfig(_) => "FailedToResolveConfig",
            Error::VectorAggregatorConfigMapMissing => "VectorAggregatorConfigMapMissing",
            Error::InvalidLoggingConfig(_) => "InvalidLoggingConfig",
            Error::FailedToCreateClusterResources(_) => "FailedToCreateClusterResources",
            Error::DeleteOrphans(_) => "DeleteOrphans",
            Error::BuildRbacResources(_) => "BuildRbacResources",
            Error::GracefulShutdown => "GracefulShutdown",
            Error::SerializeUserInfoFetcherConfig(_) => "SerializeUserInfoFetcherConfig",
            Error::BuildLabel(_) => "BuildLabel",
            Error::ObjectMeta(_) => "ObjectMeta",
            Error::UserInfoFetcherKerberosVolume(_) => "UserInfoFetcherKerberosVolume",
            Error::UserInfoFetcherKerberosVolumeMount(_) => "UserInfoFetcherKerberosVolumeMount",
            Error::UserInfoFetcherTlsVolumeAndMounts(_) => "UserInfoFetcherTlsVolumeAndMounts",
            Error::ConfigureLogging(_) => "ConfigureLogging",
            Error::AddVolume(_) => "AddVolume",
            Error::AddVolumeMount(_) => "AddVolumeMount",
        }
    }
}

/// The version of the resource that owner references name.
pub const API_VERSION: &'static str = "opa.stackable.tech/v1alpha1";

/// The name under which the controller reports events.
pub const OPA_FULL_CONTROLLER_NAME: &'static str = "opacluster.opa.stackable.tech";

/// The name of OPA's configuration file.
pub const CONFIG_FILE: &'static str = "config.json";

/// The port of the OPA API.
pub const APP_PORT: u16 = 8081;

/// The name of the port of the OPA API.
pub const APP_PORT_NAME: &'static str = "http";

/// The name of the port that metrics are served on.
pub const METRICS_PORT_NAME: &'static str = "metrics";

/// The port that the bundle-builder listens on.
pub const BUNDLE_BUILDER_PORT: i32 = 3030;

/// The name under which OPA knows the bundle-builder.
pub const OPA_STACKABLE_SERVICE_NAME: &'static str = "stackable";

/// The name of the volume with the configuration.
pub const CONFIG_VOLUME_NAME: &'static str = "config";

/// The name of the volume that logs are written to.
pub const LOG_VOLUME_NAME: &'static str = "log";

/// The name of the volume with the bundles.
pub const BUNDLES_VOLUME_NAME: &'static str = "bundles";

/// The directory that the bundles are mounted at.
pub const BUNDLES_DIR: &'static str = "/bundles";

/// The name of the volume with the credentials of the user-info-fetcher.
pub const USER_INFO_FETCHER_CREDENTIALS_VOLUME_NAME: &'static str = "credentials";

/// The name of the entry with the configuration of the user-info-fetcher.
pub const USER_INFO_FETCHER_FILE: &'static str = "user-info-fetcher.json";

/// The name of the entry with the configuration of the Vector agent.
pub const VECTOR_CONFIG_FILE: &'static str = "vector.yaml";

/// The recommended labels of an object.
pub fn build_recommended_labels<'a>(
    owner: &'a str,
    app_version: &'a str,
    role: &'a str,
    role_group: &'a str,
) -> (labels: ObjectLabels<'a>)
    ensures
        labels == (ObjectLabels {
            owner,
            app_name: APP_NAME,
            app_version,
            operator_name: OPERATOR_NAME,
            controller_name: OPA_CONTROLLER_NAME,
            role,
            role_group,
        }),
{
    ObjectLabels {
        owner,
        app_name: APP_NAME,
        app_version,
        operator_name: OPERATOR_NAME,
        controller_name: OPA_CONTROLLER_NAME,
        role,
        role_group,
    }
}

/// The recommended labels of an object of the cluster, as they are written to it.
pub open spec fn object_labels(
    owner: Seq<char>,
    app_version: Seq<char>,
    role: Seq<char>,
    role_group: Seq<char>,
) -> Map<Seq<char>, Seq<char>> {
    crate::labels::cluster_labels(
        APP_NAME@,
        owner,
        app_version,
        crate::labels::managed_by(OPERATOR_NAME@, OPA_CONTROLLER_NAME@),
    ).insert(crate::labels::APP_COMPONENT_LABEL@, role).insert(
        crate::labels::APP_ROLE_GROUP_LABEL@,
        role_group,
    )
}

/// The name of the cluster, where it is known.
pub open spec fn owner_name(meta: ObjectMetaView) -> Seq<char> {
    match meta.name {
        Some(name) => name,
        None => Seq::empty(),
    }
}

/// The name of the cluster, or nothing where it is not known.
pub fn name_of(meta: &ObjectMeta) -> (name: String)
    ensures
        name@ == owner_name(meta.deep_view()),
{
    match &meta.name {
        Some(name) => name.clone(),
        None => {
            let name = String::new();
            assert(name@ =~= Seq::<char>::empty());
            name
        },
    }
}

/// What the platform says of the labels of an object, which it checks before they are written.
pub struct LabelChecks {
    /// Of the recommended labels.
    pub recommended: Checked<()>,
    /// Of the labels by which Pods are selected.
    pub selector: Checked<()>,
}

/// The contents of [`LabelChecks`].
#[verifier::ext_equal]
pub struct LabelChecksView {
    pub recommended: CheckedView<()>,
    pub selector: CheckedView<()>,
}

impl DeepView for LabelChecks {
    type V = LabelChecksView;

    open spec fn deep_view(&self) -> LabelChecksView {
        LabelChecksView {
            recommended: self.recommended.deep_view(),
            selector: self.selector.deep_view(),
        }
    }
}

/// The labels of a selector, where the platform accepts them.
pub open spec fn checked_selector(
    labels: Map<Seq<char>, Seq<char>>,
    check: CheckedView<()>,
) -> Result<Map<Seq<char>, Seq<char>>, ErrorView> {
    match check {
        CheckedView::Valid(_) => Ok(labels),
        CheckedView::Invalid(reason) => Err(ErrorView::BuildLabel(reason)),
    }
}

fn check_selector(labels: StringMap, check: &Checked<()>) -> (result: Result<StringMap, Error>)
    ensures
        match checked_selector(labels@, check.deep_view()) {
            Ok(expected) => result matches Ok(selector) && selector@ == expected,
            Err(expected) => result matches Err(error) && error.deep_view() == expected,
        },
{
    match check {
        Checked::Valid(_) => Ok(labels),
        Checked::Invalid(reason) => Err(Error::BuildLabel(reason.clone())),
    }
}

/// The metadata of an object of a role group. The cluster has to be able to own the object, and the
/// platform has to accept the recommended labels.
pub open spec fn object_meta_view(
    name: Seq<char>,
    opa: OpaClusterView,
    image: ResolvedProductImageView,
    role: Seq<char>,
    role_group: Seq<char>,
    recommended: CheckedView<()>,
) -> Result<ObjectMetaView, ErrorView> {
    match owned_meta(
        name,
        opa.metadata,
        API_VERSION@,
        object_labels(
            owner_name(opa.metadata),
            image.app_version_label_value,
            role,
            role_group,
        ),
    ) {
        Ok(meta) => match recommended {
            CheckedView::Valid(_) => Ok(meta),
            CheckedView::Invalid(reason) => Err(ErrorView::ObjectMeta(reason)),
        },
        Err(field) => Err(ErrorView::ObjectMissingMetadataForOwnerRef(field)),
    }
}

fn object_meta(
    name: &str,
    opa: &OpaCluster,
    image: &ResolvedProductImage,
    role: &str,
    role_group: &str,
    recommended: &Checked<()>,
) -> (result: Result<ObjectMeta, Error>)
    ensures
        match object_meta_view(
            name@,
            opa.deep_view(),
            image.deep_view(),
            role@,
            role_group@,
            recommended.deep_view(),
        ) {
            Ok(expected) => result matches Ok(meta) && meta.deep_view() == expected,
            Err(expected) => result matches Err(error) && error.deep_view() == expected,
        },
{
    let owner = name_of(&opa.metadata);
    let labels = build_recommended_labels(
        owner.as_str(),
        image.app_version_label_value.as_str(),
        role,
        role_group,
    ).to_labels();
    match owned_object_meta(name, &opa.metadata, API_VERSION, labels) {
        Ok(meta) => match recommended {
            Checked::Valid(_) => Ok(meta),
            Checked::Invalid(reason) => Err(Error::ObjectMeta(reason.clone())),
        },
        Err(field) => Err(Error::ObjectMissingMetadataForOwnerRef(field)),
    }
}

/// The port of the OPA API, as a Service offers it.
pub open spec fn data_ports() -> Seq<ServicePortView> {
    seq![
        ServicePortView {
            name: Some(APP_PORT_NAME@),
            port: APP_PORT as i32,
            protocol: Some("TCP"@),
        },
    ]
}

/// The port that metrics are served on, which is that of the OPA API, as a Service offers it.
pub open spec fn metrics_port() -> ServicePortView {
    ServicePortView { name: Some(METRICS_PORT_NAME@), port: APP_PORT as i32, protocol: Some("TCP"@) }
}

fn data_service_ports() -> (ports: Vec<ServicePort>)
    ensures
        ports.deep_view() == data_ports(),
{
    one_item(
        ServicePort {
            name: Some(APP_PORT_NAME.to_owned()),
            port: APP_PORT as i32,
            protocol: Some("TCP".to_owned()),
        },
    )
}

fn metrics_service_port() -> (port: ServicePort)
    ensures
        port.deep_view() == metrics_port(),
{
    ServicePort {
        name: Some(METRICS_PORT_NAME.to_owned()),
        port: APP_PORT as i32,
        protocol: Some("TCP".to_owned()),
    }
}

/// The Service that load-balances over the whole role.
pub open spec fn server_role_service(
    opa: OpaClusterView,
    image: ResolvedProductImageView,
    labels: LabelChecksView,
) -> Result<ServiceView, ErrorView> {
    match opa.metadata.name {
        None => Err(ErrorView::RoleServiceNameNotFound),
        Some(name) => match (
            object_meta_view(
                name,
                opa,
                image,
                OpaRole::Server.spec_name(),
                "global"@,
                labels.recommended,
            ),
            checked_selector(
                role_selector_labels(APP_NAME@, name, OpaRole::Server.spec_name()),
                labels.selector,
            ),
        ) {
            (Err(error), _) => Err(error),
            (_, Err(error)) => Err(error),
            (Ok(metadata), Ok(selector)) => Ok(
                ServiceView {
                    metadata,
                    spec: Some(
                        ServiceSpecView {
                            type_: Some(
                                opa.spec.cluster_config.listener_class.spec_k8s_service_type(),
                            ),
                            cluster_ip: None,
                            ports: Some(data_ports()),
                            selector: Some(selector),
                            internal_traffic_policy: Some("Local"@),
                            publish_not_ready_addresses: None,
                        },
                    ),
                },
            ),
        },
    }
}

/// The server-role Service is the primary endpoint that should be used by clients that do not
/// perform internal load balancing, including targets outside of the cluster.
///
/// `labels` is what the platform says of the labels of the Service and of its selector.
pub fn build_server_role_service(
    opa: &OpaCluster,
    image: &ResolvedProductImage,
    labels: &LabelChecks,
) -> (result: Result<Service, Error>)
    ensures
        match server_role_service(opa.deep_view(), image.deep_view(), labels.deep_view()) {
            Ok(expected) => result matches Ok(service) && service.deep_view() == expected,
            Err(expected) => result matches Err(error) && error.deep_view() == expected,
        },
{
    let role_name = OpaRole::Server.name();
    let role_svc_name = match opa.server_role_service_name() {
        Some(name) => name,
        None => return Err(Error::RoleServiceNameNotFound),
    };
    let metadata = match object_meta(
        role_svc_name.as_str(),
        opa,
        image,
        role_name.as_str(),
        "global",
        &labels.recommended,
    ) {
        Ok(metadata) => metadata,
        Err(error) => return Err(error),
    };
    let selector = match check_selector(
        role_selector(APP_NAME, role_svc_name.as_str(), role_name.as_str()),
        &labels.selector,
    ) {
        Ok(selector) => selector,
        Err(error) => return Err(error),
    };
    Ok(
        Service {
            metadata,
            spec: Some(
                ServiceSpec {
                    type_: Some(opa.spec.cluster_config.listener_class.k8s_service_type()),
                    cluster_ip: None,
                    ports: Some(data_service_ports()),
                    selector: Some(selector),
                    internal_traffic_policy: Some("Local".to_owned()),
                    publish_not_ready_addresses: None,
                },
            ),
        },
    )
}

/// The labels that select all Pods of a role group.
pub open spec fn group_selector(
    opa: OpaClusterView,
    rolegroup: RoleGroupRefView,
) -> Map<Seq<char>, Seq<char>> {
    role_group_selector_labels(
        APP_NAME@,
        owner_name(opa.metadata),
        rolegroup.role,
        rolegroup.role_group,
    )
}

fn build_group_selector(opa: &OpaCluster, rolegroup: &RoleGroupRef) -> (labels: StringMap)
    ensures
        labels@ == group_selector(opa.deep_view(), rolegroup.deep_view()),
{
    role_group_selector(
        APP_NAME,
        name_of(&opa.metadata).as_str(),
        rolegroup.role.as_str(),
        rolegroup.role_group.as_str(),
    )
}

/// The headless Service that gives direct access to the instances of a role group.
pub open spec fn rolegroup_headless_service(
    opa: OpaClusterView,
    image: ResolvedProductImageView,
    rolegroup: RoleGroupRefView,
    labels: LabelChecksView,
) -> Result<ServiceView, ErrorView> {
    match (
        object_meta_view(
            headless_service_name(rolegroup.cluster, rolegroup.role, rolegroup.role_group),
            opa,
            image,
            rolegroup.role,
            rolegroup.role_group,
            labels.recommended,
        ),
        checked_selector(group_selector(opa, rolegroup), labels.selector),
    ) {
        (Err(error), _) => Err(error),
        (_, Err(error)) => Err(error),
        (Ok(metadata), Ok(selector)) => Ok(
            ServiceView {
                metadata,
                spec: Some(
                    ServiceSpecView {
                        type_: Some("ClusterIP"@),
                        cluster_ip: Some("None"@),
                        ports: Some(data_ports()),
                        selector: Some(selector),
                        internal_traffic_policy: None,
                        publish_not_ready_addresses: Some(true),
                    },
                ),
            },
        ),
    }
}

/// Builds the headless Service of a role group.
///
/// This is mostly useful for internal communication between peers, or for clients that perform
/// client-side load balancing.
pub fn build_rolegroup_headless_service(
    opa: &OpaCluster,
    image: &ResolvedProductImage,
    rolegroup: &RoleGroupRef,
    labels: &LabelChecks,
) -> (result: Result<Service, Error>)
    ensures
        match rolegroup_headless_service(
            opa.deep_view(),
            image.deep_view(),
            rolegroup.deep_view(),
            labels.deep_view(),
        ) {
            Ok(expected) => result matches Ok(service) && service.deep_view() == expected,
            Err(expected) => result matches Err(error) && error.deep_view() == expected,
        },
{
    let metadata = match object_meta(
        rolegroup.rolegroup_headless_service_name().as_str(),
        opa,
        image,
        rolegroup.role.as_str(),
        rolegroup.role_group.as_str(),
        &labels.recommended,
    ) {
        Ok(metadata) => metadata,
        Err(error) => return Err(error),
    };
    let selector = match check_selector(build_group_selector(opa, rolegroup), &labels.selector) {
        Ok(selector) => selector,
        Err(error) => return Err(error),
    };
    Ok(
        Service {
            metadata,
            spec: Some(
                ServiceSpec {
                    type_: Some("ClusterIP".to_owned()),
                    cluster_ip: Some("None".to_owned()),
                    ports: Some(data_service_ports()),
                    selector: Some(selector),
                    internal_traffic_policy: None,
                    publish_not_ready_addresses: Some(true),
                },
            ),
        },
    )
}

/// Metadata with a further label.
pub open spec fn with_label(
    meta: ObjectMetaView,
    key: Seq<char>,
    value: Seq<char>,
) -> ObjectMetaView {
    ObjectMetaView {
        labels: match meta.labels {
            Some(labels) => Some(labels.insert(key, value)),
            None => Some(Map::empty().insert(key, value)),
        },
        ..meta
    }
}

fn add_label(meta: ObjectMeta, key: &str, value: &str) -> (result: ObjectMeta)
    ensures
        result.deep_view() == with_label(meta.deep_view(), key@, value@),
{
    let mut labels = match &meta.labels {
        Some(labels) => labels.duplicate(),
        None => StringMap::new(),
    };
    put(&mut labels, key, value);
    ObjectMeta {
        name: meta.name,
        namespace: meta.namespace,
        uid: meta.uid,
        resource_version: meta.resource_version,
        labels: Some(labels),
        annotations: meta.annotations,
        owner_references: meta.owner_references,
    }
}

/// The Service of a role group that exposes metrics and is labelled to be scraped.
pub open spec fn rolegroup_metrics_service(
    opa: OpaClusterView,
    image: ResolvedProductImageView,
    rolegroup: RoleGroupRefView,
    labels: LabelChecksView,
) -> Result<ServiceView, ErrorView> {
    match (
        object_meta_view(
            metrics_service_name(rolegroup.cluster, rolegroup.role, rolegroup.role_group),
            opa,
            image,
            rolegroup.role,
            rolegroup.role_group,
            labels.recommended,
        ),
        checked_selector(group_selector(opa, rolegroup), labels.selector),
    ) {
        (Err(error), _) => Err(error),
        (_, Err(error)) => Err(error),
        (Ok(metadata), Ok(selector)) => Ok(
            ServiceView {
                metadata: with_label(metadata, "prometheus.io/scrape"@, "true"@),
                spec: Some(
                    ServiceSpecView {
                        type_: Some("ClusterIP"@),
                        cluster_ip: Some("None"@),
                        ports: Some(seq![metrics_port()]),
                        selector: Some(selector),
                        internal_traffic_policy: None,
                        publish_not_ready_addresses: None,
                    },
                ),
            },
        ),
    }
}

/// Builds the metrics Service of a role group.
pub fn build_rolegroup_metrics_service(
    opa: &OpaCluster,
    image: &ResolvedProductImage,
    rolegroup: &RoleGroupRef,
    labels: &LabelChecks,
) -> (result: Result<Service, Error>)
    ensures
        match rolegroup_metrics_service(
            opa.deep_view(),
            image.deep_view(),
            rolegroup.deep_view(),
            labels.deep_view(),
        ) {
            Ok(expected) => result matches Ok(service) && service.deep_view() == expected,
            Err(expected) => result matches Err(error) && error.deep_view() == expected,
        },
{
    let metadata = match object_meta(
        rolegroup.rolegroup_metrics_service_name().as_str(),
        opa,
        image,
        rolegroup.role.as_str(),
        rolegroup.role_group.as_str(),
        &labels.recommended,
    ) {
        Ok(metadata) => metadata,
        Err(error) => return Err(error),
    };
    let selector = match check_selector(build_group_selector(opa, rolegroup), &labels.selector) {
        Ok(selector) => selector,
        Err(error) => return Err(error),
    };
    Ok(
        Service {
            metadata: add_label(metadata, "prometheus.io/scrape", "true"),
            spec: Some(
                ServiceSpec {
                    type_: Some("ClusterIP".to_owned()),
                    cluster_ip: Some("None".to_owned()),
                    ports: Some(one_item(metrics_service_port())),
                    selector: Some(selector),
                    internal_traffic_policy: None,
                    publish_not_ready_addresses: None,
                },
            ),
        },
    )
}

/// The entries of a role group's ConfigMap.
///
/// `user_info_fetcher_file` is the rendered configuration of the user-info-fetcher, which is needed
/// only where one is configured, `vector_config` that of the Vector agent, which is needed only
/// where the agent is enabled.
pub open spec fn config_map_data(
    opa: OpaClusterView,
    logging: LoggingView,
    config_file: Seq<char>,
    user_info_fetcher_file: Result<Seq<char>, Seq<char>>,
    vector_config: Seq<char>,
) -> Result<Map<Seq<char>, Seq<char>>, ErrorView> {
    let data = Map::empty().insert(CONFIG_FILE@, config_file);
    match opa.spec.cluster_config.user_info {
        None => Ok(with_vector_config(data, logging, vector_config)),
        Some(_) => match user_info_fetcher_file {
            Err(error) => Err(ErrorView::SerializeUserInfoFetcherConfig(error)),
            Ok(file) => Ok(
                with_vector_config(
                    data.insert(USER_INFO_FETCHER_FILE@, file),
                    logging,
                    vector_config,
                ),
            ),
        },
    }
}

/// The entries with the configuration of the Vector agent, where it is enabled.
pub open spec fn with_vector_config(
    data: Map<Seq<char>, Seq<char>>,
    logging: LoggingView,
    vector_config: Seq<char>,
) -> Map<Seq<char>, Seq<char>> {
    if logging.enable_vector_agent {
        data.insert(VECTOR_CONFIG_FILE@, vector_config)
    } else {
        data
    }
}

/// Extends the entries of a role group's ConfigMap with the configuration of the Vector agent,
/// where it is enabled.
pub fn extend_role_group_config_map(logging: &Logging, vector_config: &str, data: &mut StringMap)
    ensures
        final(data)@ == with_vector_config(old(data)@, logging.deep_view(), vector_config@),
{
    if logging.enable_vector_agent {
        put(data, VECTOR_CONFIG_FILE, vector_config);
    }
}

/// The deep view of a borrowed result of rendering a file.
pub open spec fn rendered(file: Result<&str, &str>) -> Result<Seq<char>, Seq<char>> {
    match file {
        Ok(file) => Ok(file@),
        Err(error) => Err(error@),
    }
}

/// The ConfigMap of a role group.
pub open spec fn rolegroup_config_map(
    opa: OpaClusterView,
    image: ResolvedProductImageView,
    rolegroup: RoleGroupRefView,
    logging: LoggingView,
    config_file: Seq<char>,
    user_info_fetcher_file: Result<Seq<char>, Seq<char>>,
    vector_config: Seq<char>,
    recommended: CheckedView<()>,
) -> Result<ConfigMapView, ErrorView> {
    match object_meta_view(
        role_group_name(rolegroup.cluster, rolegroup.role, rolegroup.role_group),
        opa,
        image,
        rolegroup.role,
        rolegroup.role_group,
        recommended,
    ) {
        Err(error) => Err(error),
        Ok(metadata) => match config_map_data(
            opa,
            logging,
            config_file,
            user_info_fetcher_file,
            vector_config,
        ) {
            Err(error) => Err(error),
            Ok(data) => Ok(ConfigMapView { metadata, data: Some(data) }),
        },
    }
}

/// Builds the ConfigMap that configures a role group as the administrator asked for.
///
/// `recommended` is what the platform says of the labels of the ConfigMap.
pub fn build_server_rolegroup_config_map(
    opa: &OpaCluster,
    image: &ResolvedProductImage,
    rolegroup: &RoleGroupRef,
    merged_config: &OpaConfig,
    config_file: &str,
    user_info_fetcher_file: Result<&str, &str>,
    vector_config: &str,
    recommended: &Checked<()>,
) -> (result: Result<ConfigMap, Error>)
    ensures
        match rolegroup_config_map(
            opa.deep_view(),
            image.deep_view(),
            rolegroup.deep_view(),
            merged_config.deep_view().logging,
            config_file@,
            rendered(user_info_fetcher_file),
            vector_config@,
            recommended.deep_view(),
        ) {
            Ok(expected) => result matches Ok(config_map) && config_map.deep_view() == expected,
            Err(expected) => result matches Err(error) && error.deep_view() == expected,
        },
{
    let metadata = match object_meta(
        rolegroup.object_name().as_str(),
        opa,
        image,
        rolegroup.role.as_str(),
        rolegroup.role_group.as_str(),
        recommended,
    ) {
        Ok(metadata) => metadata,
        Err(error) => return Err(error),
    };
    let mut data = StringMap::new();
    put(&mut data, CONFIG_FILE, config_file);
    if opa.spec.cluster_config.user_info.is_some() {
        match user_info_fetcher_file {
            Ok(file) => put(&mut data, USER_INFO_FETCHER_FILE, file),
            Err(error) => return Err(Error::SerializeUserInfoFetcherConfig(error.to_owned())),
        }
    }
    extend_role_group_config_map(&merged_config.logging, vector_config, &mut data);
    Ok(ConfigMap { metadata, data: Some(data) })
}

/// What the platform supplies for the Pods of a role group.
pub struct PlatformParts {
    /// Shell code for the containers.
    pub snippets: ShellSnippets,
    /// The log levels as OPA spells them.
    pub opa_level_names: LevelNames,
    /// Shell code that captures the output of the `prepare` container.
    pub capture_prepare_output: String,
    /// The size limit of the log volume.
    pub log_volume_size_limit: String,
    /// The container of the Vector agent. Needed only where the agent is enabled.
    pub vector_container: Result<Container, String>,
    /// What the backend of the user-info-fetcher asks for. Needed only where it has TLS settings.
    pub user_info_volumes: Result<AddedVolumes, String>,
}

/// The contents of [`PlatformParts`].
pub struct PlatformPartsView {
    pub snippets: ShellSnippetsView,
    pub opa_level_names: LevelNamesView,
    pub capture_prepare_output: Seq<char>,
    pub log_volume_size_limit: Seq<char>,
    pub vector_container: Result<ContainerView, Seq<char>>,
    pub user_info_volumes: Result<AddedVolumesView, Seq<char>>,
}

impl DeepView for PlatformParts {
    type V = PlatformPartsView;

    open spec fn deep_view(&self) -> PlatformPartsView {
        PlatformPartsView {
            snippets: self.snippets.deep_view(),
            opa_level_names: self.opa_level_names.deep_view(),
            capture_prepare_output: self.capture_prepare_output@,
            log_volume_size_limit: self.log_volume_size_limit@,
            vector_container: match self.vector_container {
                Ok(container) => Ok(container.deep_view()),
                Err(error) => Err(error@),
            },
            user_info_volumes: match self.user_info_volumes {
                Ok(volumes) => Ok(volumes.deep_view()),
                Err(error) => Err(error@),
            },
        }
    }
}

/// The script of the `prepare` container.
pub open spec fn prepare_script(config: OpaConfigView, platform: PlatformPartsView) -> Seq<char> {
    joined(
        prepare_commands(
            match container_log(config.logging, crd::Container::Prepare) {
                Some(_) => Some(platform.capture_prepare_output),
                None => None,
            },
        ),
        " && "@,
    )
}

/// Builds the commands of the `prepare` container.
pub fn build_prepare_start_command(merged_config: &OpaConfig, capture_prepare_output: &str) -> (commands:
    Vec<String>)
    ensures
        commands.deep_view() == prepare_commands(
            match container_log(merged_config.deep_view().logging, crd::Container::Prepare) {
                Some(_) => Some(capture_prepare_output@),
                None => None,
            },
        ),
{
    match merged_config.logging.automatic(crd::Container::Prepare) {
        Some(_) => render_prepare_commands(Some(capture_prepare_output)),
        None => render_prepare_commands(None),
    }
}

/// The container that creates the directories that the other containers use.
pub open spec fn prepare_container(
    image: ResolvedProductImageView,
    config: OpaConfigView,
    platform: PlatformPartsView,
) -> ContainerView {
    ContainerView {
        name: crd::Container::Prepare.spec_name(),
        image: Some(image.image),
        image_pull_policy: Some(image.image_pull_policy),
        command: bash_entrypoint(),
        args: seq![prepare_script(config, platform)],
        env: Seq::empty(),
        ports: Seq::empty(),
        volume_mounts: seq![
            mount_view(BUNDLES_VOLUME_NAME@, BUNDLES_DIR@),
            mount_view(LOG_VOLUME_NAME@, STACKABLE_LOG_DIR@),
        ],
        resources: Some(requirements(config.resources)),
        readiness_probe: None,
        liveness_probe: None,
    }
}

fn two_mounts(first: VolumeMount, second: VolumeMount) -> (mounts: Vec<VolumeMount>)
    ensures
        mounts.deep_view() == seq![first.deep_view(), second.deep_view()],
{
    let mut mounts: Vec<VolumeMount> = no_items();
    push_item(&mut mounts, first);
    push_item(&mut mounts, second);
    assert(mounts.deep_view() =~= seq![first.deep_view(), second.deep_view()]);
    mounts
}

fn build_prepare_container(
    image: &ResolvedProductImage,
    config: &OpaConfig,
    platform: &PlatformParts,
) -> (container: Container)
    ensures
        container.deep_view() == prepare_container(
            image.deep_view(),
            config.deep_view(),
            platform.deep_view(),
        ),
{
    Container {
        name: crd::Container::Prepare.name(),
        image: Some(image.image.clone()),
        image_pull_policy: Some(image.image_pull_policy.clone()),
        command: bash_entrypoint_command(),
        args: one_item(
            join(
                &build_prepare_start_command(config, platform.capture_prepare_output.as_str()),
                " && ",
            ),
        ),
        env: no_items(),
        ports: no_items(),
        volume_mounts: two_mounts(
            mount(BUNDLES_VOLUME_NAME, BUNDLES_DIR),
            mount(LOG_VOLUME_NAME, STACKABLE_LOG_DIR),
        ),
        resources: Some(config.resources.to_requirements()),
        readiness_probe: None,
        liveness_probe: None,
    }
}

/// The level of a sidecar container.
pub open spec fn sidecar_container_level(
    config: OpaConfigView,
    sidecar: crd::Container,
) -> BundleBuilderLogLevel {
    sidecar_log_level(container_log(config.logging, sidecar))
}

/// Determines the level of a sidecar container.
pub fn sidecar_container_log_level(merged_config: &OpaConfig, sidecar: crd::Container) -> (level:
    BundleBuilderLogLevel)
    ensures
        level == sidecar_container_level(merged_config.deep_view(), sidecar),
{
    level_for_sidecar(merged_config.logging.automatic(sidecar))
}

/// Builds the script of the bundle-builder container.
pub fn build_bundle_builder_start_command(
    merged_config: &OpaConfig,
    container_name: &str,
    trap_functions: &str,
) -> (script: String)
    ensures
        script@ == bundle_builder_script(
            trap_functions@,
            container_log(merged_config.deep_view().logging, crd::Container::BundleBuilder),
            container_name@,
        ),
{
    render_bundle_builder_script(
        trap_functions,
        merged_config.logging.automatic(crd::Container::BundleBuilder),
        container_name,
    )
}

/// The container that builds the bundles that OPA loads.
pub open spec fn bundle_builder_container(
    image: ResolvedProductImageView,
    config: OpaConfigView,
    bundle_builder_image: Seq<char>,
    cluster_domain: Seq<char>,
    platform: PlatformPartsView,
) -> ContainerView {
    let name = crd::Container::BundleBuilder.spec_name();
    ContainerView {
        name,
        image: Some(bundle_builder_image),
        image_pull_policy: Some(image.image_pull_policy),
        command: bash_entrypoint(),
        args: seq![
            bundle_builder_script(
                platform.snippets.trap_functions,
                container_log(config.logging, crd::Container::BundleBuilder),
                name,
            ),
        ],
        env: seq![field_env("WATCH_NAMESPACE"@, "metadata.namespace"@)] + rust_cli_env(
            cluster_domain,
            sidecar_container_level(config, crd::Container::BundleBuilder),
            name,
        ),
        ports: Seq::empty(),
        volume_mounts: seq![
            mount_view(BUNDLES_VOLUME_NAME@, BUNDLES_DIR@),
            mount_view(LOG_VOLUME_NAME@, STACKABLE_LOG_DIR@),
        ],
        resources: Some(sidecar_resources()),
        readiness_probe: Some(
            readiness_probe_view(
                Some("/status"@),
                IntOrStringView::Int(BUNDLE_BUILDER_PORT),
                None,
            ),
        ),
        liveness_probe: Some(
            liveness_probe_view(Some("/status"@), IntOrStringView::Int(BUNDLE_BUILDER_PORT), None),
        ),
    }
}

fn build_bundle_builder_container(
    image: &ResolvedProductImage,
    config: &OpaConfig,
    bundle_builder_image: &str,
    cluster_domain: &str,
    platform: &PlatformParts,
) -> (container: Container)
    ensures
        container.deep_view() == bundle_builder_container(
            image.deep_view(),
            config.deep_view(),
            bundle_builder_image@,
            cluster_domain@,
            platform.deep_view(),
        ),
{
    let name = crd::Container::BundleBuilder.name();
    let mut env = one_item(env_var_from_field("WATCH_NAMESPACE", "metadata.namespace"));
    add_stackable_rust_cli_env_vars(
        &mut env,
        cluster_domain,
        sidecar_container_log_level(config, crd::Container::BundleBuilder),
        name.as_str(),
    );
    Container {
        image: Some(bundle_builder_image.to_owned()),
        image_pull_policy: Some(image.image_pull_policy.clone()),
        command: bash_entrypoint_command(),
        args: one_item(
            build_bundle_builder_start_command(
                config,
                name.as_str(),
                platform.snippets.trap_functions.as_str(),
            ),
        ),
        env,
        ports: no_items(),
        volume_mounts: two_mounts(
            mount(BUNDLES_VOLUME_NAME, BUNDLES_DIR),
            mount(LOG_VOLUME_NAME, STACKABLE_LOG_DIR),
        ),
        resources: Some(sidecar_resource_requirements()),
        readiness_probe: Some(
            http_readiness_probe(
                Some("/status".to_owned()),
                IntOrString::Int(BUNDLE_BUILDER_PORT),
                None,
            ),
        ),
        liveness_probe: Some(
            http_liveness_probe(
                Some("/status".to_owned()),
                IntOrString::Int(BUNDLE_BUILDER_PORT),
                None,
            ),
        ),
        name,
    }
}

/// The script of the OPA container.
pub open spec fn opa_start_script(
    config: OpaConfigView,
    container_name: Seq<char>,
    snippets: ShellSnippetsView,
    level_names: LevelNamesView,
) -> Seq<char> {
    server_script(
        snippets,
        APP_PORT as nat,
        CONFIG_FILE@,
        spelled(level_names, opa_level(container_log(config.logging, crd::Container::Opa))),
        opa_shutdown_grace_period(config.graceful_shutdown_timeout) as nat,
        Seq::empty(),
        log_levels(container_log(config.logging, crd::Container::Opa)),
        container_name,
    )
}

/// Builds the script of the OPA container.
pub fn build_opa_start_command(
    merged_config: &OpaConfig,
    container_name: &str,
    snippets: &ShellSnippets,
    level_names: &LevelNames,
) -> (script: String)
    ensures
        script@ == opa_start_script(
            merged_config.deep_view(),
            container_name@,
            snippets.deep_view(),
            level_names.deep_view(),
        ),
{
    proof {
        reveal_strlit("");
        assert(""@ =~= Seq::<char>::empty());
    }
    render_opa_script(
        snippets,
        &OpaServer {
            port: APP_PORT,
            config_file: CONFIG_FILE,
            log_level: level_names.spelling(
                opa_log_level(merged_config.logging.automatic(crd::Container::Opa)),
            ),
            shutdown_grace_period: shutdown_grace_period(merged_config.graceful_shutdown_timeout),
            further_arguments: "",
            levels: opa_log_levels(merged_config.logging.automatic(crd::Container::Opa)),
            container_name,
        },
    )
}

/// The container that runs OPA.
pub open spec fn opa_container(
    image: ResolvedProductImageView,
    config: OpaConfigView,
    server_env: Map<Seq<char>, Seq<char>>,
    platform: PlatformPartsView,
) -> ContainerView {
    let name = crd::Container::Opa.spec_name();
    ContainerView {
        name,
        image: Some(image.image),
        image_pull_policy: Some(image.image_pull_policy),
        command: bash_entrypoint(),
        args: seq![opa_start_script(config, name, platform.snippets, platform.opa_level_names)],
        env: configured_env(server_env).push(
            literal_env("CONTAINERDEBUG_LOG_DIRECTORY"@, log_directory("containerdebug"@)),
        ),
        ports: seq![
            ContainerPortView { name: Some(APP_PORT_NAME@), container_port: APP_PORT as i32 },
        ],
        volume_mounts: seq![
            mount_view(CONFIG_VOLUME_NAME@, CONFIG_DIR@),
            mount_view(LOG_VOLUME_NAME@, STACKABLE_LOG_DIR@),
        ],
        resources: Some(requirements(config.resources)),
        readiness_probe: Some(
            readiness_probe_view(None, IntOrStringView::Name(APP_PORT_NAME@), None),
        ),
        liveness_probe: Some(
            liveness_probe_view(None, IntOrStringView::Name(APP_PORT_NAME@), None),
        ),
    }
}

fn build_opa_container(
    image: &ResolvedProductImage,
    config: &OpaConfig,
    server_env: &StringMap,
    platform: &PlatformParts,
) -> (container: Container)
    ensures
        container.deep_view() == opa_container(
            image.deep_view(),
            config.deep_view(),
            server_env@,
            platform.deep_view(),
        ),
{
    let name = crd::Container::Opa.name();
    let mut env = configured_env_vars(server_env);
    push_item(
        &mut env,
        env_var("CONTAINERDEBUG_LOG_DIRECTORY", log_directory_of("containerdebug").as_str()),
    );
    Container {
        image: Some(image.image.clone()),
        image_pull_policy: Some(image.image_pull_policy.clone()),
        command: bash_entrypoint_command(),
        args: one_item(
            build_opa_start_command(
                config,
                name.as_str(),
                &platform.snippets,
                &platform.opa_level_names,
            ),
        ),
        env,
        ports: one_item(
            ContainerPort {
                name: Some(APP_PORT_NAME.to_owned()),
                container_port: APP_PORT as i32,
            },
        ),
        volume_mounts: two_mounts(
            mount(CONFIG_VOLUME_NAME, CONFIG_DIR),
            mount(LOG_VOLUME_NAME, STACKABLE_LOG_DIR),
        ),
        resources: Some(config.resources.to_requirements()),
        readiness_probe: Some(
            http_readiness_probe(None, IntOrString::Name(APP_PORT_NAME.to_owned()), None),
        ),
        liveness_probe: Some(
            http_liveness_probe(None, IntOrString::Name(APP_PORT_NAME.to_owned()), None),
        ),
        name,
    }
}

/// The user-info-fetcher container before its backend is looked at.
pub open spec fn user_info_fetcher_base(
    image: ResolvedProductImageView,
    config: OpaConfigView,
    user_info_fetcher_image: Seq<char>,
    cluster_domain: Seq<char>,
) -> ContainerView {
    let name = crd::Container::UserInfoFetcher.spec_name();
    ContainerView {
        name,
        image: Some(user_info_fetcher_image),
        image_pull_policy: Some(image.image_pull_policy),
        command: seq!["stackable-opa-user-info-fetcher"@],
        args: Seq::empty(),
        env: seq![
            literal_env("CONFIG"@, CONFIG_DIR@ + "/user-info-fetcher.json"@),
            literal_env("CREDENTIALS_DIR"@, CREDENTIALS_DIR@),
        ] + rust_cli_env(
            cluster_domain,
            sidecar_container_level(config, crd::Container::UserInfoFetcher),
            name,
        ),
        ports: Seq::empty(),
        volume_mounts: seq![mount_view(CONFIG_VOLUME_NAME@, CONFIG_DIR@)],
        resources: Some(sidecar_resources()),
        readiness_probe: None,
        liveness_probe: None,
    }
}

/// The environment of a Kerberos client: its configuration and keytab, and tickets in memory only.
pub open spec fn kerberos_env() -> Seq<EnvVarView> {
    seq![
        literal_env("KRB5_CONFIG"@, KERBEROS_DIR@ + "/krb5.conf"@),
        literal_env("KRB5_CLIENT_KTNAME"@, KERBEROS_DIR@ + "/keytab"@),
        literal_env("KRB5CCNAME"@, "MEMORY:"@),
    ]
}

/// The environment that a backend adds.
pub open spec fn backend_env(backend: BackendView) -> Seq<EnvVarView> {
    match backend {
        BackendView::ActiveDirectory(_) => kerberos_env(),
        _ => Seq::empty(),
    }
}

fn build_user_info_fetcher_env(
    config: &OpaConfig,
    cluster_domain: &str,
    backend: &Backend,
) -> (env: Vec<EnvVar>)
    ensures
        env.deep_view() == seq![
            literal_env("CONFIG"@, CONFIG_DIR@ + "/user-info-fetcher.json"@),
            literal_env("CREDENTIALS_DIR"@, CREDENTIALS_DIR@),
        ] + rust_cli_env(
            cluster_domain@,
            sidecar_container_level(config.deep_view(), crd::Container::UserInfoFetcher),
            crd::Container::UserInfoFetcher.spec_name(),
        ) + backend_env(backend.deep_view()),
{
    let mut config_path = CONFIG_DIR.to_owned();
    config_path.append("/user-info-fetcher.json");
    let mut env: Vec<EnvVar> = no_items();
    push_item(&mut env, env_var("CONFIG", config_path.as_str()));
    push_item(&mut env, env_var("CREDENTIALS_DIR", CREDENTIALS_DIR));
    assert(env.deep_view() =~= seq![
        literal_env("CONFIG"@, CONFIG_DIR@ + "/user-info-fetcher.json"@),
        literal_env("CREDENTIALS_DIR"@, CREDENTIALS_DIR@),
    ]);
    add_stackable_rust_cli_env_vars(
        &mut env,
        cluster_domain,
        sidecar_container_log_level(config, crd::Container::UserInfoFetcher),
        crd::Container::UserInfoFetcher.name().as_str(),
    );
    let ghost before = env.deep_view();
    match backend {
        Backend::ActiveDirectory(_) => {
            let mut krb5_config = KERBEROS_DIR.to_owned();
            krb5_config.append("/krb5.conf");
            push_item(&mut env, env_var("KRB5_CONFIG", krb5_config.as_str()));
            let mut keytab = KERBEROS_DIR.to_owned();
            keytab.append("/keytab");
            push_item(&mut env, env_var("KRB5_CLIENT_KTNAME", keytab.as_str()));
            push_item(&mut env, env_var("KRB5CCNAME", "MEMORY:"));
            assert(env.deep_view() =~= before + kerberos_env());
        },
        _ => {
            assert(env.deep_view() =~= before + Seq::<EnvVarView>::empty());
        },
    }
    env
}

/// How a failure to add the user-info-fetcher is reported.
pub open spec fn sidecar_error(error: info_fetcher_sidecar::ErrorView) -> ErrorView {
    match error {
        info_fetcher_sidecar::ErrorView::KerberosVolume(error) => {
            ErrorView::UserInfoFetcherKerberosVolume(error)
        },
        info_fetcher_sidecar::ErrorView::KerberosVolumeMount(error) => {
            ErrorView::UserInfoFetcherKerberosVolumeMount(error)
        },
        info_fetcher_sidecar::ErrorView::AddVolume(error) => ErrorView::AddVolume(error),
        info_fetcher_sidecar::ErrorView::AddVolumeMount(error) => ErrorView::AddVolumeMount(error),
        error => ErrorView::UserInfoFetcherTlsVolumeAndMounts(error),
    }
}

fn to_error(error: info_fetcher_sidecar::Error) -> (result: Error)
    ensures
        result.deep_view() == sidecar_error(error.deep_view()),
{
    match error {
        info_fetcher_sidecar::Error::KerberosVolume(error) => {
            Error::UserInfoFetcherKerberosVolume(error)
        },
        info_fetcher_sidecar::Error::KerberosVolumeMount(error) => {
            Error::UserInfoFetcherKerberosVolumeMount(error)
        },
        info_fetcher_sidecar::Error::AddVolume(error) => Error::AddVolume(error),
        info_fetcher_sidecar::Error::AddVolumeMount(error) => Error::AddVolumeMount(error),
        error => Error::UserInfoFetcherTlsVolumeAndMounts(error),
    }
}

/// The containers and volumes of a Pod.
#[verifier::ext_equal]
pub struct PodParts {
    pub containers: Seq<ContainerView>,
    pub volumes: Seq<VolumeView>,
}

/// The Pod with a user-info-fetcher, where one is configured.
pub open spec fn with_user_info_fetcher(
    before: PodParts,
    user_info: Option<ConfigView>,
    opa_name: Seq<char>,
    image: ResolvedProductImageView,
    config: OpaConfigView,
    user_info_fetcher_image: Seq<char>,
    cluster_domain: Seq<char>,
    platform: PlatformPartsView,
) -> Result<PodParts, ErrorView> {
    match user_info {
        None => Ok(before),
        Some(user_info) => {
            let base = user_info_fetcher_base(
                image,
                config,
                user_info_fetcher_image,
                cluster_domain,
            );
            match needs_added(
                backend_needs(user_info.backend),
                opa_name,
                mount_view(USER_INFO_FETCHER_CREDENTIALS_VOLUME_NAME@, CREDENTIALS_DIR@),
                platform.user_info_volumes,
                SidecarVolumes { volumes: before.volumes, mounts: base.volume_mounts },
            ) {
                Err(error) => Err(sidecar_error(error)),
                Ok(after) => Ok(
                    PodParts {
                        containers: before.containers.push(
                            ContainerView {
                                env: base.env + backend_env(user_info.backend),
                                volume_mounts: after.mounts,
                                ..base
                            },
                        ),
                        volumes: after.volumes,
                    },
                ),
            }
        },
    }
}

fn add_user_info_fetcher(
    opa: &OpaCluster,
    opa_name: &str,
    image: &ResolvedProductImage,
    config: &OpaConfig,
    user_info_fetcher_image: &str,
    cluster_domain: &str,
    platform: &PlatformParts,
    containers: &mut Vec<Container>,
    volumes: &mut Vec<Volume>,
) -> (result: Result<(), Error>)
    ensures
        match with_user_info_fetcher(
            PodParts {
                containers: old(containers).deep_view(),
                volumes: old(volumes).deep_view(),
            },
            opa.deep_view().spec.cluster_config.user_info,
            opa_name@,
            image.deep_view(),
            config.deep_view(),
            user_info_fetcher_image@,
            cluster_domain@,
            platform.deep_view(),
        ) {
            Ok(after) => result is Ok && final(containers).deep_view() == after.containers
                && final(volumes).deep_view() == after.volumes,
            Err(expected) => result matches Err(error) && error.deep_view() == expected,
        },
{
    let user_info = match &opa.spec.cluster_config.user_info {
        Some(user_info) => user_info,
        None => return Ok(()),
    };
    let mut mounts = one_item(mount(CONFIG_VOLUME_NAME, CONFIG_DIR));
    let provided = match &platform.user_info_volumes {
        Ok(volumes) => Ok(volumes),
        Err(error) => Err(error.as_str()),
    };
    if let Err(error) = add_needs(
        &user_info.backend.needs(),
        opa_name,
        mount(USER_INFO_FETCHER_CREDENTIALS_VOLUME_NAME, CREDENTIALS_DIR),
        provided,
        volumes,
        &mut mounts,
    ) {
        return Err(to_error(error));
    }
    push_item(
        containers,
        Container {
            name: crd::Container::UserInfoFetcher.name(),
            image: Some(user_info_fetcher_image.to_owned()),
            image_pull_policy: Some(image.image_pull_policy.clone()),
            command: one_item("stackable-opa-user-info-fetcher".to_owned()),
            args: no_items(),
            env: build_user_info_fetcher_env(config, cluster_domain, &user_info.backend),
            ports: no_items(),
            volume_mounts: mounts,
            resources: Some(sidecar_resource_requirements()),
            readiness_probe: None,
            liveness_probe: None,
        },
    );
    Ok(())
}

/// The containers with the Vector agent, where it is enabled.
pub open spec fn with_vector(
    containers: Seq<ContainerView>,
    opa: OpaClusterView,
    logging: LoggingView,
    platform: PlatformPartsView,
) -> Result<Seq<ContainerView>, ErrorView> {
    if !logging.enable_vector_agent {
        Ok(containers)
    } else if opa.spec.cluster_config.vector_aggregator_config_map_name is None {
        Err(ErrorView::VectorAggregatorConfigMapMissing)
    } else {
        match platform.vector_container {
            Ok(container) => Ok(containers.push(container)),
            Err(error) => Err(ErrorView::ConfigureLogging(error)),
        }
    }
}

fn add_vector(
    opa: &OpaCluster,
    logging: &Logging,
    platform: &PlatformParts,
    containers: &mut Vec<Container>,
) -> (result: Result<(), Error>)
    ensures
        match with_vector(
            old(containers).deep_view(),
            opa.deep_view(),
            logging.deep_view(),
            platform.deep_view(),
        ) {
            Ok(after) => result is Ok && final(containers).deep_view() == after,
            Err(expected) => result matches Err(error) && error.deep_view() == expected,
        },
{
    if !logging.enable_vector_agent {
        return Ok(());
    }
    if opa.spec.cluster_config.vector_aggregator_config_map_name.is_none() {
        return Err(Error::VectorAggregatorConfigMapMissing);
    }
    match &platform.vector_container {
        Ok(container) => {
            push_item(containers, container.duplicate());
            Ok(())
        },
        Err(error) => Err(Error::ConfigureLogging(error.clone())),
    }
}

/// The volumes that every OPA Pod has.
pub open spec fn base_volumes(config_map: Seq<char>, platform: PlatformPartsView) -> Seq<VolumeView> {
    seq![
        config_map_volume_view(CONFIG_VOLUME_NAME@, config_map),
        empty_volume_view(BUNDLES_VOLUME_NAME@, None),
        empty_volume_view(LOG_VOLUME_NAME@, Some(platform.log_volume_size_limit)),
    ]
}

fn build_base_volumes(config_map: &str, platform: &PlatformParts) -> (volumes: Vec<Volume>)
    ensures
        volumes.deep_view() == base_volumes(config_map@, platform.deep_view()),
{
    let mut volumes: Vec<Volume> = no_items();
    push_item(&mut volumes, config_map_volume(CONFIG_VOLUME_NAME, config_map));
    push_item(&mut volumes, empty_volume(BUNDLES_VOLUME_NAME, None));
    push_item(
        &mut volumes,
        empty_volume(LOG_VOLUME_NAME, Some(platform.log_volume_size_limit.clone())),
    );
    assert(volumes.deep_view() =~= base_volumes(config_map@, platform.deep_view()));
    volumes
}

/// What the Pods of a role group are built from.
pub struct PodInputs<'a> {
    pub image: &'a ResolvedProductImage,
    pub rolegroup_ref: &'a RoleGroupRef,
    /// The environment that the product configuration asks for.
    pub server_env: &'a StringMap,
    pub merged_config: &'a OpaConfig,
    pub opa_bundle_builder_image: &'a str,
    pub user_info_fetcher_image: &'a str,
    pub service_account_name: &'a str,
    pub cluster_domain: &'a str,
    pub platform: &'a PlatformParts,
    /// What the platform says of the labels of the role group's objects and of their selectors.
    pub labels: &'a LabelChecks,
}

/// The contents of [`PodInputs`].
pub struct PodInputsView {
    pub image: ResolvedProductImageView,
    pub rolegroup_ref: RoleGroupRefView,
    pub server_env: Map<Seq<char>, Seq<char>>,
    pub merged_config: OpaConfigView,
    pub opa_bundle_builder_image: Seq<char>,
    pub user_info_fetcher_image: Seq<char>,
    pub service_account_name: Seq<char>,
    pub cluster_domain: Seq<char>,
    pub platform: PlatformPartsView,
    pub labels: LabelChecksView,
}

impl<'a> DeepView for PodInputs<'a> {
    type V = PodInputsView;

    open spec fn deep_view(&self) -> PodInputsView {
        PodInputsView {
            image: self.image.deep_view(),
            rolegroup_ref: self.rolegroup_ref.deep_view(),
            server_env: self.server_env@,
            merged_config: self.merged_config.deep_view(),
            opa_bundle_builder_image: self.opa_bundle_builder_image@,
            user_info_fetcher_image: self.user_info_fetcher_image@,
            service_account_name: self.service_account_name@,
            cluster_domain: self.cluster_domain@,
            platform: self.platform.deep_view(),
            labels: self.labels.deep_view(),
        }
    }
}

/// The containers and volumes of a role group's Pods.
pub open spec fn pod_parts(opa: OpaClusterView, opa_name: Seq<char>, inputs: PodInputsView) -> Result<
    PodParts,
    ErrorView,
> {
    let rolegroup = inputs.rolegroup_ref;
    match with_user_info_fetcher(
        PodParts {
            containers: seq![
                opa_container(
                    inputs.image,
                    inputs.merged_config,
                    inputs.server_env,
                    inputs.platform,
                ),
                bundle_builder_container(
                    inputs.image,
                    inputs.merged_config,
                    inputs.opa_bundle_builder_image,
                    inputs.cluster_domain,
                    inputs.platform,
                ),
            ],
            volumes: base_volumes(
                role_group_name(rolegroup.cluster, rolegroup.role, rolegroup.role_group),
                inputs.platform,
            ),
        },
        opa.spec.cluster_config.user_info,
        opa_name,
        inputs.image,
        inputs.merged_config,
        inputs.user_info_fetcher_image,
        inputs.cluster_domain,
        inputs.platform,
    ) {
        Err(error) => Err(error),
        Ok(parts) => match with_vector(
            parts.containers,
            opa,
            inputs.merged_config.logging,
            inputs.platform,
        ) {
            Err(error) => Err(error),
            Ok(containers) => Ok(PodParts { containers, volumes: parts.volumes }),
        },
    }
}

/// The template of a role group's Pods. The platform has to accept the labels of the Pods.
pub open spec fn pod_template(
    opa: OpaClusterView,
    opa_name: Seq<char>,
    inputs: PodInputsView,
) -> Result<PodTemplateView, ErrorView> {
    let rolegroup = inputs.rolegroup_ref;
    match (inputs.labels.recommended, pod_parts(opa, opa_name, inputs)) {
        (CheckedView::Invalid(reason), _) => Err(ErrorView::ObjectMeta(reason)),
        (_, Err(error)) => Err(error),
        (_, Ok(parts)) => match grace_period(inputs.merged_config.graceful_shutdown_timeout) {
            Err(_) => Err(ErrorView::GracefulShutdown),
            Ok(termination_grace_period_seconds) => Ok(
                PodTemplateView {
                    metadata: ObjectMetaView {
                        labels: Some(
                            object_labels(
                                opa_name,
                                inputs.image.app_version_label_value,
                                rolegroup.role,
                                rolegroup.role_group,
                            ),
                        ),
                        ..empty_meta()
                    },
                    init_containers: seq![
                        prepare_container(inputs.image, inputs.merged_config, inputs.platform),
                    ],
                    containers: parts.containers,
                    volumes: parts.volumes,
                    affinity: inputs.merged_config.affinity,
                    image_pull_secrets: inputs.image.pull_secrets,
                    service_account_name: Some(inputs.service_account_name),
                    security_context: Some(
                        PodSecurityContextView { stackable_defaults: false, fs_group: Some(1000) },
                    ),
                    termination_grace_period_seconds,
                },
            ),
        },
    }
}

fn build_pod_template(opa: &OpaCluster, opa_name: &str, inputs: &PodInputs) -> (result: Result<
    PodTemplate,
    Error,
>)
    ensures
        match pod_template(opa.deep_view(), opa_name@, inputs.deep_view()) {
            Ok(expected) => result matches Ok(template) && template.deep_view() == expected,
            Err(expected) => result matches Err(error) && error.deep_view() == expected,
        },
{
    if let Checked::Invalid(reason) = &inputs.labels.recommended {
        return Err(Error::ObjectMeta(reason.clone()));
    }
    let config = inputs.merged_config;
    let mut volumes = build_base_volumes(
        inputs.rolegroup_ref.object_name().as_str(),
        inputs.platform,
    );
    let mut containers: Vec<Container> = no_items();
    push_item(
        &mut containers,
        build_opa_container(inputs.image, config, inputs.server_env, inputs.platform),
    );
    push_item(
        &mut containers,
        build_bundle_builder_container(
            inputs.image,
            config,
            inputs.opa_bundle_builder_image,
            inputs.cluster_domain,
            inputs.platform,
        ),
    );
    proof {
        let view = inputs.deep_view();
        assert(containers.deep_view() =~= seq![
            opa_container(view.image, view.merged_config, view.server_env, view.platform),
            bundle_builder_container(
                view.image,
                view.merged_config,
                view.opa_bundle_builder_image,
                view.cluster_domain,
                view.platform,
            ),
        ]);
    }
    if let Err(error) = add_user_info_fetcher(
        opa,
        opa_name,
        inputs.image,
        config,
        inputs.user_info_fetcher_image,
        inputs.cluster_domain,
        inputs.platform,
        &mut containers,
        &mut volumes,
    ) {
        return Err(error);
    }
    if let Err(error) = add_vector(opa, &config.logging, inputs.platform, &mut containers) {
        return Err(error);
    }
    let termination_grace_period_seconds = match graceful_shutdown_config(
        config.graceful_shutdown_timeout,
    ) {
        Ok(seconds) => seconds,
        Err(_) => return Err(Error::GracefulShutdown),
    };
    let labels = build_recommended_labels(
        opa_name,
        inputs.image.app_version_label_value.as_str(),
        inputs.rolegroup_ref.role.as_str(),
        inputs.rolegroup_ref.role_group.as_str(),
    ).to_labels();
    let mut metadata = no_meta();
    metadata.labels = Some(labels);
    Ok(
        PodTemplate {
            metadata,
            init_containers: one_item(build_prepare_container(inputs.image, config, inputs.platform)),
            containers,
            volumes,
            affinity: config.affinity.duplicate(),
            image_pull_secrets: inputs.image.pull_secrets.duplicate(),
            service_account_name: Some(inputs.service_account_name.to_owned()),
            security_context: Some(
                PodSecurityContext { stackable_defaults: false, fs_group: Some(1000) },
            ),
            termination_grace_period_seconds,
        },
    )
}

/// The Pod overrides of a role and of one of its role groups, in the order in which they are merged
/// into the template of the Pods. What is merged later wins, so the role group wins over the role.
pub fn pod_overrides<T>(role: T, role_group: T) -> (overrides: Vec<T>)
    ensures
        overrides@ == seq![role, role_group],
{
    let mut overrides: Vec<T> = Vec::new();
    overrides.push(role);
    overrides.push(role_group);
    assert(overrides@ =~= seq![role, role_group]);
    overrides
}

/// The DaemonSet of a role group, before the user's Pod overrides are applied to its template.
pub open spec fn rolegroup_daemonset(opa: OpaClusterView, inputs: PodInputsView) -> Result<
    DaemonSetView,
    ErrorView,
> {
    let rolegroup = inputs.rolegroup_ref;
    match opa.metadata.name {
        None => Err(ErrorView::NoName),
        Some(opa_name) => match referenced_role_group(opa, rolegroup) {
            Err(error) => Err(ErrorView::InternalOperatorFailure(error)),
            Ok(_) => match pod_template(opa, opa_name, inputs) {
                Err(error) => Err(error),
                Ok(template) => match (
                    object_meta_view(
                        role_group_name(rolegroup.cluster, rolegroup.role, rolegroup.role_group),
                        opa,
                        inputs.image,
                        rolegroup.role,
                        rolegroup.role_group,
                        inputs.labels.recommended,
                    ),
                    checked_selector(group_selector(opa, rolegroup), inputs.labels.selector),
                ) {
                    (Err(error), _) => Err(error),
                    (_, Err(error)) => Err(error),
                    (Ok(metadata), Ok(selector)) => Ok(
                        DaemonSetView {
                            metadata,
                            spec: Some(
                                DaemonSetSpecView {
                                    selector: LabelSelectorView {
                                        match_labels: Some(selector),
                                        match_expressions: None,
                                    },
                                    template,
                                    update_strategy: None,
                                },
                            ),
                        },
                    ),
                },
            },
        },
    }
}

/// Builds the DaemonSet that runs a role group, before the user's Pod overrides are applied to its
/// template.
///
/// An OPA runs on each node, to avoid network roundtrips for services making policy queries, which
/// are often chained in serial and block other tasks in the products.
pub fn build_server_rolegroup_daemonset(opa: &OpaCluster, inputs: &PodInputs) -> (result: Result<
    DaemonSet,
    Error,
>)
    ensures
        match rolegroup_daemonset(opa.deep_view(), inputs.deep_view()) {
            Ok(expected) => result matches Ok(daemonset) && daemonset.deep_view() == expected,
            Err(expected) => result matches Err(error) && error.deep_view() == expected,
        },
{
    let rolegroup = inputs.rolegroup_ref;
    let opa_name = match &opa.metadata.name {
        Some(name) => name,
        None => return Err(Error::NoName),
    };
    if let Err(error) = opa.rolegroup(rolegroup) {
        return Err(Error::InternalOperatorFailure(error));
    }
    let template = match build_pod_template(opa, opa_name.as_str(), inputs) {
        Ok(template) => template,
        Err(error) => return Err(error),
    };
    let metadata = match object_meta(
        rolegroup.object_name().as_str(),
        opa,
        inputs.image,
        rolegroup.role.as_str(),
        rolegroup.role_group.as_str(),
        &inputs.labels.recommended,
    ) {
        Ok(metadata) => metadata,
        Err(error) => return Err(error),
    };
    let selector = match check_selector(
        build_group_selector(opa, rolegroup),
        &inputs.labels.selector,
    ) {
        Ok(selector) => selector,
        Err(error) => return Err(error),
    };
    Ok(
        DaemonSet {
            metadata,
            spec: Some(
                DaemonSetSpec {
                    selector: LabelSelector {
                        match_labels: Some(selector),
                        match_expressions: None,
                    },
                    template,
                    update_strategy: None,
                },
            ),
        },
    )
}

/// An error is counted under the name of its kind.
pub proof fn lemma_categories(error: Error)
    ensures
        error is InvalidOpaCluster ==> error.spec_category() == "InvalidOpaCluster"@,
        error is NoName ==> error.spec_category() == "NoName"@,
        error is InternalOperatorFailure ==> error.spec_category() == "InternalOperatorFailure"@,
        error is RoleServiceNameNotFound ==> error.spec_category() == "RoleServiceNameNotFound"@,
        error is ApplyRoleService ==> error.spec_category() == "ApplyRoleService"@,
        error is ApplyRoleGroupService ==> error.spec_category() == "ApplyRoleGroupService"@,
        error is ApplyRoleGroupMetricsService ==> error.spec_category() == "ApplyRoleGroupMetricsService"@,
        error is BuildRoleGroupConfig ==> error.spec_category() == "BuildRoleGroupConfig"@,
        error is ApplyRoleGroupConfig ==> error.spec_category() == "ApplyRoleGroupConfig"@,
        error is ApplyRoleGroupDaemonSet ==> error.spec_category() == "ApplyRoleGroupDaemonSet"@,
        error is ApplyPatchRoleGroupDaemonSet ==> error.spec_category() == "ApplyPatchRoleGroupDaemonSet"@,
        error is ApplyServiceAccount ==> error.spec_category() == "ApplyServiceAccount"@,
        error is ApplyRoleBinding ==> error.spec_category() == "ApplyRoleBinding"@,
        error is ApplyStatus ==> error.spec_category() == "ApplyStatus"@,
        error is InvalidProductConfig ==> error.spec_category() == "InvalidProductConfig"@,
        error is ObjectMissingMetadataForOwnerRef ==> error.spec_category() == "ObjectMissingMetadataForOwnerRef"@,
        error is BuildDiscoveryConfig ==> error.spec_category() == "BuildDiscoveryConfig"@,
        error is ApplyDiscoveryConfig ==> error.spec_category() == "ApplyDiscoveryConfig"@,
        error is ProductConfigTransform ==> error.spec_category() == "ProductConfigTransform"@,
        error is FailedToResolveConfig ==> error.spec_category() == "FailedToResolveConfig"@,
        error is VectorAggregatorConfigMapMissing ==> error.spec_category() == "VectorAggregatorConfigMapMissing"@,
        error is InvalidLoggingConfig ==> error.spec_category() == "InvalidLoggingConfig"@,
        error is FailedToCreateClusterResources ==> error.spec_category() == "FailedToCreateClusterResources"@,
        error is DeleteOrphans ==> error.spec_category() == "DeleteOrphans"@,
        error is BuildRbacResources ==> error.spec_category() == "BuildRbacResources"@,
        error is GracefulShutdown ==> error.spec_category() == "GracefulShutdown"@,
        error is SerializeUserInfoFetcherConfig ==> error.spec_category() == "SerializeUserInfoFetcherConfig"@,
        error is BuildLabel ==> error.spec_category() == "BuildLabel"@,
        error is ObjectMeta ==> error.spec_category() == "ObjectMeta"@,
        error is UserInfoFetcherKerberosVolume ==> error.spec_category() == "UserInfoFetcherKerberosVolume"@,
        error is UserInfoFetcherKerberosVolumeMount ==> error.spec_category() == "UserInfoFetcherKerberosVolumeMount"@,
        error is UserInfoFetcherTlsVolumeAndMounts ==> error.spec_category() == "UserInfoFetcherTlsVolumeAndMounts"@,
        error is ConfigureLogging ==> error.spec_category() == "ConfigureLogging"@,
        error is AddVolume ==> error.spec_category() == "AddVolume"@,
        error is AddVolumeMount ==> error.spec_category() == "AddVolumeMount"@,
{
}

} // verus!
