//! Services, ConfigMaps, workloads and the other objects the operator writes.
use crate::kubernetes::meta::{LabelSelector, LabelSelectorView, ObjectMeta, ObjectMetaView};
use crate::kubernetes::pod::{IntOrString, IntOrStringView, PodTemplate, PodTemplateView};
use crate::text_map::StringMap;
use crate::value::Value;
use vstd::prelude::*;

verus! {

/// A port that a Service offers.
#[derive(Clone, Debug, PartialEq, Eq)]
pub struct ServicePort {
    pub name: Option<String>,
    pub port: i32,
    pub protocol: Option<String>,
}

/// The contents of a [`ServicePort`].
#[verifier::ext_equal]
pub struct ServicePortView {
    pub name: Option<Seq<char>>,
    pub port: i32,
    pub protocol: Option<Seq<char>>,
}

impl DeepView for ServicePort {
    type V = ServicePortView;

    open spec fn deep_view(&self) -> ServicePortView {
        ServicePortView {
            name: self.name.deep_view(),
            port: self.port.deep_view(),
            protocol: self.protocol.deep_view(),
        }
    }
}

impl Value for ServicePort {
    fn duplicate(&self) -> (copy: Self) {
        ServicePort {
            name: self.name.duplicate(),
            port: self.port.duplicate(),
            protocol: self.protocol.duplicate(),
        }
    }

    fn same_as(&self, other: &Self) -> (same: bool) {
        self.name.same_as(&other.name)
            && self.port.same_as(&other.port)
            && self.protocol.same_as(&other.protocol)
    }
}

/// How a Service reaches its Pods.
#[derive(Clone, Debug, PartialEq, Eq)]
pub struct ServiceSpec {
    pub type_: Option<String>,
    pub cluster_ip: Option<String>,
    pub ports: Option<Vec<ServicePort>>,
    pub selector: Option<StringMap>,
    pub internal_traffic_policy: Option<String>,
    pub publish_not_ready_addresses: Option<bool>,
}

/// The contents of a [`ServiceSpec`].
#[verifier::ext_equal]
pub struct ServiceSpecView {
    pub type_: Option<Seq<char>>,
    pub cluster_ip: Option<Seq<char>>,
    pub ports: Option<Seq<ServicePortView>>,
    pub selector: Option<Map<Seq<char>, Seq<char>>>,
    pub internal_traffic_policy: Option<Seq<char>>,
    pub publish_not_ready_addresses: Option<bool>,
}

impl DeepView for ServiceSpec {
    type V = ServiceSpecView;

    open spec fn deep_view(&self) -> ServiceSpecView {
        ServiceSpecView {
            type_: self.type_.deep_view(),
            cluster_ip: self.cluster_ip.deep_view(),
            ports: self.ports.deep_view(),
            selector: self.selector.deep_view(),
            internal_traffic_policy: self.internal_traffic_policy.deep_view(),
            publish_not_ready_addresses: self.publish_not_ready_addresses.deep_view(),
        }
    }
}

impl Value for ServiceSpec {
    fn duplicate(&self) -> (copy: Self) {
        ServiceSpec {
            type_: self.type_.duplicate(),
            cluster_ip: self.cluster_ip.duplicate(),
            ports: self.ports.duplicate(),
            selector: self.selector.duplicate(),
            internal_traffic_policy: self.internal_traffic_policy.duplicate(),
            publish_not_ready_addresses: self.publish_not_ready_addresses.duplicate(),
        }
    }

    fn same_as(&self, other: &Self) -> (same: bool) {
        self.type_.same_as(&other.type_)
            && self.cluster_ip.same_as(&other.cluster_ip)
            && self.ports.same_as(&other.ports)
            && self.selector.same_as(&other.selector)
            && self.internal_traffic_policy.same_as(&other.internal_traffic_policy)
            && self.publish_not_ready_addresses.same_as(&other.publish_not_ready_addresses)
    }
}

/// A Service.
#[derive(Clone, Debug, PartialEq, Eq)]
pub struct Service {
    pub metadata: ObjectMeta,
    pub spec: Option<ServiceSpec>,
}

/// The contents of a [`Service`].
#[verifier::ext_equal]
pub struct ServiceView {
    pub metadata: ObjectMetaView,
    pub spec: Option<ServiceSpecView>,
}

impl DeepView for Service {
    type V = ServiceView;

    open spec fn deep_view(&self) -> ServiceView {
        ServiceView {
            metadata: self.metadata.deep_view(),
            spec: self.spec.deep_view(),
        }
    }
}

impl Value for Service {
    fn duplicate(&self) -> (copy: Self) {
        Service {
            metadata: self.metadata.duplicate(),
            spec: self.spec.duplicate(),
        }
    }

    fn same_as(&self, other: &Self) -> (same: bool) {
        self.metadata.same_as(&other.metadata) && self.spec.same_as(&other.spec)
    }
}

/// A ConfigMap.
#[derive(Clone, Debug, PartialEq, Eq)]
pub struct ConfigMap {
    pub metadata: ObjectMeta,
    pub data: Option<StringMap>,
}

/// The contents of a [`ConfigMap`].
#[verifier::ext_equal]
pub struct ConfigMapView {
    pub metadata: ObjectMetaView,
    pub data: Option<Map<Seq<char>, Seq<char>>>,
}

impl DeepView for ConfigMap {
    type V = ConfigMapView;

    open spec fn deep_view(&self) -> ConfigMapView {
        ConfigMapView {
            metadata: self.metadata.deep_view(),
            data: self.data.deep_view(),
        }
    }
}

impl Value for ConfigMap {
    fn duplicate(&self) -> (copy: Self) {
        ConfigMap {
            metadata: self.metadata.duplicate(),
            data: self.data.duplicate(),
        }
    }

    fn same_as(&self, other: &Self) -> (same: bool) {
        self.metadata.same_as(&other.metadata) && self.data.same_as(&other.data)
    }
}

/// How many Pods a rolling update adds, and how many it may take away, at a time.
#[derive(Clone, Debug, PartialEq, Eq)]
pub struct RollingUpdate {
    pub max_surge: Option<IntOrString>,
    pub max_unavailable: Option<IntOrString>,
}

/// The contents of a [`RollingUpdate`].
#[verifier::ext_equal]
pub struct RollingUpdateView {
    pub max_surge: Option<IntOrStringView>,
    pub max_unavailable: Option<IntOrStringView>,
}

impl DeepView for RollingUpdate {
    type V = RollingUpdateView;

    open spec fn deep_view(&self) -> RollingUpdateView {
        RollingUpdateView {
            max_surge: self.max_surge.deep_view(),
            max_unavailable: self.max_unavailable.deep_view(),
        }
    }
}

impl Value for RollingUpdate {
    fn duplicate(&self) -> (copy: Self) {
        RollingUpdate {
            max_surge: self.max_surge.duplicate(),
            max_unavailable: self.max_unavailable.duplicate(),
        }
    }

    fn same_as(&self, other: &Self) -> (same: bool) {
        self.max_surge.same_as(&other.max_surge)
            && self.max_unavailable.same_as(&other.max_unavailable)
    }
}

/// How a workload replaces its Pods.
#[derive(Clone, Debug, PartialEq, Eq)]
pub struct UpdateStrategy {
    pub type_: Option<String>,
    pub rolling_update: Option<RollingUpdate>,
}

/// The contents of an [`UpdateStrategy`].
#[verifier::ext_equal]
pub struct UpdateStrategyView {
    pub type_: Option<Seq<char>>,
    pub rolling_update: Option<RollingUpdateView>,
}

impl DeepView for UpdateStrategy {
    type V = UpdateStrategyView;

    open spec fn deep_view(&self) -> UpdateStrategyView {
        UpdateStrategyView {
            type_: self.type_.deep_view(),
            rolling_update: self.rolling_update.deep_view(),
        }
    }
}

impl Value for UpdateStrategy {
    fn duplicate(&self) -> (copy: Self) {
        UpdateStrategy {
            type_: self.type_.duplicate(),
            rolling_update: self.rolling_update.duplicate(),
        }
    }

    fn same_as(&self, other: &Self) -> (same: bool) {
        self.type_.same_as(&other.type_) && self.rolling_update.same_as(&other.rolling_update)
    }
}

/// What a DaemonSet runs.
#[derive(Clone, Debug, PartialEq, Eq)]
pub struct DaemonSetSpec {
    pub selector: LabelSelector,
    pub template: PodTemplate,
    pub update_strategy: Option<UpdateStrategy>,
}

/// The contents of a [`DaemonSetSpec`].
#[verifier::ext_equal]
pub struct DaemonSetSpecView {
    pub selector: LabelSelectorView,
    pub template: PodTemplateView,
    pub update_strategy: Option<UpdateStrategyView>,
}

impl DeepView for DaemonSetSpec {
    type V = DaemonSetSpecView;

    open spec fn deep_view(&self) -> DaemonSetSpecView {
        DaemonSetSpecView {
            selector: self.selector.deep_view(),
            template: self.template.deep_view(),
            update_strategy: self.update_strategy.deep_view(),
        }
    }
}

impl Value for DaemonSetSpec {
    fn duplicate(&self) -> (copy: Self) {
        DaemonSetSpec {
            selector: self.selector.duplicate(),
            template: self.template.duplicate(),
            update_strategy: self.update_strategy.duplicate(),
        }
    }

    fn same_as(&self, other: &Self) -> (same: bool) {
        self.selector.same_as(&other.selector)
            && self.template.same_as(&other.template)
            && self.update_strategy.same_as(&other.update_strategy)
    }
}

/// A DaemonSet.
#[derive(Clone, Debug, PartialEq, Eq)]
pub struct DaemonSet {
    pub metadata: ObjectMeta,
    pub spec: Option<DaemonSetSpec>,
}

/// The contents of a [`DaemonSet`].
#[verifier::ext_equal]
pub struct DaemonSetView {
    pub metadata: ObjectMetaView,
    pub spec: Option<DaemonSetSpecView>,
}

impl DeepView for DaemonSet {
    type V = DaemonSetView;

    open spec fn deep_view(&self) -> DaemonSetView {
        DaemonSetView {
            metadata: self.metadata.deep_view(),
            spec: self.spec.deep_view(),
        }
    }
}

impl Value for DaemonSet {
    fn duplicate(&self) -> (copy: Self) {
        DaemonSet {
            metadata: self.metadata.duplicate(),
            spec: self.spec.duplicate(),
        }
    }

    fn same_as(&self, other: &Self) -> (same: bool) {
        self.metadata.same_as(&other.metadata) && self.spec.same_as(&other.spec)
    }
}

/// What a Deployment runs.
#[derive(Clone, Debug, PartialEq, Eq)]
pub struct DeploymentSpec {
    pub replicas: Option<i32>,
    pub selector: LabelSelector,
    pub template: PodTemplate,
    pub strategy: Option<UpdateStrategy>,
}

/// The contents of a [`DeploymentSpec`].
#[verifier::ext_equal]
pub struct DeploymentSpecView {
    pub replicas: Option<i32>,
    pub selector: LabelSelectorView,
    pub template: PodTemplateView,
    pub strategy: Option<UpdateStrategyView>,
}

impl DeepView for DeploymentSpec {
    type V = DeploymentSpecView;

    open spec fn deep_view(&self) -> DeploymentSpecView {
        DeploymentSpecView {
            replicas: self.replicas.deep_view(),
            selector: self.selector.deep_view(),
            template: self.template.deep_view(),
            strategy: self.strategy.deep_view(),
        }
    }
}

impl Value for DeploymentSpec {
    fn duplicate(&self) -> (copy: Self) {
        DeploymentSpec {
            replicas: self.replicas.duplicate(),
            selector: self.selector.duplicate(),
            template: self.template.duplicate(),
            strategy: self.strategy.duplicate(),
        }
    }

    fn same_as(&self, other: &Self) -> (same: bool) {
        self.replicas.same_as(&other.replicas)
            && self.selector.same_as(&other.selector)
            && self.template.same_as(&other.template)
            && self.strategy.same_as(&other.strategy)
    }
}

/// A Deployment.
#[derive(Clone, Debug, PartialEq, Eq)]
pub struct Deployment {
    pub metadata: ObjectMeta,
    pub spec: Option<DeploymentSpec>,
}

/// The contents of a [`Deployment`].
#[verifier::ext_equal]
pub struct DeploymentView {
    pub metadata: ObjectMetaView,
    pub spec: Option<DeploymentSpecView>,
}

impl DeepView for Deployment {
    type V = DeploymentView;

    open spec fn deep_view(&self) -> DeploymentView {
        DeploymentView {
            metadata: self.metadata.deep_view(),
            spec: self.spec.deep_view(),
        }
    }
}

impl Value for Deployment {
    fn duplicate(&self) -> (copy: Self) {
        Deployment {
            metadata: self.metadata.duplicate(),
            spec: self.spec.duplicate(),
        }
    }

    fn same_as(&self, other: &Self) -> (same: bool) {
        self.metadata.same_as(&other.metadata) && self.spec.same_as(&other.spec)
    }
}

/// How many of the selected Pods may be down at a time.
#[derive(Clone, Debug, PartialEq, Eq)]
pub struct PodDisruptionBudgetSpec {
    pub max_unavailable: Option<IntOrString>,
    pub selector: Option<LabelSelector>,
}

/// The contents of a [`PodDisruptionBudgetSpec`].
#[verifier::ext_equal]
pub struct PodDisruptionBudgetSpecView {
    pub max_unavailable: Option<IntOrStringView>,
    pub selector: Option<LabelSelectorView>,
}

impl DeepView for PodDisruptionBudgetSpec {
    type V = PodDisruptionBudgetSpecView;

    open spec fn deep_view(&self) -> PodDisruptionBudgetSpecView {
        PodDisruptionBudgetSpecView {
            max_unavailable: self.max_unavailable.deep_view(),
            selector: self.selector.deep_view(),
        }
    }
}

impl Value for PodDisruptionBudgetSpec {
    fn duplicate(&self) -> (copy: Self) {
        PodDisruptionBudgetSpec {
            max_unavailable: self.max_unavailable.duplicate(),
            selector: self.selector.duplicate(),
        }
    }

    fn same_as(&self, other: &Self) -> (same: bool) {
        self.max_unavailable.same_as(&other.max_unavailable)
            && self.selector.same_as(&other.selector)
    }
}

/// A PodDisruptionBudget.
#[derive(Clone, Debug, PartialEq, Eq)]
pub struct PodDisruptionBudget {
    pub metadata: ObjectMeta,
    pub spec: Option<PodDisruptionBudgetSpec>,
}

/// The contents of a [`PodDisruptionBudget`].
#[verifier::ext_equal]
pub struct PodDisruptionBudgetView {
    pub metadata: ObjectMetaView,
    pub spec: Option<PodDisruptionBudgetSpecView>,
}

impl DeepView for PodDisruptionBudget {
    type V = PodDisruptionBudgetView;

    open spec fn deep_view(&self) -> PodDisruptionBudgetView {
        PodDisruptionBudgetView {
            metadata: self.metadata.deep_view(),
            spec: self.spec.deep_view(),
        }
    }
}

impl Value for PodDisruptionBudget {
    fn duplicate(&self) -> (copy: Self) {
        PodDisruptionBudget {
            metadata: self.metadata.duplicate(),
            spec: self.spec.duplicate(),
        }
    }

    fn same_as(&self, other: &Self) -> (same: bool) {
        self.metadata.same_as(&other.metadata) && self.spec.same_as(&other.spec)
    }
}

/// A ServiceAccount.
#[derive(Clone, Debug, PartialEq, Eq)]
pub struct ServiceAccount {
    pub metadata: ObjectMeta,
}

/// The contents of a [`ServiceAccount`].
#[verifier::ext_equal]
pub struct ServiceAccountView {
    pub metadata: ObjectMetaView,
}

impl DeepView for ServiceAccount {
    type V = ServiceAccountView;

    open spec fn deep_view(&self) -> ServiceAccountView {
        ServiceAccountView {
            metadata: self.metadata.deep_view(),
        }
    }
}

impl Value for ServiceAccount {
    fn duplicate(&self) -> (copy: Self) {
        ServiceAccount {
            metadata: self.metadata.duplicate(),
        }
    }

    fn same_as(&self, other: &Self) -> (same: bool) {
        self.metadata.same_as(&other.metadata)
    }
}

/// The role that a binding grants.
#[derive(Clone, Debug, PartialEq, Eq)]
pub struct RoleRef {
    pub api_group: String,
    pub kind: String,
    pub name: String,
}

/// The contents of a [`RoleRef`].
#[verifier::ext_equal]
pub struct RoleRefView {
    pub api_group: Seq<char>,
    pub kind: Seq<char>,
    pub name: Seq<char>,
}

impl DeepView for RoleRef {
    type V = RoleRefView;

    open spec fn deep_view(&self) -> RoleRefView {
        RoleRefView {
            api_group: self.api_group.deep_view(),
            kind: self.kind.deep_view(),
            name: self.name.deep_view(),
        }
    }
}

impl Value for RoleRef {
    fn duplicate(&self) -> (copy: Self) {
        RoleRef {
            api_group: self.api_group.duplicate(),
            kind: self.kind.duplicate(),
            name: self.name.duplicate(),
        }
    }

    fn same_as(&self, other: &Self) -> (same: bool) {
        self.api_group.same_as(&other.api_group)
            && self.kind.same_as(&other.kind)
            && self.name.same_as(&other.name)
    }
}

/// Who a role is granted to.
#[derive(Clone, Debug, PartialEq, Eq)]
pub struct Subject {
    pub kind: String,
    pub name: String,
    pub namespace: Option<String>,
}

/// The contents of a [`Subject`].
#[verifier::ext_equal]
pub struct SubjectView {
    pub kind: Seq<char>,
    pub name: Seq<char>,
    pub namespace: Option<Seq<char>>,
}

impl DeepView for Subject {
    type V = SubjectView;

    open spec fn deep_view(&self) -> SubjectView {
        SubjectView {
            kind: self.kind.deep_view(),
            name: self.name.deep_view(),
            namespace: self.namespace.deep_view(),
        }
    }
}

impl Value for Subject {
    fn duplicate(&self) -> (copy: Self) {
        Subject {
            kind: self.kind.duplicate(),
            name: self.name.duplicate(),
            namespace: self.namespace.duplicate(),
        }
    }

    fn same_as(&self, other: &Self) -> (same: bool) {
        self.kind.same_as(&other.kind)
            && self.name.same_as(&other.name)
            && self.namespace.same_as(&other.namespace)
    }
}

/// A RoleBinding.
#[derive(Clone, Debug, PartialEq, Eq)]
pub struct RoleBinding {
    pub metadata: ObjectMeta,
    pub role_ref: RoleRef,
    pub subjects: Option<Vec<Subject>>,
}

/// The contents of a [`RoleBinding`].
#[verifier::ext_equal]
pub struct RoleBindingView {
    pub metadata: ObjectMetaView,
    pub role_ref: RoleRefView,
    pub subjects: Option<Seq<SubjectView>>,
}

impl DeepView for RoleBinding {
    type V = RoleBindingView;

    open spec fn deep_view(&self) -> RoleBindingView {
        RoleBindingView {
            metadata: self.metadata.deep_view(),
            role_ref: self.role_ref.deep_view(),
            subjects: self.subjects.deep_view(),
        }
    }
}

impl Value for RoleBinding {
    fn duplicate(&self) -> (copy: Self) {
        RoleBinding {
            metadata: self.metadata.duplicate(),
            role_ref: self.role_ref.duplicate(),
            subjects: self.subjects.duplicate(),
        }
    }

    fn same_as(&self, other: &Self) -> (same: bool) {
        self.metadata.same_as(&other.metadata)
            && self.role_ref.same_as(&other.role_ref)
            && self.subjects.same_as(&other.subjects)
    }
}

} // verus!
