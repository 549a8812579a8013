//! Pods and what they are made of.
use crate::kubernetes::meta::{LabelSelector, LabelSelectorView, ObjectMeta, ObjectMetaView};
use crate::text_map::StringMap;
use crate::value::Value;
use vstd::prelude::*;

verus! {

/// Where the value of an environment variable comes from.
#[derive(Clone, Debug, PartialEq, Eq)]
pub enum EnvVarSource {
    /// A field of the Pod, by its path.
    FieldPath(String),
}

/// The contents of an [`EnvVarSource`].
#[verifier::ext_equal]
pub enum EnvVarSourceView {
    FieldPath(Seq<char>),
}

impl DeepView for EnvVarSource {
    type V = EnvVarSourceView;

    open spec fn deep_view(&self) -> EnvVarSourceView {
        match self {
            EnvVarSource::FieldPath(inner) => EnvVarSourceView::FieldPath(inner.deep_view()),
        }
    }
}

impl Value for EnvVarSource {
    fn duplicate(&self) -> (copy: Self) {
        match self {
            EnvVarSource::FieldPath(inner) => EnvVarSource::FieldPath(inner.duplicate()),
        }
    }

    fn same_as(&self, other: &Self) -> (same: bool) {
        match (self, other) {
            (EnvVarSource::FieldPath(left), EnvVarSource::FieldPath(right)) => left.same_as(right),
        }
    }
}

/// An environment variable of a container.
#[derive(Clone, Debug, PartialEq, Eq)]
pub struct EnvVar {
    pub name: String,
    pub value: Option<String>,
    pub value_from: Option<EnvVarSource>,
}

/// The contents of an [`EnvVar`].
#[verifier::ext_equal]
pub struct EnvVarView {
    pub name: Seq<char>,
    pub value: Option<Seq<char>>,
    pub value_from: Option<EnvVarSourceView>,
}

impl DeepView for EnvVar {
    type V = EnvVarView;

    open spec fn deep_view(&self) -> EnvVarView {
        EnvVarView {
            name: self.name.deep_view(),
            value: self.value.deep_view(),
            value_from: self.value_from.deep_view(),
        }
    }
}

impl Value for EnvVar {
    fn duplicate(&self) -> (copy: Self) {
        EnvVar {
            name: self.name.duplicate(),
            value: self.value.duplicate(),
            value_from: self.value_from.duplicate(),
        }
    }

    fn same_as(&self, other: &Self) -> (same: bool) {
        self.name.same_as(&other.name)
            && self.value.same_as(&other.value)
            && self.value_from.same_as(&other.value_from)
    }
}

/// A volume mounted into a container.
#[derive(Clone, Debug, PartialEq, Eq)]
pub struct VolumeMount {
    pub name: String,
    pub mount_path: String,
    pub read_only: Option<bool>,
}

/// The contents of a [`VolumeMount`].
#[verifier::ext_equal]
pub struct VolumeMountView {
    pub name: Seq<char>,
    pub mount_path: Seq<char>,
    pub read_only: Option<bool>,
}

impl DeepView for VolumeMount {
    type V = VolumeMountView;

    open spec fn deep_view(&self) -> VolumeMountView {
        VolumeMountView {
            name: self.name.deep_view(),
            mount_path: self.mount_path.deep_view(),
            read_only: self.read_only.deep_view(),
        }
    }
}

impl Value for VolumeMount {
    fn duplicate(&self) -> (copy: Self) {
        VolumeMount {
            name: self.name.duplicate(),
            mount_path: self.mount_path.duplicate(),
            read_only: self.read_only.duplicate(),
        }
    }

    fn same_as(&self, other: &Self) -> (same: bool) {
        self.name.same_as(&other.name)
            && self.mount_path.same_as(&other.mount_path)
            && self.read_only.same_as(&other.read_only)
    }
}

/// A volume that starts empty and lives as long as the Pod.
#[derive(Clone, Debug, PartialEq, Eq)]
pub struct EmptyDirVolumeSource {
    pub medium: Option<String>,
    pub size_limit: Option<String>,
}

/// The contents of an [`EmptyDirVolumeSource`].
#[verifier::ext_equal]
pub struct EmptyDirVolumeSourceView {
    pub medium: Option<Seq<char>>,
    pub size_limit: Option<Seq<char>>,
}

impl DeepView for EmptyDirVolumeSource {
    type V = EmptyDirVolumeSourceView;

    open spec fn deep_view(&self) -> EmptyDirVolumeSourceView {
        EmptyDirVolumeSourceView {
            medium: self.medium.deep_view(),
            size_limit: self.size_limit.deep_view(),
        }
    }
}

impl Value for EmptyDirVolumeSource {
    fn duplicate(&self) -> (copy: Self) {
        EmptyDirVolumeSource {
            medium: self.medium.duplicate(),
            size_limit: self.size_limit.duplicate(),
        }
    }

    fn same_as(&self, other: &Self) -> (same: bool) {
        self.medium.same_as(&other.medium) && self.size_limit.same_as(&other.size_limit)
    }
}

/// What a volume of a SecretClass is issued for.
#[derive(Clone, Debug, PartialEq, Eq)]
pub struct SecretClassVolumeScope {
    pub pod: bool,
    pub node: bool,
    pub services: Vec<String>,
    pub listener_volumes: Vec<String>,
}

/// The contents of a [`SecretClassVolumeScope`].
#[verifier::ext_equal]
pub struct SecretClassVolumeScopeView {
    pub pod: bool,
    pub node: bool,
    pub services: Seq<Seq<char>>,
    pub listener_volumes: Seq<Seq<char>>,
}

impl DeepView for SecretClassVolumeScope {
    type V = SecretClassVolumeScopeView;

    open spec fn deep_view(&self) -> SecretClassVolumeScopeView {
        SecretClassVolumeScopeView {
            pod: self.pod.deep_view(),
            node: self.node.deep_view(),
            services: self.services.deep_view(),
            listener_volumes: self.listener_volumes.deep_view(),
        }
    }
}

impl Value for SecretClassVolumeScope {
    fn duplicate(&self) -> (copy: Self) {
        SecretClassVolumeScope {
            pod: self.pod.duplicate(),
            node: self.node.duplicate(),
            services: self.services.duplicate(),
            listener_volumes: self.listener_volumes.duplicate(),
        }
    }

    fn same_as(&self, other: &Self) -> (same: bool) {
        self.pod.same_as(&other.pod)
            && self.node.same_as(&other.node)
            && self.services.same_as(&other.services)
            && self.listener_volumes.same_as(&other.listener_volumes)
    }
}

/// A volume that the secret operator fills from a SecretClass.
#[derive(Clone, Debug, PartialEq, Eq)]
pub struct SecretClassVolume {
    pub secret_class: String,
    pub scope: Option<SecretClassVolumeScope>,
    /// Whether private parts (a key, a keytab) are provisioned next to the public ones.
    pub provision_private_parts: bool,
}

/// The contents of a [`SecretClassVolume`].
#[verifier::ext_equal]
pub struct SecretClassVolumeView {
    pub secret_class: Seq<char>,
    pub scope: Option<SecretClassVolumeScopeView>,
    pub provision_private_parts: bool,
}

impl DeepView for SecretClassVolume {
    type V = SecretClassVolumeView;

    open spec fn deep_view(&self) -> SecretClassVolumeView {
        SecretClassVolumeView {
            secret_class: self.secret_class.deep_view(),
            scope: self.scope.deep_view(),
            provision_private_parts: self.provision_private_parts.deep_view(),
        }
    }
}

impl Value for SecretClassVolume {
    fn duplicate(&self) -> (copy: Self) {
        SecretClassVolume {
            secret_class: self.secret_class.duplicate(),
            scope: self.scope.duplicate(),
            provision_private_parts: self.provision_private_parts.duplicate(),
        }
    }

    fn same_as(&self, other: &Self) -> (same: bool) {
        self.secret_class.same_as(&other.secret_class)
            && self.scope.same_as(&other.scope)
            && self.provision_private_parts.same_as(&other.provision_private_parts)
    }
}

/// What a volume holds.
#[derive(Clone, Debug, PartialEq, Eq)]
pub enum VolumeSource {
    /// The entries of the ConfigMap of that name.
    ConfigMap(String),
    /// The entries of the Secret of that name.
    Secret(String),
    /// An initially empty directory.
    EmptyDir(EmptyDirVolumeSource),
    /// What the secret operator provisions.
    SecretClass(SecretClassVolume),
}

/// The contents of a [`VolumeSource`].
#[verifier::ext_equal]
pub enum VolumeSourceView {
    ConfigMap(Seq<char>),
    Secret(Seq<char>),
    EmptyDir(EmptyDirVolumeSourceView),
    SecretClass(SecretClassVolumeView),
}

impl DeepView for VolumeSource {
    type V = VolumeSourceView;

    open spec fn deep_view(&self) -> VolumeSourceView {
        match self {
            VolumeSource::ConfigMap(inner) => VolumeSourceView::ConfigMap(inner.deep_view()),
            VolumeSource::Secret(inner) => VolumeSourceView::Secret(inner.deep_view()),
            VolumeSource::EmptyDir(inner) => VolumeSourceView::EmptyDir(inner.deep_view()),
            VolumeSource::SecretClass(inner) => VolumeSourceView::SecretClass(inner.deep_view()),
        }
    }
}

impl Value for VolumeSource {
    fn duplicate(&self) -> (copy: Self) {
        match self {
            VolumeSource::ConfigMap(inner) => VolumeSource::ConfigMap(inner.duplicate()),
            VolumeSource::Secret(inner) => VolumeSource::Secret(inner.duplicate()),
            VolumeSource::EmptyDir(inner) => VolumeSource::EmptyDir(inner.duplicate()),
            VolumeSource::SecretClass(inner) => VolumeSource::SecretClass(inner.duplicate()),
        }
    }

    fn same_as(&self, other: &Self) -> (same: bool) {
        match (self, other) {
            (VolumeSource::ConfigMap(left), VolumeSource::ConfigMap(right)) => left.same_as(right),
            (VolumeSource::Secret(left), VolumeSource::Secret(right)) => left.same_as(right),
            (VolumeSource::EmptyDir(left), VolumeSource::EmptyDir(right)) => left.same_as(right),
            (VolumeSource::SecretClass(left), VolumeSource::SecretClass(right)) => {
                left.same_as(right)
            },
            _ => false,
        }
    }
}

/// A volume of a Pod.
#[derive(Clone, Debug, PartialEq, Eq)]
pub struct Volume {
    pub name: String,
    pub source: VolumeSource,
}

/// The contents of a [`Volume`].
#[verifier::ext_equal]
pub struct VolumeView {
    pub name: Seq<char>,
    pub source: VolumeSourceView,
}

impl DeepView for Volume {
    type V = VolumeView;

    open spec fn deep_view(&self) -> VolumeView {
        VolumeView {
            name: self.name.deep_view(),
            source: self.source.deep_view(),
        }
    }
}

impl Value for Volume {
    fn duplicate(&self) -> (copy: Self) {
        Volume {
            name: self.name.duplicate(),
            source: self.source.duplicate(),
        }
    }

    fn same_as(&self, other: &Self) -> (same: bool) {
        self.name.same_as(&other.name) && self.source.same_as(&other.source)
    }
}

/// A port that a container listens on.
#[derive(Clone, Debug, PartialEq, Eq)]
pub struct ContainerPort {
    pub name: Option<String>,
    pub container_port: i32,
}

/// The contents of a [`ContainerPort`].
#[verifier::ext_equal]
pub struct ContainerPortView {
    pub name: Option<Seq<char>>,
    pub container_port: i32,
}

impl DeepView for ContainerPort {
    type V = ContainerPortView;

    open spec fn deep_view(&self) -> ContainerPortView {
        ContainerPortView {
            name: self.name.deep_view(),
            container_port: self.container_port.deep_view(),
        }
    }
}

impl Value for ContainerPort {
    fn duplicate(&self) -> (copy: Self) {
        ContainerPort {
            name: self.name.duplicate(),
            container_port: self.container_port.duplicate(),
        }
    }

    fn same_as(&self, other: &Self) -> (same: bool) {
        self.name.same_as(&other.name) && self.container_port.same_as(&other.container_port)
    }
}

/// A port, or a count, given by its number or by a name.
#[derive(Clone, Debug, PartialEq, Eq)]
pub enum IntOrString {
    /// A number.
    Int(i32),
    /// A name.
    Name(String),
}

/// The contents of an [`IntOrString`].
#[verifier::ext_equal]
pub enum IntOrStringView {
    Int(i32),
    Name(Seq<char>),
}

impl DeepView for IntOrString {
    type V = IntOrStringView;

    open spec fn deep_view(&self) -> IntOrStringView {
        match self {
            IntOrString::Int(inner) => IntOrStringView::Int(inner.deep_view()),
            IntOrString::Name(inner) => IntOrStringView::Name(inner.deep_view()),
        }
    }
}

impl Value for IntOrString {
    fn duplicate(&self) -> (copy: Self) {
        match self {
            IntOrString::Int(inner) => IntOrString::Int(inner.duplicate()),
            IntOrString::Name(inner) => IntOrString::Name(inner.duplicate()),
        }
    }

    fn same_as(&self, other: &Self) -> (same: bool) {
        match (self, other) {
            (IntOrString::Int(left), IntOrString::Int(right)) => left.same_as(right),
            (IntOrString::Name(left), IntOrString::Name(right)) => left.same_as(right),
            _ => false,
        }
    }
}

/// An HTTP request that probes a container.
#[derive(Clone, Debug, PartialEq, Eq)]
pub struct HttpGetAction {
    pub port: IntOrString,
    pub path: Option<String>,
    pub scheme: Option<String>,
}

/// The contents of a [`HttpGetAction`].
#[verifier::ext_equal]
pub struct HttpGetActionView {
    pub port: IntOrStringView,
    pub path: Option<Seq<char>>,
    pub scheme: Option<Seq<char>>,
}

impl DeepView for HttpGetAction {
    type V = HttpGetActionView;

    open spec fn deep_view(&self) -> HttpGetActionView {
        HttpGetActionView {
            port: self.port.deep_view(),
            path: self.path.deep_view(),
            scheme: self.scheme.deep_view(),
        }
    }
}

impl Value for HttpGetAction {
    fn duplicate(&self) -> (copy: Self) {
        HttpGetAction {
            port: self.port.duplicate(),
            path: self.path.duplicate(),
            scheme: self.scheme.duplicate(),
        }
    }

    fn same_as(&self, other: &Self) -> (same: bool) {
        self.port.same_as(&other.port)
            && self.path.same_as(&other.path)
            && self.scheme.same_as(&other.scheme)
    }
}

/// A periodic check of a container.
#[derive(Clone, Debug, PartialEq, Eq)]
pub struct Probe {
    pub initial_delay_seconds: Option<i32>,
    pub period_seconds: Option<i32>,
    pub failure_threshold: Option<i32>,
    pub http_get: Option<HttpGetAction>,
}

/// The contents of a [`Probe`].
#[verifier::ext_equal]
pub struct ProbeView {
    pub initial_delay_seconds: Option<i32>,
    pub period_seconds: Option<i32>,
    pub failure_threshold: Option<i32>,
    pub http_get: Option<HttpGetActionView>,
}

impl DeepView for Probe {
    type V = ProbeView;

    open spec fn deep_view(&self) -> ProbeView {
        ProbeView {
            initial_delay_seconds: self.initial_delay_seconds.deep_view(),
            period_seconds: self.period_seconds.deep_view(),
            failure_threshold: self.failure_threshold.deep_view(),
            http_get: self.http_get.deep_view(),
        }
    }
}

impl Value for Probe {
    fn duplicate(&self) -> (copy: Self) {
        Probe {
            initial_delay_seconds: self.initial_delay_seconds.duplicate(),
            period_seconds: self.period_seconds.duplicate(),
            failure_threshold: self.failure_threshold.duplicate(),
            http_get: self.http_get.duplicate(),
        }
    }

    fn same_as(&self, other: &Self) -> (same: bool) {
        self.initial_delay_seconds.same_as(&other.initial_delay_seconds)
            && self.period_seconds.same_as(&other.period_seconds)
            && self.failure_threshold.same_as(&other.failure_threshold)
            && self.http_get.same_as(&other.http_get)
    }
}

/// The CPU and memory a container asks for and may use at most.
#[derive(Clone, Debug, PartialEq, Eq)]
pub struct ResourceRequirements {
    pub cpu_request: Option<String>,
    pub cpu_limit: Option<String>,
    pub memory_request: Option<String>,
    pub memory_limit: Option<String>,
}

/// The contents of a [`ResourceRequirements`].
#[verifier::ext_equal]
pub struct ResourceRequirementsView {
    pub cpu_request: Option<Seq<char>>,
    pub cpu_limit: Option<Seq<char>>,
    pub memory_request: Option<Seq<char>>,
    pub memory_limit: Option<Seq<char>>,
}

impl DeepView for ResourceRequirements {
    type V = ResourceRequirementsView;

    open spec fn deep_view(&self) -> ResourceRequirementsView {
        ResourceRequirementsView {
            cpu_request: self.cpu_request.deep_view(),
            cpu_limit: self.cpu_limit.deep_view(),
            memory_request: self.memory_request.deep_view(),
            memory_limit: self.memory_limit.deep_view(),
        }
    }
}

impl Value for ResourceRequirements {
    fn duplicate(&self) -> (copy: Self) {
        ResourceRequirements {
            cpu_request: self.cpu_request.duplicate(),
            cpu_limit: self.cpu_limit.duplicate(),
            memory_request: self.memory_request.duplicate(),
            memory_limit: self.memory_limit.duplicate(),
        }
    }

    fn same_as(&self, other: &Self) -> (same: bool) {
        self.cpu_request.same_as(&other.cpu_request)
            && self.cpu_limit.same_as(&other.cpu_limit)
            && self.memory_request.same_as(&other.memory_request)
            && self.memory_limit.same_as(&other.memory_limit)
    }
}

/// A container of a Pod.
#[derive(Clone, Debug, PartialEq, Eq)]
pub struct Container {
    pub name: String,
    pub image: Option<String>,
    pub image_pull_policy: Option<String>,
    pub command: Vec<String>,
    pub args: Vec<String>,
    pub env: Vec<EnvVar>,
    pub ports: Vec<ContainerPort>,
    pub volume_mounts: Vec<VolumeMount>,
    pub resources: Option<ResourceRequirements>,
    pub readiness_probe: Option<Probe>,
    pub liveness_probe: Option<Probe>,
}

/// The contents of a [`Container`].
#[verifier::ext_equal]
pub struct ContainerView {
    pub name: Seq<char>,
    pub image: Option<Seq<char>>,
    pub image_pull_policy: Option<Seq<char>>,
    pub command: Seq<Seq<char>>,
    pub args: Seq<Seq<char>>,
    pub env: Seq<EnvVarView>,
    pub ports: Seq<ContainerPortView>,
    pub volume_mounts: Seq<VolumeMountView>,
    pub resources: Option<ResourceRequirementsView>,
    pub readiness_probe: Option<ProbeView>,
    pub liveness_probe: Option<ProbeView>,
}

impl DeepView for Container {
    type V = ContainerView;

    open spec fn deep_view(&self) -> ContainerView {
        ContainerView {
            name: self.name.deep_view(),
            image: self.image.deep_view(),
            image_pull_policy: self.image_pull_policy.deep_view(),
            command: self.command.deep_view(),
            args: self.args.deep_view(),
            env: self.env.deep_view(),
            ports: self.ports.deep_view(),
            volume_mounts: self.volume_mounts.deep_view(),
            resources: self.resources.deep_view(),
            readiness_probe: self.readiness_probe.deep_view(),
            liveness_probe: self.liveness_probe.deep_view(),
        }
    }
}

impl Value for Container {
    fn duplicate(&self) -> (copy: Self) {
        Container {
            name: self.name.duplicate(),
            image: self.image.duplicate(),
            image_pull_policy: self.image_pull_policy.duplicate(),
            command: self.command.duplicate(),
            args: self.args.duplicate(),
            env: self.env.duplicate(),
            ports: self.ports.duplicate(),
            volume_mounts: self.volume_mounts.duplicate(),
            resources: self.resources.duplicate(),
            readiness_probe: self.readiness_probe.duplicate(),
            liveness_probe: self.liveness_probe.duplicate(),
        }
    }

    fn same_as(&self, other: &Self) -> (same: bool) {
        self.name.same_as(&other.name)
            && self.image.same_as(&other.image)
            && self.image_pull_policy.same_as(&other.image_pull_policy)
            && self.command.same_as(&other.command)
            && self.args.same_as(&other.args)
            && self.env.same_as(&other.env)
            && self.ports.same_as(&other.ports)
            && self.volume_mounts.same_as(&other.volume_mounts)
            && self.resources.same_as(&other.resources)
            && self.readiness_probe.same_as(&other.readiness_probe)
            && self.liveness_probe.same_as(&other.liveness_probe)
    }
}

/// A group of Pods, and the topology within which to be near to or far from them.
#[derive(Clone, Debug, PartialEq, Eq)]
pub struct PodAffinityTerm {
    pub label_selector: Option<LabelSelector>,
    pub topology_key: String,
    /// The remaining fields as JSON text. The operator never sets any.
    pub further_fields: Option<String>,
}

/// The contents of a [`PodAffinityTerm`].
#[verifier::ext_equal]
pub struct PodAffinityTermView {
    pub label_selector: Option<LabelSelectorView>,
    pub topology_key: Seq<char>,
    pub further_fields: Option<Seq<char>>,
}

impl DeepView for PodAffinityTerm {
    type V = PodAffinityTermView;

    open spec fn deep_view(&self) -> PodAffinityTermView {
        PodAffinityTermView {
            label_selector: self.label_selector.deep_view(),
            topology_key: self.topology_key.deep_view(),
            further_fields: self.further_fields.deep_view(),
        }
    }
}

impl Value for PodAffinityTerm {
    fn duplicate(&self) -> (copy: Self) {
        PodAffinityTerm {
            label_selector: self.label_selector.duplicate(),
            topology_key: self.topology_key.duplicate(),
            further_fields: self.further_fields.duplicate(),
        }
    }

    fn same_as(&self, other: &Self) -> (same: bool) {
        self.label_selector.same_as(&other.label_selector)
            && self.topology_key.same_as(&other.topology_key)
            && self.further_fields.same_as(&other.further_fields)
    }
}

/// A preferred term with its weight.
#[derive(Clone, Debug, PartialEq, Eq)]
pub struct WeightedPodAffinityTerm {
    pub weight: i32,
    pub pod_affinity_term: PodAffinityTerm,
}

/// The contents of a [`WeightedPodAffinityTerm`].
#[verifier::ext_equal]
pub struct WeightedPodAffinityTermView {
    pub weight: i32,
    pub pod_affinity_term: PodAffinityTermView,
}

impl DeepView for WeightedPodAffinityTerm {
    type V = WeightedPodAffinityTermView;

    open spec fn deep_view(&self) -> WeightedPodAffinityTermView {
        WeightedPodAffinityTermView {
            weight: self.weight.deep_view(),
            pod_affinity_term: self.pod_affinity_term.deep_view(),
        }
    }
}

impl Value for WeightedPodAffinityTerm {
    fn duplicate(&self) -> (copy: Self) {
        WeightedPodAffinityTerm {
            weight: self.weight.duplicate(),
            pod_affinity_term: self.pod_affinity_term.duplicate(),
        }
    }

    fn same_as(&self, other: &Self) -> (same: bool) {
        self.weight.same_as(&other.weight)
            && self.pod_affinity_term.same_as(&other.pod_affinity_term)
    }
}

/// Pods to stay away from.
#[derive(Clone, Debug, PartialEq, Eq)]
pub struct PodAntiAffinity {
    pub preferred_during_scheduling_ignored_during_execution: Option<Vec<WeightedPodAffinityTerm>>,
    pub required_during_scheduling_ignored_during_execution: Option<Vec<PodAffinityTerm>>,
}

/// The contents of a [`PodAntiAffinity`].
#[verifier::ext_equal]
pub struct PodAntiAffinityView {
    pub preferred_during_scheduling_ignored_during_execution: Option<Seq<WeightedPodAffinityTermView>>,
    pub required_during_scheduling_ignored_during_execution: Option<Seq<PodAffinityTermView>>,
}

impl DeepView for PodAntiAffinity {
    type V = PodAntiAffinityView;

    open spec fn deep_view(&self) -> PodAntiAffinityView {
        PodAntiAffinityView {
            preferred_during_scheduling_ignored_during_execution: self.preferred_during_scheduling_ignored_during_execution.deep_view(),
            required_during_scheduling_ignored_during_execution: self.required_during_scheduling_ignored_during_execution.deep_view(),
        }
    }
}

impl Value for PodAntiAffinity {
    fn duplicate(&self) -> (copy: Self) {
        PodAntiAffinity {
            preferred_during_scheduling_ignored_during_execution: self.preferred_during_scheduling_ignored_during_execution.duplicate(),
            required_during_scheduling_ignored_during_execution: self.required_during_scheduling_ignored_during_execution.duplicate(),
        }
    }

    fn same_as(&self, other: &Self) -> (same: bool) {
        self.preferred_during_scheduling_ignored_during_execution.same_as(&other.preferred_during_scheduling_ignored_during_execution)
            && self.required_during_scheduling_ignored_during_execution.same_as(&other.required_during_scheduling_ignored_during_execution)
    }
}

/// Where the Pods of a role may and should run.
#[derive(Clone, Debug, PartialEq, Eq)]
pub struct StackableAffinity {
    /// The pod affinity as JSON text. The operator never sets one.
    pub pod_affinity: Option<String>,
    pub pod_anti_affinity: Option<PodAntiAffinity>,
    /// The node affinity as JSON text. The operator never sets one.
    pub node_affinity: Option<String>,
    pub node_selector: Option<StringMap>,
}

/// The contents of a [`StackableAffinity`].
#[verifier::ext_equal]
pub struct StackableAffinityView {
    pub pod_affinity: Option<Seq<char>>,
    pub pod_anti_affinity: Option<PodAntiAffinityView>,
    pub node_affinity: Option<Seq<char>>,
    pub node_selector: Option<Map<Seq<char>, Seq<char>>>,
}

impl DeepView for StackableAffinity {
    type V = StackableAffinityView;

    open spec fn deep_view(&self) -> StackableAffinityView {
        StackableAffinityView {
            pod_affinity: self.pod_affinity.deep_view(),
            pod_anti_affinity: self.pod_anti_affinity.deep_view(),
            node_affinity: self.node_affinity.deep_view(),
            node_selector: self.node_selector.deep_view(),
        }
    }
}

impl Value for StackableAffinity {
    fn duplicate(&self) -> (copy: Self) {
        StackableAffinity {
            pod_affinity: self.pod_affinity.duplicate(),
            pod_anti_affinity: self.pod_anti_affinity.duplicate(),
            node_affinity: self.node_affinity.duplicate(),
            node_selector: self.node_selector.duplicate(),
        }
    }

    fn same_as(&self, other: &Self) -> (same: bool) {
        self.pod_affinity.same_as(&other.pod_affinity)
            && self.pod_anti_affinity.same_as(&other.pod_anti_affinity)
            && self.node_affinity.same_as(&other.node_affinity)
            && self.node_selector.same_as(&other.node_selector)
    }
}

/// Security settings shared by the containers of a Pod.
#[derive(Clone, Debug, PartialEq, Eq)]
pub struct PodSecurityContext {
    /// Whether the platform-wide defaults apply to what is not set here.
    pub stackable_defaults: bool,
    pub fs_group: Option<i64>,
}

/// The contents of a [`PodSecurityContext`].
#[verifier::ext_equal]
pub struct PodSecurityContextView {
    pub stackable_defaults: bool,
    pub fs_group: Option<i64>,
}

impl DeepView for PodSecurityContext {
    type V = PodSecurityContextView;

    open spec fn deep_view(&self) -> PodSecurityContextView {
        PodSecurityContextView {
            stackable_defaults: self.stackable_defaults.deep_view(),
            fs_group: self.fs_group.deep_view(),
        }
    }
}

impl Value for PodSecurityContext {
    fn duplicate(&self) -> (copy: Self) {
        PodSecurityContext {
            stackable_defaults: self.stackable_defaults.duplicate(),
            fs_group: self.fs_group.duplicate(),
        }
    }

    fn same_as(&self, other: &Self) -> (same: bool) {
        self.stackable_defaults.same_as(&other.stackable_defaults)
            && self.fs_group.same_as(&other.fs_group)
    }
}

/// A Pod, or the template that a workload makes its Pods from.
#[derive(Clone, Debug, PartialEq, Eq)]
pub struct PodTemplate {
    pub metadata: ObjectMeta,
    pub init_containers: Vec<Container>,
    pub containers: Vec<Container>,
    pub volumes: Vec<Volume>,
    pub affinity: StackableAffinity,
    pub image_pull_secrets: Vec<String>,
    pub service_account_name: Option<String>,
    pub security_context: Option<PodSecurityContext>,
    pub termination_grace_period_seconds: Option<i64>,
}

/// The contents of a [`PodTemplate`].
#[verifier::ext_equal]
pub struct PodTemplateView {
    pub metadata: ObjectMetaView,
    pub init_containers: Seq<ContainerView>,
    pub containers: Seq<ContainerView>,
    pub volumes: Seq<VolumeView>,
    pub affinity: StackableAffinityView,
    pub image_pull_secrets: Seq<Seq<char>>,
    pub service_account_name: Option<Seq<char>>,
    pub security_context: Option<PodSecurityContextView>,
    pub termination_grace_period_seconds: Option<i64>,
}

impl DeepView for PodTemplate {
    type V = PodTemplateView;

    open spec fn deep_view(&self) -> PodTemplateView {
        PodTemplateView {
            metadata: self.metadata.deep_view(),
            init_containers: self.init_containers.deep_view(),
            containers: self.containers.deep_view(),
            volumes: self.volumes.deep_view(),
            affinity: self.affinity.deep_view(),
            image_pull_secrets: self.image_pull_secrets.deep_view(),
            service_account_name: self.service_account_name.deep_view(),
            security_context: self.security_context.deep_view(),
            termination_grace_period_seconds: self.termination_grace_period_seconds.deep_view(),
        }
    }
}

impl Value for PodTemplate {
    fn duplicate(&self) -> (copy: Self) {
        PodTemplate {
            metadata: self.metadata.duplicate(),
            init_containers: self.init_containers.duplicate(),
            containers: self.containers.duplicate(),
            volumes: self.volumes.duplicate(),
            affinity: self.affinity.duplicate(),
            image_pull_secrets: self.image_pull_secrets.duplicate(),
            service_account_name: self.service_account_name.duplicate(),
            security_context: self.security_context.duplicate(),
            termination_grace_period_seconds: self.termination_grace_period_seconds.duplicate(),
        }
    }

    fn same_as(&self, other: &Self) -> (same: bool) {
        self.metadata.same_as(&other.metadata)
            && self.init_containers.same_as(&other.init_containers)
            && self.containers.same_as(&other.containers)
            && self.volumes.same_as(&other.volumes)
            && self.affinity.same_as(&other.affinity)
            && self.image_pull_secrets.same_as(&other.image_pull_secrets)
            && self.service_account_name.same_as(&other.service_account_name)
            && self.security_context.same_as(&other.security_context)
            && self.termination_grace_period_seconds.same_as(&other.termination_grace_period_seconds)
    }
}

} // verus!
