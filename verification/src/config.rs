//! The layered configuration of role groups.
use crate::duration::Duration;
use crate::kubernetes::pod::{
    ResourceRequirements, ResourceRequirementsView, StackableAffinity, StackableAffinityView,
};
use crate::value::Value;
use vstd::prelude::*;

verus! {

/// How long Pods have to shut down gracefully by default, in seconds: two minutes.
pub const DEFAULT_SERVER_GRACEFUL_SHUTDOWN_TIMEOUT: u64 = 120;

/// Safety buffer to guarantee that the graceful shutdown works every time, in seconds.
pub const SERVER_GRACEFUL_SHUTDOWN_SAFETY_OVERHEAD: u64 = 5;

/// How much CPU a container gets at least and at most.
#[derive(Clone, Debug, PartialEq, Eq)]
pub struct CpuLimits {
    pub min: Option<String>,
    pub max: Option<String>,
}

/// The contents of a [`CpuLimits`].
#[verifier::ext_equal]
pub struct CpuLimitsView {
    pub min: Option<Seq<char>>,
    pub max: Option<Seq<char>>,
}

impl DeepView for CpuLimits {
    type V = CpuLimitsView;

    open spec fn deep_view(&self) -> CpuLimitsView {
        CpuLimitsView {
            min: self.min.deep_view(),
            max: self.max.deep_view(),
        }
    }
}

impl Value for CpuLimits {
    fn duplicate(&self) -> (copy: Self) {
        CpuLimits {
            min: self.min.duplicate(),
            max: self.max.duplicate(),
        }
    }

    fn same_as(&self, other: &Self) -> (same: bool) {
        self.min.same_as(&other.min) && self.max.same_as(&other.max)
    }
}

/// How much memory a container gets.
#[derive(Clone, Debug, PartialEq, Eq)]
pub struct MemoryLimits {
    pub limit: Option<String>,
}

/// The contents of a [`MemoryLimits`].
#[verifier::ext_equal]
pub struct MemoryLimitsView {
    pub limit: Option<Seq<char>>,
}

impl DeepView for MemoryLimits {
    type V = MemoryLimitsView;

    open spec fn deep_view(&self) -> MemoryLimitsView {
        MemoryLimitsView {
            limit: self.limit.deep_view(),
        }
    }
}

impl Value for MemoryLimits {
    fn duplicate(&self) -> (copy: Self) {
        MemoryLimits {
            limit: self.limit.duplicate(),
        }
    }

    fn same_as(&self, other: &Self) -> (same: bool) {
        self.limit.same_as(&other.limit)
    }
}

/// OPA stores nothing, so there is nothing to configure.
#[derive(Clone, Debug, PartialEq, Eq)]
pub struct OpaStorageConfig {
}

/// The contents of an [`OpaStorageConfig`].
#[verifier::ext_equal]
pub struct OpaStorageConfigView {
}

impl DeepView for OpaStorageConfig {
    type V = OpaStorageConfigView;

    open spec fn deep_view(&self) -> OpaStorageConfigView {
        OpaStorageConfigView {
        }
    }
}

impl Value for OpaStorageConfig {
    fn duplicate(&self) -> (copy: Self) {
        OpaStorageConfig {
        }
    }

    fn same_as(&self, other: &Self) -> (same: bool) {
        true
    }
}

/// The CPU, memory and storage of a container.
#[derive(Clone, Debug, PartialEq, Eq)]
pub struct Resources {
    pub cpu: CpuLimits,
    pub memory: MemoryLimits,
    pub storage: OpaStorageConfig,
}

/// The contents of a [`Resources`].
#[verifier::ext_equal]
pub struct ResourcesView {
    pub cpu: CpuLimitsView,
    pub memory: MemoryLimitsView,
    pub storage: OpaStorageConfigView,
}

impl DeepView for Resources {
    type V = ResourcesView;

    open spec fn deep_view(&self) -> ResourcesView {
        ResourcesView {
            cpu: self.cpu.deep_view(),
            memory: self.memory.deep_view(),
            storage: self.storage.deep_view(),
        }
    }
}

impl Value for Resources {
    fn duplicate(&self) -> (copy: Self) {
        Resources {
            cpu: self.cpu.duplicate(),
            memory: self.memory.duplicate(),
            storage: self.storage.duplicate(),
        }
    }

    fn same_as(&self, other: &Self) -> (same: bool) {
        self.cpu.same_as(&other.cpu)
            && self.memory.same_as(&other.memory)
            && self.storage.same_as(&other.storage)
    }
}

/// What the resources of a container amount to: memory is requested up to its limit.
pub open spec fn requirements(resources: ResourcesView) -> ResourceRequirementsView {
    ResourceRequirementsView {
        cpu_request: resources.cpu.min,
        cpu_limit: resources.cpu.max,
        memory_request: resources.memory.limit,
        memory_limit: resources.memory.limit,
    }
}

impl Resources {
    /// What the resources of a container amount to.
    pub fn to_requirements(&self) -> (result: ResourceRequirements)
        ensures
            result.deep_view() == requirements(self.deep_view()),
    {
        ResourceRequirements {
            cpu_request: self.cpu.min.duplicate(),
            cpu_limit: self.cpu.max.duplicate(),
            memory_request: self.memory.limit.duplicate(),
            memory_limit: self.memory.limit.duplicate(),
        }
    }
}

/// A layer of configuration: what is set here counts more than what a lower layer sets.
#[derive(Clone, Debug, PartialEq, Eq)]
pub struct OpaConfigFragment {
    pub resources: Resources,
    pub affinity: StackableAffinity,
    /// Time period Pods have to gracefully shut down.
    pub graceful_shutdown_timeout: Option<Duration>,
}

/// The contents of an [`OpaConfigFragment`].
#[verifier::ext_equal]
pub struct OpaConfigFragmentView {
    pub resources: ResourcesView,
    pub affinity: StackableAffinityView,
    pub graceful_shutdown_timeout: Option<Duration>,
}

impl DeepView for OpaConfigFragment {
    type V = OpaConfigFragmentView;

    open spec fn deep_view(&self) -> OpaConfigFragmentView {
        OpaConfigFragmentView {
            resources: self.resources.deep_view(),
            affinity: self.affinity.deep_view(),
            graceful_shutdown_timeout: self.graceful_shutdown_timeout.deep_view(),
        }
    }
}

impl Value for OpaConfigFragment {
    fn duplicate(&self) -> (copy: Self) {
        OpaConfigFragment {
            resources: self.resources.duplicate(),
            affinity: self.affinity.duplicate(),
            graceful_shutdown_timeout: self.graceful_shutdown_timeout.duplicate(),
        }
    }

    fn same_as(&self, other: &Self) -> (same: bool) {
        self.resources.same_as(&other.resources)
            && self.affinity.same_as(&other.affinity)
            && self.graceful_shutdown_timeout.same_as(&other.graceful_shutdown_timeout)
    }
}

/// A setting of one layer, or that of the layer below where it is not set.
pub open spec fn layered<T>(upper: Option<T>, lower: Option<T>) -> Option<T> {
    match upper {
        Some(value) => Some(value),
        None => lower,
    }
}

/// One layer of configuration on top of another, setting by setting.
pub open spec fn layered_config(
    upper: OpaConfigFragmentView,
    lower: OpaConfigFragmentView,
) -> OpaConfigFragmentView {
    OpaConfigFragmentView {
        resources: ResourcesView {
            cpu: CpuLimitsView {
                min: layered(upper.resources.cpu.min, lower.resources.cpu.min),
                max: layered(upper.resources.cpu.max, lower.resources.cpu.max),
            },
            memory: MemoryLimitsView {
                limit: layered(upper.resources.memory.limit, lower.resources.memory.limit),
            },
            storage: OpaStorageConfigView {  },
        },
        affinity: StackableAffinityView {
            pod_affinity: layered(upper.affinity.pod_affinity, lower.affinity.pod_affinity),
            pod_anti_affinity: layered(
                upper.affinity.pod_anti_affinity,
                lower.affinity.pod_anti_affinity,
            ),
            node_affinity: layered(upper.affinity.node_affinity, lower.affinity.node_affinity),
            node_selector: layered(upper.affinity.node_selector, lower.affinity.node_selector),
        },
        graceful_shutdown_timeout: layered(
            upper.graceful_shutdown_timeout,
            lower.graceful_shutdown_timeout,
        ),
    }
}

fn layer<T: Value>(upper: &Option<T>, lower: &Option<T>) -> (result: Option<T>)
    ensures
        result.deep_view() == layered(upper.deep_view(), lower.deep_view()),
{
    match upper {
        Some(value) => Some(value.duplicate()),
        None => lower.duplicate(),
    }
}

impl OpaConfigFragment {
    /// Puts this layer on top of `lower`.
    pub fn on_top_of(&self, lower: &OpaConfigFragment) -> (merged: OpaConfigFragment)
        ensures
            merged.deep_view() == layered_config(self.deep_view(), lower.deep_view()),
    {
        OpaConfigFragment {
            resources: Resources {
                cpu: CpuLimits {
                    min: layer(&self.resources.cpu.min, &lower.resources.cpu.min),
                    max: layer(&self.resources.cpu.max, &lower.resources.cpu.max),
                },
                memory: MemoryLimits {
                    limit: layer(&self.resources.memory.limit, &lower.resources.memory.limit),
                },
                storage: OpaStorageConfig {  },
            },
            affinity: StackableAffinity {
                pod_affinity: layer(&self.affinity.pod_affinity, &lower.affinity.pod_affinity),
                pod_anti_affinity: layer(
                    &self.affinity.pod_anti_affinity,
                    &lower.affinity.pod_anti_affinity,
                ),
                node_affinity: layer(&self.affinity.node_affinity, &lower.affinity.node_affinity),
                node_selector: layer(&self.affinity.node_selector, &lower.affinity.node_selector),
            },
            graceful_shutdown_timeout: layer(
                &self.graceful_shutdown_timeout,
                &lower.graceful_shutdown_timeout,
            ),
        }
    }
}

/// No setting at all.
pub open spec fn empty_affinity() -> StackableAffinityView {
    StackableAffinityView {
        pod_affinity: None,
        pod_anti_affinity: None,
        node_affinity: None,
        node_selector: None,
    }
}

/// Builds an affinity without any setting.
pub fn no_affinity() -> (affinity: StackableAffinity)
    ensures
        affinity.deep_view() == empty_affinity(),
{
    StackableAffinity {
        pod_affinity: None,
        pod_anti_affinity: None,
        node_affinity: None,
        node_selector: None,
    }
}

/// The configuration that the operator starts from.
pub open spec fn default_layer(affinity: StackableAffinityView) -> OpaConfigFragmentView {
    OpaConfigFragmentView {
        resources: ResourcesView {
            cpu: CpuLimitsView { min: Some("250m"@), max: Some("500m"@) },
            memory: MemoryLimitsView { limit: Some("256Mi"@) },
            storage: OpaStorageConfigView {  },
        },
        affinity,
        graceful_shutdown_timeout: Some(
            Duration::spec_from_secs(DEFAULT_SERVER_GRACEFUL_SHUTDOWN_TIMEOUT),
        ),
    }
}

/// Builds the configuration that the operator starts from.
pub fn default_fragment(affinity: StackableAffinity) -> (fragment: OpaConfigFragment)
    ensures
        fragment.deep_view() == default_layer(affinity.deep_view()),
{
    OpaConfigFragment {
        resources: Resources {
            cpu: CpuLimits { min: Some("250m".to_owned()), max: Some("500m".to_owned()) },
            memory: MemoryLimits { limit: Some("256Mi".to_owned()) },
            storage: OpaStorageConfig {  },
        },
        affinity,
        graceful_shutdown_timeout: Some(
            Duration::from_secs(DEFAULT_SERVER_GRACEFUL_SHUTDOWN_TIMEOUT),
        ),
    }
}

/// The layers of a role group's configuration: the role group over the role over the defaults.
pub open spec fn hierarchy(
    role_group: OpaConfigFragmentView,
    role: OpaConfigFragmentView,
    defaults: OpaConfigFragmentView,
) -> OpaConfigFragmentView {
    layered_config(role_group, layered_config(role, defaults))
}

/// Layers can be merged from the top or from the bottom: the outcome is the same.
pub proof fn lemma_layers_associate(
    top: OpaConfigFragmentView,
    middle: OpaConfigFragmentView,
    bottom: OpaConfigFragmentView,
)
    ensures
        layered_config(top, layered_config(middle, bottom)) == layered_config(
            layered_config(top, middle),
            bottom,
        ),
{
}

/// A setting of the role group wins over the role, and one of the role over the defaults.
pub proof fn lemma_hierarchy<T>(role_group: Option<T>, role: Option<T>, default: Option<T>)
    ensures
        role_group is Some ==> layered(role_group, layered(role, default)) == role_group,
        role_group is None && role is Some ==> layered(role_group, layered(role, default)) == role,
        role_group is None && role is None ==> layered(role_group, layered(role, default))
            == default,
{
}

/// Users cannot disable the graceful shutdown: there is always a timeout.
pub proof fn lemma_shutdown_timeout_always_set(
    role_group: OpaConfigFragmentView,
    role: OpaConfigFragmentView,
    affinity: StackableAffinityView,
)
    ensures
        hierarchy(role_group, role, default_layer(affinity)).graceful_shutdown_timeout is Some,
{
}

/// A Pod's termination grace period in whole seconds, for a graceful shutdown timeout.
///
/// `None` where the period does not fit into the field of the Pod.
pub open spec fn termination_grace_period(timeout: Duration) -> Option<i64> {
    if timeout.secs + SERVER_GRACEFUL_SHUTDOWN_SAFETY_OVERHEAD <= i64::MAX {
        Some((timeout.secs + SERVER_GRACEFUL_SHUTDOWN_SAFETY_OVERHEAD) as i64)
    } else {
        None
    }
}

/// The termination grace period of a Pod; without a timeout there is none.
pub open spec fn grace_period(timeout: Option<Duration>) -> Result<Option<i64>, ()> {
    match timeout {
        Some(timeout) => match termination_grace_period(timeout) {
            Some(seconds) => Ok(Some(seconds)),
            None => Err(()),
        },
        None => Ok(None),
    }
}

/// Determines the termination grace period of a Pod.
pub fn graceful_shutdown_config(timeout: Option<Duration>) -> (result: Result<Option<i64>, ()>)
    ensures
        result == grace_period(timeout),
{
    match timeout {
        Some(timeout) => {
            if timeout.secs <= 9223372036854775807 - SERVER_GRACEFUL_SHUTDOWN_SAFETY_OVERHEAD {
                Ok(Some((timeout.secs + SERVER_GRACEFUL_SHUTDOWN_SAFETY_OVERHEAD) as i64))
            } else {
                Err(())
            }
        },
        None => Ok(None),
    }
}

/// How long OPA itself waits for requests in flight, in whole seconds.
pub open spec fn opa_shutdown_grace_period(timeout: Option<Duration>) -> u64 {
    match timeout {
        Some(timeout) => timeout.secs,
        None => DEFAULT_SERVER_GRACEFUL_SHUTDOWN_TIMEOUT,
    }
}

/// Determines how long OPA itself waits for requests in flight.
pub fn shutdown_grace_period(timeout: Option<Duration>) -> (seconds: u64)
    ensures
        seconds == opa_shutdown_grace_period(timeout),
{
    match timeout {
        Some(timeout) => timeout.secs,
        None => DEFAULT_SERVER_GRACEFUL_SHUTDOWN_TIMEOUT,
    }
}

/// A Pod is given longer to terminate than OPA takes to shut down.
pub proof fn lemma_pod_outlives_opa(timeout: Duration)
    ensures
        termination_grace_period(timeout) matches Some(seconds) ==> seconds
            > opa_shutdown_grace_period(Some(timeout)),
{
}

/// A layer on top of another hides every setting of the lower one that it has itself, and no other.
pub proof fn lemma_upper_layer_hides_lower(
    upper: OpaConfigFragmentView,
    lower: OpaConfigFragmentView,
)
    ensures
        ({
            let merged = layered_config(upper, lower);
            &&& merged.resources.cpu.min == if upper.resources.cpu.min is Some {
                upper.resources.cpu.min
            } else {
                lower.resources.cpu.min
            }
            &&& merged.resources.cpu.max == if upper.resources.cpu.max is Some {
                upper.resources.cpu.max
            } else {
                lower.resources.cpu.max
            }
            &&& merged.resources.memory.limit == if upper.resources.memory.limit is Some {
                upper.resources.memory.limit
            } else {
                lower.resources.memory.limit
            }
            &&& merged.affinity.pod_affinity == if upper.affinity.pod_affinity is Some {
                upper.affinity.pod_affinity
            } else {
                lower.affinity.pod_affinity
            }
            &&& merged.affinity.pod_anti_affinity == if upper.affinity.pod_anti_affinity is Some {
                upper.affinity.pod_anti_affinity
            } else {
                lower.affinity.pod_anti_affinity
            }
            &&& merged.affinity.node_affinity == if upper.affinity.node_affinity is Some {
                upper.affinity.node_affinity
            } else {
                lower.affinity.node_affinity
            }
            &&& merged.affinity.node_selector == if upper.affinity.node_selector is Some {
                upper.affinity.node_selector
            } else {
                lower.affinity.node_selector
            }
            &&& merged.graceful_shutdown_timeout == if upper.graceful_shutdown_timeout is Some {
                upper.graceful_shutdown_timeout
            } else {
                lower.graceful_shutdown_timeout
            }
        }),
{
}

/// Every setting is that of the role group where it has one, else that of the role, and else a quarter
/// to half of a CPU, 256 MiB of memory, two minutes to shut down and the given affinity.
pub proof fn lemma_settings_by_precedence(
    role_group: OpaConfigFragmentView,
    role: OpaConfigFragmentView,
    affinity: StackableAffinityView,
)
    ensures
        ({
            let merged = hierarchy(role_group, role, default_layer(affinity));
            &&& merged.resources.cpu.min == if role_group.resources.cpu.min is Some {
                role_group.resources.cpu.min
            } else if role.resources.cpu.min is Some {
                role.resources.cpu.min
            } else {
                Some("250m"@)
            }
            &&& merged.resources.cpu.max == if role_group.resources.cpu.max is Some {
                role_group.resources.cpu.max
            } else if role.resources.cpu.max is Some {
                role.resources.cpu.max
            } else {
                Some("500m"@)
            }
            &&& merged.resources.memory.limit == if role_group.resources.memory.limit is Some {
                role_group.resources.memory.limit
            } else if role.resources.memory.limit is Some {
                role.resources.memory.limit
            } else {
                Some("256Mi"@)
            }
            &&& merged.affinity.pod_affinity == if role_group.affinity.pod_affinity is Some {
                role_group.affinity.pod_affinity
            } else if role.affinity.pod_affinity is Some {
                role.affinity.pod_affinity
            } else {
                affinity.pod_affinity
            }
            &&& merged.affinity.pod_anti_affinity
                == if role_group.affinity.pod_anti_affinity is Some {
                role_group.affinity.pod_anti_affinity
            } else if role.affinity.pod_anti_affinity is Some {
                role.affinity.pod_anti_affinity
            } else {
                affinity.pod_anti_affinity
            }
            &&& merged.affinity.node_affinity == if role_group.affinity.node_affinity is Some {
                role_group.affinity.node_affinity
            } else if role.affinity.node_affinity is Some {
                role.affinity.node_affinity
            } else {
                affinity.node_affinity
            }
            &&& merged.affinity.node_selector == if role_group.affinity.node_selector is Some {
                role_group.affinity.node_selector
            } else if role.affinity.node_selector is Some {
                role.affinity.node_selector
            } else {
                affinity.node_selector
            }
            &&& merged.graceful_shutdown_timeout
                == if role_group.graceful_shutdown_timeout is Some {
                role_group.graceful_shutdown_timeout
            } else if role.graceful_shutdown_timeout is Some {
                role.graceful_shutdown_timeout
            } else {
                Some(Duration { secs: 120, nanos: 0 })
            }
        }),
{
}

/// A container is promised the least CPU that is set and may use the most that is set. Of memory it
/// gets what it is promised.
pub proof fn lemma_requirements(resources: ResourcesView)
    ensures
        requirements(resources).cpu_request == resources.cpu.min,
        requirements(resources).cpu_limit == resources.cpu.max,
        requirements(resources).memory_request == resources.memory.limit,
        requirements(resources).memory_limit == resources.memory.limit,
{
}

/// A Pod is given five seconds more than OPA to stop. This only fails where the sum is too large.
pub proof fn lemma_grace_periods(timeout: Duration)
    ensures
        opa_shutdown_grace_period(Some(timeout)) == timeout.secs,
        opa_shutdown_grace_period(None) == 120,
        grace_period(None) == Ok::<Option<i64>, ()>(None),
        timeout.secs + 5 <= 0x7fff_ffff_ffff_ffff ==> (grace_period(Some(timeout)) matches Ok(Some(seconds))
            && seconds == timeout.secs + 5),
        timeout.secs + 5 > 0x7fff_ffff_ffff_ffff ==> grace_period(Some(timeout)) is Err,
{
}

} // verus!
