//! The steps of a reconciliation.
use crate::action::Action;
use crate::kubernetes::resources::{ConfigMap, DaemonSet, Service};
use crate::v1alpha1::controller::{
    build_rolegroup_headless_service, build_rolegroup_metrics_service,
    build_server_rolegroup_config_map, build_server_rolegroup_daemonset, rendered,
    rolegroup_config_map, rolegroup_daemonset, rolegroup_headless_service,
    rolegroup_metrics_service, Error, ErrorView, PodInputs, PodInputsView, RoleGroupFailure,
    RoleGroupFailureView,
};
use crate::v1alpha1::crd::{
    logging_result, merged, Logging, OpaCluster, OpaClusterView, OpaConfig, OpaRole, RoleGroupRef,
    RoleGroupRefView,
};
use crate::value::Value;
use vstd::prelude::*;

verus! {

/// The objects of a role group.
pub struct RoleGroupObjects {
    pub config_map: ConfigMap,
    pub service: Service,
    pub metrics_service: Service,
    pub daemonset: DaemonSet,
}

/// Resolves the configuration of a role group.
pub fn resolve_config(
    opa: &OpaCluster,
    rolegroup: &RoleGroupRef,
    logging: Result<Logging, String>,
) -> (result: Result<OpaConfig, Error>)
    ensures
        match merged(opa.deep_view(), rolegroup.deep_view(), logging_result(logging)) {
            Ok(expected) => result matches Ok(config) && config.deep_view() == expected,
            Err(expected) => result matches Err(error) && error.deep_view()
                == ErrorView::FailedToResolveConfig(expected),
        },
{
    match opa.merged_config(&OpaRole::Server, rolegroup, logging) {
        Ok(config) => Ok(config),
        Err(error) => Err(Error::FailedToResolveConfig(error)),
    }
}

/// The rendered files of a role group.
pub struct RoleGroupFiles<'a> {
    pub config_file: &'a str,
    /// Needed only where a user-info-fetcher is configured.
    pub user_info_fetcher_file: Result<&'a str, &'a str>,
    /// Needed only where the Vector agent is enabled.
    pub vector_config: &'a str,
}

/// What came of building the objects of a role group: all four of them, or the first failure.
pub open spec fn role_group_objects_built(
    opa: OpaClusterView,
    inputs: PodInputsView,
    files: RoleGroupFiles,
    result: Result<RoleGroupObjects, Error>,
) -> bool {
    let config_map = rolegroup_config_map(
        opa,
        inputs.image,
        inputs.rolegroup_ref,
        inputs.merged_config.logging,
        files.config_file@,
        rendered(files.user_info_fetcher_file),
        files.vector_config@,
        inputs.labels.recommended,
    );
    let service = rolegroup_headless_service(
        opa,
        inputs.image,
        inputs.rolegroup_ref,
        inputs.labels,
    );
    let metrics_service = rolegroup_metrics_service(
        opa,
        inputs.image,
        inputs.rolegroup_ref,
        inputs.labels,
    );
    let daemonset = rolegroup_daemonset(opa, inputs);
    match result {
        Ok(objects) => {
            &&& config_map == Ok::<_, ErrorView>(objects.config_map.deep_view())
            &&& service == Ok::<_, ErrorView>(objects.service.deep_view())
            &&& metrics_service == Ok::<_, ErrorView>(objects.metrics_service.deep_view())
            &&& daemonset == Ok::<_, ErrorView>(objects.daemonset.deep_view())
        },
        Err(error) => {
            if config_map is Err {
                error.deep_view() == config_map->Err_0
            } else if service is Err {
                error.deep_view() == service->Err_0
            } else if metrics_service is Err {
                error.deep_view() == metrics_service->Err_0
            } else {
                &&& daemonset is Err
                &&& error.deep_view() == daemonset->Err_0
            }
        },
    }
}

/// Builds the objects of a role group.
pub fn build_role_group(opa: &OpaCluster, inputs: &PodInputs, files: &RoleGroupFiles) -> (result:
    Result<RoleGroupObjects, Error>)
    ensures
        role_group_objects_built(opa.deep_view(), inputs.deep_view(), *files, result),
{
    let config_map = match build_server_rolegroup_config_map(
        opa,
        inputs.image,
        inputs.rolegroup_ref,
        inputs.merged_config,
        files.config_file,
        files.user_info_fetcher_file,
        files.vector_config,
        &inputs.labels.recommended,
    ) {
        Ok(config_map) => config_map,
        Err(error) => return Err(error),
    };
    let service = match build_rolegroup_headless_service(
        opa,
        inputs.image,
        inputs.rolegroup_ref,
        inputs.labels,
    ) {
        Ok(service) => service,
        Err(error) => return Err(error),
    };
    let metrics_service = match build_rolegroup_metrics_service(
        opa,
        inputs.image,
        inputs.rolegroup_ref,
        inputs.labels,
    ) {
        Ok(service) => service,
        Err(error) => return Err(error),
    };
    let daemonset = match build_server_rolegroup_daemonset(opa, inputs) {
        Ok(daemonset) => daemonset,
        Err(error) => return Err(error),
    };
    Ok(RoleGroupObjects { config_map, service, metrics_service, daemonset })
}

/// A step of a reconciliation. Role groups are numbered in name order.
#[derive(Clone, Copy, Debug, PartialEq, Eq, Structural)]
pub enum ReconcileStep {
    /// Start to keep track of the cluster's objects.
    CreateClusterResources,
    /// Transform the configuration of the role groups for the product.
    TransformProductConfig,
    /// Validate the configuration of the role groups against the product.
    ValidateProductConfig,
    BuildRoleService,
    ApplyRoleService,
    /// Collect the labels that RBAC resources must have.
    CollectRequiredLabels,
    BuildRbacResources,
    ApplyServiceAccount,
    ApplyRoleBinding,
    /// Resolve the configuration of a role group and build its objects.
    BuildRoleGroup(usize),
    ApplyConfigMap(usize),
    ApplyService(usize),
    ApplyMetricsService(usize),
    ApplyDaemonSet(usize),
    /// Give up the fields of the DaemonSet that are still owned under the field manager's old name.
    PatchDaemonSet(usize),
    BuildDiscovery,
    ApplyDiscovery,
    UpdateStatus,
    DeleteOrphans,
    /// Nothing is left to do.
    Finished,
}

/// The step after one that succeeded, for a cluster with that many role groups.
pub open spec fn step_after(step: ReconcileStep, role_groups: nat) -> ReconcileStep {
    match step {
        ReconcileStep::CreateClusterResources => ReconcileStep::TransformProductConfig,
        ReconcileStep::TransformProductConfig => ReconcileStep::ValidateProductConfig,
        ReconcileStep::ValidateProductConfig => ReconcileStep::BuildRoleService,
        ReconcileStep::BuildRoleService => ReconcileStep::ApplyRoleService,
        ReconcileStep::ApplyRoleService => ReconcileStep::CollectRequiredLabels,
        ReconcileStep::CollectRequiredLabels => ReconcileStep::BuildRbacResources,
        ReconcileStep::BuildRbacResources => ReconcileStep::ApplyServiceAccount,
        ReconcileStep::ApplyServiceAccount => ReconcileStep::ApplyRoleBinding,
        ReconcileStep::ApplyRoleBinding => if role_groups > 0 {
            ReconcileStep::BuildRoleGroup(0)
        } else {
            ReconcileStep::BuildDiscovery
        },
        ReconcileStep::BuildRoleGroup(i) => ReconcileStep::ApplyConfigMap(i),
        ReconcileStep::ApplyConfigMap(i) => ReconcileStep::ApplyService(i),
        ReconcileStep::ApplyService(i) => ReconcileStep::ApplyMetricsService(i),
        ReconcileStep::ApplyMetricsService(i) => ReconcileStep::ApplyDaemonSet(i),
        ReconcileStep::ApplyDaemonSet(i) => ReconcileStep::PatchDaemonSet(i),
        ReconcileStep::PatchDaemonSet(i) => if i + 1 < role_groups {
            ReconcileStep::BuildRoleGroup((i + 1) as usize)
        } else {
            ReconcileStep::BuildDiscovery
        },
        ReconcileStep::BuildDiscovery => ReconcileStep::ApplyDiscovery,
        ReconcileStep::ApplyDiscovery => ReconcileStep::UpdateStatus,
        ReconcileStep::UpdateStatus => ReconcileStep::DeleteOrphans,
        ReconcileStep::DeleteOrphans => ReconcileStep::Finished,
        ReconcileStep::Finished => ReconcileStep::Finished,
    }
}

/// Why a step failed.
pub enum StepFailure {
    /// An object could not be built.
    Build(Error),
    /// What was done outside of this library failed, with this message.
    Outside(String),
}

/// The error that a failed step is reported as.
pub open spec fn step_error(
    step: ReconcileStep,
    rolegroup: RoleGroupRefView,
    source: Seq<char>,
) -> ErrorView {
    let failure = RoleGroupFailureView { rolegroup, source };
    match step {
        ReconcileStep::CreateClusterResources => ErrorView::FailedToCreateClusterResources(source),
        ReconcileStep::TransformProductConfig => ErrorView::ProductConfigTransform(source),
        ReconcileStep::ValidateProductConfig => ErrorView::InvalidProductConfig(source),
        ReconcileStep::BuildRoleService => ErrorView::BuildLabel(source),
        ReconcileStep::ApplyRoleService => ErrorView::ApplyRoleService(source),
        ReconcileStep::CollectRequiredLabels => ErrorView::BuildLabel(source),
        ReconcileStep::BuildRbacResources => ErrorView::BuildRbacResources(source),
        ReconcileStep::ApplyServiceAccount => ErrorView::ApplyServiceAccount(source),
        ReconcileStep::ApplyRoleBinding => ErrorView::ApplyRoleBinding(source),
        ReconcileStep::BuildRoleGroup(_) => ErrorView::BuildLabel(source),
        ReconcileStep::ApplyConfigMap(_) => ErrorView::ApplyRoleGroupConfig(failure),
        ReconcileStep::ApplyService(_) => ErrorView::ApplyRoleGroupService(failure),
        ReconcileStep::ApplyMetricsService(_) => ErrorView::ApplyRoleGroupService(failure),
        ReconcileStep::ApplyDaemonSet(_) => ErrorView::ApplyRoleGroupDaemonSet(failure),
        ReconcileStep::PatchDaemonSet(_) => ErrorView::ApplyPatchRoleGroupDaemonSet(failure),
        ReconcileStep::BuildDiscovery => ErrorView::BuildLabel(source),
        ReconcileStep::ApplyDiscovery => ErrorView::ApplyDiscoveryConfig(source),
        ReconcileStep::UpdateStatus => ErrorView::ApplyStatus(source),
        ReconcileStep::DeleteOrphans => ErrorView::DeleteOrphans(source),
        ReconcileStep::Finished => ErrorView::DeleteOrphans(source),
    }
}

fn error_of_step(step: ReconcileStep, rolegroup: &RoleGroupRef, source: String) -> (error: Error)
    ensures
        error.deep_view() == step_error(step, rolegroup.deep_view(), source@),
{
    match step {
        ReconcileStep::CreateClusterResources => Error::FailedToCreateClusterResources(source),
        ReconcileStep::TransformProductConfig => Error::ProductConfigTransform(source),
        ReconcileStep::ValidateProductConfig => Error::InvalidProductConfig(source),
        ReconcileStep::BuildRoleService => Error::BuildLabel(source),
        ReconcileStep::ApplyRoleService => Error::ApplyRoleService(source),
        ReconcileStep::CollectRequiredLabels => Error::BuildLabel(source),
        ReconcileStep::BuildRbacResources => Error::BuildRbacResources(source),
        ReconcileStep::ApplyServiceAccount => Error::ApplyServiceAccount(source),
        ReconcileStep::ApplyRoleBinding => Error::ApplyRoleBinding(source),
        ReconcileStep::BuildRoleGroup(_) => Error::BuildLabel(source),
        ReconcileStep::ApplyConfigMap(_) => Error::ApplyRoleGroupConfig(
            RoleGroupFailure { rolegroup: rolegroup.duplicate(), source },
        ),
        ReconcileStep::ApplyService(_) => Error::ApplyRoleGroupService(
            RoleGroupFailure { rolegroup: rolegroup.duplicate(), source },
        ),
        ReconcileStep::ApplyMetricsService(_) => Error::ApplyRoleGroupService(
            RoleGroupFailure { rolegroup: rolegroup.duplicate(), source },
        ),
        ReconcileStep::ApplyDaemonSet(_) => Error::ApplyRoleGroupDaemonSet(
            RoleGroupFailure { rolegroup: rolegroup.duplicate(), source },
        ),
        ReconcileStep::PatchDaemonSet(_) => Error::ApplyPatchRoleGroupDaemonSet(
            RoleGroupFailure { rolegroup: rolegroup.duplicate(), source },
        ),
        ReconcileStep::BuildDiscovery => Error::BuildLabel(source),
        ReconcileStep::ApplyDiscovery => Error::ApplyDiscoveryConfig(source),
        ReconcileStep::UpdateStatus => Error::ApplyStatus(source),
        ReconcileStep::DeleteOrphans => Error::DeleteOrphans(source),
        ReconcileStep::Finished => Error::DeleteOrphans(source),
    }
}

/// Starts a reconciliation. An invalid object is reported and left alone.
pub fn start_reconcile(opa: Result<&OpaCluster, String>) -> (result: Result<ReconcileStep, Error>)
    ensures
        match opa {
            Ok(_) => result == Ok::<_, Error>(ReconcileStep::CreateClusterResources),
            Err(message) => result matches Err(error) && error.deep_view()
                == ErrorView::InvalidOpaCluster(message@),
        },
{
    match opa {
        Ok(_) => Ok(ReconcileStep::CreateClusterResources),
        Err(message) => Err(Error::InvalidOpaCluster(message)),
    }
}

/// Continues a reconciliation after a step: with the next step, or by giving up with an error.
///
/// `rolegroup` is the role group that the step is about, where it is about one.
pub fn reconcile_opa(
    step: ReconcileStep,
    outcome: Result<(), StepFailure>,
    rolegroup: &RoleGroupRef,
    role_groups: usize,
) -> (result: Result<ReconcileStep, Error>)
    ensures
        match outcome {
            Ok(_) => result == Ok::<_, Error>(step_after(step, role_groups as nat)),
            Err(StepFailure::Build(error)) => result == Err::<ReconcileStep, _>(error),
            Err(StepFailure::Outside(source)) => result matches Err(error) && error.deep_view()
                == step_error(step, rolegroup.deep_view(), source@),
        },
{
    match outcome {
        Err(StepFailure::Build(error)) => return Err(error),
        Err(StepFailure::Outside(source)) => return Err(error_of_step(step, rolegroup, source)),
        Ok(_) => {},
    }
    Ok(
        match step {
            ReconcileStep::CreateClusterResources => ReconcileStep::TransformProductConfig,
            ReconcileStep::TransformProductConfig => ReconcileStep::ValidateProductConfig,
            ReconcileStep::ValidateProductConfig => ReconcileStep::BuildRoleService,
            ReconcileStep::BuildRoleService => ReconcileStep::ApplyRoleService,
            ReconcileStep::ApplyRoleService => ReconcileStep::CollectRequiredLabels,
            ReconcileStep::CollectRequiredLabels => ReconcileStep::BuildRbacResources,
            ReconcileStep::BuildRbacResources => ReconcileStep::ApplyServiceAccount,
            ReconcileStep::ApplyServiceAccount => ReconcileStep::ApplyRoleBinding,
            ReconcileStep::ApplyRoleBinding => {
                if role_groups > 0 {
                    ReconcileStep::BuildRoleGroup(0)
                } else {
                    ReconcileStep::BuildDiscovery
                }
            },
            ReconcileStep::BuildRoleGroup(i) => ReconcileStep::ApplyConfigMap(i),
            ReconcileStep::ApplyConfigMap(i) => ReconcileStep::ApplyService(i),
            ReconcileStep::ApplyService(i) => ReconcileStep::ApplyMetricsService(i),
            ReconcileStep::ApplyMetricsService(i) => ReconcileStep::ApplyDaemonSet(i),
            ReconcileStep::ApplyDaemonSet(i) => ReconcileStep::PatchDaemonSet(i),
            ReconcileStep::PatchDaemonSet(i) => {
                if role_groups > 0 && i < role_groups - 1 {
                    ReconcileStep::BuildRoleGroup(i + 1)
                } else {
                    ReconcileStep::BuildDiscovery
                }
            },
            ReconcileStep::BuildDiscovery => ReconcileStep::ApplyDiscovery,
            ReconcileStep::ApplyDiscovery => ReconcileStep::UpdateStatus,
            ReconcileStep::UpdateStatus => ReconcileStep::DeleteOrphans,
            ReconcileStep::DeleteOrphans => ReconcileStep::Finished,
            ReconcileStep::Finished => ReconcileStep::Finished,
        },
    )
}

/// The step after `n` successful ones.
pub open spec fn nth_step(n: nat, role_groups: nat) -> ReconcileStep
    decreases n,
{
    if n == 0 {
        ReconcileStep::CreateClusterResources
    } else {
        step_after(nth_step((n - 1) as nat, role_groups), role_groups)
    }
}

/// The number of steps before the role groups.
pub open spec fn steps_before() -> nat {
    9
}

/// The steps of each role group come in a row: its ConfigMap and Services are applied before its
/// DaemonSet, and the ServiceAccount before all of them.
pub proof fn lemma_role_group_steps(role_groups: nat, i: nat)
    requires
        i < role_groups <= usize::MAX,
    ensures
        nth_step(steps_before() + 6 * i, role_groups) == ReconcileStep::BuildRoleGroup(i as usize),
        nth_step(steps_before() + 6 * i + 1, role_groups) == ReconcileStep::ApplyConfigMap(i as usize),
        nth_step(steps_before() + 6 * i + 2, role_groups) == ReconcileStep::ApplyService(i as usize),
        nth_step(steps_before() + 6 * i + 3, role_groups) == ReconcileStep::ApplyMetricsService(
            i as usize,
        ),
        nth_step(steps_before() + 6 * i + 4, role_groups) == ReconcileStep::ApplyDaemonSet(i as usize),
        nth_step(steps_before() + 6 * i + 5, role_groups) == ReconcileStep::PatchDaemonSet(i as usize),
        nth_step(7, role_groups) == ReconcileStep::ApplyServiceAccount,
    decreases i,
{
    reveal_with_fuel(nth_step, 10);
    if i > 0 {
        lemma_role_group_steps(role_groups, (i - 1) as nat);
    }
    let start = steps_before() + 6 * i;
    assert(nth_step(start, role_groups) == ReconcileStep::BuildRoleGroup(i as usize));
    assert(nth_step(start + 1, role_groups) == ReconcileStep::ApplyConfigMap(i as usize));
    assert(nth_step(start + 2, role_groups) == ReconcileStep::ApplyService(i as usize));
    assert(nth_step(start + 3, role_groups) == ReconcileStep::ApplyMetricsService(i as usize));
    assert(nth_step(start + 4, role_groups) == ReconcileStep::ApplyDaemonSet(i as usize));
}

/// A reconciliation without failures goes through every role group, publishes the discovery
/// ConfigMap, updates the status, deletes what is left over, and then is finished.
pub proof fn lemma_reconciliation_finishes(role_groups: nat)
    requires
        role_groups <= usize::MAX,
    ensures
        nth_step(steps_before() + 6 * role_groups, role_groups) == ReconcileStep::BuildDiscovery,
        nth_step(steps_before() + 6 * role_groups + 1, role_groups) == ReconcileStep::ApplyDiscovery,
        nth_step(steps_before() + 6 * role_groups + 2, role_groups) == ReconcileStep::UpdateStatus,
        nth_step(steps_before() + 6 * role_groups + 3, role_groups) == ReconcileStep::DeleteOrphans,
        nth_step(steps_before() + 6 * role_groups + 4, role_groups) == ReconcileStep::Finished,
{
    reveal_with_fuel(nth_step, 10);
    if role_groups > 0 {
        lemma_role_group_steps(role_groups, (role_groups - 1) as nat);
    }
    let end = steps_before() + 6 * role_groups;
    assert(nth_step(end, role_groups) == ReconcileStep::BuildDiscovery);
    assert(nth_step(end + 1, role_groups) == ReconcileStep::ApplyDiscovery);
    assert(nth_step(end + 2, role_groups) == ReconcileStep::UpdateStatus);
    assert(nth_step(end + 3, role_groups) == ReconcileStep::DeleteOrphans);
}

/// What to do after an error: an invalid object is looked at again when it was changed, everything
/// else after ten seconds.
pub fn error_policy(error: &Error) -> (action: Action)
    ensures
        action == (if error is InvalidOpaCluster {
            Action::AwaitChange
        } else {
            Action::Requeue(10)
        }),
{
    match error {
        Error::InvalidOpaCluster(_) => Action::AwaitChange,
        _ => Action::Requeue(10),
    }
}

/// Before any role group comes up, the cluster resources are created, the product configuration is
/// transformed and validated, the role Service is applied, and then what the Pods run under.
pub proof fn lemma_first_steps(role_groups: nat)
    ensures
        nth_step(0, role_groups) == ReconcileStep::CreateClusterResources,
        nth_step(1, role_groups) == ReconcileStep::TransformProductConfig,
        nth_step(2, role_groups) == ReconcileStep::ValidateProductConfig,
        nth_step(3, role_groups) == ReconcileStep::BuildRoleService,
        nth_step(4, role_groups) == ReconcileStep::ApplyRoleService,
        nth_step(5, role_groups) == ReconcileStep::CollectRequiredLabels,
        nth_step(6, role_groups) == ReconcileStep::BuildRbacResources,
        nth_step(7, role_groups) == ReconcileStep::ApplyServiceAccount,
        nth_step(8, role_groups) == ReconcileStep::ApplyRoleBinding,
        role_groups == 0 ==> nth_step(9, role_groups) == ReconcileStep::BuildDiscovery,
        role_groups > 0 ==> nth_step(9, role_groups) == ReconcileStep::BuildRoleGroup(0),
{
    reveal_with_fuel(nth_step, 10);
}

/// A step that fails is reported as what it was about, with the reason. Where that was an object of a
/// role group, the role group is named.
pub proof fn lemma_step_errors(rolegroup: RoleGroupRefView, source: Seq<char>, i: usize)
    ensures
        ({
            let failure = RoleGroupFailureView { rolegroup, source };
            &&& step_error(ReconcileStep::CreateClusterResources, rolegroup, source)
                == ErrorView::FailedToCreateClusterResources(source)
            &&& step_error(ReconcileStep::TransformProductConfig, rolegroup, source)
                == ErrorView::ProductConfigTransform(source)
            &&& step_error(ReconcileStep::ValidateProductConfig, rolegroup, source)
                == ErrorView::InvalidProductConfig(source)
            &&& step_error(ReconcileStep::ApplyRoleService, rolegroup, source)
                == ErrorView::ApplyRoleService(source)
            &&& step_error(ReconcileStep::CollectRequiredLabels, rolegroup, source)
                == ErrorView::BuildLabel(source)
            &&& step_error(ReconcileStep::BuildRbacResources, rolegroup, source)
                == ErrorView::BuildRbacResources(source)
            &&& step_error(ReconcileStep::ApplyServiceAccount, rolegroup, source)
                == ErrorView::ApplyServiceAccount(source)
            &&& step_error(ReconcileStep::ApplyRoleBinding, rolegroup, source)
                == ErrorView::ApplyRoleBinding(source)
            &&& step_error(ReconcileStep::ApplyConfigMap(i), rolegroup, source)
                == ErrorView::ApplyRoleGroupConfig(failure)
            &&& step_error(ReconcileStep::ApplyService(i), rolegroup, source)
                == ErrorView::ApplyRoleGroupService(failure)
            &&& step_error(ReconcileStep::ApplyDaemonSet(i), rolegroup, source)
                == ErrorView::ApplyRoleGroupDaemonSet(failure)
            &&& step_error(ReconcileStep::PatchDaemonSet(i), rolegroup, source)
                == ErrorView::ApplyPatchRoleGroupDaemonSet(failure)
            &&& step_error(ReconcileStep::ApplyDiscovery, rolegroup, source)
                == ErrorView::ApplyDiscoveryConfig(source)
            &&& step_error(ReconcileStep::UpdateStatus, rolegroup, source)
                == ErrorView::ApplyStatus(source)
            &&& step_error(ReconcileStep::DeleteOrphans, rolegroup, source)
                == ErrorView::DeleteOrphans(source)
        }),
{
}

} // verus!
