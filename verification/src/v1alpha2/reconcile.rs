//! The steps of a reconciliation: validate, build, apply and update the status.
use crate::action::Action;
use crate::labels::{APP_NAME, OPA_CONTROLLER_NAME};
use crate::text_map::listing;
use crate::v1alpha2::apply;
use crate::v1alpha2::apply::{apply_plan, error_of_step, failed_step, plan_of, ApplyStep};
use crate::v1alpha2::assemble;
use crate::v1alpha2::assemble::{
    build, cluster_resources, KubernetesResources, Prepared, RoleGroupParts,
};
use crate::v1alpha2::cluster::ValidatedCluster;
use crate::v1alpha2::validate;
use crate::v1alpha2::validate::{cluster_validated, validate, ClusterInput};
use crate::v1alpha2::workload::PodInputs;
use crate::value::Value;
use vstd::prelude::*;

verus! {

/// The name of the product.
pub const PRODUCT_NAME: &'static str = APP_NAME;

/// The name of the controller.
pub const CONTROLLER_NAME: &'static str = OPA_CONTROLLER_NAME;

/// The full name of the controller.
pub const OPA_FULL_CONTROLLER_NAME: &'static str = "opacluster.opa.stackable.tech";

/// The base name of the product image.
pub const CONTAINER_IMAGE_BASE_NAME: &'static str = "opa";

/// Why a reconciliation failed.
#[derive(Clone, Debug, PartialEq, Eq)]
pub enum Error {
    /// The OpaCluster object is invalid.
    InvalidOpaCluster(String),
    /// The cluster could not be validated.
    ValidateCluster(validate::Error),
    /// The Kubernetes resources could not be built.
    BuildResources(assemble::Error),
    /// The Kubernetes resources could not be applied.
    ApplyResources(apply::Error),
    /// The cluster status could not be updated.
    UpdateStatus(String),
}

/// The contents of an [`Error`].
#[verifier::ext_equal]
pub enum ErrorView {
    InvalidOpaCluster(Seq<char>),
    ValidateCluster(validate::ErrorView),
    BuildResources(assemble::ErrorView),
    ApplyResources(apply::ErrorView),
    UpdateStatus(Seq<char>),
}

impl DeepView for Error {
    type V = ErrorView;

    open spec fn deep_view(&self) -> ErrorView {
        match self {
            Error::InvalidOpaCluster(inner) => ErrorView::InvalidOpaCluster(inner.deep_view()),
            Error::ValidateCluster(inner) => ErrorView::ValidateCluster(inner.deep_view()),
            Error::BuildResources(inner) => ErrorView::BuildResources(inner.deep_view()),
            Error::ApplyResources(inner) => ErrorView::ApplyResources(inner.deep_view()),
            Error::UpdateStatus(inner) => ErrorView::UpdateStatus(inner.deep_view()),
        }
    }
}

impl Value for Error {
    fn duplicate(&self) -> (copy: Self) {
        match self {
            Error::InvalidOpaCluster(inner) => Error::InvalidOpaCluster(inner.duplicate()),
            Error::ValidateCluster(inner) => Error::ValidateCluster(inner.duplicate()),
            Error::BuildResources(inner) => Error::BuildResources(inner.duplicate()),
            Error::ApplyResources(inner) => Error::ApplyResources(inner.duplicate()),
            Error::UpdateStatus(inner) => Error::UpdateStatus(inner.duplicate()),
        }
    }

    fn same_as(&self, other: &Self) -> (same: bool) {
        match (self, other) {
            (Error::InvalidOpaCluster(left), Error::InvalidOpaCluster(right)) => {
                left.same_as(right)
            },
            (Error::ValidateCluster(left), Error::ValidateCluster(right)) => left.same_as(right),
            (Error::BuildResources(left), Error::BuildResources(right)) => left.same_as(right),
            (Error::ApplyResources(left), Error::ApplyResources(right)) => left.same_as(right),
            (Error::UpdateStatus(left), Error::UpdateStatus(right)) => left.same_as(right),
            _ => false,
        }
    }
}

impl Error {
    /// The name of the kind of error.
    pub open spec fn spec_category(self) -> Seq<char> {
        match self {
            Error::InvalidOpaCluster(_) => "InvalidOpaCluster"@,
            Error::ValidateCluster(_) => "ValidateCluster"@,
            Error::BuildResources(_) => "BuildResources"@,
            Error::ApplyResources(_) => "ApplyResources"@,
            Error::UpdateStatus(_) => "UpdateStatus"@,
        }
    }

    /// The name of the kind of error.
    pub fn category(&self) -> (category: &'static str)
        ensures
            category@ == self.spec_category(),
    {
        match self {
            Error::InvalidOpaCluster(_) => "InvalidOpaCluster",
            Error::ValidateCluster(_) => "ValidateCluster",
            Error::BuildResources(_) => "BuildResources",
            Error::ApplyResources(_) => "ApplyResources",
            Error::UpdateStatus(_) => "UpdateStatus",
        }
    }
}

/// How a reconciliation starts.
pub enum ReconcileStart {
    /// The cluster is being deleted, so nothing is done about it.
    Done(Action),
    /// The cluster is valid, so its resources are built next.
    Build(ValidatedCluster),
}

/// Starts a reconciliation.
///
/// A cluster that is being deleted is left alone, whether it is valid or not. An object that could
/// not be read, as its message says, is reported.
pub fn start_reconcile(deletion_requested: bool, opa: Result<&ClusterInput, String>) -> (result:
    Result<ReconcileStart, Error>)
    ensures
        if deletion_requested {
            result == Ok::<_, Error>(ReconcileStart::Done(Action::AwaitChange))
        } else {
            match opa {
                Err(message) => result matches Err(error) && error.deep_view()
                    == ErrorView::InvalidOpaCluster(message@),
                Ok(input) => match cluster_validated(input.deep_view()) {
                    Ok(expected) => result matches Ok(ReconcileStart::Build(cluster))
                        && cluster.deep_view() == expected,
                    Err(expected) => result matches Err(error) && error.deep_view()
                        == ErrorView::ValidateCluster(expected),
                },
            }
        },
{
    if deletion_requested {
        return Ok(ReconcileStart::Done(Action::AwaitChange));
    }
    match opa {
        Err(message) => Err(Error::InvalidOpaCluster(message)),
        Ok(input) => match validate(input) {
            Ok(cluster) => Ok(ReconcileStart::Build(cluster)),
            Err(error) => Err(Error::ValidateCluster(error)),
        },
    }
}

/// Builds the resources of the cluster and plans how they are applied.
pub fn prepare_resources(cluster: &ValidatedCluster, inputs: &PodInputs, parts: &Vec<RoleGroupParts>)
    -> (result: Result<(KubernetesResources<Prepared>, Vec<ApplyStep>), Error>)
    requires
        parts.len() == listing(cluster.server_role_groups@).len(),
    ensures
        match cluster_resources(cluster.deep_view(), *inputs, parts.deep_view()) {
            Ok(expected) => result matches Ok(prepared) && prepared.0.deep_view() == expected
                && prepared.1@ == plan_of(expected),
            Err(expected) => result matches Err(error) && error.deep_view()
                == ErrorView::BuildResources(expected),
        },
{
    match build(cluster, inputs, parts) {
        Ok(resources) => {
            let plan = apply_plan(&resources);
            Ok((resources, plan))
        },
        Err(error) => Err(Error::BuildResources(error)),
    }
}

/// A step of a reconciliation after the resources are built.
#[derive(Clone, Copy, Debug, PartialEq, Eq, Structural)]
pub enum ReconcileStep {
    /// Perform the step of the plan with that index.
    Apply(usize),
    /// Compute the status from the applied resources and publish it.
    UpdateStatus,
    /// Nothing is left to do in this reconciliation.
    Finished(Action),
}

/// The step after one that succeeded, for a plan of that many steps.
pub open spec fn step_after(step: ReconcileStep, plan_len: nat) -> ReconcileStep {
    match step {
        ReconcileStep::Apply(i) => if i + 1 < plan_len {
            ReconcileStep::Apply((i + 1) as usize)
        } else {
            ReconcileStep::UpdateStatus
        },
        ReconcileStep::UpdateStatus => ReconcileStep::Finished(Action::AwaitChange),
        ReconcileStep::Finished(action) => ReconcileStep::Finished(action),
    }
}

/// Continues a reconciliation after a step: with the next one, or by giving up with an error.
///
/// `outcome` is what came of the step, with a message where it failed. `daemon_set` is the name of
/// the DaemonSet that the step is about, where it is about one. The plan is never empty, as its last
/// step is to delete orphaned resources.
pub fn reconcile_opa(
    step: ReconcileStep,
    plan: &Vec<ApplyStep>,
    outcome: Result<(), String>,
    daemon_set: &str,
) -> (result: Result<ReconcileStep, Error>)
    requires
        step matches ReconcileStep::Apply(i) ==> i < plan.len(),
    ensures
        match outcome {
            Ok(_) => result == Ok::<_, Error>(step_after(step, plan@.len())),
            Err(source) => match step {
                ReconcileStep::Apply(i) => result matches Err(error) && error.deep_view()
                    == ErrorView::ApplyResources(
                    failed_step(plan[i as int], daemon_set@, source@),
                ),
                ReconcileStep::UpdateStatus => result matches Err(error) && error.deep_view()
                    == ErrorView::UpdateStatus(source@),
                ReconcileStep::Finished(_) => result == Ok::<_, Error>(step),
            },
        },
        result matches Ok(ReconcileStep::Apply(i)) ==> i < plan.len(),
{
    if let Err(source) = outcome {
        return match step {
            ReconcileStep::Apply(i) => Err(
                Error::ApplyResources(error_of_step(plan[i], daemon_set, source)),
            ),
            ReconcileStep::UpdateStatus => Err(Error::UpdateStatus(source)),
            ReconcileStep::Finished(_) => Ok(step),
        };
    }
    Ok(
        match step {
            ReconcileStep::Apply(i) => {
                if i + 1 < plan.len() {
                    ReconcileStep::Apply(i + 1)
                } else {
                    ReconcileStep::UpdateStatus
                }
            },
            ReconcileStep::UpdateStatus => ReconcileStep::Finished(Action::AwaitChange),
            ReconcileStep::Finished(action) => ReconcileStep::Finished(action),
        },
    )
}

/// The step after `n` successful ones.
pub open spec fn nth_step(n: nat, plan_len: nat) -> ReconcileStep
    decreases n,
{
    if n == 0 {
        ReconcileStep::Apply(0)
    } else {
        step_after(nth_step((n - 1) as nat, plan_len), plan_len)
    }
}

/// A reconciliation performs the plan from its first to its last step. The status is updated right
/// after that, from what was applied, and then the controller waits for a change.
pub proof fn lemma_reconciliation_performs_the_plan(plan_len: nat, i: nat)
    requires
        i < plan_len <= usize::MAX,
    ensures
        nth_step(i, plan_len) == ReconcileStep::Apply(i as usize),
        nth_step(plan_len, plan_len) == ReconcileStep::UpdateStatus,
        nth_step(plan_len + 1, plan_len) == ReconcileStep::Finished(Action::AwaitChange),
    decreases plan_len - i, i,
{
    lemma_plan_step(plan_len, i);
    lemma_plan_step(plan_len, (plan_len - 1) as nat);
}

proof fn lemma_plan_step(plan_len: nat, i: nat)
    requires
        i < plan_len <= usize::MAX,
    ensures
        nth_step(i, plan_len) == ReconcileStep::Apply(i as usize),
    decreases i,
{
    if i > 0 {
        lemma_plan_step(plan_len, (i - 1) as nat);
    }
}

/// What to do after an error: an invalid object is looked at again when it was changed, everything
/// else after ten seconds.
pub fn error_policy(error: &Error) -> (action: Action)
    ensures
        action == (if error is InvalidOpaCluster {
            Action::AwaitChange
        } else {
            Action::Requeue(10)
        }),
{
    match error {
        Error::InvalidOpaCluster(_) => Action::AwaitChange,
        _ => Action::Requeue(10),
    }
}

/// An error is counted under the name of its kind.
pub proof fn lemma_categories(error: Error)
    ensures
        error is InvalidOpaCluster ==> error.spec_category() == "InvalidOpaCluster"@,
        error is ValidateCluster ==> error.spec_category() == "ValidateCluster"@,
        error is BuildResources ==> error.spec_category() == "BuildResources"@,
        error is ApplyResources ==> error.spec_category() == "ApplyResources"@,
        error is UpdateStatus ==> error.spec_category() == "UpdateStatus"@,
{
}

} // verus!
