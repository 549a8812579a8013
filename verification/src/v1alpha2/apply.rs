//! The order in which the resources of a cluster are applied.
use crate::v1alpha2::assemble::{KubernetesResources, KubernetesResourcesView, Prepared};
use crate::value::Value;
use vstd::prelude::*;

verus! {

/// Why the legacy field manager scope of a DaemonSet could not be removed.
#[derive(Clone, Debug, PartialEq, Eq)]
pub struct PatchFailure {
    pub source: String,
    pub name: String,
}

/// The contents of a [`PatchFailure`].
#[verifier::ext_equal]
pub struct PatchFailureView {
    pub source: Seq<char>,
    pub name: Seq<char>,
}

impl DeepView for PatchFailure {
    type V = PatchFailureView;

    open spec fn deep_view(&self) -> PatchFailureView {
        PatchFailureView {
            source: self.source.deep_view(),
            name: self.name.deep_view(),
        }
    }
}

impl Value for PatchFailure {
    fn duplicate(&self) -> (copy: Self) {
        PatchFailure {
            source: self.source.duplicate(),
            name: self.name.duplicate(),
        }
    }

    fn same_as(&self, other: &Self) -> (same: bool) {
        self.source.same_as(&other.source) && self.name.same_as(&other.name)
    }
}

/// Why the resources of a cluster could not be applied.
#[derive(Clone, Debug, PartialEq, Eq)]
pub enum Error {
    /// A resource could not be applied.
    ApplyResource(String),
    /// The legacy field manager patch of a DaemonSet could not be applied.
    ApplyPatchDaemonSet(PatchFailure),
    /// Orphaned resources could not be deleted.
    DeleteOrphanedResources(String),
}

/// The contents of an [`Error`].
#[verifier::ext_equal]
pub enum ErrorView {
    ApplyResource(Seq<char>),
    ApplyPatchDaemonSet(PatchFailureView),
    DeleteOrphanedResources(Seq<char>),
}

impl DeepView for Error {
    type V = ErrorView;

    open spec fn deep_view(&self) -> ErrorView {
        match self {
            Error::ApplyResource(inner) => ErrorView::ApplyResource(inner.deep_view()),
            Error::ApplyPatchDaemonSet(inner) => ErrorView::ApplyPatchDaemonSet(inner.deep_view()),
            Error::DeleteOrphanedResources(inner) => {
                ErrorView::DeleteOrphanedResources(inner.deep_view())
            },
        }
    }
}

impl Value for Error {
    fn duplicate(&self) -> (copy: Self) {
        match self {
            Error::ApplyResource(inner) => Error::ApplyResource(inner.duplicate()),
            Error::ApplyPatchDaemonSet(inner) => Error::ApplyPatchDaemonSet(inner.duplicate()),
            Error::DeleteOrphanedResources(inner) => {
                Error::DeleteOrphanedResources(inner.duplicate())
            },
        }
    }

    fn same_as(&self, other: &Self) -> (same: bool) {
        match (self, other) {
            (Error::ApplyResource(left), Error::ApplyResource(right)) => left.same_as(right),
            (Error::ApplyPatchDaemonSet(left), Error::ApplyPatchDaemonSet(right)) => {
                left.same_as(right)
            },
            (Error::DeleteOrphanedResources(left), Error::DeleteOrphanedResources(right)) => {
                left.same_as(right)
            },
            _ => false,
        }
    }
}

/// A kind of Kubernetes resource.
#[derive(Clone, Copy, Debug, PartialEq, Eq, Structural)]
pub enum ResourceKind {
    ServiceAccount,
    RoleBinding,
    Service,
    ConfigMap,
    PodDisruptionBudget,
    DaemonSet,
    Deployment,
}

impl DeepView for ResourceKind {
    type V = ResourceKind;

    open spec fn deep_view(&self) -> ResourceKind {
        *self
    }
}

impl Value for ResourceKind {
    fn duplicate(&self) -> (copy: Self) {
        *self
    }

    fn same_as(&self, other: &Self) -> (same: bool) {
        *self == *other
    }
}

/// The field manager scope that DaemonSets were written under by previous versions, which gave the
/// bundle-builder container another name.
///
/// What was written under it stays valid until it is given up, so an empty patch has to be posted
/// under that scope to get rid of the old container.
pub const LEGACY_FIELD_MANAGER_SCOPE: &'static str = "opacluster";

/// A step in which the resources of a cluster are applied.
#[derive(Clone, Copy, Debug, PartialEq, Eq, Structural)]
pub enum ApplyStep {
    /// Apply the resource of that kind with that index.
    Apply(ResourceKind, usize),
    /// Relinquish the fields of the DaemonSet with that index that are still owned under the
    /// [`LEGACY_FIELD_MANAGER_SCOPE`].
    RemoveLegacyFieldManagerScope(usize),
    /// Delete the resources that no longer belong to the cluster.
    DeleteOrphanedResources,
}

/// The resources of that kind.
pub open spec fn count(resources: KubernetesResourcesView, kind: ResourceKind) -> nat {
    match kind {
        ResourceKind::ServiceAccount => resources.service_accounts.len(),
        ResourceKind::RoleBinding => resources.role_bindings.len(),
        ResourceKind::Service => resources.services.len(),
        ResourceKind::ConfigMap => resources.config_maps.len(),
        ResourceKind::PodDisruptionBudget => resources.pod_disruption_budgets.len(),
        ResourceKind::DaemonSet => resources.daemon_sets.len(),
        ResourceKind::Deployment => resources.deployments.len(),
    }
}

/// The steps that apply all resources of a kind.
pub open spec fn steps_of_kind(resources: KubernetesResourcesView, kind: ResourceKind) -> Seq<
    ApplyStep,
> {
    Seq::new(count(resources, kind), |i: int| ApplyStep::Apply(kind, i as usize))
}

/// The steps that relinquish what DaemonSets still own under the legacy scope.
pub open spec fn legacy_steps(resources: KubernetesResourcesView) -> Seq<ApplyStep> {
    Seq::new(
        resources.daemon_sets.len(),
        |i: int| ApplyStep::RemoveLegacyFieldManagerScope(i as usize),
    )
}

/// The steps in which the resources of a cluster are applied, in their order.
///
/// The workloads come last, because a changed ConfigMap that they mount must exist first, or else
/// the Pods restart a second time. The ServiceAccount comes first, because the Pods reference it at
/// creation time.
pub open spec fn plan_of(resources: KubernetesResourcesView) -> Seq<ApplyStep> {
    steps_of_kind(resources, ResourceKind::ServiceAccount) + steps_of_kind(
        resources,
        ResourceKind::RoleBinding,
    ) + steps_of_kind(resources, ResourceKind::Service) + steps_of_kind(
        resources,
        ResourceKind::ConfigMap,
    ) + steps_of_kind(resources, ResourceKind::PodDisruptionBudget) + steps_of_kind(
        resources,
        ResourceKind::DaemonSet,
    ) + steps_of_kind(resources, ResourceKind::Deployment) + legacy_steps(resources) + seq![
        ApplyStep::DeleteOrphanedResources,
    ]
}

fn add_steps(plan: &mut Vec<ApplyStep>, kind: ResourceKind, number: usize)
    ensures
        final(plan)@ == old(plan)@ + Seq::new(
            number as nat,
            |i: int| ApplyStep::Apply(kind, i as usize),
        ),
{
    let ghost before = plan@;
    let mut i: usize = 0;
    assert(before =~= before + Seq::new(0, |i: int| ApplyStep::Apply(kind, i as usize)));
    while i < number
        invariant
            i <= number,
            plan@ == before + Seq::new(i as nat, |i: int| ApplyStep::Apply(kind, i as usize)),
        decreases number - i,
    {
        plan.push(ApplyStep::Apply(kind, i));
        i += 1;
        assert(plan@ =~= before + Seq::new(i as nat, |i: int| ApplyStep::Apply(kind, i as usize)));
    }
}

/// Plans how the given resources are applied.
pub fn apply_plan(resources: &KubernetesResources<Prepared>) -> (plan: Vec<ApplyStep>)
    ensures
        plan@ == plan_of(resources.deep_view()),
{
    let mut plan: Vec<ApplyStep> = Vec::new();
    add_steps(&mut plan, ResourceKind::ServiceAccount, resources.service_accounts.len());
    add_steps(&mut plan, ResourceKind::RoleBinding, resources.role_bindings.len());
    add_steps(&mut plan, ResourceKind::Service, resources.services.len());
    add_steps(&mut plan, ResourceKind::ConfigMap, resources.config_maps.len());
    add_steps(
        &mut plan,
        ResourceKind::PodDisruptionBudget,
        resources.pod_disruption_budgets.len(),
    );
    add_steps(&mut plan, ResourceKind::DaemonSet, resources.daemon_sets.len());
    add_steps(&mut plan, ResourceKind::Deployment, resources.deployments.len());
    let ghost before = plan@;
    let daemon_sets: usize = resources.daemon_sets.len();
    let mut i: usize = 0;
    assert(before =~= before + Seq::new(
        0,
        |i: int| ApplyStep::RemoveLegacyFieldManagerScope(i as usize),
    ));
    while i < daemon_sets
        invariant
            i <= daemon_sets,
            plan@ == before + Seq::new(
                i as nat,
                |i: int| ApplyStep::RemoveLegacyFieldManagerScope(i as usize),
            ),
        decreases daemon_sets - i,
    {
        plan.push(ApplyStep::RemoveLegacyFieldManagerScope(i));
        i += 1;
        assert(plan@ =~= before + Seq::new(
            i as nat,
            |i: int| ApplyStep::RemoveLegacyFieldManagerScope(i as usize),
        ));
    }
    plan.push(ApplyStep::DeleteOrphanedResources);
    assert(plan@ =~= plan_of(resources.deep_view()));
    plan
}

/// The error that a failed step is reported as. `daemon_set` is the name of the DaemonSet that the
/// step is about, where it is about one.
pub open spec fn failed_step(step: ApplyStep, daemon_set: Seq<char>, source: Seq<char>) -> ErrorView {
    match step {
        ApplyStep::Apply(_, _) => ErrorView::ApplyResource(source),
        ApplyStep::RemoveLegacyFieldManagerScope(_) => ErrorView::ApplyPatchDaemonSet(
            PatchFailureView { source, name: daemon_set },
        ),
        ApplyStep::DeleteOrphanedResources => ErrorView::DeleteOrphanedResources(source),
    }
}

/// Reports a failed step.
pub fn error_of_step(step: ApplyStep, daemon_set: &str, source: String) -> (error: Error)
    ensures
        error.deep_view() == failed_step(step, daemon_set@, source@),
{
    match step {
        ApplyStep::Apply(_, _) => Error::ApplyResource(source),
        ApplyStep::RemoveLegacyFieldManagerScope(_) => Error::ApplyPatchDaemonSet(
            PatchFailure { source, name: daemon_set.to_owned() },
        ),
        ApplyStep::DeleteOrphanedResources => Error::DeleteOrphanedResources(source),
    }
}

/// The place of a step in the order of application.
pub open spec fn rank(step: ApplyStep) -> nat {
    match step {
        ApplyStep::Apply(ResourceKind::ServiceAccount, _) => 0,
        ApplyStep::Apply(ResourceKind::RoleBinding, _) => 1,
        ApplyStep::Apply(ResourceKind::Service, _) => 2,
        ApplyStep::Apply(ResourceKind::ConfigMap, _) => 3,
        ApplyStep::Apply(ResourceKind::PodDisruptionBudget, _) => 4,
        ApplyStep::Apply(ResourceKind::DaemonSet, _) => 5,
        ApplyStep::Apply(ResourceKind::Deployment, _) => 6,
        ApplyStep::RemoveLegacyFieldManagerScope(_) => 7,
        ApplyStep::DeleteOrphanedResources => 8,
    }
}

spec fn rank_size(resources: KubernetesResourcesView, rank: nat) -> nat {
    if rank == 0 {
        resources.service_accounts.len()
    } else if rank == 1 {
        resources.role_bindings.len()
    } else if rank == 2 {
        resources.services.len()
    } else if rank == 3 {
        resources.config_maps.len()
    } else if rank == 4 {
        resources.pod_disruption_budgets.len()
    } else if rank == 5 || rank == 7 {
        resources.daemon_sets.len()
    } else if rank == 6 {
        resources.deployments.len()
    } else {
        1
    }
}

spec fn step_at(rank: nat, i: int) -> ApplyStep {
    if rank == 0 {
        ApplyStep::Apply(ResourceKind::ServiceAccount, i as usize)
    } else if rank == 1 {
        ApplyStep::Apply(ResourceKind::RoleBinding, i as usize)
    } else if rank == 2 {
        ApplyStep::Apply(ResourceKind::Service, i as usize)
    } else if rank == 3 {
        ApplyStep::Apply(ResourceKind::ConfigMap, i as usize)
    } else if rank == 4 {
        ApplyStep::Apply(ResourceKind::PodDisruptionBudget, i as usize)
    } else if rank == 5 {
        ApplyStep::Apply(ResourceKind::DaemonSet, i as usize)
    } else if rank == 6 {
        ApplyStep::Apply(ResourceKind::Deployment, i as usize)
    } else if rank == 7 {
        ApplyStep::RemoveLegacyFieldManagerScope(i as usize)
    } else {
        ApplyStep::DeleteOrphanedResources
    }
}

spec fn rank_steps(resources: KubernetesResourcesView, rank: nat) -> Seq<ApplyStep> {
    Seq::new(rank_size(resources, rank), |i: int| step_at(rank, i))
}

/// The steps of all lower ranks.
spec fn steps_below(resources: KubernetesResourcesView, rank: nat) -> Seq<ApplyStep>
    decreases rank,
{
    if rank == 0 {
        Seq::empty()
    } else {
        steps_below(resources, (rank - 1) as nat) + rank_steps(resources, (rank - 1) as nat)
    }
}

proof fn lemma_plan_by_rank(resources: KubernetesResourcesView)
    ensures
        plan_of(resources) == steps_below(resources, 9),
{
    reveal_with_fuel(steps_below, 10);
    assert(rank_steps(resources, 0) =~= steps_of_kind(resources, ResourceKind::ServiceAccount));
    assert(rank_steps(resources, 1) =~= steps_of_kind(resources, ResourceKind::RoleBinding));
    assert(rank_steps(resources, 2) =~= steps_of_kind(resources, ResourceKind::Service));
    assert(rank_steps(resources, 3) =~= steps_of_kind(resources, ResourceKind::ConfigMap));
    assert(rank_steps(resources, 4) =~= steps_of_kind(
        resources,
        ResourceKind::PodDisruptionBudget,
    ));
    assert(rank_steps(resources, 5) =~= steps_of_kind(resources, ResourceKind::DaemonSet));
    assert(rank_steps(resources, 6) =~= steps_of_kind(resources, ResourceKind::Deployment));
    assert(rank_steps(resources, 7) =~= legacy_steps(resources));
    assert(rank_steps(resources, 8) =~= seq![ApplyStep::DeleteOrphanedResources]);
    let accounts = steps_of_kind(resources, ResourceKind::ServiceAccount);
    assert(Seq::<ApplyStep>::empty() + accounts =~= accounts);
}

proof fn lemma_steps_below_are_ordered(resources: KubernetesResourcesView, top: nat)
    requires
        top <= 9,
    ensures
        forall|a: int|
            0 <= a < steps_below(resources, top).len() ==> rank(
                #[trigger] steps_below(resources, top)[a],
            ) < top,
        forall|a: int, b: int|
            0 <= a <= b < steps_below(resources, top).len() ==> rank(
                #[trigger] steps_below(resources, top)[a],
            ) <= rank(#[trigger] steps_below(resources, top)[b]),
    decreases top,
{
    if top > 0 {
        let r = (top - 1) as nat;
        let before = steps_below(resources, r);
        let steps = steps_below(resources, top);
        lemma_steps_below_are_ordered(resources, r);
        assert forall|a: int| 0 <= a < steps.len() implies rank(#[trigger] steps[a]) < top && (a
            < before.len() ==> steps[a] == before[a]) && (a >= before.len() ==> rank(steps[a])
            == r) by {
            if a < before.len() {
                assert(steps[a] == before[a]);
            } else {
                assert(steps[a] == step_at(r, a - before.len()));
            }
        }
    }
}

/// The plan keeps to the order: ServiceAccounts and RoleBindings, then Services, ConfigMaps and
/// PodDisruptionBudgets, then the workloads. Only after all workloads are applied is the legacy scope
/// of the DaemonSets given up, and the deletion of orphaned resources is the very last step.
pub proof fn lemma_plan_is_ordered(resources: KubernetesResourcesView)
    ensures
        forall|a: int, b: int|
            0 <= a <= b < plan_of(resources).len() ==> rank(#[trigger] plan_of(resources)[a]) <= rank(
                #[trigger] plan_of(resources)[b],
            ),
        plan_of(resources).last() == ApplyStep::DeleteOrphanedResources,
{
    lemma_plan_by_rank(resources);
    lemma_steps_below_are_ordered(resources, 9);
}

proof fn lemma_steps_below_are_complete(resources: KubernetesResourcesView, top: nat, step: ApplyStep)
    requires
        top <= 9,
        forall|k: ResourceKind| #[trigger] count(resources, k) <= usize::MAX,
    ensures
        steps_below(resources, top).contains(step) <==> rank(step) < top && exists|i: int|
            0 <= i < rank_size(resources, rank(step)) && step == #[trigger] step_at(rank(step), i),
        steps_below(resources, top).no_duplicates(),
    decreases top,
{
    let steps = steps_below(resources, top);
    if top > 0 {
        let r = (top - 1) as nat;
        let before = steps_below(resources, r);
        lemma_steps_below_are_complete(resources, r, step);
        lemma_steps_below_are_ordered(resources, r);
        assert(count(resources, ResourceKind::ServiceAccount) <= usize::MAX);
        assert(count(resources, ResourceKind::RoleBinding) <= usize::MAX);
        assert(count(resources, ResourceKind::Service) <= usize::MAX);
        assert(count(resources, ResourceKind::ConfigMap) <= usize::MAX);
        assert(count(resources, ResourceKind::PodDisruptionBudget) <= usize::MAX);
        assert(count(resources, ResourceKind::DaemonSet) <= usize::MAX);
        assert(count(resources, ResourceKind::Deployment) <= usize::MAX);
        assert forall|a: int, b: int|
            0 <= a < steps.len() && 0 <= b < steps.len() && a != b implies steps[a] != steps[b] by {
            if a >= before.len() && b >= before.len() {
                assert(steps[a] == step_at(r, a - before.len()));
                assert(steps[b] == step_at(r, b - before.len()));
            } else if a < before.len() && b >= before.len() {
                assert(steps[a] == before[a]);
                assert(steps[b] == step_at(r, b - before.len()));
            } else if b < before.len() && a >= before.len() {
                assert(steps[b] == before[b]);
                assert(steps[a] == step_at(r, a - before.len()));
            } else {
                assert(steps[a] == before[a]);
                assert(steps[b] == before[b]);
            }
        }
        if steps.contains(step) {
            let p = choose|p: int| 0 <= p < steps.len() && steps[p] == step;
            if p < before.len() {
                assert(before[p] == step);
            } else {
                assert(step == step_at(r, p - before.len()));
            }
        }
        if rank(step) < top && exists|i: int|
            0 <= i < rank_size(resources, rank(step)) && step == #[trigger] step_at(rank(step), i) {
            let i = choose|i: int|
                0 <= i < rank_size(resources, rank(step)) && step == #[trigger] step_at(
                    rank(step),
                    i,
                );
            if rank(step) == r {
                assert(steps[before.len() + i] == step);
            } else {
                let p = choose|p: int| 0 <= p < before.len() && before[p] == step;
                assert(steps[p] == step);
            }
        }
    }
}

/// The plan applies every resource, and nothing but the resources, exactly once. It gives up the
/// legacy scope of every DaemonSet exactly once.
///
/// No more than `usize::MAX` resources of a kind can be held.
pub proof fn lemma_plan_is_complete(resources: KubernetesResourcesView, kind: ResourceKind, i: usize)
    requires
        forall|k: ResourceKind| #[trigger] count(resources, k) <= usize::MAX,
    ensures
        plan_of(resources).contains(ApplyStep::Apply(kind, i)) <==> i < count(resources, kind),
        plan_of(resources).contains(ApplyStep::RemoveLegacyFieldManagerScope(i)) <==> i
            < resources.daemon_sets.len(),
        plan_of(resources).no_duplicates(),
{
    let applied = ApplyStep::Apply(kind, i);
    let patched = ApplyStep::RemoveLegacyFieldManagerScope(i);
    lemma_plan_by_rank(resources);
    lemma_steps_below_are_complete(resources, 9, applied);
    lemma_steps_below_are_complete(resources, 9, patched);
    assert(count(resources, kind) <= usize::MAX);
    assert(count(resources, ResourceKind::DaemonSet) <= usize::MAX);
    assert(step_at(rank(applied), i as int) == applied);
    assert(step_at(rank(patched), i as int) == patched);
}

/// A step that fails is reported as what it was: an object that could not be applied, a DaemonSet that
/// could not be patched, which is named, or orphans that could not be deleted.
pub proof fn lemma_failed_steps(
    kind: ResourceKind,
    i: usize,
    daemon_set: Seq<char>,
    source: Seq<char>,
)
    ensures
        failed_step(ApplyStep::Apply(kind, i), daemon_set, source) == ErrorView::ApplyResource(
            source,
        ),
        failed_step(ApplyStep::RemoveLegacyFieldManagerScope(i), daemon_set, source)
            == ErrorView::ApplyPatchDaemonSet(PatchFailureView { source, name: daemon_set }),
        failed_step(ApplyStep::DeleteOrphanedResources, daemon_set, source)
            == ErrorView::DeleteOrphanedResources(source),
{
}

/// Accounts come before the workloads that run under them, Services and ConfigMaps before the workloads
/// that need them, and what is no longer needed is deleted after everything else.
pub proof fn lemma_workloads_come_last(resources: KubernetesResourcesView, a: int, b: int)
    requires
        0 <= a < plan_of(resources).len(),
        0 <= b < plan_of(resources).len(),
        plan_of(resources)[b] is Apply,
        plan_of(resources)[b]->Apply_0 == ResourceKind::DaemonSet || plan_of(resources)[b]->Apply_0
            == ResourceKind::Deployment,
        plan_of(resources)[a] is Apply,
        plan_of(resources)[a]->Apply_0 != ResourceKind::DaemonSet && plan_of(resources)[a]->Apply_0
            != ResourceKind::Deployment,
    ensures
        a < b,
{
    lemma_plan_is_ordered(resources);
    if b <= a {
        assert(rank(plan_of(resources)[b]) <= rank(plan_of(resources)[a]));
    }
}

} // verus!
