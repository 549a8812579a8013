//! The PodDisruptionBudget that limits how many Pods of a role a voluntary disruption may take down
//! at once.
use crate::kubernetes::meta::{LabelSelector, LabelSelectorView};
use crate::kubernetes::pod::{IntOrString, IntOrStringView};
use crate::kubernetes::resources::{
    PodDisruptionBudget, PodDisruptionBudgetSpec, PodDisruptionBudgetSpecView,
    PodDisruptionBudgetView,
};
use crate::labels::{
    managed_by, manager, put, role_selector, role_selector_labels, APP_MANAGED_BY_LABEL, APP_NAME,
    OPA_CONTROLLER_NAME, OPERATOR_NAME,
};
use crate::names::{name_of_role, role_name};
use crate::v1alpha2::cluster::{owned_object_meta, ValidatedCluster, ValidatedClusterView};
use crate::v1alpha2::crd::{pdb_enabled, OpaRole, OpaRoleConfig, OpaRoleConfigView};
use vstd::prelude::*;

verus! {

/// How many Pods may be unavailable where nothing is configured.
pub const DEFAULT_MAX_UNAVAILABLE: u16 = 1;

/// How many Pods may be unavailable.
pub open spec fn max_unavailable(config: OpaRoleConfigView) -> u16 {
    match config.pod_disruption_budget.max_unavailable {
        Some(max_unavailable) => max_unavailable,
        None => DEFAULT_MAX_UNAVAILABLE,
    }
}

/// The role-level PodDisruptionBudget, or nothing when the role has it disabled.
///
/// There is one per role, which selects the Pods of all its role groups.
pub open spec fn role_pod_disruption_budget(
    cluster: ValidatedClusterView,
    role: OpaRole,
    config: OpaRoleConfigView,
) -> Option<PodDisruptionBudgetView> {
    let selector = role_selector_labels(APP_NAME@, cluster.name, role.spec_name());
    if pdb_enabled(config) {
        Some(
            PodDisruptionBudgetView {
                metadata: owned_object_meta(
                    cluster,
                    role_name(cluster.name, role.spec_name()),
                    selector.insert(
                        APP_MANAGED_BY_LABEL@,
                        managed_by(OPERATOR_NAME@, OPA_CONTROLLER_NAME@),
                    ),
                ),
                spec: Some(
                    PodDisruptionBudgetSpecView {
                        max_unavailable: Some(
                            IntOrStringView::Int(max_unavailable(config) as i32),
                        ),
                        selector: Some(
                            LabelSelectorView {
                                match_labels: Some(selector),
                                match_expressions: None,
                            },
                        ),
                    },
                ),
            },
        )
    } else {
        None
    }
}

/// Builds the role-level PodDisruptionBudget, or nothing when the role has it disabled.
pub fn build_role_pod_disruption_budget(
    cluster: &ValidatedCluster,
    opa_role: &OpaRole,
    role_config: &OpaRoleConfig,
) -> (budget: Option<PodDisruptionBudget>)
    ensures
        budget.deep_view() == role_pod_disruption_budget(
            cluster.deep_view(),
            *opa_role,
            role_config.deep_view(),
        ),
{
    if !role_config.pod_disruption_budget_enabled() {
        return None;
    }
    let max_unavailable: u16 = match role_config.pod_disruption_budget.max_unavailable {
        Some(max_unavailable) => max_unavailable,
        None => DEFAULT_MAX_UNAVAILABLE,
    };
    let role = opa_role.name();
    let mut labels = role_selector(APP_NAME, cluster.name.as_str(), role.as_str());
    put(
        &mut labels,
        APP_MANAGED_BY_LABEL,
        manager(OPERATOR_NAME, OPA_CONTROLLER_NAME).as_str(),
    );
    Some(
        PodDisruptionBudget {
            metadata: cluster.object_meta(
                name_of_role(cluster.name.as_str(), role.as_str()),
                labels,
            ),
            spec: Some(
                PodDisruptionBudgetSpec {
                    max_unavailable: Some(IntOrString::Int(max_unavailable as i32)),
                    selector: Some(
                        LabelSelector {
                            match_labels: Some(
                                role_selector(APP_NAME, cluster.name.as_str(), role.as_str()),
                            ),
                            match_expressions: None,
                        },
                    ),
                },
            ),
        },
    )
}

} // verus!
