//! The default affinity of an OPA role.
use crate::kubernetes::meta::{LabelSelector, LabelSelectorView};
use crate::kubernetes::pod::{
    PodAffinityTerm, PodAffinityTermView, PodAntiAffinity, PodAntiAffinityView, StackableAffinity,
    StackableAffinityView, WeightedPodAffinityTerm, WeightedPodAffinityTermView,
};
use crate::labels::{role_selector, role_selector_labels, APP_NAME};
use crate::v1alpha2::crd::OpaRole;
use crate::value::one_item;
use vstd::prelude::*;

verus! {

/// Weight of the anti-affinity that spreads the Pods of a role across nodes.
pub const ANTI_AFFINITY_BETWEEN_ROLE_PODS_WEIGHT: i32 = 70;

/// The topology that tells nodes apart.
pub const HOSTNAME_TOPOLOGY: &'static str = "kubernetes.io/hostname";

/// The default affinity of a role: prefer to spread its Pods across nodes.
pub open spec fn affinity(cluster_name: Seq<char>, role: OpaRole) -> StackableAffinityView {
    StackableAffinityView {
        pod_affinity: None,
        pod_anti_affinity: Some(
            PodAntiAffinityView {
                preferred_during_scheduling_ignored_during_execution: Some(
                    seq![
                        WeightedPodAffinityTermView {
                            weight: ANTI_AFFINITY_BETWEEN_ROLE_PODS_WEIGHT,
                            pod_affinity_term: PodAffinityTermView {
                                label_selector: Some(
                                    LabelSelectorView {
                                        match_labels: Some(
                                            role_selector_labels(
                                                APP_NAME@,
                                                cluster_name,
                                                role.spec_name(),
                                            ),
                                        ),
                                        match_expressions: None,
                                    },
                                ),
                                topology_key: HOSTNAME_TOPOLOGY@,
                                further_fields: None,
                            },
                        },
                    ],
                ),
                required_during_scheduling_ignored_during_execution: None,
            },
        ),
        node_affinity: None,
        node_selector: None,
    }
}

/// Builds the default affinity of `role`.
///
/// It is a preference only, so it can never leave a Pod unschedulable, and it makes no difference
/// to a DaemonSet, which already places exactly one Pod per node.
pub fn get_affinity(cluster_name: &str, role: &OpaRole) -> (result: StackableAffinity)
    ensures
        result.deep_view() == affinity(cluster_name@, *role),
{
    StackableAffinity {
        pod_affinity: None,
        pod_anti_affinity: Some(
            PodAntiAffinity {
                preferred_during_scheduling_ignored_during_execution: Some(
                    one_item(
                        WeightedPodAffinityTerm {
                            weight: ANTI_AFFINITY_BETWEEN_ROLE_PODS_WEIGHT,
                            pod_affinity_term: PodAffinityTerm {
                                label_selector: Some(
                                    LabelSelector {
                                        match_labels: Some(
                                            role_selector(
                                                APP_NAME,
                                                cluster_name,
                                                role.name().as_str(),
                                            ),
                                        ),
                                        match_expressions: None,
                                    },
                                ),
                                topology_key: HOSTNAME_TOPOLOGY.to_owned(),
                                further_fields: None,
                            },
                        },
                    ),
                ),
                required_during_scheduling_ignored_during_execution: None,
            },
        ),
        node_affinity: None,
        node_selector: None,
    }
}

} // verus!
