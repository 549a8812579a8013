//! The ServiceAccount and RoleBinding shared by all role groups.
use crate::kubernetes::resources::{
    RoleBinding, RoleBindingView, RoleRef, RoleRefView, ServiceAccount, ServiceAccountView, Subject,
    SubjectView,
};
use crate::labels::APP_NAME;
use crate::v1alpha2::cluster::{
    account_name, owned_object_meta, shared_labels, ValidatedCluster, ValidatedClusterView,
};
use crate::value::one_item;
use vstd::prelude::*;

verus! {

/// The ServiceAccount that the Pods run under.
pub open spec fn service_account(cluster: ValidatedClusterView) -> ServiceAccountView {
    ServiceAccountView {
        metadata: owned_object_meta(cluster, account_name(cluster), shared_labels(cluster)),
    }
}

/// The binding of the ServiceAccount to the ClusterRole that is deployed with the operator.
pub open spec fn role_binding(cluster: ValidatedClusterView) -> RoleBindingView {
    RoleBindingView {
        metadata: owned_object_meta(
            cluster,
            cluster.name + "-rolebinding"@,
            shared_labels(cluster),
        ),
        role_ref: RoleRefView {
            api_group: "rbac.authorization.k8s.io"@,
            kind: "ClusterRole"@,
            name: APP_NAME@ + "-clusterrole"@,
        },
        subjects: Some(
            seq![
                SubjectView {
                    kind: "ServiceAccount"@,
                    name: account_name(cluster),
                    namespace: Some(cluster.namespace),
                },
            ],
        ),
    }
}

/// Builds the ServiceAccount that the role-group Pods run under.
pub fn build_service_account(cluster: &ValidatedCluster) -> (account: ServiceAccount)
    ensures
        account.deep_view() == service_account(cluster.deep_view()),
{
    ServiceAccount {
        metadata: cluster.object_meta(
            cluster.service_account_name(),
            cluster.recommended_labels_for_cluster_resources(),
        ),
    }
}

/// Builds the RoleBinding that binds the ServiceAccount to the operator-deployed ClusterRole.
pub fn build_role_binding(cluster: &ValidatedCluster) -> (binding: RoleBinding)
    ensures
        binding.deep_view() == role_binding(cluster.deep_view()),
{
    let mut name = cluster.name.clone();
    name.append("-rolebinding");
    let mut role = APP_NAME.to_owned();
    role.append("-clusterrole");
    RoleBinding {
        metadata: cluster.object_meta(name, cluster.recommended_labels_for_cluster_resources()),
        role_ref: RoleRef {
            api_group: "rbac.authorization.k8s.io".to_owned(),
            kind: "ClusterRole".to_owned(),
            name: role,
        },
        subjects: Some(
            one_item(
                Subject {
                    kind: "ServiceAccount".to_owned(),
                    name: cluster.service_account_name(),
                    namespace: Some(cluster.namespace.clone()),
                },
            ),
        ),
    }
}

} // verus!
