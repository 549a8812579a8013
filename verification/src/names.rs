//! Names of the objects that belong to a cluster.
use vstd::prelude::*;

verus! {

/// The name of a role's objects.
pub open spec fn role_name(cluster: Seq<char>, role: Seq<char>) -> Seq<char> {
    cluster + "-"@ + role
}

/// The name of a role group's objects.
pub open spec fn role_group_name(
    cluster: Seq<char>,
    role: Seq<char>,
    role_group: Seq<char>,
) -> Seq<char> {
    cluster + "-"@ + role + "-"@ + role_group
}

/// The name of the headless Service of a role group.
pub open spec fn headless_service_name(
    cluster: Seq<char>,
    role: Seq<char>,
    role_group: Seq<char>,
) -> Seq<char> {
    role_group_name(cluster, role, role_group) + "-headless"@
}

/// The name of the metrics Service of a role group.
pub open spec fn metrics_service_name(
    cluster: Seq<char>,
    role: Seq<char>,
    role_group: Seq<char>,
) -> Seq<char> {
    role_group_name(cluster, role, role_group) + "-metrics"@
}

/// Names the objects of a role.
pub fn name_of_role(cluster: &str, role: &str) -> (name: String)
    ensures
        name@ == role_name(cluster@, role@),
{
    let mut name = cluster.to_owned();
    name.append("-");
    name.append(role);
    name
}

/// Names the objects of a role group.
pub fn name_of_role_group(cluster: &str, role: &str, role_group: &str) -> (name: String)
    ensures
        name@ == role_group_name(cluster@, role@, role_group@),
{
    let mut name = name_of_role(cluster, role);
    name.append("-");
    name.append(role_group);
    name
}

/// Names the headless Service of a role group.
pub fn name_of_headless_service(cluster: &str, role: &str, role_group: &str) -> (name: String)
    ensures
        name@ == headless_service_name(cluster@, role@, role_group@),
{
    let mut name = name_of_role_group(cluster, role, role_group);
    name.append("-headless");
    name
}

/// Names the metrics Service of a role group.
pub fn name_of_metrics_service(cluster: &str, role: &str, role_group: &str) -> (name: String)
    ensures
        name@ == metrics_service_name(cluster@, role@, role_group@),
{
    let mut name = name_of_role_group(cluster, role, role_group);
    name.append("-metrics");
    name
}

} // verus!
