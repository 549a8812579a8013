//! How Pods are named and how OPA is started in them.
use crate::text::{
    ascii_lowercase, contains_text, is_ascii_text, lemma_contains_part, lower_case,
};
use crate::value::{no_items, push_item};
use vstd::prelude::*;

verus! {

/// The parts of a Pod's name one after the other.
pub open spec fn pod_name_parts(
    app_name: Seq<char>,
    context_name: Seq<char>,
    role: Seq<char>,
    role_group: Seq<char>,
    node_name: Seq<char>,
) -> Seq<char> {
    app_name + "-"@ + context_name + "-"@ + role_group + "-"@ + role + "-"@ + node_name
}

/// The name of a Pod, as it is written: all in lower case.
pub open spec fn lower_case_name(
    app_name: Seq<char>,
    context_name: Seq<char>,
    role: Seq<char>,
    role_group: Seq<char>,
    node_name: Seq<char>,
) -> Seq<char> {
    lower_case(pod_name_parts(app_name, context_name, role, role_group, node_name))
}

/// From ASCII texts the name of a Pod is made letter by letter.
pub proof fn lemma_ascii_pod_name(
    app_name: Seq<char>,
    context_name: Seq<char>,
    role: Seq<char>,
    role_group: Seq<char>,
    node_name: Seq<char>,
)
    requires
        is_ascii_text(app_name),
        is_ascii_text(context_name),
        is_ascii_text(role),
        is_ascii_text(role_group),
        is_ascii_text(node_name),
    ensures
        lower_case_name(app_name, context_name, role, role_group, node_name) == pod_name_parts(
            app_name,
            context_name,
            role,
            role_group,
            node_name,
        ).map_values(|c: char| ascii_lowercase(c)),
{
    reveal_strlit("-");
}

/// All pod names follow a simple pattern:
/// `<app_name>-<cluster_name>-<role_group>-<role>-<node_name>`, in lower case.
///
/// # Arguments
/// * `app_name` - The name of the cluster application (Spark, Kafka ...)
/// * `context_name` - The name of the cluster as specified in the custom resource
/// * `role` - The cluster role (e.g. master, worker, history-server)
/// * `role_group` - The role group of the selector
/// * `node_name` - The node or host name
pub fn build_pod_name(
    app_name: &str,
    context_name: &str,
    role: &str,
    role_group: &str,
    node_name: &str,
) -> (name: String)
    ensures
        name@ == lower_case_name(app_name@, context_name@, role@, role_group@, node_name@),
        is_ascii_text(app_name@) && is_ascii_text(context_name@) && is_ascii_text(role@)
            && is_ascii_text(role_group@) && is_ascii_text(node_name@) ==> name@ == pod_name_parts(
            app_name@,
            context_name@,
            role@,
            role_group@,
            node_name@,
        ).map_values(|c: char| ascii_lowercase(c)),
{
    let mut name = app_name.to_owned();
    name.append("-");
    name.append(context_name);
    name.append("-");
    name.append(role_group);
    name.append("-");
    name.append(role);
    name.append("-");
    name.append(node_name);
    proof {
        reveal_strlit("-");
    }
    name.as_str().to_lowercase()
}

/// The arguments with which OPA is started as a server.
pub open spec fn start_arguments(port: Option<Seq<char>>) -> Seq<Seq<char>> {
    match port {
        Some(port) => seq![
            "./opa run"@,
            "-s"@,
            "-a 0.0.0.0:"@ + port,
            "-c {{configroot}}/conf/config.yaml"@,
        ],
        None => seq!["./opa run"@, "-s"@, "-c {{configroot}}/conf/config.yaml"@],
    }
}

/// Builds the arguments with which OPA is started as a server, on a port where one is given.
pub fn create_opa_start_command(port: Option<String>) -> (command: Vec<String>)
    ensures
        command.deep_view() == start_arguments(port.deep_view()),
{
    let mut command: Vec<String> = no_items();
    push_item(&mut command, "./opa run".to_owned());
    push_item(&mut command, "-s".to_owned());
    if let Some(port) = &port {
        let mut address = "-a 0.0.0.0:".to_owned();
        address.append(port.as_str());
        push_item(&mut command, address);
    }
    push_item(&mut command, "-c {{configroot}}/conf/config.yaml".to_owned());
    assert(command.deep_view() =~= start_arguments(port.deep_view()));
    command
}

/// The name of a Pod is made up of all that it is for, the role group before the role, with hyphens in
/// between.
pub proof fn lemma_pod_name_parts(
    app_name: Seq<char>,
    context_name: Seq<char>,
    role: Seq<char>,
    role_group: Seq<char>,
    node_name: Seq<char>,
)
    ensures
        ({
            let name = pod_name_parts(app_name, context_name, role, role_group, node_name);
            &&& (app_name + "-"@ + context_name + "-"@).is_prefix_of(name)
            &&& contains_text(name, "-"@ + role_group + "-"@ + role + "-"@)
            &&& ("-"@ + node_name).is_suffix_of(name)
            &&& name.len() == app_name.len() + context_name.len() + role.len() + role_group.len()
                + node_name.len() + 4
        }),
{
    reveal_strlit("-");
    let name = pod_name_parts(app_name, context_name, role, role_group, node_name);
    let start = app_name + "-"@ + context_name;
    let part = "-"@ + role_group + "-"@ + role + "-"@;
    assert(app_name + "-"@ + context_name + "-"@ =~= name.take(
        (app_name + "-"@ + context_name + "-"@).len() as int,
    ));
    assert("-"@ + node_name =~= name.skip(name.len() - ("-"@ + node_name).len()));
    assert(name =~= start + part + node_name);
    lemma_contains_part(start, part, node_name);
}

/// OPA is started as a server on the configured port and with its configuration file.
pub proof fn lemma_start_arguments(port: Seq<char>)
    ensures
        start_arguments(Some(port)) == seq![
            "./opa run"@,
            "-s"@,
            "-a 0.0.0.0:"@ + port,
            "-c {{configroot}}/conf/config.yaml"@,
        ],
        start_arguments(None) == start_arguments(Some(port)).remove(2),
{
    assert(start_arguments(None) =~= start_arguments(Some(port)).remove(2));
}

} // verus!
