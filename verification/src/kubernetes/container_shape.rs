//! What containers can be asked about.
use crate::kubernetes::env_var_set::{env_list, lemma_env_list, with_rust_cli_env, EnvVarValueView};
use crate::kubernetes::parts::{
    bash_entrypoint, liveness_probe_view, log_directory, readiness_probe_view, rust_cli_env,
    sidecar_resources, CONSOLE_LOG_LEVEL_ENV, FILE_LOG_DIRECTORY_ENV, FILE_LOG_LEVEL_ENV,
    KUBERNETES_CLUSTER_DOMAIN_ENV, KUBERNETES_NODE_NAME_ENV,
};
use crate::kubernetes::pod::{
    ContainerView, EnvVarSourceView, EnvVarView, IntOrStringView, ProbeView,
    ResourceRequirementsView, VolumeMountView,
};
use crate::logging::BundleBuilderLogLevel;
use vstd::prelude::*;

verus! {

/// Whether an environment variable has this value.
pub open spec fn sets(env: Seq<EnvVarView>, name: Seq<char>, value: Seq<char>) -> bool {
    exists|i: int|
        0 <= i < env.len() && (#[trigger] env[i]).name == name && env[i].value == Some(value)
            && env[i].value_from is None
}

/// Whether an environment variable is taken from this field of the Pod.
pub open spec fn sets_from_field(env: Seq<EnvVarView>, name: Seq<char>, path: Seq<char>) -> bool {
    exists|i: int|
        0 <= i < env.len() && (#[trigger] env[i]).name == name && env[i].value is None
            && env[i].value_from == Some(EnvVarSourceView::FieldPath(path))
}

/// Whether a volume is mounted at this path.
pub open spec fn mounted(
    mounts: Seq<VolumeMountView>,
    volume: Seq<char>,
    path: Seq<char>,
    read_only: bool,
) -> bool {
    exists|i: int|
        0 <= i < mounts.len() && (#[trigger] mounts[i]).name == volume && mounts[i].mount_path
            == path && mounts[i].read_only == if read_only {
            Some(true)
        } else {
            None
        }
}

/// Whether a container runs nothing but this shell script, which fails with its first command that
/// does.
pub open spec fn runs(container: ContainerView, script: Seq<char>) -> bool {
    &&& container.command == seq!["/bin/bash"@, "-x"@, "-euo"@, "pipefail"@, "-c"@]
    &&& container.args == seq![script]
}

/// Whether a probe asks a port every ten seconds, after some delay.
pub open spec fn probes(
    probe: ProbeView,
    port: IntOrStringView,
    path: Option<Seq<char>>,
    scheme: Option<Seq<char>>,
    delay_seconds: i32,
) -> bool {
    &&& probe.http_get is Some
    &&& probe.http_get->0.port == port
    &&& probe.http_get->0.path == path
    &&& probe.http_get->0.scheme == scheme
    &&& probe.initial_delay_seconds == Some(delay_seconds)
    &&& probe.period_seconds == Some(10i32)
}

/// A container is ready after five seconds at the earliest, and no longer after five failures. It is
/// asked whether it is alive from half a minute on.
pub proof fn lemma_probes(path: Option<Seq<char>>, port: IntOrStringView, scheme: Option<Seq<char>>)
    ensures
        probes(readiness_probe_view(path, port, scheme), port, path, scheme, 5),
        readiness_probe_view(path, port, scheme).failure_threshold == Some(5i32),
        probes(liveness_probe_view(path, port, scheme), port, path, scheme, 30),
        liveness_probe_view(path, port, scheme).failure_threshold is None,
{
}

/// The shell that scripts are run with fails with the first command that does, and prints each.
pub proof fn lemma_bash_entrypoint()
    ensures
        bash_entrypoint() == seq!["/bin/bash"@, "-x"@, "-euo"@, "pipefail"@, "-c"@],
{
}

/// Whether a sidecar gets a fixed share: a tenth to a fifth of a CPU, and 128 MiB of memory.
pub open spec fn gets_sidecar_share(resources: Option<ResourceRequirementsView>) -> bool {
    &&& resources is Some
    &&& resources->0.cpu_request == Some("100m"@)
    &&& resources->0.cpu_limit == Some("200m"@)
    &&& resources->0.memory_request == Some("128Mi"@)
    &&& resources->0.memory_limit == Some("128Mi"@)
}

/// Sidecars get a fixed share.
pub proof fn lemma_sidecar_resources()
    ensures
        gets_sidecar_share(Some(sidecar_resources())),
{
}

/// Whether the environment tells a program of ours how to log, where it runs and in which domain.
pub open spec fn configures_program(
    env: Seq<EnvVarView>,
    cluster_domain: Seq<char>,
    level: Seq<char>,
    container: Seq<char>,
) -> bool {
    &&& sets(env, "CONSOLE_LOG_LEVEL"@, level)
    &&& sets(env, "FILE_LOG_LEVEL"@, level)
    &&& sets(env, "FILE_LOG_DIRECTORY"@, "/stackable/log/"@ + container)
    &&& sets_from_field(env, "KUBERNETES_NODE_NAME"@, "spec.nodeName"@)
    &&& sets(env, "KUBERNETES_CLUSTER_DOMAIN"@, cluster_domain)
}

/// Every container has a log directory of its own.
pub proof fn lemma_log_directory(container: Seq<char>)
    ensures
        log_directory(container) == "/stackable/log/"@ + container,
{
    reveal_strlit("/stackable/log");
    reveal_strlit("/");
    reveal_strlit("/stackable/log/");
    assert("/stackable/log"@ + "/"@ =~= "/stackable/log/"@);
}

/// The variables for programs of ours do what they are for, behind whatever comes before them.
pub proof fn lemma_rust_cli_env(
    start: Seq<EnvVarView>,
    cluster_domain: Seq<char>,
    log_level: BundleBuilderLogLevel,
    container: Seq<char>,
    end: Seq<EnvVarView>,
)
    ensures
        configures_program(
            start + rust_cli_env(cluster_domain, log_level, container) + end,
            cluster_domain,
            log_level.spec_name(),
            container,
        ),
        rust_cli_env(cluster_domain, log_level, container).len() == 5,
{
    lemma_log_directory(container);
    let own = rust_cli_env(cluster_domain, log_level, container);
    let env = start + own + end;
    let n = start.len() as int;
    assert(env[n] == own[0]);
    assert(env[n + 1] == own[1]);
    assert(env[n + 2] == own[2]);
    assert(env[n + 3] == own[3]);
    assert(env[n + 4] == own[4]);
}

/// A variable that is set to a value in the set is set to that value in the list.
pub proof fn lemma_listed_value(
    vars: Map<Seq<char>, EnvVarValueView>,
    name: Seq<char>,
    value: Seq<char>,
)
    requires
        vars.dom().finite(),
        vars.contains_key(name),
        vars[name] == EnvVarValueView::Value(value),
    ensures
        sets(env_list(vars), name, value),
{
    lemma_env_list(vars);
    let i = choose|i: int|
        0 <= i < env_list(vars).len() && (#[trigger] env_list(vars)[i]).name == name;
    assert(env_list(vars)[i].name == name);
}

/// A variable that is taken from a field in the set is taken from that field in the list.
pub proof fn lemma_listed_field(
    vars: Map<Seq<char>, EnvVarValueView>,
    name: Seq<char>,
    path: Seq<char>,
)
    requires
        vars.dom().finite(),
        vars.contains_key(name),
        vars[name] == EnvVarValueView::FieldPath(path),
    ensures
        sets_from_field(env_list(vars), name, path),
{
    lemma_env_list(vars);
    let i = choose|i: int|
        0 <= i < env_list(vars).len() && (#[trigger] env_list(vars)[i]).name == name;
    assert(env_list(vars)[i].name == name);
}

proof fn lemma_variable_names_differ()
    ensures
        CONSOLE_LOG_LEVEL_ENV@ != FILE_LOG_LEVEL_ENV@,
        CONSOLE_LOG_LEVEL_ENV@ != FILE_LOG_DIRECTORY_ENV@,
        CONSOLE_LOG_LEVEL_ENV@ != KUBERNETES_NODE_NAME_ENV@,
        CONSOLE_LOG_LEVEL_ENV@ != KUBERNETES_CLUSTER_DOMAIN_ENV@,
        FILE_LOG_LEVEL_ENV@ != FILE_LOG_DIRECTORY_ENV@,
        FILE_LOG_LEVEL_ENV@ != KUBERNETES_NODE_NAME_ENV@,
        FILE_LOG_LEVEL_ENV@ != KUBERNETES_CLUSTER_DOMAIN_ENV@,
        FILE_LOG_DIRECTORY_ENV@ != KUBERNETES_NODE_NAME_ENV@,
        FILE_LOG_DIRECTORY_ENV@ != KUBERNETES_CLUSTER_DOMAIN_ENV@,
        KUBERNETES_NODE_NAME_ENV@ != KUBERNETES_CLUSTER_DOMAIN_ENV@,
{
    reveal_strlit("CONSOLE_LOG_LEVEL");
    reveal_strlit("FILE_LOG_LEVEL");
    reveal_strlit("FILE_LOG_DIRECTORY");
    reveal_strlit("KUBERNETES_NODE_NAME");
    reveal_strlit("KUBERNETES_CLUSTER_DOMAIN");
    assert(CONSOLE_LOG_LEVEL_ENV@.len() == 17);
    assert(FILE_LOG_LEVEL_ENV@.len() == 14);
    assert(FILE_LOG_DIRECTORY_ENV@.len() == 18);
    assert(KUBERNETES_NODE_NAME_ENV@.len() == 20);
    assert(KUBERNETES_CLUSTER_DOMAIN_ENV@.len() == 25);
}

/// The variables for programs of ours do what they are for, whatever else is in the set.
pub proof fn lemma_with_rust_cli_env(
    vars: Map<Seq<char>, EnvVarValueView>,
    cluster_domain: Seq<char>,
    log_level: BundleBuilderLogLevel,
    container: Seq<char>,
)
    requires
        vars.dom().finite(),
    ensures
        ({
            let after = with_rust_cli_env(vars, cluster_domain, log_level, container);
            &&& after.dom().finite()
            &&& configures_program(
                env_list(after),
                cluster_domain,
                log_level.spec_name(),
                container,
            )
            &&& forall|name: Seq<char>| #[trigger]
                vars.contains_key(name) ==> after.contains_key(name)
            &&& forall|name: Seq<char>| #[trigger]
                vars.contains_key(name) && name != "CONSOLE_LOG_LEVEL"@ && name
                    != "FILE_LOG_LEVEL"@ && name != "FILE_LOG_DIRECTORY"@ && name
                    != "KUBERNETES_NODE_NAME"@ && name != "KUBERNETES_CLUSTER_DOMAIN"@
                    ==> after[name] == vars[name]
        }),
{
    lemma_variable_names_differ();
    lemma_log_directory(container);
    let after = with_rust_cli_env(vars, cluster_domain, log_level, container);
    lemma_listed_value(after, CONSOLE_LOG_LEVEL_ENV@, log_level.spec_name());
    lemma_listed_value(after, FILE_LOG_LEVEL_ENV@, log_level.spec_name());
    lemma_listed_value(after, FILE_LOG_DIRECTORY_ENV@, "/stackable/log/"@ + container);
    lemma_listed_field(after, KUBERNETES_NODE_NAME_ENV@, "spec.nodeName"@);
    lemma_listed_value(after, KUBERNETES_CLUSTER_DOMAIN_ENV@, cluster_domain);
}

} // verus!
