//! Small parts that the containers of an OPA Pod are made of.
use crate::kubernetes::pod::{
    EmptyDirVolumeSource, EmptyDirVolumeSourceView, EnvVar, EnvVarSource, EnvVarSourceView,
    EnvVarView, HttpGetAction, HttpGetActionView, IntOrString, IntOrStringView, Probe, ProbeView,
    ResourceRequirements, ResourceRequirementsView, Volume, VolumeMount, VolumeMountView,
    VolumeSource, VolumeSourceView, VolumeView,
};
use crate::logging::BundleBuilderLogLevel;
use crate::start_command::STACKABLE_LOG_DIR;
use crate::value::{no_items, push_item};
use vstd::prelude::*;

verus! {

/// Environment variable for the console log level of a sidecar.
pub const CONSOLE_LOG_LEVEL_ENV: &'static str = "CONSOLE_LOG_LEVEL";

/// Environment variable for the file log level of a sidecar.
pub const FILE_LOG_LEVEL_ENV: &'static str = "FILE_LOG_LEVEL";

/// Environment variable for the directory that a sidecar writes log files to.
pub const FILE_LOG_DIRECTORY_ENV: &'static str = "FILE_LOG_DIRECTORY";

/// Environment variable for the node that the Pod runs on.
pub const KUBERNETES_NODE_NAME_ENV: &'static str = "KUBERNETES_NODE_NAME";

/// Environment variable for the domain of the Kubernetes cluster.
pub const KUBERNETES_CLUSTER_DOMAIN_ENV: &'static str = "KUBERNETES_CLUSTER_DOMAIN";

/// Seconds between two probes.
pub const PROBE_PERIOD_SECONDS: i32 = 10;

/// Seconds before the first readiness probe.
pub const READINESS_PROBE_INITIAL_DELAY_SECONDS: i32 = 5;

/// Failed readiness probes after which a container counts as not ready.
pub const READINESS_PROBE_FAILURE_THRESHOLD: i32 = 5;

/// Seconds before the first liveness probe.
pub const LIVENESS_PROBE_INITIAL_DELAY_SECONDS: i32 = 30;

/// An environment variable with a literal value.
pub open spec fn literal_env(name: Seq<char>, value: Seq<char>) -> EnvVarView {
    EnvVarView { name, value: Some(value), value_from: None }
}

/// An environment variable that takes its value from a field of the Pod.
pub open spec fn field_env(name: Seq<char>, field_path: Seq<char>) -> EnvVarView {
    EnvVarView { name, value: None, value_from: Some(EnvVarSourceView::FieldPath(field_path)) }
}

/// Builds an environment variable with a literal value.
pub fn env_var(name: &str, value: &str) -> (var: EnvVar)
    ensures
        var.deep_view() == literal_env(name@, value@),
{
    EnvVar { name: name.to_owned(), value: Some(value.to_owned()), value_from: None }
}

/// Builds an environment variable that takes its value from a field of the Pod.
pub fn env_var_from_field(name: &str, field_path: &str) -> (var: EnvVar)
    ensures
        var.deep_view() == field_env(name@, field_path@),
{
    EnvVar {
        name: name.to_owned(),
        value: None,
        value_from: Some(EnvVarSource::FieldPath(field_path.to_owned())),
    }
}

/// The directory that a container writes its log files to.
pub open spec fn log_directory(container: Seq<char>) -> Seq<char> {
    STACKABLE_LOG_DIR@ + "/"@ + container
}

/// Builds the path of the directory that a container writes its log files to.
pub fn log_directory_of(container: &str) -> (path: String)
    ensures
        path@ == log_directory(container@),
{
    let mut path = STACKABLE_LOG_DIR.to_owned();
    path.append("/");
    path.append(container);
    path
}

/// The environment that the Rust sidecars need.
///
/// The cluster domain is always set explicitly, as the Pods may not look it up themselves.
pub open spec fn rust_cli_env(
    cluster_domain: Seq<char>,
    log_level: BundleBuilderLogLevel,
    container: Seq<char>,
) -> Seq<EnvVarView> {
    seq![
        literal_env(CONSOLE_LOG_LEVEL_ENV@, log_level.spec_name()),
        literal_env(FILE_LOG_LEVEL_ENV@, log_level.spec_name()),
        literal_env(FILE_LOG_DIRECTORY_ENV@, log_directory(container)),
        field_env(KUBERNETES_NODE_NAME_ENV@, "spec.nodeName"@),
        literal_env(KUBERNETES_CLUSTER_DOMAIN_ENV@, cluster_domain),
    ]
}

/// Adds the environment that the Rust sidecars (bundle-builder, info fetchers) need.
pub fn add_stackable_rust_cli_env_vars(
    env: &mut Vec<EnvVar>,
    cluster_domain: &str,
    log_level: BundleBuilderLogLevel,
    container: &str,
)
    ensures
        final(env).deep_view() == old(env).deep_view() + rust_cli_env(
            cluster_domain@,
            log_level,
            container@,
        ),
{
    let ghost before = env.deep_view();
    let level = log_level.name();
    push_item(env, env_var(CONSOLE_LOG_LEVEL_ENV, level.as_str()));
    push_item(env, env_var(FILE_LOG_LEVEL_ENV, level.as_str()));
    push_item(env, env_var(FILE_LOG_DIRECTORY_ENV, log_directory_of(container).as_str()));
    push_item(env, env_var_from_field(KUBERNETES_NODE_NAME_ENV, "spec.nodeName"));
    push_item(env, env_var(KUBERNETES_CLUSTER_DOMAIN_ENV, cluster_domain));
    assert(env.deep_view() =~= before + rust_cli_env(cluster_domain@, log_level, container@));
}

/// A volume mounted for reading and writing.
pub open spec fn mount_view(name: Seq<char>, mount_path: Seq<char>) -> VolumeMountView {
    VolumeMountView { name, mount_path, read_only: None }
}

/// A volume mounted for reading only.
pub open spec fn read_only_mount_view(name: Seq<char>, mount_path: Seq<char>) -> VolumeMountView {
    VolumeMountView { name, mount_path, read_only: Some(true) }
}

/// Mounts a volume for reading and writing.
pub fn mount(name: &str, mount_path: &str) -> (mount: VolumeMount)
    ensures
        mount.deep_view() == mount_view(name@, mount_path@),
{
    VolumeMount { name: name.to_owned(), mount_path: mount_path.to_owned(), read_only: None }
}

/// Mounts a volume for reading only.
pub fn read_only_mount(name: &str, mount_path: &str) -> (mount: VolumeMount)
    ensures
        mount.deep_view() == read_only_mount_view(name@, mount_path@),
{
    VolumeMount { name: name.to_owned(), mount_path: mount_path.to_owned(), read_only: Some(true) }
}

/// A volume with the entries of a ConfigMap.
pub open spec fn config_map_volume_view(name: Seq<char>, config_map: Seq<char>) -> VolumeView {
    VolumeView { name, source: VolumeSourceView::ConfigMap(config_map) }
}

/// A volume with the entries of a Secret.
pub open spec fn secret_volume_view(name: Seq<char>, secret: Seq<char>) -> VolumeView {
    VolumeView { name, source: VolumeSourceView::Secret(secret) }
}

/// An initially empty volume.
pub open spec fn empty_volume_view(name: Seq<char>, size_limit: Option<Seq<char>>) -> VolumeView {
    VolumeView {
        name,
        source: VolumeSourceView::EmptyDir(EmptyDirVolumeSourceView { medium: None, size_limit }),
    }
}

/// Builds a volume with the entries of a ConfigMap.
pub fn config_map_volume(name: &str, config_map: &str) -> (volume: Volume)
    ensures
        volume.deep_view() == config_map_volume_view(name@, config_map@),
{
    Volume { name: name.to_owned(), source: VolumeSource::ConfigMap(config_map.to_owned()) }
}

/// Builds a volume with the entries of a Secret.
pub fn secret_volume(name: &str, secret: &str) -> (volume: Volume)
    ensures
        volume.deep_view() == secret_volume_view(name@, secret@),
{
    Volume { name: name.to_owned(), source: VolumeSource::Secret(secret.to_owned()) }
}

/// Builds an initially empty volume.
pub fn empty_volume(name: &str, size_limit: Option<String>) -> (volume: Volume)
    ensures
        volume.deep_view() == empty_volume_view(name@, size_limit.deep_view()),
{
    Volume {
        name: name.to_owned(),
        source: VolumeSource::EmptyDir(EmptyDirVolumeSource { medium: None, size_limit }),
    }
}

/// A readiness probe by HTTP.
pub open spec fn readiness_probe_view(
    path: Option<Seq<char>>,
    port: IntOrStringView,
    scheme: Option<Seq<char>>,
) -> ProbeView {
    ProbeView {
        initial_delay_seconds: Some(READINESS_PROBE_INITIAL_DELAY_SECONDS),
        period_seconds: Some(PROBE_PERIOD_SECONDS),
        failure_threshold: Some(READINESS_PROBE_FAILURE_THRESHOLD),
        http_get: Some(HttpGetActionView { port, path, scheme }),
    }
}

/// A liveness probe by HTTP.
pub open spec fn liveness_probe_view(
    path: Option<Seq<char>>,
    port: IntOrStringView,
    scheme: Option<Seq<char>>,
) -> ProbeView {
    ProbeView {
        initial_delay_seconds: Some(LIVENESS_PROBE_INITIAL_DELAY_SECONDS),
        period_seconds: Some(PROBE_PERIOD_SECONDS),
        failure_threshold: None,
        http_get: Some(HttpGetActionView { port, path, scheme }),
    }
}

/// Builds a readiness probe by HTTP.
pub fn http_readiness_probe(path: Option<String>, port: IntOrString, scheme: Option<String>) -> (probe:
    Probe)
    ensures
        probe.deep_view() == readiness_probe_view(
            path.deep_view(),
            port.deep_view(),
            scheme.deep_view(),
        ),
{
    Probe {
        initial_delay_seconds: Some(READINESS_PROBE_INITIAL_DELAY_SECONDS),
        period_seconds: Some(PROBE_PERIOD_SECONDS),
        failure_threshold: Some(READINESS_PROBE_FAILURE_THRESHOLD),
        http_get: Some(HttpGetAction { port, path, scheme }),
    }
}

/// Builds a liveness probe by HTTP.
pub fn http_liveness_probe(path: Option<String>, port: IntOrString, scheme: Option<String>) -> (probe:
    Probe)
    ensures
        probe.deep_view() == liveness_probe_view(
            path.deep_view(),
            port.deep_view(),
            scheme.deep_view(),
        ),
{
    Probe {
        initial_delay_seconds: Some(LIVENESS_PROBE_INITIAL_DELAY_SECONDS),
        period_seconds: Some(PROBE_PERIOD_SECONDS),
        failure_threshold: None,
        http_get: Some(HttpGetAction { port, path, scheme }),
    }
}

/// The strict-mode `bash` entrypoint; the script itself is passed as an argument.
pub open spec fn bash_entrypoint() -> Seq<Seq<char>> {
    seq!["/bin/bash"@, "-x"@, "-euo"@, "pipefail"@, "-c"@]
}

/// Builds the strict-mode `bash` entrypoint.
pub fn bash_entrypoint_command() -> (command: Vec<String>)
    ensures
        command.deep_view() == bash_entrypoint(),
{
    let mut command: Vec<String> = no_items();
    push_item(&mut command, "/bin/bash".to_owned());
    push_item(&mut command, "-x".to_owned());
    push_item(&mut command, "-euo".to_owned());
    push_item(&mut command, "pipefail".to_owned());
    push_item(&mut command, "-c".to_owned());
    assert(command.deep_view() =~= bash_entrypoint());
    command
}

/// What a sidecar container asks for and may use.
pub open spec fn sidecar_resources() -> ResourceRequirementsView {
    ResourceRequirementsView {
        cpu_request: Some("100m"@),
        cpu_limit: Some("200m"@),
        memory_request: Some("128Mi"@),
        memory_limit: Some("128Mi"@),
    }
}

/// Builds what a sidecar container asks for and may use.
pub fn sidecar_resource_requirements() -> (resources: ResourceRequirements)
    ensures
        resources.deep_view() == sidecar_resources(),
{
    ResourceRequirements {
        cpu_request: Some("100m".to_owned()),
        cpu_limit: Some("200m".to_owned()),
        memory_request: Some("128Mi".to_owned()),
        memory_limit: Some("128Mi".to_owned()),
    }
}

} // verus!
