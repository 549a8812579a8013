//! The workloads that run OPA, with its bundle-builder and its optional sidecars.
use crate::checked::{Checked, CheckedView};
use crate::config::{
    grace_period, graceful_shutdown_config, opa_shutdown_grace_period, requirements,
    shutdown_grace_period,
};
use crate::info_fetcher_sidecar;
use crate::info_fetcher_sidecar::{
    add_needs, needs_added, AddedVolumes, AddedVolumesView, SidecarVolumes, CREDENTIALS_DIR,
    KERBEROS_DIR,
};
use crate::kubernetes::builder::{begins_with, ResolvedProductImage, ResolvedProductImageView};
use crate::kubernetes::env_var_set::{
    add_rust_cli_env, configured_env, configured_env_vars, env_list, with_rust_cli_env, EnvVarSet,
    EnvVarValueView,
};
use crate::kubernetes::meta::{LabelSelector, LabelSelectorView, ObjectMetaView};
use crate::kubernetes::owned::{empty_meta, no_meta};
use crate::kubernetes::parts::{
    add_stackable_rust_cli_env_vars, bash_entrypoint, bash_entrypoint_command, config_map_volume,
    config_map_volume_view, empty_volume, empty_volume_view, env_var, env_var_from_field, field_env,
    http_liveness_probe, http_readiness_probe, literal_env, liveness_probe_view, log_directory,
    log_directory_of, mount, mount_view, read_only_mount, read_only_mount_view,
    readiness_probe_view, rust_cli_env, sidecar_resource_requirements, sidecar_resources,
};
use crate::kubernetes::pod::{
    Container, ContainerPort, ContainerPortView, ContainerView, IntOrString, IntOrStringView,
    PodSecurityContext, PodSecurityContextView, PodTemplate, PodTemplateView, SecretClassVolume,
    SecretClassVolumeScope, SecretClassVolumeScopeView, SecretClassVolumeView, Volume, VolumeMount,
    VolumeMountView, VolumeSource, VolumeSourceView, VolumeView,
};
use crate::kubernetes::resources::{
    DaemonSet, DaemonSetSpec, DaemonSetSpecView, DaemonSetView, Deployment, DeploymentSpec,
    DeploymentSpecView, DeploymentView, RollingUpdate, RollingUpdateView, UpdateStrategy,
    UpdateStrategyView,
};
use crate::logging::{
    level_for_sidecar, sidecar_log_level, spelled, BundleBuilderLogLevel, LevelNames,
    LevelNamesView,
};
use crate::start_command::{
    bundle_builder_script, further_arguments, log_levels, opa_level, opa_log_level, opa_log_levels,
    prepare_commands, render_bundle_builder_script, render_further_arguments, render_opa_script,
    render_prepare_commands, server_script, OpaServer, ShellSnippets, ShellSnippetsView, CONFIG_DIR,
    STACKABLE_LOG_DIR, TLS_STORE_DIR,
};
use crate::text_map::StringMap;
use crate::text::{join, joined};
use crate::user_info_fetcher;
use crate::v1alpha2::cluster::{
    account_name, container_log, group_headless_name, group_labels, group_metrics_name,
    group_object_name, object_labels, owned_object_meta, role_service_name, OpaRoleGroupConfig,
    OpaRoleGroupConfigView, ValidatedCluster, ValidatedClusterView, ValidatedOpaConfig,
    ValidatedOpaConfigView,
};
use crate::v1alpha2::crd::Container as ContainerName;
use crate::v1alpha2::properties::ConfigFileName;
use crate::v1alpha2::resource_info_fetcher;
use crate::v1alpha2::service::{app_port, app_port_name, port_name_of_app, port_of_app, tls_enabled};
use crate::value::{no_items, one_item, push_item, Value};
use vstd::prelude::*;

verus! {

/// Why the workload of a role group could not be built.
#[derive(Clone, Debug, PartialEq, Eq)]
pub enum Error {
    /// The graceful shutdown could not be configured.
    GracefulShutdown,
    /// The user-info-fetcher could not be added.
    BuildUserInfoFetcherSidecar(info_fetcher_sidecar::Error),
    /// The resource-info-fetcher could not be added.
    BuildResourceInfoFetcherSidecar(info_fetcher_sidecar::Error),
}

/// The contents of an [`Error`].
#[verifier::ext_equal]
pub enum ErrorView {
    GracefulShutdown,
    BuildUserInfoFetcherSidecar(info_fetcher_sidecar::ErrorView),
    BuildResourceInfoFetcherSidecar(info_fetcher_sidecar::ErrorView),
}

impl DeepView for Error {
    type V = ErrorView;

    open spec fn deep_view(&self) -> ErrorView {
        match self {
            Error::GracefulShutdown => ErrorView::GracefulShutdown,
            Error::BuildUserInfoFetcherSidecar(inner) => {
                ErrorView::BuildUserInfoFetcherSidecar(inner.deep_view())
            },
            Error::BuildResourceInfoFetcherSidecar(inner) => {
                ErrorView::BuildResourceInfoFetcherSidecar(inner.deep_view())
            },
        }
    }
}

impl Value for Error {
    fn duplicate(&self) -> (copy: Self) {
        match self {
            Error::GracefulShutdown => Error::GracefulShutdown,
            Error::BuildUserInfoFetcherSidecar(inner) => {
                Error::BuildUserInfoFetcherSidecar(inner.duplicate())
            },
            Error::BuildResourceInfoFetcherSidecar(inner) => {
                Error::BuildResourceInfoFetcherSidecar(inner.duplicate())
            },
        }
    }

    fn same_as(&self, other: &Self) -> (same: bool) {
        match (self, other) {
            (Error::GracefulShutdown, Error::GracefulShutdown) => true,
            (Error::BuildUserInfoFetcherSidecar(left), Error::BuildUserInfoFetcherSidecar(right)) => {
                left.same_as(right)
            },
            (Error::BuildResourceInfoFetcherSidecar(left), Error::BuildResourceInfoFetcherSidecar(right)) => {
                left.same_as(right)
            },
            _ => false,
        }
    }
}

/// The port the bundle-builder sidecar listens on, and which OPA connects to for bundle polling.
pub const BUNDLE_BUILDER_PORT: u16 = 3030;

/// The name of the volume with the configuration.
pub const CONFIG_VOLUME_NAME: &'static str = "config";

/// The name of the volume that logs are written to.
pub const LOG_VOLUME_NAME: &'static str = "log";

/// The name of the volume with the bundles.
pub const BUNDLES_VOLUME_NAME: &'static str = "bundles";

/// The directory that the bundles are mounted at.
pub const BUNDLES_DIR: &'static str = "/bundles";

/// The name of the volume with the credentials of the user-info-fetcher.
pub const USER_INFO_FETCHER_CREDENTIALS_VOLUME_NAME: &'static str = "user-info-fetcher-credentials";

/// The name of the volume with the credentials of the resource-info-fetcher.
pub const RESOURCE_INFO_FETCHER_CREDENTIALS_VOLUME_NAME: &'static str =
    "resource-info-fetcher-credentials";

/// The name of the volume with the TLS certificate and key.
pub const TLS_VOLUME_NAME: &'static str = "tls";

/// The path at which the bundle-builder reports its status.
pub const BUNDLE_BUILDER_PROBE_PATH: &'static str = "/status";

/// The path at which OPA answers.
pub const OPA_PROBE_PATH: &'static str = "/";

/// Environment variable for the path of a fetcher's configuration.
pub const CONFIG: &'static str = "CONFIG";

/// Environment variable for the directory with a fetcher's credentials.
pub const CREDENTIALS_DIR_ENV: &'static str = "CREDENTIALS_DIR";

/// Environment variable for the path of the Kerberos configuration.
pub const KRB5_CONFIG: &'static str = "KRB5_CONFIG";

/// Environment variable for the path of the Kerberos keytab.
pub const KRB5_CLIENT_KTNAME: &'static str = "KRB5_CLIENT_KTNAME";

/// Environment variable for the place that Kerberos tickets are kept in.
pub const KRB5CCNAME: &'static str = "KRB5CCNAME";

/// What the platform supplies for the Pods of a role group.
pub struct PlatformParts {
    /// Shell code for the containers.
    pub snippets: ShellSnippets,
    /// The log levels as OPA spells them.
    pub opa_level_names: LevelNames,
    /// Shell code that captures the output of the `prepare` container.
    pub capture_prepare_output: String,
    /// The size limit of the log volume.
    pub log_volume_size_limit: String,
    /// The container of the Vector agent. Needed only where the agent is enabled.
    pub vector_container: Container,
    /// What the backend of the user-info-fetcher asks for. Needed only where it has TLS or LDAP
    /// settings.
    pub user_info_volumes: Checked<AddedVolumes>,
    /// What the backend of the resource-info-fetcher asks for. Needed only where it has TLS
    /// settings.
    pub resource_info_volumes: Checked<AddedVolumes>,
}

/// The contents of [`PlatformParts`].
pub struct PlatformPartsView {
    pub snippets: ShellSnippetsView,
    pub opa_level_names: LevelNamesView,
    pub capture_prepare_output: Seq<char>,
    pub log_volume_size_limit: Seq<char>,
    pub vector_container: ContainerView,
    pub user_info_volumes: CheckedView<AddedVolumesView>,
    pub resource_info_volumes: CheckedView<AddedVolumesView>,
}

impl DeepView for PlatformParts {
    type V = PlatformPartsView;

    open spec fn deep_view(&self) -> PlatformPartsView {
        PlatformPartsView {
            snippets: self.snippets.deep_view(),
            opa_level_names: self.opa_level_names.deep_view(),
            capture_prepare_output: self.capture_prepare_output@,
            log_volume_size_limit: self.log_volume_size_limit@,
            vector_container: self.vector_container.deep_view(),
            user_info_volumes: self.user_info_volumes.deep_view(),
            resource_info_volumes: self.resource_info_volumes.deep_view(),
        }
    }
}

fn two_mounts(first: VolumeMount, second: VolumeMount) -> (mounts: Vec<VolumeMount>)
    ensures
        mounts.deep_view() == seq![first.deep_view(), second.deep_view()],
{
    let mut mounts: Vec<VolumeMount> = no_items();
    push_item(&mut mounts, first);
    push_item(&mut mounts, second);
    assert(mounts.deep_view() =~= seq![first.deep_view(), second.deep_view()]);
    mounts
}

/// The script of the `prepare` container.
pub open spec fn prepare_script(config: ValidatedOpaConfigView, platform: PlatformPartsView) -> Seq<char> {
    joined(
        prepare_commands(
            match container_log(config.logging, ContainerName::Prepare) {
                Some(_) => Some(platform.capture_prepare_output),
                None => None,
            },
        ),
        " && "@,
    )
}

/// Builds the commands of the `prepare` container.
pub fn build_prepare_start_command(merged_config: &ValidatedOpaConfig, capture_prepare_output: &str) -> (commands:
    Vec<String>)
    ensures
        commands.deep_view() == prepare_commands(
            match container_log(merged_config.deep_view().logging, ContainerName::Prepare) {
                Some(_) => Some(capture_prepare_output@),
                None => None,
            },
        ),
{
    match merged_config.logging.automatic(ContainerName::Prepare) {
        Some(_) => render_prepare_commands(Some(capture_prepare_output)),
        None => render_prepare_commands(None),
    }
}

/// The container that creates the directories that the other containers use.
pub open spec fn prepare_container(
    image: ResolvedProductImageView,
    config: ValidatedOpaConfigView,
    platform: PlatformPartsView,
) -> ContainerView {
    ContainerView {
        name: ContainerName::Prepare.spec_name(),
        image: Some(image.image),
        image_pull_policy: Some(image.image_pull_policy),
        command: bash_entrypoint(),
        args: seq![prepare_script(config, platform)],
        env: Seq::empty(),
        ports: Seq::empty(),
        volume_mounts: seq![
            mount_view(BUNDLES_VOLUME_NAME@, BUNDLES_DIR@),
            mount_view(LOG_VOLUME_NAME@, STACKABLE_LOG_DIR@),
        ],
        resources: Some(requirements(config.resources)),
        readiness_probe: None,
        liveness_probe: None,
    }
}

fn build_prepare_container(
    image: &ResolvedProductImage,
    config: &ValidatedOpaConfig,
    platform: &PlatformParts,
) -> (container: Container)
    ensures
        container.deep_view() == prepare_container(
            image.deep_view(),
            config.deep_view(),
            platform.deep_view(),
        ),
{
    Container {
        name: ContainerName::Prepare.name(),
        image: Some(image.image.clone()),
        image_pull_policy: Some(image.image_pull_policy.clone()),
        command: bash_entrypoint_command(),
        args: one_item(
            join(
                &build_prepare_start_command(config, platform.capture_prepare_output.as_str()),
                " && ",
            ),
        ),
        env: no_items(),
        ports: no_items(),
        volume_mounts: two_mounts(
            mount(BUNDLES_VOLUME_NAME, BUNDLES_DIR),
            mount(LOG_VOLUME_NAME, STACKABLE_LOG_DIR),
        ),
        resources: Some(config.resources.to_requirements()),
        readiness_probe: None,
        liveness_probe: None,
    }
}

/// The level of a sidecar container.
pub open spec fn sidecar_container_level(
    config: ValidatedOpaConfigView,
    sidecar: ContainerName,
) -> BundleBuilderLogLevel {
    sidecar_log_level(container_log(config.logging, sidecar))
}

/// Determines the level of a sidecar container.
pub fn sidecar_container_log_level(merged_config: &ValidatedOpaConfig, sidecar: ContainerName) -> (level:
    BundleBuilderLogLevel)
    ensures
        level == sidecar_container_level(merged_config.deep_view(), sidecar),
{
    level_for_sidecar(merged_config.logging.automatic(sidecar))
}

/// Builds the script of the bundle-builder container.
pub fn build_bundle_builder_start_command(
    merged_config: &ValidatedOpaConfig,
    container_name: &str,
    trap_functions: &str,
) -> (script: String)
    ensures
        script@ == bundle_builder_script(
            trap_functions@,
            container_log(merged_config.deep_view().logging, ContainerName::BundleBuilder),
            container_name@,
        ),
{
    render_bundle_builder_script(
        trap_functions,
        merged_config.logging.automatic(ContainerName::BundleBuilder),
        container_name,
    )
}

/// The container that builds the bundles that OPA loads.
pub open spec fn bundle_builder_container(
    image: ResolvedProductImageView,
    config: ValidatedOpaConfigView,
    bundle_builder_image: Seq<char>,
    cluster_domain: Seq<char>,
    platform: PlatformPartsView,
) -> ContainerView {
    let name = ContainerName::BundleBuilder.spec_name();
    ContainerView {
        name,
        image: Some(bundle_builder_image),
        image_pull_policy: Some(image.image_pull_policy),
        command: bash_entrypoint(),
        args: seq![
            bundle_builder_script(
                platform.snippets.trap_functions,
                container_log(config.logging, ContainerName::BundleBuilder),
                name,
            ),
        ],
        env: seq![field_env("WATCH_NAMESPACE"@, "metadata.namespace"@)] + rust_cli_env(
            cluster_domain,
            sidecar_container_level(config, ContainerName::BundleBuilder),
            name,
        ),
        ports: Seq::empty(),
        volume_mounts: seq![
            mount_view(BUNDLES_VOLUME_NAME@, BUNDLES_DIR@),
            mount_view(LOG_VOLUME_NAME@, STACKABLE_LOG_DIR@),
        ],
        resources: Some(sidecar_resources()),
        readiness_probe: Some(
            readiness_probe_view(
                Some(BUNDLE_BUILDER_PROBE_PATH@),
                IntOrStringView::Int(BUNDLE_BUILDER_PORT as i32),
                None,
            ),
        ),
        liveness_probe: Some(
            liveness_probe_view(Some(BUNDLE_BUILDER_PROBE_PATH@), IntOrStringView::Int(BUNDLE_BUILDER_PORT as i32), None),
        ),
    }
}

fn build_bundle_builder_container(
    image: &ResolvedProductImage,
    config: &ValidatedOpaConfig,
    bundle_builder_image: &str,
    cluster_domain: &str,
    platform: &PlatformParts,
) -> (container: Container)
    ensures
        container.deep_view() == bundle_builder_container(
            image.deep_view(),
            config.deep_view(),
            bundle_builder_image@,
            cluster_domain@,
            platform.deep_view(),
        ),
{
    let name = ContainerName::BundleBuilder.name();
    let mut env = one_item(env_var_from_field("WATCH_NAMESPACE", "metadata.namespace"));
    add_stackable_rust_cli_env_vars(
        &mut env,
        cluster_domain,
        sidecar_container_log_level(config, ContainerName::BundleBuilder),
        name.as_str(),
    );
    Container {
        image: Some(bundle_builder_image.to_owned()),
        image_pull_policy: Some(image.image_pull_policy.clone()),
        command: bash_entrypoint_command(),
        args: one_item(
            build_bundle_builder_start_command(
                config,
                name.as_str(),
                platform.snippets.trap_functions.as_str(),
            ),
        ),
        env,
        ports: no_items(),
        volume_mounts: two_mounts(
            mount(BUNDLES_VOLUME_NAME, BUNDLES_DIR),
            mount(LOG_VOLUME_NAME, STACKABLE_LOG_DIR),
        ),
        resources: Some(sidecar_resource_requirements()),
        readiness_probe: Some(
            http_readiness_probe(
                Some(BUNDLE_BUILDER_PROBE_PATH.to_owned()),
                IntOrString::Int(BUNDLE_BUILDER_PORT as i32),
                None,
            ),
        ),
        liveness_probe: Some(
            http_liveness_probe(
                Some(BUNDLE_BUILDER_PROBE_PATH.to_owned()),
                IntOrString::Int(BUNDLE_BUILDER_PORT as i32),
                None,
            ),
        ),
        name,
    }
}

/// The script of the OPA container.
pub open spec fn opa_start_script(
    config: ValidatedOpaConfigView,
    container_name: Seq<char>,
    tls_enabled: bool,
    cli_overrides: Map<Seq<char>, Seq<char>>,
    snippets: ShellSnippetsView,
    level_names: LevelNamesView,
) -> Seq<char> {
    server_script(
        snippets,
        app_port(tls_enabled) as nat,
        ConfigFileName::ConfigJson.spec_name(),
        spelled(level_names, opa_level(container_log(config.logging, ContainerName::Opa))),
        opa_shutdown_grace_period(config.graceful_shutdown_timeout) as nat,
        further_arguments(tls_enabled, cli_overrides),
        log_levels(container_log(config.logging, ContainerName::Opa)),
        container_name,
    )
}

/// Builds the script of the OPA container.
pub fn build_opa_start_command(
    merged_config: &ValidatedOpaConfig,
    container_name: &str,
    tls_enabled: bool,
    cli_overrides: &StringMap,
    snippets: &ShellSnippets,
    level_names: &LevelNames,
) -> (script: String)
    ensures
        script@ == opa_start_script(
            merged_config.deep_view(),
            container_name@,
            tls_enabled,
            cli_overrides@,
            snippets.deep_view(),
            level_names.deep_view(),
        ),
{
    render_opa_script(
        snippets,
        &OpaServer {
            port: port_of_app(tls_enabled),
            config_file: ConfigFileName::ConfigJson.name().as_str(),
            log_level: level_names.spelling(
                opa_log_level(merged_config.logging.automatic(ContainerName::Opa)),
            ),
            shutdown_grace_period: shutdown_grace_period(merged_config.graceful_shutdown_timeout),
            further_arguments: render_further_arguments(tls_enabled, cli_overrides).as_str(),
            levels: opa_log_levels(merged_config.logging.automatic(ContainerName::Opa)),
            container_name,
        },
    )
}

/// The mounts of the OPA container: the certificate comes first, where TLS is enabled.
pub open spec fn opa_mounts(tls_enabled: bool) -> Seq<VolumeMountView> {
    if tls_enabled {
        seq![
            mount_view(TLS_VOLUME_NAME@, TLS_STORE_DIR@),
            mount_view(CONFIG_VOLUME_NAME@, CONFIG_DIR@),
            mount_view(LOG_VOLUME_NAME@, STACKABLE_LOG_DIR@),
        ]
    } else {
        seq![
            mount_view(CONFIG_VOLUME_NAME@, CONFIG_DIR@),
            mount_view(LOG_VOLUME_NAME@, STACKABLE_LOG_DIR@),
        ]
    }
}

fn build_opa_mounts(tls_enabled: bool) -> (mounts: Vec<VolumeMount>)
    ensures
        mounts.deep_view() == opa_mounts(tls_enabled),
{
    let mut mounts: Vec<VolumeMount> = no_items();
    if tls_enabled {
        push_item(&mut mounts, mount(TLS_VOLUME_NAME, TLS_STORE_DIR));
    }
    push_item(&mut mounts, mount(CONFIG_VOLUME_NAME, CONFIG_DIR));
    push_item(&mut mounts, mount(LOG_VOLUME_NAME, STACKABLE_LOG_DIR));
    assert(mounts.deep_view() =~= opa_mounts(tls_enabled));
    mounts
}

/// The URI scheme by which OPA is probed, as Kubernetes spells it.
pub open spec fn probe_scheme(tls_enabled: bool) -> Seq<char> {
    if tls_enabled {
        "HTTPS"@
    } else {
        "HTTP"@
    }
}

fn scheme_of_probe(tls_enabled: bool) -> (scheme: String)
    ensures
        scheme@ == probe_scheme(tls_enabled),
{
    if tls_enabled {
        "HTTPS".to_owned()
    } else {
        "HTTP".to_owned()
    }
}

/// The container that runs OPA.
pub open spec fn opa_container(
    image: ResolvedProductImageView,
    group: OpaRoleGroupConfigView,
    tls_enabled: bool,
    platform: PlatformPartsView,
) -> ContainerView {
    let name = ContainerName::Opa.spec_name();
    ContainerView {
        name,
        image: Some(image.image),
        image_pull_policy: Some(image.image_pull_policy),
        command: bash_entrypoint(),
        args: seq![
            opa_start_script(
                group.config,
                name,
                tls_enabled,
                group.cli_overrides,
                platform.snippets,
                platform.opa_level_names,
            ),
        ],
        env: configured_env(group.env_overrides).push(
            literal_env("CONTAINERDEBUG_LOG_DIRECTORY"@, log_directory("containerdebug"@)),
        ),
        ports: seq![
            ContainerPortView {
                name: Some(app_port_name(tls_enabled)),
                container_port: app_port(tls_enabled) as i32,
            },
        ],
        volume_mounts: opa_mounts(tls_enabled),
        resources: Some(requirements(group.config.resources)),
        readiness_probe: Some(
            readiness_probe_view(
                Some(OPA_PROBE_PATH@),
                IntOrStringView::Name(app_port_name(tls_enabled)),
                Some(probe_scheme(tls_enabled)),
            ),
        ),
        liveness_probe: Some(
            liveness_probe_view(
                Some(OPA_PROBE_PATH@),
                IntOrStringView::Name(app_port_name(tls_enabled)),
                Some(probe_scheme(tls_enabled)),
            ),
        ),
    }
}

fn build_opa_container(
    image: &ResolvedProductImage,
    group: &OpaRoleGroupConfig,
    tls_enabled: bool,
    platform: &PlatformParts,
) -> (container: Container)
    ensures
        container.deep_view() == opa_container(
            image.deep_view(),
            group.deep_view(),
            tls_enabled,
            platform.deep_view(),
        ),
{
    let name = ContainerName::Opa.name();
    let mut env = configured_env_vars(&group.env_overrides);
    push_item(
        &mut env,
        env_var("CONTAINERDEBUG_LOG_DIRECTORY", log_directory_of("containerdebug").as_str()),
    );
    Container {
        image: Some(image.image.clone()),
        image_pull_policy: Some(image.image_pull_policy.clone()),
        command: bash_entrypoint_command(),
        args: one_item(
            build_opa_start_command(
                &group.config,
                name.as_str(),
                tls_enabled,
                &group.cli_overrides,
                &platform.snippets,
                &platform.opa_level_names,
            ),
        ),
        env,
        ports: one_item(
            ContainerPort {
                name: Some(port_name_of_app(tls_enabled).to_owned()),
                container_port: port_of_app(tls_enabled) as i32,
            },
        ),
        volume_mounts: build_opa_mounts(tls_enabled),
        resources: Some(group.config.resources.to_requirements()),
        readiness_probe: Some(
            http_readiness_probe(
                Some(OPA_PROBE_PATH.to_owned()),
                IntOrString::Name(port_name_of_app(tls_enabled).to_owned()),
                Some(scheme_of_probe(tls_enabled)),
            ),
        ),
        liveness_probe: Some(
            http_liveness_probe(
                Some(OPA_PROBE_PATH.to_owned()),
                IntOrString::Name(port_name_of_app(tls_enabled).to_owned()),
                Some(scheme_of_probe(tls_enabled)),
            ),
        ),
        name,
    }
}

/// The path of a configuration file.
pub open spec fn config_path(file: ConfigFileName) -> Seq<char> {
    CONFIG_DIR@ + "/"@ + file.spec_name()
}

fn path_of_config(file: ConfigFileName) -> (path: String)
    ensures
        path@ == config_path(file),
{
    let mut path = CONFIG_DIR.to_owned();
    path.append("/");
    path.append(file.name().as_str());
    path
}

/// The environment of an info fetcher before its backend is looked at.
pub open spec fn fetcher_env(
    config: ValidatedOpaConfigView,
    container: ContainerName,
    file: ConfigFileName,
    cluster_domain: Seq<char>,
) -> Map<Seq<char>, EnvVarValueView> {
    with_rust_cli_env(
        Map::empty().insert(CONFIG@, EnvVarValueView::Value(config_path(file))).insert(
            CREDENTIALS_DIR_ENV@,
            EnvVarValueView::Value(CREDENTIALS_DIR@),
        ),
        cluster_domain,
        sidecar_container_level(config, container),
        container.spec_name(),
    )
}

fn build_fetcher_env(
    config: &ValidatedOpaConfig,
    container: ContainerName,
    file: ConfigFileName,
    cluster_domain: &str,
) -> (env: EnvVarSet)
    ensures
        env@ == fetcher_env(config.deep_view(), container, file, cluster_domain@),
{
    let env = EnvVarSet::new().with_value(CONFIG, path_of_config(file).as_str()).with_value(
        CREDENTIALS_DIR_ENV,
        CREDENTIALS_DIR,
    );
    add_rust_cli_env(
        env,
        cluster_domain,
        sidecar_container_log_level(config, container),
        container.name().as_str(),
    )
}

/// The environment with what a backend adds: a Kerberos client needs its configuration and keytab,
/// and keeps tickets in memory only.
pub open spec fn with_backend_env(
    env: Map<Seq<char>, EnvVarValueView>,
    backend: user_info_fetcher::BackendView,
) -> Map<Seq<char>, EnvVarValueView> {
    match backend {
        user_info_fetcher::BackendView::ActiveDirectory(_) => env.insert(
            KRB5_CONFIG@,
            EnvVarValueView::Value(KERBEROS_DIR@ + "/krb5.conf"@),
        ).insert(KRB5_CLIENT_KTNAME@, EnvVarValueView::Value(KERBEROS_DIR@ + "/keytab"@)).insert(
            KRB5CCNAME@,
            EnvVarValueView::Value("MEMORY:"@),
        ),
        _ => env,
    }
}

fn add_backend_env(env: EnvVarSet, backend: &user_info_fetcher::Backend) -> (result: EnvVarSet)
    ensures
        result@ == with_backend_env(env@, backend.deep_view()),
{
    match backend {
        user_info_fetcher::Backend::ActiveDirectory(_) => {
            let mut krb5_config = KERBEROS_DIR.to_owned();
            krb5_config.append("/krb5.conf");
            let mut keytab = KERBEROS_DIR.to_owned();
            keytab.append("/keytab");
            env.with_value(KRB5_CONFIG, krb5_config.as_str()).with_value(
                KRB5_CLIENT_KTNAME,
                keytab.as_str(),
            ).with_value(KRB5CCNAME, "MEMORY:")
        },
        _ => env,
    }
}

/// The container of an info fetcher.
pub open spec fn fetcher_container(
    image: ResolvedProductImageView,
    container: ContainerName,
    fetcher_image: Seq<char>,
    command: Seq<char>,
    env: Map<Seq<char>, EnvVarValueView>,
    mounts: Seq<VolumeMountView>,
) -> ContainerView {
    ContainerView {
        name: container.spec_name(),
        image: Some(fetcher_image),
        image_pull_policy: Some(image.image_pull_policy),
        command: seq![command],
        args: Seq::empty(),
        env: env_list(env),
        ports: Seq::empty(),
        volume_mounts: mounts,
        resources: Some(sidecar_resources()),
        readiness_probe: None,
        liveness_probe: None,
    }
}

fn build_fetcher_container(
    image: &ResolvedProductImage,
    container: ContainerName,
    fetcher_image: &str,
    command: &str,
    env: EnvVarSet,
    mounts: Vec<VolumeMount>,
) -> (result: Container)
    ensures
        result.deep_view() == fetcher_container(
            image.deep_view(),
            container,
            fetcher_image@,
            command@,
            env@,
            mounts.deep_view(),
        ),
{
    Container {
        name: container.name(),
        image: Some(fetcher_image.to_owned()),
        image_pull_policy: Some(image.image_pull_policy.clone()),
        command: one_item(command.to_owned()),
        args: no_items(),
        env: env.to_vec(),
        ports: no_items(),
        volume_mounts: mounts,
        resources: Some(sidecar_resource_requirements()),
        readiness_probe: None,
        liveness_probe: None,
    }
}

/// The containers and volumes of a Pod.
#[verifier::ext_equal]
pub struct PodParts {
    pub containers: Seq<ContainerView>,
    pub volumes: Seq<VolumeView>,
}

/// What the platform provides, as a result.
pub open spec fn provided_result(provided: CheckedView<AddedVolumesView>) -> Result<
    AddedVolumesView,
    Seq<char>,
> {
    match provided {
        CheckedView::Valid(added) => Ok(added),
        CheckedView::Invalid(error) => Err(error),
    }
}

fn provided(checked: &Checked<AddedVolumes>) -> (result: Result<&AddedVolumes, &str>)
    ensures
        info_fetcher_sidecar::provided_view(result) == provided_result(checked.deep_view()),
{
    match checked {
        Checked::Valid(added) => Ok(added),
        Checked::Invalid(error) => Err(error.as_str()),
    }
}

/// The mounts of the user-info-fetcher before its backend is looked at.
///
/// Its log files have to land on the shared log volume, because that is the only place the Vector
/// agent collects them from.
pub open spec fn user_info_fetcher_mounts() -> Seq<VolumeMountView> {
    seq![
        mount_view(CONFIG_VOLUME_NAME@, CONFIG_DIR@),
        mount_view(LOG_VOLUME_NAME@, STACKABLE_LOG_DIR@),
    ]
}

/// The Pod with a user-info-fetcher, where one is configured.
pub open spec fn with_user_info_fetcher(
    before: PodParts,
    cluster: ValidatedClusterView,
    config: ValidatedOpaConfigView,
    user_info_fetcher_image: Seq<char>,
    cluster_domain: Seq<char>,
    platform: PlatformPartsView,
) -> Result<PodParts, info_fetcher_sidecar::ErrorView> {
    match cluster.cluster_config.user_info {
        None => Ok(before),
        Some(user_info) => match needs_added(
            user_info_fetcher::backend_needs(user_info.backend),
            cluster.name,
            mount_view(USER_INFO_FETCHER_CREDENTIALS_VOLUME_NAME@, CREDENTIALS_DIR@),
            provided_result(platform.user_info_volumes),
            SidecarVolumes { volumes: before.volumes, mounts: user_info_fetcher_mounts() },
        ) {
            Err(error) => Err(error),
            Ok(after) => Ok(
                PodParts {
                    containers: before.containers.push(
                        fetcher_container(
                            cluster.image,
                            ContainerName::UserInfoFetcher,
                            user_info_fetcher_image,
                            "stackable-opa-user-info-fetcher"@,
                            with_backend_env(
                                fetcher_env(
                                    config,
                                    ContainerName::UserInfoFetcher,
                                    ConfigFileName::UserInfoFetcher,
                                    cluster_domain,
                                ),
                                user_info.backend,
                            ),
                            after.mounts,
                        ),
                    ),
                    volumes: after.volumes,
                },
            ),
        },
    }
}

/// Adds a user-info-fetcher to the Pod, where one is configured.
pub fn add_user_info_fetcher_sidecar(
    containers: &mut Vec<Container>,
    volumes: &mut Vec<Volume>,
    cluster: &ValidatedCluster,
    merged_config: &ValidatedOpaConfig,
    user_info_fetcher_image: &str,
    cluster_domain: &str,
    platform: &PlatformParts,
) -> (result: Result<(), info_fetcher_sidecar::Error>)
    ensures
        match with_user_info_fetcher(
            PodParts {
                containers: old(containers).deep_view(),
                volumes: old(volumes).deep_view(),
            },
            cluster.deep_view(),
            merged_config.deep_view(),
            user_info_fetcher_image@,
            cluster_domain@,
            platform.deep_view(),
        ) {
            Ok(after) => result is Ok && final(containers).deep_view() == after.containers
                && final(volumes).deep_view() == after.volumes,
            Err(expected) => result matches Err(error) && error.deep_view() == expected
                && final(containers).deep_view() == old(containers).deep_view(),
        },
        begins_with(final(volumes).deep_view(), old(volumes).deep_view()),
{
    let user_info = match &cluster.cluster_config.user_info {
        Some(user_info) => user_info,
        None => return Ok(()),
    };
    let env = add_backend_env(
        build_fetcher_env(
            merged_config,
            ContainerName::UserInfoFetcher,
            ConfigFileName::UserInfoFetcher,
            cluster_domain,
        ),
        &user_info.backend,
    );
    let mut mounts = two_mounts(
        mount(CONFIG_VOLUME_NAME, CONFIG_DIR),
        mount(LOG_VOLUME_NAME, STACKABLE_LOG_DIR),
    );
    if let Err(error) = add_needs(
        &user_info.backend.needs(),
        cluster.name.as_str(),
        mount(USER_INFO_FETCHER_CREDENTIALS_VOLUME_NAME, CREDENTIALS_DIR),
        provided(&platform.user_info_volumes),
        volumes,
        &mut mounts,
    ) {
        return Err(error);
    }
    push_item(
        containers,
        build_fetcher_container(
            &cluster.image,
            ContainerName::UserInfoFetcher,
            user_info_fetcher_image,
            "stackable-opa-user-info-fetcher",
            env,
            mounts,
        ),
    );
    Ok(())
}

/// The mounts of the resource-info-fetcher before its backend is looked at.
pub open spec fn resource_info_fetcher_mounts() -> Seq<VolumeMountView> {
    seq![
        read_only_mount_view(CONFIG_VOLUME_NAME@, CONFIG_DIR@),
        mount_view(LOG_VOLUME_NAME@, STACKABLE_LOG_DIR@),
    ]
}

/// The Pod with a resource-info-fetcher, where one is configured.
pub open spec fn with_resource_info_fetcher(
    before: PodParts,
    cluster: ValidatedClusterView,
    config: ValidatedOpaConfigView,
    resource_info_fetcher_image: Seq<char>,
    cluster_domain: Seq<char>,
    platform: PlatformPartsView,
) -> Result<PodParts, info_fetcher_sidecar::ErrorView> {
    match cluster.cluster_config.resource_info {
        None => Ok(before),
        Some(resource_info) => match needs_added(
            resource_info_fetcher::backend_needs(resource_info.backend),
            cluster.name,
            read_only_mount_view(RESOURCE_INFO_FETCHER_CREDENTIALS_VOLUME_NAME@, CREDENTIALS_DIR@),
            provided_result(platform.resource_info_volumes),
            SidecarVolumes { volumes: before.volumes, mounts: resource_info_fetcher_mounts() },
        ) {
            Err(error) => Err(error),
            Ok(after) => Ok(
                PodParts {
                    containers: before.containers.push(
                        fetcher_container(
                            cluster.image,
                            ContainerName::ResourceInfoFetcher,
                            resource_info_fetcher_image,
                            "stackable-opa-resource-info-fetcher"@,
                            fetcher_env(
                                config,
                                ContainerName::ResourceInfoFetcher,
                                ConfigFileName::ResourceInfoFetcher,
                                cluster_domain,
                            ),
                            after.mounts,
                        ),
                    ),
                    volumes: after.volumes,
                },
            ),
        },
    }
}

/// Adds a resource-info-fetcher to the Pod, where one is configured.
pub fn add_resource_info_fetcher_sidecar(
    containers: &mut Vec<Container>,
    volumes: &mut Vec<Volume>,
    cluster: &ValidatedCluster,
    merged_config: &ValidatedOpaConfig,
    resource_info_fetcher_image: &str,
    cluster_domain: &str,
    platform: &PlatformParts,
) -> (result: Result<(), info_fetcher_sidecar::Error>)
    ensures
        match with_resource_info_fetcher(
            PodParts {
                containers: old(containers).deep_view(),
                volumes: old(volumes).deep_view(),
            },
            cluster.deep_view(),
            merged_config.deep_view(),
            resource_info_fetcher_image@,
            cluster_domain@,
            platform.deep_view(),
        ) {
            Ok(after) => result is Ok && final(containers).deep_view() == after.containers
                && final(volumes).deep_view() == after.volumes,
            Err(expected) => result matches Err(error) && error.deep_view() == expected
                && final(containers).deep_view() == old(containers).deep_view(),
        },
        begins_with(final(volumes).deep_view(), old(volumes).deep_view()),
{
    let resource_info = match &cluster.cluster_config.resource_info {
        Some(resource_info) => resource_info,
        None => return Ok(()),
    };
    let env = build_fetcher_env(
        merged_config,
        ContainerName::ResourceInfoFetcher,
        ConfigFileName::ResourceInfoFetcher,
        cluster_domain,
    );
    let mut mounts = two_mounts(
        read_only_mount(CONFIG_VOLUME_NAME, CONFIG_DIR),
        mount(LOG_VOLUME_NAME, STACKABLE_LOG_DIR),
    );
    if let Err(error) = add_needs(
        &resource_info.backend.needs(),
        cluster.name.as_str(),
        read_only_mount(RESOURCE_INFO_FETCHER_CREDENTIALS_VOLUME_NAME, CREDENTIALS_DIR),
        provided(&platform.resource_info_volumes),
        volumes,
        &mut mounts,
    ) {
        return Err(error);
    }
    push_item(
        containers,
        build_fetcher_container(
            &cluster.image,
            ContainerName::ResourceInfoFetcher,
            resource_info_fetcher_image,
            "stackable-opa-resource-info-fetcher",
            env,
            mounts,
        ),
    );
    Ok(())
}

/// The volume with the certificate and key of OPA, valid for all Services that lead to it.
pub open spec fn tls_volume_view(
    cluster: ValidatedClusterView,
    role_group_name: Seq<char>,
    secret_class: Seq<char>,
) -> VolumeView {
    VolumeView {
        name: TLS_VOLUME_NAME@,
        source: VolumeSourceView::SecretClass(
            SecretClassVolumeView {
                secret_class,
                scope: Some(
                    SecretClassVolumeScopeView {
                        pod: false,
                        node: false,
                        services: seq![
                            role_service_name(cluster),
                            group_headless_name(cluster, role_group_name),
                            group_metrics_name(cluster, role_group_name),
                        ],
                        listener_volumes: Seq::empty(),
                    },
                ),
                provision_private_parts: true,
            },
        ),
    }
}

fn tls_volume(cluster: &ValidatedCluster, role_group_name: &str, secret_class: &str) -> (volume: Volume)
    ensures
        volume.deep_view() == tls_volume_view(
            cluster.deep_view(),
            role_group_name@,
            secret_class@,
        ),
{
    let mut services: Vec<String> = no_items();
    push_item(&mut services, cluster.server_role_service_name());
    push_item(&mut services, cluster.headless_service_name(role_group_name));
    push_item(&mut services, cluster.metrics_service_name(role_group_name));
    assert(services.deep_view() =~= seq![
        role_service_name(cluster.deep_view()),
        group_headless_name(cluster.deep_view(), role_group_name@),
        group_metrics_name(cluster.deep_view(), role_group_name@),
    ]);
    Volume {
        name: TLS_VOLUME_NAME.to_owned(),
        source: VolumeSource::SecretClass(
            SecretClassVolume {
                secret_class: secret_class.to_owned(),
                scope: Some(
                    SecretClassVolumeScope {
                        pod: false,
                        node: false,
                        services,
                        listener_volumes: no_items(),
                    },
                ),
                provision_private_parts: true,
            },
        ),
    }
}

/// The volumes that every OPA Pod has, and that with the certificate where TLS is enabled.
pub open spec fn base_volumes(
    cluster: ValidatedClusterView,
    role_group_name: Seq<char>,
    platform: PlatformPartsView,
) -> Seq<VolumeView> {
    let volumes = seq![
        config_map_volume_view(CONFIG_VOLUME_NAME@, group_object_name(cluster, role_group_name)),
        empty_volume_view(BUNDLES_VOLUME_NAME@, None),
        empty_volume_view(LOG_VOLUME_NAME@, Some(platform.log_volume_size_limit)),
    ];
    match cluster.cluster_config.tls {
        Some(tls) => volumes.push(
            tls_volume_view(cluster, role_group_name, tls.server_secret_class),
        ),
        None => volumes,
    }
}

fn build_base_volumes(
    cluster: &ValidatedCluster,
    role_group_name: &str,
    platform: &PlatformParts,
) -> (volumes: Vec<Volume>)
    ensures
        volumes.deep_view() == base_volumes(
            cluster.deep_view(),
            role_group_name@,
            platform.deep_view(),
        ),
{
    let mut volumes: Vec<Volume> = no_items();
    push_item(
        &mut volumes,
        config_map_volume(
            CONFIG_VOLUME_NAME,
            cluster.role_group_object_name(role_group_name).as_str(),
        ),
    );
    push_item(&mut volumes, empty_volume(BUNDLES_VOLUME_NAME, None));
    push_item(
        &mut volumes,
        empty_volume(LOG_VOLUME_NAME, Some(platform.log_volume_size_limit.clone())),
    );
    if let Some(tls) = &cluster.cluster_config.tls {
        push_item(
            &mut volumes,
            tls_volume(cluster, role_group_name, tls.server_secret_class.as_str()),
        );
    }
    assert(volumes.deep_view() =~= base_volumes(
        cluster.deep_view(),
        role_group_name@,
        platform.deep_view(),
    ));
    volumes
}

/// The images and settings that all Pods of a cluster share.
pub struct PodInputs<'a> {
    pub opa_bundle_builder_image: &'a str,
    pub user_info_fetcher_image: &'a str,
    pub resource_info_fetcher_image: &'a str,
    pub cluster_domain: &'a str,
}

/// The containers and volumes of a role group's Pods.
pub open spec fn pod_parts(
    cluster: ValidatedClusterView,
    role_group_name: Seq<char>,
    group: OpaRoleGroupConfigView,
    inputs: PodInputs,
    platform: PlatformPartsView,
) -> Result<PodParts, ErrorView> {
    match with_user_info_fetcher(
        PodParts {
            containers: seq![
                opa_container(cluster.image, group, tls_enabled(cluster), platform),
                bundle_builder_container(
                    cluster.image,
                    group.config,
                    inputs.opa_bundle_builder_image@,
                    inputs.cluster_domain@,
                    platform,
                ),
            ],
            volumes: base_volumes(cluster, role_group_name, platform),
        },
        cluster,
        group.config,
        inputs.user_info_fetcher_image@,
        inputs.cluster_domain@,
        platform,
    ) {
        Err(error) => Err(ErrorView::BuildUserInfoFetcherSidecar(error)),
        Ok(parts) => match with_resource_info_fetcher(
            parts,
            cluster,
            group.config,
            inputs.resource_info_fetcher_image@,
            inputs.cluster_domain@,
            platform,
        ) {
            Err(error) => Err(ErrorView::BuildResourceInfoFetcherSidecar(error)),
            Ok(parts) => match group.config.logging.vector_container {
                Some(_) => Ok(
                    PodParts {
                        containers: parts.containers.push(platform.vector_container),
                        volumes: parts.volumes,
                    },
                ),
                None => Ok(parts),
            },
        },
    }
}

/// The template of a role group's Pods, before the user's Pod overrides are applied to it.
pub open spec fn pod_template(
    cluster: ValidatedClusterView,
    role_group_name: Seq<char>,
    group: OpaRoleGroupConfigView,
    inputs: PodInputs,
    platform: PlatformPartsView,
) -> Result<PodTemplateView, ErrorView> {
    match pod_parts(cluster, role_group_name, group, inputs, platform) {
        Err(error) => Err(error),
        Ok(parts) => match grace_period(group.config.graceful_shutdown_timeout) {
            Err(_) => Err(ErrorView::GracefulShutdown),
            Ok(termination_grace_period_seconds) => Ok(
                PodTemplateView {
                    metadata: ObjectMetaView {
                        labels: Some(object_labels(cluster, role_group_name)),
                        ..empty_meta()
                    },
                    init_containers: seq![
                        prepare_container(cluster.image, group.config, platform),
                    ],
                    containers: parts.containers,
                    volumes: parts.volumes,
                    affinity: group.config.affinity,
                    image_pull_secrets: cluster.image.pull_secrets,
                    service_account_name: Some(account_name(cluster)),
                    security_context: Some(
                        PodSecurityContextView { stackable_defaults: true, fs_group: Some(1000) },
                    ),
                    termination_grace_period_seconds,
                },
            ),
        },
    }
}

/// Builds the template of a role group's Pods, before the user's Pod overrides are applied to it.
///
/// The template is the same for every workload kind. It carries the `prepare` init container, the
/// OPA and bundle-builder containers, the optional sidecars, and all volumes they mount.
pub fn build_server_rolegroup_pod_template(
    cluster: &ValidatedCluster,
    role_group_name: &str,
    role_group: &OpaRoleGroupConfig,
    inputs: &PodInputs,
    platform: &PlatformParts,
) -> (result: Result<PodTemplate, Error>)
    ensures
        match pod_template(
            cluster.deep_view(),
            role_group_name@,
            role_group.deep_view(),
            *inputs,
            platform.deep_view(),
        ) {
            Ok(expected) => result matches Ok(template) && template.deep_view() == expected,
            Err(expected) => result matches Err(error) && error.deep_view() == expected,
        },
{
    let config = &role_group.config;
    let mut volumes = build_base_volumes(cluster, role_group_name, platform);
    let mut containers: Vec<Container> = no_items();
    push_item(
        &mut containers,
        build_opa_container(&cluster.image, role_group, cluster.is_tls_enabled(), platform),
    );
    push_item(
        &mut containers,
        build_bundle_builder_container(
            &cluster.image,
            config,
            inputs.opa_bundle_builder_image,
            inputs.cluster_domain,
            platform,
        ),
    );
    assert(containers.deep_view() =~= seq![
        opa_container(
            cluster.deep_view().image,
            role_group.deep_view(),
            tls_enabled(cluster.deep_view()),
            platform.deep_view(),
        ),
        bundle_builder_container(
            cluster.deep_view().image,
            config.deep_view(),
            inputs.opa_bundle_builder_image@,
            inputs.cluster_domain@,
            platform.deep_view(),
        ),
    ]);
    if let Err(error) = add_user_info_fetcher_sidecar(
        &mut containers,
        &mut volumes,
        cluster,
        config,
        inputs.user_info_fetcher_image,
        inputs.cluster_domain,
        platform,
    ) {
        return Err(Error::BuildUserInfoFetcherSidecar(error));
    }
    if let Err(error) = add_resource_info_fetcher_sidecar(
        &mut containers,
        &mut volumes,
        cluster,
        config,
        inputs.resource_info_fetcher_image,
        inputs.cluster_domain,
        platform,
    ) {
        return Err(Error::BuildResourceInfoFetcherSidecar(error));
    }
    if config.logging.vector_container.is_some() {
        push_item(&mut containers, platform.vector_container.duplicate());
    }
    let termination_grace_period_seconds = match graceful_shutdown_config(
        config.graceful_shutdown_timeout,
    ) {
        Ok(seconds) => seconds,
        Err(_) => return Err(Error::GracefulShutdown),
    };
    let mut metadata = no_meta();
    metadata.labels = Some(cluster.recommended_labels(role_group_name));
    Ok(
        PodTemplate {
            metadata,
            init_containers: one_item(build_prepare_container(&cluster.image, config, platform)),
            containers,
            volumes,
            affinity: config.affinity.duplicate(),
            image_pull_secrets: cluster.image.pull_secrets.duplicate(),
            service_account_name: Some(cluster.service_account_name()),
            security_context: Some(
                PodSecurityContext { stackable_defaults: true, fs_group: Some(1000) },
            ),
            termination_grace_period_seconds,
        },
    )
}

/// Replaces Pods one after the other, so that there are never fewer than there should be.
pub open spec fn rolling_update() -> UpdateStrategyView {
    UpdateStrategyView {
        type_: Some("RollingUpdate"@),
        rolling_update: Some(
            RollingUpdateView {
                max_surge: Some(IntOrStringView::Int(1)),
                max_unavailable: Some(IntOrStringView::Int(0)),
            },
        ),
    }
}

fn build_rolling_update() -> (strategy: UpdateStrategy)
    ensures
        strategy.deep_view() == rolling_update(),
{
    UpdateStrategy {
        type_: Some("RollingUpdate".to_owned()),
        rolling_update: Some(
            RollingUpdate {
                max_surge: Some(IntOrString::Int(1)),
                max_unavailable: Some(IntOrString::Int(0)),
            },
        ),
    }
}

/// The DaemonSet of a role group, before the user's Pod overrides are applied to its template.
pub open spec fn rolegroup_daemonset(
    cluster: ValidatedClusterView,
    role_group_name: Seq<char>,
    group: OpaRoleGroupConfigView,
    inputs: PodInputs,
    platform: PlatformPartsView,
) -> Result<DaemonSetView, ErrorView> {
    match pod_template(cluster, role_group_name, group, inputs, platform) {
        Err(error) => Err(error),
        Ok(template) => Ok(
            DaemonSetView {
                metadata: owned_object_meta(
                    cluster,
                    group_object_name(cluster, role_group_name),
                    object_labels(cluster, role_group_name),
                ),
                spec: Some(
                    DaemonSetSpecView {
                        selector: LabelSelectorView {
                            match_labels: Some(group_labels(cluster, role_group_name)),
                            match_expressions: None,
                        },
                        template,
                        update_strategy: Some(rolling_update()),
                    },
                ),
            },
        ),
    }
}

/// Builds the DaemonSet that runs OPA on every node, before the user's Pod overrides are applied to
/// its template.
pub fn build_server_rolegroup_daemonset(
    cluster: &ValidatedCluster,
    role_group_name: &str,
    role_group: &OpaRoleGroupConfig,
    inputs: &PodInputs,
    platform: &PlatformParts,
) -> (result: Result<DaemonSet, Error>)
    ensures
        match rolegroup_daemonset(
            cluster.deep_view(),
            role_group_name@,
            role_group.deep_view(),
            *inputs,
            platform.deep_view(),
        ) {
            Ok(expected) => result matches Ok(daemonset) && daemonset.deep_view() == expected,
            Err(expected) => result matches Err(error) && error.deep_view() == expected,
        },
{
    let template = match build_server_rolegroup_pod_template(
        cluster,
        role_group_name,
        role_group,
        inputs,
        platform,
    ) {
        Ok(template) => template,
        Err(error) => return Err(error),
    };
    Ok(
        DaemonSet {
            metadata: cluster.object_meta(
                cluster.role_group_object_name(role_group_name),
                cluster.recommended_labels(role_group_name),
            ),
            spec: Some(
                DaemonSetSpec {
                    selector: LabelSelector {
                        match_labels: Some(cluster.role_group_selector(role_group_name)),
                        match_expressions: None,
                    },
                    template,
                    update_strategy: Some(build_rolling_update()),
                },
            ),
        },
    )
}

/// The number of replicas as a Deployment takes it. Left unset, Kubernetes applies its own default.
pub open spec fn deployment_replicas(replicas: Option<u16>) -> Option<i32> {
    match replicas {
        Some(replicas) => Some(replicas as i32),
        None => None,
    }
}

/// The Deployment of a role group, before the user's Pod overrides are applied to its template.
pub open spec fn rolegroup_deployment(
    cluster: ValidatedClusterView,
    role_group_name: Seq<char>,
    group: OpaRoleGroupConfigView,
    inputs: PodInputs,
    platform: PlatformPartsView,
) -> Result<DeploymentView, ErrorView> {
    match pod_template(cluster, role_group_name, group, inputs, platform) {
        Err(error) => Err(error),
        Ok(template) => Ok(
            DeploymentView {
                metadata: owned_object_meta(
                    cluster,
                    group_object_name(cluster, role_group_name),
                    object_labels(cluster, role_group_name),
                ),
                spec: Some(
                    DeploymentSpecView {
                        replicas: deployment_replicas(group.replicas),
                        selector: LabelSelectorView {
                            match_labels: Some(group_labels(cluster, role_group_name)),
                            match_expressions: None,
                        },
                        template,
                        strategy: Some(rolling_update()),
                    },
                ),
            },
        ),
    }
}

/// Builds the Deployment that runs a fixed number of OPA replicas, before the user's Pod overrides
/// are applied to its template.
///
/// Its Pods do not cover every node, so the role Service has to route to any of them rather than to
/// a node-local one.
pub fn build_server_rolegroup_deployment(
    cluster: &ValidatedCluster,
    role_group_name: &str,
    role_group: &OpaRoleGroupConfig,
    inputs: &PodInputs,
    platform: &PlatformParts,
) -> (result: Result<Deployment, Error>)
    ensures
        match rolegroup_deployment(
            cluster.deep_view(),
            role_group_name@,
            role_group.deep_view(),
            *inputs,
            platform.deep_view(),
        ) {
            Ok(expected) => result matches Ok(deployment) && deployment.deep_view() == expected,
            Err(expected) => result matches Err(error) && error.deep_view() == expected,
        },
{
    let template = match build_server_rolegroup_pod_template(
        cluster,
        role_group_name,
        role_group,
        inputs,
        platform,
    ) {
        Ok(template) => template,
        Err(error) => return Err(error),
    };
    let replicas: Option<i32> = match role_group.replicas {
        Some(replicas) => Some(replicas as i32),
        None => None,
    };
    Ok(
        Deployment {
            metadata: cluster.object_meta(
                cluster.role_group_object_name(role_group_name),
                cluster.recommended_labels(role_group_name),
            ),
            spec: Some(
                DeploymentSpec {
                    replicas,
                    selector: LabelSelector {
                        match_labels: Some(cluster.role_group_selector(role_group_name)),
                        match_expressions: None,
                    },
                    template,
                    strategy: Some(build_rolling_update()),
                },
            ),
        },
    )
}

} // verus!
