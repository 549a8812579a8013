//! What the Pods of a role group hold.
use crate::info_fetcher_sidecar;
use crate::info_fetcher_sidecar::{SidecarVolumes, CREDENTIALS_DIR, KERBEROS_DIR};
use crate::kubernetes::builder::CollisionErrorView;
use crate::kubernetes::container_shape::{
    configures_program, gets_sidecar_share, lemma_log_directory, lemma_rust_cli_env, mounted, probes,
    runs, sets, sets_from_field,
};
use crate::kubernetes::env_var_set::{configured_env, lemma_configured_env};
use crate::kubernetes::parts::{mount_view, rust_cli_env};
use crate::kubernetes::pod::{
    ContainerView, EmptyDirVolumeSourceView, IntOrStringView, VolumeMountView, VolumeSourceView,
    VolumeView,
};
use crate::labels::lemma_label_keys_differ;
use crate::logging::{log_of, sidecar_level_name, spelled};
use crate::names::role_group_name;
use crate::pod_consistency::{consistent, lemma_needs_are_met, lemma_needs_only_add};
use crate::script_guarantees::{lemma_opa_is_run, lemma_opa_log_output};
use crate::start_command::{
    bundle_builder_script, log_levels, opa_level, prepare_commands, server_script,
};
use crate::text::{contains_text, decimal, joined};
use crate::user_info_fetcher::backend_needs;
use crate::v1alpha1::controller::{
    backend_env, base_volumes, bundle_builder_container, opa_container, pod_template,
    prepare_container, sidecar_container_level, sidecar_error, user_info_fetcher_base,
    with_user_info_fetcher, with_vector, ErrorView, PodInputsView, PodParts,
    USER_INFO_FETCHER_CREDENTIALS_VOLUME_NAME,
};
use crate::v1alpha1::crd::{container_log, Container, LoggingView, OpaClusterView};
use crate::v1alpha1::guarantees::lemma_base_volumes;
use vstd::prelude::*;

verus! {

/// The logging of each container is looked up under the name of that container.
pub proof fn lemma_container_log(logging: LoggingView)
    ensures
        container_log(logging, Container::Prepare) == log_of(logging.containers, "prepare"@),
        container_log(logging, Container::Opa) == log_of(logging.containers, "opa"@),
        container_log(logging, Container::BundleBuilder) == log_of(
            logging.containers,
            "bundle-builder"@,
        ),
        container_log(logging, Container::UserInfoFetcher) == log_of(
            logging.containers,
            "user-info-fetcher"@,
        ),
        container_log(logging, Container::Vector) == log_of(logging.containers, "vector"@),
{
}

/// The containers and volumes that every Pod has.
spec fn first_parts(inputs: PodInputsView) -> PodParts {
    let rolegroup = inputs.rolegroup_ref;
    PodParts {
        containers: seq![
            opa_container(inputs.image, inputs.merged_config, inputs.server_env, inputs.platform),
            bundle_builder_container(
                inputs.image,
                inputs.merged_config,
                inputs.opa_bundle_builder_image,
                inputs.cluster_domain,
                inputs.platform,
            ),
        ],
        volumes: base_volumes(
            role_group_name(rolegroup.cluster, rolegroup.role, rolegroup.role_group),
            inputs.platform,
        ),
    }
}

proof fn lemma_first_containers(opa: OpaClusterView, opa_name: Seq<char>, inputs: PodInputsView)
    ensures
        pod_template(opa, opa_name, inputs) matches Ok(template) ==> {
            let first = first_parts(inputs);
            &&& template.containers.len() >= 2
            &&& template.containers[0] == first.containers[0]
            &&& template.containers[1] == first.containers[1]
        },
{
    if let Ok(template) = pod_template(opa, opa_name, inputs) {
        let first = first_parts(inputs);
        assert(template.containers[0] == first.containers[0]);
        assert(template.containers[1] == first.containers[1]);
    }
}

/// A Pod carries the labels of its role group and is scheduled as that asks for. It runs under the
/// given account, with the pull secrets of the image, and is given five seconds more than OPA to stop.
#[verifier::rlimit(40)]
pub proof fn lemma_pod_template(opa: OpaClusterView, opa_name: Seq<char>, inputs: PodInputsView)
    ensures
        pod_template(opa, opa_name, inputs) matches Ok(template) ==> {
            let labels = template.metadata.labels->0;
            let timeout = inputs.merged_config.graceful_shutdown_timeout;
            let user_info: int = if opa.spec.cluster_config.user_info is Some {
                1
            } else {
                0
            };
            let vector: int = if inputs.merged_config.logging.enable_vector_agent {
                1
            } else {
                0
            };
            &&& template.metadata.labels is Some
            &&& labels.contains_pair("app.kubernetes.io/name"@, "opa"@)
            &&& labels.contains_pair("app.kubernetes.io/instance"@, opa_name)
            &&& labels.contains_pair(
                "app.kubernetes.io/version"@,
                inputs.image.app_version_label_value,
            )
            &&& labels.contains_pair("app.kubernetes.io/component"@, inputs.rolegroup_ref.role)
            &&& labels.contains_pair(
                "app.kubernetes.io/role-group"@,
                inputs.rolegroup_ref.role_group,
            )
            &&& template.affinity == inputs.merged_config.affinity
            &&& template.image_pull_secrets == inputs.image.pull_secrets
            &&& template.service_account_name == Some(inputs.service_account_name)
            &&& template.security_context is Some
            &&& template.security_context->0.fs_group == Some(1000i64)
            &&& !template.security_context->0.stackable_defaults
            &&& timeout is None ==> template.termination_grace_period_seconds is None
            &&& timeout is Some ==> template.termination_grace_period_seconds is Some
                && template.termination_grace_period_seconds->0 == timeout->0.secs + 5
            &&& template.init_containers.len() == 1
            &&& template.containers.len() == 2 + user_info + vector
            &&& inputs.merged_config.logging.enable_vector_agent ==> inputs.platform.vector_container
                == Ok::<_, Seq<char>>(template.containers.last())
        },
{
    lemma_label_keys_differ();
}

/// Every Pod has a volume with the configuration of its role group, one for bundles and one for logs.
#[verifier::rlimit(40)]
pub proof fn lemma_first_volumes(opa: OpaClusterView, opa_name: Seq<char>, inputs: PodInputsView)
    ensures
        pod_template(opa, opa_name, inputs) matches Ok(template) ==> {
            let config = template.volumes[0];
            let bundles = template.volumes[1];
            let log = template.volumes[2];
            let rolegroup = inputs.rolegroup_ref;
            &&& template.volumes.len() >= 3
            &&& config.name == "config"@
            &&& config.source == VolumeSourceView::ConfigMap(
                rolegroup.cluster + "-"@ + rolegroup.role + "-"@ + rolegroup.role_group,
            )
            &&& bundles.name == "bundles"@
            &&& bundles.source == VolumeSourceView::EmptyDir(
                EmptyDirVolumeSourceView { medium: None, size_limit: None },
            )
            &&& log.name == "log"@
            &&& log.source == VolumeSourceView::EmptyDir(
                EmptyDirVolumeSourceView {
                    medium: None,
                    size_limit: Some(inputs.platform.log_volume_size_limit),
                },
            )
        },
{
    if let Ok(template) = pod_template(opa, opa_name, inputs) {
        let base = first_parts(inputs).volumes;
        if let Some(user_info) = opa.spec.cluster_config.user_info {
            let fetcher = user_info_fetcher_base(
                inputs.image,
                inputs.merged_config,
                inputs.user_info_fetcher_image,
                inputs.cluster_domain,
            );
            lemma_needs_only_add(
                backend_needs(user_info.backend),
                opa_name,
                mount_view(USER_INFO_FETCHER_CREDENTIALS_VOLUME_NAME@, CREDENTIALS_DIR@),
                inputs.platform.user_info_volumes,
                SidecarVolumes { volumes: base, mounts: fetcher.volume_mounts },
            );
        }
        assert(base.is_prefix_of(template.volumes));
        assert(template.volumes[0] == base[0]);
        assert(template.volumes[1] == base[1]);
        assert(template.volumes[2] == base[2]);
    }
}

/// OPA runs from the product image, with the resources of its role group, and is asked over the port
/// that it serves whether it is ready and alive. It is told about the environment that the user set.
#[verifier::rlimit(40)]
pub proof fn lemma_opa_container(opa: OpaClusterView, opa_name: Seq<char>, inputs: PodInputsView)
    requires
        inputs.server_env.dom().finite(),
    ensures
        pod_template(opa, opa_name, inputs) matches Ok(template) ==> {
            let server = template.containers[0];
            let resources = inputs.merged_config.resources;
            let port = IntOrStringView::Name("http"@);
            &&& server.name == "opa"@
            &&& server.image == Some(inputs.image.image)
            &&& server.image_pull_policy == Some(inputs.image.image_pull_policy)
            &&& server.command == seq!["/bin/bash"@, "-x"@, "-euo"@, "pipefail"@, "-c"@]
            &&& server.ports.len() == 1
            &&& server.ports[0].name == Some("http"@)
            &&& server.ports[0].container_port == 8081
            &&& server.volume_mounts.len() == 2
            &&& mounted(server.volume_mounts, "config"@, "/stackable/config"@, false)
            &&& mounted(server.volume_mounts, "log"@, "/stackable/log"@, false)
            &&& server.resources is Some
            &&& server.resources->0.cpu_request == resources.cpu.min
            &&& server.resources->0.cpu_limit == resources.cpu.max
            &&& server.resources->0.memory_request == resources.memory.limit
            &&& server.resources->0.memory_limit == resources.memory.limit
            &&& server.readiness_probe is Some
            &&& probes(server.readiness_probe->0, port, None, None, 5)
            &&& server.readiness_probe->0.failure_threshold == Some(5i32)
            &&& server.liveness_probe is Some
            &&& probes(server.liveness_probe->0, port, None, None, 30)
            &&& server.env.len() == inputs.server_env.len() + 1
            &&& forall|name: Seq<char>| #[trigger]
                inputs.server_env.contains_key(name) ==> sets(
                    server.env,
                    name,
                    inputs.server_env[name],
                )
            &&& sets(server.env, "CONTAINERDEBUG_LOG_DIRECTORY"@, "/stackable/log/containerdebug"@)
        },
{
    lemma_first_containers(opa, opa_name, inputs);
    lemma_configured_env(inputs.server_env);
    lemma_log_directory("containerdebug"@);
    assert("/stackable/log/"@ + "containerdebug"@ == "/stackable/log/containerdebug"@) by {
        reveal_strlit("/stackable/log/");
        reveal_strlit("containerdebug");
        reveal_strlit("/stackable/log/containerdebug");
        assert("/stackable/log/"@ + "containerdebug"@ =~= "/stackable/log/containerdebug"@);
    }
    if let Ok(template) = pod_template(opa, opa_name, inputs) {
        let server = template.containers[0];
        let own = configured_env(inputs.server_env);
        assert(server.env[own.len() as int].name == "CONTAINERDEBUG_LOG_DIRECTORY"@);
        assert forall|name: Seq<char>| #[trigger] inputs.server_env.contains_key(name) implies sets(
            server.env,
            name,
            inputs.server_env[name],
        ) by {
            let i = choose|i: int| 0 <= i < own.len() && (#[trigger] own[i]).name == name;
            assert(server.env[i] == own[i]);
        }
        assert(server.volume_mounts[0].name == "config"@);
        assert(server.volume_mounts[1].name == "log"@);
    }
}

/// OPA listens on the port of its container and is configured by the file that its ConfigMap holds. It
/// logs at the levels that are set for it, is told how long it may take to stop, and nothing else.
#[verifier::rlimit(40)]
pub proof fn lemma_opa_command(opa: OpaClusterView, opa_name: Seq<char>, inputs: PodInputsView)
    ensures
        pod_template(opa, opa_name, inputs) matches Ok(template) ==> {
            let script = template.containers[0].args[0];
            let timeout = inputs.merged_config.graceful_shutdown_timeout;
            let log = log_of(inputs.merged_config.logging.containers, "opa"@);
            let levels = log_levels(log);
            &&& template.containers[0].args.len() == 1
            &&& contains_text(
                script,
                "\nopa run -s -a 0.0.0.0:"@ + decimal(8081) + " -c /stackable/config/"@
                    + "config.json"@ + " -l "@ + spelled(
                    inputs.platform.opa_level_names,
                    opa_level(log),
                ) + " --shutdown-grace-period "@ + decimal(
                    if timeout is Some {
                        timeout->0.secs as nat
                    } else {
                        120
                    },
                ) + " --disable-telemetry "@ + Seq::empty() + "&> >("@,
            )
            &&& contains_text(script, "(CONSOLE_LEVEL="@ + levels.console.spec_name() + " "@)
            &&& contains_text(script, " FILE_LEVEL="@ + levels.file.spec_name() + " "@)
            &&& contains_text(script, " DECISION_LEVEL="@ + levels.decision.spec_name() + " "@)
            &&& contains_text(script, " SERVER_LEVEL="@ + levels.server.spec_name() + " "@)
            &&& contains_text(
                script,
                " STACKABLE_LOG_DIR=/stackable/log CONTAINER_NAME="@ + "opa"@ + " process-logs)"@,
            )
        },
{
    lemma_first_containers(opa, opa_name, inputs);
    lemma_container_log(inputs.merged_config.logging);
    let timeout = inputs.merged_config.graceful_shutdown_timeout;
    let log = log_of(inputs.merged_config.logging.containers, "opa"@);
    let period = if timeout is Some {
        timeout->0.secs as nat
    } else {
        120nat
    };
    let level = spelled(inputs.platform.opa_level_names, opa_level(log));
    let snippets = inputs.platform.snippets;
    let script = server_script(
        snippets,
        8081,
        "config.json"@,
        level,
        period,
        Seq::empty(),
        log_levels(log),
        "opa"@,
    );
    lemma_opa_is_run(
        snippets,
        8081,
        "config.json"@,
        level,
        period,
        Seq::empty(),
        log_levels(log),
        "opa"@,
    );
    lemma_opa_log_output(
        snippets,
        8081,
        "config.json"@,
        level,
        period,
        Seq::empty(),
        log_levels(log),
        "opa"@,
    );
    if let Ok(template) = pod_template(opa, opa_name, inputs) {
        assert(template.containers[0].args[0] == script);
    }
}

/// The init container runs from the product image, with the resources of the role group, before all
/// others. It creates the bundle directories, and its output is captured where its logging is
/// configured.
pub proof fn lemma_prepare_container(opa: OpaClusterView, opa_name: Seq<char>, inputs: PodInputsView)
    ensures
        pod_template(opa, opa_name, inputs) matches Ok(template) ==> {
            let prepare = template.init_containers[0];
            let resources = inputs.merged_config.resources;
            let captured = log_of(inputs.merged_config.logging.containers, "prepare"@) is Some;
            &&& prepare.name == "prepare"@
            &&& prepare.image == Some(inputs.image.image)
            &&& prepare.image_pull_policy == Some(inputs.image.image_pull_policy)
            &&& runs(
                prepare,
                joined(
                    prepare_commands(
                        if captured {
                            Some(inputs.platform.capture_prepare_output)
                        } else {
                            None
                        },
                    ),
                    " && "@,
                ),
            )
            &&& prepare.env.len() == 0
            &&& prepare.volume_mounts.len() == 2
            &&& mounted(prepare.volume_mounts, "bundles"@, "/bundles"@, false)
            &&& mounted(prepare.volume_mounts, "log"@, "/stackable/log"@, false)
            &&& prepare.resources is Some
            &&& prepare.resources->0.cpu_request == resources.cpu.min
            &&& prepare.resources->0.cpu_limit == resources.cpu.max
            &&& prepare.resources->0.memory_request == resources.memory.limit
            &&& prepare.resources->0.memory_limit == resources.memory.limit
            &&& prepare.readiness_probe is None
            &&& prepare.liveness_probe is None
        },
{
    lemma_container_log(inputs.merged_config.logging);
    if let Ok(template) = pod_template(opa, opa_name, inputs) {
        let prepare = template.init_containers[0];
        assert(prepare == prepare_container(inputs.image, inputs.merged_config, inputs.platform));
        assert(prepare.volume_mounts[0].name == "bundles"@);
        assert(prepare.volume_mounts[1].name == "log"@);
    }
}

/// The bundle-builder runs from its own image, beside OPA, and watches the ConfigMaps of its own
/// namespace. It shares the bundle directory, and is asked on its port whether it is ready and alive.
#[verifier::rlimit(40)]
pub proof fn lemma_bundle_builder_container(
    opa: OpaClusterView,
    opa_name: Seq<char>,
    inputs: PodInputsView,
)
    ensures
        pod_template(opa, opa_name, inputs) matches Ok(template) ==> {
            let builder = template.containers[1];
            let logs = inputs.merged_config.logging.containers;
            let port = IntOrStringView::Int(3030);
            &&& builder.name == "bundle-builder"@
            &&& builder.image == Some(inputs.opa_bundle_builder_image)
            &&& builder.image_pull_policy == Some(inputs.image.image_pull_policy)
            &&& runs(
                builder,
                bundle_builder_script(
                    inputs.platform.snippets.trap_functions,
                    log_of(logs, "bundle-builder"@),
                    "bundle-builder"@,
                ),
            )
            &&& builder.env.len() == 6
            &&& sets_from_field(builder.env, "WATCH_NAMESPACE"@, "metadata.namespace"@)
            &&& configures_program(
                builder.env,
                inputs.cluster_domain,
                sidecar_level_name(logs, "bundle-builder"@),
                "bundle-builder"@,
            )
            &&& builder.volume_mounts.len() == 2
            &&& mounted(builder.volume_mounts, "bundles"@, "/bundles"@, false)
            &&& mounted(builder.volume_mounts, "log"@, "/stackable/log"@, false)
            &&& gets_sidecar_share(builder.resources)
            &&& builder.readiness_probe is Some
            &&& probes(builder.readiness_probe->0, port, Some("/status"@), None, 5)
            &&& builder.liveness_probe is Some
            &&& probes(builder.liveness_probe->0, port, Some("/status"@), None, 30)
        },
{
    lemma_container_log(inputs.merged_config.logging);
    lemma_first_containers(opa, opa_name, inputs);
    if let Ok(template) = pod_template(opa, opa_name, inputs) {
        let builder = template.containers[1];
        let level = sidecar_container_level(inputs.merged_config, Container::BundleBuilder);
        let own = rust_cli_env(inputs.cluster_domain, level, "bundle-builder"@);
        let first = seq![builder.env[0]];
        lemma_rust_cli_env(first, inputs.cluster_domain, level, "bundle-builder"@, Seq::empty());
        assert(builder.env =~= first + own + Seq::empty());
        assert(builder.env[0].name == "WATCH_NAMESPACE"@);
        assert(builder.volume_mounts[0].name == "bundles"@);
        assert(builder.volume_mounts[1].name == "log"@);
    }
}

/// Where it is asked for, the user-info-fetcher runs from its own image behind OPA and the
/// bundle-builder. It reads the file that is rendered for it, its credentials where they are mounted,
/// and the keytab where the backend is an Active Directory.
#[verifier::rlimit(40)]
pub proof fn lemma_user_info_fetcher_container(
    opa: OpaClusterView,
    opa_name: Seq<char>,
    inputs: PodInputsView,
)
    requires
        opa.spec.cluster_config.user_info is Some,
    ensures
        pod_template(opa, opa_name, inputs) matches Ok(template) ==> {
            let fetcher = template.containers[2];
            let logs = inputs.merged_config.logging.containers;
            &&& fetcher.name == "user-info-fetcher"@
            &&& fetcher.image == Some(inputs.user_info_fetcher_image)
            &&& fetcher.image_pull_policy == Some(inputs.image.image_pull_policy)
            &&& fetcher.command == seq!["stackable-opa-user-info-fetcher"@]
            &&& fetcher.args.len() == 0
            &&& gets_sidecar_share(fetcher.resources)
            &&& mounted(fetcher.volume_mounts, "config"@, "/stackable/config"@, false)
            &&& sets(fetcher.env, "CONFIG"@, "/stackable/config/user-info-fetcher.json"@)
            &&& sets(fetcher.env, "CREDENTIALS_DIR"@, "/stackable/credentials"@)
            &&& configures_program(
                fetcher.env,
                inputs.cluster_domain,
                sidecar_level_name(logs, "user-info-fetcher"@),
                "user-info-fetcher"@,
            )
            &&& opa.spec.cluster_config.user_info->0.backend is ActiveDirectory ==> {
                &&& fetcher.env.len() == 10
                &&& sets(fetcher.env, "KRB5_CONFIG"@, "/stackable/kerberos/krb5.conf"@)
                &&& sets(fetcher.env, "KRB5_CLIENT_KTNAME"@, "/stackable/kerberos/keytab"@)
                &&& sets(fetcher.env, "KRB5CCNAME"@, "MEMORY:"@)
            }
            &&& !(opa.spec.cluster_config.user_info->0.backend is ActiveDirectory)
                ==> fetcher.env.len() == 7
        },
{
    lemma_container_log(inputs.merged_config.logging);
    assert(crate::start_command::CONFIG_DIR@ + "/user-info-fetcher.json"@
        == "/stackable/config/user-info-fetcher.json"@) by {
        reveal_strlit("/stackable/config");
        reveal_strlit("/user-info-fetcher.json");
        reveal_strlit("/stackable/config/user-info-fetcher.json");
        assert(crate::start_command::CONFIG_DIR@ + "/user-info-fetcher.json"@
            =~= "/stackable/config/user-info-fetcher.json"@);
    }
    assert(KERBEROS_DIR@ + "/krb5.conf"@ == "/stackable/kerberos/krb5.conf"@ && KERBEROS_DIR@
        + "/keytab"@ == "/stackable/kerberos/keytab"@) by {
        reveal_strlit("/stackable/kerberos");
        reveal_strlit("/krb5.conf");
        reveal_strlit("/keytab");
        reveal_strlit("/stackable/kerberos/krb5.conf");
        reveal_strlit("/stackable/kerberos/keytab");
        assert(KERBEROS_DIR@ + "/krb5.conf"@ =~= "/stackable/kerberos/krb5.conf"@);
        assert(KERBEROS_DIR@ + "/keytab"@ =~= "/stackable/kerberos/keytab"@);
    }
    if let Ok(template) = pod_template(opa, opa_name, inputs) {
        let user_info = opa.spec.cluster_config.user_info->0;
        let first = first_parts(inputs);
        let base = user_info_fetcher_base(
            inputs.image,
            inputs.merged_config,
            inputs.user_info_fetcher_image,
            inputs.cluster_domain,
        );
        let second = with_user_info_fetcher(
            first,
            Some(user_info),
            opa_name,
            inputs.image,
            inputs.merged_config,
            inputs.user_info_fetcher_image,
            inputs.cluster_domain,
            inputs.platform,
        )->Ok_0;
        lemma_needs_only_add(
            backend_needs(user_info.backend),
            opa_name,
            mount_view(USER_INFO_FETCHER_CREDENTIALS_VOLUME_NAME@, CREDENTIALS_DIR@),
            inputs.platform.user_info_volumes,
            SidecarVolumes { volumes: first.volumes, mounts: base.volume_mounts },
        );
        let fetcher = template.containers[2];
        assert(fetcher == second.containers[2]);
        assert(fetcher.volume_mounts[0] == base.volume_mounts[0]);
        let level = sidecar_container_level(inputs.merged_config, Container::UserInfoFetcher);
        let own = rust_cli_env(inputs.cluster_domain, level, "user-info-fetcher"@);
        let start = seq![fetcher.env[0], fetcher.env[1]];
        let end = backend_env(user_info.backend);
        lemma_rust_cli_env(start, inputs.cluster_domain, level, "user-info-fetcher"@, end);
        assert(fetcher.env =~= start + own + end);
        assert(fetcher.env[0].name == "CONFIG"@);
        assert(fetcher.env[1].name == "CREDENTIALS_DIR"@);
        if user_info.backend is ActiveDirectory {
            assert(fetcher.env[7] == end[0]);
            assert(fetcher.env[8] == end[1]);
            assert(fetcher.env[9] == end[2]);
        }
    }
}

/// Where the Vector agent is enabled, a cluster has to name its aggregator, and the container of the
/// agent has to be there. What is missing is told.
pub proof fn lemma_vector_agent(
    containers: Seq<ContainerView>,
    opa: OpaClusterView,
    inputs: PodInputsView,
)
    ensures
        ({
            let logging = inputs.merged_config.logging;
            let result = with_vector(containers, opa, logging, inputs.platform);
            let container = inputs.platform.vector_container;
            if !logging.enable_vector_agent {
                result == Ok::<_, ErrorView>(containers)
            } else if opa.spec.cluster_config.vector_aggregator_config_map_name is None {
                result is Err && result->Err_0 is VectorAggregatorConfigMapMissing
            } else if container is Err {
                result is Err && result->Err_0 == ErrorView::ConfigureLogging(container->Err_0)
            } else {
                result == Ok::<_, ErrorView>(containers.push(container->Ok_0))
            }
        }),
{
}

/// A fetcher that asks with credentials finds them where it looks for them, in the Secret that its
/// backend names.
#[verifier::rlimit(40)]
pub proof fn lemma_fetcher_credentials(
    opa: OpaClusterView,
    opa_name: Seq<char>,
    inputs: PodInputsView,
)
    requires
        opa.spec.cluster_config.user_info is Some,
        backend_needs(opa.spec.cluster_config.user_info->0.backend) is Credentials,
    ensures
        pod_template(opa, opa_name, inputs) matches Ok(template) ==> {
            let needs = backend_needs(opa.spec.cluster_config.user_info->0.backend);
            &&& template.volumes.contains(
                VolumeView {
                    name: "credentials"@,
                    source: VolumeSourceView::Secret(needs->Credentials_0),
                },
            )
            &&& template.containers[2].volume_mounts.contains(
                VolumeMountView {
                    name: "credentials"@,
                    mount_path: "/stackable/credentials"@,
                    read_only: None,
                },
            )
        },
{
    if let Ok(template) = pod_template(opa, opa_name, inputs) {
        let user_info = opa.spec.cluster_config.user_info->0;
        let first = first_parts(inputs);
        let rolegroup = inputs.rolegroup_ref;
        lemma_base_volumes(
            role_group_name(rolegroup.cluster, rolegroup.role, rolegroup.role_group),
            inputs,
        );
        let base = user_info_fetcher_base(
            inputs.image,
            inputs.merged_config,
            inputs.user_info_fetcher_image,
            inputs.cluster_domain,
        );
        let start = SidecarVolumes { volumes: first.volumes, mounts: base.volume_mounts };
        assert(consistent(start));
        lemma_needs_are_met(
            backend_needs(user_info.backend),
            opa_name,
            mount_view(USER_INFO_FETCHER_CREDENTIALS_VOLUME_NAME@, CREDENTIALS_DIR@),
            inputs.platform.user_info_volumes,
            start,
        );
        let second = with_user_info_fetcher(
            first,
            Some(user_info),
            opa_name,
            inputs.image,
            inputs.merged_config,
            inputs.user_info_fetcher_image,
            inputs.cluster_domain,
            inputs.platform,
        )->Ok_0;
        assert(template.containers[2] == second.containers[2]);
        assert(template.volumes == second.volumes);
    }
}

/// A fetcher that does not fit in is reported as what did not: the keytab, the credentials, or what
/// its connection asks for.
pub proof fn lemma_sidecar_errors(collision: CollisionErrorView, reason: Seq<char>)
    ensures
        sidecar_error(info_fetcher_sidecar::ErrorView::KerberosVolume(collision))
            == ErrorView::UserInfoFetcherKerberosVolume(collision),
        sidecar_error(info_fetcher_sidecar::ErrorView::KerberosVolumeMount(collision))
            == ErrorView::UserInfoFetcherKerberosVolumeMount(collision),
        sidecar_error(info_fetcher_sidecar::ErrorView::AddVolume(collision))
            == ErrorView::AddVolume(collision),
        sidecar_error(info_fetcher_sidecar::ErrorView::AddVolumeMount(collision))
            == ErrorView::AddVolumeMount(collision),
        sidecar_error(info_fetcher_sidecar::ErrorView::TlsVolumeAndMounts(reason))
            == ErrorView::UserInfoFetcherTlsVolumeAndMounts(
            info_fetcher_sidecar::ErrorView::TlsVolumeAndMounts(reason),
        ),
{
}

} // verus!
