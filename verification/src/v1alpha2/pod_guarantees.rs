//! What the Pods of a role group hold.
use crate::config::opa_shutdown_grace_period;
use crate::info_fetcher_sidecar::{SidecarVolumes, CREDENTIALS_DIR, KERBEROS_DIR};
use crate::kubernetes::container_shape::{
    configures_program, gets_sidecar_share, lemma_listed_value, lemma_log_directory,
    lemma_rust_cli_env, lemma_with_rust_cli_env, mounted, probes, runs, sets, sets_from_field,
};
use crate::kubernetes::env_var_set::{
    configured_env, env_list, lemma_configured_env, with_rust_cli_env, EnvVarValueView,
};
use crate::kubernetes::parts::{mount_view, read_only_mount_view, rust_cli_env};
use crate::kubernetes::pod::{ContainerView, IntOrStringView};
use crate::labels::lemma_label_keys_differ;
use crate::logging::{log_of, sidecar_level_name, spelled, LogLevel};
use crate::pod_consistency::lemma_needs_only_add;
use crate::script_guarantees::{
    lemma_arguments_without_tls, lemma_no_tls_flags, lemma_opa_is_run, lemma_opa_log_output,
    lemma_overridden_arguments, lemma_script_without_tls, lemma_tls_arguments, without_tls,
};
use crate::start_command::{
    bundle_builder_script, cli_arguments, further_arguments, log_levels, opa_level,
    prepare_commands, server_script,
};
use crate::text::{contains_text, decimal, joined, lemma_contains_part, lemma_contains_transitive};
use crate::user_info_fetcher;
use crate::v1alpha2::cluster::{
    container_log, OpaRoleGroupConfigView, ValidatedClusterView, ValidatedLoggingView,
};
use crate::v1alpha2::crd::Container;
use crate::v1alpha2::guarantees::{first_parts, lemma_opa_is_first};
use crate::v1alpha2::properties::ConfigFileName;
use crate::v1alpha2::resource_info_fetcher;
use crate::v1alpha2::workload::{
    bundle_builder_container, config_path, fetcher_env, pod_template, prepare_container,
    provided_result, resource_info_fetcher_mounts, sidecar_container_level,
    user_info_fetcher_mounts, with_backend_env, with_user_info_fetcher, PlatformPartsView,
    PodInputs, CONFIG, CREDENTIALS_DIR_ENV, KRB5CCNAME, KRB5_CLIENT_KTNAME, KRB5_CONFIG,
    RESOURCE_INFO_FETCHER_CREDENTIALS_VOLUME_NAME, USER_INFO_FETCHER_CREDENTIALS_VOLUME_NAME,
};
use vstd::prelude::*;

verus! {

/// The logging of each container is looked up under the name of that container.
pub proof fn lemma_container_log(logging: ValidatedLoggingView)
    ensures
        container_log(logging, Container::Prepare) == log_of(logging.containers, "prepare"@),
        container_log(logging, Container::Opa) == log_of(logging.containers, "opa"@),
        container_log(logging, Container::BundleBuilder) == log_of(
            logging.containers,
            "bundle-builder"@,
        ),
        container_log(logging, Container::UserInfoFetcher) == log_of(
            logging.containers,
            "user-info-fetcher"@,
        ),
        container_log(logging, Container::ResourceInfoFetcher) == log_of(
            logging.containers,
            "resource-info-fetcher"@,
        ),
        container_log(logging, Container::Vector) == log_of(logging.containers, "vector"@),
{
}

/// A Pod carries the labels of its role group and is scheduled as that asks for. It runs under the
/// account of the cluster, with its pull secrets, and is given five seconds more than OPA to stop.
#[verifier::rlimit(40)]
pub proof fn lemma_pod_template(
    cluster: ValidatedClusterView,
    role_group_name: Seq<char>,
    group: OpaRoleGroupConfigView,
    inputs: PodInputs,
    platform: PlatformPartsView,
)
    ensures
        pod_template(cluster, role_group_name, group, inputs, platform) matches Ok(template) ==> {
            let labels = template.metadata.labels->0;
            let timeout = group.config.graceful_shutdown_timeout;
            let user_info: int = if cluster.cluster_config.user_info is Some {
                1
            } else {
                0
            };
            let resource_info: int = if cluster.cluster_config.resource_info is Some {
                1
            } else {
                0
            };
            let vector: int = if group.config.logging.vector_container is Some {
                1
            } else {
                0
            };
            &&& template.metadata.labels is Some
            &&& labels["app.kubernetes.io/name"@] == "opa"@
            &&& labels["app.kubernetes.io/instance"@] == cluster.name
            &&& labels["app.kubernetes.io/version"@] == cluster.product_version
            &&& labels["app.kubernetes.io/component"@] == "server"@
            &&& labels["app.kubernetes.io/role-group"@] == role_group_name
            &&& template.affinity == group.config.affinity
            &&& template.image_pull_secrets == cluster.image.pull_secrets
            &&& template.service_account_name == Some(cluster.name + "-serviceaccount"@)
            &&& template.security_context is Some
            &&& template.security_context->0.fs_group == Some(1000i64)
            &&& template.security_context->0.stackable_defaults
            &&& timeout is None ==> template.termination_grace_period_seconds is None
            &&& timeout is Some ==> template.termination_grace_period_seconds is Some
                && template.termination_grace_period_seconds->0 == timeout->0.secs + 5
            &&& template.init_containers.len() == 1
            &&& template.containers.len() == 2 + user_info + resource_info + vector
        },
{
    lemma_label_keys_differ();
}

/// OPA runs from the product image, with the resources of its role group, and is asked over the port
/// that it serves whether it is ready and alive. It is told about the environment that the user set.
#[verifier::rlimit(40)]
pub proof fn lemma_opa_container(
    cluster: ValidatedClusterView,
    role_group_name: Seq<char>,
    group: OpaRoleGroupConfigView,
    inputs: PodInputs,
    platform: PlatformPartsView,
)
    requires
        group.env_overrides.dom().finite(),
    ensures
        pod_template(cluster, role_group_name, group, inputs, platform) matches Ok(template) ==> {
            let opa = template.containers[0];
            let tls = cluster.cluster_config.tls is Some;
            let port = IntOrStringView::Name(
                if tls {
                    "https"@
                } else {
                    "http"@
                },
            );
            let scheme = Some(
                if tls {
                    "HTTPS"@
                } else {
                    "HTTP"@
                },
            );
            &&& opa.name == "opa"@
            &&& opa.image == Some(cluster.image.image)
            &&& opa.image_pull_policy == Some(cluster.image.image_pull_policy)
            &&& opa.command == seq!["/bin/bash"@, "-x"@, "-euo"@, "pipefail"@, "-c"@]
            &&& opa.ports.len() == 1
            &&& tls ==> opa.ports[0].name == Some("https"@) && opa.ports[0].container_port == 8443
            &&& !tls ==> opa.ports[0].name == Some("http"@) && opa.ports[0].container_port == 8081
            &&& mounted(opa.volume_mounts, "config"@, "/stackable/config"@, false)
            &&& mounted(opa.volume_mounts, "log"@, "/stackable/log"@, false)
            &&& tls ==> mounted(opa.volume_mounts, "tls"@, "/stackable/tls"@, false)
            &&& opa.volume_mounts.len() == if tls {
                3nat
            } else {
                2nat
            }
            &&& opa.resources is Some
            &&& opa.resources->0.cpu_request == group.config.resources.cpu.min
            &&& opa.resources->0.cpu_limit == group.config.resources.cpu.max
            &&& opa.resources->0.memory_request == group.config.resources.memory.limit
            &&& opa.resources->0.memory_limit == group.config.resources.memory.limit
            &&& opa.readiness_probe is Some
            &&& probes(opa.readiness_probe->0, port, Some("/"@), scheme, 5)
            &&& opa.readiness_probe->0.failure_threshold == Some(5i32)
            &&& opa.liveness_probe is Some
            &&& probes(opa.liveness_probe->0, port, Some("/"@), scheme, 30)
            &&& opa.env.len() == group.env_overrides.len() + 1
            &&& forall|name: Seq<char>| #[trigger]
                group.env_overrides.contains_key(name) ==> sets(
                    opa.env,
                    name,
                    group.env_overrides[name],
                )
            &&& sets(opa.env, "CONTAINERDEBUG_LOG_DIRECTORY"@, "/stackable/log/containerdebug"@)
        },
{
    lemma_opa_is_first(cluster, role_group_name, group, inputs, platform);
    lemma_configured_env(group.env_overrides);
    lemma_log_directory("containerdebug"@);
    assert("/stackable/log/"@ + "containerdebug"@ == "/stackable/log/containerdebug"@) by {
        reveal_strlit("/stackable/log/");
        reveal_strlit("containerdebug");
        reveal_strlit("/stackable/log/containerdebug");
        assert("/stackable/log/"@ + "containerdebug"@ =~= "/stackable/log/containerdebug"@);
    }
    if let Ok(template) = pod_template(cluster, role_group_name, group, inputs, platform) {
        let opa = template.containers[0];
        let tls = cluster.cluster_config.tls is Some;
        let own = configured_env(group.env_overrides);
        assert(opa.env[own.len() as int].name == "CONTAINERDEBUG_LOG_DIRECTORY"@);
        assert forall|name: Seq<char>| #[trigger]
            group.env_overrides.contains_key(name) implies sets(
            opa.env,
            name,
            group.env_overrides[name],
        ) by {
            let i = choose|i: int| 0 <= i < own.len() && (#[trigger] own[i]).name == name;
            assert(opa.env[i] == own[i]);
        }
        let n: int = if tls {
            1
        } else {
            0
        };
        assert(opa.volume_mounts[n].name == "config"@);
        assert(opa.volume_mounts[n + 1].name == "log"@);
        if tls {
            assert(opa.volume_mounts[0].name == "tls"@);
        }
    }
}

/// OPA listens on the port of its container and is configured by the file that its ConfigMap holds. It
/// logs at the levels that are set for it, and is told how long it may take to stop.
#[verifier::rlimit(40)]
pub proof fn lemma_opa_command(
    cluster: ValidatedClusterView,
    role_group_name: Seq<char>,
    group: OpaRoleGroupConfigView,
    inputs: PodInputs,
    platform: PlatformPartsView,
)
    ensures
        pod_template(cluster, role_group_name, group, inputs, platform) matches Ok(template) ==> {
            let script = template.containers[0].args[0];
            let tls = cluster.cluster_config.tls is Some;
            let timeout = group.config.graceful_shutdown_timeout;
            let log = log_of(group.config.logging.containers, "opa"@);
            let levels = log_levels(log);
            &&& contains_text(
                script,
                "\nopa run -s -a 0.0.0.0:"@ + decimal(
                    if tls {
                        8443
                    } else {
                        8081
                    },
                ) + " -c /stackable/config/"@ + "config.json"@ + " -l "@ + spelled(
                    platform.opa_level_names,
                    opa_level(log),
                ) + " --shutdown-grace-period "@ + decimal(
                    if timeout is Some {
                        timeout->0.secs as nat
                    } else {
                        120
                    },
                ) + " --disable-telemetry "@ + further_arguments(tls, group.cli_overrides) + "&> >("@,
            )
            &&& contains_text(script, "(CONSOLE_LEVEL="@ + levels.console.spec_name() + " "@)
            &&& contains_text(script, " FILE_LEVEL="@ + levels.file.spec_name() + " "@)
            &&& contains_text(script, " DECISION_LEVEL="@ + levels.decision.spec_name() + " "@)
            &&& contains_text(script, " SERVER_LEVEL="@ + levels.server.spec_name() + " "@)
            &&& contains_text(
                script,
                " STACKABLE_LOG_DIR=/stackable/log CONTAINER_NAME="@ + "opa"@ + " process-logs)"@,
            )
        },
{
    lemma_opa_is_first(cluster, role_group_name, group, inputs, platform);
    lemma_container_log(group.config.logging);
    let tls = cluster.cluster_config.tls is Some;
    let timeout = group.config.graceful_shutdown_timeout;
    let log = log_of(group.config.logging.containers, "opa"@);
    let port = if tls {
        8443nat
    } else {
        8081nat
    };
    let period = if timeout is Some {
        timeout->0.secs as nat
    } else {
        120nat
    };
    let level = spelled(platform.opa_level_names, opa_level(log));
    let arguments = further_arguments(tls, group.cli_overrides);
    let script = server_script(
        platform.snippets,
        port,
        "config.json"@,
        level,
        period,
        arguments,
        log_levels(log),
        "opa"@,
    );
    lemma_opa_is_run(
        platform.snippets,
        port,
        "config.json"@,
        level,
        period,
        arguments,
        log_levels(log),
        "opa"@,
    );
    lemma_opa_log_output(
        platform.snippets,
        port,
        "config.json"@,
        level,
        period,
        arguments,
        log_levels(log),
        "opa"@,
    );
    if let Ok(template) = pod_template(cluster, role_group_name, group, inputs, platform) {
        assert(template.containers[0].args[0] == script);
    }
}

/// With TLS, the script that starts OPA names the certificate and the private key, each under the flag
/// for it. The arguments that the user set are in it either way.
#[verifier::rlimit(40)]
pub proof fn lemma_opa_arguments(
    cluster: ValidatedClusterView,
    role_group_name: Seq<char>,
    group: OpaRoleGroupConfigView,
    inputs: PodInputs,
    platform: PlatformPartsView,
    argument: Seq<char>,
)
    requires
        group.cli_overrides.dom().finite(),
    ensures
        pod_template(cluster, role_group_name, group, inputs, platform) matches Ok(template) ==> {
            let script = template.containers[0].args[0];
            &&& cluster.cluster_config.tls is Some ==> contains_text(
                script,
                "--tls-cert-file /stackable/tls/tls.crt "@,
            ) && contains_text(script, " --tls-private-key-file /stackable/tls/tls.key "@)
            &&& group.cli_overrides.contains_key(argument) ==> contains_text(
                script,
                " "@ + argument + " "@ + group.cli_overrides[argument] + " "@,
            )
        },
{
    lemma_opa_command(cluster, role_group_name, group, inputs, platform);
    let tls = cluster.cluster_config.tls is Some;
    let arguments = further_arguments(tls, group.cli_overrides);
    if let Ok(template) = pod_template(cluster, role_group_name, group, inputs, platform) {
        let script = template.containers[0].args[0];
        let timeout = group.config.graceful_shutdown_timeout;
        let log = log_of(group.config.logging.containers, "opa"@);
        let start = "\nopa run -s -a 0.0.0.0:"@ + decimal(
            if tls {
                8443
            } else {
                8081
            },
        ) + " -c /stackable/config/"@ + "config.json"@ + " -l "@ + spelled(
            platform.opa_level_names,
            opa_level(log),
        ) + " --shutdown-grace-period "@ + decimal(
            if timeout is Some {
                timeout->0.secs as nat
            } else {
                120
            },
        ) + " --disable-telemetry "@;
        lemma_contains_part(start, arguments, "&> >("@);
        lemma_contains_transitive(script, start + arguments + "&> >("@, arguments);
        if tls {
            lemma_tls_arguments(group.cli_overrides);
            lemma_contains_transitive(
                script,
                arguments,
                "--tls-cert-file /stackable/tls/tls.crt "@,
            );
            lemma_contains_transitive(
                script,
                arguments,
                " --tls-private-key-file /stackable/tls/tls.key "@,
            );
        }
        if group.cli_overrides.contains_key(argument) {
            lemma_overridden_arguments(tls, group.cli_overrides, argument);
            lemma_contains_transitive(
                script,
                arguments,
                " "@ + argument + " "@ + group.cli_overrides[argument] + " "@,
            );
        }
    }
}

/// The init container runs from the product image, with the resources of the role group, before all
/// others. It creates the bundle directories, and its output is captured where its logging is
/// configured.
pub proof fn lemma_prepare_container(
    cluster: ValidatedClusterView,
    role_group_name: Seq<char>,
    group: OpaRoleGroupConfigView,
    inputs: PodInputs,
    platform: PlatformPartsView,
)
    ensures
        pod_template(cluster, role_group_name, group, inputs, platform) matches Ok(template) ==> {
            let prepare = template.init_containers[0];
            let captured = log_of(group.config.logging.containers, "prepare"@) is Some;
            &&& prepare.name == "prepare"@
            &&& prepare.image == Some(cluster.image.image)
            &&& prepare.image_pull_policy == Some(cluster.image.image_pull_policy)
            &&& runs(
                prepare,
                joined(
                    prepare_commands(
                        if captured {
                            Some(platform.capture_prepare_output)
                        } else {
                            None
                        },
                    ),
                    " && "@,
                ),
            )
            &&& prepare.env.len() == 0
            &&& prepare.volume_mounts.len() == 2
            &&& mounted(prepare.volume_mounts, "bundles"@, "/bundles"@, false)
            &&& mounted(prepare.volume_mounts, "log"@, "/stackable/log"@, false)
            &&& prepare.resources is Some
            &&& prepare.resources->0.cpu_request == group.config.resources.cpu.min
            &&& prepare.resources->0.cpu_limit == group.config.resources.cpu.max
            &&& prepare.resources->0.memory_request == group.config.resources.memory.limit
            &&& prepare.resources->0.memory_limit == group.config.resources.memory.limit
            &&& prepare.readiness_probe is None
            &&& prepare.liveness_probe is None
        },
{
    lemma_container_log(group.config.logging);
    if let Ok(template) = pod_template(cluster, role_group_name, group, inputs, platform) {
        let prepare = template.init_containers[0];
        assert(prepare == prepare_container(cluster.image, group.config, platform));
        assert(prepare.volume_mounts[0].name == "bundles"@);
        assert(prepare.volume_mounts[1].name == "log"@);
    }
}

/// The bundle-builder runs from its own image, beside OPA, and watches the ConfigMaps of its own
/// namespace. It shares the bundle directory, and is asked on its port whether it is ready and alive.
#[verifier::rlimit(40)]
pub proof fn lemma_bundle_builder_container(
    cluster: ValidatedClusterView,
    role_group_name: Seq<char>,
    group: OpaRoleGroupConfigView,
    inputs: PodInputs,
    platform: PlatformPartsView,
)
    ensures
        pod_template(cluster, role_group_name, group, inputs, platform) matches Ok(template) ==> {
            let builder = template.containers[1];
            let port = IntOrStringView::Int(3030);
            &&& builder.name == "bundle-builder"@
            &&& builder.image == Some(inputs.opa_bundle_builder_image@)
            &&& builder.image_pull_policy == Some(cluster.image.image_pull_policy)
            &&& runs(
                builder,
                bundle_builder_script(
                    platform.snippets.trap_functions,
                    log_of(group.config.logging.containers, "bundle-builder"@),
                    "bundle-builder"@,
                ),
            )
            &&& builder.env.len() == 6
            &&& sets_from_field(builder.env, "WATCH_NAMESPACE"@, "metadata.namespace"@)
            &&& configures_program(
                builder.env,
                inputs.cluster_domain@,
                sidecar_level_name(group.config.logging.containers, "bundle-builder"@),
                "bundle-builder"@,
            )
            &&& builder.volume_mounts.len() == 2
            &&& mounted(builder.volume_mounts, "bundles"@, "/bundles"@, false)
            &&& mounted(builder.volume_mounts, "log"@, "/stackable/log"@, false)
            &&& gets_sidecar_share(builder.resources)
            &&& builder.readiness_probe is Some
            &&& probes(builder.readiness_probe->0, port, Some("/status"@), None, 5)
            &&& builder.liveness_probe is Some
            &&& probes(builder.liveness_probe->0, port, Some("/status"@), None, 30)
        },
{
    lemma_container_log(group.config.logging);
    lemma_opa_is_first(cluster, role_group_name, group, inputs, platform);
    if let Ok(template) = pod_template(cluster, role_group_name, group, inputs, platform) {
        let builder = template.containers[1];
        assert(builder == bundle_builder_container(
            cluster.image,
            group.config,
            inputs.opa_bundle_builder_image@,
            inputs.cluster_domain@,
            platform,
        ));
        let level = sidecar_container_level(
            group.config,
            Container::BundleBuilder,
        );
        let own = rust_cli_env(inputs.cluster_domain@, level, "bundle-builder"@);
        let first = seq![builder.env[0]];
        lemma_rust_cli_env(first, inputs.cluster_domain@, level, "bundle-builder"@, Seq::empty());
        assert(builder.env =~= first + own + Seq::empty());
        assert(builder.env[0].name == "WATCH_NAMESPACE"@);
        assert(builder.volume_mounts[0].name == "bundles"@);
        assert(builder.volume_mounts[1].name == "log"@);
    }
}

proof fn lemma_fetcher_variable_names_differ()
    ensures
        CONFIG@ != CREDENTIALS_DIR_ENV@,
        CONFIG@ != KRB5_CONFIG@,
        CONFIG@ != KRB5_CLIENT_KTNAME@,
        CONFIG@ != KRB5CCNAME@,
        CREDENTIALS_DIR_ENV@ != KRB5_CONFIG@,
        CREDENTIALS_DIR_ENV@ != KRB5_CLIENT_KTNAME@,
        CREDENTIALS_DIR_ENV@ != KRB5CCNAME@,
        KRB5_CONFIG@ != KRB5_CLIENT_KTNAME@,
        KRB5_CONFIG@ != KRB5CCNAME@,
        KRB5_CLIENT_KTNAME@ != KRB5CCNAME@,
        CONFIG@.len() == 6,
        CREDENTIALS_DIR_ENV@.len() == 15,
        KRB5_CONFIG@.len() == 11,
        KRB5_CLIENT_KTNAME@.len() == 18 && KRB5_CLIENT_KTNAME@[0] == 'K',
        KRB5CCNAME@.len() == 10,
        "CONSOLE_LOG_LEVEL"@.len() == 17,
        "FILE_LOG_LEVEL"@.len() == 14,
        "FILE_LOG_DIRECTORY"@.len() == 18 && "FILE_LOG_DIRECTORY"@[0] == 'F',
        "KUBERNETES_NODE_NAME"@.len() == 20,
        "KUBERNETES_CLUSTER_DOMAIN"@.len() == 25,
{
    reveal_strlit("CONFIG");
    reveal_strlit("CREDENTIALS_DIR");
    reveal_strlit("KRB5_CONFIG");
    reveal_strlit("KRB5_CLIENT_KTNAME");
    reveal_strlit("KRB5CCNAME");
    reveal_strlit("CONSOLE_LOG_LEVEL");
    reveal_strlit("FILE_LOG_LEVEL");
    reveal_strlit("FILE_LOG_DIRECTORY");
    reveal_strlit("KUBERNETES_NODE_NAME");
    reveal_strlit("KUBERNETES_CLUSTER_DOMAIN");
    assert(CONFIG@.len() == 6);
    assert(CREDENTIALS_DIR_ENV@.len() == 15);
    assert(KRB5_CONFIG@.len() == 11);
    assert(KRB5_CLIENT_KTNAME@.len() == 18);
    assert(KRB5CCNAME@.len() == 10);
}

/// A fetcher reads the file that is rendered for it, and its credentials where they are mounted.
#[verifier::rlimit(40)]
pub proof fn lemma_fetcher_env(
    cluster: ValidatedClusterView,
    group: OpaRoleGroupConfigView,
    cluster_domain: Seq<char>,
    backend: user_info_fetcher::BackendView,
)
    ensures
        ({
            let logs = group.config.logging.containers;
            let user_info = env_list(
                with_backend_env(
                    fetcher_env(
                        group.config,
                        Container::UserInfoFetcher,
                        ConfigFileName::UserInfoFetcher,
                        cluster_domain,
                    ),
                    backend,
                ),
            );
            let resource_info = env_list(
                fetcher_env(
                    group.config,
                    Container::ResourceInfoFetcher,
                    ConfigFileName::ResourceInfoFetcher,
                    cluster_domain,
                ),
            );
            &&& sets(user_info, "CONFIG"@, "/stackable/config/user-info-fetcher.json"@)
            &&& sets(user_info, "CREDENTIALS_DIR"@, "/stackable/credentials"@)
            &&& configures_program(
                user_info,
                cluster_domain,
                sidecar_level_name(logs, "user-info-fetcher"@),
                "user-info-fetcher"@,
            )
            &&& backend is ActiveDirectory ==> {
                &&& sets(user_info, "KRB5_CONFIG"@, "/stackable/kerberos/krb5.conf"@)
                &&& sets(user_info, "KRB5_CLIENT_KTNAME"@, "/stackable/kerberos/keytab"@)
                &&& sets(user_info, "KRB5CCNAME"@, "MEMORY:"@)
            }
            &&& sets(resource_info, "CONFIG"@, "/stackable/config/resource-info-fetcher.json"@)
            &&& sets(resource_info, "CREDENTIALS_DIR"@, "/stackable/credentials"@)
            &&& configures_program(
                resource_info,
                cluster_domain,
                sidecar_level_name(logs, "resource-info-fetcher"@),
                "resource-info-fetcher"@,
            )
        }),
{
    lemma_container_log(group.config.logging);
    lemma_fetcher_variable_names_differ();
    lemma_fetcher_paths();
    let user_vars = fetcher_env(
        group.config,
        Container::UserInfoFetcher,
        ConfigFileName::UserInfoFetcher,
        cluster_domain,
    );
    let user_start = Map::<Seq<char>, EnvVarValueView>::empty().insert(
        CONFIG@,
        EnvVarValueView::Value("/stackable/config/user-info-fetcher.json"@),
    ).insert(CREDENTIALS_DIR_ENV@, EnvVarValueView::Value("/stackable/credentials"@));
    let resource_start = Map::<Seq<char>, EnvVarValueView>::empty().insert(
        CONFIG@,
        EnvVarValueView::Value("/stackable/config/resource-info-fetcher.json"@),
    ).insert(CREDENTIALS_DIR_ENV@, EnvVarValueView::Value("/stackable/credentials"@));
    let user_level = sidecar_container_level(group.config, Container::UserInfoFetcher);
    let resource_level = sidecar_container_level(group.config, Container::ResourceInfoFetcher);
    lemma_with_rust_cli_env(resource_start, cluster_domain, resource_level, "resource-info-fetcher"@);
    let resource_vars = with_rust_cli_env(
        resource_start,
        cluster_domain,
        resource_level,
        "resource-info-fetcher"@,
    );
    assert(resource_vars == fetcher_env(
        group.config,
        Container::ResourceInfoFetcher,
        ConfigFileName::ResourceInfoFetcher,
        cluster_domain,
    ));
    assert(resource_start.contains_key(CONFIG@));
    assert(resource_start.contains_key(CREDENTIALS_DIR_ENV@));
    lemma_listed_value(resource_vars, CONFIG@, "/stackable/config/resource-info-fetcher.json"@);
    lemma_listed_value(resource_vars, CREDENTIALS_DIR_ENV@, "/stackable/credentials"@);
    assert(user_vars == with_rust_cli_env(
        user_start,
        cluster_domain,
        user_level,
        "user-info-fetcher"@,
    ));
    if backend is ActiveDirectory {
        let kerberos_start = user_start.insert(
            KRB5_CONFIG@,
            EnvVarValueView::Value("/stackable/kerberos/krb5.conf"@),
        ).insert(
            KRB5_CLIENT_KTNAME@,
            EnvVarValueView::Value("/stackable/kerberos/keytab"@),
        ).insert(KRB5CCNAME@, EnvVarValueView::Value("MEMORY:"@));
        lemma_with_rust_cli_env(kerberos_start, cluster_domain, user_level, "user-info-fetcher"@);
        let vars = with_rust_cli_env(
            kerberos_start,
            cluster_domain,
            user_level,
            "user-info-fetcher"@,
        );
        assert(vars =~= with_backend_env(user_vars, backend));
        assert(kerberos_start.contains_key(CONFIG@));
        assert(kerberos_start.contains_key(CREDENTIALS_DIR_ENV@));
        assert(kerberos_start.contains_key(KRB5_CONFIG@));
        assert(kerberos_start.contains_key(KRB5_CLIENT_KTNAME@));
        assert(kerberos_start.contains_key(KRB5CCNAME@));
        lemma_listed_value(vars, CONFIG@, "/stackable/config/user-info-fetcher.json"@);
        lemma_listed_value(vars, CREDENTIALS_DIR_ENV@, "/stackable/credentials"@);
        lemma_listed_value(vars, KRB5_CONFIG@, "/stackable/kerberos/krb5.conf"@);
        lemma_listed_value(vars, KRB5_CLIENT_KTNAME@, "/stackable/kerberos/keytab"@);
        lemma_listed_value(vars, KRB5CCNAME@, "MEMORY:"@);
    } else {
        lemma_with_rust_cli_env(user_start, cluster_domain, user_level, "user-info-fetcher"@);
        assert(user_start.contains_key(CONFIG@));
        assert(user_start.contains_key(CREDENTIALS_DIR_ENV@));
        lemma_listed_value(user_vars, CONFIG@, "/stackable/config/user-info-fetcher.json"@);
        lemma_listed_value(user_vars, CREDENTIALS_DIR_ENV@, "/stackable/credentials"@);
    }
}

proof fn lemma_fetcher_paths()
    ensures
        config_path(ConfigFileName::UserInfoFetcher) == "/stackable/config/user-info-fetcher.json"@,
        config_path(ConfigFileName::ResourceInfoFetcher)
            == "/stackable/config/resource-info-fetcher.json"@,
        KERBEROS_DIR@ + "/krb5.conf"@ == "/stackable/kerberos/krb5.conf"@,
        KERBEROS_DIR@ + "/keytab"@ == "/stackable/kerberos/keytab"@,
{
    reveal_strlit("/stackable/config");
    reveal_strlit("/");
    reveal_strlit("user-info-fetcher.json");
    reveal_strlit("resource-info-fetcher.json");
    reveal_strlit("/stackable/config/user-info-fetcher.json");
    reveal_strlit("/stackable/config/resource-info-fetcher.json");
    reveal_strlit("/stackable/kerberos");
    reveal_strlit("/krb5.conf");
    reveal_strlit("/keytab");
    reveal_strlit("/stackable/kerberos/krb5.conf");
    reveal_strlit("/stackable/kerberos/keytab");
    assert(config_path(ConfigFileName::UserInfoFetcher)
        =~= "/stackable/config/user-info-fetcher.json"@);
    assert(config_path(ConfigFileName::ResourceInfoFetcher)
        =~= "/stackable/config/resource-info-fetcher.json"@);
    assert(KERBEROS_DIR@ + "/krb5.conf"@ =~= "/stackable/kerberos/krb5.conf"@);
    assert(KERBEROS_DIR@ + "/keytab"@ =~= "/stackable/kerberos/keytab"@);
}

/// Whether a container runs a fetcher: its own program from its own image, with the share of a
/// sidecar, the configuration and the log directory.
pub open spec fn runs_fetcher(
    container: ContainerView,
    cluster: ValidatedClusterView,
    name: Seq<char>,
    image: Seq<char>,
    program: Seq<char>,
    read_only: bool,
) -> bool {
    &&& container.name == name
    &&& container.image == Some(image)
    &&& container.image_pull_policy == Some(cluster.image.image_pull_policy)
    &&& container.command == seq![program]
    &&& container.args.len() == 0
    &&& container.ports.len() == 0
    &&& gets_sidecar_share(container.resources)
    &&& container.readiness_probe is None
    &&& container.liveness_probe is None
    &&& mounted(container.volume_mounts, "config"@, "/stackable/config"@, read_only)
    &&& mounted(container.volume_mounts, "log"@, "/stackable/log"@, false)
}

/// Each fetcher that the cluster asks for runs in a container of its own, that for users before that
/// for resources, with what it reads mounted.
#[verifier::rlimit(40)]
pub proof fn lemma_fetcher_containers(
    cluster: ValidatedClusterView,
    role_group_name: Seq<char>,
    group: OpaRoleGroupConfigView,
    inputs: PodInputs,
    platform: PlatformPartsView,
)
    ensures
        pod_template(cluster, role_group_name, group, inputs, platform) matches Ok(template) ==> {
            let n: int = if cluster.cluster_config.user_info is Some {
                3
            } else {
                2
            };
            &&& cluster.cluster_config.user_info is Some ==> runs_fetcher(
                template.containers[2],
                cluster,
                "user-info-fetcher"@,
                inputs.user_info_fetcher_image@,
                "stackable-opa-user-info-fetcher"@,
                false,
            ) && template.containers[2].env == env_list(
                with_backend_env(
                    fetcher_env(
                        group.config,
                        Container::UserInfoFetcher,
                        ConfigFileName::UserInfoFetcher,
                        inputs.cluster_domain@,
                    ),
                    cluster.cluster_config.user_info->0.backend,
                ),
            )
            &&& cluster.cluster_config.resource_info is Some ==> runs_fetcher(
                template.containers[n],
                cluster,
                "resource-info-fetcher"@,
                inputs.resource_info_fetcher_image@,
                "stackable-opa-resource-info-fetcher"@,
                true,
            ) && template.containers[n].env == env_list(
                fetcher_env(
                    group.config,
                    Container::ResourceInfoFetcher,
                    ConfigFileName::ResourceInfoFetcher,
                    inputs.cluster_domain@,
                ),
            )
        },
{
    if let Ok(template) = pod_template(cluster, role_group_name, group, inputs, platform) {
        let first = first_parts(cluster, role_group_name, group, inputs, platform);
        let second = with_user_info_fetcher(
            first,
            cluster,
            group.config,
            inputs.user_info_fetcher_image@,
            inputs.cluster_domain@,
            platform,
        )->Ok_0;
        if let Some(user_info) = cluster.cluster_config.user_info {
            lemma_needs_only_add(
                user_info_fetcher::backend_needs(user_info.backend),
                cluster.name,
                mount_view(USER_INFO_FETCHER_CREDENTIALS_VOLUME_NAME@, CREDENTIALS_DIR@),
                provided_result(platform.user_info_volumes),
                SidecarVolumes { volumes: first.volumes, mounts: user_info_fetcher_mounts() },
            );
            let fetcher = template.containers[2];
            assert(fetcher == second.containers[2]);
            assert(fetcher.volume_mounts[0] == user_info_fetcher_mounts()[0]);
            assert(fetcher.volume_mounts[1] == user_info_fetcher_mounts()[1]);
        }
        if let Some(resource_info) = cluster.cluster_config.resource_info {
            lemma_needs_only_add(
                resource_info_fetcher::backend_needs(resource_info.backend),
                cluster.name,
                read_only_mount_view(
                    RESOURCE_INFO_FETCHER_CREDENTIALS_VOLUME_NAME@,
                    CREDENTIALS_DIR@,
                ),
                provided_result(platform.resource_info_volumes),
                SidecarVolumes { volumes: second.volumes, mounts: resource_info_fetcher_mounts() },
            );
            let fetcher = template.containers[second.containers.len() as int];
            assert(fetcher.volume_mounts[0] == resource_info_fetcher_mounts()[0]);
            assert(fetcher.volume_mounts[1] == resource_info_fetcher_mounts()[1]);
        }
    }
}

/// Without TLS, the script that starts OPA names neither a certificate nor a private key, unless what
/// the user or the platform adds to it does.
#[verifier::rlimit(40)]
pub proof fn lemma_opa_without_tls(
    cluster: ValidatedClusterView,
    role_group_name: Seq<char>,
    group: OpaRoleGroupConfigView,
    inputs: PodInputs,
    platform: PlatformPartsView,
)
    requires
        cluster.cluster_config.tls is None,
        without_tls(platform.snippets.trap_functions),
        without_tls(platform.snippets.remove_vector_shutdown_file),
        without_tls(platform.snippets.create_vector_shutdown_file),
        forall|level: LogLevel| without_tls(#[trigger] spelled(platform.opa_level_names, level)),
        without_tls(cli_arguments(group.cli_overrides)),
    ensures
        pod_template(cluster, role_group_name, group, inputs, platform) matches Ok(template) ==> {
            let script = template.containers[0].args[0];
            &&& !contains_text(script, "--tls-cert-file"@)
            &&& !contains_text(script, "--tls-private-key-file"@)
        },
{
    lemma_opa_is_first(cluster, role_group_name, group, inputs, platform);
    if let Ok(template) = pod_template(cluster, role_group_name, group, inputs, platform) {
        let log = container_log(group.config.logging, Container::Opa);
        lemma_arguments_without_tls(group.cli_overrides);
        lemma_names_without_tls();
        lemma_script_without_tls(
            platform.snippets,
            8081,
            "config.json"@,
            spelled(platform.opa_level_names, opa_level(log)),
            opa_shutdown_grace_period(group.config.graceful_shutdown_timeout) as nat,
            further_arguments(false, group.cli_overrides),
            log_levels(log),
            "opa"@,
        );
        lemma_no_tls_flags(template.containers[0].args[0]);
    }
}

proof fn lemma_names_without_tls()
    ensures
        without_tls("config.json"@),
        without_tls("opa"@),
{
    reveal_strlit("--tls");
    reveal_strlit("config.json");
    reveal_strlit("opa");
    if contains_text("config.json"@, "--tls"@) {
        let text = "config.json"@;
        let i = choose|i: int|
            0 <= i <= text.len() - "--tls"@.len() && #[trigger] text.subrange(i, i + "--tls"@.len())
                == "--tls"@;
        assert(text.subrange(i, i + 5)[0] == '-');
        assert(text[i] == '-');
    }
}

} // verus!
