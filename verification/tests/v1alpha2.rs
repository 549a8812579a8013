//! The second version of the `OpaCluster` resource and its controller.
use stackable_opa_operator::action::Action;
use stackable_opa_operator::checked::Checked;
use stackable_opa_operator::config::{
    no_affinity, CpuLimits, MemoryLimits, OpaConfigFragment, OpaStorageConfig, Resources,
};
use stackable_opa_operator::duration::Duration;
use stackable_opa_operator::info_fetcher_sidecar;
use stackable_opa_operator::info_fetcher_sidecar::AddedVolumes;
use stackable_opa_operator::kubernetes::env_var_set::EnvVarSet;
use stackable_opa_operator::kubernetes::builder::{CollisionError, ResolvedProductImage};
use stackable_opa_operator::kubernetes::meta::{LabelSelector, ObjectMeta, OwnerReference};
use stackable_opa_operator::kubernetes::pod::{
    Container, EnvVar, IntOrString, PodAffinityTerm, PodTemplate, Volume, VolumeMount, VolumeSource,
    WeightedPodAffinityTerm,
};
use stackable_opa_operator::kubernetes::resources::{
    ConfigMap, DaemonSet, Deployment, PodDisruptionBudget, RoleBinding, RoleRef, Service,
    ServiceAccount, Subject,
};
use stackable_opa_operator::logging::{
    AppenderConfig, AutomaticContainerLogConfig, ContainerLogConfig, ContainerLogConfigChoice,
    LevelNames, LogLevel, LoggerConfig,
};
use stackable_opa_operator::start_command::ShellSnippets;
use stackable_opa_operator::text_map::{StringMap, TextMap};
use stackable_opa_operator::tls::{
    CaCert, Tls, TlsClientDetails, TlsServerVerification, TlsVerification,
};
use stackable_opa_operator::user_info_fetcher;
use stackable_opa_operator::v1alpha2::affinity::{
    get_affinity, ANTI_AFFINITY_BETWEEN_ROLE_PODS_WEIGHT,
};
use stackable_opa_operator::v1alpha2::apply;
use stackable_opa_operator::v1alpha2::apply::{apply_plan, ApplyStep, ResourceKind};
use stackable_opa_operator::v1alpha2::assemble;
use stackable_opa_operator::v1alpha2::assemble::{
    build, KubernetesResources, Prepared, RoleGroupParts,
};
use stackable_opa_operator::v1alpha2::cache::Cache;
use stackable_opa_operator::v1alpha2::cluster::{
    OpaRoleGroupConfig, ValidatedCluster, ValidatedClusterConfig,
};
use stackable_opa_operator::v1alpha2::config_json;
use stackable_opa_operator::v1alpha2::config_map;
use stackable_opa_operator::v1alpha2::config_map::{build_rolegroup_config_map, RenderedFiles};
use stackable_opa_operator::v1alpha2::crd::{
    CurrentlySupportedListenerClasses, InternalTrafficPolicy, Logging, OpaPdbConfig, OpaRole,
    OpaRoleConfig, OpaTls, WorkloadKind, SERVER_ROLE_NAME,
};
use stackable_opa_operator::v1alpha2::dereference::dereference;
use stackable_opa_operator::v1alpha2::discovery::build_discovery_config_map;
use stackable_opa_operator::v1alpha2::pdb::build_role_pod_disruption_budget;
use stackable_opa_operator::v1alpha2::properties::vector_config_file_content;
use stackable_opa_operator::v1alpha2::rbac::{build_role_binding, build_service_account};
use stackable_opa_operator::v1alpha2::reconcile;
use stackable_opa_operator::v1alpha2::reconcile::{
    error_policy, prepare_resources, reconcile_opa, start_reconcile, ReconcileStart, ReconcileStep,
    CONTROLLER_NAME, PRODUCT_NAME,
};
use stackable_opa_operator::v1alpha2::resource_info_fetcher;
use stackable_opa_operator::v1alpha2::resource_info_fetcher::{DataHubBackend, FabricType};
use stackable_opa_operator::v1alpha2::service::{
    build_rolegroup_headless_service, build_rolegroup_metrics_service, build_server_role_service,
};
use stackable_opa_operator::v1alpha2::validate;
use stackable_opa_operator::v1alpha2::validate::{
    merge_overrides, validate, ClusterInput, RoleGroupInput, RoleInput,
};
use stackable_opa_operator::v1alpha2::workload;
use stackable_opa_operator::v1alpha2::workload::{
    build_bundle_builder_start_command, build_server_rolegroup_daemonset,
    build_server_rolegroup_deployment, PlatformParts, PodInputs, CONFIG, CREDENTIALS_DIR_ENV,
    KRB5CCNAME, KRB5_CLIENT_KTNAME, KRB5_CONFIG,
};

const ROLE_GROUP_LABEL: &str = "app.kubernetes.io/role-group";

fn text_map(entries: &[(&str, &str)]) -> StringMap {
    let mut map = StringMap::new();
    for (key, value) in entries {
        map.insert(key.to_string(), value.to_string());
    }
    map
}

fn get<'a>(map: &'a StringMap, key: &str) -> Option<&'a str> {
    map.get(key).map(|value| value.as_str())
}

fn no_fragment() -> OpaConfigFragment {
    OpaConfigFragment {
        resources: Resources {
            cpu: CpuLimits { min: None, max: None },
            memory: MemoryLimits { limit: None },
            storage: OpaStorageConfig {},
        },
        affinity: no_affinity(),
        graceful_shutdown_timeout: None,
    }
}

fn automatic(console: LogLevel) -> ContainerLogConfigChoice {
    ContainerLogConfigChoice::Automatic(AutomaticContainerLogConfig {
        loggers: TextMap::new(),
        console: Some(AppenderConfig { level: Some(console) }),
        file: None,
    })
}

fn role_group() -> RoleGroupInput {
    RoleGroupInput {
        replicas: None,
        config: no_fragment(),
        env_overrides: StringMap::new(),
        cli_overrides: StringMap::new(),
        logging: Checked::Valid(Logging { enable_vector_agent: false, containers: TextMap::new() }),
        vector_log_config: Checked::Valid(automatic(LogLevel::INFO)),
        name_error: None,
    }
}

/// The input for a cluster with a single role group and nothing configured.
fn input() -> ClusterInput {
    let mut role_groups: TextMap<RoleGroupInput> = TextMap::new();
    role_groups.insert("default".to_owned(), role_group());
    ClusterInput {
        name: Checked::Valid("test-opa".to_owned()),
        namespace: Checked::Valid("default".to_owned()),
        uid: Checked::Valid("c27b3971-ca72-42c1-80a4-abdfc1db0ddd".to_owned()),
        image: Checked::Valid(ResolvedProductImage {
            product_version: "1.2.3".to_owned(),
            app_version_label_value: "1.2.3-stackable0.0.0-dev".to_owned(),
            image: "oci.stackable.tech/sdp/opa:1.2.3-stackable0.0.0-dev".to_owned(),
            image_pull_policy: "Always".to_owned(),
            pull_secrets: vec!["pull-secret".to_owned()],
        }),
        vector_aggregator_config_map_name: None,
        cluster_config: ValidatedClusterConfig {
            user_info: None,
            resource_info: None,
            tls: None,
            listener_class: CurrentlySupportedListenerClasses::default(),
        },
        role: RoleInput {
            role_config: OpaRoleConfig::default(),
            config: no_fragment(),
            env_overrides: StringMap::new(),
            cli_overrides: StringMap::new(),
        },
        role_groups,
        env_var_name_errors: StringMap::new(),
    }
}

fn validated(input: &ClusterInput) -> ValidatedCluster {
    validate(input).expect("validation should succeed for the fixture")
}

fn with_tls() -> ClusterInput {
    let mut input = input();
    input.cluster_config.tls = Some(OpaTls { server_secret_class: "tls".to_owned() });
    input
}

fn with_workload_kind(workload_kind: WorkloadKind) -> ClusterInput {
    let mut input = input();
    input.role.role_config.workload_kind = workload_kind;
    input
}

fn with_replicas(replicas: Option<u16>) -> ClusterInput {
    let mut input = with_workload_kind(WorkloadKind::Deployment);
    let mut group = role_group();
    group.replicas = replicas;
    input.role_groups.insert("default".to_owned(), group);
    input
}

fn with_user_info(backend: user_info_fetcher::Backend) -> ClusterInput {
    let mut input = input();
    input.cluster_config.user_info = Some(user_info_fetcher::Config {
        backend,
        cache: user_info_fetcher::Cache::default(),
    });
    input
}

fn aas() -> user_info_fetcher::Backend {
    user_info_fetcher::Backend::ExperimentalXfscAas(user_info_fetcher::AasBackend {
        hostname: "aas.default.svc.cluster.local".to_owned(),
        port: 5000,
    })
}

fn active_directory(tls: TlsClientDetails) -> user_info_fetcher::Backend {
    user_info_fetcher::Backend::ActiveDirectory(user_info_fetcher::ActiveDirectoryBackend {
        ldap_server: "ad.example.com".to_owned(),
        base_distinguished_name: "dc=example,dc=com".to_owned(),
        kerberos_secret_class_name: "kerberos".to_owned(),
        tls,
        custom_attribute_mappings: StringMap::new(),
        additional_group_attribute_filters: StringMap::new(),
    })
}

fn keycloak() -> user_info_fetcher::Backend {
    user_info_fetcher::Backend::Keycloak(user_info_fetcher::KeycloakBackend {
        hostname: "keycloak.example.com".to_owned(),
        port: None,
        root_path: user_info_fetcher::default_root_path(),
        tls: TlsClientDetails { tls: None },
        client_credentials_secret: "keycloak-credentials".to_owned(),
        admin_realm: "master".to_owned(),
        user_realm: "my-realm".to_owned(),
    })
}

fn with_resource_info(tls: TlsClientDetails) -> ClusterInput {
    let mut input = input();
    input.cluster_config.resource_info = Some(resource_info_fetcher::Config {
        backend: resource_info_fetcher::Backend::DataHub(DataHubBackend {
            hostname: "datahub.example.com".to_owned(),
            port: None,
            root_path: "/".to_owned(),
            tls,
            credentials_secret_name: "datahub-token".to_owned(),
            env: FabricType::default(),
        }),
        cache: Cache::default(),
    });
    input
}

fn server_tls() -> TlsClientDetails {
    TlsClientDetails {
        tls: Some(Tls {
            verification: TlsVerification::Server(TlsServerVerification {
                ca_cert: CaCert::SecretClass("tls-ca".to_owned()),
            }),
        }),
    }
}

fn container(name: &str, mounts: Vec<VolumeMount>) -> Container {
    Container {
        name: name.to_owned(),
        image: None,
        image_pull_policy: None,
        command: vec![],
        args: vec![],
        env: vec![],
        ports: vec![],
        volume_mounts: mounts,
        resources: None,
        readiness_probe: None,
        liveness_probe: None,
    }
}

fn ca_volumes() -> AddedVolumes {
    AddedVolumes {
        volumes: vec![Volume {
            name: "tls-ca-ca-cert".to_owned(),
            source: VolumeSource::Secret("ca".to_owned()),
        }],
        mounts: vec![VolumeMount {
            name: "tls-ca-ca-cert".to_owned(),
            mount_path: "/stackable/secrets/tls-ca".to_owned(),
            read_only: None,
        }],
    }
}

fn level_names() -> LevelNames {
    LevelNames {
        trace: "debug".to_owned(),
        debug: "debug".to_owned(),
        info: "info".to_owned(),
        warn: "warn".to_owned(),
        error: "error".to_owned(),
        fatal: "error".to_owned(),
        none: "off".to_owned(),
    }
}

fn platform() -> PlatformParts {
    PlatformParts {
        snippets: ShellSnippets {
            trap_functions: "trap_functions".to_owned(),
            remove_vector_shutdown_file: "remove_vector_shutdown_file".to_owned(),
            create_vector_shutdown_file: "create_vector_shutdown_file".to_owned(),
        },
        opa_level_names: level_names(),
        capture_prepare_output: "capture_prepare_output".to_owned(),
        log_volume_size_limit: "33Mi".to_owned(),
        vector_container: container("vector", vec![]),
        user_info_volumes: Checked::Valid(ca_volumes()),
        resource_info_volumes: Checked::Valid(ca_volumes()),
    }
}

fn inputs() -> PodInputs<'static> {
    PodInputs {
        opa_bundle_builder_image: "bundle-builder-image",
        user_info_fetcher_image: "user-info-fetcher-image",
        resource_info_fetcher_image: "resource-info-fetcher-image",
        cluster_domain: "cluster.local",
    }
}

fn files() -> RenderedFiles {
    RenderedFiles {
        config_json: Checked::Valid("{}".to_owned()),
        user_info_fetcher: Checked::Valid("{\"backend\":{}}".to_owned()),
        resource_info_fetcher: Checked::Valid("{\"resources\":{}}".to_owned()),
        vector_yaml: VECTOR_YAML.to_owned(),
    }
}

/// The configuration of the Vector agent.
const VECTOR_YAML: &str = "---
sources:
  files_opa_json:
    type: file
    include:
      - ${LOG_DIR}/*/*.opa.json

  files_tracing_rs:
    type: file
    include:
      - ${LOG_DIR}/*/*.tracing-rs*.json
";

fn parts() -> RoleGroupParts {
    RoleGroupParts { files: files(), platform: platform() }
}

fn default_role_group(cluster: &ValidatedCluster) -> &OpaRoleGroupConfig {
    cluster.server_role_groups.get("default").expect("the default role group should exist")
}

fn daemonset(input: &ClusterInput) -> DaemonSet {
    let cluster = validated(input);
    build_server_rolegroup_daemonset(
        &cluster,
        "default",
        default_role_group(&cluster),
        &inputs(),
        &platform(),
    )
    .expect("the daemonset should build")
}

fn deployment(input: &ClusterInput) -> Deployment {
    let cluster = validated(input);
    build_server_rolegroup_deployment(
        &cluster,
        "default",
        default_role_group(&cluster),
        &inputs(),
        &platform(),
    )
    .expect("the deployment should build")
}

fn template(input: &ClusterInput) -> PodTemplate {
    daemonset(input).spec.expect("the builder always sets a spec").template
}

fn container_names(template: &PodTemplate) -> Vec<&str> {
    template.containers.iter().map(|container| container.name.as_str()).collect()
}

fn volume_names(template: &PodTemplate) -> Vec<&str> {
    template.volumes.iter().map(|volume| volume.name.as_str()).collect()
}

fn find<'a>(template: &'a PodTemplate, name: &str) -> &'a Container {
    template
        .containers
        .iter()
        .find(|container| container.name == name)
        .unwrap_or_else(|| panic!("container {} should exist", name))
}

fn env_var(container: &Container, name: &str) -> String {
    container
        .env
        .iter()
        .find(|var| var.name == name)
        .unwrap_or_else(|| panic!("env var {} should be set", name))
        .value
        .clone()
        .unwrap_or_else(|| panic!("env var {} should have a literal value", name))
}

fn mount_path(container: &Container, volume_name: &str) -> String {
    container
        .volume_mounts
        .iter()
        .find(|mount| mount.name == volume_name)
        .unwrap_or_else(|| panic!("volume mount {} should exist", volume_name))
        .mount_path
        .clone()
}

fn owner() -> Option<Vec<OwnerReference>> {
    Some(vec![OwnerReference {
        api_version: "opa.stackable.tech/v1alpha2".to_owned(),
        kind: "OpaCluster".to_owned(),
        name: "test-opa".to_owned(),
        uid: "c27b3971-ca72-42c1-80a4-abdfc1db0ddd".to_owned(),
        controller: Some(true),
        block_owner_deletion: None,
    }])
}

fn shared_labels() -> StringMap {
    text_map(&[
        ("app.kubernetes.io/instance", "test-opa"),
        ("app.kubernetes.io/managed-by", "opa.stackable.tech_opacluster"),
        ("app.kubernetes.io/name", "opa"),
        ("app.kubernetes.io/version", "1.2.3-stackable0.0.0-dev"),
        ("stackable.tech/vendor", "Stackable"),
    ])
}

fn owned_meta(name: &str) -> ObjectMeta {
    ObjectMeta {
        name: Some(name.to_owned()),
        namespace: Some("default".to_owned()),
        uid: None,
        resource_version: None,
        labels: Some(shared_labels()),
        annotations: None,
        owner_references: owner(),
    }
}

fn built(input: &ClusterInput) -> KubernetesResources<Prepared> {
    build(&validated(input), &inputs(), &vec![parts()]).expect("build succeeds")
}

fn names<'a>(metas: impl Iterator<Item = &'a ObjectMeta>) -> Vec<&'a str> {
    let mut names: Vec<&str> = metas.filter_map(|meta| meta.name.as_deref()).collect();
    names.sort();
    names
}

// Constants.

#[test]
fn resource_info_fetcher_test_constants() {
    let _ = *CONFIG;
    let _ = *CREDENTIALS_DIR_ENV;
    assert_eq!(CONFIG, "CONFIG");
    assert_eq!(CREDENTIALS_DIR_ENV, "CREDENTIALS_DIR");
}

#[test]
fn user_info_fetcher_test_constants() {
    let _ = *CONFIG;
    let _ = *CREDENTIALS_DIR_ENV;
    let _ = *KRB5_CONFIG;
    let _ = *KRB5_CLIENT_KTNAME;
    let _ = *KRB5CCNAME;
    assert_eq!(KRB5_CONFIG, "KRB5_CONFIG");
    assert_eq!(KRB5_CLIENT_KTNAME, "KRB5_CLIENT_KTNAME");
    assert_eq!(KRB5CCNAME, "KRB5CCNAME");
}

#[test]
fn mod_test_constants() {
    let _ = *SERVER_ROLE_NAME;
    assert_eq!(SERVER_ROLE_NAME, OpaRole::Server.name());
}

#[test]
fn opa_controller_test_constants() {
    let _ = *PRODUCT_NAME;
    let _ = *CONTROLLER_NAME;
    assert_eq!(PRODUCT_NAME, "opa");
    assert_eq!(CONTROLLER_NAME, "opacluster");
    assert_eq!(stackable_opa_operator::labels::OPERATOR_NAME, "opa.stackable.tech");
}

// Role configuration.

#[test]
fn role_config_defaults_follow_workload_kind() {
    let role_config = |workload_kind| OpaRoleConfig { workload_kind, ..OpaRoleConfig::default() };

    let daemon_set = role_config(WorkloadKind::DaemonSet);
    assert_eq!(daemon_set.internal_traffic_policy(), InternalTrafficPolicy::Local);
    assert!(!daemon_set.pod_disruption_budget_enabled());

    let deployment = role_config(WorkloadKind::Deployment);
    assert_eq!(deployment.internal_traffic_policy(), InternalTrafficPolicy::Cluster);
    assert!(deployment.pod_disruption_budget_enabled());
}

#[test]
fn explicit_role_config_overrides_the_derived_defaults() {
    let role_config = OpaRoleConfig {
        workload_kind: WorkloadKind::DaemonSet,
        pod_disruption_budget: OpaPdbConfig { enabled: Some(true), max_unavailable: None },
    };

    assert!(role_config.pod_disruption_budget_enabled());
    assert_eq!(role_config.internal_traffic_policy(), InternalTrafficPolicy::Local);
}

#[test]
fn role_config_sets_nothing_by_default() {
    assert_eq!(
        OpaRoleConfig::default(),
        OpaRoleConfig {
            workload_kind: WorkloadKind::DaemonSet,
            pod_disruption_budget: OpaPdbConfig { enabled: None, max_unavailable: None },
        }
    );
}

#[test]
fn enums_use_the_kubernetes_spelling() {
    assert_eq!(WorkloadKind::DaemonSet.name(), "DaemonSet");
    assert_eq!(WorkloadKind::Deployment.name(), "Deployment");
    assert_eq!(InternalTrafficPolicy::Local.name(), "Local");
    assert_eq!(InternalTrafficPolicy::Cluster.name(), "Cluster");
}

#[test]
fn default_affinity_spreads_the_role_across_nodes() {
    let affinity = get_affinity("simple-opa", &OpaRole::Server);

    assert_eq!(affinity.pod_affinity, None);
    assert_eq!(affinity.node_affinity, None);
    assert_eq!(affinity.node_selector, None);

    let anti_affinity = affinity.pod_anti_affinity.expect("is always set");
    assert_eq!(anti_affinity.required_during_scheduling_ignored_during_execution, None);
    assert_eq!(
        anti_affinity.preferred_during_scheduling_ignored_during_execution,
        Some(vec![WeightedPodAffinityTerm {
            weight: ANTI_AFFINITY_BETWEEN_ROLE_PODS_WEIGHT,
            pod_affinity_term: PodAffinityTerm {
                label_selector: Some(LabelSelector {
                    match_expressions: None,
                    match_labels: Some(text_map(&[
                        ("app.kubernetes.io/name", "opa"),
                        ("app.kubernetes.io/instance", "simple-opa"),
                        ("app.kubernetes.io/component", "server"),
                    ])),
                }),
                topology_key: "kubernetes.io/hostname".to_string(),
                further_fields: None,
            },
        }])
    );
}

// Pod disruption budgets.

fn budget(input: &ClusterInput) -> Option<PodDisruptionBudget> {
    let cluster = validated(input);
    build_role_pod_disruption_budget(
        &cluster,
        &OpaRole::Server,
        cluster.role_config(&OpaRole::Server),
    )
}

#[test]
fn daemonset_gets_no_pod_disruption_budget() {
    assert!(budget(&input()).is_none());
}

#[test]
fn deployment_gets_a_pod_disruption_budget_selecting_the_whole_role() {
    let mut input = with_workload_kind(WorkloadKind::Deployment);
    input.role_groups.insert("other".to_owned(), role_group());
    let pdb = budget(&input).expect("a Deployment is protected by default");

    assert_eq!(pdb.metadata.name.as_deref(), Some("test-opa-server"));
    let spec = pdb.spec.expect("the builder always sets a spec");
    assert_eq!(spec.max_unavailable, Some(IntOrString::Int(1)));
    let match_labels = spec
        .selector
        .and_then(|selector| selector.match_labels)
        .expect("the builder always sets a role selector");
    assert_eq!(get(&match_labels, "app.kubernetes.io/component"), Some("server"));
    assert!(!match_labels.contains_key("app.kubernetes.io/role-group"));
}

#[test]
fn explicitly_enabling_it_wins_over_the_workload_kind_default() {
    let mut input = input();
    input.role.role_config.pod_disruption_budget.enabled = Some(true);
    assert!(budget(&input).is_some());
}

#[test]
fn explicitly_disabling_it_opts_a_deployment_out() {
    let mut input = with_workload_kind(WorkloadKind::Deployment);
    input.role.role_config.pod_disruption_budget.enabled = Some(false);
    assert!(budget(&input).is_none());
}

#[test]
fn configured_max_unavailable_overrides_the_default() {
    let mut input = with_workload_kind(WorkloadKind::Deployment);
    input.role.role_config.pod_disruption_budget.max_unavailable = Some(2);
    let pdb = budget(&input).expect("a Deployment is protected by default");

    assert_eq!(pdb.spec.unwrap().max_unavailable, Some(IntOrString::Int(2)));
}

// RBAC.

#[test]
fn test_service_account() {
    assert_eq!(
        build_service_account(&validated(&input())),
        ServiceAccount { metadata: owned_meta("test-opa-serviceaccount") }
    );
}

#[test]
fn test_role_binding() {
    assert_eq!(
        build_role_binding(&validated(&input())),
        RoleBinding {
            metadata: owned_meta("test-opa-rolebinding"),
            role_ref: RoleRef {
                api_group: "rbac.authorization.k8s.io".to_owned(),
                kind: "ClusterRole".to_owned(),
                name: "opa-clusterrole".to_owned(),
            },
            subjects: Some(vec![Subject {
                kind: "ServiceAccount".to_owned(),
                name: "test-opa-serviceaccount".to_owned(),
                namespace: Some("default".to_owned()),
            }]),
        }
    );
}

// Services.

fn single_port(service: &Service) -> (String, i32) {
    let ports = service.spec.as_ref().unwrap().ports.as_ref().unwrap();
    assert_eq!(ports.len(), 1, "expected exactly one port");
    (ports[0].name.clone().unwrap(), ports[0].port)
}

#[test]
fn role_service_is_cluster_internal_with_node_local_traffic() {
    let service = build_server_role_service(&validated(&input()));
    let spec = service.spec.unwrap();

    assert_eq!(service.metadata.name.as_deref(), Some("test-opa-server"));
    assert_eq!(spec.type_.as_deref(), Some("ClusterIP"));
    assert_eq!(spec.internal_traffic_policy.as_deref(), Some("Local"));
    assert!(!spec.selector.unwrap().contains_key(ROLE_GROUP_LABEL));
}

#[test]
fn role_service_of_a_deployment_routes_to_any_node() {
    let service = build_server_role_service(&validated(&with_workload_kind(
        WorkloadKind::Deployment,
    )));
    assert_eq!(service.spec.unwrap().internal_traffic_policy.as_deref(), Some("Cluster"));
}

#[test]
fn role_service_type_follows_the_listener_class() {
    let mut input = input();
    for (class, expected) in [
        (CurrentlySupportedListenerClasses::ClusterInternal, "ClusterIP"),
        (CurrentlySupportedListenerClasses::ExternalUnstable, "NodePort"),
        (CurrentlySupportedListenerClasses::ExternalStable, "LoadBalancer"),
    ] {
        input.cluster_config.listener_class = class;
        let service = build_server_role_service(&validated(&input));
        assert_eq!(service.spec.unwrap().type_.as_deref(), Some(expected));
    }
}

#[test]
fn role_service_port_follows_tls() {
    assert_eq!(
        single_port(&build_server_role_service(&validated(&input()))),
        ("http".to_owned(), 8081)
    );
    assert_eq!(
        single_port(&build_server_role_service(&validated(&with_tls()))),
        ("https".to_owned(), 8443)
    );
}

#[test]
fn headless_service_is_headless_and_role_group_scoped() {
    let service = build_rolegroup_headless_service(&validated(&input()), "default");
    let spec = service.spec.unwrap();

    assert_eq!(service.metadata.name.as_deref(), Some("test-opa-server-default-headless"));
    assert_eq!(spec.cluster_ip.as_deref(), Some("None"));
    assert_eq!(spec.publish_not_ready_addresses, Some(true));
    assert!(spec.selector.unwrap().contains_key(ROLE_GROUP_LABEL));
}

#[test]
fn metrics_service_has_prometheus_metadata() {
    let service = build_rolegroup_metrics_service(&validated(&input()), "default");
    let spec = service.spec.as_ref().unwrap();

    assert_eq!(service.metadata.name.as_deref(), Some("test-opa-server-default-metrics"));
    assert_eq!(spec.cluster_ip.as_deref(), Some("None"));
    assert_eq!(single_port(&service), ("metrics".to_owned(), 8081));

    let annotations = service.metadata.annotations.unwrap();
    assert_eq!(get(&annotations, "prometheus.io/scrape"), Some("true"));
    assert_eq!(get(&annotations, "prometheus.io/scheme"), Some("http"));
    assert_eq!(get(&annotations, "prometheus.io/port"), Some("8081"));
    assert_eq!(get(&annotations, "prometheus.io/path"), Some("/metrics"));
}

// Discovery.

#[test]
fn discovery_renders_http_url_without_tls() {
    let cm = build_discovery_config_map(&validated(&input()), "cluster.local");
    let data = cm.data.unwrap();

    assert_eq!(
        get(&data, "OPA"),
        Some("http://test-opa-server.default.svc.cluster.local:8081/")
    );
    assert!(!data.contains_key("OPA_SECRET_CLASS"));
}

#[test]
fn discovery_renders_https_url_and_secret_class_with_tls() {
    let cm = build_discovery_config_map(&validated(&with_tls()), "cluster.local");
    let data = cm.data.unwrap();

    assert_eq!(
        get(&data, "OPA"),
        Some("https://test-opa-server.default.svc.cluster.local:8443/")
    );
    assert_eq!(get(&data, "OPA_SECRET_CLASS"), Some("tls"));
}

// The ConfigMap of a role group.

fn config_map(input: &ClusterInput) -> ConfigMap {
    build_rolegroup_config_map(&validated(input), "default", &files(), None)
        .expect("the config map should build")
}

#[test]
fn config_map_renders_config_json_without_user_info() {
    let cm = config_map(&input());
    let data = cm.data.as_ref().expect("config map data");

    assert!(data.contains_key("config.json"));
    assert!(!data.contains_key("user-info-fetcher.json"));
}

#[test]
fn config_map_renders_user_info_fetcher_json_when_configured() {
    let cm = config_map(&with_user_info(aas()));
    let data = cm.data.as_ref().expect("config map data");

    assert!(data.contains_key("config.json"));
    assert!(data.contains_key("user-info-fetcher.json"));
}

#[test]
fn config_map_renders_resource_info_fetcher_json_when_configured() {
    let cm = config_map(&with_resource_info(TlsClientDetails { tls: None }));
    let data = cm.data.as_ref().expect("config map data");

    assert_eq!(get(data, "resource-info-fetcher.json"), Some("{\"resources\":{}}"));
    assert!(!data.contains_key("user-info-fetcher.json"));
}

#[test]
fn config_map_holds_the_vector_config_when_given() {
    let cm = build_rolegroup_config_map(
        &validated(&input()),
        "default",
        &files(),
        Some("sources: {}".to_owned()),
    )
    .unwrap();
    assert_eq!(get(&cm.data.unwrap(), "vector.yaml"), Some("sources: {}"));
}

#[test]
fn config_map_reports_what_could_not_be_rendered() {
    let broken = || Checked::Invalid("broken".to_owned());
    let cluster = validated(&with_user_info(aas()));

    let unrendered = RenderedFiles { config_json: broken(), ..files() };
    assert_eq!(
        build_rolegroup_config_map(&cluster, "default", &unrendered, None),
        Err(config_map::Error::BuildConfigJson("broken".to_owned()))
    );
    let unrendered = RenderedFiles { user_info_fetcher: broken(), ..files() };
    assert_eq!(
        build_rolegroup_config_map(&cluster, "default", &unrendered, None),
        Err(config_map::Error::BuildUserInfoFetcher("broken".to_owned()))
    );
    // What is not configured does not have to be rendered.
    let unrendered = RenderedFiles { resource_info_fetcher: broken(), ..files() };
    assert!(build_rolegroup_config_map(&cluster, "default", &unrendered, None).is_ok());
    let cluster = validated(&with_resource_info(TlsClientDetails { tls: None }));
    assert_eq!(
        build_rolegroup_config_map(&cluster, "default", &unrendered, None),
        Err(config_map::Error::BuildResourceInfoFetcher("broken".to_owned()))
    );
}

#[test]
fn renders_defaults() {
    let cluster = validated(&input());
    let config = config_json::build(&default_role_group(&cluster).config);

    assert_eq!(config.services[0].name, "stackable");
    assert_eq!(config.bundles.stackable.polling.min_delay_seconds, 10);
    assert_eq!(config.bundles.stackable.polling.max_delay_seconds, 20);
    assert_eq!(config.status.as_ref().map(|status| status.prometheus), Some(true));
    assert!(config.decision_logs.is_none());
}

#[test]
fn decision_logs_are_written_when_the_decision_logger_is_on() {
    let mut containers: TextMap<ContainerLogConfig> = TextMap::new();
    let mut loggers: TextMap<LoggerConfig> = TextMap::new();
    loggers.insert("decision".to_owned(), LoggerConfig { level: LogLevel::INFO });
    containers.insert(
        "opa".to_owned(),
        ContainerLogConfig {
            choice: Some(ContainerLogConfigChoice::Automatic(AutomaticContainerLogConfig {
                loggers,
                console: None,
                file: None,
            })),
        },
    );
    let mut input = input();
    let mut group = role_group();
    group.logging = Checked::Valid(Logging { enable_vector_agent: false, containers });
    input.role_groups.insert("default".to_owned(), group);
    let cluster = validated(&input);

    let config = config_json::build(&default_role_group(&cluster).config);
    assert_eq!(config.decision_logs.map(|logs| logs.console), Some(true));
}

#[test]
fn vector_config_file_content_has_opa_sources() {
    let content = vector_config_file_content(VECTOR_YAML);
    assert!(!content.is_empty());
    assert!(content.contains("files_opa_json"));
    assert!(content.contains("files_tracing_rs"));
}

#[test]
fn environment_variables_occur_once() {
    let env = EnvVarSet::new()
        .with_value("B", "1")
        .with_field_path("A", "spec.nodeName")
        .with_value("B", "2")
        .to_vec();
    let names: Vec<&str> = env.iter().map(|var| var.name.as_str()).collect();
    assert_eq!(names, ["A", "B"]);
    assert_eq!(env[1].value.as_deref(), Some("2"));
}

// Workloads.

#[test]
fn daemonset_has_expected_name_and_rolling_update_strategy() {
    let ds = daemonset(&input());

    assert_eq!(ds.metadata.name.as_deref(), Some("test-opa-server-default"));
    let strategy = ds.spec.as_ref().unwrap().update_strategy.as_ref().unwrap();
    assert_eq!(strategy.type_.as_deref(), Some("RollingUpdate"));
    let rolling_update = strategy.rolling_update.as_ref().unwrap();
    assert_eq!(rolling_update.max_unavailable, Some(IntOrString::Int(0)));
}

#[test]
fn daemonset_runs_opa_and_bundle_builder_with_prepare_init_container() {
    let template = template(&input());

    let containers = container_names(&template);
    assert!(containers.contains(&"opa"));
    assert!(containers.contains(&"bundle-builder"));
    assert!(!containers.contains(&"user-info-fetcher"));
    assert!(!containers.contains(&"vector"));

    let init_containers: Vec<&str> =
        template.init_containers.iter().map(|container| container.name.as_str()).collect();
    assert_eq!(init_containers, vec!["prepare"]);

    let volumes = volume_names(&template);
    for expected in ["config", "bundles", "log"] {
        assert!(volumes.contains(&expected), "missing volume {}", expected);
    }
    assert!(!volumes.contains(&"tls"));
}

#[test]
fn daemonset_adds_vector_container_when_agent_enabled() {
    let mut input = input();
    input.vector_aggregator_config_map_name =
        Some(Checked::Valid("vector-aggregator-discovery".to_owned()));
    let mut group = role_group();
    group.logging =
        Checked::Valid(Logging { enable_vector_agent: true, containers: TextMap::new() });
    input.role_groups.insert("default".to_owned(), group);

    assert!(container_names(&template(&input)).contains(&"vector"));
}

#[test]
fn config_map_configures_the_vector_agent_when_enabled() {
    let vector_config = |input: &ClusterInput| {
        let cluster = validated(input);
        let group = cluster.server_role_groups.get("default").unwrap();
        let agent = assemble::build_vector_config(&group.config.logging, VECTOR_YAML);
        let cm = build_rolegroup_config_map(&cluster, "default", &files(), agent).unwrap();
        get(&cm.data.unwrap(), "vector.yaml").map(str::to_owned)
    };
    assert_eq!(vector_config(&input()), None);
    let mut enabled = input();
    enabled.vector_aggregator_config_map_name = Some(Checked::Valid("vector".to_owned()));
    let mut group = role_group();
    group.logging =
        Checked::Valid(Logging { enable_vector_agent: true, containers: TextMap::new() });
    enabled.role_groups.insert("default".to_owned(), group);
    assert_eq!(vector_config(&enabled).as_deref(), Some(VECTOR_YAML));
}

#[test]
fn daemonset_adds_user_info_fetcher_container_when_configured() {
    assert!(container_names(&template(&with_user_info(aas()))).contains(&"user-info-fetcher"));
}

#[test]
fn opa_probes_root_and_bundle_builder_probes_status() {
    let template = template(&input());
    let liveness_path = |container: &str| -> String {
        find(&template, container)
            .liveness_probe
            .as_ref()
            .unwrap()
            .http_get
            .as_ref()
            .unwrap()
            .path
            .clone()
            .unwrap()
    };
    assert_eq!(liveness_path("opa"), "/");
    assert_eq!(liveness_path("bundle-builder"), "/status");
}

#[test]
fn daemonset_adds_tls_volume_when_tls_enabled() {
    assert!(volume_names(&template(&with_tls())).contains(&"tls"));
}

#[test]
fn opa_container_serves_https_when_tls_enabled() {
    let template = template(&with_tls());
    let opa = find(&template, "opa");

    let ports = &opa.ports;
    assert_eq!(ports.len(), 1);
    assert_eq!(ports[0].name.as_deref(), Some("https"));
    assert_eq!(ports[0].container_port, 8443);

    let scheme = opa.liveness_probe.as_ref().unwrap().http_get.as_ref().unwrap().scheme.clone();
    assert_eq!(scheme.as_deref(), Some("HTTPS"));

    let args = &opa.args;
    assert!(args[0].contains("-a 0.0.0.0:8443"));
    assert!(args[0].contains("--tls-cert-file"));
}

#[test]
fn tls_certificate_is_valid_for_all_services() {
    let template = template(&with_tls());
    let volume = template.volumes.iter().find(|volume| volume.name == "tls").unwrap();
    let secret_class = match &volume.source {
        VolumeSource::SecretClass(secret_class) => secret_class,
        _ => panic!("the certificate comes from a SecretClass"),
    };
    assert_eq!(secret_class.secret_class, "tls");
    assert!(secret_class.provision_private_parts);
    assert_eq!(
        secret_class.scope.as_ref().unwrap().services,
        vec![
            "test-opa-server".to_owned(),
            "test-opa-server-default-headless".to_owned(),
            "test-opa-server-default-metrics".to_owned(),
        ]
    );
    assert_eq!(mount_path(find(&template, "opa"), "tls"), "/stackable/tls");
}

fn bundle_builder_config(level: LogLevel) -> ClusterInput {
    let mut containers: TextMap<ContainerLogConfig> = TextMap::new();
    containers.insert(
        "bundle-builder".to_owned(),
        ContainerLogConfig { choice: Some(automatic(level)) },
    );
    let mut input = input();
    let mut group = role_group();
    group.logging = Checked::Valid(Logging { enable_vector_agent: false, containers });
    input.role_groups.insert("default".to_owned(), group);
    input
}

#[test]
fn bundle_builder_start_command_silences_console_only_when_none() {
    let silenced = validated(&bundle_builder_config(LogLevel::NONE));
    assert!(build_bundle_builder_start_command(
        &default_role_group(&silenced).config,
        "bundle-builder",
        "trap_functions",
    )
    .contains("stackable-opa-bundle-builder > /dev/null"));

    let logging = validated(&bundle_builder_config(LogLevel::INFO));
    assert!(build_bundle_builder_start_command(
        &default_role_group(&logging).config,
        "bundle-builder",
        "trap_functions",
    )
    .contains("stackable-opa-bundle-builder &"));
}

#[test]
fn user_info_fetcher_container_has_expected_command_and_config_wiring() {
    let template = template(&with_user_info(aas()));

    let uif = find(&template, "user-info-fetcher");
    assert_eq!(uif.command, vec!["stackable-opa-user-info-fetcher".to_owned()]);
    assert_eq!(env_var(uif, "CONFIG"), "/stackable/config/user-info-fetcher.json");
    assert_eq!(env_var(uif, "CREDENTIALS_DIR"), "/stackable/credentials");
    assert_eq!(mount_path(uif, "config"), "/stackable/config");
}

#[test]
fn user_info_fetcher_active_directory_backend_mounts_kerberos_and_sets_krb5_env() {
    let template = template(&with_user_info(active_directory(TlsClientDetails { tls: None })));

    assert!(volume_names(&template).contains(&"kerberos"));
    let uif = find(&template, "user-info-fetcher");
    assert_eq!(mount_path(uif, "kerberos"), "/stackable/kerberos");
    assert_eq!(env_var(uif, "KRB5_CONFIG"), "/stackable/kerberos/krb5.conf");
    assert_eq!(env_var(uif, "KRB5_CLIENT_KTNAME"), "/stackable/kerberos/keytab");
    assert_eq!(env_var(uif, "KRB5CCNAME"), "MEMORY:");
}

#[test]
fn user_info_fetcher_keycloak_backend_mounts_client_credentials_secret() {
    let template = template(&with_user_info(keycloak()));

    assert!(volume_names(&template).contains(&"user-info-fetcher-credentials"));
    assert_eq!(
        mount_path(find(&template, "user-info-fetcher"), "user-info-fetcher-credentials"),
        "/stackable/credentials"
    );
}

#[test]
fn resource_info_fetcher_container_is_wired_like_the_other_sidecars() {
    let template = template(&with_resource_info(server_tls()));

    let rif = find(&template, "resource-info-fetcher");
    assert_eq!(rif.image.as_deref(), Some("resource-info-fetcher-image"));
    assert_eq!(rif.command, vec!["stackable-opa-resource-info-fetcher".to_owned()]);
    assert_eq!(env_var(rif, "CONFIG"), "/stackable/config/resource-info-fetcher.json");
    assert_eq!(env_var(rif, "CREDENTIALS_DIR"), "/stackable/credentials");
    assert_eq!(env_var(rif, "KUBERNETES_CLUSTER_DOMAIN"), "cluster.local");
    assert_eq!(mount_path(rif, "config"), "/stackable/config");
    assert_eq!(mount_path(rif, "resource-info-fetcher-credentials"), "/stackable/credentials");
    assert_eq!(mount_path(rif, "tls-ca-ca-cert"), "/stackable/secrets/tls-ca");
    assert!(volume_names(&template).contains(&"tls-ca-ca-cert"));
}

#[test]
fn both_info_fetchers_share_the_volumes_of_the_same_authority() {
    let mut input = with_user_info(active_directory(server_tls()));
    input.cluster_config.resource_info =
        with_resource_info(server_tls()).cluster_config.resource_info;
    let template = template(&input);

    let shared = volume_names(&template).iter().filter(|name| **name == "tls-ca-ca-cert").count();
    assert_eq!(shared, 1);
    assert_eq!(
        container_names(&template),
        ["opa", "bundle-builder", "user-info-fetcher", "resource-info-fetcher"]
    );
}

#[test]
fn sidecar_failures_are_reported() {
    let attempt = |input: &ClusterInput, platform: PlatformParts| {
        let cluster = validated(input);
        build_server_rolegroup_daemonset(
            &cluster,
            "default",
            default_role_group(&cluster),
            &inputs(),
            &platform,
        )
    };
    let with_ad = with_user_info(active_directory(server_tls()));
    let unavailable = PlatformParts {
        user_info_volumes: Checked::Invalid("no SecretClass".to_owned()),
        ..platform()
    };
    assert_eq!(
        attempt(&with_ad, unavailable),
        Err(workload::Error::BuildUserInfoFetcherSidecar(
            info_fetcher_sidecar::Error::TlsVolumeAndMounts("no SecretClass".to_owned())
        ))
    );
    let mut colliding = ca_volumes();
    colliding.volumes[0].name = "config".to_owned();
    let collision =
        PlatformParts { resource_info_volumes: Checked::Valid(colliding), ..platform() };
    assert_eq!(
        attempt(&with_resource_info(server_tls()), collision),
        Err(workload::Error::BuildResourceInfoFetcherSidecar(
            info_fetcher_sidecar::Error::TlsCollision(CollisionError::VolumeName(
                "config".to_owned()
            ))
        ))
    );
    let mut endless = input();
    endless.role.config.graceful_shutdown_timeout = Some(Duration::from_secs(u64::MAX));
    assert_eq!(attempt(&endless, platform()), Err(workload::Error::GracefulShutdown));
}

#[test]
fn pods_get_the_expected_settings() {
    let mut input = input();
    input.role.env_overrides = text_map(&[("LOWER", "role"), ("SHARED", "role")]);
    input.role.cli_overrides = text_map(&[("--v", "1")]);
    let mut group = role_group();
    group.env_overrides = text_map(&[("SHARED", "group")]);
    input.role_groups.insert("default".to_owned(), group);
    let template = template(&input);

    assert_eq!(template.service_account_name.as_deref(), Some("test-opa-serviceaccount"));
    assert_eq!(template.image_pull_secrets, vec!["pull-secret".to_owned()]);
    let security_context = template.security_context.as_ref().unwrap();
    assert!(security_context.stackable_defaults);
    assert_eq!(security_context.fs_group, Some(1000));
    // Two minutes, and five seconds of overhead.
    assert_eq!(template.termination_grace_period_seconds, Some(125));
    let opa = find(&template, "opa");
    assert_eq!(
        opa.env,
        vec![
            EnvVar {
                name: "LOWER".to_owned(),
                value: Some("role".to_owned()),
                value_from: None,
            },
            EnvVar {
                name: "SHARED".to_owned(),
                value: Some("group".to_owned()),
                value_from: None,
            },
            EnvVar {
                name: "CONTAINERDEBUG_LOG_DIRECTORY".to_owned(),
                value: Some("/stackable/log/containerdebug".to_owned()),
                value_from: None,
            },
        ]
    );
    assert!(opa.args[0].contains("--v 1"));
    assert!(!opa.args[0].contains("--tls-cert-file"));
    assert!(opa.args[0].contains("-a 0.0.0.0:8081"));
}

#[test]
fn deployment_has_expected_name_and_rolling_update_strategy() {
    let deployment = deployment(&with_replicas(None));

    assert_eq!(deployment.metadata.name.as_deref(), Some("test-opa-server-default"));
    let strategy = deployment.spec.as_ref().unwrap().strategy.as_ref().unwrap();
    assert_eq!(strategy.type_.as_deref(), Some("RollingUpdate"));
    let rolling_update = strategy.rolling_update.as_ref().unwrap();
    assert_eq!(rolling_update.max_unavailable, Some(IntOrString::Int(0)));
    assert_eq!(rolling_update.max_surge, Some(IntOrString::Int(1)));
}

#[test]
fn deployment_takes_the_replicas_of_its_role_group() {
    assert_eq!(deployment(&with_replicas(Some(3))).spec.as_ref().unwrap().replicas, Some(3));
}

#[test]
fn deployment_without_replicas_leaves_them_unset() {
    assert_eq!(deployment(&with_replicas(None)).spec.as_ref().unwrap().replicas, None);
}

#[test]
fn deployment_wraps_the_shared_pod_template() {
    let deployment = deployment(&with_replicas(None));

    let spec = deployment.spec.as_ref().unwrap();
    let containers = container_names(&spec.template);
    assert!(containers.contains(&"opa"));
    assert!(containers.contains(&"bundle-builder"));

    let match_labels = spec.selector.match_labels.as_ref().unwrap();
    assert_eq!(get(match_labels, "app.kubernetes.io/role-group"), Some("default"));
}

#[test]
fn deployment_pods_are_spread_across_nodes_by_default() {
    let anti_affinity = deployment(&with_replicas(Some(3)))
        .spec
        .and_then(|spec| spec.template.affinity.pod_anti_affinity)
        .expect("the default affinity spreads the role's Pods");

    let preferred = anti_affinity
        .preferred_during_scheduling_ignored_during_execution
        .expect("the spread is a soft term");
    assert_eq!(preferred.len(), 1);
    assert_eq!(preferred[0].weight, 70);
    assert_eq!(preferred[0].pod_affinity_term.topology_key, "kubernetes.io/hostname");
}

// Validation.

#[test]
fn validation_reports_what_is_wrong() {
    let failing = |change: fn(&mut ClusterInput)| {
        let mut input = input();
        change(&mut input);
        validate(&input).err().expect("the input is not valid")
    };
    assert_eq!(
        failing(|input| input.name = Checked::Invalid("no name".to_owned())),
        validate::Error::GetClusterName("no name".to_owned())
    );
    assert_eq!(
        failing(|input| input.namespace = Checked::Invalid("no namespace".to_owned())),
        validate::Error::GetNamespace("no namespace".to_owned())
    );
    assert_eq!(
        failing(|input| input.uid = Checked::Invalid("no uid".to_owned())),
        validate::Error::GetUid("no uid".to_owned())
    );
    assert_eq!(
        failing(|input| input.image = Checked::Invalid("no image".to_owned())),
        validate::Error::ResolveProductImage("no image".to_owned())
    );
    assert_eq!(
        failing(|input| {
            input.vector_aggregator_config_map_name =
                Some(Checked::Invalid("no ConfigMap name".to_owned()))
        }),
        validate::Error::ParseVectorAggregatorConfigMapName("no ConfigMap name".to_owned())
    );
    assert_eq!(
        failing(|input| {
            let mut group = role_group();
            group.logging =
                Checked::Valid(Logging { enable_vector_agent: true, containers: TextMap::new() });
            input.role_groups.insert("default".to_owned(), group);
        }),
        validate::Error::MissingVectorAggregatorConfigMapName
    );
    assert_eq!(
        failing(|input| {
            input.vector_aggregator_config_map_name = Some(Checked::Valid("vector".to_owned()));
            let mut group = role_group();
            group.logging =
                Checked::Valid(Logging { enable_vector_agent: true, containers: TextMap::new() });
            group.vector_log_config = Checked::Invalid("no log config".to_owned());
            input.role_groups.insert("default".to_owned(), group);
        }),
        validate::Error::ValidateLoggingConfig("no log config".to_owned())
    );
    assert_eq!(
        failing(|input| {
            let mut group = role_group();
            group.name_error = Some("too long".to_owned());
            input.role_groups.insert("default".to_owned(), group);
        }),
        validate::Error::ParseRoleGroupName(validate::NamedFailure {
            name: "default".to_owned(),
            source: "too long".to_owned(),
        })
    );
    assert_eq!(
        failing(|input| {
            let mut group = role_group();
            group.logging = Checked::Invalid("no logging".to_owned());
            input.role_groups.insert("default".to_owned(), group);
        }),
        validate::Error::ValidateRoleGroupConfig(validate::NamedFailure {
            name: "default".to_owned(),
            source: "no logging".to_owned(),
        })
    );
    assert_eq!(
        failing(|input| {
            input.role.env_overrides = text_map(&[("A=B", "value")]);
            input.env_var_name_errors = text_map(&[("A=B", "no equals sign")]);
        }),
        validate::Error::ParseEnvVarName(validate::NamedFailure {
            name: "A=B".to_owned(),
            source: "no equals sign".to_owned(),
        })
    );
}

#[test]
fn validation_keeps_role_groups_and_layers_their_settings() {
    let mut input = input();
    input.role.config.graceful_shutdown_timeout = Some(Duration::from_secs(60));
    let mut group = role_group();
    group.config.graceful_shutdown_timeout = Some(Duration::from_secs(30));
    input.role_groups.insert("special".to_owned(), group);
    let cluster = validated(&input);

    let names: Vec<&str> =
        cluster.server_role_groups.entries().iter().map(|entry| entry.0.as_str()).collect();
    assert_eq!(names, ["default", "special"]);
    let timeout = |name: &str| {
        cluster.server_role_groups.get(name).unwrap().config.graceful_shutdown_timeout
    };
    assert_eq!(timeout("default"), Some(Duration::from_secs(60)));
    assert_eq!(timeout("special"), Some(Duration::from_secs(30)));
    let resources = &default_role_group(&cluster).config.resources;
    assert_eq!(resources.cpu.min.as_deref(), Some("250m"));
    assert_eq!(resources.cpu.max.as_deref(), Some("500m"));
    assert_eq!(resources.memory.limit.as_deref(), Some("256Mi"));
}

#[test]
fn role_group_overrides_win() {
    assert_eq!(
        merge_overrides(
            &text_map(&[("a", "role"), ("b", "role")]),
            &text_map(&[("b", "group"), ("c", "group")]),
        ),
        text_map(&[("a", "role"), ("b", "group"), ("c", "group")])
    );
}

// All resources.

#[test]
fn build_produces_expected_resource_names() {
    let resources = built(&input());

    assert_eq!(
        names(resources.daemon_sets.iter().map(|object| &object.metadata)),
        ["test-opa-server-default"]
    );
    assert_eq!(
        names(resources.services.iter().map(|object| &object.metadata)),
        [
            "test-opa-server",
            "test-opa-server-default-headless",
            "test-opa-server-default-metrics",
        ]
    );
    assert_eq!(
        names(resources.config_maps.iter().map(|object| &object.metadata)),
        ["test-opa", "test-opa-server-default"]
    );
    assert!(resources.deployments.is_empty());
    assert!(resources.pod_disruption_budgets.is_empty());
}

/// The objects that all role groups share carry neither a role nor a role group in their labels.
#[test]
fn build_produces_rbac() {
    let resources = built(&input());

    assert_eq!(
        names(resources.service_accounts.iter().map(|object| &object.metadata)),
        ["test-opa-serviceaccount"]
    );
    assert_eq!(
        names(resources.role_bindings.iter().map(|object| &object.metadata)),
        ["test-opa-rolebinding"]
    );

    let service_account = resources.service_accounts.first().expect("a ServiceAccount is built");
    assert_eq!(service_account.metadata.labels, Some(shared_labels()));

    let role_binding = resources.role_bindings.first().expect("a RoleBinding is built");
    assert_eq!(role_binding.metadata.labels, Some(shared_labels()));
    assert_eq!(role_binding.role_ref.name, "opa-clusterrole");
}

#[test]
fn build_makes_one_workload_of_the_configured_kind_per_role_group() {
    let mut input = with_workload_kind(WorkloadKind::Deployment);
    input.role_groups.insert("other".to_owned(), role_group());
    let resources = build(&validated(&input), &inputs(), &vec![parts(), parts()]).unwrap();

    assert!(resources.daemon_sets.is_empty());
    assert_eq!(
        names(resources.deployments.iter().map(|object| &object.metadata)),
        ["test-opa-server-default", "test-opa-server-other"]
    );
    assert_eq!(resources.services.len(), 5);
    assert_eq!(resources.config_maps.len(), 3);
    assert_eq!(
        names(resources.pod_disruption_budgets.iter().map(|object| &object.metadata)),
        ["test-opa-server"]
    );
    for object in &resources.deployments {
        assert_eq!(object.metadata.owner_references, owner());
    }
}

#[test]
fn build_reports_the_failing_role_group() {
    let broken = RoleGroupParts {
        files: RenderedFiles { config_json: Checked::Invalid("broken".to_owned()), ..files() },
        platform: platform(),
    };
    let error = build(&validated(&input()), &inputs(), &vec![broken]).err().unwrap();
    assert_eq!(
        error,
        assemble::Error::ConfigMap(assemble::ConfigMapFailure {
            source: config_map::Error::BuildConfigJson("broken".to_owned()),
            role_group: "default".to_owned(),
        })
    );

    let mut endless = input();
    endless.role.config.graceful_shutdown_timeout = Some(Duration::from_secs(u64::MAX));
    let error = build(&validated(&endless), &inputs(), &vec![parts()]).err().unwrap();
    assert_eq!(
        error,
        assemble::Error::DaemonSet(assemble::WorkloadFailure {
            source: workload::Error::GracefulShutdown,
            role_group: "default".to_owned(),
        })
    );
    endless.role.role_config.workload_kind = WorkloadKind::Deployment;
    let error = build(&validated(&endless), &inputs(), &vec![parts()]).err().unwrap();
    assert_eq!(
        error,
        assemble::Error::Deployment(assemble::WorkloadFailure {
            source: workload::Error::GracefulShutdown,
            role_group: "default".to_owned(),
        })
    );
}

// Applying.

#[test]
fn workloads_are_applied_after_what_they_need() {
    assert_eq!(
        apply_plan(&built(&input())),
        vec![
            ApplyStep::Apply(ResourceKind::ServiceAccount, 0),
            ApplyStep::Apply(ResourceKind::RoleBinding, 0),
            ApplyStep::Apply(ResourceKind::Service, 0),
            ApplyStep::Apply(ResourceKind::Service, 1),
            ApplyStep::Apply(ResourceKind::Service, 2),
            ApplyStep::Apply(ResourceKind::ConfigMap, 0),
            ApplyStep::Apply(ResourceKind::ConfigMap, 1),
            ApplyStep::Apply(ResourceKind::DaemonSet, 0),
            ApplyStep::RemoveLegacyFieldManagerScope(0),
            ApplyStep::DeleteOrphanedResources,
        ]
    );
    let plan = apply_plan(&built(&with_workload_kind(WorkloadKind::Deployment)));
    assert_eq!(
        plan[7..],
        [
            ApplyStep::Apply(ResourceKind::PodDisruptionBudget, 0),
            ApplyStep::Apply(ResourceKind::Deployment, 0),
            ApplyStep::DeleteOrphanedResources,
        ]
    );
}

// Reconciliation.

/// A cluster that is being deleted is left alone before anything else is looked at, even where the
/// object is invalid.
#[test]
fn reconcile_exits_early_for_deleted_cluster() {
    let start = start_reconcile(true, Err("missing field `image`".to_owned()));
    let action = match start {
        Ok(ReconcileStart::Done(action)) => action,
        _ => panic!("a deleted cluster reconciles without any API call"),
    };

    assert_eq!(action, Action::AwaitChange);
}

#[test]
fn an_invalid_object_is_not_requeued() {
    let error = start_reconcile(false, Err("missing field `image`".to_owned())).err().unwrap();
    assert_eq!(error, reconcile::Error::InvalidOpaCluster("missing field `image`".to_owned()));
    assert_eq!(error.category(), "InvalidOpaCluster");
    assert_eq!(error_policy(&error), Action::AwaitChange);
}

#[test]
fn an_unresolved_image_is_requeued() {
    let mut input = input();
    input.image = Checked::Invalid("no image".to_owned());
    let error = start_reconcile(false, Ok(&input)).err().unwrap();
    assert_eq!(error.category(), "ValidateCluster");
    assert_eq!(error_policy(&error), Action::Requeue(10));
}

#[test]
fn a_reconciliation_performs_its_plan_and_then_updates_the_status() {
    let cluster = match start_reconcile(false, Ok(&input())) {
        Ok(ReconcileStart::Build(cluster)) => cluster,
        _ => panic!("the fixture is valid"),
    };
    let (_, plan) = match prepare_resources(&cluster, &inputs(), &vec![parts()]) {
        Ok(prepared) => prepared,
        Err(_) => panic!("the resources build"),
    };
    let mut step = ReconcileStep::Apply(0);
    let mut performed = vec![];
    while let ReconcileStep::Apply(i) = step {
        performed.push(plan[i]);
        step = reconcile_opa(step, &plan, Ok(()), "").unwrap();
    }
    assert_eq!(performed, plan);
    assert_eq!(step, ReconcileStep::UpdateStatus);
    step = reconcile_opa(step, &plan, Ok(()), "").unwrap();
    assert_eq!(step, ReconcileStep::Finished(Action::AwaitChange));
}

#[test]
fn failed_steps_are_reported() {
    let plan = vec![
        ApplyStep::Apply(ResourceKind::DaemonSet, 0),
        ApplyStep::RemoveLegacyFieldManagerScope(0),
        ApplyStep::DeleteOrphanedResources,
    ];
    let failed = |i: usize| {
        reconcile_opa(
            ReconcileStep::Apply(i),
            &plan,
            Err("forbidden".to_owned()),
            "test-opa-server-default",
        )
        .err()
        .unwrap()
    };
    let source = || "forbidden".to_owned();
    assert_eq!(
        failed(0),
        reconcile::Error::ApplyResources(apply::Error::ApplyResource(source()))
    );
    assert_eq!(
        failed(1),
        reconcile::Error::ApplyResources(apply::Error::ApplyPatchDaemonSet(apply::PatchFailure {
            source: source(),
            name: "test-opa-server-default".to_owned(),
        }))
    );
    assert_eq!(
        failed(2),
        reconcile::Error::ApplyResources(apply::Error::DeleteOrphanedResources(source()))
    );
    let error =
        reconcile_opa(ReconcileStep::UpdateStatus, &plan, Err(source()), "").err().unwrap();
    assert_eq!(error, reconcile::Error::UpdateStatus(source()));
    assert_eq!(error.category(), "UpdateStatus");
    assert_eq!(error_policy(&error), Action::Requeue(10));
}

#[test]
fn build_failures_are_reported_by_the_reconciliation() {
    let mut endless = input();
    endless.role.config.graceful_shutdown_timeout = Some(Duration::from_secs(u64::MAX));
    let error = match prepare_resources(&validated(&endless), &inputs(), &vec![parts()]) {
        Ok(_) => panic!("the shutdown timeout does not fit"),
        Err(error) => error,
    };
    assert_eq!(error.category(), "BuildResources");
}

#[test]
fn nothing_is_dereferenced_yet() {
    assert_eq!(dereference(), dereference());
}
