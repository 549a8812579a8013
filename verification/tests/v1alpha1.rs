//! The first version of the `OpaCluster` resource and its controller.
use stackable_opa_operator::action::Action;
use stackable_opa_operator::checked::Checked;
use stackable_opa_operator::config::{
    no_affinity, CpuLimits, MemoryLimits, OpaConfigFragment, OpaStorageConfig, Resources,
};
use stackable_opa_operator::duration::Duration;
use stackable_opa_operator::info_fetcher_sidecar::AddedVolumes;
use stackable_opa_operator::kubernetes::builder::{CollisionError, ResolvedProductImage};
use stackable_opa_operator::kubernetes::meta::{ObjectMeta, OwnerReference};
use stackable_opa_operator::kubernetes::pod::{
    Container, EnvVar, IntOrString, SecretClassVolume, SecretClassVolumeScope, Volume, VolumeMount,
    VolumeSource,
};
use stackable_opa_operator::kubernetes::resources::DaemonSet;
use stackable_opa_operator::logging::{
    AppenderConfig, AutomaticContainerLogConfig, ContainerLogConfig, ContainerLogConfigChoice,
    LevelNames, LogLevel, LoggerConfig,
};
use stackable_opa_operator::start_command::ShellSnippets;
use stackable_opa_operator::text_map::{StringMap, TextMap};
use stackable_opa_operator::tls::{
    CaCert, Tls, TlsClientDetails, TlsServerVerification, TlsVerification,
};
use stackable_opa_operator::user_info_fetcher;
use stackable_opa_operator::user_info_fetcher::{
    ActiveDirectoryBackend, Backend, EntraBackend, KeycloakBackend,
};
use stackable_opa_operator::v1alpha1::config_file::build_config_file;
use stackable_opa_operator::v1alpha1::controller::{
    build_prepare_start_command, build_recommended_labels, build_rolegroup_headless_service,
    build_rolegroup_metrics_service, build_server_role_service, build_server_rolegroup_config_map,
    build_server_rolegroup_daemonset, pod_overrides, Error, LabelChecks, PlatformParts, PodInputs,
    RoleGroupFailure,
};
use stackable_opa_operator::v1alpha1::crd;
use stackable_opa_operator::v1alpha1::crd::{
    ClusterCondition, CurrentlySupportedListenerClasses, Logging, OpaCluster, OpaClusterConfig,
    OpaClusterStatus, OpaConfig, OpaRole, OpaSpec, Role, RoleGroup, RoleGroupRef,
};
use stackable_opa_operator::v1alpha1::discovery;
use stackable_opa_operator::v1alpha1::discovery::build_discovery_configmaps;
use stackable_opa_operator::v1alpha1::reconcile::{
    build_role_group, error_policy, reconcile_opa, resolve_config, start_reconcile, ReconcileStep,
    RoleGroupFiles, StepFailure,
};
use stackable_opa_operator::v1alpha1::resource_info_fetcher::{
    DQuantumBackend, Entity, Relation, ResourceBackend, TableEntity,
};

fn text_map(entries: &[(&str, &str)]) -> StringMap {
    let mut map = StringMap::new();
    for (key, value) in entries {
        map.insert(key.to_string(), value.to_string());
    }
    map
}

fn no_fragment() -> OpaConfigFragment {
    OpaConfigFragment {
        resources: Resources {
            cpu: CpuLimits { min: None, max: None },
            memory: MemoryLimits { limit: None },
            storage: OpaStorageConfig {},
        },
        affinity: no_affinity(),
        graceful_shutdown_timeout: None,
    }
}

fn opa() -> OpaCluster {
    let mut role_groups: TextMap<RoleGroup> = TextMap::new();
    role_groups.insert(
        "default".to_owned(),
        RoleGroup { config: no_fragment(), replicas: None },
    );
    OpaCluster {
        metadata: ObjectMeta {
            name: Some("simple-opa".to_owned()),
            namespace: Some("default".to_owned()),
            uid: Some("42".to_owned()),
            resource_version: None,
            labels: None,
            annotations: None,
            owner_references: None,
        },
        spec: OpaSpec {
            cluster_config: OpaClusterConfig {
                vector_aggregator_config_map_name: None,
                listener_class: CurrentlySupportedListenerClasses::default(),
                user_info: None,
            },
            servers: Role { config: no_fragment(), role_groups },
        },
        status: None,
    }
}

fn with_user_info(backend: Backend) -> OpaCluster {
    let mut opa = opa();
    opa.spec.cluster_config.user_info =
        Some(user_info_fetcher::Config { backend, cache: user_info_fetcher::Cache::default() });
    opa
}

fn keycloak(tls: TlsClientDetails) -> Backend {
    Backend::Keycloak(KeycloakBackend {
        hostname: "keycloak.example.com".to_owned(),
        port: None,
        root_path: user_info_fetcher::default_root_path(),
        tls,
        client_credentials_secret: "keycloak-credentials".to_owned(),
        admin_realm: "master".to_owned(),
        user_realm: "my-realm".to_owned(),
    })
}

fn active_directory() -> Backend {
    Backend::ActiveDirectory(ActiveDirectoryBackend {
        ldap_server: "ad.example.com".to_owned(),
        base_distinguished_name: "dc=example,dc=com".to_owned(),
        kerberos_secret_class_name: "kerberos".to_owned(),
        tls: TlsClientDetails { tls: None },
        custom_attribute_mappings: StringMap::new(),
        additional_group_attribute_filters: StringMap::new(),
    })
}

fn server_tls() -> TlsClientDetails {
    TlsClientDetails {
        tls: Some(Tls {
            verification: TlsVerification::Server(TlsServerVerification {
                ca_cert: CaCert::SecretClass("tls-ca".to_owned()),
            }),
        }),
    }
}

fn rolegroup() -> RoleGroupRef {
    RoleGroupRef {
        cluster: "simple-opa".to_owned(),
        role: "server".to_owned(),
        role_group: "default".to_owned(),
    }
}

fn image() -> ResolvedProductImage {
    ResolvedProductImage {
        product_version: "1.0.0".to_owned(),
        app_version_label_value: "1.0.0-stackable0.0.0-dev".to_owned(),
        image: "oci.stackable.tech/sdp/opa:1.0.0".to_owned(),
        image_pull_policy: "Always".to_owned(),
        pull_secrets: vec!["pull-secret".to_owned()],
    }
}

fn no_logging() -> Logging {
    Logging { enable_vector_agent: false, containers: TextMap::new() }
}

fn logging_of(
    container: crd::Container,
    loggers: &[(&str, LogLevel)],
    console: LogLevel,
    file: LogLevel,
) -> Logging {
    let mut config = AutomaticContainerLogConfig {
        loggers: TextMap::new(),
        console: Some(AppenderConfig { level: Some(console) }),
        file: Some(AppenderConfig { level: Some(file) }),
    };
    for (name, level) in loggers {
        config.loggers.insert(name.to_string(), LoggerConfig { level: *level });
    }
    let mut logging = no_logging();
    logging.containers.insert(
        container.name(),
        ContainerLogConfig { choice: Some(ContainerLogConfigChoice::Automatic(config)) },
    );
    logging
}

fn merged_with(logging: Logging) -> OpaConfig {
    opa()
        .merged_config(&OpaRole::Server, &rolegroup(), Ok(logging))
        .expect("the configuration is complete")
}

fn container(name: &str) -> Container {
    Container {
        name: name.to_owned(),
        image: None,
        image_pull_policy: None,
        command: vec![],
        args: vec![],
        env: vec![],
        ports: vec![],
        volume_mounts: vec![],
        resources: None,
        readiness_probe: None,
        liveness_probe: None,
    }
}

fn platform() -> PlatformParts {
    PlatformParts {
        snippets: ShellSnippets {
            trap_functions: "trap_functions".to_owned(),
            remove_vector_shutdown_file: "remove_vector_shutdown_file".to_owned(),
            create_vector_shutdown_file: "create_vector_shutdown_file".to_owned(),
        },
        opa_level_names: LevelNames {
            trace: "debug".to_owned(),
            debug: "debug".to_owned(),
            info: "info".to_owned(),
            warn: "warn".to_owned(),
            error: "error".to_owned(),
            fatal: "error".to_owned(),
            none: "off".to_owned(),
        },
        capture_prepare_output: "capture_prepare_output".to_owned(),
        log_volume_size_limit: "33Mi".to_owned(),
        vector_container: Ok(container("vector")),
        user_info_volumes: Ok(AddedVolumes {
            volumes: vec![Volume {
                name: "tls-ca-ca-cert".to_owned(),
                source: VolumeSource::Secret("ca".to_owned()),
            }],
            mounts: vec![VolumeMount {
                name: "tls-ca-ca-cert".to_owned(),
                mount_path: "/stackable/secrets/tls-ca".to_owned(),
                read_only: None,
            }],
        }),
    }
}

fn accepted() -> LabelChecks {
    LabelChecks { recommended: Checked::Valid(()), selector: Checked::Valid(()) }
}

fn refused_labels() -> LabelChecks {
    LabelChecks {
        recommended: Checked::Invalid("too long".to_owned()),
        selector: Checked::Invalid("no selector".to_owned()),
    }
}

fn refused_selector() -> LabelChecks {
    LabelChecks {
        recommended: Checked::Valid(()),
        selector: Checked::Invalid("no selector".to_owned()),
    }
}

fn build_daemonset_with(
    opa: &OpaCluster,
    merged_config: &OpaConfig,
    rolegroup: &RoleGroupRef,
    platform: &PlatformParts,
    labels: &LabelChecks,
) -> Result<DaemonSet, Error> {
    build_server_rolegroup_daemonset(
        opa,
        &PodInputs {
            image: &image(),
            rolegroup_ref: rolegroup,
            server_env: &text_map(&[("HOME", "/stackable")]),
            merged_config,
            opa_bundle_builder_image: "bundle-builder-image",
            user_info_fetcher_image: "user-info-fetcher-image",
            service_account_name: "simple-opa-serviceaccount",
            cluster_domain: "cluster.local",
            platform,
            labels,
        },
    )
}

fn build_daemonset_from(
    opa: &OpaCluster,
    merged_config: &OpaConfig,
    rolegroup: &RoleGroupRef,
    platform: &PlatformParts,
) -> Result<DaemonSet, Error> {
    build_daemonset_with(opa, merged_config, rolegroup, platform, &accepted())
}

fn build_daemonset(opa: &OpaCluster) -> Result<DaemonSet, Error> {
    build_daemonset_from(opa, &merged_with(no_logging()), &rolegroup(), &platform())
}

fn owner() -> Option<Vec<OwnerReference>> {
    Some(vec![OwnerReference {
        api_version: "opa.stackable.tech/v1alpha1".to_owned(),
        kind: "OpaCluster".to_owned(),
        name: "simple-opa".to_owned(),
        uid: "42".to_owned(),
        controller: Some(true),
        block_owner_deletion: None,
    }])
}

fn labels(role_group: &str) -> StringMap {
    text_map(&[
        ("app.kubernetes.io/component", "server"),
        ("app.kubernetes.io/instance", "simple-opa"),
        ("app.kubernetes.io/managed-by", "opa.stackable.tech_opacluster"),
        ("app.kubernetes.io/name", "opa"),
        ("app.kubernetes.io/role-group", role_group),
        ("app.kubernetes.io/version", "1.0.0-stackable0.0.0-dev"),
        ("stackable.tech/vendor", "Stackable"),
    ])
}

fn group_selector() -> StringMap {
    text_map(&[
        ("app.kubernetes.io/component", "server"),
        ("app.kubernetes.io/instance", "simple-opa"),
        ("app.kubernetes.io/name", "opa"),
        ("app.kubernetes.io/role-group", "default"),
    ])
}

#[test]
fn it_works() {
    let parents = Some(Box::new(Relation::Backward {
        entity: Entity {
            entity_name: "data_collection".to_string(),
            entity_id: 150,
            relation: None,
        },
        relation_name: "data_assets".to_string(),
    }));
    let children = Some(Box::new(Relation::Backward {
        entity: Entity {
            entity_name: "data_element".to_string(),
            entity_id: 168,
            relation: None,
        },
        relation_name: "data_asset".to_string(),
    }));
    let table_node = TableEntity {
        entity_name: "data_asset".to_string(),
        entity_id: 151,
        parents,
        children,
    };
    let test = format!("{:?}", table_node);
    println!("{}", test);
    for name in ["data_collection", "data_assets", "data_element", "data_asset"] {
        assert!(test.contains(name));
    }
    let backend = ResourceBackend::DQuantum(DQuantumBackend {
        url: "https://dquantum.example.com".to_owned(),
        tls: TlsClientDetails { tls: None },
        client_credentials_secret: "dquantum-credentials".to_owned(),
        hierarchy: table_node,
    });
    assert_ne!(backend, ResourceBackend::default());
}

// The resource.

#[test]
fn listener_classes_have_service_types() {
    assert_eq!(
        CurrentlySupportedListenerClasses::default(),
        CurrentlySupportedListenerClasses::ClusterInternal
    );
    assert_eq!(
        CurrentlySupportedListenerClasses::ClusterInternal.k8s_service_type(),
        "ClusterIP"
    );
    assert_eq!(
        CurrentlySupportedListenerClasses::ExternalUnstable.k8s_service_type(),
        "NodePort"
    );
    assert_eq!(
        CurrentlySupportedListenerClasses::ExternalStable.k8s_service_type(),
        "LoadBalancer"
    );
}

#[test]
fn role_groups_are_found_by_reference() {
    let opa = opa();
    assert_eq!(opa.rolegroup(&rolegroup()).unwrap().replicas, None);
    let mut unknown_role = rolegroup();
    unknown_role.role = "client".to_owned();
    assert_eq!(
        opa.rolegroup(&unknown_role),
        Err(crd::Error::UnknownOpaRole("client".to_owned()))
    );
    let mut unknown_group = rolegroup();
    unknown_group.role_group = "other".to_owned();
    assert_eq!(
        opa.rolegroup(&unknown_group),
        Err(crd::Error::CannotRetrieveOpaRoleGroup("other".to_owned()))
    );
    assert_eq!(
        opa.merged_config(&OpaRole::Server, &unknown_group, Ok(no_logging())),
        Err(crd::Error::MissingRoleGroup("other".to_owned()))
    );
    assert_eq!(
        opa.merged_config(&OpaRole::Server, &rolegroup(), Err("no level".to_owned())),
        Err(crd::Error::FragmentValidationFailure("no level".to_owned()))
    );
    assert_eq!(
        resolve_config(&opa, &unknown_group, Ok(no_logging())),
        Err(Error::FailedToResolveConfig(crd::Error::MissingRoleGroup("other".to_owned())))
    );
}

#[test]
fn role_groups_win_over_the_role_and_the_role_over_the_defaults() {
    let defaults = merged_with(no_logging());
    assert_eq!(defaults.resources.cpu.min.as_deref(), Some("250m"));
    assert_eq!(defaults.resources.cpu.max.as_deref(), Some("500m"));
    assert_eq!(defaults.resources.memory.limit.as_deref(), Some("256Mi"));
    assert_eq!(defaults.graceful_shutdown_timeout, Some(Duration::from_secs(120)));

    let mut opa = opa();
    opa.spec.servers.config.resources.cpu.max = Some("2".to_owned());
    opa.spec.servers.config.graceful_shutdown_timeout = Some(Duration::from_secs(30));
    let mut group = RoleGroup { config: no_fragment(), replicas: None };
    group.config.resources.cpu.max = Some("4".to_owned());
    opa.spec.servers.role_groups.insert("default".to_owned(), group);
    let merged = opa.merged_config(&OpaRole::Server, &rolegroup(), Ok(no_logging())).unwrap();
    assert_eq!(merged.resources.cpu.max.as_deref(), Some("4"));
    assert_eq!(merged.resources.cpu.min.as_deref(), Some("250m"));
    assert_eq!(merged.graceful_shutdown_timeout, Some(Duration::from_secs(30)));
}

#[test]
fn the_configuration_computes_no_properties() {
    let fragment = OpaConfig::default_config();
    assert!(fragment.compute_env().entries().is_empty());
    assert!(fragment.compute_cli().entries().is_empty());
    assert!(fragment.compute_files("config.json").entries().is_empty());
}

#[test]
fn the_role_service_is_named_like_the_cluster() {
    let mut opa = opa();
    assert_eq!(opa.server_role_service_name().as_deref(), Some("simple-opa"));
    assert_eq!(
        opa.server_role_service_fqdn().as_deref(),
        Some("simple-opa.default.svc.cluster.local")
    );
    opa.metadata.namespace = None;
    assert_eq!(opa.server_role_service_fqdn(), None);
    opa.metadata.name = None;
    assert_eq!(opa.server_role_service_name(), None);
    assert_eq!(opa.server_role_service_fqdn(), None);
}

#[test]
fn conditions_come_from_the_status() {
    let mut opa = opa();
    assert!(opa.conditions().is_empty());
    let condition = ClusterCondition {
        type_: "Available".to_owned(),
        status: "True".to_owned(),
        reason: None,
        message: None,
        last_transition_time: None,
        last_update_time: None,
    };
    opa.status = Some(OpaClusterStatus { conditions: vec![condition.clone()] });
    assert_eq!(opa.conditions(), [condition]);
}

// Services.

#[test]
fn the_role_service_balances_over_the_role() {
    let service = build_server_role_service(&opa(), &image(), &accepted()).unwrap();
    assert_eq!(service.metadata.name.as_deref(), Some("simple-opa"));
    assert_eq!(service.metadata.namespace.as_deref(), Some("default"));
    assert_eq!(service.metadata.labels, Some(labels("global")));
    assert_eq!(service.metadata.owner_references, owner());
    let spec = service.spec.unwrap();
    assert_eq!(spec.type_.as_deref(), Some("ClusterIP"));
    assert_eq!(spec.cluster_ip, None);
    assert_eq!(spec.internal_traffic_policy.as_deref(), Some("Local"));
    let ports = spec.ports.unwrap();
    assert_eq!(ports.len(), 1);
    assert_eq!(ports[0].name.as_deref(), Some("http"));
    assert_eq!(ports[0].port, 8081);
    assert_eq!(ports[0].protocol.as_deref(), Some("TCP"));
    assert_eq!(
        spec.selector,
        Some(text_map(&[
            ("app.kubernetes.io/component", "server"),
            ("app.kubernetes.io/instance", "simple-opa"),
            ("app.kubernetes.io/name", "opa"),
        ]))
    );
}

#[test]
fn services_need_a_name_and_an_owner() {
    let mut nameless = opa();
    nameless.metadata.name = None;
    assert_eq!(
        build_server_role_service(&nameless, &image(), &accepted()),
        Err(Error::RoleServiceNameNotFound)
    );
    let mut without_uid = opa();
    without_uid.metadata.uid = None;
    for result in [
        build_server_role_service(&without_uid, &image(), &accepted()),
        build_rolegroup_headless_service(&without_uid, &image(), &rolegroup(), &accepted()),
        build_rolegroup_metrics_service(&without_uid, &image(), &rolegroup(), &accepted()),
    ] {
        assert!(matches!(result, Err(Error::ObjectMissingMetadataForOwnerRef(_))));
    }
}

#[test]
fn services_need_labels_that_are_accepted() {
    let build = |opa: &OpaCluster, labels: &LabelChecks| {
        [
            build_server_role_service(opa, &image(), labels),
            build_rolegroup_headless_service(opa, &image(), &rolegroup(), labels),
            build_rolegroup_metrics_service(opa, &image(), &rolegroup(), labels),
        ]
    };
    for result in build(&opa(), &refused_labels()) {
        assert_eq!(result, Err(Error::ObjectMeta("too long".to_owned())));
    }
    for result in build(&opa(), &refused_selector()) {
        assert_eq!(result, Err(Error::BuildLabel("no selector".to_owned())));
    }
    let mut without_uid = opa();
    without_uid.metadata.uid = None;
    for result in build(&without_uid, &refused_labels()) {
        assert!(matches!(result, Err(Error::ObjectMissingMetadataForOwnerRef(_))));
    }
}

#[test]
fn daemonsets_need_labels_that_are_accepted() {
    let build = |opa: &OpaCluster, labels: &LabelChecks| {
        build_daemonset_with(opa, &merged_with(no_logging()), &rolegroup(), &platform(), labels)
    };
    assert_eq!(
        build(&opa(), &refused_labels()),
        Err(Error::ObjectMeta("too long".to_owned()))
    );
    assert_eq!(
        build(&opa(), &refused_selector()),
        Err(Error::BuildLabel("no selector".to_owned()))
    );
    let mut nameless = opa();
    nameless.metadata.name = None;
    assert_eq!(build(&nameless, &refused_labels()), Err(Error::NoName));
    // The labels of the Pods come before the owner of the DaemonSet, its selector after it.
    let mut without_uid = opa();
    without_uid.metadata.uid = None;
    assert_eq!(
        build(&without_uid, &refused_labels()),
        Err(Error::ObjectMeta("too long".to_owned()))
    );
    assert!(matches!(
        build(&without_uid, &refused_selector()),
        Err(Error::ObjectMissingMetadataForOwnerRef(_))
    ));
}

#[test]
fn config_maps_need_labels_that_are_accepted() {
    let refused = Checked::Invalid("too long".to_owned());
    assert_eq!(
        build_server_rolegroup_config_map(
            &with_user_info(Backend::NoBackend),
            &image(),
            &rolegroup(),
            &merged_with(no_logging()),
            "{}",
            Err("no JSON"),
            "sources: {}",
            &refused,
        ),
        Err(Error::ObjectMeta("too long".to_owned()))
    );
    let service = build_server_role_service(&opa(), &image(), &accepted()).unwrap();
    assert_eq!(
        build_discovery_configmaps(&opa(), &image(), &service, "cluster.local", &refused),
        Err(discovery::Error::ObjectMeta("too long".to_owned()))
    );
}

#[test]
fn role_group_services_reach_the_pods() {
    let pod_labels = build_daemonset(&opa()).unwrap().spec.unwrap().template.metadata.labels.unwrap();
    let headless =
        build_rolegroup_headless_service(&opa(), &image(), &rolegroup(), &accepted()).unwrap();
    let metrics =
        build_rolegroup_metrics_service(&opa(), &image(), &rolegroup(), &accepted()).unwrap();
    assert_eq!(headless.metadata.name.as_deref(), Some("simple-opa-server-default-headless"));
    assert_eq!(metrics.metadata.name.as_deref(), Some("simple-opa-server-default-metrics"));
    assert_eq!(
        metrics.metadata.labels.as_ref().unwrap().get("prometheus.io/scrape").map(String::as_str),
        Some("true")
    );
    let metrics_spec = metrics.spec.unwrap();
    assert_eq!(metrics_spec.ports.as_ref().unwrap()[0].name.as_deref(), Some("metrics"));
    assert_eq!(metrics_spec.ports.as_ref().unwrap()[0].port, 8081);
    assert_eq!(metrics_spec.publish_not_ready_addresses, None);
    let headless_spec = headless.spec.unwrap();
    assert_eq!(headless_spec.cluster_ip.as_deref(), Some("None"));
    assert_eq!(headless_spec.publish_not_ready_addresses, Some(true));
    for selector in [headless_spec.selector.unwrap(), metrics_spec.selector.unwrap()] {
        assert_eq!(selector, group_selector());
        for (key, value) in selector.entries() {
            assert_eq!(pod_labels.get(key), Some(value));
        }
    }
}

#[test]
fn recommended_labels_name_the_operator() {
    let labels = build_recommended_labels("simple-opa", "1.0.0", "server", "default");
    assert_eq!(labels.app_name, "opa");
    assert_eq!(labels.operator_name, "opa.stackable.tech");
    assert_eq!(labels.controller_name, "opacluster");
    assert_eq!(
        labels.to_labels().get("app.kubernetes.io/managed-by").map(String::as_str),
        Some("opa.stackable.tech_opacluster")
    );
}

// The ConfigMap.

#[test]
fn the_config_map_holds_what_is_configured() {
    let build = |opa: &OpaCluster, vector: bool, user_info: Result<&str, &str>| {
        let mut logging = no_logging();
        logging.enable_vector_agent = vector;
        build_server_rolegroup_config_map(
            opa,
            &image(),
            &rolegroup(),
            &merged_with(logging),
            "{}",
            user_info,
            "sources: {}",
            &Checked::Valid(()),
        )
    };
    let plain = build(&opa(), false, Err("not needed")).unwrap();
    assert_eq!(plain.metadata.name.as_deref(), Some("simple-opa-server-default"));
    assert_eq!(plain.data, Some(text_map(&[("config.json", "{}")])));
    let full = build(&with_user_info(Backend::NoBackend), true, Ok("{\"a\":1}")).unwrap();
    assert_eq!(
        full.data,
        Some(text_map(&[
            ("config.json", "{}"),
            ("user-info-fetcher.json", "{\"a\":1}"),
            ("vector.yaml", "sources: {}"),
        ]))
    );
    assert_eq!(
        build(&with_user_info(Backend::NoBackend), false, Err("no JSON")),
        Err(Error::SerializeUserInfoFetcherConfig("no JSON".to_owned()))
    );
}

#[test]
fn the_configuration_file_loads_the_bundle() {
    let file = build_config_file(&merged_with(no_logging()));
    assert_eq!(file.services.len(), 1);
    assert_eq!(file.services[0].name, "stackable");
    assert_eq!(file.services[0].url, "http://localhost:3030/opa/v1");
    assert_eq!(file.bundles.stackable.service, "stackable");
    assert_eq!(file.bundles.stackable.resource, "opa/bundle.tar.gz");
    assert!(file.bundles.stackable.persist);
    assert_eq!(file.bundles.stackable.polling.min_delay_seconds, 10);
    assert_eq!(file.bundles.stackable.polling.max_delay_seconds, 20);
    assert!(file.decision_logs.is_none());
    assert!(file.status.unwrap().prometheus);

    let logging = |level| {
        logging_of(crd::Container::Opa, &[("decision", level)], LogLevel::INFO, LogLevel::INFO)
    };
    let file = build_config_file(&merged_with(logging(LogLevel::INFO)));
    assert!(file.decision_logs.unwrap().console);
    assert!(build_config_file(&merged_with(logging(LogLevel::NONE))).decision_logs.is_none());
}

// The DaemonSet.

#[test]
fn the_daemonset_runs_opa() {
    let daemonset = build_daemonset(&opa()).unwrap();
    assert_eq!(daemonset.metadata.name.as_deref(), Some("simple-opa-server-default"));
    assert_eq!(daemonset.metadata.labels, Some(labels("default")));
    let spec = daemonset.spec.unwrap();
    assert_eq!(spec.selector.match_labels, Some(group_selector()));
    let template = spec.template;
    assert_eq!(template.service_account_name.as_deref(), Some("simple-opa-serviceaccount"));
    assert_eq!(template.termination_grace_period_seconds, Some(125));
    assert_eq!(template.image_pull_secrets, ["pull-secret"]);
    assert_eq!(template.init_containers[0].name, "prepare");
    assert_eq!(
        template.init_containers[0].args,
        ["echo \"Create dir [/bundles/active]\" && mkdir -p /bundles/active && \
          echo \"Create dir [/bundles/incoming]\" && mkdir -p /bundles/incoming && \
          echo \"Create dir [/bundles/tmp]\" && mkdir -p /bundles/tmp"]
    );
    let names: Vec<&str> = template.containers.iter().map(|c| c.name.as_str()).collect();
    assert_eq!(names, ["opa", "bundle-builder"]);
    let opa_container = &template.containers[0];
    assert_eq!(opa_container.command, ["/bin/bash", "-x", "-euo", "pipefail", "-c"]);
    assert_eq!(
        opa_container.args,
        ["trap_functions
remove_vector_shutdown_file
prepare_signal_handlers
containerdebug --output=/stackable/log/containerdebug-state.json --loop &
opa run -s -a 0.0.0.0:8081 -c /stackable/config/config.json -l info --shutdown-grace-period 120 \
--disable-telemetry &> >(CONSOLE_LEVEL=INFO FILE_LEVEL=INFO DECISION_LEVEL=NONE SERVER_LEVEL=INFO \
OPA_ROLLING_LOG_FILE_SIZE_BYTES=5000000 OPA_ROLLING_LOG_FILES=2 STACKABLE_LOG_DIR=/stackable/log \
CONTAINER_NAME=opa process-logs) &
wait_for_termination $!
create_vector_shutdown_file
"]
    );
    assert_eq!(
        opa_container.env,
        [
            EnvVar {
                name: "HOME".to_owned(),
                value: Some("/stackable".to_owned()),
                value_from: None,
            },
            EnvVar {
                name: "CONTAINERDEBUG_LOG_DIRECTORY".to_owned(),
                value: Some("/stackable/log/containerdebug".to_owned()),
                value_from: None,
            },
        ]
    );
    let probe = opa_container.readiness_probe.as_ref().unwrap();
    assert_eq!(probe.http_get.as_ref().unwrap().path, None);
    assert_eq!(probe.http_get.as_ref().unwrap().port, IntOrString::Name("http".to_owned()));
    let bundle_builder = &template.containers[1];
    assert_eq!(bundle_builder.image.as_deref(), Some("bundle-builder-image"));
    assert_eq!(
        bundle_builder.args,
        ["trap_functions
prepare_signal_handlers
mkdir -p /stackable/log/bundle-builder
stackable-opa-bundle-builder &
wait_for_termination $!
"]
    );
    let env: Vec<&str> = bundle_builder.env.iter().map(|var| var.name.as_str()).collect();
    assert_eq!(
        env,
        [
            "WATCH_NAMESPACE",
            "CONSOLE_LOG_LEVEL",
            "FILE_LOG_LEVEL",
            "FILE_LOG_DIRECTORY",
            "KUBERNETES_NODE_NAME",
            "KUBERNETES_CLUSTER_DOMAIN",
        ]
    );
}

#[test]
fn opa_logs_at_the_more_verbose_level() {
    let script = |console, file, loggers: &[(&str, LogLevel)]| {
        let logging = logging_of(crd::Container::Opa, loggers, console, file);
        let daemonset =
            build_daemonset_from(&opa(), &merged_with(logging), &rolegroup(), &platform()).unwrap();
        daemonset.spec.unwrap().template.containers[0].args[0].clone()
    };
    assert!(script(LogLevel::WARN, LogLevel::ERROR, &[]).contains(" -l warn "));
    assert!(script(LogLevel::ERROR, LogLevel::DEBUG, &[]).contains(" -l debug "));
    assert!(script(LogLevel::NONE, LogLevel::NONE, &[]).contains(" -l off "));
    let rooted = script(LogLevel::INFO, LogLevel::INFO, &[("ROOT", LogLevel::WARN)]);
    assert!(rooted.contains("SERVER_LEVEL=WARN"));
    assert!(rooted.contains("DECISION_LEVEL=NONE"));
    let explicit = script(
        LogLevel::INFO,
        LogLevel::INFO,
        &[("decision", LogLevel::DEBUG), ("server", LogLevel::ERROR)],
    );
    assert!(explicit.contains("SERVER_LEVEL=ERROR"));
    assert!(explicit.contains("DECISION_LEVEL=DEBUG"));
}

#[test]
fn sidecars_log_at_their_root_level() {
    let logging = logging_of(
        crd::Container::BundleBuilder,
        &[("ROOT", LogLevel::FATAL)],
        LogLevel::NONE,
        LogLevel::INFO,
    );
    let daemonset =
        build_daemonset_from(&opa(), &merged_with(logging), &rolegroup(), &platform()).unwrap();
    let template = daemonset.spec.unwrap().template;
    let bundle_builder = &template.containers[1];
    assert_eq!(bundle_builder.env[1].value.as_deref(), Some("ERROR"));
    assert!(bundle_builder.args[0].contains("stackable-opa-bundle-builder > /dev/null &\n"));
}

#[test]
fn output_of_the_prepare_container_is_captured_where_it_is_configured() {
    let logging =
        logging_of(crd::Container::Prepare, &[], LogLevel::INFO, LogLevel::INFO);
    let commands = build_prepare_start_command(&merged_with(logging), "capture_prepare_output");
    assert_eq!(commands.len(), 7);
    assert_eq!(commands[0], "capture_prepare_output");
    assert_eq!(build_prepare_start_command(&merged_with(no_logging()), "x").len(), 6);
}

#[test]
fn mounts_are_backed_by_volumes() {
    for backend in [
        Backend::NoBackend,
        keycloak(server_tls()),
        keycloak(TlsClientDetails { tls: None }),
        active_directory(),
        Backend::Entra(EntraBackend {
            token_hostname: user_info_fetcher::entra_default_token_hostname(),
            user_info_hostname: user_info_fetcher::entra_default_user_info_hostname(),
            port: None,
            tenant_id: "tenant".to_owned(),
            tls: None,
            client_credentials_secret: "entra-credentials".to_owned(),
        }),
    ] {
        let template = build_daemonset(&with_user_info(backend)).unwrap().spec.unwrap().template;
        assert_eq!(template.containers.len(), 3);
        let mut names: Vec<&str> =
            template.volumes.iter().map(|volume| volume.name.as_str()).collect();
        for container in template.init_containers.iter().chain(&template.containers) {
            for mount in &container.volume_mounts {
                assert!(names.contains(&mount.name.as_str()));
            }
        }
        names.sort();
        names.dedup();
        assert_eq!(names.len(), template.volumes.len());
    }
}

#[test]
fn the_user_info_fetcher_gets_what_its_backend_needs() {
    let template =
        build_daemonset(&with_user_info(keycloak(server_tls()))).unwrap().spec.unwrap().template;
    let volumes: Vec<&str> = template.volumes.iter().map(|volume| volume.name.as_str()).collect();
    assert_eq!(volumes, ["config", "bundles", "log", "credentials", "tls-ca-ca-cert"]);
    assert_eq!(
        template.volumes[3].source,
        VolumeSource::Secret("keycloak-credentials".to_owned())
    );

    let template =
        build_daemonset(&with_user_info(active_directory())).unwrap().spec.unwrap().template;
    assert_eq!(
        template.volumes[3].source,
        VolumeSource::SecretClass(SecretClassVolume {
            secret_class: "kerberos".to_owned(),
            scope: Some(SecretClassVolumeScope {
                pod: false,
                node: false,
                services: vec!["simple-opa".to_owned()],
                listener_volumes: vec![],
            }),
            provision_private_parts: true,
        })
    );
    let fetcher = &template.containers[2];
    assert_eq!(fetcher.name, "user-info-fetcher");
    assert_eq!(fetcher.command, ["stackable-opa-user-info-fetcher"]);
    let value = |name: &str| {
        fetcher.env.iter().find(|var| var.name == name).and_then(|var| var.value.clone())
    };
    assert_eq!(value("CONFIG").unwrap(), "/stackable/config/user-info-fetcher.json");
    assert_eq!(value("CREDENTIALS_DIR").unwrap(), "/stackable/credentials");
    assert_eq!(value("KRB5_CONFIG").unwrap(), "/stackable/kerberos/krb5.conf");
    assert_eq!(value("KRB5_CLIENT_KTNAME").unwrap(), "/stackable/kerberos/keytab");
    assert_eq!(value("KRB5CCNAME").unwrap(), "MEMORY:");
}

#[test]
fn daemonset_failures_are_reported() {
    let mut nameless = opa();
    nameless.metadata.name = None;
    assert_eq!(build_daemonset(&nameless), Err(Error::NoName));

    let merged = merged_with(no_logging());
    let mut other = rolegroup();
    other.role_group = "other".to_owned();
    assert_eq!(
        build_daemonset_from(&opa(), &merged, &other, &platform()),
        Err(Error::InternalOperatorFailure(crd::Error::CannotRetrieveOpaRoleGroup(
            "other".to_owned()
        )))
    );

    let mut logging = no_logging();
    logging.enable_vector_agent = true;
    let with_vector = merged_with(logging);
    assert_eq!(
        build_daemonset_from(&opa(), &with_vector, &rolegroup(), &platform()),
        Err(Error::VectorAggregatorConfigMapMissing)
    );
    let mut aggregated = opa();
    aggregated.spec.cluster_config.vector_aggregator_config_map_name = Some("vector".to_owned());
    let built =
        build_daemonset_from(&aggregated, &with_vector, &rolegroup(), &platform()).unwrap();
    assert_eq!(built.spec.unwrap().template.containers[2].name, "vector");
    let mut broken = platform();
    broken.vector_container = Err("no level".to_owned());
    assert_eq!(
        build_daemonset_from(&aggregated, &with_vector, &rolegroup(), &broken),
        Err(Error::ConfigureLogging("no level".to_owned()))
    );

    let mut forever = merged_with(no_logging());
    forever.graceful_shutdown_timeout = Some(Duration::from_secs(u64::MAX));
    assert_eq!(
        build_daemonset_from(&opa(), &forever, &rolegroup(), &platform()),
        Err(Error::GracefulShutdown)
    );

    let mut colliding = platform();
    colliding.user_info_volumes = Ok(AddedVolumes {
        volumes: vec![Volume {
            name: "config".to_owned(),
            source: VolumeSource::Secret("other".to_owned()),
        }],
        mounts: vec![],
    });
    let opa = with_user_info(keycloak(server_tls()));
    match build_daemonset_from(&opa, &merged, &rolegroup(), &colliding) {
        Err(Error::UserInfoFetcherTlsVolumeAndMounts(_)) => {}
        other => panic!("unexpected {:?}", other.map(|_| ())),
    }
    // A mount path that is taken collides, too.
    assert_ne!(
        CollisionError::VolumeName("config".to_owned()),
        CollisionError::MountPath("config".to_owned())
    );
}

#[test]
fn pod_overrides_of_the_role_group_are_merged_last() {
    assert_eq!(pod_overrides("role", "role group"), ["role", "role group"]);
}

// Discovery.

#[test]
fn clients_find_the_role_service() {
    let valid = Checked::Valid(());
    let service = build_server_role_service(&opa(), &image(), &accepted()).unwrap();
    let config_maps =
        build_discovery_configmaps(&opa(), &image(), &service, "cluster.local", &valid).unwrap();
    assert_eq!(config_maps.len(), 1);
    assert_eq!(config_maps[0].metadata.name.as_deref(), Some("simple-opa"));
    assert_eq!(config_maps[0].metadata.labels, Some(labels("discovery")));
    assert_eq!(
        config_maps[0].data,
        Some(text_map(&[("OPA", "http://simple-opa.default.svc.cluster.local:8081/")]))
    );
    let mut nameless = service.clone();
    nameless.metadata.name = None;
    assert_eq!(
        build_discovery_configmaps(&opa(), &image(), &nameless, "cluster.local", &valid),
        Err(discovery::Error::NoName)
    );
    let mut homeless = service.clone();
    homeless.metadata.namespace = None;
    assert_eq!(
        build_discovery_configmaps(&opa(), &image(), &homeless, "cluster.local", &valid),
        Err(discovery::Error::NoNamespace)
    );
    let mut without_uid = opa();
    without_uid.metadata.uid = None;
    assert!(matches!(
        build_discovery_configmaps(&without_uid, &image(), &service, "cluster.local", &valid),
        Err(discovery::Error::ObjectMissingMetadataForOwnerRef(_))
    ));
}

// The reconciliation.

#[test]
fn a_reconciliation_handles_the_role_groups_in_turn() {
    let opa = opa();
    let mut step = start_reconcile(Ok(&opa)).unwrap();
    let mut seen = vec![step];
    while step != ReconcileStep::Finished {
        step = reconcile_opa(step, Ok(()), &rolegroup(), 2).unwrap();
        seen.push(step);
    }
    assert_eq!(
        seen,
        [
            ReconcileStep::CreateClusterResources,
            ReconcileStep::TransformProductConfig,
            ReconcileStep::ValidateProductConfig,
            ReconcileStep::BuildRoleService,
            ReconcileStep::ApplyRoleService,
            ReconcileStep::CollectRequiredLabels,
            ReconcileStep::BuildRbacResources,
            ReconcileStep::ApplyServiceAccount,
            ReconcileStep::ApplyRoleBinding,
            ReconcileStep::BuildRoleGroup(0),
            ReconcileStep::ApplyConfigMap(0),
            ReconcileStep::ApplyService(0),
            ReconcileStep::ApplyMetricsService(0),
            ReconcileStep::ApplyDaemonSet(0),
            ReconcileStep::PatchDaemonSet(0),
            ReconcileStep::BuildRoleGroup(1),
            ReconcileStep::ApplyConfigMap(1),
            ReconcileStep::ApplyService(1),
            ReconcileStep::ApplyMetricsService(1),
            ReconcileStep::ApplyDaemonSet(1),
            ReconcileStep::PatchDaemonSet(1),
            ReconcileStep::BuildDiscovery,
            ReconcileStep::ApplyDiscovery,
            ReconcileStep::UpdateStatus,
            ReconcileStep::DeleteOrphans,
            ReconcileStep::Finished,
        ]
    );
    assert_eq!(
        reconcile_opa(ReconcileStep::ApplyRoleBinding, Ok(()), &rolegroup(), 0),
        Ok(ReconcileStep::BuildDiscovery)
    );
}

#[test]
fn failed_steps_have_their_own_errors() {
    let fail = |step| {
        reconcile_opa(step, Err(StepFailure::Outside("timeout".to_owned())), &rolegroup(), 1)
            .unwrap_err()
    };
    let failure = || RoleGroupFailure { rolegroup: rolegroup(), source: "timeout".to_owned() };
    let timeout = || "timeout".to_owned();
    assert_eq!(
        fail(ReconcileStep::CreateClusterResources),
        Error::FailedToCreateClusterResources(timeout())
    );
    assert_eq!(
        fail(ReconcileStep::TransformProductConfig),
        Error::ProductConfigTransform(timeout())
    );
    assert_eq!(fail(ReconcileStep::ValidateProductConfig), Error::InvalidProductConfig(timeout()));
    assert_eq!(fail(ReconcileStep::ApplyRoleService), Error::ApplyRoleService(timeout()));
    assert_eq!(fail(ReconcileStep::CollectRequiredLabels), Error::BuildLabel(timeout()));
    assert_eq!(fail(ReconcileStep::BuildRbacResources), Error::BuildRbacResources(timeout()));
    assert_eq!(fail(ReconcileStep::ApplyServiceAccount), Error::ApplyServiceAccount(timeout()));
    assert_eq!(fail(ReconcileStep::ApplyRoleBinding), Error::ApplyRoleBinding(timeout()));
    assert_eq!(fail(ReconcileStep::ApplyConfigMap(0)), Error::ApplyRoleGroupConfig(failure()));
    assert_eq!(fail(ReconcileStep::ApplyService(0)), Error::ApplyRoleGroupService(failure()));
    assert_eq!(
        fail(ReconcileStep::ApplyMetricsService(0)),
        Error::ApplyRoleGroupService(failure())
    );
    assert_eq!(fail(ReconcileStep::ApplyDaemonSet(0)), Error::ApplyRoleGroupDaemonSet(failure()));
    assert_eq!(
        fail(ReconcileStep::PatchDaemonSet(0)),
        Error::ApplyPatchRoleGroupDaemonSet(failure())
    );
    assert_eq!(fail(ReconcileStep::ApplyDiscovery), Error::ApplyDiscoveryConfig(timeout()));
    assert_eq!(fail(ReconcileStep::UpdateStatus), Error::ApplyStatus(timeout()));
    assert_eq!(fail(ReconcileStep::DeleteOrphans), Error::DeleteOrphans(timeout()));
    assert_eq!(
        reconcile_opa(
            ReconcileStep::BuildRoleService,
            Err(StepFailure::Build(Error::RoleServiceNameNotFound)),
            &rolegroup(),
            1,
        ),
        Err(Error::RoleServiceNameNotFound)
    );
}

#[test]
fn errors_are_retried_unless_the_object_is_invalid() {
    let invalid = start_reconcile(Err("no servers".to_owned())).unwrap_err();
    assert_eq!(invalid, Error::InvalidOpaCluster("no servers".to_owned()));
    assert_eq!(error_policy(&invalid), Action::AwaitChange);
    assert_eq!(error_policy(&Error::NoName), Action::Requeue(10));
    assert_eq!(invalid.category(), "InvalidOpaCluster");
    assert_eq!(Error::NoName.category(), "NoName");
}

#[test]
fn all_objects_of_a_role_group_are_built() {
    let build = |opa: &OpaCluster, labels: &LabelChecks| {
        build_role_group(
            opa,
            &PodInputs {
                image: &image(),
                rolegroup_ref: &rolegroup(),
                server_env: &StringMap::new(),
                merged_config: &merged_with(no_logging()),
                opa_bundle_builder_image: "bundle-builder-image",
                user_info_fetcher_image: "user-info-fetcher-image",
                service_account_name: "simple-opa-serviceaccount",
                cluster_domain: "cluster.local",
                platform: &platform(),
                labels,
            },
            &RoleGroupFiles {
                config_file: "{}",
                user_info_fetcher_file: Ok("{}"),
                vector_config: "sources: {}",
            },
        )
    };
    let objects = build(&opa(), &accepted()).ok().expect("the role group is complete");
    assert_eq!(objects.config_map.metadata.name, objects.daemonset.metadata.name);
    assert!(objects.service.metadata.name.unwrap().ends_with("-headless"));
    assert!(objects.metrics_service.metadata.name.unwrap().ends_with("-metrics"));
    let mut without_uid = opa();
    without_uid.metadata.uid = None;
    assert!(build(&without_uid, &accepted()).is_err());
    assert_eq!(
        build(&opa(), &refused_labels()).err(),
        Some(Error::ObjectMeta("too long".to_owned()))
    );
    assert_eq!(
        build(&opa(), &refused_selector()).err(),
        Some(Error::BuildLabel("no selector".to_owned()))
    );
}
