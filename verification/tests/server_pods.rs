//! Running an OPA server on every eligible node.
use stackable_opa_operator::checked::Checked;
use stackable_opa_operator::kubernetes::meta::{ObjectMeta, OwnerReference};
use stackable_opa_operator::kubernetes::pod::EnvVar;
use stackable_opa_operator::kubernetes::resources::ConfigMap;
use stackable_opa_operator::text_map::{StringMap, TextMap};
use stackable_opa_operator::v1::controller::{
    build_config_file, build_opa_start_command, product_config_properties, ApiError, ConfigMapAction,
    Error, GetError, MissingPod, NodesOfGroup, OpaState, PropertyNameKind, ReconcileFunctionAction,
    ReconcileProgress, ReconcileStep, ValidatedConfig,
};
use stackable_opa_operator::v1::crd::OpaVersion;
use stackable_opa_operator::v1::pod_utils::{build_pod_name, create_opa_start_command};

fn text_map(entries: &[(&str, &str)]) -> StringMap {
    let mut map = StringMap::new();
    for (key, value) in entries {
        map.insert(key.to_string(), value.to_string());
    }
    map
}

fn owner() -> OwnerReference {
    OwnerReference {
        api_version: "authz.stackable.tech/v1".to_owned(),
        kind: "OpenPolicyAgent".to_owned(),
        name: "simple".to_owned(),
        uid: "1".to_owned(),
        controller: Some(true),
        block_owner_deletion: Some(true),
    }
}

fn state() -> OpaState {
    OpaState {
        name: "simple".to_owned(),
        version: OpaVersion::v0_27_1,
        default_namespace: "default".to_owned(),
        owner: Checked::Valid(owner()),
    }
}

fn validated_config() -> ValidatedConfig {
    let mut files: TextMap<StringMap> = TextMap::new();
    files.insert(
        "config.yaml".to_owned(),
        text_map(&[("repoRuleReference", "http://repo/opa/v1")]),
    );
    ValidatedConfig {
        files,
        env: Some(text_map(&[("", "dropped"), ("HOME", "/root")])),
        cli: Some(text_map(&[("port", "8181")])),
    }
}

fn config_map(name: Option<&str>, data: &[(&str, &str)]) -> ConfigMap {
    ConfigMap {
        metadata: ObjectMeta {
            name: name.map(|name| name.to_owned()),
            namespace: None,
            uid: None,
            resource_version: None,
            labels: None,
            annotations: None,
            owner_references: None,
        },
        data: Some(text_map(data)),
    }
}

#[test]
fn pod_names_follow_the_pattern_in_lower_case() {
    assert_eq!(
        build_pod_name("opa", "Simple", "server", "default", "Node1.Example.com"),
        "opa-simple-default-server-node1.example.com"
    );
}

#[test]
fn start_commands_name_the_port_where_one_is_given() {
    assert_eq!(
        create_opa_start_command(Some("8181".to_owned())),
        ["./opa run", "-s", "-a 0.0.0.0:8181", "-c {{configroot}}/conf/config.yaml"]
    );
    assert_eq!(
        build_opa_start_command(None),
        ["./opa run", "-s", "-c {{configroot}}/conf/config.yaml"]
    );
}

#[test]
fn the_configuration_file_polls_the_repository() {
    assert_eq!(
        build_config_file("http://repo/opa/v1"),
        "services:
  - name: stackable
    url: http://repo/opa/v1

bundles:
  stackable:
    service: stackable
    resource: opa/bundle.tar.gz
    persist: true
    polling:
      min_delay_seconds: 10
      max_delay_seconds: 20"
    );
}

#[test]
fn pods_must_have_the_labels_of_the_cluster() {
    let labels = state().required_pod_labels();
    assert_eq!(
        labels.entries(),
        &vec![
            ("app.kubernetes.io/component".to_owned(), Some(vec!["server".to_owned()])),
            ("app.kubernetes.io/instance".to_owned(), Some(vec!["simple".to_owned()])),
            ("app.kubernetes.io/version".to_owned(), Some(vec!["0.27.1".to_owned()])),
        ]
    );
}

#[test]
fn config_maps_are_created_updated_or_left_alone() {
    let wanted = config_map(Some("cm"), &[("config.yaml", "a")]);
    let same = config_map(Some("cm"), &[("config.yaml", "a")]);
    let other = config_map(Some("cm"), &[("config.yaml", "b")]);
    let api_error = |reason: &str| {
        GetError::Api(ApiError { reason: reason.to_owned(), message: "no".to_owned() })
    };
    assert_eq!(OpaState::create_config_map(&wanted, Ok(&same)), Ok(ConfigMapAction::Skip));
    assert_eq!(OpaState::create_config_map(&wanted, Ok(&other)), Ok(ConfigMapAction::Update));
    assert_eq!(
        OpaState::create_config_map(&wanted, Err(api_error("NotFound"))),
        Ok(ConfigMapAction::Create)
    );
    assert_eq!(
        OpaState::create_config_map(&wanted, Err(api_error("Forbidden"))),
        Err(Error::OperatorFrameworkError("no".to_owned()))
    );
    assert_eq!(
        OpaState::create_config_map(&wanted, Err(GetError::Other("timeout".to_owned()))),
        Err(Error::OperatorFrameworkError("timeout".to_owned()))
    );
    assert_eq!(
        OpaState::create_config_map(&config_map(None, &[]), Ok(&same)),
        Err(Error::InvalidConfigMap)
    );
}

#[test]
fn pods_are_missing_on_named_nodes_only() {
    let mut nodes: TextMap<Vec<NodesOfGroup>> = TextMap::new();
    assert_eq!(OpaState::create_missing_pods(&nodes), vec![]);
    nodes.insert(
        "server".to_owned(),
        vec![
            NodesOfGroup {
                role_group: "default".to_owned(),
                nodes: vec![Some("a".to_owned()), None, Some("b".to_owned())],
            },
            NodesOfGroup { role_group: "other".to_owned(), nodes: vec![Some("c".to_owned())] },
        ],
    );
    let missing = |role_group: &str, node_name: &str| MissingPod {
        role_group: role_group.to_owned(),
        node_name: node_name.to_owned(),
    };
    assert_eq!(
        OpaState::create_missing_pods(&nodes),
        vec![missing("default", "a"), missing("default", "b"), missing("other", "c")]
    );
}

#[test]
fn a_pod_is_created_with_its_config_map() {
    let (pod, config_maps) = state()
        .create_pod_and_config_maps(
            "opa-simple-default-server-node1",
            "Node1",
            &validated_config(),
            text_map(&[("app.kubernetes.io/name", "opa")]),
        )
        .unwrap();

    assert_eq!(pod.metadata.name.as_deref(), Some("opa-simple-default-server-node1"));
    assert_eq!(pod.metadata.namespace.as_deref(), Some("default"));
    assert_eq!(pod.metadata.owner_references, Some(vec![owner()]));
    assert_eq!(pod.node_name, "Node1");
    assert!(pod.stackable_agent_tolerations);
    assert_eq!(pod.container.image, "opa:0.27.1");
    assert_eq!(
        pod.container.env,
        vec![EnvVar {
            name: "HOME".to_owned(),
            value: Some("/root".to_owned()),
            value_from: None,
        }]
    );
    assert_eq!(pod.container.command[2], "-a 0.0.0.0:8181");
    assert_eq!(
        pod.container.config_map_volumes[0].name,
        "opa-simple-default-server-node1-config"
    );
    assert_eq!(pod.container.config_map_volumes[0].path, "conf");

    assert_eq!(config_maps.len(), 1);
    assert_eq!(
        config_maps[0].metadata.name.as_deref(),
        Some("opa-simple-default-server-node1-config")
    );
    assert_eq!(
        config_maps[0].data.as_ref().unwrap().get("config.yaml"),
        Some(&build_config_file("http://repo/opa/v1"))
    );
}

#[test]
fn without_a_port_there_is_no_command() {
    let mut config = validated_config();
    config.cli = None;
    config.files = TextMap::new();
    let (pod, config_maps) = state()
        .create_pod_and_config_maps("opa-simple-default-server-n", "n", &config, text_map(&[]))
        .unwrap();
    assert!(pod.container.command.is_empty());
    assert_eq!(config_maps[0].data, Some(text_map(&[])));
}

#[test]
fn a_cluster_that_cannot_own_objects_is_an_error() {
    let mut state = state();
    state.owner = Checked::Invalid("no uid".to_owned());
    let result = state.create_pod_and_config_maps(
        "opa-simple-default-server-n",
        "n",
        &validated_config(),
        text_map(&[]),
    );
    assert_eq!(result, Err(Error::OperatorFrameworkError("no uid".to_owned())));
}

#[test]
fn a_reconciliation_goes_on_only_when_told_to() {
    let mut step = ReconcileStep::DeleteIllegalPods;
    let mut seen = vec![step];
    while let Ok(ReconcileProgress::Step(next)) =
        OpaState::reconcile(step, Ok(ReconcileFunctionAction::Continue))
    {
        seen.push(next);
        step = next;
    }
    assert_eq!(
        seen,
        [
            ReconcileStep::DeleteIllegalPods,
            ReconcileStep::WaitForTerminatingPods,
            ReconcileStep::WaitForRunningAndReadyPods,
            ReconcileStep::DeleteExcessPods,
            ReconcileStep::CreateMissingPods,
        ]
    );
    assert_eq!(
        OpaState::reconcile(
            ReconcileStep::WaitForTerminatingPods,
            Ok(ReconcileFunctionAction::Requeue(10)),
        ),
        Ok(ReconcileProgress::Finished(ReconcileFunctionAction::Requeue(10)))
    );
    assert_eq!(
        OpaState::reconcile(ReconcileStep::DeleteExcessPods, Err("timeout".to_owned())),
        Err(Error::OperatorFrameworkError("timeout".to_owned()))
    );
}

#[test]
fn product_configuration_is_asked_for_files_and_arguments() {
    assert_eq!(
        product_config_properties().entries(),
        &vec![(
            "server".to_owned(),
            vec![PropertyNameKind::File("config.yaml".to_owned()), PropertyNameKind::Cli],
        )]
    );
}
